//! Idle connections and shared HTTP/2 sessions of a client.

use vstd::prelude::*;

use crate::time::Duration;
use crate::time::Instant;
use crate::web::config::Limits;
use crate::web::config::Protocol;
use crate::web::uri::UriTarget;
use crate::web::uri::UriTargetView;

verus! {

/// A character with an ASCII letter in lower case.
pub open spec fn lower_char(character: char) -> char {
    if 'A' <= character <= 'Z' {
        ((character as u32) + 32) as char
    } else {
        character
    }
}

/// Text with its ASCII letters in lower case.
pub open spec fn lower_text(text: Seq<char>) -> Seq<char> {
    text.map_values(|character: char| lower_char(character))
}

/// `str::to_ascii_lowercase`: maps the ASCII letters `A` to `Z` to `a` to `z`
/// and leaves every other character alone.
#[verifier::external_body]
fn ascii_lowercase(text: &str) -> (lower: String)
    ensures
        lower@ == lower_text(text@),
{
    text.to_ascii_lowercase()
}

/// What connections have in common when one can stand for another.
#[verifier::ext_equal]
pub struct PoolKeyView {
    /// Whether the connection is encrypted.
    pub tls: bool,
    /// The host, in lower case.
    pub host: Seq<char>,
    /// The port.
    pub port: u16,
    /// The protocol that was asked for.
    pub requested_protocol: Protocol,
    /// The protocol that is spoken.
    pub wire_protocol: Protocol,
}

/// What connections have in common when one can stand for another.
#[derive(Debug)]
pub struct PoolKey {
    /// Whether the connection is encrypted.
    pub tls: bool,
    /// The host, in lower case.
    pub host: String,
    /// The port.
    pub port: u16,
    /// The protocol that was asked for.
    pub requested_protocol: Protocol,
    /// The protocol that is spoken.
    pub wire_protocol: Protocol,
}

impl View for PoolKey {
    type V = PoolKeyView;

    open spec fn view(&self) -> PoolKeyView {
        PoolKeyView {
            tls: self.tls,
            host: self.host@,
            port: self.port,
            requested_protocol: self.requested_protocol,
            wire_protocol: self.wire_protocol,
        }
    }
}

/// The key of a connection to a target.
pub open spec fn pool_key(
    target: UriTargetView,
    requested_protocol: Protocol,
    wire_protocol: Protocol,
) -> PoolKeyView {
    PoolKeyView {
        tls: target.tls,
        host: lower_text(target.host),
        port: target.port,
        requested_protocol,
        wire_protocol,
    }
}

/// Whether a connection with this key leads to the target and was asked for
/// with the same protocol. The host is compared without regard to case.
pub open spec fn key_matches(
    key: PoolKeyView,
    target: UriTargetView,
    requested_protocol: Protocol,
) -> bool {
    &&& key.tls == target.tls
    &&& lower_text(key.host) == lower_text(target.host)
    &&& key.port == target.port
    &&& key.requested_protocol == requested_protocol
}

impl PoolKey {
    /// The key of a connection to `target`.
    pub fn new(target: &UriTarget, requested_protocol: Protocol, wire_protocol: Protocol) -> (key:
        PoolKey)
        ensures
            key@ == pool_key(target@, requested_protocol, wire_protocol),
    {
        PoolKey {
            tls: target.tls,
            host: ascii_lowercase(target.host.as_str()),
            port: target.port,
            requested_protocol,
            wire_protocol,
        }
    }

    /// Whether a connection with this key serves a request to `target`.
    pub fn matches(&self, target: &UriTarget, requested_protocol: Protocol) -> (matches: bool)
        ensures
            matches == key_matches(self@, target@, requested_protocol),
    {
        self.tls == target.tls && ascii_lowercase(self.host.as_str()) == ascii_lowercase(
            target.host.as_str(),
        ) && self.port == target.port && self.requested_protocol == requested_protocol
    }

    /// Whether two keys are equal.
    pub fn same_as(&self, other: &PoolKey) -> (same: bool)
        ensures
            same == (self@ == other@),
    {
        self.tls == other.tls && self.host == other.host && self.port == other.port
            && self.requested_protocol == other.requested_protocol && self.wire_protocol
            == other.wire_protocol
    }

    /// The same key again.
    pub fn duplicate(&self) -> (key: PoolKey)
        ensures
            key@ == self@,
    {
        PoolKey {
            tls: self.tls,
            host: self.host.clone(),
            port: self.port,
            requested_protocol: self.requested_protocol,
            wire_protocol: self.wire_protocol,
        }
    }
}

/// How busy a shared HTTP/2 session is.
#[derive(Clone, Copy, Debug)]
pub struct H2SessionState {
    /// Whether the session takes requests.
    pub usable: bool,
    /// Whether the connection stands.
    pub connected: bool,
    /// How many requests the peer takes at once.
    pub capacity: usize,
    /// How many requests are reserved or running.
    pub active: usize,
    /// How many requests are done.
    pub completed: usize,
    /// How many requests the session may serve.
    pub max_requests: usize,
    /// Since when the session is idle.
    pub idle_since: Option<Instant>,
    /// The number of the next request.
    pub next_request_id: u64,
    /// Whether the session was told to stop.
    pub shutdown: bool,
}

impl H2SessionState {
    /// The session when a reservation came back whose request was never started.
    pub open spec fn released(self) -> H2SessionState {
        H2SessionState {
            active: if self.active > 0 {
                (self.active - 1) as usize
            } else {
                0
            },
            ..self
        }
    }

    /// Gives back a reservation whose request was never started.
    pub fn release_unstarted(&mut self)
        ensures
            *final(self) == old(self).released(),
    {
        self.active = self.active.saturating_sub(1);
    }
}

/// A shared HTTP/2 session.
pub struct H2Session {
    /// The number of the session.
    pub id: u64,
    /// Where the session leads.
    pub key: PoolKey,
    /// How busy it is.
    pub state: H2SessionState,
}

/// The right to submit one request to a session.
#[derive(Debug)]
pub struct H2SessionSlot {
    /// The session.
    pub session_id: u64,
    /// The number of the request.
    pub request_id: u64,
    /// Whether the connection served another request before.
    pub reused: bool,
    /// Whether the reservation has to be given back.
    pub armed: bool,
}

/// The lesser of a sum and the largest `usize`.
pub open spec fn saturated_sum(left: usize, right: usize) -> int {
    if left + right <= usize::MAX {
        left + right
    } else {
        usize::MAX as int
    }
}

/// The next number, which starts over behind the largest.
pub open spec fn following(number: u64) -> u64 {
    if number == u64::MAX {
        0
    } else {
        (number + 1) as u64
    }
}

impl H2SessionState {
    /// Whether the session takes one more request.
    pub open spec fn has_room(self) -> bool {
        &&& self.usable
        &&& self.active < self.capacity
        &&& saturated_sum(self.completed, self.active) < self.max_requests
    }

    /// The session after a reservation.
    pub open spec fn reserved(self) -> H2SessionState {
        H2SessionState {
            active: (self.active + 1) as usize,
            idle_since: None,
            next_request_id: following(self.next_request_id),
            ..self
        }
    }

    /// Whether the session has nothing to do and is known to be idle.
    pub open spec fn is_idle(self) -> bool {
        self.active == 0 && self.idle_since is Some
    }

    /// Whether a request on the session follows another one on the same
    /// connection.
    pub open spec fn has_history(self) -> bool {
        self.connected && (self.completed != 0 || self.active != 0)
    }
}

impl H2Session {
    /// Creates a session that takes requests.
    pub fn new(id: u64, key: PoolKey, limits: Limits, connected: bool, completed: usize) -> (session:
        H2Session)
        ensures
            session.id == id,
            session.key == key,
            session.state == (H2SessionState {
                usable: true,
                connected,
                capacity: limits@.max_active_streams,
                active: 0,
                completed,
                max_requests: limits@.max_requests_per_connection,
                idle_since: None,
                next_request_id: 1,
                shutdown: false,
            }),
    {
        H2Session {
            id,
            key,
            state: H2SessionState {
                usable: true,
                connected,
                capacity: limits.max_active_streams(),
                active: 0,
                completed,
                max_requests: limits.max_requests_per_connection(),
                idle_since: None,
                next_request_id: 1,
                shutdown: false,
            },
        }
    }

    /// Reserves room for one request, when there is some.
    pub fn try_reserve(&mut self) -> (slot: Option<H2SessionSlot>)
        ensures
            final(self).id == old(self).id,
            final(self).key == old(self).key,
            if old(self).state.has_room() {
                &&& final(self).state == old(self).state.reserved()
                &&& slot == Some(
                    H2SessionSlot {
                        session_id: old(self).id,
                        request_id: old(self).state.next_request_id,
                        reused: old(self).state.has_history(),
                        armed: true,
                    },
                )
            } else {
                slot is None && final(self).state == old(self).state
            },
    {
        let state = &self.state;
        if !state.usable || state.active >= state.capacity || state.completed.saturating_add(
            state.active,
        ) >= state.max_requests {
            return None;
        }
        let reused = state.connected && (state.completed != 0 || state.active != 0);
        let request_id: u64 = state.next_request_id;
        self.state.next_request_id = if request_id == u64::MAX {
            0
        } else {
            request_id + 1
        };
        self.state.active = self.state.active + 1;
        self.state.idle_since = None;
        Some(H2SessionSlot { session_id: self.id, request_id, reused, armed: true })
    }

    /// Gives back a reservation whose request was never started.
    pub fn release_unstarted(&mut self)
        ensures
            final(self).id == old(self).id,
            final(self).key == old(self).key,
            final(self).state == old(self).state.released(),
    {
        self.state.release_unstarted();
    }

    /// Tells the session to stop and to take no more requests.
    pub fn shutdown(&mut self)
        ensures
            final(self).id == old(self).id,
            final(self).key == old(self).key,
            final(self).state == (H2SessionState {
                usable: false,
                shutdown: true,
                ..old(self).state
            }),
    {
        self.state.usable = false;
        self.state.shutdown = true;
    }
}

/// The session after a slot on it was given up: the reservation comes back
/// when its request was never started.
pub open spec fn given_back(session: H2Session, armed: bool) -> H2Session {
    if armed && session.state.active > 0 {
        H2Session {
            state: H2SessionState {
                active: (session.state.active - 1) as usize,
                ..session.state
            },
            ..session
        }
    } else {
        session
    }
}

impl H2SessionSlot {
    /// Keeps the reservation when the slot is given up.
    pub fn disarm(&mut self)
        ensures
            *final(self) == (H2SessionSlot { armed: false, ..*old(self) }),
    {
        self.armed = false;
    }

    /// Gives the slot up. A reservation whose request was never started goes
    /// back to the session.
    pub fn leave(self, session: &mut H2Session)
        requires
            old(session).id == self.session_id,
        ensures
            *final(session) == given_back(*old(session), self.armed),
    {
        if self.armed {
            session.release_unstarted();
        }
    }
}

/// A reservation that comes back leaves the session as busy as before it was
/// made, and changes nothing else.
pub proof fn released_reservations_leave_no_trace(state: H2SessionState)
    requires
        state.active < usize::MAX,
    ensures
        (H2SessionState { active: (state.active + 1) as usize, ..state }).released() == state,
{
}

/// Giving an unstarted slot up undoes its reservation.
pub proof fn unstarted_slot_returns_its_room(state: H2SessionState)
    requires
        state.has_room(),
    ensures
        state.reserved().active == state.active + 1,
        (H2SessionState {
            active: (state.reserved().active - 1) as usize,
            ..state.reserved()
        }).active == state.active,
{
}

/// A session never runs more requests at once than the peer takes, nor more in
/// all than it may serve.
pub proof fn reservations_respect_limits(state: H2SessionState)
    requires
        state.has_room(),
    ensures
        state.reserved().active <= state.capacity,
        state.completed + state.reserved().active <= state.max_requests,
{
}

/// An idle HTTP/1 connection.
pub struct IdleConnection<C> {
    /// Where the connection leads.
    pub key: PoolKey,
    /// The connection.
    pub connection: C,
    /// Since when it is idle.
    pub idle_since: Instant,
}

/// Idle connections and sessions of a client.
pub struct PoolState<C> {
    /// The idle HTTP/1 connections, oldest first.
    pub idle: Vec<IdleConnection<C>>,
    /// The shared HTTP/2 sessions, oldest first.
    pub sessions: Vec<H2Session>,
    /// The number of the next session.
    pub next_session_id: u64,
}

/// What left the pool and has to be closed.
pub struct PoolEvictions<C> {
    /// Connections to close.
    pub connections: Vec<C>,
    /// Sessions to stop.
    pub sessions: Vec<H2Session>,
}

/// The contents of a pool.
#[verifier::ext_equal]
pub struct PoolView<C> {
    /// The idle HTTP/1 connections.
    pub idle: Seq<IdleConnection<C>>,
    /// The shared HTTP/2 sessions.
    pub sessions: Seq<H2Session>,
    /// The number of the next session.
    pub next_session_id: u64,
}

/// What left a pool.
#[verifier::ext_equal]
pub struct EvictionsView<C> {
    /// Connections to close.
    pub connections: Seq<C>,
    /// Sessions to stop.
    pub sessions: Seq<H2Session>,
}

impl<C> View for PoolState<C> {
    type V = PoolView<C>;

    open spec fn view(&self) -> PoolView<C> {
        PoolView {
            idle: self.idle@,
            sessions: self.sessions@,
            next_session_id: self.next_session_id,
        }
    }
}

impl<C> View for PoolEvictions<C> {
    type V = EvictionsView<C>;

    open spec fn view(&self) -> EvictionsView<C> {
        EvictionsView { connections: self.connections@, sessions: self.sessions@ }
    }
}

/// Whether something that is idle since `since` has been so for too long.
pub open spec fn too_long_idle(since: int, now: int, timeout: int) -> bool {
    crate::time::elapsed(since, now) >= timeout
}

/// Whether a session leaves the pool: it is idle for too long, or it takes no
/// more requests.
pub open spec fn session_expired(session: H2Session, now: int, timeout: int) -> bool {
    ||| !session.state.usable
    ||| session.state.active == 0 && session.state.idle_since is Some && too_long_idle(
        session.state.idle_since->0@,
        now,
        timeout,
    )
}

/// The idle connections that stay.
pub open spec fn fresh_idle<C>(idle: Seq<IdleConnection<C>>, now: int, timeout: int) -> Seq<
    IdleConnection<C>,
>
    decreases idle.len(),
{
    if idle.len() == 0 {
        Seq::empty()
    } else {
        let rest = fresh_idle(idle.drop_last(), now, timeout);
        if too_long_idle(idle.last().idle_since@, now, timeout) {
            rest
        } else {
            rest.push(idle.last())
        }
    }
}

/// The idle connections that leave.
pub open spec fn stale_idle<C>(idle: Seq<IdleConnection<C>>, now: int, timeout: int) -> Seq<C>
    decreases idle.len(),
{
    if idle.len() == 0 {
        Seq::empty()
    } else {
        let rest = stale_idle(idle.drop_last(), now, timeout);
        if too_long_idle(idle.last().idle_since@, now, timeout) {
            rest.push(idle.last().connection)
        } else {
            rest
        }
    }
}

/// The sessions that stay.
pub open spec fn fresh_sessions(sessions: Seq<H2Session>, now: int, timeout: int) -> Seq<H2Session>
    decreases sessions.len(),
{
    if sessions.len() == 0 {
        Seq::empty()
    } else {
        let rest = fresh_sessions(sessions.drop_last(), now, timeout);
        if session_expired(sessions.last(), now, timeout) {
            rest
        } else {
            rest.push(sessions.last())
        }
    }
}

/// The sessions that leave.
pub open spec fn stale_sessions(sessions: Seq<H2Session>, now: int, timeout: int) -> Seq<H2Session>
    decreases sessions.len(),
{
    if sessions.len() == 0 {
        Seq::empty()
    } else {
        let rest = stale_sessions(sessions.drop_last(), now, timeout);
        if session_expired(sessions.last(), now, timeout) {
            rest.push(sessions.last())
        } else {
            rest
        }
    }
}

/// Whether something with this key counts, when a key is asked for.
pub open spec fn counts(key: PoolKeyView, wanted: Option<PoolKeyView>) -> bool {
    wanted is None || wanted == Some(key)
}

/// How many idle connections count.
pub open spec fn counted_idle<C>(
    idle: Seq<IdleConnection<C>>,
    wanted: Option<PoolKeyView>,
) -> nat
    decreases idle.len(),
{
    if idle.len() == 0 {
        0
    } else {
        counted_idle(idle.drop_last(), wanted) + if counts(idle.last().key@, wanted) {
            1nat
        } else {
            0nat
        }
    }
}

/// Whether an idle session counts.
pub open spec fn session_counts(session: H2Session, wanted: Option<PoolKeyView>) -> bool {
    counts(session.key@, wanted) && session.state.is_idle()
}

/// How many idle sessions count.
pub open spec fn counted_sessions(sessions: Seq<H2Session>, wanted: Option<PoolKeyView>) -> nat
    decreases sessions.len(),
{
    if sessions.len() == 0 {
        0
    } else {
        counted_sessions(sessions.drop_last(), wanted) + if session_counts(
            sessions.last(),
            wanted,
        ) {
            1nat
        } else {
            0nat
        }
    }
}

/// The connection that is idle longest among those that count, the first of
/// several.
pub open spec fn oldest_connection<C>(
    idle: Seq<IdleConnection<C>>,
    wanted: Option<PoolKeyView>,
) -> Option<int>
    decreases idle.len(),
{
    if idle.len() == 0 {
        None
    } else {
        let before = oldest_connection(idle.drop_last(), wanted);
        if counts(idle.last().key@, wanted) && (before is None || idle.last().idle_since@
            < idle[before->0].idle_since@) {
            Some(idle.len() - 1)
        } else {
            before
        }
    }
}

/// The session that is idle longest among those that count, the first of
/// several.
pub open spec fn oldest_session(
    sessions: Seq<H2Session>,
    wanted: Option<PoolKeyView>,
) -> Option<int>
    decreases sessions.len(),
{
    if sessions.len() == 0 {
        None
    } else {
        let before = oldest_session(sessions.drop_last(), wanted);
        if session_counts(sessions.last(), wanted) && (before is None
            || sessions.last().state.idle_since->0@ < sessions[before->0].state.idle_since->0@) {
            Some(sessions.len() - 1)
        } else {
            before
        }
    }
}

/// What is evicted first.
pub enum OldestIdle {
    /// A connection.
    Connection(int),
    /// A session.
    Session(int),
    /// There is nothing to evict.
    Nothing,
}

impl<C> PoolView<C> {
    /// How many idle connections and sessions count.
    pub open spec fn idle_count(self, wanted: Option<PoolKeyView>) -> nat {
        counted_idle(self.idle, wanted) + counted_sessions(self.sessions, wanted)
    }

    /// What is idle longest among what counts. A connection goes before a
    /// session that is idle as long.
    pub open spec fn oldest(self, wanted: Option<PoolKeyView>) -> OldestIdle {
        match (oldest_connection(self.idle, wanted), oldest_session(self.sessions, wanted)) {
            (Some(left), Some(right)) => if self.idle[left].idle_since@
                <= self.sessions[right].state.idle_since->0@ {
                OldestIdle::Connection(left)
            } else {
                OldestIdle::Session(right)
            },
            (Some(left), None) => OldestIdle::Connection(left),
            (None, Some(right)) => OldestIdle::Session(right),
            (None, None) => OldestIdle::Nothing,
        }
    }

    /// The pool without what is idle longest.
    pub open spec fn without_oldest(self, wanted: Option<PoolKeyView>) -> PoolView<C> {
        match self.oldest(wanted) {
            OldestIdle::Connection(index) => PoolView { idle: self.idle.remove(index), ..self },
            OldestIdle::Session(index) => PoolView {
                sessions: self.sessions.remove(index),
                ..self
            },
            OldestIdle::Nothing => self,
        }
    }

    /// What was evicted, with what is idle longest added.
    pub open spec fn with_oldest(
        self,
        wanted: Option<PoolKeyView>,
        evicted: EvictionsView<C>,
    ) -> EvictionsView<C> {
        match self.oldest(wanted) {
            OldestIdle::Connection(index) => EvictionsView {
                connections: evicted.connections.push(self.idle[index].connection),
                ..evicted
            },
            OldestIdle::Session(index) => EvictionsView {
                sessions: evicted.sessions.push(self.sessions[index]),
                ..evicted
            },
            OldestIdle::Nothing => evicted,
        }
    }
}

proof fn counted_idle_bounds<C>(idle: Seq<IdleConnection<C>>, wanted: Option<PoolKeyView>)
    ensures
        counted_idle(idle, wanted) <= idle.len(),
    decreases idle.len(),
{
    if idle.len() > 0 {
        counted_idle_bounds(idle.drop_last(), wanted);
    }
}

proof fn counted_sessions_bounds(sessions: Seq<H2Session>, wanted: Option<PoolKeyView>)
    ensures
        counted_sessions(sessions, wanted) <= sessions.len(),
    decreases sessions.len(),
{
    if sessions.len() > 0 {
        counted_sessions_bounds(sessions.drop_last(), wanted);
    }
}

/// The connection that is evicted first counts, no other that counts is idle
/// longer, and there is one whenever one counts.
pub proof fn oldest_connection_is_oldest<C>(
    idle: Seq<IdleConnection<C>>,
    wanted: Option<PoolKeyView>,
)
    ensures
        match oldest_connection(idle, wanted) {
            Some(index) => {
                &&& 0 <= index < idle.len()
                &&& counts(idle[index].key@, wanted)
                &&& counted_idle(idle, wanted) > 0
                &&& forall|i: int|
                    0 <= i < idle.len() && counts((#[trigger] idle[i]).key@, wanted)
                        ==> idle[index].idle_since@ <= idle[i].idle_since@
            },
            None => {
                &&& counted_idle(idle, wanted) == 0
                &&& forall|i: int|
                    0 <= i < idle.len() ==> !counts((#[trigger] idle[i]).key@, wanted)
            },
        },
    decreases idle.len(),
{
    if idle.len() > 0 {
        let head = idle.drop_last();
        oldest_connection_is_oldest(head, wanted);
        assert forall|i: int| 0 <= i < idle.len() - 1 implies head[i] == #[trigger] idle[i] by {}
    }
}

/// The session that is evicted first counts, no other that counts is idle
/// longer, and there is one whenever one counts.
pub proof fn oldest_session_is_oldest(sessions: Seq<H2Session>, wanted: Option<PoolKeyView>)
    ensures
        match oldest_session(sessions, wanted) {
            Some(index) => {
                &&& 0 <= index < sessions.len()
                &&& session_counts(sessions[index], wanted)
                &&& counted_sessions(sessions, wanted) > 0
                &&& forall|i: int|
                    0 <= i < sessions.len() && session_counts(#[trigger] sessions[i], wanted)
                        ==> sessions[index].state.idle_since->0@
                        <= sessions[i].state.idle_since->0@
            },
            None => {
                &&& counted_sessions(sessions, wanted) == 0
                &&& forall|i: int|
                    0 <= i < sessions.len() ==> !session_counts(#[trigger] sessions[i], wanted)
            },
        },
    decreases sessions.len(),
{
    if sessions.len() > 0 {
        let head = sessions.drop_last();
        oldest_session_is_oldest(head, wanted);
        assert forall|i: int| 0 <= i < sessions.len() - 1 implies head[i] == #[trigger] sessions[i] by {}
    }
}

proof fn counted_idle_after_remove<C>(
    idle: Seq<IdleConnection<C>>,
    wanted: Option<PoolKeyView>,
    index: int,
)
    requires
        0 <= index < idle.len(),
    ensures
        counted_idle(idle, wanted) == counted_idle(idle.remove(index), wanted) + if counts(
            idle[index].key@,
            wanted,
        ) {
            1nat
        } else {
            0nat
        },
    decreases idle.len(),
{
    if index == idle.len() - 1 {
        assert(idle.remove(index) =~= idle.drop_last());
    } else {
        counted_idle_after_remove(idle.drop_last(), wanted, index);
        assert(idle.remove(index).drop_last() =~= idle.drop_last().remove(index));
        assert(idle.remove(index).last() == idle.last());
    }
}

proof fn counted_sessions_after_remove(
    sessions: Seq<H2Session>,
    wanted: Option<PoolKeyView>,
    index: int,
)
    requires
        0 <= index < sessions.len(),
    ensures
        counted_sessions(sessions, wanted) == counted_sessions(sessions.remove(index), wanted)
            + if session_counts(sessions[index], wanted) {
            1nat
        } else {
            0nat
        },
    decreases sessions.len(),
{
    if index == sessions.len() - 1 {
        assert(sessions.remove(index) =~= sessions.drop_last());
    } else {
        counted_sessions_after_remove(sessions.drop_last(), wanted, index);
        assert(sessions.remove(index).drop_last() =~= sessions.drop_last().remove(index));
        assert(sessions.remove(index).last() == sessions.last());
    }
}

/// Evicting what is idle longest lowers the count by one, unless it is zero.
pub proof fn eviction_lowers_the_count<C>(pool: PoolView<C>, wanted: Option<PoolKeyView>)
    ensures
        pool.idle_count(wanted) > 0 ==> pool.without_oldest(wanted).idle_count(wanted) + 1
            == pool.idle_count(wanted),
        pool.idle_count(wanted) == 0 ==> pool.without_oldest(wanted) == pool,
        pool.without_oldest(wanted).idle.len() <= pool.idle.len(),
        pool.without_oldest(wanted).sessions.len() <= pool.sessions.len(),
{
    oldest_connection_is_oldest(pool.idle, wanted);
    oldest_session_is_oldest(pool.sessions, wanted);
    match pool.oldest(wanted) {
        OldestIdle::Connection(index) => {
            counted_idle_after_remove(pool.idle, wanted, index);
        },
        OldestIdle::Session(index) => {
            counted_sessions_after_remove(pool.sessions, wanted, index);
        },
        OldestIdle::Nothing => {},
    }
}

/// The pool after evictions down to `cap` of what counts.
pub open spec fn capped<C>(pool: PoolView<C>, wanted: Option<PoolKeyView>, cap: nat) -> PoolView<C>
    decreases pool.idle_count(wanted),
{
    if pool.idle_count(wanted) <= cap {
        pool
    } else {
        proof {
            eviction_lowers_the_count(pool, wanted);
        }
        capped(pool.without_oldest(wanted), wanted, cap)
    }
}

/// What was evicted down to `cap` of what counts.
pub open spec fn capped_evictions<C>(
    pool: PoolView<C>,
    wanted: Option<PoolKeyView>,
    cap: nat,
    evicted: EvictionsView<C>,
) -> EvictionsView<C>
    decreases pool.idle_count(wanted),
{
    if pool.idle_count(wanted) <= cap {
        evicted
    } else {
        proof {
            eviction_lowers_the_count(pool, wanted);
        }
        capped_evictions(
            pool.without_oldest(wanted),
            wanted,
            cap,
            pool.with_oldest(wanted, evicted),
        )
    }
}

/// The pool after both caps were enforced: that of the key, then that of the
/// whole pool.
pub open spec fn fully_capped<C>(
    pool: PoolView<C>,
    key: PoolKeyView,
    per_key: nat,
    total: nat,
) -> PoolView<C> {
    capped(capped(pool, Some(key), per_key), None, total)
}

/// What both caps evicted.
pub open spec fn full_evictions<C>(
    pool: PoolView<C>,
    key: PoolKeyView,
    per_key: nat,
    total: nat,
) -> EvictionsView<C> {
    capped_evictions(
        capped(pool, Some(key), per_key),
        None,
        total,
        capped_evictions(
            pool,
            Some(key),
            per_key,
            EvictionsView { connections: Seq::empty(), sessions: Seq::empty() },
        ),
    )
}

/// The pool after what expired was evicted.
pub open spec fn unexpired<C>(pool: PoolView<C>, now: int, timeout: int) -> PoolView<C> {
    PoolView {
        idle: fresh_idle(pool.idle, now, timeout),
        sessions: fresh_sessions(pool.sessions, now, timeout),
        ..pool
    }
}

/// What expired.
pub open spec fn expirations<C>(pool: PoolView<C>, now: int, timeout: int) -> EvictionsView<C> {
    EvictionsView {
        connections: stale_idle(pool.idle, now, timeout),
        sessions: stale_sessions(pool.sessions, now, timeout),
    }
}

impl<C> PoolEvictions<C> {
    /// Nothing was evicted.
    pub fn new() -> (evictions: PoolEvictions<C>)
        ensures
            evictions@ == (EvictionsView::<C> {
                connections: Seq::empty(),
                sessions: Seq::empty(),
            }),
    {
        PoolEvictions { connections: Vec::new(), sessions: Vec::new() }
    }

    /// Adds what was evicted later.
    pub fn extend(&mut self, other: PoolEvictions<C>)
        ensures
            final(self)@ == (EvictionsView {
                connections: old(self)@.connections + other@.connections,
                sessions: old(self)@.sessions + other@.sessions,
            }),
    {
        let mut other = other;
        self.connections.append(&mut other.connections);
        self.sessions.append(&mut other.sessions);
    }
}

impl<C> PoolState<C> {
    /// An empty pool.
    pub fn new() -> (pool: PoolState<C>)
        ensures
            pool@ == (PoolView::<C> {
                idle: Seq::empty(),
                sessions: Seq::empty(),
                next_session_id: 0,
            }),
    {
        PoolState { idle: Vec::new(), sessions: Vec::new(), next_session_id: 0 }
    }

    /// Evicts what was idle for `idle_timeout` or longer, and sessions that
    /// take no more requests.
    pub fn evict_expired(&mut self, now: Instant, idle_timeout: Duration) -> (expired:
        PoolEvictions<C>)
        ensures
            final(self)@ == unexpired(old(self)@, now@, idle_timeout@),
            expired@ == expirations(old(self)@, now@, idle_timeout@),
    {
        let mut connections: Vec<C> = Vec::new();
        let mut position: usize = 0;
        let ghost before = self.idle@;
        let ghost mut seen: int = 0;
        proof {
            assert(before.take(0) =~= Seq::empty());
            assert(self.idle@ =~= Seq::empty() + before.skip(0));
        }
        while position < self.idle.len()
            invariant
                0 <= seen <= before.len(),
                self.idle@ == fresh_idle(before.take(seen), now@, idle_timeout@) + before.skip(
                    seen,
                ),
                position == fresh_idle(before.take(seen), now@, idle_timeout@).len(),
                connections@ == stale_idle(before.take(seen), now@, idle_timeout@),
                self.sessions@ == old(self).sessions@,
                self.next_session_id == old(self).next_session_id,
            decreases before.len() - seen,
        {
            proof {
                assert(self.idle@[position as int] == before[seen]);
                assert(before.take(seen + 1).drop_last() =~= before.take(seen));
                assert(before.take(seen + 1).last() == before[seen]);
            }
            if now.saturating_duration_since(self.idle[position].idle_since).covers(idle_timeout) {
                let entry = self.idle.remove(position);
                connections.push(entry.connection);
                proof {
                    assert(self.idle@ =~= fresh_idle(before.take(seen), now@, idle_timeout@)
                        + before.skip(seen + 1));
                }
            } else {
                position = position + 1;
                proof {
                    assert(self.idle@ =~= fresh_idle(before.take(seen), now@, idle_timeout@).push(
                        before[seen],
                    ) + before.skip(seen + 1));
                }
            }
            proof {
                seen = seen + 1;
            }
        }
        proof {
            assert(seen == before.len());
            assert(before.take(seen) =~= before);
            assert(self.idle@ =~= fresh_idle(before, now@, idle_timeout@));
        }
        let mut sessions: Vec<H2Session> = Vec::new();
        let ghost kept_idle = self.idle@;
        let ghost before = self.sessions@;
        let ghost mut seen: int = 0;
        position = 0;
        proof {
            assert(before.take(0) =~= Seq::empty());
            assert(self.sessions@ =~= Seq::empty() + before.skip(0));
        }
        while position < self.sessions.len()
            invariant
                0 <= seen <= before.len(),
                self.sessions@ == fresh_sessions(before.take(seen), now@, idle_timeout@)
                    + before.skip(seen),
                position == fresh_sessions(before.take(seen), now@, idle_timeout@).len(),
                sessions@ == stale_sessions(before.take(seen), now@, idle_timeout@),
                self.idle@ == kept_idle,
                self.next_session_id == old(self).next_session_id,
            decreases before.len() - seen,
        {
            proof {
                assert(self.sessions@[position as int] == before[seen]);
                assert(before.take(seen + 1).drop_last() =~= before.take(seen));
                assert(before.take(seen + 1).last() == before[seen]);
            }
            let state = &self.sessions[position].state;
            let expired_idle = match state.idle_since {
                Some(idle_since) => state.active == 0 && now.saturating_duration_since(
                    idle_since,
                ).covers(idle_timeout),
                None => false,
            };
            let unusable = !state.usable;
            if expired_idle || unusable {
                let session = self.sessions.remove(position);
                sessions.push(session);
                proof {
                    assert(self.sessions@ =~= fresh_sessions(before.take(seen), now@, idle_timeout@)
                        + before.skip(seen + 1));
                }
            } else {
                position = position + 1;
                proof {
                    assert(self.sessions@ =~= fresh_sessions(
                        before.take(seen),
                        now@,
                        idle_timeout@,
                    ).push(before[seen]) + before.skip(seen + 1));
                }
            }
            proof {
                seen = seen + 1;
            }
        }
        proof {
            assert(seen == before.len());
            assert(before.take(seen) =~= before);
            assert(self.sessions@ =~= fresh_sessions(before, now@, idle_timeout@));
        }
        PoolEvictions { connections, sessions }
    }

    fn counts_key(key: &PoolKey, wanted: Option<&PoolKey>) -> (counted: bool)
        ensures
            counted == counts(
                key@,
                match wanted {
                    Some(wanted) => Some(wanted@),
                    None => None,
                },
            ),
    {
        match wanted {
            Some(wanted) => key.same_as(wanted),
            None => true,
        }
    }

    /// How many idle connections and sessions have the key, or how many there
    /// are in all.
    pub fn idle_count(&self, key: Option<&PoolKey>) -> (count: usize)
        requires
            self.idle@.len() + self.sessions@.len() <= usize::MAX,
        ensures
            count == self@.idle_count(
                match key {
                    Some(key) => Some(key@),
                    None => None,
                },
            ),
    {
        let ghost wanted = match key {
            Some(key) => Some(key@),
            None => None,
        };
        let mut count: usize = 0;
        let mut index: usize = 0;
        while index < self.idle.len()
            invariant
                wanted == (match key {
                    Some(key) => Some(key@),
                    None => None,
                }),
                index <= self.idle@.len(),
                count == counted_idle(self.idle@.take(index as int), wanted),
                count <= index,
            decreases self.idle@.len() - index,
        {
            proof {
                assert(self.idle@.take(index as int + 1).drop_last() =~= self.idle@.take(
                    index as int,
                ));
            }
            if Self::counts_key(&self.idle[index].key, key) {
                count = count + 1;
            }
            index = index + 1;
        }
        let ghost connections = count;
        proof {
            assert(self.idle@.take(index as int) =~= self.idle@);
        }
        index = 0;
        while index < self.sessions.len()
            invariant
                wanted == (match key {
                    Some(key) => Some(key@),
                    None => None,
                }),
                index <= self.sessions@.len(),
                connections <= self.idle@.len(),
                self.idle@.len() + self.sessions@.len() <= usize::MAX,
                count == connections + counted_sessions(
                    self.sessions@.take(index as int),
                    wanted,
                ),
                count <= connections + index,
            decreases self.sessions@.len() - index,
        {
            proof {
                assert(self.sessions@.take(index as int + 1).drop_last() =~= self.sessions@.take(
                    index as int,
                ));
            }
            let session = &self.sessions[index];
            if Self::counts_key(&session.key, key) && session.state.active == 0
                && session.state.idle_since.is_some() {
                count = count + 1;
            }
            index = index + 1;
        }
        proof {
            assert(self.sessions@.take(index as int) =~= self.sessions@);
        }
        count
    }

    fn find_oldest_connection(&self, key: Option<&PoolKey>) -> (oldest: Option<usize>)
        ensures
            match oldest {
                Some(index) => oldest_connection(
                    self.idle@,
                    match key {
                        Some(key) => Some(key@),
                        None => None,
                    },
                ) == Some(index as int) && index < self.idle@.len(),
                None => oldest_connection(
                    self.idle@,
                    match key {
                        Some(key) => Some(key@),
                        None => None,
                    },
                ) is None,
            },
    {
        let ghost wanted = match key {
            Some(key) => Some(key@),
            None => None,
        };
        let mut oldest: Option<usize> = None;
        let mut index: usize = 0;
        while index < self.idle.len()
            invariant
                wanted == (match key {
                    Some(key) => Some(key@),
                    None => None,
                }),
                index <= self.idle@.len(),
                match oldest {
                    Some(found) => found < index && oldest_connection(
                        self.idle@.take(index as int),
                        wanted,
                    ) == Some(found as int),
                    None => oldest_connection(self.idle@.take(index as int), wanted) is None,
                },
            decreases self.idle@.len() - index,
        {
            proof {
                assert(self.idle@.take(index as int + 1).drop_last() =~= self.idle@.take(
                    index as int,
                ));
            }
            if Self::counts_key(&self.idle[index].key, key) {
                match oldest {
                    Some(found) => {
                        if !self.idle[index].idle_since.reached(self.idle[found].idle_since) {
                            oldest = Some(index);
                        }
                    },
                    None => {
                        oldest = Some(index);
                    },
                }
            }
            index = index + 1;
        }
        proof {
            assert(self.idle@.take(index as int) =~= self.idle@);
        }
        oldest
    }

    fn find_oldest_session(&self, key: Option<&PoolKey>) -> (oldest: Option<(usize, Instant)>)
        ensures
            match oldest {
                Some((index, since)) => {
                    &&& oldest_session(
                        self.sessions@,
                        match key {
                            Some(key) => Some(key@),
                            None => None,
                        },
                    ) == Some(index as int)
                    &&& index < self.sessions@.len()
                    &&& self.sessions@[index as int].state.idle_since == Some(since)
                },
                None => oldest_session(
                    self.sessions@,
                    match key {
                        Some(key) => Some(key@),
                        None => None,
                    },
                ) is None,
            },
    {
        let ghost wanted = match key {
            Some(key) => Some(key@),
            None => None,
        };
        let mut oldest: Option<(usize, Instant)> = None;
        let mut index: usize = 0;
        while index < self.sessions.len()
            invariant
                wanted == (match key {
                    Some(key) => Some(key@),
                    None => None,
                }),
                index <= self.sessions@.len(),
                match oldest {
                    Some((found, since)) => {
                        &&& found < index
                        &&& self.sessions@[found as int].state.idle_since == Some(since)
                        &&& oldest_session(self.sessions@.take(index as int), wanted) == Some(
                            found as int,
                        )
                    },
                    None => oldest_session(self.sessions@.take(index as int), wanted) is None,
                },
            decreases self.sessions@.len() - index,
        {
            proof {
                assert(self.sessions@.take(index as int + 1).drop_last() =~= self.sessions@.take(
                    index as int,
                ));
            }
            let session = &self.sessions[index];
            if Self::counts_key(&session.key, key) && session.state.active == 0 {
                match session.state.idle_since {
                    Some(idle_since) => {
                        match oldest {
                            Some((_found, since)) => {
                                if !idle_since.reached(since) {
                                    oldest = Some((index, idle_since));
                                }
                            },
                            None => {
                                oldest = Some((index, idle_since));
                            },
                        }
                    },
                    None => {},
                }
            }
            index = index + 1;
        }
        proof {
            assert(self.sessions@.take(index as int) =~= self.sessions@);
        }
        oldest
    }

    /// Evicts what is idle longest, with the key or at all. A connection goes
    /// before a session that is idle as long.
    pub fn evict_oldest_idle(&mut self, key: Option<&PoolKey>, evicted: &mut PoolEvictions<C>)
        ensures
            final(self)@ == old(self)@.without_oldest(
                match key {
                    Some(key) => Some(key@),
                    None => None,
                },
            ),
            final(evicted)@ == old(self)@.with_oldest(
                match key {
                    Some(key) => Some(key@),
                    None => None,
                },
                old(evicted)@,
            ),
    {
        let connection = self.find_oldest_connection(key);
        let session = self.find_oldest_session(key);
        match (connection, session) {
            (Some(left), Some((right, since))) => {
                if since.reached(self.idle[left].idle_since) {
                    let entry = self.idle.remove(left);
                    evicted.connections.push(entry.connection);
                } else {
                    let session = self.sessions.remove(right);
                    evicted.sessions.push(session);
                }
            },
            (Some(left), None) => {
                let entry = self.idle.remove(left);
                evicted.connections.push(entry.connection);
            },
            (None, Some((right, _since))) => {
                let session = self.sessions.remove(right);
                evicted.sessions.push(session);
            },
            (None, None) => {},
        }
    }

    /// Evicts what is idle longest until at most `max_idle_per_key` with the
    /// key and at most `max_idle_total` in all are left.
    pub fn enforce_idle_caps(
        &mut self,
        key: &PoolKey,
        max_idle_per_key: usize,
        max_idle_total: usize,
    ) -> (evicted: PoolEvictions<C>)
        requires
            old(self).idle@.len() + old(self).sessions@.len() <= usize::MAX,
        ensures
            final(self)@ == fully_capped(
                old(self)@,
                key@,
                max_idle_per_key as nat,
                max_idle_total as nat,
            ),
            evicted@ == full_evictions(
                old(self)@,
                key@,
                max_idle_per_key as nat,
                max_idle_total as nat,
            ),
    {
        let mut evicted: PoolEvictions<C> = PoolEvictions::new();
        let ghost wanted = Some(key@);
        let ghost none = evicted@;
        while self.idle_count(Some(key)) > max_idle_per_key
            invariant
                wanted == Some(key@),
                self.idle@.len() + self.sessions@.len() <= usize::MAX,
                capped(self@, wanted, max_idle_per_key as nat) == capped(
                    old(self)@,
                    wanted,
                    max_idle_per_key as nat,
                ),
                capped_evictions(self@, wanted, max_idle_per_key as nat, evicted@)
                    == capped_evictions(old(self)@, wanted, max_idle_per_key as nat, none),
            decreases self@.idle_count(wanted),
        {
            proof {
                eviction_lowers_the_count(self@, wanted);
            }
            self.evict_oldest_idle(Some(key), &mut evicted);
        }
        let ghost middle = self@;
        let ghost first = evicted@;
        while self.idle_count(None) > max_idle_total
            invariant
                self.idle@.len() + self.sessions@.len() <= usize::MAX,
                capped(self@, None, max_idle_total as nat) == capped(
                    middle,
                    None,
                    max_idle_total as nat,
                ),
                capped_evictions(self@, None, max_idle_total as nat, evicted@) == capped_evictions(
                    middle,
                    None,
                    max_idle_total as nat,
                    first,
                ),
            decreases self@.idle_count(None),
        {
            proof {
                eviction_lowers_the_count(self@, None);
            }
            self.evict_oldest_idle(None, &mut evicted);
        }
        evicted
    }
}

proof fn capped_bounds<C>(pool: PoolView<C>, wanted: Option<PoolKeyView>, cap: nat)
    ensures
        capped(pool, wanted, cap).idle_count(wanted) <= cap,
        capped(pool, wanted, cap).idle.len() <= pool.idle.len(),
        capped(pool, wanted, cap).sessions.len() <= pool.sessions.len(),
    decreases pool.idle_count(wanted),
{
    if pool.idle_count(wanted) > cap {
        eviction_lowers_the_count(pool, wanted);
        capped_bounds(pool.without_oldest(wanted), wanted, cap);
    }
}

proof fn eviction_keeps_other_counts_down<C>(
    pool: PoolView<C>,
    wanted: Option<PoolKeyView>,
    other: Option<PoolKeyView>,
)
    ensures
        pool.without_oldest(wanted).idle_count(other) <= pool.idle_count(other),
{
    oldest_connection_is_oldest(pool.idle, wanted);
    oldest_session_is_oldest(pool.sessions, wanted);
    match pool.oldest(wanted) {
        OldestIdle::Connection(index) => {
            counted_idle_after_remove(pool.idle, other, index);
        },
        OldestIdle::Session(index) => {
            counted_sessions_after_remove(pool.sessions, other, index);
        },
        OldestIdle::Nothing => {},
    }
}

proof fn capping_keeps_other_counts_down<C>(
    pool: PoolView<C>,
    wanted: Option<PoolKeyView>,
    cap: nat,
    other: Option<PoolKeyView>,
)
    ensures
        capped(pool, wanted, cap).idle_count(other) <= pool.idle_count(other),
    decreases pool.idle_count(wanted),
{
    if pool.idle_count(wanted) > cap {
        eviction_lowers_the_count(pool, wanted);
        eviction_keeps_other_counts_down(pool, wanted, other);
        capping_keeps_other_counts_down(pool.without_oldest(wanted), wanted, cap, other);
    }
}

/// After the caps were enforced, no more than `per_key` with the key and no
/// more than `total` in all are idle.
pub proof fn caps_hold<C>(pool: PoolView<C>, key: PoolKeyView, per_key: nat, total: nat)
    ensures
        fully_capped(pool, key, per_key, total).idle_count(Some(key)) <= per_key,
        fully_capped(pool, key, per_key, total).idle_count(None) <= total,
{
    capped_bounds(pool, Some(key), per_key);
    let middle = capped(pool, Some(key), per_key);
    capped_bounds(middle, None, total);
    capping_keeps_other_counts_down(middle, None, total, Some(key));
}

/// A pool with a cap of zero keeps nothing that is idle.
pub proof fn zero_cap_keeps_nothing<C>(pool: PoolView<C>, key: PoolKeyView, per_key: nat)
    ensures
        fully_capped(pool, key, per_key, 0).idle_count(None) == 0,
{
    caps_hold(pool, key, per_key, 0);
}

/// After an expiration, nothing in the pool is expired, and everything is
/// still there or among what expired.
pub proof fn nothing_expired_stays<C>(pool: PoolView<C>, now: int, timeout: int)
    ensures
        forall|i: int|
            0 <= i < unexpired(pool, now, timeout).idle.len() ==> !too_long_idle(
                (#[trigger] unexpired(pool, now, timeout).idle[i]).idle_since@,
                now,
                timeout,
            ),
        forall|i: int|
            0 <= i < unexpired(pool, now, timeout).sessions.len() ==> !session_expired(
                #[trigger] unexpired(pool, now, timeout).sessions[i],
                now,
                timeout,
            ),
        unexpired(pool, now, timeout).idle.len() + expirations(pool, now, timeout).connections.len()
            == pool.idle.len(),
        unexpired(pool, now, timeout).sessions.len() + expirations(
            pool,
            now,
            timeout,
        ).sessions.len() == pool.sessions.len(),
{
    fresh_idle_is_fresh(pool.idle, now, timeout);
    fresh_sessions_are_fresh(pool.sessions, now, timeout);
}

proof fn fresh_idle_is_fresh<C>(idle: Seq<IdleConnection<C>>, now: int, timeout: int)
    ensures
        forall|i: int|
            0 <= i < fresh_idle(idle, now, timeout).len() ==> !too_long_idle(
                (#[trigger] fresh_idle(idle, now, timeout)[i]).idle_since@,
                now,
                timeout,
            ),
        fresh_idle(idle, now, timeout).len() + stale_idle(idle, now, timeout).len() == idle.len(),
    decreases idle.len(),
{
    if idle.len() > 0 {
        fresh_idle_is_fresh(idle.drop_last(), now, timeout);
    }
}

proof fn fresh_sessions_are_fresh(sessions: Seq<H2Session>, now: int, timeout: int)
    ensures
        forall|i: int|
            0 <= i < fresh_sessions(sessions, now, timeout).len() ==> !session_expired(
                #[trigger] fresh_sessions(sessions, now, timeout)[i],
                now,
                timeout,
            ),
        fresh_sessions(sessions, now, timeout).len() + stale_sessions(sessions, now, timeout).len()
            == sessions.len(),
    decreases sessions.len(),
{
    if sessions.len() > 0 {
        fresh_sessions_are_fresh(sessions.drop_last(), now, timeout);
    }
}

/// Whether two characters are the same, or the two cases of one ASCII letter.
pub open spec fn same_letter(left: char, right: char) -> bool {
    ||| left == right
    ||| 'A' <= left <= 'Z' && right as int == left as int + 32
    ||| 'A' <= right <= 'Z' && left as int == right as int + 32
}

/// Whether two texts differ in nothing but the case of ASCII letters.
pub open spec fn same_letters(left: Seq<char>, right: Seq<char>) -> bool {
    &&& left.len() == right.len()
    &&& forall|i: int| 0 <= i < left.len() ==> same_letter(#[trigger] left[i], right[i])
}

pub(crate) proof fn lower_text_ignores_case(left: Seq<char>, right: Seq<char>)
    ensures
        (lower_text(left) == lower_text(right)) == same_letters(left, right),
        lower_text(lower_text(left)) == lower_text(left),
{
    assert(lower_text(lower_text(left)) =~= lower_text(left));
    if lower_text(left) == lower_text(right) {
        assert(lower_text(left).len() == left.len() && lower_text(right).len() == right.len());
        assert forall|i: int| 0 <= i < left.len() implies same_letter(
            #[trigger] left[i],
            right[i],
        ) by {
            assert(lower_text(left)[i] == lower_text(right)[i]);
        }
    }
    if same_letters(left, right) {
        assert forall|i: int| 0 <= i < left.len() implies lower_text(left)[i] == lower_text(
            right,
        )[i] by {
            assert(same_letter(left[i], right[i]));
        }
        assert(lower_text(left) =~= lower_text(right));
    }
}

/// A connection that was opened for one place serves a request exactly when the
/// request goes to the same scheme, host and port, whatever the case of the host,
/// and asks for the protocol that the connection was asked for.
pub proof fn connections_serve_their_own_place(
    place: UriTarget,
    requested: Protocol,
    spoken: Protocol,
    key: PoolKey,
    target: UriTarget,
    asked: Protocol,
    serves: bool,
)
    requires
        call_ensures(PoolKey::new, (&place, requested, spoken), key),
        call_ensures(PoolKey::matches, (&key, &target, asked), serves),
    ensures
        serves == {
            &&& place.tls == target.tls
            &&& same_letters(place.host@, target.host@)
            &&& place.port == target.port
            &&& requested == asked
        },
        key.wire_protocol == spoken,
{
    lower_text_ignores_case(place.host@, target.host@);
    lower_text_ignores_case(target.host@, place.host@);
}

/// Whatever key it has, a connection that serves a request leads to the port,
/// the host and the scheme of the request.
pub proof fn keys_serve_only_their_own_place(
    key: PoolKey,
    target: UriTarget,
    asked: Protocol,
    serves: bool,
)
    requires
        call_ensures(PoolKey::matches, (&key, &target, asked), serves),
    ensures
        serves == {
            &&& key.tls == target.tls
            &&& same_letters(key.host@, target.host@)
            &&& key.port == target.port
            &&& key.requested_protocol == asked
        },
{
    lower_text_ignores_case(key.host@, target.host@);
}

/// Two keys are equal exactly when all that they say is, and a copy of a key is
/// equal to it.
pub proof fn keys_are_told_apart(left: PoolKey, right: PoolKey, same: bool, copy: PoolKey)
    requires
        call_ensures(PoolKey::same_as, (&left, &right), same),
        call_ensures(PoolKey::duplicate, (&left,), copy),
    ensures
        same == {
            &&& left.tls == right.tls
            &&& left.host@ == right.host@
            &&& left.port == right.port
            &&& left.requested_protocol == right.requested_protocol
            &&& left.wire_protocol == right.wire_protocol
        },
        copy.tls == left.tls && copy.host@ == left.host@ && copy.port == left.port,
        copy.requested_protocol == left.requested_protocol,
        copy.wire_protocol == left.wire_protocol,
{
}

/// A session takes a request exactly when it is usable, runs fewer requests than
/// the peer takes at once, and has not served, with those that run, all that it
/// may. The request then counts as running, has a number of its own, and finds
/// the connection used before exactly when another request ran on it.
pub proof fn reservations_count_one_request(session: &mut H2Session, slot: Option<H2SessionSlot>)
    requires
        call_ensures(H2Session::try_reserve, (session,), slot),
    ensures
        slot is Some <==> {
            &&& old(session).state.usable
            &&& old(session).state.active < old(session).state.capacity
            &&& old(session).state.completed + old(session).state.active
                < old(session).state.max_requests
        },
        slot matches Some(slot) ==> {
            &&& slot.session_id == old(session).id
            &&& slot.request_id == old(session).state.next_request_id
            &&& slot.armed
            &&& slot.reused == (old(session).state.connected && (old(session).state.completed > 0
                || old(session).state.active > 0))
            &&& final(session).state.active == old(session).state.active + 1
            &&& final(session).state.idle_since is None
            &&& final(session).state.next_request_id != old(session).state.next_request_id
            &&& old(session).state.next_request_id < u64::MAX
                ==> final(session).state.next_request_id == old(session).state.next_request_id + 1
        },
        slot is None ==> final(session).state == old(session).state,
        final(session).id == old(session).id,
        final(session).key == old(session).key,
        final(session).state.usable == old(session).state.usable,
        final(session).state.connected == old(session).state.connected,
        final(session).state.capacity == old(session).state.capacity,
        final(session).state.completed == old(session).state.completed,
        final(session).state.max_requests == old(session).state.max_requests,
        final(session).state.shutdown == old(session).state.shutdown,
{
}

/// A slot that is given up before its request started makes room for one more; a
/// slot whose reservation was kept changes nothing.
pub proof fn slots_give_back_what_they_took(
    reserving: &mut H2Session,
    slot: Option<H2SessionSlot>,
    leaving: &mut H2Session,
    keeping: &mut H2SessionSlot,
    staying: &mut H2Session,
)
    requires
        call_ensures(H2Session::try_reserve, (reserving,), slot),
        slot is Some,
        *old(leaving) == *final(reserving),
        call_ensures(H2SessionSlot::leave, (slot->0, leaving), ()),
        *old(keeping) == slot->0,
        call_ensures(H2SessionSlot::disarm, (keeping,), ()),
        *old(staying) == *final(reserving),
        call_ensures(H2SessionSlot::leave, (*final(keeping), staying), ()),
    ensures
        final(leaving).state.active == old(reserving).state.active,
        final(leaving).state.completed == old(reserving).state.completed,
        final(leaving).state.usable == old(reserving).state.usable,
        final(leaving).state.next_request_id == final(reserving).state.next_request_id,
        *final(staying) == *final(reserving),
{
}

/// A reservation that comes back lowers the number of running requests by one,
/// never below none, and changes nothing else.
pub proof fn released_reservations_make_room(state: &mut H2SessionState)
    requires
        call_ensures(H2SessionState::release_unstarted, (state,), ()),
    ensures
        old(state).active > 0 ==> final(state).active + 1 == old(state).active,
        old(state).active == 0 ==> final(state).active == 0,
        *final(state) == (H2SessionState { active: final(state).active, ..*old(state) }),
{
}

/// A new session takes requests up to the limits that it was made with, and one
/// that was told to stop takes none, though those that run keep running.
pub proof fn sessions_take_requests_until_told_to_stop(
    id: u64,
    key: PoolKey,
    limits: Limits,
    connected: bool,
    completed: usize,
    made: &mut H2Session,
    stopped: &mut H2Session,
    slot: Option<H2SessionSlot>,
)
    requires
        call_ensures(H2Session::new, (id, key, limits, connected, completed), *old(made)),
        call_ensures(H2Session::shutdown, (made,), ()),
        *old(stopped) == *final(made),
        call_ensures(H2Session::try_reserve, (stopped,), slot),
    ensures
        old(made).id == id && old(made).key == key,
        old(made).state.usable && !old(made).state.shutdown,
        old(made).state.connected == connected,
        old(made).state.active == 0 && old(made).state.completed == completed,
        old(made).state.capacity == limits@.max_active_streams,
        old(made).state.max_requests == limits@.max_requests_per_connection,
        old(made).state.idle_since is None,
        final(made).state.shutdown,
        final(made).state.active == old(made).state.active,
        final(made).id == id && final(made).key == key,
        slot is None,
{
}

/// The connections that have been idle for less than the timeout.
pub open spec fn idle_for_less<C>(
    idle: Seq<IdleConnection<C>>,
    now: int,
    timeout: int,
) -> Seq<IdleConnection<C>> {
    idle.filter(|entry: IdleConnection<C>| 0 < timeout && now - entry.idle_since@ < timeout)
}

/// The connections that have been idle for the timeout or longer.
pub open spec fn idle_for_long<C>(
    idle: Seq<IdleConnection<C>>,
    now: int,
    timeout: int,
) -> Seq<IdleConnection<C>> {
    idle.filter(|entry: IdleConnection<C>| timeout <= 0 || now - entry.idle_since@ >= timeout)
}

/// Whether a session has been idle for the timeout or longer, or takes no more
/// requests.
pub open spec fn is_spent(session: H2Session, now: int, timeout: int) -> bool {
    ||| !session.state.usable
    ||| session.state.active == 0 && (session.state.idle_since matches Some(since) && (timeout <= 0
        || now - since@ >= timeout))
}

pub(crate) proof fn expired_idle_is_idle_for_long<C>(
    idle: Seq<IdleConnection<C>>,
    now: int,
    timeout: int,
)
    ensures
        fresh_idle(idle, now, timeout) == idle_for_less(idle, now, timeout),
        stale_idle(idle, now, timeout) == idle_for_long(idle, now, timeout).map_values(
            |entry: IdleConnection<C>| entry.connection,
        ),
    decreases idle.len(),
{
    reveal(Seq::filter);
    if idle.len() > 0 {
        expired_idle_is_idle_for_long(idle.drop_last(), now, timeout);
        let before = idle_for_long(idle.drop_last(), now, timeout);
        assert(before.push(idle.last()).map_values(|entry: IdleConnection<C>| entry.connection)
            =~= before.map_values(|entry: IdleConnection<C>| entry.connection).push(
            idle.last().connection,
        ));
    } else {
        assert(stale_idle(idle, now, timeout) =~= idle_for_long(idle, now, timeout).map_values(
            |entry: IdleConnection<C>| entry.connection,
        ));
    }
}

pub(crate) proof fn expired_sessions_are_spent(sessions: Seq<H2Session>, now: int, timeout: int)
    ensures
        fresh_sessions(sessions, now, timeout) == sessions.filter(
            |session: H2Session| !is_spent(session, now, timeout),
        ),
        stale_sessions(sessions, now, timeout) == sessions.filter(
            |session: H2Session| is_spent(session, now, timeout),
        ),
    decreases sessions.len(),
{
    reveal(Seq::filter);
    if sessions.len() > 0 {
        expired_sessions_are_spent(sessions.drop_last(), now, timeout);
    }
}

/// What leaves the pool with time is exactly what has been idle for the timeout
/// or longer, and the sessions that take no more requests. The others stay, in
/// their order.
pub proof fn only_long_idle_leaves<C>(
    pool: &mut PoolState<C>,
    now: Instant,
    timeout: Duration,
    expired: PoolEvictions<C>,
)
    requires
        call_ensures(PoolState::<C>::evict_expired, (pool, now, timeout), expired),
    ensures
        final(pool).idle@ == idle_for_less(old(pool).idle@, now@, timeout@),
        expired.connections@ == idle_for_long(old(pool).idle@, now@, timeout@).map_values(
            |entry: IdleConnection<C>| entry.connection,
        ),
        final(pool).sessions@ == old(pool).sessions@.filter(
            |session: H2Session| !is_spent(session, now@, timeout@),
        ),
        expired.sessions@ == old(pool).sessions@.filter(
            |session: H2Session| is_spent(session, now@, timeout@),
        ),
        final(pool).next_session_id == old(pool).next_session_id,
{
    expired_idle_is_idle_for_long(old(pool).idle@, now@, timeout@);
    expired_sessions_are_spent(old(pool).sessions@, now@, timeout@);
}

/// An eviction takes out what has been idle longest among the connections and
/// the idle sessions that have the key, or among all of them. It is handed out
/// to be closed, and nothing else leaves.
pub proof fn evictions_take_the_longest_idle<C>(
    pool: PoolView<C>,
    wanted: Option<PoolKeyView>,
    evicted: EvictionsView<C>,
)
    ensures
        match pool.oldest(wanted) {
            OldestIdle::Connection(index) => {
                &&& 0 <= index < pool.idle.len()
                &&& wanted matches Some(key) ==> pool.idle[index].key@ == key
                &&& forall|i: int|
                    0 <= i < pool.idle.len() && (wanted is None || wanted == Some(
                        (#[trigger] pool.idle[i]).key@,
                    )) ==> pool.idle[index].idle_since@ <= pool.idle[i].idle_since@
                &&& forall|i: int|
                    0 <= i < pool.sessions.len() && (wanted is None || wanted == Some(
                        (#[trigger] pool.sessions[i]).key@,
                    )) && pool.sessions[i].state.active == 0
                        && pool.sessions[i].state.idle_since is Some
                        ==> pool.idle[index].idle_since@
                        <= pool.sessions[i].state.idle_since->0@
                &&& pool.without_oldest(wanted).idle == pool.idle.remove(index)
                &&& pool.without_oldest(wanted).sessions == pool.sessions
                &&& pool.with_oldest(wanted, evicted).connections == evicted.connections.push(
                    pool.idle[index].connection,
                )
                &&& pool.with_oldest(wanted, evicted).sessions == evicted.sessions
            },
            OldestIdle::Session(index) => {
                &&& 0 <= index < pool.sessions.len()
                &&& wanted matches Some(key) ==> pool.sessions[index].key@ == key
                &&& pool.sessions[index].state.active == 0
                &&& pool.sessions[index].state.idle_since is Some
                &&& forall|i: int|
                    0 <= i < pool.idle.len() && (wanted is None || wanted == Some(
                        (#[trigger] pool.idle[i]).key@,
                    )) ==> pool.sessions[index].state.idle_since->0@
                        < pool.idle[i].idle_since@
                &&& pool.without_oldest(wanted).idle == pool.idle
                &&& pool.without_oldest(wanted).sessions == pool.sessions.remove(index)
                &&& pool.with_oldest(wanted, evicted).connections == evicted.connections
                &&& pool.with_oldest(wanted, evicted).sessions == evicted.sessions.push(
                    pool.sessions[index],
                )
            },
            OldestIdle::Nothing => {
                &&& forall|i: int|
                    0 <= i < pool.idle.len() ==> wanted is Some && wanted != Some(
                        (#[trigger] pool.idle[i]).key@,
                    )
                &&& pool.without_oldest(wanted) == pool
                &&& pool.with_oldest(wanted, evicted) == evicted
            },
        },
{
    oldest_connection_is_oldest(pool.idle, wanted);
    oldest_session_is_oldest(pool.sessions, wanted);
    assert forall|i: int| 0 <= i < pool.idle.len() implies counts(
        (#[trigger] pool.idle[i]).key@,
        wanted,
    ) == (wanted is None || wanted == Some(pool.idle[i].key@)) by {}
    assert forall|i: int|
        0 <= i < pool.sessions.len() && (wanted is None || wanted == Some(
            (#[trigger] pool.sessions[i]).key@,
        )) && pool.sessions[i].state.active == 0
            && pool.sessions[i].state.idle_since is Some implies session_counts(
        pool.sessions[i],
        wanted,
    ) by {}
}

proof fn capping_without_need<C>(pool: PoolView<C>, wanted: Option<PoolKeyView>, cap: nat)
    requires
        pool.idle.len() + pool.sessions.len() <= cap,
    ensures
        capped(pool, wanted, cap) == pool,
        forall|evicted: EvictionsView<C>| #[trigger]
            capped_evictions(pool, wanted, cap, evicted) == evicted,
{
    counted_idle_bounds(pool.idle, wanted);
    counted_sessions_bounds(pool.sessions, wanted);
}

/// A pool that holds no more than both caps allow loses nothing to them.
pub proof fn small_pools_lose_nothing<C>(
    pool: PoolView<C>,
    key: PoolKeyView,
    per_key: nat,
    total: nat,
)
    requires
        pool.idle.len() + pool.sessions.len() <= per_key,
        pool.idle.len() + pool.sessions.len() <= total,
    ensures
        fully_capped(pool, key, per_key, total) == pool,
        full_evictions(pool, key, per_key, total).connections.len() == 0,
        full_evictions(pool, key, per_key, total).sessions.len() == 0,
{
    capping_without_need(pool, Some(key), per_key);
    capping_without_need(pool, None, total);
}

proof fn capping_loses_nothing<C>(
    pool: PoolView<C>,
    wanted: Option<PoolKeyView>,
    cap: nat,
    evicted: EvictionsView<C>,
)
    ensures
        capped(pool, wanted, cap).idle.len() + capped_evictions(
            pool,
            wanted,
            cap,
            evicted,
        ).connections.len() == pool.idle.len() + evicted.connections.len(),
        capped(pool, wanted, cap).sessions.len() + capped_evictions(
            pool,
            wanted,
            cap,
            evicted,
        ).sessions.len() == pool.sessions.len() + evicted.sessions.len(),
        capped(pool, wanted, cap).idle_count(wanted) == if pool.idle_count(wanted) <= cap {
            pool.idle_count(wanted)
        } else {
            cap
        },
        capped(pool, wanted, cap).next_session_id == pool.next_session_id,
    decreases pool.idle_count(wanted),
{
    if pool.idle_count(wanted) > cap {
        eviction_lowers_the_count(pool, wanted);
        evictions_take_the_longest_idle(pool, wanted, evicted);
        capping_loses_nothing(
            pool.without_oldest(wanted),
            wanted,
            cap,
            pool.with_oldest(wanted, evicted),
        );
    }
}

/// What a cap evicts is handed out to be closed, one for each that leaves, and
/// no more leaves than the caps ask for.
pub proof fn caps_evict_no_more_than_needed<C>(
    pool: PoolView<C>,
    key: PoolKeyView,
    per_key: nat,
    total: nat,
)
    ensures
        fully_capped(pool, key, per_key, total).idle.len() + full_evictions(
            pool,
            key,
            per_key,
            total,
        ).connections.len() == pool.idle.len(),
        fully_capped(pool, key, per_key, total).sessions.len() + full_evictions(
            pool,
            key,
            per_key,
            total,
        ).sessions.len() == pool.sessions.len(),
        pool.idle_count(Some(key)) <= per_key && pool.idle_count(None) <= total ==> fully_capped(
            pool,
            key,
            per_key,
            total,
        ) == pool,
        pool.idle_count(Some(key)) <= per_key ==> fully_capped(
            pool,
            key,
            per_key,
            total,
        ).idle_count(None) == if pool.idle_count(None) <= total {
            pool.idle_count(None)
        } else {
            total
        },
{
    let none = EvictionsView::<C> { connections: Seq::empty(), sessions: Seq::empty() };
    capping_loses_nothing(pool, Some(key), per_key, none);
    capping_loses_nothing(
        capped(pool, Some(key), per_key),
        None,
        total,
        capped_evictions(pool, Some(key), per_key, none),
    );
}

/// All idle connections count towards the whole pool, those with a key towards
/// the key, and a session only while nothing runs on it.
pub proof fn every_idle_connection_counts<C>(
    pool: PoolView<C>,
    wanted: Option<PoolKeyView>,
    entry: IdleConnection<C>,
    session: H2Session,
)
    ensures
        (PoolView { idle: pool.idle.push(entry), ..pool }).idle_count(wanted) == pool.idle_count(
            wanted,
        ) + if wanted is None || wanted == Some(entry.key@) {
            1nat
        } else {
            0nat
        },
        (PoolView { sessions: pool.sessions.push(session), ..pool }).idle_count(wanted)
            == pool.idle_count(wanted) + if (wanted is None || wanted == Some(session.key@))
            && session.state.active == 0 && session.state.idle_since is Some {
            1nat
        } else {
            0nat
        },
{
    assert(pool.idle.push(entry).drop_last() =~= pool.idle);
    assert(pool.sessions.push(session).drop_last() =~= pool.sessions);
}

/// How many of the idle connections and the idle sessions have a key, or how many
/// there are at all.
pub open spec fn idle_with<C>(pool: PoolView<C>, wanted: Option<PoolKeyView>) -> nat {
    pool.idle.filter(
        |entry: IdleConnection<C>| wanted is None || wanted == Some(entry.key@),
    ).len() + pool.sessions.filter(
        |session: H2Session|
            (wanted is None || wanted == Some(session.key@)) && session.state.active == 0
                && session.state.idle_since is Some,
    ).len()
}

proof fn counted_idle_is_filtered<C>(
    idle: Seq<IdleConnection<C>>,
    wanted: Option<PoolKeyView>,
)
    ensures
        counted_idle(idle, wanted) == idle.filter(
            |entry: IdleConnection<C>| wanted is None || wanted == Some(entry.key@),
        ).len(),
    decreases idle.len(),
{
    reveal(Seq::filter);
    if idle.len() > 0 {
        counted_idle_is_filtered(idle.drop_last(), wanted);
    }
}

proof fn counted_sessions_are_filtered(sessions: Seq<H2Session>, wanted: Option<PoolKeyView>)
    ensures
        counted_sessions(sessions, wanted) == sessions.filter(
            |session: H2Session|
                (wanted is None || wanted == Some(session.key@)) && session.state.active == 0
                    && session.state.idle_since is Some,
        ).len(),
    decreases sessions.len(),
{
    reveal(Seq::filter);
    if sessions.len() > 0 {
        counted_sessions_are_filtered(sessions.drop_last(), wanted);
    }
}

proof fn the_count_is_filtered<C>(pool: PoolView<C>, wanted: Option<PoolKeyView>)
    ensures
        pool.idle_count(wanted) == idle_with(pool, wanted),
{
    counted_idle_is_filtered(pool.idle, wanted);
    counted_sessions_are_filtered(pool.sessions, wanted);
}

/// The count of a pool is that of the connections and the sessions that are idle
/// and have the key.
pub proof fn idle_connections_are_counted<C>(
    made: PoolState<C>,
    pool: &PoolState<C>,
    key: &PoolKey,
    counts: (usize, usize),
)
    requires
        call_ensures(PoolState::<C>::new, (), made),
        call_ensures(PoolState::<C>::idle_count, (pool, None), counts.0),
        call_ensures(PoolState::<C>::idle_count, (pool, Some(key)), counts.1),
    ensures
        made.idle@.len() == 0 && made.sessions@.len() == 0,
        counts.0 == idle_with(pool@, None),
        counts.1 == idle_with(pool@, Some(key@)),
{
    the_count_is_filtered(pool@, None);
    the_count_is_filtered(pool@, Some(key@));
}

/// Caps leave no more idle connections than they allow, and hand out what leaves;
/// a pool within its caps stays as it is.
pub proof fn caps_are_kept<C>(
    pool: &mut PoolState<C>,
    key: &PoolKey,
    per_key: usize,
    total: usize,
    evicted: PoolEvictions<C>,
)
    requires
        call_ensures(PoolState::<C>::enforce_idle_caps, (pool, key, per_key, total), evicted),
    ensures
        idle_with(final(pool)@, None) <= total,
        idle_with(final(pool)@, Some(key@)) <= per_key,
        idle_with(old(pool)@, Some(key@)) <= per_key && idle_with(old(pool)@, None) <= total
            ==> final(pool)@ == old(pool)@ && evicted@.connections.len() == 0
            && evicted@.sessions.len() == 0,
        final(pool)@.idle.len() + evicted@.connections.len() == old(pool)@.idle.len(),
        final(pool)@.sessions.len() + evicted@.sessions.len() == old(pool)@.sessions.len(),
{
    capped_pools_are_within_their_caps(old(pool)@, key@, per_key as nat, total as nat);
}

pub(crate) proof fn capped_pools_are_within_their_caps<C>(
    pool: PoolView<C>,
    key: PoolKeyView,
    per_key: nat,
    total: nat,
)
    ensures
        ({
            let after = fully_capped(pool, key, per_key, total);
            let evicted = full_evictions(pool, key, per_key, total);
            &&& idle_with(after, None) <= total
            &&& idle_with(after, Some(key)) <= per_key
            &&& idle_with(pool, Some(key)) <= per_key && idle_with(pool, None) <= total ==> after
                == pool && evicted.connections.len() == 0 && evicted.sessions.len() == 0
            &&& after.idle.len() + evicted.connections.len() == pool.idle.len()
            &&& after.sessions.len() + evicted.sessions.len() == pool.sessions.len()
        }),
{
    let none = EvictionsView::<C> { connections: Seq::empty(), sessions: Seq::empty() };
    caps_evict_no_more_than_needed(pool, key, per_key, total);
    capping_loses_nothing(pool, Some(key), per_key, none);
    let half = capped(pool, Some(key), per_key);
    capping_loses_nothing(
        half,
        None,
        total,
        capped_evictions(pool, Some(key), per_key, none),
    );
    capping_keeps_other_counts_low(half, Some(key), total);
    the_count_is_filtered(pool, None);
    the_count_is_filtered(pool, Some(key));
    the_count_is_filtered(fully_capped(pool, key, per_key, total), None);
    the_count_is_filtered(fully_capped(pool, key, per_key, total), Some(key));
}

proof fn removing_lowers_counts<C>(
    idle: Seq<IdleConnection<C>>,
    index: int,
    wanted: Option<PoolKeyView>,
)
    requires
        0 <= index < idle.len(),
    ensures
        counted_idle(idle.remove(index), wanted) <= counted_idle(idle, wanted),
    decreases idle.len(),
{
    if index < idle.len() - 1 {
        removing_lowers_counts(idle.drop_last(), index, wanted);
        assert(idle.remove(index).drop_last() =~= idle.drop_last().remove(index));
        assert(idle.remove(index).last() == idle.last());
    } else {
        assert(idle.remove(index) =~= idle.drop_last());
    }
}

proof fn removing_lowers_session_counts(
    sessions: Seq<H2Session>,
    index: int,
    wanted: Option<PoolKeyView>,
)
    requires
        0 <= index < sessions.len(),
    ensures
        counted_sessions(sessions.remove(index), wanted) <= counted_sessions(sessions, wanted),
    decreases sessions.len(),
{
    if index < sessions.len() - 1 {
        removing_lowers_session_counts(sessions.drop_last(), index, wanted);
        assert(sessions.remove(index).drop_last() =~= sessions.drop_last().remove(index));
        assert(sessions.remove(index).last() == sessions.last());
    } else {
        assert(sessions.remove(index) =~= sessions.drop_last());
    }
}

proof fn capping_keeps_other_counts_low<C>(
    pool: PoolView<C>,
    wanted: Option<PoolKeyView>,
    cap: nat,
)
    ensures
        capped(pool, None, cap).idle_count(wanted) <= pool.idle_count(wanted),
    decreases pool.idle_count(None),
{
    if pool.idle_count(None) > cap {
        eviction_lowers_the_count(pool, None);
        evictions_take_the_longest_idle(
            pool,
            None,
            EvictionsView::<C> { connections: Seq::empty(), sessions: Seq::empty() },
        );
        match pool.oldest(None) {
            OldestIdle::Connection(index) => {
                removing_lowers_counts(pool.idle, index, wanted);
            },
            OldestIdle::Session(index) => {
                removing_lowers_session_counts(pool.sessions, index, wanted);
            },
            OldestIdle::Nothing => {},
        }
        capping_keeps_other_counts_low(pool.without_oldest(None), wanted, cap);
    }
}

/// One eviction hands out one connection or one session, if any is idle, and what
/// is handed out together keeps its order.
pub proof fn evictions_hand_out_what_left<C>(
    pool: &mut PoolState<C>,
    evicted: &mut PoolEvictions<C>,
    made: PoolEvictions<C>,
    more: &mut PoolEvictions<C>,
    other: PoolEvictions<C>,
)
    requires
        call_ensures(PoolEvictions::<C>::new, (), made),
        call_ensures(PoolState::<C>::evict_oldest_idle, (pool, None, evicted), ()),
        call_ensures(PoolEvictions::<C>::extend, (more, other), ()),
    ensures
        made@.connections.len() == 0 && made@.sessions.len() == 0,
        final(pool)@.idle.len() + final(evicted)@.connections.len() == old(pool)@.idle.len()
            + old(evicted)@.connections.len(),
        final(pool)@.sessions.len() + final(evicted)@.sessions.len() == old(pool)@.sessions.len()
            + old(evicted)@.sessions.len(),
        idle_with(old(pool)@, None) > 0 ==> idle_with(final(pool)@, None) + 1 == idle_with(
            old(pool)@,
            None,
        ),
        idle_with(old(pool)@, None) == 0 ==> final(pool)@ == old(pool)@,
        final(more)@.connections == old(more)@.connections + other@.connections,
        final(more)@.sessions == old(more)@.sessions + other@.sessions,
{
    the_count_is_filtered(old(pool)@, None);
    the_count_is_filtered(final(pool)@, None);
    evictions_take_the_longest_idle(old(pool)@, None, old(evicted)@);
    if old(pool)@.idle_count(None) > 0 {
        eviction_lowers_the_count(old(pool)@, None);
    } else {
        oldest_connection_is_oldest(old(pool)@.idle, None);
        oldest_session_is_oldest(old(pool)@.sessions, None);
        counting_nothing(old(pool)@, None);
    }
}

proof fn counting_nothing<C>(pool: PoolView<C>, wanted: Option<PoolKeyView>)
    requires
        pool.idle_count(wanted) == 0,
    ensures
        pool.without_oldest(wanted) == pool,
{
    counting_no_connection(pool.idle, wanted);
    counting_no_session(pool.sessions, wanted);
    oldest_connection_is_oldest(pool.idle, wanted);
    oldest_session_is_oldest(pool.sessions, wanted);
}

proof fn counting_no_connection<C>(idle: Seq<IdleConnection<C>>, wanted: Option<PoolKeyView>)
    requires
        counted_idle(idle, wanted) == 0,
    ensures
        forall|i: int| 0 <= i < idle.len() ==> !counts((#[trigger] idle[i]).key@, wanted),
    decreases idle.len(),
{
    if idle.len() > 0 {
        counting_no_connection(idle.drop_last(), wanted);
        assert forall|i: int| 0 <= i < idle.len() implies !counts(
            (#[trigger] idle[i]).key@,
            wanted,
        ) by {
            if i < idle.len() - 1 {
                assert(idle.drop_last()[i] == idle[i]);
            }
        }
    }
}

proof fn counting_no_session(sessions: Seq<H2Session>, wanted: Option<PoolKeyView>)
    requires
        counted_sessions(sessions, wanted) == 0,
    ensures
        forall|i: int| 0 <= i < sessions.len() ==> !session_counts(#[trigger] sessions[i], wanted),
    decreases sessions.len(),
{
    if sessions.len() > 0 {
        counting_no_session(sessions.drop_last(), wanted);
        assert forall|i: int| 0 <= i < sessions.len() implies !session_counts(
            #[trigger] sessions[i],
            wanted,
        ) by {
            if i < sessions.len() - 1 {
                assert(sessions.drop_last()[i] == sessions[i]);
            }
        }
    }
}

/// A request that never began gives its place back.
pub proof fn unstarted_requests_give_their_place_back(
    session: &mut H2Session,
    state: &mut H2SessionState,
)
    requires
        *old(state) == old(session).state,
        call_ensures(H2Session::release_unstarted, (session,), ()),
        call_ensures(H2SessionState::release_unstarted, (state,), ()),
    ensures
        final(session).state == *final(state),
        old(session).state.active > 0 ==> final(session).state.active + 1 == old(session).state.active,
        final(session).id == old(session).id && final(session).key == old(session).key,
{
}

} // verus!
