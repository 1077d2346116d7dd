//! Taking connections out of a client's pool and putting them back.

use vstd::prelude::*;

use crate::errno::Errno;
use crate::time::Duration;
use crate::time::Instant;
use crate::web::config::Limits;
use crate::web::config::Protocol;
use crate::web::error::Error;
use crate::web::error::ErrorView;
use crate::web::error::ProtocolErrorKind;
use crate::web::error::ProtocolErrorView;
use crate::web::pool::EvictionsView;
use crate::web::pool::H2Session;
use crate::web::pool::H2SessionSlot;
use crate::web::pool::H2SessionState;
use crate::web::pool::IdleConnection;
use crate::web::pool::PoolEvictions;
use crate::web::pool::PoolKey;
use crate::web::pool::PoolState;
use crate::web::pool::PoolView;
use crate::web::uri::UriTarget;
use crate::web::uri::UriTargetView;

verus! {

/// The idle HTTP/1 connection that serves a request: the one that was put back
/// last.
pub open spec fn newest_connection<C>(
    idle: Seq<IdleConnection<C>>,
    target: UriTargetView,
    requested_protocol: Protocol,
) -> Option<int>
    decreases idle.len(),
{
    if idle.len() == 0 {
        None
    } else if idle.last().key.wire_protocol == Protocol::Http1 && crate::web::pool::key_matches(
        idle.last().key@,
        target,
        requested_protocol,
    ) {
        Some(idle.len() - 1)
    } else {
        newest_connection(idle.drop_last(), target, requested_protocol)
    }
}

/// The session that serves a request: the newest one with room.
pub open spec fn newest_session(
    sessions: Seq<H2Session>,
    target: UriTargetView,
    requested_protocol: Protocol,
) -> Option<int>
    decreases sessions.len(),
{
    if sessions.len() == 0 {
        None
    } else if crate::web::pool::key_matches(sessions.last().key@, target, requested_protocol)
        && sessions.last().state.has_room() {
        Some(sessions.len() - 1)
    } else {
        newest_session(sessions.drop_last(), target, requested_protocol)
    }
}

/// The sessions whose number is not `id`.
pub open spec fn other_sessions(sessions: Seq<H2Session>, id: u64) -> Seq<H2Session>
    decreases sessions.len(),
{
    if sessions.len() == 0 {
        Seq::empty()
    } else {
        let rest = other_sessions(sessions.drop_last(), id);
        if sessions.last().id == id {
            rest
        } else {
            rest.push(sessions.last())
        }
    }
}

/// What a connection pool gave out for an HTTP/1 request, and what has to be
/// closed.
pub struct Checkout<C> {
    /// A connection with its key, when one was idle.
    pub connection: Option<(PoolKey, C)>,
    /// What expired.
    pub expired: PoolEvictions<C>,
}

/// What a connection pool gave out for an HTTP/2 request, and what has to be
/// closed.
pub struct Reservation<C> {
    /// Room in a session, when there was some.
    pub slot: Option<H2SessionSlot>,
    /// What expired.
    pub expired: PoolEvictions<C>,
}

/// The connections and sessions that the requests of a client share.
pub struct ConnectionPool<C> {
    state: PoolState<C>,
}

impl<C> View for ConnectionPool<C> {
    type V = PoolView<C>;

    closed spec fn view(&self) -> PoolView<C> {
        self.state@
    }
}

impl<C> ConnectionPool<C> {
    /// An empty pool.
    pub fn new() -> (pool: ConnectionPool<C>)
        ensures
            pool@ == (PoolView::<C> {
                idle: Seq::empty(),
                sessions: Seq::empty(),
                next_session_id: 0,
            }),
    {
        ConnectionPool { state: PoolState::new() }
    }

    /// Takes the newest idle HTTP/1 connection that serves the request, after
    /// what expired has left.
    pub fn checkout_http1(
        &mut self,
        target: &UriTarget,
        requested_protocol: Protocol,
        now: Instant,
        idle_timeout: Duration,
    ) -> (checkout: Checkout<C>)
        ensures
            checkout.expired@ == crate::web::pool::expirations(old(self)@, now@, idle_timeout@),
            ({
                let rest = crate::web::pool::unexpired(old(self)@, now@, idle_timeout@);
                match newest_connection(rest.idle, target@, requested_protocol) {
                    Some(index) => {
                        &&& checkout.connection matches Some((key, connection)) && key
                            == rest.idle[index].key && connection == rest.idle[index].connection
                        &&& final(self)@ == (PoolView { idle: rest.idle.remove(index), ..rest })
                    },
                    None => checkout.connection is None && final(self)@ == rest,
                }
            }),
    {
        let expired = self.state.evict_expired(now, idle_timeout);
        let ghost rest = self.state@;
        let mut position: usize = self.state.idle.len();
        proof {
            assert(rest.idle.take(position as int) =~= rest.idle);
        }
        while position > 0
            invariant
                rest == self.state@,
                position <= rest.idle.len(),
                newest_connection(rest.idle, target@, requested_protocol) == newest_connection(
                    rest.idle.take(position as int),
                    target@,
                    requested_protocol,
                ),
                rest == crate::web::pool::unexpired(old(self)@, now@, idle_timeout@),
                expired@ == crate::web::pool::expirations(old(self)@, now@, idle_timeout@),
            decreases position,
        {
            position = position - 1;
            proof {
                assert(rest.idle.take(position as int + 1).drop_last() =~= rest.idle.take(
                    position as int,
                ));
            }
            let key = &self.state.idle[position].key;
            if key.wire_protocol == Protocol::Http1 && key.matches(target, requested_protocol) {
                let entry = self.state.idle.remove(position);
                return Checkout { connection: Some((entry.key, entry.connection)), expired };
            }
        }
        Checkout { connection: None, expired }
    }

    /// Reserves room in the newest session that serves the request and has
    /// some, after what expired has left.
    pub fn reserve_http2(
        &mut self,
        target: &UriTarget,
        requested_protocol: Protocol,
        now: Instant,
        idle_timeout: Duration,
    ) -> (reservation: Reservation<C>)
        ensures
            reservation.expired@ == crate::web::pool::expirations(old(self)@, now@, idle_timeout@),
            ({
                let rest = crate::web::pool::unexpired(old(self)@, now@, idle_timeout@);
                match newest_session(rest.sessions, target@, requested_protocol) {
                    Some(index) => {
                        let session = rest.sessions[index];
                        &&& reservation.slot == Some(
                            H2SessionSlot {
                                session_id: session.id,
                                request_id: session.state.next_request_id,
                                reused: session.state.has_history(),
                                armed: true,
                            },
                        )
                        &&& final(self)@ == (PoolView {
                            sessions: rest.sessions.update(
                                index,
                                H2Session { state: session.state.reserved(), ..session },
                            ),
                            ..rest
                        })
                    },
                    None => reservation.slot is None && final(self)@ == rest,
                }
            }),
    {
        let expired = self.state.evict_expired(now, idle_timeout);
        let ghost rest = self.state@;
        let mut position: usize = self.state.sessions.len();
        proof {
            assert(rest.sessions.take(position as int) =~= rest.sessions);
        }
        while position > 0
            invariant
                rest == self.state@,
                position <= rest.sessions.len(),
                newest_session(rest.sessions, target@, requested_protocol) == newest_session(
                    rest.sessions.take(position as int),
                    target@,
                    requested_protocol,
                ),
                rest == crate::web::pool::unexpired(old(self)@, now@, idle_timeout@),
                expired@ == crate::web::pool::expirations(old(self)@, now@, idle_timeout@),
            decreases position,
        {
            position = position - 1;
            proof {
                assert(rest.sessions.take(position as int + 1).drop_last()
                    =~= rest.sessions.take(position as int));
            }
            if self.state.sessions[position].key.matches(target, requested_protocol) {
                let mut session = self.state.sessions.remove(position);
                let slot = session.try_reserve();
                self.state.sessions.insert(position, session);
                if slot.is_some() {
                    assert(self.state@.sessions =~= rest.sessions.update(
                        position as int,
                        session,
                    ));
                    return Reservation { slot, expired };
                }
                assert(self.state@.sessions =~= rest.sessions);
                assert(self.state@ =~= rest);
            }
        }
        Reservation { slot: None, expired }
    }

    /// Adds a session and reserves its first request. A session that starts
    /// with an open connection counts what that has served.
    pub fn create_http2(&mut self, key: PoolKey, limits: Limits, initial: Option<usize>) -> (slot:
        H2SessionSlot)
        requires
            key.wire_protocol == Protocol::Http2PriorKnowledge,
            limits@.max_active_streams > 0,
            (match initial {
                Some(completed) => completed,
                None => 0,
            }) < limits@.max_requests_per_connection,
        ensures
            slot == (H2SessionSlot {
                session_id: old(self)@.next_session_id,
                request_id: 1,
                reused: initial matches Some(completed) && completed != 0,
                armed: true,
            }),
            final(self)@ == (PoolView {
                sessions: old(self)@.sessions.push(
                    H2Session {
                        id: old(self)@.next_session_id,
                        key,
                        state: H2SessionState {
                            usable: true,
                            connected: initial is Some,
                            capacity: limits@.max_active_streams,
                            active: 1,
                            completed: match initial {
                                Some(completed) => completed,
                                None => 0,
                            },
                            max_requests: limits@.max_requests_per_connection,
                            idle_since: None,
                            next_request_id: 2,
                            shutdown: false,
                        },
                    },
                ),
                next_session_id: crate::web::pool::following(old(self)@.next_session_id),
                ..old(self)@
            }),
    {
        let connected = initial.is_some();
        let completed: usize = match initial {
            Some(completed) => completed,
            None => 0,
        };
        let id: u64 = self.state.next_session_id;
        self.state.next_session_id = if id == u64::MAX {
            0
        } else {
            id + 1
        };
        let mut session = H2Session::new(id, key, limits, connected, completed);
        let slot = session.try_reserve();
        self.state.sessions.push(session);
        match slot {
            Some(slot) => slot,
            None => {
                assert(false);
                H2SessionSlot { session_id: id, request_id: 1, reused: false, armed: false }
            },
        }
    }

    /// Puts an idle HTTP/1 connection back, after what expired has left, and
    /// enforces the caps.
    pub fn insert_http1(
        &mut self,
        key: PoolKey,
        connection: C,
        now: Instant,
        idle_timeout: Duration,
        max_idle_per_key: usize,
        max_idle_total: usize,
    ) -> (evicted: PoolEvictions<C>)
        requires
            old(self)@.idle.len() + old(self)@.sessions.len() < usize::MAX,
        ensures
            ({
                let rest = crate::web::pool::unexpired(old(self)@, now@, idle_timeout@);
                let expired = crate::web::pool::expirations(old(self)@, now@, idle_timeout@);
                let entry = IdleConnection { key, connection, idle_since: now };
                let filled = PoolView { idle: rest.idle.push(entry), ..rest };
                let capped = crate::web::pool::full_evictions(
                    filled,
                    key@,
                    max_idle_per_key as nat,
                    max_idle_total as nat,
                );
                &&& final(self)@ == crate::web::pool::fully_capped(
                    filled,
                    key@,
                    max_idle_per_key as nat,
                    max_idle_total as nat,
                )
                &&& evicted@ == (EvictionsView {
                    connections: expired.connections + capped.connections,
                    sessions: expired.sessions + capped.sessions,
                })
            }),
    {
        let ghost before = self@;
        let mut evicted = self.state.evict_expired(now, idle_timeout);
        proof {
            crate::web::pool::nothing_expired_stays(before, now@, idle_timeout@);
        }
        let copy = key.duplicate();
        self.state.idle.push(IdleConnection { key, connection, idle_since: now });
        let capped = self.state.enforce_idle_caps(&copy, max_idle_per_key, max_idle_total);
        evicted.extend(capped);
        evicted
    }

    /// Enforces the caps for a session that became idle.
    pub fn enforce_idle_caps(
        &mut self,
        key: &PoolKey,
        max_idle_per_key: usize,
        max_idle_total: usize,
    ) -> (evicted: PoolEvictions<C>)
        requires
            old(self)@.idle.len() + old(self)@.sessions.len() <= usize::MAX,
        ensures
            final(self)@ == crate::web::pool::fully_capped(
                old(self)@,
                key@,
                max_idle_per_key as nat,
                max_idle_total as nat,
            ),
            evicted@ == crate::web::pool::full_evictions(
                old(self)@,
                key@,
                max_idle_per_key as nat,
                max_idle_total as nat,
            ),
    {
        self.state.enforce_idle_caps(key, max_idle_per_key, max_idle_total)
    }

    /// Removes the session with the number `id`.
    pub fn remove_http2_session(&mut self, id: u64)
        ensures
            final(self)@ == (PoolView {
                sessions: other_sessions(old(self)@.sessions, id),
                ..old(self)@
            }),
    {
        let ghost before = self.state.sessions@;
        let ghost mut seen: int = 0;
        let mut position: usize = 0;
        proof {
            assert(before.take(0) =~= Seq::empty());
            assert(self.state.sessions@ =~= Seq::empty() + before.skip(0));
        }
        while position < self.state.sessions.len()
            invariant
                0 <= seen <= before.len(),
                self.state.sessions@ == other_sessions(before.take(seen), id) + before.skip(seen),
                position == other_sessions(before.take(seen), id).len(),
                self.state.idle@ == old(self).state.idle@,
                self.state.next_session_id == old(self).state.next_session_id,
            decreases before.len() - seen,
        {
            proof {
                assert(self.state.sessions@[position as int] == before[seen]);
                assert(before.take(seen + 1).drop_last() =~= before.take(seen));
                assert(before.take(seen + 1).last() == before[seen]);
            }
            if self.state.sessions[position].id == id {
                let _session = self.state.sessions.remove(position);
                assert(self.state.sessions@ =~= other_sessions(before.take(seen), id)
                    + before.skip(seen + 1));
            } else {
                position = position + 1;
                assert(self.state.sessions@ =~= other_sessions(before.take(seen), id).push(
                    before[seen],
                ) + before.skip(seen + 1));
            }
            proof {
                seen = seen + 1;
            }
        }
        proof {
            assert(before.take(seen) =~= before);
            assert(self.state.sessions@ =~= other_sessions(before, id));
        }
    }

    /// Tells every session to stop.
    pub fn shutdown(&mut self)
        ensures
            final(self)@.idle == old(self)@.idle,
            final(self)@.next_session_id == old(self)@.next_session_id,
            final(self)@.sessions.len() == old(self)@.sessions.len(),
            forall|i: int|
                0 <= i < old(self)@.sessions.len() ==> (#[trigger] final(self)@.sessions[i])
                    == (H2Session {
                    state: H2SessionState {
                        usable: false,
                        shutdown: true,
                        ..old(self)@.sessions[i].state
                    },
                    ..old(self)@.sessions[i]
                }),
    {
        let ghost before = self.state.sessions@;
        let mut position: usize = 0;
        while position < self.state.sessions.len()
            invariant
                position <= self.state.sessions@.len(),
                self.state.sessions@.len() == before.len(),
                self.state.idle@ == old(self).state.idle@,
                self.state.next_session_id == old(self).state.next_session_id,
                forall|i: int|
                    0 <= i < position ==> (#[trigger] self.state.sessions@[i]) == (H2Session {
                        state: H2SessionState { usable: false, shutdown: true, ..before[i].state },
                        ..before[i]
                    }),
                forall|i: int|
                    position <= i < before.len() ==> (#[trigger] self.state.sessions@[i])
                        == before[i],
            decreases before.len() - position,
        {
            let mut session = self.state.sessions.remove(position);
            session.shutdown();
            self.state.sessions.insert(position, session);
            position = position + 1;
        }
    }

    /// Changes the state of the session with the number `id`, if the pool
    /// still has it.
    pub fn update_session(&mut self, id: u64, state: H2SessionState) -> (found: bool)
        ensures
            final(self)@.idle == old(self)@.idle,
            final(self)@.next_session_id == old(self)@.next_session_id,
            found == exists|i: int|
                0 <= i < old(self)@.sessions.len() && (#[trigger] old(self)@.sessions[i]).id == id,
            !found ==> final(self)@ == old(self)@,
            found ==> exists|i: int|
                {
                    &&& 0 <= i < old(self)@.sessions.len()
                    &&& (#[trigger] old(self)@.sessions[i]).id == id
                    &&& final(self)@.sessions == old(self)@.sessions.update(
                        i,
                        H2Session { state, ..old(self)@.sessions[i] },
                    )
                },
    {
        let mut position: usize = 0;
        while position < self.state.sessions.len()
            invariant
                position <= self.state.sessions@.len(),
                self.state@ == old(self).state@,
                forall|i: int|
                    0 <= i < position ==> (#[trigger] self.state.sessions@[i]).id != id,
            decreases self.state.sessions@.len() - position,
        {
            if self.state.sessions[position].id == id {
                let session = self.state.sessions.remove(position);
                self.state.sessions.insert(
                    position,
                    H2Session { id: session.id, key: session.key, state },
                );
                proof {
                    let before = old(self)@.sessions;
                    assert(before[position as int].id == id);
                    assert(self.state.sessions@ =~= before.update(
                        position as int,
                        H2Session { state, ..before[position as int] },
                    ));
                }
                return true;
            }
            position = position + 1;
        }
        false
    }

    /// The state of the session with the number `id`, if the pool still has
    /// it.
    pub fn session_state(&self, id: u64) -> (state: Option<H2SessionState>)
        ensures
            match state {
                Some(state) => exists|i: int|
                    {
                        &&& 0 <= i < self@.sessions.len()
                        &&& (#[trigger] self@.sessions[i]).id == id
                        &&& self@.sessions[i].state == state
                        &&& forall|j: int| 0 <= j < i ==> (#[trigger] self@.sessions[j]).id != id
                    },
                None => forall|i: int|
                    0 <= i < self@.sessions.len() ==> (#[trigger] self@.sessions[i]).id != id,
            },
    {
        let mut position: usize = 0;
        while position < self.state.sessions.len()
            invariant
                position <= self.state.sessions@.len(),
                forall|i: int|
                    0 <= i < position ==> (#[trigger] self.state.sessions@[i]).id != id,
            decreases self.state.sessions@.len() - position,
        {
            if self.state.sessions[position].id == id {
                return Some(self.state.sessions[position].state);
            }
            position = position + 1;
        }
        None
    }

    /// Gives a slot up. A reservation whose request was never started goes
    /// back to its session, if the pool still has it.
    pub fn release_slot(&mut self, slot: H2SessionSlot) -> (found: bool)
        ensures
            final(self)@.idle == old(self)@.idle,
            final(self)@.next_session_id == old(self)@.next_session_id,
            found == exists|i: int|
                0 <= i < old(self)@.sessions.len() && (#[trigger] old(self)@.sessions[i]).id
                    == slot.session_id,
            !found || !slot.armed ==> final(self)@ == old(self)@,
            found ==> exists|i: int|
                {
                    &&& 0 <= i < old(self)@.sessions.len()
                    &&& (#[trigger] old(self)@.sessions[i]).id == slot.session_id
                    &&& final(self)@.sessions == old(self)@.sessions.update(
                        i,
                        crate::web::pool::given_back(old(self)@.sessions[i], slot.armed),
                    )
                },
    {
        let mut position: usize = 0;
        while position < self.state.sessions.len()
            invariant
                position <= self.state.sessions@.len(),
                self.state@ == old(self).state@,
                forall|i: int|
                    0 <= i < position ==> (#[trigger] self.state.sessions@[i]).id
                        != slot.session_id,
            decreases self.state.sessions@.len() - position,
        {
            if self.state.sessions[position].id == slot.session_id {
                let ghost armed = slot.armed;
                let mut session = self.state.sessions.remove(position);
                slot.leave(&mut session);
                self.state.sessions.insert(position, session);
                proof {
                    let before = old(self)@.sessions;
                    assert(before[position as int].id == slot.session_id);
                    assert(self.state.sessions@ =~= before.update(
                        position as int,
                        crate::web::pool::given_back(before[position as int], armed),
                    ));
                    if !armed {
                        assert(self.state.sessions@ =~= before);
                    }
                }
                return true;
            }
            position = position + 1;
        }
        false
    }
}

/// What to do next to find out whether an idle connection can be reused.
#[derive(Debug)]
pub enum ReuseAction {
    /// Read what waits on the connection without waiting: one byte for
    /// HTTP/1, as many as fit for HTTP/2.
    Read,
    /// Let the protocol driver look at the input.
    Process,
    /// The connection is clean, or it is not.
    Done(bool),
}

/// What a protocol driver says of input on an idle connection.
#[derive(Clone, Copy, Debug, PartialEq, Eq, Structural)]
pub enum ClientIdleStatus {
    /// The connection can be reused.
    Reusable,
    /// The input is incomplete.
    NeedInput,
    /// The connection cannot be reused.
    NotReusable,
    /// A status that this library does not know.
    Unknown,
}

/// How an idle connection is looked at before it is reused. Bytes that the
/// peer sent while nothing was asked of it would be taken for the next
/// response, so a connection with any of them is dirty, except for HTTP/2
/// frames that the protocol driver takes.
pub open spec fn reuse_start(
    has_exchange: bool,
    protocol: Protocol,
    input_empty: bool,
) -> ReuseAction {
    if has_exchange {
        ReuseAction::Done(false)
    } else if input_empty {
        ReuseAction::Read
    } else if protocol == Protocol::Http1 {
        ReuseAction::Done(false)
    } else {
        ReuseAction::Process
    }
}

/// Starts to find out whether an idle connection can be reused.
pub fn start_reuse_check(has_exchange: bool, protocol: Protocol, input_empty: bool) -> (action:
    ReuseAction)
    ensures
        action == reuse_start(has_exchange, protocol, input_empty),
{
    if has_exchange {
        return ReuseAction::Done(false);
    }
    if input_empty {
        return ReuseAction::Read;
    }
    match protocol {
        Protocol::Http1 => ReuseAction::Done(false),
        Protocol::Http2PriorKnowledge => ReuseAction::Process,
    }
}

/// Goes on after the protocol driver has looked at the input of an HTTP/2
/// connection: `progress` is what it said, or `None` when it failed, `written`
/// whether its answer could be written, `input_empty` whether no input is
/// left, `input_full` whether no room for more is left.
pub fn reuse_after_process(
    progress: Option<ClientIdleStatus>,
    written: bool,
    input_empty: bool,
    input_full: bool,
) -> (action: ReuseAction)
    ensures
        action == if progress is None || !written || progress == Some(
            ClientIdleStatus::NotReusable,
        ) || progress == Some(ClientIdleStatus::Unknown) {
            ReuseAction::Done(false)
        } else if progress == Some(ClientIdleStatus::Reusable) && !input_empty {
            ReuseAction::Process
        } else if input_full {
            ReuseAction::Done(false)
        } else {
            ReuseAction::Read
        },
{
    let read = if input_full {
        ReuseAction::Done(false)
    } else {
        ReuseAction::Read
    };
    match progress {
        None => ReuseAction::Done(false),
        Some(status) => {
            if !written {
                return ReuseAction::Done(false);
            }
            match status {
                ClientIdleStatus::Reusable => {
                    if input_empty {
                        read
                    } else {
                        ReuseAction::Process
                    }
                },
                ClientIdleStatus::NeedInput => read,
                ClientIdleStatus::NotReusable => ReuseAction::Done(false),
                ClientIdleStatus::Unknown => ReuseAction::Done(false),
            }
        },
    }
}

/// Goes on after a read that does not wait. `read` is `None` when nothing
/// waits on the connection; `input_empty` says whether input was left over.
pub fn reuse_after_read(
    protocol: Protocol,
    read: Result<Option<usize>, Errno>,
    input_empty: bool,
) -> (action: ReuseAction)
    ensures
        action == match (protocol, read) {
            (Protocol::Http1, Ok(None)) => ReuseAction::Done(true),
            (Protocol::Http1, _) => ReuseAction::Done(false),
            (Protocol::Http2PriorKnowledge, Ok(None)) => ReuseAction::Done(input_empty),
            (Protocol::Http2PriorKnowledge, Ok(Some(amount))) => if amount == 0 {
                ReuseAction::Done(false)
            } else {
                ReuseAction::Process
            },
            (Protocol::Http2PriorKnowledge, Err(_)) => ReuseAction::Done(false),
        },
{
    match read {
        Err(_) => ReuseAction::Done(false),
        Ok(None) => match protocol {
            Protocol::Http1 => ReuseAction::Done(true),
            Protocol::Http2PriorKnowledge => ReuseAction::Done(input_empty),
        },
        Ok(Some(amount)) => match protocol {
            Protocol::Http1 => ReuseAction::Done(false),
            Protocol::Http2PriorKnowledge => {
                if amount == 0 {
                    ReuseAction::Done(false)
                } else {
                    ReuseAction::Process
                }
            },
        },
    }
}

/// What becomes of a connection whose exchange is over.
#[derive(Debug)]
pub enum ConnectionFate {
    /// It goes back to the pool.
    Pool,
    /// It is closed.
    Close,
    /// It is closed, and the request failed.
    Fail(Error),
}

/// Counts an exchange of a connection and decides what becomes of the
/// connection. `reusable` is what the protocol driver said when it was told to
/// begin the next exchange, or its error.
pub fn finish_response_connection(
    completed: &mut usize,
    max_requests: usize,
    has_exchange: bool,
    reusable: Result<bool, Error>,
    may_reuse_request_connection: bool,
) -> (fate: ConnectionFate)
    ensures
        *final(completed) == if *old(completed) < usize::MAX {
            *old(completed) + 1
        } else {
            usize::MAX as int
        },
        if !has_exchange {
            fate matches ConnectionFate::Fail(error) && error@ == ErrorView::Protocol(
                ProtocolErrorView {
                    kind: ProtocolErrorKind::InvalidState,
                    detail: "the connection has no current exchange to retire"@,
                    source: None,
                },
            )
        } else {
            match reusable {
                Err(error) => fate == ConnectionFate::Fail(error),
                Ok(reusable) => if reusable && may_reuse_request_connection && *final(completed)
                    < max_requests {
                    fate is Pool
                } else {
                    fate is Close
                },
            }
        },
{
    *completed = completed.saturating_add(1);
    if !has_exchange {
        return ConnectionFate::Fail(
            Error::protocol(
                ProtocolErrorKind::InvalidState,
                "the connection has no current exchange to retire",
            ),
        );
    }
    match reusable {
        Err(error) => ConnectionFate::Fail(error),
        Ok(reusable) => {
            if reusable && may_reuse_request_connection && *completed < max_requests {
                ConnectionFate::Pool
            } else {
                ConnectionFate::Close
            }
        },
    }
}

/// The connection that is taken out of the pool speaks HTTP/1 and leads where
/// the request goes.
pub proof fn checkout_fits_the_request<C>(
    idle: Seq<IdleConnection<C>>,
    target: UriTargetView,
    requested_protocol: Protocol,
)
    ensures
        newest_connection(idle, target, requested_protocol) matches Some(index) ==> {
            &&& 0 <= index < idle.len()
            &&& idle[index].key.wire_protocol == Protocol::Http1
            &&& crate::web::pool::key_matches(idle[index].key@, target, requested_protocol)
        },
    decreases idle.len(),
{
    if idle.len() > 0 {
        checkout_fits_the_request(idle.drop_last(), target, requested_protocol);
    }
}

/// The session that a request joins leads where the request goes and has room.
pub proof fn reservation_fits_the_request(
    sessions: Seq<H2Session>,
    target: UriTargetView,
    requested_protocol: Protocol,
)
    ensures
        newest_session(sessions, target, requested_protocol) matches Some(index) ==> {
            &&& 0 <= index < sessions.len()
            &&& sessions[index].state.has_room()
            &&& crate::web::pool::key_matches(sessions[index].key@, target, requested_protocol)
        },
    decreases sessions.len(),
{
    if sessions.len() > 0 {
        reservation_fits_the_request(sessions.drop_last(), target, requested_protocol);
    }
}

/// Lower case stays lower case, so the key of a target matches the target.
pub proof fn own_key_matches(
    target: UriTargetView,
    requested_protocol: Protocol,
    wire_protocol: Protocol,
)
    ensures
        crate::web::pool::key_matches(
            crate::web::pool::pool_key(target, requested_protocol, wire_protocol),
            target,
            requested_protocol,
        ),
{
    let host = target.host;
    let lower = crate::web::pool::lower_text(host);
    assert forall|i: int| 0 <= i < host.len() implies crate::web::pool::lower_char(
        #[trigger] lower[i],
    ) == lower[i] by {
        assert(lower[i] == crate::web::pool::lower_char(host[i]));
    }
    assert(crate::web::pool::lower_text(lower) =~= lower);
}

/// Whether an idle connection serves a request: it speaks HTTP/1, leads to the
/// scheme, host and port of the request, whatever the case of the host, and was
/// asked for with the same protocol.
pub open spec fn serves<C>(entry: IdleConnection<C>, target: UriTargetView, asked: Protocol) -> bool {
    &&& entry.key.wire_protocol == Protocol::Http1
    &&& entry.key.tls == target.tls
    &&& crate::web::pool::same_letters(entry.key.host@, target.host)
    &&& entry.key.port == target.port
    &&& entry.key.requested_protocol == asked
}

/// Whether a session serves a request: it leads to where the request goes, takes
/// requests, and stays within what the peer and the limits allow.
pub open spec fn session_serves(session: H2Session, target: UriTargetView, asked: Protocol) -> bool {
    &&& session.key.tls == target.tls
    &&& crate::web::pool::same_letters(session.key.host@, target.host)
    &&& session.key.port == target.port
    &&& session.key.requested_protocol == asked
    &&& session.state.usable
    &&& session.state.active < session.state.capacity
    &&& session.state.completed + session.state.active < session.state.max_requests
}

proof fn newest_connection_is_newest<C>(
    idle: Seq<IdleConnection<C>>,
    target: UriTargetView,
    asked: Protocol,
)
    ensures
        match newest_connection(idle, target, asked) {
            Some(index) => {
                &&& 0 <= index < idle.len()
                &&& serves(idle[index], target, asked)
                &&& forall|i: int|
                    index < i < idle.len() ==> !serves(#[trigger] idle[i], target, asked)
            },
            None => forall|i: int|
                0 <= i < idle.len() ==> !serves(#[trigger] idle[i], target, asked),
        },
    decreases idle.len(),
{
    if idle.len() > 0 {
        let last = idle.last();
        crate::web::pool::lower_text_ignores_case(last.key.host@, target.host);
        newest_connection_is_newest(idle.drop_last(), target, asked);
        assert forall|i: int| 0 <= i < idle.len() - 1 implies idle.drop_last()[i]
            == #[trigger] idle[i] by {}
    }
}

proof fn newest_session_is_newest(
    sessions: Seq<H2Session>,
    target: UriTargetView,
    asked: Protocol,
)
    ensures
        match newest_session(sessions, target, asked) {
            Some(index) => {
                &&& 0 <= index < sessions.len()
                &&& session_serves(sessions[index], target, asked)
                &&& forall|i: int|
                    index < i < sessions.len() ==> !session_serves(
                        #[trigger] sessions[i],
                        target,
                        asked,
                    )
            },
            None => forall|i: int|
                0 <= i < sessions.len() ==> !session_serves(#[trigger] sessions[i], target, asked),
        },
    decreases sessions.len(),
{
    if sessions.len() > 0 {
        let last = sessions.last();
        crate::web::pool::lower_text_ignores_case(last.key.host@, target.host);
        newest_session_is_newest(sessions.drop_last(), target, asked);
        assert forall|i: int| 0 <= i < sessions.len() - 1 implies sessions.drop_last()[i]
            == #[trigger] sessions[i] by {}
    }
}

/// A request gets the newest idle connection that leads where it goes and has
/// not been idle for too long, exactly when there is one. That connection leaves
/// the pool and the others stay.
pub proof fn checkouts_take_the_newest_that_serves<C>(
    pool: &mut ConnectionPool<C>,
    target: UriTarget,
    asked: Protocol,
    now: Instant,
    timeout: Duration,
    checkout: Checkout<C>,
)
    requires
        call_ensures(
            ConnectionPool::<C>::checkout_http1,
            (pool, &target, asked, now, timeout),
            checkout,
        ),
    ensures
        ({
            let idle = crate::web::pool::idle_for_less(old(pool)@.idle, now@, timeout@);
            match checkout.connection {
                Some((key, connection)) => {
                    &&& key.port == target.port
                    &&& key.tls == target.tls
                    &&& crate::web::pool::same_letters(key.host@, target.host@)
                    &&& key.requested_protocol == asked
                    &&& key.wire_protocol == Protocol::Http1
                    &&& exists|index: int|
                        {
                            &&& 0 <= index < idle.len()
                            &&& (#[trigger] idle[index]).key == key
                            &&& idle[index].connection == connection
                            &&& final(pool)@.idle == idle.remove(index)
                            &&& forall|i: int|
                                index < i < idle.len() ==> !serves(
                                    #[trigger] idle[i],
                                    target@,
                                    asked,
                                )
                        }
                },
                None => {
                    &&& final(pool)@.idle == idle
                    &&& forall|i: int|
                        0 <= i < idle.len() ==> !serves(#[trigger] idle[i], target@, asked)
                },
            }
        }),
        checkout.expired.connections@ == crate::web::pool::idle_for_long(
            old(pool)@.idle,
            now@,
            timeout@,
        ).map_values(|entry: IdleConnection<C>| entry.connection),
{
    crate::web::pool::expired_idle_is_idle_for_long(old(pool)@.idle, now@, timeout@);
    let idle = crate::web::pool::idle_for_less(old(pool)@.idle, now@, timeout@);
    newest_connection_is_newest(idle, target@, asked);
}

/// A request gets a place in the newest session that leads where it goes and
/// takes one more, exactly when there is one. The request then counts there, and
/// nowhere else.
pub proof fn reservations_take_the_newest_that_serves<C>(
    pool: &mut ConnectionPool<C>,
    target: UriTarget,
    asked: Protocol,
    now: Instant,
    timeout: Duration,
    reservation: Reservation<C>,
)
    requires
        call_ensures(
            ConnectionPool::<C>::reserve_http2,
            (pool, &target, asked, now, timeout),
            reservation,
        ),
    ensures
        ({
            let sessions = old(pool)@.sessions.filter(
                |session: H2Session| !crate::web::pool::is_spent(session, now@, timeout@),
            );
            match reservation.slot {
                Some(slot) => exists|index: int|
                    {
                        &&& 0 <= index < sessions.len()
                        &&& session_serves(#[trigger] sessions[index], target@, asked)
                        &&& slot.session_id == sessions[index].id
                        &&& slot.request_id == sessions[index].state.next_request_id
                        &&& slot.armed
                        &&& forall|i: int|
                            index < i < sessions.len() ==> !session_serves(
                                #[trigger] sessions[i],
                                target@,
                                asked,
                            )
                        &&& final(pool)@.sessions.len() == sessions.len()
                        &&& final(pool)@.sessions[index].state.active
                            == sessions[index].state.active + 1
                        &&& forall|i: int|
                            0 <= i < sessions.len() && i != index ==> (
                            #[trigger] final(pool)@.sessions[i]) == sessions[i]
                    },
                None => {
                    &&& final(pool)@.sessions == sessions
                    &&& forall|i: int|
                        0 <= i < sessions.len() ==> !session_serves(
                            #[trigger] sessions[i],
                            target@,
                            asked,
                        )
                },
            }
        }),
        final(pool)@.idle == crate::web::pool::idle_for_less(old(pool)@.idle, now@, timeout@),
{
    crate::web::pool::expired_idle_is_idle_for_long(old(pool)@.idle, now@, timeout@);
    crate::web::pool::expired_sessions_are_spent(old(pool)@.sessions, now@, timeout@);
    let sessions = crate::web::pool::fresh_sessions(old(pool)@.sessions, now@, timeout@);
    newest_session_is_newest(sessions, target@, asked);
    match newest_session(sessions, target@, asked) {
        Some(index) => {
            assert(session_serves(sessions[index], target@, asked));
        },
        None => {},
    }
}

/// A connection that was put back is the one that the next request to its place
/// gets, when the pool is not full and the connection was not idle for too long.
pub proof fn connections_are_reused<C>(
    filling: &mut ConnectionPool<C>,
    taking: &mut ConnectionPool<C>,
    place: UriTarget,
    target: UriTarget,
    requested: Protocol,
    key: PoolKey,
    connection: C,
    times: (Instant, Instant),
    timeout: Duration,
    per_key: usize,
    total: usize,
    evicted: PoolEvictions<C>,
    checkout: Checkout<C>,
)
    requires
        call_ensures(PoolKey::new, (&place, requested, Protocol::Http1), key),
        old(filling)@.idle.len() + old(filling)@.sessions.len() < per_key,
        old(filling)@.idle.len() + old(filling)@.sessions.len() < total,
        call_ensures(
            ConnectionPool::<C>::insert_http1,
            (filling, key, connection, times.0, timeout, per_key, total),
            evicted,
        ),
        *old(taking) == *final(filling),
        place.tls == target.tls,
        place.port == target.port,
        crate::web::pool::same_letters(place.host@, target.host@),
        0 < timeout@,
        times.1@ - times.0@ < timeout@,
        call_ensures(
            ConnectionPool::<C>::checkout_http1,
            (taking, &target, requested, times.1, timeout),
            checkout,
        ),
    ensures
        checkout.connection matches Some((found, served)) && served == connection && found@ == key@,
        final(filling)@.idle == crate::web::pool::idle_for_less(
            old(filling)@.idle,
            times.0@,
            timeout@,
        ).push(IdleConnection { key, connection, idle_since: times.0 }),
        evicted.connections@ == crate::web::pool::idle_for_long(
            old(filling)@.idle,
            times.0@,
            timeout@,
        ).map_values(|entry: IdleConnection<C>| entry.connection),
{
    reveal(Seq::filter);
    let before = old(filling)@;
    crate::web::pool::nothing_expired_stays(before, times.0@, timeout@);
    crate::web::pool::expired_idle_is_idle_for_long(before.idle, times.0@, timeout@);
    let rest = crate::web::pool::unexpired(before, times.0@, timeout@);
    let entry = IdleConnection { key, connection, idle_since: times.0 };
    let filled = PoolView { idle: rest.idle.push(entry), ..rest };
    crate::web::pool::small_pools_lose_nothing(filled, key@, per_key as nat, total as nat);
    assert(evicted.connections@ =~= crate::web::pool::expirations(
        before,
        times.0@,
        timeout@,
    ).connections);
    assert(filled.idle.drop_last() =~= rest.idle);
    crate::web::pool::expired_idle_is_idle_for_long(filled.idle, times.1@, timeout@);
    let idle = crate::web::pool::idle_for_less(filled.idle, times.1@, timeout@);
    assert(idle == crate::web::pool::fresh_idle(filled.idle, times.1@, timeout@));
    assert(idle.last() == entry);
    newest_connection_is_newest(idle, target@, requested);
    crate::web::pool::lower_text_ignores_case(place.host@, target.host@);
    crate::web::pool::lower_text_ignores_case(key.host@, target.host@);
    assert(serves(idle[idle.len() - 1], target@, requested));
}

/// A new session belongs to the place that it was made for, runs one request and
/// counts what its connection served. Its number is not given out again next.
pub proof fn new_sessions_run_their_first_request<C>(
    pool: &mut ConnectionPool<C>,
    key: PoolKey,
    limits: Limits,
    initial: Option<usize>,
    slot: H2SessionSlot,
)
    requires
        call_ensures(ConnectionPool::<C>::create_http2, (pool, key, limits, initial), slot),
    ensures
        final(pool)@.sessions.len() == old(pool)@.sessions.len() + 1,
        final(pool)@.sessions.drop_last() == old(pool)@.sessions,
        final(pool)@.idle == old(pool)@.idle,
        final(pool)@.next_session_id != old(pool)@.next_session_id,
        slot.session_id == old(pool)@.next_session_id,
        slot.armed,
        slot.reused ==> initial is Some && initial->0 > 0,
        ({
            let session = final(pool)@.sessions.last();
            &&& session.id == slot.session_id
            &&& session.key == key
            &&& session.state.usable && !session.state.shutdown
            &&& session.state.active == 1
            &&& session.state.connected == (initial is Some)
            &&& session.state.completed == (match initial {
                Some(completed) => completed,
                None => 0,
            })
            &&& session.state.capacity == limits@.max_active_streams
            &&& session.state.max_requests == limits@.max_requests_per_connection
            &&& session.state.next_request_id > slot.request_id
        }),
{
    assert(final(pool)@.sessions.drop_last() =~= old(pool)@.sessions);
}

/// Removing a session takes out that session and no other.
pub proof fn only_the_named_session_leaves<C>(pool: &mut ConnectionPool<C>, id: u64)
    requires
        call_ensures(ConnectionPool::<C>::remove_http2_session, (pool, id), ()),
    ensures
        final(pool)@.sessions == old(pool)@.sessions.filter(|session: H2Session| session.id != id),
        final(pool)@.idle == old(pool)@.idle,
        final(pool)@.next_session_id == old(pool)@.next_session_id,
{
    other_sessions_have_other_numbers(old(pool)@.sessions, id);
}

proof fn other_sessions_have_other_numbers(sessions: Seq<H2Session>, id: u64)
    ensures
        other_sessions(sessions, id) == sessions.filter(|session: H2Session| session.id != id),
    decreases sessions.len(),
{
    reveal(Seq::filter);
    if sessions.len() > 0 {
        other_sessions_have_other_numbers(sessions.drop_last(), id);
    }
}

/// A connection is found clean only when nothing runs on it and nothing that the
/// peer sent is left on it: not at the start, and of a read only when it finds
/// nothing at all.
pub proof fn clean_connections_hold_no_bytes(
    has_exchange: bool,
    protocol: Protocol,
    input_empty: bool,
    start: ReuseAction,
    progress: Option<ClientIdleStatus>,
    written: bool,
    input_full: bool,
    processed: ReuseAction,
    read: Result<Option<usize>, Errno>,
    after: ReuseAction,
)
    requires
        call_ensures(start_reuse_check, (has_exchange, protocol, input_empty), start),
        call_ensures(
            reuse_after_process,
            (progress, written, input_empty, input_full),
            processed,
        ),
        call_ensures(reuse_after_read, (protocol, read, input_empty), after),
    ensures
        start != ReuseAction::Done(true),
        has_exchange ==> start == ReuseAction::Done(false),
        !has_exchange && input_empty ==> start is Read,
        !input_empty && protocol == Protocol::Http1 ==> start == ReuseAction::Done(false),
        !has_exchange && !input_empty && protocol == Protocol::Http2PriorKnowledge
            ==> start is Process,
        processed != ReuseAction::Done(true),
        progress is None || !written ==> processed == ReuseAction::Done(false),
        progress == Some(ClientIdleStatus::NotReusable) ==> processed == ReuseAction::Done(false),
        progress == Some(ClientIdleStatus::Reusable) && written && !input_empty
            ==> processed is Process,
        progress == Some(ClientIdleStatus::NeedInput) && written && !input_full
            ==> processed is Read,
        after == ReuseAction::Done(true) <==> read == Ok::<Option<usize>, Errno>(None) && (protocol
            == Protocol::Http1 || input_empty),
        after is Process <==> protocol == Protocol::Http2PriorKnowledge && (read matches Ok(
            Some(amount),
        ) && amount > 0),
        after !is Read,
{
}

/// A connection goes back to the pool exactly when its exchange is over, the
/// driver and the request allow another one, and the connection may serve one
/// more request than it now has.
pub proof fn connections_are_kept_while_they_may_serve(
    completed: &mut usize,
    max_requests: usize,
    has_exchange: bool,
    reusable: Result<bool, Error>,
    may_reuse: bool,
    fate: ConnectionFate,
)
    requires
        *old(completed) < usize::MAX,
        call_ensures(
            finish_response_connection,
            (completed, max_requests, has_exchange, reusable, may_reuse),
            fate,
        ),
    ensures
        *final(completed) == *old(completed) + 1,
        fate is Pool <==> has_exchange && reusable == Ok::<bool, Error>(true) && may_reuse && *old(completed) + 1 < max_requests,
        fate is Fail <==> !has_exchange || reusable is Err,
        has_exchange ==> (reusable matches Err(error) ==> fate == ConnectionFate::Fail(error)),
{
}

/// A slot that is given up in the pool makes room in its own session, and
/// changes no other.
pub proof fn slots_come_back_to_their_session<C>(
    pool: &mut ConnectionPool<C>,
    slot: H2SessionSlot,
    found: bool,
)
    requires
        slot.armed,
        call_ensures(ConnectionPool::<C>::release_slot, (pool, slot), found),
    ensures
        final(pool)@.idle == old(pool)@.idle,
        final(pool)@.sessions.len() == old(pool)@.sessions.len(),
        found ==> exists|i: int|
            {
                &&& 0 <= i < old(pool)@.sessions.len()
                &&& (#[trigger] old(pool)@.sessions[i]).id == slot.session_id
                &&& old(pool)@.sessions[i].state.active > 0
                    ==> final(pool)@.sessions[i].state.active + 1
                    == old(pool)@.sessions[i].state.active
                &&& final(pool)@.sessions[i].state.completed
                    == old(pool)@.sessions[i].state.completed
                &&& forall|j: int|
                    0 <= j < old(pool)@.sessions.len() && j != i ==> (
                    #[trigger] final(pool)@.sessions[j]) == old(pool)@.sessions[j]
            },
        !found ==> final(pool)@.sessions == old(pool)@.sessions,
{
    if found {
        let i = choose|i: int|
            {
                &&& 0 <= i < old(pool)@.sessions.len()
                &&& (#[trigger] old(pool)@.sessions[i]).id == slot.session_id
                &&& final(pool)@.sessions == old(pool)@.sessions.update(
                    i,
                    crate::web::pool::given_back(old(pool)@.sessions[i], slot.armed),
                )
            };
        assert(old(pool)@.sessions[i].id == slot.session_id);
    }
}

/// A new pool is empty, and one that shuts down tells every session and takes no
/// more requests on any.
pub proof fn pools_shut_all_sessions_down<C>(
    made: ConnectionPool<C>,
    pool: &mut ConnectionPool<C>,
    index: int,
)
    requires
        call_ensures(ConnectionPool::<C>::new, (), made),
        call_ensures(ConnectionPool::<C>::shutdown, (pool,), ()),
        0 <= index < old(pool)@.sessions.len(),
    ensures
        made@.idle.len() == 0 && made@.sessions.len() == 0,
        final(pool)@.sessions.len() == old(pool)@.sessions.len(),
        !final(pool)@.sessions[index].state.usable && final(pool)@.sessions[index].state.shutdown,
        final(pool)@.sessions[index].id == old(pool)@.sessions[index].id,
        final(pool)@.sessions[index].key == old(pool)@.sessions[index].key,
        final(pool)@.sessions[index].state.active == old(pool)@.sessions[index].state.active,
        final(pool)@.idle == old(pool)@.idle,
{
}

/// The state that a session is given is the state that is read, and no other
/// session changes.
pub proof fn sessions_have_the_state_they_were_given<C>(
    pool: &mut ConnectionPool<C>,
    id: u64,
    other: u64,
    state: H2SessionState,
    found: bool,
    read: (Option<H2SessionState>, Option<H2SessionState>, Option<H2SessionState>),
)
    requires
        forall|i: int, j: int|
            0 <= i < j < old(pool)@.sessions.len() ==> (#[trigger] old(pool)@.sessions[i]).id != (
            #[trigger] old(pool)@.sessions[j]).id,
        call_ensures(ConnectionPool::<C>::session_state, (&*old(pool), other), read.0),
        call_ensures(ConnectionPool::<C>::update_session, (pool, id, state), found),
        call_ensures(ConnectionPool::<C>::session_state, (final(pool), id), read.1),
        call_ensures(ConnectionPool::<C>::session_state, (final(pool), other), read.2),
    ensures
        found ==> read.1 == Some(state),
        !found ==> read.1 is None,
        other != id ==> read.2 == read.0,
        final(pool)@.idle == old(pool)@.idle,
{
    if found {
        let i = choose|i: int|
            {
                &&& 0 <= i < old(pool)@.sessions.len()
                &&& (#[trigger] old(pool)@.sessions[i]).id == id
                &&& final(pool)@.sessions == old(pool)@.sessions.update(
                    i,
                    H2Session { state, ..old(pool)@.sessions[i] },
                )
            };
        assert(final(pool)@.sessions[i].id == id);
        assert(final(pool)@.sessions[i].state == state);
        assert forall|j: int| 0 <= j < final(pool)@.sessions.len() && j != i implies (
        #[trigger] final(pool)@.sessions[j]) == old(pool)@.sessions[j] by {}
        if read.1 is None {
            assert(final(pool)@.sessions[i].id != id);
        } else {
            let k = choose|k: int|
                {
                    &&& 0 <= k < final(pool)@.sessions.len()
                    &&& (#[trigger] final(pool)@.sessions[k]).id == id
                    &&& final(pool)@.sessions[k].state == read.1->0
                    &&& forall|j: int| 0 <= j < k ==> (#[trigger] final(pool)@.sessions[j]).id
                        != id
                };
            assert(old(pool)@.sessions[k].id == id);
            assert(k == i);
        }
        if other != id {
            assert forall|j: int| 0 <= j < final(pool)@.sessions.len() implies (
            #[trigger] final(pool)@.sessions[j]).id == old(pool)@.sessions[j].id by {}
            if read.0 is Some {
                let k = choose|k: int|
                    {
                        &&& 0 <= k < old(pool)@.sessions.len()
                        &&& (#[trigger] old(pool)@.sessions[k]).id == other
                        &&& old(pool)@.sessions[k].state == read.0->0
                        &&& forall|j: int| 0 <= j < k ==> (#[trigger] old(pool)@.sessions[j]).id
                            != other
                    };
                assert(final(pool)@.sessions[k] == old(pool)@.sessions[k]);
                if read.2 is Some {
                    let m = choose|m: int|
                        {
                            &&& 0 <= m < final(pool)@.sessions.len()
                            &&& (#[trigger] final(pool)@.sessions[m]).id == other
                            &&& final(pool)@.sessions[m].state == read.2->0
                            &&& forall|j: int| 0 <= j < m ==> (
                            #[trigger] final(pool)@.sessions[j]).id != other
                        };
                    assert(old(pool)@.sessions[m].id == other);
                    assert(m == k);
                }
            } else if read.2 is Some {
                let m = choose|m: int|
                    {
                        &&& 0 <= m < final(pool)@.sessions.len()
                        &&& (#[trigger] final(pool)@.sessions[m]).id == other
                        &&& final(pool)@.sessions[m].state == read.2->0
                        &&& forall|j: int| 0 <= j < m ==> (#[trigger] final(pool)@.sessions[j]).id
                            != other
                    };
                assert(old(pool)@.sessions[m].id != other);
            }
        }
    } else {
        assert forall|i: int| 0 <= i < old(pool)@.sessions.len() implies (
        #[trigger] old(pool)@.sessions[i]).id != id by {}
        if read.1 is Some {
            let k = choose|k: int|
                {
                    &&& 0 <= k < final(pool)@.sessions.len()
                    &&& (#[trigger] final(pool)@.sessions[k]).id == id
                    &&& final(pool)@.sessions[k].state == read.1->0
                    &&& forall|j: int| 0 <= j < k ==> (#[trigger] final(pool)@.sessions[j]).id
                        != id
                };
            assert(old(pool)@.sessions[k].id != id);
        }
    }
}

/// The caps of a pool are kept, and what leaves is handed out.
pub proof fn pools_keep_their_caps<C>(
    pool: &mut ConnectionPool<C>,
    key: &PoolKey,
    per_key: usize,
    total: usize,
    evicted: PoolEvictions<C>,
)
    requires
        call_ensures(ConnectionPool::<C>::enforce_idle_caps, (pool, key, per_key, total), evicted),
    ensures
        crate::web::pool::idle_with(final(pool)@, None) <= total,
        crate::web::pool::idle_with(final(pool)@, Some(key@)) <= per_key,
        crate::web::pool::idle_with(old(pool)@, Some(key@)) <= per_key
            && crate::web::pool::idle_with(old(pool)@, None) <= total ==> final(pool)@ == old(pool)@,
        final(pool)@.idle.len() + evicted@.connections.len() == old(pool)@.idle.len(),
        final(pool)@.sessions.len() + evicted@.sessions.len() == old(pool)@.sessions.len(),
{
    crate::web::pool::capped_pools_are_within_their_caps(
        old(pool)@,
        key@,
        per_key as nat,
        total as nat,
    );
}

} // verus!
