//! The turns of an HTTP/2 client session.

use vstd::prelude::*;

use crate::errno::Errno;
use crate::errors::ChannelError;
use crate::errors::TimeoutError;
use crate::time::Duration;
use crate::time::Instant;
use crate::web::client::H2AttemptResult;
use crate::web::config::Protocol;
use crate::web::connection_pool::ClientIdleStatus;
use crate::web::driver::receive_head;
use crate::web::driver::ClientStep;
use crate::web::driver::DriverClientEvent;
use crate::web::driver::ResponseHeadView;
use crate::web::error::Error;
use crate::web::error::ErrorView;
use crate::web::error::ProtocolErrorKind;
use crate::web::failure::DriverError;
use crate::web::failure::H2FailureView;
use crate::web::failure::H2PumpStopReason;
use crate::web::failure::H2PumpTermination;
use crate::web::failure::H2SharedFailure;
use crate::web::failure::SendFailure;
use crate::web::headers::convert_headers;
use crate::web::headers::Headers;
use crate::web::http2::H2ExchangeView;
use crate::web::http2::H2Exchanges;
use crate::web::message::ReceivedResponseHead;
use crate::web::pool::H2SessionState;

verus! {

/// What an idle session waits for.
#[derive(Clone, Copy, Debug, PartialEq, Eq, Structural)]
pub struct IdleWait {
    /// Until when.
    pub deadline: Option<Instant>,
    /// Whether a request is on its way.
    pub reserved: bool,
    /// Whether the peer's bytes go before new requests. They do once the
    /// session served a request.
    pub input_first: bool,
}

/// What a session does next.
#[derive(Clone, Copy, Debug, PartialEq, Eq, Structural)]
pub enum PumpPhase {
    /// It looks whether it was told to stop.
    Turn,
    /// It takes the requests that wait.
    Drain,
    /// It parts with the exchanges that are over.
    Retire,
    /// It asks the sources of request bodies.
    Poll,
    /// It tries to write part of a request body.
    WriteFirst,
    /// It has no exchange, and looks whether it is idle.
    Idle,
    /// It became idle; the pool may have too many of those.
    Caps,
    /// It works on bytes of the peer while it has no exchange.
    IdleInput,
    /// It is done with those bytes.
    IdleSettle,
    /// It waits without an exchange.
    IdleWait(IdleWait),
    /// It has the driver make a step.
    Step,
    /// It tries to write part of a request body before it waits.
    LastWrite,
    /// It waits.
    Park,
    /// It stopped.
    Stopped(H2PumpStopReason),
}

/// The turns of a session.
#[derive(Clone, Copy, Debug, PartialEq, Eq, Structural)]
pub struct H2Pump {
    /// What it does next.
    pub phase: PumpPhase,
    /// Whether a request body goes before the driver.
    pub prefer_body: bool,
    /// Whether the pool knows that the session is idle.
    pub idle_announced: bool,
    /// Whether a request was on its way at the last look for idleness.
    pub reserved: bool,
    /// Whether the session had served a request at the last look for idleness.
    pub established: bool,
}

/// What the queue of requests holds.
#[derive(Clone, Copy, Debug, PartialEq, Eq, Structural)]
pub enum CommandPoll {
    /// A command.
    Command,
    /// Nothing.
    Empty,
    /// Nothing, and never again.
    Closed,
}

/// How a wait without an exchange ended.
pub enum IdleEvent {
    /// The session was told to stop.
    Shutdown,
    /// A command came.
    Command,
    /// No command will come again.
    Closed,
    /// The peer sent so many bytes, or reading failed.
    Input(Result<usize, Error>),
}

/// How a wait with exchanges ended.
pub enum ParkEvent {
    /// The session was told to stop.
    Shutdown,
    /// A command came.
    Command,
    /// No command will come again.
    Closed,
    /// A request body can go on.
    Body,
    /// A request body failed.
    BodyFailed,
    /// The peer sent so many bytes, or reading failed.
    Input(Result<usize, Error>),
}

impl H2Pump {
    /// The same turns in another phase.
    pub open spec fn at(self, phase: PumpPhase) -> H2Pump {
        H2Pump { phase, ..self }
    }

    /// The next turn, in which a request body goes first, or not.
    pub open spec fn turning(self, prefer_body: bool) -> H2Pump {
        H2Pump { phase: PumpPhase::Turn, prefer_body, ..self }
    }

    /// What follows the bodies: a step, or idleness.
    pub open spec fn past_bodies(self, has_exchanges: bool) -> H2Pump {
        if has_exchanges {
            self.at(PumpPhase::Step)
        } else {
            self.at(PumpPhase::Idle)
        }
    }

    /// Before the first turn.
    pub fn new() -> (pump: H2Pump)
        ensures
            pump == (H2Pump {
                phase: PumpPhase::Turn,
                prefer_body: false,
                idle_announced: false,
                reserved: false,
                established: false,
            }),
    {
        H2Pump {
            phase: PumpPhase::Turn,
            prefer_body: false,
            idle_announced: false,
            reserved: false,
            established: false,
        }
    }

    /// After the look for a stop.
    pub open spec fn after_turn(self, shutdown: bool, has_exchanges: bool) -> H2Pump {
        if shutdown {
            self.at(PumpPhase::Stopped(H2PumpStopReason::SessionShutdown))
        } else if has_exchanges {
            self.at(PumpPhase::Drain)
        } else {
            self.at(PumpPhase::Retire)
        }
    }

    /// Looks whether the session was told to stop.
    pub fn turn(self, shutdown: bool, has_exchanges: bool) -> (next: H2Pump)
        requires
            self.phase == PumpPhase::Turn,
        ensures
            next == self.after_turn(shutdown, has_exchanges),
    {
        let phase = if shutdown {
            PumpPhase::Stopped(H2PumpStopReason::SessionShutdown)
        } else if has_exchanges {
            PumpPhase::Drain
        } else {
            PumpPhase::Retire
        };
        H2Pump { phase, ..self }
    }

    /// After a look at the queue.
    pub open spec fn after_drain(self, poll: CommandPoll) -> H2Pump {
        match poll {
            CommandPoll::Command => H2Pump { idle_announced: false, ..self },
            CommandPoll::Empty => self.at(PumpPhase::Retire),
            CommandPoll::Closed => self.at(
                PumpPhase::Stopped(H2PumpStopReason::SessionShutdown),
            ),
        }
    }

    /// Looked at the queue.
    pub fn drained(self, poll: CommandPoll) -> (next: H2Pump)
        requires
            self.phase == PumpPhase::Drain,
        ensures
            next == self.after_drain(poll),
    {
        match poll {
            CommandPoll::Command => H2Pump { idle_announced: false, ..self },
            CommandPoll::Empty => H2Pump { phase: PumpPhase::Retire, ..self },
            CommandPoll::Closed => H2Pump {
                phase: PumpPhase::Stopped(H2PumpStopReason::SessionShutdown),
                ..self
            },
        }
    }

    /// Parted with the exchanges that are over.
    pub fn retired(self) -> (next: H2Pump)
        requires
            self.phase == PumpPhase::Retire,
        ensures
            next == self.at(PumpPhase::Poll),
    {
        H2Pump { phase: PumpPhase::Poll, ..self }
    }

    /// After the sources of request bodies were asked.
    pub open spec fn after_poll(self, failed: bool, has_exchanges: bool) -> H2Pump {
        if failed {
            self.turning(false)
        } else if self.prefer_body {
            self.at(PumpPhase::WriteFirst)
        } else {
            self.past_bodies(has_exchanges)
        }
    }

    /// Asked the sources of request bodies. One that failed had its exchange
    /// given up.
    pub fn polled(self, failed: bool, has_exchanges: bool) -> (next: H2Pump)
        requires
            self.phase == PumpPhase::Poll,
        ensures
            next == self.after_poll(failed, has_exchanges),
    {
        if failed {
            return H2Pump { phase: PumpPhase::Turn, prefer_body: false, ..self };
        }
        let phase = if self.prefer_body {
            PumpPhase::WriteFirst
        } else if has_exchanges {
            PumpPhase::Step
        } else {
            PumpPhase::Idle
        };
        H2Pump { phase, ..self }
    }

    /// After the first attempt to write.
    pub open spec fn after_first_write(self, wrote: bool, has_exchanges: bool) -> H2Pump {
        if wrote {
            self.turning(false)
        } else {
            self.past_bodies(has_exchanges)
        }
    }

    /// Tried to write part of a request body.
    pub fn wrote_first(self, wrote: bool, has_exchanges: bool) -> (next: H2Pump)
        requires
            self.phase == PumpPhase::WriteFirst,
        ensures
            next == self.after_first_write(wrote, has_exchanges),
    {
        if wrote {
            return H2Pump { phase: PumpPhase::Turn, prefer_body: false, ..self };
        }
        let phase = if has_exchanges {
            PumpPhase::Step
        } else {
            PumpPhase::Idle
        };
        H2Pump { phase, ..self }
    }

    /// After the look for idleness. What it found counts until the next one.
    pub open spec fn after_idle(self, state: H2SessionState) -> H2Pump {
        let looked = H2Pump {
            reserved: state.active != 0,
            established: state.completed != 0,
            ..self
        };
        if state.active == 0 && crate::web::pool::saturated_sum(state.completed, state.active)
            >= state.max_requests {
            looked.at(PumpPhase::Stopped(H2PumpStopReason::RequestLimitReached))
        } else if state.active == 0 && !self.idle_announced {
            H2Pump { phase: PumpPhase::Caps, idle_announced: true, ..looked }
        } else {
            looked.at(PumpPhase::IdleInput)
        }
    }

    /// Looks whether the session is idle. It is from `now` on when no request
    /// is on its way; a session that served as many as it may then stops.
    /// Requests that are reserved later count only at the next look.
    pub fn idle(self, state: &mut H2SessionState, now: Instant) -> (next: H2Pump)
        requires
            self.phase == PumpPhase::Idle,
        ensures
            next == self.after_idle(*old(state)),
            *final(state) == if next.phase == PumpPhase::Caps {
                H2SessionState { idle_since: Some(now), ..*old(state) }
            } else {
                *old(state)
            },
    {
        let active: usize = state.active;
        let looked = H2Pump {
            reserved: active != 0,
            established: state.completed != 0,
            ..self
        };
        if active == 0 && state.completed.saturating_add(active) >= state.max_requests {
            return H2Pump {
                phase: PumpPhase::Stopped(H2PumpStopReason::RequestLimitReached),
                ..looked
            };
        }
        if active == 0 && !self.idle_announced {
            state.idle_since = Some(now);
            return H2Pump { phase: PumpPhase::Caps, idle_announced: true, ..looked };
        }
        H2Pump { phase: PumpPhase::IdleInput, ..looked }
    }

    /// After the pool parted with idle sessions that are too many.
    pub open spec fn after_caps(self, shutdown: bool) -> H2Pump {
        if shutdown {
            self.at(PumpPhase::Stopped(H2PumpStopReason::SessionShutdown))
        } else {
            self.at(PumpPhase::IdleInput)
        }
    }

    /// The pool parted with idle sessions that are too many, perhaps with this
    /// one.
    pub fn capped(self, shutdown: bool) -> (next: H2Pump)
        requires
            self.phase == PumpPhase::Caps,
        ensures
            next == self.after_caps(shutdown),
    {
        let phase = if shutdown {
            PumpPhase::Stopped(H2PumpStopReason::SessionShutdown)
        } else {
            PumpPhase::IdleInput
        };
        H2Pump { phase, ..self }
    }

    /// There are no bytes of the peer to work on.
    pub fn input_drained(self) -> (next: H2Pump)
        requires
            self.phase == PumpPhase::IdleInput,
        ensures
            next == self.at(PumpPhase::IdleSettle),
    {
        H2Pump { phase: PumpPhase::IdleSettle, ..self }
    }

    /// After the driver worked on bytes of the peer.
    pub open spec fn after_input(self, status: ClientIdleStatus, consumed: usize) -> Result<
        H2Pump,
        H2FailureView,
    > {
        match status {
            ClientIdleStatus::Reusable => if consumed == 0 {
                Ok(self.at(PumpPhase::IdleSettle))
            } else {
                Ok(self)
            },
            ClientIdleStatus::NeedInput => Ok(self.at(PumpPhase::IdleSettle)),
            ClientIdleStatus::NotReusable => Err(
                H2FailureView::Protocol(
                    ProtocolErrorKind::InvalidState,
                    "the idle HTTP/2 connection is no longer reusable"@,
                ),
            ),
            ClientIdleStatus::Unknown => Err(
                H2FailureView::Protocol(
                    ProtocolErrorKind::InvalidState,
                    "the driver returned an unknown idle status"@,
                ),
            ),
        }
    }

    /// The driver worked on bytes of the peer.
    pub fn input_processed(self, status: ClientIdleStatus, consumed: usize) -> (next: Result<
        H2Pump,
        H2SharedFailure,
    >)
        requires
            self.phase == PumpPhase::IdleInput,
        ensures
            match next {
                Ok(pump) => self.after_input(status, consumed) == Ok::<H2Pump, H2FailureView>(pump),
                Err(failure) => self.after_input(status, consumed) == Err::<H2Pump, H2FailureView>(
                    failure@,
                ),
            },
    {
        match status {
            ClientIdleStatus::Reusable => if consumed == 0 {
                Ok(H2Pump { phase: PumpPhase::IdleSettle, ..self })
            } else {
                Ok(self)
            },
            ClientIdleStatus::NeedInput => Ok(H2Pump { phase: PumpPhase::IdleSettle, ..self }),
            ClientIdleStatus::NotReusable => Err(
                H2SharedFailure::protocol(
                    ProtocolErrorKind::InvalidState,
                    "the idle HTTP/2 connection is no longer reusable",
                ),
            ),
            ClientIdleStatus::Unknown => Err(
                H2SharedFailure::protocol(
                    ProtocolErrorKind::InvalidState,
                    "the driver returned an unknown idle status",
                ),
            ),
        }
    }

    /// Decides how long the session, idle since `idle_since`, waits without an
    /// exchange. With no request on its way at the look for idleness the wait
    /// ends when the session was idle for too long.
    pub fn settle(self, idle_since: Option<Instant>, idle_timeout: Duration) -> (next: H2Pump)
        requires
            self.phase == PumpPhase::IdleSettle,
        ensures
            next == self.at(next.phase),
            if !self.reserved && idle_timeout@ == 0 {
                next.phase == PumpPhase::Stopped(H2PumpStopReason::IdleTimeout)
            } else {
                &&& next.phase matches PumpPhase::IdleWait(wait)
                &&& wait.reserved == self.reserved
                &&& wait.input_first == self.established
                &&& match wait.deadline {
                    Some(deadline) => {
                        &&& !self.reserved
                        &&& idle_since is Some
                        &&& crate::time::instant_after(idle_since->0@, idle_timeout@) == Some(
                            deadline@,
                        )
                    },
                    None => {
                        ||| self.reserved
                        ||| idle_since is None
                        ||| crate::time::instant_after(idle_since->0@, idle_timeout@) is None
                    },
                }
            },
    {
        if !self.reserved && idle_timeout.is_zero() {
            return H2Pump { phase: PumpPhase::Stopped(H2PumpStopReason::IdleTimeout), ..self };
        }
        let deadline = if !self.reserved {
            match idle_since {
                Some(idle_since) => idle_since.checked_add(idle_timeout),
                None => None,
            }
        } else {
            None
        };
        let wait = IdleWait { deadline, reserved: self.reserved, input_first: self.established };
        H2Pump { phase: PumpPhase::IdleWait(wait), ..self }
    }

    /// Waited without an exchange.
    pub fn idle_waited(self, event: IdleEvent) -> (next: Result<H2Pump, H2SharedFailure>)
        requires
            self.phase is IdleWait,
        ensures
            match event {
                IdleEvent::Shutdown => next == Ok::<H2Pump, H2SharedFailure>(
                    self.at(PumpPhase::Stopped(H2PumpStopReason::SessionShutdown)),
                ),
                IdleEvent::Closed => next == Ok::<H2Pump, H2SharedFailure>(
                    self.at(PumpPhase::Stopped(H2PumpStopReason::SessionShutdown)),
                ),
                IdleEvent::Command => next == Ok::<H2Pump, H2SharedFailure>(
                    H2Pump { phase: PumpPhase::Turn, idle_announced: false, ..self },
                ),
                IdleEvent::Input(Ok(amount)) => next == Ok::<H2Pump, H2SharedFailure>(
                    if amount == 0 {
                        self.at(PumpPhase::Stopped(H2PumpStopReason::IdlePeerClosed))
                    } else {
                        self.at(PumpPhase::Turn)
                    },
                ),
                IdleEvent::Input(Err(error)) => {
                    let timed_out = error matches Error::Io(code) && code.tells_timeout();
                    if timed_out && !(self.phase->IdleWait_0).reserved {
                        next == Ok::<H2Pump, H2SharedFailure>(
                            self.at(PumpPhase::Stopped(H2PumpStopReason::IdleTimeout)),
                        )
                    } else {
                        next is Err && next->Err_0@.shares(error@)
                    }
                },
            },
    {
        let reserved = match self.phase {
            PumpPhase::IdleWait(wait) => wait.reserved,
            _ => false,
        };
        let phase = match event {
            IdleEvent::Shutdown => PumpPhase::Stopped(H2PumpStopReason::SessionShutdown),
            IdleEvent::Closed => PumpPhase::Stopped(H2PumpStopReason::SessionShutdown),
            IdleEvent::Command => {
                return Ok(H2Pump { phase: PumpPhase::Turn, idle_announced: false, ..self });
            },
            IdleEvent::Input(Ok(amount)) => {
                if amount == 0 {
                    PumpPhase::Stopped(H2PumpStopReason::IdlePeerClosed)
                } else {
                    PumpPhase::Turn
                }
            },
            IdleEvent::Input(Err(Error::Io(code))) => {
                if !reserved && code.is_timeout() {
                    PumpPhase::Stopped(H2PumpStopReason::IdleTimeout)
                } else {
                    return Err(H2SharedFailure::from_error(Error::Io(code)));
                }
            },
            IdleEvent::Input(Err(error)) => return Err(H2SharedFailure::from_error(error)),
        };
        Ok(H2Pump { phase, ..self })
    }

    /// The driver's step was acted upon. A request body goes first then.
    pub fn acted(self) -> (next: H2Pump)
        requires
            self.phase == PumpPhase::Step,
        ensures
            next == self.turning(true),
    {
        H2Pump { phase: PumpPhase::Turn, prefer_body: true, ..self }
    }

    /// The driver had nothing to do, and exchanges that are over were parted
    /// with.
    pub fn finished(self) -> (next: H2Pump)
        requires
            self.phase == PumpPhase::Step,
        ensures
            next == self.at(PumpPhase::Turn),
    {
        H2Pump { phase: PumpPhase::Turn, ..self }
    }

    /// After the driver asked for input.
    pub open spec fn after_need(self, consumed: usize) -> H2Pump {
        if consumed != 0 {
            self.turning(true)
        } else {
            self.at(PumpPhase::LastWrite)
        }
    }

    /// The driver asked for input, and consumed so many bytes before.
    pub fn need_input(self, consumed: usize) -> (next: H2Pump)
        requires
            self.phase == PumpPhase::Step,
        ensures
            next == self.after_need(consumed),
    {
        if consumed != 0 {
            H2Pump { phase: PumpPhase::Turn, prefer_body: true, ..self }
        } else {
            H2Pump { phase: PumpPhase::LastWrite, ..self }
        }
    }

    /// After the last attempt to write.
    pub open spec fn after_last_write(self, wrote: bool) -> H2Pump {
        if wrote {
            self.turning(false)
        } else {
            self.at(PumpPhase::Park)
        }
    }

    /// Tried to write part of a request body before waiting.
    pub fn wrote_last(self, wrote: bool) -> (next: H2Pump)
        requires
            self.phase == PumpPhase::LastWrite,
        ensures
            next == self.after_last_write(wrote),
    {
        if wrote {
            H2Pump { phase: PumpPhase::Turn, prefer_body: false, ..self }
        } else {
            H2Pump { phase: PumpPhase::Park, ..self }
        }
    }

    /// Waited with exchanges.
    pub fn parked(self, event: ParkEvent) -> (next: Result<H2Pump, H2SharedFailure>)
        requires
            self.phase == PumpPhase::Park,
        ensures
            match event {
                ParkEvent::Shutdown => next == Ok::<H2Pump, H2SharedFailure>(
                    self.at(PumpPhase::Stopped(H2PumpStopReason::SessionShutdown)),
                ),
                ParkEvent::Closed => next == Ok::<H2Pump, H2SharedFailure>(
                    self.at(PumpPhase::Stopped(H2PumpStopReason::SessionShutdown)),
                ),
                ParkEvent::Command => next == Ok::<H2Pump, H2SharedFailure>(
                    self.at(PumpPhase::Turn),
                ),
                ParkEvent::Body => next == Ok::<H2Pump, H2SharedFailure>(self.turning(true)),
                ParkEvent::BodyFailed => next == Ok::<H2Pump, H2SharedFailure>(
                    self.at(PumpPhase::Turn),
                ),
                ParkEvent::Input(Ok(amount)) => if amount == 0 {
                    next is Err && next->Err_0@ == H2FailureView::UnexpectedEof
                } else {
                    next == Ok::<H2Pump, H2SharedFailure>(self.at(PumpPhase::Turn))
                },
                ParkEvent::Input(Err(error)) => next is Err && next->Err_0@.shares(error@),
            },
    {
        match event {
            ParkEvent::Shutdown => Ok(
                H2Pump { phase: PumpPhase::Stopped(H2PumpStopReason::SessionShutdown), ..self },
            ),
            ParkEvent::Closed => Ok(
                H2Pump { phase: PumpPhase::Stopped(H2PumpStopReason::SessionShutdown), ..self },
            ),
            ParkEvent::Command => Ok(H2Pump { phase: PumpPhase::Turn, ..self }),
            ParkEvent::Body => Ok(H2Pump { phase: PumpPhase::Turn, prefer_body: true, ..self }),
            ParkEvent::BodyFailed => Ok(H2Pump { phase: PumpPhase::Turn, ..self }),
            ParkEvent::Input(Ok(amount)) => {
                if amount == 0 {
                    Err(H2SharedFailure::UnexpectedEof)
                } else {
                    Ok(H2Pump { phase: PumpPhase::Turn, ..self })
                }
            },
            ParkEvent::Input(Err(error)) => Err(H2SharedFailure::from_error(error)),
        }
    }
}

/// What a session does after a step of its driver.
pub enum H2PumpAction {
    /// It lets the driver have input.
    NeedInput,
    /// It writes what the driver holds.
    Write,
    /// A head arrived.
    ResponseHead(u64, ReceivedResponseHead),
    /// Part of a body arrived and was kept.
    BufferedResponseBody,
    /// Part of a body arrived for the reader of the stream.
    StreamingResponseBody(u64, Vec<u8>),
    /// Trailers arrived.
    ResponseTrailers(u64, Headers),
    /// A response is complete.
    ResponseComplete(u64),
    /// It parts with the exchanges that are over.
    Done,
    /// The peer reset a stream.
    PeerReset {
        /// The stream.
        stream_id: u32,
        /// The HTTP/2 error code.
        error_code: u32,
        /// What the exchange is told.
        error: Error,
    },
}

/// What becomes of an error in the midst of a step.
pub open spec fn step_failed(error: ErrorView, failure: H2FailureView) -> bool {
    failure matches H2FailureView::Protocol(kind, text) && {
        &&& kind == (match error {
            ErrorView::Protocol(error) => error.kind,
            _ => ProtocolErrorKind::InvalidState,
        })
        &&& error.described_by(text)
    }
}

fn step_failure(error: Error) -> (failure: H2SharedFailure)
    ensures
        step_failed(error@, failure@),
{
    let kind = match &error {
        Error::Protocol(error) => error.kind(),
        _ => ProtocolErrorKind::InvalidState,
    };
    H2SharedFailure::Protocol(kind, error.to_text())
}

/// What a step that the driver made means. `input_exchange` is the exchange
/// whose bytes the driver worked on: its request is then never sent again.
pub fn classify_step(
    exchanges: &mut H2Exchanges,
    step: Result<ClientStep, DriverError>,
    input_exchange: Option<u64>,
) -> (action: Result<H2PumpAction, H2SharedFailure>)
    requires
        old(exchanges).valid(),
        step matches Ok(step) ==> step.fits(),
    ensures
        final(exchanges).valid(),
        ({
            let unexpected = crate::web::message::protocol_fault(
                ProtocolErrorKind::UnexpectedEvent,
                "the connection driver returned an unexpected client step"@,
            );
            let before = old(exchanges)@;
            match step {
                Err(DriverError::PeerReset { stream_id, error_code, info }) => {
                    &&& final(exchanges)@ == noted(before, input_exchange)
                    &&& action is Ok
                    &&& action->Ok_0 matches H2PumpAction::PeerReset {
                        stream_id: stream,
                        error_code: code,
                        error,
                    } && stream == stream_id && code == error_code && error@ == info.reported()
                },
                Err(fault) => {
                    &&& final(exchanges)@ == noted(before, input_exchange)
                    &&& action is Err
                    &&& action->Err_0@ == H2FailureView::Driver(fault)
                },
                Ok(ClientStep::NeedInput) => {
                    &&& final(exchanges)@ == noted(before, input_exchange)
                    &&& action is Ok
                    &&& action->Ok_0 is NeedInput
                },
                Ok(ClientStep::Write) => {
                    &&& final(exchanges)@ == noted(before, input_exchange)
                    &&& action is Ok
                    &&& action->Ok_0 is Write
                },
                Ok(ClientStep::Done) => {
                    &&& final(exchanges)@ == noted(before, input_exchange)
                    &&& action is Ok
                    &&& action->Ok_0 is Done
                },
                Ok(ClientStep::Unknown) => {
                    &&& final(exchanges)@ == noted(before, input_exchange)
                    &&& action is Err
                    &&& step_failed(unexpected, action->Err_0@)
                },
                Ok(ClientStep::Event(DriverClientEvent::Unknown)) => {
                    &&& final(exchanges)@ == noted(before, input_exchange)
                    &&& action is Err
                    &&& step_failed(unexpected, action->Err_0@)
                },
                Ok(
                    ClientStep::Event(
                        DriverClientEvent::ResponseHead { exchange_id, status, version, headers },
                    ),
                ) => {
                    let outcome = crate::web::driver::head_outcome(status, version, headers@);
                    &&& final(exchanges)@ == noted(before, input_exchange)
                    &&& match action {
                        Ok(action) => action matches H2PumpAction::ResponseHead(id, head) && id
                            == exchange_id && outcome == Ok::<ResponseHeadView, ErrorView>(head@),
                        Err(failure) => outcome is Err && step_failed(
                            outcome->Err_0,
                            failure@,
                        ),
                    }
                },
                Ok(
                    ClientStep::Event(DriverClientEvent::ResponseBody { exchange_id, chunk }),
                ) => {
                    &&& final(exchanges)@ == noted(
                        body_kept(before, exchange_id, chunk@),
                        input_exchange,
                    )
                    &&& match action {
                        Ok(H2PumpAction::BufferedResponseBody) => {
                            &&& before.contains_key(exchange_id)
                            &&& before[exchange_id].abandoned || (before[exchange_id].response_mode
                                == crate::web::client::ResponseMode::Buffered
                                && before[exchange_id].head is Some)
                        },
                        Ok(H2PumpAction::StreamingResponseBody(id, bytes)) => {
                            &&& id == exchange_id
                            &&& bytes@ == chunk@
                            &&& before.contains_key(exchange_id)
                            &&& !before[exchange_id].abandoned
                            &&& before[exchange_id].response_mode
                                == crate::web::client::ResponseMode::Streaming
                            &&& before[exchange_id].streaming
                        },
                        Ok(_) => false,
                        Err(failure) => {
                            &&& !body_awaited(before, exchange_id)
                            &&& step_failed(body_fault(before, exchange_id), failure@)
                        },
                    }
                },
                Ok(
                    ClientStep::Event(DriverClientEvent::ResponseTrailers { exchange_id, headers }),
                ) => {
                    let list = crate::web::headers::field_list(headers@);
                    &&& final(exchanges)@ == noted(before, input_exchange)
                    &&& match action {
                        Ok(action) => action matches H2PumpAction::ResponseTrailers(id, trailers)
                            && {
                            &&& id == exchange_id
                            &&& crate::web::headers::list_fault(list) is None
                            &&& trailers@ == crate::web::headers::fields_of(list)
                        },
                        Err(failure) => {
                            &&& crate::web::headers::list_fault(list) is Some
                            &&& step_failed(crate::web::headers::list_fault(list)->0, failure@)
                        },
                    }
                },
                Ok(ClientStep::Event(DriverClientEvent::ResponseComplete { exchange_id })) => {
                    &&& final(exchanges)@ == noted(before, input_exchange)
                    &&& action == Ok::<H2PumpAction, H2SharedFailure>(
                        H2PumpAction::ResponseComplete(exchange_id),
                    )
                },
            }
        }),
{
    let action = match step {
        Err(DriverError::PeerReset { stream_id, error_code, info }) => Ok(
            H2PumpAction::PeerReset { stream_id, error_code, error: info.into_http_error() },
        ),
        Err(fault) => Err(H2SharedFailure::Driver(fault)),
        Ok(ClientStep::NeedInput) => Ok(H2PumpAction::NeedInput),
        Ok(ClientStep::Write) => Ok(H2PumpAction::Write),
        Ok(ClientStep::Done) => Ok(H2PumpAction::Done),
        Ok(
            ClientStep::Event(
                DriverClientEvent::ResponseHead { exchange_id, status, version, headers },
            ),
        ) => match receive_head(status, version, &headers) {
            Ok(head) => Ok(H2PumpAction::ResponseHead(exchange_id, head)),
            Err(error) => Err(step_failure(error)),
        },
        Ok(ClientStep::Event(DriverClientEvent::ResponseBody { exchange_id, chunk })) => {
            match exchanges.prepare_response_body(exchange_id, chunk.as_slice()) {
                Ok(Some(chunk)) => Ok(H2PumpAction::StreamingResponseBody(exchange_id, chunk)),
                Ok(None) => Ok(H2PumpAction::BufferedResponseBody),
                Err(error) => Err(step_failure(error)),
            }
        },
        Ok(ClientStep::Event(DriverClientEvent::ResponseTrailers { exchange_id, headers })) => {
            match convert_headers(&headers) {
                Ok(headers) => Ok(H2PumpAction::ResponseTrailers(exchange_id, headers)),
                Err(error) => Err(step_failure(error)),
            }
        },
        Ok(ClientStep::Event(DriverClientEvent::ResponseComplete { exchange_id })) => Ok(
            H2PumpAction::ResponseComplete(exchange_id),
        ),
        Ok(_) => Err(
            step_failure(
                Error::protocol(
                    ProtocolErrorKind::UnexpectedEvent,
                    "the connection driver returned an unexpected client step",
                ),
            ),
        ),
    };
    match input_exchange {
        Some(id) => exchanges.note_input(id),
        None => {},
    }
    action
}

/// The exchanges after the driver worked on bytes of one of them.
pub open spec fn noted(
    exchanges: Map<u64, H2ExchangeView>,
    input_exchange: Option<u64>,
) -> Map<u64, H2ExchangeView> {
    match input_exchange {
        Some(id) => if exchanges.contains_key(id) {
            exchanges.insert(id, exchanges[id].heard())
        } else {
            exchanges
        },
        None => exchanges,
    }
}

/// The exchanges after part of a body arrived for one of them.
pub open spec fn body_kept(
    exchanges: Map<u64, H2ExchangeView>,
    id: u64,
    chunk: Seq<u8>,
) -> Map<u64, H2ExchangeView> {
    if !exchanges.contains_key(id) {
        exchanges
    } else {
        let heard = exchanges[id].heard();
        if !heard.abandoned && heard.response_mode == crate::web::client::ResponseMode::Buffered
            && heard.head is Some {
            exchanges.insert(id, H2ExchangeView { body: heard.body + chunk, ..heard })
        } else {
            exchanges.insert(id, heard)
        }
    }
}

/// Whether part of a body may arrive for an exchange: it is there, and was
/// either given up or has a head.
pub open spec fn body_awaited(exchanges: Map<u64, H2ExchangeView>, id: u64) -> bool {
    &&& exchanges.contains_key(id)
    &&& exchanges[id].abandoned || if exchanges[id].response_mode
        == crate::web::client::ResponseMode::Buffered {
        exchanges[id].head is Some
    } else {
        exchanges[id].streaming
    }
}

/// What is wrong with part of a body for which nobody waits.
pub open spec fn body_fault(exchanges: Map<u64, H2ExchangeView>, id: u64) -> ErrorView {
    let text = if !exchanges.contains_key(id) {
        "the response body named an unknown exchange"@
    } else if exchanges[id].response_mode == crate::web::client::ResponseMode::Buffered {
        "the response body preceded its head"@
    } else {
        "the streaming response body preceded its head"@
    };
    crate::web::message::protocol_fault(ProtocolErrorKind::UnexpectedEvent, text)
}

/// Whether a session can start on the connection that was opened for it.
pub fn session_opened(opened: Result<Protocol, Error>) -> (started: Result<(), H2PumpTermination>)
    ensures
        match opened {
            Ok(Protocol::Http2PriorKnowledge) => started is Ok,
            Ok(Protocol::Http1) => started is Err && (started->Err_0 matches
                H2PumpTermination::BeforeStart(failure) && failure@ == H2FailureView::Protocol(
                ProtocolErrorKind::InvalidState,
                "the HTTP/2 session opened a non-HTTP/2 transport"@,
            )),
            Err(error) => started is Err && (started->Err_0 matches
                H2PumpTermination::BeforeStart(failure) && failure@.shares(error@)),
        },
{
    match opened {
        Ok(Protocol::Http2PriorKnowledge) => Ok(()),
        Ok(Protocol::Http1) => Err(
            H2PumpTermination::BeforeStart(
                H2SharedFailure::protocol(
                    ProtocolErrorKind::InvalidState,
                    "the HTTP/2 session opened a non-HTTP/2 transport",
                ),
            ),
        ),
        Err(error) => Err(H2PumpTermination::BeforeStart(H2SharedFailure::from_error(error))),
    }
}

/// Records that the connection of a session stands, unless its descriptor could
/// not be kept for a shutdown.
pub fn session_connected(state: &mut H2SessionState, kept: Result<(), Errno>, capacity: usize) -> (started:
    Result<(), H2PumpTermination>)
    ensures
        match kept {
            Ok(()) => started is Ok && *final(state) == (H2SessionState {
                connected: true,
                capacity,
                ..*old(state)
            }),
            Err(code) => {
                &&& *final(state) == *old(state)
                &&& started is Err
                &&& started->Err_0 matches H2PumpTermination::BeforeStart(failure) && failure@
                    == H2FailureView::Io(code)
            },
        },
{
    match kept {
        Ok(()) => {
            state.connected = true;
            state.capacity = capacity;
            Ok(())
        },
        Err(code) => Err(H2PumpTermination::BeforeStart(H2SharedFailure::Io(code))),
    }
}

/// The duty to cancel a request when its caller gives it up.
#[derive(Debug)]
pub struct H2CancellationLease {
    /// The session.
    pub session_id: u64,
    /// The number of the request in the session.
    pub request_id: u64,
    /// Whether giving the lease up cancels the request.
    pub armed: bool,
}

impl H2CancellationLease {
    /// A lease on a request that was just submitted.
    pub fn new(session_id: u64, request_id: u64) -> (lease: H2CancellationLease)
        ensures
            lease == (H2CancellationLease { session_id, request_id, armed: true }),
    {
        H2CancellationLease { session_id, request_id, armed: true }
    }

    /// Lets the request run its course.
    pub fn disarm(&mut self)
        ensures
            *final(self) == (H2CancellationLease { armed: false, ..*old(self) }),
    {
        self.armed = false;
    }

    /// Gives the lease up: the request to be canceled, if any.
    pub fn leave(self) -> (canceled: Option<u64>)
        ensures
            canceled == if self.armed {
                Some(self.request_id)
            } else {
                None
            },
    {
        if self.armed {
            Some(self.request_id)
        } else {
            None
        }
    }
}

/// What a session replied to a request.
#[derive(Debug)]
pub enum SubmissionReply {
    /// Nothing, and never will.
    Closed,
    /// A complete response.
    Buffered,
    /// The head of a response and a stream of its body, from which a response
    /// could be made or not.
    Streaming(Result<(), Error>),
    /// A failure.
    Failure(SendFailure),
    /// The request goes back.
    Rejected,
}

/// What a reply amounts to, and whether the request can still be canceled:
/// only while its response is streamed, or when no response could be made of
/// it.
pub fn submission_replied(reply: SubmissionReply) -> (outcome: (H2AttemptResult, bool))
    ensures
        match reply {
            SubmissionReply::Closed => {
                &&& outcome.0 matches H2AttemptResult::Failure(failure) && {
                    &&& failure.error@ == ErrorView::Canceled
                    &&& !failure.response_bytes_received
                    &&& !failure.request_bytes_written
                    &&& failure.connection_failure
                    &&& !failure.guaranteed_unprocessed
                }
                &&& !outcome.1
            },
            SubmissionReply::Buffered => outcome.0 is Response && !outcome.1,
            SubmissionReply::Streaming(Ok(())) => outcome.0 is Response && outcome.1,
            SubmissionReply::Streaming(Err(error)) => {
                &&& outcome.0 == H2AttemptResult::Failure(
                    SendFailure {
                        error,
                        response_bytes_received: true,
                        request_bytes_written: true,
                        connection_failure: false,
                        guaranteed_unprocessed: false,
                    },
                )
                &&& outcome.1
            },
            SubmissionReply::Failure(failure) => outcome.0 == H2AttemptResult::Failure(failure)
                && !outcome.1,
            SubmissionReply::Rejected => outcome.0 is Rejected && !outcome.1,
        },
{
    match reply {
        SubmissionReply::Closed => (
            H2AttemptResult::Failure(SendFailure::connection(Error::Canceled, false, false)),
            false,
        ),
        SubmissionReply::Buffered => (H2AttemptResult::Response, false),
        SubmissionReply::Streaming(Ok(())) => (H2AttemptResult::Response, true),
        SubmissionReply::Streaming(Err(error)) => (
            H2AttemptResult::Failure(SendFailure::other(error, true, true)),
            true,
        ),
        SubmissionReply::Failure(failure) => (H2AttemptResult::Failure(failure), false),
        SubmissionReply::Rejected => (H2AttemptResult::Rejected, false),
    }
}

/// The next chunk of a streamed response. `received` is what the wait for it
/// came to, `terminal` the error that was left at the end of the stream.
pub fn streamed_chunk(
    received: Result<Result<Vec<u8>, ChannelError>, TimeoutError>,
    terminal: Option<Error>,
) -> (chunk: Result<Option<Vec<u8>>, Error>)
    ensures
        match received {
            Ok(Ok(bytes)) => chunk == Ok::<Option<Vec<u8>>, Error>(Some(bytes)),
            Ok(Err(_)) => match terminal {
                Some(error) => chunk == Err::<Option<Vec<u8>>, Error>(error),
                None => chunk == Ok::<Option<Vec<u8>>, Error>(None),
            },
            Err(TimeoutError::Timeout) => chunk matches Err(Error::Io(code)) && code.code()
                == crate::errno::ETIMEDOUT,
            Err(TimeoutError::Canceled) => chunk matches Err(error) && error@
                == ErrorView::Canceled,
        },
{
    match received {
        Ok(Ok(bytes)) => Ok(Some(bytes)),
        Ok(Err(_)) => match terminal {
            Some(error) => Err(error),
            None => Ok(None),
        },
        Err(TimeoutError::Timeout) => Err(Error::Io(Errno::timed_out())),
        Err(TimeoutError::Canceled) => Err(Error::Canceled),
    }
}

/// A session waits only when nothing could be written: of all that it does,
/// only a failed attempt to write leads to a wait with exchanges.
pub proof fn waiting_means_nothing_is_writable(
    pump: H2Pump,
    shutdown: bool,
    has_exchanges: bool,
    poll: CommandPoll,
    failed: bool,
    wrote: bool,
    consumed: usize,
    state: H2SessionState,
)
    requires
        pump.phase != PumpPhase::Park,
    ensures
        pump.after_last_write(wrote).phase == PumpPhase::Park <==> !wrote,
        pump.after_turn(shutdown, has_exchanges).phase != PumpPhase::Park,
        pump.after_drain(poll).phase != PumpPhase::Park,
        pump.after_poll(failed, has_exchanges).phase != PumpPhase::Park,
        pump.after_first_write(wrote, has_exchanges).phase != PumpPhase::Park,
        pump.after_idle(state).phase != PumpPhase::Park,
        pump.after_caps(shutdown).phase != PumpPhase::Park,
        pump.after_need(consumed).phase != PumpPhase::Park,
{
}

/// Request bodies and the driver take turns: once a chunk was written the
/// driver makes a step before the next one, and once it made a step a chunk
/// goes first.
pub proof fn bodies_and_steps_take_turns(pump: H2Pump, failed: bool, consumed: usize)
    ensures
        pump.after_first_write(true, true).after_turn(false, true).after_drain(
            CommandPoll::Empty,
        ).at(PumpPhase::Poll).after_poll(false, true).phase == PumpPhase::Step,
        pump.turning(true).after_turn(false, true).after_drain(CommandPoll::Empty).at(
            PumpPhase::Poll,
        ).after_poll(false, true).phase == PumpPhase::WriteFirst,
        consumed != 0 ==> pump.after_need(consumed) == pump.turning(true),
{
}

/// A session that was told to stop does so in its next turn, whatever it was
/// about.
pub proof fn stopping_takes_one_turn(pump: H2Pump, has_exchanges: bool)
    ensures
        pump.after_turn(true, has_exchanges).phase == PumpPhase::Stopped(
            H2PumpStopReason::SessionShutdown,
        ),
{
}

/// A session with a request on its way is neither stopped for being idle nor
/// for having served enough. What the look for idleness found stays while the
/// pool parts with idle sessions and the driver works on bytes of the peer.
pub proof fn reserved_sessions_stay(
    pump: H2Pump,
    state: H2SessionState,
    shutdown: bool,
    status: ClientIdleStatus,
    consumed: usize,
)
    ensures
        state.active != 0 ==> pump.after_idle(state).phase == PumpPhase::IdleInput,
        pump.after_idle(state).reserved == (state.active != 0),
        pump.after_caps(shutdown).reserved == pump.reserved,
        pump.after_caps(shutdown).established == pump.established,
        pump.after_input(status, consumed) matches Ok(next) ==> next.reserved == pump.reserved
            && next.established == pump.established,
{
}

/// The turns of a session follow one another: told to stop it stops, else it
/// takes the requests that wait while exchanges run, parts with those that are
/// over, asks the sources of bodies, writes when it is a body's turn, and then
/// lets the driver go on, or looks whether it is idle when nothing runs.
pub proof fn session_turns_follow_one_another(
    pump: H2Pump,
    flags: (bool, bool, bool, bool),
    nexts: (H2Pump, H2Pump, H2Pump, H2Pump, H2Pump),
)
    requires
        call_ensures(H2Pump::turn, (pump, flags.0, flags.1), nexts.0),
        call_ensures(H2Pump::retired, (pump,), nexts.1),
        call_ensures(H2Pump::polled, (pump, flags.2, flags.1), nexts.2),
        call_ensures(H2Pump::wrote_first, (pump, flags.3, flags.1), nexts.3),
        call_ensures(H2Pump::capped, (pump, flags.0), nexts.4),
    ensures
        flags.0 ==> nexts.0.phase == PumpPhase::Stopped(H2PumpStopReason::SessionShutdown),
        !flags.0 && flags.1 ==> nexts.0.phase == PumpPhase::Drain,
        !flags.0 && !flags.1 ==> nexts.0.phase == PumpPhase::Retire,
        nexts.1.phase == PumpPhase::Poll,
        flags.2 ==> nexts.2.phase == PumpPhase::Turn && !nexts.2.prefer_body,
        !flags.2 && pump.prefer_body ==> nexts.2.phase == PumpPhase::WriteFirst,
        !flags.2 && !pump.prefer_body ==> nexts.2.phase == if flags.1 {
            PumpPhase::Step
        } else {
            PumpPhase::Idle
        },
        flags.3 ==> nexts.3.phase == PumpPhase::Turn && !nexts.3.prefer_body,
        !flags.3 ==> nexts.3.phase == if flags.1 {
            PumpPhase::Step
        } else {
            PumpPhase::Idle
        },
        nexts.4.phase == if flags.0 {
            PumpPhase::Stopped(H2PumpStopReason::SessionShutdown)
        } else {
            PumpPhase::IdleInput
        },
        nexts.0.idle_announced == pump.idle_announced && nexts.1.idle_announced
            == pump.idle_announced && nexts.2.idle_announced == pump.idle_announced
            && nexts.3.idle_announced == pump.idle_announced,
        nexts.0.reserved == pump.reserved && nexts.2.reserved == pump.reserved,
{
}

/// The queue is taken to its end: a command begins no new phase, an empty queue
/// the next one, and one that no command will come through ends the session.
pub proof fn queues_are_drained(pump: H2Pump, nexts: (H2Pump, H2Pump, H2Pump))
    requires
        call_ensures(H2Pump::drained, (pump, CommandPoll::Command), nexts.0),
        call_ensures(H2Pump::drained, (pump, CommandPoll::Empty), nexts.1),
        call_ensures(H2Pump::drained, (pump, CommandPoll::Closed), nexts.2),
    ensures
        nexts.0.phase == pump.phase && !nexts.0.idle_announced,
        nexts.1.phase == PumpPhase::Retire && nexts.1.idle_announced == pump.idle_announced,
        nexts.2.phase == PumpPhase::Stopped(H2PumpStopReason::SessionShutdown),
{
}

/// A session is idle when no request is on its way: it stops then if it served
/// all that it may, and is idle from now on otherwise, which is announced once.
pub proof fn sessions_become_idle_once(
    pump: H2Pump,
    state: &mut H2SessionState,
    now: Instant,
    next: H2Pump,
)
    requires
        call_ensures(H2Pump::idle, (pump, state, now), next),
    ensures
        next.reserved == (old(state).active > 0),
        next.established == (old(state).completed > 0),
        old(state).active == 0 && old(state).completed >= old(state).max_requests ==> next.phase
            == PumpPhase::Stopped(H2PumpStopReason::RequestLimitReached),
        old(state).active == 0 && old(state).completed < old(state).max_requests
            && !pump.idle_announced ==> next.phase == PumpPhase::Caps && next.idle_announced
            && final(state).idle_since == Some(now),
        old(state).active == 0 && old(state).completed < old(state).max_requests
            && pump.idle_announced ==> next.phase == PumpPhase::IdleInput,
        old(state).active > 0 ==> next.phase == PumpPhase::IdleInput && *final(state) == *old(state),
        next.phase != PumpPhase::Caps ==> *final(state) == *old(state),
        final(state).active == old(state).active && final(state).completed == old(state).completed
            && final(state).usable == old(state).usable,
{
}

/// An idle session waits until its timeout has passed since it became idle, and
/// without an end while a request is on its way to it.
pub proof fn idle_sessions_wait_for_their_timeout(
    pump: H2Pump,
    idle_since: Option<Instant>,
    timeout: Duration,
    next: H2Pump,
)
    requires
        call_ensures(H2Pump::settle, (pump, idle_since, timeout), next),
    ensures
        !pump.reserved && timeout@ == 0 <==> next.phase == PumpPhase::Stopped(
            H2PumpStopReason::IdleTimeout,
        ),
        next.phase matches PumpPhase::IdleWait(wait) ==> {
            &&& wait.reserved == pump.reserved
            &&& pump.reserved ==> wait.deadline is None
            &&& wait.deadline matches Some(deadline) ==> idle_since is Some && deadline@
                == idle_since->0@ + timeout@
        },
        next.phase is IdleWait || next.phase is Stopped,
{
}

/// How a wait without an exchange ends: a command begins a new turn, bytes are
/// worked on, and the session stops in good order when it is told to, when its
/// peer closes, or when it was idle for too long and nothing is on its way.
pub proof fn idle_waits_end_in_order(
    pump: H2Pump,
    amount: usize,
    errno: Errno,
    nexts: (
        Result<H2Pump, H2SharedFailure>,
        Result<H2Pump, H2SharedFailure>,
        Result<H2Pump, H2SharedFailure>,
        Result<H2Pump, H2SharedFailure>,
    ),
)
    requires
        pump.phase is IdleWait,
        call_ensures(H2Pump::idle_waited, (pump, IdleEvent::Shutdown), nexts.0),
        call_ensures(H2Pump::idle_waited, (pump, IdleEvent::Command), nexts.1),
        call_ensures(H2Pump::idle_waited, (pump, IdleEvent::Input(Ok(amount))), nexts.2),
        call_ensures(
            H2Pump::idle_waited,
            (pump, IdleEvent::Input(Err(Error::Io(errno)))),
            nexts.3,
        ),
    ensures
        nexts.0 matches Ok(next) && next.phase == PumpPhase::Stopped(
            H2PumpStopReason::SessionShutdown,
        ),
        nexts.1 matches Ok(next) && next.phase == PumpPhase::Turn && !next.idle_announced,
        nexts.2 matches Ok(next) && next.phase == if amount == 0 {
            PumpPhase::Stopped(H2PumpStopReason::IdlePeerClosed)
        } else {
            PumpPhase::Turn
        },
        errno.tells_timeout() && !(pump.phase->IdleWait_0).reserved ==> (nexts.3 matches Ok(next)
            && next.phase == PumpPhase::Stopped(H2PumpStopReason::IdleTimeout)),
        !errno.tells_timeout() || (pump.phase->IdleWait_0).reserved ==> (nexts.3 matches Err(
            failure,
        ) && failure@ == H2FailureView::Io(errno)),
{
}

/// What the driver does moves the session on: what it asked for or reported
/// gives a body its turn, input that it used is worked on again, and only when
/// nothing was used and nothing could be written does the session wait.
pub proof fn drivers_move_sessions_on(
    pump: H2Pump,
    consumed: usize,
    wrote: bool,
    nexts: (H2Pump, H2Pump, H2Pump, H2Pump),
)
    requires
        call_ensures(H2Pump::acted, (pump,), nexts.0),
        call_ensures(H2Pump::finished, (pump,), nexts.1),
        call_ensures(H2Pump::need_input, (pump, consumed), nexts.2),
        call_ensures(H2Pump::wrote_last, (pump, wrote), nexts.3),
    ensures
        nexts.0.phase == PumpPhase::Turn && nexts.0.prefer_body,
        nexts.1.phase == PumpPhase::Turn && nexts.1.prefer_body == pump.prefer_body,
        consumed > 0 ==> nexts.2.phase == PumpPhase::Turn && nexts.2.prefer_body,
        consumed == 0 ==> nexts.2.phase == PumpPhase::LastWrite,
        wrote ==> nexts.3.phase == PumpPhase::Turn && !nexts.3.prefer_body,
        !wrote ==> nexts.3.phase == PumpPhase::Park,
{
}

/// How a wait with exchanges ends. A peer that closes then is a failure.
pub proof fn waits_with_exchanges_end_in_order(
    pump: H2Pump,
    amount: usize,
    errno: Errno,
    nexts: (
        Result<H2Pump, H2SharedFailure>,
        Result<H2Pump, H2SharedFailure>,
        Result<H2Pump, H2SharedFailure>,
        Result<H2Pump, H2SharedFailure>,
        Result<H2Pump, H2SharedFailure>,
    ),
)
    requires
        call_ensures(H2Pump::parked, (pump, ParkEvent::Shutdown), nexts.0),
        call_ensures(H2Pump::parked, (pump, ParkEvent::Command), nexts.1),
        call_ensures(H2Pump::parked, (pump, ParkEvent::Body), nexts.2),
        call_ensures(H2Pump::parked, (pump, ParkEvent::Input(Ok(amount))), nexts.3),
        call_ensures(H2Pump::parked, (pump, ParkEvent::Input(Err(Error::Io(errno)))), nexts.4),
    ensures
        nexts.0 matches Ok(next) && next.phase == PumpPhase::Stopped(
            H2PumpStopReason::SessionShutdown,
        ),
        nexts.1 matches Ok(next) && next.phase == PumpPhase::Turn,
        nexts.2 matches Ok(next) && next.phase == PumpPhase::Turn && next.prefer_body,
        amount > 0 ==> (nexts.3 matches Ok(next) && next.phase == PumpPhase::Turn),
        amount == 0 ==> (nexts.3 matches Err(failure) && failure@ == H2FailureView::UnexpectedEof),
        nexts.4 matches Err(failure) && failure@ == H2FailureView::Io(errno),
{
}

/// What the driver reports of a response is acted upon for the exchange that it
/// names, as it was reported.
pub proof fn reported_steps_are_acted_upon(
    heading: &mut H2Exchanges,
    filling: &mut H2Exchanges,
    trailing: &mut H2Exchanges,
    ending: &mut H2Exchanges,
    id: u64,
    head: (u16, crate::web::message::HttpVersion, Vec<crate::web::headers::HeaderField>),
    chunk: Vec<u8>,
    trailers: Vec<crate::web::headers::HeaderField>,
    collected: (Headers, Headers),
    actions: (
        Result<H2PumpAction, H2SharedFailure>,
        Result<H2PumpAction, H2SharedFailure>,
        Result<H2PumpAction, H2SharedFailure>,
        Result<H2PumpAction, H2SharedFailure>,
    ),
)
    requires
        call_ensures(crate::web::headers::convert_headers, (&head.2,), Ok(collected.0)),
        call_ensures(crate::web::headers::convert_headers, (&trailers,), Ok(collected.1)),
        call_ensures(
            classify_step,
            (
                heading,
                Ok(
                    ClientStep::Event(
                        DriverClientEvent::ResponseHead {
                            exchange_id: id,
                            status: head.0,
                            version: head.1,
                            headers: head.2,
                        },
                    ),
                ),
                None,
            ),
            actions.0,
        ),
        call_ensures(
            classify_step,
            (
                filling,
                Ok(ClientStep::Event(DriverClientEvent::ResponseBody { exchange_id: id, chunk })),
                None,
            ),
            actions.1,
        ),
        call_ensures(
            classify_step,
            (
                trailing,
                Ok(
                    ClientStep::Event(
                        DriverClientEvent::ResponseTrailers { exchange_id: id, headers: trailers },
                    ),
                ),
                None,
            ),
            actions.2,
        ),
        call_ensures(
            classify_step,
            (
                ending,
                Ok(ClientStep::Event(DriverClientEvent::ResponseComplete { exchange_id: id })),
                None,
            ),
            actions.3,
        ),
    ensures
        100 <= head.0 <= 999 ==> (actions.0 matches Ok(H2PumpAction::ResponseHead(named, received))
            && named == id && received.status == head.0 && received.version == head.1
            && received.headers@ == collected.0@),
        ({
            let before = old(filling)@;
            &&& before.contains_key(id) && !before[id].abandoned && before[id].response_mode
                == crate::web::client::ResponseMode::Buffered && before[id].head is Some ==> (
            actions.1 matches Ok(H2PumpAction::BufferedResponseBody)) && final(filling)@[id].body == before[id].body + chunk@
            &&& before.contains_key(id) && !before[id].abandoned && before[id].response_mode
                == crate::web::client::ResponseMode::Streaming && before[id].streaming ==> (
            actions.1 matches Ok(H2PumpAction::StreamingResponseBody(named, bytes)) && named == id
                && bytes@ == chunk@)
            &&& !before.contains_key(id) ==> actions.1 is Err
            &&& forall|other: u64|
                other != id && #[trigger] before.contains_key(other) ==> final(filling)@[other] == before[other]
        }),
        actions.2 matches Ok(H2PumpAction::ResponseTrailers(named, fields)) && named == id
            && fields@ == collected.1@,
        actions.3 == Ok::<H2PumpAction, H2SharedFailure>(H2PumpAction::ResponseComplete(id)),
        final(heading)@ == old(heading)@,
        final(trailing)@ == old(trailing)@,
        final(ending)@ == old(ending)@,
{
}

/// A stream that the peer reset is told as such; any other failure of the driver
/// is one of the whole session. The exchange whose bytes the driver worked on
/// counts as answered.
pub proof fn failed_steps_are_told_apart(
    resetting: &mut H2Exchanges,
    failing: &mut H2Exchanges,
    stream_id: u32,
    error_code: u32,
    info: crate::web::error::HttpErrorInfo,
    input: u64,
    actions: (Result<H2PumpAction, H2SharedFailure>, Result<H2PumpAction, H2SharedFailure>),
)
    requires
        old(resetting)@.contains_key(input),
        call_ensures(
            classify_step,
            (
                resetting,
                Err(DriverError::PeerReset { stream_id, error_code, info }),
                Some(input),
            ),
            actions.0,
        ),
        call_ensures(classify_step, (failing, Err(DriverError::Other(info)), None), actions.1),
    ensures
        actions.0 matches Ok(
            H2PumpAction::PeerReset { stream_id: stream, error_code: code, error },
        ) && stream == stream_id && code == error_code && error@ == info.reported(),
        final(resetting)@[input].response_bytes_received,
        actions.1 matches Err(failure) && failure@ == H2FailureView::Driver(
            DriverError::Other(info),
        ),
        final(failing)@ == old(failing)@,
{
}

/// A session starts on an HTTP/2 connection only, and takes as many requests at
/// once as its peer does.
pub proof fn sessions_start_on_http2(
    protocol: Protocol,
    started: Result<(), H2PumpTermination>,
    state: &mut H2SessionState,
    capacity: usize,
    connected: Result<(), H2PumpTermination>,
    lease: H2CancellationLease,
    numbers: (u64, u64),
    canceled: Option<u64>,
)
    requires
        call_ensures(session_opened, (Ok(protocol),), started),
        call_ensures(session_connected, (state, Ok(()), capacity), connected),
        call_ensures(H2CancellationLease::new, (numbers.0, numbers.1), lease),
        call_ensures(H2CancellationLease::leave, (lease,), canceled),
    ensures
        started is Ok <==> protocol == Protocol::Http2PriorKnowledge,
        connected is Ok && final(state).connected && final(state).capacity == capacity,
        final(state).active == old(state).active && final(state).usable == old(state).usable,
        lease.session_id == numbers.0,
        canceled == Some(numbers.1),
{
}

/// What a session replied is what the attempt came to: a response, the failure
/// that was told, or the request back. A session that is gone failed the
/// connection. Only a response that is still read can be canceled.
pub proof fn replies_decide_the_attempt(
    failure: SendFailure,
    error: Error,
    outcomes: (
        (H2AttemptResult, bool),
        (H2AttemptResult, bool),
        (H2AttemptResult, bool),
        (H2AttemptResult, bool),
        (H2AttemptResult, bool),
        (H2AttemptResult, bool),
    ),
)
    requires
        call_ensures(submission_replied, (SubmissionReply::Closed,), outcomes.0),
        call_ensures(submission_replied, (SubmissionReply::Buffered,), outcomes.1),
        call_ensures(submission_replied, (SubmissionReply::Streaming(Ok(())),), outcomes.2),
        call_ensures(submission_replied, (SubmissionReply::Streaming(Err(error)),), outcomes.3),
        call_ensures(submission_replied, (SubmissionReply::Failure(failure),), outcomes.4),
        call_ensures(submission_replied, (SubmissionReply::Rejected,), outcomes.5),
    ensures
        outcomes.0.0 matches H2AttemptResult::Failure(gone) && gone.connection_failure
            && !gone.request_bytes_written && !gone.response_bytes_received && gone.error@
            == ErrorView::Canceled,
        outcomes.1.0 is Response && outcomes.2.0 is Response,
        outcomes.3.0 matches H2AttemptResult::Failure(told) && told.error == error
            && told.response_bytes_received,
        outcomes.4.0 == H2AttemptResult::Failure(failure),
        outcomes.5.0 is Rejected,
        !outcomes.0.1 && !outcomes.1.1 && outcomes.2.1 && outcomes.3.1 && !outcomes.4.1
            && !outcomes.5.1,
{
}

/// The reader of a streamed response gets the chunks that were handed over, then
/// the error that was left at the end, or the end.
pub proof fn readers_get_the_chunks_then_the_end(
    bytes: Vec<u8>,
    closed: ChannelError,
    error: Error,
    chunks: (
        Result<Option<Vec<u8>>, Error>,
        Result<Option<Vec<u8>>, Error>,
        Result<Option<Vec<u8>>, Error>,
        Result<Option<Vec<u8>>, Error>,
    ),
)
    requires
        call_ensures(streamed_chunk, (Ok(Ok(bytes)), Some(error)), chunks.0),
        call_ensures(streamed_chunk, (Ok(Err(closed)), Some(error)), chunks.1),
        call_ensures(streamed_chunk, (Ok(Err(closed)), None), chunks.2),
        call_ensures(streamed_chunk, (Err(TimeoutError::Timeout), None), chunks.3),
    ensures
        chunks.0 == Ok::<Option<Vec<u8>>, Error>(Some(bytes)),
        chunks.1 == Err::<Option<Vec<u8>>, Error>(error),
        chunks.2 == Ok::<Option<Vec<u8>>, Error>(None),
        chunks.3 matches Err(Error::Io(code)) && code.raw == 110,
{
}

/// A new pump takes a turn first and has nothing behind it. Input that is drained
/// is settled, and an idle connection that is no longer reusable ends it.
pub proof fn idle_pumps_settle_their_input(
    made: H2Pump,
    pump: H2Pump,
    drained: H2Pump,
    status: ClientIdleStatus,
    consumed: usize,
    next: Result<H2Pump, H2SharedFailure>,
)
    requires
        pump.phase == PumpPhase::IdleInput,
        call_ensures(H2Pump::new, (), made),
        call_ensures(H2Pump::input_drained, (pump,), drained),
        call_ensures(H2Pump::input_processed, (pump, status, consumed), next),
    ensures
        made.phase is Turn && !made.prefer_body && !made.idle_announced && !made.reserved
            && !made.established,
        drained.phase is IdleSettle && drained.prefer_body == pump.prefer_body
            && drained.idle_announced == pump.idle_announced && drained.reserved == pump.reserved,
        next is Err <==> status is NotReusable || status is Unknown,
        next matches Err(failure) ==> failure@ is Protocol,
        status is NeedInput ==> next == Ok::<H2Pump, H2SharedFailure>(drained),
        status is Reusable && consumed == 0 ==> next == Ok::<H2Pump, H2SharedFailure>(drained),
        status is Reusable && consumed > 0 ==> next == Ok::<H2Pump, H2SharedFailure>(pump),
{
}

/// A lease that is disarmed still names its request.
pub proof fn disarmed_leases_name_their_request(lease: &mut H2CancellationLease)
    requires
        call_ensures(H2CancellationLease::disarm, (lease,), ()),
    ensures
        !final(lease).armed,
        final(lease).session_id == old(lease).session_id,
        final(lease).request_id == old(lease).request_id,
{
}

} // verus!
