//! One exchange over an HTTP/1.1 connection.

use vstd::prelude::*;

use crate::errno::Errno;
use crate::time::Duration;
use crate::time::Instant;
use crate::web::body::Body;
use crate::web::body::BodyPoll;
use crate::web::body::RequestBodyState;
use crate::web::body::RequestBodyView;
use crate::web::body::SourcePoll;
use crate::web::client::ResponseMode;
use crate::web::driver::receive_head;
use crate::web::driver::ClientStep;
use crate::web::driver::DriverClientEvent;
use crate::web::driver::ResponseHeadView;
use crate::web::error::Error;
use crate::web::error::ErrorView;
use crate::web::error::HttpErrorInfo;
use crate::web::error::ProtocolErrorKind;
use crate::web::failure::SendFailure;
use crate::web::headers::convert_headers;
use crate::web::headers::Headers;
use crate::web::message::finish_response;
use crate::web::message::ReceivedResponseHead;
use crate::web::message::Response;
use crate::web::trailers::ReceivedView;
use crate::web::trailers::TrailerTable;

verus! {

/// What a client does after a step of its driver.
#[derive(Clone, Copy, Debug, PartialEq, Eq, Structural)]
pub enum PumpAction {
    /// It goes on.
    Progress,
    /// It waits for the peer.
    NeedInput,
    /// It writes what the driver holds.
    Write,
    /// It hands over the head of the response.
    ResponseHead,
    /// It hands over the response.
    Complete,
}

/// What an exchange knows.
#[verifier::ext_equal]
pub struct SendView {
    /// The exchange.
    pub exchange_id: u64,
    /// How the response is handed over.
    pub response_mode: ResponseMode,
    /// Whether part of a response arrived.
    pub response_bytes_received: bool,
    /// Whether part of the request was written.
    pub request_bytes_written: bool,
    /// The head of the response.
    pub head: Option<ResponseHeadView>,
    /// The body of the response so far.
    pub body: Seq<u8>,
    /// The trailers of the response.
    pub trailers: Option<Map<Seq<u8>, Seq<Seq<u8>>>>,
    /// The body of the request.
    pub request_body: RequestBodyView,
    /// Until when the exchange waits for leave to send the body.
    pub continue_deadline: Option<Instant>,
    /// How long it waits for that.
    pub expect_continue_timeout: Duration,
}

/// An exchange over an HTTP/1.1 connection.
pub struct SendState {
    exchange_id: u64,
    response_mode: ResponseMode,
    response_bytes_received: bool,
    request_bytes_written: bool,
    head: Option<ReceivedResponseHead>,
    body: Vec<u8>,
    trailers: Option<Headers>,
    request_body: RequestBodyState,
    continue_deadline: Option<Instant>,
    expect_continue_timeout: Duration,
}

impl View for SendState {
    type V = SendView;

    closed spec fn view(&self) -> SendView {
        SendView {
            exchange_id: self.exchange_id,
            response_mode: self.response_mode,
            response_bytes_received: self.response_bytes_received,
            request_bytes_written: self.request_bytes_written,
            head: match self.head {
                Some(head) => Some(head@),
                None => None,
            },
            body: self.body@,
            trailers: match self.trailers {
                Some(trailers) => Some(trailers@),
                None => None,
            },
            request_body: self.request_body@,
            continue_deadline: self.continue_deadline,
            expect_continue_timeout: self.expect_continue_timeout,
        }
    }
}

/// What a round of an exchange does next. The request body goes before the
/// driver.
#[derive(Clone, Copy, Debug, PartialEq, Eq, Structural)]
pub enum SendPhase {
    /// It asks the source of the request body, without waiting for it.
    Source,
    /// It offers the driver what there is of the request body.
    Body,
    /// It has the driver make a step.
    Step,
}

/// How an exchange goes on after a step, once the driver was told what it
/// consumed. Output is written first.
#[derive(Clone, Copy, Debug, PartialEq, Eq, Structural)]
pub enum SendTurn {
    /// With another round.
    Again,
    /// By writing what the driver holds; then with another round.
    Write,
    /// By waiting for the peer, or for the request body; then with another
    /// round.
    Wait,
    /// It ends with the head of the response.
    Head,
    /// It ends with the response.
    Response,
}

/// What follows an action of the exchange.
pub open spec fn turn_after(action: PumpAction, consumed: usize) -> SendTurn {
    match action {
        PumpAction::Progress => SendTurn::Again,
        PumpAction::Write => SendTurn::Write,
        PumpAction::ResponseHead => SendTurn::Head,
        PumpAction::Complete => SendTurn::Response,
        PumpAction::NeedInput => if consumed > 0 {
            SendTurn::Again
        } else {
            SendTurn::Wait
        },
    }
}

/// What follows an action of the exchange. The peer is only read when the driver
/// used nothing of the input that is there.
pub fn send_turn(action: PumpAction, consumed: usize) -> (turn: SendTurn)
    ensures
        turn == turn_after(action, consumed),
{
    match action {
        PumpAction::Progress => SendTurn::Again,
        PumpAction::Write => SendTurn::Write,
        PumpAction::ResponseHead => SendTurn::Head,
        PumpAction::Complete => SendTurn::Response,
        PumpAction::NeedInput => if consumed > 0 {
            SendTurn::Again
        } else {
            SendTurn::Wait
        },
    }
}

/// What an exchange waits for once the driver can do no more.
#[derive(Clone, Copy, Debug, PartialEq, Eq, Structural)]
pub struct ExchangeWait {
    /// Until when it waits for the peer.
    pub deadline: Option<Instant>,
    /// Whether it also waits for the next chunk of the request body.
    pub body: bool,
}

/// What came of a wait.
pub enum WaitAction {
    /// The peer sent so many bytes, closed the connection, or reading failed.
    Input(Result<usize, Error>),
    /// The source of the request body answered.
    Body(SourcePoll),
}

/// What follows a wait.
#[derive(Clone, Copy, Debug, PartialEq, Eq, Structural)]
pub enum AfterWait {
    /// The exchange goes on.
    Continue,
    /// The driver is told that the peer closed the connection.
    FinishEof,
    /// The driver is told to send the body without leave.
    ProceedWithBody,
}

/// What a failure of the exchange, not of the connection, looks like.
pub open spec fn exchange_failed(state: SendView, error: ErrorView, failure: SendFailure) -> bool {
    &&& failure.error@ == error
    &&& failure.response_bytes_received == state.response_bytes_received
    &&& failure.request_bytes_written == state.request_bytes_written
    &&& !failure.connection_failure
    &&& !failure.guaranteed_unprocessed
}

/// What a failure of the connection looks like.
pub open spec fn connection_failed(state: SendView, error: ErrorView, failure: SendFailure) -> bool {
    &&& failure.error@ == error
    &&& failure.response_bytes_received == state.response_bytes_received
    &&& failure.request_bytes_written == state.request_bytes_written
    &&& failure.connection_failure
    &&& !failure.guaranteed_unprocessed
}

impl SendView {
    /// How a round begins.
    pub open spec fn round(self) -> SendPhase {
        if self.request_body.wants_chunk() {
            SendPhase::Source
        } else {
            self.past_source()
        }
    }

    /// What follows the source of the request body.
    pub open spec fn past_source(self) -> SendPhase {
        if self.request_body.offer() is Some {
            SendPhase::Body
        } else {
            SendPhase::Step
        }
    }

    /// What follows an offer to the driver: a round from the start if it took
    /// part of the body.
    pub open spec fn past_body(self, taken: bool) -> SendPhase {
        if taken {
            self.round()
        } else {
            SendPhase::Step
        }
    }

    /// What a step of the driver does to the exchange.
    pub open spec fn stepped(self, step: ClientStep) -> Result<(SendView, PumpAction), ErrorView> {
        let unexpected = crate::web::message::protocol_fault(
            ProtocolErrorKind::UnexpectedEvent,
            "the connection driver returned an unexpected client step"@,
        );
        match step {
            ClientStep::NeedInput => Ok((self, PumpAction::NeedInput)),
            ClientStep::Write => Ok((self, PumpAction::Write)),
            ClientStep::Done => Ok((self, PumpAction::Complete)),
            ClientStep::Event(
                DriverClientEvent::ResponseHead { exchange_id, status, version, headers },
            ) => if exchange_id != self.exchange_id {
                Err(unexpected)
            } else {
                match crate::web::driver::head_outcome(status, version, headers@) {
                    Err(error) => Err(error),
                    Ok(head) => Ok(
                        (
                            SendView { head: Some(head), body: Seq::empty(), ..self },
                            if self.response_mode == ResponseMode::Streaming {
                                PumpAction::ResponseHead
                            } else {
                                PumpAction::Progress
                            },
                        ),
                    ),
                }
            },
            ClientStep::Event(
                DriverClientEvent::ResponseBody { exchange_id, chunk },
            ) => if exchange_id != self.exchange_id {
                Err(unexpected)
            } else {
                Ok((SendView { body: self.body + chunk@, ..self }, PumpAction::Progress))
            },
            ClientStep::Event(
                DriverClientEvent::ResponseTrailers { exchange_id, headers },
            ) => if exchange_id != self.exchange_id {
                Err(unexpected)
            } else if self.head is None {
                Err(
                    crate::web::message::protocol_fault(
                        ProtocolErrorKind::UnexpectedEvent,
                        "response trailers preceded its head"@,
                    ),
                )
            } else if self.trailers is Some {
                Err(
                    crate::web::message::protocol_fault(
                        ProtocolErrorKind::UnexpectedEvent,
                        "response trailers repeated for one exchange"@,
                    ),
                )
            } else {
                let list = crate::web::headers::field_list(headers@);
                match crate::web::headers::list_fault(list) {
                    Some(error) => Err(error),
                    None => Ok(
                        (
                            SendView {
                                trailers: Some(crate::web::headers::fields_of(list)),
                                ..self
                            },
                            PumpAction::Progress,
                        ),
                    ),
                }
            },
            ClientStep::Event(
                DriverClientEvent::ResponseComplete { exchange_id },
            ) => if exchange_id != self.exchange_id {
                Err(unexpected)
            } else {
                Ok((self, PumpAction::Complete))
            },
            ClientStep::Event(DriverClientEvent::Unknown) => Err(unexpected),
            ClientStep::Unknown => Err(unexpected),
        }
    }
}

/// Whether the connection is free for an exchange. `input_pending` says whether
/// bytes of the peer already wait.
pub fn begin_exchange(has_exchange: bool, input_pending: bool) -> (begun: Result<(), SendFailure>)
    ensures
        match begun {
            Ok(()) => !has_exchange,
            Err(failure) => {
                &&& has_exchange
                &&& failure.error@ == crate::web::message::protocol_fault(
                    ProtocolErrorKind::InvalidState,
                    "the connection already has an active exchange"@,
                )
                &&& failure.response_bytes_received == input_pending
                &&& !failure.request_bytes_written
                &&& !failure.connection_failure
                &&& !failure.guaranteed_unprocessed
            },
        },
{
    if has_exchange {
        Err(
            SendFailure::other(
                Error::protocol(
                    ProtocolErrorKind::InvalidState,
                    "the connection already has an active exchange",
                ),
                input_pending,
                false,
            ),
        )
    } else {
        Ok(())
    }
}

impl SendState {
    /// The position in the request body lies inside it.
    pub closed spec fn valid(&self) -> bool {
        self.request_body.valid()
    }

    /// The exchange once the driver took the request, or its failure.
    pub fn new(
        prepared: Result<u64, HttpErrorInfo>,
        request_body: Body,
        response_mode: ResponseMode,
        expect_continue_timeout: Duration,
        input_pending: bool,
    ) -> (state: Result<SendState, SendFailure>)
        ensures
            match (prepared, state) {
                (Ok(exchange_id), Ok(state)) => {
                    &&& state.valid()
                    &&& state@ == (SendView {
                        exchange_id,
                        response_mode,
                        response_bytes_received: input_pending,
                        request_bytes_written: false,
                        head: None,
                        body: Seq::empty(),
                        trailers: None,
                        request_body: match request_body@ {
                            crate::web::body::BodyView::Buffered(bytes) => {
                                RequestBodyView::Buffered(bytes)
                            },
                            crate::web::body::BodyView::Streaming(source) => {
                                RequestBodyView::Streaming(
                                    crate::web::body::CursorView::start(source),
                                )
                            },
                        },
                        continue_deadline: None,
                        expect_continue_timeout,
                    })
                },
                (Err(fault), Err(failure)) => {
                    &&& failure.error@ == fault.reported()
                    &&& failure.response_bytes_received == input_pending
                    &&& !failure.request_bytes_written
                    &&& !failure.connection_failure
                    &&& !failure.guaranteed_unprocessed
                },
                _ => false,
            },
    {
        match prepared {
            Err(fault) => Err(SendFailure::other(fault.into_http_error(), input_pending, false)),
            Ok(exchange_id) => Ok(
                SendState {
                    exchange_id,
                    response_mode,
                    response_bytes_received: input_pending,
                    request_bytes_written: false,
                    head: None,
                    body: Vec::new(),
                    trailers: None,
                    request_body: RequestBodyState::new(request_body),
                    continue_deadline: None,
                    expect_continue_timeout,
                },
            ),
        }
    }

    /// The failure of the exchange with an error.
    pub fn fail(self, error: Error) -> (failure: SendFailure)
        ensures
            exchange_failed(self@, error@, failure),
            failure.error == error,
    {
        SendFailure::other(error, self.response_bytes_received, self.request_bytes_written)
    }

    /// The driver answered a call that yields nothing.
    pub fn answered(self, answer: Result<(), HttpErrorInfo>) -> (next: Result<
        SendState,
        SendFailure,
    >)
        ensures
            match (answer, next) {
                (Ok(()), Ok(state)) => state == self,
                (Err(fault), Err(failure)) => exchange_failed(self@, fault.reported(), failure),
                _ => false,
            },
    {
        match answer {
            Ok(()) => Ok(self),
            Err(fault) => Err(self.fail(fault.into_http_error())),
        }
    }

    /// How a round begins: where a chunk of the request body is missing its
    /// source is asked first.
    pub fn round(&self) -> (phase: SendPhase)
        requires
            self.valid(),
        ensures
            phase == self@.round(),
    {
        if self.needs_chunk() {
            SendPhase::Source
        } else {
            self.past_source()
        }
    }

    /// The source of the request body was asked.
    pub fn past_source(&self) -> (phase: SendPhase)
        requires
            self.valid(),
        ensures
            phase == self@.past_source(),
    {
        if self.available().is_some() {
            SendPhase::Body
        } else {
            SendPhase::Step
        }
    }

    /// The driver took part of the request body, or not.
    pub fn past_body(&self, taken: bool) -> (phase: SendPhase)
        requires
            self.valid(),
        ensures
            phase == self@.past_body(taken),
    {
        if taken {
            self.round()
        } else {
            SendPhase::Step
        }
    }

    /// Whether the source of the request body has to be asked for more.
    pub fn needs_chunk(&self) -> (needs: bool)
        requires
            self.valid(),
        ensures
            needs == self@.request_body.wants_chunk(),
    {
        self.request_body.needs_chunk()
    }

    /// The source of a streamed request body.
    pub fn body_source(&self) -> (source: Option<u64>)
        ensures
            source == self@.request_body.source(),
    {
        self.request_body.source()
    }

    /// The bytes of the request body that can be sent.
    pub fn available(&self) -> (available: Option<&[u8]>)
        requires
            self.valid(),
        ensures
            match available {
                Some(bytes) => self@.request_body.offer() == Some(bytes@),
                None => self@.request_body.offer() is None,
            },
    {
        self.request_body.available()
    }

    /// The source of the request body answered. No answer yet is no failure.
    pub fn polled(self, answer: SourcePoll) -> (next: Result<SendState, SendFailure>)
        requires
            self.valid(),
            self@.request_body.wants_chunk(),
            answer.is_fair(),
        ensures
            match next {
                Ok(state) => {
                    &&& answer !is Failed
                    &&& state.valid()
                    &&& state@ == (SendView {
                        request_body: self@.request_body.polled(answer),
                        ..self@
                    })
                },
                Err(failure) => answer matches SourcePoll::Failed(message) && exchange_failed(
                    self@,
                    ErrorView::BodyStream(message@),
                    failure,
                ),
            },
    {
        let SendState {
            exchange_id,
            response_mode,
            response_bytes_received,
            request_bytes_written,
            head,
            body,
            trailers,
            request_body,
            continue_deadline,
            expect_continue_timeout,
        } = self;
        let (request_body, poll) = request_body.poll_chunk(answer);
        match poll {
            BodyPoll::Failed(message) => Err(
                SendFailure::other(
                    Error::BodyStream { message },
                    response_bytes_received,
                    request_bytes_written,
                ),
            ),
            _ => Ok(
                SendState {
                    exchange_id,
                    response_mode,
                    response_bytes_received,
                    request_bytes_written,
                    head,
                    body,
                    trailers,
                    request_body,
                    continue_deadline,
                    expect_continue_timeout,
                },
            ),
        }
    }

    /// A write ended. `progress` says whether any byte of it went out.
    pub fn written(self, progress: bool, outcome: Result<(), Errno>) -> (next: Result<
        SendState,
        SendFailure,
    >)
        requires
            self.valid(),
        ensures
            ({
                let after = SendView {
                    request_bytes_written: self@.request_bytes_written || progress,
                    ..self@
                };
                match (outcome, next) {
                    (Ok(()), Ok(state)) => state.valid() && state@ == after,
                    (Err(error), Err(failure)) => connection_failed(
                        after,
                        ErrorView::Io(error),
                        failure,
                    ),
                    _ => false,
                }
            }),
    {
        let state = SendState {
            request_bytes_written: self.request_bytes_written || progress,
            ..self
        };
        match outcome {
            Ok(()) => Ok(state),
            Err(error) => Err(
                SendFailure::connection(
                    Error::Io(error),
                    state.response_bytes_received,
                    state.request_bytes_written,
                ),
            ),
        }
    }

    /// Part of the request body went out and the driver was told so.
    pub fn committed(self, payload_len: usize, answer: Result<(), HttpErrorInfo>) -> (next: Result<
        SendState,
        SendFailure,
    >)
        requires
            self.valid(),
            self@.request_body.may_commit(payload_len as int),
        ensures
            match (answer, next) {
                (Ok(()), Ok(state)) => {
                    &&& state.valid()
                    &&& state@ == (SendView {
                        request_body: self@.request_body.committed(payload_len as int),
                        ..self@
                    })
                },
                (Err(fault), Err(failure)) => exchange_failed(self@, fault.reported(), failure),
                _ => false,
            },
    {
        match answer {
            Err(fault) => Err(self.fail(fault.into_http_error())),
            Ok(()) => {
                let SendState {
                    exchange_id,
                    response_mode,
                    response_bytes_received,
                    request_bytes_written,
                    head,
                    body,
                    trailers,
                    request_body,
                    continue_deadline,
                    expect_continue_timeout,
                } = self;
                Ok(
                    SendState {
                        exchange_id,
                        response_mode,
                        response_bytes_received,
                        request_bytes_written,
                        head,
                        body,
                        trailers,
                        request_body: request_body.commit(payload_len),
                        continue_deadline,
                        expect_continue_timeout,
                    },
                )
            },
        }
    }

    fn unexpected() -> (error: Error)
        ensures
            error@ == crate::web::message::protocol_fault(
                ProtocolErrorKind::UnexpectedEvent,
                "the connection driver returned an unexpected client step"@,
            ),
    {
        Error::protocol(
            ProtocolErrorKind::UnexpectedEvent,
            "the connection driver returned an unexpected client step",
        )
    }

    /// The driver made a step.
    pub fn stepped(self, step: Result<ClientStep, HttpErrorInfo>) -> (next: Result<
        (SendState, PumpAction),
        SendFailure,
    >)
        requires
            self.valid(),
            step matches Ok(step) ==> step.fits(),
        ensures
            match step {
                Err(fault) => next matches Err(failure) && exchange_failed(
                    self@,
                    fault.reported(),
                    failure,
                ),
                Ok(step) => match next {
                    Ok((state, action)) => {
                        &&& state.valid()
                        &&& self@.stepped(step) == Ok::<(SendView, PumpAction), ErrorView>(
                            (state@, action),
                        )
                    },
                    Err(failure) => self@.stepped(step) is Err && exchange_failed(
                        self@,
                        self@.stepped(step)->Err_0,
                        failure,
                    ),
                },
            },
    {
        let step = match step {
            Ok(step) => step,
            Err(fault) => return Err(self.fail(fault.into_http_error())),
        };
        match step {
            ClientStep::NeedInput => Ok((self, PumpAction::NeedInput)),
            ClientStep::Write => Ok((self, PumpAction::Write)),
            ClientStep::Done => Ok((self, PumpAction::Complete)),
            ClientStep::Event(
                DriverClientEvent::ResponseHead { exchange_id, status, version, headers },
            ) => {
                if exchange_id != self.exchange_id {
                    return Err(self.fail(Self::unexpected()));
                }
                match receive_head(status, version, &headers) {
                    Err(error) => Err(self.fail(error)),
                    Ok(head) => {
                        let action = if self.response_mode == ResponseMode::Streaming {
                            PumpAction::ResponseHead
                        } else {
                            PumpAction::Progress
                        };
                        Ok((SendState { head: Some(head), body: Vec::new(), ..self }, action))
                    },
                }
            },
            ClientStep::Event(DriverClientEvent::ResponseBody { exchange_id, chunk }) => {
                if exchange_id != self.exchange_id {
                    return Err(self.fail(Self::unexpected()));
                }
                let mut state = self;
                let ghost before = state.body@;
                state.body.extend_from_slice(chunk.as_slice());
                assert(state.body@ =~= before + chunk@);
                Ok((state, PumpAction::Progress))
            },
            ClientStep::Event(DriverClientEvent::ResponseTrailers { exchange_id, headers }) => {
                if exchange_id != self.exchange_id {
                    return Err(self.fail(Self::unexpected()));
                }
                if self.head.is_none() {
                    return Err(
                        self.fail(
                            Error::protocol(
                                ProtocolErrorKind::UnexpectedEvent,
                                "response trailers preceded its head",
                            ),
                        ),
                    );
                }
                if self.trailers.is_some() {
                    return Err(
                        self.fail(
                            Error::protocol(
                                ProtocolErrorKind::UnexpectedEvent,
                                "response trailers repeated for one exchange",
                            ),
                        ),
                    );
                }
                match convert_headers(&headers) {
                    Err(error) => Err(self.fail(error)),
                    Ok(trailers) => Ok(
                        (SendState { trailers: Some(trailers), ..self }, PumpAction::Progress),
                    ),
                }
            },
            ClientStep::Event(DriverClientEvent::ResponseComplete { exchange_id }) => {
                if exchange_id != self.exchange_id {
                    return Err(self.fail(Self::unexpected()));
                }
                Ok((self, PumpAction::Complete))
            },
            ClientStep::Event(DriverClientEvent::Unknown) => Err(self.fail(Self::unexpected())),
            ClientStep::Unknown => Err(self.fail(Self::unexpected())),
        }
    }

    /// The driver kept no bytes although it asked for a write.
    pub fn lost_output(self) -> (failure: SendFailure)
        ensures
            exchange_failed(
                self@,
                crate::web::message::protocol_fault(
                    ProtocolErrorKind::InvalidState,
                    "the connection driver did not retain pending output"@,
                ),
                failure,
            ),
    {
        self.fail(
            Error::protocol(
                ProtocolErrorKind::InvalidState,
                "the connection driver did not retain pending output",
            ),
        )
    }

    /// What to wait for when the driver needs input and consumed nothing.
    /// While it waits for leave to send the body, the wait has an end, which
    /// stays the same from one wait to the next.
    pub fn wait(self, waiting_for_continue: bool, now: Instant) -> (next: Result<
        (SendState, ExchangeWait),
        SendFailure,
    >)
        requires
            self.valid(),
        ensures
            match next {
                Ok((state, wait)) => {
                    &&& state.valid()
                    &&& wait.body == (self@.request_body.wants_chunk() && !waiting_for_continue)
                    &&& if !waiting_for_continue {
                        wait.deadline is None && state@ == self@
                    } else if self@.continue_deadline is Some {
                        wait.deadline == self@.continue_deadline && state@ == self@
                    } else {
                        &&& wait.deadline is Some
                        &&& crate::time::instant_after(now@, self@.expect_continue_timeout@)
                            == Some(wait.deadline->0@)
                        &&& state@ == (SendView { continue_deadline: wait.deadline, ..self@ })
                    }
                },
                Err(failure) => {
                    &&& waiting_for_continue
                    &&& self@.continue_deadline is None
                    &&& crate::time::instant_after(now@, self@.expect_continue_timeout@) is None
                    &&& exchange_failed(
                        self@,
                        ErrorView::InvalidConfiguration(
                            "Expect: 100-continue timeout is too large"@,
                        ),
                        failure,
                    )
                },
            },
    {
        let body = self.request_body.needs_chunk() && !waiting_for_continue;
        if !waiting_for_continue {
            return Ok((self, ExchangeWait { deadline: None, body }));
        }
        if self.continue_deadline.is_some() {
            let deadline = self.continue_deadline;
            return Ok((self, ExchangeWait { deadline, body }));
        }
        match now.checked_add(self.expect_continue_timeout) {
            None => Err(
                self.fail(
                    Error::InvalidConfiguration("Expect: 100-continue timeout is too large"),
                ),
            ),
            Some(deadline) => Ok(
                (
                    SendState { continue_deadline: Some(deadline), ..self },
                    ExchangeWait { deadline: Some(deadline), body },
                ),
            ),
        }
    }

    /// The wait ended. Running out of time while waiting for leave to send the
    /// body is no failure: the body is then sent without.
    pub fn waited(self, event: WaitAction, waiting_for_continue: bool) -> (next: Result<
        (SendState, AfterWait),
        SendFailure,
    >)
        requires
            self.valid(),
            event matches WaitAction::Body(answer) ==> {
                &&& self@.request_body.wants_chunk()
                &&& answer.is_fair()
            },
        ensures
            match event {
                WaitAction::Body(answer) => match next {
                    Ok((state, after)) => {
                        &&& answer !is Failed
                        &&& after == AfterWait::Continue
                        &&& state.valid()
                        &&& state@ == (SendView {
                            request_body: self@.request_body.polled(answer),
                            ..self@
                        })
                    },
                    Err(failure) => answer matches SourcePoll::Failed(message)
                        && exchange_failed(self@, ErrorView::BodyStream(message@), failure),
                },
                WaitAction::Input(Ok(amount)) => {
                    &&& next is Ok
                    &&& next->Ok_0.0.valid()
                    &&& if amount == 0 {
                        next->Ok_0.0@ == self@ && next->Ok_0.1 == AfterWait::FinishEof
                    } else {
                        &&& next->Ok_0.0@ == (SendView { response_bytes_received: true, ..self@ })
                        &&& next->Ok_0.1 == AfterWait::Continue
                    }
                },
                WaitAction::Input(Err(error)) => {
                    let timed_out = error matches Error::Io(code) && code.tells_timeout();
                    if timed_out && waiting_for_continue {
                        &&& next is Ok
                        &&& next->Ok_0.0.valid()
                        &&& next->Ok_0.0@ == (SendView { continue_deadline: None, ..self@ })
                        &&& next->Ok_0.1 == AfterWait::ProceedWithBody
                    } else {
                        &&& next is Err
                        &&& if error is Io {
                            connection_failed(self@, error@, next->Err_0)
                        } else {
                            exchange_failed(self@, error@, next->Err_0)
                        }
                    }
                },
            },
    {
        match event {
            WaitAction::Body(answer) => match self.polled(answer) {
                Ok(state) => Ok((state, AfterWait::Continue)),
                Err(failure) => Err(failure),
            },
            WaitAction::Input(Ok(amount)) => {
                if amount == 0 {
                    Ok((self, AfterWait::FinishEof))
                } else {
                    Ok(
                        (
                            SendState { response_bytes_received: true, ..self },
                            AfterWait::Continue,
                        ),
                    )
                }
            },
            WaitAction::Input(Err(Error::Io(code))) => {
                if waiting_for_continue && code.is_timeout() {
                    Ok(
                        (
                            SendState { continue_deadline: None, ..self },
                            AfterWait::ProceedWithBody,
                        ),
                    )
                } else {
                    Err(
                        SendFailure::connection(
                            Error::Io(code),
                            self.response_bytes_received,
                            self.request_bytes_written,
                        ),
                    )
                }
            },
            WaitAction::Input(Err(error)) => Err(self.fail(error)),
        }
    }

    /// The driver was told that the peer closed the connection. Where that
    /// cuts the response short, the connection failed.
    pub fn ended(self, answer: Result<(), HttpErrorInfo>) -> (next: Result<SendState, SendFailure>)
        ensures
            match (answer, next) {
                (Ok(()), Ok(state)) => state == self,
                (Err(fault), Err(failure)) => connection_failed(self@, fault.reported(), failure),
                _ => false,
            },
    {
        match answer {
            Ok(()) => Ok(self),
            Err(fault) => Err(
                SendFailure::connection(
                    fault.into_http_error(),
                    self.response_bytes_received,
                    self.request_bytes_written,
                ),
            ),
        }
    }

    /// Hands over the head of the response.
    pub fn take_head(self) -> (sent: Result<ReceivedResponseHead, SendFailure>)
        ensures
            match sent {
                Ok(head) => self@.head == Some(head@),
                Err(failure) => self@.head is None && exchange_failed(
                    self@,
                    crate::web::message::protocol_fault(
                        ProtocolErrorKind::MalformedMessage,
                        "response head event carried no response head"@,
                    ),
                    failure,
                ),
            },
    {
        match self.head {
            Some(head) => Ok(head),
            None => Err(
                SendFailure::other(
                    Error::protocol(
                        ProtocolErrorKind::MalformedMessage,
                        "response head event carried no response head",
                    ),
                    self.response_bytes_received,
                    self.request_bytes_written,
                ),
            ),
        }
    }

    /// Hands over the response.
    pub fn finish(self) -> (sent: Result<Response, SendFailure>)
        ensures
            match sent {
                Ok(response) => {
                    &&& self@.head is Some
                    &&& self@.head->0.version.known() == Some(response.version)
                    &&& response.status == self@.head->0.status
                    &&& response.headers@ == self@.head->0.fields
                    &&& response.body@ == crate::web::body::BodyView::Buffered(self@.body)
                    &&& response.body.outbound() is None
                    &&& response.body.inbound() == match self@.trailers {
                        Some(fields) => Some(ReceivedView::Complete(fields)),
                        None => None,
                    }
                },
                Err(failure) => if self@.head is None {
                    exchange_failed(
                        self@,
                        crate::web::message::protocol_fault(
                            ProtocolErrorKind::MalformedMessage,
                            "response completed without headers"@,
                        ),
                        failure,
                    )
                } else {
                    &&& self@.head->0.version.known() is None
                    &&& exchange_failed(
                        self@,
                        crate::web::message::protocol_fault(
                            ProtocolErrorKind::InvalidState,
                            "the connection driver returned an unknown HTTP version"@,
                        ),
                        failure,
                    )
                },
            },
    {
        let body = Body::from_inbound(self.body, self.trailers);
        match finish_response(self.head, body) {
            Ok(response) => Ok(response),
            Err(error) => Err(
                SendFailure::other(error, self.response_bytes_received, self.request_bytes_written),
            ),
        }
    }
}

/// The driver makes a step only when the request body has nothing for it, and
/// the exchange waits only after a step that used nothing of the input. What is
/// there of the body always goes first.
pub proof fn bodies_go_before_steps(state: SendView, action: PumpAction, consumed: usize)
    ensures
        state.round() == SendPhase::Step ==> state.request_body.offer() is None
            && !state.request_body.wants_chunk(),
        state.past_source() == SendPhase::Step ==> state.request_body.offer() is None,
        turn_after(action, consumed) == SendTurn::Wait <==> action == PumpAction::NeedInput
            && consumed == 0,
{
}

/// What a client does after a step while it streams a response.
pub enum PullAction {
    /// It goes on.
    Progress,
    /// It waits for the peer.
    NeedInput,
    /// It writes what the driver holds.
    Write,
    /// It hands over a chunk.
    Body(Vec<u8>),
    /// It keeps the trailers.
    Trailers(Headers),
    /// The body is over.
    Complete,
}

/// What a client does after a step while it streams a response.
#[verifier::ext_equal]
pub enum PullView {
    /// It goes on.
    Progress,
    /// It waits for the peer.
    NeedInput,
    /// It writes what the driver holds.
    Write,
    /// It hands over a chunk.
    Body(Seq<u8>),
    /// It keeps the trailers.
    Trailers(Map<Seq<u8>, Seq<Seq<u8>>>),
    /// The body is over.
    Complete,
}

impl View for PullAction {
    type V = PullView;

    open spec fn view(&self) -> PullView {
        match self {
            PullAction::Progress => PullView::Progress,
            PullAction::NeedInput => PullView::NeedInput,
            PullAction::Write => PullView::Write,
            PullAction::Body(chunk) => PullView::Body(chunk@),
            PullAction::Trailers(headers) => PullView::Trailers(headers@),
            PullAction::Complete => PullView::Complete,
        }
    }
}

/// What a step means for a response that is streamed. Steps that are not known
/// pass without effect; events of another exchange do not.
pub open spec fn pull_outcome(exchange_id: u64, step: ClientStep) -> Result<PullView, ErrorView> {
    let foreign = crate::web::message::protocol_fault(
        ProtocolErrorKind::UnexpectedEvent,
        "the connection driver returned an event for another exchange"@,
    );
    match step {
        ClientStep::NeedInput => Ok(PullView::NeedInput),
        ClientStep::Write => Ok(PullView::Write),
        ClientStep::Done => Ok(PullView::Complete),
        ClientStep::Event(
            DriverClientEvent::ResponseHead { exchange_id: observed, .. },
        ) => if observed != exchange_id {
            Err(foreign)
        } else {
            Err(
                crate::web::message::protocol_fault(
                    ProtocolErrorKind::UnexpectedEvent,
                    "response head repeated while streaming its body"@,
                ),
            )
        },
        ClientStep::Event(
            DriverClientEvent::ResponseBody { exchange_id: observed, chunk },
        ) => if observed != exchange_id {
            Err(foreign)
        } else {
            Ok(PullView::Body(chunk@))
        },
        ClientStep::Event(
            DriverClientEvent::ResponseTrailers { exchange_id: observed, headers },
        ) => if observed != exchange_id {
            Err(foreign)
        } else {
            let list = crate::web::headers::field_list(headers@);
            match crate::web::headers::list_fault(list) {
                Some(error) => Err(error),
                None => Ok(PullView::Trailers(crate::web::headers::fields_of(list))),
            }
        },
        ClientStep::Event(
            DriverClientEvent::ResponseComplete { exchange_id: observed },
        ) => if observed != exchange_id {
            Err(foreign)
        } else {
            Ok(PullView::Complete)
        },
        ClientStep::Event(DriverClientEvent::Unknown) => Ok(PullView::Progress),
        ClientStep::Unknown => Ok(PullView::Progress),
    }
}

fn foreign_event() -> (error: Error)
    ensures
        error@ == crate::web::message::protocol_fault(
            ProtocolErrorKind::UnexpectedEvent,
            "the connection driver returned an event for another exchange"@,
        ),
{
    Error::protocol(
        ProtocolErrorKind::UnexpectedEvent,
        "the connection driver returned an event for another exchange",
    )
}

/// The exchange of a connection whose response is streamed.
pub fn streaming_exchange(current_exchange: Option<u64>) -> (exchange_id: Result<u64, Error>)
    ensures
        match (current_exchange, exchange_id) {
            (Some(current), Ok(exchange_id)) => exchange_id == current,
            (None, Err(error)) => error@ == crate::web::message::protocol_fault(
                ProtocolErrorKind::InvalidState,
                "the streaming connection has no current exchange"@,
            ),
            _ => false,
        },
{
    match current_exchange {
        Some(exchange_id) => Ok(exchange_id),
        None => Err(
            Error::protocol(
                ProtocolErrorKind::InvalidState,
                "the streaming connection has no current exchange",
            ),
        ),
    }
}

/// What follows a step of the driver while a response is streamed.
pub fn pull_step(exchange_id: u64, step: Result<ClientStep, HttpErrorInfo>) -> (action: Result<
    PullAction,
    Error,
>)
    requires
        step matches Ok(step) ==> step.fits(),
    ensures
        match step {
            Err(fault) => action matches Err(error) && error@ == fault.reported(),
            Ok(step) => match action {
                Ok(action) => pull_outcome(exchange_id, step) == Ok::<PullView, ErrorView>(action@),
                Err(error) => pull_outcome(exchange_id, step) == Err::<PullView, ErrorView>(error@),
            },
        },
{
    let step = match step {
        Ok(step) => step,
        Err(fault) => return Err(fault.into_http_error()),
    };
    match step {
        ClientStep::NeedInput => Ok(PullAction::NeedInput),
        ClientStep::Write => Ok(PullAction::Write),
        ClientStep::Done => Ok(PullAction::Complete),
        ClientStep::Event(
            DriverClientEvent::ResponseHead { exchange_id: observed, .. },
        ) => if observed != exchange_id {
            Err(foreign_event())
        } else {
            Err(
                Error::protocol(
                    ProtocolErrorKind::UnexpectedEvent,
                    "response head repeated while streaming its body",
                ),
            )
        },
        ClientStep::Event(
            DriverClientEvent::ResponseBody { exchange_id: observed, chunk },
        ) => if observed != exchange_id {
            Err(foreign_event())
        } else {
            Ok(PullAction::Body(chunk))
        },
        ClientStep::Event(
            DriverClientEvent::ResponseTrailers { exchange_id: observed, headers },
        ) => if observed != exchange_id {
            Err(foreign_event())
        } else {
            match convert_headers(&headers) {
                Ok(headers) => Ok(PullAction::Trailers(headers)),
                Err(error) => Err(error),
            }
        },
        ClientStep::Event(
            DriverClientEvent::ResponseComplete { exchange_id: observed },
        ) => if observed != exchange_id {
            Err(foreign_event())
        } else {
            Ok(PullAction::Complete)
        },
        ClientStep::Event(DriverClientEvent::Unknown) => Ok(PullAction::Progress),
        ClientStep::Unknown => Ok(PullAction::Progress),
    }
}

/// Keeps the trailers of a streamed response, once.
pub fn keep_trailers(table: &mut TrailerTable, number: u64, headers: Headers) -> (kept: Result<
    (),
    Error,
>)
    requires
        old(table)@.inbound.contains_key(number),
    ensures
        old(table)@.valid() ==> final(table)@.valid(),
        final(table)@ == old(table)@.kept(number, headers@),
        if old(table)@.inbound[number].fields is None {
            kept is Ok
        } else {
            kept matches Err(error) && error@ == crate::web::message::protocol_fault(
                ProtocolErrorKind::UnexpectedEvent,
                "response trailers repeated for one streaming body"@,
            )
        },
{
    match table.keep(number, headers) {
        Ok(()) => Ok(()),
        Err(_) => Err(
            Error::protocol(
                ProtocolErrorKind::UnexpectedEvent,
                "response trailers repeated for one streaming body",
            ),
        ),
    }
}

/// How a pull goes on, once the driver was told what it consumed. Output is
/// written first.
#[derive(Debug)]
pub enum PullTurn {
    /// With another step.
    Again,
    /// By writing what the driver holds; then with another step.
    Write,
    /// By reading from the peer; then with another step.
    Read,
    /// It ends with a chunk.
    Chunk(Vec<u8>),
    /// It ends because the body is over.
    End,
}

/// What follows an action of a pull. Trailers are kept under their number, once.
/// The peer is only read when the driver used nothing of the input that is
/// there.
pub fn pull_turn(action: PullAction, consumed: usize, table: &mut TrailerTable, number: u64) -> (turn:
    Result<PullTurn, Error>)
    requires
        old(table)@.inbound.contains_key(number),
    ensures
        old(table)@.valid() ==> final(table)@.valid(),
        match action@ {
            PullView::Trailers(fields) => {
                &&& final(table)@ == old(table)@.kept(number, fields)
                &&& if old(table)@.inbound[number].fields is None {
                    turn matches Ok(turn) && turn is Again
                } else {
                    turn matches Err(error) && error@ == crate::web::message::protocol_fault(
                        ProtocolErrorKind::UnexpectedEvent,
                        "response trailers repeated for one streaming body"@,
                    )
                }
            },
            other => {
                &&& final(table)@ == old(table)@
                &&& turn is Ok
                &&& match other {
                    PullView::Progress => turn->Ok_0 is Again,
                    PullView::Write => turn->Ok_0 is Write,
                    PullView::NeedInput => if consumed > 0 {
                        turn->Ok_0 is Again
                    } else {
                        turn->Ok_0 is Read
                    },
                    PullView::Body(chunk) => turn->Ok_0 matches PullTurn::Chunk(given) && given@
                        == chunk,
                    _ => turn->Ok_0 is End,
                }
            },
        },
{
    match action {
        PullAction::Progress => Ok(PullTurn::Again),
        PullAction::Write => Ok(PullTurn::Write),
        PullAction::NeedInput => if consumed > 0 {
            Ok(PullTurn::Again)
        } else {
            Ok(PullTurn::Read)
        },
        PullAction::Body(chunk) => Ok(PullTurn::Chunk(chunk)),
        PullAction::Trailers(headers) => match keep_trailers(table, number, headers) {
            Ok(()) => Ok(PullTurn::Again),
            Err(error) => Err(error),
        },
        PullAction::Complete => Ok(PullTurn::End),
    }
}

/// The end of one step of streamed input or output.
pub fn streaming_io_deadline(now: Instant, timeout: Duration) -> (deadline: Result<Instant, Error>)
    ensures
        match deadline {
            Ok(deadline) => crate::time::instant_after(now@, timeout@) == Some(deadline@),
            Err(error) => {
                &&& crate::time::instant_after(now@, timeout@) is None
                &&& error@ == ErrorView::InvalidConfiguration(
                    "connection I/O timeout is too large for the current clock"@,
                )
            },
        },
{
    match now.checked_add(timeout) {
        Some(deadline) => Ok(deadline),
        None => Err(
            Error::InvalidConfiguration("connection I/O timeout is too large for the current clock"),
        ),
    }
}

/// Whether bytes went out is never forgotten by a step, nor is whether bytes
/// came in: what decides about a repetition only grows.
pub proof fn steps_forget_nothing(state: SendView, step: ClientStep)
    ensures
        state.stepped(step) matches Ok((next, _)) ==> {
            &&& next.request_bytes_written == state.request_bytes_written
            &&& next.response_bytes_received == state.response_bytes_received
            &&& next.exchange_id == state.exchange_id
            &&& next.request_body == state.request_body
        },
{
}

/// A response keeps its bytes in the order of the chunks.
pub proof fn chunks_keep_their_order(state: SendView, first: Vec<u8>, second: Vec<u8>)
    ensures
        ({
            let one = ClientStep::Event(
                DriverClientEvent::ResponseBody { exchange_id: state.exchange_id, chunk: first },
            );
            let two = ClientStep::Event(
                DriverClientEvent::ResponseBody { exchange_id: state.exchange_id, chunk: second },
            );
            let between = state.stepped(one)->Ok_0.0;
            between.stepped(two)->Ok_0.0.body == state.body + first@ + second@
        }),
{
}

/// No event of another exchange is taken for one of this.
pub proof fn foreign_events_are_refused(state: SendView, event: DriverClientEvent, exchange_id: u64)
    requires
        exchange_id != state.exchange_id,
        match event {
            DriverClientEvent::ResponseHead { exchange_id: observed, .. } => observed
                == exchange_id,
            DriverClientEvent::ResponseBody { exchange_id: observed, .. } => observed
                == exchange_id,
            DriverClientEvent::ResponseTrailers { exchange_id: observed, .. } => observed
                == exchange_id,
            DriverClientEvent::ResponseComplete { exchange_id: observed } => observed
                == exchange_id,
            DriverClientEvent::Unknown => false,
        },
    ensures
        state.stepped(ClientStep::Event(event)) is Err,
        pull_outcome(state.exchange_id, ClientStep::Event(event)) is Err,
{
}

/// A response over HTTP/1.1 is what the driver reported of it: the status and the
/// fields of its head, its parts in the order in which they came, and the version
/// that its head names.
pub proof fn responses_are_what_was_reported(
    states: (SendState, SendState, SendState, SendState, SendState),
    status: u16,
    version: crate::web::message::HttpVersion,
    headers: Vec<crate::web::headers::HeaderField>,
    collected: Headers,
    chunks: (Vec<u8>, Vec<u8>),
    actions: (PumpAction, PumpAction, PumpAction, PumpAction),
    sent: Result<Response, SendFailure>,
)
    requires
        states.0@.response_mode == ResponseMode::Buffered,
        states.0@.trailers is None,
        version !is Unknown,
        call_ensures(crate::web::headers::convert_headers, (&headers,), Ok(collected)),
        call_ensures(
            SendState::stepped,
            (
                states.0,
                Ok(
                    ClientStep::Event(
                        DriverClientEvent::ResponseHead {
                            exchange_id: states.0@.exchange_id,
                            status,
                            version,
                            headers,
                        },
                    ),
                ),
            ),
            Ok((states.1, actions.0)),
        ),
        call_ensures(
            SendState::stepped,
            (
                states.1,
                Ok(
                    ClientStep::Event(
                        DriverClientEvent::ResponseBody {
                            exchange_id: states.0@.exchange_id,
                            chunk: chunks.0,
                        },
                    ),
                ),
            ),
            Ok((states.2, actions.1)),
        ),
        call_ensures(
            SendState::stepped,
            (
                states.2,
                Ok(
                    ClientStep::Event(
                        DriverClientEvent::ResponseBody {
                            exchange_id: states.0@.exchange_id,
                            chunk: chunks.1,
                        },
                    ),
                ),
            ),
            Ok((states.3, actions.2)),
        ),
        call_ensures(
            SendState::stepped,
            (
                states.3,
                Ok(
                    ClientStep::Event(
                        DriverClientEvent::ResponseComplete { exchange_id: states.0@.exchange_id },
                    ),
                ),
            ),
            Ok((states.4, actions.3)),
        ),
        call_ensures(SendState::finish, (states.4,), sent),
    ensures
        actions.0 is Progress && actions.1 is Progress && actions.2 is Progress,
        actions.3 is Complete,
        sent matches Ok(response) && {
            &&& response.status == status
            &&& response.headers@ == collected@
            &&& response.body@ == crate::web::body::BodyView::Buffered(chunks.0@ + chunks.1@)
            &&& response.body.inbound() is None
            &&& version is Http10 ==> response.version == crate::web::error::Version::Http10
            &&& version is Http11 ==> response.version == crate::web::error::Version::Http11
            &&& version is Http2 ==> response.version == crate::web::error::Version::Http2
        },
{
    assert(Seq::<u8>::empty() + chunks.0@ + chunks.1@ =~= chunks.0@ + chunks.1@);
}

/// Trailers are those that the driver reported, once and behind a head, and the
/// head of a streamed response is handed over as it was reported.
pub proof fn trailers_and_heads_are_what_was_reported(
    states: (SendState, SendState, SendState),
    headers: Vec<crate::web::headers::HeaderField>,
    collected: Headers,
    action: PumpAction,
    sent: Result<Response, SendFailure>,
    again: Result<(SendState, PumpAction), SendFailure>,
    head: Result<ReceivedResponseHead, SendFailure>,
)
    requires
        states.0@.head is Some,
        states.0@.head->0.version !is Unknown,
        states.0@.trailers is None,
        call_ensures(crate::web::headers::convert_headers, (&headers,), Ok(collected)),
        call_ensures(
            SendState::stepped,
            (
                states.0,
                Ok(
                    ClientStep::Event(
                        DriverClientEvent::ResponseTrailers {
                            exchange_id: states.0@.exchange_id,
                            headers,
                        },
                    ),
                ),
            ),
            Ok((states.1, action)),
        ),
        call_ensures(SendState::finish, (states.1,), sent),
        call_ensures(
            SendState::stepped,
            (
                states.1,
                Ok(
                    ClientStep::Event(
                        DriverClientEvent::ResponseTrailers {
                            exchange_id: states.0@.exchange_id,
                            headers,
                        },
                    ),
                ),
            ),
            again,
        ),
        call_ensures(SendState::take_head, (states.0,), head),
    ensures
        action is Progress,
        sent matches Ok(response) && response.body.inbound() == Some(
            ReceivedView::Complete(collected@),
        ) && response.body@ == crate::web::body::BodyView::Buffered(states.0@.body)
            && response.headers@ == states.0@.head->0.fields && response.status
            == states.0@.head->0.status,
        again is Err,
        head matches Ok(head) && head@ == states.0@.head->0,
{
}

/// What the driver asks for is what the exchange does; a streamed response is
/// handed over with its head. A failure of the driver is the exchange's, with
/// what is known of how far it came.
pub proof fn steps_are_followed(
    state: SendState,
    nexts: (
        Result<(SendState, PumpAction), SendFailure>,
        Result<(SendState, PumpAction), SendFailure>,
        Result<(SendState, PumpAction), SendFailure>,
        Result<(SendState, PumpAction), SendFailure>,
        Result<(SendState, PumpAction), SendFailure>,
    ),
    fault: HttpErrorInfo,
    head: (u16, crate::web::message::HttpVersion, Vec<crate::web::headers::HeaderField>),
)
    requires
        call_ensures(SendState::stepped, (state, Ok(ClientStep::NeedInput)), nexts.0),
        call_ensures(SendState::stepped, (state, Ok(ClientStep::Write)), nexts.1),
        call_ensures(SendState::stepped, (state, Ok(ClientStep::Done)), nexts.2),
        call_ensures(SendState::stepped, (state, Err(fault)), nexts.3),
        call_ensures(
            SendState::stepped,
            (
                state,
                Ok(
                    ClientStep::Event(
                        DriverClientEvent::ResponseHead {
                            exchange_id: state@.exchange_id,
                            status: head.0,
                            version: head.1,
                            headers: head.2,
                        },
                    ),
                ),
            ),
            nexts.4,
        ),
    ensures
        nexts.0 matches Ok((next, PumpAction::NeedInput)) && next@ == state@,
        nexts.1 matches Ok((next, PumpAction::Write)) && next@ == state@,
        nexts.2 matches Ok((next, PumpAction::Complete)) && next@ == state@,
        nexts.3 matches Err(failure) && failure.error@ == fault.reported()
            && failure.response_bytes_received == state@.response_bytes_received
            && failure.request_bytes_written == state@.request_bytes_written
            && !failure.connection_failure && !failure.guaranteed_unprocessed,
        nexts.4 matches Ok((next, action)) ==> {
            &&& action is ResponseHead <==> state@.response_mode == ResponseMode::Streaming
            &&& action is ResponseHead || action is Progress
            &&& next@.head is Some
            &&& next@.head->0.status == head.0
            &&& next@.head->0.version == head.1
            &&& next@.request_body == state@.request_body
        },
{
}

/// An exchange begins on a free connection, with the body of its request to be
/// sent and nothing received but what was there; a request that the driver
/// refuses fails with what it said.
pub proof fn exchanges_begin_with_their_request(
    exchange_id: u64,
    body: Body,
    mode: ResponseMode,
    timeout: Duration,
    pending: bool,
    begun: (Result<(), SendFailure>, Result<(), SendFailure>),
    state: Result<SendState, SendFailure>,
    fault: HttpErrorInfo,
    refused: Result<SendState, SendFailure>,
    offered: Option<&[u8]>,
    source: Option<u64>,
)
    requires
        call_ensures(begin_exchange, (false, pending), begun.0),
        call_ensures(begin_exchange, (true, pending), begun.1),
        call_ensures(SendState::new, (Ok(exchange_id), body, mode, timeout, pending), state),
        call_ensures(SendState::new, (Err(fault), body, mode, timeout, pending), refused),
        state matches Ok(state) ==> call_ensures(SendState::available, (&state,), offered)
            && call_ensures(SendState::body_source, (&state,), source),
    ensures
        begun.0 is Ok && begun.1 is Err,
        state matches Ok(state) && {
            &&& state@.exchange_id == exchange_id
            &&& state@.response_mode == mode
            &&& state@.response_bytes_received == pending
            &&& !state@.request_bytes_written
            &&& state@.head is None && state@.trailers is None && state@.body.len() == 0
            &&& state@.continue_deadline is None
            &&& state@.expect_continue_timeout == timeout
            &&& body@ matches crate::web::body::BodyView::Buffered(bytes) ==> (
            offered matches Some(all) && all@ == bytes) && source is None
            &&& body@ matches crate::web::body::BodyView::Streaming(number) ==> offered is None
                && source == Some(number)
        },
        refused matches Err(failure) && failure.error@ == fault.reported()
            && !failure.request_bytes_written && failure.response_bytes_received == pending,
{
}

/// What was written of a request is remembered. A write that failed is a failure
/// of the connection, and says whether any byte went out before or with it.
pub proof fn writes_are_remembered(
    state: SendState,
    progress: bool,
    errno: Errno,
    nexts: (Result<SendState, SendFailure>, Result<SendState, SendFailure>),
)
    requires
        call_ensures(SendState::written, (state, progress, Ok(())), nexts.0),
        call_ensures(SendState::written, (state, progress, Err(errno)), nexts.1),
    ensures
        nexts.0 matches Ok(next) && next@.request_bytes_written == (state@.request_bytes_written
            || progress) && next@.body == state@.body && next@.request_body == state@.request_body
            && next@.response_bytes_received == state@.response_bytes_received,
        nexts.1 matches Err(failure) && failure.error@ == ErrorView::Io(errno)
            && failure.connection_failure && !failure.guaranteed_unprocessed
            && failure.request_bytes_written == (state@.request_bytes_written || progress)
            && failure.response_bytes_received == state@.response_bytes_received,
{
}

/// What is committed of a buffered request body is not offered again, and what
/// is left is offered in its order.
pub proof fn committed_bodies_go_on(
    state: SendState,
    offered: Option<&[u8]>,
    count: usize,
    next: Result<SendState, SendFailure>,
    left: Option<&[u8]>,
)
    requires
        state@.request_body is Buffered,
        call_ensures(SendState::available, (&state,), offered),
        offered is Some,
        count <= offered->0@.len(),
        call_ensures(SendState::committed, (state, count, Ok(())), next),
        next matches Ok(next) ==> call_ensures(SendState::available, (&next,), left),
    ensures
        next is Ok,
        left matches Some(left) && left@ == offered->0@.skip(count as int),
{
}

/// An exchange waits for its peer without an end, unless it waits for leave to
/// send its body: then until the timeout has passed since the first such wait.
pub proof fn waiting_for_leave_has_one_end(
    state: SendState,
    times: (Instant, Instant),
    first: (SendState, ExchangeWait),
    second: (SendState, ExchangeWait),
    plain: (SendState, ExchangeWait),
)
    requires
        state@.continue_deadline is None,
        call_ensures(SendState::wait, (state, true, times.0), Ok(first)),
        call_ensures(SendState::wait, (first.0, true, times.1), Ok(second)),
        call_ensures(SendState::wait, (state, false, times.0), Ok(plain)),
    ensures
        first.1.deadline matches Some(deadline) && deadline@ == times.0@
            + state@.expect_continue_timeout@,
        second.1.deadline == first.1.deadline,
        !first.1.body && !second.1.body,
        plain.1.deadline is None,
        plain.1.body == state@.request_body.wants_chunk(),
        plain.0@ == state@,
{
}

/// What a wait brings: bytes of the peer are remembered as received, the end of
/// the connection is told to the driver, and running out of time while waiting
/// for leave sends the body. Any other failure to read is one of the connection.
pub proof fn waits_bring_what_came(
    state: SendState,
    amount: usize,
    errno: Errno,
    leave: bool,
    nexts: (Result<(SendState, AfterWait), SendFailure>, Result<(SendState, AfterWait), SendFailure>),
)
    requires
        call_ensures(SendState::waited, (state, WaitAction::Input(Ok(amount)), leave), nexts.0),
        call_ensures(
            SendState::waited,
            (state, WaitAction::Input(Err(Error::Io(errno))), leave),
            nexts.1,
        ),
    ensures
        amount == 0 ==> (nexts.0 matches Ok((next, AfterWait::FinishEof)) && next@ == state@),
        amount > 0 ==> (nexts.0 matches Ok((next, AfterWait::Continue))
            && next@.response_bytes_received && next@.body == state@.body),
        errno.tells_timeout() && leave ==> (nexts.1 matches Ok((next, AfterWait::ProceedWithBody))
            && next@.continue_deadline is None && next@.request_body == state@.request_body),
        !errno.tells_timeout() || !leave ==> (nexts.1 matches Err(failure)
            && failure.connection_failure && failure.error@ == ErrorView::Io(errno)
            && failure.request_bytes_written == state@.request_bytes_written
            && failure.response_bytes_received == state@.response_bytes_received),
{
}

/// A response that the end of the connection cuts short is a failure of the
/// connection; any other refusal of the driver is one of the exchange.
pub proof fn cut_responses_are_connection_failures(
    state: SendState,
    fault: HttpErrorInfo,
    error: Error,
    nexts: (Result<SendState, SendFailure>, Result<SendState, SendFailure>),
    failure: SendFailure,
)
    requires
        call_ensures(SendState::ended, (state, Err(fault)), nexts.0),
        call_ensures(SendState::answered, (state, Err(fault)), nexts.1),
        call_ensures(SendState::fail, (state, error), failure),
    ensures
        nexts.0 matches Err(failure) && failure.connection_failure && failure.error@
            == fault.reported(),
        nexts.1 matches Err(failure) && !failure.connection_failure && failure.error@
            == fault.reported(),
        failure.error == error && !failure.connection_failure,
        failure.request_bytes_written == state@.request_bytes_written,
        failure.response_bytes_received == state@.response_bytes_received,
{
}

/// A round asks the source of the body where a chunk is missing, offers what
/// there is of it, and lets the driver go on when there is nothing. After an
/// action the exchange writes, waits or ends as the action says; it waits for
/// the peer only when nothing of the input was used.
pub proof fn rounds_follow_their_order(
    state: &SendState,
    taken: bool,
    phases: (SendPhase, SendPhase, SendPhase),
    needs: bool,
    offered: Option<&[u8]>,
    action: PumpAction,
    consumed: usize,
    turn: SendTurn,
)
    requires
        call_ensures(SendState::needs_chunk, (state,), needs),
        call_ensures(SendState::available, (state,), offered),
        call_ensures(SendState::round, (state,), phases.0),
        call_ensures(SendState::past_source, (state,), phases.1),
        call_ensures(SendState::past_body, (state, taken), phases.2),
        call_ensures(send_turn, (action, consumed), turn),
    ensures
        phases.0 is Source <==> needs,
        phases.1 is Body <==> offered is Some,
        phases.1 is Step <==> offered is None,
        !needs ==> phases.0 == phases.1,
        phases.2 == if taken {
            phases.0
        } else {
            SendPhase::Step
        },
        turn is Write <==> action is Write,
        turn is Head <==> action is ResponseHead,
        turn is Response <==> action is Complete,
        turn is Wait <==> action is NeedInput && consumed == 0,
        turn is Again <==> action is Progress || action is NeedInput && consumed > 0,
{
}

/// While a response is streamed its chunks, its trailers and its end are those
/// that the driver reported for the exchange; another exchange's are refused.
pub proof fn pulls_yield_what_was_reported(
    exchange_id: u64,
    observed: u64,
    chunk: Vec<u8>,
    headers: Vec<crate::web::headers::HeaderField>,
    collected: Headers,
    actions: (Result<PullAction, Error>, Result<PullAction, Error>, Result<PullAction, Error>, Result<PullAction, Error>),
)
    requires
        call_ensures(crate::web::headers::convert_headers, (&headers,), Ok(collected)),
        call_ensures(
            pull_step,
            (
                exchange_id,
                Ok(ClientStep::Event(DriverClientEvent::ResponseBody { exchange_id: observed, chunk })),
            ),
            actions.0,
        ),
        call_ensures(
            pull_step,
            (
                exchange_id,
                Ok(
                    ClientStep::Event(
                        DriverClientEvent::ResponseTrailers { exchange_id: observed, headers },
                    ),
                ),
            ),
            actions.1,
        ),
        call_ensures(
            pull_step,
            (
                exchange_id,
                Ok(
                    ClientStep::Event(
                        DriverClientEvent::ResponseComplete { exchange_id: observed },
                    ),
                ),
            ),
            actions.2,
        ),
        call_ensures(pull_step, (exchange_id, Ok(ClientStep::NeedInput)), actions.3),
    ensures
        observed == exchange_id ==> {
            &&& actions.0 matches Ok(PullAction::Body(bytes)) && bytes@ == chunk@
            &&& actions.1 matches Ok(PullAction::Trailers(fields)) && fields@ == collected@
            &&& actions.2 matches Ok(PullAction::Complete)
        },
        observed != exchange_id ==> actions.0 is Err && actions.1 is Err && actions.2 is Err,
        actions.3 matches Ok(PullAction::NeedInput),
{
}

/// A pull ends with the chunk that came or with the end of the body, and reads
/// from the peer only when nothing of the input was used.
pub proof fn pulls_end_with_what_came(
    chunk: Vec<u8>,
    consumed: usize,
    number: u64,
    tables: (&mut TrailerTable, &mut TrailerTable, &mut TrailerTable, &mut TrailerTable),
    turns: (Result<PullTurn, Error>, Result<PullTurn, Error>, Result<PullTurn, Error>, Result<PullTurn, Error>),
)
    requires
        call_ensures(pull_turn, (PullAction::Body(chunk), consumed, tables.0, number), turns.0),
        call_ensures(pull_turn, (PullAction::Complete, consumed, tables.1, number), turns.1),
        call_ensures(pull_turn, (PullAction::NeedInput, consumed, tables.2, number), turns.2),
        call_ensures(pull_turn, (PullAction::Write, consumed, tables.3, number), turns.3),
    ensures
        turns.0 matches Ok(PullTurn::Chunk(given)) && given@ == chunk@,
        turns.1 matches Ok(PullTurn::End),
        consumed > 0 ==> turns.2 matches Ok(PullTurn::Again),
        consumed == 0 ==> turns.2 matches Ok(PullTurn::Read),
        turns.3 matches Ok(PullTurn::Write),
{
}

/// A step of streamed input or output ends when the timeout has passed.
pub proof fn streaming_ends_with_its_timeout(
    now: Instant,
    timeout: Duration,
    deadline: Result<Instant, Error>,
    current: Option<u64>,
    exchange: Result<u64, Error>,
)
    requires
        call_ensures(streaming_io_deadline, (now, timeout), deadline),
        call_ensures(streaming_exchange, (current,), exchange),
    ensures
        deadline matches Ok(deadline) ==> deadline@ == now@ + timeout@,
        exchange is Ok <==> current is Some,
        exchange matches Ok(id) ==> current == Some(id),
{
}

/// A chunk that a source gives is the next to be sent, and a source that fails
/// fails the exchange with its words and with nothing of the connection.
pub proof fn sources_feed_the_request(
    state: SendState,
    chunk: Vec<u8>,
    message: String,
    next: (
        Result<SendState, SendFailure>,
        Result<SendState, SendFailure>,
        Result<SendState, SendFailure>,
    ),
    lost: SendFailure,
)
    requires
        state@.request_body.wants_chunk(),
        call_ensures(SendState::polled, (state, SourcePoll::Chunk(chunk)), next.0),
        call_ensures(SendState::polled, (state, SourcePoll::Pending), next.1),
        call_ensures(SendState::polled, (state, SourcePoll::Failed(message)), next.2),
        call_ensures(SendState::lost_output, (state,), lost),
    ensures
        next.0 matches Ok(fed) && (fed@.request_body matches RequestBodyView::Streaming(cursor)
            && cursor.unsent == chunk@),
        next.1 matches Ok(same) && same@ == state@,
        next.2 matches Err(failure) && failure.error@ == ErrorView::BodyStream(message@)
            && !failure.connection_failure && failure.request_bytes_written
            == state@.request_bytes_written,
        lost.error@ == crate::web::message::protocol_fault(
            ProtocolErrorKind::InvalidState,
            "the connection driver did not retain pending output"@,
        ),
        !lost.connection_failure && lost.response_bytes_received == state@.response_bytes_received,
{
}

/// Trailers that arrive are kept, once: a second set is refused and the first
/// stays.
pub proof fn trailers_are_kept_once(
    first: &mut TrailerTable,
    second: &mut TrailerTable,
    number: u64,
    fields: (Headers, Headers),
    kept: (Result<(), Error>, Result<(), Error>),
)
    requires
        old(first)@.inbound.contains_key(number),
        old(first)@.inbound[number].fields is None,
        call_ensures(keep_trailers, (first, number, fields.0), kept.0),
        *old(second) == *final(first),
        call_ensures(keep_trailers, (second, number, fields.1), kept.1),
    ensures
        kept.0 is Ok && kept.1 is Err,
        final(second)@.inbound[number].fields == Some(fields.0@),
        final(second)@.inbound[number].drained == old(first)@.inbound[number].drained,
        forall|other: u64|
            other != number && #[trigger] old(first)@.inbound.contains_key(other) ==> final(second)@.inbound[other] == old(first)@.inbound[other],
{
}

/// A head that comes while the body is read is an error: of another exchange, or
/// one that was repeated. A fault of the driver is reported as it is.
pub proof fn late_heads_are_faults(
    exchange_id: u64,
    observed: u64,
    status: u16,
    version: crate::web::message::HttpVersion,
    headers: Vec<crate::web::headers::HeaderField>,
    fault: HttpErrorInfo,
    actions: (Result<PullAction, Error>, Result<PullAction, Error>),
)
    requires
        call_ensures(
            pull_step,
            (
                exchange_id,
                Ok(
                    ClientStep::Event(
                        DriverClientEvent::ResponseHead {
                            exchange_id: observed,
                            status,
                            version,
                            headers,
                        },
                    ),
                ),
            ),
            actions.0,
        ),
        call_ensures(pull_step, (exchange_id, Err(fault)), actions.1),
    ensures
        actions.0 matches Err(error) && (error@ matches ErrorView::Protocol(told) && told.kind
            is UnexpectedEvent && told.detail == if observed == exchange_id {
            "response head repeated while streaming its body"@
        } else {
            "the connection driver returned an event for another exchange"@
        }),
        actions.1 matches Err(error) && error@ == fault.reported(),
{
}

} // verus!
