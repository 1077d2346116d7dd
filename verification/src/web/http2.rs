//! The exchanges of an HTTP/2 client session.

use std::collections::HashMap;

use vstd::prelude::*;

use crate::time::Instant;
use crate::web::body::Body;
use crate::web::body::BodyPoll;
use crate::web::body::BodyView;
use crate::web::body::CursorView;
use crate::web::body::RequestBodyState;
use crate::web::body::RequestBodyView;
use crate::web::body::SourcePoll;
use crate::web::client::ResponseMode;
use crate::web::driver::ResponseHeadView;
use crate::web::error::Error;
use crate::web::error::ErrorView;
use crate::web::error::ProtocolErrorKind;
use crate::web::error::Version;
use crate::web::failure::DriverError;
use crate::web::failure::H2FailureView;
use crate::web::failure::H2PumpTermination;
use crate::web::failure::H2SharedFailure;
use crate::web::failure::SendFailure;
use crate::web::failure::REFUSED_STREAM;
use crate::web::headers::Headers;
use crate::web::message::finish_response;
use crate::web::message::ReceivedResponseHead;
use crate::web::message::Request;
use crate::web::message::Response;
use crate::web::pool::H2SessionState;
use crate::web::trailers::ReceivedView;

verus! {

broadcast use vstd::std_specs::hash::group_hash_axioms;

/// Where the trailers of a streamed response go.
#[derive(Clone, Copy, Debug, PartialEq, Eq, Structural)]
pub enum TrailerSlot {
    /// The response was not handed over yet.
    Absent,
    /// No trailers arrived yet.
    Empty,
    /// Trailers arrived.
    Full,
}

/// What a response holds.
#[verifier::ext_equal]
pub struct ResponseView {
    /// The status code.
    pub status: u16,
    /// The HTTP version.
    pub version: Version,
    /// The header fields.
    pub fields: Map<Seq<u8>, Seq<Seq<u8>>>,
    /// The body.
    pub body: BodyView,
    /// The trailers behind the body.
    pub received: Option<ReceivedView>,
    /// The callback that produces trailers which are sent behind the body.
    pub outbound: Option<u64>,
}

impl View for Response {
    type V = ResponseView;

    open spec fn view(&self) -> ResponseView {
        ResponseView {
            status: self.status,
            version: self.version,
            fields: self.headers@,
            body: self.body@,
            received: self.body.inbound(),
            outbound: self.body.outbound(),
        }
    }
}

/// What is known of an exchange.
#[verifier::ext_equal]
pub struct H2ExchangeView {
    /// The number of the request in its session.
    pub request_id: u64,
    /// How the response is handed over.
    pub response_mode: ResponseMode,
    /// Whether the caller still waits for a reply.
    pub replying: bool,
    /// The body of the request.
    pub request_body: RequestBodyView,
    /// The head of the response.
    pub head: Option<ResponseHeadView>,
    /// The body of the response so far.
    pub body: Seq<u8>,
    /// The trailers of the response.
    pub trailers: Option<Map<Seq<u8>, Seq<Seq<u8>>>>,
    /// The response, once it is complete.
    pub completed: Option<ResponseView>,
    /// Whether chunks of the response can be handed over.
    pub streaming: bool,
    /// Where the trailers of a streamed response go.
    pub trailer_slot: TrailerSlot,
    /// Whether the response was handed over as a stream, whose reader is then
    /// told of a failure.
    pub streamed: bool,
    /// Whether part of the request was written.
    pub request_bytes_written: bool,
    /// Whether part of the response arrived.
    pub response_bytes_received: bool,
    /// Whether nobody wants the response any more.
    pub abandoned: bool,
}

/// An exchange.
pub struct H2Exchange {
    request_id: u64,
    response_mode: ResponseMode,
    replying: bool,
    request_body: RequestBodyState,
    head: Option<ReceivedResponseHead>,
    body: Vec<u8>,
    trailers: Option<Headers>,
    completed: Option<Response>,
    streaming: bool,
    trailer_slot: TrailerSlot,
    streamed: bool,
    request_bytes_written: bool,
    response_bytes_received: bool,
    abandoned: bool,
}

impl View for H2Exchange {
    type V = H2ExchangeView;

    closed spec fn view(&self) -> H2ExchangeView {
        H2ExchangeView {
            request_id: self.request_id,
            response_mode: self.response_mode,
            replying: self.replying,
            request_body: self.request_body@,
            head: match self.head {
                Some(head) => Some(head@),
                None => None,
            },
            body: self.body@,
            trailers: match self.trailers {
                Some(trailers) => Some(trailers@),
                None => None,
            },
            completed: match self.completed {
                Some(response) => Some(response@),
                None => None,
            },
            streaming: self.streaming,
            trailer_slot: self.trailer_slot,
            streamed: self.streamed,
            request_bytes_written: self.request_bytes_written,
            response_bytes_received: self.response_bytes_received,
            abandoned: self.abandoned,
        }
    }
}

/// What a session does with a request that was submitted.
pub enum Admission {
    /// The driver is asked to take it.
    Admitted(Request),
    /// The session is full. The caller has the request back.
    Rejected(Request),
}

/// What the caller of an exchange is told.
#[derive(Debug)]
pub enum H2Reply {
    /// Nothing.
    Nothing,
    /// The reader of a streamed response finds this error at its end.
    Terminal(Error),
    /// The request failed.
    Failure(SendFailure),
}

impl H2Reply {
    /// Whether the reply is what an exchange says of a failure: whoever reads
    /// the stream, or else whoever waits for a reply, is told.
    pub open spec fn reports(
        self,
        exchange: H2ExchangeView,
        error: ErrorView,
        connection_failure: bool,
        guaranteed_unprocessed: bool,
    ) -> bool {
        if exchange.streamed {
            self matches H2Reply::Terminal(told) && told@ == error
        } else if exchange.replying {
            self matches H2Reply::Failure(failure) && {
                &&& failure.error@ == error
                &&& failure.response_bytes_received == exchange.response_bytes_received
                &&& failure.request_bytes_written == exchange.request_bytes_written
                &&& failure.connection_failure == connection_failure
                &&& failure.guaranteed_unprocessed == guaranteed_unprocessed
            }
        } else {
            self is Nothing
        }
    }
}

impl H2ExchangeView {
    /// An exchange at its start.
    pub open spec fn fresh(request_id: u64, response_mode: ResponseMode, body: BodyView) -> H2ExchangeView {
        H2ExchangeView {
            request_id,
            response_mode,
            replying: true,
            request_body: match body {
                BodyView::Buffered(bytes) => RequestBodyView::Buffered(bytes),
                BodyView::Streaming(source) => RequestBodyView::Streaming(
                    CursorView::start(source),
                ),
            },
            head: None,
            body: Seq::empty(),
            trailers: None,
            completed: None,
            streaming: false,
            trailer_slot: TrailerSlot::Absent,
            streamed: false,
            request_bytes_written: false,
            response_bytes_received: false,
            abandoned: false,
        }
    }

    /// An exchange whose failure was told.
    pub open spec fn told(self) -> H2ExchangeView {
        if self.streamed {
            H2ExchangeView { streaming: false, ..self }
        } else {
            H2ExchangeView { replying: false, ..self }
        }
    }

    /// An exchange of which part of the response arrived.
    pub open spec fn heard(self) -> H2ExchangeView {
        H2ExchangeView { response_bytes_received: true, ..self }
    }

    /// An exchange that its caller gave up.
    pub open spec fn canceled(self) -> H2ExchangeView {
        H2ExchangeView { abandoned: true, replying: false, streaming: false, ..self }
    }

    /// Whether the request body offers bytes to be written.
    pub open spec fn writable(self) -> bool {
        !self.abandoned && self.request_body.offer() is Some
    }

    /// Whether the request body waits for its source.
    pub open spec fn wants_chunk(self) -> bool {
        !self.abandoned && self.request_body.wants_chunk()
    }
}

impl H2Exchange {
    /// The position in the request body lies inside it.
    pub closed spec fn valid(&self) -> bool {
        self.request_body.valid()
    }

    /// An exchange at its start.
    pub fn new(request_id: u64, response_mode: ResponseMode, body: Body) -> (exchange: H2Exchange)
        ensures
            exchange.valid(),
            exchange@ == H2ExchangeView::fresh(request_id, response_mode, body@),
    {
        H2Exchange {
            request_id,
            response_mode,
            replying: true,
            request_body: RequestBodyState::new(body),
            head: None,
            body: Vec::new(),
            trailers: None,
            completed: None,
            streaming: false,
            trailer_slot: TrailerSlot::Absent,
            streamed: false,
            request_bytes_written: false,
            response_bytes_received: false,
            abandoned: false,
        }
    }

    /// Tells whoever is there that the exchange failed, once.
    pub fn send_failure(
        self,
        error: Error,
        connection_failure: bool,
        guaranteed_unprocessed: bool,
    ) -> (told: (H2Exchange, H2Reply))
        requires
            self.valid(),
        ensures
            told.0.valid(),
            told.0@ == self@.told(),
            told.1.reports(self@, error@, connection_failure, guaranteed_unprocessed),
    {
        if self.streamed {
            return (H2Exchange { streaming: false, ..self }, H2Reply::Terminal(error));
        }
        if self.replying {
            let failure = SendFailure {
                error,
                response_bytes_received: self.response_bytes_received,
                request_bytes_written: self.request_bytes_written,
                connection_failure,
                guaranteed_unprocessed,
            };
            return (H2Exchange { replying: false, ..self }, H2Reply::Failure(failure));
        }
        (self, H2Reply::Nothing)
    }
}

/// The exchanges of a session by their number.
pub struct H2Exchanges {
    map: HashMap<u64, H2Exchange>,
}

impl View for H2Exchanges {
    type V = Map<u64, H2ExchangeView>;

    closed spec fn view(&self) -> Map<u64, H2ExchangeView> {
        self.map@.map_values(|exchange: H2Exchange| exchange@)
    }
}

impl H2Exchanges {
    /// Every exchange is valid.
    pub closed spec fn valid(&self) -> bool {
        forall|id: u64| #[trigger] self.map@.contains_key(id) ==> self.map@[id].valid()
    }

    /// No exchanges.
    pub fn new() -> (exchanges: H2Exchanges)
        ensures
            exchanges.valid(),
            exchanges@ == Map::<u64, H2ExchangeView>::empty(),
    {
        let exchanges = H2Exchanges { map: HashMap::new() };
        assert(exchanges@ =~= Map::<u64, H2ExchangeView>::empty());
        exchanges
    }

    /// How many exchanges there are.
    pub fn len(&self) -> (len: usize)
        ensures
            len == self@.dom().len(),
    {
        assert(self@.dom() =~= self.map@.dom());
        self.map.len()
    }

    /// Whether there are none.
    pub fn is_empty(&self) -> (empty: bool)
        ensures
            empty == (self@.dom().len() == 0),
    {
        assert(self@.dom() =~= self.map@.dom());
        self.map.is_empty()
    }

    /// The numbers of the exchanges, each once, in no order.
    pub fn ids(&self) -> (ids: Vec<u64>)
        ensures
            ids@.to_set() == self@.dom(),
            ids@.no_duplicates(),
    {
        let mut ids: Vec<u64> = Vec::new();
        for id in iter: self.map.keys()
            invariant
                iter.seq().unref().to_set() == self.map@.dom(),
                ids@ == iter.seq().take(iter.index()).unref(),
                iter.index() == iter.seq().len() ==> ids@ == iter.seq().unref(),
        {
            ids.push(*id);
        }
        assert(self@.dom() =~= self.map@.dom());
        ids
    }
}

/// What follows the head of a response.
pub enum HeadAction {
    /// Nothing.
    Nothing,
    /// The driver gives the exchange up, unless it is done with it.
    AbandonUnlessRetireable,
    /// The driver gives the exchange up.
    Abandon,
    /// The caller is offered the head and a stream of the body.
    Offer(ReceivedResponseHead),
}

/// How the reader of a streamed response took a chunk.
#[derive(Clone, Copy, Debug, PartialEq, Eq, Structural)]
pub enum Delivery {
    /// It has it.
    Taken,
    /// It is gone.
    Closed,
    /// It did not take the one before yet.
    Full,
}

/// What follows the delivery of a chunk.
#[derive(Debug)]
pub struct DeliveryAction {
    /// Whether the reader gets a turn.
    pub yields: bool,
    /// Whether the driver gives the exchange up.
    pub abandon: bool,
    /// What the reader finds at the end of the stream.
    pub reply: H2Reply,
}

/// A request body and the bytes that it offers.
#[derive(Clone, Copy, Debug, PartialEq, Eq, Structural)]
pub struct BodyOffer {
    /// The exchange.
    pub exchange_id: u64,
    /// How many bytes can be written, where any can.
    pub available: Option<usize>,
}

/// What follows the end of an exchange.
pub struct Retirement {
    /// Whether the session is idle now.
    pub became_idle: bool,
    /// The response for the caller.
    pub response: Option<Response>,
}

/// Whether no exchange belongs to a request.
pub open spec fn unclaimed(exchanges: Map<u64, H2ExchangeView>, request_id: u64) -> bool {
    forall|id: u64| #[trigger]
        exchanges.contains_key(id) ==> exchanges[id].request_id != request_id
}

/// The failure of a driver that is out of step with the exchanges.
pub open spec fn out_of_step(kind: ProtocolErrorKind, text: Seq<char>, failure: H2SharedFailure) -> bool {
    failure@ == H2FailureView::Protocol(kind, text)
}

impl H2Exchanges {
    fn take(&mut self, id: u64) -> (taken: Option<H2Exchange>)
        requires
            old(self).valid(),
        ensures
            final(self).valid(),
            match taken {
                Some(exchange) => {
                    &&& old(self)@.contains_key(id)
                    &&& exchange.valid()
                    &&& exchange@ == old(self)@[id]
                    &&& final(self)@ == old(self)@.remove(id)
                },
                None => !old(self)@.contains_key(id) && final(self)@ == old(self)@,
            },
    {
        let taken = self.map.remove(&id);
        proof {
            if taken is Some {
                assert(self@ =~= old(self)@.remove(id));
            } else {
                assert(self@ =~= old(self)@);
            }
        }
        taken
    }

    fn put(&mut self, id: u64, exchange: H2Exchange)
        requires
            old(self).valid(),
            exchange.valid(),
        ensures
            final(self).valid(),
            final(self)@ == old(self)@.insert(id, exchange@),
    {
        self.map.insert(id, exchange);
        assert(self@ =~= old(self)@.insert(id, exchange@));
    }

    /// Whether the peer takes one more exchange.
    pub fn admits(&self, max_active: usize) -> (admits: bool)
        ensures
            admits == (self@.dom().len() < max_active),
    {
        self.len() < max_active
    }

    /// Refuses a request when the peer takes no more of them. Its reservation
    /// then goes back to the session.
    pub fn refuse(&self, state: &mut H2SessionState, max_active: usize) -> (refused: bool)
        ensures
            refused == (self@.dom().len() >= max_active),
            *final(state) == if refused {
                old(state).released()
            } else {
                *old(state)
            },
    {
        if self.admits(max_active) {
            false
        } else {
            state.release_unstarted();
            true
        }
    }

    /// Decides on a request that was submitted. One that the peer takes no more
    /// is rejected, as it came, and may go to another session.
    pub fn decide_on(&self, request: Request, state: &mut H2SessionState, max_active: usize) -> (admission:
        Admission)
        ensures
            if self@.dom().len() < max_active {
                &&& admission == Admission::Admitted(request)
                &&& *final(state) == *old(state)
            } else {
                &&& admission == Admission::Rejected(request)
                &&& *final(state) == old(state).released()
            },
    {
        if self.refuse(state, max_active) {
            Admission::Rejected(request)
        } else {
            Admission::Admitted(request)
        }
    }

    /// The driver took a request, or not. Where it did not the reservation goes
    /// back to the session.
    pub fn submit(
        &mut self,
        request_id: u64,
        response_mode: ResponseMode,
        body: Body,
        prepared: Result<u64, DriverError>,
        state: &mut H2SessionState,
    ) -> (submitted: Result<(), (H2Reply, H2SharedFailure)>)
        requires
            old(self).valid(),
        ensures
            final(self).valid(),
            *final(state) == if prepared is Err {
                old(state).released()
            } else {
                *old(state)
            },
            match prepared {
                Err(fault) => {
                    &&& final(self)@ == old(self)@
                    &&& submitted is Err
                    &&& submitted->Err_0.0 matches H2Reply::Failure(failure) && {
                        &&& failure.error@ == fault.classified().reported()
                        &&& !failure.response_bytes_received
                        &&& !failure.request_bytes_written
                        &&& !failure.connection_failure
                        &&& !failure.guaranteed_unprocessed
                    }
                    &&& submitted->Err_0.1@ == H2FailureView::Driver(fault)
                },
                Ok(id) => {
                    &&& final(self)@ == old(self)@.insert(
                        id,
                        H2ExchangeView::fresh(request_id, response_mode, body@),
                    )
                    &&& if old(self)@.contains_key(id) {
                        &&& submitted is Err
                        &&& submitted->Err_0.0 is Nothing
                        &&& out_of_step(
                            ProtocolErrorKind::InvalidState,
                            "the HTTP/2 driver reused an active exchange identifier"@,
                            submitted->Err_0.1,
                        )
                    } else {
                        submitted is Ok
                    }
                },
            },
    {
        match prepared {
            Err(fault) => {
                state.release_unstarted();
                let failure = SendFailure {
                    error: fault.error(),
                    response_bytes_received: false,
                    request_bytes_written: false,
                    connection_failure: false,
                    guaranteed_unprocessed: false,
                };
                Err((H2Reply::Failure(failure), H2SharedFailure::Driver(fault)))
            },
            Ok(id) => {
                let occupied = self.map.contains_key(&id);
                self.put(id, H2Exchange::new(request_id, response_mode, body));
                if occupied {
                    Err(
                        (
                            H2Reply::Nothing,
                            H2SharedFailure::protocol(
                                ProtocolErrorKind::InvalidState,
                                "the HTTP/2 driver reused an active exchange identifier",
                            ),
                        ),
                    )
                } else {
                    Ok(())
                }
            },
        }
    }

    /// A caller gave its request up. The exchange that it belongs to is
    /// abandoned; the driver then gives it up as well, unless it is done with
    /// it.
    pub fn cancel(&mut self, request_id: u64) -> (canceled: Option<u64>)
        requires
            old(self).valid(),
        ensures
            final(self).valid(),
            match canceled {
                Some(id) => {
                    &&& old(self)@.contains_key(id)
                    &&& old(self)@[id].request_id == request_id
                    &&& final(self)@ == old(self)@.insert(id, old(self)@[id].canceled())
                },
                None => {
                    &&& unclaimed(old(self)@, request_id)
                    &&& final(self)@ == old(self)@
                },
            },
    {
        let ids = self.ids();
        let mut index: usize = 0;
        while index < ids.len()
            invariant
                index <= ids@.len(),
                self.valid(),
                self@ == old(self)@,
                ids@.to_set() == self@.dom(),
                forall|i: int|
                    0 <= i < index ==> self@[#[trigger] ids@[i]].request_id != request_id,
            decreases ids@.len() - index,
        {
            let id: u64 = ids[index];
            assert(ids@.to_set().contains(id));
            let found = match self.map.get(&id) {
                Some(exchange) => exchange.request_id == request_id,
                None => false,
            };
            if found {
                match self.take(id) {
                    Some(exchange) => {
                        self.put(
                            id,
                            H2Exchange {
                                abandoned: true,
                                replying: false,
                                streaming: false,
                                ..exchange
                            },
                        );
                        assert(self@ =~= old(self)@.insert(id, old(self)@[id].canceled()));
                        return Some(id);
                    },
                    None => {},
                }
            }
            index = index + 1;
        }
        proof {
            assert forall|id: u64| #[trigger] self@.contains_key(id) implies self@[id].request_id
                != request_id by {
                assert(ids@.to_set().contains(id));
                let i = choose|i: int| 0 <= i < ids@.len() && ids@[i] == id;
                assert(self@[ids@[i]].request_id != request_id);
            }
        }
        None
    }

    /// The driver says that bytes of an exchange came in.
    pub fn note_input(&mut self, id: u64)
        requires
            old(self).valid(),
        ensures
            final(self).valid(),
            final(self)@ == if old(self)@.contains_key(id) {
                old(self)@.insert(id, old(self)@[id].heard())
            } else {
                old(self)@
            },
    {
        if let Some(exchange) = self.take(id) {
            self.put(id, H2Exchange { response_bytes_received: true, ..exchange });
        }
    }

    /// Bytes of an exchange went out, if `wrote` says so.
    pub fn note_written(&mut self, id: u64, wrote: bool)
        requires
            old(self).valid(),
        ensures
            final(self).valid(),
            final(self)@ == if old(self)@.contains_key(id) {
                old(self)@.insert(
                    id,
                    H2ExchangeView {
                        request_bytes_written: old(self)@[id].request_bytes_written || wrote,
                        ..old(self)@[id]
                    },
                )
            } else {
                old(self)@
            },
    {
        if let Some(exchange) = self.take(id) {
            self.put(
                id,
                H2Exchange {
                    request_bytes_written: exchange.request_bytes_written || wrote,
                    ..exchange
                },
            );
        }
    }

    /// The head of a response arrived.
    pub fn response_head(&mut self, id: u64, head: ReceivedResponseHead) -> (action: Result<
        HeadAction,
        H2SharedFailure,
    >)
        requires
            old(self).valid(),
        ensures
            final(self).valid(),
            !old(self)@.contains_key(id) ==> {
                &&& final(self)@ == old(self)@
                &&& action is Err
                &&& out_of_step(
                    ProtocolErrorKind::UnexpectedEvent,
                    "the response head named an unknown exchange"@,
                    action->Err_0,
                )
            },
            old(self)@.contains_key(id) ==> {
                let heard = old(self)@[id].heard();
                if heard.abandoned {
                    &&& action is Ok
                    &&& action->Ok_0 is AbandonUnlessRetireable
                    &&& final(self)@ == old(self)@.insert(id, heard)
                } else if heard.head is Some || heard.streaming {
                    &&& action is Err
                    &&& out_of_step(
                        ProtocolErrorKind::UnexpectedEvent,
                        "the response head repeated for one exchange"@,
                        action->Err_0,
                    )
                    &&& final(self)@ == old(self)@.insert(id, heard)
                } else if heard.response_mode == ResponseMode::Buffered {
                    &&& action is Ok
                    &&& action->Ok_0 is Nothing
                    &&& final(self)@ == old(self)@.insert(
                        id,
                        H2ExchangeView { head: Some(head@), ..heard },
                    )
                } else if heard.replying {
                    &&& action == Ok::<HeadAction, H2SharedFailure>(HeadAction::Offer(head))
                    &&& final(self)@ == old(self)@.insert(
                        id,
                        H2ExchangeView { replying: false, ..heard },
                    )
                } else {
                    &&& action is Ok
                    &&& action->Ok_0 is Abandon
                    &&& final(self)@ == old(self)@.insert(
                        id,
                        H2ExchangeView { abandoned: true, ..heard },
                    )
                }
            },
    {
        let exchange = match self.take(id) {
            Some(exchange) => H2Exchange { response_bytes_received: true, ..exchange },
            None => return Err(
                H2SharedFailure::protocol(
                    ProtocolErrorKind::UnexpectedEvent,
                    "the response head named an unknown exchange",
                ),
            ),
        };
        let (exchange, action) = if exchange.abandoned {
            (exchange, Ok(HeadAction::AbandonUnlessRetireable))
        } else if exchange.head.is_some() || exchange.streaming {
            (
                exchange,
                Err(
                    H2SharedFailure::protocol(
                        ProtocolErrorKind::UnexpectedEvent,
                        "the response head repeated for one exchange",
                    ),
                ),
            )
        } else if exchange.response_mode == ResponseMode::Buffered {
            (H2Exchange { head: Some(head), ..exchange }, Ok(HeadAction::Nothing))
        } else if exchange.replying {
            (H2Exchange { replying: false, ..exchange }, Ok(HeadAction::Offer(head)))
        } else {
            (H2Exchange { abandoned: true, ..exchange }, Ok(HeadAction::Abandon))
        };
        self.put(id, exchange);
        action
    }

    /// The caller took the offered stream, or is gone: then the driver gives
    /// the exchange up.
    pub fn stream_offered(&mut self, id: u64, taken: bool)
        requires
            old(self).valid(),
            old(self)@.contains_key(id),
        ensures
            final(self).valid(),
            final(self)@ == old(self)@.insert(
                id,
                if taken {
                    H2ExchangeView {
                        streaming: true,
                        trailer_slot: TrailerSlot::Empty,
                        streamed: true,
                        ..old(self)@[id]
                    }
                } else {
                    H2ExchangeView { abandoned: true, ..old(self)@[id] }
                },
            ),
    {
        if let Some(exchange) = self.take(id) {
            let exchange = if taken {
                H2Exchange {
                    streaming: true,
                    trailer_slot: TrailerSlot::Empty,
                    streamed: true,
                    ..exchange
                }
            } else {
                H2Exchange { abandoned: true, ..exchange }
            };
            self.put(id, exchange);
        }
    }

    /// Part of the body of a response arrived. It is kept, or returned to be
    /// handed on.
    pub fn prepare_response_body(&mut self, id: u64, chunk: &[u8]) -> (streamed: Result<
        Option<Vec<u8>>,
        Error,
    >)
        requires
            old(self).valid(),
        ensures
            final(self).valid(),
            !old(self)@.contains_key(id) ==> {
                &&& final(self)@ == old(self)@
                &&& streamed is Err
                &&& streamed->Err_0@ == crate::web::message::protocol_fault(
                    ProtocolErrorKind::UnexpectedEvent,
                    "the response body named an unknown exchange"@,
                )
            },
            old(self)@.contains_key(id) ==> {
                let heard = old(self)@[id].heard();
                if heard.abandoned {
                    &&& streamed == Ok::<Option<Vec<u8>>, Error>(None)
                    &&& final(self)@ == old(self)@.insert(id, heard)
                } else if heard.response_mode == ResponseMode::Buffered {
                    if heard.head is None {
                        &&& streamed is Err
                        &&& streamed->Err_0@ == crate::web::message::protocol_fault(
                            ProtocolErrorKind::UnexpectedEvent,
                            "the response body preceded its head"@,
                        )
                        &&& final(self)@ == old(self)@.insert(id, heard)
                    } else {
                        &&& streamed == Ok::<Option<Vec<u8>>, Error>(None)
                        &&& final(self)@ == old(self)@.insert(
                            id,
                            H2ExchangeView { body: heard.body + chunk@, ..heard },
                        )
                    }
                } else if !heard.streaming {
                    &&& streamed is Err
                    &&& streamed->Err_0@ == crate::web::message::protocol_fault(
                        ProtocolErrorKind::UnexpectedEvent,
                        "the streaming response body preceded its head"@,
                    )
                    &&& final(self)@ == old(self)@.insert(id, heard)
                } else {
                    &&& streamed is Ok
                    &&& streamed->Ok_0 is Some
                    &&& streamed->Ok_0->0@ == chunk@
                    &&& final(self)@ == old(self)@.insert(id, heard)
                }
            },
    {
        let mut exchange = match self.take(id) {
            Some(exchange) => H2Exchange { response_bytes_received: true, ..exchange },
            None => return Err(
                Error::protocol(
                    ProtocolErrorKind::UnexpectedEvent,
                    "the response body named an unknown exchange",
                ),
            ),
        };
        let ghost heard = exchange@;
        let streamed = if exchange.abandoned {
            Ok(None)
        } else if exchange.response_mode == ResponseMode::Buffered {
            if exchange.head.is_none() {
                Err(
                    Error::protocol(
                        ProtocolErrorKind::UnexpectedEvent,
                        "the response body preceded its head",
                    ),
                )
            } else {
                exchange.body.extend_from_slice(chunk);
                assert(exchange.body@ =~= heard.body + chunk@);
                Ok(None)
            }
        } else if !exchange.streaming {
            Err(
                Error::protocol(
                    ProtocolErrorKind::UnexpectedEvent,
                    "the streaming response body preceded its head",
                ),
            )
        } else {
            let mut copy: Vec<u8> = Vec::new();
            copy.extend_from_slice(chunk);
            assert(copy@ =~= chunk@);
            Ok(Some(copy))
        };
        self.put(id, exchange);
        streamed
    }

    /// Whether a chunk can be handed to the reader of a response.
    pub fn deliverable(&self, id: u64) -> (deliverable: Result<bool, H2SharedFailure>)
        requires
            self.valid(),
        ensures
            !self@.contains_key(id) ==> {
                &&& deliverable is Err
                &&& out_of_step(
                    ProtocolErrorKind::UnexpectedEvent,
                    "the streaming response body named an unknown exchange"@,
                    deliverable->Err_0,
                )
            },
            self@.contains_key(id) ==> if self@[id].abandoned {
                deliverable == Ok::<bool, H2SharedFailure>(false)
            } else if self@[id].streaming {
                deliverable == Ok::<bool, H2SharedFailure>(true)
            } else {
                &&& deliverable is Err
                &&& out_of_step(
                    ProtocolErrorKind::UnexpectedEvent,
                    "the streaming response body preceded its head"@,
                    deliverable->Err_0,
                )
            },
    {
        match self.map.get(&id) {
            None => Err(
                H2SharedFailure::protocol(
                    ProtocolErrorKind::UnexpectedEvent,
                    "the streaming response body named an unknown exchange",
                ),
            ),
            Some(exchange) => if exchange.abandoned {
                Ok(false)
            } else if exchange.streaming {
                Ok(true)
            } else {
                Err(
                    H2SharedFailure::protocol(
                        ProtocolErrorKind::UnexpectedEvent,
                        "the streaming response body preceded its head",
                    ),
                )
            },
        }
    }

    /// The reader of a response was handed a chunk. One that is gone, or that
    /// did not keep up, gets no more of them.
    pub fn delivered(&mut self, id: u64, delivery: Delivery) -> (action: DeliveryAction)
        requires
            old(self).valid(),
            old(self)@.contains_key(id),
        ensures
            final(self).valid(),
            match delivery {
                Delivery::Taken => {
                    &&& final(self)@ == old(self)@
                    &&& action.yields
                    &&& !action.abandon
                    &&& action.reply is Nothing
                },
                _ => {
                    &&& final(self)@ == old(self)@.insert(
                        id,
                        H2ExchangeView { abandoned: true, streaming: false, ..old(self)@[id] },
                    )
                    &&& !action.yields
                    &&& action.abandon
                    &&& if delivery == Delivery::Full && old(self)@[id].streamed {
                        action.reply matches H2Reply::Terminal(error) && error@
                            == crate::web::message::protocol_fault(
                            ProtocolErrorKind::InvalidState,
                            "the streaming response body outran its consumer and was truncated"@,
                        )
                    } else {
                        action.reply is Nothing
                    }
                },
            },
    {
        if delivery == Delivery::Taken {
            return DeliveryAction { yields: true, abandon: false, reply: H2Reply::Nothing };
        }
        let mut reply = H2Reply::Nothing;
        if let Some(exchange) = self.take(id) {
            if delivery == Delivery::Full && exchange.streamed {
                reply =
                H2Reply::Terminal(
                    Error::protocol(
                        ProtocolErrorKind::InvalidState,
                        "the streaming response body outran its consumer and was truncated",
                    ),
                );
            }
            self.put(id, H2Exchange { abandoned: true, streaming: false, ..exchange });
        }
        DeliveryAction { yields: false, abandon: true, reply }
    }

    /// The trailers of a response arrived. They are kept, or returned for the
    /// reader of the stream.
    pub fn response_trailers(&mut self, id: u64, headers: Headers) -> (streamed: Result<
        Option<Headers>,
        H2SharedFailure,
    >)
        requires
            old(self).valid(),
        ensures
            final(self).valid(),
            !old(self)@.contains_key(id) ==> {
                &&& final(self)@ == old(self)@
                &&& streamed is Err
                &&& out_of_step(
                    ProtocolErrorKind::UnexpectedEvent,
                    "the response trailers named an unknown exchange"@,
                    streamed->Err_0,
                )
            },
            old(self)@.contains_key(id) ==> {
                let heard = old(self)@[id].heard();
                if heard.abandoned {
                    &&& streamed == Ok::<Option<Headers>, H2SharedFailure>(None)
                    &&& final(self)@ == old(self)@.insert(id, heard)
                } else if heard.response_mode == ResponseMode::Buffered {
                    if heard.head is None {
                        &&& streamed is Err
                        &&& out_of_step(
                            ProtocolErrorKind::UnexpectedEvent,
                            "the response trailers preceded its head"@,
                            streamed->Err_0,
                        )
                        &&& final(self)@ == old(self)@.insert(id, heard)
                    } else {
                        &&& final(self)@ == old(self)@.insert(
                            id,
                            H2ExchangeView { trailers: Some(headers@), ..heard },
                        )
                        &&& if heard.trailers is Some {
                            &&& streamed is Err
                            &&& out_of_step(
                                ProtocolErrorKind::UnexpectedEvent,
                                "the response trailers repeated for one exchange"@,
                                streamed->Err_0,
                            )
                        } else {
                            streamed == Ok::<Option<Headers>, H2SharedFailure>(None)
                        }
                    }
                } else {
                    match heard.trailer_slot {
                        TrailerSlot::Absent => {
                            &&& streamed is Err
                            &&& out_of_step(
                                ProtocolErrorKind::UnexpectedEvent,
                                "the streaming response trailers preceded its head"@,
                                streamed->Err_0,
                            )
                            &&& final(self)@ == old(self)@.insert(id, heard)
                        },
                        TrailerSlot::Full => {
                            &&& streamed is Err
                            &&& out_of_step(
                                ProtocolErrorKind::UnexpectedEvent,
                                "the streaming response trailers repeated for one exchange"@,
                                streamed->Err_0,
                            )
                            &&& final(self)@ == old(self)@.insert(id, heard)
                        },
                        TrailerSlot::Empty => {
                            &&& streamed == Ok::<Option<Headers>, H2SharedFailure>(Some(headers))
                            &&& final(self)@ == old(self)@.insert(
                                id,
                                H2ExchangeView { trailer_slot: TrailerSlot::Full, ..heard },
                            )
                        },
                    }
                }
            },
    {
        let exchange = match self.take(id) {
            Some(exchange) => H2Exchange { response_bytes_received: true, ..exchange },
            None => return Err(
                H2SharedFailure::protocol(
                    ProtocolErrorKind::UnexpectedEvent,
                    "the response trailers named an unknown exchange",
                ),
            ),
        };
        let (exchange, streamed) = if exchange.abandoned {
            (exchange, Ok(None))
        } else if exchange.response_mode == ResponseMode::Buffered {
            if exchange.head.is_none() {
                (
                    exchange,
                    Err(
                        H2SharedFailure::protocol(
                            ProtocolErrorKind::UnexpectedEvent,
                            "the response trailers preceded its head",
                        ),
                    ),
                )
            } else {
                let repeated = exchange.trailers.is_some();
                let exchange = H2Exchange { trailers: Some(headers), ..exchange };
                if repeated {
                    (
                        exchange,
                        Err(
                            H2SharedFailure::protocol(
                                ProtocolErrorKind::UnexpectedEvent,
                                "the response trailers repeated for one exchange",
                            ),
                        ),
                    )
                } else {
                    (exchange, Ok(None))
                }
            }
        } else {
            match exchange.trailer_slot {
                TrailerSlot::Absent => (
                    exchange,
                    Err(
                        H2SharedFailure::protocol(
                            ProtocolErrorKind::UnexpectedEvent,
                            "the streaming response trailers preceded its head",
                        ),
                    ),
                ),
                TrailerSlot::Full => (
                    exchange,
                    Err(
                        H2SharedFailure::protocol(
                            ProtocolErrorKind::UnexpectedEvent,
                            "the streaming response trailers repeated for one exchange",
                        ),
                    ),
                ),
                TrailerSlot::Empty => (
                    H2Exchange { trailer_slot: TrailerSlot::Full, ..exchange },
                    Ok(Some(headers)),
                ),
            }
        };
        self.put(id, exchange);
        streamed
    }
}

/// The response that a buffered exchange amounts to. Its trailers can be read at
/// once.
pub open spec fn collected(exchange: H2ExchangeView, version: Version) -> ResponseView {
    ResponseView {
        status: exchange.head->0.status,
        version,
        fields: exchange.head->0.fields,
        body: BodyView::Buffered(exchange.body),
        received: match exchange.trailers {
            Some(fields) => Some(ReceivedView::Complete(fields)),
            None => None,
        },
        outbound: None,
    }
}

/// An exchange without the response that it collected.
pub open spec fn emptied(exchange: H2ExchangeView) -> H2ExchangeView {
    H2ExchangeView { head: None, body: Seq::empty(), trailers: None, ..exchange }
}

impl H2Exchanges {
    /// A response is complete. `retireable` says whether the driver is done with
    /// the exchange; where the request is still being sent it is not, and then
    /// gives the exchange up, as the result says.
    pub fn response_complete(&mut self, id: u64, retireable: bool) -> (abandon: Result<
        bool,
        H2SharedFailure,
    >)
        requires
            old(self).valid(),
        ensures
            final(self).valid(),
            !old(self)@.contains_key(id) ==> {
                &&& final(self)@ == old(self)@
                &&& abandon is Err
                &&& out_of_step(
                    ProtocolErrorKind::UnexpectedEvent,
                    "the response completion named an unknown exchange"@,
                    abandon->Err_0,
                )
            },
            old(self)@.contains_key(id) ==> {
                let heard = old(self)@[id].heard();
                let done = if heard.abandoned {
                    heard
                } else if heard.response_mode == ResponseMode::Streaming {
                    H2ExchangeView { streaming: false, ..heard }
                } else {
                    H2ExchangeView {
                        completed: Some(collected(heard, heard.head->0.version.known()->0)),
                        ..emptied(heard)
                    }
                };
                if !heard.abandoned && heard.response_mode == ResponseMode::Buffered && heard.head
                    is None {
                    &&& abandon is Err
                    &&& out_of_step(
                        ProtocolErrorKind::MalformedMessage,
                        "the response completed without headers"@,
                        abandon->Err_0,
                    )
                    &&& final(self)@ == old(self)@.insert(id, heard)
                } else if !heard.abandoned && heard.response_mode == ResponseMode::Buffered
                    && heard.head->0.version.known() is None {
                    &&& abandon is Err
                    &&& abandon->Err_0@ matches H2FailureView::Protocol(kind, text) && {
                        &&& kind == ProtocolErrorKind::InvalidState
                        &&& crate::web::message::protocol_fault(
                            ProtocolErrorKind::InvalidState,
                            "the connection driver returned an unknown HTTP version"@,
                        ).described_by(text)
                    }
                    &&& final(self)@ == old(self)@.insert(id, emptied(heard))
                } else {
                    &&& abandon == Ok::<bool, H2SharedFailure>(!retireable)
                    &&& final(self)@ == old(self)@.insert(
                        id,
                        H2ExchangeView { abandoned: done.abandoned || !retireable, ..done },
                    )
                }
            },
    {
        let exchange = match self.take(id) {
            Some(exchange) => H2Exchange { response_bytes_received: true, ..exchange },
            None => return Err(
                H2SharedFailure::protocol(
                    ProtocolErrorKind::UnexpectedEvent,
                    "the response completion named an unknown exchange",
                ),
            ),
        };
        let exchange = if exchange.abandoned {
            exchange
        } else if exchange.response_mode == ResponseMode::Streaming {
            H2Exchange { streaming: false, ..exchange }
        } else {
            if exchange.head.is_none() {
                self.put(id, exchange);
                return Err(
                    H2SharedFailure::protocol(
                        ProtocolErrorKind::MalformedMessage,
                        "the response completed without headers",
                    ),
                );
            }
            let H2Exchange {
                request_id,
                response_mode,
                replying,
                request_body,
                head,
                body,
                trailers,
                completed,
                streaming,
                trailer_slot,
                streamed,
                request_bytes_written,
                response_bytes_received,
                abandoned,
            } = exchange;
            let response = finish_response(head, Body::from_inbound(body, trailers));
            let emptied = H2Exchange {
                request_id,
                response_mode,
                replying,
                request_body,
                head: None,
                body: Vec::new(),
                trailers: None,
                completed,
                streaming,
                trailer_slot,
                streamed,
                request_bytes_written,
                response_bytes_received,
                abandoned,
            };
            match response {
                Ok(response) => H2Exchange { completed: Some(response), ..emptied },
                Err(error) => {
                    self.put(id, emptied);
                    return Err(
                        H2SharedFailure::Protocol(
                            ProtocolErrorKind::InvalidState,
                            error.to_text(),
                        ),
                    );
                },
            }
        };
        let abandoned = exchange.abandoned || !retireable;
        self.put(id, H2Exchange { abandoned, ..exchange });
        Ok(!retireable)
    }

    /// A request body failed. Its exchange is told and given up; the driver
    /// gives it up as well, unless it is done with it, as the result says.
    pub fn abandon(&mut self, id: u64, error: Error, retireable: bool) -> (abandoned: Result<
        (H2Reply, bool),
        H2SharedFailure,
    >)
        requires
            old(self).valid(),
        ensures
            final(self).valid(),
            !old(self)@.contains_key(id) ==> {
                &&& final(self)@ == old(self)@
                &&& abandoned is Err
                &&& out_of_step(
                    ProtocolErrorKind::InvalidState,
                    "the failed request body named an unknown exchange"@,
                    abandoned->Err_0,
                )
            },
            old(self)@.contains_key(id) ==> {
                &&& abandoned is Ok
                &&& abandoned->Ok_0.0.reports(old(self)@[id], error@, false, false)
                &&& abandoned->Ok_0.1 == !retireable
                &&& final(self)@ == old(self)@.insert(
                    id,
                    H2ExchangeView { abandoned: true, ..old(self)@[id].told() },
                )
            },
    {
        match self.take(id) {
            None => Err(
                H2SharedFailure::protocol(
                    ProtocolErrorKind::InvalidState,
                    "the failed request body named an unknown exchange",
                ),
            ),
            Some(exchange) => {
                let (exchange, reply) = exchange.send_failure(error, false, false);
                self.put(id, H2Exchange { abandoned: true, ..exchange });
                Ok((reply, !retireable))
            },
        }
    }

    /// The peer reset a stream. The exchange is told; a refused stream was
    /// certainly not processed, so the request may be sent again.
    pub fn peer_reset(&mut self, stream_id: u32, error_code: u32, error: Error) -> (told: Option<
        H2Reply,
    >)
        requires
            old(self).valid(),
        ensures
            final(self).valid(),
            ({
                let id = stream_id as u64;
                let refused = error_code == REFUSED_STREAM;
                if !old(self)@.contains_key(id) {
                    told is None && final(self)@ == old(self)@
                } else {
                    let before = if refused {
                        H2ExchangeView { response_bytes_received: false, ..old(self)@[id] }
                    } else {
                        old(self)@[id]
                    };
                    &&& told is Some
                    &&& told->0.reports(before, error@, false, refused)
                    &&& final(self)@ == old(self)@.insert(id, before.told())
                }
            }),
    {
        let id: u64 = stream_id as u64;
        match self.take(id) {
            None => None,
            Some(exchange) => {
                let refused = error_code == REFUSED_STREAM;
                let exchange = if refused {
                    H2Exchange { response_bytes_received: false, ..exchange }
                } else {
                    exchange
                };
                let (exchange, reply) = exchange.send_failure(error, false, refused);
                self.put(id, exchange);
                Some(reply)
            },
        }
    }

    /// The driver is done with an exchange, which leaves the session. A session
    /// that has nothing to do and may serve more is idle from `now` on.
    pub fn retire(&mut self, id: u64, state: &mut H2SessionState, capacity: usize, now: Instant) -> (retired:
        Result<Retirement, H2SharedFailure>)
        requires
            old(self).valid(),
        ensures
            final(self).valid(),
            !old(self)@.contains_key(id) ==> {
                &&& final(self)@ == old(self)@
                &&& *final(state) == *old(state)
                &&& retired is Err
                &&& out_of_step(
                    ProtocolErrorKind::InvalidState,
                    "the retired exchange was not active"@,
                    retired->Err_0,
                )
            },
            old(self)@.contains_key(id) ==> {
                let exchange = old(self)@[id];
                &&& final(self)@ == old(self)@.remove(id)
                &&& retired is Ok
                &&& *final(state) == retired_state(*old(state), capacity, now)
                &&& retired->Ok_0.became_idle == (final(state).active == 0
                    && final(state).completed < final(state).max_requests)
                &&& match retired->Ok_0.response {
                    Some(response) => exchange.replying && exchange.completed == Some(response@),
                    None => !exchange.replying || exchange.completed is None,
                }
            },
    {
        match self.take(id) {
            None => Err(
                H2SharedFailure::protocol(
                    ProtocolErrorKind::InvalidState,
                    "the retired exchange was not active",
                ),
            ),
            Some(exchange) => {
                state.active = state.active.saturating_sub(1);
                state.completed = state.completed.saturating_add(1);
                state.capacity = capacity;
                let became_idle = state.active == 0 && state.completed < state.max_requests;
                if became_idle {
                    state.idle_since = Some(now);
                }
                let response = if exchange.replying {
                    exchange.completed
                } else {
                    None
                };
                Ok(Retirement { became_idle, response })
            },
        }
    }

    /// What every request body offers, each once, in no order. The driver is
    /// told of all of them before any is written, so that it can serve them in
    /// turn.
    pub fn body_offers(&self) -> (offers: Vec<BodyOffer>)
        requires
            self.valid(),
        ensures
            offers@.map_values(|offer: BodyOffer| offer.exchange_id).to_set() == self@.dom(),
            offers@.map_values(|offer: BodyOffer| offer.exchange_id).no_duplicates(),
            forall|i: int|
                #![trigger offers@[i]]
                0 <= i < offers@.len() ==> {
                    let exchange = self@[offers@[i].exchange_id];
                    match offers@[i].available {
                        Some(len) => exchange.writable() && exchange.request_body.offer()->0.len()
                            == len,
                        None => !exchange.writable(),
                    }
                },
    {
        let ids = self.ids();
        let mut offers: Vec<BodyOffer> = Vec::new();
        let mut index: usize = 0;
        while index < ids.len()
            invariant
                self.valid(),
                index <= ids@.len(),
                ids@.to_set() == self@.dom(),
                offers@.len() == index,
                forall|i: int|
                    #![trigger offers@[i]]
                    0 <= i < index ==> {
                        let exchange = self@[offers@[i].exchange_id];
                        &&& offers@[i].exchange_id == ids@[i]
                        &&& match offers@[i].available {
                            Some(len) => exchange.writable()
                                && exchange.request_body.offer()->0.len() == len,
                            None => !exchange.writable(),
                        }
                    },
            decreases ids@.len() - index,
        {
            let id: u64 = ids[index];
            assert(ids@.to_set().contains(id));
            let available: Option<usize> = match self.body_bytes(id) {
                Some(bytes) => Some(bytes.len()),
                None => None,
            };
            offers.push(BodyOffer { exchange_id: id, available });
            index = index + 1;
        }
        assert(offers@.map_values(|offer: BodyOffer| offer.exchange_id) =~= ids@);
        offers
    }

    /// The bytes that a request body offers.
    pub fn body_bytes(&self, id: u64) -> (bytes: Option<&[u8]>)
        requires
            self.valid(),
        ensures
            match bytes {
                Some(bytes) => self@.contains_key(id) && self@[id].writable()
                    && self@[id].request_body.offer() == Some(bytes@),
                None => !self@.contains_key(id) || !self@[id].writable(),
            },
    {
        match self.map.get(&id) {
            None => None,
            Some(exchange) => if exchange.abandoned {
                None
            } else {
                exchange.request_body.available()
            },
        }
    }

    /// Part of a request body was written.
    pub fn commit_body(&mut self, id: u64, payload_len: usize)
        requires
            old(self).valid(),
            old(self)@.contains_key(id),
            old(self)@[id].request_body.may_commit(payload_len as int),
        ensures
            final(self).valid(),
            final(self)@ == old(self)@.insert(
                id,
                H2ExchangeView {
                    request_body: old(self)@[id].request_body.committed(payload_len as int),
                    ..old(self)@[id]
                },
            ),
    {
        if let Some(exchange) = self.take(id) {
            let H2Exchange {
                request_id,
                response_mode,
                replying,
                request_body,
                head,
                body,
                trailers,
                completed,
                streaming,
                trailer_slot,
                streamed,
                request_bytes_written,
                response_bytes_received,
                abandoned,
            } = exchange;
            self.put(
                id,
                H2Exchange {
                    request_id,
                    response_mode,
                    replying,
                    request_body: request_body.commit(payload_len),
                    head,
                    body,
                    trailers,
                    completed,
                    streaming,
                    trailer_slot,
                    streamed,
                    request_bytes_written,
                    response_bytes_received,
                    abandoned,
                },
            );
        }
    }

    /// The source of a streamed request body.
    pub fn body_source(&self, id: u64) -> (source: Option<u64>)
        ensures
            source == if self@.contains_key(id) {
                self@[id].request_body.source()
            } else {
                None
            },
    {
        match self.map.get(&id) {
            None => None,
            Some(exchange) => exchange.request_body.source(),
        }
    }

    /// Whether a request body waits for its source.
    pub fn needs_chunk(&self, id: u64) -> (needs: bool)
        requires
            self.valid(),
        ensures
            needs == (self@.contains_key(id) && self@[id].wants_chunk()),
    {
        match self.map.get(&id) {
            None => false,
            Some(exchange) => !exchange.abandoned && exchange.request_body.needs_chunk(),
        }
    }

    /// The source of a request body answered: whether it can go on, or its
    /// failure.
    pub fn poll_body(&mut self, id: u64, answer: SourcePoll) -> (ready: Result<bool, Error>)
        requires
            old(self).valid(),
            old(self)@.contains_key(id),
            old(self)@[id].wants_chunk(),
            answer.is_fair(),
        ensures
            final(self).valid(),
            final(self)@ == old(self)@.insert(
                id,
                H2ExchangeView {
                    request_body: old(self)@[id].request_body.polled(answer),
                    ..old(self)@[id]
                },
            ),
            match answer {
                SourcePoll::Failed(message) => ready is Err && ready->Err_0@
                    == ErrorView::BodyStream(message@),
                SourcePoll::Pending => ready == Ok::<bool, Error>(false),
                _ => ready == Ok::<bool, Error>(true),
            },
    {
        match self.take(id) {
            None => Ok(false),
            Some(exchange) => {
                let H2Exchange {
                    request_id,
                    response_mode,
                    replying,
                    request_body,
                    head,
                    body,
                    trailers,
                    completed,
                    streaming,
                    trailer_slot,
                    streamed,
                    request_bytes_written,
                    response_bytes_received,
                    abandoned,
                } = exchange;
                let (request_body, poll) = request_body.poll_chunk(answer);
                self.put(
                    id,
                    H2Exchange {
                        request_id,
                        response_mode,
                        replying,
                        request_body,
                        head,
                        body,
                        trailers,
                        completed,
                        streaming,
                        trailer_slot,
                        streamed,
                        request_bytes_written,
                        response_bytes_received,
                        abandoned,
                    },
                );
                match poll {
                    BodyPoll::Ready => Ok(true),
                    BodyPoll::Pending => Ok(false),
                    BodyPoll::Failed(message) => Err(Error::BodyStream { message }),
                }
            },
        }
    }
}

/// The next request body that offers bytes, from a position on.
pub fn next_offer(offers: &Vec<BodyOffer>, start: usize) -> (found: Option<usize>)
    requires
        start <= offers@.len(),
    ensures
        match found {
            Some(position) => {
                &&& start <= position < offers@.len()
                &&& offers@[position as int].available is Some
                &&& forall|i: int|
                    start <= i < position ==> (#[trigger] offers@[i]).available is None
            },
            None => forall|i: int|
                start <= i < offers@.len() ==> (#[trigger] offers@[i]).available is None,
        },
{
    let mut position: usize = start;
    while position < offers.len()
        invariant
            start <= position <= offers@.len(),
            forall|i: int| start <= i < position ==> (#[trigger] offers@[i]).available is None,
        decreases offers@.len() - position,
    {
        if offers[position].available.is_some() {
            return Some(position);
        }
        position = position + 1;
    }
    None
}

/// A session after one of its exchanges ended.
pub open spec fn retired_state(state: H2SessionState, capacity: usize, now: Instant) -> H2SessionState {
    let active = if state.active > 0 {
        (state.active - 1) as usize
    } else {
        0usize
    };
    let completed = crate::web::pool::saturated_sum(state.completed, 1usize) as usize;
    H2SessionState {
        active,
        completed,
        capacity,
        idle_since: if active == 0 && completed < state.max_requests {
            Some(now)
        } else {
            state.idle_since
        },
        ..state
    }
}

/// An exchange and what its caller is told.
#[derive(Debug)]
pub struct H2Farewell {
    /// The exchange.
    pub exchange_id: u64,
    /// What its caller is told.
    pub reply: H2Reply,
}

impl H2Exchanges {
    /// Ends every exchange of a session that ended, and tells the callers. The
    /// session takes no more requests, and what its exchanges held of it is
    /// free.
    pub fn finish(self, termination: &H2PumpTermination, state: &mut H2SessionState) -> (farewells:
        Vec<H2Farewell>)
        requires
            self.valid(),
        ensures
            farewells@.map_values(|farewell: H2Farewell| farewell.exchange_id).to_set()
                == self@.dom(),
            farewells@.map_values(
                |farewell: H2Farewell| farewell.exchange_id,
            ).no_duplicates(),
            forall|i: int|
                #![trigger farewells@[i]]
                0 <= i < farewells@.len() ==> {
                    let failure = termination.running_failure();
                    farewells@[i].reply.reports(
                        self@[farewells@[i].exchange_id],
                        failure.error(),
                        failure.connection_failed(),
                        failure.left_unprocessed(farewells@[i].exchange_id),
                    )
                },
            *final(state) == (H2SessionState {
                usable: false,
                active: if old(state).active > self@.dom().len() {
                    (old(state).active - self@.dom().len()) as usize
                } else {
                    0
                },
                ..*old(state)
            }),
    {
        let failure = termination.active_failure();
        let count: usize = self.len();
        state.usable = false;
        state.active = state.active.saturating_sub(count);
        let ids = self.ids();
        let mut left = self;
        let mut farewells: Vec<H2Farewell> = Vec::new();
        let mut index: usize = 0;
        while index < ids.len()
            invariant
                self.valid(),
                left.valid(),
                index <= ids@.len(),
                ids@.to_set() == self@.dom(),
                ids@.no_duplicates(),
                failure@ == termination.running_failure(),
                farewells@.len() == index,
                forall|i: int|
                    index <= i < ids@.len() ==> left@.contains_key(#[trigger] ids@[i])
                        && left@[ids@[i]] == self@[ids@[i]],
                forall|i: int|
                    #![trigger farewells@[i]]
                    0 <= i < index ==> {
                        let failure = termination.running_failure();
                        &&& farewells@[i].exchange_id == ids@[i]
                        &&& farewells@[i].reply.reports(
                            self@[farewells@[i].exchange_id],
                            failure.error(),
                            failure.connection_failed(),
                            failure.left_unprocessed(farewells@[i].exchange_id),
                        )
                    },
            decreases ids@.len() - index,
        {
            let id: u64 = ids[index];
            assert(left@.contains_key(ids@[index as int]));
            let reply = match left.take(id) {
                Some(exchange) => {
                    let (_, reply) = exchange.send_failure(
                        failure.error(),
                        failure.is_connection_failure(),
                        failure.guarantees_unprocessed(id),
                    );
                    reply
                },
                None => H2Reply::Nothing,
            };
            farewells.push(H2Farewell { exchange_id: id, reply });
            index = index + 1;
        }
        assert(farewells@.map_values(|farewell: H2Farewell| farewell.exchange_id) =~= ids@);
        farewells
    }
}

/// What the caller of a request that was still queued is told when its session
/// ends.
#[derive(Debug)]
pub enum QueuedReply {
    /// The request failed.
    Failure(SendFailure),
    /// The request goes back, and may go elsewhere.
    Rejected,
}

/// What the caller of a queued request is told when the session ended: a session
/// that never started reports why, one that did start hands the request back.
/// The reservation goes back to the session.
pub fn queued_reply(termination: &H2PumpTermination, state: &mut H2SessionState) -> (reply:
    QueuedReply)
    ensures
        *final(state) == old(state).released(),
        match termination {
            H2PumpTermination::BeforeStart(shared) => reply matches QueuedReply::Failure(failure)
                && {
                &&& failure.error@ == shared@.error()
                &&& !failure.response_bytes_received
                &&& !failure.request_bytes_written
                &&& failure.connection_failure == shared@.connection_failed()
                &&& !failure.guaranteed_unprocessed
            },
            _ => reply is Rejected,
        },
{
    state.release_unstarted();
    match termination.queued_failure() {
        Some(failure) => QueuedReply::Failure(
            SendFailure {
                error: failure.error(),
                response_bytes_received: false,
                request_bytes_written: false,
                connection_failure: failure.is_connection_failure(),
                guaranteed_unprocessed: false,
            },
        ),
        None => QueuedReply::Rejected,
    }
}

/// When a session ends, whoever waits for one of its exchanges is told.
pub proof fn nobody_waits_for_an_ended_session(
    exchange: H2ExchangeView,
    reply: H2Reply,
    error: ErrorView,
    connection_failure: bool,
    guaranteed_unprocessed: bool,
)
    requires
        reply.reports(exchange, error, connection_failure, guaranteed_unprocessed),
        exchange.replying || exchange.streamed,
    ensures
        !(reply is Nothing),
{
}

/// A caller is told of a failure once: the second telling reaches nobody who
/// waits for a reply.
pub proof fn failures_are_told_once(
    exchange: H2ExchangeView,
    reply: H2Reply,
    error: ErrorView,
    connection_failure: bool,
    guaranteed_unprocessed: bool,
)
    requires
        !exchange.streamed,
        reply.reports(exchange.told(), error, connection_failure, guaranteed_unprocessed),
    ensures
        reply is Nothing,
{
}

/// A refused request may be sent again whatever its method, as long as its
/// caller waits for a reply.
pub proof fn refused_requests_may_be_repeated(
    exchange: H2ExchangeView,
    reply: H2Reply,
    error: ErrorView,
    method: Seq<char>,
)
    requires
        exchange.replying,
        !exchange.streamed,
        reply.reports(
            H2ExchangeView { response_bytes_received: false, ..exchange },
            error,
            false,
            true,
        ),
    ensures
        reply matches H2Reply::Failure(failure) && failure.retryable(method),
{
}

/// Once part of a response arrived for an exchange, nothing but a refusal of
/// the stream lets its request be sent again.
pub proof fn answered_exchanges_are_not_repeated(
    exchange: H2ExchangeView,
    reply: H2Reply,
    error: ErrorView,
    connection_failure: bool,
    guaranteed_unprocessed: bool,
    method: Seq<char>,
)
    requires
        exchange.response_bytes_received,
        reply.reports(exchange, error, connection_failure, guaranteed_unprocessed),
    ensures
        reply matches H2Reply::Failure(failure) ==> !failure.retryable(method),
{
}

/// The response of a buffered exchange is what was received for it: the status
/// and the fields of its head, the version that the head names, the parts of its
/// body in the order in which they arrived, and its trailers. The caller gets it
/// when the exchange is retired.
pub proof fn callers_get_the_received_response(
    heading: &mut H2Exchanges,
    first: &mut H2Exchanges,
    second: &mut H2Exchanges,
    trailing: &mut H2Exchanges,
    ending: &mut H2Exchanges,
    retiring: &mut H2Exchanges,
    id: u64,
    head: ReceivedResponseHead,
    chunks: (&[u8], &[u8]),
    trailers: Headers,
    state: &mut H2SessionState,
    capacity: usize,
    now: Instant,
    action: Result<HeadAction, H2SharedFailure>,
    kept: (Result<Option<Vec<u8>>, Error>, Result<Option<Vec<u8>>, Error>),
    streamed: Result<Option<Headers>, H2SharedFailure>,
    abandon: Result<bool, H2SharedFailure>,
    retired: Result<Retirement, H2SharedFailure>,
)
    requires
        old(heading)@.contains_key(id),
        old(heading)@[id].response_mode == ResponseMode::Buffered,
        old(heading)@[id].replying,
        !old(heading)@[id].abandoned,
        !old(heading)@[id].streaming,
        old(heading)@[id].head is None,
        old(heading)@[id].body.len() == 0,
        old(heading)@[id].trailers is None,
        head.version !is Unknown,
        call_ensures(H2Exchanges::response_head, (heading, id, head), action),
        *old(first) == *final(heading),
        call_ensures(H2Exchanges::prepare_response_body, (first, id, chunks.0), kept.0),
        *old(second) == *final(first),
        call_ensures(H2Exchanges::prepare_response_body, (second, id, chunks.1), kept.1),
        *old(trailing) == *final(second),
        call_ensures(H2Exchanges::response_trailers, (trailing, id, trailers), streamed),
        *old(ending) == *final(trailing),
        call_ensures(H2Exchanges::response_complete, (ending, id, true), abandon),
        *old(retiring) == *final(ending),
        call_ensures(H2Exchanges::retire, (retiring, id, state, capacity, now), retired),
    ensures
        action matches Ok(HeadAction::Nothing),
        kept.0 == Ok::<Option<Vec<u8>>, Error>(None),
        kept.1 == Ok::<Option<Vec<u8>>, Error>(None),
        streamed == Ok::<Option<Headers>, H2SharedFailure>(None),
        abandon == Ok::<bool, H2SharedFailure>(false),
        retired matches Ok(retirement) && (retirement.response matches Some(response) && {
            &&& response.status == head.status
            &&& response.headers@ == head.headers@
            &&& head.version is Http10 ==> response.version == Version::Http10
            &&& head.version is Http11 ==> response.version == Version::Http11
            &&& head.version is Http2 ==> response.version == Version::Http2
            &&& response.body@ == BodyView::Buffered(chunks.0@ + chunks.1@)
            &&& response.body.inbound() == Some(ReceivedView::Complete(trailers@))
            &&& response.body.outbound() is None
        }),
        !final(retiring)@.contains_key(id),
{
    let before = old(heading)@[id];
    assert(before.body + chunks.0@ + chunks.1@ =~= chunks.0@ + chunks.1@);
}

/// The response that a buffered exchange completes with has exactly the fields
/// and the status of the head that was received for it, and the body that was
/// gathered, whatever else was received.
pub proof fn completed_responses_keep_their_fields(
    exchanges: &mut H2Exchanges,
    id: u64,
    retireable: bool,
    abandon: Result<bool, H2SharedFailure>,
)
    requires
        old(exchanges)@.contains_key(id),
        !old(exchanges)@[id].abandoned,
        old(exchanges)@[id].response_mode == ResponseMode::Buffered,
        old(exchanges)@[id].head is Some,
        old(exchanges)@[id].head->0.version !is Unknown,
        call_ensures(H2Exchanges::response_complete, (exchanges, id, retireable), abandon),
    ensures
        abandon == Ok::<bool, H2SharedFailure>(!retireable),
        final(exchanges)@.contains_key(id),
        final(exchanges)@[id].completed matches Some(response) && {
            &&& response.fields == old(exchanges)@[id].head->0.fields
            &&& response.status == old(exchanges)@[id].head->0.status
            &&& response.body == BodyView::Buffered(old(exchanges)@[id].body)
            &&& old(exchanges)@[id].trailers matches Some(fields) ==> response.received == Some(
                ReceivedView::Complete(fields),
            )
            &&& old(exchanges)@[id].trailers is None ==> response.received is None
        },
        final(exchanges)@[id].abandoned == !retireable,
        final(exchanges)@[id].replying == old(exchanges)@[id].replying,
        final(exchanges)@[id].request_id == old(exchanges)@[id].request_id,
        forall|other: u64|
            other != id ==> #[trigger] final(exchanges)@.contains_key(other) == old(exchanges)@.contains_key(other) && (old(exchanges)@.contains_key(other)
                ==> final(exchanges)@[other] == old(exchanges)@[other]),
{
}

/// The parts of a response body are kept in the order in which they arrive.
pub proof fn response_bodies_are_gathered_in_order(
    first: &mut H2Exchanges,
    second: &mut H2Exchanges,
    id: u64,
    chunks: (&[u8], &[u8]),
    kept: (Result<Option<Vec<u8>>, Error>, Result<Option<Vec<u8>>, Error>),
)
    requires
        old(first)@.contains_key(id),
        !old(first)@[id].abandoned,
        old(first)@[id].response_mode == ResponseMode::Buffered,
        old(first)@[id].head is Some,
        call_ensures(H2Exchanges::prepare_response_body, (first, id, chunks.0), kept.0),
        *old(second) == *final(first),
        call_ensures(H2Exchanges::prepare_response_body, (second, id, chunks.1), kept.1),
    ensures
        kept.0 == Ok::<Option<Vec<u8>>, Error>(None),
        kept.1 == Ok::<Option<Vec<u8>>, Error>(None),
        final(second)@[id].body == old(first)@[id].body + chunks.0@ + chunks.1@,
        final(second)@[id].head == old(first)@[id].head,
        final(second)@[id].trailers == old(first)@[id].trailers,
        final(second)@[id].response_bytes_received,
        forall|other: u64|
            other != id ==> #[trigger] final(second)@.contains_key(other) == old(first)@.contains_key(other) && (old(first)@.contains_key(other) ==> final(second)@[other]
                == old(first)@[other]),
{
}

/// A streamed response is offered with its received head, and each part of its
/// body then goes to the reader as it arrived.
pub proof fn readers_get_the_received_parts(
    heading: &mut H2Exchanges,
    offering: &mut H2Exchanges,
    filling: &mut H2Exchanges,
    delivering: &mut H2Exchanges,
    trailing: &mut H2Exchanges,
    id: u64,
    head: ReceivedResponseHead,
    chunk: &[u8],
    trailers: Headers,
    action: Result<HeadAction, H2SharedFailure>,
    streamed: Result<Option<Vec<u8>>, Error>,
    deliverable: Result<bool, H2SharedFailure>,
    delivered: DeliveryAction,
    kept: Result<Option<Headers>, H2SharedFailure>,
)
    requires
        old(heading)@.contains_key(id),
        old(heading)@[id].response_mode == ResponseMode::Streaming,
        old(heading)@[id].replying,
        !old(heading)@[id].abandoned,
        !old(heading)@[id].streaming,
        old(heading)@[id].head is None,
        call_ensures(H2Exchanges::response_head, (heading, id, head), action),
        *old(offering) == *final(heading),
        call_ensures(H2Exchanges::stream_offered, (offering, id, true), ()),
        *old(filling) == *final(offering),
        call_ensures(H2Exchanges::prepare_response_body, (filling, id, chunk), streamed),
        call_ensures(H2Exchanges::deliverable, (final(filling), id), deliverable),
        *old(delivering) == *final(filling),
        call_ensures(H2Exchanges::delivered, (delivering, id, Delivery::Taken), delivered),
        *old(trailing) == *final(delivering),
        call_ensures(H2Exchanges::response_trailers, (trailing, id, trailers), kept),
    ensures
        action == Ok::<HeadAction, H2SharedFailure>(HeadAction::Offer(head)),
        streamed matches Ok(Some(bytes)) && bytes@ == chunk@,
        deliverable == Ok::<bool, H2SharedFailure>(true),
        delivered.yields && !delivered.abandon && delivered.reply is Nothing,
        kept == Ok::<Option<Headers>, H2SharedFailure>(Some(trailers)),
        final(heading)@[id].replying == false,
        final(trailing)@[id].streamed,
        final(trailing)@[id].trailer_slot == TrailerSlot::Full,
{
}

/// A reader that is gone or did not keep up gets no more of its response, and
/// the driver gives the exchange up; one that did not keep up is told.
pub proof fn slow_readers_are_cut_off(
    exchanges: &mut H2Exchanges,
    id: u64,
    full: bool,
    action: DeliveryAction,
    deliverable: Result<bool, H2SharedFailure>,
)
    requires
        old(exchanges)@.contains_key(id),
        old(exchanges)@[id].streamed,
        call_ensures(
            H2Exchanges::delivered,
            (exchanges, id, if full {
                Delivery::Full
            } else {
                Delivery::Closed
            }),
            action,
        ),
        call_ensures(H2Exchanges::deliverable, (final(exchanges), id), deliverable),
    ensures
        action.abandon && !action.yields,
        action.reply is Nothing <==> !full,
        full ==> action.reply is Terminal,
        deliverable == Ok::<bool, H2SharedFailure>(false),
        final(exchanges)@[id].abandoned && !final(exchanges)@[id].streaming,
        forall|other: u64|
            other != id ==> #[trigger] final(exchanges)@.contains_key(other) == old(exchanges)@.contains_key(other),
{
}

/// A request that the driver took is an exchange under the number that the driver
/// gave it, with the body of the request to be sent and nothing received yet. Of
/// one that the driver refused nothing stays but the room that it had reserved.
pub proof fn submitted_requests_are_exchanges(
    exchanges: &mut H2Exchanges,
    request_id: u64,
    mode: ResponseMode,
    body: Body,
    id: u64,
    state: &mut H2SessionState,
    submitted: Result<(), (H2Reply, H2SharedFailure)>,
    bytes: Option<&[u8]>,
)
    requires
        !old(exchanges)@.contains_key(id),
        call_ensures(
            H2Exchanges::submit,
            (exchanges, request_id, mode, body, Ok(id), state),
            submitted,
        ),
        call_ensures(H2Exchanges::body_bytes, (final(exchanges), id), bytes),
    ensures
        submitted is Ok,
        *final(state) == *old(state),
        final(exchanges)@.dom() == old(exchanges)@.dom().insert(id),
        final(exchanges)@[id].request_id == request_id,
        final(exchanges)@[id].response_mode == mode,
        final(exchanges)@[id].replying,
        !final(exchanges)@[id].abandoned,
        !final(exchanges)@[id].streaming && !final(exchanges)@[id].streamed,
        !final(exchanges)@[id].request_bytes_written,
        !final(exchanges)@[id].response_bytes_received,
        final(exchanges)@[id].head is None && final(exchanges)@[id].completed is None,
        final(exchanges)@[id].trailers is None && final(exchanges)@[id].body.len() == 0,
        body@ matches BodyView::Buffered(whole) ==> (whole.len() > 0 ==> (bytes matches Some(bytes)
            && bytes@ == whole)),
        body@ matches BodyView::Streaming(source) ==> final(exchanges)@[id].request_body.source()
            == Some(source),
{
    assert(final(exchanges)@.dom() =~= old(exchanges)@.dom().insert(id));
}

/// A request that the driver refuses fails with what the driver said, as one of
/// which nothing was sent, and its room goes back to the session.
pub proof fn refused_submissions_are_reported(
    exchanges: &mut H2Exchanges,
    request_id: u64,
    mode: ResponseMode,
    body: Body,
    fault: DriverError,
    state: &mut H2SessionState,
    submitted: Result<(), (H2Reply, H2SharedFailure)>,
)
    requires
        call_ensures(
            H2Exchanges::submit,
            (exchanges, request_id, mode, body, Err(fault), state),
            submitted,
        ),
    ensures
        final(exchanges)@ == old(exchanges)@,
        old(state).active > 0 ==> final(state).active + 1 == old(state).active,
        final(state).completed == old(state).completed,
        submitted matches Err((H2Reply::Failure(failure), shared)) && {
            &&& failure.error@ == fault.classified().reported()
            &&& !failure.request_bytes_written && !failure.response_bytes_received
            &&& !failure.connection_failure
            &&& shared@ == H2FailureView::Driver(fault)
        },
{
}

/// A full session gives a request back as it came, with its reservation; one
/// with room takes it.
pub proof fn full_sessions_give_requests_back(
    exchanges: &H2Exchanges,
    request: Request,
    state: &mut H2SessionState,
    max_active: usize,
    admission: Admission,
    other: &mut H2SessionState,
    refused: bool,
)
    requires
        call_ensures(H2Exchanges::decide_on, (exchanges, request, state, max_active), admission),
        call_ensures(H2Exchanges::refuse, (exchanges, other, max_active), refused),
    ensures
        exchanges@.dom().len() < max_active ==> admission == Admission::Admitted(request)
            && *final(state) == *old(state) && !refused && *final(other) == *old(other),
        exchanges@.dom().len() >= max_active ==> admission == Admission::Rejected(request)
            && refused && (old(state).active > 0 ==> final(state).active + 1 == old(state).active)
            && (old(other).active > 0 ==> final(other).active + 1 == old(other).active),
{
}

/// A caller that gives its request up is not answered any more, and nobody else
/// is affected.
pub proof fn canceled_callers_are_not_answered(
    exchanges: &mut H2Exchanges,
    request_id: u64,
    canceled: Option<u64>,
)
    requires
        call_ensures(H2Exchanges::cancel, (exchanges, request_id), canceled),
    ensures
        canceled matches Some(id) ==> {
            &&& old(exchanges)@.contains_key(id)
            &&& old(exchanges)@[id].request_id == request_id
            &&& final(exchanges)@[id].abandoned
            &&& !final(exchanges)@[id].replying
            &&& !final(exchanges)@[id].streaming
            &&& forall|other: u64|
                other != id && #[trigger] old(exchanges)@.contains_key(other)
                    ==> final(exchanges)@.contains_key(other) && final(exchanges)@[other] == old(exchanges)@[other]
        },
        canceled is None ==> final(exchanges)@ == old(exchanges)@ && forall|id: u64| #[trigger]
            old(exchanges)@.contains_key(id) ==> old(exchanges)@[id].request_id != request_id,
{
}

/// What was written and what came in for an exchange is remembered, and never
/// forgotten again by these.
pub proof fn traffic_is_remembered(
    writing: &mut H2Exchanges,
    reading: &mut H2Exchanges,
    id: u64,
    wrote: bool,
)
    requires
        old(writing)@.contains_key(id),
        call_ensures(H2Exchanges::note_written, (writing, id, wrote), ()),
        *old(reading) == *final(writing),
        call_ensures(H2Exchanges::note_input, (reading, id), ()),
    ensures
        final(reading)@[id].request_bytes_written == (old(writing)@[id].request_bytes_written
            || wrote),
        final(reading)@[id].response_bytes_received,
        final(reading)@[id].body == old(writing)@[id].body,
        final(reading)@[id].head == old(writing)@[id].head,
        final(reading)@[id].replying == old(writing)@[id].replying,
        final(reading)@[id].request_body == old(writing)@[id].request_body,
{
}

/// A failed exchange is reported to whoever is there: the reader of its stream
/// finds the error at the end, else the caller gets a failure that says what was
/// sent and received, and after that nobody is told again.
pub proof fn failures_reach_whoever_is_there(
    exchange: H2Exchange,
    error: Error,
    flags: (bool, bool),
    told: (H2Exchange, H2Reply),
)
    requires
        call_ensures(H2Exchange::send_failure, (exchange, error, flags.0, flags.1), told),
    ensures
        exchange@.streamed ==> (told.1 matches H2Reply::Terminal(found) && found@ == error@)
            && !told.0@.streaming,
        !exchange@.streamed && exchange@.replying ==> (told.1 matches H2Reply::Failure(failure) && {
            &&& failure.error@ == error@
            &&& failure.response_bytes_received == exchange@.response_bytes_received
            &&& failure.request_bytes_written == exchange@.request_bytes_written
            &&& failure.connection_failure == flags.0
            &&& failure.guaranteed_unprocessed == flags.1
        }) && !told.0@.replying,
        !exchange@.streamed && !exchange@.replying ==> told.1 is Nothing,
        told.0@.request_id == exchange@.request_id,
        told.0@.body == exchange@.body && told.0@.head == exchange@.head,
{
}

/// A stream that the peer reset fails its own exchange. Only a refusal says that
/// the request was certainly not processed.
pub proof fn resets_fail_their_own_exchange(
    exchanges: &mut H2Exchanges,
    stream_id: u32,
    error_code: u32,
    error: Error,
    told: Option<H2Reply>,
)
    requires
        old(exchanges)@.contains_key(stream_id as u64),
        old(exchanges)@[stream_id as u64].replying,
        !old(exchanges)@[stream_id as u64].streamed,
        call_ensures(H2Exchanges::peer_reset, (exchanges, stream_id, error_code, error), told),
    ensures
        told matches Some(H2Reply::Failure(failure)) && {
            &&& failure.error@ == error@
            &&& failure.guaranteed_unprocessed == (error_code == 7)
            &&& !failure.connection_failure
            &&& failure.response_bytes_received == (error_code != 7 && old(exchanges)@[stream_id as u64].response_bytes_received)
        },
        !final(exchanges)@[stream_id as u64].replying,
        forall|other: u64|
            other != stream_id as u64 && #[trigger] old(exchanges)@.contains_key(other)
                ==> final(exchanges)@[other] == old(exchanges)@[other],
{
}

/// A request body that failed ends its exchange alone, and its caller is told
/// the error.
pub proof fn failed_bodies_end_their_exchange(
    exchanges: &mut H2Exchanges,
    id: u64,
    error: Error,
    retireable: bool,
    abandoned: Result<(H2Reply, bool), H2SharedFailure>,
)
    requires
        old(exchanges)@.contains_key(id),
        call_ensures(H2Exchanges::abandon, (exchanges, id, error, retireable), abandoned),
    ensures
        abandoned matches Ok((reply, gives_up)) && {
            &&& gives_up == !retireable
            &&& old(exchanges)@[id].replying && !old(exchanges)@[id].streamed ==> (
            reply matches H2Reply::Failure(failure) && failure.error@ == error@
                && !failure.connection_failure && !failure.guaranteed_unprocessed)
            &&& old(exchanges)@[id].streamed ==> (reply matches H2Reply::Terminal(found)
                && found@ == error@)
        },
        final(exchanges)@[id].abandoned,
{
}

/// An exchange that ends leaves room for another and counts as served. The
/// session is idle from then on exactly when nothing runs on it and it may serve
/// more; the caller gets the response if it still waits for one.
pub proof fn ended_exchanges_make_room(
    exchanges: &mut H2Exchanges,
    id: u64,
    state: &mut H2SessionState,
    capacity: usize,
    now: Instant,
    retired: Result<Retirement, H2SharedFailure>,
)
    requires
        old(exchanges)@.contains_key(id),
        0 < old(state).active,
        old(state).completed < usize::MAX,
        call_ensures(H2Exchanges::retire, (exchanges, id, state, capacity, now), retired),
    ensures
        final(exchanges)@ == old(exchanges)@.remove(id),
        final(state).active + 1 == old(state).active,
        final(state).completed == old(state).completed + 1,
        final(state).capacity == capacity,
        final(state).usable == old(state).usable,
        final(state).max_requests == old(state).max_requests,
        final(state).next_request_id == old(state).next_request_id,
        retired matches Ok(retirement) && {
            &&& retirement.became_idle == (old(state).active == 1 && old(state).completed + 1 < old(state).max_requests)
            &&& retirement.became_idle ==> final(state).idle_since == Some(now)
            &&& !retirement.became_idle ==> final(state).idle_since == old(state).idle_since
            &&& retirement.response is Some <==> old(exchanges)@[id].replying && old(exchanges)@[id].completed is Some
            &&& retirement.response matches Some(response) ==> old(exchanges)@[id].completed
                == Some(response@)
        },
{
}

/// What a request body offers is what was not written of it yet.
pub proof fn request_bodies_are_sent_in_order(
    exchanges: &mut H2Exchanges,
    id: u64,
    offered: Option<&[u8]>,
    count: usize,
    left: Option<&[u8]>,
)
    requires
        old(exchanges)@.contains_key(id),
        !old(exchanges)@[id].abandoned,
        old(exchanges)@[id].request_body is Buffered,
        call_ensures(H2Exchanges::body_bytes, (old(exchanges), id), offered),
        offered is Some,
        0 < count < offered->0@.len(),
        call_ensures(H2Exchanges::commit_body, (exchanges, id, count), ()),
        call_ensures(H2Exchanges::body_bytes, (final(exchanges), id), left),
    ensures
        left matches Some(left) && left@ == offered->0@.skip(count as int),
{
}

/// When a session ends it takes no more requests, every exchange is told once,
/// and what was queued goes back or fails with the reason.
pub proof fn ended_sessions_tell_everybody(
    exchanges: H2Exchanges,
    termination: &H2PumpTermination,
    state: &mut H2SessionState,
    farewells: Vec<H2Farewell>,
    waiting: &mut H2SessionState,
    reply: QueuedReply,
)
    requires
        exchanges@.dom().finite(),
        call_ensures(H2Exchanges::finish, (exchanges, termination, state), farewells),
        call_ensures(queued_reply, (termination, waiting), reply),
    ensures
        !final(state).usable,
        old(state).active >= exchanges@.dom().len() ==> final(state).active + exchanges@.dom().len()
            == old(state).active,
        final(state).completed == old(state).completed,
        forall|i: int|
            0 <= i < farewells@.len() ==> exchanges@.contains_key(
                (#[trigger] farewells@[i]).exchange_id,
            ),
        forall|i: int|
            0 <= i < farewells@.len() && (exchanges@[(
            #[trigger] farewells@[i]).exchange_id].replying
                || exchanges@[farewells@[i].exchange_id].streamed)
                ==> farewells@[i].reply !is Nothing,
        old(waiting).active > 0 ==> final(waiting).active + 1 == old(waiting).active,
        reply is Failure <==> termination is BeforeStart,
        reply matches QueuedReply::Failure(failure) ==> !failure.request_bytes_written
            && !failure.response_bytes_received,
{
    let ids = farewells@.map_values(|farewell: H2Farewell| farewell.exchange_id);
    assert forall|i: int| 0 <= i < farewells@.len() implies exchanges@.contains_key(
        (#[trigger] farewells@[i]).exchange_id,
    ) by {
        assert(ids[i] == farewells@[i].exchange_id);
        assert(ids.to_set().contains(ids[i]));
    }
}

/// A new exchange belongs to its request, and a session without exchanges takes
/// one exactly when it takes any.
pub proof fn new_exchanges_belong_to_their_request(
    request_id: u64,
    mode: ResponseMode,
    body: Body,
    exchange: H2Exchange,
    made: H2Exchanges,
    max_active: usize,
    admits: bool,
    exchanges: &H2Exchanges,
    room: bool,
)
    requires
        call_ensures(H2Exchange::new, (request_id, mode, body), exchange),
        call_ensures(H2Exchanges::new, (), made),
        call_ensures(H2Exchanges::admits, (&made, max_active), admits),
        call_ensures(H2Exchanges::admits, (exchanges, max_active), room),
    ensures
        exchange@.request_id == request_id,
        exchange@.response_mode == mode,
        body@ matches BodyView::Buffered(bytes) ==> exchange@.request_body
            == RequestBodyView::Buffered(bytes),
        body@ matches BodyView::Streaming(source) ==> (exchange@.request_body
            matches RequestBodyView::Streaming(cursor) && cursor.source == source
            && cursor.unsent.len() == 0 && !cursor.ended),
        made@.dom().len() == 0,
        admits <==> max_active > 0,
        room <==> exchanges@.dom().len() < max_active,
{
}

/// The exchanges of a session are listed each once, and each offers the bytes that
/// are next of its body, if any.
pub proof fn every_exchange_is_listed_once(
    exchanges: &H2Exchanges,
    ids: Vec<u64>,
    offers: Vec<BodyOffer>,
    id: u64,
    index: int,
)
    requires
        exchanges.valid(),
        call_ensures(H2Exchanges::ids, (exchanges,), ids),
        call_ensures(H2Exchanges::body_offers, (exchanges,), offers),
    ensures
        ids@.contains(id) <==> exchanges@.contains_key(id),
        ids@.no_duplicates(),
        (exists|i: int| 0 <= i < offers@.len() && (#[trigger] offers@[i]).exchange_id == id)
            <==> exchanges@.contains_key(id),
        0 <= index < offers@.len() ==> (offers@[index].available is Some <==> {
            let exchange = exchanges@[offers@[index].exchange_id];
            !exchange.abandoned && exchange.request_body.offer() is Some
        }),
        0 <= index < offers@.len() ==> (offers@[index].available matches Some(len)
            ==> exchanges@[offers@[index].exchange_id].request_body.offer()->0.len() == len),
{
    assert(ids@.to_set().contains(id) <==> ids@.contains(id));
    let names = offers@.map_values(|offer: BodyOffer| offer.exchange_id);
    assert(names.to_set().contains(id) <==> names.contains(id));
    if names.contains(id) {
        let i = choose|i: int| 0 <= i < names.len() && names[i] == id;
        assert(offers@[i].exchange_id == id);
    }
    if exists|i: int| 0 <= i < offers@.len() && (#[trigger] offers@[i]).exchange_id == id {
        let i = choose|i: int|
            0 <= i < offers@.len() && (#[trigger] offers@[i]).exchange_id == id;
        assert(names[i] == id);
    }
}

/// The next offer is the first from a place on that has bytes.
pub proof fn the_next_offer_is_the_first(
    offers: &Vec<BodyOffer>,
    start: usize,
    found: Option<usize>,
    index: int,
)
    requires
        start <= index < offers@.len(),
        call_ensures(next_offer, (offers, start), found),
    ensures
        found is None ==> offers@[index].available is None,
        found matches Some(position) ==> start <= position < offers@.len()
            && offers@[position as int].available is Some && (index < position
            ==> offers@[index].available is None),
{
}

/// A chunk goes to the exchange whose source gave it and is the next to be sent;
/// no other exchange changes.
pub proof fn chunks_go_to_their_exchange(
    exchanges: &mut H2Exchanges,
    failed: &mut H2Exchanges,
    id: u64,
    other: u64,
    chunk: Vec<u8>,
    message: String,
    ready: (Result<bool, Error>, Result<bool, Error>),
    asked: (Option<u64>, bool),
)
    requires
        old(exchanges).valid(),
        old(exchanges)@.contains_key(id),
        call_ensures(H2Exchanges::needs_chunk, (&*old(exchanges), id), asked.1),
        call_ensures(H2Exchanges::body_source, (&*old(exchanges), id), asked.0),
        asked.1,
        call_ensures(H2Exchanges::poll_body, (exchanges, id, SourcePoll::Chunk(chunk)), ready.0),
        call_ensures(H2Exchanges::poll_body, (failed, id, SourcePoll::Failed(message)), ready.1),
    ensures
        ready.0 == Ok::<bool, Error>(true),
        final(exchanges)@[id].request_body matches RequestBodyView::Streaming(cursor)
            && cursor.unsent == chunk@ && asked.0 == Some(cursor.source),
        other != id && old(exchanges)@.contains_key(other) ==> final(exchanges)@.contains_key(other)
            && final(exchanges)@[other] == old(exchanges)@[other],
        final(exchanges)@[id].request_id == old(exchanges)@[id].request_id,
        ready.1 matches Err(error) && error@ == ErrorView::BodyStream(message@),
{
}

/// An event that names no exchange of the session is a fault of the driver, which
/// ends the session and changes no exchange.
pub proof fn unknown_exchanges_are_faults(
    head: &mut H2Exchanges,
    trailers: &mut H2Exchanges,
    complete: &mut H2Exchanges,
    abandoned: &mut H2Exchanges,
    retired: &mut H2Exchanges,
    state: &mut H2SessionState,
    delivered: &H2Exchanges,
    id: u64,
    received: ReceivedResponseHead,
    fields: Headers,
    error: Error,
    retireable: bool,
    capacity: usize,
    now: Instant,
    results: (
        Result<HeadAction, H2SharedFailure>,
        Result<Option<Headers>, H2SharedFailure>,
        Result<bool, H2SharedFailure>,
        Result<(H2Reply, bool), H2SharedFailure>,
        Result<Retirement, H2SharedFailure>,
        Result<bool, H2SharedFailure>,
    ),
)
    requires
        !old(head)@.contains_key(id),
        !old(trailers)@.contains_key(id),
        !old(complete)@.contains_key(id),
        !old(abandoned)@.contains_key(id),
        !old(retired)@.contains_key(id),
        !delivered@.contains_key(id),
        call_ensures(H2Exchanges::response_head, (head, id, received), results.0),
        call_ensures(H2Exchanges::response_trailers, (trailers, id, fields), results.1),
        call_ensures(H2Exchanges::response_complete, (complete, id, retireable), results.2),
        call_ensures(H2Exchanges::abandon, (abandoned, id, error, retireable), results.3),
        call_ensures(H2Exchanges::retire, (retired, id, state, capacity, now), results.4),
        call_ensures(H2Exchanges::deliverable, (delivered, id), results.5),
    ensures
        final(head)@ == old(head)@ && final(trailers)@ == old(trailers)@,
        final(complete)@ == old(complete)@ && final(abandoned)@ == old(abandoned)@,
        final(retired)@ == old(retired)@ && *final(state) == *old(state),
        results.0 matches Err(failure) && (failure@ matches H2FailureView::Protocol(kind, _)
            && kind is UnexpectedEvent),
        results.1 matches Err(failure) && (failure@ matches H2FailureView::Protocol(kind, _)
            && kind is UnexpectedEvent),
        results.2 matches Err(failure) && (failure@ matches H2FailureView::Protocol(kind, _)
            && kind is UnexpectedEvent),
        results.3 matches Err(failure) && (failure@ matches H2FailureView::Protocol(kind, _)
            && kind is InvalidState),
        results.4 matches Err(failure) && (failure@ matches H2FailureView::Protocol(kind, _)
            && kind is InvalidState),
        results.5 matches Err(failure) && (failure@ matches H2FailureView::Protocol(kind, _)
            && kind is UnexpectedEvent),
{
}

/// Trailers of a buffered response are kept with it, and those of a streamed one
/// go to its reader, in either case once and behind the head.
pub proof fn received_trailers_go_with_their_response(
    exchanges: &mut H2Exchanges,
    id: u64,
    other: u64,
    fields: Headers,
    streamed: Result<Option<Headers>, H2SharedFailure>,
)
    requires
        old(exchanges)@.contains_key(id),
        !old(exchanges)@[id].abandoned,
        call_ensures(H2Exchanges::response_trailers, (exchanges, id, fields), streamed),
    ensures
        old(exchanges)@[id].response_mode is Buffered ==> {
            &&& streamed is Ok <==> old(exchanges)@[id].head is Some && old(exchanges)@[id].trailers is None
            &&& streamed is Ok ==> streamed->Ok_0 is None && final(exchanges)@[id].trailers == Some(
                fields@,
            )
        },
        old(exchanges)@[id].response_mode is Streaming ==> {
            &&& streamed is Ok <==> old(exchanges)@[id].trailer_slot is Empty
            &&& streamed is Ok ==> streamed->Ok_0 == Some(fields)
                && final(exchanges)@[id].trailer_slot is Full
        },
        other != id && old(exchanges)@.contains_key(other) ==> final(exchanges)@[other] == old(exchanges)@[other],
{
}

} // verus!
