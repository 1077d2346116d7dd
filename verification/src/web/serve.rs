//! One connection of a server: its exchanges and its turns.

use std::collections::HashMap;
use std::collections::HashSet;

use vstd::prelude::*;

use crate::errors::PanicPayload;
use crate::web::body::Body;
use crate::web::body::BodyPoll;
use crate::web::body::BodyView;
use crate::web::body::ResponseBody;
use crate::web::body::ResponseBodyView;
use crate::web::body::SourcePoll;
use crate::web::error::Error;
use crate::web::error::ErrorView;
use crate::web::error::ProtocolErrorKind;
use crate::web::error::Version;
use crate::web::failure::DriverError;
use crate::web::headers::convert_headers;
use crate::web::headers::usual_reason;
use crate::web::headers::HeaderField;
use crate::web::headers::Headers;
use crate::web::http2::Delivery;
use crate::web::message::request_parts;
use crate::web::message::ReceivedRequestHead;
use crate::web::message::Request;
use crate::web::message::RequestParts;
use crate::web::message::Response;
use crate::web::server::panic_message;
use crate::web::server::RequestMode;
use crate::web::server::ServeError;
use crate::web::trailers::ReceivedView;
use crate::web::trailers::TrailerTable;
use crate::web::uri::UriView;

verus! {

broadcast use vstd::std_specs::hash::group_hash_axioms;

/// The status code of a response to a handler that panicked.
pub const INTERNAL_SERVER_ERROR: u16 = 500;

/// The type of an HTTP/2 frame that holds a header block.
pub const HEADERS_FRAME: u8 = 1;

/// The protocol that a connection speaks, once it is known.
#[derive(Clone, Copy, Debug, PartialEq, Eq, Structural)]
pub enum WireProtocol {
    /// Not yet.
    Undecided,
    /// HTTP/1.1.
    Http1,
    /// HTTP/2.
    Http2,
    /// One that this library does not know.
    Unknown,
}

/// The stream of a frame that holds a header block, where the bytes start with
/// one that is complete.
pub open spec fn headers_stream(bytes: Seq<u8>) -> Option<int> {
    let length = bytes[0] * 65536 + bytes[1] * 256 + bytes[2];
    if bytes.len() >= 9 && bytes.len() >= 9 + length && bytes[3] == HEADERS_FRAME {
        Some((bytes[5] % 128) * 16777216 + bytes[6] * 65536 + bytes[7] * 256 + bytes[8])
    } else {
        None
    }
}

/// Reads the prefix of a frame: its stream, where it holds a header block.
pub fn decode_headers_stream(bytes: &[u8]) -> (stream: Option<u64>)
    ensures
        match stream {
            Some(stream) => headers_stream(bytes@) == Some(stream as int),
            None => headers_stream(bytes@) is None,
        },
{
    if bytes.len() < 9 {
        return None;
    }
    let length: usize = bytes[0] as usize * 65536 + bytes[1] as usize * 256 + bytes[2] as usize;
    if bytes.len() - 9 < length || bytes[3] != HEADERS_FRAME {
        return None;
    }
    let stream: u64 = (bytes[5] % 128) as u64 * 16777216 + bytes[6] as u64 * 65536 + bytes[7] as u64
        * 256 + bytes[8] as u64;
    Some(stream)
}

/// What is known of a request whose body is streamed.
#[derive(Clone, Copy, Debug, PartialEq, Eq, Structural)]
pub struct RequestStream {
    /// Whether the handler asked for a chunk.
    pub demanded: bool,
    /// Whether a chunk was handed over and not taken yet.
    pub chunk_pending: bool,
    /// Whether the trailers arrived.
    pub trailers_kept: bool,
}

/// What is known of a request that arrives.
#[verifier::ext_equal]
pub struct RequestPartsView {
    /// The method.
    pub method: Seq<char>,
    /// Where it goes.
    pub uri: UriView,
    /// The HTTP version.
    pub version: Version,
    /// The header fields.
    pub fields: Map<Seq<u8>, Seq<Seq<u8>>>,
    /// The bytes of the body so far.
    pub body: Seq<u8>,
    /// The trailers behind the body.
    pub trailers: Option<Map<Seq<u8>, Seq<Seq<u8>>>>,
}

impl View for RequestParts {
    type V = RequestPartsView;

    open spec fn view(&self) -> RequestPartsView {
        RequestPartsView {
            method: self.method@,
            uri: self.uri@,
            version: self.version,
            fields: self.headers@,
            body: self.body@,
            trailers: match self.trailers {
                Some(trailers) => Some(trailers@),
                None => None,
            },
        }
    }
}

/// What is known of a response that is sent.
#[verifier::ext_equal]
pub struct SendingView {
    /// The body.
    pub body: ResponseBodyView,
    /// The callback that produces the trailers, until it was called.
    pub callback: Option<u64>,
}

/// The exchanges of a connection.
#[verifier::ext_equal]
pub struct ServerView {
    /// The requests that arrive.
    pub requests: Map<u64, RequestPartsView>,
    /// Those whose body is streamed to a handler.
    pub streams: Map<u64, RequestStream>,
    /// The exchanges whose handler runs.
    pub running: Set<u64>,
    /// The responses with a body that is sent.
    pub responses: Map<u64, SendingView>,
    /// The responses without a body whose head is not written yet.
    pub header_only: Set<u64>,
    /// The responses that are complete.
    pub completed: Set<u64>,
    /// The exchanges that are not over.
    pub exchanges: Set<u64>,
}

/// The exchanges of a connection.
pub struct ServerExchanges {
    requests: HashMap<u64, RequestParts>,
    streams: HashMap<u64, RequestStream>,
    running: HashSet<u64>,
    responses: HashMap<u64, ResponseBody>,
    header_only: HashSet<u64>,
    completed: HashSet<u64>,
    exchanges: HashSet<u64>,
}

impl View for ServerExchanges {
    type V = ServerView;

    closed spec fn view(&self) -> ServerView {
        ServerView {
            requests: self.requests@.map_values(|parts: RequestParts| parts@),
            streams: self.streams@,
            running: self.running@,
            responses: self.responses@.map_values(
                |response: ResponseBody|
                    SendingView { body: response@, callback: response.callback() },
            ),
            header_only: self.header_only@,
            completed: self.completed@,
            exchanges: self.exchanges@,
        }
    }
}

impl ServerView {
    /// The connection without an exchange. What is left to be written of a
    /// response goes too, if so asked.
    pub open spec fn without(self, id: u64, responses_too: bool) -> ServerView {
        ServerView {
            requests: self.requests.remove(id),
            streams: self.streams.remove(id),
            running: self.running.remove(id),
            responses: if responses_too {
                self.responses.remove(id)
            } else {
                self.responses
            },
            header_only: if responses_too {
                self.header_only.remove(id)
            } else {
                self.header_only
            },
            completed: self.completed.remove(id),
            exchanges: self.exchanges.remove(id),
        }
    }

    /// Whether some handler asked for a chunk.
    pub open spec fn has_demand(self) -> bool {
        exists|id: u64| #[trigger] self.streams.contains_key(id) && self.streams[id].demanded
    }

    /// Whether nothing of an exchange is left.
    pub open spec fn forgot(self, id: u64) -> bool {
        &&& !self.requests.contains_key(id)
        &&& !self.streams.contains_key(id)
        &&& !self.running.contains(id)
        &&& !self.responses.contains_key(id)
        &&& !self.header_only.contains(id)
        &&& !self.completed.contains(id)
        &&& !self.exchanges.contains(id)
    }
}

/// What follows part of a request body.
pub enum RequestBodyAction {
    /// It was kept.
    Progress,
    /// It goes to the handler.
    Deliver(Vec<u8>),
}

/// What follows the delivery of part of a request body.
#[derive(Clone, Copy, Debug, PartialEq, Eq, Structural)]
pub enum RequestAction {
    /// The handler has it.
    Streamed,
    /// The handler is gone: the driver gives the request up.
    Abandoned,
    /// The handler did not keep up: the driver gives the request up, and the
    /// handler learns that the body was cut short.
    Overrun,
}

impl ServerExchanges {
    /// Every response is valid.
    pub closed spec fn valid(&self) -> bool {
        forall|id: u64| #[trigger]
            self.responses@.contains_key(id) ==> self.responses@[id].valid()
    }

    /// No exchanges.
    pub fn new() -> (exchanges: ServerExchanges)
        ensures
            exchanges.valid(),
            exchanges@ == (ServerView {
                requests: Map::empty(),
                streams: Map::empty(),
                running: Set::empty(),
                responses: Map::empty(),
                header_only: Set::empty(),
                completed: Set::empty(),
                exchanges: Set::empty(),
            }),
    {
        let exchanges = ServerExchanges {
            requests: HashMap::new(),
            streams: HashMap::new(),
            running: HashSet::new(),
            responses: HashMap::new(),
            header_only: HashSet::new(),
            completed: HashSet::new(),
            exchanges: HashSet::new(),
        };
        proof {
            let view = exchanges@;
            assert(view.requests =~= Map::<u64, RequestPartsView>::empty());
            assert(view.responses =~= Map::<u64, SendingView>::empty());
            assert(view.streams =~= Map::<u64, RequestStream>::empty());
            assert(view.running =~= Set::<u64>::empty());
            assert(view.header_only =~= Set::<u64>::empty());
            assert(view.completed =~= Set::<u64>::empty());
            assert(view.exchanges =~= Set::<u64>::empty());
        }
        exchanges
    }

    /// Whether a response with a body is being sent.
    pub fn has_responses(&self) -> (has: bool)
        ensures
            has == (self@.responses.dom().len() != 0),
    {
        assert(self@.responses.dom() =~= self.responses@.dom());
        !self.responses.is_empty()
    }

    /// Whether a request still arrives.
    pub fn has_requests(&self) -> (has: bool)
        ensures
            has == (self@.requests.dom().len() != 0),
    {
        assert(self@.requests.dom() =~= self.requests@.dom());
        !self.requests.is_empty()
    }

    /// A response that is complete and that the driver is done with leaves the
    /// connection, together with its request. The result says whether a handler
    /// still runs, which is then canceled.
    pub fn retire(&mut self, id: u64) -> (cancel: bool)
        requires
            old(self).valid(),
        ensures
            final(self).valid(),
            final(self)@ == old(self)@.without(id, false),
            cancel == old(self)@.running.contains(id),
    {
        self.completed.remove(&id);
        self.requests.remove(&id);
        self.streams.remove(&id);
        let cancel = self.running.remove(&id);
        self.exchanges.remove(&id);
        proof {
            assert(self@.requests =~= old(self)@.requests.remove(id));
            assert(self@.streams =~= old(self)@.streams.remove(id));
            assert(self@.running =~= old(self)@.running.remove(id));
            assert(self@.completed =~= old(self)@.completed.remove(id));
            assert(self@.exchanges =~= old(self)@.exchanges.remove(id));
        }
        cancel
    }

    /// The peer reset an exchange, or the driver gave it up: nothing of it is
    /// left. The result says whether a handler still runs, which is then
    /// canceled.
    pub fn forget(&mut self, id: u64) -> (cancel: bool)
        requires
            old(self).valid(),
        ensures
            final(self).valid(),
            final(self)@ == old(self)@.without(id, true),
            cancel == old(self)@.running.contains(id),
    {
        let cancel = self.retire(id);
        self.responses.remove(&id);
        self.header_only.remove(&id);
        proof {
            assert(self@.responses =~= old(self)@.responses.remove(id));
            assert(self@.header_only =~= old(self)@.header_only.remove(id));
        }
        cancel
    }
}

/// An exchange that its peer reset.
#[derive(Clone, Copy, Debug, PartialEq, Eq, Structural)]
pub struct ResetExchange {
    /// The exchange.
    pub id: u64,
    /// Whether its handler still runs, which is then canceled.
    pub cancel: bool,
}

/// Whether a failure of the driver says that the peer reset an exchange. Any
/// other ends the connection.
pub open spec fn resets(fault: DriverError) -> bool {
    fault.classified().reported() matches ErrorView::Protocol(error) && error.kind
        == ProtocolErrorKind::PeerReset
}

/// Whether a failure of the driver says that the peer reset an exchange, which
/// the driver then names.
pub fn resets_exchange(fault: &DriverError) -> (does: bool)
    ensures
        does == resets(*fault),
{
    match fault.error() {
        Error::Protocol(error) => match error.kind() {
            ProtocolErrorKind::PeerReset => true,
            _ => false,
        },
        _ => false,
    }
}

impl ServerExchanges {
    /// The driver's step failed, and the driver named the exchange that the peer
    /// reset, or none. Nothing of that exchange is left, and the connection goes
    /// on with the others. Any other failure ends the connection.
    pub fn step_failed(&mut self, fault: DriverError, canceled: Option<u64>) -> (reset: Result<
        ResetExchange,
        Error,
    >)
        requires
            old(self).valid(),
        ensures
            final(self).valid(),
            match canceled {
                Some(id) if resets(fault) => {
                    &&& final(self)@ == old(self)@.without(id, true)
                    &&& reset == Ok::<ResetExchange, Error>(
                        ResetExchange { id, cancel: old(self)@.running.contains(id) },
                    )
                },
                _ => {
                    &&& final(self)@ == old(self)@
                    &&& reset matches Err(error) && error@ == fault.classified().reported()
                },
            },
    {
        if !resets_exchange(&fault) {
            return Err(fault.error());
        }
        match canceled {
            Some(id) => {
                let cancel = self.forget(id);
                Ok(ResetExchange { id, cancel })
            },
            None => Err(fault.error()),
        }
    }
}

/// What follows the end of a handler.
pub enum HandlerNext {
    /// Nothing: the handler was canceled, or its exchange is over.
    Nothing,
    /// A response is sent.
    Respond(Response),
}

/// How a handler ended.
pub enum HandlerCompletion {
    /// With a response, or without because the server stops.
    Response(u64, Result<Response, Error>),
    /// It panicked.
    Panicked(u64),
    /// It was canceled.
    Cancelled(u64),
}

impl HandlerCompletion {
    /// The exchange of the handler.
    pub open spec fn exchange(self) -> u64 {
        match self {
            HandlerCompletion::Response(id, _) => id,
            HandlerCompletion::Panicked(id) => id,
            HandlerCompletion::Cancelled(id) => id,
        }
    }

    /// The exchange of the handler.
    pub fn exchange_id(&self) -> (id: u64)
        ensures
            id == self.exchange(),
    {
        match self {
            HandlerCompletion::Response(id, _) => *id,
            HandlerCompletion::Panicked(id) => *id,
            HandlerCompletion::Cancelled(id) => *id,
        }
    }
}

/// Whether a response is the one for a handler that panicked.
pub open spec fn apologizes(response: Response) -> bool {
    &&& response.status == INTERNAL_SERVER_ERROR
    &&& response.version == Version::Http11
    &&& response.headers@ == crate::web::headers::no_fields()
    &&& response.body@ == BodyView::Buffered(Seq::empty())
    &&& response.body.inbound() is None
    &&& response.body.outbound() is None
}

/// The response for a handler that panicked.
pub fn internal_server_error() -> (response: Response)
    ensures
        apologizes(response),
{
    Response {
        status: INTERNAL_SERVER_ERROR,
        version: Version::Http11,
        headers: Headers::new(),
        body: Body::empty(),
    }
}

/// The length that the driver is told of a response body. A body with trailers
/// is framed as a stream, so that there is an end behind which they stand.
pub fn response_body_len(body: &Body) -> (len: Option<usize>)
    ensures
        match len {
            Some(len) => body.outbound() is None && (body@ matches BodyView::Buffered(bytes)
                && bytes.len() == len),
            None => body.outbound() is Some || body@ is Streaming,
        },
{
    if body.has_outbound_trailers() {
        None
    } else {
        body.known_len()
    }
}

/// What the driver is told of a response.
pub struct ResponseDescription {
    /// The status code.
    pub status: u16,
    /// The usual words for it, or none.
    pub reason: String,
    /// The header fields.
    pub headers: Vec<HeaderField>,
    /// The length of the body, unless it is framed as a stream.
    pub body_len: Option<usize>,
}

/// The words that go with a status code, given those that are usual for it.
pub open spec fn reason_text(usual: Option<Seq<char>>) -> Seq<char> {
    match usual {
        Some(reason) => reason,
        None => ""@,
    }
}

/// The words that go with a status code, given those that are usual for it.
pub fn reason_phrase(usual: Option<String>) -> (reason: String)
    ensures
        reason@ == reason_text(
            match usual {
                Some(usual) => Some(usual@),
                None => None,
            },
        ),
{
    match usual {
        Some(reason) => reason,
        None => "".to_owned(),
    }
}

/// What the driver is told of a response.
pub fn describe_response(response: &Response) -> (description: ResponseDescription)
    requires
        crate::web::headers::valid_status(response.status as int),
    ensures
        description.status == response.status,
        description.reason@ == reason_text(
            crate::web::headers::canonical_reason(response.status),
        ),
        crate::web::headers::fields_of(crate::web::headers::field_list(description.headers@))
            == response.headers@,
        match description.body_len {
            Some(len) => response.body.outbound() is None && (
            response.body@ matches BodyView::Buffered(bytes) && bytes.len() == len),
            None => response.body.outbound() is Some || response.body@ is Streaming,
        },
{
    ResponseDescription {
        status: response.status,
        reason: reason_phrase(usual_reason(response.status)),
        headers: response.headers.list(),
        body_len: response_body_len(&response.body),
    }
}

/// What the head of a request does to the exchanges: it begins a request,
/// unless its exchange is there already or something is wrong with it.
pub open spec fn head_effect(
    before: ServerView,
    after: ServerView,
    id: u64,
    head: ReceivedRequestHead,
    taken: Result<(), Error>,
) -> bool {
    match taken {
        Ok(()) => {
            &&& !before.exchanges.contains(id)
            &&& crate::web::message::head_fault(head) is None
            &&& after == (ServerView {
                requests: after.requests,
                ..before
            })
            &&& after.requests.contains_key(id)
            &&& after.requests == before.requests.insert(
                id,
                after.requests[id],
            )
            &&& after.requests[id].method == head.method@.map_values(
                |byte: u8| byte as char,
            )
            &&& crate::web::uri::uri_of_text(vstd::utf8::decode_utf8(head.target@)) == Ok::<
                UriView,
                Seq<char>,
            >(after.requests[id].uri)
            &&& head.version.known() == Some(after.requests[id].version)
            &&& after.requests[id].fields == crate::web::message::received_fields(
                head,
            )
            &&& after.requests[id].body == Seq::<u8>::empty()
            &&& after.requests[id].trailers is None
        },
        Err(error) => {
            &&& after == before
            &&& if before.exchanges.contains(id) {
                error@ == crate::web::message::protocol_fault(
                    ProtocolErrorKind::UnexpectedEvent,
                    "request head repeated an active exchange"@,
                )
            } else {
                crate::web::message::head_fault(head) == Some(error@)
            }
        },
    }
}

/// What part of a request body does to the exchanges.
pub open spec fn body_effect(
    before: ServerView,
    after: ServerView,
    id: u64,
    chunk: Seq<u8>,
    protocol: WireProtocol,
    action: Result<RequestBodyAction, Error>,
) -> bool {
    if !before.requests.contains_key(id) {
        &&& after == before
        &&& action is Err
        &&& action->Err_0@ == crate::web::message::protocol_fault(
            ProtocolErrorKind::UnexpectedEvent,
            "request body preceded its head or followed its completion"@,
        )
    } else if before.streams.contains_key(id) {
        &&& after == before
        &&& if !before.streams[id].demanded && protocol != WireProtocol::Http2 {
            &&& action is Err
            &&& action->Err_0@ == crate::web::message::protocol_fault(
                ProtocolErrorKind::InvalidState,
                "a request body chunk arrived without consumer demand"@,
            )
        } else {
            &&& action is Ok
            &&& action->Ok_0 matches RequestBodyAction::Deliver(bytes) && bytes@ == chunk
        }
    } else {
        &&& action is Ok
        &&& action->Ok_0 is Progress
        &&& after == (ServerView {
            requests: before.requests.insert(
                id,
                RequestPartsView {
                    body: before.requests[id].body + chunk,
                    ..before.requests[id]
                },
            ),
            ..before
        })
    }
}

/// What the trailers of a request do to the exchanges.
pub open spec fn trailers_effect(
    before: ServerView,
    after: ServerView,
    id: u64,
    fields: Seq<HeaderField>,
    streamed: Result<Option<Headers>, Error>,
) -> bool {
    let list = crate::web::headers::field_list(fields);
    let kept = crate::web::headers::fields_of(list);
    if !before.requests.contains_key(id) {
        &&& after == before
        &&& streamed is Err
        &&& streamed->Err_0@ == crate::web::message::protocol_fault(
            ProtocolErrorKind::UnexpectedEvent,
            "request trailers preceded the head or followed completion"@,
        )
    } else if before.requests[id].trailers is Some {
        &&& after == before
        &&& streamed is Err
        &&& streamed->Err_0@ == crate::web::message::protocol_fault(
            ProtocolErrorKind::UnexpectedEvent,
            "request trailers repeated for one exchange"@,
        )
    } else if crate::web::headers::list_fault(list) is Some {
        &&& after == before
        &&& streamed is Err
        &&& streamed->Err_0@ == crate::web::headers::list_fault(list)->0
    } else if before.streams.contains_key(id)
        && before.streams[id].trailers_kept {
        &&& after == before
        &&& streamed is Err
        &&& streamed->Err_0@ == crate::web::message::protocol_fault(
            ProtocolErrorKind::UnexpectedEvent,
            "request trailers repeated for one streaming body"@,
        )
    } else {
        &&& after.requests == before.requests.insert(
            id,
            RequestPartsView { trailers: Some(kept), ..before.requests[id] },
        )
        &&& if before.streams.contains_key(id) {
            &&& after == (ServerView {
                requests: after.requests,
                streams: before.streams.insert(
                    id,
                    RequestStream { trailers_kept: true, ..before.streams[id] },
                ),
                ..before
            })
            &&& streamed is Ok
            &&& streamed->Ok_0 is Some
            &&& streamed->Ok_0->0@ == kept
        } else {
            &&& after == (ServerView {
                requests: after.requests,
                ..before
            })
            &&& streamed == Ok::<Option<Headers>, Error>(None)
        }
    }
}

impl ServerExchanges {
    fn put_request(&mut self, id: u64, parts: RequestParts)
        requires
            old(self).valid(),
        ensures
            final(self).valid(),
            final(self)@ == (ServerView {
                requests: old(self)@.requests.insert(id, parts@),
                ..old(self)@
            }),
    {
        self.requests.insert(id, parts);
        assert(self@.requests =~= old(self)@.requests.insert(id, parts@));
    }

    fn take_request(&mut self, id: u64) -> (taken: Option<RequestParts>)
        requires
            old(self).valid(),
        ensures
            final(self).valid(),
            final(self)@ == (ServerView {
                requests: old(self)@.requests.remove(id),
                ..old(self)@
            }),
            match taken {
                Some(parts) => old(self)@.requests.contains_key(id) && parts@
                    == old(self)@.requests[id],
                None => !old(self)@.requests.contains_key(id),
            },
    {
        let taken = self.requests.remove(&id);
        assert(self@.requests =~= old(self)@.requests.remove(id));
        taken
    }

    /// The head of a request arrived.
    pub fn request_head(&mut self, id: u64, head: ReceivedRequestHead) -> (taken: Result<(), Error>)
        requires
            old(self).valid(),
            head.fields@.len() < crate::web::headers::MAX_HEADER_NAMES,
        ensures
            final(self).valid(),
            head_effect(old(self)@, final(self)@, id, head, taken),
    {
        if self.exchanges.contains(&id) {
            return Err(
                Error::protocol(
                    ProtocolErrorKind::UnexpectedEvent,
                    "request head repeated an active exchange",
                ),
            );
        }
        match request_parts(head) {
            Ok(parts) => {
                self.put_request(id, parts);
                assert(self@.requests =~= old(self)@.requests.insert(id, self@.requests[id]));
                Ok(())
            },
            Err(error) => Err(error),
        }
    }

    /// The driver took the bytes of a head: the exchange begins.
    pub fn begin(&mut self, id: u64)
        requires
            old(self).valid(),
        ensures
            final(self).valid(),
            final(self)@ == (ServerView {
                exchanges: old(self)@.exchanges.insert(id),
                ..old(self)@
            }),
    {
        self.exchanges.insert(id);
        assert(self@.exchanges =~= old(self)@.exchanges.insert(id));
    }

    /// The request that arrives in an exchange.
    pub fn request(&self, id: u64) -> (parts: Option<&RequestParts>)
        requires
            self.valid(),
        ensures
            match parts {
                Some(parts) => self@.requests.contains_key(id) && parts@ == self@.requests[id],
                None => !self@.requests.contains_key(id),
            },
    {
        self.requests.get(&id)
    }

    /// The request was refused before its body: it does not arrive any more. An
    /// informational response refuses nothing.
    pub fn refuse(&mut self, id: u64, status: u16) -> (refused: Result<(), Error>)
        requires
            old(self).valid(),
        ensures
            final(self).valid(),
            match refused {
                Ok(()) => {
                    &&& !(100 <= status < 200)
                    &&& final(self)@ == (ServerView {
                        requests: old(self)@.requests.remove(id),
                        ..old(self)@
                    })
                },
                Err(error) => {
                    &&& 100 <= status < 200
                    &&& final(self)@ == old(self)@
                    &&& error@ == crate::web::message::protocol_fault(
                        ProtocolErrorKind::InvalidState,
                        "the Expect: 100-continue hook returned an informational response"@,
                    )
                },
            },
    {
        if 100 <= status && status < 200 {
            return Err(
                Error::protocol(
                    ProtocolErrorKind::InvalidState,
                    "the Expect: 100-continue hook returned an informational response",
                ),
            );
        }
        let _ = self.take_request(id);
        Ok(())
    }

    /// Starts the handler of a request whose body is streamed, where there is
    /// such a request and no response to it yet.
    pub fn start_streaming(&mut self, id: u64, mode: RequestMode, body: Body) -> (request: Option<
        Request,
    >)
        requires
            old(self).valid(),
        ensures
            final(self).valid(),
            if mode == RequestMode::Streaming && old(self)@.requests.contains_key(id)
                && !old(self)@.responses.contains_key(id) {
                let parts = old(self)@.requests[id];
                &&& final(self)@ == (ServerView {
                    streams: old(self)@.streams.insert(
                        id,
                        RequestStream {
                            demanded: false,
                            chunk_pending: false,
                            trailers_kept: false,
                        },
                    ),
                    running: old(self)@.running.insert(id),
                    ..old(self)@
                })
                &&& request is Some
                &&& request->0.method@ == parts.method
                &&& request->0.uri@ == parts.uri
                &&& request->0.version == parts.version
                &&& request->0.headers@ == parts.fields
                &&& request->0.body == body
            } else {
                request is None && final(self)@ == old(self)@
            },
    {
        if mode != RequestMode::Streaming || self.responses.contains_key(&id) {
            return None;
        }
        let request = match self.requests.get(&id) {
            Some(parts) => parts.request_with_body(body),
            None => return None,
        };
        self.streams.insert(
            id,
            RequestStream { demanded: false, chunk_pending: false, trailers_kept: false },
        );
        self.running.insert(id);
        proof {
            assert(self@.running =~= old(self)@.running.insert(id));
        }
        Some(request)
    }

    /// Part of a request body arrived. It is kept, or returned to be handed on.
    /// Over HTTP/1.1 none may arrive that the handler did not ask for.
    pub fn request_body(&mut self, id: u64, chunk: &[u8], protocol: WireProtocol) -> (action: Result<
        RequestBodyAction,
        Error,
    >)
        requires
            old(self).valid(),
        ensures
            final(self).valid(),
            body_effect(old(self)@, final(self)@, id, chunk@, protocol, action),
    {
        if !self.requests.contains_key(&id) {
            return Err(
                Error::protocol(
                    ProtocolErrorKind::UnexpectedEvent,
                    "request body preceded its head or followed its completion",
                ),
            );
        }
        match self.streams.get(&id) {
            Some(stream) => {
                if !stream.demanded && protocol != WireProtocol::Http2 {
                    return Err(
                        Error::protocol(
                            ProtocolErrorKind::InvalidState,
                            "a request body chunk arrived without consumer demand",
                        ),
                    );
                }
                let mut copy: Vec<u8> = Vec::new();
                copy.extend_from_slice(chunk);
                assert(copy@ =~= chunk@);
                return Ok(RequestBodyAction::Deliver(copy));
            },
            None => {},
        }
        if let Some(parts) = self.take_request(id) {
            let mut parts = parts;
            let ghost before = parts@;
            parts.body.extend_from_slice(chunk);
            assert(parts.body@ =~= before.body + chunk@);
            self.put_request(id, parts);
            assert(self@.requests =~= old(self)@.requests.insert(
                id,
                RequestPartsView { body: before.body + chunk@, ..before },
            ));
        }
        Ok(RequestBodyAction::Progress)
    }

    /// The handler was handed part of a request body. One that is gone, or that
    /// did not keep up, gets no more: its exchange is given up alone, so that
    /// others on the connection go on.
    pub fn delivered(&mut self, id: u64, delivery: Delivery) -> (action: RequestAction)
        requires
            old(self).valid(),
            old(self)@.streams.contains_key(id),
        ensures
            final(self).valid(),
            match delivery {
                Delivery::Taken => {
                    &&& action == RequestAction::Streamed
                    &&& final(self)@ == (ServerView {
                        streams: old(self)@.streams.insert(
                            id,
                            RequestStream {
                                demanded: false,
                                chunk_pending: true,
                                ..old(self)@.streams[id]
                            },
                        ),
                        ..old(self)@
                    })
                },
                _ => {
                    &&& action == if delivery == Delivery::Closed {
                        RequestAction::Abandoned
                    } else {
                        RequestAction::Overrun
                    }
                    &&& final(self)@ == (ServerView {
                        requests: old(self)@.requests.remove(id),
                        streams: old(self)@.streams.remove(id),
                        ..old(self)@
                    })
                },
            },
    {
        match self.streams.remove(&id) {
            Some(stream) => {
                if delivery == Delivery::Taken {
                    self.streams.insert(
                        id,
                        RequestStream { demanded: false, chunk_pending: true, ..stream },
                    );
                    assert(self@.streams =~= old(self)@.streams.insert(
                        id,
                        RequestStream {
                            demanded: false,
                            chunk_pending: true,
                            ..old(self)@.streams[id]
                        },
                    ));
                    return RequestAction::Streamed;
                }
            },
            None => {},
        }
        let _ = self.take_request(id);
        if delivery == Delivery::Closed {
            RequestAction::Abandoned
        } else {
            RequestAction::Overrun
        }
    }

    /// A handler asked for a chunk.
    pub fn demand(&mut self, id: u64)
        requires
            old(self).valid(),
        ensures
            final(self).valid(),
            final(self)@ == if old(self)@.streams.contains_key(id) {
                ServerView {
                    streams: old(self)@.streams.insert(
                        id,
                        RequestStream { demanded: true, ..old(self)@.streams[id] },
                    ),
                    ..old(self)@
                }
            } else {
                old(self)@
            },
    {
        match self.streams.remove(&id) {
            Some(stream) => {
                self.streams.insert(id, RequestStream { demanded: true, ..stream });
                assert(self@.streams =~= old(self)@.streams.insert(
                    id,
                    RequestStream { demanded: true, ..old(self)@.streams[id] },
                ));
            },
            None => {
                assert(self@.streams =~= old(self)@.streams);
            },
        }
    }

    /// The trailers of a request arrived. They are kept, and returned for the
    /// handler of a streamed request.
    pub fn request_trailers(&mut self, id: u64, fields: &Vec<HeaderField>) -> (streamed: Result<
        Option<Headers>,
        Error,
    >)
        requires
            old(self).valid(),
            fields@.len() <= crate::web::headers::MAX_HEADER_NAMES,
        ensures
            final(self).valid(),
            trailers_effect(old(self)@, final(self)@, id, fields@, streamed),
    {
        let repeated = match self.requests.get(&id) {
            None => {
                return Err(
                    Error::protocol(
                        ProtocolErrorKind::UnexpectedEvent,
                        "request trailers preceded the head or followed completion",
                    ),
                );
            },
            Some(parts) => parts.trailers.is_some(),
        };
        if repeated {
            return Err(
                Error::protocol(
                    ProtocolErrorKind::UnexpectedEvent,
                    "request trailers repeated for one exchange",
                ),
            );
        }
        let headers = match convert_headers(fields) {
            Ok(headers) => headers,
            Err(error) => return Err(error),
        };
        let streamed = match self.streams.get(&id) {
            Some(stream) => {
                if stream.trailers_kept {
                    return Err(
                        Error::protocol(
                            ProtocolErrorKind::UnexpectedEvent,
                            "request trailers repeated for one streaming body",
                        ),
                    );
                }
                Some(headers.duplicate())
            },
            None => None,
        };
        if let Some(stream) = self.streams.remove(&id) {
            self.streams.insert(id, RequestStream { trailers_kept: true, ..stream });
        }
        proof {
            if streamed is Some {
                assert(self@.streams =~= old(self)@.streams.insert(
                    id,
                    RequestStream { trailers_kept: true, ..old(self)@.streams[id] },
                ));
            } else {
                assert(self@.streams =~= old(self)@.streams);
            }
        }
        if let Some(parts) = self.take_request(id) {
            let ghost before = parts@;
            let parts = RequestParts { trailers: Some(headers), ..parts };
            self.put_request(id, parts);
            assert(self@.requests =~= old(self)@.requests.insert(
                id,
                RequestPartsView { trailers: Some(headers@), ..before },
            ));
        }
        Ok(streamed)
    }

    /// A request is complete. Where bodies are not streamed its handler starts
    /// now, with the whole request.
    pub fn request_complete(&mut self, id: u64, mode: RequestMode) -> (request: Result<
        Option<Request>,
        Error,
    >)
        requires
            old(self).valid(),
        ensures
            final(self).valid(),
            if !old(self)@.requests.contains_key(id) {
                &&& final(self)@ == old(self)@
                &&& request is Err
                &&& request->Err_0@ == crate::web::message::protocol_fault(
                    ProtocolErrorKind::UnexpectedEvent,
                    "completed request had no assembled exchange"@,
                )
            } else if mode == RequestMode::Streaming {
                &&& request == Ok::<Option<Request>, Error>(None)
                &&& final(self)@ == (ServerView {
                    requests: old(self)@.requests.remove(id),
                    streams: old(self)@.streams.remove(id),
                    ..old(self)@
                })
            } else {
                let parts = old(self)@.requests[id];
                &&& final(self)@ == (ServerView {
                    requests: old(self)@.requests.remove(id),
                    running: old(self)@.running.insert(id),
                    ..old(self)@
                })
                &&& request is Ok
                &&& request->Ok_0 matches Some(request) && {
                    &&& request.method@ == parts.method
                    &&& request.uri@ == parts.uri
                    &&& request.version == parts.version
                    &&& request.headers@ == parts.fields
                    &&& request.body@ == BodyView::Buffered(parts.body)
                    &&& request.body.outbound() is None
                    &&& request.body.inbound() == match parts.trailers {
                        Some(fields) => Some(ReceivedView::Complete(fields)),
                        None => None,
                    }
                }
            },
    {
        if !self.requests.contains_key(&id) {
            return Err(
                Error::protocol(
                    ProtocolErrorKind::UnexpectedEvent,
                    "completed request had no assembled exchange",
                ),
            );
        }
        let taken = self.take_request(id);
        if mode == RequestMode::Streaming {
            self.streams.remove(&id);
            assert(self@.streams =~= old(self)@.streams.remove(id));
            return Ok(None);
        }
        match taken {
            Some(parts) => {
                self.running.insert(id);
                assert(self@.running =~= old(self)@.running.insert(id));
                Ok(Some(parts.into_request()))
            },
            None => Ok(None),
        }
    }
}

/// The end of a handler: whether the driver gives the rest of the request up,
/// and what is sent.
pub struct HandlerEnd {
    /// Whether the driver gives the rest of the request up.
    pub abandon_request: bool,
    /// What follows, or the failure that ends the connection.
    pub next: Result<HandlerNext, Error>,
}

/// A response that failed.
#[derive(Debug)]
pub enum ResponseFailure {
    /// Its body failed.
    Body {
        /// The exchange.
        exchange_id: u64,
        /// What went wrong.
        error: Error,
    },
    /// Its trailers were refused.
    Trailers {
        /// The exchange.
        exchange_id: u64,
        /// What went wrong.
        error: Error,
    },
    /// The callback that produces its trailers panicked.
    TrailerCallbackPanicked {
        /// The exchange.
        exchange_id: u64,
        /// The panic.
        payload: PanicPayload,
    },
}

impl ResponseFailure {
    /// The exchange.
    pub open spec fn exchange(self) -> u64 {
        match self {
            ResponseFailure::Body { exchange_id, .. } => exchange_id,
            ResponseFailure::Trailers { exchange_id, .. } => exchange_id,
            ResponseFailure::TrailerCallbackPanicked { exchange_id, .. } => exchange_id,
        }
    }

    /// The exchange.
    pub fn exchange_id(&self) -> (id: u64)
        ensures
            id == self.exchange(),
    {
        match self {
            ResponseFailure::Body { exchange_id, .. } => *exchange_id,
            ResponseFailure::Trailers { exchange_id, .. } => *exchange_id,
            ResponseFailure::TrailerCallbackPanicked { exchange_id, .. } => *exchange_id,
        }
    }

    /// The failure as one of the connection.
    pub open spec fn connection_error(self) -> ErrorView {
        match self {
            ResponseFailure::Body { error, .. } => error@,
            ResponseFailure::Trailers { error, .. } => error@,
            ResponseFailure::TrailerCallbackPanicked {
                payload,
                ..
            } => crate::web::message::protocol_fault(
                ProtocolErrorKind::InvalidState,
                "response trailer callback panicked: "@ + crate::web::server::panic_words(payload),
            ),
        }
    }

    /// The failure as one of the connection.
    pub fn into_connection_error(self) -> (error: Error)
        ensures
            error@ == self.connection_error(),
    {
        match self {
            ResponseFailure::Body { error, .. } => error,
            ResponseFailure::Trailers { error, .. } => error,
            ResponseFailure::TrailerCallbackPanicked { payload, .. } => {
                let detail = crate::text::joined(
                    "response trailer callback panicked: ",
                    panic_message(&payload),
                );
                Error::protocol(ProtocolErrorKind::InvalidState, detail.as_str())
            },
        }
    }
}

/// What came of an attempt to write part of a response.
#[derive(Clone, Copy, Debug, PartialEq, Eq, Structural)]
pub enum BodyAction {
    /// Nothing could be written.
    Blocked,
    /// Part of a response was written.
    Sent,
    /// The last part of a response was written.
    Complete,
}

impl ServerExchanges {
    fn put_response(&mut self, id: u64, response: ResponseBody)
        requires
            old(self).valid(),
            response.valid(),
        ensures
            final(self).valid(),
            final(self)@ == (ServerView {
                responses: old(self)@.responses.insert(
                    id,
                    SendingView { body: response@, callback: response.callback() },
                ),
                ..old(self)@
            }),
    {
        self.responses.insert(id, response);
        assert(self@.responses =~= old(self)@.responses.insert(
            id,
            SendingView { body: response@, callback: response.callback() },
        ));
    }

    fn take_response(&mut self, id: u64) -> (taken: Option<ResponseBody>)
        requires
            old(self).valid(),
        ensures
            final(self).valid(),
            final(self)@ == (ServerView {
                responses: old(self)@.responses.remove(id),
                ..old(self)@
            }),
            match taken {
                Some(response) => {
                    &&& old(self)@.responses.contains_key(id)
                    &&& response.valid()
                    &&& response@ == old(self)@.responses[id].body
                    &&& response.callback() == old(self)@.responses[id].callback
                },
                None => !old(self)@.responses.contains_key(id),
            },
    {
        let taken = self.responses.remove(&id);
        assert(self@.responses =~= old(self)@.responses.remove(id));
        taken
    }

    /// A handler ended. What is left of its request is given up. Its response
    /// counts only while the exchange is not over; one that panicked is
    /// answered for.
    pub fn handler_done(&mut self, completion: HandlerCompletion) -> (end: HandlerEnd)
        requires
            old(self).valid(),
        ensures
            final(self).valid(),
            final(self)@ == (ServerView {
                streams: old(self)@.streams.remove(completion.exchange()),
                running: old(self)@.running.remove(completion.exchange()),
                ..old(self)@
            }),
            end.abandon_request == old(self)@.streams.contains_key(completion.exchange()),
            match completion {
                HandlerCompletion::Cancelled(_) => end.next is Ok && end.next->Ok_0 is Nothing,
                HandlerCompletion::Panicked(id) => {
                    &&& end.next is Ok
                    &&& if old(self)@.exchanges.contains(id) {
                        end.next->Ok_0 matches HandlerNext::Respond(response) && apologizes(
                            response,
                        )
                    } else {
                        end.next->Ok_0 is Nothing
                    }
                },
                HandlerCompletion::Response(id, outcome) => if !old(self)@.exchanges.contains(id) {
                    end.next is Ok && end.next->Ok_0 is Nothing
                } else {
                    match outcome {
                        Ok(response) => end.next == Ok::<HandlerNext, Error>(
                            HandlerNext::Respond(response),
                        ),
                        Err(error) => end.next == Err::<HandlerNext, Error>(error),
                    }
                },
            },
    {
        let id: u64 = completion.exchange_id();
        let abandon_request = self.streams.contains_key(&id);
        self.streams.remove(&id);
        self.running.remove(&id);
        proof {
            assert(self@.streams =~= old(self)@.streams.remove(id));
            assert(self@.running =~= old(self)@.running.remove(id));
        }
        let active = self.exchanges.contains(&id);
        let next = match completion {
            HandlerCompletion::Cancelled(_) => Ok(HandlerNext::Nothing),
            HandlerCompletion::Panicked(_) => if active {
                Ok(HandlerNext::Respond(internal_server_error()))
            } else {
                Ok(HandlerNext::Nothing)
            },
            HandlerCompletion::Response(_, outcome) => if active {
                match outcome {
                    Ok(response) => Ok(HandlerNext::Respond(response)),
                    Err(error) => Err(error),
                }
            } else {
                Ok(HandlerNext::Nothing)
            },
        };
        HandlerEnd { abandon_request, next }
    }

    /// The driver took the head of a response. `send_body` says whether a body
    /// follows; a response without one has no place for trailers. A response
    /// whose trailers were sent with a clone of its body is refused.
    pub fn respond(
        &mut self,
        id: u64,
        body: Body,
        send_body: bool,
        protocol: WireProtocol,
        table: &mut TrailerTable,
    ) -> (responded: Result<(), Error>)
        requires
            old(self).valid(),
        ensures
            final(self).valid(),
            old(table)@.valid() ==> final(table)@.valid(),
            final(table)@ == if send_body {
                old(table)@.sent(body.outbound())
            } else {
                old(table)@
            },
            ({
                let has_trailers = body.outbound() is Some;
                if send_body && old(table)@.sendable(body.outbound()) {
                    &&& responded is Ok
                    &&& final(self)@ == (ServerView {
                        responses: old(self)@.responses.insert(
                            id,
                            SendingView {
                                body: match body@ {
                                    BodyView::Buffered(bytes) => ResponseBodyView::Buffered {
                                        rest: bytes,
                                        streaming_framing: has_trailers,
                                        terminated: false,
                                    },
                                    BodyView::Streaming(source) => ResponseBodyView::Streaming(
                                        crate::web::body::CursorView::start(source),
                                    ),
                                },
                                callback: body.outbound(),
                            },
                        ),
                        ..old(self)@
                    })
                } else if send_body {
                    &&& final(self)@ == old(self)@
                    &&& responded is Err
                    &&& responded->Err_0@ == crate::web::message::protocol_fault(
                        ProtocolErrorKind::InvalidState,
                        "the response trailer callback was already consumed by a cloned body"@,
                    )
                } else if has_trailers {
                    &&& final(self)@ == old(self)@
                    &&& responded is Err
                    &&& responded->Err_0@ == crate::web::message::protocol_fault(
                        ProtocolErrorKind::InvalidState,
                        "response trailers cannot be sent on a bodyless response"@,
                    )
                } else {
                    &&& responded is Ok
                    &&& final(self)@ == if protocol == WireProtocol::Http2 {
                        ServerView {
                            header_only: old(self)@.header_only.insert(id),
                            ..old(self)@
                        }
                    } else {
                        old(self)@
                    }
                }
            }),
    {
        let has_trailers = body.has_outbound_trailers();
        if send_body {
            match ResponseBody::new(body, has_trailers, table) {
                Ok(response) => {
                    self.put_response(id, response);
                    Ok(())
                },
                Err(error) => Err(error),
            }
        } else if has_trailers {
            Err(
                Error::protocol(
                    ProtocolErrorKind::InvalidState,
                    "response trailers cannot be sent on a bodyless response",
                ),
            )
        } else {
            if protocol == WireProtocol::Http2 {
                self.header_only.insert(id);
                assert(self@.header_only =~= old(self)@.header_only.insert(id));
            }
            Ok(())
        }
    }

    /// The exchange whose response consists of the head that is written, where
    /// it does.
    pub fn header_only_exchange(&self, bytes: &[u8]) -> (id: Option<u64>)
        ensures
            match headers_stream(bytes@) {
                Some(stream) => id == if self@.header_only.contains(stream as u64) {
                    Some(stream as u64)
                } else {
                    None
                },
                None => id is None,
            },
    {
        match decode_headers_stream(bytes) {
            Some(stream) => if self.header_only.contains(&stream) {
                Some(stream)
            } else {
                None
            },
            None => None,
        }
    }

    /// The head of a response without a body was written: it is complete.
    pub fn head_written(&mut self, id: u64)
        requires
            old(self).valid(),
        ensures
            final(self).valid(),
            final(self)@ == (ServerView {
                header_only: old(self)@.header_only.remove(id),
                completed: old(self)@.completed.insert(id),
                ..old(self)@
            }),
    {
        self.header_only.remove(&id);
        self.completed.insert(id);
        proof {
            assert(self@.header_only =~= old(self)@.header_only.remove(id));
            assert(self@.completed =~= old(self)@.completed.insert(id));
        }
    }

    /// A response failed. Over HTTP/2, where the driver could give it up alone
    /// (`abandoned`), the connection goes on and the failure is reported;
    /// otherwise the connection fails.
    pub fn response_failed(
        &mut self,
        failure: ResponseFailure,
        protocol: WireProtocol,
        abandoned: bool,
    ) -> (report: Result<ServeError, Error>)
        requires
            old(self).valid(),
        ensures
            final(self).valid(),
            if protocol != WireProtocol::Http2 || !abandoned {
                &&& final(self)@ == old(self)@
                &&& report is Err
                &&& report->Err_0@ == failure.connection_error()
            } else {
                &&& final(self)@ == (ServerView {
                    responses: old(self)@.responses.remove(failure.exchange()),
                    completed: old(self)@.completed.insert(failure.exchange()),
                    ..old(self)@
                })
                &&& report == Ok::<ServeError, Error>(
                    match failure {
                        ResponseFailure::Body { error, .. } => ServeError::ResponseBody(error),
                        ResponseFailure::Trailers { error, .. } => ServeError::ResponseTrailers(
                            error,
                        ),
                        ResponseFailure::TrailerCallbackPanicked {
                            payload,
                            ..
                        } => ServeError::HandlerPanicked(payload),
                    },
                )
            },
    {
        let id: u64 = failure.exchange_id();
        if protocol != WireProtocol::Http2 || !abandoned {
            return Err(failure.into_connection_error());
        }
        let _ = self.take_response(id);
        self.completed.insert(id);
        assert(self@.completed =~= old(self)@.completed.insert(id));
        Ok(
            match failure {
                ResponseFailure::Body { error, .. } => ServeError::ResponseBody(error),
                ResponseFailure::Trailers { error, .. } => ServeError::ResponseTrailers(error),
                ResponseFailure::TrailerCallbackPanicked {
                    payload,
                    ..
                } => ServeError::HandlerPanicked(payload),
            },
        )
    }

    /// The bytes that a response offers.
    pub fn response_bytes(&self, id: u64) -> (bytes: Option<&[u8]>)
        requires
            self.valid(),
        ensures
            match bytes {
                Some(bytes) => self@.responses.contains_key(id) && self@.responses[id].body.offer()
                    == Some(bytes@),
                None => !self@.responses.contains_key(id) || self@.responses[id].body.offer()
                    is None,
            },
    {
        match self.responses.get(&id) {
            Some(response) => response.available(),
            None => None,
        }
    }

    /// Takes the callback that produces the trailers of a response once only
    /// its end is left to be written.
    pub fn due_trailers(&mut self, id: u64) -> (callback: Option<u64>)
        requires
            old(self).valid(),
        ensures
            final(self).valid(),
            ({
                let due = old(self)@.responses.contains_key(id) && (
                old(self)@.responses[id].body.offer() matches Some(bytes) && bytes.len() == 0);
                &&& callback == if due {
                    old(self)@.responses[id].callback
                } else {
                    None
                }
                &&& final(self)@ == if due {
                    ServerView {
                        responses: old(self)@.responses.insert(
                            id,
                            SendingView { callback: None, ..old(self)@.responses[id] },
                        ),
                        ..old(self)@
                    }
                } else {
                    old(self)@
                }
            }),
    {
        let due = match self.response_bytes(id) {
            Some(bytes) => bytes.len() == 0,
            None => false,
        };
        if !due {
            return None;
        }
        match self.take_response(id) {
            Some(response) => {
                let mut response = response;
                let callback = response.take_trailers();
                self.put_response(id, response);
                assert(self@.responses =~= old(self)@.responses.insert(
                    id,
                    SendingView { callback: None, ..old(self)@.responses[id] },
                ));
                callback
            },
            None => None,
        }
    }

    /// Part of a response was written. A response of which everything was
    /// written is complete.
    pub fn commit_response(&mut self, id: u64, payload_len: usize) -> (action: BodyAction)
        requires
            old(self).valid(),
            old(self)@.responses.contains_key(id),
            old(self)@.responses[id].body.may_commit(payload_len as int),
        ensures
            final(self).valid(),
            ({
                let after = old(self)@.responses[id].body.committed(payload_len as int);
                if after.done() {
                    &&& action == BodyAction::Complete
                    &&& final(self)@ == (ServerView {
                        responses: old(self)@.responses.remove(id),
                        completed: old(self)@.completed.insert(id),
                        ..old(self)@
                    })
                } else {
                    &&& action == BodyAction::Sent
                    &&& final(self)@ == (ServerView {
                        responses: old(self)@.responses.insert(
                            id,
                            SendingView { body: after, ..old(self)@.responses[id] },
                        ),
                        ..old(self)@
                    })
                }
            }),
    {
        match self.take_response(id) {
            Some(response) => {
                let response = response.commit(payload_len);
                if response.is_complete() {
                    self.completed.insert(id);
                    assert(self@.completed =~= old(self)@.completed.insert(id));
                    BodyAction::Complete
                } else {
                    self.put_response(id, response);
                    assert(self@.responses =~= old(self)@.responses.insert(
                        id,
                        SendingView {
                            body: old(self)@.responses[id].body.committed(payload_len as int),
                            ..old(self)@.responses[id]
                        },
                    ));
                    BodyAction::Sent
                }
            },
            None => BodyAction::Blocked,
        }
    }

    /// The source of the streamed body of a response that is being sent.
    pub fn response_source(&self, id: u64) -> (source: Option<u64>)
        ensures
            source == if self@.responses.contains_key(id) {
                self@.responses[id].body.source()
            } else {
                None
            },
    {
        match self.responses.get(&id) {
            Some(response) => response.source(),
            None => None,
        }
    }

    /// Whether a response waits for the source of its body.
    pub fn response_needs_chunk(&self, id: u64) -> (needs: bool)
        requires
            self.valid(),
        ensures
            needs == (self@.responses.contains_key(id)
                && self@.responses[id].body.wants_chunk()),
    {
        match self.responses.get(&id) {
            Some(response) => response.needs_chunk(),
            None => false,
        }
    }

    /// The source of a response body answered: whether it can go on, or the
    /// failure of the response.
    pub fn poll_response(&mut self, id: u64, answer: SourcePoll) -> (ready: Result<
        bool,
        ResponseFailure,
    >)
        requires
            old(self).valid(),
            old(self)@.responses.contains_key(id),
            old(self)@.responses[id].body.wants_chunk(),
            answer.is_fair(),
        ensures
            final(self).valid(),
            final(self)@ == (ServerView {
                responses: old(self)@.responses.insert(
                    id,
                    SendingView {
                        body: old(self)@.responses[id].body.polled(answer),
                        ..old(self)@.responses[id]
                    },
                ),
                ..old(self)@
            }),
            match answer {
                SourcePoll::Failed(message) => ready matches Err(
                    ResponseFailure::Body { exchange_id, error },
                ) && exchange_id == id && error@ == ErrorView::BodyStream(message@),
                SourcePoll::Pending => ready == Ok::<bool, ResponseFailure>(false),
                _ => ready == Ok::<bool, ResponseFailure>(true),
            },
    {
        match self.take_response(id) {
            Some(response) => {
                let (response, poll) = response.poll_chunk(answer);
                self.put_response(id, response);
                assert(self@.responses =~= old(self)@.responses.insert(
                    id,
                    SendingView {
                        body: old(self)@.responses[id].body.polled(answer),
                        ..old(self)@.responses[id]
                    },
                ));
                match poll {
                    BodyPoll::Ready => Ok(true),
                    BodyPoll::Pending => Ok(false),
                    BodyPoll::Failed(message) => Err(
                        ResponseFailure::Body {
                            exchange_id: id,
                            error: Error::BodyStream { message },
                        },
                    ),
                }
            },
            None => Ok(false),
        }
    }

    /// The exchanges with a response whose body is sent, each once, in no
    /// order.
    pub fn response_ids(&self) -> (ids: Vec<u64>)
        ensures
            ids@.to_set() == self@.responses.dom(),
            ids@.no_duplicates(),
    {
        let mut ids: Vec<u64> = Vec::new();
        for id in iter: self.responses.keys()
            invariant
                iter.seq().unref().to_set() == self.responses@.dom(),
                ids@ == iter.seq().take(iter.index()).unref(),
                iter.index() == iter.seq().len() ==> ids@ == iter.seq().unref(),
        {
            ids.push(*id);
        }
        assert(self@.responses.dom() =~= self.responses@.dom());
        ids
    }
}

impl ServerExchanges {
    /// The responses that are complete, each once, in no order.
    pub fn completed_ids(&self) -> (ids: Vec<u64>)
        ensures
            ids@.to_set() == self@.completed,
            ids@.no_duplicates(),
    {
        let mut ids: Vec<u64> = Vec::new();
        for id in iter: self.completed.iter()
            invariant
                iter.seq().unref().to_set() == self.completed@,
                ids@ == iter.seq().take(iter.index()).unref(),
                iter.index() == iter.seq().len() ==> ids@ == iter.seq().unref(),
        {
            ids.push(*id);
        }
        ids
    }

    /// The requests whose body is streamed, each once, in no order.
    pub fn stream_ids(&self) -> (ids: Vec<u64>)
        ensures
            ids@.to_set() == self@.streams.dom(),
            ids@.no_duplicates(),
    {
        let mut ids: Vec<u64> = Vec::new();
        for id in iter: self.streams.keys()
            invariant
                iter.seq().unref().to_set() == self.streams@.dom(),
                ids@ == iter.seq().take(iter.index()).unref(),
                iter.index() == iter.seq().len() ==> ids@ == iter.seq().unref(),
        {
            ids.push(*id);
        }
        ids
    }

    /// Whether some handler asked for a chunk.
    fn any_demand(&self) -> (any: bool)
        ensures
            any == self@.has_demand(),
    {
        let ids = self.stream_ids();
        let mut index: usize = 0;
        while index < ids.len()
            invariant
                index <= ids@.len(),
                ids@.to_set() == self@.streams.dom(),
                forall|i: int| 0 <= i < index ==> !self@.streams[#[trigger] ids@[i]].demanded,
            decreases ids@.len() - index,
        {
            let id: u64 = ids[index];
            assert(ids@.to_set().contains(id));
            match self.streams.get(&id) {
                Some(stream) => if stream.demanded {
                    assert(self@.streams.contains_key(id));
                    return true;
                },
                None => {},
            }
            index = index + 1;
        }
        proof {
            assert forall|id: u64| #[trigger] self@.streams.contains_key(id) implies
                !self@.streams[id].demanded by {
                assert(ids@.to_set().contains(id));
                let i = choose|i: int| 0 <= i < ids@.len() && ids@[i] == id;
                assert(!self@.streams[ids@[i]].demanded);
            }
        }
        false
    }

    /// Whether the connection has to wait until a handler asks for a chunk.
    /// Over HTTP/1.1 nothing is read while a body is streamed that nobody asks
    /// for; over HTTP/2 only while a chunk was handed over and not taken, which
    /// `unread` says.
    pub fn waits_for_demand(&self, protocol: WireProtocol, unread: bool) -> (waits: bool)
        ensures
            waits == match protocol {
                WireProtocol::Http1 => self@.streams.dom().len() != 0 && !self@.has_demand(),
                WireProtocol::Http2 => unread && !self@.has_demand(),
                _ => false,
            },
    {
        match protocol {
            WireProtocol::Http1 => !self.streams.is_empty() && !self.any_demand(),
            WireProtocol::Http2 => unread && !self.any_demand(),
            _ => false,
        }
    }

    /// The handler of a streamed request took the chunk that was handed over.
    pub fn chunk_taken(&mut self, id: u64)
        requires
            old(self).valid(),
        ensures
            final(self).valid(),
            final(self)@ == if old(self)@.streams.contains_key(id) {
                ServerView {
                    streams: old(self)@.streams.insert(
                        id,
                        RequestStream { chunk_pending: false, ..old(self)@.streams[id] },
                    ),
                    ..old(self)@
                }
            } else {
                old(self)@
            },
    {
        match self.streams.remove(&id) {
            Some(stream) => {
                self.streams.insert(id, RequestStream { chunk_pending: false, ..stream });
                assert(self@.streams =~= old(self)@.streams.insert(
                    id,
                    RequestStream { chunk_pending: false, ..old(self)@.streams[id] },
                ));
            },
            None => {
                assert(self@.streams =~= old(self)@.streams);
            },
        }
    }

    /// The driver has nothing more to do: every exchange is over. The result
    /// lists them, each once, in no order; what is left of each is forgotten
    /// before the driver begins the next.
    pub fn finish_all(&mut self) -> (ids: Vec<u64>)
        requires
            old(self).valid(),
        ensures
            final(self).valid(),
            ids@.to_set() == old(self)@.exchanges,
            ids@.no_duplicates(),
            final(self)@ == (ServerView {
                header_only: Set::empty(),
                completed: Set::empty(),
                exchanges: Set::empty(),
                ..old(self)@
            }),
    {
        let mut ids: Vec<u64> = Vec::new();
        for id in iter: self.exchanges.iter()
            invariant
                iter.seq().unref().to_set() == self.exchanges@,
                ids@ == iter.seq().take(iter.index()).unref(),
                iter.index() == iter.seq().len() ==> ids@ == iter.seq().unref(),
        {
            ids.push(*id);
        }
        self.header_only.clear();
        self.completed.clear();
        self.exchanges.clear();
        ids
    }
}

/// The next chunk of a request whose body is streamed. `overrun` says whether
/// the connection cut the body short: its end is then no end.
pub fn request_chunk(received: Option<Vec<u8>>, overrun: bool) -> (chunk: Result<
    Option<Vec<u8>>,
    Error,
>)
    ensures
        match received {
            Some(bytes) => chunk == Ok::<Option<Vec<u8>>, Error>(Some(bytes)),
            None => if overrun {
                chunk is Err && chunk->Err_0@ == crate::web::message::protocol_fault(
                    ProtocolErrorKind::InvalidState,
                    "the request body outran this consumer and was truncated"@,
                )
            } else {
                chunk == Ok::<Option<Vec<u8>>, Error>(None)
            },
        },
{
    match received {
        Some(bytes) => Ok(Some(bytes)),
        None => if overrun {
            Err(
                Error::protocol(
                    ProtocolErrorKind::InvalidState,
                    "the request body outran this consumer and was truncated",
                ),
            )
        } else {
            Ok(None)
        },
    }
}

/// What a driver reports of a request.
pub enum ServerEvent {
    /// Its head.
    RequestHead {
        /// The exchange.
        exchange_id: u64,
        /// The head.
        head: ReceivedRequestHead,
        /// Whether the peer waits for leave to send the body.
        expects_continue: bool,
    },
    /// Part of its body.
    RequestBody {
        /// The exchange.
        exchange_id: u64,
        /// The bytes.
        chunk: Vec<u8>,
    },
    /// Its trailers.
    RequestTrailers {
        /// The exchange.
        exchange_id: u64,
        /// The fields.
        headers: Vec<HeaderField>,
    },
    /// Its end.
    RequestComplete {
        /// The exchange.
        exchange_id: u64,
    },
    /// An event that this library does not know.
    Unknown,
}

/// What a driver asks for, or reports.
pub enum ServerStep {
    /// It needs bytes of the peer.
    NeedInput,
    /// It holds these bytes for the peer.
    Write(Vec<u8>),
    /// It has nothing more to do.
    Done,
    /// It reports something.
    Event(ServerEvent),
    /// A step that this library does not know.
    Unknown,
}

impl ServerStep {
    /// Whether the fields of the step fit into a header map.
    pub open spec fn fits(&self) -> bool {
        match self {
            ServerStep::Event(ServerEvent::RequestHead { head, .. }) => head.fields@.len()
                < crate::web::headers::MAX_HEADER_NAMES,
            ServerStep::Event(ServerEvent::RequestTrailers { headers, .. }) => headers@.len()
                <= crate::web::headers::MAX_HEADER_NAMES,
            _ => true,
        }
    }
}

/// What a connection does after a step of its driver.
pub enum ServeAction {
    /// It goes on.
    Progress,
    /// It lets the driver have input.
    NeedInput,
    /// It writes what the driver holds, which may be all of a response.
    Write(Option<u64>),
    /// A request begins.
    RequestHead {
        /// The exchange.
        exchange_id: u64,
        /// Whether the peer waits for leave to send the body.
        expects_continue: bool,
    },
    /// Part of a body goes to the handler.
    Deliver(u64, Vec<u8>),
    /// Trailers go to the handler.
    Trailers(u64, Headers),
    /// A request is complete.
    RequestComplete(u64),
    /// Every exchange is over.
    Done,
}

impl ServerExchanges {
    /// What a step that the driver made means.
    pub fn classify_step(&mut self, step: ServerStep, protocol: WireProtocol) -> (action: Result<
        ServeAction,
        Error,
    >)
        requires
            old(self).valid(),
            step.fits(),
        ensures
            final(self).valid(),
            match step {
                ServerStep::NeedInput => {
                    &&& final(self)@ == old(self)@
                    &&& action is Ok
                    &&& action->Ok_0 is NeedInput
                },
                ServerStep::Write(bytes) => {
                    &&& final(self)@ == old(self)@
                    &&& action is Ok
                    &&& action->Ok_0 matches ServeAction::Write(written) && written == (
                    match headers_stream(bytes@) {
                        Some(stream) => if old(self)@.header_only.contains(stream as u64) {
                            Some(stream as u64)
                        } else {
                            None
                        },
                        None => None,
                    })
                },
                ServerStep::Done => {
                    &&& final(self)@ == old(self)@
                    &&& action is Ok
                    &&& action->Ok_0 is Done
                },
                ServerStep::Event(ServerEvent::RequestHead { exchange_id, head, expects_continue }) => {
                    match action {
                        Ok(action) => {
                            &&& head_effect(old(self)@, final(self)@, exchange_id, head, Ok(()))
                            &&& action == (ServeAction::RequestHead {
                                exchange_id,
                                expects_continue,
                            })
                        },
                        Err(error) => head_effect(
                            old(self)@,
                            final(self)@,
                            exchange_id,
                            head,
                            Err(error),
                        ),
                    }
                },
                ServerStep::Event(ServerEvent::RequestBody { exchange_id, chunk }) => match action {
                    Ok(ServeAction::Progress) => body_effect(
                        old(self)@,
                        final(self)@,
                        exchange_id,
                        chunk@,
                        protocol,
                        Ok(RequestBodyAction::Progress),
                    ),
                    Ok(ServeAction::Deliver(id, bytes)) => id == exchange_id && body_effect(
                        old(self)@,
                        final(self)@,
                        exchange_id,
                        chunk@,
                        protocol,
                        Ok(RequestBodyAction::Deliver(bytes)),
                    ),
                    Ok(_) => false,
                    Err(error) => body_effect(
                        old(self)@,
                        final(self)@,
                        exchange_id,
                        chunk@,
                        protocol,
                        Err(error),
                    ),
                },
                ServerStep::Event(ServerEvent::RequestTrailers { exchange_id, headers }) => {
                    match action {
                        Ok(ServeAction::Progress) => trailers_effect(
                            old(self)@,
                            final(self)@,
                            exchange_id,
                            headers@,
                            Ok(None),
                        ),
                        Ok(ServeAction::Trailers(id, kept)) => id == exchange_id
                            && trailers_effect(
                            old(self)@,
                            final(self)@,
                            exchange_id,
                            headers@,
                            Ok(Some(kept)),
                        ),
                        Ok(_) => false,
                        Err(error) => trailers_effect(
                            old(self)@,
                            final(self)@,
                            exchange_id,
                            headers@,
                            Err(error),
                        ),
                    }
                },
                ServerStep::Event(ServerEvent::RequestComplete { exchange_id }) => {
                    &&& final(self)@ == old(self)@
                    &&& if old(self)@.requests.contains_key(exchange_id) {
                        action == Ok::<ServeAction, Error>(
                            ServeAction::RequestComplete(exchange_id),
                        )
                    } else {
                        &&& action is Err
                        &&& action->Err_0@ == crate::web::message::protocol_fault(
                            ProtocolErrorKind::UnexpectedEvent,
                            "request completion had no in-progress exchange"@,
                        )
                    }
                },
                _ => {
                    &&& final(self)@ == old(self)@
                    &&& action is Err
                    &&& action->Err_0@ == crate::web::message::protocol_fault(
                        ProtocolErrorKind::UnexpectedEvent,
                        "the connection driver returned an unexpected server step"@,
                    )
                },
            },
    {
        match step {
            ServerStep::NeedInput => Ok(ServeAction::NeedInput),
            ServerStep::Write(bytes) => Ok(
                ServeAction::Write(self.header_only_exchange(bytes.as_slice())),
            ),
            ServerStep::Done => Ok(ServeAction::Done),
            ServerStep::Event(ServerEvent::RequestHead { exchange_id, head, expects_continue }) => {
                match self.request_head(exchange_id, head) {
                    Ok(()) => Ok(ServeAction::RequestHead { exchange_id, expects_continue }),
                    Err(error) => Err(error),
                }
            },
            ServerStep::Event(ServerEvent::RequestBody { exchange_id, chunk }) => {
                match self.request_body(exchange_id, chunk.as_slice(), protocol) {
                    Ok(RequestBodyAction::Progress) => Ok(ServeAction::Progress),
                    Ok(RequestBodyAction::Deliver(bytes)) => Ok(
                        ServeAction::Deliver(exchange_id, bytes),
                    ),
                    Err(error) => Err(error),
                }
            },
            ServerStep::Event(ServerEvent::RequestTrailers { exchange_id, headers }) => {
                match self.request_trailers(exchange_id, &headers) {
                    Ok(None) => Ok(ServeAction::Progress),
                    Ok(Some(kept)) => Ok(ServeAction::Trailers(exchange_id, kept)),
                    Err(error) => Err(error),
                }
            },
            ServerStep::Event(ServerEvent::RequestComplete { exchange_id }) => {
                if self.requests.contains_key(&exchange_id) {
                    Ok(ServeAction::RequestComplete(exchange_id))
                } else {
                    Err(
                        Error::protocol(
                            ProtocolErrorKind::UnexpectedEvent,
                            "request completion had no in-progress exchange",
                        ),
                    )
                }
            },
            _ => Err(
                Error::protocol(
                    ProtocolErrorKind::UnexpectedEvent,
                    "the connection driver returned an unexpected server step",
                ),
            ),
        }
    }
}

/// What is known of the peer's side of a connection.
#[derive(Clone, Copy, Debug, PartialEq, Eq, Structural)]
pub enum InputState {
    /// More may come.
    Open,
    /// The peer closed it.
    PeerClosed,
    /// The server stops.
    Shutdown,
}

/// What a connection does next.
#[derive(Clone, Copy, Debug, PartialEq, Eq, Structural)]
pub enum ServePhase {
    /// It parts with the responses that are complete.
    Retire,
    /// It asks the sources of response bodies.
    Poll,
    /// It looks what handlers ask for.
    Demand,
    /// It looks whether a handler ended.
    Handlers,
    /// It waits for a handler.
    AwaitHandler,
    /// It tries to write part of a response.
    Write,
    /// It looks whether it has to wait before it goes on.
    Gate,
    /// It waits for the source of a response body.
    AwaitSource,
    /// It waits until a handler asks for a chunk.
    AwaitDemand,
    /// It has the driver make a step.
    Step,
    /// It waits.
    Wait,
    /// It is over.
    Stopped,
}

/// The turns of a connection.
#[derive(Clone, Copy, Debug, PartialEq, Eq, Structural)]
pub struct ServePump {
    /// What it does next.
    pub phase: ServePhase,
    /// Whether a response body goes before the driver.
    pub prefer_body: bool,
    /// Whether it tried to write part of a response in this turn.
    pub attempted_body: bool,
    /// The peer's side.
    pub input: InputState,
}

/// What came of an attempt to write part of a response.
#[derive(Clone, Copy, Debug, PartialEq, Eq, Structural)]
pub enum WriteOutcome {
    /// Nothing could be written.
    Blocked,
    /// Part of a response was written.
    Sent,
    /// The last part of a response was written.
    Complete,
    /// A response failed, and only that.
    ResponseFailed,
}

/// How a wait ended.
pub enum ServeEvent {
    /// The peer sent so many bytes, or reading failed.
    Input(Result<usize, Error>),
    /// The source of a response body answered.
    Body,
    /// A handler ended.
    Handler,
}

/// What a connection knows when its driver needs input.
#[derive(Clone, Copy, Debug, PartialEq, Eq, Structural)]
pub struct InputNeed {
    /// How many bytes the driver consumed before.
    pub consumed: usize,
    /// Whether a response is sent.
    pub has_responses: bool,
    /// Whether a request still arrives.
    pub has_requests: bool,
    /// Whether bytes of the peer are left.
    pub input_pending: bool,
    /// Whether a handler runs.
    pub has_handlers: bool,
}

impl ServePump {
    /// The same turns in another phase.
    pub open spec fn at(self, phase: ServePhase) -> ServePump {
        ServePump { phase, ..self }
    }

    /// The next turn, in which a response body goes first, or not.
    pub open spec fn turning(self, prefer_body: bool) -> ServePump {
        ServePump { phase: ServePhase::Retire, prefer_body, attempted_body: false, ..self }
    }

    /// Before the first turn.
    pub fn new() -> (pump: ServePump)
        ensures
            pump == (ServePump {
                phase: ServePhase::Retire,
                prefer_body: false,
                attempted_body: false,
                input: InputState::Open,
            }),
    {
        ServePump {
            phase: ServePhase::Retire,
            prefer_body: false,
            attempted_body: false,
            input: InputState::Open,
        }
    }

    fn turn(self, prefer_body: bool) -> (next: ServePump)
        ensures
            next == self.turning(prefer_body),
    {
        ServePump { phase: ServePhase::Retire, prefer_body, attempted_body: false, ..self }
    }

    /// Parted with the responses that are complete. `open` says whether the
    /// driver takes more exchanges.
    pub fn retired(self, open: bool) -> (next: ServePump)
        requires
            self.phase == ServePhase::Retire,
        ensures
            next == if open {
                self.at(ServePhase::Poll)
            } else {
                self.at(ServePhase::Stopped)
            },
    {
        let phase = if open {
            ServePhase::Poll
        } else {
            ServePhase::Stopped
        };
        ServePump { phase, ..self }
    }

    /// Asked the sources of response bodies. A response that failed alone was
    /// given up.
    pub fn polled(self, failed: bool) -> (next: ServePump)
        requires
            self.phase == ServePhase::Poll,
        ensures
            next == if failed {
                self.turning(true)
            } else {
                self.at(ServePhase::Demand)
            },
    {
        if failed {
            self.turn(true)
        } else {
            ServePump { phase: ServePhase::Demand, ..self }
        }
    }

    /// Looked what handlers ask for.
    pub fn demanded(self) -> (next: ServePump)
        requires
            self.phase == ServePhase::Demand,
        ensures
            next == self.at(ServePhase::Handlers),
    {
        ServePump { phase: ServePhase::Handlers, ..self }
    }

    /// After the look at the handlers.
    pub open spec fn after_handlers(
        self,
        ended: bool,
        mode: RequestMode,
        protocol: WireProtocol,
        has_handlers: bool,
        has_responses: bool,
    ) -> ServePump {
        if ended {
            self.turning(self.prefer_body)
        } else if mode == RequestMode::Buffered && protocol == WireProtocol::Http1
            && has_handlers {
            self.at(ServePhase::AwaitHandler)
        } else if self.prefer_body && has_responses {
            ServePump { phase: ServePhase::Write, attempted_body: true, ..self }
        } else {
            ServePump { phase: ServePhase::Gate, attempted_body: false, ..self }
        }
    }

    /// Looked whether a handler ended. Over HTTP/1.1 with whole requests one
    /// that runs is waited for: exchanges follow one another.
    pub fn handlers_polled(
        self,
        ended: bool,
        mode: RequestMode,
        protocol: WireProtocol,
        has_handlers: bool,
        has_responses: bool,
    ) -> (next: ServePump)
        requires
            self.phase == ServePhase::Handlers,
        ensures
            next == self.after_handlers(ended, mode, protocol, has_handlers, has_responses),
    {
        if ended {
            return self.turn(self.prefer_body);
        }
        if mode == RequestMode::Buffered && protocol == WireProtocol::Http1 && has_handlers {
            return ServePump { phase: ServePhase::AwaitHandler, ..self };
        }
        if self.prefer_body && has_responses {
            ServePump { phase: ServePhase::Write, attempted_body: true, ..self }
        } else {
            ServePump { phase: ServePhase::Gate, attempted_body: false, ..self }
        }
    }

    /// A handler that was waited for ended.
    pub fn handler_awaited(self) -> (next: ServePump)
        requires
            self.phase == ServePhase::AwaitHandler,
        ensures
            next == self.turning(self.prefer_body),
    {
        self.turn(self.prefer_body)
    }

    /// After an attempt to write.
    pub open spec fn after_write(self, outcome: WriteOutcome, protocol: WireProtocol) -> ServePump {
        match outcome {
            WriteOutcome::Blocked => self.at(ServePhase::Gate),
            WriteOutcome::Sent => self.turning(protocol == WireProtocol::Http1),
            WriteOutcome::Complete => self.turning(false),
            WriteOutcome::ResponseFailed => self.turning(true),
        }
    }

    /// Tried to write part of a response.
    pub fn wrote(self, outcome: WriteOutcome, protocol: WireProtocol) -> (next: ServePump)
        requires
            self.phase == ServePhase::Write,
        ensures
            next == self.after_write(outcome, protocol),
    {
        match outcome {
            WriteOutcome::Blocked => ServePump { phase: ServePhase::Gate, ..self },
            WriteOutcome::Sent => self.turn(protocol == WireProtocol::Http1),
            WriteOutcome::Complete => self.turn(false),
            WriteOutcome::ResponseFailed => self.turn(true),
        }
    }

    /// After the look for a reason to wait.
    pub open spec fn after_gate(
        self,
        protocol: WireProtocol,
        source_pending: bool,
        waits_for_demand: bool,
    ) -> ServePump {
        if self.attempted_body && protocol == WireProtocol::Http1 && source_pending {
            self.at(ServePhase::AwaitSource)
        } else if waits_for_demand {
            self.at(ServePhase::AwaitDemand)
        } else {
            self.at(ServePhase::Step)
        }
    }

    /// Looks whether the connection has to wait before it goes on: over
    /// HTTP/1.1 for the body of the response that is being sent, and for a
    /// handler that streams a request.
    pub fn gate(self, protocol: WireProtocol, source_pending: bool, waits_for_demand: bool) -> (next:
        ServePump)
        requires
            self.phase == ServePhase::Gate,
        ensures
            next == self.after_gate(protocol, source_pending, waits_for_demand),
    {
        let phase = if self.attempted_body && protocol == WireProtocol::Http1 && source_pending {
            ServePhase::AwaitSource
        } else if waits_for_demand {
            ServePhase::AwaitDemand
        } else {
            ServePhase::Step
        };
        ServePump { phase, ..self }
    }

    /// The source of a response body answered.
    pub fn source_awaited(self) -> (next: ServePump)
        requires
            self.phase == ServePhase::AwaitSource,
        ensures
            next == self.turning(true),
    {
        self.turn(true)
    }

    /// A handler asked for a chunk, or ended.
    pub fn demand_awaited(self) -> (next: ServePump)
        requires
            self.phase == ServePhase::AwaitDemand,
        ensures
            next == self.turning(self.prefer_body),
    {
        self.turn(self.prefer_body)
    }

    /// The driver's step was acted upon. A response body goes first then.
    pub fn acted(self) -> (next: ServePump)
        requires
            self.phase == ServePhase::Step,
        ensures
            next == self.turning(true),
    {
        self.turn(true)
    }

    /// The driver had nothing to do, and every exchange is over. `open` says
    /// whether it takes more.
    pub fn finished(self, open: bool) -> (next: ServePump)
        requires
            self.phase == ServePhase::Step,
        ensures
            next == if open {
                self.turning(false)
            } else {
                self.at(ServePhase::Stopped)
            },
    {
        if open {
            self.turn(false)
        } else {
            ServePump { phase: ServePhase::Stopped, ..self }
        }
    }

    /// After the peer reset an exchange.
    pub open spec fn after_reset(self, open: bool) -> ServePump {
        if open {
            self.turning(true)
        } else {
            self.at(ServePhase::Stopped)
        }
    }

    /// The peer reset an exchange, which is over. `open` says whether the
    /// connection takes more.
    pub fn reset(self, open: bool) -> (next: ServePump)
        requires
            self.phase == ServePhase::Step,
        ensures
            next == self.after_reset(open),
    {
        if open {
            self.turn(true)
        } else {
            ServePump { phase: ServePhase::Stopped, ..self }
        }
    }

    /// After the driver asked for input.
    pub open spec fn after_need(self, need: InputNeed) -> Result<ServePump, ErrorView> {
        if need.consumed != 0 || (!self.attempted_body && need.has_responses) {
            Ok(self.turning(true))
        } else if self.input == InputState::Open {
            Ok(self.at(ServePhase::Wait))
        } else if self.input == InputState::PeerClosed && (need.has_requests
            || need.input_pending) {
            Err(ErrorView::UnexpectedEof)
        } else if need.has_handlers {
            Ok(self.at(ServePhase::AwaitHandler))
        } else if !need.has_responses {
            Ok(self.at(ServePhase::Stopped))
        } else if self.input == InputState::PeerClosed {
            Err(ErrorView::UnexpectedEof)
        } else {
            Err(ErrorView::Canceled)
        }
    }

    /// The driver asked for input. Where none will come the connection ends
    /// once its handlers did; a request or a response that is cut short by that
    /// is a failure.
    pub fn need_input(self, need: InputNeed) -> (next: Result<ServePump, Error>)
        requires
            self.phase == ServePhase::Step,
        ensures
            match next {
                Ok(pump) => self.after_need(need) == Ok::<ServePump, ErrorView>(pump),
                Err(error) => self.after_need(need) == Err::<ServePump, ErrorView>(error@),
            },
    {
        if need.consumed != 0 || (!self.attempted_body && need.has_responses) {
            return Ok(self.turn(true));
        }
        if self.input == InputState::Open {
            return Ok(ServePump { phase: ServePhase::Wait, ..self });
        }
        if self.input == InputState::PeerClosed && (need.has_requests || need.input_pending) {
            return Err(Error::UnexpectedEof);
        }
        if need.has_handlers {
            return Ok(ServePump { phase: ServePhase::AwaitHandler, ..self });
        }
        if !need.has_responses {
            return Ok(ServePump { phase: ServePhase::Stopped, ..self });
        }
        if self.input == InputState::PeerClosed {
            Err(Error::UnexpectedEof)
        } else {
            Err(Error::Canceled)
        }
    }

    /// The wait ended. A server that stops reads no more, but lets its handlers
    /// end.
    pub fn waited(self, event: ServeEvent) -> (next: Result<ServePump, Error>)
        requires
            self.phase == ServePhase::Wait,
        ensures
            match event {
                ServeEvent::Input(Ok(amount)) => next == Ok::<ServePump, Error>(
                    ServePump {
                        input: if amount == 0 {
                            InputState::PeerClosed
                        } else {
                            self.input
                        },
                        ..self.turning(self.prefer_body)
                    },
                ),
                ServeEvent::Input(Err(error)) => if error is Canceled {
                    next == Ok::<ServePump, Error>(
                        ServePump {
                            input: InputState::Shutdown,
                            ..self.turning(self.prefer_body)
                        },
                    )
                } else {
                    next == Err::<ServePump, Error>(error)
                },
                ServeEvent::Body => next == Ok::<ServePump, Error>(self.turning(true)),
                ServeEvent::Handler => next == Ok::<ServePump, Error>(
                    self.turning(self.prefer_body),
                ),
            },
    {
        match event {
            ServeEvent::Input(Ok(amount)) => {
                let input = if amount == 0 {
                    InputState::PeerClosed
                } else {
                    self.input
                };
                Ok(ServePump { input, ..self.turn(self.prefer_body) })
            },
            ServeEvent::Input(Err(Error::Canceled)) => Ok(
                ServePump { input: InputState::Shutdown, ..self.turn(self.prefer_body) },
            ),
            ServeEvent::Input(Err(error)) => Err(error),
            ServeEvent::Body => Ok(self.turn(true)),
            ServeEvent::Handler => Ok(self.turn(self.prefer_body)),
        }
    }
}

/// A connection waits for its peer only when no response could be written.
pub proof fn responses_go_before_waiting(pump: ServePump, need: InputNeed)
    requires
        need.has_responses,
        pump.after_need(need) == Ok::<ServePump, ErrorView>(pump.at(ServePhase::Wait)),
        pump.phase != ServePhase::Wait,
    ensures
        pump.attempted_body,
        need.consumed == 0,
{
}

/// Over HTTP/2 response bodies and the driver take turns: once part of a
/// response was written the driver makes a step before the next, unless
/// something has to be waited for.
pub proof fn responses_and_steps_take_turns(
    pump: ServePump,
    mode: RequestMode,
    has_handlers: bool,
    source_pending: bool,
)
    ensures
        ({
            let next = pump.after_write(WriteOutcome::Sent, WireProtocol::Http2);
            next.after_handlers(false, mode, WireProtocol::Http2, has_handlers, true).after_gate(
                WireProtocol::Http2,
                source_pending,
                false,
            ).phase == ServePhase::Step
        }),
{
}

/// Over HTTP/1.1 with whole requests no step is made while a handler runs, so
/// that responses leave in the order of their requests.
pub proof fn exchanges_follow_one_another(pump: ServePump, has_responses: bool)
    ensures
        pump.after_handlers(
            false,
            RequestMode::Buffered,
            WireProtocol::Http1,
            true,
            has_responses,
        ).phase == ServePhase::AwaitHandler,
{
}

/// A peer that closes its side in the midst of a request is a failure, whatever
/// else is going on.
pub proof fn truncated_requests_fail(pump: ServePump, need: InputNeed)
    requires
        pump.input == InputState::PeerClosed,
        need.has_requests,
        need.consumed == 0,
        pump.attempted_body || !need.has_responses,
    ensures
        pump.after_need(need) == Err::<ServePump, ErrorView>(ErrorView::UnexpectedEof),
{
}

/// Nothing of an exchange that was forgotten is left, and the others are as
/// they were.
pub proof fn forgetting_is_complete_and_local(view: ServerView, id: u64, other: u64)
    requires
        other != id,
    ensures
        ({
            let after = view.without(id, true);
            &&& after.forgot(id)
            &&& after.requests.contains_key(other) == view.requests.contains_key(other)
            &&& view.requests.contains_key(other) ==> after.requests[other]
                == view.requests[other]
            &&& after.streams.contains_key(other) == view.streams.contains_key(other)
            &&& view.streams.contains_key(other) ==> after.streams[other] == view.streams[other]
            &&& after.running.contains(other) == view.running.contains(other)
            &&& after.responses.contains_key(other) == view.responses.contains_key(other)
            &&& view.responses.contains_key(other) ==> after.responses[other]
                == view.responses[other]
            &&& after.header_only.contains(other) == view.header_only.contains(other)
            &&& after.completed.contains(other) == view.completed.contains(other)
            &&& after.exchanges.contains(other) == view.exchanges.contains(other)
        }),
{
}

/// The bytes of a request body are kept in the order in which they arrive: after
/// two parts the body is what it was before, then the first part, then the
/// second, and that is the body that the handler gets. Nothing else of the
/// request changes, nor does any other request.
pub proof fn bodies_are_gathered_in_order(
    first: &mut ServerExchanges,
    second: &mut ServerExchanges,
    ending: &mut ServerExchanges,
    id: u64,
    chunks: (&[u8], &[u8]),
    protocol: WireProtocol,
    actions: (Result<RequestBodyAction, Error>, Result<RequestBodyAction, Error>),
    request: Result<Option<Request>, Error>,
)
    requires
        old(first)@.requests.contains_key(id),
        !old(first)@.streams.contains_key(id),
        call_ensures(ServerExchanges::request_body, (first, id, chunks.0, protocol), actions.0),
        *old(second) == *final(first),
        call_ensures(ServerExchanges::request_body, (second, id, chunks.1, protocol), actions.1),
        *old(ending) == *final(second),
        call_ensures(
            ServerExchanges::request_complete,
            (ending, id, RequestMode::Buffered),
            request,
        ),
    ensures
        actions.0 matches Ok(RequestBodyAction::Progress),
        actions.1 matches Ok(RequestBodyAction::Progress),
        final(second)@.requests[id].body == old(first)@.requests[id].body + chunks.0@ + chunks.1@,
        forall|other: u64|
            other != id ==> #[trigger] final(second)@.requests.contains_key(other)
                == old(first)@.requests.contains_key(other) && (old(first)@.requests.contains_key(other) ==> final(second)@.requests[other] == old(first)@.requests[other]),
        request matches Ok(Some(request)) && {
            &&& request.body@ == BodyView::Buffered(
                old(first)@.requests[id].body + chunks.0@ + chunks.1@,
            )
            &&& request.method@ == old(first)@.requests[id].method
            &&& request.uri@ == old(first)@.requests[id].uri
            &&& request.version == old(first)@.requests[id].version
            &&& request.headers@ == old(first)@.requests[id].fields
        },
{
}

/// What the driver reports of a body is kept in the order of its events.
pub proof fn reported_bodies_are_gathered_in_order(
    first: &mut ServerExchanges,
    second: &mut ServerExchanges,
    id: u64,
    chunks: (Vec<u8>, Vec<u8>),
    protocol: WireProtocol,
    actions: (Result<ServeAction, Error>, Result<ServeAction, Error>),
)
    requires
        old(first)@.requests.contains_key(id),
        !old(first)@.streams.contains_key(id),
        call_ensures(
            ServerExchanges::classify_step,
            (
                first,
                ServerStep::Event(ServerEvent::RequestBody { exchange_id: id, chunk: chunks.0 }),
                protocol,
            ),
            actions.0,
        ),
        *old(second) == *final(first),
        call_ensures(
            ServerExchanges::classify_step,
            (
                second,
                ServerStep::Event(ServerEvent::RequestBody { exchange_id: id, chunk: chunks.1 }),
                protocol,
            ),
            actions.1,
        ),
    ensures
        actions.0 matches Ok(ServeAction::Progress),
        actions.1 matches Ok(ServeAction::Progress),
        final(second)@.requests.contains_key(id),
        final(second)@.requests[id].body == old(first)@.requests[id].body + chunks.0@ + chunks.1@,
        final(second)@.requests[id].fields == old(first)@.requests[id].fields,
        final(second)@.requests[id].method == old(first)@.requests[id].method,
{
}

/// A request goes to its handler with the head, the body and the trailers that
/// were received for its exchange.
pub proof fn handlers_get_what_was_received(
    beginning: &mut ServerExchanges,
    filling: &mut ServerExchanges,
    trailing: &mut ServerExchanges,
    ending: &mut ServerExchanges,
    id: u64,
    head: ReceivedRequestHead,
    chunk: &[u8],
    trailers: &Vec<HeaderField>,
    protocol: WireProtocol,
    kept: Result<RequestBodyAction, Error>,
    request: Result<Option<Request>, Error>,
)
    requires
        !old(beginning)@.streams.contains_key(id),
        call_ensures(ServerExchanges::request_head, (beginning, id, head), Ok(())),
        *old(filling) == *final(beginning),
        call_ensures(ServerExchanges::request_body, (filling, id, chunk, protocol), kept),
        *old(trailing) == *final(filling),
        call_ensures(ServerExchanges::request_trailers, (trailing, id, trailers), Ok(None)),
        *old(ending) == *final(trailing),
        call_ensures(
            ServerExchanges::request_complete,
            (ending, id, RequestMode::Buffered),
            request,
        ),
    ensures
        request matches Ok(Some(request)) && {
            &&& request.method@.len() == head.method@.len()
            &&& forall|i: int|
                0 <= i < head.method@.len() ==> (#[trigger] request.method@[i]) as int
                    == head.method@[i] as int
            &&& head.version is Http10 ==> request.version == Version::Http10
            &&& head.version is Http11 ==> request.version == Version::Http11
            &&& head.version is Http2 ==> request.version == Version::Http2
            &&& head.authority is None ==> request.headers@ == crate::web::headers::fields_of(
                crate::web::headers::field_list(head.fields@),
            )
            &&& request.body@ == BodyView::Buffered(chunk@)
            &&& request.body.inbound() == Some(
                ReceivedView::Complete(
                    crate::web::headers::fields_of(crate::web::headers::field_list(trailers@)),
                ),
            )
            &&& request.body.outbound() is None
        },
        !final(ending)@.requests.contains_key(id),
        final(ending)@.running.contains(id),
        !old(beginning)@.exchanges.contains(id),
{
    assert(Seq::<u8>::empty() + chunk@ =~= chunk@);
}

/// A streamed request goes to its handler with its head at once, and then each
/// part of its body as it arrived. Over HTTP/1.1 that needs the handler to have
/// asked, which counts for one part.
pub proof fn streamed_parts_reach_their_handler(
    starting: &mut ServerExchanges,
    demanding: &mut ServerExchanges,
    taking: &mut ServerExchanges,
    delivering: &mut ServerExchanges,
    again: &mut ServerExchanges,
    id: u64,
    body: Body,
    request: Option<Request>,
    chunk: &[u8],
    action: Result<RequestBodyAction, Error>,
    delivered: RequestAction,
    refused: Result<RequestBodyAction, Error>,
)
    requires
        old(starting)@.requests.contains_key(id),
        !old(starting)@.responses.contains_key(id),
        call_ensures(
            ServerExchanges::start_streaming,
            (starting, id, RequestMode::Streaming, body),
            request,
        ),
        *old(demanding) == *final(starting),
        call_ensures(ServerExchanges::demand, (demanding, id), ()),
        *old(taking) == *final(demanding),
        call_ensures(
            ServerExchanges::request_body,
            (taking, id, chunk, WireProtocol::Http1),
            action,
        ),
        *old(delivering) == *final(taking),
        call_ensures(ServerExchanges::delivered, (delivering, id, Delivery::Taken), delivered),
        *old(again) == *final(delivering),
        call_ensures(
            ServerExchanges::request_body,
            (again, id, chunk, WireProtocol::Http1),
            refused,
        ),
    ensures
        request matches Some(request) && {
            &&& request.method@ == old(starting)@.requests[id].method
            &&& request.uri@ == old(starting)@.requests[id].uri
            &&& request.version == old(starting)@.requests[id].version
            &&& request.headers@ == old(starting)@.requests[id].fields
            &&& request.body == body
        },
        final(starting)@.running.contains(id),
        action matches Ok(RequestBodyAction::Deliver(bytes)) && bytes@ == chunk@,
        delivered == RequestAction::Streamed,
        final(delivering)@.streams[id].chunk_pending,
        !final(delivering)@.streams[id].demanded,
        refused is Err,
{
}

/// Over HTTP/2 a part of a streamed body is handed on whether the handler asked
/// or not; a handler that is gone or did not keep up ends its request alone.
pub proof fn slow_handlers_end_alone(
    taking: &mut ServerExchanges,
    id: u64,
    chunk: &[u8],
    action: Result<RequestBodyAction, Error>,
    leaving: &mut ServerExchanges,
    full: bool,
    ended: RequestAction,
)
    requires
        old(taking)@.requests.contains_key(id),
        old(taking)@.streams.contains_key(id),
        call_ensures(
            ServerExchanges::request_body,
            (taking, id, chunk, WireProtocol::Http2),
            action,
        ),
        *old(leaving) == *final(taking),
        call_ensures(
            ServerExchanges::delivered,
            (leaving, id, if full {
                Delivery::Full
            } else {
                Delivery::Closed
            }),
            ended,
        ),
    ensures
        action matches Ok(RequestBodyAction::Deliver(bytes)) && bytes@ == chunk@,
        ended == if full {
            RequestAction::Overrun
        } else {
            RequestAction::Abandoned
        },
        !final(leaving)@.requests.contains_key(id),
        !final(leaving)@.streams.contains_key(id),
        forall|other: u64|
            other != id ==> #[trigger] final(leaving)@.requests.contains_key(other)
                == old(taking)@.requests.contains_key(other),
        final(leaving)@.exchanges == old(taking)@.exchanges,
        final(leaving)@.running == old(taking)@.running,
{
}

/// A buffered response is sent as its body: what is offered is first all of it,
/// then what was not written yet, and it is complete once nothing is left.
pub proof fn responses_are_sent_in_order(
    responding: &mut ServerExchanges,
    writing: &mut ServerExchanges,
    id: u64,
    body: Body,
    protocol: WireProtocol,
    table: &mut TrailerTable,
    offered: Option<&[u8]>,
    count: usize,
    action: BodyAction,
    left: Option<&[u8]>,
)
    requires
        body.outbound() is None,
        body@ is Buffered,
        call_ensures(
            ServerExchanges::respond,
            (responding, id, body, true, protocol, table),
            Ok(()),
        ),
        call_ensures(ServerExchanges::response_bytes, (final(responding), id), offered),
        *old(writing) == *final(responding),
        0 < count <= body@->Buffered_0.len(),
        call_ensures(ServerExchanges::commit_response, (writing, id, count), action),
        call_ensures(ServerExchanges::response_bytes, (final(writing), id), left),
    ensures
        offered matches Some(bytes) && bytes@ == body@->Buffered_0,
        count == body@->Buffered_0.len() <==> action == BodyAction::Complete,
        count < body@->Buffered_0.len() ==> action == BodyAction::Sent && (left matches Some(bytes)
            && bytes@ == body@->Buffered_0.skip(count as int)),
        count == body@->Buffered_0.len() ==> final(writing)@.completed.contains(id)
            && !final(writing)@.responses.contains_key(id),
{
}

/// An exchange is answered with what its handler returned, with an apology when
/// the handler panicked, and not at all when it is over or was canceled.
pub proof fn handlers_answer_their_own_exchange(
    exchanges: &mut ServerExchanges,
    id: u64,
    response: Response,
    failure: Error,
    kind: int,
    completion: HandlerCompletion,
    end: HandlerEnd,
)
    requires
        completion == if kind == 0 {
            HandlerCompletion::Response(id, Ok(response))
        } else if kind == 1 {
            HandlerCompletion::Response(id, Err(failure))
        } else if kind == 2 {
            HandlerCompletion::Panicked(id)
        } else {
            HandlerCompletion::Cancelled(id)
        },
        call_ensures(ServerExchanges::handler_done, (exchanges, completion), end),
    ensures
        old(exchanges)@.exchanges.contains(id) && kind == 0 ==> end.next == Ok::<
            HandlerNext,
            Error,
        >(HandlerNext::Respond(response)),
        old(exchanges)@.exchanges.contains(id) && kind == 1 ==> end.next == Err::<
            HandlerNext,
            Error,
        >(failure),
        old(exchanges)@.exchanges.contains(id) && kind == 2 ==> (end.next matches Ok(
            HandlerNext::Respond(apology),
        ) && apology.status == 500 && apology.body@ == BodyView::Buffered(Seq::empty())),
        !old(exchanges)@.exchanges.contains(id) || kind < 0 || kind > 2 ==> end.next matches Ok(
            HandlerNext::Nothing,
        ),
        end.abandon_request == old(exchanges)@.streams.contains_key(id),
        !final(exchanges)@.running.contains(id),
        !final(exchanges)@.streams.contains_key(id),
        final(exchanges)@.requests == old(exchanges)@.requests,
        final(exchanges)@.responses == old(exchanges)@.responses,
        final(exchanges)@.exchanges == old(exchanges)@.exchanges,
        forall|other: u64|
            other != id ==> #[trigger] final(exchanges)@.running.contains(other) == old(exchanges)@.running.contains(other),
{
}

/// The driver is told the status, the fields and the length of a response, and
/// no length where the body is a stream or has trailers behind it.
pub proof fn drivers_are_told_the_response(
    response: Response,
    description: ResponseDescription,
    length: Option<usize>,
)
    requires
        call_ensures(describe_response, (&response,), description),
        call_ensures(response_body_len, (&response.body,), length),
    ensures
        description.status == response.status,
        crate::web::headers::fields_of(
            description.headers@.map_values(|field: HeaderField| (field.name@, field.value@)),
        ) == response.headers@,
        description.body_len == length,
        response.body.outbound() is Some || response.body@ is Streaming ==> length is None,
        response.body.outbound() is None ==> (response.body@ matches BodyView::Buffered(bytes)
            ==> length == Some(bytes.len() as usize) && length->0 == bytes.len()),
{
    assert(description.headers@.map_values(|field: HeaderField| (field.name@, field.value@))
        =~= crate::web::headers::field_list(description.headers@));
}

/// A response without a body is complete once its head is written; until then
/// HTTP/2 remembers it. One with trailers needs a body.
pub proof fn bodyless_responses_complete_with_their_head(
    responding: &mut ServerExchanges,
    writing: &mut ServerExchanges,
    id: u64,
    body: Body,
    protocol: WireProtocol,
    table: &mut TrailerTable,
    responded: Result<(), Error>,
)
    requires
        call_ensures(
            ServerExchanges::respond,
            (responding, id, body, false, protocol, table),
            responded,
        ),
        *old(writing) == *final(responding),
        call_ensures(ServerExchanges::head_written, (writing, id), ()),
    ensures
        responded is Err <==> body.outbound() is Some,
        responded is Err ==> final(responding)@ == old(responding)@,
        responded is Ok ==> {
            &&& final(responding)@.responses == old(responding)@.responses
            &&& protocol == WireProtocol::Http2 ==> final(responding)@.header_only.contains(id)
            &&& protocol != WireProtocol::Http2 ==> final(responding)@ == old(responding)@
        },
        final(writing)@.completed.contains(id),
        !final(writing)@.header_only.contains(id),
        final(table)@ == old(table)@,
{
}

/// The trailers of a response are due when only its end is left to be written,
/// and once.
pub proof fn trailers_are_due_at_the_end_once(
    first: &mut ServerExchanges,
    second: &mut ServerExchanges,
    id: u64,
    callbacks: (Option<u64>, Option<u64>),
)
    requires
        old(first)@.responses.contains_key(id),
        call_ensures(ServerExchanges::due_trailers, (first, id), callbacks.0),
        *old(second) == *final(first),
        call_ensures(ServerExchanges::due_trailers, (second, id), callbacks.1),
    ensures
        callbacks.0 is Some <==> old(first)@.responses[id].callback is Some && (old(first)@.responses[id].body.offer() matches Some(rest) && rest.len() == 0),
        callbacks.0 is Some ==> callbacks.0 == old(first)@.responses[id].callback,
        callbacks.1 is None || callbacks.0 is None,
        final(second)@.responses.dom() == old(first)@.responses.dom(),
        final(second)@.responses[id].body == old(first)@.responses[id].body,
        callbacks.0 is Some ==> callbacks.1 is None,
{
    assert(final(second)@.responses.dom() =~= old(first)@.responses.dom());
}

/// A failed response ends alone where the driver could give it up over HTTP/2,
/// and ends the connection otherwise.
pub proof fn failed_responses_end_alone_over_http2(
    exchanges: &mut ServerExchanges,
    id: u64,
    error: Error,
    protocol: WireProtocol,
    abandoned: bool,
    report: Result<ServeError, Error>,
)
    requires
        call_ensures(
            ServerExchanges::response_failed,
            (
                exchanges,
                ResponseFailure::Body { exchange_id: id, error },
                protocol,
                abandoned,
            ),
            report,
        ),
    ensures
        protocol == WireProtocol::Http2 && abandoned ==> {
            &&& report == Ok::<ServeError, Error>(ServeError::ResponseBody(error))
            &&& !final(exchanges)@.responses.contains_key(id)
            &&& final(exchanges)@.completed.contains(id)
            &&& forall|other: u64|
                other != id ==> #[trigger] final(exchanges)@.responses.contains_key(other) == old(exchanges)@.responses.contains_key(other)
            &&& final(exchanges)@.requests == old(exchanges)@.requests
        },
        protocol != WireProtocol::Http2 || !abandoned ==> {
            &&& report matches Err(told) && told@ == error@
            &&& final(exchanges)@ == old(exchanges)@
        },
{
}

/// An exchange whose response is complete leaves the connection, and its running
/// handler is canceled. Other exchanges stay as they are.
pub proof fn retired_exchanges_leave_alone(
    exchanges: &mut ServerExchanges,
    id: u64,
    cancel: bool,
    other: u64,
)
    requires
        other != id,
        call_ensures(ServerExchanges::retire, (exchanges, id), cancel),
    ensures
        cancel == old(exchanges)@.running.contains(id),
        !final(exchanges)@.exchanges.contains(id),
        !final(exchanges)@.completed.contains(id),
        !final(exchanges)@.requests.contains_key(id),
        !final(exchanges)@.streams.contains_key(id),
        !final(exchanges)@.running.contains(id),
        final(exchanges)@.responses == old(exchanges)@.responses,
        final(exchanges)@.header_only == old(exchanges)@.header_only,
        final(exchanges)@.exchanges.contains(other) == old(exchanges)@.exchanges.contains(other),
        final(exchanges)@.completed.contains(other) == old(exchanges)@.completed.contains(other),
        final(exchanges)@.running.contains(other) == old(exchanges)@.running.contains(other),
        final(exchanges)@.requests.contains_key(other) == old(exchanges)@.requests.contains_key(
            other,
        ),
        final(exchanges)@.streams.contains_key(other) == old(exchanges)@.streams.contains_key(
            other,
        ),
{
}

/// An exchange that its peer reset is forgotten, and only that; any other
/// failure of the driver is reported and forgets nothing.
pub proof fn resets_end_one_exchange(
    exchanges: &mut ServerExchanges,
    fault: DriverError,
    id: u64,
    reset: Result<ResetExchange, Error>,
    does: bool,
    other: u64,
)
    requires
        other != id,
        call_ensures(resets_exchange, (&fault,), does),
        call_ensures(ServerExchanges::step_failed, (exchanges, fault, Some(id)), reset),
    ensures
        does == (fault.classified().kind is PeerReset),
        reset is Ok <==> does,
        reset matches Ok(reset) ==> {
            &&& reset.id == id
            &&& reset.cancel == old(exchanges)@.running.contains(id)
            &&& final(exchanges)@.forgot(id)
            &&& final(exchanges)@.exchanges.contains(other) == old(exchanges)@.exchanges.contains(other)
            &&& final(exchanges)@.responses.contains_key(other) == old(exchanges)@.responses.contains_key(other)
            &&& final(exchanges)@.requests.contains_key(other) == old(exchanges)@.requests.contains_key(other)
        },
        reset matches Err(error) ==> error@ == fault.classified().reported()
            && final(exchanges)@ == old(exchanges)@,
{
}

/// The stream of a frame is the number in its last four bytes without the
/// reserved bit, where the frame is complete and holds a header block.
pub proof fn frames_name_their_stream(bytes: &[u8], stream: Option<u64>)
    requires
        bytes@.len() >= 9,
        call_ensures(decode_headers_stream, (bytes,), stream),
    ensures
        ({
            let length = 65536 * bytes@[0] + 256 * bytes@[1] + bytes@[2];
            let number = 16777216 * bytes@[5] + 65536 * bytes@[6] + 256 * bytes@[7] + bytes@[8];
            match stream {
                Some(stream) => {
                    &&& bytes@[3] == 1
                    &&& bytes@.len() >= 9 + length
                    &&& stream == if bytes@[5] < 128 {
                        number
                    } else {
                        number - 2147483648
                    }
                },
                None => bytes@[3] != 1 || bytes@.len() < 9 + length,
            }
        }),
{
}

/// A chunk that was received is handed on; the end of a body is an end only
/// when the body was not cut short.
pub proof fn chunks_are_handed_on(
    bytes: Vec<u8>,
    overrun: bool,
    chunk: Result<Option<Vec<u8>>, Error>,
    end: Result<Option<Vec<u8>>, Error>,
)
    requires
        call_ensures(request_chunk, (Some(bytes), overrun), chunk),
        call_ensures(request_chunk, (None, overrun), end),
    ensures
        chunk == Ok::<Option<Vec<u8>>, Error>(Some(bytes)),
        end is Err <==> overrun,
        !overrun ==> end == Ok::<Option<Vec<u8>>, Error>(None),
{
}

/// Over HTTP/1.1 nothing is read while a body is streamed that no handler asks
/// for; over HTTP/2 only while a chunk was not taken.
pub proof fn reading_follows_demand(
    exchanges: &ServerExchanges,
    id: u64,
    unread: bool,
    waits: (bool, bool),
)
    requires
        exchanges@.streams.dom().finite(),
        call_ensures(
            ServerExchanges::waits_for_demand,
            (exchanges, WireProtocol::Http1, unread),
            waits.0,
        ),
        call_ensures(
            ServerExchanges::waits_for_demand,
            (exchanges, WireProtocol::Http2, unread),
            waits.1,
        ),
    ensures
        exchanges@.streams.contains_key(id) && exchanges@.streams[id].demanded ==> !waits.0,
        exchanges@.streams.contains_key(id) && exchanges@.streams[id].demanded ==> !waits.1,
        exchanges@.streams.contains_key(id) && (forall|other: u64| #[trigger]
            exchanges@.streams.contains_key(other) ==> !exchanges@.streams[other].demanded)
            ==> waits.0 && waits.1 == unread,
        exchanges@.streams.dom() == Set::<u64>::empty() ==> !waits.0,
        waits.1 ==> unread,
{
    if exchanges@.streams.contains_key(id) {
        if exchanges@.streams[id].demanded {
            assert(exchanges@.has_demand());
        }
        assert(exchanges@.streams.dom().contains(id));
        assert(exchanges@.streams.dom().len() != 0) by {
            if exchanges@.streams.dom().len() == 0 {
                exchanges@.streams.dom().lemma_len0_is_empty();
            }
        }
    }
}

/// The turns of a connection follow one another: complete responses leave, the
/// sources of bodies are asked, then what handlers ask for, then the handlers.
/// What was acted upon, and a response that failed, begin a new turn in which a
/// body goes first. A new turn has tried to write nothing yet.
pub proof fn turns_follow_one_another(
    pump: ServePump,
    open: bool,
    failed: bool,
    nexts: (ServePump, ServePump, ServePump, ServePump, ServePump, ServePump, ServePump, ServePump),
)
    requires
        call_ensures(ServePump::retired, (pump, open), nexts.0),
        call_ensures(ServePump::polled, (pump, failed), nexts.1),
        call_ensures(ServePump::demanded, (pump,), nexts.2),
        call_ensures(ServePump::handler_awaited, (pump,), nexts.3),
        call_ensures(ServePump::source_awaited, (pump,), nexts.4),
        call_ensures(ServePump::acted, (pump,), nexts.5),
        call_ensures(ServePump::finished, (pump, open), nexts.6),
        call_ensures(ServePump::reset, (pump, open), nexts.7),
    ensures
        nexts.0.phase == if open {
            ServePhase::Poll
        } else {
            ServePhase::Stopped
        },
        nexts.1.phase == if failed {
            ServePhase::Retire
        } else {
            ServePhase::Demand
        },
        failed ==> nexts.1.prefer_body && !nexts.1.attempted_body,
        nexts.2.phase == ServePhase::Handlers,
        nexts.3.phase == ServePhase::Retire && nexts.3.prefer_body == pump.prefer_body
            && !nexts.3.attempted_body,
        nexts.4.phase == ServePhase::Retire && nexts.4.prefer_body && !nexts.4.attempted_body,
        nexts.5.phase == ServePhase::Retire && nexts.5.prefer_body && !nexts.5.attempted_body,
        nexts.6.phase == if open {
            ServePhase::Retire
        } else {
            ServePhase::Stopped
        },
        open ==> !nexts.6.prefer_body && !nexts.6.attempted_body,
        nexts.7.phase == if open {
            ServePhase::Retire
        } else {
            ServePhase::Stopped
        },
        open ==> nexts.7.prefer_body && !nexts.7.attempted_body,
        nexts.0.input == pump.input && nexts.1.input == pump.input && nexts.2.input == pump.input
            && nexts.3.input == pump.input && nexts.4.input == pump.input && nexts.5.input
            == pump.input && nexts.6.input == pump.input && nexts.7.input == pump.input,
{
}

/// After a look at the handlers: one that ended begins a new turn; over HTTP/1.1
/// with whole requests one that runs is waited for; else a response is written
/// when it is its turn, and the driver goes on when it is not.
pub proof fn handlers_and_responses_take_turns(
    pump: ServePump,
    ended: bool,
    mode: RequestMode,
    protocol: WireProtocol,
    has_handlers: bool,
    has_responses: bool,
    next: ServePump,
)
    requires
        call_ensures(
            ServePump::handlers_polled,
            (pump, ended, mode, protocol, has_handlers, has_responses),
            next,
        ),
    ensures
        next.input == pump.input,
        next.prefer_body == pump.prefer_body,
        ended <==> next.phase == ServePhase::Retire,
        next.phase == ServePhase::AwaitHandler <==> !ended && mode == RequestMode::Buffered
            && protocol == WireProtocol::Http1 && has_handlers,
        next.phase == ServePhase::Write ==> pump.prefer_body && has_responses
            && next.attempted_body,
        next.phase == ServePhase::Gate ==> !next.attempted_body && !(pump.prefer_body
            && has_responses),
        next.phase == ServePhase::Retire || next.phase == ServePhase::AwaitHandler || next.phase
            == ServePhase::Write || next.phase == ServePhase::Gate,
{
}

/// Writing that is blocked lets the driver go on. A part that was written begins
/// a new turn, in which HTTP/1.1 goes on with the body and HTTP/2 with the
/// driver; the last part gives the driver its turn.
pub proof fn writing_ends_a_turn(
    pump: ServePump,
    outcome: WriteOutcome,
    protocol: WireProtocol,
    next: ServePump,
    source_pending: bool,
    waits: bool,
    gated: ServePump,
)
    requires
        call_ensures(ServePump::wrote, (pump, outcome, protocol), next),
        call_ensures(ServePump::gate, (pump, protocol, source_pending, waits), gated),
    ensures
        outcome is Blocked <==> next.phase == ServePhase::Gate,
        outcome !is Blocked ==> next.phase == ServePhase::Retire && !next.attempted_body,
        outcome is Blocked ==> next.attempted_body == pump.attempted_body && next.prefer_body
            == pump.prefer_body,
        outcome is Sent ==> next.prefer_body == (protocol == WireProtocol::Http1),
        outcome is Complete ==> !next.prefer_body,
        outcome is ResponseFailed ==> next.prefer_body,
        next.input == pump.input,
        gated.phase == ServePhase::AwaitSource <==> pump.attempted_body && protocol
            == WireProtocol::Http1 && source_pending,
        gated.phase == ServePhase::AwaitDemand ==> waits,
        gated.phase == ServePhase::Step ==> !waits,
        gated.phase == ServePhase::AwaitSource || gated.phase == ServePhase::AwaitDemand
            || gated.phase == ServePhase::Step,
        gated.attempted_body == pump.attempted_body && gated.prefer_body == pump.prefer_body
            && gated.input == pump.input,
{
}

/// A driver that needs input gets what is there, waits for more while more may
/// come, and otherwise the connection ends: in order once nothing is left to do,
/// and as a failure when a request or a response is cut short.
pub proof fn connections_end_in_order(
    pump: ServePump,
    need: InputNeed,
    next: Result<ServePump, Error>,
)
    requires
        call_ensures(ServePump::need_input, (pump, need), next),
    ensures
        need.consumed > 0 || !pump.attempted_body && need.has_responses ==> (next matches Ok(next)
            && next.phase == ServePhase::Retire && next.prefer_body),
        need.consumed == 0 && (pump.attempted_body || !need.has_responses) ==> {
            &&& pump.input == InputState::Open ==> (next matches Ok(next) && next.phase
                == ServePhase::Wait)
            &&& pump.input == InputState::PeerClosed && (need.has_requests || need.input_pending)
                ==> (next matches Err(error) && error@ == ErrorView::UnexpectedEof)
            &&& pump.input == InputState::Shutdown && need.has_handlers ==> (next matches Ok(next)
                && next.phase == ServePhase::AwaitHandler)
            &&& pump.input == InputState::PeerClosed && !need.has_requests && !need.input_pending
                && need.has_handlers ==> (next matches Ok(next) && next.phase
                == ServePhase::AwaitHandler)
            &&& pump.input == InputState::PeerClosed && !need.has_requests && !need.input_pending
                && !need.has_handlers && !need.has_responses ==> (next matches Ok(next)
                && next.phase == ServePhase::Stopped)
            &&& pump.input == InputState::Shutdown && !need.has_handlers && !need.has_responses
                ==> (next matches Ok(next) && next.phase == ServePhase::Stopped)
            &&& pump.input == InputState::Shutdown && !need.has_handlers && need.has_responses
                ==> (next matches Err(error) && error@ == ErrorView::Canceled)
            &&& pump.input == InputState::PeerClosed && !need.has_handlers && need.has_responses
                ==> (next matches Err(error) && error@ == ErrorView::UnexpectedEof)
        },
        next matches Ok(next) ==> next.input == pump.input,
{
}

/// A peer that sends nothing more closed its side, a server that was told to
/// stop reads no more, and any other failure to read is one of the connection.
pub proof fn waits_end_with_what_came(
    pump: ServePump,
    amount: usize,
    error: Error,
    nexts: (
        Result<ServePump, Error>,
        Result<ServePump, Error>,
        Result<ServePump, Error>,
        Result<ServePump, Error>,
    ),
)
    requires
        call_ensures(ServePump::waited, (pump, ServeEvent::Input(Ok(amount))), nexts.0),
        call_ensures(ServePump::waited, (pump, ServeEvent::Input(Err(error))), nexts.1),
        call_ensures(ServePump::waited, (pump, ServeEvent::Body), nexts.2),
        call_ensures(ServePump::waited, (pump, ServeEvent::Handler), nexts.3),
    ensures
        nexts.0 matches Ok(next) && next.phase == ServePhase::Retire && next.input == (if amount
            == 0 {
            InputState::PeerClosed
        } else {
            pump.input
        }) && next.prefer_body == pump.prefer_body,
        error@ is Canceled ==> (nexts.1 matches Ok(next) && next.phase == ServePhase::Retire
            && next.input == InputState::Shutdown),
        error@ !is Canceled ==> nexts.1 == Err::<ServePump, Error>(error),
        nexts.2 matches Ok(next) && next.phase == ServePhase::Retire && next.prefer_body
            && next.input == pump.input,
        nexts.3 matches Ok(next) && next.phase == ServePhase::Retire && next.prefer_body
            == pump.prefer_body && next.input == pump.input,
{
}

/// A connection begins without exchanges. One that begins is there until it is
/// forgotten, which takes all that belongs to it and nothing of the others.
pub proof fn exchanges_are_there_until_forgotten(
    made: ServerExchanges,
    begun: &mut ServerExchanges,
    forgotten: &mut ServerExchanges,
    id: u64,
    other: u64,
    cancel: bool,
    there: (bool, bool),
)
    requires
        call_ensures(ServerExchanges::new, (), made),
        call_ensures(ServerExchanges::has_requests, (&made,), there.0),
        call_ensures(ServerExchanges::has_responses, (&made,), there.1),
        call_ensures(ServerExchanges::begin, (begun, id), ()),
        *old(forgotten) == *final(begun),
        call_ensures(ServerExchanges::forget, (forgotten, id), cancel),
    ensures
        !there.0 && !there.1,
        made@.exchanges == Set::<u64>::empty() && made@.running == Set::<u64>::empty(),
        final(begun)@.exchanges.contains(id),
        final(begun)@.requests == old(begun)@.requests && final(begun)@.streams == old(begun)@.streams,
        cancel <==> old(begun)@.running.contains(id),
        !final(forgotten)@.exchanges.contains(id) && !final(forgotten)@.running.contains(id),
        !final(forgotten)@.requests.contains_key(id) && !final(forgotten)@.streams.contains_key(id),
        !final(forgotten)@.responses.contains_key(id) && !final(forgotten)@.completed.contains(id),
        other != id ==> {
            &&& final(forgotten)@.exchanges.contains(other) == old(begun)@.exchanges.contains(other)
            &&& final(forgotten)@.running.contains(other) == old(begun)@.running.contains(other)
            &&& final(forgotten)@.requests.contains_key(other) == old(begun)@.requests.contains_key(other)
            &&& final(forgotten)@.responses.contains_key(other) == old(begun)@.responses.contains_key(other)
        },
{
}

/// What is there is listed, each once, and what is asked of an exchange is told of
/// that exchange.
pub proof fn exchanges_are_listed_once(
    exchanges: &ServerExchanges,
    ids: (Vec<u64>, Vec<u64>, Vec<u64>),
    id: u64,
    parts: Option<&RequestParts>,
    there: (bool, bool),
    asked: (Option<u64>, bool),
)
    requires
        exchanges.valid(),
        call_ensures(ServerExchanges::response_ids, (exchanges,), ids.0),
        call_ensures(ServerExchanges::completed_ids, (exchanges,), ids.1),
        call_ensures(ServerExchanges::stream_ids, (exchanges,), ids.2),
        call_ensures(ServerExchanges::request, (exchanges, id), parts),
        call_ensures(ServerExchanges::has_requests, (exchanges,), there.0),
        call_ensures(ServerExchanges::has_responses, (exchanges,), there.1),
        call_ensures(ServerExchanges::response_source, (exchanges, id), asked.0),
        call_ensures(ServerExchanges::response_needs_chunk, (exchanges, id), asked.1),
    ensures
        ids.0@.contains(id) <==> exchanges@.responses.contains_key(id),
        ids.1@.contains(id) <==> exchanges@.completed.contains(id),
        ids.2@.contains(id) <==> exchanges@.streams.contains_key(id),
        ids.0@.no_duplicates() && ids.1@.no_duplicates() && ids.2@.no_duplicates(),
        parts is Some <==> exchanges@.requests.contains_key(id),
        parts matches Some(told) ==> told@ == exchanges@.requests[id],
        asked.1 ==> asked.0 is Some,
        asked.0 is Some ==> exchanges@.responses.contains_key(id),
        asked.1 <==> exchanges@.responses.contains_key(id) && (exchanges@.responses[id].body
            matches ResponseBodyView::Streaming(cursor) && cursor.unsent.len() == 0
            && !cursor.ended),
{
    assert(ids.0@.to_set().contains(id) <==> ids.0@.contains(id));
    assert(ids.1@.to_set().contains(id) <==> ids.1@.contains(id));
    assert(ids.2@.to_set().contains(id) <==> ids.2@.contains(id));
}

/// The end of a connection ends every exchange, each once.
pub proof fn ended_connections_end_every_exchange(
    exchanges: &mut ServerExchanges,
    ids: Vec<u64>,
    id: u64,
)
    requires
        call_ensures(ServerExchanges::finish_all, (exchanges,), ids),
    ensures
        ids@.contains(id) <==> old(exchanges)@.exchanges.contains(id),
        ids@.no_duplicates(),
        !final(exchanges)@.exchanges.contains(id) && !final(exchanges)@.completed.contains(id),
        !final(exchanges)@.header_only.contains(id),
{
    assert(ids@.to_set().contains(id) <==> ids@.contains(id));
}

/// A refused request is gone, unless the refusal is no answer; the others stay.
pub proof fn refused_requests_are_gone(
    exchanges: &mut ServerExchanges,
    id: u64,
    other: u64,
    status: u16,
    refused: Result<(), Error>,
)
    requires
        call_ensures(ServerExchanges::refuse, (exchanges, id, status), refused),
    ensures
        refused is Err <==> 100 <= status < 200,
        refused is Ok ==> !final(exchanges)@.requests.contains_key(id),
        refused is Err ==> final(exchanges)@ == old(exchanges)@,
        other != id && old(exchanges)@.requests.contains_key(other) ==> final(exchanges)@.requests.contains_key(other) && final(exchanges)@.requests[other] == old(exchanges)@.requests[other],
        final(exchanges)@.streams == old(exchanges)@.streams && final(exchanges)@.running == old(exchanges)@.running,
{
}

/// A chunk goes to the response whose source gave it, and a source that fails
/// fails its own response.
pub proof fn chunks_go_to_their_response(
    exchanges: &mut ServerExchanges,
    failed: &mut ServerExchanges,
    id: u64,
    other: u64,
    chunk: Vec<u8>,
    message: String,
    ready: (Result<bool, ResponseFailure>, Result<bool, ResponseFailure>),
    told: u64,
)
    requires
        old(exchanges)@.responses.contains_key(id),
        old(exchanges)@.responses[id].body.wants_chunk(),
        call_ensures(
            ServerExchanges::poll_response,
            (exchanges, id, SourcePoll::Chunk(chunk)),
            ready.0,
        ),
        call_ensures(
            ServerExchanges::poll_response,
            (failed, id, SourcePoll::Failed(message)),
            ready.1,
        ),
        ready.1 matches Err(failure) ==> call_ensures(
            ResponseFailure::exchange_id,
            (&failure,),
            told,
        ),
    ensures
        ready.0 == Ok::<bool, ResponseFailure>(true),
        final(exchanges)@.responses[id].body matches ResponseBodyView::Streaming(cursor)
            && cursor.unsent == chunk@,
        other != id && old(exchanges)@.responses.contains_key(other) ==> final(exchanges)@.responses[other] == old(exchanges)@.responses[other],
        final(exchanges)@.requests == old(exchanges)@.requests,
        ready.1 is Err && told == id,
{
}

/// A handler that took its chunk has none pending, and keeps its place.
pub proof fn taken_chunks_are_no_longer_pending(exchanges: &mut ServerExchanges, id: u64, other: u64)
    requires
        call_ensures(ServerExchanges::chunk_taken, (exchanges, id), ()),
    ensures
        final(exchanges)@.streams.contains_key(other) == old(exchanges)@.streams.contains_key(other),
        old(exchanges)@.streams.contains_key(id) ==> !final(exchanges)@.streams[id].chunk_pending
            && final(exchanges)@.streams[id].demanded == old(exchanges)@.streams[id].demanded,
        other != id && old(exchanges)@.streams.contains_key(other) ==> final(exchanges)@.streams[other] == old(exchanges)@.streams[other],
        final(exchanges)@.running == old(exchanges)@.running,
{
}

/// Completions and failures name their exchange, and a failure of one response
/// tells the connection what it was.
pub proof fn completions_name_their_exchange(
    id: u64,
    outcome: Result<Response, Error>,
    error: Error,
    payload: PanicPayload,
    ids: (u64, u64, u64, u64, u64, u64),
    errors: (Error, Error, Error),
)
    requires
        call_ensures(
            HandlerCompletion::exchange_id,
            (&HandlerCompletion::Response(id, outcome),),
            ids.0,
        ),
        call_ensures(HandlerCompletion::exchange_id, (&HandlerCompletion::Panicked(id),), ids.1),
        call_ensures(HandlerCompletion::exchange_id, (&HandlerCompletion::Cancelled(id),), ids.2),
        call_ensures(
            ResponseFailure::exchange_id,
            (&ResponseFailure::Body { exchange_id: id, error },),
            ids.3,
        ),
        call_ensures(
            ResponseFailure::exchange_id,
            (&ResponseFailure::Trailers { exchange_id: id, error },),
            ids.4,
        ),
        call_ensures(
            ResponseFailure::exchange_id,
            (&ResponseFailure::TrailerCallbackPanicked { exchange_id: id, payload },),
            ids.5,
        ),
        call_ensures(
            ResponseFailure::into_connection_error,
            (ResponseFailure::Body { exchange_id: id, error },),
            errors.0,
        ),
        call_ensures(
            ResponseFailure::into_connection_error,
            (ResponseFailure::Trailers { exchange_id: id, error },),
            errors.1,
        ),
        call_ensures(
            ResponseFailure::into_connection_error,
            (ResponseFailure::TrailerCallbackPanicked { exchange_id: id, payload },),
            errors.2,
        ),
    ensures
        ids == (id, id, id, id, id, id),
        errors.0@ == error@ && errors.1@ == error@,
        payload.message matches Some(words) ==> (errors.2@ matches ErrorView::Protocol(told)
            && told.detail == "response trailer callback panicked: "@ + words@),
{
}

/// A handler that panicked is answered with an empty response that blames the
/// server, and a status without usual words has none.
pub proof fn panics_are_answered_with_a_server_error(
    response: Response,
    usual: String,
    reasons: (String, String),
)
    requires
        call_ensures(internal_server_error, (), response),
        call_ensures(reason_phrase, (Some(usual),), reasons.0),
        call_ensures(reason_phrase, (None,), reasons.1),
    ensures
        response.status == 500 && response.version == Version::Http11,
        response.body@ == BodyView::Buffered(Seq::empty()),
        forall|name: Seq<u8>| !#[trigger] response.headers@.contains_key(name),
        reasons.0@ == usual@,
        reasons.1@.len() == 0,
{
    reveal_strlit("");
}

/// A frame of headers is of a response without a body exactly when its stream is.
pub proof fn header_frames_name_their_response(
    exchanges: &ServerExchanges,
    bytes: &[u8],
    id: Option<u64>,
    stream: Option<u64>,
)
    requires
        call_ensures(ServerExchanges::header_only_exchange, (exchanges, bytes), id),
        call_ensures(decode_headers_stream, (bytes,), stream),
    ensures
        stream is None ==> id is None,
        stream matches Some(number) ==> (id == Some(number)
            <==> exchanges@.header_only.contains(number)),
        id is Some ==> id == stream,
{
}

/// A new loop first parts with what is complete, and one whose demand came takes
/// its next turn.
pub proof fn new_loops_begin_with_a_turn(made: ServePump, pump: ServePump, next: ServePump)
    requires
        call_ensures(ServePump::new, (), made),
        call_ensures(ServePump::demand_awaited, (pump,), next),
    ensures
        made.phase is Retire && !made.prefer_body && !made.attempted_body && made.input is Open,
        next.phase is Retire && next.prefer_body == pump.prefer_body && !next.attempted_body
            && next.input == pump.input,
{
}

/// Trailers of a request are kept with it, once, and go to the handler that reads
/// its body. Trailers that are refused change nothing.
pub proof fn received_trailers_go_with_their_request(
    exchanges: &mut ServerExchanges,
    id: u64,
    other: u64,
    fields: &Vec<HeaderField>,
    streamed: Result<Option<Headers>, Error>,
)
    requires
        call_ensures(ServerExchanges::request_trailers, (exchanges, id, fields), streamed),
    ensures
        streamed is Err ==> final(exchanges)@ == old(exchanges)@,
        streamed is Ok ==> {
            &&& old(exchanges)@.requests.contains_key(id)
            &&& old(exchanges)@.requests[id].trailers is None
            &&& final(exchanges)@.requests[id].trailers is Some
            &&& final(exchanges)@.requests[id].body == old(exchanges)@.requests[id].body
        },
        !old(exchanges)@.requests.contains_key(id) ==> streamed is Err,
        old(exchanges)@.requests.contains_key(id) && old(exchanges)@.requests[id].trailers is Some
            ==> streamed is Err,
        streamed is Ok ==> (streamed->Ok_0 is Some <==> old(exchanges)@.streams.contains_key(id)),
        streamed matches Ok(Some(handed)) ==> final(exchanges)@.requests[id].trailers == Some(
            handed@,
        ) && final(exchanges)@.streams[id].trailers_kept,
        other != id && old(exchanges)@.requests.contains_key(other) ==> final(exchanges)@.requests[other] == old(exchanges)@.requests[other],
        final(exchanges)@.responses == old(exchanges)@.responses,
{
}

} // verus!
