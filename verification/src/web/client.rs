//! The client's decisions: where a request goes and over which connection.

use vstd::prelude::*;

use crate::time::Instant;
use crate::web::body::BodyView;
use crate::web::config::ClientConfig;
use crate::web::config::Protocol;
use crate::web::error::Error;
use crate::web::error::ErrorView;
use crate::web::error::HttpErrorInfo;
use crate::web::failure::SendFailure;
use crate::web::headers::Headers;
use crate::web::headers::Method;
use crate::web::message::prepare_request;
use crate::web::message::prepare_request_for_wire;
use crate::web::message::request_allows_reuse;
use crate::web::message::Request;
use crate::web::message::RequestBuilder;
use crate::web::tls::negotiated_protocol;
use crate::web::tls::AlpnProtocol;
use crate::web::uri::Uri;
use crate::web::uri::UriTarget;
use crate::web::uri::UriTargetView;

verus! {

/// A nonfatal event observed while a client continues a request.
#[derive(Clone, Copy, Debug, PartialEq, Eq, Structural)]
#[non_exhaustive]
pub enum ClientEvent {
    /// Checkout validation found a pooled connection unsafe to reuse.
    DirtyPooledConnectionDiscarded,
    /// A failed exchange on a reused connection is being retried once.
    RequestRetried,
}

/// How a response is handed over.
#[derive(Clone, Copy, Debug, PartialEq, Eq, Structural)]
pub enum ResponseMode {
    /// Once it is complete.
    Buffered,
    /// Once its head arrived.
    Streaming,
}

/// A client.
pub struct Client {
    config: ClientConfig,
}

impl View for Client {
    type V = crate::web::config::ClientConfigView;

    /// The configuration.
    closed spec fn view(&self) -> crate::web::config::ClientConfigView {
        self.config@
    }
}

impl Default for Client {
    fn default() -> (client: Client)
        ensures
            client@.is_default(),
    {
        Client::new()
    }
}

impl Client {
    /// Creates a client with default limits and HTTP/1.1 request selection.
    pub fn new() -> (client: Client)
        ensures
            client@.is_default(),
    {
        Client { config: ClientConfig::new() }
    }

    /// Creates a client from validated configuration.
    pub fn with_config(config: ClientConfig, now: Instant) -> (client: Result<Client, Error>)
        ensures
            match client {
                Ok(client) => config@.fault(now@) is None && client@ == config@,
                Err(error) => config@.fault(now@) is Some && error@
                    == ErrorView::InvalidConfiguration(config@.fault(now@)->0),
            },
    {
        match config.validate(now) {
            Ok(()) => Ok(Client { config }),
            Err(error) => Err(error),
        }
    }

    /// Returns the client configuration.
    pub fn config(&self) -> (config: &ClientConfig)
        ensures
            config@ == self@,
    {
        &self.config
    }

    /// Starts a `GET` request.
    pub fn get(&self, uri: &str) -> (builder: RequestBuilder)
        ensures
            starts_request(builder, "GET"@, uri@),
    {
        self.request(Method::get(), uri)
    }

    /// Starts a `POST` request.
    pub fn post(&self, uri: &str) -> (builder: RequestBuilder)
        ensures
            starts_request(builder, "POST"@, uri@),
    {
        self.request(Method::post(), uri)
    }

    /// Starts a request with an arbitrary standard HTTP method.
    pub fn request(&self, method: Method, uri: &str) -> (builder: RequestBuilder)
        ensures
            starts_request(builder, method@, uri@),
    {
        RequestBuilder::new(method, Uri::parse(uri))
    }
}

/// Whether a builder stands at the start of a request.
pub open spec fn starts_request(builder: RequestBuilder, method: Seq<char>, uri: Seq<char>) -> bool {
    &&& builder@.method == method
    &&& builder@.uri == (match crate::web::uri::uri_of_text(uri) {
        Ok(uri) => Ok::<crate::web::uri::UriView, ErrorView>(uri),
        Err(message) => Err(ErrorView::InvalidUri(message)),
    })
    &&& builder@.version is None
    &&& builder@.fields == crate::web::headers::no_fields()
    &&& builder@.body@ == BodyView::Buffered(Seq::empty())
    &&& builder@.body.outbound() is None
    &&& builder@.error is None
}

/// How a connection to a target is opened.
#[derive(Clone, Copy, Debug, PartialEq, Eq, Structural)]
pub enum ConnectionPlan {
    /// In clear, speaking the protocol that was asked for.
    Plain(Protocol),
    /// Encrypted, speaking what the handshake settles on.
    Tls,
}

/// Decides how a connection to a target is opened.
pub fn plan_connection(tls: bool, tls_configured: bool, requested_protocol: Protocol) -> (plan:
    Result<ConnectionPlan, Error>)
    ensures
        if !tls {
            plan == Ok::<ConnectionPlan, Error>(ConnectionPlan::Plain(requested_protocol))
        } else if tls_configured {
            plan == Ok::<ConnectionPlan, Error>(ConnectionPlan::Tls)
        } else {
            plan matches Err(error) && error@ == ErrorView::TlsNotConfigured
        },
{
    if !tls {
        Ok(ConnectionPlan::Plain(requested_protocol))
    } else if tls_configured {
        Ok(ConnectionPlan::Tls)
    } else {
        Err(Error::TlsNotConfigured)
    }
}

/// The protocol of an encrypted connection whose handshake selected `selected`.
/// A request that needs HTTP/2 does without no connection that settled on
/// HTTP/1.1; one that asked for HTTP/1.1 takes either.
pub fn settle_protocol(requested_protocol: Protocol, selected: Option<&[u8]>) -> (wire: Result<
    Protocol,
    Error,
>)
    ensures
        ({
            let http1 = selected is None || selected->0@ == crate::web::tls::http11_name();
            let http2 = selected is Some && selected->0@ == crate::web::tls::h2_name();
            if http1 && requested_protocol == Protocol::Http1 {
                wire == Ok::<Protocol, Error>(Protocol::Http1)
            } else if http1 {
                wire matches Err(error) && error@ == (ErrorView::AlpnProtocolMismatch {
                    requested: crate::web::error::Version::Http2,
                    negotiated: crate::web::error::Version::Http11,
                })
            } else if http2 {
                wire == Ok::<Protocol, Error>(Protocol::Http2PriorKnowledge)
            } else {
                wire matches Err(error) && error@ == ErrorView::UnsupportedAlpnProtocol(
                    selected->0@,
                )
            }
        }),
{
    let wire_protocol = match negotiated_protocol(selected) {
        Ok(AlpnProtocol::Http11) => Protocol::Http1,
        Ok(AlpnProtocol::H2) => Protocol::Http2PriorKnowledge,
        Err(error) => return Err(error),
    };
    if requested_protocol == Protocol::Http2PriorKnowledge && wire_protocol
        != Protocol::Http2PriorKnowledge {
        return Err(
            Error::AlpnProtocolMismatch {
                requested: requested_protocol.version(),
                negotiated: wire_protocol.version(),
            },
        );
    }
    Ok(wire_protocol)
}

/// What a request in execution waits for.
#[derive(Clone, Copy, Debug, PartialEq, Eq, Structural)]
pub enum ExecutePhase {
    /// The protocol driver's verdict on the request.
    Validate,
    /// A place in an HTTP/2 session of the pool.
    Reserve,
    /// The protocol driver's verdict on the request for the reserved place.
    ValidateShared,
    /// An idle HTTP/1.1 connection of the pool.
    Checkout,
    /// Whether the connection that was checked out is clean.
    Inspect,
    /// A new connection. One that is still held is closed first, for the reason
    /// given.
    Open(Option<ClientEvent>),
    /// The protocol driver's verdict on the request for the connection.
    ValidateWire,
    /// The response over the connection.
    Send,
    /// The request goes on over HTTP/2 in a session of its own choice.
    RunHttp2,
    /// The request goes on over HTTP/2 in the reserved place.
    RunShared,
    /// The request goes on over HTTP/2 in a new session on the connection.
    RunOwn,
    /// The response arrived; the connection may serve another request if so
    /// told.
    Finish(bool),
}

impl ExecutePhase {
    /// Whether a connection is held.
    pub open spec fn holds_connection(self) -> bool {
        match self {
            ExecutePhase::Inspect => true,
            ExecutePhase::Open(discarded) => discarded is Some,
            ExecutePhase::ValidateWire => true,
            ExecutePhase::Send => true,
            ExecutePhase::RunOwn => true,
            ExecutePhase::Finish(_) => true,
            _ => false,
        }
    }
}

/// A request that failed in execution.
#[derive(Debug)]
pub struct ExecuteFailure {
    /// What went wrong.
    pub error: Error,
    /// Whether a connection is held, which is then closed.
    pub close: bool,
}

/// A request in execution.
pub struct Execution {
    /// The request, as it is sent.
    pub request: Request,
    /// The header fields that the caller gave.
    pub original_headers: Headers,
    /// Where the request goes.
    pub target: UriTarget,
    /// The protocol that was asked for.
    pub requested_protocol: Protocol,
    /// The protocol of the connection.
    pub wire_protocol: Protocol,
    /// Whether the connection came from the pool.
    pub reused: bool,
    /// Whether the request was sent before.
    pub retried: bool,
    /// What it waits for.
    pub phase: ExecutePhase,
}

/// The fields that the wire protocol has.
pub open spec fn wire_fields(
    fields: Map<Seq<u8>, Seq<Seq<u8>>>,
    wire_protocol: Protocol,
) -> Map<Seq<u8>, Seq<Seq<u8>>> {
    if wire_protocol == Protocol::Http2PriorKnowledge {
        fields.remove(crate::web::message::ascii("connection"@))
    } else {
        fields
    }
}

impl Execution {
    /// Whether the header fields leave room for those that preparing adds.
    pub open spec fn valid(&self) -> bool {
        self.original_headers@.dom().len() < crate::web::headers::MAX_HEADER_NAMES
    }

    /// Whether everything but the request's form, the connection and the phase
    /// is as before.
    pub open spec fn continues(&self, before: &Execution) -> bool {
        &&& self.valid()
        &&& self.original_headers == before.original_headers
        &&& self.target@ == before.target@
        &&& self.requested_protocol == before.requested_protocol
        &&& self.request.method == before.request.method
        &&& self.request.uri == before.request.uri
        &&& self.request.body == before.request.body
    }

    /// Why the request cannot be made ready for a wire protocol.
    pub open spec fn wire_fault(&self, wire_protocol: Protocol) -> Option<ErrorView> {
        crate::web::message::request_fault(
            wire_fields(self.original_headers@, wire_protocol),
            self.request.uri@,
            wire_protocol.http_version(),
            self.request.body.outbound() is Some,
        )
    }

    /// Whether the request is as the wire protocol wants it.
    pub open spec fn fits_wire(&self, wire_protocol: Protocol) -> bool {
        &&& self.request.version == wire_protocol.http_version()
        &&& self.request.headers@ == crate::web::message::prepared_fields(
            wire_fields(self.original_headers@, wire_protocol),
            self.request.body@,
            wire_protocol.http_version(),
            vstd::utf8::encode_utf8(self.target@.authority),
        )
    }

    /// Starts to execute a request. A request in clear is made ready at once;
    /// an encrypted one that asks for HTTP/1.1 only when the handshake settled
    /// on a protocol.
    pub fn start(config: &ClientConfig, request: Request, now: Instant) -> (started: Result<
        Execution,
        Error,
    >)
        requires
            request.headers@.dom().len() < crate::web::headers::MAX_HEADER_NAMES,
        ensures
            match started {
                Ok(execution) => {
                    let protocol = execution.requested_protocol;
                    &&& config@.fault(now@) is None
                    &&& crate::web::uri::uri_target(request.uri@) == Ok::<UriTargetView, ErrorView>(
                        execution.target@,
                    )
                    &&& protocol.http_version() == request.version
                    &&& execution.wire_protocol == protocol
                    &&& execution.valid()
                    &&& execution.original_headers@ == request.headers@
                    &&& execution.request.method == request.method
                    &&& execution.request.uri == request.uri
                    &&& execution.request.body == request.body
                    &&& !execution.reused
                    &&& !execution.retried
                    &&& if !execution.target@.tls {
                        &&& crate::web::message::request_fault(
                            request.headers@,
                            request.uri@,
                            request.version,
                            request.body.outbound() is Some,
                        ) is None
                        &&& execution.request.version == request.version
                        &&& execution.request.headers@ == crate::web::message::prepared_fields(
                            request.headers@,
                            request.body@,
                            request.version,
                            vstd::utf8::encode_utf8(execution.target@.authority),
                        )
                        &&& execution.phase == ExecutePhase::Validate
                    } else if protocol == Protocol::Http2PriorKnowledge {
                        &&& execution.wire_fault(protocol) is None
                        &&& execution.fits_wire(protocol)
                        &&& execution.phase == ExecutePhase::Validate
                    } else {
                        &&& execution.request.version == request.version
                        &&& execution.request.headers@ == request.headers@
                        &&& execution.phase == ExecutePhase::Reserve
                    }
                },
                Err(error) => Some(error@) == start_fault(config@, request, now@),
            },
    {
        match config.validate(now) {
            Ok(()) => {},
            Err(error) => return Err(error),
        }
        let target = match UriTarget::parse(&request.uri) {
            Ok(target) => target,
            Err(error) => return Err(error),
        };
        let requested_protocol = match Protocol::from_version(request.version) {
            Ok(protocol) => protocol,
            Err(error) => return Err(error),
        };
        let original_headers = request.headers.duplicate();
        let (request, phase) = if !target.tls {
            match prepare_request(request) {
                Ok(prepared) => (prepared.request, ExecutePhase::Validate),
                Err(error) => return Err(error),
            }
        } else if requested_protocol == Protocol::Http2PriorKnowledge {
            match prepare_request_for_wire(request, &original_headers, requested_protocol) {
                Ok(prepared) => (prepared.request, ExecutePhase::Validate),
                Err(error) => return Err(error),
            }
        } else {
            (request, ExecutePhase::Reserve)
        };
        Ok(
            Execution {
                request,
                original_headers,
                target,
                requested_protocol,
                wire_protocol: requested_protocol,
                reused: false,
                retried: false,
                phase,
            },
        )
    }

    /// The protocol driver judged the request.
    pub fn validated(self, verdict: Result<(), HttpErrorInfo>) -> (next: Result<
        Execution,
        ExecuteFailure,
    >)
        requires
            self.valid(),
            self.phase == ExecutePhase::Validate,
        ensures
            next matches Err(failure) ==> failure.close == self.phase.holds_connection(),
            match (verdict, next) {
                (Err(fault), Err(failure)) => failure.error@ == fault.reported() && !failure.close,
                (Ok(()), Ok(execution)) => execution == (Execution {
                    phase: if self.requested_protocol == Protocol::Http2PriorKnowledge {
                        ExecutePhase::RunHttp2
                    } else {
                        ExecutePhase::Reserve
                    },
                    ..self
                }),
                _ => false,
            },
    {
        match verdict {
            Err(fault) => Err(ExecuteFailure { error: fault.into_http_error(), close: false }),
            Ok(()) => {
                let phase = if self.requested_protocol == Protocol::Http2PriorKnowledge {
                    ExecutePhase::RunHttp2
                } else {
                    ExecutePhase::Reserve
                };
                Ok(Execution { phase, ..self })
            },
        }
    }

    /// Makes the request ready for a wire protocol.
    fn fitted(self, wire_protocol: Protocol, phase: ExecutePhase) -> (next: Result<
        Execution,
        Error,
    >)
        requires
            self.valid(),
            crate::web::uri::uri_target(self.request.uri@) == Ok::<UriTargetView, ErrorView>(
                self.target@,
            ),
        ensures
            match next {
                Ok(execution) => {
                    &&& self.wire_fault(wire_protocol) is None
                    &&& execution.continues(&self)
                    &&& execution.fits_wire(wire_protocol)
                    &&& execution.wire_protocol == self.wire_protocol
                    &&& execution.reused == self.reused
                    &&& execution.retried == self.retried
                    &&& execution.phase == phase
                },
                Err(error) => self.wire_fault(wire_protocol) == Some(error@),
            },
    {
        let Execution {
            request,
            original_headers,
            target,
            requested_protocol,
            wire_protocol: connection_protocol,
            reused,
            retried,
            phase: _,
        } = self;
        match prepare_request_for_wire(request, &original_headers, wire_protocol) {
            Ok(prepared) => Ok(
                Execution {
                    request: prepared.request,
                    original_headers,
                    target,
                    requested_protocol,
                    wire_protocol: connection_protocol,
                    reused,
                    retried,
                    phase,
                },
            ),
            Err(error) => Err(error),
        }
    }

    /// The pool had a place in an HTTP/2 session, or not.
    pub fn reserved(self, found: bool) -> (next: Result<Execution, ExecuteFailure>)
        requires
            self.valid(),
            self.phase == ExecutePhase::Reserve,
            crate::web::uri::uri_target(self.request.uri@) == Ok::<UriTargetView, ErrorView>(
                self.target@,
            ),
        ensures
            next matches Err(failure) ==> failure.close == self.phase.holds_connection(),
            if !found {
                next == Ok::<Execution, ExecuteFailure>(
                    Execution { phase: ExecutePhase::Checkout, ..self },
                )
            } else {
                match next {
                    Ok(execution) => {
                        &&& self.wire_fault(Protocol::Http2PriorKnowledge) is None
                        &&& execution.continues(&self)
                        &&& execution.fits_wire(Protocol::Http2PriorKnowledge)
                        &&& execution.wire_protocol == self.wire_protocol
                        &&& execution.reused == self.reused
                        &&& execution.retried == self.retried
                        &&& execution.phase == ExecutePhase::ValidateShared
                    },
                    Err(failure) => self.wire_fault(Protocol::Http2PriorKnowledge) == Some(
                        failure.error@,
                    ) && !failure.close,
                }
            },
    {
        if !found {
            return Ok(Execution { phase: ExecutePhase::Checkout, ..self });
        }
        match self.fitted(Protocol::Http2PriorKnowledge, ExecutePhase::ValidateShared) {
            Ok(execution) => Ok(execution),
            Err(error) => Err(ExecuteFailure { error, close: false }),
        }
    }

    /// The protocol driver judged the request for the reserved place.
    pub fn validated_shared(self, verdict: Result<(), HttpErrorInfo>) -> (next: Result<
        Execution,
        ExecuteFailure,
    >)
        requires
            self.phase == ExecutePhase::ValidateShared,
        ensures
            next matches Err(failure) ==> failure.close == self.phase.holds_connection(),
            match (verdict, next) {
                (Err(fault), Err(failure)) => failure.error@ == fault.reported() && !failure.close,
                (Ok(()), Ok(execution)) => execution == (Execution {
                    phase: ExecutePhase::RunShared,
                    ..self
                }),
                _ => false,
            },
    {
        match verdict {
            Err(fault) => Err(ExecuteFailure { error: fault.into_http_error(), close: false }),
            Ok(()) => Ok(Execution { phase: ExecutePhase::RunShared, ..self }),
        }
    }

    /// The pool had an idle connection, or not. The pool hands out HTTP/1.1
    /// connections only.
    pub fn checked_out(self, found: bool) -> (next: Execution)
        requires
            self.phase == ExecutePhase::Checkout,
        ensures
            next == if found {
                Execution {
                    wire_protocol: Protocol::Http1,
                    phase: ExecutePhase::Inspect,
                    ..self
                }
            } else {
                Execution { phase: ExecutePhase::Open(None), ..self }
            },
    {
        if found {
            Execution { wire_protocol: Protocol::Http1, phase: ExecutePhase::Inspect, ..self }
        } else {
            Execution { phase: ExecutePhase::Open(None), ..self }
        }
    }

    /// The phase of a request that is ready for its connection.
    pub open spec fn ready_phase(wire_protocol: Protocol) -> ExecutePhase {
        match wire_protocol {
            Protocol::Http1 => ExecutePhase::Send,
            Protocol::Http2PriorKnowledge => ExecutePhase::RunOwn,
        }
    }

    fn ready(wire_protocol: Protocol) -> (phase: ExecutePhase)
        ensures
            phase == Self::ready_phase(wire_protocol),
    {
        match wire_protocol {
            Protocol::Http1 => ExecutePhase::Send,
            Protocol::Http2PriorKnowledge => ExecutePhase::RunOwn,
        }
    }

    /// What follows once a connection is there: an encrypted one decides the
    /// form of the request, a failure of which closes it.
    pub open spec fn connected(
        &self,
        wire_protocol: Protocol,
        reused: bool,
        next: Result<Execution, ExecuteFailure>,
    ) -> bool {
        match next {
            Ok(execution) => {
                &&& execution.continues(self)
                &&& execution.wire_protocol == wire_protocol
                &&& execution.reused == reused
                &&& execution.retried == self.retried
                &&& if self.target@.tls {
                    &&& self.wire_fault(wire_protocol) is None
                    &&& execution.fits_wire(wire_protocol)
                    &&& execution.phase == ExecutePhase::ValidateWire
                } else {
                    &&& execution.request == self.request
                    &&& execution.phase == Self::ready_phase(wire_protocol)
                }
            },
            Err(failure) => {
                &&& self.target@.tls
                &&& self.wire_fault(wire_protocol) == Some(failure.error@)
                &&& failure.close
            },
        }
    }

    fn connect(self, wire_protocol: Protocol, reused: bool) -> (next: Result<
        Execution,
        ExecuteFailure,
    >)
        requires
            self.valid(),
            crate::web::uri::uri_target(self.request.uri@) == Ok::<UriTargetView, ErrorView>(
                self.target@,
            ),
        ensures
            self.connected(wire_protocol, reused, next),
    {
        let held = Execution { wire_protocol, reused, ..self };
        if held.target.tls {
            match held.fitted(wire_protocol, ExecutePhase::ValidateWire) {
                Ok(execution) => Ok(execution),
                Err(error) => Err(ExecuteFailure { error, close: true }),
            }
        } else {
            let phase = Self::ready(wire_protocol);
            Ok(Execution { phase, ..held })
        }
    }

    /// The connection that was checked out is clean, or not.
    pub fn inspected(self, clean: bool) -> (next: Result<Execution, ExecuteFailure>)
        requires
            self.valid(),
            self.phase == ExecutePhase::Inspect,
            crate::web::uri::uri_target(self.request.uri@) == Ok::<UriTargetView, ErrorView>(
                self.target@,
            ),
        ensures
            next matches Err(failure) ==> failure.close == self.phase.holds_connection(),
            if clean {
                self.connected(self.wire_protocol, true, next)
            } else {
                next == Ok::<Execution, ExecuteFailure>(
                    Execution {
                        phase: ExecutePhase::Open(
                            Some(ClientEvent::DirtyPooledConnectionDiscarded),
                        ),
                        ..self
                    },
                )
            },
    {
        if clean {
            let wire_protocol = self.wire_protocol;
            self.connect(wire_protocol, true)
        } else {
            Ok(
                Execution {
                    phase: ExecutePhase::Open(Some(ClientEvent::DirtyPooledConnectionDiscarded)),
                    ..self
                },
            )
        }
    }

    /// A new connection was opened, or could not be.
    pub fn opened(self, outcome: Result<Protocol, Error>) -> (next: Result<
        Execution,
        ExecuteFailure,
    >)
        requires
            self.valid(),
            self.phase is Open,
            crate::web::uri::uri_target(self.request.uri@) == Ok::<UriTargetView, ErrorView>(
                self.target@,
            ),
        ensures
            match outcome {
                Ok(wire_protocol) => self.connected(wire_protocol, false, next),
                Err(error) => next == Err::<Execution, ExecuteFailure>(
                    ExecuteFailure { error, close: false },
                ),
            },
    {
        match outcome {
            Ok(wire_protocol) => self.connect(wire_protocol, false),
            Err(error) => Err(ExecuteFailure { error, close: false }),
        }
    }

    /// The protocol driver judged the request for the connection.
    pub fn validated_wire(self, verdict: Result<(), HttpErrorInfo>) -> (next: Result<
        Execution,
        ExecuteFailure,
    >)
        requires
            self.phase == ExecutePhase::ValidateWire,
        ensures
            next matches Err(failure) ==> failure.close == self.phase.holds_connection(),
            match (verdict, next) {
                (Err(fault), Err(failure)) => failure.error@ == fault.reported() && failure.close,
                (Ok(()), Ok(execution)) => execution == (Execution {
                    phase: Self::ready_phase(self.wire_protocol),
                    ..self
                }),
                _ => false,
            },
    {
        match verdict {
            Err(fault) => Err(ExecuteFailure { error: fault.into_http_error(), close: true }),
            Ok(()) => {
                let phase = Self::ready(self.wire_protocol);
                Ok(Execution { phase, ..self })
            },
        }
    }

    /// Whether the request is sent once more after a failure: it went over a
    /// connection of the pool, was not sent before, can be sent again, and the
    /// failure leaves it unanswered.
    pub open spec fn retries(&self, failure: SendFailure) -> bool {
        &&& self.reused
        &&& !self.retried
        &&& self.request.body@ is Buffered
        &&& failure.retryable(self.request.method@)
    }

    /// The response arrived, or sending failed.
    pub fn sent(self, outcome: Result<(), SendFailure>) -> (next: Result<
        Execution,
        ExecuteFailure,
    >)
        requires
            self.phase == ExecutePhase::Send,
        ensures
            next matches Err(failure) ==> failure.close == self.phase.holds_connection(),
            match outcome {
                Ok(()) => next == Ok::<Execution, ExecuteFailure>(
                    Execution {
                        phase: ExecutePhase::Finish(
                            self.wire_protocol != Protocol::Http1
                                || !crate::web::message::asks_to_close(self.request.headers@),
                        ),
                        ..self
                    },
                ),
                Err(failure) => if self.retries(failure) {
                    next == Ok::<Execution, ExecuteFailure>(
                        Execution {
                            reused: false,
                            retried: true,
                            phase: ExecutePhase::Open(Some(ClientEvent::RequestRetried)),
                            ..self
                        },
                    )
                } else {
                    next == Err::<Execution, ExecuteFailure>(
                        ExecuteFailure { error: failure.error, close: true },
                    )
                },
            },
    {
        match outcome {
            Ok(()) => {
                let may_reuse = request_allows_reuse(&self.request.headers, self.wire_protocol);
                Ok(Execution { phase: ExecutePhase::Finish(may_reuse), ..self })
            },
            Err(failure) => {
                if self.reused && !self.retried && !self.request.body.is_streaming()
                    && failure.can_retry_on_fresh_connection(&self.request.method) {
                    Ok(
                        Execution {
                            reused: false,
                            retried: true,
                            phase: ExecutePhase::Open(Some(ClientEvent::RequestRetried)),
                            ..self
                        },
                    )
                } else {
                    Err(ExecuteFailure { error: failure.error, close: true })
                }
            },
        }
    }
}

/// Why a request is not executed at all.
pub open spec fn start_fault(
    config: crate::web::config::ClientConfigView,
    request: Request,
    now: int,
) -> Option<ErrorView> {
    match config.fault(now) {
        Some(message) => Some(ErrorView::InvalidConfiguration(message)),
        None => match crate::web::uri::uri_target(request.uri@) {
            Err(error) => Some(error),
            Ok(target) => if request.version == crate::web::error::Version::Http2 && target.tls {
                crate::web::message::request_fault(
                    wire_fields(request.headers@, Protocol::Http2PriorKnowledge),
                    request.uri@,
                    request.version,
                    request.body.outbound() is Some,
                )
            } else if request.version == crate::web::error::Version::Http11 && target.tls {
                None
            } else {
                crate::web::message::request_fault(
                    request.headers@,
                    request.uri@,
                    request.version,
                    request.body.outbound() is Some,
                )
            },
        },
    }
}

/// A request is sent at most twice, and one with a streamed body only once.
pub proof fn requests_are_repeated_at_most_once(execution: Execution, failure: SendFailure)
    ensures
        execution.retried ==> !execution.retries(failure),
        execution.request.body@ is Streaming ==> !execution.retries(failure),
        failure.response_bytes_received ==> !execution.retries(failure),
{
}

/// Where the HTTP/2 session of the next attempt comes from.
#[derive(Clone, Copy, Debug, PartialEq, Eq, Structural)]
pub enum SessionSource {
    /// It was given.
    Given,
    /// It is new.
    Create,
    /// It is one of the pool that has room, or else new.
    ReserveOrCreate,
}

/// The attempts to send a request over HTTP/2.
pub struct Http2Attempts {
    /// The method of the request.
    pub method: Method,
    /// Whether the request can be sent again.
    pub replayable: bool,
    /// Whether the next session has to be new.
    pub force_new: bool,
    /// Whether the request was sent again.
    pub retried: bool,
}

/// What came of an attempt.
pub enum H2AttemptResult {
    /// A response.
    Response,
    /// A failure.
    Failure(SendFailure),
    /// The session did not take the request.
    Rejected,
}

/// What follows an attempt.
pub enum AttemptNext {
    /// The response is handed over.
    Done,
    /// The request that the session gave back is sent anew.
    Resubmit(Http2Attempts),
    /// The copy of the request is sent, which is reported.
    Retry(Http2Attempts),
    /// The request failed.
    Fail(Error),
}

impl Http2Attempts {
    /// Before the first attempt.
    pub fn new(request: &Request) -> (attempts: Http2Attempts)
        ensures
            attempts.method@ == request.method@,
            attempts.replayable == (request.body@ is Buffered),
            !attempts.force_new,
            !attempts.retried,
    {
        Http2Attempts {
            method: request.method.duplicate(),
            replayable: !request.body.is_streaming(),
            force_new: false,
            retried: false,
        }
    }

    /// Where the session of the next attempt comes from.
    pub fn source(&self, given: bool) -> (source: SessionSource)
        ensures
            source == if given {
                SessionSource::Given
            } else if self.force_new {
                SessionSource::Create
            } else {
                SessionSource::ReserveOrCreate
            },
    {
        if given {
            SessionSource::Given
        } else if self.force_new {
            SessionSource::Create
        } else {
            SessionSource::ReserveOrCreate
        }
    }

    /// Whether a copy of the request is kept for another attempt.
    pub open spec fn copies(&self) -> bool {
        !self.retried && self.replayable
    }

    /// Whether a copy of the request is kept for another attempt.
    pub fn keeps_copy(&self) -> (keeps: bool)
        ensures
            keeps == self.copies(),
    {
        !self.retried && self.replayable
    }

    /// Whether a failed request is sent again: a copy is there, the session was
    /// in use before or the peer says that it did nothing with the request, and
    /// the failure leaves the request unanswered.
    pub open spec fn retries(&self, attempt_reused: bool, failure: SendFailure) -> bool {
        &&& self.copies()
        &&& attempt_reused || failure.guaranteed_unprocessed
        &&& failure.retryable(self.method@)
    }

    /// Decides what follows an attempt.
    pub fn after(self, attempt_reused: bool, result: H2AttemptResult) -> (next: AttemptNext)
        ensures
            match result {
                H2AttemptResult::Response => next is Done,
                H2AttemptResult::Rejected => next == AttemptNext::Resubmit(
                    Http2Attempts { force_new: true, ..self },
                ),
                H2AttemptResult::Failure(failure) => if self.retries(attempt_reused, failure) {
                    next == AttemptNext::Retry(
                        Http2Attempts { force_new: true, retried: true, ..self },
                    )
                } else {
                    next == AttemptNext::Fail(failure.error)
                },
            },
    {
        match result {
            H2AttemptResult::Response => AttemptNext::Done,
            H2AttemptResult::Rejected => AttemptNext::Resubmit(
                Http2Attempts { force_new: true, ..self },
            ),
            H2AttemptResult::Failure(failure) => {
                if self.keeps_copy() && (attempt_reused || failure.guaranteed_unprocessed)
                    && failure.can_retry_on_fresh_connection(&self.method) {
                    AttemptNext::Retry(Http2Attempts { force_new: true, retried: true, ..self })
                } else {
                    AttemptNext::Fail(failure.error)
                }
            },
        }
    }
}

/// A request over HTTP/2 is sent again at most once after a failure, and one
/// with a streamed body never.
pub proof fn attempts_are_repeated_at_most_once(
    attempts: Http2Attempts,
    attempt_reused: bool,
    failure: SendFailure,
)
    ensures
        attempts.retried ==> !attempts.retries(attempt_reused, failure),
        !attempts.replayable ==> !attempts.retries(attempt_reused, failure),
        failure.response_bytes_received ==> !attempts.retries(attempt_reused, failure),
{
}

/// A request that was not idempotent and of which part was written is sent
/// again, whatever the protocol, only when the peer says that it did nothing
/// with it.
pub proof fn repetition_is_safe(
    execution: Execution,
    attempts: Http2Attempts,
    attempt_reused: bool,
    failure: SendFailure,
)
    requires
        failure.request_bytes_written,
        !failure.guaranteed_unprocessed,
    ensures
        !crate::web::headers::idempotent_method(execution.request.method@) ==> !execution.retries(
            failure,
        ),
        !crate::web::headers::idempotent_method(attempts.method@) ==> !attempts.retries(
            attempt_reused,
            failure,
        ),
{
}

/// A client builds requests with the method and the URI that they are started
/// with, and has the configuration that it was made with when that is usable.
pub proof fn clients_start_requests_as_asked(
    config: ClientConfig,
    now: Instant,
    made: Result<Client, Error>,
    client: &Client,
    kept: &ClientConfig,
    method: Method,
    uri: &str,
    builders: (RequestBuilder, RequestBuilder, RequestBuilder),
    parsed: Result<Uri, Error>,
)
    requires
        call_ensures(Client::with_config, (config, now), made),
        call_ensures(Client::config, (client,), kept),
        call_ensures(Uri::parse, (uri,), parsed),
        call_ensures(Client::get, (client, uri), builders.0),
        call_ensures(Client::post, (client, uri), builders.1),
        call_ensures(Client::request, (client, method, uri), builders.2),
    ensures
        made is Ok <==> config@.fault(now@) is None,
        made matches Ok(made) ==> made@ == config@,
        kept@ == client@,
        builders.0@.method == "GET"@ && builders.1@.method == "POST"@ && builders.2@.method
            == method@,
        parsed matches Ok(read) ==> builders.0@.uri == Ok::<crate::web::uri::UriView, ErrorView>(
            read@,
        ) && builders.1@.uri == builders.0@.uri && builders.2@.uri == builders.0@.uri,
        parsed is Err ==> builders.0@.uri is Err && builders.1@.uri is Err && builders.2@.uri is Err,
        builders.2@.version is None && builders.2@.error is None,
        forall|name: Seq<u8>| !(#[trigger] builders.2@.fields.contains_key(name)),
        builders.2@.body@ == BodyView::Buffered(Seq::empty()),
{
}

/// A connection in clear speaks the protocol that was asked for; an encrypted
/// one needs a configuration, and speaks what the handshake selected, as long as
/// that is known and a request for HTTP/2 gets HTTP/2.
pub proof fn connections_speak_what_was_settled(
    configured: bool,
    requested: Protocol,
    plans: (Result<ConnectionPlan, Error>, Result<ConnectionPlan, Error>),
    selected: &[u8],
    wires: (Result<Protocol, Error>, Result<Protocol, Error>),
)
    requires
        call_ensures(plan_connection, (false, configured, requested), plans.0),
        call_ensures(plan_connection, (true, configured, requested), plans.1),
        call_ensures(settle_protocol, (requested, Some(selected)), wires.0),
        call_ensures(settle_protocol, (requested, None), wires.1),
    ensures
        plans.0 == Ok::<ConnectionPlan, Error>(ConnectionPlan::Plain(requested)),
        configured ==> plans.1 == Ok::<ConnectionPlan, Error>(ConnectionPlan::Tls),
        !configured ==> plans.1 is Err,
        wires.1 is Ok <==> requested == Protocol::Http1,
        wires.1 matches Ok(wire) ==> wire == Protocol::Http1,
        wires.0 == Ok::<Protocol, Error>(Protocol::Http2PriorKnowledge) <==> selected@
            == crate::web::tls::h2_name(),
        wires.0 == Ok::<Protocol, Error>(Protocol::Http1) <==> selected@
            == crate::web::tls::http11_name() && requested == Protocol::Http1,
{
    reveal_strlit("h2");
    reveal_strlit("http/1.1");
    assert(crate::web::tls::h2_name().len() != crate::web::tls::http11_name().len());
}

/// A request in execution is the request of the caller: its method, URI and body
/// never change, it goes to the target of its URI, and it starts from the fields
/// that the caller gave.
pub proof fn executions_carry_the_callers_request(
    config: &ClientConfig,
    request: Request,
    now: Instant,
    execution: Execution,
    target: UriTarget,
)
    requires
        call_ensures(UriTarget::parse, (&request.uri,), Ok(target)),
        call_ensures(Execution::start, (config, request, now), Ok(execution)),
    ensures
        execution.request.method == request.method,
        execution.request.uri == request.uri,
        execution.request.body == request.body,
        execution.original_headers@ == request.headers@,
        execution.target.host@ == target.host@ && execution.target.port == target.port,
        execution.target.tls == target.tls && execution.target.request_target@
            == target.request_target@,
        execution.requested_protocol == Protocol::Http1 <==> request.version
            == crate::web::error::Version::Http11,
        execution.requested_protocol == Protocol::Http2PriorKnowledge <==> request.version
            == crate::web::error::Version::Http2,
        execution.wire_protocol == execution.requested_protocol,
        !execution.reused && !execution.retried,
        execution.phase == if target.tls && request.version == crate::web::error::Version::Http11 {
            ExecutePhase::Reserve
        } else {
            ExecutePhase::Validate
        },
        !target.tls ==> forall|name: Seq<u8>|
            name != crate::web::message::ascii("content-length"@) && name
                != crate::web::message::ascii("transfer-encoding"@) && name
                != crate::web::message::ascii("host"@) ==> #[trigger]
            crate::web::message::same_values(execution.request.headers@, request.headers@, name),
{
}

/// A request that the driver refuses fails with what it said, and a connection
/// that is held for it is closed. One that it takes goes on: over HTTP/2 when it
/// asked for that, over the wire of its connection, or by looking for a
/// connection.
pub proof fn drivers_decide_how_requests_go_on(
    states: (Execution, Execution, Execution),
    fault: HttpErrorInfo,
    taken: (Result<Execution, ExecuteFailure>, Result<Execution, ExecuteFailure>, Result<Execution, ExecuteFailure>),
    refused: (Result<Execution, ExecuteFailure>, Result<Execution, ExecuteFailure>, Result<Execution, ExecuteFailure>),
)
    requires
        states.0.phase == ExecutePhase::Validate,
        states.1.phase == ExecutePhase::ValidateShared,
        states.2.phase == ExecutePhase::ValidateWire,
        call_ensures(Execution::validated, (states.0, Ok(())), taken.0),
        call_ensures(Execution::validated_shared, (states.1, Ok(())), taken.1),
        call_ensures(Execution::validated_wire, (states.2, Ok(())), taken.2),
        call_ensures(Execution::validated, (states.0, Err(fault)), refused.0),
        call_ensures(Execution::validated_shared, (states.1, Err(fault)), refused.1),
        call_ensures(Execution::validated_wire, (states.2, Err(fault)), refused.2),
    ensures
        taken.0 matches Ok(next) && next.phase == (if states.0.requested_protocol
            == Protocol::Http1 {
            ExecutePhase::Reserve
        } else {
            ExecutePhase::RunHttp2
        }) && next.request == states.0.request && next.target == states.0.target,
        taken.1 matches Ok(next) && next.phase == ExecutePhase::RunShared && next.request
            == states.1.request,
        taken.2 matches Ok(next) && next.phase == (if states.2.wire_protocol == Protocol::Http1 {
            ExecutePhase::Send
        } else {
            ExecutePhase::RunOwn
        }) && next.request == states.2.request,
        refused.0 matches Err(failure) && failure.error@ == fault.reported() && !failure.close,
        refused.1 matches Err(failure) && failure.error@ == fault.reported() && !failure.close,
        refused.2 matches Err(failure) && failure.error@ == fault.reported() && failure.close,
{
}

/// A request looks for a place in a session, then for an idle connection, and
/// only then opens one. A connection of the pool that is not clean is not used.
pub proof fn connections_are_looked_for_in_order(
    reserving: Execution,
    looking: Execution,
    inspecting: Execution,
    nexts: (Result<Execution, ExecuteFailure>, Execution, Execution, Result<Execution, ExecuteFailure>, Result<Execution, ExecuteFailure>),
)
    requires
        reserving.phase == ExecutePhase::Reserve,
        looking.phase == ExecutePhase::Checkout,
        inspecting.phase == ExecutePhase::Inspect,
        !inspecting.target.tls,
        call_ensures(Execution::reserved, (reserving, false), nexts.0),
        call_ensures(Execution::checked_out, (looking, true), nexts.1),
        call_ensures(Execution::checked_out, (looking, false), nexts.2),
        call_ensures(Execution::inspected, (inspecting, false), nexts.3),
        call_ensures(Execution::inspected, (inspecting, true), nexts.4),
    ensures
        nexts.0 matches Ok(next) && next.phase == ExecutePhase::Checkout && next.request
            == reserving.request,
        nexts.1.phase == ExecutePhase::Inspect && nexts.1.wire_protocol == Protocol::Http1
            && nexts.1.request == looking.request,
        nexts.2.phase == ExecutePhase::Open(None) && nexts.2.request == looking.request,
        nexts.3 matches Ok(next) && next.phase == ExecutePhase::Open(
            Some(ClientEvent::DirtyPooledConnectionDiscarded),
        ) && next.request == inspecting.request,
        nexts.4 matches Ok(next) && next.reused && next.request == inspecting.request && next.phase
            == (if inspecting.wire_protocol == Protocol::Http1 {
            ExecutePhase::Send
        } else {
            ExecutePhase::RunOwn
        }),
{
}

/// A new connection is not a reused one. In clear the request goes as it is; for
/// an encrypted connection it takes the form of the protocol that was settled
/// on, from the fields of the caller.
pub proof fn requests_take_the_form_of_the_wire(
    opening: Execution,
    wire: Protocol,
    error: Error,
    next: Result<Execution, ExecuteFailure>,
    failed: Result<Execution, ExecuteFailure>,
)
    requires
        opening.phase is Open,
        call_ensures(Execution::opened, (opening, Ok(wire)), next),
        call_ensures(Execution::opened, (opening, Err(error)), failed),
    ensures
        next matches Ok(next) ==> {
            &&& !next.reused
            &&& next.retried == opening.retried
            &&& next.wire_protocol == wire
            &&& next.request.method == opening.request.method
            &&& next.request.uri == opening.request.uri
            &&& next.request.body == opening.request.body
            &&& next.original_headers == opening.original_headers
            &&& !opening.target.tls ==> next.request == opening.request && next.phase == (if wire
                == Protocol::Http1 {
                ExecutePhase::Send
            } else {
                ExecutePhase::RunOwn
            })
            &&& opening.target.tls ==> next.phase == ExecutePhase::ValidateWire
                && next.request.version == (if wire == Protocol::Http1 {
                crate::web::error::Version::Http11
            } else {
                crate::web::error::Version::Http2
            }) && forall|name: Seq<u8>|
                name != crate::web::message::ascii("content-length"@) && name
                    != crate::web::message::ascii("transfer-encoding"@) && name
                    != crate::web::message::ascii("host"@) && name != crate::web::message::ascii(
                    "connection"@,
                ) ==> #[trigger] crate::web::message::same_values(
                    next.request.headers@,
                    opening.original_headers@,
                    name,
                )
        },
        next is Err ==> opening.target.tls,
        failed == Err::<Execution, ExecuteFailure>(ExecuteFailure { error, close: false }),
{
}

/// A request that went out over a connection of the pool and failed harmlessly
/// is sent once more, on a new connection; any other failure is the caller's.
/// After a response the connection may be kept unless HTTP/1.1 asks to close it.
pub proof fn failed_requests_are_sent_once_more(
    sending: Execution,
    failure: SendFailure,
    retry: bool,
    next: Result<Execution, ExecuteFailure>,
    done: Result<Execution, ExecuteFailure>,
    allows: bool,
)
    requires
        sending.phase == ExecutePhase::Send,
        call_ensures(
            SendFailure::can_retry_on_fresh_connection,
            (&failure, &sending.request.method),
            retry,
        ),
        call_ensures(Execution::sent, (sending, Err(failure)), next),
        call_ensures(Execution::sent, (sending, Ok(())), done),
        call_ensures(
            request_allows_reuse,
            (&sending.request.headers, sending.wire_protocol),
            allows,
        ),
    ensures
        next is Ok <==> sending.reused && !sending.retried && sending.request.body@ is Buffered
            && retry,
        next matches Ok(next) ==> {
            &&& next.retried && !next.reused
            &&& next.phase == ExecutePhase::Open(Some(ClientEvent::RequestRetried))
            &&& next.request == sending.request
            &&& next.target == sending.target
        },
        next matches Err(failed) ==> failed.error == failure.error && failed.close,
        done matches Ok(done) && done.phase == ExecutePhase::Finish(allows) && done.request
            == sending.request,
{
}

/// Over HTTP/2 a response is handed over, a request that a session gave back is
/// sent anew on a new one, and a failed one is sent again at most once, when a
/// copy was kept and that does no harm.
pub proof fn http2_attempts_follow_their_result(
    request: &Request,
    fresh: Http2Attempts,
    attempts: Http2Attempts,
    reused: bool,
    failure: SendFailure,
    retry: bool,
    nexts: (AttemptNext, AttemptNext, AttemptNext),
    sources: (SessionSource, SessionSource),
    keeps: bool,
)
    requires
        call_ensures(Http2Attempts::new, (request,), fresh),
        call_ensures(
            SendFailure::can_retry_on_fresh_connection,
            (&failure, &attempts.method),
            retry,
        ),
        call_ensures(Http2Attempts::after, (attempts, reused, H2AttemptResult::Response), nexts.0),
        call_ensures(Http2Attempts::after, (attempts, reused, H2AttemptResult::Rejected), nexts.1),
        call_ensures(
            Http2Attempts::after,
            (attempts, reused, H2AttemptResult::Failure(failure)),
            nexts.2,
        ),
        call_ensures(Http2Attempts::source, (&attempts, true), sources.0),
        call_ensures(Http2Attempts::source, (&attempts, false), sources.1),
        call_ensures(Http2Attempts::keeps_copy, (&attempts,), keeps),
    ensures
        fresh.method@ == request.method@,
        fresh.replayable == (request.body@ is Buffered),
        !fresh.retried && !fresh.force_new,
        nexts.0 is Done,
        nexts.1 matches AttemptNext::Resubmit(next) && next.force_new && next.retried
            == attempts.retried && next.method == attempts.method,
        nexts.2 is Retry <==> keeps && (reused || failure.guaranteed_unprocessed) && retry,
        nexts.2 matches AttemptNext::Retry(next) ==> next.retried && next.force_new && next.method
            == attempts.method,
        nexts.2 !is Retry ==> nexts.2 == AttemptNext::Fail(failure.error),
        keeps == (attempts.replayable && !attempts.retried),
        sources.0 is Given,
        sources.1 is Create <==> attempts.force_new,
        sources.1 is ReserveOrCreate <==> !attempts.force_new,
{
}

/// A new client goes by the default configuration.
pub proof fn new_clients_have_the_defaults(client: Client, config: ClientConfig)
    requires
        call_ensures(Client::new, (), client),
        call_ensures(ClientConfig::new, (), config),
    ensures
        client@.limits@ == config@.limits@,
        client@.default_protocol == config@.default_protocol,
        client@.connection_io_timeout == config@.connection_io_timeout,
        client@.expect_continue_timeout == config@.expect_continue_timeout,
        client@.pool_idle_timeout == config@.pool_idle_timeout,
        client@.pool_max_idle_per_key == config@.pool_max_idle_per_key,
        client@.pool_max_idle_total == config@.pool_max_idle_total,
        client@.tls is None,
{
    crate::time::duration_is_its_length(
        client@.connection_io_timeout,
        config@.connection_io_timeout,
    );
    crate::time::duration_is_its_length(
        client@.expect_continue_timeout,
        config@.expect_continue_timeout,
    );
    crate::time::duration_is_its_length(client@.pool_idle_timeout, config@.pool_idle_timeout);
}

/// A request that fails closes the connection that it holds by then: none before
/// it has one, and the one that it has from then on.
pub proof fn failures_close_the_connection_that_is_held(
    early: (Execution, Execution),
    late: (Execution, Execution, Execution),
    fault: HttpErrorInfo,
    clean: bool,
    failure: SendFailure,
    failed: (ExecuteFailure, ExecuteFailure, ExecuteFailure, ExecuteFailure, ExecuteFailure),
)
    requires
        early.0.phase == ExecutePhase::Validate,
        early.1.phase == ExecutePhase::ValidateShared,
        late.0.phase == ExecutePhase::Inspect,
        late.1.phase == ExecutePhase::ValidateWire,
        late.2.phase == ExecutePhase::Send,
        call_ensures(Execution::validated, (early.0, Err(fault)), Err(failed.0)),
        call_ensures(Execution::validated_shared, (early.1, Err(fault)), Err(failed.1)),
        call_ensures(Execution::inspected, (late.0, clean), Err(failed.2)),
        call_ensures(Execution::validated_wire, (late.1, Err(fault)), Err(failed.3)),
        call_ensures(Execution::sent, (late.2, Err(failure)), Err(failed.4)),
    ensures
        !failed.0.close && !failed.1.close,
        failed.2.close && failed.3.close && failed.4.close,
        failed.0.error@ == fault.reported() && failed.1.error@ == fault.reported(),
{
}

/// Over HTTP/2 a request loses its `connection` field, and over HTTP/1.1 it keeps
/// the one that the caller set.
pub proof fn only_http1_has_a_connection_field(
    opening: Execution,
    wire: Protocol,
    next: Execution,
)
    requires
        opening.phase is Open,
        opening.target.tls,
        call_ensures(Execution::opened, (opening, Ok(wire)), Ok(next)),
    ensures
        wire == Protocol::Http2PriorKnowledge ==> !next.request.headers@.contains_key(
            crate::web::message::ascii("connection"@),
        ),
        wire == Protocol::Http1 ==> crate::web::message::same_values(
            next.request.headers@,
            opening.original_headers@,
            crate::web::message::ascii("connection"@),
        ),
{
    reveal_strlit("connection");
    reveal_strlit("host");
    reveal_strlit("content-length");
    reveal_strlit("transfer-encoding");
    assert(crate::web::message::ascii("connection"@).len() == 10);
    assert(crate::web::message::ascii("host"@).len() == 4);
    assert(crate::web::message::ascii("content-length"@).len() == 14);
    assert(crate::web::message::ascii("transfer-encoding"@).len() == 17);
}

} // verus!
