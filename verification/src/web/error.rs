//! Errors of the HTTP client and server.

use vstd::prelude::*;
use vstd::string::StringExecFns;

use crate::errno::Errno;
use crate::text::decimal;
use crate::text::joined;
use crate::text::joined3;
use crate::text::joined5;

verus! {

/// An HTTP version.
#[derive(Clone, Copy, Debug, PartialEq, Eq, Structural)]
pub enum Version {
    /// HTTP/0.9.
    Http09,
    /// HTTP/1.0.
    Http10,
    /// HTTP/1.1.
    Http11,
    /// HTTP/2.
    Http2,
    /// HTTP/3.
    Http3,
}

impl Version {
    /// The name of the version.
    pub open spec fn name(self) -> Seq<char> {
        match self {
            Version::Http09 => "HTTP/0.9"@,
            Version::Http10 => "HTTP/1.0"@,
            Version::Http11 => "HTTP/1.1"@,
            Version::Http2 => "HTTP/2.0"@,
            Version::Http3 => "HTTP/3.0"@,
        }
    }

    /// Returns the name of the version.
    pub fn as_str(self) -> (text: &'static str)
        ensures
            text@ == self.name(),
    {
        match self {
            Version::Http09 => "HTTP/0.9",
            Version::Http10 => "HTTP/1.0",
            Version::Http11 => "HTTP/1.1",
            Version::Http2 => "HTTP/2.0",
            Version::Http3 => "HTTP/3.0",
        }
    }
}

/// A stable category for an HTTP protocol failure.
#[derive(Clone, Copy, Debug, PartialEq, Eq, Structural)]
pub enum ProtocolErrorKind {
    /// The peer sent a syntactically malformed message.
    MalformedMessage,
    /// Message or frame boundaries were invalid.
    InvalidFraming,
    /// A header or pseudo-header was invalid.
    InvalidHeader,
    /// A content-length value was invalid or inconsistent.
    InvalidContentLength,
    /// HTTP/2 flow-control rules were violated.
    FlowControlViolation,
    /// The peer reset the active HTTP/2 stream.
    PeerReset,
    /// The peer ended the HTTP/2 connection with GOAWAY.
    PeerGoaway,
    /// The message requested a feature that is not supported.
    UnsupportedFeature,
    /// An event was not valid in the current operation.
    UnexpectedEvent,
    /// The protocol adapter or connection state was inconsistent.
    InvalidState,
    /// HTTP/2 header compression failed.
    Compression,
}

impl ProtocolErrorKind {
    /// The text that describes the category.
    pub open spec fn description(self) -> Seq<char> {
        match self {
            ProtocolErrorKind::MalformedMessage => "malformed HTTP message"@,
            ProtocolErrorKind::InvalidFraming => "invalid HTTP framing"@,
            ProtocolErrorKind::InvalidHeader => "invalid HTTP header"@,
            ProtocolErrorKind::InvalidContentLength => "invalid HTTP content length"@,
            ProtocolErrorKind::FlowControlViolation => "HTTP/2 flow-control violation"@,
            ProtocolErrorKind::PeerReset => "HTTP/2 peer reset"@,
            ProtocolErrorKind::PeerGoaway => "HTTP/2 peer GOAWAY"@,
            ProtocolErrorKind::UnsupportedFeature => "unsupported HTTP feature"@,
            ProtocolErrorKind::UnexpectedEvent => "unexpected HTTP event"@,
            ProtocolErrorKind::InvalidState => "invalid HTTP connection state"@,
            ProtocolErrorKind::Compression => "HTTP/2 header compression error"@,
        }
    }

    /// Returns the text that describes the category.
    pub fn as_str(self) -> (text: &'static str)
        ensures
            text@ == self.description(),
    {
        match self {
            ProtocolErrorKind::MalformedMessage => "malformed HTTP message",
            ProtocolErrorKind::InvalidFraming => "invalid HTTP framing",
            ProtocolErrorKind::InvalidHeader => "invalid HTTP header",
            ProtocolErrorKind::InvalidContentLength => "invalid HTTP content length",
            ProtocolErrorKind::FlowControlViolation => "HTTP/2 flow-control violation",
            ProtocolErrorKind::PeerReset => "HTTP/2 peer reset",
            ProtocolErrorKind::PeerGoaway => "HTTP/2 peer GOAWAY",
            ProtocolErrorKind::UnsupportedFeature => "unsupported HTTP feature",
            ProtocolErrorKind::UnexpectedEvent => "unexpected HTTP event",
            ProtocolErrorKind::InvalidState => "invalid HTTP connection state",
            ProtocolErrorKind::Compression => "HTTP/2 header compression error",
        }
    }
}

/// What a protocol failure says.
#[verifier::ext_equal]
pub struct ProtocolErrorView {
    /// The category.
    pub kind: ProtocolErrorKind,
    /// What went wrong.
    pub detail: Seq<char>,
    /// What caused it, when that is known.
    pub source: Option<Seq<char>>,
}

impl ProtocolErrorView {
    /// The text that describes the failure.
    pub open spec fn text(self) -> Seq<char> {
        self.kind.description() + ": "@ + self.detail
    }
}

/// A structured HTTP protocol failure.
#[derive(Debug)]
pub struct ProtocolError {
    kind: ProtocolErrorKind,
    detail: String,
    source: Option<String>,
}

impl View for ProtocolError {
    type V = ProtocolErrorView;

    closed spec fn view(&self) -> ProtocolErrorView {
        ProtocolErrorView {
            kind: self.kind,
            detail: self.detail@,
            source: match self.source {
                Some(source) => Some(source@),
                None => None,
            },
        }
    }
}

impl ProtocolError {
    /// A failure without a known cause.
    pub fn new(kind: ProtocolErrorKind, detail: String) -> (error: ProtocolError)
        ensures
            error@ == (ProtocolErrorView { kind, detail: detail@, source: None }),
    {
        ProtocolError { kind, detail, source: None }
    }

    /// A failure with its cause.
    pub fn with_source(kind: ProtocolErrorKind, detail: String, source: String) -> (error:
        ProtocolError)
        ensures
            error@ == (ProtocolErrorView { kind, detail: detail@, source: Some(source@) }),
    {
        ProtocolError { kind, detail, source: Some(source) }
    }

    /// Returns the stable category of the failure.
    pub fn kind(&self) -> (kind: ProtocolErrorKind)
        ensures
            kind == self@.kind,
    {
        self.kind
    }

    /// Returns the text of the cause, when it is known.
    pub fn source(&self) -> (source: Option<&str>)
        ensures
            match source {
                Some(text) => self@.source == Some(text@),
                None => self@.source is None,
            },
    {
        match &self.source {
            Some(source) => Some(source.as_str()),
            None => None,
        }
    }

    /// Returns the text that describes the failure.
    pub fn to_text(&self) -> (text: String)
        ensures
            text@ == self@.text(),
    {
        joined3(self.kind.as_str(), ": ", self.detail.as_str())
    }
}

/// Why a name could not be resolved.
#[derive(Clone, Copy, Debug, PartialEq, Eq, Structural)]
pub enum ResolutionErrorKind {
    /// The resolver found nothing.
    NotFound,
    /// The resolver failed.
    Other,
}

/// Which part of a message could not be built.
#[derive(Clone, Copy, Debug, PartialEq, Eq, Structural)]
pub enum MessagePart {
    /// A header name.
    HeaderName,
    /// A header value.
    HeaderValue,
}

/// An HTTP client or server error.
#[derive(Debug)]
pub enum Error {
    /// A URI string was malformed.
    InvalidUri(String),
    /// The URI scheme is not supported.
    UnsupportedScheme(Option<String>),
    /// An absolute URI did not contain an authority.
    MissingAuthority,
    /// Name or address resolution failed.
    AddressResolution {
        /// The authority that could not be resolved.
        authority: String,
        /// Why it could not be resolved.
        kind: ResolutionErrorKind,
        /// What the resolver said.
        message: String,
    },
    /// The selected HTTP version is not supported.
    UnsupportedVersion(Version),
    /// An `https` request was made without client TLS configuration.
    TlsNotConfigured,
    /// TLS negotiated an ALPN protocol that is not supported.
    UnsupportedAlpnProtocol(Vec<u8>),
    /// The requested HTTP/2 protocol was not selected by TLS ALPN.
    AlpnProtocolMismatch {
        /// The version selected on the request.
        requested: Version,
        /// The version selected by ALPN.
        negotiated: Version,
    },
    /// A request could not be constructed.
    InvalidMessage(MessagePart),
    /// A header name was invalid.
    InvalidHeaderName,
    /// A header value was invalid.
    InvalidHeaderValue,
    /// A runtime transport operation failed.
    Io(Errno),
    /// A streaming body failed while producing a chunk.
    BodyStream {
        /// What the stream said.
        message: String,
    },
    /// Encoded headers exceeded the configured bound.
    HeadersTooLarge {
        /// The configured limit.
        limit: usize,
        /// The observed size, when known.
        actual: Option<usize>,
    },
    /// The number of header occurrences exceeded the configured bound.
    TooManyHeaders {
        /// The configured limit.
        limit: usize,
        /// The observed number of headers, when known.
        actual: Option<usize>,
    },
    /// A buffered body exceeded the configured bound.
    BodyTooLarge {
        /// The configured limit.
        limit: usize,
        /// The observed size, when known.
        actual: Option<usize>,
    },
    /// The bounded connection input buffer filled before progress was possible.
    InputBufferFull {
        /// The configured buffer size.
        limit: usize,
    },
    /// The peer closed the connection before completing the HTTP message.
    UnexpectedEof,
    /// HTTP protocol processing failed.
    Protocol(ProtocolError),
    /// The operation was canceled.
    Canceled,
    /// A configuration value was outside its supported range.
    InvalidConfiguration(&'static str),
}

/// What an error says.
#[verifier::ext_equal]
pub enum ErrorView {
    /// A URI string was malformed.
    InvalidUri(Seq<char>),
    /// The URI scheme is not supported.
    UnsupportedScheme(Option<Seq<char>>),
    /// An absolute URI did not contain an authority.
    MissingAuthority,
    /// Name or address resolution failed.
    AddressResolution { authority: Seq<char>, kind: ResolutionErrorKind, message: Seq<char> },
    /// The selected HTTP version is not supported.
    UnsupportedVersion(Version),
    /// TLS is not configured.
    TlsNotConfigured,
    /// The negotiated ALPN protocol is not supported.
    UnsupportedAlpnProtocol(Seq<u8>),
    /// The negotiated protocol is not the requested one.
    AlpnProtocolMismatch { requested: Version, negotiated: Version },
    /// A request could not be constructed.
    InvalidMessage(MessagePart),
    /// A header name was invalid.
    InvalidHeaderName,
    /// A header value was invalid.
    InvalidHeaderValue,
    /// A transport operation failed.
    Io(Errno),
    /// A streaming body failed.
    BodyStream(Seq<char>),
    /// Encoded headers were too large.
    HeadersTooLarge { limit: usize, actual: Option<usize> },
    /// There were too many headers.
    TooManyHeaders { limit: usize, actual: Option<usize> },
    /// A body was too large.
    BodyTooLarge { limit: usize, actual: Option<usize> },
    /// The input buffer is full.
    InputBufferFull { limit: usize },
    /// The peer closed early.
    UnexpectedEof,
    /// Protocol processing failed.
    Protocol(ProtocolErrorView),
    /// The operation was canceled.
    Canceled,
    /// A configuration value was out of range.
    InvalidConfiguration(Seq<char>),
}

impl View for Error {
    type V = ErrorView;

    open spec fn view(&self) -> ErrorView {
        match *self {
            Error::InvalidUri(message) => ErrorView::InvalidUri(message@),
            Error::UnsupportedScheme(scheme) => ErrorView::UnsupportedScheme(
                match scheme {
                    Some(scheme) => Some(scheme@),
                    None => None,
                },
            ),
            Error::MissingAuthority => ErrorView::MissingAuthority,
            Error::AddressResolution { authority, kind, message } => ErrorView::AddressResolution {
                authority: authority@,
                kind,
                message: message@,
            },
            Error::UnsupportedVersion(version) => ErrorView::UnsupportedVersion(version),
            Error::TlsNotConfigured => ErrorView::TlsNotConfigured,
            Error::UnsupportedAlpnProtocol(protocol) => ErrorView::UnsupportedAlpnProtocol(
                protocol@,
            ),
            Error::AlpnProtocolMismatch {
                requested,
                negotiated,
            } => ErrorView::AlpnProtocolMismatch { requested, negotiated },
            Error::InvalidMessage(part) => ErrorView::InvalidMessage(part),
            Error::InvalidHeaderName => ErrorView::InvalidHeaderName,
            Error::InvalidHeaderValue => ErrorView::InvalidHeaderValue,
            Error::Io(error) => ErrorView::Io(error),
            Error::BodyStream { message } => ErrorView::BodyStream(message@),
            Error::HeadersTooLarge { limit, actual } => ErrorView::HeadersTooLarge {
                limit,
                actual,
            },
            Error::TooManyHeaders { limit, actual } => ErrorView::TooManyHeaders { limit, actual },
            Error::BodyTooLarge { limit, actual } => ErrorView::BodyTooLarge { limit, actual },
            Error::InputBufferFull { limit } => ErrorView::InputBufferFull { limit },
            Error::UnexpectedEof => ErrorView::UnexpectedEof,
            Error::Protocol(error) => ErrorView::Protocol(error@),
            Error::Canceled => ErrorView::Canceled,
            Error::InvalidConfiguration(message) => ErrorView::InvalidConfiguration(message@),
        }
    }
}

/// The text of a limit that was exceeded.
pub open spec fn limit_text(name: Seq<char>, limit: nat, actual: Option<usize>) -> Seq<char> {
    match actual {
        Some(actual) => name + " size "@ + crate::text::decimal_text(actual as nat)
            + " exceeds the configured limit of "@ + crate::text::decimal_text(limit),
        None => name + " exceed the configured limit of "@ + crate::text::decimal_text(limit),
    }
}

fn display_limit(name: &str, limit: usize, actual: Option<usize>) -> (text: String)
    ensures
        text@ == limit_text(name@, limit as nat, actual),
{
    match actual {
        Some(actual) => joined5(
            name,
            " size ",
            decimal(actual).as_str(),
            " exceeds the configured limit of ",
            decimal(limit).as_str(),
        ),
        None => joined3(name, " exceed the configured limit of ", decimal(limit).as_str()),
    }
}

/// The text that `std::io::Error::from_raw_os_error` displays. It comes from
/// the operating system, so nothing is promised of it.
#[verifier::external_body]
pub(crate) fn errno_text(error: Errno) -> (text: String) {
    format!("{}", std::io::Error::from_raw_os_error(error.raw))
}

/// What `String::from_utf8_lossy` makes of bytes.
pub uninterp spec fn lossy_utf8(bytes: Seq<u8>) -> Seq<char>;

/// `String::from_utf8_lossy`: bytes that are UTF-8 are decoded. How other
/// bytes are replaced is named, not spelled out.
#[verifier::external_body]
fn lossy_text(bytes: &[u8]) -> (text: String)
    ensures
        text@ == lossy_utf8(bytes@),
        vstd::utf8::valid_utf8(bytes@) ==> text@ == vstd::utf8::decode_utf8(bytes@),
{
    String::from_utf8_lossy(bytes).into_owned()
}

/// Whether `text` is `prefix`, some words that others chose, and `suffix`.
pub open spec fn wraps(text: Seq<char>, prefix: Seq<char>, suffix: Seq<char>) -> bool {
    exists|middle: Seq<char>| text == #[trigger] (prefix + middle + suffix)
}

impl ErrorView {
    /// Whether `text` describes the error. The words of the operating system
    /// are not fixed; everything else is.
    pub open spec fn described_by(self, text: Seq<char>) -> bool {
        match self {
            ErrorView::InvalidUri(message) => text == "invalid URI: "@ + message,
            ErrorView::UnsupportedScheme(Some(scheme)) => text == "unsupported URI scheme `"@
                + scheme + "`; expected `http` or `https`"@,
            ErrorView::UnsupportedScheme(None) => text
                == "URI scheme is required; expected `http` or `https`"@,
            ErrorView::MissingAuthority => text == "URI authority is required"@,
            ErrorView::AddressResolution { authority, kind: _, message } => text
                == "failed to resolve `"@ + authority + "`: "@ + message,
            ErrorView::UnsupportedVersion(version) => text == "unsupported HTTP version "@
                + version.name(),
            ErrorView::TlsNotConfigured => text == "HTTPS requires a configured TLS client context"@,
            ErrorView::UnsupportedAlpnProtocol(name) => text
                == "TLS negotiated unsupported ALPN protocol `"@ + lossy_utf8(name) + "`"@,
            ErrorView::AlpnProtocolMismatch { requested, negotiated } => text
                == "requested HTTP version "@ + requested.name() + ", but TLS ALPN selected "@
                + negotiated.name(),
            ErrorView::InvalidMessage(MessagePart::HeaderName) => text
                == "invalid HTTP message: invalid HTTP header name"@,
            ErrorView::InvalidMessage(MessagePart::HeaderValue) => text
                == "invalid HTTP message: failed to parse header value"@,
            ErrorView::InvalidHeaderName => text
                == "invalid header name: invalid HTTP header name"@,
            ErrorView::InvalidHeaderValue => text
                == "invalid header value: failed to parse header value"@,
            ErrorView::Io(_) => wraps(text, "HTTP transport error: "@, Seq::empty()),
            ErrorView::BodyStream(message) => text == "HTTP body stream failed: "@ + message,
            ErrorView::HeadersTooLarge { limit, actual } => text == limit_text(
                "headers"@,
                limit as nat,
                actual,
            ),
            ErrorView::TooManyHeaders { limit, actual } => text == limit_text(
                "header count"@,
                limit as nat,
                actual,
            ),
            ErrorView::BodyTooLarge { limit, actual } => text == limit_text(
                "body"@,
                limit as nat,
                actual,
            ),
            ErrorView::InputBufferFull { limit } => text == "connection input exceeds the "@
                + crate::text::decimal_text(limit as nat) + "-byte buffer"@,
            ErrorView::UnexpectedEof => text
                == "connection closed before the HTTP message completed"@,
            ErrorView::Protocol(error) => text == "HTTP protocol error: "@ + error.text(),
            ErrorView::Canceled => text == "HTTP operation canceled"@,
            ErrorView::InvalidConfiguration(message) => text == "invalid HTTP configuration: "@
                + message,
        }
    }
}

impl Error {
    /// A protocol error without a known cause.
    pub fn protocol(kind: ProtocolErrorKind, detail: &str) -> (error: Error)
        ensures
            error@ == ErrorView::Protocol(
                ProtocolErrorView { kind, detail: detail@, source: None },
            ),
    {
        Error::Protocol(ProtocolError::new(kind, detail.to_owned()))
    }

    /// Returns the text that describes the error.
    pub fn to_text(&self) -> (text: String)
        ensures
            self@.described_by(text@),
    {
        match self {
            Error::InvalidUri(message) => joined("invalid URI: ", message.as_str()),
            Error::UnsupportedScheme(Some(scheme)) => joined3(
                "unsupported URI scheme `",
                scheme.as_str(),
                "`; expected `http` or `https`",
            ),
            Error::UnsupportedScheme(None) => {
                "URI scheme is required; expected `http` or `https`".to_owned()
            },
            Error::MissingAuthority => "URI authority is required".to_owned(),
            Error::AddressResolution { authority, kind: _, message } => {
                let mut text = joined3("failed to resolve `", authority.as_str(), "`: ");
                text.append(message.as_str());
                text
            },
            Error::UnsupportedVersion(version) => joined(
                "unsupported HTTP version ",
                version.as_str(),
            ),
            Error::TlsNotConfigured => {
                "HTTPS requires a configured TLS client context".to_owned()
            },
            Error::UnsupportedAlpnProtocol(protocol) => {
                let name = lossy_text(protocol.as_slice());
                joined3("TLS negotiated unsupported ALPN protocol `", name.as_str(), "`")
            },
            Error::AlpnProtocolMismatch { requested, negotiated } => {
                let mut text = joined3(
                    "requested HTTP version ",
                    requested.as_str(),
                    ", but TLS ALPN selected ",
                );
                text.append(negotiated.as_str());
                text
            },
            Error::InvalidMessage(MessagePart::HeaderName) => {
                "invalid HTTP message: invalid HTTP header name".to_owned()
            },
            Error::InvalidMessage(MessagePart::HeaderValue) => {
                "invalid HTTP message: failed to parse header value".to_owned()
            },
            Error::InvalidHeaderName => {
                "invalid header name: invalid HTTP header name".to_owned()
            },
            Error::InvalidHeaderValue => {
                "invalid header value: failed to parse header value".to_owned()
            },
            Error::Io(error) => {
                let words = errno_text(*error);
                let text = joined("HTTP transport error: ", words.as_str());
                assert(text@ =~= "HTTP transport error: "@ + words@ + Seq::<char>::empty());
                text
            },
            Error::BodyStream { message } => joined("HTTP body stream failed: ", message.as_str()),
            Error::HeadersTooLarge { limit, actual } => display_limit("headers", *limit, *actual),
            Error::TooManyHeaders { limit, actual } => display_limit(
                "header count",
                *limit,
                *actual,
            ),
            Error::BodyTooLarge { limit, actual } => display_limit("body", *limit, *actual),
            Error::InputBufferFull { limit } => joined3(
                "connection input exceeds the ",
                decimal(*limit).as_str(),
                "-byte buffer",
            ),
            Error::UnexpectedEof => {
                "connection closed before the HTTP message completed".to_owned()
            },
            Error::Protocol(error) => joined("HTTP protocol error: ", error.to_text().as_str()),
            Error::Canceled => "HTTP operation canceled".to_owned(),
            Error::InvalidConfiguration(message) => joined(
                "invalid HTTP configuration: ",
                message,
            ),
        }
    }

    /// Whether another error lies behind this one.
    pub fn has_source(&self) -> (has_source: bool)
        ensures
            has_source == (self@ is InvalidUri || self@ is AddressResolution
                || self@ is InvalidMessage || self@ is InvalidHeaderName
                || self@ is InvalidHeaderValue || self@ is Io || self@ is BodyStream
                || self@ is Protocol),
    {
        match self {
            Error::InvalidUri(_) | Error::AddressResolution { .. } | Error::InvalidMessage(_)
            | Error::InvalidHeaderName | Error::InvalidHeaderValue | Error::Io(_)
            | Error::BodyStream { .. } | Error::Protocol(_) => true,
            _ => false,
        }
    }
}

impl From<Errno> for Error {
    fn from(error: Errno) -> (http_error: Error) {
        Error::Io(error)
    }
}

impl vstd::std_specs::convert::FromSpecImpl<Errno> for Error {
    open spec fn obeys_from_spec() -> bool {
        true
    }

    open spec fn from_spec(error: Errno) -> Error {
        Error::Io(error)
    }
}

/// What a protocol state machine reports about a failure.
#[derive(Clone, Copy, Debug, PartialEq, Eq, Structural)]
pub enum HttpErrorKind {
    /// The message was malformed.
    MalformedMessage,
    /// Message or frame boundaries were invalid.
    InvalidFraming,
    /// A header was invalid.
    InvalidHeader,
    /// A content length was invalid.
    InvalidContentLength,
    /// The feature is not supported.
    UnsupportedFeature,
    /// Header compression failed.
    Compression,
    /// Flow control was violated.
    FlowControlViolation,
    /// The peer reset a stream.
    PeerReset,
    /// The peer ended the connection.
    PeerGoaway,
    /// The state machine was used out of order.
    InvalidState,
    /// More input is needed.
    NeedMoreInput,
    /// Encoded headers exceeded the limit.
    HeadersTooLarge,
    /// There were too many headers.
    TooManyHeaders,
    /// A body exceeded the limit.
    BodyTooLarge,
}

/// A limit that a message exceeded.
#[derive(Clone, Copy, Debug, PartialEq, Eq, Structural)]
pub struct LimitViolation {
    /// The limit.
    pub limit: usize,
    /// The observed size, when known.
    pub actual: Option<usize>,
}

/// A failure as a protocol state machine classifies it.
#[derive(Debug)]
pub struct HttpErrorInfo {
    /// The category.
    pub kind: HttpErrorKind,
    /// The limit, where one was exceeded.
    pub limit: Option<LimitViolation>,
    /// What went wrong.
    pub detail: String,
}

/// The category under which a state machine's failure is reported.
pub open spec fn protocol_kind(kind: HttpErrorKind) -> ProtocolErrorKind {
    match kind {
        HttpErrorKind::MalformedMessage => ProtocolErrorKind::MalformedMessage,
        HttpErrorKind::InvalidFraming => ProtocolErrorKind::InvalidFraming,
        HttpErrorKind::InvalidHeader => ProtocolErrorKind::InvalidHeader,
        HttpErrorKind::InvalidContentLength => ProtocolErrorKind::InvalidContentLength,
        HttpErrorKind::UnsupportedFeature => ProtocolErrorKind::UnsupportedFeature,
        HttpErrorKind::Compression => ProtocolErrorKind::Compression,
        HttpErrorKind::FlowControlViolation => ProtocolErrorKind::FlowControlViolation,
        HttpErrorKind::PeerReset => ProtocolErrorKind::PeerReset,
        HttpErrorKind::PeerGoaway => ProtocolErrorKind::PeerGoaway,
        _ => ProtocolErrorKind::InvalidState,
    }
}

/// The error as which a state machine's failure is reported.
pub open spec fn http_error_view(
    kind: HttpErrorKind,
    limit: Option<LimitViolation>,
    detail: Seq<char>,
) -> ErrorView {
    let bound: usize = match limit {
        Some(violation) => violation.limit,
        None => 0,
    };
    let actual: Option<usize> = match limit {
        Some(violation) => violation.actual,
        None => None,
    };
    match kind {
        HttpErrorKind::HeadersTooLarge => ErrorView::HeadersTooLarge { limit: bound, actual },
        HttpErrorKind::TooManyHeaders => ErrorView::TooManyHeaders { limit: bound, actual },
        HttpErrorKind::BodyTooLarge => ErrorView::BodyTooLarge { limit: bound, actual },
        _ => ErrorView::Protocol(
            ProtocolErrorView {
                kind: protocol_kind(kind),
                detail,
                source: Some("HTTP protocol state-machine processing failed"@),
            },
        ),
    }
}

impl HttpErrorInfo {
    /// The error as which the failure is reported.
    pub open spec fn reported(self) -> ErrorView {
        http_error_view(self.kind, self.limit, self.detail@)
    }

    /// A copy of the classification.
    pub fn duplicate(&self) -> (copy: HttpErrorInfo)
        ensures
            copy == *self,
    {
        HttpErrorInfo { kind: self.kind, limit: self.limit, detail: self.detail.clone() }
    }

    /// Turns the classification into the error that callers see.
    pub fn into_http_error(self) -> (error: Error)
        ensures
            error@ == self.reported(),
    {
        let limit: usize = match self.limit {
            Some(violation) => violation.limit,
            None => 0,
        };
        let actual: Option<usize> = match self.limit {
            Some(violation) => violation.actual,
            None => None,
        };
        let kind = match self.kind {
            HttpErrorKind::HeadersTooLarge => return Error::HeadersTooLarge { limit, actual },
            HttpErrorKind::TooManyHeaders => return Error::TooManyHeaders { limit, actual },
            HttpErrorKind::BodyTooLarge => return Error::BodyTooLarge { limit, actual },
            HttpErrorKind::MalformedMessage => ProtocolErrorKind::MalformedMessage,
            HttpErrorKind::InvalidFraming => ProtocolErrorKind::InvalidFraming,
            HttpErrorKind::InvalidHeader => ProtocolErrorKind::InvalidHeader,
            HttpErrorKind::InvalidContentLength => ProtocolErrorKind::InvalidContentLength,
            HttpErrorKind::UnsupportedFeature => ProtocolErrorKind::UnsupportedFeature,
            HttpErrorKind::Compression => ProtocolErrorKind::Compression,
            HttpErrorKind::FlowControlViolation => ProtocolErrorKind::FlowControlViolation,
            HttpErrorKind::PeerReset => ProtocolErrorKind::PeerReset,
            HttpErrorKind::PeerGoaway => ProtocolErrorKind::PeerGoaway,
            HttpErrorKind::InvalidState | HttpErrorKind::NeedMoreInput => {
                ProtocolErrorKind::InvalidState
            },
        };
        Error::Protocol(
            ProtocolError::with_source(
                kind,
                self.detail,
                "HTTP protocol state-machine processing failed".to_owned(),
            ),
        )
    }
}

/// A failure that a protocol state machine classified is reported under its own
/// category, and one of a limit with the limit and what was observed.
pub proof fn failures_keep_their_category(info: HttpErrorInfo, error: Error)
    requires
        call_ensures(HttpErrorInfo::into_http_error, (info,), error),
    ensures
        info.kind is HeadersTooLarge <==> error@ is HeadersTooLarge,
        info.kind is TooManyHeaders <==> error@ is TooManyHeaders,
        info.kind is BodyTooLarge <==> error@ is BodyTooLarge,
        info.limit matches Some(violation) ==> {
            &&& info.kind is HeadersTooLarge ==> error@ == ErrorView::HeadersTooLarge {
                limit: violation.limit,
                actual: violation.actual,
            }
            &&& info.kind is TooManyHeaders ==> error@ == ErrorView::TooManyHeaders {
                limit: violation.limit,
                actual: violation.actual,
            }
            &&& info.kind is BodyTooLarge ==> error@ == ErrorView::BodyTooLarge {
                limit: violation.limit,
                actual: violation.actual,
            }
        },
        error@ matches ErrorView::Protocol(told) ==> {
            &&& told.kind is MalformedMessage <==> info.kind is MalformedMessage
            &&& told.kind is InvalidFraming <==> info.kind is InvalidFraming
            &&& told.kind is InvalidHeader <==> info.kind is InvalidHeader
            &&& told.kind is InvalidContentLength <==> info.kind is InvalidContentLength
            &&& told.kind is UnsupportedFeature <==> info.kind is UnsupportedFeature
            &&& told.kind is Compression <==> info.kind is Compression
            &&& told.kind is FlowControlViolation <==> info.kind is FlowControlViolation
            &&& told.kind is PeerReset <==> info.kind is PeerReset
            &&& told.kind is PeerGoaway <==> info.kind is PeerGoaway
            &&& told.kind is InvalidState <==> info.kind is InvalidState
                || info.kind is NeedMoreInput
            &&& told.detail == info.detail@
        },
        error@ is Protocol || error@ is HeadersTooLarge || error@ is TooManyHeaders
            || error@ is BodyTooLarge,
{
}

/// The words for an error name what went wrong: the part that a caller can
/// correct stands in them as it is.
pub proof fn errors_say_what_went_wrong(
    texts: (String, String, String, String, String, String, String),
    words: (String, String),
    version: Version,
    protocol: ProtocolError,
    limit: usize,
)
    requires
        call_ensures(Error::to_text, (&Error::InvalidUri(words.0),), texts.0),
        call_ensures(Error::to_text, (&Error::UnsupportedScheme(Some(words.0)),), texts.1),
        call_ensures(
            Error::to_text,
            (&Error::AddressResolution {
                authority: words.0,
                kind: ResolutionErrorKind::Other,
                message: words.1,
            },),
            texts.2,
        ),
        call_ensures(Error::to_text, (&Error::UnsupportedVersion(version),), texts.3),
        call_ensures(Error::to_text, (&Error::BodyStream { message: words.0 },), texts.4),
        call_ensures(Error::to_text, (&Error::Protocol(protocol),), texts.5),
        call_ensures(Error::to_text, (&Error::BodyTooLarge { limit, actual: None },), texts.6),
    ensures
        texts.0@ == "invalid URI: "@ + words.0@,
        texts.1@ == "unsupported URI scheme `"@ + words.0@ + "`; expected `http` or `https`"@,
        texts.2@ == "failed to resolve `"@ + words.0@ + "`: "@ + words.1@,
        texts.3@ == "unsupported HTTP version "@ + version.name(),
        texts.4@ == "HTTP body stream failed: "@ + words.0@,
        texts.5@ == "HTTP protocol error: "@ + (protocol@.kind.description() + ": "@
            + protocol@.detail),
        texts.6@ == "body"@ + " exceed the configured limit of "@ + crate::text::decimal_text(
            limit as nat,
        ),
{
}

/// The remaining errors have words of their own.
pub proof fn plain_errors_have_their_words(
    texts: (String, String, String, String, String, String, String),
    limit: usize,
    actual: usize,
    versions: (Version, Version),
)
    requires
        call_ensures(Error::to_text, (&Error::MissingAuthority,), texts.0),
        call_ensures(Error::to_text, (&Error::TlsNotConfigured,), texts.1),
        call_ensures(Error::to_text, (&Error::UnexpectedEof,), texts.2),
        call_ensures(Error::to_text, (&Error::Canceled,), texts.3),
        call_ensures(
            Error::to_text,
            (&Error::HeadersTooLarge { limit, actual: Some(actual) },),
            texts.4,
        ),
        call_ensures(Error::to_text, (&Error::InputBufferFull { limit },), texts.5),
        call_ensures(
            Error::to_text,
            (&Error::AlpnProtocolMismatch { requested: versions.0, negotiated: versions.1 },),
            texts.6,
        ),
    ensures
        texts.0@ == "URI authority is required"@,
        texts.1@ == "HTTPS requires a configured TLS client context"@,
        texts.2@ == "connection closed before the HTTP message completed"@,
        texts.3@ == "HTTP operation canceled"@,
        texts.4@ == "headers"@ + " size "@ + crate::text::decimal_text(actual as nat)
            + " exceeds the configured limit of "@ + crate::text::decimal_text(limit as nat),
        texts.5@ == "connection input exceeds the "@ + crate::text::decimal_text(limit as nat)
            + "-byte buffer"@,
        texts.6@ == "requested HTTP version "@ + versions.0.name() + ", but TLS ALPN selected "@
            + versions.1.name(),
{
}

/// Versions and categories have names of their own.
pub proof fn names_are_known(
    version: Version,
    kind: ProtocolErrorKind,
    names: (&'static str, &'static str),
)
    requires
        call_ensures(Version::as_str, (version,), names.0),
        call_ensures(ProtocolErrorKind::as_str, (kind,), names.1),
    ensures
        version is Http09 ==> names.0@ == "HTTP/0.9"@,
        version is Http10 ==> names.0@ == "HTTP/1.0"@,
        version is Http11 ==> names.0@ == "HTTP/1.1"@,
        version is Http2 ==> names.0@ == "HTTP/2.0"@,
        version is Http3 ==> names.0@ == "HTTP/3.0"@,
        kind is MalformedMessage ==> names.1@ == "malformed HTTP message"@,
        kind is InvalidFraming ==> names.1@ == "invalid HTTP framing"@,
        kind is InvalidHeader ==> names.1@ == "invalid HTTP header"@,
        kind is InvalidContentLength ==> names.1@ == "invalid HTTP content length"@,
        kind is FlowControlViolation ==> names.1@ == "HTTP/2 flow-control violation"@,
        kind is PeerReset ==> names.1@ == "HTTP/2 peer reset"@,
        kind is PeerGoaway ==> names.1@ == "HTTP/2 peer GOAWAY"@,
        kind is UnsupportedFeature ==> names.1@ == "unsupported HTTP feature"@,
        kind is UnexpectedEvent ==> names.1@ == "unexpected HTTP event"@,
        kind is InvalidState ==> names.1@ == "invalid HTTP connection state"@,
        kind is Compression ==> names.1@ == "HTTP/2 header compression error"@,
{
}

/// A protocol failure keeps its category, its words and its cause.
pub proof fn protocol_failures_keep_their_parts(
    kind: ProtocolErrorKind,
    words: (String, String),
    detail: &str,
    failures: (ProtocolError, ProtocolError),
    error: Error,
    kinds: (ProtocolErrorKind, ProtocolErrorKind),
    sources: (Option<&str>, Option<&str>),
    text: String,
    has_source: bool,
)
    requires
        call_ensures(ProtocolError::new, (kind, words.0), failures.0),
        call_ensures(ProtocolError::with_source, (kind, words.0, words.1), failures.1),
        call_ensures(Error::protocol, (kind, detail), error),
        call_ensures(ProtocolError::kind, (&failures.0,), kinds.0),
        call_ensures(ProtocolError::kind, (&failures.1,), kinds.1),
        call_ensures(ProtocolError::source, (&failures.0,), sources.0),
        call_ensures(ProtocolError::source, (&failures.1,), sources.1),
        call_ensures(ProtocolError::to_text, (&failures.0,), text),
        call_ensures(Error::has_source, (&error,), has_source),
    ensures
        kinds.0 == kind && kinds.1 == kind,
        sources.0 is None,
        sources.1 matches Some(source) && source@ == words.1@,
        text@ == kind.description() + ": "@ + words.0@,
        error@ matches ErrorView::Protocol(told) && told.kind == kind && told.detail == detail@
            && told.source is None,
        has_source,
{
}

/// The copy of a classification is the same classification.
pub proof fn classifications_are_copied(info: &HttpErrorInfo, copy: HttpErrorInfo, error: Error, again: Error)
    requires
        call_ensures(HttpErrorInfo::duplicate, (info,), copy),
        call_ensures(HttpErrorInfo::into_http_error, (*info,), error),
        call_ensures(HttpErrorInfo::into_http_error, (copy,), again),
    ensures
        copy == *info,
        error@ == again@,
{
}

} // verus!
