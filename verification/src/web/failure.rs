//! How requests fail and when they may be sent again.

use vstd::prelude::*;

use crate::errno::Errno;
use crate::web::error::Error;
use crate::web::error::ErrorView;
use crate::web::error::HttpErrorInfo;
use crate::web::error::ProtocolErrorKind;
use crate::web::error::ProtocolErrorView;
use crate::web::error::ResolutionErrorKind;
use crate::web::error::Version;
use crate::web::headers::Method;
use crate::web::headers::is_idempotent;

verus! {

/// The HTTP/2 error code of an orderly end.
pub const NO_ERROR: u32 = 0;

/// The HTTP/2 error code of a stream that was not processed.
pub const REFUSED_STREAM: u32 = 7;

/// A request that failed, with what is known of how far it came.
#[derive(Debug)]
pub struct SendFailure {
    /// What went wrong.
    pub error: Error,
    /// Whether part of a response arrived.
    pub response_bytes_received: bool,
    /// Whether part of the request was written.
    pub request_bytes_written: bool,
    /// Whether the connection failed, rather than the exchange.
    pub connection_failure: bool,
    /// Whether the peer says that it did nothing with the request.
    pub guaranteed_unprocessed: bool,
}

impl SendFailure {
    /// Whether a request with this method may be sent again on a fresh
    /// connection. No part of a response may have arrived. Then it may when the
    /// peer says that it did nothing, or when the connection failed and
    /// sending twice does no harm: the method is idempotent, or nothing was
    /// sent the first time.
    pub open spec fn retryable(self, method: Seq<char>) -> bool {
        !self.response_bytes_received && (self.guaranteed_unprocessed || (self.connection_failure
            && (crate::web::headers::idempotent_method(method) || !self.request_bytes_written)))
    }

    /// A failure of the exchange.
    pub fn other(error: Error, response_bytes_received: bool, request_bytes_written: bool) -> (failure:
        SendFailure)
        ensures
            failure == (SendFailure {
                error,
                response_bytes_received,
                request_bytes_written,
                connection_failure: false,
                guaranteed_unprocessed: false,
            }),
    {
        SendFailure {
            error,
            response_bytes_received,
            request_bytes_written,
            connection_failure: false,
            guaranteed_unprocessed: false,
        }
    }

    /// A failure of the connection.
    pub fn connection(
        error: Error,
        response_bytes_received: bool,
        request_bytes_written: bool,
    ) -> (failure: SendFailure)
        ensures
            failure == (SendFailure {
                error,
                response_bytes_received,
                request_bytes_written,
                connection_failure: true,
                guaranteed_unprocessed: false,
            }),
    {
        SendFailure {
            error,
            response_bytes_received,
            request_bytes_written,
            connection_failure: true,
            guaranteed_unprocessed: false,
        }
    }

    /// Whether the request may be sent again on a fresh connection.
    pub fn can_retry_on_fresh_connection(&self, method: &Method) -> (retry: bool)
        ensures
            retry == self.retryable(method@),
    {
        !self.response_bytes_received && (self.guaranteed_unprocessed || (self.connection_failure
            && (is_idempotent(method) || !self.request_bytes_written)))
    }
}

/// Once part of a request was written, a request that is not idempotent is
/// sent again only when the peer says that it did nothing with it.
pub proof fn written_requests_are_not_repeated(failure: SendFailure, method: Seq<char>)
    requires
        failure.request_bytes_written,
        !crate::web::headers::idempotent_method(method),
        failure.retryable(method),
    ensures
        failure.guaranteed_unprocessed,
{
}

/// Once part of a response arrived, no request is sent again.
pub proof fn answered_requests_are_not_repeated(failure: SendFailure, method: Seq<char>)
    requires
        failure.response_bytes_received,
    ensures
        !failure.retryable(method),
{
}

/// A failure that a protocol driver reports.
#[derive(Debug)]
pub enum DriverError {
    /// The peer reset a stream.
    PeerReset {
        /// The stream.
        stream_id: u32,
        /// The HTTP/2 error code.
        error_code: u32,
        /// The classification.
        info: HttpErrorInfo,
    },
    /// The peer ended the connection.
    PeerGoaway {
        /// The last stream that it processed.
        last_stream_id: u32,
        /// The HTTP/2 error code.
        error_code: u32,
        /// The classification.
        info: HttpErrorInfo,
    },
    /// Any other failure.
    Other(HttpErrorInfo),
}

impl DriverError {
    /// The classification of the failure.
    pub open spec fn classified(self) -> HttpErrorInfo {
        match self {
            DriverError::PeerReset { info, .. } => info,
            DriverError::PeerGoaway { info, .. } => info,
            DriverError::Other(info) => info,
        }
    }

    /// The error that callers see.
    pub fn error(&self) -> (error: Error)
        ensures
            error@ == self.classified().reported(),
    {
        match self {
            DriverError::PeerReset { info, .. } => info.duplicate().into_http_error(),
            DriverError::PeerGoaway { info, .. } => info.duplicate().into_http_error(),
            DriverError::Other(info) => info.duplicate().into_http_error(),
        }
    }

    /// The same failure again.
    pub fn duplicate(&self) -> (copy: DriverError)
        ensures
            copy == *self,
    {
        match self {
            DriverError::PeerReset { stream_id, error_code, info } => DriverError::PeerReset {
                stream_id: *stream_id,
                error_code: *error_code,
                info: info.duplicate(),
            },
            DriverError::PeerGoaway {
                last_stream_id,
                error_code,
                info,
            } => DriverError::PeerGoaway {
                last_stream_id: *last_stream_id,
                error_code: *error_code,
                info: info.duplicate(),
            },
            DriverError::Other(info) => DriverError::Other(info.duplicate()),
        }
    }
}

/// A failure that every request of a session shares.
#[derive(Debug)]
pub enum H2SharedFailure {
    /// A transport operation failed.
    Io(Errno),
    /// The peer closed the connection.
    UnexpectedEof,
    /// The protocol driver failed.
    Driver(DriverError),
    /// The session was used out of order.
    Protocol(ProtocolErrorKind, String),
    /// The host could not be resolved.
    AddressResolution {
        /// The authority.
        authority: String,
        /// Why.
        kind: ResolutionErrorKind,
        /// What the resolver said.
        message: String,
    },
    /// TLS is not configured.
    TlsNotConfigured,
    /// The negotiated ALPN protocol is not supported.
    UnsupportedAlpnProtocol(Vec<u8>),
    /// The negotiated protocol is not the requested one.
    AlpnProtocolMismatch {
        /// The version selected on the request.
        requested: Version,
        /// The version selected by ALPN.
        negotiated: Version,
    },
    /// The session was stopped.
    Canceled,
}

/// What a shared failure says.
#[verifier::ext_equal]
pub enum H2FailureView {
    /// A transport operation failed.
    Io(Errno),
    /// The peer closed the connection.
    UnexpectedEof,
    /// The protocol driver failed.
    Driver(DriverError),
    /// The session was used out of order.
    Protocol(ProtocolErrorKind, Seq<char>),
    /// The host could not be resolved.
    AddressResolution { authority: Seq<char>, kind: ResolutionErrorKind, message: Seq<char> },
    /// TLS is not configured.
    TlsNotConfigured,
    /// The negotiated ALPN protocol is not supported.
    UnsupportedAlpnProtocol(Seq<u8>),
    /// The negotiated protocol is not the requested one.
    AlpnProtocolMismatch { requested: Version, negotiated: Version },
    /// The session was stopped.
    Canceled,
}

impl View for H2SharedFailure {
    type V = H2FailureView;

    open spec fn view(&self) -> H2FailureView {
        match *self {
            H2SharedFailure::Io(error) => H2FailureView::Io(error),
            H2SharedFailure::UnexpectedEof => H2FailureView::UnexpectedEof,
            H2SharedFailure::Driver(error) => H2FailureView::Driver(error),
            H2SharedFailure::Protocol(kind, detail) => H2FailureView::Protocol(kind, detail@),
            H2SharedFailure::AddressResolution {
                authority,
                kind,
                message,
            } => H2FailureView::AddressResolution {
                authority: authority@,
                kind,
                message: message@,
            },
            H2SharedFailure::TlsNotConfigured => H2FailureView::TlsNotConfigured,
            H2SharedFailure::UnsupportedAlpnProtocol(protocol) => {
                H2FailureView::UnsupportedAlpnProtocol(protocol@)
            },
            H2SharedFailure::AlpnProtocolMismatch {
                requested,
                negotiated,
            } => H2FailureView::AlpnProtocolMismatch { requested, negotiated },
            H2SharedFailure::Canceled => H2FailureView::Canceled,
        }
    }
}

impl H2FailureView {
    /// The error that every request of the session sees.
    pub open spec fn error(self) -> ErrorView {
        match self {
            H2FailureView::Io(error) => ErrorView::Io(error),
            H2FailureView::UnexpectedEof => ErrorView::UnexpectedEof,
            H2FailureView::Driver(error) => error.classified().reported(),
            H2FailureView::Protocol(kind, detail) => ErrorView::Protocol(
                ProtocolErrorView { kind, detail, source: None },
            ),
            H2FailureView::AddressResolution {
                authority,
                kind,
                message,
            } => ErrorView::AddressResolution { authority, kind, message },
            H2FailureView::TlsNotConfigured => ErrorView::TlsNotConfigured,
            H2FailureView::UnsupportedAlpnProtocol(protocol) => {
                ErrorView::UnsupportedAlpnProtocol(protocol)
            },
            H2FailureView::AlpnProtocolMismatch {
                requested,
                negotiated,
            } => ErrorView::AlpnProtocolMismatch { requested, negotiated },
            H2FailureView::Canceled => ErrorView::Canceled,
        }
    }

    /// Whether the connection failed, so that requests may be sent again.
    pub open spec fn connection_failed(self) -> bool {
        self is Io || self is UnexpectedEof || self matches H2FailureView::Driver(
            DriverError::PeerGoaway { .. },
        )
    }

    /// Whether the peer says that it did nothing with the stream: an orderly
    /// end names the last stream that was processed.
    pub open spec fn left_unprocessed(self, exchange_id: u64) -> bool {
        self matches H2FailureView::Driver(
            DriverError::PeerGoaway { last_stream_id, error_code, .. },
        ) && error_code == NO_ERROR && exchange_id > last_stream_id
    }

    /// Whether this is what an error of one part of a session becomes for all
    /// of its requests.
    pub open spec fn shares(self, error: ErrorView) -> bool {
        match error {
            ErrorView::AddressResolution {
                authority,
                kind,
                message,
            } => self == H2FailureView::AddressResolution { authority, kind, message },
            ErrorView::TlsNotConfigured => self == H2FailureView::TlsNotConfigured,
            ErrorView::UnsupportedAlpnProtocol(protocol) => self
                == H2FailureView::UnsupportedAlpnProtocol(protocol),
            ErrorView::AlpnProtocolMismatch {
                requested,
                negotiated,
            } => self == H2FailureView::AlpnProtocolMismatch { requested, negotiated },
            ErrorView::Io(errno) => self == H2FailureView::Io(errno),
            ErrorView::UnexpectedEof => self == H2FailureView::UnexpectedEof,
            ErrorView::Canceled => self == H2FailureView::Canceled,
            ErrorView::Protocol(error) => self == H2FailureView::Protocol(
                error.kind,
                error.text(),
            ),
            _ => self matches H2FailureView::Protocol(kind, text) && kind
                == ProtocolErrorKind::InvalidState && error.described_by(text),
        }
    }
}

fn copy_bytes(bytes: &Vec<u8>) -> (copy: Vec<u8>)
    ensures
        copy@ == bytes@,
{
    let mut copy: Vec<u8> = Vec::new();
    copy.extend_from_slice(bytes.as_slice());
    assert(copy@ =~= bytes@);
    copy
}

impl H2SharedFailure {
    /// A session that was used out of order.
    pub fn protocol(kind: ProtocolErrorKind, detail: &str) -> (failure: H2SharedFailure)
        ensures
            failure@ == H2FailureView::Protocol(kind, detail@),
    {
        H2SharedFailure::Protocol(kind, detail.to_owned())
    }

    /// What an error becomes for all requests of a session.
    pub fn from_error(error: Error) -> (failure: H2SharedFailure)
        ensures
            failure@.shares(error@),
    {
        match error {
            Error::AddressResolution {
                authority,
                kind,
                message,
            } => H2SharedFailure::AddressResolution { authority, kind, message },
            Error::TlsNotConfigured => H2SharedFailure::TlsNotConfigured,
            Error::UnsupportedAlpnProtocol(protocol) => {
                H2SharedFailure::UnsupportedAlpnProtocol(protocol)
            },
            Error::AlpnProtocolMismatch {
                requested,
                negotiated,
            } => H2SharedFailure::AlpnProtocolMismatch { requested, negotiated },
            Error::Io(error) => H2SharedFailure::Io(error),
            Error::UnexpectedEof => H2SharedFailure::UnexpectedEof,
            Error::Canceled => H2SharedFailure::Canceled,
            Error::Protocol(error) => H2SharedFailure::Protocol(error.kind(), error.to_text()),
            error => {
                let text = error.to_text();
                H2SharedFailure::Protocol(ProtocolErrorKind::InvalidState, text)
            },
        }
    }

    /// The error that every request of the session sees.
    pub fn error(&self) -> (error: Error)
        ensures
            error@ == self@.error(),
    {
        match self {
            H2SharedFailure::Io(error) => Error::Io(*error),
            H2SharedFailure::UnexpectedEof => Error::UnexpectedEof,
            H2SharedFailure::Driver(error) => error.error(),
            H2SharedFailure::Protocol(kind, detail) => Error::protocol(*kind, detail.as_str()),
            H2SharedFailure::AddressResolution {
                authority,
                kind,
                message,
            } => Error::AddressResolution {
                authority: authority.clone(),
                kind: *kind,
                message: message.clone(),
            },
            H2SharedFailure::TlsNotConfigured => Error::TlsNotConfigured,
            H2SharedFailure::UnsupportedAlpnProtocol(protocol) => {
                Error::UnsupportedAlpnProtocol(copy_bytes(protocol))
            },
            H2SharedFailure::AlpnProtocolMismatch {
                requested,
                negotiated,
            } => Error::AlpnProtocolMismatch { requested: *requested, negotiated: *negotiated },
            H2SharedFailure::Canceled => Error::Canceled,
        }
    }

    /// Whether the connection failed, so that requests may be sent again.
    pub fn is_connection_failure(&self) -> (failed: bool)
        ensures
            failed == self@.connection_failed(),
    {
        match self {
            H2SharedFailure::Io(_) => true,
            H2SharedFailure::UnexpectedEof => true,
            H2SharedFailure::Driver(DriverError::PeerGoaway { .. }) => true,
            _ => false,
        }
    }

    /// Whether the peer says that it did nothing with the exchange.
    pub fn guarantees_unprocessed(&self, exchange_id: u64) -> (unprocessed: bool)
        ensures
            unprocessed == self@.left_unprocessed(exchange_id),
    {
        match self {
            H2SharedFailure::Driver(
                DriverError::PeerGoaway { last_stream_id, error_code, info: _ },
            ) => *error_code == NO_ERROR && exchange_id > *last_stream_id as u64,
            _ => false,
        }
    }

    /// The same failure again.
    pub fn duplicate(&self) -> (copy: H2SharedFailure)
        ensures
            copy@ == self@,
    {
        match self {
            H2SharedFailure::Io(error) => H2SharedFailure::Io(*error),
            H2SharedFailure::UnexpectedEof => H2SharedFailure::UnexpectedEof,
            H2SharedFailure::Driver(error) => H2SharedFailure::Driver(error.duplicate()),
            H2SharedFailure::Protocol(kind, detail) => H2SharedFailure::Protocol(
                *kind,
                detail.clone(),
            ),
            H2SharedFailure::AddressResolution {
                authority,
                kind,
                message,
            } => H2SharedFailure::AddressResolution {
                authority: authority.clone(),
                kind: *kind,
                message: message.clone(),
            },
            H2SharedFailure::TlsNotConfigured => H2SharedFailure::TlsNotConfigured,
            H2SharedFailure::UnsupportedAlpnProtocol(protocol) => {
                H2SharedFailure::UnsupportedAlpnProtocol(copy_bytes(protocol))
            },
            H2SharedFailure::AlpnProtocolMismatch {
                requested,
                negotiated,
            } => H2SharedFailure::AlpnProtocolMismatch {
                requested: *requested,
                negotiated: *negotiated,
            },
            H2SharedFailure::Canceled => H2SharedFailure::Canceled,
        }
    }
}

/// Why a session stopped in good order.
#[derive(Clone, Copy, Debug, PartialEq, Eq, Structural)]
pub enum H2PumpStopReason {
    /// The session was told to stop.
    SessionShutdown,
    /// The session has served as many requests as it may.
    RequestLimitReached,
    /// The session was idle for too long.
    IdleTimeout,
    /// The peer closed the idle connection.
    IdlePeerClosed,
}

/// How a session ended.
#[derive(Debug)]
pub enum H2PumpTermination {
    /// It never started.
    BeforeStart(H2SharedFailure),
    /// It stopped in good order.
    Stopped(H2PumpStopReason),
    /// It failed.
    Failed(H2SharedFailure),
}

impl H2PumpTermination {
    /// The failure of the requests that were running.
    pub open spec fn running_failure(self) -> H2FailureView {
        match self {
            H2PumpTermination::BeforeStart(failure) => failure@,
            H2PumpTermination::Failed(failure) => failure@,
            H2PumpTermination::Stopped(H2PumpStopReason::IdlePeerClosed) => {
                H2FailureView::UnexpectedEof
            },
            H2PumpTermination::Stopped(_) => H2FailureView::Canceled,
        }
    }

    /// The failure of the requests that were running.
    pub fn active_failure(&self) -> (failure: H2SharedFailure)
        ensures
            failure@ == self.running_failure(),
    {
        match self {
            H2PumpTermination::BeforeStart(failure) => failure.duplicate(),
            H2PumpTermination::Failed(failure) => failure.duplicate(),
            H2PumpTermination::Stopped(H2PumpStopReason::IdlePeerClosed) => {
                H2SharedFailure::UnexpectedEof
            },
            H2PumpTermination::Stopped(_) => H2SharedFailure::Canceled,
        }
    }

    /// The failure of the requests that were still queued. A session that did
    /// start hands them back instead, so that they can go elsewhere.
    pub fn queued_failure(&self) -> (failure: Option<H2SharedFailure>)
        ensures
            match self {
                H2PumpTermination::BeforeStart(shared) => failure is Some && failure->0@
                    == shared@,
                _ => failure is None,
            },
    {
        match self {
            H2PumpTermination::BeforeStart(failure) => Some(failure.duplicate()),
            _ => None,
        }
    }
}

/// An orderly end of a connection splits its streams: those above the last
/// processed one may be sent again whatever their method, as long as no part of
/// a response arrived.
pub proof fn orderly_end_splits_streams(failure: H2FailureView, exchange_id: u64, method: Seq<char>)
    requires
        failure matches H2FailureView::Driver(DriverError::PeerGoaway { error_code, .. })
            && error_code == NO_ERROR,
    ensures
        failure.connection_failed(),
        failure matches H2FailureView::Driver(DriverError::PeerGoaway { last_stream_id, .. })
            && (failure.left_unprocessed(exchange_id) <==> exchange_id > last_stream_id),
{
}

/// A failed request is sent again exactly when no part of a response arrived and
/// either the peer did nothing with it, or the connection failed and sending it
/// twice does no harm: nothing was sent, or its method may be repeated.
pub proof fn requests_are_repeated_only_when_harmless(
    error: Error,
    flags: (bool, bool),
    failures: (SendFailure, SendFailure),
    failure: SendFailure,
    method: Method,
    retries: (bool, bool, bool),
    idempotent: bool,
)
    requires
        call_ensures(crate::web::headers::is_idempotent, (&method,), idempotent),
        call_ensures(SendFailure::other, (error, flags.0, flags.1), failures.0),
        call_ensures(SendFailure::connection, (error, flags.0, flags.1), failures.1),
        call_ensures(
            SendFailure::can_retry_on_fresh_connection,
            (&failures.0, &method),
            retries.0,
        ),
        call_ensures(
            SendFailure::can_retry_on_fresh_connection,
            (&failures.1, &method),
            retries.1,
        ),
        call_ensures(SendFailure::can_retry_on_fresh_connection, (&failure, &method), retries.2),
    ensures
        !retries.0,
        retries.1 == (!flags.0 && (idempotent || !flags.1)),
        failure.response_bytes_received ==> !retries.2,
        !failure.response_bytes_received && failure.guaranteed_unprocessed ==> retries.2,
        !failure.guaranteed_unprocessed && !failure.connection_failure ==> !retries.2,
        !failure.response_bytes_received && !failure.guaranteed_unprocessed
            && failure.connection_failure ==> retries.2 == (idempotent
            || !failure.request_bytes_written),
        failures.0.error == error && failures.1.error == error,
        failures.0.response_bytes_received == flags.0 && failures.1.response_bytes_received
            == flags.0,
        failures.0.request_bytes_written == flags.1 && failures.1.request_bytes_written == flags.1,
{
}

/// What a failure of a session is to its requests: the error that it came from,
/// a failure of the connection exactly when the transport failed or the peer
/// went away, and no processing of the streams behind the last one that an
/// orderly end names.
pub proof fn shared_failures_keep_their_error(
    error: Error,
    shared: H2SharedFailure,
    told: Error,
    failed: bool,
    exchange_id: u64,
    unprocessed: bool,
)
    requires
        call_ensures(H2SharedFailure::from_error, (error,), shared),
        call_ensures(H2SharedFailure::error, (&shared,), told),
        call_ensures(H2SharedFailure::is_connection_failure, (&shared,), failed),
        call_ensures(H2SharedFailure::guarantees_unprocessed, (&shared, exchange_id), unprocessed),
    ensures
        error@ is Io || error@ is UnexpectedEof || error@ is Canceled || error@ is TlsNotConfigured
            || error@ is AddressResolution || error@ is UnsupportedAlpnProtocol
            || error@ is AlpnProtocolMismatch ==> told@ == error@,
        error@ matches ErrorView::Protocol(error) ==> (told@ matches ErrorView::Protocol(told)
            && told.kind == error.kind),
        failed == (error@ is Io || error@ is UnexpectedEof),
        !unprocessed,
{
}

/// A peer that goes away fails the connection. In an orderly end it did nothing
/// with the streams above the last that it names, and only with those.
pub proof fn departures_name_what_was_processed(
    last_stream_id: u32,
    error_code: u32,
    info: HttpErrorInfo,
    shared: H2SharedFailure,
    failed: bool,
    exchange_id: u64,
    unprocessed: bool,
    told: Error,
)
    requires
        shared == H2SharedFailure::Driver(
            DriverError::PeerGoaway { last_stream_id, error_code, info },
        ),
        call_ensures(H2SharedFailure::is_connection_failure, (&shared,), failed),
        call_ensures(H2SharedFailure::guarantees_unprocessed, (&shared, exchange_id), unprocessed),
        call_ensures(H2SharedFailure::error, (&shared,), told),
    ensures
        failed,
        unprocessed == (error_code == 0 && exchange_id > last_stream_id),
        told@ == info.reported(),
{
}

/// A session that ended tells its running requests why: with its failure, with
/// an unexpected end when the peer closed it, and else as canceled.
pub proof fn ended_sessions_say_why(
    shared: H2SharedFailure,
    reason: H2PumpStopReason,
    failures: (H2SharedFailure, H2SharedFailure, H2SharedFailure),
    queued: (Option<H2SharedFailure>, Option<H2SharedFailure>, Option<H2SharedFailure>),
)
    requires
        call_ensures(
            H2PumpTermination::active_failure,
            (&H2PumpTermination::BeforeStart(shared),),
            failures.0,
        ),
        call_ensures(
            H2PumpTermination::active_failure,
            (&H2PumpTermination::Failed(shared),),
            failures.1,
        ),
        call_ensures(
            H2PumpTermination::active_failure,
            (&H2PumpTermination::Stopped(reason),),
            failures.2,
        ),
        call_ensures(
            H2PumpTermination::queued_failure,
            (&H2PumpTermination::BeforeStart(shared),),
            queued.0,
        ),
        call_ensures(
            H2PumpTermination::queued_failure,
            (&H2PumpTermination::Failed(shared),),
            queued.1,
        ),
        call_ensures(
            H2PumpTermination::queued_failure,
            (&H2PumpTermination::Stopped(reason),),
            queued.2,
        ),
    ensures
        failures.0@ == shared@ && failures.1@ == shared@,
        failures.2@ is UnexpectedEof <==> reason is IdlePeerClosed,
        failures.2@ is Canceled <==> reason !is IdlePeerClosed,
        queued.0 matches Some(failure) && failure@ == shared@,
        queued.1 is None && queued.2 is None,
{
}

/// Copies of failures tell the same, and a driver's failure is reported under its
/// classification.
pub proof fn failures_are_copied(
    driver: &DriverError,
    copy: DriverError,
    errors: (Error, Error),
    shared: &H2SharedFailure,
    same: H2SharedFailure,
    told: (Error, Error),
    kind: ProtocolErrorKind,
    detail: &str,
    made: H2SharedFailure,
    of_made: Error,
)
    requires
        call_ensures(DriverError::duplicate, (driver,), copy),
        call_ensures(DriverError::error, (driver,), errors.0),
        call_ensures(DriverError::error, (&copy,), errors.1),
        call_ensures(H2SharedFailure::duplicate, (shared,), same),
        call_ensures(H2SharedFailure::error, (shared,), told.0),
        call_ensures(H2SharedFailure::error, (&same,), told.1),
        call_ensures(H2SharedFailure::protocol, (kind, detail), made),
        call_ensures(H2SharedFailure::error, (&made,), of_made),
    ensures
        copy == *driver && errors.0@ == errors.1@,
        same@ == shared@ && told.0@ == told.1@,
        errors.0@ == driver.classified().reported(),
        of_made@ matches ErrorView::Protocol(failure) && failure.kind == kind && failure.detail
            == detail@,
{
}

} // verus!
