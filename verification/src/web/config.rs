//! Limits and configuration of the HTTP client and server.

use vstd::prelude::*;

use crate::web::error::Error;
use crate::web::error::ErrorView;
use crate::web::error::Version;
use crate::web::tls::TlsClientConfig;
use crate::web::tls::TlsServerConfig;
use crate::time::Duration;
use crate::time::Instant;

verus! {

/// The default bound on encoded headers: 64 KiB.
pub const DEFAULT_MAX_HEADER_BYTES: usize = 65_536;

/// The default bound on header occurrences.
pub const DEFAULT_MAX_HEADERS: usize = 100;

/// The default bound on a buffered body: 8 MiB.
pub const DEFAULT_MAX_BODY_BYTES: usize = 8_388_608;

/// The default bound on concurrently active HTTP/2 streams. The number is this
/// library's choice; a protocol driver may have another default.
pub const DEFAULT_MAX_ACTIVE_STREAMS: usize = 100;

/// The default bound on the requests of one connection.
pub const DEFAULT_MAX_REQUESTS_PER_CONNECTION: usize = 1000;

/// The default size of a connection's input buffer: 64 KiB.
pub const DEFAULT_READ_BUFFER_BYTES: usize = 65_536;

/// The default wait for `100 Continue`, in seconds.
pub const DEFAULT_EXPECT_CONTINUE_SECS: u64 = 1;

/// The default listen backlog.
pub const DEFAULT_LISTEN_BACKLOG: u32 = 128;

/// The default I/O timeout, in seconds.
pub const DEFAULT_CONNECTION_IO_SECS: u64 = 30;

/// The default graceful-shutdown timeout, in seconds.
pub const DEFAULT_GRACEFUL_SHUTDOWN_SECS: u64 = 30;

/// The default bound on concurrent connections.
pub const DEFAULT_MAX_CONNECTIONS: usize = 1024;

/// The default pool idle timeout, in seconds.
pub const DEFAULT_POOL_IDLE_SECS: u64 = 90;

/// The default bound on idle connections of one key.
pub const DEFAULT_POOL_MAX_IDLE_PER_KEY: usize = 8;

/// The default bound on idle connections in total.
pub const DEFAULT_POOL_MAX_IDLE_TOTAL: usize = 64;

/// HTTP message and per-connection resource limits.
#[derive(Clone, Copy, Debug, PartialEq, Eq, Structural)]
pub struct Limits {
    max_header_bytes: usize,
    max_headers: usize,
    max_body_bytes: usize,
    max_active_streams: usize,
    max_requests_per_connection: usize,
    read_buffer_bytes: usize,
}

/// The limits as numbers.
#[verifier::ext_equal]
pub struct LimitsView {
    /// The bound on encoded headers.
    pub max_header_bytes: usize,
    /// The bound on header occurrences.
    pub max_headers: usize,
    /// The bound on a buffered body.
    pub max_body_bytes: usize,
    /// The bound on active HTTP/2 streams.
    pub max_active_streams: usize,
    /// The bound on the requests of one connection.
    pub max_requests_per_connection: usize,
    /// The size of a connection's input buffer.
    pub read_buffer_bytes: usize,
}

impl View for Limits {
    type V = LimitsView;

    closed spec fn view(&self) -> LimitsView {
        LimitsView {
            max_header_bytes: self.max_header_bytes,
            max_headers: self.max_headers,
            max_body_bytes: self.max_body_bytes,
            max_active_streams: self.max_active_streams,
            max_requests_per_connection: self.max_requests_per_connection,
            read_buffer_bytes: self.read_buffer_bytes,
        }
    }
}

/// The limits that a protocol driver enforces.
#[derive(Clone, Copy, Debug, PartialEq, Eq, Structural)]
pub struct ProtocolLimits {
    /// The bound on encoded headers.
    pub max_header_bytes: usize,
    /// The bound on header occurrences.
    pub max_headers: usize,
    /// The bound on a buffered body.
    pub max_body_bytes: usize,
    /// The bound on active HTTP/2 streams.
    pub max_active_streams: usize,
    /// The bound on the requests of one connection.
    pub max_requests_per_connection: usize,
}

/// The default limits.
pub open spec fn default_limits() -> LimitsView {
    LimitsView {
        max_header_bytes: DEFAULT_MAX_HEADER_BYTES,
        max_headers: DEFAULT_MAX_HEADERS,
        max_body_bytes: DEFAULT_MAX_BODY_BYTES,
        max_active_streams: DEFAULT_MAX_ACTIVE_STREAMS,
        max_requests_per_connection: DEFAULT_MAX_REQUESTS_PER_CONNECTION,
        read_buffer_bytes: DEFAULT_READ_BUFFER_BYTES,
    }
}

impl Limits {
    /// Creates the default limits.
    pub fn new() -> (limits: Limits)
        ensures
            limits@ == default_limits(),
    {
        Limits {
            max_header_bytes: DEFAULT_MAX_HEADER_BYTES,
            max_headers: DEFAULT_MAX_HEADERS,
            max_body_bytes: DEFAULT_MAX_BODY_BYTES,
            max_active_streams: DEFAULT_MAX_ACTIVE_STREAMS,
            max_requests_per_connection: DEFAULT_MAX_REQUESTS_PER_CONNECTION,
            read_buffer_bytes: DEFAULT_READ_BUFFER_BYTES,
        }
    }

    /// Returns the maximum aggregate encoded header size.
    pub fn max_header_bytes(&self) -> (value: usize)
        ensures
            value == self@.max_header_bytes,
    {
        self.max_header_bytes
    }

    /// Sets the maximum aggregate encoded header size.
    ///
    /// A value above the read buffer size is rejected by validation.
    pub fn set_max_header_bytes(self, max_header_bytes: usize) -> (updated: Limits)
        ensures
            updated@ == (LimitsView { max_header_bytes, ..self@ }),
    {
        Limits { max_header_bytes, ..self }
    }

    /// Returns the maximum number of header occurrences.
    pub fn max_headers(&self) -> (value: usize)
        ensures
            value == self@.max_headers,
    {
        self.max_headers
    }

    /// Sets the maximum number of header occurrences.
    pub fn set_max_headers(self, max_headers: usize) -> (updated: Limits)
        ensures
            updated@ == (LimitsView { max_headers, ..self@ }),
    {
        Limits { max_headers, ..self }
    }

    /// Returns the maximum body size that may be accumulated in memory.
    pub fn max_body_bytes(&self) -> (value: usize)
        ensures
            value == self@.max_body_bytes,
    {
        self.max_body_bytes
    }

    /// Sets the maximum body size that may be accumulated in memory.
    pub fn set_max_body_bytes(self, max_body_bytes: usize) -> (updated: Limits)
        ensures
            updated@ == (LimitsView { max_body_bytes, ..self@ }),
    {
        Limits { max_body_bytes, ..self }
    }

    /// Returns the maximum number of concurrently active HTTP/2 streams.
    pub fn max_active_streams(&self) -> (value: usize)
        ensures
            value == self@.max_active_streams,
    {
        self.max_active_streams
    }

    /// Sets the maximum number of concurrently active HTTP/2 streams.
    ///
    /// Zero is rejected by validation.
    pub fn set_max_active_streams(self, max_active_streams: usize) -> (updated: Limits)
        ensures
            updated@ == (LimitsView { max_active_streams, ..self@ }),
    {
        Limits { max_active_streams, ..self }
    }

    /// Returns the maximum number of requests handled by one connection.
    pub fn max_requests_per_connection(&self) -> (value: usize)
        ensures
            value == self@.max_requests_per_connection,
    {
        self.max_requests_per_connection
    }

    /// Sets the maximum number of requests handled by one connection.
    ///
    /// Zero is rejected by validation.
    pub fn set_max_requests_per_connection(self, max_requests_per_connection: usize) -> (updated: Limits)
        ensures
            updated@ == (LimitsView { max_requests_per_connection, ..self@ }),
    {
        Limits { max_requests_per_connection, ..self }
    }

    /// Returns the reusable per-connection input-buffer size.
    pub fn read_buffer_bytes(&self) -> (value: usize)
        ensures
            value == self@.read_buffer_bytes,
    {
        self.read_buffer_bytes
    }

    /// Sets the reusable per-connection input-buffer size.
    ///
    /// Zero is rejected by validation.
    pub fn set_read_buffer_bytes(self, read_buffer_bytes: usize) -> (updated: Limits)
        ensures
            updated@ == (LimitsView { read_buffer_bytes, ..self@ }),
    {
        Limits { read_buffer_bytes, ..self }
    }

    /// Returns the part of the limits that a protocol driver enforces.
    pub fn protocol(self) -> (limits: ProtocolLimits)
        ensures
            limits == (ProtocolLimits {
                max_header_bytes: self@.max_header_bytes,
                max_headers: self@.max_headers,
                max_body_bytes: self@.max_body_bytes,
                max_active_streams: self@.max_active_streams,
                max_requests_per_connection: self@.max_requests_per_connection,
            }),
    {
        ProtocolLimits {
            max_header_bytes: self.max_header_bytes,
            max_headers: self.max_headers,
            max_body_bytes: self.max_body_bytes,
            max_active_streams: self.max_active_streams,
            max_requests_per_connection: self.max_requests_per_connection,
        }
    }
}

impl Default for Limits {
    fn default() -> (limits: Limits)
        ensures
            limits@ == default_limits(),
    {
        Limits::new()
    }
}

/// What is wrong with limits, if anything.
pub open spec fn limits_fault(limits: LimitsView) -> Option<Seq<char>> {
    if limits.max_active_streams == 0 {
        Some("maximum active HTTP/2 streams must be greater than zero"@)
    } else if limits.max_requests_per_connection == 0 {
        Some("maximum HTTP/1 requests per connection must be greater than zero"@)
    } else if limits.read_buffer_bytes == 0 {
        Some("read buffer size must be greater than zero"@)
    } else if limits.max_header_bytes > limits.read_buffer_bytes {
        Some("read buffer size must be at least the maximum header size"@)
    } else {
        None
    }
}

/// Whether a validation agrees with the fault that was found.
pub open spec fn reports_fault(result: Result<(), Error>, fault: Option<Seq<char>>) -> bool {
    match result {
        Ok(()) => fault is None,
        Err(error) => fault is Some && error@ == ErrorView::InvalidConfiguration(fault->0),
    }
}

/// Checks that limits are usable.
pub fn validate_limits(limits: Limits) -> (result: Result<(), Error>)
    ensures
        reports_fault(result, limits_fault(limits@)),
{
    if limits.max_active_streams == 0 {
        return Err(
            Error::InvalidConfiguration("maximum active HTTP/2 streams must be greater than zero"),
        );
    }
    if limits.max_requests_per_connection == 0 {
        return Err(
            Error::InvalidConfiguration(
                "maximum HTTP/1 requests per connection must be greater than zero",
            ),
        );
    }
    if limits.read_buffer_bytes == 0 {
        return Err(Error::InvalidConfiguration("read buffer size must be greater than zero"));
    }
    if limits.max_header_bytes > limits.read_buffer_bytes {
        return Err(
            Error::InvalidConfiguration("read buffer size must be at least the maximum header size"),
        );
    }
    Ok(())
}

/// Selects the cleartext HTTP wire protocol of an outbound request.
#[derive(Clone, Copy, Debug, PartialEq, Eq, Structural)]
pub enum Protocol {
    /// HTTP/1.1.
    Http1,
    /// HTTP/2 started directly with the connection preface.
    Http2PriorKnowledge,
}

impl Default for Protocol {
    fn default() -> (protocol: Protocol)
        ensures
            protocol == Protocol::Http1,
    {
        Protocol::Http1
    }
}

impl Protocol {
    /// The corresponding HTTP version.
    pub open spec fn http_version(self) -> Version {
        match self {
            Protocol::Http1 => Version::Http11,
            Protocol::Http2PriorKnowledge => Version::Http2,
        }
    }

    /// Returns the corresponding HTTP version.
    pub fn version(self) -> (version: Version)
        ensures
            version == self.http_version(),
    {
        match self {
            Protocol::Http1 => Version::Http11,
            Protocol::Http2PriorKnowledge => Version::Http2,
        }
    }

    /// Returns the protocol of a supported version.
    pub fn from_version(version: Version) -> (protocol: Result<Protocol, Error>)
        ensures
            match protocol {
                Ok(protocol) => protocol.http_version() == version,
                Err(error) => version != Version::Http11 && version != Version::Http2 && error@
                    == ErrorView::UnsupportedVersion(version),
            },
    {
        match version {
            Version::Http11 => Ok(Protocol::Http1),
            Version::Http2 => Ok(Protocol::Http2PriorKnowledge),
            version => Err(Error::UnsupportedVersion(version)),
        }
    }
}

/// Configuration shared by all requests of a client.
pub struct ClientConfig {
    limits: Limits,
    default_protocol: Protocol,
    expect_continue_timeout: Duration,
    connection_io_timeout: Duration,
    pool_idle_timeout: Duration,
    pool_max_idle_per_key: usize,
    pool_max_idle_total: usize,
    tls: Option<TlsClientConfig>,
}

/// A client configuration as plain values.
pub struct ClientConfigView {
    /// The limits.
    pub limits: Limits,
    /// The protocol of requests that select no version.
    pub default_protocol: Protocol,
    /// How long a request waits for `100 Continue`.
    pub expect_continue_timeout: Duration,
    /// How long an I/O operation may take.
    pub connection_io_timeout: Duration,
    /// How long an idle connection may be reused.
    pub pool_idle_timeout: Duration,
    /// How many idle connections of one key are kept.
    pub pool_max_idle_per_key: usize,
    /// How many idle connections are kept.
    pub pool_max_idle_total: usize,
    /// The TLS configuration.
    pub tls: Option<TlsClientConfig>,
}

impl View for ClientConfig {
    type V = ClientConfigView;

    closed spec fn view(&self) -> ClientConfigView {
        ClientConfigView {
            limits: self.limits,
            default_protocol: self.default_protocol,
            expect_continue_timeout: self.expect_continue_timeout,
            connection_io_timeout: self.connection_io_timeout,
            pool_idle_timeout: self.pool_idle_timeout,
            pool_max_idle_per_key: self.pool_max_idle_per_key,
            pool_max_idle_total: self.pool_max_idle_total,
            tls: self.tls,
        }
    }
}

impl ClientConfigView {
    /// Whether this is the default configuration: default limits, HTTP/1.1, a
    /// one-second wait for `100 Continue`, a 30-second I/O timeout, a 90-second
    /// pool idle timeout, eight idle connections per key and 64 in total.
    pub open spec fn is_default(self) -> bool {
        &&& self.limits@ == default_limits()
        &&& self.default_protocol == Protocol::Http1
        &&& self.expect_continue_timeout@ == 1_000_000_000
        &&& self.connection_io_timeout@ == 30_000_000_000
        &&& self.pool_idle_timeout@ == 90_000_000_000
        &&& self.pool_max_idle_per_key == 8
        &&& self.pool_max_idle_total == 64
        &&& self.tls is None
    }

    /// What is wrong with the configuration at time `now`, if anything.
    pub open spec fn fault(self, now: int) -> Option<Seq<char>> {
        if limits_fault(self.limits@) is Some {
            limits_fault(self.limits@)
        } else if crate::time::instant_after(now, self.expect_continue_timeout@) is None {
            Some("Expect: 100-continue timeout is too large"@)
        } else if self.connection_io_timeout@ == 0 {
            Some("connection I/O timeout must be greater than zero"@)
        } else if crate::time::instant_after(now, self.connection_io_timeout@) is None {
            Some("connection I/O timeout is too large"@)
        } else {
            None
        }
    }
}

impl ClientConfig {
    /// Creates the default configuration. A pool bound of zero disables idle
    /// connection reuse.
    pub fn new() -> (config: ClientConfig)
        ensures
            config@.is_default(),
    {
        ClientConfig {
            limits: Limits::new(),
            default_protocol: Protocol::Http1,
            expect_continue_timeout: Duration::from_secs(DEFAULT_EXPECT_CONTINUE_SECS),
            connection_io_timeout: Duration::from_secs(DEFAULT_CONNECTION_IO_SECS),
            pool_idle_timeout: Duration::from_secs(DEFAULT_POOL_IDLE_SECS),
            pool_max_idle_per_key: DEFAULT_POOL_MAX_IDLE_PER_KEY,
            pool_max_idle_total: DEFAULT_POOL_MAX_IDLE_TOTAL,
            tls: None,
        }
    }

    /// Returns the message and connection limits.
    pub fn limits(&self) -> (value: Limits)
        ensures
            value == self@.limits,
    {
        self.limits
    }

    /// Sets the message and connection limits.
    pub fn set_limits(self, limits: Limits) -> (updated: ClientConfig)
        ensures
            updated@ == (ClientConfigView { limits, ..self@ }),
    {
        ClientConfig { limits, ..self }
    }

    /// Returns the protocol used when a request selects no version.
    pub fn default_protocol(&self) -> (value: Protocol)
        ensures
            value == self@.default_protocol,
    {
        self.default_protocol
    }

    /// Sets the protocol used when a request selects no version.
    pub fn set_default_protocol(self, default_protocol: Protocol) -> (updated: ClientConfig)
        ensures
            updated@ == (ClientConfigView { default_protocol, ..self@ }),
    {
        ClientConfig { default_protocol, ..self }
    }

    /// Returns how long an HTTP/1.1 request waits for `100 Continue`.
    pub fn expect_continue_timeout(&self) -> (value: Duration)
        ensures
            value == self@.expect_continue_timeout,
    {
        self.expect_continue_timeout
    }

    /// Sets how long an HTTP/1.1 request waits for `100 Continue`.
    ///
    /// A zero duration sends the body right after the head.
    pub fn set_expect_continue_timeout(self, expect_continue_timeout: Duration) -> (updated: ClientConfig)
        ensures
            updated@ == (ClientConfigView { expect_continue_timeout, ..self@ }),
    {
        ClientConfig { expect_continue_timeout, ..self }
    }

    /// Returns the idle timeout of streaming-response I/O.
    pub fn connection_io_timeout(&self) -> (value: Duration)
        ensures
            value == self@.connection_io_timeout,
    {
        self.connection_io_timeout
    }

    /// Sets the idle timeout of streaming-response I/O.
    ///
    /// Zero is rejected by validation.
    pub fn set_connection_io_timeout(self, connection_io_timeout: Duration) -> (updated: ClientConfig)
        ensures
            updated@ == (ClientConfigView { connection_io_timeout, ..self@ }),
    {
        ClientConfig { connection_io_timeout, ..self }
    }

    /// Returns how long an idle connection remains eligible for reuse.
    pub fn pool_idle_timeout(&self) -> (value: Duration)
        ensures
            value == self@.pool_idle_timeout,
    {
        self.pool_idle_timeout
    }

    /// Sets how long an idle connection remains eligible for reuse.
    ///
    /// Zero disables reuse.
    pub fn set_pool_idle_timeout(self, pool_idle_timeout: Duration) -> (updated: ClientConfig)
        ensures
            updated@ == (ClientConfigView { pool_idle_timeout, ..self@ }),
    {
        ClientConfig { pool_idle_timeout, ..self }
    }

    /// Returns the maximum number of idle connections retained per pool key.
    pub fn pool_max_idle_per_key(&self) -> (value: usize)
        ensures
            value == self@.pool_max_idle_per_key,
    {
        self.pool_max_idle_per_key
    }

    /// Sets the maximum number of idle connections retained per pool key.
    ///
    /// Zero disables retention.
    pub fn set_pool_max_idle_per_key(self, pool_max_idle_per_key: usize) -> (updated: ClientConfig)
        ensures
            updated@ == (ClientConfigView { pool_max_idle_per_key, ..self@ }),
    {
        ClientConfig { pool_max_idle_per_key, ..self }
    }

    /// Returns the maximum number of idle connections retained in total.
    pub fn pool_max_idle_total(&self) -> (value: usize)
        ensures
            value == self@.pool_max_idle_total,
    {
        self.pool_max_idle_total
    }

    /// Sets the maximum number of idle connections retained in total.
    ///
    /// Zero disables retention.
    pub fn set_pool_max_idle_total(self, pool_max_idle_total: usize) -> (updated: ClientConfig)
        ensures
            updated@ == (ClientConfigView { pool_max_idle_total, ..self@ }),
    {
        ClientConfig { pool_max_idle_total, ..self }
    }

    /// Returns the TLS configuration used for `https` requests.
    pub fn tls(&self) -> (tls: Option<&TlsClientConfig>)
        ensures
            match tls {
                Some(tls) => self@.tls == Some(*tls),
                None => self@.tls is None,
            },
    {
        self.tls.as_ref()
    }

    /// Sets the TLS configuration used for `https` requests.
    pub fn set_tls(self, tls: TlsClientConfig) -> (config: ClientConfig)
        ensures
            config@ == (ClientConfigView { tls: Some(tls), ..self@ }),
    {
        ClientConfig { tls: Some(tls), ..self }
    }

    /// Checks that the configuration is usable at time `now`.
    pub fn validate(&self, now: Instant) -> (result: Result<(), Error>)
        ensures
            reports_fault(result, self@.fault(now@)),
    {
        match validate_limits(self.limits) {
            Ok(()) => {},
            Err(error) => return Err(error),
        }
        if now.checked_add(self.expect_continue_timeout).is_none() {
            return Err(Error::InvalidConfiguration("Expect: 100-continue timeout is too large"));
        }
        if self.connection_io_timeout.is_zero() {
            return Err(
                Error::InvalidConfiguration("connection I/O timeout must be greater than zero"),
            );
        }
        if now.checked_add(self.connection_io_timeout).is_none() {
            return Err(Error::InvalidConfiguration("connection I/O timeout is too large"));
        }
        Ok(())
    }
}

impl Default for ClientConfig {
    fn default() -> (config: ClientConfig)
        ensures
            config@.is_default(),
    {
        ClientConfig::new()
    }
}

/// Configuration of a server.
pub struct ServerConfig {
    limits: Limits,
    listen_backlog: u32,
    connection_io_timeout: Duration,
    graceful_shutdown_timeout: Duration,
    max_connections: usize,
    tls: Option<TlsServerConfig>,
}

/// A server configuration as plain values.
pub struct ServerConfigView {
    /// The limits.
    pub limits: Limits,
    /// The kernel listen backlog.
    pub listen_backlog: u32,
    /// How long a connection read or write may remain idle.
    pub connection_io_timeout: Duration,
    /// How long shutdown waits for active handlers.
    pub graceful_shutdown_timeout: Duration,
    /// How many connections may be active at once.
    pub max_connections: usize,
    /// The TLS configuration.
    pub tls: Option<TlsServerConfig>,
}

impl View for ServerConfig {
    type V = ServerConfigView;

    closed spec fn view(&self) -> ServerConfigView {
        ServerConfigView {
            limits: self.limits,
            listen_backlog: self.listen_backlog,
            connection_io_timeout: self.connection_io_timeout,
            graceful_shutdown_timeout: self.graceful_shutdown_timeout,
            max_connections: self.max_connections,
            tls: self.tls,
        }
    }
}

impl ServerConfigView {
    /// Whether this is the default configuration: default limits, a backlog of
    /// 128, 30-second timeouts and at most 1,024 connections.
    pub open spec fn is_default(self) -> bool {
        &&& self.limits@ == default_limits()
        &&& self.listen_backlog == 128
        &&& self.connection_io_timeout@ == 30_000_000_000
        &&& self.graceful_shutdown_timeout@ == 30_000_000_000
        &&& self.max_connections == 1024
        &&& self.tls is None
    }

    /// What is wrong with the configuration at time `now`, if anything.
    pub open spec fn fault(self, now: int) -> Option<Seq<char>> {
        if limits_fault(self.limits@) is Some {
            limits_fault(self.limits@)
        } else if self.listen_backlog == 0 || self.listen_backlog > 0x7fff_ffff {
            Some("listen backlog must be between 1 and i32::MAX"@)
        } else if self.connection_io_timeout@ == 0 {
            Some("connection I/O timeout must be greater than zero"@)
        } else if crate::time::instant_after(now, self.connection_io_timeout@) is None {
            Some("connection I/O timeout is too large"@)
        } else if self.graceful_shutdown_timeout@ == 0 {
            Some("graceful shutdown timeout must be greater than zero"@)
        } else if crate::time::instant_after(now, self.graceful_shutdown_timeout@) is None {
            Some("graceful shutdown timeout is too large"@)
        } else if self.max_connections == 0 {
            Some("maximum concurrent connections must be greater than zero"@)
        } else {
            None
        }
    }
}

impl ServerConfig {
    /// Creates the default configuration.
    pub fn new() -> (config: ServerConfig)
        ensures
            config@.is_default(),
    {
        ServerConfig {
            limits: Limits::new(),
            listen_backlog: DEFAULT_LISTEN_BACKLOG,
            connection_io_timeout: Duration::from_secs(DEFAULT_CONNECTION_IO_SECS),
            graceful_shutdown_timeout: Duration::from_secs(DEFAULT_GRACEFUL_SHUTDOWN_SECS),
            max_connections: DEFAULT_MAX_CONNECTIONS,
            tls: None,
        }
    }

    /// Returns the message and connection limits.
    pub fn limits(&self) -> (value: Limits)
        ensures
            value == self@.limits,
    {
        self.limits
    }

    /// Sets the message and connection limits.
    pub fn set_limits(self, limits: Limits) -> (updated: ServerConfig)
        ensures
            updated@ == (ServerConfigView { limits, ..self@ }),
    {
        ServerConfig { limits, ..self }
    }

    /// Returns the kernel listen backlog.
    pub fn listen_backlog(&self) -> (value: u32)
        ensures
            value == self@.listen_backlog,
    {
        self.listen_backlog
    }

    /// Sets the kernel listen backlog.
    ///
    /// Zero, and a value above `i32::MAX`, are rejected by validation.
    pub fn set_listen_backlog(self, listen_backlog: u32) -> (updated: ServerConfig)
        ensures
            updated@ == (ServerConfigView { listen_backlog, ..self@ }),
    {
        ServerConfig { listen_backlog, ..self }
    }

    /// Returns how long a connection read or write may remain idle.
    pub fn connection_io_timeout(&self) -> (value: Duration)
        ensures
            value == self@.connection_io_timeout,
    {
        self.connection_io_timeout
    }

    /// Sets how long a connection read or write may remain idle.
    ///
    /// Zero is rejected by validation.
    pub fn set_connection_io_timeout(self, connection_io_timeout: Duration) -> (updated: ServerConfig)
        ensures
            updated@ == (ServerConfigView { connection_io_timeout, ..self@ }),
    {
        ServerConfig { connection_io_timeout, ..self }
    }

    /// Returns how long shutdown waits for active handlers to finish.
    pub fn graceful_shutdown_timeout(&self) -> (value: Duration)
        ensures
            value == self@.graceful_shutdown_timeout,
    {
        self.graceful_shutdown_timeout
    }

    /// Sets how long shutdown waits for active handlers to finish.
    ///
    /// Zero is rejected by validation.
    pub fn set_graceful_shutdown_timeout(self, graceful_shutdown_timeout: Duration) -> (updated: ServerConfig)
        ensures
            updated@ == (ServerConfigView { graceful_shutdown_timeout, ..self@ }),
    {
        ServerConfig { graceful_shutdown_timeout, ..self }
    }

    /// Returns the maximum number of concurrently active connections.
    pub fn max_connections(&self) -> (value: usize)
        ensures
            value == self@.max_connections,
    {
        self.max_connections
    }

    /// Sets the maximum number of concurrently active connections.
    ///
    /// Zero is rejected by validation.
    pub fn set_max_connections(self, max_connections: usize) -> (updated: ServerConfig)
        ensures
            updated@ == (ServerConfigView { max_connections, ..self@ }),
    {
        ServerConfig { max_connections, ..self }
    }

    /// Returns the maximum number of concurrently active HTTP/2 streams.
    pub fn max_active_streams(&self) -> (limit: usize)
        ensures
            limit == self@.limits@.max_active_streams,
    {
        self.limits.max_active_streams()
    }

    /// Sets the maximum number of concurrently active HTTP/2 streams.
    pub fn set_max_active_streams(self, max_active_streams: usize) -> (config: ServerConfig)
        ensures
            config@ == (ServerConfigView { limits: config@.limits, ..self@ }),
            config@.limits@ == (LimitsView { max_active_streams, ..self@.limits@ }),
    {
        ServerConfig { limits: self.limits.set_max_active_streams(max_active_streams), ..self }
    }

    /// Returns the maximum number of HTTP/1 requests of one connection.
    pub fn max_requests_per_connection(&self) -> (limit: usize)
        ensures
            limit == self@.limits@.max_requests_per_connection,
    {
        self.limits.max_requests_per_connection()
    }

    /// Sets the maximum number of HTTP/1 requests of one connection.
    pub fn set_max_requests_per_connection(self, max_requests_per_connection: usize) -> (config:
        ServerConfig)
        ensures
            config@ == (ServerConfigView { limits: config@.limits, ..self@ }),
            config@.limits@ == (LimitsView { max_requests_per_connection, ..self@.limits@ }),
    {
        ServerConfig {
            limits: self.limits.set_max_requests_per_connection(max_requests_per_connection),
            ..self
        }
    }

    /// Returns the TLS configuration of accepted connections.
    pub fn tls(&self) -> (tls: Option<&TlsServerConfig>)
        ensures
            match tls {
                Some(tls) => self@.tls == Some(*tls),
                None => self@.tls is None,
            },
    {
        self.tls.as_ref()
    }

    /// Enables TLS and ALPN on accepted connections.
    pub fn set_tls(self, tls: TlsServerConfig) -> (config: ServerConfig)
        ensures
            config@ == (ServerConfigView { tls: Some(tls), ..self@ }),
    {
        ServerConfig { tls: Some(tls), ..self }
    }

    /// Checks that the configuration is usable at time `now`.
    pub fn validate(&self, now: Instant) -> (result: Result<(), Error>)
        ensures
            reports_fault(result, self@.fault(now@)),
    {
        match validate_limits(self.limits) {
            Ok(()) => {},
            Err(error) => return Err(error),
        }
        if self.listen_backlog == 0 || self.listen_backlog > 0x7fff_ffff {
            return Err(Error::InvalidConfiguration("listen backlog must be between 1 and i32::MAX"));
        }
        if self.connection_io_timeout.is_zero() {
            return Err(
                Error::InvalidConfiguration("connection I/O timeout must be greater than zero"),
            );
        }
        if now.checked_add(self.connection_io_timeout).is_none() {
            return Err(Error::InvalidConfiguration("connection I/O timeout is too large"));
        }
        if self.graceful_shutdown_timeout.is_zero() {
            return Err(
                Error::InvalidConfiguration("graceful shutdown timeout must be greater than zero"),
            );
        }
        if now.checked_add(self.graceful_shutdown_timeout).is_none() {
            return Err(Error::InvalidConfiguration("graceful shutdown timeout is too large"));
        }
        if self.max_connections == 0 {
            return Err(
                Error::InvalidConfiguration(
                    "maximum concurrent connections must be greater than zero",
                ),
            );
        }
        Ok(())
    }
}

impl Default for ServerConfig {
    fn default() -> (config: ServerConfig)
        ensures
            config@.is_default(),
    {
        ServerConfig::new()
    }
}

/// The default configurations are usable at every time that leaves room for
/// their timeouts.
pub proof fn defaults_are_usable(client: ClientConfigView, server: ServerConfigView, now: int)
    requires
        client.is_default(),
        server.is_default(),
        now + 30_000_000_000 <= crate::time::MAX_INSTANT_NANOS,
    ensures
        client.fault(now) is None,
        server.fault(now) is None,
{
}

/// A limit that is set is the limit that is read, here and by the driver, and the
/// others stay as they were.
pub proof fn limits_are_what_was_set(
    limits: Limits,
    numbers: (usize, usize, usize, usize, usize, usize),
    set: (Limits, Limits, Limits, Limits, Limits, Limits),
    read: (usize, usize, usize, usize, usize, usize),
    driver: ProtocolLimits,
)
    requires
        call_ensures(Limits::set_max_header_bytes, (limits, numbers.0), set.0),
        call_ensures(Limits::set_max_headers, (set.0, numbers.1), set.1),
        call_ensures(Limits::set_max_body_bytes, (set.1, numbers.2), set.2),
        call_ensures(Limits::set_max_active_streams, (set.2, numbers.3), set.3),
        call_ensures(Limits::set_max_requests_per_connection, (set.3, numbers.4), set.4),
        call_ensures(Limits::set_read_buffer_bytes, (set.4, numbers.5), set.5),
        call_ensures(Limits::max_header_bytes, (&set.5,), read.0),
        call_ensures(Limits::max_headers, (&set.5,), read.1),
        call_ensures(Limits::max_body_bytes, (&set.5,), read.2),
        call_ensures(Limits::max_active_streams, (&set.5,), read.3),
        call_ensures(Limits::max_requests_per_connection, (&set.5,), read.4),
        call_ensures(Limits::read_buffer_bytes, (&set.5,), read.5),
        call_ensures(Limits::protocol, (set.5,), driver),
    ensures
        read == numbers,
        driver.max_header_bytes == numbers.0 && driver.max_headers == numbers.1,
        driver.max_body_bytes == numbers.2 && driver.max_active_streams == numbers.3,
        driver.max_requests_per_connection == numbers.4,
        set.0@ == (LimitsView { max_header_bytes: numbers.0, ..limits@ }),
{
}

/// Limits are usable exactly when a connection may serve requests and streams,
/// its buffer holds something, and the headers fit into it.
pub proof fn unusable_limits_are_refused(limits: Limits, result: Result<(), Error>)
    requires
        call_ensures(validate_limits, (limits,), result),
    ensures
        result is Ok <==> {
            &&& limits@.max_active_streams > 0
            &&& limits@.max_requests_per_connection > 0
            &&& limits@.read_buffer_bytes > 0
            &&& limits@.max_header_bytes <= limits@.read_buffer_bytes
        },
        result matches Err(error) ==> error@ is InvalidConfiguration,
{
}

/// The default limits are 64 KiB of headers, 100 headers, bodies of 8 MiB, 100
/// streams and 1,000 requests, with a buffer of 64 KiB.
pub proof fn default_limits_are_known(limits: Limits, client: ClientConfig, server: ServerConfig)
    requires
        call_ensures(Limits::new, (), limits),
        call_ensures(ClientConfig::new, (), client),
        call_ensures(ServerConfig::new, (), server),
    ensures
        limits@.max_header_bytes == 64 * 1024 && limits@.read_buffer_bytes == 64 * 1024,
        limits@.max_headers == 100 && limits@.max_body_bytes == 8 * 1024 * 1024,
        limits@.max_active_streams == 100 && limits@.max_requests_per_connection == 1000,
        client@.limits@ == limits@ && server@.limits@ == limits@,
        client@.default_protocol == Protocol::Http1,
        client@.expect_continue_timeout@ == 1_000_000_000,
        client@.connection_io_timeout@ == 30_000_000_000,
        client@.pool_idle_timeout@ == 90_000_000_000,
        client@.pool_max_idle_per_key == 8 && client@.pool_max_idle_total == 64,
        client@.tls is None && server@.tls is None,
        server@.listen_backlog == 128 && server@.max_connections == 1024,
        server@.connection_io_timeout@ == 30_000_000_000,
        server@.graceful_shutdown_timeout@ == 30_000_000_000,
{
}

/// What is set of a client's configuration is what is read, and the rest stays.
pub proof fn client_settings_are_what_was_set(
    config: ClientConfig,
    limits: Limits,
    protocol: Protocol,
    timeouts: (Duration, Duration, Duration),
    bounds: (usize, usize),
    set: (ClientConfig, ClientConfig, ClientConfig, ClientConfig, ClientConfig, ClientConfig, ClientConfig),
    read: (Limits, Protocol, Duration, Duration, Duration, usize, usize),
)
    requires
        call_ensures(ClientConfig::set_limits, (config, limits), set.0),
        call_ensures(ClientConfig::set_default_protocol, (set.0, protocol), set.1),
        call_ensures(ClientConfig::set_expect_continue_timeout, (set.1, timeouts.0), set.2),
        call_ensures(ClientConfig::set_connection_io_timeout, (set.2, timeouts.1), set.3),
        call_ensures(ClientConfig::set_pool_idle_timeout, (set.3, timeouts.2), set.4),
        call_ensures(ClientConfig::set_pool_max_idle_per_key, (set.4, bounds.0), set.5),
        call_ensures(ClientConfig::set_pool_max_idle_total, (set.5, bounds.1), set.6),
        call_ensures(ClientConfig::limits, (&set.6,), read.0),
        call_ensures(ClientConfig::default_protocol, (&set.6,), read.1),
        call_ensures(ClientConfig::expect_continue_timeout, (&set.6,), read.2),
        call_ensures(ClientConfig::connection_io_timeout, (&set.6,), read.3),
        call_ensures(ClientConfig::pool_idle_timeout, (&set.6,), read.4),
        call_ensures(ClientConfig::pool_max_idle_per_key, (&set.6,), read.5),
        call_ensures(ClientConfig::pool_max_idle_total, (&set.6,), read.6),
    ensures
        read.0 == limits && read.1 == protocol,
        read.2 == timeouts.0 && read.3 == timeouts.1 && read.4 == timeouts.2,
        read.5 == bounds.0 && read.6 == bounds.1,
        set.6@.tls == config@.tls,
{
}

/// What is set of a server's configuration is what is read, and the rest stays.
pub proof fn server_settings_are_what_was_set(
    config: ServerConfig,
    limits: Limits,
    backlog: u32,
    timeouts: (Duration, Duration),
    bounds: (usize, usize, usize),
    set: (ServerConfig, ServerConfig, ServerConfig, ServerConfig, ServerConfig, ServerConfig, ServerConfig),
    read: (u32, Duration, Duration, usize, usize, usize, Limits),
)
    requires
        call_ensures(ServerConfig::set_limits, (config, limits), set.0),
        call_ensures(ServerConfig::set_listen_backlog, (set.0, backlog), set.1),
        call_ensures(ServerConfig::set_connection_io_timeout, (set.1, timeouts.0), set.2),
        call_ensures(ServerConfig::set_graceful_shutdown_timeout, (set.2, timeouts.1), set.3),
        call_ensures(ServerConfig::set_max_connections, (set.3, bounds.0), set.4),
        call_ensures(ServerConfig::set_max_active_streams, (set.4, bounds.1), set.5),
        call_ensures(ServerConfig::set_max_requests_per_connection, (set.5, bounds.2), set.6),
        call_ensures(ServerConfig::listen_backlog, (&set.6,), read.0),
        call_ensures(ServerConfig::connection_io_timeout, (&set.6,), read.1),
        call_ensures(ServerConfig::graceful_shutdown_timeout, (&set.6,), read.2),
        call_ensures(ServerConfig::max_connections, (&set.6,), read.3),
        call_ensures(ServerConfig::max_active_streams, (&set.6,), read.4),
        call_ensures(ServerConfig::max_requests_per_connection, (&set.6,), read.5),
        call_ensures(ServerConfig::limits, (&set.6,), read.6),
    ensures
        read.0 == backlog && read.1 == timeouts.0 && read.2 == timeouts.1,
        read.3 == bounds.0 && read.4 == bounds.1 && read.5 == bounds.2,
        read.6@ == (LimitsView {
            max_active_streams: bounds.1,
            max_requests_per_connection: bounds.2,
            ..limits@
        }),
        set.6@.tls == config@.tls,
{
}

/// A configuration is refused exactly when its limits are, or when a timeout or
/// a bound that has to be positive is zero, or lies beyond what the clock or the
/// system takes.
pub proof fn unusable_configurations_are_refused(
    client: &ClientConfig,
    server: &ServerConfig,
    now: Instant,
    results: (Result<(), Error>, Result<(), Error>),
    limits: (Result<(), Error>, Result<(), Error>),
)
    requires
        call_ensures(validate_limits, (client@.limits,), limits.0),
        call_ensures(validate_limits, (server@.limits,), limits.1),
        call_ensures(ClientConfig::validate, (client, now), results.0),
        call_ensures(ServerConfig::validate, (server, now), results.1),
    ensures
        results.0 is Ok <==> {
            &&& limits.0 is Ok
            &&& client@.connection_io_timeout@ != 0
            &&& now@ + client@.connection_io_timeout@ <= crate::time::MAX_INSTANT_NANOS
            &&& now@ + client@.expect_continue_timeout@ <= crate::time::MAX_INSTANT_NANOS
        },
        results.1 is Ok <==> {
            &&& limits.1 is Ok
            &&& 0 < server@.listen_backlog <= 2_147_483_647
            &&& server@.connection_io_timeout@ != 0
            &&& now@ + server@.connection_io_timeout@ <= crate::time::MAX_INSTANT_NANOS
            &&& server@.graceful_shutdown_timeout@ != 0
            &&& now@ + server@.graceful_shutdown_timeout@ <= crate::time::MAX_INSTANT_NANOS
            &&& server@.max_connections > 0
        },
{
}

/// A protocol and its version stand for one another, and no other version is
/// spoken.
pub proof fn versions_and_protocols_agree(
    version: Version,
    protocol: Protocol,
    spoken: Version,
    found: Result<Protocol, Error>,
    again: Result<Protocol, Error>,
)
    requires
        call_ensures(Protocol::version, (protocol,), spoken),
        call_ensures(Protocol::from_version, (spoken,), again),
        call_ensures(Protocol::from_version, (version,), found),
    ensures
        again == Ok::<Protocol, Error>(protocol),
        protocol is Http1 <==> spoken == Version::Http11,
        protocol is Http2PriorKnowledge <==> spoken == Version::Http2,
        found is Ok <==> version == Version::Http11 || version == Version::Http2,
        found matches Err(error) ==> error@ == ErrorView::UnsupportedVersion(version),
{
}

/// The TLS settings that are set are those that are read, and nothing else
/// changes.
pub proof fn tls_settings_are_what_was_set(
    client: ClientConfig,
    server: ServerConfig,
    client_tls: TlsClientConfig,
    server_tls: TlsServerConfig,
    set: (ClientConfig, ServerConfig),
    read: (Option<&TlsClientConfig>, Option<&TlsServerConfig>),
)
    requires
        call_ensures(ClientConfig::set_tls, (client, client_tls), set.0),
        call_ensures(ClientConfig::tls, (&set.0,), read.0),
        call_ensures(ServerConfig::set_tls, (server, server_tls), set.1),
        call_ensures(ServerConfig::tls, (&set.1,), read.1),
    ensures
        read.0 matches Some(told) && *told == client_tls,
        read.1 matches Some(told) && *told == server_tls,
        set.0@ == (ClientConfigView { tls: Some(client_tls), ..client@ }),
        set.1@ == (ServerConfigView { tls: Some(server_tls), ..server@ }),
{
}

} // verus!
