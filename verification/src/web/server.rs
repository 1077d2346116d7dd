//! The server's listener: accepting, reporting and draining.

use vstd::prelude::*;

use crate::errno::is_resource_pressure;
use crate::errno::is_transient_accept_error;
use crate::errno::Errno;
use crate::errors::PanicPayload;
use crate::errors::TaskHandleError;
use crate::text::joined;
use crate::time::Duration;
use crate::time::Instant;
use crate::web::config::Limits;
use crate::web::config::ServerConfig;
use crate::web::config::ServerConfigView;
use crate::web::error::Error;
use crate::web::error::ErrorView;
use crate::web::message::Response;
use crate::web::tls::TlsServerConfig;

verus! {

/// How long the listener waits after its first failure to accept, in
/// nanoseconds.
pub const INITIAL_ACCEPT_BACKOFF_NANOS: u64 = 10_000_000;

/// How long the listener waits at most after a failure to accept, in
/// nanoseconds.
pub const MAX_ACCEPT_BACKOFF_NANOS: u64 = 1_000_000_000;

/// How long a connection that was shut down is read to its end, in
/// nanoseconds.
pub const LINGER_NANOS: u64 = 250_000_000;

/// A decision made from request headers before an expected body is read.
#[non_exhaustive]
pub enum ExpectContinueDecision {
    /// Send `100 Continue` when the protocol uses the handshake, then run the
    /// selected handler after accepting the body.
    Continue,
    /// Send this final response without reading or buffering the request body.
    Reject(Response),
}

/// How request bodies reach the handler.
#[derive(Clone, Copy, Debug, PartialEq, Eq, Structural)]
pub enum RequestMode {
    /// Once they are complete.
    Buffered,
    /// Chunk by chunk.
    Streaming,
}

/// A nonfatal error observed while a server continues serving.
#[derive(Debug)]
#[non_exhaustive]
pub enum ServeError {
    /// An accepted connection failed while parsing, reading, or writing.
    Connection(Error),
    /// Configuration of an accepted socket failed, so that socket was closed.
    ConnectionSetup(Errno),
    /// A recoverable listener accept failed and will be retried.
    TransientAccept(Errno),
    /// A connection task was canceled independently of graceful shutdown.
    ConnectionTaskCanceled,
    /// A connection task panicked.
    ConnectionTaskPanicked(PanicPayload),
    /// An HTTP/2 request handler or trailer callback panicked while its
    /// connection kept serving.
    HandlerPanicked(PanicPayload),
    /// An HTTP/2 response body failed while sibling streams kept serving.
    ResponseBody(Error),
    /// HTTP/2 response trailers were rejected while sibling streams kept
    /// serving.
    ResponseTrailers(Error),
}

/// The words of a panic.
pub open spec fn panic_words(payload: PanicPayload) -> Seq<char> {
    match payload.message {
        Some(message) => message@,
        None => "<non-string panic payload>"@,
    }
}

/// The words of a panic.
pub fn panic_message(payload: &PanicPayload) -> (message: &str)
    ensures
        message@ == panic_words(*payload),
{
    match &payload.message {
        Some(message) => message.as_str(),
        None => "<non-string panic payload>",
    }
}

impl ServeError {
    /// Whether `text` describes the report. The words of the operating system
    /// are not fixed; everything else is.
    pub open spec fn described_by(&self, text: Seq<char>) -> bool {
        match self {
            ServeError::Connection(error) => exists|words: Seq<char>|
                text == #[trigger] ("HTTP connection failed: "@ + words) && error@.described_by(
                    words,
                ),
            ServeError::ConnectionSetup(_) => crate::web::error::wraps(
                text,
                "accepted HTTP socket setup failed: "@,
                Seq::empty(),
            ),
            ServeError::TransientAccept(_) => crate::web::error::wraps(
                text,
                "transient HTTP accept failure; retrying: "@,
                Seq::empty(),
            ),
            ServeError::ConnectionTaskCanceled => text == "HTTP connection task canceled"@,
            ServeError::ConnectionTaskPanicked(payload) => text
                == "HTTP connection task panicked: "@ + panic_words(*payload),
            ServeError::HandlerPanicked(payload) => text
                == "HTTP/2 request handler or trailer callback panicked: "@ + panic_words(*payload),
            ServeError::ResponseBody(error) => exists|words: Seq<char>|
                text == #[trigger] ("HTTP/2 response body failed: "@ + words)
                    && error@.described_by(words),
            ServeError::ResponseTrailers(error) => exists|words: Seq<char>|
                text == #[trigger] ("HTTP/2 response trailers failed: "@ + words)
                    && error@.described_by(words),
        }
    }

    /// The report in words.
    pub fn to_text(&self) -> (text: String)
        ensures
            self.described_by(text@),
    {
        match self {
            ServeError::Connection(error) => {
                let words = error.to_text();
                let text = joined("HTTP connection failed: ", words.as_str());
                assert(text@ == "HTTP connection failed: "@ + words@);
                text
            },
            ServeError::ConnectionSetup(error) => {
                let words = crate::web::error::errno_text(*error);
                let text = joined("accepted HTTP socket setup failed: ", words.as_str());
                assert(text@ =~= "accepted HTTP socket setup failed: "@ + words@ + Seq::empty());
                text
            },
            ServeError::TransientAccept(error) => {
                let words = crate::web::error::errno_text(*error);
                let text = joined("transient HTTP accept failure; retrying: ", words.as_str());
                assert(text@ =~= "transient HTTP accept failure; retrying: "@ + words@
                    + Seq::empty());
                text
            },
            ServeError::ConnectionTaskCanceled => "HTTP connection task canceled".to_owned(),
            ServeError::ConnectionTaskPanicked(payload) => joined(
                "HTTP connection task panicked: ",
                panic_message(payload),
            ),
            ServeError::HandlerPanicked(payload) => joined(
                "HTTP/2 request handler or trailer callback panicked: ",
                panic_message(payload),
            ),
            ServeError::ResponseBody(error) => {
                let words = error.to_text();
                let text = joined("HTTP/2 response body failed: ", words.as_str());
                assert(text@ == "HTTP/2 response body failed: "@ + words@);
                text
            },
            ServeError::ResponseTrailers(error) => {
                let words = error.to_text();
                let text = joined("HTTP/2 response trailers failed: ", words.as_str());
                assert(text@ == "HTTP/2 response trailers failed: "@ + words@);
                text
            },
        }
    }

    /// Returns the original payload for a connection-task or handler panic.
    pub fn panic_payload(&self) -> (payload: Option<&PanicPayload>)
        ensures
            match self {
                ServeError::ConnectionTaskPanicked(panic) => payload == Some(panic),
                ServeError::HandlerPanicked(panic) => payload == Some(panic),
                _ => payload is None,
            },
    {
        match self {
            ServeError::ConnectionTaskPanicked(payload) => Some(payload),
            ServeError::HandlerPanicked(payload) => Some(payload),
            _ => None,
        }
    }

    /// The error behind the report.
    pub fn source(&self) -> (source: Option<&Error>)
        ensures
            match self {
                ServeError::Connection(error) => source == Some(error),
                ServeError::ResponseBody(error) => source == Some(error),
                ServeError::ResponseTrailers(error) => source == Some(error),
                _ => source is None,
            },
    {
        match self {
            ServeError::Connection(error) => Some(error),
            ServeError::ResponseBody(error) => Some(error),
            ServeError::ResponseTrailers(error) => Some(error),
            _ => None,
        }
    }
}

/// A builder for an HTTP server that binds an address of type `A`.
pub struct ServerBuilder<A> {
    address: A,
    config: ServerConfig,
}

impl<A> ServerBuilder<A> {
    /// The address that will be bound.
    pub closed spec fn bound_address(&self) -> A {
        self.address
    }

    /// The configuration.
    pub closed spec fn configured(&self) -> ServerConfigView {
        self.config@
    }

    /// Creates a builder for an explicit IPv4 or IPv6 address.
    pub fn new(address: A) -> (builder: ServerBuilder<A>)
        ensures
            builder.bound_address() == address,
            builder.configured().is_default(),
    {
        ServerBuilder { address, config: ServerConfig::new() }
    }

    /// Returns the address that will be bound.
    pub fn address(&self) -> (address: &A)
        ensures
            *address == self.bound_address(),
    {
        &self.address
    }

    /// Replaces the complete server configuration.
    pub fn config(self, config: ServerConfig) -> (builder: ServerBuilder<A>)
        ensures
            builder.bound_address() == self.bound_address(),
            builder.configured() == config@,
    {
        ServerBuilder { address: self.address, config }
    }

    /// Sets the request, response, and per-connection limits.
    pub fn limits(self, limits: Limits) -> (builder: ServerBuilder<A>)
        ensures
            builder.bound_address() == self.bound_address(),
            builder.configured() == (ServerConfigView { limits, ..self.configured() }),
    {
        ServerBuilder { address: self.address, config: self.config.set_limits(limits) }
    }

    /// Sets the kernel listen backlog.
    pub fn listen_backlog(self, backlog: u32) -> (builder: ServerBuilder<A>)
        ensures
            builder.bound_address() == self.bound_address(),
            builder.configured() == (ServerConfigView {
                listen_backlog: backlog,
                ..self.configured()
            }),
    {
        ServerBuilder { address: self.address, config: self.config.set_listen_backlog(backlog) }
    }

    /// Sets the maximum time a connection read or write may remain idle.
    pub fn connection_io_timeout(self, timeout: Duration) -> (builder: ServerBuilder<A>)
        ensures
            builder.bound_address() == self.bound_address(),
            builder.configured() == (ServerConfigView {
                connection_io_timeout: timeout,
                ..self.configured()
            }),
    {
        ServerBuilder {
            address: self.address,
            config: self.config.set_connection_io_timeout(timeout),
        }
    }

    /// Sets how long shutdown waits for active handlers to finish.
    pub fn graceful_shutdown_timeout(self, timeout: Duration) -> (builder: ServerBuilder<A>)
        ensures
            builder.bound_address() == self.bound_address(),
            builder.configured() == (ServerConfigView {
                graceful_shutdown_timeout: timeout,
                ..self.configured()
            }),
    {
        ServerBuilder {
            address: self.address,
            config: self.config.set_graceful_shutdown_timeout(timeout),
        }
    }

    /// Sets the maximum number of concurrently active connections.
    pub fn max_connections(self, max_connections: usize) -> (builder: ServerBuilder<A>)
        ensures
            builder.bound_address() == self.bound_address(),
            builder.configured() == (ServerConfigView { max_connections, ..self.configured() }),
    {
        ServerBuilder {
            address: self.address,
            config: self.config.set_max_connections(max_connections),
        }
    }

    /// Enables TLS and ALPN on accepted connections.
    pub fn tls(self, tls: TlsServerConfig) -> (builder: ServerBuilder<A>)
        ensures
            builder.bound_address() == self.bound_address(),
            builder.configured() == (ServerConfigView { tls: Some(tls), ..self.configured() }),
    {
        ServerBuilder { address: self.address, config: self.config.set_tls(tls) }
    }

    /// What binding needs: the address, and a configuration that is valid.
    pub fn build(self, now: Instant) -> (built: Result<(A, ServerConfig), Error>)
        ensures
            match built {
                Ok((address, config)) => {
                    &&& self.configured().fault(now@) is None
                    &&& address == self.bound_address()
                    &&& config@ == self.configured()
                },
                Err(error) => self.configured().fault(now@) is Some && error@
                    == ErrorView::InvalidConfiguration(self.configured().fault(now@)->0),
            },
    {
        match self.config.validate(now) {
            Ok(()) => Ok((self.address, self.config)),
            Err(error) => Err(error),
        }
    }
}

/// A bound HTTP/1.1 and HTTP/2 server with optional TLS and ALPN support. `L`
/// is its listener.
pub struct Server<L, A> {
    listener: L,
    local_addr: A,
    config: ServerConfig,
}

impl<L, A> Server<L, A> {
    /// The listener.
    pub closed spec fn listens(&self) -> L {
        self.listener
    }

    /// The local address.
    pub closed spec fn bound_address(&self) -> A {
        self.local_addr
    }

    /// The configuration.
    pub closed spec fn configured(&self) -> ServerConfigView {
        self.config@
    }

    /// Creates a builder for an explicit IPv4 or IPv6 address.
    pub fn builder(address: A) -> (builder: ServerBuilder<A>)
        ensures
            builder.bound_address() == address,
            builder.configured().is_default(),
    {
        ServerBuilder::new(address)
    }

    /// A server on a listener that was bound.
    pub fn from_listener(listener: L, local_addr: A, config: ServerConfig) -> (server: Server<L, A>)
        ensures
            server.listens() == listener,
            server.bound_address() == local_addr,
            server.configured() == config@,
    {
        Server { listener, local_addr, config }
    }

    /// Returns the resolved local address, including an assigned port.
    pub fn local_addr(&self) -> (address: &A)
        ensures
            *address == self.bound_address(),
    {
        &self.local_addr
    }

    /// Returns this server's configuration.
    pub fn config(&self) -> (config: &ServerConfig)
        ensures
            config@ == self.configured(),
    {
        &self.config
    }

    /// Takes the server apart.
    pub fn into_parts(self) -> (parts: (L, ServerConfig))
        ensures
            parts.0 == self.listens(),
            parts.1@ == self.configured(),
    {
        (self.listener, self.config)
    }
}

/// What a listener that is not told to stop waits for, besides reports.
#[derive(Clone, Copy, Debug, PartialEq, Eq, Structural)]
pub struct AcceptWait {
    /// Whether it accepts connections.
    pub accepts: bool,
    /// Whether connections may end.
    pub completes: bool,
}

/// What a listener does next.
#[derive(Clone, Copy, Debug, PartialEq, Eq, Structural)]
pub enum AcceptPhase {
    /// It waits.
    Wait,
    /// It configures the socket that it accepted.
    Configure,
    /// It serves the socket, and then waits.
    Serve,
    /// It does nothing for a while.
    Backoff(Duration),
    /// It waits for its connections to end.
    Drain,
}

/// A listener that accepts connections.
#[derive(Clone, Copy, Debug, PartialEq, Eq, Structural)]
pub struct AcceptLoop {
    /// What it does next.
    pub phase: AcceptPhase,
    /// How long it does nothing after the next failure.
    pub backoff: Duration,
    /// How many connections it serves at once.
    pub max_connections: usize,
}

/// The wait after another failure: twice as long, up to a bound.
pub open spec fn next_backoff(backoff: int) -> int {
    if backoff * 2 < MAX_ACCEPT_BACKOFF_NANOS {
        backoff * 2
    } else {
        MAX_ACCEPT_BACKOFF_NANOS as int
    }
}

impl AcceptLoop {
    /// The wait never leaves its bounds.
    pub open spec fn valid(&self) -> bool {
        INITIAL_ACCEPT_BACKOFF_NANOS <= self.backoff@ <= MAX_ACCEPT_BACKOFF_NANOS
    }

    /// Before the first connection.
    pub fn new(max_connections: usize) -> (accept: AcceptLoop)
        ensures
            accept.valid(),
            accept.phase == AcceptPhase::Wait,
            accept.backoff@ == INITIAL_ACCEPT_BACKOFF_NANOS,
            accept.max_connections == max_connections,
    {
        AcceptLoop {
            phase: AcceptPhase::Wait,
            backoff: Duration::from_nanos(INITIAL_ACCEPT_BACKOFF_NANOS),
            max_connections,
        }
    }

    /// What the listener waits for with so many connections. At its limit it
    /// accepts none.
    pub fn wait(&self, connections: usize) -> (wait: AcceptWait)
        ensures
            wait.accepts == (connections < self.max_connections),
            wait.completes == (connections > 0 || self.max_connections == 0),
    {
        if connections >= self.max_connections {
            AcceptWait { accepts: false, completes: true }
        } else {
            AcceptWait { accepts: true, completes: connections > 0 }
        }
    }

    /// The listener was told to stop.
    pub fn canceled(self) -> (next: AcceptLoop)
        ensures
            next == (AcceptLoop { phase: AcceptPhase::Drain, ..self }),
    {
        AcceptLoop { phase: AcceptPhase::Drain, ..self }
    }

    /// A connection was accepted, or not. A failure that will pass is reported
    /// and followed by a wait; any other ends the listener.
    pub fn accepted(self, outcome: Result<(), Errno>) -> (next: Result<
        (AcceptLoop, Option<ServeError>),
        Error,
    >)
        requires
            self.valid(),
            self.phase == AcceptPhase::Wait,
        ensures
            match outcome {
                Ok(()) => next == Ok::<(AcceptLoop, Option<ServeError>), Error>(
                    (AcceptLoop { phase: AcceptPhase::Configure, ..self }, None),
                ),
                Err(code) => if crate::errno::transient_accept_code(code.code()) {
                    next == Ok::<(AcceptLoop, Option<ServeError>), Error>(
                        (
                            AcceptLoop { phase: AcceptPhase::Backoff(self.backoff), ..self },
                            Some(ServeError::TransientAccept(code)),
                        ),
                    )
                } else {
                    next is Err && next->Err_0@ == ErrorView::Io(code)
                },
            },
    {
        match outcome {
            Ok(()) => Ok((AcceptLoop { phase: AcceptPhase::Configure, ..self }, None)),
            Err(code) => if is_transient_accept_error(code) {
                Ok(
                    (
                        AcceptLoop { phase: AcceptPhase::Backoff(self.backoff), ..self },
                        Some(ServeError::TransientAccept(code)),
                    ),
                )
            } else {
                Err(Error::Io(code))
            },
        }
    }

    /// The accepted socket was configured, or not. A failure is reported; only
    /// one for want of resources is followed by a wait.
    pub fn configured(self, outcome: Result<(), Errno>) -> (next: (AcceptLoop, Option<ServeError>))
        requires
            self.valid(),
            self.phase == AcceptPhase::Configure,
        ensures
            next.0.valid(),
            next.0.max_connections == self.max_connections,
            match outcome {
                Ok(()) => {
                    &&& next.0.phase == AcceptPhase::Serve
                    &&& next.0.backoff@ == INITIAL_ACCEPT_BACKOFF_NANOS
                    &&& next.1 is None
                },
                Err(code) => {
                    &&& next.0.phase == if crate::errno::resource_pressure_code(code.code()) {
                        AcceptPhase::Backoff(self.backoff)
                    } else {
                        AcceptPhase::Wait
                    }
                    &&& next.0.backoff == self.backoff
                    &&& next.1 == Some(ServeError::ConnectionSetup(code))
                },
            },
    {
        match outcome {
            Ok(()) => (
                AcceptLoop {
                    phase: AcceptPhase::Serve,
                    backoff: Duration::from_nanos(INITIAL_ACCEPT_BACKOFF_NANOS),
                    ..self
                },
                None,
            ),
            Err(code) => {
                let phase = if is_resource_pressure(code) {
                    AcceptPhase::Backoff(self.backoff)
                } else {
                    AcceptPhase::Wait
                };
                (AcceptLoop { phase, ..self }, Some(ServeError::ConnectionSetup(code)))
            },
        }
    }

    /// The socket is being served.
    pub fn served(self) -> (next: AcceptLoop)
        requires
            self.phase == AcceptPhase::Serve,
        ensures
            next == (AcceptLoop { phase: AcceptPhase::Wait, ..self }),
    {
        AcceptLoop { phase: AcceptPhase::Wait, ..self }
    }

    /// The wait after a failure is over, or the listener was told to stop.
    pub fn backed_off(self, canceled: bool) -> (next: AcceptLoop)
        requires
            self.valid(),
            self.phase is Backoff,
        ensures
            next.valid(),
            next.max_connections == self.max_connections,
            if canceled {
                next.phase == AcceptPhase::Drain && next.backoff == self.backoff
            } else {
                next.phase == AcceptPhase::Wait && next.backoff@ == next_backoff(self.backoff@)
            },
    {
        if canceled {
            return AcceptLoop { phase: AcceptPhase::Drain, ..self };
        }
        let backoff = self.backoff.saturating_mul(2).shorter(
            Duration::from_nanos(MAX_ACCEPT_BACKOFF_NANOS),
        );
        AcceptLoop { phase: AcceptPhase::Wait, backoff, ..self }
    }
}

/// What a connection that ended is reported as. While the server shuts down a
/// connection that was canceled for that reason is not reported.
pub fn report_connection_result(
    completed: Result<Result<(), Error>, TaskHandleError>,
    shutting_down: bool,
) -> (report: Option<ServeError>)
    ensures
        match completed {
            Ok(Ok(())) => report is None,
            Ok(Err(error)) => if error is Canceled && shutting_down {
                report is None
            } else {
                report == Some(ServeError::Connection(error))
            },
            Err(TaskHandleError::Canceled) => report == Some(ServeError::ConnectionTaskCanceled),
            Err(TaskHandleError::Panic(payload)) => report == Some(
                ServeError::ConnectionTaskPanicked(payload),
            ),
        },
{
    match completed {
        Ok(Ok(())) => None,
        Ok(Err(Error::Canceled)) => if shutting_down {
            None
        } else {
            Some(ServeError::Connection(Error::Canceled))
        },
        Ok(Err(error)) => Some(ServeError::Connection(error)),
        Err(TaskHandleError::Canceled) => Some(ServeError::ConnectionTaskCanceled),
        Err(TaskHandleError::Panic(payload)) => Some(ServeError::ConnectionTaskPanicked(payload)),
    }
}

/// Until when a server that stops waits for its connections. `None` means that
/// the clock does not reach that far.
pub fn drain_deadline(now: Instant, timeout: Duration) -> (deadline: Option<Instant>)
    ensures
        match deadline {
            Some(deadline) => crate::time::instant_after(now@, timeout@) == Some(deadline@),
            None => crate::time::instant_after(now@, timeout@) is None,
        },
{
    now.checked_add(timeout)
}

/// How a server waits for its connections to end.
#[derive(Clone, Copy, Debug, PartialEq, Eq, Structural)]
pub enum DrainPhase {
    /// Until a deadline.
    Graceful,
    /// After its handlers were told to stop.
    Forced,
    /// They all ended.
    Done,
}

/// What follows an event while connections end. The deadline counts once; it
/// tells the handlers to stop.
pub fn drain_step(phase: DrainPhase, connections: usize, deadline_passed: bool) -> (next: DrainPhase)
    ensures
        next == if connections == 0 || phase == DrainPhase::Done {
            DrainPhase::Done
        } else if phase == DrainPhase::Graceful && deadline_passed {
            DrainPhase::Forced
        } else {
            phase
        },
{
    if connections == 0 {
        return DrainPhase::Done;
    }
    match phase {
        DrainPhase::Graceful => if deadline_passed {
            DrainPhase::Forced
        } else {
            DrainPhase::Graceful
        },
        DrainPhase::Forced => DrainPhase::Forced,
        DrainPhase::Done => DrainPhase::Done,
    }
}

/// Until when a connection that was shut down is read to its end.
pub fn linger_deadline(now: Instant) -> (deadline: Option<Instant>)
    ensures
        match deadline {
            Some(deadline) => crate::time::instant_after(now@, LINGER_NANOS as int) == Some(
                deadline@,
            ),
            None => crate::time::instant_after(now@, LINGER_NANOS as int) is None,
        },
{
    now.checked_add(Duration::from_nanos(LINGER_NANOS))
}

/// What a connection ends with: its own failure, or else that of its shutdown.
pub fn connection_outcome(served: Result<(), Error>, shutdown: Result<(), Error>) -> (outcome: Result<
    (),
    Error,
>)
    ensures
        outcome == if served is Err {
            served
        } else {
            shutdown
        },
{
    match served {
        Err(error) => Err(error),
        Ok(()) => shutdown,
    }
}

/// The wait after failures doubles until it reaches its bound, where it stays.
pub open spec fn backoff_after(failures: nat) -> int
    decreases failures,
{
    if failures == 0 {
        INITIAL_ACCEPT_BACKOFF_NANOS as int
    } else {
        next_backoff(backoff_after((failures - 1) as nat))
    }
}

/// However many failures follow one another, the wait stays between its first
/// value and its bound, and it never gets shorter; from the seventh failure on
/// it is the bound.
pub proof fn backoff_is_bounded(failures: nat)
    ensures
        INITIAL_ACCEPT_BACKOFF_NANOS <= backoff_after(failures) <= MAX_ACCEPT_BACKOFF_NANOS,
        backoff_after(failures) <= backoff_after(failures + 1),
        failures >= 7 ==> backoff_after(failures) == MAX_ACCEPT_BACKOFF_NANOS,
    decreases failures,
{
    reveal_with_fuel(backoff_after, 9);
    if failures > 7 {
        backoff_is_bounded((failures - 1) as nat);
    }
}

/// A failure for want of resources is always followed by a wait, wherever it
/// happens.
pub proof fn pressure_is_always_waited_out(code: int)
    requires
        crate::errno::resource_pressure_code(code),
    ensures
        crate::errno::transient_accept_code(code),
{
}

/// A listener takes connections while it serves fewer than it may, and waits for
/// connections to end only when there are some, or when it may serve none.
pub proof fn listeners_stay_within_their_limit(
    max_connections: usize,
    accept: AcceptLoop,
    connections: usize,
    wait: AcceptWait,
)
    requires
        call_ensures(AcceptLoop::new, (max_connections,), accept),
        call_ensures(AcceptLoop::wait, (&accept, connections), wait),
    ensures
        accept.phase == AcceptPhase::Wait,
        wait.accepts <==> connections < max_connections,
        connections > 0 ==> wait.completes,
        connections == 0 && max_connections > 0 ==> !wait.completes,
{
}

/// A connection that was accepted is configured and then served. A failure to
/// accept that will pass is reported and waited out, any other ends the
/// listener; a failure to configure is reported, and waited out only when it
/// comes for want of resources. Success ends a row of failures.
pub proof fn listeners_survive_what_passes(
    waiting: AcceptLoop,
    configuring: AcceptLoop,
    serving: AcceptLoop,
    errno: Errno,
    flags: (bool, bool),
    accepted: (Result<(AcceptLoop, Option<ServeError>), Error>, Result<(AcceptLoop, Option<ServeError>), Error>),
    configured: ((AcceptLoop, Option<ServeError>), (AcceptLoop, Option<ServeError>)),
    served: AcceptLoop,
)
    requires
        call_ensures(crate::errno::is_transient_accept_error, (errno,), flags.0),
        call_ensures(crate::errno::is_resource_pressure, (errno,), flags.1),
        call_ensures(AcceptLoop::accepted, (waiting, Ok(())), accepted.0),
        call_ensures(AcceptLoop::accepted, (waiting, Err(errno)), accepted.1),
        call_ensures(AcceptLoop::configured, (configuring, Ok(())), configured.0),
        call_ensures(AcceptLoop::configured, (configuring, Err(errno)), configured.1),
        call_ensures(AcceptLoop::served, (serving,), served),
    ensures
        accepted.0 matches Ok((next, report)) && next.phase == AcceptPhase::Configure && report
            is None && next.backoff == waiting.backoff,
        flags.0 ==> (accepted.1 matches Ok((next, report)) && next.phase == AcceptPhase::Backoff(
            waiting.backoff,
        ) && report == Some(ServeError::TransientAccept(errno))),
        !flags.0 ==> (accepted.1 matches Err(error) && error@ == ErrorView::Io(errno)),
        configured.0.0.phase == AcceptPhase::Serve && configured.0.1 is None,
        configured.0.0.backoff@ == 10_000_000,
        configured.1.0.phase == if flags.1 {
            AcceptPhase::Backoff(configuring.backoff)
        } else {
            AcceptPhase::Wait
        },
        configured.1.1 == Some(ServeError::ConnectionSetup(errno)),
        served.phase == AcceptPhase::Wait && served.backoff == serving.backoff,
{
}

/// After each failure in a row the listener waits twice as long, up to a second;
/// told to stop it lets its connections end.
pub proof fn waits_double_up_to_a_second(
    backing: AcceptLoop,
    nexts: (AcceptLoop, AcceptLoop, AcceptLoop),
)
    requires
        call_ensures(AcceptLoop::backed_off, (backing, false), nexts.0),
        call_ensures(AcceptLoop::backed_off, (backing, true), nexts.1),
        call_ensures(AcceptLoop::canceled, (backing,), nexts.2),
    ensures
        nexts.0.phase == AcceptPhase::Wait,
        backing.backoff@ * 2 <= 1_000_000_000 ==> nexts.0.backoff@ == backing.backoff@ * 2,
        backing.backoff@ * 2 > 1_000_000_000 ==> nexts.0.backoff@ == 1_000_000_000,
        nexts.1.phase == AcceptPhase::Drain && nexts.2.phase == AcceptPhase::Drain,
        nexts.0.max_connections == backing.max_connections && nexts.1.max_connections
            == backing.max_connections && nexts.2.max_connections == backing.max_connections,
{
}

/// A connection that ended well is not reported, one that failed is, with its
/// failure, unless the server itself canceled it to stop.
pub proof fn failed_connections_are_reported(
    error: Error,
    stopping: bool,
    payload: PanicPayload,
    reports: (Option<ServeError>, Option<ServeError>, Option<ServeError>, Option<ServeError>),
)
    requires
        call_ensures(report_connection_result, (Ok(Ok(())), stopping), reports.0),
        call_ensures(report_connection_result, (Ok(Err(error)), stopping), reports.1),
        call_ensures(
            report_connection_result,
            (Err(TaskHandleError::Canceled), stopping),
            reports.2,
        ),
        call_ensures(
            report_connection_result,
            (Err(TaskHandleError::Panic(payload)), stopping),
            reports.3,
        ),
    ensures
        reports.0 is None,
        reports.1 is None <==> error@ is Canceled && stopping,
        reports.1 is Some ==> reports.1 == Some(ServeError::Connection(error)),
        reports.2 == Some(ServeError::ConnectionTaskCanceled),
        reports.3 == Some(ServeError::ConnectionTaskPanicked(payload)),
{
}

/// A server that stops waits for its connections: gracefully until the deadline,
/// then after telling their handlers to stop, and is done once none is left.
pub proof fn stopping_waits_for_connections(
    phase: DrainPhase,
    connections: usize,
    passed: bool,
    next: DrainPhase,
    now: Instant,
    timeout: Duration,
    deadlines: (Option<Instant>, Option<Instant>),
)
    requires
        call_ensures(drain_step, (phase, connections, passed), next),
        call_ensures(drain_deadline, (now, timeout), deadlines.0),
        call_ensures(linger_deadline, (now,), deadlines.1),
    ensures
        next == DrainPhase::Done <==> connections == 0 || phase == DrainPhase::Done,
        connections > 0 && phase == DrainPhase::Graceful ==> next == if passed {
            DrainPhase::Forced
        } else {
            DrainPhase::Graceful
        },
        connections > 0 && phase == DrainPhase::Forced ==> next == DrainPhase::Forced,
        deadlines.0 matches Some(deadline) ==> deadline@ == now@ + timeout@,
        deadlines.1 matches Some(deadline) ==> deadline@ == now@ + 250_000_000,
{
}

/// A connection ends with its own failure, and with that of its shutdown only
/// when it had none.
pub proof fn connections_end_with_their_first_failure(
    served: Error,
    shutdown: Result<(), Error>,
    outcomes: (Result<(), Error>, Result<(), Error>),
)
    requires
        call_ensures(connection_outcome, (Err(served), shutdown), outcomes.0),
        call_ensures(connection_outcome, (Ok(()), shutdown), outcomes.1),
    ensures
        outcomes.0 == Err::<(), Error>(served),
        outcomes.1 == shutdown,
{
}

/// A builder keeps its address and changes what it is told to, and a server has
/// the address and the configuration that it was made with.
pub proof fn servers_are_built_as_told<A>(
    address: A,
    config: ServerConfig,
    limits: Limits,
    numbers: (u32, usize),
    timeouts: (Duration, Duration),
    builders: (
        ServerBuilder<A>,
        ServerBuilder<A>,
        ServerBuilder<A>,
        ServerBuilder<A>,
        ServerBuilder<A>,
        ServerBuilder<A>,
        ServerBuilder<A>,
    ),
    now: Instant,
    built: Result<(A, ServerConfig), Error>,
)
    requires
        call_ensures(ServerBuilder::<A>::new, (address,), builders.0),
        call_ensures(ServerBuilder::<A>::config, (builders.0, config), builders.1),
        call_ensures(ServerBuilder::<A>::limits, (builders.1, limits), builders.2),
        call_ensures(ServerBuilder::<A>::listen_backlog, (builders.2, numbers.0), builders.3),
        call_ensures(
            ServerBuilder::<A>::connection_io_timeout,
            (builders.3, timeouts.0),
            builders.4,
        ),
        call_ensures(
            ServerBuilder::<A>::graceful_shutdown_timeout,
            (builders.4, timeouts.1),
            builders.5,
        ),
        call_ensures(ServerBuilder::<A>::max_connections, (builders.5, numbers.1), builders.6),
        call_ensures(ServerBuilder::<A>::build, (builders.6, now), built),
    ensures
        built matches Ok((bound, made)) ==> {
            &&& bound == address
            &&& made@.limits == limits
            &&& made@.listen_backlog == numbers.0
            &&& made@.max_connections == numbers.1
            &&& made@.connection_io_timeout == timeouts.0
            &&& made@.graceful_shutdown_timeout == timeouts.1
            &&& made@.tls == config@.tls
        },
{
}

/// The words of a panic are those that it carried, and reports carry what they
/// report.
pub proof fn reports_carry_what_they_report(
    payload: &PanicPayload,
    message: &str,
    error: Error,
    panic: PanicPayload,
    texts: (String, String, String),
    payloads: (Option<&PanicPayload>, Option<&PanicPayload>, Option<&PanicPayload>),
    sources: (Option<&Error>, Option<&Error>, Option<&Error>, Option<&Error>),
)
    requires
        call_ensures(panic_message, (payload,), message),
        call_ensures(ServeError::to_text, (&ServeError::ConnectionTaskCanceled,), texts.0),
        call_ensures(ServeError::to_text, (&ServeError::ConnectionTaskPanicked(panic),), texts.1),
        call_ensures(ServeError::to_text, (&ServeError::HandlerPanicked(panic),), texts.2),
        call_ensures(
            ServeError::panic_payload,
            (&ServeError::ConnectionTaskPanicked(panic),),
            payloads.0,
        ),
        call_ensures(
            ServeError::panic_payload,
            (&ServeError::HandlerPanicked(panic),),
            payloads.1,
        ),
        call_ensures(ServeError::panic_payload, (&ServeError::Connection(error),), payloads.2),
        call_ensures(ServeError::source, (&ServeError::Connection(error),), sources.0),
        call_ensures(ServeError::source, (&ServeError::ResponseBody(error),), sources.1),
        call_ensures(ServeError::source, (&ServeError::ResponseTrailers(error),), sources.2),
        call_ensures(ServeError::source, (&ServeError::ConnectionTaskCanceled,), sources.3),
    ensures
        payload.message matches Some(words) ==> message@ == words@,
        payload.message is None ==> message@ == "<non-string panic payload>"@,
        texts.0@ == "HTTP connection task canceled"@,
        panic.message matches Some(words) ==> texts.1@ == "HTTP connection task panicked: "@
            + words@ && texts.2@ == "HTTP/2 request handler or trailer callback panicked: "@
            + words@,
        payloads.0 matches Some(told) && *told == panic,
        payloads.1 matches Some(told) && *told == panic,
        payloads.2 is None,
        sources.0 matches Some(told) && *told == error,
        sources.1 matches Some(told) && *told == error,
        sources.2 matches Some(told) && *told == error,
        sources.3 is None,
{
}

/// The report on a connection that failed holds the words of its error.
pub proof fn reports_on_connections_hold_their_words(error: Error, text: String)
    requires
        call_ensures(ServeError::to_text, (&ServeError::Connection(error),), text),
    ensures
        "HTTP connection failed: "@.is_prefix_of(text@),
        error@.described_by(text@.skip("HTTP connection failed: "@.len() as int)),
{
    let prefix = "HTTP connection failed: "@;
    assert(ServeError::Connection(error).described_by(text@));
    let words = choose|words: Seq<char>|
        text@ == #[trigger] (prefix + words) && error@.described_by(words);
    assert(text@.subrange(0, prefix.len() as int) =~= prefix);
    assert(text@.skip(prefix.len() as int) =~= words);
}

/// A server has the address, the listener and the settings that it was given.
pub proof fn servers_have_what_they_were_given<L, A>(
    address: A,
    config: ServerConfig,
    tls: TlsServerConfig,
    builders: (ServerBuilder<A>, ServerBuilder<A>, ServerBuilder<A>),
    read: &A,
    listener: L,
    server: Server<L, A>,
    local: &A,
    told: &ServerConfig,
    parts: (L, ServerConfig),
)
    requires
        call_ensures(Server::<L, A>::builder, (address,), builders.0),
        call_ensures(ServerBuilder::<A>::config, (builders.0, config), builders.1),
        call_ensures(ServerBuilder::<A>::tls, (builders.1, tls), builders.2),
        call_ensures(ServerBuilder::<A>::address, (&builders.2,), read),
        call_ensures(Server::<L, A>::from_listener, (listener, address, config), server),
        call_ensures(Server::<L, A>::local_addr, (&server,), local),
        call_ensures(Server::<L, A>::config, (&server,), told),
        call_ensures(Server::<L, A>::into_parts, (server,), parts),
    ensures
        *read == address,
        builders.2.configured() == (ServerConfigView { tls: Some(tls), ..config@ }),
        *local == address && told@ == config@,
        parts.0 == listener && parts.1@ == config@,
{
}

} // verus!
