//! Options of the per-thread runtime.

use vstd::prelude::*;

use crate::time::Duration;

verus! {

/// Whether the event loop polls for completed I/O instead of sleeping.
#[derive(Clone, Copy, Debug, PartialEq, Eq, Structural)]
pub enum BusyPoll {
    /// Always suspend the thread until I/O completes.
    Never,
    /// Never suspend the thread.
    Always,
    /// Poll for the given time, then suspend.
    Until(Duration),
}

impl Default for BusyPoll {
    fn default() -> (busy_poll: BusyPoll)
        ensures
            busy_poll == BusyPoll::Never,
    {
        BusyPoll::Never
    }
}

impl From<Option<Duration>> for BusyPoll {
    fn from(limit: Option<Duration>) -> (busy_poll: BusyPoll) {
        match limit {
            None => BusyPoll::Never,
            Some(limit) => BusyPoll::Until(limit),
        }
    }
}

impl vstd::std_specs::convert::FromSpecImpl<Option<Duration>> for BusyPoll {
    open spec fn obeys_from_spec() -> bool {
        true
    }

    open spec fn from_spec(limit: Option<Duration>) -> BusyPoll {
        match limit {
            None => BusyPoll::Never,
            Some(limit) => BusyPoll::Until(limit),
        }
    }
}

/// Options of the runtime: where it writes its trace, how it waits for I/O and
/// which clock it reads.
#[derive(Debug)]
pub struct Configuration<T, C> {
    /// Receives trace events, when tracing is wanted.
    pub trace_buffer_manager: Option<T>,
    /// How the event loop waits.
    pub busy_poll: BusyPoll,
    /// The clock behind every deadline, when it is not the system clock.
    pub clock: Option<C>,
}

impl<T, C> Configuration<T, C> {
    /// Creates a configuration with no tracing, no busy polling and the system
    /// clock.
    pub fn new() -> (configuration: Configuration<T, C>)
        ensures
            configuration.trace_buffer_manager is None,
            configuration.busy_poll == BusyPoll::Never,
            configuration.clock is None,
    {
        Configuration { trace_buffer_manager: None, busy_poll: BusyPoll::Never, clock: None }
    }

    /// Sets the receiver of trace events.
    pub fn set_trace_buffer_manager(self, trace_buffer_manager: T) -> (configuration:
        Configuration<T, C>)
        ensures
            configuration.trace_buffer_manager == Some(trace_buffer_manager),
            configuration.busy_poll == self.busy_poll,
            configuration.clock == self.clock,
    {
        Configuration { trace_buffer_manager: Some(trace_buffer_manager), ..self }
    }

    /// Sets how the event loop waits.
    pub fn set_busy_poll(self, busy_poll: BusyPoll) -> (configuration: Configuration<T, C>)
        ensures
            configuration.trace_buffer_manager == self.trace_buffer_manager,
            configuration.busy_poll == busy_poll,
            configuration.clock == self.clock,
    {
        Configuration { busy_poll, ..self }
    }

    /// Sets the clock behind every deadline.
    pub fn set_clock(self, clock: C) -> (configuration: Configuration<T, C>)
        ensures
            configuration.trace_buffer_manager == self.trace_buffer_manager,
            configuration.busy_poll == self.busy_poll,
            configuration.clock == Some(clock),
    {
        Configuration { clock: Some(clock), ..self }
    }
}

impl<T, C> Default for Configuration<T, C> {
    fn default() -> (configuration: Configuration<T, C>)
        ensures
            configuration.trace_buffer_manager is None,
            configuration.busy_poll == BusyPoll::Never,
            configuration.clock is None,
    {
        Configuration::new()
    }
}

/// An option that is set is the option of the runtime, in whatever order the
/// options are set; without any the runtime neither traces nor polls and goes by
/// the system's clock.
pub proof fn options_are_what_was_set<T, C>(
    tracer: T,
    busy_poll: BusyPoll,
    clock: C,
    limit: Option<Duration>,
    made: Configuration<T, C>,
    set: (Configuration<T, C>, Configuration<T, C>, Configuration<T, C>),
    other: (Configuration<T, C>, Configuration<T, C>, Configuration<T, C>),
    polls: BusyPoll,
)
    requires
        call_ensures(Configuration::<T, C>::new, (), made),
        call_ensures(Configuration::<T, C>::set_clock, (made, clock), set.0),
        call_ensures(Configuration::<T, C>::set_busy_poll, (set.0, busy_poll), set.1),
        call_ensures(Configuration::<T, C>::set_trace_buffer_manager, (set.1, tracer), set.2),
        call_ensures(Configuration::<T, C>::set_trace_buffer_manager, (made, tracer), other.0),
        call_ensures(Configuration::<T, C>::set_busy_poll, (other.0, busy_poll), other.1),
        call_ensures(Configuration::<T, C>::set_clock, (other.1, clock), other.2),
        call_ensures(<BusyPoll as From<Option<Duration>>>::from, (limit,), polls),
    ensures
        made.trace_buffer_manager is None && made.busy_poll is Never && made.clock is None,
        set.0.trace_buffer_manager is None && set.0.busy_poll is Never,
        set.1.trace_buffer_manager is None,
        set.2 == other.2,
        set.2.trace_buffer_manager == Some(tracer) && set.2.busy_poll == busy_poll && set.2.clock
            == Some(clock),
        limit matches Some(span) ==> polls == BusyPoll::Until(span),
        limit is None ==> polls is Never,
{
}

} // verus!
