use vstd::prelude::*;

use crate::error::AriadneErrors;
use crate::settings::Settings;

verus! {

/// What parse_duration::parse makes of a duration string: whole seconds
/// and subsecond nanoseconds, or None where the string is unparsable. The
/// result depends on the string alone.
pub uninterp spec fn parsed_interval_of(s: Seq<char>) -> Option<(u64, u32)>;

/// Relies on parse_duration::parse: parses a human duration string ("5s",
/// "2 minutes") into seconds and nanoseconds; the result depends on the
/// string alone.
#[verifier::external_body]
fn parse_frequency(frequency: &str) -> (r: Option<(u64, u32)>)
    ensures
        r == parsed_interval_of(frequency@),
{
    match parse_duration::parse(frequency) {
        Ok(d) => Some((d.as_secs(), d.subsec_nanos())),
        Err(_) => None,
    }
}

/// How long the scheduler waits between two ticks. A meaningful interval
/// is positive: a zero interval is rejected at startup.
#[derive(Debug, Clone, Copy, PartialEq, Eq, Structural)]
pub struct FlushInterval {
    pub secs: u64,
    pub nanos: u32,
}

impl FlushInterval {
    /// A usable interval is strictly longer than zero.
    pub open spec fn is_positive(&self) -> bool {
        self.secs > 0 || self.nanos > 0
    }
}

/// Parses the configured batching frequency into a flush interval. An
/// unparsable or zero duration is a configuration error, fatal at startup;
/// nothing else is.
pub fn saving_interval(frequency: &str) -> (r: Result<FlushInterval, AriadneErrors>)
    ensures
        match parsed_interval_of(frequency@) {
            None => r == Err::<FlushInterval, AriadneErrors>(AriadneErrors::Configuration),
            Some(d) => if d.0 == 0 && d.1 == 0 {
                r == Err::<FlushInterval, AriadneErrors>(AriadneErrors::Configuration)
            } else {
                r == Ok::<FlushInterval, AriadneErrors>(FlushInterval { secs: d.0, nanos: d.1 })
            },
        },
        r matches Ok(interval) ==> interval.is_positive(),
{
    match parse_frequency(frequency) {
        Some(d) => {
            let (secs, nanos) = d;
            if secs == 0 && nanos == 0 {
                Err(AriadneErrors::Configuration)
            } else {
                Ok(FlushInterval { secs, nanos })
            }
        },
        None => Err(AriadneErrors::Configuration),
    }
}

/// The saving scheduler's bookkeeping: the fixed interval its timer fires
/// at, and whether a tick is in flight right now. Ticks must never
/// overlap: the timer loop asks `try_begin_tick` before each tick and is
/// granted one only while none is running, so at most one is ever in
/// flight.
pub struct Scheduler {
    interval: FlushInterval,
    tick_in_flight: bool,
}

impl Scheduler {
    /// The fixed interval between two timer firings.
    pub closed spec fn interval(&self) -> FlushInterval {
        self.interval
    }

    /// Whether a tick is running right now.
    pub closed spec fn tick_in_flight(&self) -> bool {
        self.tick_in_flight
    }

    /// A fresh scheduler: nothing is in flight yet.
    pub fn new(interval: FlushInterval) -> (s: Scheduler)
        requires
            interval.is_positive(),
        ensures
            s.interval() == interval,
            !s.tick_in_flight(),
    {
        Scheduler { interval, tick_in_flight: false }
    }

    /// The interval's parts, for handing to a timer.
    pub fn interval_parts(&self) -> (r: (u64, u32))
        ensures
            r == (self.interval().secs, self.interval().nanos),
    {
        (self.interval.secs, self.interval.nanos)
    }

    /// Asks to run a tick when the timer fires. The request is granted
    /// exactly when no tick is in flight; a deferred tick is simply not
    /// run, and the records it would have flushed wait for the next one.
    pub fn try_begin_tick(&mut self) -> (granted: bool)
        ensures
            granted == !old(self).tick_in_flight(),
            final(self).tick_in_flight(),
            final(self).interval() == old(self).interval(),
    {
        let granted = !self.tick_in_flight;
        self.tick_in_flight = true;
        granted
    }

    /// Marks the granted tick complete, letting the next timer firing run
    /// one again.
    pub fn finish_tick(&mut self)
        requires
            old(self).tick_in_flight(),
        ensures
            !final(self).tick_in_flight(),
            final(self).interval() == old(self).interval(),
    {
        self.tick_in_flight = false;
    }
}

/// Builds the saving scheduler from the configured batching frequency. An
/// unparsable or zero frequency is a startup-fatal configuration error,
/// the only error the core ever raises to its caller.
pub fn register_saving_scheduler(config: &Settings) -> (r: Result<Scheduler, AriadneErrors>)
    ensures
        match parsed_interval_of(config.database.batching_frequency@) {
            None => r == Err::<Scheduler, AriadneErrors>(AriadneErrors::Configuration),
            Some(d) => if d.0 == 0 && d.1 == 0 {
                r == Err::<Scheduler, AriadneErrors>(AriadneErrors::Configuration)
            } else {
                r matches Ok(s) && s.interval() == (FlushInterval { secs: d.0, nanos: d.1 })
                    && !s.tick_in_flight()
            },
        },
{
    match saving_interval(self_str(&config.database.batching_frequency)) {
        Ok(interval) => Ok(Scheduler::new(interval)),
        Err(e) => Err(e),
    }
}

/// A borrowed view of a string, for handing a `String` field to a `&str`
/// parameter.
fn self_str(s: &String) -> (r: &str)
    ensures
        r@ == s@,
{
    s.as_str()
}

} // verus!
