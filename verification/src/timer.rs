use vstd::prelude::*;

use crate::probe::cpuid_leaf;

verus! {

/// Relies on tick_counter::x86_64_tick_counter: reads the hardware cycle
/// counter with the RDTSC instruction. The value depends on when the read
/// executes, so nothing is promised of it.
#[verifier::external_body]
fn read_counter() -> u64 {
    tick_counter::x86_64_tick_counter()
}

/// Relies on tick_counter::x86_64_processor_id: reads the hardware cycle
/// counter with the RDTSCP instruction, which orders itself after all
/// preceding instructions, and also reports the id of the processor the read
/// ran on. Both values depend on when and where the read executes, so nothing
/// is promised of them.
#[verifier::external_body]
fn read_counter_with_id() -> (u64, u32) {
    tick_counter::x86_64_processor_id()
}

/// Relies on std::hint::black_box: returns its argument unchanged while
/// hindering the optimizer from deleting the computation that produced it.
#[verifier::external_body]
fn opaque_u64(x: u64) -> (r: u64)
    ensures
        r == x,
{
    std::hint::black_box(x)
}

/// Start time instant: a raw counter value captured at the beginning of a
/// timed region, after a serializing instruction has drained the pipeline.
pub struct Start {
    value: u64,
}

impl View for Start {
    type V = u64;

    closed spec fn view(&self) -> u64 {
        self.value
    }
}

impl Start {
    /// Start measurement: serialize the pipeline with CPUID, then read the
    /// counter with RDTSC. The captured value depends on when the call runs,
    /// so no contract ties it down.
    pub fn now() -> Start {
        let _serialize: (u32, u32, u32, u32) = cpuid_leaf(0);
        let value: u64 = read_counter();
        Start { value }
    }

    /// A start instant with a chosen raw counter value, so that the
    /// subtraction rules can be exercised without the hardware counter.
    pub fn from_raw(value: u64) -> (r: Start)
        ensures
            r@ == value,
    {
        Start { value }
    }
}

/// Stop time instant: a raw counter value captured at the end of a timed
/// region by a counter read that orders itself after all preceding
/// instructions, followed by a trailing serializing instruction.
pub struct Stop {
    value: u64,
}

impl View for Stop {
    type V = u64;

    closed spec fn view(&self) -> u64 {
        self.value
    }
}

impl Stop {
    /// Stop measurement: read the counter with RDTSCP (discarding the
    /// processor id it reports), then serialize with CPUID so that later
    /// bookkeeping cannot be reordered ahead of the read. The captured value
    /// depends on when the call runs, so no contract ties it down.
    pub fn now() -> Stop {
        let (value, _processor_id): (u64, u32) = read_counter_with_id();
        let _serialize: (u32, u32, u32, u32) = cpuid_leaf(0);
        Stop { value }
    }

    /// A stop instant with a chosen raw counter value, so that the
    /// subtraction rules can be exercised without the hardware counter.
    pub fn from_raw(value: u64) -> (r: Stop)
        ensures
            r@ == value,
    {
        Stop { value }
    }

    /// The duration between a start instant and this stop instant.
    ///
    /// A stop value at or below the start value would indicate counter
    /// wraparound or a capture-ordering bug, so that case is ruled out by
    /// precondition.
    pub fn minus(self, start: Start) -> (r: Duration)
        requires
            start@ < self@,
        ensures
            r@ == self@ - start@,
    {
        Duration { value: self.value - start.value }
    }

    /// The duration between a start instant and this stop instant, or `None`
    /// exactly when the stop value is not strictly above the start value.
    pub fn checked_minus(self, start: Start) -> (r: Option<Duration>)
        ensures
            (r is Some) <==> start@ < self@,
            r matches Some(d) ==> d@ == self@ - start@,
    {
        if start.value < self.value {
            Some(Duration { value: self.value - start.value })
        } else {
            None
        }
    }
}

/// Duration between two time instants, as a count of reference cycles.
#[derive(Copy, Clone, PartialEq, Eq, Structural, PartialOrd, Ord, Hash)]
pub struct Duration {
    value: u64,
}

impl View for Duration {
    type V = u64;

    closed spec fn view(&self) -> u64 {
        self.value
    }
}

impl Duration {
    /// Number of clock cycles.
    pub fn cycles(self) -> (r: u64)
        ensures
            r == self@,
    {
        self.value
    }

    /// A duration of a chosen cycle count, so that the arithmetic can be
    /// exercised without the hardware counter.
    pub fn from_cycles(cycles: u64) -> (r: Duration)
        ensures
            r@ == cycles,
    {
        Duration { value: cycles }
    }

    /// The difference of two durations.
    ///
    /// A subtrahend at or above the minuend would wrap, so that case is ruled
    /// out by precondition.
    pub fn minus(self, other: Duration) -> (r: Duration)
        requires
            other@ < self@,
        ensures
            r@ == self@ - other@,
    {
        Duration { value: self.value - other.value }
    }

    /// The difference of two durations, or `None` exactly when the subtrahend
    /// is not strictly below the minuend. Subtracting a duration from an equal
    /// duration is not a valid case, and is answered with `None`.
    pub fn checked_minus(self, other: Duration) -> (r: Option<Duration>)
        ensures
            (r is Some) <==> other@ < self@,
            r matches Some(d) ==> d@ == self@ - other@,
    {
        if other.value < self.value {
            Some(Duration { value: self.value - other.value })
        } else {
            None
        }
    }

    /// This duration with the measurement overhead taken out, or `None`
    /// exactly when the overhead exceeds the raw duration: a corrected
    /// duration below zero would be a corrupt result, never handed out. An
    /// overhead equal to the raw duration corrects to zero cycles.
    pub fn corrected_by(self, overhead: Duration) -> (r: Option<Duration>)
        ensures
            (r is Some) <==> overhead@ <= self@,
            r matches Some(d) ==> d@ == self@ - overhead@,
    {
        if overhead.value <= self.value {
            Some(Duration { value: self.value - overhead.value })
        } else {
            None
        }
    }

    /// Returns a tuple of the execution duration of the function `f` and its
    /// result.
    ///
    /// The result is exactly what `f` returned, untouched by the timing
    /// instrumentation. The duration is the raw reading with the intrinsic
    /// overhead of the measurement itself ([`Duration::span_overhead`],
    /// recomputed on every call) taken out, as [`Duration::corrected_by`]
    /// states; it is `None` when the counter readings were unusable (an end
    /// reading at or below its begin reading, or an overhead above the raw
    /// duration), so a corrupt cycle count is never handed out.
    pub fn span<R, F: Fn() -> R>(f: F) -> (r: (Option<Duration>, R))
        requires
            call_requires(f, ()),
        ensures
            call_ensures(f, (), r.1),
    {
        let start = Start::now();
        let result = f();
        let stop = Stop::now();
        let raw = stop.checked_minus(start);
        let overhead = Duration::span_overhead();
        match (raw, overhead) {
            (Some(measured), Some(intrinsic)) => (measured.corrected_by(intrinsic), result),
            _ => (None, result),
        }
    }

    /// Returns the overhead that is intrinsic to [`Duration::span`].
    ///
    /// That is, how many cycles it takes to time a no-op: the no-op is a
    /// single opaque copy of a constant, timed with the very begin/end capture
    /// sequence that `span` uses. The overhead is never a negative cycle
    /// count; `None` is answered exactly when the end reading did not advance
    /// past the begin reading.
    pub fn span_overhead() -> (r: Option<Duration>)
        ensures
            r matches Some(d) ==> d@ >= 0,
    {
        let start = Start::now();
        let _noop: u64 = opaque_u64(0);
        let stop = Stop::now();
        stop.checked_minus(start)
    }
}

/// Law: an ordered begin/end pair yields a non-negative cycle count. Whenever
/// a start instant lies strictly below a stop instant — as
/// [`Stop::minus`] and [`Stop::checked_minus`] demand — the difference they
/// hand back is at least zero.
pub proof fn lemma_ordered_pair_nonnegative(a: Start, b: Stop)
    requires
        a@ < b@,
    ensures
        b@ - a@ >= 0,
{
}

} // verus!
