//! Timing of control-loop scopes from profiler events.
//!
//! The caller reads the clock and sends what these functions hand back.
use vstd::prelude::*;
use crate::mode::ProfilerEvent;

verus! {

/// Closed scopes a timing report waits for.
pub const SEND_AT_COUNT: u16 = 120;

/// Every how many occurrences an event is reported on its own.
pub const SAMPLING_RATE: u16 = 40;

/// The timed scopes: the whole loop body, and the loop body in full
/// control. `scope_of(e)` is `(index, whether e opens it)`.
pub open spec fn scope_of(e: ProfilerEvent) -> (int, bool) {
    match e {
        ProfilerEvent::MainLoopStart => (0, true),
        ProfilerEvent::MainLoopStop => (0, false),
        ProfilerEvent::MainLoopFullControlStart => (1, true),
        ProfilerEvent::MainLoopFullControlStop => (1, false),
    }
}

pub open spec fn event_index(e: ProfilerEvent) -> int {
    match e {
        ProfilerEvent::MainLoopStart => 0,
        ProfilerEvent::MainLoopStop => 1,
        ProfilerEvent::MainLoopFullControlStart => 2,
        ProfilerEvent::MainLoopFullControlStop => 3,
    }
}

pub open spec fn scope_start(i: int) -> ProfilerEvent {
    if i == 0 {
        ProfilerEvent::MainLoopStart
    } else {
        ProfilerEvent::MainLoopFullControlStart
    }
}

pub open spec fn scope_stop(i: int) -> ProfilerEvent {
    if i == 0 {
        ProfilerEvent::MainLoopStop
    } else {
        ProfilerEvent::MainLoopFullControlStop
    }
}

/// A scope's total time and pass count after it is closed at `ns`: when it
/// was opened, the time since then is added (modulo 2^64) and a pass is
/// counted; otherwise nothing changes.
pub open spec fn closed_totals(sum: u64, count: u16, opened: Option<u64>, ns: u64) -> (int, int) {
    match opened {
        Some(t) => ((sum + ns - t) % 0x1_0000_0000_0000_0000, count + 1),
        None => (sum as int, count as int),
    }
}

/// A report of the total time spent in a scope over `count` passes.
#[derive(Clone, Copy, Debug, PartialEq, Eq, Structural)]
pub struct TimedScope {
    pub start: ProfilerEvent,
    pub stop: ProfilerEvent,
    pub ns: u64,
    pub count: u16,
}

/// Per scope: passes and nanoseconds since the last report, and when the
/// scope was last opened.
pub struct ProfilerScopes {
    count: [u16; 2],
    sum: [u64; 2],
    last: [Option<u64>; 2],
}

/// Per event: occurrences since it was last reported.
pub struct EventSampler {
    seen: [u16; 4],
}

fn scope_events(i: usize) -> (r: (ProfilerEvent, ProfilerEvent))
    requires
        i < 2,
    ensures
        r.0 == scope_start(i as int),
        r.1 == scope_stop(i as int),
{
    if i == 0 {
        (ProfilerEvent::MainLoopStart, ProfilerEvent::MainLoopStop)
    } else {
        (ProfilerEvent::MainLoopFullControlStart, ProfilerEvent::MainLoopFullControlStop)
    }
}

fn scope_index(e: ProfilerEvent) -> (r: (usize, bool))
    ensures
        (r.0 as int, r.1) == scope_of(e),
{
    match e {
        ProfilerEvent::MainLoopStart => (0, true),
        ProfilerEvent::MainLoopStop => (0, false),
        ProfilerEvent::MainLoopFullControlStart => (1, true),
        ProfilerEvent::MainLoopFullControlStop => (1, false),
    }
}

impl ProfilerScopes {
    pub closed spec fn passes(self) -> Seq<u16> {
        self.count@
    }

    pub closed spec fn total_ns(self) -> Seq<u64> {
        self.sum@
    }

    pub closed spec fn opened_at(self) -> Seq<Option<u64>> {
        self.last@
    }

    pub open spec fn wf(self) -> bool {
        &&& self.passes().len() == 2
        &&& self.total_ns().len() == 2
        &&& self.opened_at().len() == 2
        &&& forall|i: int| 0 <= i < 2 ==> self.passes()[i] < SEND_AT_COUNT
    }

    pub fn new() -> (r: ProfilerScopes)
        ensures
            r.wf(),
            r.passes() == seq![0u16, 0u16],
            r.total_ns() == seq![0u64, 0u64],
            r.opened_at() == seq![None::<u64>, None::<u64>],
    {
        ProfilerScopes { count: [0, 0], sum: [0, 0], last: [None, None] }
    }

    /// Records `event` at time `ns`. Opening a scope notes the time; closing
    /// it adds the time since it was opened and counts a pass. When a scope
    /// reaches its report count its totals are handed back and reset.
    pub fn count_profiling_event(&mut self, event: ProfilerEvent, ns: u64) -> (r: Option<TimedScope>)
        requires
            old(self).wf(),
        ensures
            final(self).wf(),
            ({
                let (i, opens) = scope_of(event);
                let j = 1 - i;
                &&& final(self).passes()[j] == old(self).passes()[j]
                &&& final(self).total_ns()[j] == old(self).total_ns()[j]
                &&& final(self).opened_at()[j] == old(self).opened_at()[j]
                &&& opens ==> {
                    &&& r is None
                    &&& final(self).opened_at()[i] == Some(ns)
                    &&& final(self).passes()[i] == old(self).passes()[i]
                    &&& final(self).total_ns()[i] == old(self).total_ns()[i]
                }
                &&& !opens ==> {
                    let (total, passes) = closed_totals(
                        old(self).total_ns()[i],
                        old(self).passes()[i],
                        old(self).opened_at()[i],
                        ns,
                    );
                    &&& final(self).opened_at()[i] == old(self).opened_at()[i]
                    &&& passes == SEND_AT_COUNT ==> {
                        &&& r == Some(
                            TimedScope {
                                start: scope_start(i),
                                stop: scope_stop(i),
                                ns: total as u64,
                                count: SEND_AT_COUNT,
                            },
                        )
                        &&& final(self).passes()[i] == 0
                        &&& final(self).total_ns()[i] == 0
                    }
                    &&& passes != SEND_AT_COUNT ==> {
                        &&& r is None
                        &&& final(self).passes()[i] == passes
                        &&& final(self).total_ns()[i] == total
                    }
                }
            }),
    {
        let (i, opens) = scope_index(event);
        let (start, stop) = scope_events(i);
        if opens {
            self.last[i] = Some(ns);
            return None;
        }
        match self.last[i] {
            Some(t) => {
                let elapsed = ns.wrapping_sub(t);
                let total = self.sum[i].wrapping_add(elapsed);
                proof {
                    let m = 0x1_0000_0000_0000_0000int;
                    let a = self.sum@[i as int] as int;
                    assert(total as int == (a + ns - t) % m) by {
                        if ns >= t {
                            assert(elapsed as int == ns - t);
                        } else {
                            assert(elapsed as int == ns - t + m);
                        }
                        if a + elapsed >= m {
                            assert(total as int == a + elapsed - m);
                        }
                    }
                }
                self.sum[i] = total;
                self.count[i] = self.count[i] + 1;
            },
            None => {},
        }
        if self.count[i] == SEND_AT_COUNT {
            let report = TimedScope { start, stop, ns: self.sum[i], count: self.count[i] };
            self.count[i] = 0;
            self.sum[i] = 0;
            Some(report)
        } else {
            None
        }
    }
}

impl EventSampler {
    pub closed spec fn seen(self) -> Seq<u16> {
        self.seen@
    }

    pub open spec fn wf(self) -> bool {
        &&& self.seen().len() == 4
        &&& forall|k: int| 0 <= k < 4 ==> self.seen()[k] < SAMPLING_RATE
    }

    pub fn new() -> (r: EventSampler)
        ensures
            r.wf(),
            r.seen() == seq![0u16, 0u16, 0u16, 0u16],
    {
        EventSampler { seen: [0, 0, 0, 0] }
    }

    /// Counts one occurrence of `event`; every fortieth occurrence is to be
    /// reported (the result), and its count starts over.
    pub fn send_profiling_event(&mut self, event: ProfilerEvent) -> (r: bool)
        requires
            old(self).wf(),
        ensures
            final(self).wf(),
            ({
                let k = event_index(event);
                &&& r == (old(self).seen()[k] + 1 == SAMPLING_RATE)
                &&& final(self).seen()[k] == (if r { 0 } else { old(self).seen()[k] + 1 })
                &&& forall|j: int| 0 <= j < 4 && j != k ==> final(self).seen()[j] == old(self).seen()[j]
            }),
    {
        let k: usize = match event {
            ProfilerEvent::MainLoopStart => 0,
            ProfilerEvent::MainLoopStop => 1,
            ProfilerEvent::MainLoopFullControlStart => 2,
            ProfilerEvent::MainLoopFullControlStop => 3,
        };
        let sample = self.seen[k] + 1;
        if sample == SAMPLING_RATE {
            self.seen[k] = 0;
            true
        } else {
            self.seen[k] = sample;
            false
        }
    }
}

} // verus!
