//! Decisions of the output writer: when to write the latest state to the
//! emulated peripheral, continuously or on a fixed cadence, and when to stop.
use vstd::prelude::*;
use vstd::arithmetic::div_mod::lemma_div_is_ordered;
use crate::model::UniversalGamepad;

verus! {

/// Parts per million: the unit of the allowed deviation from a tick.
pub const PPM: u64 = 1_000_000;

/// A fixed write cadence: one write per `interval_ns`, and only while the
/// time since the tick boundary is at most `max_deviation_ppm` millionths of
/// the interval.
#[derive(Clone, Copy, Debug, PartialEq, Eq, Structural)]
pub struct IntervalSchedule {
    pub interval_ns: u64,
    pub max_deviation_ppm: u64,
}

/// State of the output writer.
#[derive(Clone, Copy, Debug, PartialEq, Eq, Structural)]
pub struct OutputWriter {
    /// `None` writes continuously; `Some` writes on the schedule's ticks.
    pub schedule: Option<IntervalSchedule>,
    /// Index of the tick of the last write (0 before the first).
    pub ticks_before: u64,
    /// The shutdown signal has been observed.
    pub stopped: bool,
}

/// What the writer loop observed.
#[derive(Clone, Copy, Debug, PartialEq, Eq, Structural)]
pub enum WriterEvent {
    /// The shutdown signal was observed, or the state channel closed.
    ShutdownObserved,
    /// The clock reads this many nanoseconds since the writer started.
    Clock(u64),
}

/// What the writer loop does next.
#[derive(Clone, Copy, Debug, PartialEq, Eq, Structural)]
pub enum WriterAction {
    /// Write the encoded latest state once.
    Write,
    /// Write nothing now; read the clock again.
    Wait,
    /// Return without writing again.
    Stop,
}

/// Time elapsed past the last tick boundary is within the allowed deviation.
pub open spec fn close_enough(s: IntervalSchedule, elapsed_ns: u64) -> bool {
    (elapsed_ns % s.interval_ns) as int * PPM as int <= s.max_deviation_ppm as int
        * s.interval_ns as int
}

/// The writer on schedule `s`, which last wrote at tick `ticks_before`, writes
/// at `elapsed_ns` when a new tick has begun and the time past its boundary
/// is within the allowed deviation.
pub open spec fn due(s: IntervalSchedule, ticks_before: u64, elapsed_ns: u64) -> bool {
    elapsed_ns / s.interval_ns > ticks_before && close_enough(s, elapsed_ns)
}

impl OutputWriter {
    pub open spec fn wf(&self) -> bool {
        self.schedule matches Some(s) ==> s.interval_ns > 0
    }

    /// Next state and action after `event`.
    pub open spec fn spec_step(self, event: WriterEvent) -> (OutputWriter, WriterAction) {
        if self.stopped {
            (self, WriterAction::Stop)
        } else {
            match event {
                WriterEvent::ShutdownObserved => (
                    OutputWriter { stopped: true, ..self },
                    WriterAction::Stop,
                ),
                WriterEvent::Clock(elapsed_ns) => match self.schedule {
                    None => (self, WriterAction::Write),
                    Some(s) => if due(s, self.ticks_before, elapsed_ns) {
                        (
                            OutputWriter { ticks_before: elapsed_ns / s.interval_ns, ..self },
                            WriterAction::Write,
                        )
                    } else {
                        (self, WriterAction::Wait)
                    },
                },
            }
        }
    }

    /// A writer that writes on every clock reading.
    pub fn continuous() -> (r: Self)
        ensures
            r.wf(),
            r.schedule is None,
            !r.stopped,
            r.ticks_before == 0,
    {
        OutputWriter { schedule: None, ticks_before: 0, stopped: false }
    }

    /// A writer on a cadence of `interval_ns`, allowing a deviation of
    /// `max_deviation_ppm` millionths of the interval past each tick.
    pub fn intervalic(interval_ns: u64, max_deviation_ppm: u64) -> (r: Self)
        requires
            interval_ns > 0,
        ensures
            r.wf(),
            r.schedule == Some(IntervalSchedule { interval_ns, max_deviation_ppm }),
            !r.stopped,
            r.ticks_before == 0,
    {
        OutputWriter {
            schedule: Some(IntervalSchedule { interval_ns, max_deviation_ppm }),
            ticks_before: 0,
            stopped: false,
        }
    }

    /// Handles one event. Once the shutdown signal has been observed the
    /// writer answers `Stop` to everything. On a schedule it writes at most
    /// once per tick, and only close enough to the tick's start.
    pub fn step(&mut self, event: WriterEvent) -> (r: WriterAction)
        requires
            old(self).wf(),
        ensures
            final(self).wf(),
            (*final(self), r) == old(self).spec_step(event),
    {
        if self.stopped {
            return WriterAction::Stop;
        }
        match event {
            WriterEvent::ShutdownObserved => {
                self.stopped = true;
                WriterAction::Stop
            },
            WriterEvent::Clock(elapsed_ns) => match self.schedule {
                None => WriterAction::Write,
                Some(s) => {
                    let ticks_now = elapsed_ns / s.interval_ns;
                    let past_boundary = elapsed_ns % s.interval_ns;
                    assert((past_boundary as int) * (PPM as int) < 0x1_0000_0000_0000_0000_0000_0000int) by (nonlinear_arith)
                        requires
                            past_boundary < 0x1_0000_0000_0000_0000int,
                    ;
                    assert((s.max_deviation_ppm as int) * (s.interval_ns as int) < 0x1_0000_0000_0000_0000_0000_0000_0000_0000int) by (nonlinear_arith)
                        requires
                            s.max_deviation_ppm < 0x1_0000_0000_0000_0000int,
                            s.interval_ns < 0x1_0000_0000_0000_0000int,
                    ;
                    let deviation = (past_boundary as u128) * (PPM as u128);
                    let allowed = (s.max_deviation_ppm as u128) * (s.interval_ns as u128);
                    if ticks_now > self.ticks_before && deviation <= allowed {
                        self.ticks_before = ticks_now;
                        WriterAction::Write
                    } else {
                        WriterAction::Wait
                    }
                },
            },
        }
    }
}

/// The state to encode next: the last of the states `received` since the
/// previous write, or `current` when none arrived. Earlier states are
/// dropped: the channel replicates state, it does not queue events.
pub fn latest_state(current: UniversalGamepad, received: &Vec<UniversalGamepad>) -> (r:
    UniversalGamepad)
    ensures
        received@.len() == 0 ==> r == current,
        received@.len() > 0 ==> r == received@.last(),
{
    let n = received.len();
    if n == 0 {
        current
    } else {
        received[n - 1]
    }
}

/// Actions of a writer that starts as `w` and observes `events` in order.
pub open spec fn writer_run(w: OutputWriter, events: Seq<WriterEvent>) -> Seq<WriterAction>
    decreases events.len(),
{
    if events.len() == 0 {
        Seq::empty()
    } else {
        let (next, action) = w.spec_step(events[0]);
        seq![action] + writer_run(next, events.drop_first())
    }
}

/// After the writer observes the shutdown signal, no further write happens,
/// whatever events follow.
pub proof fn lemma_no_write_after_shutdown(w: OutputWriter, events: Seq<WriterEvent>)
    ensures
        w.spec_step(WriterEvent::ShutdownObserved).0.stopped,
        w.spec_step(WriterEvent::ShutdownObserved).1 == WriterAction::Stop,
        forall|i: int|
            0 <= i < events.len() ==> #[trigger] writer_run(
                w.spec_step(WriterEvent::ShutdownObserved).0,
                events,
            )[i] == WriterAction::Stop,
{
    let stopped = w.spec_step(WriterEvent::ShutdownObserved).0;
    lemma_stopped_run(stopped, events);
}

proof fn lemma_stopped_run(w: OutputWriter, events: Seq<WriterEvent>)
    requires
        w.stopped,
    ensures
        writer_run(w, events).len() == events.len(),
        forall|i: int| 0 <= i < events.len() ==> #[trigger] writer_run(w, events)[i] == WriterAction::Stop,
    decreases events.len(),
{
    if events.len() > 0 {
        lemma_stopped_run(w, events.drop_first());
        assert(writer_run(w, events) == seq![WriterAction::Stop] + writer_run(w, events.drop_first()));
    }
}

/// On a schedule, a running writer writes exactly when a reading falls in a
/// later tick than its last write and close enough to that tick's start;
/// each write moves it to the reading's tick, and a reading that does not
/// lead to a write leaves it as it was.
pub proof fn lemma_one_write_per_tick(w: OutputWriter, elapsed_ns: u64)
    requires
        w.wf(),
        w.schedule is Some,
    ensures
        w.spec_step(WriterEvent::Clock(elapsed_ns)).1 == WriterAction::Write ==> {
            &&& w.spec_step(WriterEvent::Clock(elapsed_ns)).0.ticks_before > w.ticks_before
            &&& w.spec_step(WriterEvent::Clock(elapsed_ns)).0.ticks_before == elapsed_ns
                / w.schedule.unwrap().interval_ns
            &&& close_enough(w.schedule.unwrap(), elapsed_ns)
        },
        w.spec_step(WriterEvent::Clock(elapsed_ns)).1 != WriterAction::Write ==> w.spec_step(
            WriterEvent::Clock(elapsed_ns),
        ).0 == w,
        !w.stopped ==> (w.spec_step(WriterEvent::Clock(elapsed_ns)).1 == WriterAction::Write
            <==> due(w.schedule.unwrap(), w.ticks_before, elapsed_ns)),
{
}

/// How many of `actions` are writes.
pub open spec fn count_writes(actions: Seq<WriterAction>) -> nat
    decreases actions.len(),
{
    if actions.len() == 0 {
        0
    } else {
        (if actions[0] == WriterAction::Write { 1nat } else { 0nat }) + count_writes(
            actions.drop_first(),
        )
    }
}

/// Every clock reading among `events` is at most `t`.
pub open spec fn clock_at_most(events: Seq<WriterEvent>, t: u64) -> bool {
    forall|i: int| 0 <= i < events.len() ==> (#[trigger] events[i] matches WriterEvent::Clock(e) ==> e <= t)
}

/// A scheduled writer never writes more often than once per interval: over
/// any events whose clock readings stay at or below `t`, a writer that last
/// wrote at tick `k` writes at most `t / interval_ns - k` more times.
pub proof fn lemma_write_rate_bounded(w: OutputWriter, events: Seq<WriterEvent>, t: u64)
    requires
        w.wf(),
        w.schedule is Some,
        clock_at_most(events, t),
    ensures
        count_writes(writer_run(w, events)) + w.ticks_before <= if w.ticks_before <= t
            / w.schedule.unwrap().interval_ns {
            (t / w.schedule.unwrap().interval_ns) as int
        } else {
            w.ticks_before as int
        },
    decreases events.len(),
{
    if events.len() > 0 {
        let (next, action) = w.spec_step(events[0]);
        let rest = events.drop_first();
        assert(clock_at_most(rest, t)) by {
            assert forall|i: int| 0 <= i < rest.len() implies (#[trigger] rest[i] matches WriterEvent::Clock(e) ==> e <= t) by {
                assert(rest[i] == events[i + 1]);
            }
        }
        lemma_write_rate_bounded(next, rest, t);
        let run = writer_run(w, events);
        assert(run.drop_first() == writer_run(next, rest));
        if action == WriterAction::Write {
            let s = w.schedule.unwrap();
            if let WriterEvent::Clock(e) = events[0] {
                lemma_div_is_ordered(e as int, t as int, s.interval_ns as int);
            }
        }
    }
}

/// Clock reading of `e` (0 for a shutdown event).
pub open spec fn reading(e: WriterEvent) -> u64 {
    match e {
        WriterEvent::Clock(t) => t,
        WriterEvent::ShutdownObserved => 0,
    }
}

/// `events` are clock readings only, in the order time gives them.
pub open spec fn sorted_clock(events: Seq<WriterEvent>) -> bool {
    &&& forall|i: int| 0 <= i < events.len() ==> (#[trigger] events[i]) is Clock
    &&& forall|i: int, j: int| 0 <= i <= j < events.len() ==> reading(#[trigger] events[i]) <= reading(#[trigger] events[j])
}

/// Some reading of `events` falls in tick `m` of schedule `s`, within the
/// allowed deviation of that tick's start.
pub open spec fn window_hit(s: IntervalSchedule, events: Seq<WriterEvent>, m: int) -> bool {
    exists|j: int|
        0 <= j < events.len() && reading(#[trigger] events[j]) / s.interval_ns == m && close_enough(
            s,
            reading(events[j]),
        )
}

/// A scheduled writer keeps up with its ticks: if the loop reads the clock
/// at least once inside the allowed window of every tick after the writer's
/// last one, up to tick `last`, then it writes at least once per such tick.
/// With `lemma_write_rate_bounded`: a fresh writer whose readings reach no
/// later than time `t` and hit the window of every tick before the one that
/// holds `t` writes between `t / interval_ns - 1` and `t / interval_ns`
/// times, so its rate converges to one write per interval.
pub proof fn lemma_write_rate_keeps_up(w: OutputWriter, events: Seq<WriterEvent>, last: int)
    requires
        w.wf(),
        w.schedule is Some,
        !w.stopped,
        sorted_clock(events),
        forall|m: int| w.ticks_before < m <= last ==> window_hit(w.schedule.unwrap(), events, m),
    ensures
        count_writes(writer_run(w, events)) + w.ticks_before >= last,
    decreases events.len(),
{
    let s = w.schedule.unwrap();
    if events.len() == 0 {
        if last > w.ticks_before {
            assert(window_hit(s, events, last));
        }
    } else {
        let e0 = reading(events[0]);
        let t0 = e0 / s.interval_ns;
        let (next, action) = w.spec_step(events[0]);
        let rest = events.drop_first();
        assert(events[0] is Clock);
        assert(sorted_clock(rest)) by {
            assert forall|i: int| 0 <= i < rest.len() implies (#[trigger] rest[i]) is Clock by {
                assert(rest[i] == events[i + 1]);
            }
            assert forall|i: int, j: int| 0 <= i <= j < rest.len() implies reading(#[trigger] rest[i]) <= reading(#[trigger] rest[j]) by {
                assert(rest[i] == events[i + 1]);
                assert(rest[j] == events[j + 1]);
            }
        }
        // Any hit in a tick later than the first reading's lies in `rest`.
        assert forall|m: int| m != t0 && window_hit(s, events, m) implies window_hit(s, rest, m) by {
            let j = choose|j: int|
                0 <= j < events.len() && reading(#[trigger] events[j]) / s.interval_ns == m
                    && close_enough(s, reading(events[j]));
            assert(j != 0);
            assert(rest[j - 1] == events[j]);
        }
        let run = writer_run(w, events);
        assert(run.drop_first() == writer_run(next, rest));
        if action == WriterAction::Write {
            assert(next.ticks_before == t0);
            assert forall|m: int| next.ticks_before < m <= last implies window_hit(s, rest, m) by {}
            lemma_write_rate_keeps_up(next, rest, last);
            if last > w.ticks_before {
                // The hit of tick `ticks_before + 1` comes no earlier than the
                // first reading, so the first reading's tick is that one.
                let k = w.ticks_before + 1;
                assert(window_hit(s, events, k));
                let j = choose|j: int|
                    0 <= j < events.len() && reading(#[trigger] events[j]) / s.interval_ns == k
                        && close_enough(s, reading(events[j]));
                assert(reading(events[0]) <= reading(events[j]));
                lemma_div_is_ordered(e0 as int, reading(events[j]) as int, s.interval_ns as int);
            }
        } else {
            assert(next == w);
            assert forall|m: int| w.ticks_before < m <= last implies window_hit(s, rest, m) by {
                if m == t0 {
                    assert(window_hit(s, events, m));
                    let j = choose|j: int|
                        0 <= j < events.len() && reading(#[trigger] events[j]) / s.interval_ns == m
                            && close_enough(s, reading(events[j]));
                    if j == 0 {
                        assert(due(s, w.ticks_before, e0));
                    }
                    assert(j != 0);
                    assert(rest[j - 1] == events[j]);
                }
            }
            lemma_write_rate_keeps_up(next, rest, last);
        }
    }
}

} // verus!
