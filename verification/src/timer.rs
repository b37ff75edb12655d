//! Frame clocks: repeating timers that count whole frames of an animation.

use vstd::prelude::*;
use bevy::time::{Timer, TimerMode};
use core::time::Duration;

verus! {

/// One frame of the world's shared animation cycle: 1/3.75 s, in nanoseconds.
pub const GLOBAL_FRAME_NANOS: u64 = 266_666_681;

/// One frame of an attack: 1/15 s, in nanoseconds.
pub const ATTACK_FRAME_NANOS: u64 = 66_666_670;

/// One frame of dying: 1/3.75 s, in nanoseconds.
pub const DYING_FRAME_NANOS: u64 = 266_666_681;

/// How many frames every animation strip holds.
pub const FRAME_COUNT: usize = 4;

/// A repeating timer seen as numbers: its period and the time gone by in
/// the current period, both in nanoseconds.
pub struct TimerModel {
    pub duration: nat,
    pub elapsed: nat,
}

impl TimerModel {
    /// The period is positive and the elapsed time lies inside it.
    pub open spec fn wf(self) -> bool {
        0 < self.duration && self.elapsed < self.duration
    }
}

/// What one tick of `delta` nanoseconds does to a repeating timer of period
/// `duration` that has run `elapsed` nanoseconds of its period: the new
/// elapsed time, and whether the period was reached on this tick.
///
/// The time is added; once the sum reaches the period, it wraps round to the
/// remainder, and the tick counts as finishing when the number of whole
/// periods, taken modulo 2^32, is not zero. A zero period always finishes and
/// leaves nothing elapsed.
pub open spec fn repeating_tick(duration: nat, elapsed: nat, delta: nat) -> (nat, bool) {
    let total = elapsed + delta;
    if duration == 0 {
        (0, true)
    } else if total >= duration {
        (total % duration, (total / duration) % 0x1_0000_0000 != 0)
    } else {
        (total, false)
    }
}

/// Ticks a repeating `bevy::time::Timer` with period `duration_nanos`, set to
/// `elapsed_nanos`, by `delta_nanos`, and reads back its elapsed time and
/// `just_finished`. The contract restates bevy's `Timer::tick` for a repeating,
/// unpaused timer: the stopwatch adds the delta, and when the sum reaches the
/// period the elapsed time becomes the remainder and `times_finished_this_tick`
/// the quotient cut to a `u32`; `just_finished` says whether that count is
/// not zero.
#[verifier::external_body]
fn tick_repeating_timer(duration_nanos: u64, elapsed_nanos: u64, delta_nanos: u64) -> (res: (u64, bool))
    ensures
        res.0 as nat == repeating_tick(duration_nanos as nat, elapsed_nanos as nat, delta_nanos as nat).0,
        res.1 == repeating_tick(duration_nanos as nat, elapsed_nanos as nat, delta_nanos as nat).1,
{
    let mut timer = Timer::new(Duration::from_nanos(duration_nanos), TimerMode::Repeating);
    timer.set_elapsed(Duration::from_nanos(elapsed_nanos));
    timer.tick(Duration::from_nanos(delta_nanos));
    (timer.elapsed().as_nanos() as u64, timer.just_finished())
}

/// A repeating timer with a positive period that has run part of its period.
#[derive(Clone, Copy, Debug, PartialEq, Eq)]
pub struct FrameTimer {
    duration_nanos: u64,
    elapsed_nanos: u64,
}

impl View for FrameTimer {
    type V = TimerModel;

    open spec fn view(&self) -> TimerModel {
        self.model()
    }
}

impl FrameTimer {
    #[verifier::type_invariant]
    spec fn inv(self) -> bool {
        0 < self.duration_nanos && self.elapsed_nanos < self.duration_nanos
    }

    /// The timer as numbers.
    pub closed spec fn model(self) -> TimerModel {
        TimerModel { duration: self.duration_nanos as nat, elapsed: self.elapsed_nanos as nat }
    }

    /// A fresh repeating timer with the given positive period.
    pub fn new(duration_nanos: u64) -> (timer: FrameTimer)
        requires
            0 < duration_nanos,
        ensures
            timer@ == (TimerModel { duration: duration_nanos as nat, elapsed: 0 }),
    {
        FrameTimer { duration_nanos, elapsed_nanos: 0 }
    }

    /// The period, in nanoseconds.
    pub fn duration_nanos(&self) -> (d: u64)
        ensures
            d as nat == self@.duration,
            0 < d,
    {
        proof {
            use_type_invariant(self);
        }
        self.duration_nanos
    }

    /// The time gone by in the current period, in nanoseconds.
    pub fn elapsed_nanos(&self) -> (e: u64)
        ensures
            e as nat == self@.elapsed,
            e < self@.duration,
    {
        proof {
            use_type_invariant(self);
        }
        self.elapsed_nanos
    }

    /// Advances the timer by `delta_nanos`; says whether it reached its period.
    pub fn tick(&mut self, delta_nanos: u64) -> (just_finished: bool)
        ensures
            final(self)@.duration == old(self)@.duration,
            final(self)@.elapsed == repeating_tick(old(self)@.duration, old(self)@.elapsed, delta_nanos as nat).0,
            just_finished == repeating_tick(old(self)@.duration, old(self)@.elapsed, delta_nanos as nat).1,
            final(self)@.wf(),
    {
        proof {
            use_type_invariant(&*self);
        }
        let (elapsed, finished) = tick_repeating_timer(self.duration_nanos, self.elapsed_nanos, delta_nanos);
        proof {
            lemma_repeating_tick_stays_in_period(self@.duration, self@.elapsed, delta_nanos as nat);
        }
        self.elapsed_nanos = elapsed;
        finished
    }
}

/// Ticking a timer with a positive period leaves its elapsed time inside the period.
pub proof fn lemma_repeating_tick_stays_in_period(duration: nat, elapsed: nat, delta: nat)
    requires
        0 < duration,
        elapsed < duration,
    ensures
        repeating_tick(duration, elapsed, delta).0 < duration,
{
    let total = elapsed + delta;
    if total >= duration {
        vstd::arithmetic::div_mod::lemma_mod_pos_bound(total as int, duration as int);
    }
}

/// A tick of exactly one whole period always finishes and leaves the elapsed
/// time where it was.
pub proof fn lemma_whole_period_tick(duration: nat, elapsed: nat)
    requires
        0 < duration,
        elapsed < duration,
    ensures
        repeating_tick(duration, elapsed, duration) == (elapsed, true),
{
    let total = elapsed + duration;
    vstd::arithmetic::div_mod::lemma_fundamental_div_mod_converse(total as int, duration as int, 1, elapsed as int);
}

/// The world's shared animation clock as numbers: its timer and the frame
/// of the cycle it shows.
pub struct GlobalTimerModel {
    pub timer: TimerModel,
    pub frame: nat,
}

impl GlobalTimerModel {
    /// The clock after a tick of `delta` nanoseconds: the frame moves on by
    /// one, wrapping round after the last, exactly when the timer finishes.
    pub open spec fn ticked(self, delta: nat) -> GlobalTimerModel {
        let (elapsed, finished) = repeating_tick(self.timer.duration, self.timer.elapsed, delta);
        GlobalTimerModel {
            timer: TimerModel { duration: self.timer.duration, elapsed },
            frame: if finished { (self.frame + 1) % (FRAME_COUNT as nat) } else { self.frame },
        }
    }
}

/// The world's shared animation clock: idle and walking entities, and the
/// water, all show the frame it counts.
#[derive(Clone, Copy, Debug, PartialEq, Eq)]
pub struct GlobalTimer {
    timer: FrameTimer,
    frame: usize,
}

impl View for GlobalTimer {
    type V = GlobalTimerModel;

    open spec fn view(&self) -> GlobalTimerModel {
        self.model()
    }
}

impl GlobalTimer {
    #[verifier::type_invariant]
    spec fn inv(self) -> bool {
        self.frame < FRAME_COUNT && self.timer@.duration == GLOBAL_FRAME_NANOS
    }

    /// The clock as numbers.
    pub closed spec fn model(self) -> GlobalTimerModel {
        GlobalTimerModel { timer: self.timer@, frame: self.frame as nat }
    }

    /// A clock at the first frame, with a fresh timer of one global frame.
    pub fn new() -> (global_timer: GlobalTimer)
        ensures
            global_timer@ == (GlobalTimerModel {
                timer: TimerModel { duration: GLOBAL_FRAME_NANOS as nat, elapsed: 0 },
                frame: 0,
            }),
    {
        GlobalTimer { timer: FrameTimer::new(GLOBAL_FRAME_NANOS), frame: 0 }
    }

    /// The frame of the cycle the clock shows.
    pub fn frame(&self) -> (frame: usize)
        ensures
            frame as nat == self@.frame,
            frame < FRAME_COUNT,
            self@.timer.duration == GLOBAL_FRAME_NANOS,
    {
        proof {
            use_type_invariant(self);
        }
        self.frame
    }

    /// The clock's timer.
    pub fn timer(&self) -> (timer: FrameTimer)
        ensures
            timer@ == self@.timer,
            timer@.duration == GLOBAL_FRAME_NANOS,
    {
        proof {
            use_type_invariant(self);
        }
        self.timer
    }

    /// Advances the clock by the time `delta_nanos` that the last update took.
    pub fn tick(&mut self, delta_nanos: u64)
        ensures
            final(self)@ == old(self)@.ticked(delta_nanos as nat),
            final(self)@.frame < FRAME_COUNT,
            final(self)@.timer.wf(),
            final(self)@.timer.duration == GLOBAL_FRAME_NANOS,
    {
        proof {
            use_type_invariant(&*self);
        }
        let mut timer = self.timer;
        let finished = timer.tick(delta_nanos);
        let mut frame = self.frame;
        if finished {
            frame = (frame + 1) % FRAME_COUNT;
        }
        *self = GlobalTimer { timer, frame };
    }
}

/// The clock always shows one of the four frames, and each tick either keeps
/// the frame or moves it on by exactly one, round from the last to the first;
/// its timer keeps its period and runs on by the update's time.
pub proof fn lemma_global_frame_cycles(clock: GlobalTimerModel, delta: nat)
    requires
        clock.frame < FRAME_COUNT,
        clock.timer.wf(),
    ensures
        clock.ticked(delta).frame < FRAME_COUNT,
        clock.ticked(delta).timer.wf(),
        clock.ticked(delta).frame == clock.frame || clock.ticked(delta).frame == (clock.frame + 1) % 4,
        clock.frame == 3 && clock.ticked(delta).frame != 3 ==> clock.ticked(delta).frame == 0,
        repeating_tick(clock.timer.duration, clock.timer.elapsed, delta).1 <==> clock.ticked(delta).frame != clock.frame,
        clock.ticked(delta).timer == (TimerModel {
            duration: clock.timer.duration,
            elapsed: repeating_tick(clock.timer.duration, clock.timer.elapsed, delta).0,
        }),
{
    lemma_repeating_tick_stays_in_period(clock.timer.duration, clock.timer.elapsed, delta);
}

/// The clock after a run of updates taking `deltas` nanoseconds, one after
/// the other.
pub open spec fn run_clock(clock: GlobalTimerModel, deltas: Seq<nat>) -> GlobalTimerModel
    decreases deltas.len(),
{
    if deltas.len() == 0 {
        clock
    } else {
        run_clock(clock.ticked(deltas[0]), deltas.drop_first())
    }
}

/// How many updates of the run finish the clock's timer.
pub open spec fn finishing_ticks(clock: GlobalTimerModel, deltas: Seq<nat>) -> nat
    decreases deltas.len(),
{
    if deltas.len() == 0 {
        0
    } else {
        (if repeating_tick(clock.timer.duration, clock.timer.elapsed, deltas[0]).1 { 1nat } else { 0nat })
            + finishing_ticks(clock.ticked(deltas[0]), deltas.drop_first())
    }
}

/// Over any run of updates, the clock's frame has moved on by exactly the
/// number of updates that finished its timer, counted round the four frames:
/// an update moves it by one at most, however many periods it spans, and
/// every four finishing updates bring it back where it was.
pub proof fn lemma_frame_counts_finishing_ticks(clock: GlobalTimerModel, deltas: Seq<nat>)
    requires
        clock.frame < FRAME_COUNT,
        clock.timer.wf(),
    ensures
        run_clock(clock, deltas).frame == (clock.frame + finishing_ticks(clock, deltas)) % (FRAME_COUNT as nat),
        run_clock(clock, deltas).frame < FRAME_COUNT,
        run_clock(clock, deltas).timer.wf(),
        run_clock(clock, deltas).timer.duration == clock.timer.duration,
    decreases deltas.len(),
{
    if deltas.len() > 0 {
        let next = clock.ticked(deltas[0]);
        lemma_global_frame_cycles(clock, deltas[0]);
        lemma_frame_counts_finishing_ticks(next, deltas.drop_first());
        let rest = finishing_ticks(next, deltas.drop_first());
        let step: nat = if repeating_tick(clock.timer.duration, clock.timer.elapsed, deltas[0]).1 { 1 } else { 0 };
        assert(next.frame == (clock.frame + step) % 4);
        assert((((clock.frame + step) % 4) + rest) % 4 == (clock.frame + step + rest) % 4) by {
            vstd::arithmetic::div_mod::lemma_add_mod_noop((clock.frame + step) as int, rest as int, 4);
            vstd::arithmetic::div_mod::lemma_mod_twice((clock.frame + step) as int, 4);
        }
    }
}

} // verus!
