//! The animation state machine of the Axe Man and the Lancer, and which tile
//! an entity shows.

use vstd::prelude::*;
use crate::direction::Direction;
use crate::timer::{
    repeating_tick, lemma_repeating_tick_stays_in_period, lemma_whole_period_tick, FrameTimer,
    GlobalTimer, TimerModel, ATTACK_FRAME_NANOS, DYING_FRAME_NANOS, FRAME_COUNT,
};

verus! {

/// What an entity is doing, and for the animations that play once, how far
/// they have got.
#[derive(Clone, Copy, Debug, PartialEq, Eq)]
pub enum Animation {
    Idle,
    Walking,
    Attack { timer: FrameTimer, frame: usize },
    Dying { timer: FrameTimer, frame: usize },
    Dead,
}

/// An animation as numbers.
pub enum AnimationModel {
    Idle,
    Walking,
    Attack { timer: TimerModel, frame: nat },
    Dying { timer: TimerModel, frame: nat },
    Dead,
}

impl View for Animation {
    type V = AnimationModel;

    open spec fn view(&self) -> AnimationModel {
        match *self {
            Animation::Idle => AnimationModel::Idle,
            Animation::Walking => AnimationModel::Walking,
            Animation::Attack { timer, frame } => AnimationModel::Attack { timer: timer@, frame: frame as nat },
            Animation::Dying { timer, frame } => AnimationModel::Dying { timer: timer@, frame: frame as nat },
            Animation::Dead => AnimationModel::Dead,
        }
    }
}

/// The frame of the strip shown by a dead entity: the last one.
pub const DEAD_FRAME: usize = 3;

/// A once-through animation's timer and frame counter after a tick of
/// `delta` nanoseconds: the counter moves on by one when the timer finishes.
pub open spec fn advance(timer: TimerModel, frame: nat, delta: nat) -> (TimerModel, nat) {
    let (elapsed, finished) = repeating_tick(timer.duration, timer.elapsed, delta);
    (TimerModel { duration: timer.duration, elapsed }, if finished { frame + 1 } else { frame })
}

impl AnimationModel {
    /// An attack just begun.
    pub open spec fn attack_start() -> AnimationModel {
        AnimationModel::Attack { timer: TimerModel { duration: ATTACK_FRAME_NANOS as nat, elapsed: 0 }, frame: 0 }
    }

    /// A death just begun.
    pub open spec fn dying_start() -> AnimationModel {
        AnimationModel::Dying { timer: TimerModel { duration: DYING_FRAME_NANOS as nat, elapsed: 0 }, frame: 0 }
    }

    /// A once-through animation is at one of the strip's frames, with a
    /// well-formed timer.
    pub open spec fn wf(self) -> bool {
        match self {
            AnimationModel::Attack { timer, frame } => timer.wf() && frame < FRAME_COUNT,
            AnimationModel::Dying { timer, frame } => timer.wf() && frame < FRAME_COUNT,
            _ => true,
        }
    }

    /// The frame counter of a once-through animation can still be counted on
    /// without leaving `usize`.
    pub open spec fn counter_fits(self) -> bool {
        match self {
            AnimationModel::Attack { frame, .. } => frame < usize::MAX,
            AnimationModel::Dying { frame, .. } => frame < usize::MAX,
            _ => true,
        }
    }

    /// The animation after an update that took `delta` nanoseconds, while
    /// the shared clock shows `global_frame`, and the frame of the strip to
    /// show. Idle and walking entities follow the shared clock; a dead one
    /// shows its last frame; an attack or a death moves on a frame each time
    /// its own timer finishes, and after the fourth frame an attack gives way
    /// to idling and a death to being dead.
    pub open spec fn next(self, global_frame: nat, delta: nat) -> (AnimationModel, nat) {
        match self {
            AnimationModel::Idle => (AnimationModel::Idle, global_frame),
            AnimationModel::Walking => (AnimationModel::Walking, global_frame),
            AnimationModel::Dead => (AnimationModel::Dead, DEAD_FRAME as nat),
            AnimationModel::Attack { timer, frame } => {
                let (timer, frame) = advance(timer, frame, delta);
                if frame == FRAME_COUNT {
                    (AnimationModel::Idle, global_frame)
                } else {
                    (AnimationModel::Attack { timer, frame }, frame)
                }
            },
            AnimationModel::Dying { timer, frame } => {
                let (timer, frame) = advance(timer, frame, delta);
                if frame == FRAME_COUNT {
                    (AnimationModel::Dead, DEAD_FRAME as nat)
                } else {
                    (AnimationModel::Dying { timer, frame }, frame)
                }
            },
        }
    }
}

impl Animation {
    /// An attack about to begin.
    pub fn new_attack() -> (animation: Animation)
        ensures
            animation@ == AnimationModel::attack_start(),
    {
        Animation::Attack { timer: FrameTimer::new(ATTACK_FRAME_NANOS), frame: 0 }
    }

    /// A death about to begin.
    pub fn new_dying() -> (animation: Animation)
        ensures
            animation@ == AnimationModel::dying_start(),
    {
        Animation::Dying { timer: FrameTimer::new(DYING_FRAME_NANOS), frame: 0 }
    }

    /// The animation after an update that took `delta_nanos`, and the frame of
    /// its strip to show, while the shared clock is `global_timer`.
    pub fn next_animation(&self, global_timer: &GlobalTimer, delta_nanos: u64) -> (next: (Animation, usize))
        requires
            self@.counter_fits(),
        ensures
            (next.0@, next.1 as nat) == self@.next(global_timer@.frame, delta_nanos as nat),
    {
        match self {
            Animation::Idle => (Animation::Idle, global_timer.frame()),
            Animation::Walking => (Animation::Walking, global_timer.frame()),
            Animation::Dead => (Animation::Dead, DEAD_FRAME),
            Animation::Attack { timer, frame } => {
                let mut timer = *timer;
                let mut frame = *frame;
                if timer.tick(delta_nanos) {
                    frame = frame + 1;
                }
                if frame == FRAME_COUNT {
                    (Animation::Idle, global_timer.frame())
                } else {
                    (Animation::Attack { timer, frame }, frame)
                }
            },
            Animation::Dying { timer, frame } => {
                let mut timer = *timer;
                let mut frame = *frame;
                if timer.tick(delta_nanos) {
                    frame = frame + 1;
                }
                if frame == FRAME_COUNT {
                    (Animation::Dead, DEAD_FRAME)
                } else {
                    (Animation::Dying { timer, frame }, frame)
                }
            },
        }
    }
}

/// The first half of the name of the tile strip that shows an animation.
pub open spec fn tile_prefix(animation: AnimationModel) -> Seq<char> {
    match animation {
        AnimationModel::Idle => "Idle"@,
        AnimationModel::Walking => "Walk"@,
        AnimationModel::Attack { .. } => "Attack"@,
        AnimationModel::Dying { .. } => "Dead"@,
        AnimationModel::Dead => "Dead"@,
    }
}

/// The second half of the name of a tile strip: the side the entity is seen
/// from. East and West share the profile strip.
pub open spec fn tile_suffix(direction: Direction) -> Seq<char> {
    match direction {
        Direction::North => "North"@,
        Direction::East => "Profile"@,
        Direction::South => "South"@,
        Direction::West => "Profile"@,
    }
}

/// The name of the tile strip for an animation seen from a direction.
pub fn tile_identifier(animation: &Animation, direction: Direction) -> (identifier: String)
    ensures
        identifier@ == tile_prefix(animation@) + tile_suffix(direction),
{
    let prefix: &str = match animation {
        Animation::Idle => "Idle",
        Animation::Walking => "Walk",
        Animation::Attack { .. } => "Attack",
        Animation::Dying { .. } => "Dead",
        Animation::Dead => "Dead",
    };
    let suffix: &str = match direction {
        Direction::North => "North",
        Direction::East => "Profile",
        Direction::South => "South",
        Direction::West => "Profile",
    };
    let mut identifier = prefix.to_owned();
    identifier.append(suffix);
    identifier
}

/// What an entity shows after an update: its next animation, the tile strip
/// and the frame of it to draw, and whether the tile is mirrored.
pub struct EntityFrame {
    pub animation: Animation,
    pub tile: String,
    pub frame: usize,
    pub flip_x: bool,
}

/// One entity's part of an update of the animations: the animation moves on,
/// and the tile to draw is named from the new animation and the direction the
/// entity faces; West is drawn as the mirrored profile.
pub fn animate_entity(animation: &Animation, direction: Direction, global_timer: &GlobalTimer, delta_nanos: u64) -> (shown: EntityFrame)
    requires
        animation@.counter_fits(),
    ensures
        (shown.animation@, shown.frame as nat) == animation@.next(global_timer@.frame, delta_nanos as nat),
        shown.tile@ == tile_prefix(shown.animation@) + tile_suffix(direction),
        shown.flip_x == (direction == Direction::West),
{
    let (next, frame) = animation.next_animation(global_timer, delta_nanos);
    let tile = tile_identifier(&next, direction);
    let flip_x = direction.flip_x();
    EntityFrame { animation: next, tile, frame, flip_x }
}

/// An entity keeps showing one of the four frames of its strip: from a
/// well-formed animation and a frame of the shared clock, an update leads to a
/// well-formed animation and a frame of the strip.
pub proof fn lemma_step_keeps_frames_in_strip(animation: AnimationModel, global_frame: nat, delta: nat)
    requires
        animation.wf(),
        global_frame < FRAME_COUNT,
    ensures
        animation.next(global_frame, delta).0.wf(),
        animation.next(global_frame, delta).1 < FRAME_COUNT,
{
    match animation {
        AnimationModel::Attack { timer, frame } => {
            lemma_repeating_tick_stays_in_period(timer.duration, timer.elapsed, delta);
        },
        AnimationModel::Dying { timer, frame } => {
            lemma_repeating_tick_stays_in_period(timer.duration, timer.elapsed, delta);
        },
        _ => {},
    }
}

/// The animation state machine only moves forward: idling, walking and being
/// dead stay as they are; an attack either goes on or ends in idling; a death
/// either goes on or ends in being dead, and being dead always shows the last
/// frame; nothing starts walking on its own.
pub proof fn lemma_animations_move_forward(animation: AnimationModel, global_frame: nat, delta: nat)
    ensures
        animation is Idle ==> animation.next(global_frame, delta) == (AnimationModel::Idle, global_frame),
        animation is Walking ==> animation.next(global_frame, delta) == (AnimationModel::Walking, global_frame),
        animation is Dead ==> animation.next(global_frame, delta) == (AnimationModel::Dead, DEAD_FRAME as nat),
        animation is Attack ==> (animation.next(global_frame, delta).0 is Attack || animation.next(global_frame, delta).0 is Idle),
        animation is Dying ==> (animation.next(global_frame, delta).0 is Dying || animation.next(global_frame, delta).0 is Dead),
        !(animation is Walking) ==> !(animation.next(global_frame, delta).0 is Walking),
{
}

/// Within an attack or a death, the frame counter moves on by exactly one
/// when the animation's own timer finishes, and stays put otherwise; while
/// the animation goes on, its timer keeps its period and carries the time of
/// the update, exactly as one tick of it by `delta` leaves it.
pub proof fn lemma_counter_moves_with_timer(animation: AnimationModel, global_frame: nat, delta: nat)
    requires
        animation.wf(),
    ensures
        animation matches AnimationModel::Attack { timer, frame } ==> {
            let finished = repeating_tick(timer.duration, timer.elapsed, delta).1;
            let after = animation.next(global_frame, delta).0;
            &&& after matches AnimationModel::Attack { timer: t, frame: f } ==> {
                &&& f == if finished { frame + 1 } else { frame }
                &&& t == (TimerModel {
                    duration: timer.duration,
                    elapsed: repeating_tick(timer.duration, timer.elapsed, delta).0,
                })
            }
            &&& after is Idle <==> (finished && frame + 1 == FRAME_COUNT)
        },
        animation matches AnimationModel::Dying { timer, frame } ==> {
            let finished = repeating_tick(timer.duration, timer.elapsed, delta).1;
            let after = animation.next(global_frame, delta).0;
            &&& after matches AnimationModel::Dying { timer: t, frame: f } ==> {
                &&& f == if finished { frame + 1 } else { frame }
                &&& t == (TimerModel {
                    duration: timer.duration,
                    elapsed: repeating_tick(timer.duration, timer.elapsed, delta).0,
                })
            }
            &&& after is Dead <==> (finished && frame + 1 == FRAME_COUNT)
        },
{
}

/// The animation after `steps` updates, each taking exactly one period of the
/// animation's own timer (idle, walking and dead animations have none, and
/// take no time).
pub open spec fn run_whole_periods(animation: AnimationModel, global_frame: nat, steps: nat) -> AnimationModel
    decreases steps,
{
    if steps == 0 {
        animation
    } else {
        let delta = match animation {
            AnimationModel::Attack { timer, .. } => timer.duration,
            AnimationModel::Dying { timer, .. } => timer.duration,
            _ => 0,
        };
        run_whole_periods(animation.next(global_frame, delta).0, global_frame, (steps - 1) as nat)
    }
}

/// An attack or a death always plays out: if every update takes one whole
/// period of its timer, an attack at frame `f` is over (idling) after `4 - f`
/// updates, and a death is over (dead) after as many.
pub proof fn lemma_once_through_animations_end(animation: AnimationModel, global_frame: nat)
    requires
        animation.wf(),
        animation is Attack || animation is Dying,
    ensures
        animation matches AnimationModel::Attack { frame, .. } ==>
            run_whole_periods(animation, global_frame, (FRAME_COUNT - frame) as nat) is Idle,
        animation matches AnimationModel::Dying { frame, .. } ==>
            run_whole_periods(animation, global_frame, (FRAME_COUNT - frame) as nat) is Dead,
    decreases
        match animation {
            AnimationModel::Attack { frame, .. } => FRAME_COUNT - frame,
            AnimationModel::Dying { frame, .. } => FRAME_COUNT - frame,
            _ => 0,
        },
{
    match animation {
        AnimationModel::Attack { timer, frame } => {
            lemma_whole_period_tick(timer.duration, timer.elapsed);
            let after = animation.next(global_frame, timer.duration).0;
            if frame + 1 < FRAME_COUNT {
                lemma_once_through_animations_end(after, global_frame);
                assert(run_whole_periods(animation, global_frame, (FRAME_COUNT - frame) as nat)
                    == run_whole_periods(after, global_frame, (FRAME_COUNT - (frame + 1)) as nat));
            } else {
                assert(run_whole_periods(after, global_frame, 0) == after);
            }
        },
        AnimationModel::Dying { timer, frame } => {
            lemma_whole_period_tick(timer.duration, timer.elapsed);
            let after = animation.next(global_frame, timer.duration).0;
            if frame + 1 < FRAME_COUNT {
                lemma_once_through_animations_end(after, global_frame);
                assert(run_whole_periods(animation, global_frame, (FRAME_COUNT - frame) as nat)
                    == run_whole_periods(after, global_frame, (FRAME_COUNT - (frame + 1)) as nat));
            } else {
                assert(run_whole_periods(after, global_frame, 0) == after);
            }
        },
        _ => {},
    }
}

/// East and West are drawn from the same profile strip, West mirrored, so an
/// entity looks the other way without a tile strip of its own.
pub proof fn lemma_west_mirrors_east(animation: AnimationModel)
    ensures
        tile_prefix(animation) + tile_suffix(Direction::West) == tile_prefix(animation) + tile_suffix(Direction::East),
{
}

} // verus!
