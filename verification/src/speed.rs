//! The shared fire configuration and the rule by which key presses change it.
use vstd::prelude::*;

verus! {

/// Speed that the range starts with, in world units per second.
pub const INITIAL_SPEED: i64 = 1000;

/// Amount by which one key press changes the speed.
pub const SPEED_STEP: i64 = 200;

/// The shared fire configuration: how fast projectiles fly, and a handle to
/// the effect template that their trails are drawn with.
pub struct ProjectileData<E> {
    pub speed: i64,
    pub effect: E,
}

/// What one frame's key edges do to the speed: one step up for a press of
/// the up key, one step down for a press of the down key.
pub open spec fn speed_delta(up: bool, down: bool) -> int {
    (if up {
        SPEED_STEP as int
    } else {
        0
    }) - (if down {
        SPEED_STEP as int
    } else {
        0
    })
}

/// The speed after a run of frames, each given by its `(up, down)` key edges.
pub open spec fn speed_after(initial: int, frames: Seq<(bool, bool)>) -> int
    decreases frames.len(),
{
    if frames.len() == 0 {
        initial
    } else {
        speed_after(initial, frames.drop_last()) + speed_delta(frames.last().0, frames.last().1)
    }
}

/// Number of presses of the up key in a run of frames.
pub open spec fn speed_up_presses(frames: Seq<(bool, bool)>) -> int
    decreases frames.len(),
{
    if frames.len() == 0 {
        0
    } else {
        speed_up_presses(frames.drop_last()) + if frames.last().0 {
            1int
        } else {
            0int
        }
    }
}

/// Number of presses of the down key in a run of frames.
pub open spec fn speed_down_presses(frames: Seq<(bool, bool)>) -> int
    decreases frames.len(),
{
    if frames.len() == 0 {
        0
    } else {
        speed_down_presses(frames.drop_last()) + if frames.last().1 {
            1int
        } else {
            0int
        }
    }
}

/// After any run of frames the speed is the initial speed plus one step for
/// each press of the up key, minus one step for each press of the down key,
/// in whatever order the presses came.
pub proof fn lemma_speed_counts_presses(initial: int, frames: Seq<(bool, bool)>)
    ensures
        speed_after(initial, frames) == initial + SPEED_STEP * (speed_up_presses(frames)
            - speed_down_presses(frames)),
    decreases frames.len(),
{
    if frames.len() > 0 {
        lemma_speed_counts_presses(initial, frames.drop_last());
    }
}

impl<E> ProjectileData<E> {
    /// The configuration at startup.
    pub fn new(effect: E) -> (data: Self)
        ensures
            data.speed == INITIAL_SPEED,
            data.effect == effect,
    {
        ProjectileData { speed: INITIAL_SPEED, effect }
    }

    /// Tells whether `change_speed` can apply these key edges without leaving
    /// the range of the speed's type.
    pub fn can_change_speed(&self, up: bool, down: bool) -> (fits: bool)
        ensures
            fits == (i64::MIN <= self.speed + speed_delta(up, down) <= i64::MAX),
    {
        if up && !down {
            self.speed <= i64::MAX - SPEED_STEP
        } else if down && !up {
            self.speed >= i64::MIN + SPEED_STEP
        } else {
            true
        }
    }

    /// Applies one frame's key edges to the speed; the effect handle stays.
    pub fn change_speed(&mut self, up: bool, down: bool)
        requires
            i64::MIN <= old(self).speed + speed_delta(up, down) <= i64::MAX,
        ensures
            final(self).speed == old(self).speed + speed_delta(up, down),
            final(self).effect == old(self).effect,
    {
        if up && !down {
            self.speed = self.speed + SPEED_STEP;
        } else if down && !up {
            self.speed = self.speed - SPEED_STEP;
        }
    }
}

} // verus!
