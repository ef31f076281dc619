//! Values that glide between off and on.

use vstd::prelude::*;
use std::collections::HashMap;
use crate::ids::Id;

verus! {

broadcast use vstd::std_specs::hash::group_hash_axioms;

/// The value of an animation that is fully on, in thousandths.
pub const FULLY_ON: u16 = 1000;

/// What is remembered of one animated flag.
#[derive(Clone, Copy, Debug, PartialEq, Eq, Structural)]
pub struct BoolAnim {
    /// The target the flag was last given.
    pub value: bool,
    /// When the target last changed, in milliseconds; `None` where it never did.
    pub toggle_time: Option<u64>,
}

/// The animated flags of a run, by the value of their id.
pub struct AnimationManager {
    pub bools: HashMap<u64, BoolAnim>,
}

/// How far an animation has come, in thousandths: all the way where the
/// target never changed or `duration` has passed since it did, else in
/// proportion to the time passed. The time passed counts what the frame is
/// expected to take, so that the frame of the change already shows a move.
pub open spec fn progress(toggle_time: Option<u64>, now: u64, dt: u32, duration: u32) -> int {
    match toggle_time {
        None => FULLY_ON as int,
        Some(t) => {
            let elapsed = (if now >= t { now - t } else { 0 }) + dt;
            if elapsed >= duration {
                FULLY_ON as int
            } else {
                elapsed * FULLY_ON / (duration as int)
            }
        },
    }
}

/// What is remembered of the flag `id` after it was given the target `value` at `now`.
pub open spec fn remembered(bools: Map<u64, BoolAnim>, id: Id, value: bool, now: u64) -> BoolAnim {
    if !bools.contains_key(id.value) {
        BoolAnim { value, toggle_time: None }
    } else if bools[id.value].value != value {
        BoolAnim { value, toggle_time: Some(now) }
    } else {
        bools[id.value]
    }
}

/// What the flag `id` shows when it is given the target `value` at `now`,
/// in thousandths: a new flag shows its target at once, a known one moves
/// towards its target.
pub open spec fn shown(
    bools: Map<u64, BoolAnim>,
    id: Id,
    value: bool,
    now: u64,
    dt: u32,
    duration: u32,
) -> int {
    let done = progress(remembered(bools, id, value, now).toggle_time, now, dt, duration);
    if value { done } else { FULLY_ON - done }
}

/// Whether an animation is neither fully off nor fully on.
pub open spec fn in_flight(value: int) -> bool {
    0 < value < FULLY_ON
}

pub proof fn lemma_progress_in_range(toggle_time: Option<u64>, now: u64, dt: u32, duration: u32)
    ensures
        0 <= progress(toggle_time, now, dt, duration) <= FULLY_ON,
{
    if let Some(t) = toggle_time {
        let elapsed = (if now >= t { now - t } else { 0 }) + dt;
        if elapsed < duration {
            assert(0 <= elapsed * 1000 / (duration as int) <= 1000) by (nonlinear_arith)
                requires
                    0 <= elapsed < duration,
            ;
        }
    }
}

/// A flag that is given the same target twice at the same time shows the same
/// value both times; in particular the second value is not below the first
/// while the target is on.
pub proof fn lemma_animation_holds_still(
    bools: Map<u64, BoolAnim>,
    id: Id,
    value: bool,
    now: u64,
    dt: u32,
    duration: u32,
)
    ensures
        shown(
            bools.insert(id.value, remembered(bools, id, value, now)),
            id,
            value,
            now,
            dt,
            duration,
        ) == shown(bools, id, value, now, dt, duration),
        0 <= shown(bools, id, value, now, dt, duration) <= FULLY_ON,
{
    lemma_progress_in_range(remembered(bools, id, value, now).toggle_time, now, dt, duration);
}

/// How far an animation has come, in thousandths.
pub fn progress_at(toggle_time: Option<u64>, now: u64, dt: u32, duration: u32) -> (done: u16)
    ensures
        done == progress(toggle_time, now, dt, duration),
{
    match toggle_time {
        None => FULLY_ON,
        Some(t) => {
            let since: u64 = if now >= t { now - t } else { 0 };
            if since >= duration as u64 || since + dt as u64 >= duration as u64 {
                FULLY_ON
            } else {
                let elapsed: u64 = since + dt as u64;
                proof {
                    assert(0 <= elapsed * 1000 / (duration as int) <= 1000) by (nonlinear_arith)
                        requires
                            0 <= elapsed < duration,
                    ;
                }
                let done: u64 = elapsed * 1000 / (duration as u64);
                done as u16
            }
        },
    }
}

impl AnimationManager {
    pub fn new() -> (m: AnimationManager)
        ensures
            m.bools@ == Map::<u64, BoolAnim>::empty(),
    {
        AnimationManager { bools: HashMap::new() }
    }

    /// Gives the flag `id` the target `value` at the time `now` and returns
    /// what it shows, in thousandths.
    pub fn animate_bool(&mut self, now: u64, dt: u32, duration: u32, id: Id, value: bool) -> (v:
        u16)
        ensures
            v == shown(old(self).bools@, id, value, now, dt, duration),
            v <= FULLY_ON,
            final(self).bools@ == old(self).bools@.insert(
                id.value,
                remembered(old(self).bools@, id, value, now),
            ),
    {
        let anim = match self.bools.get(&id.value) {
            None => BoolAnim { value, toggle_time: None },
            Some(known) => {
                if known.value != value {
                    BoolAnim { value, toggle_time: Some(now) }
                } else {
                    *known
                }
            },
        };
        self.bools.insert(id.value, anim);
        let done = progress_at(anim.toggle_time, now, dt, duration);
        proof {
            lemma_progress_in_range(anim.toggle_time, now, dt, duration);
        }
        if value {
            done
        } else {
            FULLY_ON - done
        }
    }
}

} // verus!
