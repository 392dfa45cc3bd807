//! Per-voice ADSR (attack-decay-sustain-release) envelope generator.
//!
//! The envelope is a state machine over two trigger edges rather than explicit
//! named states: the most recent edge decides the regime. While the trigger is
//! high (`Stage::Held`) the output ramps linearly from 0 to `GAIN_ONE` over
//! the attack window, then from `GAIN_ONE` down to the sustain level over the
//! decay window, then holds the sustain level. After the trigger goes low
//! (`Stage::Released`) the output ramps linearly from the sustain level down
//! to 0 over the release window and stays at 0.
//!
//! Time is counted in whole samples; gains are fixed-point fractions of
//! `GAIN_ONE`. A zero-length segment is instantaneous: the output jumps to
//! the segment's end value, so no division by zero can arise.

use vstd::prelude::*;
use vstd::arithmetic::div_mod::{
    lemma_div_is_ordered,
    lemma_div_pos_is_pos,
    lemma_multiply_divide_le,
};
use vstd::arithmetic::mul::{lemma_mul_inequality, lemma_mul_upper_bound, lemma_mul_is_commutative};

use crate::GAIN_ONE;
use crate::MAX_DURATION;

verus! {

/// The most recent trigger edge seen by an envelope, with the sample index at
/// which it happened.
#[derive(Clone, Copy, Debug, PartialEq, Eq, Structural)]
pub enum Stage {
    /// The trigger last went high at sample `start`: attack/decay/sustain regime.
    Held { start: u64 },
    /// The trigger last went low at sample `start`: release regime.
    Released { start: u64 },
}

/// One voice's envelope: the four segment parameters and the most recent
/// trigger edge. Durations are in samples, `sustain` is a gain in
/// `0 ..= GAIN_ONE`.
#[derive(Clone, Copy, Debug, PartialEq, Eq, Structural)]
pub struct Adsr {
    pub attack: u64,
    pub decay: u64,
    pub sustain: u32,
    pub release: u64,
    pub stage: Stage,
}

impl Stage {
    /// Sample index of the edge this stage records.
    pub open spec fn start_spec(self) -> u64 {
        match self {
            Stage::Held { start } => start,
            Stage::Released { start } => start,
        }
    }
}

/// Envelope output while the trigger is high, `elapsed` samples after the
/// trigger-on edge: a linear ramp 0 to `GAIN_ONE` over the attack window, then a
/// linear ramp `GAIN_ONE` down to `sustain` over the decay window, then
/// `sustain` held indefinitely.
pub open spec fn ads_gain(attack: int, decay: int, sustain: int, elapsed: int) -> int {
    if elapsed < attack {
        (elapsed * GAIN_ONE) / attack
    } else if elapsed - attack < decay {
        GAIN_ONE - ((GAIN_ONE - sustain) * (elapsed - attack)) / decay
    } else {
        sustain
    }
}

/// Envelope output after the trigger went low, `elapsed` samples after the
/// trigger-off edge: a linear ramp from `sustain` down to 0 over the release
/// window, then 0. A zero release window is instantaneous.
pub open spec fn release_gain(sustain: int, release: int, elapsed: int) -> int {
    if elapsed >= release {
        0
    } else {
        (sustain * (release - elapsed)) / release
    }
}

impl Adsr {
    /// The segment parameters are within the fixed-point ranges the ramp
    /// arithmetic is proved safe for.
    pub open spec fn wf(self) -> bool {
        &&& self.attack <= MAX_DURATION
        &&& self.decay <= MAX_DURATION
        &&& self.release <= MAX_DURATION
        &&& self.sustain <= GAIN_ONE
    }

    /// Envelope output at sample `t`, which must not precede the recorded
    /// edge.
    pub open spec fn gain_at(self, t: int) -> int {
        match self.stage {
            Stage::Held { start } => ads_gain(
                self.attack as int,
                self.decay as int,
                self.sustain as int,
                t - start,
            ),
            Stage::Released { start } => release_gain(
                self.sustain as int,
                self.release as int,
                t - start,
            ),
        }
    }

    /// Envelope output at sample `t`, in fixed point.
    pub fn gain(&self, t: u64) -> (g: u32)
        requires
            self.wf(),
            self.stage.start_spec() <= t,
        ensures
            g == self.gain_at(t as int),
            g <= GAIN_ONE,
    {
        match self.stage {
            Stage::Held { start } => {
                let elapsed = t - start;
                if elapsed < self.attack {
                    proof {
                        lemma_mul_upper_bound(
                            elapsed as int, MAX_DURATION as int, GAIN_ONE as int, GAIN_ONE as int,
                        );
                        lemma_mul_inequality(elapsed as int, self.attack as int, GAIN_ONE as int);
                        lemma_multiply_divide_le(
                            (elapsed as int) * (GAIN_ONE as int), self.attack as int, GAIN_ONE as int,
                        );
                    }
                    ((elapsed * (GAIN_ONE as u64)) / self.attack) as u32
                } else if elapsed - self.attack < self.decay {
                    let d = elapsed - self.attack;
                    let drop_unit = (GAIN_ONE - self.sustain) as u64;
                    proof {
                        lemma_mul_upper_bound(
                            drop_unit as int, GAIN_ONE as int, d as int, MAX_DURATION as int,
                        );
                        lemma_mul_inequality(d as int, self.decay as int, drop_unit as int);
                        lemma_multiply_divide_le(
                            (drop_unit as int) * (d as int), self.decay as int, drop_unit as int,
                        );
                    }
                    GAIN_ONE - ((drop_unit * d / self.decay) as u32)
                } else {
                    self.sustain
                }
            },
            Stage::Released { start } => {
                let elapsed = t - start;
                if elapsed >= self.release {
                    0
                } else {
                    let left = self.release - elapsed;
                    proof {
                        lemma_mul_upper_bound(
                            self.sustain as int, GAIN_ONE as int, left as int, MAX_DURATION as int,
                        );
                        lemma_mul_inequality(left as int, self.release as int, self.sustain as int);
                        lemma_mul_is_commutative(self.sustain as int, left as int);
                        lemma_multiply_divide_le(
                            (self.sustain as int) * (left as int), self.release as int, self.sustain as int,
                        );
                    }
                    (((self.sustain as u64) * left) / self.release) as u32
                }
            },
        }
    }
}

/// Law: while the trigger is held, envelope samples taken at increasing times
/// within the attack window never fall, and at the end of the window the
/// envelope reaches full scale. When the decay window is instantaneous and
/// the sustain level is below full scale, the output at the end of the attack
/// window has already jumped to the sustain level, so full scale is only
/// owed when the decay window has positive length or sustain is full scale.
pub proof fn lemma_attack_monotonic(attack: int, decay: int, sustain: int, e1: int, e2: int)
    requires
        0 <= sustain <= GAIN_ONE,
        0 <= e1 <= e2 <= attack,
        decay > 0 || sustain == GAIN_ONE,
    ensures
        ads_gain(attack, decay, sustain, e1) <= ads_gain(attack, decay, sustain, e2),
        ads_gain(attack, decay, sustain, attack) == GAIN_ONE,
{
    assert(ads_gain(attack, decay, sustain, attack) == GAIN_ONE) by {
        if decay > 0 {
            assert((GAIN_ONE - sustain) * 0 == 0);
            assert(0int / decay == 0);
        }
    }
    if e2 < attack {
        lemma_mul_inequality(e1, e2, GAIN_ONE as int);
        lemma_div_is_ordered(e1 * GAIN_ONE, e2 * GAIN_ONE, attack);
    } else if e1 < attack {
        lemma_mul_inequality(e1, attack, GAIN_ONE as int);
        lemma_multiply_divide_le(e1 * GAIN_ONE, attack, GAIN_ONE as int);
    }
}

/// Law: after the trigger-off edge the envelope never rises, and from the end
/// of the release window on it is exactly 0.
pub proof fn lemma_release_monotonic(sustain: int, release: int, e1: int, e2: int)
    requires
        0 <= sustain,
        0 <= release,
        0 <= e1 <= e2,
    ensures
        release_gain(sustain, release, e1) >= release_gain(sustain, release, e2),
        e2 >= release ==> release_gain(sustain, release, e2) == 0,
{
    if e1 < release {
        if e2 < release {
            lemma_mul_inequality(release - e2, release - e1, sustain);
            lemma_mul_is_commutative(sustain, release - e1);
            lemma_mul_is_commutative(sustain, release - e2);
            lemma_div_is_ordered(sustain * (release - e2), sustain * (release - e1), release);
        } else {
            lemma_mul_inequality(0, release - e1, sustain);
            lemma_mul_is_commutative(sustain, release - e1);
            lemma_div_pos_is_pos(sustain * (release - e1), release);
        }
    }
}

/// Law: an envelope whose trigger went high at `start` and has not been
/// interrupted is non-decreasing over the attack window, and exactly `attack`
/// samples after the edge its output is full scale (provided the decay window
/// is not instantaneous with a sustain level below full scale, in which case
/// the output has already jumped to the sustain level there).
pub proof fn lemma_attack_monotonic_env(env: Adsr, start: u64, t1: int, t2: int)
    requires
        env.wf(),
        env.stage == (Stage::Held { start }),
        start <= t1 <= t2 <= start + env.attack,
        env.decay > 0 || env.sustain == GAIN_ONE,
    ensures
        env.gain_at(t1) <= env.gain_at(t2),
        env.gain_at(start + env.attack) == GAIN_ONE,
{
    lemma_attack_monotonic(
        env.attack as int,
        env.decay as int,
        env.sustain as int,
        t1 - start,
        t2 - start,
    );
}

/// Law: an envelope whose trigger went low at `start` never rises again, and
/// from `release` samples after the edge its output is exactly 0.
pub proof fn lemma_release_monotonic_env(env: Adsr, start: u64, t1: int, t2: int)
    requires
        env.wf(),
        env.stage == (Stage::Released { start }),
        start <= t1 <= t2,
    ensures
        env.gain_at(t1) >= env.gain_at(t2),
        t2 - start >= env.release ==> env.gain_at(t2) == 0,
{
    lemma_release_monotonic(env.sustain as int, env.release as int, t1 - start, t2 - start);
}

} // verus!
