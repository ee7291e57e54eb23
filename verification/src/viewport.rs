//! The per-tick decisions of the viewport controller.
//!
//! Each tick the controller advances the animation and then applies a
//! phase-dependent effect to its scale speed and to the continuous shift
//! pointer.  The effects themselves are floating-point easing performed
//! by the host; what is decided here, and verified, is which effect the
//! new phase calls for and with which countdown fraction.

use vstd::prelude::*;

use crate::animation::AnimStep;
use crate::animation::Animation;
use crate::animation::SLOWING_FRAMES;
use crate::animation::advance_spec;

verus! {

/// What the tick's new phase does to the scale speed.
///
/// `EaseDown` carries the countdown of the `Slowing` phase so the host
/// can ease from the captured peak back toward the idle baseline with
/// remaining fraction `countdown / SLOWING_FRAMES`; on the phase's first
/// frame (`capture` true) the host first records the peak speed.
#[derive(Clone, Copy, Debug, PartialEq, Eq, Structural)]
pub enum SpeedEffect {
    /// Reset to the idle baseline speed.
    Reset,
    /// Increase by one tick's worth of acceleration.
    Accelerate,
    /// Ease from the captured peak toward the baseline.
    EaseDown { capture: bool, countdown: u64 },
    /// Leave the speed as it is.
    Keep,
}

/// What the tick's new phase does to the shift pointer.
///
/// `Ease` carries the countdown of the `Shifting` phase so the host can
/// interpolate from the last settled index with elapsed fraction
/// `1 - countdown / SHIFTING_FRAMES`; `Settle` commits the pointer to
/// the next whole index.
#[derive(Clone, Copy, Debug, PartialEq, Eq, Structural)]
pub enum ShiftEffect {
    /// Leave the shift pointer as it is.
    Keep,
    /// Interpolate between the last settled index and the next.
    Ease { countdown: u64 },
    /// Snap to the next whole index and commit it.
    Settle,
}

/// The scale-speed effect that phase `s` calls for.
pub open spec fn speed_effect_spec(s: AnimStep) -> SpeedEffect {
    match s {
        AnimStep::Idle(_) => SpeedEffect::Reset,
        AnimStep::Pausing(_) => SpeedEffect::Reset,
        AnimStep::Scaling => SpeedEffect::Accelerate,
        AnimStep::Slowing(i) => if i > 0 {
            (SpeedEffect::EaseDown { capture: i == SLOWING_FRAMES, countdown: i })
        } else {
            SpeedEffect::Reset
        },
        AnimStep::Shifting(_) => SpeedEffect::Keep,
    }
}

/// The shift-pointer effect that phase `s` calls for.
pub open spec fn shift_effect_spec(s: AnimStep) -> ShiftEffect {
    match s {
        AnimStep::Shifting(i) => if i > 0 {
            (ShiftEffect::Ease { countdown: i })
        } else {
            ShiftEffect::Settle
        },
        _ => ShiftEffect::Keep,
    }
}

/// The pair of effects that phase `s` calls for.  The shift pointer is
/// told to settle exactly when the phase is `Shifting` with a spent
/// countdown, so each pass through the cycle settles it exactly once.
pub fn step_effects(step: &AnimStep) -> (r: (SpeedEffect, ShiftEffect))
    ensures
        r.0 == speed_effect_spec(*step),
        r.1 == shift_effect_spec(*step),
        r.1 == ShiftEffect::Settle <==> *step == AnimStep::Shifting(0u64),
{
    let speed = match step {
        AnimStep::Idle(_) => SpeedEffect::Reset,
        AnimStep::Pausing(_) => SpeedEffect::Reset,
        AnimStep::Scaling => SpeedEffect::Accelerate,
        AnimStep::Slowing(i) => {
            if *i > 0 {
                SpeedEffect::EaseDown { capture: *i == SLOWING_FRAMES, countdown: *i }
            } else {
                SpeedEffect::Reset
            }
        },
        AnimStep::Shifting(_) => SpeedEffect::Keep,
    };
    let shift = match step {
        AnimStep::Shifting(i) => {
            if *i > 0 {
                ShiftEffect::Ease { countdown: *i }
            } else {
                ShiftEffect::Settle
            }
        },
        _ => ShiftEffect::Keep,
    };
    (speed, shift)
}

/// One controller tick: the host computes the two predicates from its
/// floating-point state, this advances the animation and decides the
/// effects the host must apply to speed and shift before it integrates
/// the scale.
pub fn controller_tick(animation: &mut Animation, scaling_done: bool, slowing_done: bool) -> (r: (
    SpeedEffect,
    ShiftEffect,
))
    requires
        old(animation).frame < u64::MAX,
    ensures
        final(animation).frame == old(animation).frame + 1,
        final(animation).active == old(animation).active,
        final(animation).step == advance_spec(old(animation).step, scaling_done, slowing_done),
        r.0 == speed_effect_spec(final(animation).step),
        r.1 == shift_effect_spec(final(animation).step),
        r.1 == ShiftEffect::Settle <==> final(animation).step == AnimStep::Shifting(0u64),
{
    animation.tick(scaling_done, slowing_done);
    step_effects(&animation.step)
}

/// Law: over any run of ticks, the shift pointer is told to settle
/// exactly as often as the machine lands in `Shifting(0)` — once per
/// full `Shifting` phase and never during any other phase, as the
/// phase lemmas of the animation module state through `settle_count`.
pub proof fn lemma_settle_is_shift_spent(s: AnimStep)
    ensures
        shift_effect_spec(s) == ShiftEffect::Settle <==> s == AnimStep::Shifting(0u64),
{
}

} // verus!
