//! The camera's motion cycle: a finite state machine advanced once per
//! fixed 16 ms tick, plus the driver that owns it and counts frames.

use vstd::prelude::*;

use crate::text::dec_spec;
use crate::text::dec_string;

verus! {

/// Milliseconds per animation tick.
pub const FRAME_DURATION: u64 = 16;

/// Frames of the `Idle` phase: 1.0 s of 16 ms ticks, truncated.
pub const IDLE_FRAMES: u64 = 62;

/// Frames of the `Pausing` phase: 3.0 s of 16 ms ticks, truncated.
pub const PAUSING_FRAMES: u64 = 187;

/// Frames of the `Slowing` phase: 0.1 s of 16 ms ticks, truncated.
pub const SLOWING_FRAMES: u64 = 6;

/// Frames of the `Shifting` phase: 2.0 s of 16 ms ticks.
pub const SHIFTING_FRAMES: u64 = 125;

/// One phase of the camera's motion cycle.  The countdown payload is the
/// number of frames the phase still has to run; `Scaling` has no fixed
/// duration and ends only when the externally computed predicate fires.
#[derive(Clone, Copy, Debug, PartialEq, Eq, Structural)]
pub enum AnimStep {
    Idle(u64),
    Scaling,
    Slowing(u64),
    Pausing(u64),
    Shifting(u64),
}

/// The phase that follows `s` in the cyclic order, re-seeded with its
/// nominal frame count.
pub open spec fn next_spec(s: AnimStep) -> AnimStep {
    match s {
        AnimStep::Idle(_) => AnimStep::Scaling,
        AnimStep::Scaling => AnimStep::Slowing(SLOWING_FRAMES),
        AnimStep::Slowing(_) => AnimStep::Pausing(PAUSING_FRAMES),
        AnimStep::Pausing(_) => AnimStep::Shifting(SHIFTING_FRAMES),
        AnimStep::Shifting(_) => AnimStep::Idle(IDLE_FRAMES),
    }
}

/// The transition rule, evaluated once per tick.  Countdown phases
/// decrement until zero and then move on; `Scaling` waits for
/// `scaling_done`; `Slowing` can be cut short by `slowing_done`.
pub open spec fn advance_spec(s: AnimStep, scaling_done: bool, slowing_done: bool) -> AnimStep {
    match s {
        AnimStep::Idle(i) => if i > 0 { AnimStep::Idle((i - 1) as u64) } else { next_spec(s) },
        AnimStep::Scaling => if scaling_done { next_spec(s) } else { s },
        AnimStep::Slowing(i) => if slowing_done || i == 0 {
            next_spec(s)
        } else {
            AnimStep::Slowing((i - 1) as u64)
        },
        AnimStep::Pausing(i) => if i > 0 { AnimStep::Pausing((i - 1) as u64) } else { next_spec(s) },
        AnimStep::Shifting(i) => if i > 0 {
            AnimStep::Shifting((i - 1) as u64)
        } else {
            next_spec(s)
        },
    }
}

impl AnimStep {
    /// The phase that follows this one in the cyclic order.
    pub fn next(&self) -> (r: AnimStep)
        ensures
            r == next_spec(*self),
    {
        match self {
            AnimStep::Idle(_) => AnimStep::Scaling,
            AnimStep::Scaling => AnimStep::Slowing(SLOWING_FRAMES),
            AnimStep::Slowing(_) => AnimStep::Pausing(PAUSING_FRAMES),
            AnimStep::Pausing(_) => AnimStep::Shifting(SHIFTING_FRAMES),
            AnimStep::Shifting(_) => AnimStep::Idle(IDLE_FRAMES),
        }
    }

    /// One tick of the transition rule.
    pub fn advance(&mut self, scaling_done: bool, slowing_done: bool)
        ensures
            *final(self) == advance_spec(*old(self), scaling_done, slowing_done),
    {
        let s = *self;
        *self = match s {
            AnimStep::Idle(i) => if i > 0 { AnimStep::Idle(i - 1) } else { s.next() },
            AnimStep::Scaling => if scaling_done { s.next() } else { s },
            AnimStep::Slowing(i) => if slowing_done || i == 0 {
                s.next()
            } else {
                AnimStep::Slowing(i - 1)
            },
            AnimStep::Pausing(i) => if i > 0 { AnimStep::Pausing(i - 1) } else { s.next() },
            AnimStep::Shifting(i) => if i > 0 { AnimStep::Shifting(i - 1) } else { s.next() },
        };
    }

    /// The variant's name, for the on-screen debug label.
    pub fn label(&self) -> (r: &'static str)
        ensures
            *self matches AnimStep::Idle(_) ==> r@ == "Idle"@,
            *self matches AnimStep::Scaling ==> r@ == "Scaling"@,
            *self matches AnimStep::Slowing(_) ==> r@ == "Slowing"@,
            *self matches AnimStep::Pausing(_) ==> r@ == "Pausing"@,
            *self matches AnimStep::Shifting(_) ==> r@ == "Shifting"@,
    {
        match self {
            AnimStep::Idle(_) => "Idle",
            AnimStep::Scaling => "Scaling",
            AnimStep::Slowing(_) => "Slowing",
            AnimStep::Pausing(_) => "Pausing",
            AnimStep::Shifting(_) => "Shifting",
        }
    }
}

impl Default for AnimStep {
    /// A session starts mid-cycle, with a full shift.
    fn default() -> (r: Self)
        ensures
            r == AnimStep::Shifting(SHIFTING_FRAMES),
    {
        AnimStep::Shifting(SHIFTING_FRAMES)
    }
}

/// The animation driver: whether ticks are being delivered at all, how
/// many have been, and the current phase of the motion cycle.
#[derive(Clone, Copy, Debug, PartialEq, Eq, Structural)]
pub struct Animation {
    pub active: bool,
    pub frame: u64,
    pub step: AnimStep,
}

/// Elapsed time in tenths of a second after `frame` ticks of
/// `FRAME_DURATION` milliseconds, rounded to the nearest tenth.  The
/// exact value `frame * 16 / 100` can never land on half a tenth, so
/// adding 50 before the division rounds to nearest.
pub open spec fn tenths_spec(frame: nat) -> nat {
    (frame * 16 + 50) / 100
}

/// The status-line suffix: empty until the first tick, then the frame
/// count and the elapsed seconds to one decimal, with a paused marker
/// while ticks are not being delivered.
pub open spec fn info_spec(a: Animation) -> Seq<char> {
    if a.frame == 0 {
        Seq::<char>::empty()
    } else {
        " | frame: "@ + dec_spec(a.frame as nat) + ", time: "@ + dec_spec(
            tenths_spec(a.frame as nat) / 10,
        ) + "."@ + dec_spec(tenths_spec(a.frame as nat) % 10) + " s"@ + if a.active {
            Seq::<char>::empty()
        } else {
            " [paused]"@
        }
    }
}

impl Default for Animation {
    /// A fresh driver: paused delivery, no frames yet, mid-cycle step.
    fn default() -> (r: Self)
        ensures
            r == (Animation { active: false, frame: 0, step: AnimStep::Shifting(SHIFTING_FRAMES) }),
    {
        Animation { active: false, frame: 0, step: AnimStep::Shifting(SHIFTING_FRAMES) }
    }
}

impl Animation {
    /// One externally delivered tick: count it and advance the phase.
    pub fn tick(&mut self, scaling_done: bool, slowing_done: bool)
        requires
            old(self).frame < u64::MAX,
        ensures
            final(self).frame == old(self).frame + 1,
            final(self).step == advance_spec(old(self).step, scaling_done, slowing_done),
            final(self).active == old(self).active,
    {
        self.frame = self.frame + 1;
        self.step.advance(scaling_done, slowing_done);
    }

    /// The status-line suffix, e.g. `" | frame: 625, time: 10.0 s"`.
    pub fn info(&self) -> (r: String)
        ensures
            r@ == info_spec(*self),
    {
        if self.frame == 0 {
            return String::new();
        }
        let tenths: u128 = (self.frame as u128 * 16 + 50) / 100;
        let mut r = String::from_str(" | frame: ");
        r.append(dec_string(self.frame as u128).as_str());
        r.append(", time: ");
        r.append(dec_string(tenths / 10).as_str());
        r.append(".");
        r.append(dec_string(tenths % 10).as_str());
        r.append(" s");
        if !self.active {
            r.append(" [paused]");
        }
        proof {
            assert(tenths as nat == tenths_spec(self.frame as nat));
            assert(r@ =~= info_spec(*self));
        }
        r
    }
}

/// The machine after delivering one tick per entry of `preds`, each entry
/// supplying that tick's `(scaling_done, slowing_done)` pair.
pub open spec fn run_steps(s: AnimStep, preds: Seq<(bool, bool)>) -> AnimStep
    decreases preds.len(),
{
    if preds.len() == 0 {
        s
    } else {
        run_steps(advance_spec(s, preds[0].0, preds[0].1), preds.drop_first())
    }
}

/// How many of those ticks end with the shift pointer settling on the
/// next item, which is the tick that lands in `Shifting(0)`.
pub open spec fn settle_count(s: AnimStep, preds: Seq<(bool, bool)>) -> nat
    decreases preds.len(),
{
    if preds.len() == 0 {
        0
    } else {
        let s2 = advance_spec(s, preds[0].0, preds[0].1);
        (if s2 == AnimStep::Shifting(0) {
            1nat
        } else {
            0nat
        }) + settle_count(s2, preds.drop_first())
    }
}

/// Law: from `Shifting(n)` the machine reaches `Idle(IDLE_FRAMES)` after
/// exactly `n + 1` ticks, whatever the predicates say on the way, and the
/// shift pointer settles exactly once during the phase (never, if the
/// phase somehow began on an already spent countdown).
pub proof fn lemma_shifting_phase(n: u64, preds: Seq<(bool, bool)>)
    requires
        preds.len() == n + 1,
    ensures
        run_steps(AnimStep::Shifting(n), preds) == AnimStep::Idle(IDLE_FRAMES),
        settle_count(AnimStep::Shifting(n), preds) == if n >= 1 {
            1nat
        } else {
            0nat
        },
    decreases n,
{
    let s2 = advance_spec(AnimStep::Shifting(n), preds[0].0, preds[0].1);
    assert(run_steps(AnimStep::Shifting(n), preds) == run_steps(s2, preds.drop_first()));
    assert(settle_count(AnimStep::Shifting(n), preds) == (if s2 == AnimStep::Shifting(0u64) {
        1nat
    } else {
        0nat
    }) + settle_count(s2, preds.drop_first()));
    if n == 0 {
        assert(s2 == AnimStep::Idle(IDLE_FRAMES));
        assert(preds.drop_first().len() == 0);
        assert(run_steps(s2, preds.drop_first()) == s2);
        assert(settle_count(s2, preds.drop_first()) == 0);
    } else {
        assert(s2 == AnimStep::Shifting((n - 1) as u64));
        lemma_shifting_phase((n - 1) as u64, preds.drop_first());
    }
}

/// Law: from `Idle(n)` the machine starts `Scaling` after exactly `n + 1`
/// ticks, whatever the predicates say, and the shift pointer never
/// settles during the phase.
pub proof fn lemma_idle_phase(n: u64, preds: Seq<(bool, bool)>)
    requires
        preds.len() == n + 1,
    ensures
        run_steps(AnimStep::Idle(n), preds) == AnimStep::Scaling,
        settle_count(AnimStep::Idle(n), preds) == 0,
    decreases n,
{
    let s2 = advance_spec(AnimStep::Idle(n), preds[0].0, preds[0].1);
    assert(run_steps(AnimStep::Idle(n), preds) == run_steps(s2, preds.drop_first()));
    assert(settle_count(AnimStep::Idle(n), preds) == (if s2 == AnimStep::Shifting(0u64) {
        1nat
    } else {
        0nat
    }) + settle_count(s2, preds.drop_first()));
    if n == 0 {
        assert(s2 == AnimStep::Scaling);
        assert(preds.drop_first().len() == 0);
        assert(run_steps(s2, preds.drop_first()) == s2);
        assert(settle_count(s2, preds.drop_first()) == 0);
    } else {
        assert(s2 == AnimStep::Idle((n - 1) as u64));
        lemma_idle_phase((n - 1) as u64, preds.drop_first());
    }
}

/// Law: `Scaling` persists for as long as `scaling_done` stays false,
/// with the shift pointer never settling meanwhile.
pub proof fn lemma_scaling_holds(preds: Seq<(bool, bool)>)
    requires
        forall|i: int| 0 <= i < preds.len() ==> !(#[trigger] preds[i]).0,
    ensures
        run_steps(AnimStep::Scaling, preds) == AnimStep::Scaling,
        settle_count(AnimStep::Scaling, preds) == 0,
    decreases preds.len(),
{
    if preds.len() > 0 {
        let s2 = advance_spec(AnimStep::Scaling, preds[0].0, preds[0].1);
        assert(s2 == AnimStep::Scaling);
        lemma_scaling_holds(preds.drop_first());
    }
}

/// Law: the first tick on which `scaling_done` holds moves `Scaling` to
/// `Slowing` with its full nominal countdown.
pub proof fn lemma_scaling_fires(slowing_done: bool)
    ensures
        advance_spec(AnimStep::Scaling, true, slowing_done) == AnimStep::Slowing(SLOWING_FRAMES),
{
}

/// Law: with `slowing_done` never true, `Slowing(n)` reaches
/// `Pausing(PAUSING_FRAMES)` after exactly `n + 1` ticks, and the shift
/// pointer never settles during the phase.
pub proof fn lemma_slowing_phase(n: u64, preds: Seq<(bool, bool)>)
    requires
        preds.len() == n + 1,
        forall|i: int| 0 <= i < preds.len() ==> !(#[trigger] preds[i]).1,
    ensures
        run_steps(AnimStep::Slowing(n), preds) == AnimStep::Pausing(PAUSING_FRAMES),
        settle_count(AnimStep::Slowing(n), preds) == 0,
    decreases n,
{
    let s2 = advance_spec(AnimStep::Slowing(n), preds[0].0, preds[0].1);
    assert(run_steps(AnimStep::Slowing(n), preds) == run_steps(s2, preds.drop_first()));
    assert(settle_count(AnimStep::Slowing(n), preds) == (if s2 == AnimStep::Shifting(0u64) {
        1nat
    } else {
        0nat
    }) + settle_count(s2, preds.drop_first()));
    if n == 0 {
        assert(s2 == AnimStep::Pausing(PAUSING_FRAMES));
        assert(preds.drop_first().len() == 0);
        assert(run_steps(s2, preds.drop_first()) == s2);
        assert(settle_count(s2, preds.drop_first()) == 0);
    } else {
        assert(s2 == AnimStep::Slowing((n - 1) as u64));
        lemma_slowing_phase((n - 1) as u64, preds.drop_first());
    }
}

/// Law: a tick on which `slowing_done` holds ends `Slowing` at once.
pub proof fn lemma_slowing_cut_short(n: u64, scaling_done: bool)
    ensures
        advance_spec(AnimStep::Slowing(n), scaling_done, true) == AnimStep::Pausing(PAUSING_FRAMES),
{
}

/// Law: from `Pausing(n)` the machine starts `Shifting(SHIFTING_FRAMES)`
/// after exactly `n + 1` ticks, whatever the predicates say, and the
/// shift pointer never settles during the phase.
pub proof fn lemma_pausing_phase(n: u64, preds: Seq<(bool, bool)>)
    requires
        preds.len() == n + 1,
    ensures
        run_steps(AnimStep::Pausing(n), preds) == AnimStep::Shifting(SHIFTING_FRAMES),
        settle_count(AnimStep::Pausing(n), preds) == 0,
    decreases n,
{
    let s2 = advance_spec(AnimStep::Pausing(n), preds[0].0, preds[0].1);
    assert(run_steps(AnimStep::Pausing(n), preds) == run_steps(s2, preds.drop_first()));
    assert(settle_count(AnimStep::Pausing(n), preds) == (if s2 == AnimStep::Shifting(0u64) {
        1nat
    } else {
        0nat
    }) + settle_count(s2, preds.drop_first()));
    if n == 0 {
        assert(s2 == AnimStep::Shifting(SHIFTING_FRAMES));
        assert(preds.drop_first().len() == 0);
        assert(run_steps(s2, preds.drop_first()) == s2);
        assert(settle_count(s2, preds.drop_first()) == 0);
    } else {
        assert(s2 == AnimStep::Pausing((n - 1) as u64));
        lemma_pausing_phase((n - 1) as u64, preds.drop_first());
    }
}

/// Running a tick sequence splits at any concatenation point, for the
/// reached state and for the settle count alike.
pub proof fn lemma_run_steps_concat(s: AnimStep, p1: Seq<(bool, bool)>, p2: Seq<(bool, bool)>)
    ensures
        run_steps(s, p1 + p2) == run_steps(run_steps(s, p1), p2),
        settle_count(s, p1 + p2) == settle_count(s, p1) + settle_count(run_steps(s, p1), p2),
    decreases p1.len(),
{
    if p1.len() == 0 {
        assert(p1 + p2 =~= p2);
        assert(run_steps(s, p1) == s);
        assert(settle_count(s, p1) == 0);
    } else {
        let s2 = advance_spec(s, p1[0].0, p1[0].1);
        assert((p1 + p2)[0] == p1[0]);
        assert((p1 + p2).drop_first() =~= p1.drop_first() + p2);
        assert(run_steps(s, p1 + p2) == run_steps(s2, p1.drop_first() + p2));
        assert(settle_count(s, p1 + p2) == (if s2 == AnimStep::Shifting(0u64) {
            1nat
        } else {
            0nat
        }) + settle_count(s2, p1.drop_first() + p2));
        assert(run_steps(s, p1) == run_steps(s2, p1.drop_first()));
        assert(settle_count(s, p1) == (if s2 == AnimStep::Shifting(0u64) {
            1nat
        } else {
            0nat
        }) + settle_count(s2, p1.drop_first()));
        lemma_run_steps_concat(s2, p1.drop_first(), p2);
    }
}

/// Law: one full pass through the cycle.  From `Shifting(n)` the phases
/// run down in order -- `Shifting`, `Idle`, `Scaling` until its
/// predicate fires, `Slowing`, `Pausing` -- and the machine is back at
/// the start of `Shifting` with the shift pointer settled exactly once.
pub proof fn lemma_full_cycle(
    n: u64,
    pa: Seq<(bool, bool)>,
    pb: Seq<(bool, bool)>,
    pc: Seq<(bool, bool)>,
    t: (bool, bool),
    pd: Seq<(bool, bool)>,
    pe: Seq<(bool, bool)>,
)
    requires
        n >= 1,
        pa.len() == n + 1,
        pb.len() == IDLE_FRAMES + 1,
        forall|i: int| 0 <= i < pc.len() ==> !(#[trigger] pc[i]).0,
        t.0,
        pd.len() == SLOWING_FRAMES + 1,
        forall|i: int| 0 <= i < pd.len() ==> !(#[trigger] pd[i]).1,
        pe.len() == PAUSING_FRAMES + 1,
    ensures
        run_steps(AnimStep::Shifting(n), pa + pb + pc + seq![t] + pd + pe) == AnimStep::Shifting(
            SHIFTING_FRAMES,
        ),
        settle_count(AnimStep::Shifting(n), pa + pb + pc + seq![t] + pd + pe) == 1,
{
    let w = pa + pb + pc + seq![t] + pd + pe;
    let r1 = pb + pc + seq![t] + pd + pe;
    let r2 = pc + seq![t] + pd + pe;
    let r3 = seq![t] + pd + pe;
    let r4 = pd + pe;
    assert(w =~= pa + r1);
    assert(r1 =~= pb + r2);
    assert(r2 =~= pc + r3);
    assert(r3 =~= seq![t] + r4);

    lemma_shifting_phase(n, pa);
    lemma_run_steps_concat(AnimStep::Shifting(n), pa, r1);

    lemma_idle_phase(IDLE_FRAMES, pb);
    lemma_run_steps_concat(AnimStep::Idle(IDLE_FRAMES), pb, r2);

    lemma_scaling_holds(pc);
    lemma_run_steps_concat(AnimStep::Scaling, pc, r3);

    let s2 = advance_spec(AnimStep::Scaling, t.0, t.1);
    assert(s2 == AnimStep::Slowing(SLOWING_FRAMES));
    assert(seq![t][0] == t);
    assert(seq![t].drop_first().len() == 0);
    assert(run_steps(s2, seq![t].drop_first()) == s2);
    assert(settle_count(s2, seq![t].drop_first()) == 0);
    assert(run_steps(AnimStep::Scaling, seq![t]) == s2);
    assert(settle_count(AnimStep::Scaling, seq![t]) == 0);
    lemma_run_steps_concat(AnimStep::Scaling, seq![t], r4);

    lemma_slowing_phase(SLOWING_FRAMES, pd);
    lemma_run_steps_concat(AnimStep::Slowing(SLOWING_FRAMES), pd, pe);

    lemma_pausing_phase(PAUSING_FRAMES, pe);
}

} // verus!
