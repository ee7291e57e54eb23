use scale_comparison::animation::{AnimStep, Animation, SHIFTING_FRAMES, SLOWING_FRAMES};
use scale_comparison::viewport::{controller_tick, step_effects, ShiftEffect, SpeedEffect};

#[test]
fn test_step_effects_mapping() {
    assert_eq!(
        step_effects(&AnimStep::Idle(5)),
        (SpeedEffect::Reset, ShiftEffect::Keep)
    );
    assert_eq!(
        step_effects(&AnimStep::Pausing(0)),
        (SpeedEffect::Reset, ShiftEffect::Keep)
    );
    assert_eq!(
        step_effects(&AnimStep::Scaling),
        (SpeedEffect::Accelerate, ShiftEffect::Keep)
    );
    assert_eq!(
        step_effects(&AnimStep::Slowing(SLOWING_FRAMES)),
        (
            SpeedEffect::EaseDown {
                capture: true,
                countdown: SLOWING_FRAMES
            },
            ShiftEffect::Keep
        )
    );
    assert_eq!(
        step_effects(&AnimStep::Slowing(2)),
        (
            SpeedEffect::EaseDown {
                capture: false,
                countdown: 2
            },
            ShiftEffect::Keep
        )
    );
    assert_eq!(
        step_effects(&AnimStep::Slowing(0)),
        (SpeedEffect::Reset, ShiftEffect::Keep)
    );
    assert_eq!(
        step_effects(&AnimStep::Shifting(100)),
        (
            SpeedEffect::Keep,
            ShiftEffect::Ease { countdown: 100 }
        )
    );
    assert_eq!(
        step_effects(&AnimStep::Shifting(0)),
        (SpeedEffect::Keep, ShiftEffect::Settle)
    );
}

/// A full pass through the cycle tells the host to settle the shift
/// pointer exactly once.
#[test]
fn test_one_settle_per_cycle() {
    let mut a = Animation::default();
    a.active = true;
    let mut settles = 0;
    // Shifting phase, then Idle, then Scaling ended on one tick, then
    // Slowing and Pausing run down, back to the start of Shifting.
    let mut scaling_done = false;
    loop {
        let (_, shift) = controller_tick(&mut a, scaling_done, false);
        if shift == ShiftEffect::Settle {
            settles += 1;
        }
        scaling_done = a.step == AnimStep::Scaling;
        if a.step == AnimStep::Shifting(SHIFTING_FRAMES) {
            break;
        }
    }
    assert_eq!(settles, 1);
}

const SCALE_PADDING: f64 = 2.85;
const IDLE_SCALE_SPEED: f64 = 0.025;
const SCALE_ACCELERATION: f64 = 0.25;
const INITIAL_SLOW_SCALE_SPEED: f64 = 3.0;
const FPS: f64 = 62.5;

/// The host side of one controller tick, applying the decided effects
/// to its floating-point scale, speed and shift.
struct Host {
    animation: Animation,
    scale: f64,
    scale_speed: f64,
    slow_scale_speed: f64,
    prev_shift: f64,
    shift: f64,
}

impl Host {
    fn init(exponents: &[f64]) -> Self {
        Host {
            animation: Animation::default(),
            scale: exponents.first().copied().unwrap_or(0.0) - SCALE_PADDING,
            scale_speed: IDLE_SCALE_SPEED,
            slow_scale_speed: 0.0,
            prev_shift: 0.0,
            shift: 0.0,
        }
    }

    /// Returns true when this tick settled the shift pointer.
    fn update(&mut self, exponents: &[f64]) -> bool {
        let scaling_done = {
            let i = self.shift.floor();
            if i <= 0.0 {
                true
            } else {
                match exponents.get(i as usize - 1) {
                    Some(e) => e - self.scale <= SCALE_PADDING,
                    None => false,
                }
            }
        };
        let slowing_done = self.scale_speed <= IDLE_SCALE_SPEED;
        let (speed, shift) = controller_tick(&mut self.animation, scaling_done, slowing_done);
        match speed {
            SpeedEffect::Reset => self.scale_speed = IDLE_SCALE_SPEED,
            SpeedEffect::Accelerate => self.scale_speed += SCALE_ACCELERATION / FPS,
            SpeedEffect::EaseDown { capture, countdown } => {
                if capture {
                    self.slow_scale_speed = self.scale_speed.min(INITIAL_SLOW_SCALE_SPEED);
                }
                let progress = countdown as f32 / SLOWING_FRAMES as f32;
                self.scale_speed = IDLE_SCALE_SPEED
                    + (self.slow_scale_speed - IDLE_SCALE_SPEED)
                        * simple_easing::cubic_out(progress) as f64;
            }
            SpeedEffect::Keep => {}
        }
        let mut settled = false;
        match shift {
            ShiftEffect::Keep => {}
            ShiftEffect::Ease { countdown } => {
                let progress = 1.0 - (countdown as f32 / SHIFTING_FRAMES as f32);
                self.shift = self.prev_shift + simple_easing::cubic_in_out(progress) as f64;
            }
            ShiftEffect::Settle => {
                self.prev_shift += 1.0;
                self.shift = self.prev_shift;
                settled = true;
            }
        }
        self.scale += self.scale_speed / FPS;
        settled
    }
}

/// End-to-end scenario: with items at ascending exponents, the shift
/// pointer advances by exactly one whole step per cycle, each cycle ends
/// only once the scale has caught up to the item it was scaling toward,
/// and the scale never decreases.
#[test]
fn test_viewport_scenario() {
    let exponents = [-23.0, 3.0, 5.0, 17.0];
    let mut host = Host::init(&exponents);
    host.animation.active = true;
    assert_eq!(host.scale, -23.0 - SCALE_PADDING);

    let mut settles: Vec<(f64, f64)> = Vec::new();
    let mut prev_scale = host.scale;
    let mut prev_shift_seen = host.shift;
    for _ in 0..40000 {
        let settled = host.update(&exponents);
        assert!(host.scale >= prev_scale, "scale decreased");
        assert!(host.shift >= prev_shift_seen, "shift decreased");
        if settled {
            settles.push((host.shift, host.scale));
        }
        prev_scale = host.scale;
        prev_shift_seen = host.shift;
    }

    // One settle per item the camera moved past: the initial shift plus
    // one per completed scaling cycle.
    assert_eq!(settles.len(), 5);
    for (k, (shift, _)) in settles.iter().enumerate() {
        assert_eq!(*shift, (k + 1) as f64);
    }
    // Each cycle's scaling phase ended only once the scale had caught up
    // to within the padding of the item it was heading for.
    for (shift, scale_then) in settles.iter().skip(1) {
        let item = exponents[*shift as usize - 2];
        assert!(item - scale_then <= SCALE_PADDING);
    }
    // Past the last item the machine is left scaling without end.
    assert_eq!(host.shift, 5.0);
    assert_eq!(host.animation.step, AnimStep::Scaling);
}
