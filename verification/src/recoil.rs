//! Recoil compensation: moves the mouse against the weapon's aim punch while
//! the player keeps firing.
//!
//! Reading the player's pawn, the mouse sensitivity and the aim punch angle,
//! and turning the angle into mouse counts, is floating-point work done by the
//! caller. The decisions (when to compensate, when to start over, which mouse
//! movement to send) are made here.
use vstd::prelude::*;

verus! {

/// A relative mouse movement to send to the game.
#[derive(PartialEq, Eq, Structural, Debug, Clone, Copy)]
pub struct MouseMove {
    pub last_x: i32,
    pub last_y: i32,
}

/// The recoil compensation state: the mouse target that the movements sent so
/// far have reached.
pub struct AntiAimPunsh {
    mouse_adjustment_x: i32,
    mouse_adjustment_y: i32,
}

/// One step of recoil compensation, from the adjustment reached so far, the
/// target (`mouse_x`, `mouse_y`) for the current aim punch, the shots fired
/// and the minimum shot count. Below the minimum nothing happens. When the
/// toggle has just been switched on, at the first shot, or at exactly the
/// minimum, the adjustment is reset to the target and nothing is sent.
/// Otherwise the difference to the target is sent, unless it is zero, and
/// the target becomes the adjustment.
pub open spec fn spec_compensate(
    adjustment: (i32, i32),
    just_enabled: bool,
    shots_fired: i32,
    min_bullets: i32,
    mouse_x: i32,
    mouse_y: i32,
) -> ((i32, i32), Option<MouseMove>) {
    if shots_fired < min_bullets {
        (adjustment, None)
    } else if just_enabled || shots_fired <= 1 || shots_fired == min_bullets {
        ((mouse_x, mouse_y), None)
    } else if mouse_x == adjustment.0 && mouse_y == adjustment.1 {
        (adjustment, None)
    } else {
        (
            (mouse_x, mouse_y),
            Some(
                MouseMove {
                    last_x: (mouse_x - adjustment.0) as i32,
                    last_y: (-(mouse_y - adjustment.1)) as i32,
                },
            ),
        )
    }
}

/// The movement that a step would send fits the mouse state's integers: the
/// step resets or sends nothing, or both differences (and the negated
/// vertical one) lie in range of an `i32`.
pub open spec fn spec_movement_in_range(
    adjustment: (i32, i32),
    just_enabled: bool,
    shots_fired: i32,
    min_bullets: i32,
    mouse_x: i32,
    mouse_y: i32,
) -> bool {
    (shots_fired < min_bullets || just_enabled || shots_fired <= 1 || shots_fired == min_bullets)
        || {
        &&& i32::MIN <= mouse_x - adjustment.0 <= i32::MAX
        &&& i32::MIN <= mouse_y - adjustment.1 <= i32::MAX
        &&& i32::MIN <= -(mouse_y - adjustment.1) <= i32::MAX
    }
}

impl AntiAimPunsh {
    /// The adjustment reached so far, horizontal and vertical.
    pub closed spec fn adjustment(&self) -> (i32, i32) {
        (self.mouse_adjustment_x, self.mouse_adjustment_y)
    }

    /// Compensation that has moved nothing yet.
    pub fn new() -> (punsh: Self)
        ensures
            punsh.adjustment() == (0i32, 0i32),
    {
        AntiAimPunsh { mouse_adjustment_x: 0, mouse_adjustment_y: 0 }
    }

    /// The adjustment reached so far, horizontal and vertical.
    pub fn mouse_adjustment(&self) -> (adjustment: (i32, i32))
        ensures
            adjustment == self.adjustment(),
    {
        (self.mouse_adjustment_x, self.mouse_adjustment_y)
    }

    /// Whether the compensation runs this frame: the settings menu is closed
    /// and the toggle is on.
    pub fn is_active(settings_visible: bool, toggle_enabled: bool) -> (active: bool)
        ensures
            active == (!settings_visible && toggle_enabled),
    {
        !settings_visible && toggle_enabled
    }

    /// Whether the toggle has just been switched on: its state changed this
    /// frame and it is now on.
    pub fn just_enabled(toggle_state_changed: bool, toggle_enabled: bool) -> (just: bool)
        ensures
            just == (toggle_state_changed && toggle_enabled),
    {
        toggle_state_changed && toggle_enabled
    }

    /// The minimum shot count from its setting; a setting that does not fit
    /// the game's shot counter counts as 1.
    pub fn min_bullets(setting: u32) -> (min_bullets: i32)
        ensures
            setting <= i32::MAX ==> min_bullets == setting,
            setting > i32::MAX ==> min_bullets == 1,
    {
        if setting <= 2147483647u32 {
            setting as i32
        } else {
            1
        }
    }

    /// Whether the player has fired enough shots for compensation: at least
    /// the minimum.
    pub fn enough_shots(shots_fired: i32, min_bullets: i32) -> (enough: bool)
        ensures
            enough == (shots_fired >= min_bullets),
    {
        shots_fired >= min_bullets
    }

    /// Whether `compensate` with these inputs stays within the mouse state's
    /// integers (the game's own arithmetic overflows otherwise).
    pub fn movement_in_range(
        &self,
        just_enabled: bool,
        shots_fired: i32,
        min_bullets: i32,
        mouse_x: i32,
        mouse_y: i32,
    ) -> (in_range: bool)
        ensures
            in_range == spec_movement_in_range(
                self.adjustment(),
                just_enabled,
                shots_fired,
                min_bullets,
                mouse_x,
                mouse_y,
            ),
    {
        if shots_fired < min_bullets || just_enabled || shots_fired <= 1 || shots_fired
            == min_bullets {
            return true;
        }
        let dx: i64 = mouse_x as i64 - self.mouse_adjustment_x as i64;
        let dy: i64 = mouse_y as i64 - self.mouse_adjustment_y as i64;
        -2147483648i64 <= dx && dx <= 2147483647i64 && -2147483647i64 <= dy && dy
            <= 2147483647i64
    }

    /// One step of recoil compensation: returns the mouse movement to send,
    /// if any. A reset takes effect at once; a movement takes effect when
    /// `movement_sent` reports it sent, so that a movement that could not be
    /// sent leaves the adjustment as it was. Together the two calls make the
    /// step that `spec_compensate` describes.
    pub fn compensate(
        &mut self,
        just_enabled: bool,
        shots_fired: i32,
        min_bullets: i32,
        mouse_x: i32,
        mouse_y: i32,
    ) -> (movement: Option<MouseMove>)
        requires
            spec_movement_in_range(
                old(self).adjustment(),
                just_enabled,
                shots_fired,
                min_bullets,
                mouse_x,
                mouse_y,
            ),
        ensures
            movement == spec_compensate(
                old(self).adjustment(),
                just_enabled,
                shots_fired,
                min_bullets,
                mouse_x,
                mouse_y,
            ).1,
            final(self).adjustment() == (if movement.is_some() {
                old(self).adjustment()
            } else {
                spec_compensate(
                    old(self).adjustment(),
                    just_enabled,
                    shots_fired,
                    min_bullets,
                    mouse_x,
                    mouse_y,
                ).0
            }),
    {
        if shots_fired < min_bullets {
            return None;
        }
        if just_enabled || shots_fired <= 1 || shots_fired == min_bullets {
            self.mouse_adjustment_x = mouse_x;
            self.mouse_adjustment_y = mouse_y;
            return None;
        }
        let delta_x = mouse_x - self.mouse_adjustment_x;
        let delta_y = mouse_y - self.mouse_adjustment_y;
        if delta_x != 0 || delta_y != 0 {
            Some(MouseMove { last_x: delta_x, last_y: -delta_y })
        } else {
            None
        }
    }

    /// The movement that `compensate` returned for the target (`mouse_x`,
    /// `mouse_y`) has been sent: the target becomes the adjustment.
    pub fn movement_sent(&mut self, mouse_x: i32, mouse_y: i32)
        ensures
            final(self).adjustment() == (mouse_x, mouse_y),
    {
        self.mouse_adjustment_x = mouse_x;
        self.mouse_adjustment_y = mouse_y;
    }
}

/// The movements sent reach the target: when a step sends a movement, the
/// new adjustment is the old one moved by it (the vertical axis inverted),
/// and it equals the step's target.
pub proof fn lemma_movement_reaches_target(
    adjustment: (i32, i32),
    just_enabled: bool,
    shots_fired: i32,
    min_bullets: i32,
    mouse_x: i32,
    mouse_y: i32,
)
    requires
        spec_movement_in_range(adjustment, just_enabled, shots_fired, min_bullets, mouse_x, mouse_y),
    ensures
        ({
            let (next, movement) = spec_compensate(
                adjustment,
                just_enabled,
                shots_fired,
                min_bullets,
                mouse_x,
                mouse_y,
            );
            movement matches Some(m) ==> {
                &&& next.0 == adjustment.0 + m.last_x
                &&& next.1 == adjustment.1 - m.last_y
                &&& next == (mouse_x, mouse_y)
            }
        }),
{
}

/// Repeating a step with the same inputs sends nothing the second time: a
/// target already reached is not moved to again.
pub proof fn lemma_repeated_target_sends_nothing(
    adjustment: (i32, i32),
    just_enabled: bool,
    shots_fired: i32,
    min_bullets: i32,
    mouse_x: i32,
    mouse_y: i32,
)
    ensures
        spec_compensate(
            spec_compensate(
                adjustment,
                just_enabled,
                shots_fired,
                min_bullets,
                mouse_x,
                mouse_y,
            ).0,
            just_enabled,
            shots_fired,
            min_bullets,
            mouse_x,
            mouse_y,
        ).1 is None,
{
}

/// The inputs of one compensation step, as a caller hands them over.
pub struct RecoilInput {
    pub just_enabled: bool,
    pub shots_fired: i32,
    pub min_bullets: i32,
    pub mouse_x: i32,
    pub mouse_y: i32,
}

/// One step with the movement, if any, reported sent.
pub open spec fn spec_step(adjustment: (i32, i32), input: RecoilInput) -> ((i32, i32), Option<MouseMove>) {
    spec_compensate(
        adjustment,
        input.just_enabled,
        input.shots_fired,
        input.min_bullets,
        input.mouse_x,
        input.mouse_y,
    )
}

/// A step that tracks the aim punch: the toggle was already on, the player
/// keeps firing past the minimum, and the movement fits the integers.
pub open spec fn is_tracking(adjustment: (i32, i32), input: RecoilInput) -> bool {
    &&& !input.just_enabled
    &&& input.shots_fired >= input.min_bullets
    &&& input.shots_fired > 1
    &&& input.shots_fired != input.min_bullets
    &&& spec_movement_in_range(
        adjustment,
        input.just_enabled,
        input.shots_fired,
        input.min_bullets,
        input.mouse_x,
        input.mouse_y,
    )
}

/// Every step of a run tracks the aim punch.
pub open spec fn all_tracking(adjustment: (i32, i32), inputs: Seq<RecoilInput>) -> bool
    decreases inputs.len(),
{
    inputs.len() == 0 || (is_tracking(adjustment, inputs[0]) && all_tracking(
        spec_step(adjustment, inputs[0]).0,
        inputs.drop_first(),
    ))
}

/// A run of steps: the adjustment reached at its end, and the sums of the
/// horizontal and vertical movements sent.
pub open spec fn spec_run(adjustment: (i32, i32), inputs: Seq<RecoilInput>) -> ((i32, i32), int, int)
    decreases inputs.len(),
{
    if inputs.len() == 0 {
        (adjustment, 0, 0)
    } else {
        let (next, movement) = spec_step(adjustment, inputs[0]);
        let (end, sum_x, sum_y) = spec_run(next, inputs.drop_first());
        match movement {
            Some(m) => (end, sum_x + m.last_x, sum_y + m.last_y),
            None => (end, sum_x, sum_y),
        }
    }
}

/// Over a run of tracking steps, the movements sent add up to the change of
/// target: horizontally the target's change, vertically its negation; and the
/// adjustment ends at the last step's target.
pub proof fn lemma_movements_add_up(adjustment: (i32, i32), inputs: Seq<RecoilInput>)
    requires
        all_tracking(adjustment, inputs),
    ensures
        spec_run(adjustment, inputs).1 == spec_run(adjustment, inputs).0.0 - adjustment.0,
        spec_run(adjustment, inputs).2 == -(spec_run(adjustment, inputs).0.1 - adjustment.1),
        inputs.len() > 0 ==> spec_run(adjustment, inputs).0 == (
            inputs.last().mouse_x,
            inputs.last().mouse_y,
        ),
    decreases inputs.len(),
{
    if inputs.len() > 0 {
        let next = spec_step(adjustment, inputs[0]).0;
        lemma_movements_add_up(next, inputs.drop_first());
        if inputs.len() > 1 {
            assert(inputs.drop_first().last() == inputs.last());
        }
    }
}

/// What one step does, by case. Below the minimum shot count nothing is
/// sent and the adjustment stays. When the toggle has just been switched on,
/// at the first shot, or at exactly the minimum, nothing is sent and the
/// adjustment jumps to the target. Otherwise a movement is sent exactly when
/// the target differs from the adjustment, by the horizontal difference and
/// the negated vertical one, and the adjustment then stands at the target.
pub proof fn lemma_compensate_cases(
    adjustment: (i32, i32),
    just_enabled: bool,
    shots_fired: i32,
    min_bullets: i32,
    mouse_x: i32,
    mouse_y: i32,
)
    requires
        spec_movement_in_range(adjustment, just_enabled, shots_fired, min_bullets, mouse_x, mouse_y),
    ensures
        ({
            let (next, movement) = spec_compensate(
                adjustment,
                just_enabled,
                shots_fired,
                min_bullets,
                mouse_x,
                mouse_y,
            );
            &&& shots_fired < min_bullets ==> next == adjustment && movement is None
            &&& shots_fired >= min_bullets && (just_enabled || shots_fired <= 1 || shots_fired
                == min_bullets) ==> next == (mouse_x, mouse_y) && movement is None
            &&& shots_fired >= min_bullets && !just_enabled && shots_fired > 1 && shots_fired
                != min_bullets ==> {
                &&& movement is Some <==> (mouse_x != adjustment.0 || mouse_y != adjustment.1)
                &&& next == (mouse_x, mouse_y)
                &&& movement matches Some(m) ==> m.last_x == mouse_x - adjustment.0 && m.last_y
                    == adjustment.1 - mouse_y
            }
        }),
{
}

} // verus!
