//! What holds of the player's controller over one tick and over many.

use vstd::prelude::*;
use crate::fixed::{boxed, over_time, Vec2, LIMIT};
use crate::kinematics::{
    next_velocity_x, next_velocity_y, vertical_acceleration, NOMINAL_VERTICAL,
};
use crate::player::dash::{DashView, DASH_COOLDOWN, DASH_FRAMES};
use crate::player::jump::{JumpView, MAX_JUMP};
use crate::player::movement::{
    control, dash_after, dashing, in_jump, jump_after, pending, player_friction, press,
    press_all, pressed, state_after, wall_slide, Budgets, PlayerActions, PlayerStates, Tick,
};
use crate::timer::TimerView;

verus! {

/// The controller of the player between two ticks.
pub struct Controller {
    pub jump: JumpView,
    pub dash: DashView,
    pub state: PlayerStates,
}

impl Controller {
    pub open spec fn wf(self) -> bool {
        self.jump.wf() && self.dash.wf()
    }

    /// The controller after the tick `t`.
    pub open spec fn step(self, t: Tick) -> Controller {
        Controller {
            jump: jump_after(self.jump, self.dash, self.state, t),
            dash: dash_after(self.jump, self.dash, t),
            state: state_after(self.jump, self.dash, self.state, t),
        }
    }

    /// The controller after the ticks `ticks`, in order.
    pub open spec fn run(self, ticks: Seq<Tick>) -> Controller
        decreases ticks.len(),
    {
        if ticks.len() == 0 {
            self
        } else {
            self.run(ticks.drop_last()).step(ticks.last())
        }
    }
}

/// The time that `ticks` take together, in nanoseconds.
pub open spec fn time_of(ticks: Seq<Tick>) -> nat
    decreases ticks.len(),
{
    if ticks.len() == 0 {
        0
    } else {
        time_of(ticks.drop_last()) + ticks.last().dt as nat
    }
}

/// A tick that leaves a dash alone: no jump is granted on it, and dash is not
/// pressed.
pub open spec fn undisturbed(c: Controller, t: Tick) -> bool {
    &&& !pressed(c.jump, c.dash, t).jumped
    &&& forall|i: int| 0 <= i < t.just_pressed.len() ==> t.just_pressed[i] != PlayerActions::Dash
}

/// Presses keep the budgets valid, and they never give a jump back.
pub proof fn lemma_press_all(b: Budgets, actions: Seq<PlayerActions>)
    requires
        b.jump.wf(),
        b.dash.wf(),
    ensures
        press_all(b, actions).jump.wf(),
        press_all(b, actions).dash.wf(),
        press_all(b, actions).jump.count >= b.jump.count,
        b.jumped ==> press_all(b, actions).jumped,
    decreases actions.len(),
{
    if actions.len() > 0 {
        lemma_press_all(b, actions.drop_last());
    }
}

/// The velocity that a tick leaves lies in the box of half side [`LIMIT`],
/// whatever the velocity before and whatever the tick.
pub proof fn lemma_velocity_in_box(c: Controller, velocity: Vec2, t: Tick)
    ensures
        -LIMIT <= next_velocity_x(
            t.grounded,
            velocity,
            player_friction(),
            control(c.jump, c.dash, t),
        ) <= LIMIT,
        -LIMIT <= next_velocity_y(
            t.grounded,
            velocity,
            t.gravity,
            t.dt,
            control(c.jump, c.dash, t),
        ) <= LIMIT,
{
}

/// The jump count never exceeds [`MAX_JUMP`], and a tick that finds the
/// player on the ground and not in a jump brings it back to zero.
pub proof fn lemma_jump_budget(c: Controller, t: Tick)
    requires
        c.wf(),
    ensures
        c.step(t).wf(),
        c.step(t).jump.count <= MAX_JUMP,
        t.grounded && !in_jump(c.jump, c.dash, c.state, t) ==> c.step(t).jump.count == 0,
{
    let start = Budgets {
        jump: if wall_slide(t) {
            c.jump.slide()
        } else {
            c.jump
        },
        dash: c.dash,
        jumped: false,
    };
    lemma_press_all(start, t.just_pressed);
}

/// Over any number of ticks the budgets stay valid: the jump count never
/// exceeds [`MAX_JUMP`].
pub proof fn lemma_run_keeps_budgets(c: Controller, ticks: Seq<Tick>)
    requires
        c.wf(),
    ensures
        c.run(ticks).wf(),
        c.run(ticks).jump.count <= MAX_JUMP,
    decreases ticks.len(),
{
    if ticks.len() > 0 {
        lemma_run_keeps_budgets(c, ticks.drop_last());
        lemma_jump_budget(c.run(ticks.drop_last()), ticks.last());
    }
}

/// With the jump budget used up no press gives a jump: the jump budget and
/// the jumped flag stay as they are.
pub proof fn lemma_full_budget(b: Budgets, actions: Seq<PlayerActions>)
    requires
        b.jump.count >= MAX_JUMP,
    ensures
        press_all(b, actions).jump == b.jump,
        press_all(b, actions).jumped == b.jumped,
    decreases actions.len(),
{
    if actions.len() > 0 {
        lemma_full_budget(b, actions.drop_last());
    }
}

/// With the jump budget used up, a press of jump among the presses of a tick
/// is as good as left out.
pub proof fn lemma_press_refused_jump(
    b: Budgets,
    before: Seq<PlayerActions>,
    after: Seq<PlayerActions>,
)
    requires
        b.jump.count >= MAX_JUMP,
    ensures
        press_all(b, before.push(PlayerActions::Jump) + after) == press_all(b, before + after),
    decreases after.len(),
{
    let with = before.push(PlayerActions::Jump) + after;
    let without = before + after;
    if after.len() == 0 {
        assert(with =~= before.push(PlayerActions::Jump));
        assert(without =~= before);
        assert(with.drop_last() =~= before);
        lemma_full_budget(b, before);
    } else {
        assert(with.drop_last() =~= before.push(PlayerActions::Jump) + after.drop_last());
        assert(without.drop_last() =~= before + after.drop_last());
        assert(with.last() == after.last());
        assert(without.last() == after.last());
        lemma_press_refused_jump(b, before, after.drop_last());
    }
}

/// A jump request is a no-op when the jump count is already [`MAX_JUMP`]:
/// on a tick without a wall slide, which would give one jump back, the tick
/// ends the same with the request as without it, in the budgets, in the
/// movement state, and in what is handed to the integrator.
pub proof fn lemma_refused_jump_is_noop(
    c: Controller,
    rotation: i8,
    translation: Option<Vec2>,
    t: Tick,
    before: Seq<PlayerActions>,
    after: Seq<PlayerActions>,
)
    requires
        c.jump.count >= MAX_JUMP,
        !wall_slide(t),
        t.just_pressed == before + after,
    ensures
        ({
            let asked = Tick {
                just_pressed: before.push(PlayerActions::Jump) + after,
                ..t
            };
            &&& c.step(asked) == c.step(t)
            &&& control(c.jump, c.dash, asked) == control(c.jump, c.dash, t)
            &&& pending(c.jump, c.dash, rotation, translation, asked) == pending(
                c.jump,
                c.dash,
                rotation,
                translation,
                t,
            )
        }),
{
    let asked = Tick { just_pressed: before.push(PlayerActions::Jump) + after, ..t };
    let start = Budgets { jump: c.jump, dash: c.dash, jumped: false };
    lemma_press_refused_jump(start, before, after);
    assert(wall_slide(asked) == wall_slide(t));
    assert(pressed(c.jump, c.dash, asked) == pressed(c.jump, c.dash, t));
}

/// A single jump request is refused, and changes nothing, exactly when the
/// jump count is [`MAX_JUMP`].
pub proof fn lemma_jump_request(b: Budgets)
    requires
        b.jump.wf(),
    ensures
        b.jump.count == MAX_JUMP ==> press(b, PlayerActions::Jump) == b,
        b.jump.count < MAX_JUMP ==> press(b, PlayerActions::Jump).jump.count == b.jump.count + 1
            && press(b, PlayerActions::Jump).jumped && !press(b, PlayerActions::Jump).dash.is_used,
{
}

/// While the cooldown runs and no dash is under way, no press starts a dash.
pub proof fn lemma_no_dash_while_cooling(b: Budgets, actions: Seq<PlayerActions>)
    requires
        !b.dash.is_used,
        !b.dash.can_dash(),
    ensures
        press_all(b, actions).dash == b.dash,
    decreases actions.len(),
{
    if actions.len() > 0 {
        lemma_no_dash_while_cooling(b, actions.drop_last());
    }
}

/// A dash cannot be started before the cooldown has run out. From a
/// controller whose cooldown runs, as it does from the tick on which a dash
/// ended, and for as long as the cooldown's time and the ticks since come to
/// less than [`DASH_COOLDOWN`] together, no tick is a frame of a dash,
/// whatever is pressed; the first tick that brings the time up to
/// [`DASH_COOLDOWN`] leaves the dash ready.
pub proof fn lemma_dash_cooldown(c: Controller, ticks: Seq<Tick>)
    requires
        c.wf(),
        !c.dash.is_used,
        !c.dash.cooldown_time.finished,
    ensures
        c.dash.cooldown_time.elapsed + time_of(ticks) < DASH_COOLDOWN ==> {
            &&& !c.run(ticks).dash.is_used
            &&& !c.run(ticks).dash.can_dash()
            &&& c.run(ticks).dash.cooldown_time.elapsed == c.dash.cooldown_time.elapsed + time_of(
                ticks,
            )
            &&& forall|t: Tick| !dashing(c.run(ticks).jump, c.run(ticks).dash, t)
        },
        ticks.len() > 0 && c.dash.cooldown_time.elapsed + time_of(ticks.drop_last())
            < DASH_COOLDOWN <= c.dash.cooldown_time.elapsed + time_of(ticks) ==> {
            &&& !c.run(ticks).dash.is_used
            &&& c.run(ticks).dash.can_dash()
        },
    decreases ticks.len(),
{
    lemma_run_keeps_budgets(c, ticks);
    if ticks.len() > 0 {
        let earlier = ticks.drop_last();
        let t = ticks.last();
        lemma_dash_cooldown(c, earlier);
        lemma_run_keeps_budgets(c, earlier);
        let d = c.run(earlier);
        if c.dash.cooldown_time.elapsed + time_of(earlier) < DASH_COOLDOWN {
            let start = Budgets {
                jump: if wall_slide(t) {
                    d.jump.slide()
                } else {
                    d.jump
                },
                dash: d.dash,
                jumped: false,
            };
            lemma_no_dash_while_cooling(start, t.just_pressed);
        }
    }
    if c.dash.cooldown_time.elapsed + time_of(ticks) < DASH_COOLDOWN {
        let d = c.run(ticks);
        assert forall|t: Tick| !dashing(d.jump, d.dash, t) by {
            let start = Budgets {
                jump: if wall_slide(t) {
                    d.jump.slide()
                } else {
                    d.jump
                },
                dash: d.dash,
                jumped: false,
            };
            lemma_no_dash_while_cooling(start, t.just_pressed);
        }
    }
}

/// Presses among which no jump is granted and none is of dash leave the
/// budgets as they are.
pub proof fn lemma_idle_presses(b: Budgets, actions: Seq<PlayerActions>)
    requires
        !press_all(b, actions).jumped,
        forall|i: int| 0 <= i < actions.len() ==> actions[i] != PlayerActions::Dash,
    ensures
        press_all(b, actions) == b,
    decreases actions.len(),
{
    if actions.len() > 0 {
        lemma_idle_presses(b, actions.drop_last());
    }
}

/// The tick on which a dash is granted is its first frame.
pub proof fn lemma_dash_starts(c: Controller, t: Tick)
    requires
        c.wf(),
        !c.dash.is_used,
        c.dash.can_dash(),
        t.just_pressed == seq![PlayerActions::Dash],
    ensures
        dashing(c.jump, c.dash, t),
        c.step(t).dash.is_used,
        c.step(t).dash.frames_count == 1,
{
    assert(t.just_pressed.drop_last() =~= Seq::<PlayerActions>::empty());
    reveal_with_fuel(press_all, 2);
}

/// A dash lasts exactly [`DASH_FRAMES`] frames. Over ticks that leave it
/// alone, a dash that has had `n` frames is under way for the next
/// `DASH_FRAMES - n - 1` ticks, each of them a frame of it, and ends on the
/// tick after, which is a frame too and leaves the cooldown started anew with
/// nothing gathered.
pub proof fn lemma_dash_length(c: Controller, ticks: Seq<Tick>)
    requires
        c.wf(),
        c.dash.is_used,
        forall|k: int|
            0 <= k < ticks.len() ==> undisturbed(#[trigger] c.run(ticks.take(k)), ticks[k]),
        c.dash.frames_count + ticks.len() <= DASH_FRAMES,
    ensures
        c.run(ticks).dash.frames_count == c.dash.frames_count + ticks.len(),
        c.run(ticks).dash.is_used <==> c.dash.frames_count + ticks.len() < DASH_FRAMES,
        c.dash.frames_count + ticks.len() == DASH_FRAMES ==> c.run(ticks).dash.cooldown_time
            == TimerView::fresh(DASH_COOLDOWN as nat),
        ticks.len() > 0 ==> dashing(
            c.run(ticks.drop_last()).jump,
            c.run(ticks.drop_last()).dash,
            ticks.last(),
        ),
    decreases ticks.len(),
{
    if ticks.len() > 0 {
        let earlier = ticks.drop_last();
        let t = ticks.last();
        assert forall|k: int| 0 <= k < earlier.len() implies undisturbed(
            #[trigger] c.run(earlier.take(k)),
            earlier[k],
        ) by {
            assert(earlier.take(k) =~= ticks.take(k));
            assert(undisturbed(c.run(ticks.take(k)), ticks[k]));
        }
        lemma_dash_length(c, earlier);
        lemma_run_keeps_budgets(c, earlier);
        let d = c.run(earlier);
        let start = Budgets {
            jump: if wall_slide(t) {
                d.jump.slide()
            } else {
                d.jump
            },
            dash: d.dash,
            jumped: false,
        };
        assert(ticks.take(ticks.len() - 1) =~= earlier);
        assert(undisturbed(c.run(ticks.take(ticks.len() - 1)), ticks[ticks.len() - 1]));
        lemma_idle_presses(start, t.just_pressed);
    }
}

/// A ceiling hit resets the vertical velocity within the tick that reports
/// it: the velocity after the tick starts from [`NOMINAL_VERTICAL`], which is
/// not negative, and owes nothing to the velocity before.
pub proof fn lemma_ceiling_resets_vertical(c: Controller, velocity: Vec2, other: Vec2, t: Tick)
    requires
        t.stop_jump,
    ensures
        control(c.jump, c.dash, t).reset_vertical,
        NOMINAL_VERTICAL >= 0,
        next_velocity_y(t.grounded, velocity, t.gravity, t.dt, control(c.jump, c.dash, t))
            == boxed(
            NOMINAL_VERTICAL + control(c.jump, c.dash, t).push.y + over_time(
                vertical_acceleration(t.grounded, t.gravity, control(c.jump, c.dash, t)),
                t.dt as int,
            ),
        ),
        next_velocity_y(t.grounded, velocity, t.gravity, t.dt, control(c.jump, c.dash, t))
            == next_velocity_y(t.grounded, other, t.gravity, t.dt, control(c.jump, c.dash, t)),
{
}

} // verus!
