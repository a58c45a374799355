//! The movement state machine of the player.
//!
//! One call of [`move_player`] is one tick. It reads the input intent and the
//! contact events of the tick, spends and refills the jump and dash budgets,
//! moves the player between idling, running, jumping and falling, and hands
//! what it decided to the kinematic integrator.

use vstd::prelude::*;
use crate::entities::ActiveEntity;
use crate::events::{SlideEvent, StopJump, WallPosition};
use crate::fixed::{Vec2, SCALE};
use crate::kinematics::{
    grounded_of, integrate, integrated, is_grounded, Control, Friction, Step, NO_DAMPING,
};
use crate::player::dash::{DashInfo, DashView, DASH_SPEED_FACTOR};
use crate::player::jump::{JumpInfo, JumpView, CEILING_ADVANCE};

verus! {

/// The horizontal speed, in steps per second, that one step of the input
/// axis asks for: 58 world units per second at full deflection.
pub const SPEED: i64 = 58;

/// The vertical velocity that a jump adds on the tick it is granted.
pub const JUMP_IMPULSE: i64 = 1_000_000_000;

/// The vertical acceleration that a wall slide adds.
pub const SLIDE_SCALE: i64 = -21_000_000;

/// The way that one tick of a dash makes, in the direction faced.
pub const DASH_DISTANCE: i64 = 35_000_000;

/// The friction of the player.
pub open spec fn player_friction() -> Friction {
    Friction { ground: 90, air: 95 }
}

/// The name tag of the player.
#[derive(Clone, Debug)]
pub struct Player(pub String);

/// The movement states of the player.
#[derive(Clone, Copy, Debug, PartialEq, Eq, Structural, Hash)]
pub enum PlayerStates {
    Idle,
    Run,
    Jump,
    Fall,
}

impl Default for PlayerStates {
    fn default() -> (s: PlayerStates)
        ensures
            s == PlayerStates::Idle,
    {
        PlayerStates::Idle
    }
}

/// The actions that the input layer knows.
#[derive(Clone, Copy, Debug, PartialEq, Eq, Structural, Hash)]
pub enum PlayerActions {
    Move,
    Jump,
    Dash,
    Save,
    Attack,
}

/// The input intent of one tick.
#[derive(Clone, Debug)]
pub struct InputIntent {
    /// The horizontal axis, [`SCALE`] at full deflection to the right.
    pub axis: i32,
    /// The actions newly pressed on this tick, in the order in which they are
    /// to be heard.
    pub just_pressed: Vec<PlayerActions>,
}

/// All that one tick of the player reads.
pub struct Tick {
    /// The length of the tick in nanoseconds.
    pub dt: u64,
    pub gravity: Vec2,
    pub grounded: bool,
    pub axis: i32,
    pub just_pressed: Seq<PlayerActions>,
    /// Whether a ceiling hit was reported.
    pub stop_jump: bool,
    pub sliding: Seq<SlideEvent>,
}

/// The side faced after a tick: the side of the axis, if it is deflected.
pub open spec fn facing(axis: i32, rotation: i8) -> i8 {
    if axis == 0 {
        rotation
    } else if axis < 0 {
        -1i8
    } else {
        1i8
    }
}

/// Whether the player slides down a wall on this tick: it is airborne, a wall
/// contact was reported, and the axis is pressed fully into the wall of the
/// last contact.
pub open spec fn wall_slide(t: Tick) -> bool {
    &&& !t.grounded
    &&& t.sliding.len() > 0
    &&& t.sliding.last().0.sign() * SCALE == t.axis
}

/// The budgets while the presses of a tick are heard.
pub struct Budgets {
    pub jump: JumpView,
    pub dash: DashView,
    /// Whether a jump was granted on this tick.
    pub jumped: bool,
}

/// The budgets after one press. A granted jump calls off a dash under way; a
/// refused jump, like a press of anything but jump and dash, changes nothing.
pub open spec fn press(b: Budgets, action: PlayerActions) -> Budgets {
    match action {
        PlayerActions::Jump => if b.jump.can_jump() {
            Budgets { jump: b.jump.jump(), dash: b.dash.cancel(), jumped: true }
        } else {
            b
        },
        PlayerActions::Dash => Budgets { jump: b.jump, dash: b.dash.dash(), jumped: b.jumped },
        _ => b,
    }
}

/// The budgets after the presses `actions`, heard in order.
pub open spec fn press_all(b: Budgets, actions: Seq<PlayerActions>) -> Budgets
    decreases actions.len(),
{
    if actions.len() == 0 {
        b
    } else {
        press(press_all(b, actions.drop_last()), actions.last())
    }
}

/// The budgets after the wall slide and the presses of the tick.
pub open spec fn pressed(jump: JumpView, dash: DashView, t: Tick) -> Budgets {
    press_all(
        Budgets {
            jump: if wall_slide(t) {
                jump.slide()
            } else {
                jump
            },
            dash,
            jumped: false,
        },
        t.just_pressed,
    )
}

/// Whether the tick finds the player in a jump: it was in one, or one was
/// granted on this tick.
pub open spec fn in_jump(jump: JumpView, dash: DashView, state: PlayerStates, t: Tick) -> bool {
    state == PlayerStates::Jump || pressed(jump, dash, t).jumped
}

/// The jump budget after the tick. A ceiling hit advances the time aloft by
/// [`CEILING_ADVANCE`]; a jump gathers the tick's time; standing on the
/// ground outside of a jump makes the budget whole.
pub open spec fn jump_after(jump: JumpView, dash: DashView, state: PlayerStates, t: Tick)
    -> JumpView {
    let heard = pressed(jump, dash, t).jump;
    let stopped = if t.stop_jump {
        heard.rise(CEILING_ADVANCE as nat)
    } else {
        heard
    };
    if in_jump(jump, dash, state, t) {
        stopped.rise(t.dt as nat)
    } else if t.grounded {
        stopped.land()
    } else {
        stopped
    }
}

/// The movement state after the tick.
pub open spec fn state_after(jump: JumpView, dash: DashView, state: PlayerStates, t: Tick)
    -> PlayerStates {
    if in_jump(jump, dash, state, t) {
        if jump_after(jump, dash, state, t).time_up.finished {
            PlayerStates::Fall
        } else {
            PlayerStates::Jump
        }
    } else if t.grounded {
        if t.axis == 0 {
            PlayerStates::Idle
        } else {
            PlayerStates::Run
        }
    } else {
        PlayerStates::Fall
    }
}

/// Whether the tick is a frame of a dash.
pub open spec fn dashing(jump: JumpView, dash: DashView, t: Tick) -> bool {
    pressed(jump, dash, t).dash.is_used
}

/// The dash after the tick: the cooldown gathers the tick's time, and a dash
/// under way gains a frame.
pub open spec fn dash_after(jump: JumpView, dash: DashView, t: Tick) -> DashView {
    pressed(jump, dash, t).dash.cool(t.dt as nat).advance(t.dt as nat)
}

/// What the player's controller hands to the integrator.
pub open spec fn control(jump: JumpView, dash: DashView, t: Tick) -> Control {
    Control {
        push: Vec2 {
            x: (t.axis * SPEED) as i64,
            y: if pressed(jump, dash, t).jumped {
                JUMP_IMPULSE
            } else {
                0
            },
        },
        reset_vertical: wall_slide(t) || pressed(jump, dash, t).jumped || t.stop_jump,
        lift: if wall_slide(t) {
            SLIDE_SCALE
        } else {
            0
        },
        damping: if dashing(jump, dash, t) {
            DASH_SPEED_FACTOR
        } else {
            NO_DAMPING
        },
    }
}

/// The translation that the integrator starts from: on a frame of a dash the
/// fixed way of the dash in the direction faced, whatever was pending.
pub open spec fn pending(
    jump: JumpView,
    dash: DashView,
    rotation: i8,
    translation: Option<Vec2>,
    t: Tick,
) -> Option<Vec2> {
    if dashing(jump, dash, t) {
        Some(Vec2 { x: (facing(t.axis, rotation) * DASH_DISTANCE) as i64, y: 0 })
    } else {
        translation
    }
}

/// Hears the presses of one tick.
fn hear(jump_info: &mut JumpInfo, dash_info: &mut DashInfo, actions: &Vec<PlayerActions>) -> (jumped:
    bool)
    ensures
        (Budgets { jump: final(jump_info)@, dash: final(dash_info)@, jumped }) == press_all(
            Budgets { jump: old(jump_info)@, dash: old(dash_info)@, jumped: false },
            actions@,
        ),
{
    let mut jumped = false;
    let mut i: usize = 0;
    let ghost start = Budgets { jump: jump_info@, dash: dash_info@, jumped: false };
    while i < actions.len()
        invariant
            i <= actions.len(),
            (Budgets { jump: jump_info@, dash: dash_info@, jumped }) == press_all(
                start,
                actions@.take(i as int),
            ),
        decreases actions.len() - i,
    {
        assert(actions@.take(i + 1).drop_last() == actions@.take(i as int));
        match actions[i] {
            PlayerActions::Jump => {
                if jump_info.jump() {
                    dash_info.cancel();
                    jumped = true;
                }
            },
            PlayerActions::Dash => {
                dash_info.dash();
            },
            _ => {},
        }
        i = i + 1;
    }
    assert(actions@.take(i as int) == actions@);
    jumped
}

/// One tick of the player.
///
/// `dt` is the length of the tick in nanoseconds. `controller_output` is the
/// grounded flag that the physics engine reported for the last translation,
/// if it reported. `translation` holds what is pending for the physics
/// engine and receives the request of this tick. `stop_jump` and `sliding`
/// are the contact events of the tick.
pub fn move_player(
    dt: u64,
    gravity: Vec2,
    jump_info: &mut JumpInfo,
    dash_info: &mut DashInfo,
    intent: &InputIntent,
    player: &mut ActiveEntity<PlayerStates>,
    translation: &mut Option<Vec2>,
    controller_output: Option<bool>,
    stop_jump: &Vec<StopJump>,
    sliding: &Vec<SlideEvent>,
)
    ensures
        ({
            let t = Tick {
                dt,
                gravity,
                grounded: is_grounded(controller_output),
                axis: intent.axis,
                just_pressed: intent.just_pressed@,
                stop_jump: stop_jump.len() > 0,
                sliding: sliding@,
            };
            let jump = old(jump_info)@;
            let dash = old(dash_info)@;
            &&& final(jump_info)@ == jump_after(jump, dash, old(player).current_state, t)
            &&& final(dash_info)@ == dash_after(jump, dash, t)
            &&& final(player).rotation == facing(t.axis, old(player).rotation)
            &&& final(player).current_state == state_after(
                jump,
                dash,
                old(player).current_state,
                t,
            )
            &&& *final(translation) is Some
            &&& integrated(
                t.grounded,
                old(player).velocity,
                gravity,
                dt,
                player_friction(),
                control(jump, dash, t),
                pending(jump, dash, old(player).rotation, *old(translation), t),
                Step {
                    velocity: final(player).velocity,
                    translation: final(translation)->Some_0,
                },
            )
        }),
        final(player).velocity.in_box(),
        final(translation)->Some_0.in_box(),
        final(jump_info)@.count <= crate::player::jump::MAX_JUMP,
{
    let grounded = grounded_of(controller_output);
    let axis: i32 = intent.axis;
    if axis != 0 {
        player.rotation = if axis < 0 {
            -1
        } else {
            1
        };
    }
    let mut slid = false;
    if !grounded && sliding.len() > 0 {
        let side: i64 = match sliding[sliding.len() - 1].0 {
            WallPosition::Left => -1,
            WallPosition::Right => 1,
        };
        if side * SCALE == axis as i64 {
            jump_info.slide();
            slid = true;
        }
    }
    let jumped = hear(jump_info, dash_info, &intent.just_pressed);
    dash_info.cool(dt);
    let stopped = stop_jump.len() > 0;
    if stopped {
        jump_info.rise(CEILING_ADVANCE);
    }
    if jumped || player.current_state == PlayerStates::Jump {
        let over = jump_info.rise(dt);
        player.current_state = if over {
            PlayerStates::Fall
        } else {
            PlayerStates::Jump
        };
    } else if grounded {
        jump_info.land();
        player.current_state = if axis == 0 {
            PlayerStates::Idle
        } else {
            PlayerStates::Run
        };
    } else {
        player.current_state = PlayerStates::Fall;
    }
    let is_dashing = dash_info.advance(dt);
    let start: Option<Vec2> = if is_dashing {
        Some(Vec2 { x: player.rotation as i64 * DASH_DISTANCE, y: 0 })
    } else {
        *translation
    };
    let steer = Control {
        push: Vec2 {
            x: axis as i64 * SPEED,
            y: if jumped {
                JUMP_IMPULSE
            } else {
                0
            },
        },
        reset_vertical: slid || jumped || stopped,
        lift: if slid {
            SLIDE_SCALE
        } else {
            0
        },
        damping: if is_dashing {
            DASH_SPEED_FACTOR
        } else {
            NO_DAMPING
        },
    };
    let step = integrate(
        grounded,
        player.velocity,
        gravity,
        dt,
        Friction { ground: 90, air: 95 },
        steer,
        start,
    );
    player.velocity = step.velocity;
    *translation = Some(step.translation);
    proof {
        use_type_invariant(&*jump_info);
    }
}

} // verus!
