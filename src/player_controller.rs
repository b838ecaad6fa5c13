//! Kinematic locomotion: held keys become a movement intent and a discrete
//! state, gravity is integrated while airborne, and each tick yields the
//! translation requested from the physics engine.
use vstd::prelude::*;

verus! {

/// Horizontal speed while walking: 1.8 m/s.
pub const WALKING_SPEED: i64 = 1_800_000;

/// Horizontal speed while running: 4.0 m/s.
pub const RUNNING_SPEED: i64 = 4_000_000;

/// Horizontal speed of the sprint tier: 6.0 m/s, above the running speed.
pub const SPRINTING_SPEED: i64 = 6_000_000;

/// Vertical speed set on every grounded tick, which keeps the capsule pressed
/// against the ground on slopes: -3.0 m/s.
pub const CONTACT_SPEED: i64 = -3_000_000;

/// Speed lost per millisecond of free fall: 9.8 m/s².
pub const GRAVITY: i64 = 9_800;

/// The discrete locomotion state; exactly one is active at a time.
#[derive(PartialEq, Eq, Structural, Clone, Copy, Debug, Hash)]
pub enum PlayerState {
    Idle,
    Walking,
    Running,
    Sprinting,
    Jumping,
    Aiming,
}

/// The keys and buttons held during one tick.
#[derive(PartialEq, Eq, Structural, Clone, Copy, Debug)]
pub struct ControlInput {
    pub forward: bool,
    pub back: bool,
    pub right: bool,
    pub left: bool,
    pub jump: bool,
    pub sprint: bool,
    pub aim: bool,
}

/// The movement intent in the camera-relative basis: `forward` along the
/// camera's horizontal facing, `right` across it. Each axis is -1, 0 or 1.
#[derive(PartialEq, Eq, Structural, Clone, Copy, Debug)]
pub struct MovementDirection {
    pub forward: i8,
    pub right: i8,
}

/// Vertical speed in µm/s; negative is downward.
#[derive(PartialEq, Eq, Structural, Clone, Copy, Debug)]
pub struct VerticalSpeed(pub i64);

/// A translation in µm over the camera-relative basis: `forward` and `right`
/// are horizontal, `up` is vertical.
#[derive(PartialEq, Eq, Structural, Clone, Copy, Debug)]
pub struct Translation {
    pub forward: i64,
    pub right: i64,
    pub up: i64,
}

/// One axis of the intent: 1 for the positive key alone, -1 for the negative
/// key alone, 0 for both or neither.
pub open spec fn axis(positive: bool, negative: bool) -> int {
    (if positive { 1int } else { 0int }) - (if negative { 1int } else { 0int })
}

/// The intent asks for horizontal movement.
pub open spec fn is_moving(d: MovementDirection) -> bool {
    d.forward != 0 || d.right != 0
}

/// The state chosen on a grounded tick.
pub open spec fn classify(d: MovementDirection, input: ControlInput) -> PlayerState {
    if input.jump {
        PlayerState::Jumping
    } else if is_moving(d) {
        if input.sprint {
            PlayerState::Running
        } else {
            PlayerState::Walking
        }
    } else if input.aim {
        PlayerState::Aiming
    } else {
        PlayerState::Idle
    }
}

/// The horizontal speed of a state in µm/s: zero when idle, jumping or
/// aiming.
pub open spec fn speed_spec(state: PlayerState) -> int {
    match state {
        PlayerState::Walking => WALKING_SPEED as int,
        PlayerState::Running => RUNNING_SPEED as int,
        PlayerState::Sprinting => SPRINTING_SPEED as int,
        _ => 0,
    }
}

/// The vertical speed after one tick of `dt` milliseconds.
pub open spec fn gravity_step(speed: int, grounded: bool, dt: int) -> int {
    if grounded {
        CONTACT_SPEED as int
    } else {
        speed - GRAVITY * dt
    }
}

/// The distance in µm covered at `speed` µm/s during `dt` milliseconds,
/// rounded toward zero.
pub open spec fn distance(speed: int, dt: int) -> int {
    if speed >= 0 {
        speed * dt / 1000
    } else {
        -((-speed) * dt / 1000)
    }
}

/// The intent that the held keys give.
pub fn movement_direction(input: &ControlInput) -> (d: MovementDirection)
    ensures
        d.forward == axis(input.forward, input.back),
        d.right == axis(input.right, input.left),
{
    let mut forward: i8 = 0;
    let mut right: i8 = 0;
    if input.forward {
        forward = forward + 1;
    }
    if input.back {
        forward = forward - 1;
    }
    if input.right {
        right = right + 1;
    }
    if input.left {
        right = right - 1;
    }
    MovementDirection { forward, right }
}

/// The state that a grounded tick selects from the intent and the held keys.
pub fn classify_state(d: &MovementDirection, input: &ControlInput) -> (s: PlayerState)
    ensures
        s == classify(*d, *input),
{
    if input.jump {
        PlayerState::Jumping
    } else if d.forward != 0 || d.right != 0 {
        if input.sprint {
            PlayerState::Running
        } else {
            PlayerState::Walking
        }
    } else if input.aim {
        PlayerState::Aiming
    } else {
        PlayerState::Idle
    }
}

/// The horizontal speed of a state in µm/s.
pub fn speed_of(state: PlayerState) -> (v: i64)
    ensures
        v == speed_spec(state),
        v >= 0,
{
    match state {
        PlayerState::Walking => WALKING_SPEED,
        PlayerState::Running => RUNNING_SPEED,
        PlayerState::Sprinting => SPRINTING_SPEED,
        _ => 0,
    }
}

/// The locomotion state of one actor.
///
/// `grounded` is the ground contact that the physics engine reported after the
/// previous move: state classification and gravity read it one tick late.
#[derive(PartialEq, Eq, Structural, Clone, Copy, Debug)]
pub struct PlayerController {
    pub state: PlayerState,
    pub direction: MovementDirection,
    pub vertical_speed: VerticalSpeed,
    pub grounded: bool,
}

impl PlayerController {
    /// Idle, with no intent, no vertical speed and no ground contact yet.
    pub fn new() -> (c: PlayerController)
        ensures
            c.state == PlayerState::Idle,
            c.direction == (MovementDirection { forward: 0, right: 0 }),
            c.vertical_speed.0 == 0,
            !c.grounded,
    {
        PlayerController {
            state: PlayerState::Idle,
            direction: MovementDirection { forward: 0, right: 0 },
            vertical_speed: VerticalSpeed(0),
            grounded: false,
        }
    }

    /// Reads the held keys: the intent always follows them; the state is
    /// classified anew only on a grounded tick and kept while airborne.
    pub fn update_state(&mut self, input: &ControlInput)
        ensures
            final(self).direction.forward == axis(input.forward, input.back),
            final(self).direction.right == axis(input.right, input.left),
            final(self).state == (if old(self).grounded {
                classify(final(self).direction, *input)
            } else {
                old(self).state
            }),
            final(self).vertical_speed == old(self).vertical_speed,
            final(self).grounded == old(self).grounded,
    {
        let d = movement_direction(input);
        self.direction = d;
        if self.grounded {
            self.state = classify_state(&d, input);
        }
    }

    /// Integrates gravity over a tick of `dt` milliseconds: a grounded actor
    /// gets the contact speed, an airborne one falls faster, without limit.
    pub fn apply_gravity(&mut self, dt: u32)
        requires
            gravity_step(old(self).vertical_speed.0 as int, old(self).grounded, dt as int)
                >= i64::MIN,
        ensures
            final(self).vertical_speed.0 == gravity_step(
                old(self).vertical_speed.0 as int,
                old(self).grounded,
                dt as int,
            ),
            final(self).state == old(self).state,
            final(self).direction == old(self).direction,
            final(self).grounded == old(self).grounded,
    {
        if self.grounded {
            self.vertical_speed = VerticalSpeed(CONTACT_SPEED);
        } else {
            let fall: i64 = GRAVITY * (dt as i64);
            self.vertical_speed = VerticalSpeed(self.vertical_speed.0 - fall);
        }
    }

    /// The translation requested for a tick of `dt` milliseconds: the intent
    /// scaled by the state's speed, plus the vertical speed.
    pub fn translation(&self, dt: u32) -> (t: Translation)
        requires
            i64::MIN <= distance(self.vertical_speed.0 as int, dt as int) <= i64::MAX,
        ensures
            t.forward == self.direction.forward * distance(speed_spec(self.state), dt as int),
            t.right == self.direction.right * distance(speed_spec(self.state), dt as int),
            t.up == distance(self.vertical_speed.0 as int, dt as int),
    {
        let speed: i64 = speed_of(self.state);
        proof {
            let product = speed * dt;
            assert(0 <= product <= 6_000_000 * 4_294_967_295int) by (nonlinear_arith)
                requires
                    0 <= speed <= 6_000_000,
                    0 <= dt <= 4_294_967_295int,
                    product == speed * dt,
            ;
        }
        let step: i64 = scaled_distance(speed, dt);
        proof {
            let f = self.direction.forward as int;
            let r = self.direction.right as int;
            assert(-128 * step <= f * step <= 128 * step) by (nonlinear_arith)
                requires
                    -128 <= f <= 127,
                    0 <= step,
            ;
            assert(-128 * step <= r * step <= 128 * step) by (nonlinear_arith)
                requires
                    -128 <= r <= 127,
                    0 <= step,
            ;
        }
        let up: i64 = scaled_distance(self.vertical_speed.0, dt);
        Translation {
            forward: (self.direction.forward as i64) * step,
            right: (self.direction.right as i64) * step,
            up,
        }
    }

    /// Whether the actor turns toward the camera's horizontal facing rather
    /// than away from its movement direction.
    pub fn faces_camera(&self) -> (b: bool)
        ensures
            b == (self.state == PlayerState::Aiming),
    {
        match self.state {
            PlayerState::Aiming => true,
            _ => false,
        }
    }

    /// One tick before the physics move: classify, integrate gravity, and
    /// return the translation to request.
    pub fn tick(&mut self, input: &ControlInput, dt: u32) -> (t: Translation)
        requires
            gravity_step(old(self).vertical_speed.0 as int, old(self).grounded, dt as int)
                >= i64::MIN,
            i64::MIN <= distance(
                gravity_step(old(self).vertical_speed.0 as int, old(self).grounded, dt as int),
                dt as int,
            ) <= i64::MAX,
        ensures
            final(self).direction.forward == axis(input.forward, input.back),
            final(self).direction.right == axis(input.right, input.left),
            final(self).state == (if old(self).grounded {
                classify(final(self).direction, *input)
            } else {
                old(self).state
            }),
            final(self).vertical_speed.0 == gravity_step(
                old(self).vertical_speed.0 as int,
                old(self).grounded,
                dt as int,
            ),
            final(self).grounded == old(self).grounded,
            t.forward == final(self).direction.forward * distance(
                speed_spec(final(self).state),
                dt as int,
            ),
            t.right == final(self).direction.right * distance(
                speed_spec(final(self).state),
                dt as int,
            ),
            t.up == distance(final(self).vertical_speed.0 as int, dt as int),
    {
        self.update_state(input);
        self.apply_gravity(dt);
        self.translation(dt)
    }

    /// Stores the ground contact that the physics engine reported after the
    /// move, for the next tick.
    pub fn record_contact(&mut self, grounded: bool)
        ensures
            *final(self) == (PlayerController { grounded, ..*old(self) }),
    {
        self.grounded = grounded;
    }
}

/// The distance in µm covered at `speed` during `dt` milliseconds.
pub fn scaled_distance(speed: i64, dt: u32) -> (d: i64)
    requires
        i64::MIN <= distance(speed as int, dt as int) <= i64::MAX,
    ensures
        d == distance(speed as int, dt as int),
{
    let dt_wide: i128 = dt as i128;
    if speed >= 0 {
        let product: i128 = (speed as i128) * dt_wide;
        (product / 1000) as i64
    } else {
        let magnitude: i128 = -(speed as i128);
        let product: i128 = magnitude * dt_wide;
        -((product / 1000) as i128) as i64
    }
}

/// No key or button is held.
pub open spec fn no_input(input: ControlInput) -> bool {
    !input.forward && !input.back && !input.right && !input.left && !input.jump && !input.sprint
        && !input.aim
}

/// The vertical speed after `n` airborne ticks of `dt` milliseconds each.
pub open spec fn airborne_speed(start: int, dt: int, n: nat) -> int
    decreases n,
{
    if n == 0 {
        start
    } else {
        gravity_step(airborne_speed(start, dt, (n - 1) as nat), false, dt)
    }
}

/// On a grounded tick with nothing held, the actor becomes idle and requests
/// no horizontal movement, whatever its previous state.
pub proof fn lemma_idle_without_input(input: ControlInput, dt: nat)
    requires
        no_input(input),
    ensures
        ({
            let d = MovementDirection {
                forward: axis(input.forward, input.back) as i8,
                right: axis(input.right, input.left) as i8,
            };
            &&& classify(d, input) == PlayerState::Idle
            &&& d.forward * distance(speed_spec(classify(d, input)), dt as int) == 0
            &&& d.right * distance(speed_spec(classify(d, input)), dt as int) == 0
        }),
{
}

/// Free fall is unclamped: after `n` airborne ticks of `dt` milliseconds the
/// vertical speed is the starting one minus gravity times the elapsed time,
/// and it never increases from one tick to the next.
pub proof fn lemma_free_fall(start: int, dt: nat, n: nat)
    ensures
        airborne_speed(start, dt as int, n) == start - GRAVITY * dt * n,
        airborne_speed(start, dt as int, n + 1) <= airborne_speed(start, dt as int, n),
    decreases n,
{
    if n > 0 {
        lemma_free_fall(start, dt, (n - 1) as nat);
        assert(GRAVITY * dt * (n - 1) + GRAVITY * dt == GRAVITY * dt * n) by (nonlinear_arith);
    }
    assert(airborne_speed(start, dt as int, n + 1) == airborne_speed(start, dt as int, n) - GRAVITY
        * dt);
    assert(GRAVITY * dt >= 0) by (nonlinear_arith)
        requires
            dt >= 0,
    ;
}

} // verus!
