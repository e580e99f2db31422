//! Avatar posture and movement actions: an explicit state per avatar, a
//! single dispatch function per action, and the collision-sensor setting
//! that follows from the state.
//!
//! Velocity itself is floating point and stays with the physics engine: the
//! dispatch says which velocity change an action makes, the caller makes it.
use vstd::prelude::*;

verus! {

/// Posture of an avatar.
#[derive(Clone, Copy, Debug, PartialEq, Eq, Structural)]
pub enum PlayerState {
    Standing,
    Crouching,
    Airborne,
    Sliding,
}

/// Movement actions of an avatar on the ground. The direction of `Run` and
/// `Crouch` stays with the caller; for a crouch the caller says whether the
/// slope allows it (no direction, or one that does not lead uphill).
#[derive(Clone, Copy, Debug, PartialEq, Eq, Structural)]
pub enum StandingAction {
    Run,
    Jump,
    Crouch { slope_permits: bool },
    Uncrouch,
}

/// Movement actions of an avatar in the air.
#[derive(Clone, Copy, Debug, PartialEq, Eq, Structural)]
pub enum AirborneAction {
    Move,
}

/// The velocity change an action asks of the physics engine.
#[derive(Clone, Copy, Debug, PartialEq, Eq, Structural)]
pub enum VelocityEffect {
    Unchanged,
    /// Add direction times acceleration times the tick's duration.
    Accelerate,
    /// Set the vertical velocity to the jump impulse.
    Jump,
}

/// An avatar's posture and whether something is right above its head.
#[derive(Clone, Copy, Debug, PartialEq, Eq, Structural)]
pub struct Posture {
    pub state: PlayerState,
    pub head_blocked: bool,
}

/// Whether the avatar stands on something.
pub open spec fn grounded(s: PlayerState) -> bool {
    s != PlayerState::Airborne
}

/// The posture after a standing action. Only a grounded avatar acts: a
/// crouch needs a permitting slope and enters `Crouching`; an uncrouch leaves
/// it for `Standing` only with nothing above the head.
pub open spec fn standing_next(p: Posture, a: StandingAction) -> PlayerState {
    if !grounded(p.state) {
        p.state
    } else {
        match a {
            StandingAction::Crouch { slope_permits } => if slope_permits && p.state
                != PlayerState::Crouching {
                PlayerState::Crouching
            } else {
                p.state
            },
            StandingAction::Uncrouch => if p.state == PlayerState::Crouching && !p.head_blocked {
                PlayerState::Standing
            } else {
                p.state
            },
            _ => p.state,
        }
    }
}

/// The velocity change of a standing action: running accelerates, jumping
/// sets the vertical speed; crouching changes none. Nothing in the air.
pub open spec fn standing_effect(p: Posture, a: StandingAction) -> VelocityEffect {
    if !grounded(p.state) {
        VelocityEffect::Unchanged
    } else {
        match a {
            StandingAction::Run => VelocityEffect::Accelerate,
            StandingAction::Jump => VelocityEffect::Jump,
            _ => VelocityEffect::Unchanged,
        }
    }
}

/// Whether the upper collider lets obstacles through: only while crouching.
pub open spec fn sensor_of(s: PlayerState) -> bool {
    s == PlayerState::Crouching
}

/// The posture after a ground check: leaving the ground makes the avatar
/// airborne; landing makes it stand (a crouch does not survive a landing).
pub open spec fn ground_next(s: PlayerState, on_ground: bool) -> PlayerState {
    if on_ground && s == PlayerState::Airborne {
        PlayerState::Standing
    } else if !on_ground {
        PlayerState::Airborne
    } else {
        s
    }
}

/// Whether the head counts as blocked after a collision check: it stays
/// blocked while the upper collider touches something, and becomes blocked
/// only while that collider is a sensor.
pub open spec fn head_blocked_next(was_blocked: bool, touching: bool, sensor: bool) -> bool {
    touching && (was_blocked || sensor)
}

/// The collision-sensor setting of the upper collider for a posture.
pub fn top_collider_is_sensor(s: PlayerState) -> (r: bool)
    ensures
        r == sensor_of(s),
{
    s == PlayerState::Crouching
}

impl Posture {
    /// A freshly spawned avatar: in the air, head clear.
    pub fn new() -> (r: Posture)
        ensures
            r.state == PlayerState::Airborne,
            !r.head_blocked,
    {
        Posture { state: PlayerState::Airborne, head_blocked: false }
    }

    /// Dispatches a standing action; returns the velocity change to make.
    pub fn execute_standing_action(&mut self, a: StandingAction) -> (r: VelocityEffect)
        ensures
            final(self).state == standing_next(*old(self), a),
            final(self).head_blocked == old(self).head_blocked,
            r == standing_effect(*old(self), a),
    {
        if self.state == PlayerState::Airborne {
            return VelocityEffect::Unchanged;
        }
        match a {
            StandingAction::Run => VelocityEffect::Accelerate,
            StandingAction::Jump => VelocityEffect::Jump,
            StandingAction::Crouch { slope_permits } => {
                if slope_permits && self.state != PlayerState::Crouching {
                    self.state = PlayerState::Crouching;
                }
                VelocityEffect::Unchanged
            },
            StandingAction::Uncrouch => {
                if self.state == PlayerState::Crouching && !self.head_blocked {
                    self.state = PlayerState::Standing;
                }
                VelocityEffect::Unchanged
            },
        }
    }

    /// Dispatches an airborne action: only an avatar in the air accelerates.
    pub fn execute_airborne_action(&self, a: AirborneAction) -> (r: VelocityEffect)
        ensures
            r == (if self.state == PlayerState::Airborne {
                VelocityEffect::Accelerate
            } else {
                VelocityEffect::Unchanged
            }),
    {
        match a {
            AirborneAction::Move => if self.state == PlayerState::Airborne {
                VelocityEffect::Accelerate
            } else {
                VelocityEffect::Unchanged
            },
        }
    }

    /// Applies the result of the ground check.
    pub fn handle_grounded(&mut self, on_ground: bool)
        ensures
            final(self).state == ground_next(old(self).state, on_ground),
            final(self).head_blocked == old(self).head_blocked,
    {
        if on_ground && self.state == PlayerState::Airborne {
            self.state = PlayerState::Standing;
        } else if !on_ground {
            self.state = PlayerState::Airborne;
        }
    }

    /// Applies the result of the upper collider's collision check.
    pub fn track_head_blockage(&mut self, touching: bool)
        ensures
            final(self).state == old(self).state,
            final(self).head_blocked == head_blocked_next(
                old(self).head_blocked,
                touching,
                sensor_of(old(self).state),
            ),
    {
        let sensor = top_collider_is_sensor(self.state);
        self.head_blocked = touching && (self.head_blocked || sensor);
    }

    /// The sensor setting of the upper collider, to apply after any change.
    pub fn sensor(&self) -> (r: bool)
        ensures
            r == sensor_of(self.state),
    {
        top_collider_is_sensor(self.state)
    }
}

/// The keys that drive a grounded avatar in one frame.
#[derive(Clone, Copy, Debug, PartialEq, Eq, Structural)]
pub struct MovementKeys {
    pub forward: bool,
    pub back: bool,
    pub left: bool,
    pub right: bool,
    pub jump: bool,
    pub crouch: bool,
}

/// The actions a frame's keys raise for a grounded avatar, in order: a run
/// when there is a direction, a jump, and then a crouch (held key) or an
/// uncrouch (released key).
pub open spec fn grounded_actions(
    keys: MovementKeys,
    has_direction: bool,
    slope_permits: bool,
) -> Seq<StandingAction> {
    let run: Seq<StandingAction> = if has_direction {
        seq![StandingAction::Run]
    } else {
        Seq::empty()
    };
    let jump: Seq<StandingAction> = if keys.jump {
        seq![StandingAction::Jump]
    } else {
        Seq::empty()
    };
    let crouch: Seq<StandingAction> = if keys.crouch {
        seq![StandingAction::Crouch { slope_permits }]
    } else {
        seq![StandingAction::Uncrouch]
    };
    run + jump + crouch
}

/// The actions a frame's keys raise for a grounded avatar. `has_direction`
/// and `slope_permits` come from the camera and the ground normal.
pub fn read_grounded_movement_inputs(
    keys: MovementKeys,
    has_direction: bool,
    slope_permits: bool,
) -> (r: Vec<StandingAction>)
    ensures
        r@ == grounded_actions(keys, has_direction, slope_permits),
{
    let mut r: Vec<StandingAction> = Vec::new();
    if has_direction {
        r.push(StandingAction::Run);
    }
    if keys.jump {
        r.push(StandingAction::Jump);
    }
    if keys.crouch {
        r.push(StandingAction::Crouch { slope_permits });
    } else {
        r.push(StandingAction::Uncrouch);
    }
    proof {
        assert(r@ =~= grounded_actions(keys, has_direction, slope_permits));
    }
    r
}

/// The action a frame raises for an avatar in the air: a move when the keys
/// give a direction, nothing otherwise.
pub fn read_airborne_movement_inputs(has_direction: bool) -> (r: Option<AirborneAction>)
    ensures
        r == (if has_direction {
            Some(AirborneAction::Move)
        } else {
            None
        }),
{
    if has_direction {
        Some(AirborneAction::Move)
    } else {
        None
    }
}

/// The horizontal and vertical key axes of a frame, each -1, 0 or 1.
pub fn key_axes(keys: MovementKeys) -> (r: (i8, i8))
    ensures
        r.0 == keys.right as i8 - keys.left as i8,
        r.1 == keys.forward as i8 - keys.back as i8,
{
    let horizontal: i8 = (if keys.right { 1i8 } else { 0i8 }) - (if keys.left { 1i8 } else { 0i8 });
    let vertical: i8 = (if keys.forward { 1i8 } else { 0i8 }) - (if keys.back { 1i8 } else { 0i8 });
    (horizontal, vertical)
}

/// A crouched avatar with something above its head stays crouched whatever
/// it is told to do, until the head is clear or it leaves the ground.
pub proof fn lemma_blocked_crouch_holds(p: Posture, a: StandingAction)
    requires
        p.state == PlayerState::Crouching,
        p.head_blocked,
    ensures
        standing_next(p, a) == PlayerState::Crouching,
        sensor_of(standing_next(p, a)),
{
}

} // verus!
