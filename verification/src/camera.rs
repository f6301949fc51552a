//! Camera state and the input-integrated camera controller.
//!
//! The camera orbits a fixed look-at target: its state is the distance from
//! the eye to the target and the orbit angle around it, both in integer
//! millionths (of a world unit and of a full turn).  The controller holds
//! one pressed/released flag per direction and advances the state once per
//! frame: forward moves the eye toward the target by one speed step while
//! more than a step away, backward moves it away, left and right orbit.
//! The driver turns (distance, yaw, viewport) into the floating-point
//! view-projection matrix the GPU consumes.

use vstd::prelude::*;

verus! {

/// A full orbit turn, in the same millionth units as the yaw angle.
pub const FULL_TURN: u64 = 1_000_000;

/// Default eye-to-target distance: two world units, in millionths.
pub const DEFAULT_CAMERA_DISTANCE: u64 = 2_000_000;

/// Default controller speed: a fifth of a world unit per tick, in millionths.
pub const DEFAULT_CAMERA_SPEED: u64 = 200_000;

/// The view parameters the renderer owns and mutates each frame.
#[derive(Clone, Copy, Debug, PartialEq, Eq, Structural)]
pub struct CameraState {
    /// Eye-to-target distance, in millionths of a world unit.
    pub distance: u64,
    /// Orbit angle around the target, in millionths of a turn; always
    /// below `FULL_TURN`.
    pub yaw: u64,
    /// Viewport width the projection is built for, in pixels.
    pub width: u32,
    /// Viewport height the projection is built for, in pixels.
    pub height: u32,
}

impl CameraState {
    pub open spec fn wf(self) -> bool {
        self.yaw < FULL_TURN
    }

    /// The default camera for a viewport of the given size.
    pub fn new(width: u32, height: u32) -> (c: CameraState)
        ensures
            c == (CameraState { distance: DEFAULT_CAMERA_DISTANCE, yaw: 0u64, width, height }),
            c.wf(),
    {
        CameraState { distance: DEFAULT_CAMERA_DISTANCE, yaw: 0, width, height }
    }
}

/// A key the camera controller reacts to.  `Other` stands for every key
/// the controller ignores.
#[derive(Clone, Copy, Debug, PartialEq, Eq, Structural)]
pub enum ControlKey {
    Forward,
    Left,
    Backward,
    Right,
    Other,
}

/// Integrates pressed/released direction keys into per-frame camera motion.
#[derive(Clone, Copy, Debug, PartialEq, Eq, Structural)]
pub struct CameraController {
    /// Distance (and orbit) step per tick, in millionths; positive and at
    /// most one full turn.
    pub speed: u64,
    pub is_forward_pressed: bool,
    pub is_backward_pressed: bool,
    pub is_left_pressed: bool,
    pub is_right_pressed: bool,
}

/// The controller after one key event: the flag of the matched direction
/// takes the new pressed state, everything else is unchanged.
pub open spec fn apply_key(c: CameraController, key: ControlKey, pressed: bool) -> CameraController {
    match key {
        ControlKey::Forward => CameraController { is_forward_pressed: pressed, ..c },
        ControlKey::Backward => CameraController { is_backward_pressed: pressed, ..c },
        ControlKey::Left => CameraController { is_left_pressed: pressed, ..c },
        ControlKey::Right => CameraController { is_right_pressed: pressed, ..c },
        ControlKey::Other => c,
    }
}

/// One tick of camera motion under the controller's current flags:
/// forward closes in on the target by one step while more than a step
/// away, backward backs off (saturating), right and left orbit by one
/// step each way.
pub open spec fn advance(c: CameraController, s: CameraState) -> CameraState {
    let toward = if c.is_forward_pressed && s.distance > c.speed {
        (s.distance - c.speed) as u64
    } else {
        s.distance
    };
    let dist = if c.is_backward_pressed {
        if toward + c.speed <= u64::MAX {
            (toward + c.speed) as u64
        } else {
            u64::MAX
        }
    } else {
        toward
    };
    let turned_right = if c.is_right_pressed {
        ((s.yaw + c.speed) % (FULL_TURN as int)) as u64
    } else {
        s.yaw
    };
    let yaw = if c.is_left_pressed {
        ((turned_right + (FULL_TURN - c.speed)) % (FULL_TURN as int)) as u64
    } else {
        turned_right
    };
    CameraState { distance: dist, yaw, ..s }
}

/// The camera after `n` ticks under a constant controller.
pub open spec fn advance_n(c: CameraController, s: CameraState, n: nat) -> CameraState
    decreases n,
{
    if n == 0 {
        s
    } else {
        advance(c, advance_n(c, s, (n - 1) as nat))
    }
}

impl CameraController {
    pub open spec fn wf(self) -> bool {
        0 < self.speed <= FULL_TURN
    }

    /// A controller with the given per-tick speed and nothing pressed.
    pub fn new(speed: u64) -> (c: CameraController)
        requires
            0 < speed <= FULL_TURN,
        ensures
            c == (CameraController {
                speed,
                is_forward_pressed: false,
                is_backward_pressed: false,
                is_left_pressed: false,
                is_right_pressed: false,
            }),
            c.wf(),
    {
        CameraController {
            speed,
            is_forward_pressed: false,
            is_backward_pressed: false,
            is_left_pressed: false,
            is_right_pressed: false,
        }
    }

    /// Record one key event.  Returns whether the key was one the
    /// controller reacts to.
    pub fn process_events(&mut self, key: ControlKey, pressed: bool) -> (handled: bool)
        ensures
            *final(self) == apply_key(*old(self), key, pressed),
            handled <==> key != ControlKey::Other,
    {
        match key {
            ControlKey::Forward => {
                self.is_forward_pressed = pressed;
                true
            },
            ControlKey::Backward => {
                self.is_backward_pressed = pressed;
                true
            },
            ControlKey::Left => {
                self.is_left_pressed = pressed;
                true
            },
            ControlKey::Right => {
                self.is_right_pressed = pressed;
                true
            },
            ControlKey::Other => false,
        }
    }

    /// Advance the camera by one tick of integrated velocity.
    pub fn update_camera(&self, camera: &mut CameraState)
        requires
            self.wf(),
            old(camera).wf(),
        ensures
            *final(camera) == advance(*self, *old(camera)),
            final(camera).wf(),
    {
        if self.is_forward_pressed && camera.distance > self.speed {
            camera.distance = camera.distance - self.speed;
        }
        if self.is_backward_pressed {
            if camera.distance <= u64::MAX - self.speed {
                camera.distance = camera.distance + self.speed;
            } else {
                camera.distance = u64::MAX;
            }
        }
        if self.is_right_pressed {
            camera.yaw = (camera.yaw + self.speed) % FULL_TURN;
        }
        if self.is_left_pressed {
            camera.yaw = (camera.yaw + (FULL_TURN - self.speed)) % FULL_TURN;
        }
    }
}

/// With a constant "move forward" input the camera closes in on the target
/// monotonically: the distance never grows, shrinks by exactly one speed
/// step per tick while the eye is far enough away, and any tick taken more
/// than a step away leaves the eye strictly closer than it started.
pub proof fn lemma_forward_motion_monotonic(c: CameraController, s: CameraState, n: nat)
    requires
        c.is_forward_pressed,
        !c.is_backward_pressed,
        c.speed > 0,
    ensures
        advance_n(c, s, n).distance <= s.distance,
        s.distance > n * c.speed ==> advance_n(c, s, n).distance == s.distance - n * c.speed,
        n > 0 && s.distance > c.speed ==> advance_n(c, s, n).distance < s.distance,
    decreases n,
{
    if n > 0 {
        let prev = advance_n(c, s, (n - 1) as nat);
        lemma_forward_motion_monotonic(c, s, (n - 1) as nat);
        assert(n * c.speed == (n - 1) * c.speed + c.speed) by (nonlinear_arith)
            requires
                n > 0,
        ;
        assert((n - 1) * c.speed >= 0) by (nonlinear_arith)
            requires
                n >= 1,
        ;
        assert(advance_n(c, s, n) == advance(c, prev));
        if s.distance > n * c.speed {
            assert(s.distance > (n - 1) * c.speed);
            assert(prev.distance == s.distance - (n - 1) * c.speed);
            assert(prev.distance > c.speed);
            assert(advance(c, prev).distance == prev.distance - c.speed);
            assert(advance(c, prev).distance == s.distance - n * c.speed);
        }
    } else {
        assert(n * c.speed == 0) by (nonlinear_arith)
            requires
                n == 0,
        ;
    }
}

/// The yaw angle never leaves its range: one tick of any controller keeps
/// a well-formed camera well formed.
pub proof fn lemma_advance_preserves_wf(c: CameraController, s: CameraState)
    requires
        c.wf(),
        s.wf(),
    ensures
        advance(c, s).wf(),
{
}

} // verus!
