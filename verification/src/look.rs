//! The look controller: mouse motion becomes yaw and pitch.

use crate::fixed::{
    clamp, clamped, lesser, min, product, radians, sat_mul, sat_sub, saturate, to_radians,
};
use crate::settings::MouseMovementSettings;
use vstd::prelude::*;

verus! {

/// The pitch stays within this many radians of level, just short of straight
/// up and straight down.
pub const PITCH_LIMIT: i64 = 1_540_000;

/// One relative motion of the mouse, in device units.
#[derive(Clone, Copy, Debug, PartialEq, Eq, Structural)]
pub struct MouseMotion {
    pub dx: i64,
    pub dy: i64,
}

/// The size of the window.
#[derive(Clone, Copy, Debug, PartialEq, Eq, Structural)]
pub struct WindowSize {
    pub width: i64,
    pub height: i64,
}

impl WindowSize {
    /// The smaller of height and width, by which mouse motion is scaled.
    pub open spec fn scale(self) -> int {
        lesser(self.height as int, self.width as int)
    }
}

/// The mathematical value of an [`Orientation`].
pub struct OrientationView {
    pub yaw: int,
    pub pitch: int,
}

/// A rotation by `yaw` about the world's vertical axis, followed by one by
/// `pitch` about the turned horizontal axis; both in radians.
#[derive(Clone, Copy, Debug, PartialEq, Eq, Structural)]
pub struct Orientation {
    pub yaw: i64,
    pub pitch: i64,
}

impl View for Orientation {
    type V = OrientationView;

    open spec fn view(&self) -> OrientationView {
        OrientationView { yaw: self.yaw as int, pitch: self.pitch as int }
    }
}

impl Orientation {
    /// The orientation of an entity that has not been turned.
    pub fn identity() -> (r: Orientation)
        ensures
            r == (Orientation { yaw: 0, pitch: 0 }),
    {
        Orientation { yaw: 0, pitch: 0 }
    }
}

/// The angle, in radians, by which a motion of `delta` turns the view.
pub open spec fn turn(sensitivity: int, delta: int, scale: int) -> int {
    radians(product(product(sensitivity, delta), scale))
}

/// The mathematical value of a [`LookState`].
pub struct LookView {
    pub pitch: int,
    pub yaw: int,
}

impl LookView {
    /// The orientation of the camera: yaw and pitch.
    pub open spec fn camera_orientation(self) -> OrientationView {
        OrientationView { yaw: self.yaw, pitch: self.pitch }
    }

    /// The orientation of the controlled entity: it takes the yaw and stays
    /// upright.
    pub open spec fn cube_orientation(self) -> OrientationView {
        OrientationView { yaw: self.yaw, pitch: 0 }
    }

    /// Whether the pitch is within its limits.
    pub open spec fn upright(self) -> bool {
        -PITCH_LIMIT <= self.pitch <= PITCH_LIMIT
    }

    /// The state after one motion has turned it.
    pub open spec fn turned(self, motion: MouseMotion, sensitivity: int, scale: int) -> LookView {
        LookView {
            pitch: saturate(self.pitch - turn(sensitivity, motion.dy as int, scale)),
            yaw: saturate(self.yaw - turn(sensitivity, motion.dx as int, scale)),
        }
    }

    /// The state after the motions have turned it, first to last.
    pub open spec fn turned_by_all(
        self,
        motions: Seq<MouseMotion>,
        sensitivity: int,
        scale: int,
    ) -> LookView
        decreases motions.len(),
    {
        if motions.len() == 0 {
            self
        } else {
            self.turned_by_all(motions.drop_last(), sensitivity, scale).turned(
                motions.last(),
                sensitivity,
                scale,
            )
        }
    }

    /// The state with its pitch brought within the limits.
    pub open spec fn leveled(self) -> LookView {
        LookView {
            pitch: clamped(self.pitch, -PITCH_LIMIT as int, PITCH_LIMIT as int),
            yaw: self.yaw,
        }
    }

    /// The state after one frame: the queued motions turn it only while the
    /// cursor is locked, and the pitch is brought within its limits either
    /// way.
    pub open spec fn looked(
        self,
        motions: Seq<MouseMotion>,
        locked: bool,
        sensitivity: int,
        scale: int,
    ) -> LookView {
        if locked {
            self.turned_by_all(motions, sensitivity, scale).leveled()
        } else {
            self.leveled()
        }
    }
}

/// Accumulated pitch and yaw, in radians.
#[derive(Clone, Copy, Debug, PartialEq, Eq, Structural)]
pub struct LookState {
    pub pitch: i64,
    pub yaw: i64,
}

impl View for LookState {
    type V = LookView;

    open spec fn view(&self) -> LookView {
        LookView { pitch: self.pitch as int, yaw: self.yaw as int }
    }
}

impl Default for LookState {
    /// Level, and facing the way the scene was set up.
    fn default() -> (r: Self)
        ensures
            r.pitch == 0,
            r.yaw == 0,
    {
        LookState { pitch: 0, yaw: 0 }
    }
}

impl LookState {
    /// The orientation of the camera: yaw and pitch.
    pub fn camera_orientation(&self) -> (r: Orientation)
        ensures
            r@ == self@.camera_orientation(),
    {
        Orientation { yaw: self.yaw, pitch: self.pitch }
    }

    /// The orientation of the controlled entity: it takes the yaw and stays
    /// upright.
    pub fn cube_orientation(&self) -> (r: Orientation)
        ensures
            r@ == self@.cube_orientation(),
    {
        Orientation { yaw: self.yaw, pitch: 0 }
    }
}

/// The angle by which a motion of `delta` turns the view.
pub fn turn_angle(sensitivity: i64, delta: i64, scale: i64) -> (r: i64)
    ensures
        r as int == turn(sensitivity as int, delta as int, scale as int),
{
    to_radians(sat_mul(sat_mul(sensitivity, delta), scale))
}

/// Runs the look controller for one frame.
///
/// Takes every queued motion out of `events`. While the cursor is locked each
/// one, in order of arrival, turns yaw and pitch; otherwise they are dropped.
/// Then the pitch is brought within `PITCH_LIMIT` of level.
pub fn mouse_look(
    state: &mut LookState,
    settings: &MouseMovementSettings,
    events: &mut Vec<MouseMotion>,
    locked: bool,
    window: WindowSize,
)
    ensures
        final(state)@ == old(state)@.looked(
            old(events)@,
            locked,
            settings.sensitivity as int,
            window.scale(),
        ),
        final(state)@.upright(),
        final(events)@.len() == 0,
{
    let scale: i64 = min(window.height, window.width);
    if locked {
        let mut i: usize = 0;
        while i < events.len()
            invariant
                i <= events.len(),
                events@ == old(events)@,
                scale as int == window.scale(),
                state@ == old(state)@.turned_by_all(
                    events@.take(i as int),
                    settings.sensitivity as int,
                    scale as int,
                ),
            decreases events.len() - i,
        {
            let motion: MouseMotion = events[i];
            proof {
                let prefix = events@.take(i + 1);
                assert(prefix.drop_last() =~= events@.take(i as int));
                assert(prefix.last() == motion);
            }
            state.pitch = sat_sub(state.pitch, turn_angle(settings.sensitivity, motion.dy, scale));
            state.yaw = sat_sub(state.yaw, turn_angle(settings.sensitivity, motion.dx, scale));
            i += 1;
        }
        assert(events@.take(i as int) =~= events@);
    }
    state.pitch = clamp(state.pitch, -PITCH_LIMIT, PITCH_LIMIT);
    events.clear();
}

/// While the cursor is not locked, a frame of the look controller leaves an
/// upright state exactly as it was, however many motions were queued.
pub proof fn unlocked_look_changes_nothing(
    state: LookState,
    motions: Seq<MouseMotion>,
    sensitivity: int,
    scale: int,
)
    requires
        state@.upright(),
    ensures
        state@.looked(motions, false, sensitivity, scale) == state@,
{
}

/// After a frame of the look controller the pitch is within its limits,
/// whatever the motions were.
pub proof fn look_keeps_upright(
    state: LookView,
    motions: Seq<MouseMotion>,
    locked: bool,
    sensitivity: int,
    scale: int,
)
    ensures
        state.looked(motions, locked, sensitivity, scale).upright(),
{
}

} // verus!
