//! The values that the simulation shares with the display: the clock and the
//! camera.
//!
//! They are made once at start-up. The caller advances the clock by `ONE` before
//! each tick; the tick moves the camera; rendering reads both.
use crate::fixed::{sat_add, ONE};
use crate::vec2::Vec2;
use vstd::prelude::*;

verus! {

/// The weight of the old camera position when the camera follows the player.
pub const CAMERA_WEIGHT: i64 = 10_000_000;

/// The clock and the camera.
#[derive(Debug, Clone, Copy, PartialEq, Eq, Structural)]
pub struct UniformData {
    /// The simulation time.
    pub time: i64,
    /// Where the camera looks.
    pub cam_pos: Vec2,
}

/// The camera position after one tick in which the player's centre is `centre`:
/// a moving average, ten parts the old position and one part the centre.
pub open spec fn follow(cam: Vec2, centre: Vec2) -> Vec2 {
    cam.scale(CAMERA_WEIGHT).plus(centre).shrink(sat_add(CAMERA_WEIGHT, ONE))
}

impl UniformData {
    /// Time zero, with the camera at the origin.
    pub open spec fn spec_new() -> UniformData {
        UniformData { time: 0, cam_pos: Vec2 { x: 0, y: 0 } }
    }

    /// Time zero, with the camera at the origin.
    #[verifier::when_used_as_spec(spec_new)]
    pub fn new() -> (r: UniformData)
        ensures
            r == Self::spec_new(),
    {
        UniformData { time: 0, cam_pos: Vec2 { x: 0, y: 0 } }
    }

    /// The same values with the clock advanced by `x`.
    pub fn add_time(self, x: i64) -> (r: UniformData)
        ensures
            r.time == sat_add(self.time, x),
            r.cam_pos == self.cam_pos,
    {
        UniformData { time: sat_add(self.time, x), cam_pos: self.cam_pos }
    }

    /// Moves the camera to `cam_pos`.
    pub fn set_cam_pos(&mut self, cam_pos: Vec2)
        ensures
            final(self).cam_pos == cam_pos,
            final(self).time == old(self).time,
    {
        self.cam_pos = cam_pos;
    }

    /// Lets the camera follow a player whose centre is `centre`.
    pub fn follow_player(&mut self, centre: Vec2)
        ensures
            final(self).cam_pos == follow(old(self).cam_pos, centre),
            final(self).time == old(self).time,
    {
        let n = CAMERA_WEIGHT;
        self.cam_pos = self.cam_pos.scale(n).plus(centre).shrink(sat_add(n, ONE));
    }
}

impl Default for UniformData {
    fn default() -> (r: UniformData)
        ensures
            r == UniformData::spec_new(),
    {
        UniformData::new()
    }
}

} // verus!
