//! What the user can tune: speeds and travel of each axis, and the blinds'
//! open and closed positions.
use vstd::prelude::*;
use crate::fixed_point::{MCDelay, frac_scale};

verus! {

/// One axis's motion settings.
#[derive(Clone, Copy, Debug, PartialEq, Eq, Structural)]
pub struct AxisUserSettings {
    pub homing_speed: MCDelay,
    pub max_speed: MCDelay,
    pub home_position: i32,
    pub range: i32,
}

/// The blinds' positions, in steps.
#[derive(Clone, Copy, Debug, PartialEq, Eq, Structural)]
pub struct BlindsUserSettings {
    pub angle_closed: i32,
    pub angle_open: i32,
    pub lateral_closed: i32,
    pub lateral_open: i32,
}

/// All the user's settings.
#[derive(Clone, Copy, Debug, PartialEq, Eq, Structural)]
pub struct UserSettings {
    pub axis_angle_settings: AxisUserSettings,
    pub axis_open_settings: AxisUserSettings,
    pub blinds_settings: BlindsUserSettings,
}

/// The default settings of either axis: homing at speed 10, at most speed
/// 100000, a home position of -10 steps and a range of 100000 steps.
pub open spec fn default_axis_settings(s: AxisUserSettings) -> bool {
    &&& s.homing_speed.bits == 10 * frac_scale()
    &&& s.max_speed.bits == 100000 * frac_scale()
    &&& s.home_position == -10
    &&& s.range == 100000
}

fn default_axis() -> (r: AxisUserSettings)
    ensures
        default_axis_settings(r),
{
    AxisUserSettings {
        homing_speed: MCDelay::from_num(10),
        max_speed: MCDelay::from_num(100000),
        home_position: -10,
        range: 100000,
    }
}

impl Default for UserSettings {
    /// Both axes get the default axis settings; the blinds are closed at
    /// angle 0 and lateral 1000, and open at angle 100 and lateral 0.
    fn default() -> (r: UserSettings)
        ensures
            default_axis_settings(r.axis_open_settings),
            default_axis_settings(r.axis_angle_settings),
            r.blinds_settings == (BlindsUserSettings {
                angle_closed: 0,
                angle_open: 100,
                lateral_closed: 1000,
                lateral_open: 0,
            }),
    {
        UserSettings {
            axis_open_settings: default_axis(),
            axis_angle_settings: default_axis(),
            blinds_settings: BlindsUserSettings {
                angle_closed: 0,
                angle_open: 100,
                lateral_closed: 1000,
                lateral_open: 0,
            },
        }
    }
}

} // verus!
