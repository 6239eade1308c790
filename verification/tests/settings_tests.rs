use rollo::fixed_point::MCDelay;
use rollo::user_settings::{BlindsUserSettings, UserSettings};

#[test]
fn default_settings() {
    let s = UserSettings::default();
    for axis in [s.axis_angle_settings, s.axis_open_settings] {
        assert_eq!(axis.homing_speed, MCDelay::from_num(10));
        assert_eq!(axis.max_speed, MCDelay::from_num(100000));
        assert_eq!(axis.home_position, -10);
        assert_eq!(axis.range, 100000);
    }
    assert_eq!(s.blinds_settings, BlindsUserSettings { angle_closed: 0, angle_open: 100, lateral_closed: 1000, lateral_open: 0 });
}
