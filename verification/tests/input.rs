use jay_compositor::backends::metal::input::tool_change_fields;
use jay_compositor::backends::metal::input::ToolAxisChanges;
use jay_compositor::backends::metal::input::ToolChangeFields;
use jay_compositor::backend::AxisSource;
use jay_compositor::backend::InputDeviceAccelProfile;
use jay_compositor::backend::InputDeviceClickMethod;
use jay_compositor::backend::KeyState;
use jay_compositor::backend::ScrollAxis;
use jay_compositor::backends::metal::input::accel_profile_from_libinput;
use jay_compositor::backends::metal::input::accel_profile_to_libinput;
use jay_compositor::backends::metal::input::apply_config_plan;
use jay_compositor::backends::metal::input::axis_event;
use jay_compositor::backends::metal::input::button_pressed;
use jay_compositor::backends::metal::input::click_method_from_libinput;
use jay_compositor::backends::metal::input::click_method_to_libinput;
use jay_compositor::backends::metal::input::fetch_effective_plan;
use jay_compositor::backends::metal::input::handle_key;
use jay_compositor::backends::metal::input::lazy_id;
use jay_compositor::backends::metal::input::pad_group_members;
use jay_compositor::backends::metal::input::pad_source_is_finger;
use jay_compositor::backends::metal::input::proximity_events;
use jay_compositor::backends::metal::input::scroll_axes;
use jay_compositor::backends::metal::input::setting_reaches_device;
use jay_compositor::backends::metal::input::switch_event;
use jay_compositor::backends::metal::input::tip_down;
use jay_compositor::backends::metal::input::tool_capabilities;
use jay_compositor::backends::metal::input::tool_id;
use jay_compositor::backends::metal::input::tool_type;
use jay_compositor::backends::metal::input::AxisEventKind;
use jay_compositor::backends::metal::input::ConfigSetting;
use jay_compositor::backends::metal::input::DesiredConfig;
use jay_compositor::backends::metal::input::DeviceSupport;
use jay_compositor::backends::metal::input::EffectiveRead;
use jay_compositor::backends::metal::input::PressedSet;
use jay_compositor::backends::metal::input::ProximityEvent;
use jay_compositor::backends::metal::input::SwitchEvent;
use jay_compositor::backends::metal::input::TabletToolCapability;
use jay_compositor::backends::metal::input::TabletToolType;
use jay_compositor::backends::metal::input::ToolAxes;

#[test]
fn pressed_key_is_reported_once() {
    let mut held = PressedSet::new();
    assert_eq!(handle_key(&mut held, 30, 1), Some(KeyState::Pressed));
    assert!(held.contains(30));
    // A second press of a held key is dropped.
    assert_eq!(handle_key(&mut held, 30, 1), None);
    assert_eq!(handle_key(&mut held, 30, 0), Some(KeyState::Released));
    assert!(!held.contains(30));
    // A release of a key that is not held is dropped.
    assert_eq!(handle_key(&mut held, 30, 0), None);
}

#[test]
fn pressed_set_take_empties_it() {
    let mut held = PressedSet::new();
    assert!(held.insert(1));
    assert!(held.insert(2));
    assert!(!held.insert(1));
    assert!(held.remove(1));
    assert!(!held.remove(1));
    assert!(held.insert(3));
    let taken = held.take();
    assert_eq!(taken, vec![2, 3]);
    assert!(!held.contains(2));
    assert_eq!(held.take(), Vec::<u32>::new());
}

#[test]
fn switch_events() {
    assert_eq!(switch_event(1, 0), Some(SwitchEvent::LidOpened));
    assert_eq!(switch_event(1, 1), Some(SwitchEvent::LidClosed));
    assert_eq!(switch_event(2, 0), Some(SwitchEvent::ConvertedToLaptop));
    assert_eq!(switch_event(2, 1), Some(SwitchEvent::ConvertedToTablet));
    assert_eq!(switch_event(3, 1), None);
    assert_eq!(switch_event(1, 2), None);
}

#[test]
fn tool_types_and_capabilities() {
    assert_eq!(tool_type(1), Some(TabletToolType::Pen));
    assert_eq!(tool_type(7), Some(TabletToolType::Lens));
    assert_eq!(tool_type(8), None);
    let axes = ToolAxes {
        has_tilt: true,
        has_pressure: false,
        has_distance: true,
        has_rotation: false,
        has_slider: false,
        has_wheel: true,
    };
    assert_eq!(
        tool_capabilities(axes),
        vec![TabletToolCapability::Tilt, TabletToolCapability::Distance, TabletToolCapability::Wheel]
    );
}

#[test]
fn proximity_actions() {
    let axes = ToolAxes {
        has_tilt: false,
        has_pressure: true,
        has_distance: false,
        has_rotation: false,
        has_slider: false,
        has_wheel: false,
    };
    assert_eq!(
        proximity_events(1, Some(9), 2, axes, 77),
        vec![
            ProximityEvent::ToolAdded {
                tablet_id: 9,
                id: 77,
                tool_type: TabletToolType::Eraser,
                capabilities: vec![TabletToolCapability::Pressure],
            },
            ProximityEvent::ToolChanged { id: 77, down: None },
        ]
    );
    assert_eq!(proximity_events(1, None, 2, axes, 77), vec![]);
    assert_eq!(proximity_events(1, Some(9), 42, axes, 77), vec![]);
    assert_eq!(proximity_events(0, None, 42, axes, 77), vec![ProximityEvent::ToolRemoved { id: 77 }]);
}

#[test]
fn tip_and_button_states() {
    assert_eq!(tip_down(0), Some(false));
    assert_eq!(tip_down(1), Some(true));
    assert_eq!(tip_down(2), None);
    assert_eq!(button_pressed(0), Some(false));
    assert_eq!(button_pressed(1), Some(true));
    assert_eq!(button_pressed(5), None);
    assert!(pad_source_is_finger(2));
    assert!(!pad_source_is_finger(1));
}

#[test]
fn scroll_axes_and_axis_events() {
    assert_eq!(scroll_axes(), vec![(1, ScrollAxis::Horizontal), (0, ScrollAxis::Vertical)]);
    assert_eq!(axis_event(AxisSource::Wheel, false, None), (AxisEventKind::Axis120, false));
    assert_eq!(axis_event(AxisSource::Finger, false, Some(true)), (AxisEventKind::AxisPx, true));
    assert_eq!(axis_event(AxisSource::Continuous, true, Some(false)), (AxisEventKind::Stop, false));
    assert_eq!(axis_event(AxisSource::Wheel, true, Some(true)), (AxisEventKind::Stop, true));
}

#[test]
fn config_round_trips() {
    for p in [InputDeviceAccelProfile::Flat, InputDeviceAccelProfile::Adaptive] {
        assert_eq!(accel_profile_from_libinput(accel_profile_to_libinput(p)), Some(p));
    }
    for m in [InputDeviceClickMethod::NoClick, InputDeviceClickMethod::ButtonAreas, InputDeviceClickMethod::Clickfinger] {
        assert_eq!(click_method_from_libinput(click_method_to_libinput(m)), Some(m));
    }
    assert_eq!(accel_profile_to_libinput(InputDeviceAccelProfile::Adaptive), 2);
    assert_eq!(accel_profile_from_libinput(4), None);
    assert_eq!(click_method_to_libinput(InputDeviceClickMethod::Clickfinger), 2);
    assert_eq!(click_method_from_libinput(3), None);
}

#[test]
fn lazy_and_tool_ids() {
    assert_eq!(lazy_id(Some(4), 7), (4, false));
    assert_eq!(lazy_id(None, 7), (7, true));
    assert_eq!(tool_id(0, 7), (7, true));
    assert_eq!(tool_id(3, 7), (3, false));
}

#[test]
fn pad_group_members_in_order() {
    assert_eq!(pad_group_members(4, &[true, false, true, true]), vec![0, 2, 3]);
    assert_eq!(pad_group_members(0, &[]), Vec::<u32>::new());
}

#[test]
fn config_plan_applies_each_set_setting() {
    let desired = DesiredConfig {
        left_handed: Some(true),
        accel_profile: None,
        accel_speed: true,
        tap_enabled: None,
        drag_enabled: Some(false),
        drag_lock_enabled: None,
        natural_scrolling_enabled: None,
        calibration_matrix: false,
        click_method: Some(2),
        middle_button_emulation_enabled: None,
        enabled_leds: Some(5),
    };
    assert_eq!(
        apply_config_plan(&desired, true),
        vec![
            ConfigSetting::LeftHanded(true),
            ConfigSetting::AccelSpeed,
            ConfigSetting::DragEnabled(false),
            ConfigSetting::ClickMethod(2),
            ConfigSetting::EnabledLeds(5),
        ]
    );
    assert_eq!(apply_config_plan(&desired, false), Vec::<ConfigSetting>::new());
}

#[test]
fn settings_reach_supporting_devices() {
    let d = DeviceSupport {
        left_handed_available: false,
        accel_available: true,
        tap_available: true,
        has_natural_scrolling: false,
        has_calibration_matrix: false,
        has_click_methods: true,
        middle_button_emulation_available: false,
    };
    assert!(setting_reaches_device(ConfigSetting::DragLockEnabled(true), true, d));
    assert!(!setting_reaches_device(ConfigSetting::DragLockEnabled(true), false, d));
    assert!(!setting_reaches_device(ConfigSetting::LeftHanded(true), true, d));
    assert!(setting_reaches_device(ConfigSetting::EnabledLeds(1), true, d));
    assert_eq!(
        fetch_effective_plan(true, d),
        vec![
            EffectiveRead::AccelProfile,
            EffectiveRead::AccelSpeed,
            EffectiveRead::TapEnabled,
            EffectiveRead::DragEnabled,
            EffectiveRead::DragLockEnabled,
            EffectiveRead::ClickMethod,
        ]
    );
    assert_eq!(fetch_effective_plan(false, d), Vec::<EffectiveRead>::new());
}

fn no_axis_changed() -> ToolAxisChanges {
    ToolAxisChanges {
        x: false,
        y: false,
        pressure: false,
        distance: false,
        tilt_x: false,
        tilt_y: false,
        rotation: false,
        slider: false,
        wheel: false,
    }
}

#[test]
fn tool_change_without_changed_axes_reports_only_the_tip() {
    let f = tool_change_fields(no_axis_changed(), Some(true));
    assert_eq!(f.down, Some(true));
    assert!(!f.pos && !f.pressure && !f.distance && !f.tilt && !f.rotation && !f.slider && !f.wheel);
}

#[test]
fn tool_change_reports_position_and_tilt_where_either_axis_changed() {
    let f = tool_change_fields(ToolAxisChanges { y: true, tilt_x: true, ..no_axis_changed() }, None);
    assert_eq!(f.down, None);
    assert!(f.pos && f.tilt);
    assert!(!f.pressure && !f.distance && !f.rotation && !f.slider && !f.wheel);
    let g = tool_change_fields(ToolAxisChanges { pressure: true, wheel: true, slider: true, ..no_axis_changed() }, Some(false));
    assert_eq!(
        g,
        ToolChangeFields {
            down: Some(false),
            pos: false,
            pressure: true,
            distance: false,
            tilt: false,
            rotation: false,
            slider: true,
            wheel: true,
        }
    );
}
