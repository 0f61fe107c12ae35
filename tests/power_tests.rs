use telemetry::power::{PowerError, PowerRequest, PowerService, PowerSetting, PowerStep, PowerTarget};
use telemetry::text::parse_i32;

#[test]
fn test_power_service_initialization() {
    let service = PowerService::new();
    assert_eq!(service.boost_modes.len(), 7);
    assert_eq!(service.boost_modes.get(&0), Some(&"Disabled"));
    assert_eq!(service.boost_modes.get(&1), Some(&"Enabled"));
}

#[test]
fn available_boost_modes_are_a_copy_of_the_table() {
    let service = PowerService::new();
    let modes = service.get_available_boost_modes();
    assert_eq!(modes.len(), 7);
    assert_eq!(modes.get(&6), Some(&"Efficient Aggressive At Guaranteed"));
    assert_eq!(modes.get(&7), None);
}

#[test]
fn request_without_privileges_is_refused_first() {
    let service = PowerService::new();
    assert_eq!(service.set_power_settings(false, "x", "y", "z"), Err(PowerError::NotAdmin));
}

#[test]
fn unparsable_boost_mode_is_refused() {
    let service = PowerService::new();
    assert_eq!(service.set_power_settings(true, "fast", "50", "ac"), Err(PowerError::InvalidBoostMode));
}

#[test]
fn unknown_boost_mode_is_refused_after_power_type() {
    let service = PowerService::new();
    assert_eq!(service.set_power_settings(true, "7", "50", "ac"), Err(PowerError::InvalidBoostMode));
    assert_eq!(service.set_power_settings(true, "7", "50", "mains"), Err(PowerError::InvalidPowerType));
}

#[test]
fn processor_state_out_of_range_is_refused() {
    let service = PowerService::new();
    assert_eq!(service.set_power_settings(true, "1", "19", "ac"), Err(PowerError::InvalidProcessorState));
    assert_eq!(service.set_power_settings(true, "1", "101", "ac"), Err(PowerError::InvalidProcessorState));
    assert_eq!(service.set_power_settings(true, "1", "half", "ac"), Err(PowerError::InvalidProcessorState));
}

#[test]
fn range_ends_are_accepted() {
    let service = PowerService::new();
    let low = service.set_power_settings(true, "0", "20", "dc").unwrap();
    assert_eq!(low, PowerRequest { boost_mode: 0, max_processor_state: 20, target: PowerTarget::Dc });
    let high = service.set_power_settings(true, "6", "100", "both").unwrap();
    assert_eq!(high.max_processor_state, 100);
    assert_eq!(high.target, PowerTarget::Both);
}

#[test]
fn power_type_letter_case_is_ignored() {
    let service = PowerService::new();
    let r = service.set_power_settings(true, "2", "80", "AC").unwrap();
    assert_eq!(r.target, PowerTarget::Ac);
    let r = service.set_power_settings(true, "2", "80", "Both").unwrap();
    assert_eq!(r.target, PowerTarget::Both);
}

#[test]
fn check_request_takes_the_lowered_type_as_given() {
    let service = PowerService::new();
    assert_eq!(service.check_request(true, "2", "80", "AC"), Err(PowerError::InvalidPowerType));
    assert!(service.check_request(true, "2", "80", "ac").is_ok());
}

#[test]
fn steps_cover_both_sources_then_activate() {
    let r = PowerRequest { boost_mode: 2, max_processor_state: 80, target: PowerTarget::Both };
    let steps = r.steps();
    assert_eq!(steps.len(), 5);
    assert_eq!(steps[0], PowerStep::SetIndex { on_ac: true, setting: PowerSetting::BoostMode, value: 2 });
    assert_eq!(steps[1], PowerStep::SetIndex { on_ac: true, setting: PowerSetting::MaxProcessorState, value: 80 });
    assert_eq!(steps[2], PowerStep::SetIndex { on_ac: false, setting: PowerSetting::BoostMode, value: 2 });
    assert_eq!(steps[3], PowerStep::SetIndex { on_ac: false, setting: PowerSetting::MaxProcessorState, value: 80 });
    assert_eq!(steps[4], PowerStep::Activate);
    assert_eq!(PowerSetting::BoostMode.guid(), "be337238-0d82-4146-a960-4f3749d470c7");
}

#[test]
fn report_lines_for_battery_only() {
    let service = PowerService::new();
    let r = PowerRequest { boost_mode: 1, max_processor_state: 50, target: PowerTarget::Dc };
    let lines = service.report_lines(&r);
    assert_eq!(
        lines,
        vec![
            "Setting processor boost mode to: Enabled".to_string(),
            "DC power boost mode updated successfully".to_string(),
            "DC power maximum processor state updated successfully".to_string(),
            "All power settings applied successfully!".to_string(),
        ]
    );
}

#[test]
fn error_messages() {
    assert_eq!(PowerError::NotAdmin.message(), "This function requires administrator privileges!");
    assert_eq!(PowerError::CommandFailed("boom".to_string()).message(), "Command failed: boom");
    assert_eq!(PowerError::Other("x".to_string()).message(), "Error: x");
}

#[test]
fn decimal_parsing() {
    assert_eq!(parse_i32("42"), Some(42));
    assert_eq!(parse_i32("-7"), Some(-7));
    assert_eq!(parse_i32("+5"), Some(5));
    assert_eq!(parse_i32(""), None);
    assert_eq!(parse_i32("-"), None);
    assert_eq!(parse_i32(" 1"), None);
    assert_eq!(parse_i32("1a"), None);
    assert_eq!(parse_i32("2147483647"), Some(i32::MAX));
    assert_eq!(parse_i32("2147483648"), None);
    assert_eq!(parse_i32("-2147483648"), Some(i32::MIN));
    assert_eq!(parse_i32("99999999999999999999"), None);
}
