use telemetry::cache::within_ttl;
use telemetry::power::PowerStep;
use telemetry::powercfg::{current_settings, nth_field, parse_powercfg_output, scheme_guid, CurrentSettings};
use telemetry::text::parse_i32_radix;

const BOOST_QUERY: &str = "Power Scheme GUID: 381b4222-f694-41f0-9685-ff5bb260df2e  (Balanced)\r\n  Subgroup GUID: 54533251-82be-4824-96c1-47b60b740d00  (Processor power management)\r\n    Power Setting GUID: be337238-0d82-4146-a960-4f3749d470c7  (Processor performance boost mode)\r\n    Current AC Power Setting Index: 0x00000002\r\n    Current DC Power Setting Index: 0x00000001\r\n";

#[test]
fn reads_indexes_for_each_source() {
    assert_eq!(parse_powercfg_output(BOOST_QUERY, "AC"), Some(2));
    assert_eq!(parse_powercfg_output(BOOST_QUERY, "DC"), Some(1));
}

#[test]
fn missing_label_or_marker_reads_nothing() {
    assert_eq!(parse_powercfg_output(BOOST_QUERY, "USB"), None);
    assert_eq!(parse_powercfg_output("Current AC Power Setting Index: 5", "AC"), None);
    assert_eq!(parse_powercfg_output("Current AC Power Setting Index: 0xzz", "AC"), None);
    assert_eq!(parse_powercfg_output("", "AC"), None);
}

#[test]
fn hex_index_is_read_between_markers() {
    assert_eq!(parse_powercfg_output("Current AC Power Setting Index: 0x0000000A", "AC"), Some(10));
    assert_eq!(parse_powercfg_output("Current DC Power Setting Index: 0x64 0x1", "DC"), Some(100));
    assert_eq!(parse_powercfg_output("x\nCurrent DC Power Setting Index: 0x 1f \nCurrent DC Power Setting Index: 0x2", "DC"), Some(31));
}

#[test]
fn label_must_stand_on_one_line() {
    assert_eq!(parse_powercfg_output("Current A\nC Power Setting Index: 0x1", "A\nC"), None);
}

#[test]
fn defaults_where_nothing_is_read() {
    let s = current_settings(BOOST_QUERY, "garbage");
    assert_eq!(
        s,
        CurrentSettings { ac_boost_mode: 2, dc_boost_mode: 1, ac_max_processor_state: 100, dc_max_processor_state: 100 }
    );
    let s = current_settings("", "Current AC Power Setting Index: 0x00000050\nCurrent DC Power Setting Index: 0x00000032");
    assert_eq!(
        s,
        CurrentSettings { ac_boost_mode: 1, dc_boost_mode: 1, ac_max_processor_state: 80, dc_max_processor_state: 50 }
    );
}

#[test]
fn active_scheme_is_the_fourth_field() {
    let out = "Power Scheme GUID: 381b4222-f694-41f0-9685-ff5bb260df2e  (Balanced)\r\n";
    assert_eq!(scheme_guid(out), Some("381b4222-f694-41f0-9685-ff5bb260df2e".to_string()));
    assert_eq!(scheme_guid("only three words"), None);
}

#[test]
fn fields_split_on_any_white_space() {
    assert_eq!(nth_field("  a\tb\u{3000}c  ", 0), Some("a".to_string()));
    assert_eq!(nth_field("  a\tb\u{3000}c  ", 2), Some("c".to_string()));
    assert_eq!(nth_field("  a\tb\u{3000}c  ", 3), None);
    assert_eq!(nth_field("", 0), None);
}

#[test]
fn hex_parsing() {
    assert_eq!(parse_i32_radix("ff", 16), Some(255));
    assert_eq!(parse_i32_radix("-80000000", 16), Some(i32::MIN));
    assert_eq!(parse_i32_radix("80000000", 16), None);
    assert_eq!(parse_i32_radix("7FFFFFFF", 16), Some(i32::MAX));
    assert_eq!(parse_i32_radix("g", 16), None);
    assert_eq!(parse_i32_radix("ff", 10), None);
}

#[test]
fn ttl_window() {
    assert!(within_ttl(10, 10, 5));
    assert!(within_ttl(10, 14, 5));
    assert!(!within_ttl(10, 15, 5));
    assert!(within_ttl(10, 3, 5));
}

#[test]
fn step_commands() {
    assert_eq!(PowerStep::Activate.command(), "/setactive");
    assert_eq!(
        PowerStep::SetIndex { on_ac: false, setting: telemetry::power::PowerSetting::BoostMode, value: 1 }.command(),
        "/setdcvalueindex"
    );
}
