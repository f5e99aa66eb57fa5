use arbiscan::config::{
    count_setting, get_trade_config, is_simulation_logging_enabled, AmountSetting, CountSetting,
    IPC_CYCLE_MILLIS,
};
use arbiscan::double::Double;

fn defaults(tier: u8) -> (f64, f64, u32) {
    let (start, step, n) =
        get_trade_config(tier, AmountSetting::Unset, AmountSetting::Unset, CountSetting::Unset);
    (f64::from_bits(start.to_bits()), f64::from_bits(step.to_bits()), n)
}

#[test]
fn trade_config_defaults() {
    assert_eq!(defaults(0), (50.0, 50.0, 4));
    assert_eq!(defaults(1), (100.0, 100.0, 5));
    assert_eq!(defaults(2), (300.0, 100.0, 5));
    assert_eq!(defaults(3), (500.0, 150.0, 4));
    assert_eq!(defaults(4), (1000.0, 1250.0, 4));
    assert_eq!(defaults(7), (1.0, 1.0, 4));
    assert_eq!(defaults(5), (1.0, 1.0, 4));
    assert_eq!(defaults(255), (1.0, 1.0, 4));
}

#[test]
fn trade_config_overrides() {
    let v = Double::from_bits(12.5f64.to_bits());
    let (start, step, n) =
        get_trade_config(2, AmountSetting::Value(v), AmountSetting::Unset, CountSetting::Value(9));
    assert_eq!(start, v);
    assert_eq!(f64::from_bits(step.to_bits()), 100.0);
    assert_eq!(n, 9);
}

#[test]
fn trade_config_malformed_values_fall_back() {
    let (start, step, n) = get_trade_config(
        3,
        AmountSetting::Malformed,
        AmountSetting::Malformed,
        CountSetting::Malformed,
    );
    assert_eq!(f64::from_bits(start.to_bits()), 1.0);
    assert_eq!(f64::from_bits(step.to_bits()), 1.0);
    assert_eq!(n, 4);
}

#[test]
fn count_setting_reads_text() {
    assert_eq!(count_setting(None), CountSetting::Unset);
    assert_eq!(count_setting(Some("7")), CountSetting::Value(7));
    assert_eq!(count_setting(Some("0")), CountSetting::Value(0));
    assert_eq!(count_setting(Some("4294967295")), CountSetting::Value(u32::MAX));
    assert_eq!(count_setting(Some("4294967296")), CountSetting::Malformed);
    assert_eq!(count_setting(Some("")), CountSetting::Malformed);
    assert_eq!(count_setting(Some("five")), CountSetting::Malformed);
    assert_eq!(count_setting(Some("-1")), CountSetting::Malformed);
    assert_eq!(count_setting(Some(" 3")), CountSetting::Malformed);
}

#[test]
fn count_setting_takes_a_plus_and_digits_only() {
    assert_eq!(count_setting(Some("+5")), CountSetting::Value(5));
    assert_eq!(count_setting(Some("+0")), CountSetting::Value(0));
    assert_eq!(count_setting(Some("007")), CountSetting::Value(7));
    assert_eq!(count_setting(Some("+4294967295")), CountSetting::Value(u32::MAX));
    assert_eq!(count_setting(Some("00000000004294967295")), CountSetting::Value(u32::MAX));
    assert_eq!(count_setting(Some("5")), CountSetting::Value(5));
    for text in [
        "+", "-", "-3", "-0", "++5", "+-5", "5+", "3 ", "\t3", "3\n", "1_000", "1,000", "1.0", "1e3",
        "0x10", "\u{0663}", "\u{ff15}", "5\u{0663}", "99999999999", "+4294967296",
        "340282366920938463463374607431768211456",
    ] {
        assert_eq!(count_setting(Some(text)), CountSetting::Malformed, "{text:?}");
    }
}

#[test]
fn simulation_logging_switch() {
    assert!(!is_simulation_logging_enabled(None));
    assert!(is_simulation_logging_enabled(Some("true")));
    assert!(is_simulation_logging_enabled(Some("TRUE")));
    assert!(is_simulation_logging_enabled(Some("True")));
    assert!(!is_simulation_logging_enabled(Some("false")));
    assert!(!is_simulation_logging_enabled(Some("1")));
    assert!(!is_simulation_logging_enabled(Some("")));
    assert!(!is_simulation_logging_enabled(Some("true ")));
}

#[test]
fn cycle_time() {
    assert_eq!(IPC_CYCLE_MILLIS, 200);
}
