use rhino_io::adc::{
    channel_config, convert_raw, raw_from_be_bytes, ADDR_ADS115, ADDR_ADS115_TWO,
    SENTINEL_MICROVOLTS, VOLTAGE_LIMIT_MICROVOLTS,
};
use rhino_io::command::OutputCommand;
use rhino_io::poll::{apply_cycle_outputs, merge_reading, next_snapshot, OutputLevels, OUTPUT20};
use rhino_io::state::IoState;

#[test]
fn conversion_mid_scale_is_not_clamped() {
    // Conversion register 0x1000 = 4096 counts: 4096 * 125 uV = 0.512 V.
    let v = convert_raw(0x1000);
    assert_eq!(v, 512_000);
    assert!(v <= VOLTAGE_LIMIT_MICROVOLTS);
}

#[test]
fn conversion_full_scale_is_clamped_to_sentinel() {
    // Conversion register 0xFFFF = 65535 counts: 8.191875 V exceeds the
    // 6.5 V limit, so the sentinel 0.01 V replaces it.
    let v = convert_raw(0xFFFF);
    assert_eq!(v, SENTINEL_MICROVOLTS);
    assert_eq!(v, 10_000);
}

#[test]
fn conversion_limit_boundary() {
    // 52000 counts are exactly 6.5 V: on the limit, not clamped.
    assert_eq!(convert_raw(52_000), 6_500_000);
    // One count more crosses the limit and yields the sentinel.
    assert_eq!(convert_raw(52_001), SENTINEL_MICROVOLTS);
}

#[test]
fn conversion_zero() {
    assert_eq!(convert_raw(0), 0);
}

#[test]
fn big_endian_bytes_join() {
    assert_eq!(raw_from_be_bytes(0x10, 0x00), 0x1000);
    assert_eq!(raw_from_be_bytes(0xFF, 0xFF), 0xFFFF);
    assert_eq!(raw_from_be_bytes(0x00, 0x2A), 42);
}

#[test]
fn channel_table_covers_both_chips() {
    assert_eq!(channel_config(0, 0), (ADDR_ADS115, 0x42, 0x82));
    assert_eq!(channel_config(0, 1), (ADDR_ADS115, 0x52, 0x82));
    assert_eq!(channel_config(0, 2), (ADDR_ADS115, 0x62, 0x82));
    assert_eq!(channel_config(0, 3), (ADDR_ADS115, 0x72, 0x82));
    assert_eq!(channel_config(1, 0), (ADDR_ADS115_TWO, 0x42, 0x82));
    assert_eq!(channel_config(1, 1), (ADDR_ADS115_TWO, 0x52, 0x82));
    assert_eq!(channel_config(1, 2), (ADDR_ADS115_TWO, 0x62, 0x82));
    assert_eq!(channel_config(1, 3), (ADDR_ADS115_TWO, 0x72, 0x82));
}

#[test]
fn merge_keeps_previous_value_on_bus_fault() {
    assert_eq!(merge_reading(123_456, None), 123_456);
    assert_eq!(merge_reading(123_456, Some(0x1000)), 512_000);
}

#[test]
fn cycle_merges_failures_without_disturbing_other_channels() {
    let mut prev = IoState::new();
    prev.adc1_channel1 = 777_000;
    prev.adc2_channel3 = 42_000;
    let readings = [
        Some(0x1000), // adc1 channel 0 succeeds
        None,         // adc1 channel 1 fails: previous value stays
        Some(0),
        Some(0xFFFF), // out of range: sentinel
        Some(0x2000),
        Some(0x3000),
        Some(0x0800),
        None,         // adc2 channel 3 fails: previous value stays
    ];
    let s = next_snapshot(&prev, true, false, &readings);
    assert_eq!(s.adc1_channel0, 512_000);
    assert_eq!(s.adc1_channel1, 777_000);
    assert_eq!(s.adc1_channel2, 0);
    assert_eq!(s.adc1_channel3, SENTINEL_MICROVOLTS);
    assert_eq!(s.adc2_channel0, 1_024_000);
    assert_eq!(s.adc2_channel1, 1_536_000);
    assert_eq!(s.adc2_channel2, 256_000);
    assert_eq!(s.adc2_channel3, 42_000);
    assert!(s.pin_one);
    assert!(!s.pin_two);
    assert!(!s.pin_three);
}

#[test]
fn every_channel_of_a_cycle_is_within_the_limit() {
    let prev = IoState::new();
    let readings = [
        Some(0xFFFF),
        Some(0xFFFE),
        Some(52_000),
        Some(52_001),
        Some(0),
        None,
        Some(0x8000),
        Some(0x7FFF),
    ];
    let s = next_snapshot(&prev, false, false, &readings);
    for v in [
        s.adc1_channel0,
        s.adc1_channel1,
        s.adc1_channel2,
        s.adc1_channel3,
        s.adc2_channel0,
        s.adc2_channel1,
        s.adc2_channel2,
        s.adc2_channel3,
    ] {
        assert!(v <= VOLTAGE_LIMIT_MICROVOLTS);
    }
}

#[test]
fn toggle_command_flips_managed_pin_exactly_once() {
    let mut levels = OutputLevels { selection: false, output20: false };
    apply_cycle_outputs(&mut levels, Some(OutputCommand::LedToggle(OUTPUT20 as i32)));
    assert!(levels.output20);
    assert!(levels.selection);
    // The next cycle drains no command: the managed pin keeps its level,
    // the heartbeat pin toggles again.
    apply_cycle_outputs(&mut levels, None);
    assert!(levels.output20);
    assert!(!levels.selection);
}

#[test]
fn command_for_another_pin_leaves_managed_pin_alone() {
    let mut levels = OutputLevels { selection: false, output20: true };
    apply_cycle_outputs(&mut levels, Some(OutputCommand::LedToggle(7)));
    assert!(levels.output20);
    assert!(levels.selection);
}
