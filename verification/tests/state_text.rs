use std::sync::{Arc, Mutex};

use rhino_io::numparse::{get_pin_number, parse_i32_bytes};
use rhino_io::rhino::{snapshot_updates, LEDToggleUpdate, TextUpdate};
use rhino_io::state::{IoState, SharedState};
use rhino_io::textfmt::{bool_string, dec_string, volts_string};

#[test]
fn initial_snapshot_is_all_low_and_zero() {
    let s = IoState::new();
    assert!(!s.pin_one && !s.pin_two && !s.pin_three);
    assert_eq!(s.adc1_channel0, 0);
    assert_eq!(s.adc2_channel3, 0);
}

#[test]
fn set_pin_touches_only_the_named_input() {
    let mut s = IoState::new();
    s.set_pin(0, true);
    assert!(s.pin_one && !s.pin_two);
    s.set_pin(1, true);
    assert!(s.pin_one && s.pin_two);
    // Other pin numbers are ignored.
    let before = s;
    s.set_pin(5, true);
    assert_eq!(s, before);
}

#[test]
fn read_after_write_returns_the_written_snapshot() {
    let mut shared = SharedState::new(IoState::new());
    let mut written = IoState::new();
    written.adc1_channel0 = 512_000;
    written.pin_one = true;
    shared.write_snapshot(written);
    // The replace is all-or-nothing: the read returns every field of the
    // written snapshot, none of the initial one.
    assert_eq!(shared.read_snapshot(), written);
}

#[test]
fn reading_twice_without_a_write_is_identical() {
    let mut shared = SharedState::new(IoState::new());
    let mut s = IoState::new();
    s.adc2_channel2 = 42;
    s.pin_two = true;
    shared.write_snapshot(s);
    let r1 = shared.read_snapshot();
    let r2 = shared.read_snapshot();
    assert_eq!(r1, r2);
}

#[test]
fn two_sessions_see_the_same_values() {
    // Two independent copy-outs of the same state agree on every field.
    let mut shared = SharedState::new(IoState::new());
    let mut s = IoState::new();
    s.adc1_channel3 = 6_500_000;
    shared.write_snapshot(s);
    let session_one = shared.read_snapshot();
    let session_two = shared.read_snapshot();
    assert_eq!(session_one, session_two);
    assert_eq!(session_one.adc1_channel3, 6_500_000);
}

fn uniform_snapshot(i: u32) -> IoState {
    let mut s = IoState::new();
    let level = i % 2 == 0;
    s.pin_one = level;
    s.pin_two = level;
    s.adc1_channel0 = i;
    s.adc1_channel1 = i;
    s.adc1_channel2 = i;
    s.adc1_channel3 = i;
    s.adc2_channel0 = i;
    s.adc2_channel1 = i;
    s.adc2_channel2 = i;
    s.adc2_channel3 = i;
    s
}

#[test]
fn interleaved_readers_never_observe_a_torn_snapshot() {
    // One writer replaces the snapshot while several readers copy it out:
    // every observed snapshot must match one single completed write, here
    // recognizable because each write carries one value on every field.
    let rt = tokio::runtime::Runtime::new().unwrap();
    rt.block_on(async {
        let shared = Arc::new(Mutex::new(SharedState::new(uniform_snapshot(0))));
        let w = shared.clone();
        let writer = tokio::spawn(async move {
            for i in 1..200u32 {
                w.lock().unwrap().write_snapshot(uniform_snapshot(i));
                tokio::task::yield_now().await;
            }
        });
        let mut readers = Vec::new();
        for _ in 0..4 {
            let r = shared.clone();
            readers.push(tokio::spawn(async move {
                for _ in 0..200 {
                    let s = { r.lock().unwrap().read_snapshot() };
                    assert_eq!(s, uniform_snapshot(s.adc1_channel0));
                    tokio::task::yield_now().await;
                }
            }));
        }
        writer.await.unwrap();
        for reader in readers {
            reader.await.unwrap();
        }
    });
}

#[test]
fn volts_render_exact_decimals() {
    assert_eq!(volts_string(512_000), "0.512");
    assert_eq!(volts_string(10_000), "0.01");
    assert_eq!(volts_string(6_500_000), "6.5");
    assert_eq!(volts_string(0), "0");
    assert_eq!(volts_string(125), "0.000125");
    assert_eq!(volts_string(1_000_000), "1");
    assert_eq!(volts_string(2_345_678), "2.345678");
}

#[test]
fn whole_numbers_render_all_digits() {
    assert_eq!(dec_string(0), "0");
    assert_eq!(dec_string(7), "7");
    assert_eq!(dec_string(1_234_567), "1234567");
}

#[test]
fn levels_render_as_true_and_false() {
    assert_eq!(bool_string(true), "true");
    assert_eq!(bool_string(false), "false");
}

#[test]
fn text_update_encodes_as_one_wire_message() {
    let u = TextUpdate::new("adc1_channel0".to_string(), "0.512".to_string());
    assert_eq!(u.wire_bytes(), br#"{"id":"adc1_channel0","text":"0.512"}"#.to_vec());
}

#[test]
fn text_update_escapes_its_content() {
    let u = TextUpdate::new("a\"b".to_string(), "c\\d\ne".to_string());
    assert_eq!(
        u.wire_bytes(),
        br#"{"id":"a\"b","text":"c\\d\u000ae"}"#.to_vec()
    );
}

#[test]
fn snapshot_updates_cover_every_tracked_field() {
    let mut s = IoState::new();
    s.adc1_channel0 = 512_000;
    s.adc2_channel3 = 10_000;
    s.pin_one = true;
    let updates = snapshot_updates(&s);
    assert_eq!(updates.len(), 10);
    let expected = [
        ("adc1_channel0", "0.512"),
        ("adc1_channel1", "0"),
        ("adc1_channel2", "0"),
        ("adc1_channel3", "0"),
        ("adc2_channel0", "0"),
        ("adc2_channel1", "0"),
        ("adc2_channel2", "0"),
        ("adc2_channel3", "0.01"),
        ("pin_one", "true"),
        ("pin_two", "false"),
    ];
    for (u, (id, text)) in updates.iter().zip(expected.iter()) {
        assert_eq!(u.id, *id);
        assert_eq!(u.text, *text);
    }
}

#[test]
fn toggle_request_pin_reads_its_identifier() {
    let u = LEDToggleUpdate::new("20".to_string(), "toggle".to_string());
    assert_eq!(u.pin(), Some(20));
    let bad = LEDToggleUpdate::new("two".to_string(), "toggle".to_string());
    assert_eq!(bad.pin(), None);
}

#[test]
fn parse_i32_accepts_signs_and_rejects_junk() {
    assert_eq!(parse_i32_bytes(b"20"), Some(20));
    assert_eq!(parse_i32_bytes(b"+20"), Some(20));
    assert_eq!(parse_i32_bytes(b"-20"), Some(-20));
    assert_eq!(parse_i32_bytes(b"020"), Some(20));
    assert_eq!(parse_i32_bytes(b""), None);
    assert_eq!(parse_i32_bytes(b"-"), None);
    assert_eq!(parse_i32_bytes(b"2 0"), None);
    assert_eq!(parse_i32_bytes(b"20\n"), None);
}

#[test]
fn pin_answer_is_trimmed_and_bounded() {
    assert_eq!(get_pin_number("20\n"), Some(20));
    assert_eq!(get_pin_number("  +7 \r\n"), Some(7));
    assert_eq!(get_pin_number("255"), Some(255));
    assert_eq!(get_pin_number("256"), None);
    assert_eq!(get_pin_number("-1"), None);
    assert_eq!(get_pin_number("abc"), None);
    assert_eq!(get_pin_number("   "), None);
    assert_eq!(get_pin_number(""), None);
}
