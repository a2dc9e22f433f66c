use midi_bridge::errors::ErrorKind;
use midi_bridge::midi_translator::translate_midi_to_chamsys_command;
use midi_bridge::midi_utils::{is_off_status, is_on_status, status_channel};

fn translate(message: &[u8], previous: &mut u8) -> Result<Option<String>, ErrorKind> {
    translate_midi_to_chamsys_command(message, previous).map_err(|e| e.kind())
}

#[test]
fn note_on_first_playback() {
    let mut previous: u8 = 0;
    let r = translate(&[0x90, 48, 100], &mut previous);
    assert_eq!(r, Ok(Some("1A".to_string())));
    assert_eq!(previous, 1);
}

#[test]
fn note_off_first_playback() {
    let mut previous: u8 = 0;
    let r = translate(&[0x80, 48, 0], &mut previous);
    assert_eq!(r, Ok(Some("1R".to_string())));
    assert_eq!(previous, 1);
}

#[test]
fn wheel_sets_level_of_previous_playback() {
    let mut previous: u8 = 1;
    let r = translate(&[0xB0, 0, 64], &mut previous);
    assert_eq!(r, Ok(Some("1,64L".to_string())));
    assert_eq!(previous, 1);
}

#[test]
fn note_on_any_channel() {
    for status in 144u8..=159 {
        for note in [48u8, 59, 60, 100, 255] {
            let mut previous: u8 = 0;
            let r = translate(&[status, note, 1], &mut previous);
            assert_eq!(r, Ok(Some(format!("{}A", note - 47))));
            assert_eq!(previous, note - 47);
        }
    }
}

#[test]
fn note_off_any_channel() {
    for status in 128u8..=143 {
        for note in [48u8, 61, 255] {
            let mut previous: u8 = 9;
            let r = translate(&[status, note, 0], &mut previous);
            assert_eq!(r, Ok(Some(format!("{}R", note - 47))));
            assert_eq!(previous, note - 47);
        }
    }
}

#[test]
fn large_notes_are_not_folded() {
    let mut previous: u8 = 0;
    assert_eq!(translate(&[0x90, 60, 1], &mut previous), Ok(Some("13A".to_string())));
    assert_eq!(translate(&[0x90, 255, 1], &mut previous), Ok(Some("208A".to_string())));
    assert_eq!(previous, 208);
}

#[test]
fn notes_below_first_playback_give_nothing() {
    for status in [0x80u8, 0x8F, 0x90, 0x9F] {
        for note in [0u8, 1, 47] {
            let mut previous: u8 = 7;
            assert_eq!(translate(&[status, note, 100], &mut previous), Ok(None));
            assert_eq!(previous, 7);
        }
    }
}

#[test]
fn wheel_with_any_value() {
    for v in [0u8, 9, 10, 99, 100, 127, 255] {
        let mut previous: u8 = 12;
        let r = translate(&[176, 3, v], &mut previous);
        assert_eq!(r, Ok(Some(format!("12,{}L", v))));
        assert_eq!(previous, 12);
    }
}

#[test]
fn wheel_before_any_note_uses_playback_zero() {
    let mut previous: u8 = 0;
    assert_eq!(translate(&[176, 0, 5], &mut previous), Ok(Some("0,5L".to_string())));
}

#[test]
fn other_statuses_give_nothing() {
    for status in [0u8, 0x7F, 0xA0, 0xAF, 0xB1, 0xC0, 0xE0, 0xF0, 0xFF] {
        let mut previous: u8 = 3;
        assert_eq!(translate(&[status, 60, 100], &mut previous), Ok(None));
        assert_eq!(previous, 3);
    }
}

#[test]
fn short_messages_are_malformed() {
    let mut previous: u8 = 4;
    assert_eq!(translate(&[], &mut previous), Err(ErrorKind::MalformedMessage));
    assert_eq!(translate(&[0x90], &mut previous), Err(ErrorKind::MalformedMessage));
    assert_eq!(translate(&[0xB0], &mut previous), Err(ErrorKind::MalformedMessage));
    assert_eq!(previous, 4);
}

#[test]
fn wheel_without_value_is_malformed() {
    let mut previous: u8 = 4;
    assert_eq!(translate(&[0xB0, 0], &mut previous), Err(ErrorKind::MalformedMessage));
    assert_eq!(previous, 4);
}

#[test]
fn note_without_velocity_is_translated() {
    let mut previous: u8 = 0;
    assert_eq!(translate(&[0x91, 50], &mut previous), Ok(Some("3A".to_string())));
    assert_eq!(previous, 3);
}

#[test]
fn off_message_updates_previous_playback() {
    let mut previous: u8 = 0;
    let _ = translate(&[0x90, 50, 100], &mut previous);
    let _ = translate(&[0x80, 52, 0], &mut previous);
    assert_eq!(translate(&[0xB0, 1, 90], &mut previous), Ok(Some("5,90L".to_string())));
}

#[test]
fn status_classes() {
    assert!(is_on_status(144) && is_on_status(159));
    assert!(!is_on_status(143) && !is_on_status(160));
    assert!(is_off_status(128) && is_off_status(143));
    assert!(!is_off_status(127) && !is_off_status(144));
}

#[test]
fn status_channels() {
    assert_eq!(status_channel(0x90), 1);
    assert_eq!(status_channel(0x93), 4);
    assert_eq!(status_channel(0x8F), 16);
    assert_eq!(status_channel(0xEF), 16);
    assert_eq!(status_channel(0xF0), 1);
    assert_eq!(status_channel(0xFF), 1);
    assert_eq!(status_channel(0x05), 6);
}
