use midi_bridge::chamsys::{build_crep_packet, encode_raw_command, CrepSequence, CHAMSYS_PORT};
use midi_bridge::decimal::push_decimal;
use midi_bridge::errors::{ErrorKind, ProgramError};

#[test]
fn raw_command_is_its_bytes() {
    assert_eq!(encode_raw_command("1,64L"), b"1,64L".to_vec());
    assert_eq!(encode_raw_command(""), Vec::<u8>::new());
}

#[test]
fn framed_packet_layout() {
    let p = build_crep_packet(5, 9, b"1A").ok().unwrap();
    assert_eq!(p, vec![0x43, 0x52, 0x45, 0x50, 0, 0, 5, 9, 0, 2, b'1', b'A']);
}

#[test]
fn framed_length_is_big_endian() {
    let payload = vec![b'x'; 0x1234];
    let p = build_crep_packet(0, 0, &payload).ok().unwrap();
    assert_eq!(p.len(), 10 + 0x1234);
    assert_eq!(&p[8..10], &[0x12, 0x34]);
    assert_eq!(&p[10..], &payload[..]);
}

#[test]
fn largest_payload_fits() {
    let payload = vec![0u8; 65535];
    let p = build_crep_packet(1, 2, &payload).ok().unwrap();
    assert_eq!(&p[8..10], &[0xFF, 0xFF]);
}

#[test]
fn oversized_payload_is_refused() {
    let payload = vec![0u8; 65536];
    let e = build_crep_packet(1, 2, &payload).err().unwrap();
    assert_eq!(e.kind(), ErrorKind::PayloadTooLarge);
}

#[test]
fn framed_encoding_advances_forward_only() {
    let mut s = CrepSequence { forward: 254, backward: 7 };
    let p = s.encode_framed("2R").ok().unwrap();
    assert_eq!(p, vec![0x43, 0x52, 0x45, 0x50, 0, 0, 254, 7, 0, 2, b'2', b'R']);
    assert_eq!(s, CrepSequence { forward: 255, backward: 7 });
    let p = s.encode_framed("2R").ok().unwrap();
    assert_eq!(p[6], 255);
    assert_eq!(s, CrepSequence { forward: 0, backward: 7 });
}

#[test]
fn forward_sequence_wraps_after_256_packets() {
    for start in [0u8, 1, 128, 255] {
        let mut s = CrepSequence { forward: start, backward: 3 };
        for i in 0..256u32 {
            let p = s.encode_framed("1A").ok().unwrap();
            assert_eq!(p[6] as u32, (start as u32 + i) % 256);
        }
        assert_eq!(s.forward, start);
        assert_eq!(s.backward, 3);
    }
}

#[test]
fn oversized_framed_command_leaves_sequence() {
    let mut s = CrepSequence::new();
    let big = "x".repeat(65536);
    assert_eq!(s.encode_framed(&big).err().map(|e| e.kind()), Some(ErrorKind::PayloadTooLarge));
    assert_eq!(s, CrepSequence { forward: 0, backward: 0 });
}

#[test]
fn encode_command_by_mode() {
    let mut s = CrepSequence::new();
    assert_eq!(s.encode_command("3A", false).ok(), Some(b"3A".to_vec()));
    assert_eq!(s.forward, 0);
    let p = s.encode_command("3A", true).ok().unwrap();
    assert_eq!(p, vec![0x43, 0x52, 0x45, 0x50, 0, 0, 0, 0, 0, 2, b'3', b'A']);
    assert_eq!(s.forward, 1);
}

#[test]
fn console_port() {
    assert_eq!(CHAMSYS_PORT, 6553);
}

#[test]
fn decimal_text() {
    for (n, text) in [(0u8, "0"), (7, "7"), (10, "10"), (99, "99"), (100, "100"), (208, "208"), (255, "255")] {
        let mut s = String::from("#");
        push_decimal(&mut s, n);
        assert_eq!(s, format!("#{}", text));
    }
}

#[test]
fn program_error_message() {
    let e = ProgramError::new("no input port found".to_string());
    assert_eq!(e.message(), "no input port found");
    assert_eq!(e.kind(), ErrorKind::Other);
    let e = ProgramError::with_kind(ErrorKind::SocketBindFailure, "bind".to_string());
    assert_eq!(e.kind(), ErrorKind::SocketBindFailure);
    assert_eq!(e.message, "bind");
}
