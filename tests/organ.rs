use midi_bridge::errors::ErrorKind;
use midi_bridge::organ_midi::{
    midi_to_organ_note, organ_stop_to_sysex, sysex_to_organ_stop, translate_note_to_sysex,
};
use midi_bridge::stops_table::{OrganStop, TOTAL_STOPS};

fn all_stops() -> Vec<OrganStop> {
    (0..=255u8).filter_map(OrganStop::from_u8).collect()
}

#[test]
fn encode_pedal_swell_to_pedal_on() {
    assert_eq!(
        organ_stop_to_sysex(OrganStop::PedalSwellToPedal, true),
        vec![0xF0, 0x2B, 0x01, 0x01, 0x23, 0x00, 0x00, 0x00, 0xF7]
    );
}

#[test]
fn encode_splits_identifier_into_nibbles() {
    assert_eq!(
        organ_stop_to_sysex(OrganStop::PedalOctavePosaune4, false),
        vec![0xF0, 0x2B, 0x01, 0x01, 0x22, 0x00, 0x07, 0x0C, 0xF7]
    );
    assert_eq!(
        organ_stop_to_sysex(OrganStop::ChoirTremulant, true),
        vec![0xF0, 0x2B, 0x01, 0x01, 0x23, 0x00, 0x00, 0x0F, 0xF7]
    );
    assert_eq!(
        organ_stop_to_sysex(OrganStop::ChoirSubOctave, true),
        vec![0xF0, 0x2B, 0x01, 0x01, 0x23, 0x00, 0x01, 0x00, 0xF7]
    );
}

#[test]
fn round_trip_every_stop() {
    let stops = all_stops();
    assert_eq!(stops.len(), 124);
    for stop in stops {
        for on in [true, false] {
            assert_eq!(sysex_to_organ_stop(&organ_stop_to_sysex(stop, on)), Some((stop, on)));
        }
    }
}

#[test]
fn identifiers_round_trip() {
    for n in 0..=255u8 {
        match OrganStop::from_u8(n) {
            Some(stop) => assert_eq!(stop.to_u8(), n),
            None => assert!(n == 2 || n >= TOTAL_STOPS),
        }
    }
    assert_eq!(OrganStop::from_u8(2), None);
    assert_eq!(OrganStop::from_u8(124), Some(OrganStop::PedalOctavePosaune4));
    assert_eq!(OrganStop::from_u8(125), None);
    assert_eq!(OrganStop::SoloContraViola16.to_u8(), 3);
}

#[test]
fn display_names() {
    assert_eq!(OrganStop::PedalSwellToPedal.display_name(), "Pedal Swell to Pedal");
    assert_eq!(OrganStop::SoloVioleDOrchestre8.display_name(), "Solo Viole d'Orchestre 8");
    assert_eq!(OrganStop::SwellTwelfth2_2_3.display_name(), "Swell Twelfth 2 2/3");
    assert_eq!(OrganStop::PedalOctavePosaune4.display_name(), "Pedal Octave Posaune 4");
}

#[test]
fn decode_rejects_anything_else() {
    let good = vec![0xF0u8, 0x2B, 0x01, 0x01, 0x23, 0x00, 0x02, 0x0A, 0xF7];
    assert_eq!(sysex_to_organ_stop(&good), Some((OrganStop::SwellOboe8, true)));
    assert_eq!(sysex_to_organ_stop(&[]), None);
    assert_eq!(sysex_to_organ_stop(&good[..8]), None);
    let mut longer = good.clone();
    longer.push(0xF7);
    assert_eq!(sysex_to_organ_stop(&longer), None);
    for (i, bad) in [(0usize, 0xF1u8), (1, 0x2C), (2, 0x02), (3, 0x00), (4, 0x24), (5, 0x01), (6, 0x10), (7, 0x10), (8, 0xF6)] {
        let mut m = good.clone();
        m[i] = bad;
        assert_eq!(sysex_to_organ_stop(&m), None, "byte {}", i);
    }
    // identifier 2 belongs to no stop
    let unassigned = vec![0xF0u8, 0x2B, 0x01, 0x01, 0x22, 0x00, 0x00, 0x02, 0xF7];
    assert_eq!(sysex_to_organ_stop(&unassigned), None);
    let off = vec![0xF0u8, 0x2B, 0x01, 0x01, 0x22, 0x00, 0x00, 0x01, 0xF7];
    assert_eq!(sysex_to_organ_stop(&off), Some((OrganStop::PedalSoloToPedal, false)));
}

#[test]
fn keyboard_notes_control_stops() {
    assert_eq!(
        midi_to_organ_note(&[0x90, 5, 64], true),
        organ_stop_to_sysex(OrganStop::SoloVioleCeleste8, true)
    );
    assert_eq!(
        midi_to_organ_note(&[0x80, 5, 0], true),
        organ_stop_to_sysex(OrganStop::SoloVioleCeleste8, false)
    );
    assert_eq!(
        midi_to_organ_note(&[0x90, 124, 64], true),
        vec![0xF0, 0x2B, 0x01, 0x01, 0x23, 0x00, 0x07, 0x0C, 0xF7]
    );
}

#[test]
fn keyboard_notes_pass_through() {
    assert_eq!(midi_to_organ_note(&[0x90, 5, 64], false), vec![0x90, 5, 64]);
    assert_eq!(midi_to_organ_note(&[0x90, 2, 64], true), vec![0x90, 2, 64]);
    assert_eq!(midi_to_organ_note(&[0x90, 125, 64], true), vec![0x90, 125, 64]);
    assert_eq!(midi_to_organ_note(&[0x90], true), vec![0x90]);
    assert_eq!(midi_to_organ_note(&[], true), Vec::<u8>::new());
}

#[test]
fn note_to_sysex_needs_a_note() {
    assert_eq!(translate_note_to_sysex(vec![0x90]).err().map(|e| e.kind()), Some(ErrorKind::MalformedMessage));
    assert_eq!(translate_note_to_sysex(vec![]).err().map(|e| e.kind()), Some(ErrorKind::MalformedMessage));
    assert_eq!(translate_note_to_sysex(vec![0x90, 60, 1]).ok(), Some(Vec::new()));
}
