use std::collections::HashMap;
use std::sync::mpsc;
use midi_bridge::chamsys::CrepSequence;
use midi_bridge::errors::ErrorKind;
use midi_bridge::runtime::{AppEvent, AppState, Ipv4Host, RuntimeAction};
use midi_bridge::{LxCommand, MidiRuntime};

fn desk() -> Ipv4Host {
    Ipv4Host::new(2, 0, 0, 35)
}

fn local() -> Ipv4Host {
    Ipv4Host::new(2, 0, 0, 1)
}

fn sent(action: RuntimeAction) -> (String, Vec<u8>, Ipv4Host, u16) {
    match action {
        RuntimeAction::Send { command, payload, host, port } => (command, payload, host, port),
        _ => panic!("expected a send"),
    }
}

#[test]
fn new_state() {
    let s = AppState::new(desk(), local());
    assert_eq!(s.desk_ip, desk());
    assert_eq!(s.app_ip, local());
    assert!(s.mappings.is_empty());
    assert_eq!(s.previous_playback, 0);
    assert!(!s.use_crep);
    assert!(s.running);
}

#[test]
fn midi_note_is_sent_bare_to_the_desk() {
    let mut s = AppState::new(desk(), local());
    let (command, payload, host, port) = sent(s.handle_event(AppEvent::Midi(vec![0x90, 48, 100])));
    assert_eq!(command, "1A");
    assert_eq!(payload, b"1A".to_vec());
    assert_eq!(host, desk());
    assert_eq!(port, 6553);
    assert_eq!(s.previous_playback, 1);
}

#[test]
fn wheel_follows_last_note() {
    let mut s = AppState::new(desk(), local());
    let _ = s.handle_event(AppEvent::Midi(vec![0x90, 50, 100]));
    let (command, payload, _, _) = sent(s.handle_event(AppEvent::Midi(vec![0xB0, 0, 64])));
    assert_eq!(command, "3,64L");
    assert_eq!(payload, b"3,64L".to_vec());
}

#[test]
fn unmapped_and_malformed_input() {
    let mut s = AppState::new(desk(), local());
    assert!(matches!(s.handle_event(AppEvent::Midi(vec![0xC0, 50, 1])), RuntimeAction::Idle));
    assert!(matches!(s.handle_event(AppEvent::Midi(vec![0x90, 10, 1])), RuntimeAction::Idle));
    match s.handle_event(AppEvent::Midi(vec![0x90])) {
        RuntimeAction::Drop { error } => assert_eq!(error.kind(), ErrorKind::MalformedMessage),
        _ => panic!("expected a drop"),
    }
    assert_eq!(s.previous_playback, 0);
    assert!(s.running);
}

#[test]
fn desk_address_changes_next_send() {
    let mut s = AppState::new(desk(), local());
    let other = Ipv4Host::new(10, 1, 2, 3);
    assert!(matches!(s.handle_event(AppEvent::SetDeskIp(other)), RuntimeAction::Idle));
    let (_, _, host, _) = sent(s.handle_event(AppEvent::Midi(vec![0x80, 49, 0])));
    assert_eq!(host, other);
    assert_eq!(s.app_ip, local());
}

#[test]
fn mappings_are_replaced_whole() {
    let mut s = AppState::new(desk(), local());
    let mut first = HashMap::new();
    first.insert(48usize, LxCommand::Activate);
    first.insert(49usize, LxCommand::Deactivate);
    let _ = s.handle_event(AppEvent::UpdateMappings(first));
    let mut second = HashMap::new();
    second.insert(7usize, LxCommand::Intensity);
    assert!(matches!(s.handle_event(AppEvent::UpdateMappings(second.clone())), RuntimeAction::Idle));
    assert_eq!(s.mappings, second);
    // the fixed note arithmetic still decides the command
    let (command, _, _, _) = sent(s.handle_event(AppEvent::Midi(vec![0x90, 48, 1])));
    assert_eq!(command, "1A");
}

#[test]
fn framed_mode_numbers_packets() {
    let mut s = AppState::new(desk(), local());
    s.use_crep = true;
    let (_, p, _, _) = sent(s.handle_event(AppEvent::Midi(vec![0x90, 48, 100])));
    assert_eq!(p, vec![0x43, 0x52, 0x45, 0x50, 0, 0, 0, 0, 0, 2, b'1', b'A']);
    let (_, p, _, _) = sent(s.handle_event(AppEvent::Midi(vec![0x80, 48, 0])));
    assert_eq!(p, vec![0x43, 0x52, 0x45, 0x50, 0, 0, 1, 0, 0, 2, b'1', b'R']);
    assert_eq!(s.sequence, CrepSequence { forward: 2, backward: 0 });
    // nothing sent, nothing numbered
    let _ = s.handle_event(AppEvent::Midi(vec![0x90, 1, 100]));
    assert_eq!(s.sequence.forward, 2);
}

#[test]
fn stop_is_terminal() {
    let mut s = AppState::new(desk(), local());
    assert!(matches!(s.handle_event(AppEvent::Stop), RuntimeAction::Exit));
    assert!(!s.running);
    assert!(matches!(s.handle_event(AppEvent::Midi(vec![0x90, 48, 100])), RuntimeAction::Exit));
    assert!(matches!(s.handle_event(AppEvent::SetDeskIp(local())), RuntimeAction::Exit));
    assert_eq!(s.previous_playback, 0);
    assert_eq!(s.desk_ip, desk());
}

#[test]
fn handle_queues_control_events_in_order() {
    let (tx, rx) = mpsc::channel();
    let runtime = MidiRuntime::new(tx);
    let mut table = HashMap::new();
    table.insert(1usize, LxCommand::Intensity);
    runtime.update_mappings(table.clone());
    runtime.set_desk_ip(Ipv4Host::new(192, 168, 0, 9));
    runtime.stop();
    match rx.recv().unwrap() {
        AppEvent::UpdateMappings(m) => assert_eq!(m, table),
        _ => panic!("expected a mapping update"),
    }
    match rx.recv().unwrap() {
        AppEvent::SetDeskIp(h) => assert_eq!(h, Ipv4Host::new(192, 168, 0, 9)),
        _ => panic!("expected an address"),
    }
    assert!(matches!(rx.recv().unwrap(), AppEvent::Stop));
}

#[test]
fn handle_after_consumer_is_gone_does_nothing() {
    let (tx, rx) = mpsc::channel();
    let runtime = MidiRuntime::new(tx);
    drop(rx);
    runtime.stop();
    runtime.update_mappings(HashMap::new());
}

#[test]
fn consumer_loop_over_queued_events() {
    let (tx, rx) = mpsc::channel();
    let runtime = MidiRuntime::new(tx.clone());
    tx.send(AppEvent::Midi(vec![0x90, 52, 100])).unwrap();
    runtime.stop();
    tx.send(AppEvent::Midi(vec![0x90, 53, 100])).unwrap();
    let mut state = AppState::new(desk(), local());
    let mut commands = Vec::new();
    for event in rx.try_iter() {
        match state.handle_event(event) {
            RuntimeAction::Send { command, .. } => commands.push(command),
            RuntimeAction::Exit => break,
            _ => {}
        }
    }
    assert_eq!(commands, vec!["5A".to_string()]);
}
