use maschine::dispatch::{dispatch_step, flush_due, DispatchAction};
use maschine::handler::{MHandler, PressureShape};
use maschine::maschine::MaschineButton;

#[test]
fn dispatch_orders_device_control_flush() {
    let acts = dispatch_step(true, true, true);
    assert_eq!(
        acts,
        vec![
            DispatchAction::ProcessDevice,
            DispatchAction::ProcessControl,
            DispatchAction::FlushLights,
        ]
    );
}

#[test]
fn dispatch_skips_what_is_not_ready() {
    assert_eq!(dispatch_step(false, false, false), vec![]);
    assert_eq!(dispatch_step(true, false, false), vec![DispatchAction::ProcessDevice]);
    assert_eq!(dispatch_step(false, true, false), vec![DispatchAction::ProcessControl]);
}

#[test]
fn flush_runs_even_when_inputs_are_busy() {
    let acts = dispatch_step(true, true, true);
    assert_eq!(acts.last(), Some(&DispatchAction::FlushLights));
    let acts = dispatch_step(false, false, true);
    assert_eq!(acts, vec![DispatchAction::FlushLights]);
}

#[test]
fn flush_due_at_the_interval() {
    assert!(!flush_due(0));
    assert!(!flush_due(15));
    assert!(flush_due(16));
    assert!(flush_due(1000));
}

#[test]
fn encoder_datagram_bytes() {
    // An OSC message: padded path, padded ",i" typetags, big-endian value.
    let h = MHandler::new(0xFFFFFF, PressureShape::Linear, true);
    let dgram = h.encoder_step(1);
    let mut expected: Vec<u8> = Vec::new();
    expected.extend_from_slice("/device/encoder".as_bytes());
    expected.push(0);
    expected.extend_from_slice(",i".as_bytes());
    expected.push(0);
    expected.push(0);
    expected.extend_from_slice(&[0, 0, 0, 1]);
    assert_eq!(dgram, expected);
    let dgram = h.encoder_step(-1);
    let n = dgram.len();
    assert_eq!(&dgram[n - 4..], &[0xFF, 0xFF, 0xFF, 0xFF]);
}

#[test]
fn button_datagram_bytes() {
    let h = MHandler::new(0xFFFFFF, PressureShape::Linear, true);
    let down = h.button_down(MaschineButton::Play);
    let mut expected: Vec<u8> = Vec::new();
    expected.extend_from_slice("/device/button/play".as_bytes());
    expected.push(0);
    expected.extend_from_slice(",i".as_bytes());
    expected.push(0);
    expected.push(0);
    expected.extend_from_slice(&[0, 0, 0, 1]);
    assert_eq!(down, expected);
    let up = h.button_up(MaschineButton::Play);
    let n = up.len();
    assert_eq!(&up[n - 4..], &[0, 0, 0, 0]);
}
