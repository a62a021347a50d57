use maschine::handler::{pad_note_offset, pressure_brightness, MHandler, PressureShape};
use maschine::maschine::Maschine;
use maschine::messages::OutboundMessage;
use maschine::mikro::Mikro;

#[test]
fn linear_velocity_scales_to_seven_bits() {
    let h = MHandler::new(0xFFFFFF, PressureShape::Linear, true);
    assert_eq!(h.pressure_to_vel(0), 0);
    assert_eq!(h.pressure_to_vel(2048), 63);
    assert_eq!(h.pressure_to_vel(4095), 127);
}

#[test]
fn exponential_velocity_squares_the_fraction() {
    let h = MHandler::new(0xFFFFFF, PressureShape::Exponential(2), true);
    assert_eq!(h.pressure_to_vel(4095), 127);
    // (2048/4095)^2 * 127 rounds down to 31.
    assert_eq!(h.pressure_to_vel(2048), 31);
    assert_eq!(h.pressure_to_vel(0), 0);
}

#[test]
fn constant_velocity_ignores_pressure() {
    let h = MHandler::new(0xFFFFFF, PressureShape::Constant(100), true);
    assert_eq!(h.pressure_to_vel(0), 100);
    assert_eq!(h.pressure_to_vel(4095), 100);
}

#[test]
fn brightness_follows_square_root() {
    assert_eq!(pressure_brightness(0), 0);
    assert_eq!(pressure_brightness(4095), 4096);
    // sqrt(1024/4095) in units of 4096.
    assert_eq!(pressure_brightness(1024), 2048);
}

#[test]
fn pad_note_map_is_a_bottom_up_grid() {
    assert_eq!(pad_note_offset(0), 12);
    assert_eq!(pad_note_offset(3), 15);
    assert_eq!(pad_note_offset(12), 0);
    assert_eq!(pad_note_offset(15), 3);
}

#[test]
fn pad_pressed_emits_note_on_and_lights_the_pad() {
    let mut dev = Mikro::new();
    let h = MHandler::new(0xFFFFFF, PressureShape::Linear, true);
    let msg = h.pad_pressed(&mut dev, 0, 4095);
    assert_eq!(msg, OutboundMessage::NoteOn(0, 12, 127));
    // Full pressure lights the pad at full (half-quantized) brightness.
    assert_eq!(&dev.write_lights()[31..34], &[127u8, 127, 127]);
}

#[test]
fn pad_pressed_uses_the_note_base() {
    let mut dev = Mikro::new();
    dev.set_midi_note_base(48);
    let h = MHandler::new(0xFFFFFF, PressureShape::Linear, true);
    let msg = h.pad_pressed(&mut dev, 15, 4095);
    assert_eq!(msg, OutboundMessage::NoteOn(0, 51, 127));
}

#[test]
fn pad_released_emits_note_off_and_dims_the_pad() {
    let mut dev = Mikro::new();
    let h = MHandler::new(0xFFFFFF, PressureShape::Linear, true);
    let _ = h.pad_pressed(&mut dev, 4, 4095);
    let msg = h.pad_released(&mut dev, 4);
    assert_eq!(msg, OutboundMessage::NoteOff(0, 8, 0));
    // The released glow: 61/4096 of half of 255 rounds down to 1.
    assert_eq!(&dev.write_lights()[43..46], &[1u8, 1, 1]);
}

#[test]
fn aftertouch_forwards_pressure_when_enabled() {
    let mut dev = Mikro::new();
    let h = MHandler::new(0xFFFFFF, PressureShape::Linear, true);
    let msg = h.pad_aftertouch(&mut dev, 2, 2048);
    assert_eq!(msg, Some(OutboundMessage::PolyphonicPressure(0, 14, 63)));
}

#[test]
fn aftertouch_suppressed_when_disabled_or_constant() {
    let mut dev = Mikro::new();
    let before = dev.write_lights().clone();
    let h = MHandler::new(0xFFFFFF, PressureShape::Linear, false);
    assert_eq!(h.pad_aftertouch(&mut dev, 2, 2048), None);
    let h = MHandler::new(0xFFFFFF, PressureShape::Constant(99), true);
    assert_eq!(h.pad_aftertouch(&mut dev, 2, 2048), None);
    // Suppressed aftertouch leaves the lights alone too.
    assert_eq!(dev.write_lights(), &before);
}

#[test]
fn update_pad_colors_refreshes_all_pads() {
    let mut dev = Mikro::new();
    let h = MHandler::new(0xFFFFFF, PressureShape::Linear, true);
    h.update_pad_colors(&mut dev);
    let buf = dev.write_lights().clone();
    // Every idle pad takes the resting glow.
    for pad in 0..16 {
        assert_eq!(&buf[31 + 3 * pad..34 + 3 * pad], &[1u8, 1, 1]);
    }
}

#[test]
fn outbound_messages_encode_to_three_bytes() {
    assert_eq!(OutboundMessage::NoteOn(0, 60, 100).to_bytes(), vec![0x90, 60, 100]);
    assert_eq!(OutboundMessage::NoteOff(0, 60, 0).to_bytes(), vec![0x80, 60, 0]);
    assert_eq!(OutboundMessage::PolyphonicPressure(0, 60, 10).to_bytes(), vec![0xA0, 60, 10]);
    // Note numbers wrap into the seven wire bits.
    assert_eq!(OutboundMessage::NoteOn(0, 200, 100).to_bytes(), vec![0x90, 72, 100]);
}
