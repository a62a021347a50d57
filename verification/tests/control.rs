use maschine::handler::{ControlArg, MHandler, PressureShape};
use maschine::maschine::{Maschine, MaschineButton};
use maschine::mikro::Mikro;
use maschine::osc::{btn_to_osc_button_map, osc_button_to_btn_map};

fn handler() -> MHandler {
    MHandler::new(0xFFFFFF, PressureShape::Linear, true)
}

#[test]
fn control_sets_a_pad_light() {
    let mut dev = Mikro::new();
    let h = handler();
    let args = vec![
        ControlArg::Int(2),
        ControlArg::Int(0xFF0000),
        ControlArg::Frac(4096),
    ];
    assert!(h.handle_osc_message(&mut dev, "/device/pad", &args));
    assert_eq!(&dev.write_lights()[37..40], &[127u8, 0, 0]);
}

#[test]
fn control_pad_out_of_range_is_ignored() {
    let mut dev = Mikro::new();
    let before = dev.write_lights().clone();
    let h = handler();
    let args = vec![
        ControlArg::Int(99),
        ControlArg::Int(0xFF0000),
        ControlArg::Frac(4096),
    ];
    assert!(!h.handle_osc_message(&mut dev, "/device/pad", &args));
    assert_eq!(dev.write_lights(), &before);
}

#[test]
fn control_sets_the_note_base() {
    let mut dev = Mikro::new();
    let h = handler();
    assert!(h.handle_osc_message(&mut dev, "/device/note_base", &vec![ControlArg::Int(60)]));
    assert_eq!(dev.get_midi_note_base(), 60);
    // The wire value is truncated to a byte, as the setter takes one.
    assert!(h.handle_osc_message(&mut dev, "/device/note_base", &vec![ControlArg::Int(300)]));
    assert_eq!(dev.get_midi_note_base(), 44);
}

#[test]
fn control_sets_a_button_light_by_name() {
    let mut dev = Mikro::new();
    let h = handler();
    assert!(h.handle_osc_message(&mut dev, "/device/button/play", &vec![ControlArg::Frac(4096)]));
    // Play sits at position 4 of the button region, which starts at byte 1.
    assert_eq!(dev.write_lights()[5], 127);
}

#[test]
fn control_button_integer_brightness() {
    let mut dev = Mikro::new();
    let h = handler();
    assert!(h.handle_osc_message(&mut dev, "/device/button/rec", &vec![ControlArg::Int(1)]));
    assert_eq!(dev.write_lights()[6], 127);
}

#[test]
fn control_button_with_color_argument() {
    let mut dev = Mikro::new();
    let h = handler();
    let args = vec![ControlArg::Int(0x004000), ControlArg::Frac(4096)];
    assert!(h.handle_osc_message(&mut dev, "/device/button/grid", &args));
    // The monochrome LED takes the brightest channel, halved.
    assert_eq!(dev.write_lights()[4], 32);
}

#[test]
fn undecodable_control_messages_are_ignored() {
    let mut dev = Mikro::new();
    let before = dev.write_lights().clone();
    let h = handler();
    assert!(!h.handle_osc_message(&mut dev, "/elsewhere", &vec![ControlArg::Int(1)]));
    assert!(!h.handle_osc_message(&mut dev, "/device/button/bogus", &vec![ControlArg::Int(1)]));
    assert!(!h.handle_osc_message(&mut dev, "/device/pad", &vec![ControlArg::Int(1)]));
    let args = vec![
        ControlArg::Frac(1),
        ControlArg::Int(0),
        ControlArg::Frac(4096),
    ];
    assert!(!h.handle_osc_message(&mut dev, "/device/pad", &args));
    assert!(!h.handle_osc_message(&mut dev, "/device/note_base", &vec![ControlArg::Frac(1)]));
    assert_eq!(dev.write_lights(), &before);
    assert_eq!(dev.get_midi_note_base(), 0);
}

#[test]
fn button_names_roundtrip() {
    let all = vec![
        MaschineButton::Restart,
        MaschineButton::StepLeft,
        MaschineButton::StepRight,
        MaschineButton::Grid,
        MaschineButton::Play,
        MaschineButton::Rec,
        MaschineButton::Erase,
        MaschineButton::Shift,
        MaschineButton::Group,
        MaschineButton::Browse,
        MaschineButton::Sampling,
        MaschineButton::NoteRepeat,
        MaschineButton::Encoder,
        MaschineButton::F1,
        MaschineButton::F2,
        MaschineButton::F3,
        MaschineButton::Control,
        MaschineButton::Nav,
        MaschineButton::NavLeft,
        MaschineButton::NavRight,
        MaschineButton::Main,
        MaschineButton::Scene,
        MaschineButton::Pattern,
        MaschineButton::PadMode,
        MaschineButton::View,
        MaschineButton::Duplicate,
        MaschineButton::Select,
        MaschineButton::Solo,
        MaschineButton::Mute,
    ];
    for &btn in all.iter() {
        assert_eq!(osc_button_to_btn_map(btn_to_osc_button_map(btn)), Some(btn));
    }
    assert_eq!(osc_button_to_btn_map("bogus"), None);
    assert_eq!(btn_to_osc_button_map(MaschineButton::NoteRepeat), "note_repeat");
}
