use maschine::maschine::{DiscreteEvent, Maschine};
use maschine::mikro::Mikro;

fn button_report(counter: u8) -> Vec<u8> {
    vec![0x01, 0, 0, 0, 0, counter]
}

fn pad_report(vals: [u16; 16]) -> Vec<u8> {
    let mut r = vec![0x20u8];
    for v in vals.iter() {
        r.push((v & 0xFF) as u8);
        r.push((v >> 8) as u8);
    }
    r
}

#[test]
fn encoder_increments_through_wrap() {
    let mut dev = Mikro::new();
    // The first report only synchronises the stored counter (the driver
    // starts on an out-of-range value); it yields one spurious step.
    let evs = dev.readable(&button_report(0));
    assert_eq!(evs.len(), 1);
    assert!(matches!(evs[0], DiscreteEvent::EncoderStep { delta: -1 }));
    let counters = [1, 2, 3, 4, 5, 6, 7, 8, 9, 10, 11, 12, 13, 14, 15, 0, 1];
    for &c in counters.iter() {
        let evs = dev.readable(&button_report(c));
        assert_eq!(evs.len(), 1);
        assert!(matches!(evs[0], DiscreteEvent::EncoderStep { delta: 1 }));
    }
}

#[test]
fn encoder_decrements() {
    let mut dev = Mikro::new();
    let _sync = dev.readable(&button_report(0));
    for &c in [15u8, 14].iter() {
        let evs = dev.readable(&button_report(c));
        assert_eq!(evs.len(), 1);
        assert!(matches!(evs[0], DiscreteEvent::EncoderStep { delta: -1 }));
    }
}

#[test]
fn encoder_unchanged_counter_is_silent() {
    let mut dev = Mikro::new();
    let _sync = dev.readable(&button_report(5));
    assert!(dev.readable(&button_report(5)).is_empty());
    // An out-of-range counter only resynchronises.
    assert!(dev.readable(&button_report(0x42)).is_empty());
}

#[test]
fn pad_light_full_white_stores_half_intensity() {
    let mut dev = Mikro::new();
    assert!(dev.set_pad_light(0, 0xFFFFFF, 4096).is_ok());
    let buf = dev.write_lights();
    assert_eq!(buf.len(), 79);
    assert_eq!(buf[0], 0x80);
    assert_eq!(&buf[31..34], &[127u8, 127, 127]);
}

#[test]
fn pad_light_out_of_range_is_error() {
    let mut dev = Mikro::new();
    let before = dev.write_lights().clone();
    assert!(dev.set_pad_light(16, 0xFFFFFF, 4096).is_err());
    assert_eq!(dev.write_lights(), &before);
}

#[test]
fn pad_light_color_channels_land_in_order() {
    let mut dev = Mikro::new();
    assert!(dev.set_pad_light(2, 0x40FF00, 4096).is_ok());
    let buf = dev.write_lights();
    // 0x40 scaled by half is 32, 0xFF is 127, 0x00 stays 0.
    assert_eq!(&buf[37..40], &[32u8, 127, 0]);
}

#[test]
fn pad_report_roundtrip() {
    let mut dev = Mikro::new();
    let mut vals = [0u16; 16];
    vals[3] = 2000;
    let report = pad_report(vals);
    for _ in 0..7 {
        assert!(dev.readable(&report).is_empty());
    }
    let evs = dev.readable(&report);
    assert_eq!(evs.len(), 1);
    assert!(matches!(evs[0], DiscreteEvent::PadPressed { pad: 3, pressure: 2000 }));
    let evs = dev.readable(&report);
    assert_eq!(evs.len(), 1);
    assert!(matches!(evs[0], DiscreteEvent::PadAftertouch { pad: 3, pressure: 2000 }));
    // Releasing: the held state persists while a majority of high samples
    // remains in the window, then the release fires at pad 3.
    let zeros = pad_report([0u16; 16]);
    for _ in 0..7 {
        let evs = dev.readable(&zeros);
        assert_eq!(evs.len(), 1);
        assert!(matches!(evs[0], DiscreteEvent::PadAftertouch { pad: 3, pressure: 0 }));
    }
    let evs = dev.readable(&zeros);
    assert_eq!(evs.len(), 1);
    assert!(matches!(evs[0], DiscreteEvent::PadReleased { pad: 3 }));
}

#[test]
fn pad_report_masks_high_nibble() {
    let mut dev = Mikro::new();
    let mut vals = [0u16; 16];
    // Only the low twelve bits of a word are significant.
    vals[0] = 0xF7D0;
    let report = pad_report(vals);
    for _ in 0..7 {
        assert!(dev.readable(&report).is_empty());
    }
    let evs = dev.readable(&report);
    assert!(matches!(evs[0], DiscreteEvent::PadPressed { pad: 0, pressure: 0x7D0 }));
}

#[test]
fn two_pads_report_in_index_order() {
    let mut dev = Mikro::new();
    let mut vals = [0u16; 16];
    vals[1] = 3000;
    vals[9] = 1500;
    let report = pad_report(vals);
    for _ in 0..7 {
        assert!(dev.readable(&report).is_empty());
    }
    let evs = dev.readable(&report);
    assert_eq!(evs.len(), 2);
    assert!(matches!(evs[0], DiscreteEvent::PadPressed { pad: 1, pressure: 3000 }));
    assert!(matches!(evs[1], DiscreteEvent::PadPressed { pad: 9, pressure: 1500 }));
}

#[test]
fn unknown_or_short_reports_are_ignored() {
    let mut dev = Mikro::new();
    assert!(dev.readable(&[]).is_empty());
    assert!(dev.readable(&[0x7F, 1, 2, 3]).is_empty());
    // A truncated pad report is undecodable and ignored.
    assert!(dev.readable(&[0x20, 1, 2]).is_empty());
    assert!(dev.readable(&[0x01, 0]).is_empty());
}

#[test]
fn clear_screen_blanks_in_four_bands() {
    let dev = Mikro::new();
    let packets = dev.clear_screen();
    assert_eq!(packets.len(), 4);
    for (i, p) in packets.iter().enumerate() {
        assert_eq!(p.len(), 265);
        assert_eq!(p[0], 0xE0);
        assert_eq!(p[1], (i as u8) * 32);
        assert_eq!(p[5], 0x20);
        assert_eq!(p[7], 0x08);
        for (j, &b) in p.iter().enumerate() {
            if j != 0 && j != 1 && j != 5 && j != 7 {
                assert_eq!(b, 0);
            }
        }
    }
    assert_eq!(packets[0][1], 0);
    assert_eq!(packets[1][1], 32);
    assert_eq!(packets[2][1], 64);
    assert_eq!(packets[3][1], 96);
}

#[test]
fn note_base_accessors() {
    let mut dev = Mikro::new();
    assert_eq!(dev.get_midi_note_base(), 0);
    dev.set_midi_note_base(48);
    assert_eq!(dev.get_midi_note_base(), 48);
}

#[test]
fn get_pad_pressure_bounds() {
    let dev = Mikro::new();
    assert_eq!(dev.get_pad_pressure(0), Ok(0));
    assert_eq!(dev.get_pad_pressure(15), Ok(0));
    assert!(dev.get_pad_pressure(16).is_err());
}
