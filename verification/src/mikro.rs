//! Protocol driver for the Mikro grid controller.
//!
//! Decodes the model's two HID input reports (button/encoder and pad
//! pressures), maintains the 79-byte light-report image, and produces the
//! four-packet screen-clear sequence.  All layouts are fixed binary formats
//! of the device.

use vstd::prelude::*;

use crate::maschine::{DiscreteEvent, Maschine, MaschineButton};
use crate::maschine_pad::{
    feed_window, spec_median, step_state, step_transition, MaschinePad, MaschinePadState,
    MaschinePadStateTransition,
};

verus! {

/// Report tag of a button/encoder report.
pub const TAG_BUTTONS: u8 = 0x01;

/// Report tag of a pad-pressure report.
pub const TAG_PADS: u8 = 0x20;

/// Number of pressure pads on the model.
pub const PAD_COUNT: usize = 16;

/// Length of the light report, transmitted verbatim.
pub const LIGHT_REPORT_LEN: usize = 79;

/// Header byte of the light report.
pub const LIGHT_REPORT_HEADER: u8 = 0x80;

/// First byte of the per-pad RGB region inside the light report.
pub const PAD_LIGHT_OFFSET: usize = 31;

/// First byte of the per-button intensity region inside the light report.
pub const BUTTON_LIGHT_OFFSET: usize = 1;

/// A brightness of this value means "fully lit".  Brightnesses are
/// fractions of this denominator.
pub const BRIGHTNESS_ONE: u16 = 4096;

/// Header byte of a screen-clear packet.
pub const SCREEN_HEADER: u8 = 0xE0;

/// Length of one screen-clear packet: header, 8 layout bytes, 256 pixels.
pub const SCREEN_PACKET_LEN: usize = 265;

/// Row offset between consecutive screen-clear packets.
pub const SCREEN_ROW_STRIDE: u8 = 32;

/// Number of packets that together blank the display.
pub const SCREEN_PACKET_COUNT: usize = 4;

/// Red channel of a packed `0x00RRGGBB` colour.
pub open spec fn color_red(color: u32) -> u8 {
    ((color >> 16) & 0xFF) as u8
}

/// Green channel of a packed `0x00RRGGBB` colour.
pub open spec fn color_green(color: u32) -> u8 {
    ((color >> 8) & 0xFF) as u8
}

/// Blue channel of a packed `0x00RRGGBB` colour.
pub open spec fn color_blue(color: u32) -> u8 {
    (color & 0xFF) as u8
}

/// Brightest channel of a packed colour; the button LEDs are monochrome,
/// so one intensity byte stands for the whole colour.
pub open spec fn color_max(color: u32) -> u8 {
    let r = color_red(color);
    let g = color_green(color);
    let b = color_blue(color);
    if r >= g && r >= b {
        r
    } else if g >= b {
        g
    } else {
        b
    }
}

/// Position of a button's intensity byte within the button region.
pub open spec fn spec_button_index(btn: MaschineButton) -> int {
    match btn {
        MaschineButton::Restart => 0,
        MaschineButton::StepLeft => 1,
        MaschineButton::StepRight => 2,
        MaschineButton::Grid => 3,
        MaschineButton::Play => 4,
        MaschineButton::Rec => 5,
        MaschineButton::Erase => 6,
        MaschineButton::Shift => 7,
        MaschineButton::Group => 8,
        MaschineButton::Browse => 9,
        MaschineButton::Sampling => 10,
        MaschineButton::NoteRepeat => 11,
        MaschineButton::Encoder => 12,
        MaschineButton::F1 => 13,
        MaschineButton::F2 => 14,
        MaschineButton::F3 => 15,
        MaschineButton::Control => 16,
        MaschineButton::Nav => 17,
        MaschineButton::NavLeft => 18,
        MaschineButton::NavRight => 19,
        MaschineButton::Main => 20,
        MaschineButton::Scene => 21,
        MaschineButton::Pattern => 22,
        MaschineButton::PadMode => 23,
        MaschineButton::View => 24,
        MaschineButton::Duplicate => 25,
        MaschineButton::Select => 26,
        MaschineButton::Solo => 27,
        MaschineButton::Mute => 28,
    }
}

/// Position of a button's intensity byte within the button region.
pub fn button_index(btn: MaschineButton) -> (r: usize)
    ensures
        r == spec_button_index(btn),
        r < 29,
{
    match btn {
        MaschineButton::Restart => 0,
        MaschineButton::StepLeft => 1,
        MaschineButton::StepRight => 2,
        MaschineButton::Grid => 3,
        MaschineButton::Play => 4,
        MaschineButton::Rec => 5,
        MaschineButton::Erase => 6,
        MaschineButton::Shift => 7,
        MaschineButton::Group => 8,
        MaschineButton::Browse => 9,
        MaschineButton::Sampling => 10,
        MaschineButton::NoteRepeat => 11,
        MaschineButton::Encoder => 12,
        MaschineButton::F1 => 13,
        MaschineButton::F2 => 14,
        MaschineButton::F3 => 15,
        MaschineButton::Control => 16,
        MaschineButton::Nav => 17,
        MaschineButton::NavLeft => 18,
        MaschineButton::NavRight => 19,
        MaschineButton::Main => 20,
        MaschineButton::Scene => 21,
        MaschineButton::Pattern => 22,
        MaschineButton::PadMode => 23,
        MaschineButton::View => 24,
        MaschineButton::Duplicate => 25,
        MaschineButton::Select => 26,
        MaschineButton::Solo => 27,
        MaschineButton::Mute => 28,
    }
}

/// Scale one colour channel by a brightness fraction.
fn scale(brightness: u16, chan: u8) -> (r: u8)
    ensures
        r == scale_channel(brightness, chan),
{
    proof {
        assert((brightness as int) * (chan as int) <= 65535 * 255) by (nonlinear_arith)
            requires
                brightness <= 65535,
                chan <= 255,
        ;
    }
    let scaled = (brightness as u32) * (chan as u32) / (2 * BRIGHTNESS_ONE as u32);
    if scaled > 255 {
        255u8
    } else {
        scaled as u8
    }
}

/// A colour channel scaled by a brightness fraction of 4096 and halved:
/// the hardware expects at most half-intensity values, so a fully bright
/// channel of 255 stores 127.  Saturates at 255 for out-of-range
/// brightnesses.
pub open spec fn scale_channel(brightness: u16, chan: u8) -> u8 {
    let scaled = (brightness as int * chan as int) / (2 * BRIGHTNESS_ONE as int);
    if scaled > 255 {
        255u8
    } else {
        scaled as u8
    }
}

/// The raw 12-bit sample of pad `i` in a pad-report payload: two bytes
/// little-endian, high nibble of the second byte ignored.
pub open spec fn spec_pad_raw(payload: Seq<u8>, i: int) -> u16 {
    (payload[2 * i] as int + 256 * (payload[2 * i + 1] as int % 16)) as u16
}

/// A 12-bit sample written little-endian into a pad-report payload decodes
/// back to itself.
pub proof fn lemma_pad_word_roundtrip(payload: Seq<u8>, i: int, v: u16)
    requires
        0 <= i,
        2 * i + 1 < payload.len(),
        v <= 4095,
        payload[2 * i] == (v % 256) as u8,
        payload[2 * i + 1] == (v / 256) as u8,
    ensures
        spec_pad_raw(payload, i) == v,
{
}

/// Transition the debouncer of `pad` emits when fed `raw`.
pub open spec fn fed_transition(pad: MaschinePad, raw: u16) -> MaschinePadStateTransition {
    step_transition(pad.state(), spec_median(feed_window(pad.window(), raw)))
}

/// `post` is `pre` after feeding one raw sample.
pub open spec fn feeds_to(pre: MaschinePad, post: MaschinePad, raw: u16) -> bool {
    &&& post.window() == feed_window(pre.window(), raw)
    &&& post.state() == step_state(pre.state(), spec_median(post.window()))
}

/// The event (if any) that pad `i` contributes for its raw sample.
pub open spec fn pad_event(pad: MaschinePad, raw: u16, i: int) -> Seq<DiscreteEvent> {
    match fed_transition(pad, raw) {
        MaschinePadStateTransition::Pressed => seq![
            DiscreteEvent::PadPressed { pad: i as usize, pressure: raw },
        ],
        MaschinePadStateTransition::Aftertouch => seq![
            DiscreteEvent::PadAftertouch { pad: i as usize, pressure: raw },
        ],
        MaschinePadStateTransition::Released => seq![DiscreteEvent::PadReleased { pad: i as usize }],
        MaschinePadStateTransition::AtRest => Seq::empty(),
    }
}

/// Events of the first `n` pads of a pad report, in pad-index order.
pub open spec fn pads_events(pads: Seq<MaschinePad>, payload: Seq<u8>, n: int) -> Seq<DiscreteEvent>
    decreases n,
{
    if n <= 0 {
        Seq::empty()
    } else {
        pads_events(pads, payload, n - 1) + pad_event(
            pads[n - 1],
            spec_pad_raw(payload, n - 1),
            n - 1,
        )
    }
}

/// Events an encoder byte yields: values above 15 only resynchronise, an
/// unchanged counter yields nothing, a counter that moved one step forward
/// modulo 16 yields `+1`, anything else `-1`.
pub open spec fn encoder_events(old_counter: u8, c: u8) -> Seq<DiscreteEvent> {
    if c > 0xF || old_counter == c {
        Seq::empty()
    } else if (old_counter + 1) % 16 == c {
        seq![DiscreteEvent::EncoderStep { delta: 1i32 }]
    } else {
        seq![DiscreteEvent::EncoderStep { delta: -1i32 }]
    }
}

/// The stored encoder counter after seeing byte `c`.
pub open spec fn encoder_state(old_counter: u8, c: u8) -> u8 {
    if old_counter == c {
        old_counter
    } else {
        c
    }
}

/// One screen-clear packet: header, the packet's row offset, two format
/// bytes, and an all-zero pixel payload.
pub open spec fn spec_screen_packet(i: int) -> Seq<u8> {
    Seq::new(
        SCREEN_PACKET_LEN as nat,
        |j: int|
            if j == 0 {
                SCREEN_HEADER
            } else if j == 1 {
                (i * (SCREEN_ROW_STRIDE as int)) as u8
            } else if j == 5 {
                0x20u8
            } else if j == 7 {
                0x08u8
            } else {
                0u8
            },
    )
}

/// Driver state for one connected device.
pub struct Mikro {
    light_buf: Vec<u8>,
    pads: Vec<MaschinePad>,
    buttons: Vec<u8>,
    note_base: u8,
}

impl Mikro {
    /// The light-report image.
    pub closed spec fn lights(&self) -> Seq<u8> {
        self.light_buf@
    }

    /// The sixteen per-pad debouncers.
    pub closed spec fn pads_view(&self) -> Seq<MaschinePad> {
        self.pads@
    }

    /// The five stored bytes of the last button report; byte 4 is the
    /// encoder counter (initially the out-of-range resync value 0x10).
    pub closed spec fn buttons_view(&self) -> Seq<u8> {
        self.buttons@
    }

    /// The note-base byte.
    pub closed spec fn note_base_view(&self) -> u8 {
        self.note_base
    }

    /// Well-formedness: fixed buffer sizes, light header in place, every
    /// pad filter well formed.
    pub open spec fn mikro_wf(&self) -> bool {
        &&& self.lights().len() == LIGHT_REPORT_LEN
        &&& self.lights()[0] == LIGHT_REPORT_HEADER
        &&& self.pads_view().len() == PAD_COUNT
        &&& (forall|i: int| 0 <= i < PAD_COUNT ==> self.pads_view()[i].wf())
        &&& self.buttons_view().len() == 5
    }

    fn sixteen_maschine_pads() -> (r: Vec<MaschinePad>)
        ensures
            r@.len() == PAD_COUNT,
            forall|i: int| 0 <= i < PAD_COUNT ==> r@[i].wf(),
            forall|i: int|
                0 <= i < PAD_COUNT ==> r@[i].state() == MaschinePadState::Unpressed,
            forall|i: int|
                0 <= i < PAD_COUNT ==> r@[i].window() == Seq::<u16>::new(
                    crate::maschine_pad::MEDIAN_KERNEL_LENGTH as nat,
                    |j: int| 0u16,
                ),
    {
        let mut r: Vec<MaschinePad> = Vec::new();
        let mut i: usize = 0;
        while i < PAD_COUNT
            invariant
                i <= PAD_COUNT,
                r@.len() == i,
                forall|k: int| 0 <= k < i ==> r@[k].wf(),
                forall|k: int| 0 <= k < i ==> r@[k].state() == MaschinePadState::Unpressed,
                forall|k: int|
                    0 <= k < i ==> r@[k].window() == Seq::<u16>::new(
                        crate::maschine_pad::MEDIAN_KERNEL_LENGTH as nat,
                        |j: int| 0u16,
                    ),
            decreases PAD_COUNT - i,
        {
            r.push(MaschinePad::default());
            i += 1;
        }
        r
    }

    /// A fresh driver: dark lights with the report header in place, idle
    /// pads, the encoder counter on its resync value, note base zero.
    pub fn new() -> (r: Self)
        ensures
            r.mikro_wf(),
            r.note_base_view() == 0u8,
            r.buttons_view() =~= seq![0u8, 0u8, 0u8, 0u8, 0x10u8],
            r.lights() =~= Seq::new(
                LIGHT_REPORT_LEN as nat,
                |i: int| if i == 0 { LIGHT_REPORT_HEADER } else { 0u8 },
            ),
            forall|i: int|
                0 <= i < PAD_COUNT ==> r.pads_view()[i].state() == MaschinePadState::Unpressed,
            forall|i: int|
                0 <= i < PAD_COUNT ==> r.pads_view()[i].window() == Seq::<u16>::new(
                    crate::maschine_pad::MEDIAN_KERNEL_LENGTH as nat,
                    |j: int| 0u16,
                ),
    {
        let mut light_buf: Vec<u8> = Vec::new();
        let mut i: usize = 0;
        while i < LIGHT_REPORT_LEN
            invariant
                i <= LIGHT_REPORT_LEN,
                light_buf@.len() == i,
                forall|k: int| 0 <= k < i ==> light_buf@[k] == 0u8,
            decreases LIGHT_REPORT_LEN - i,
        {
            light_buf.push(0u8);
            i += 1;
        }
        light_buf[0] = LIGHT_REPORT_HEADER;
        let buttons: Vec<u8> = vec![0u8, 0u8, 0u8, 0u8, 0x10u8];
        let r = Mikro { light_buf, pads: Mikro::sixteen_maschine_pads(), buttons, note_base: 0u8 };
        proof {
            assert(r.lights() =~= Seq::new(
                LIGHT_REPORT_LEN as nat,
                |i: int| if i == 0 { LIGHT_REPORT_HEADER } else { 0u8 },
            ));
        }
        r
    }

    /// Decode a button/encoder report: only the encoder counter byte is
    /// read; the per-bit button masks of this report are not exercised by
    /// the shipped driver for this model.
    fn read_buttons(&mut self, report: &[u8]) -> (events: Vec<DiscreteEvent>)
        requires
            old(self).mikro_wf(),
            report@.len() >= 6,
        ensures
            final(self).mikro_wf(),
            final(self).lights() == old(self).lights(),
            final(self).pads_view() == old(self).pads_view(),
            final(self).note_base_view() == old(self).note_base_view(),
            final(self).buttons_view() == old(self).buttons_view().update(
                4,
                encoder_state(old(self).buttons_view()[4], report@[5]),
            ),
            events@ == encoder_events(old(self).buttons_view()[4], report@[5]),
    {
        let c = report[5];
        let old4 = self.buttons[4];
        if c > 0xF {
            self.buttons[4] = c;
            proof {
                assert(self.buttons@ =~= old(self).buttons@.update(4, c));
            }
            return Vec::new();
        }
        if old4 == c {
            proof {
                assert(self.buttons@ =~= old(self).buttons@.update(4, old4));
            }
            return Vec::new();
        }
        let delta: i32 = if ((old4 as u16 + 1) % 16) as u8 == c {
            1
        } else {
            -1
        };
        self.buttons[4] = c;
        proof {
            assert(self.buttons@ =~= old(self).buttons@.update(4, c));
        }
        let mut events: Vec<DiscreteEvent> = Vec::new();
        events.push(DiscreteEvent::EncoderStep { delta });
        proof {
            assert(events@ =~= encoder_events(old(self).buttons_view()[4], report@[5]));
        }
        events
    }

    /// Decode a pad-pressure report: sixteen little-endian words, low 12
    /// bits each, fed to the per-pad debouncers in pad-index order.
    fn read_pads(&mut self, report: &[u8]) -> (events: Vec<DiscreteEvent>)
        requires
            old(self).mikro_wf(),
            report@.len() >= 33,
        ensures
            final(self).mikro_wf(),
            final(self).lights() == old(self).lights(),
            final(self).buttons_view() == old(self).buttons_view(),
            final(self).note_base_view() == old(self).note_base_view(),
            forall|i: int|
                0 <= i < PAD_COUNT ==> feeds_to(
                    old(self).pads_view()[i],
                    final(self).pads_view()[i],
                    spec_pad_raw(report@.drop_first(), i),
                ),
            events@ == pads_events(old(self).pads_view(), report@.drop_first(), PAD_COUNT as int),
    {
        let ghost payload = report@.drop_first();
        let mut events: Vec<DiscreteEvent> = Vec::new();
        let mut i: usize = 0;
        while i < PAD_COUNT
            invariant
                i <= PAD_COUNT,
                report@.len() >= 33,
                payload == report@.drop_first(),
                self.light_buf == old(self).light_buf,
                self.buttons == old(self).buttons,
                self.note_base == old(self).note_base,
                self.pads@.len() == PAD_COUNT,
                forall|k: int| 0 <= k < PAD_COUNT ==> self.pads@[k].wf(),
                forall|k: int|
                    0 <= k < i ==> feeds_to(
                        old(self).pads_view()[k],
                        self.pads@[k],
                        spec_pad_raw(payload, k),
                    ),
                forall|k: int| i <= k < PAD_COUNT ==> self.pads@[k] == old(self).pads@[k],
                events@ == pads_events(old(self).pads_view(), payload, i as int),
            decreases PAD_COUNT - i,
        {
            let lo = report[1 + 2 * i];
            let hi = report[2 + 2 * i];
            let raw: u16 = (lo as u16) + 256 * ((hi as u16) % 16);
            proof {
                assert(payload[2 * i as int] == report@[1 + 2 * i as int]);
                assert(payload[2 * i as int + 1] == report@[2 + 2 * i as int]);
                assert(raw == spec_pad_raw(payload, i as int));
            }
            let transition = self.pads[i].pressure_val(raw);
            match transition {
                MaschinePadStateTransition::Pressed => {
                    events.push(DiscreteEvent::PadPressed { pad: i, pressure: raw });
                },
                MaschinePadStateTransition::Aftertouch => {
                    events.push(DiscreteEvent::PadAftertouch { pad: i, pressure: raw });
                },
                MaschinePadStateTransition::Released => {
                    events.push(DiscreteEvent::PadReleased { pad: i });
                },
                MaschinePadStateTransition::AtRest => {},
            }
            proof {
                assert(events@ =~= pads_events(old(self).pads_view(), payload, i + 1));
            }
            i += 1;
        }
        events
    }
}

impl Maschine for Mikro {
    open spec fn wf(&self) -> bool {
        self.mikro_wf()
    }

    open spec fn pad_count(&self) -> int {
        PAD_COUNT as int
    }

    open spec fn note_base(&self) -> u8 {
        self.note_base_view()
    }

    open spec fn pad_pressure(&self, pad: int) -> u16 {
        self.pads_view()[pad].spec_pressure()
    }

    open spec fn light_image(&self) -> Seq<u8> {
        self.lights()
    }

    open spec fn pad_light_set(pre: Self, post: Self, pad: int, color: u32, brightness: u16) -> bool {
        &&& post.lights() == pre.lights().update(
            PAD_LIGHT_OFFSET + 3 * pad,
            scale_channel(brightness, color_red(color)),
        ).update(
            PAD_LIGHT_OFFSET + 3 * pad + 1,
            scale_channel(brightness, color_green(color)),
        ).update(PAD_LIGHT_OFFSET + 3 * pad + 2, scale_channel(brightness, color_blue(color)))
        &&& post.pads_view() == pre.pads_view()
        &&& post.buttons_view() == pre.buttons_view()
        &&& post.note_base_view() == pre.note_base_view()
    }

    open spec fn button_light_set(
        pre: Self,
        post: Self,
        btn: MaschineButton,
        color: u32,
        brightness: u16,
    ) -> bool {
        &&& post.lights() == pre.lights().update(
            BUTTON_LIGHT_OFFSET + spec_button_index(btn),
            scale_channel(brightness, color_max(color)),
        )
        &&& post.pads_view() == pre.pads_view()
        &&& post.buttons_view() == pre.buttons_view()
        &&& post.note_base_view() == pre.note_base_view()
    }

    open spec fn note_base_set(pre: Self, post: Self, base: u8) -> bool {
        &&& post.note_base_view() == base
        &&& post.lights() == pre.lights()
        &&& post.pads_view() == pre.pads_view()
        &&& post.buttons_view() == pre.buttons_view()
    }

    open spec fn report_processed(
        pre: Self,
        post: Self,
        report: Seq<u8>,
        events: Seq<DiscreteEvent>,
    ) -> bool {
        if report.len() >= 6 && report[0] == TAG_BUTTONS {
            &&& post.lights() == pre.lights()
            &&& post.pads_view() == pre.pads_view()
            &&& post.note_base_view() == pre.note_base_view()
            &&& post.buttons_view() == pre.buttons_view().update(
                4,
                encoder_state(pre.buttons_view()[4], report[5]),
            )
            &&& events == encoder_events(pre.buttons_view()[4], report[5])
        } else if report.len() >= 33 && report[0] == TAG_PADS {
            &&& post.lights() == pre.lights()
            &&& post.buttons_view() == pre.buttons_view()
            &&& post.note_base_view() == pre.note_base_view()
            &&& post.pads_view().len() == PAD_COUNT
            &&& (forall|i: int|
                0 <= i < PAD_COUNT ==> feeds_to(
                    pre.pads_view()[i],
                    post.pads_view()[i],
                    spec_pad_raw(report.drop_first(), i),
                ))
            &&& events == pads_events(pre.pads_view(), report.drop_first(), PAD_COUNT as int)
        } else {
            &&& post == pre
            &&& events == Seq::<DiscreteEvent>::empty()
        }
    }

    open spec fn screen_clear_packets(&self) -> Seq<Seq<u8>> {
        Seq::new(SCREEN_PACKET_COUNT as nat, |i: int| spec_screen_packet(i))
    }

    fn get_midi_note_base(&self) -> (r: u8) {
        self.note_base
    }

    fn set_midi_note_base(&mut self, base: u8) {
        self.note_base = base;
    }

    fn get_pad_pressure(&self, pad_idx: usize) -> (r: Result<u16, ()>) {
        if pad_idx < PAD_COUNT {
            Ok(self.pads[pad_idx].get_pressure())
        } else {
            Err(())
        }
    }

    fn set_pad_light(&mut self, pad_idx: usize, color: u32, brightness: u16) -> (r: Result<
        (),
        (),
    >) {
        if pad_idx >= PAD_COUNT {
            return Err(());
        }
        let offset = PAD_LIGHT_OFFSET + pad_idx * 3;
        let red = ((color >> 16) & 0xFF) as u8;
        let green = ((color >> 8) & 0xFF) as u8;
        let blue = (color & 0xFF) as u8;
        self.light_buf[offset] = scale(brightness, red);
        self.light_buf[offset + 1] = scale(brightness, green);
        self.light_buf[offset + 2] = scale(brightness, blue);
        Ok(())
    }

    fn set_button_light(&mut self, btn: MaschineButton, color: u32, brightness: u16) {
        let red = ((color >> 16) & 0xFF) as u8;
        let green = ((color >> 8) & 0xFF) as u8;
        let blue = (color & 0xFF) as u8;
        let max = if red >= green && red >= blue {
            red
        } else if green >= blue {
            green
        } else {
            blue
        };
        let offset = BUTTON_LIGHT_OFFSET + button_index(btn);
        self.light_buf[offset] = scale(brightness, max);
    }

    fn readable(&mut self, report: &[u8]) -> (events: Vec<DiscreteEvent>) {
        if report.len() >= 6 && report[0] == TAG_BUTTONS {
            self.read_buttons(report)
        } else if report.len() >= 33 && report[0] == TAG_PADS {
            self.read_pads(report)
        } else {
            Vec::new()
        }
    }

    fn write_lights(&self) -> (r: &Vec<u8>) {
        &self.light_buf
    }

    fn clear_screen(&self) -> (r: Vec<Vec<u8>>) {
        let mut packets: Vec<Vec<u8>> = Vec::new();
        let mut i: usize = 0;
        while i < SCREEN_PACKET_COUNT
            invariant
                i <= SCREEN_PACKET_COUNT,
                packets@.len() == i,
                forall|k: int| 0 <= k < i ==> packets@[k]@ == spec_screen_packet(k),
            decreases SCREEN_PACKET_COUNT - i,
        {
            let mut packet: Vec<u8> = Vec::new();
            let mut j: usize = 0;
            while j < SCREEN_PACKET_LEN
                invariant
                    j <= SCREEN_PACKET_LEN,
                    packet@.len() == j,
                    forall|k: int| 0 <= k < j ==> packet@[k] == 0u8,
                decreases SCREEN_PACKET_LEN - j,
            {
                packet.push(0u8);
                j += 1;
            }
            packet[0] = SCREEN_HEADER;
            packet[1] = (i as u8) * SCREEN_ROW_STRIDE;
            packet[5] = 0x20;
            packet[7] = 0x08;
            proof {
                assert(packet@ =~= spec_screen_packet(i as int));
            }
            packets.push(packet);
            i += 1;
        }
        proof {
            assert(packets.deep_view() =~~= self.screen_clear_packets());
        }
        packets
    }
}

} // verus!
