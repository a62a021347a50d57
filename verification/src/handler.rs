//! The translation layer: maps discrete device events to outbound note and
//! control-channel messages, and inbound control messages to illumination
//! and note-base commands.
//!
//! Velocities derive from a configurable pressure-response shape; pad
//! lights follow the pressure with a square-root brightness curve, scaled
//! to fractions of 4096.

use vstd::arithmetic::power::pow;
use vstd::prelude::*;

use crate::maschine::{Maschine, MaschineButton};
use crate::math::{isqrt, spec_isqrt};
use crate::messages::OutboundMessage;
use crate::mikro::{
    color_blue, color_green, color_red, scale_channel, Mikro, BRIGHTNESS_ONE, PAD_COUNT,
    PAD_LIGHT_OFFSET,
};
use crate::osc::{
    osc_bytes_of, osc_button_to_btn_map, osc_datagram, spec_button_of_name, spec_button_path,
    button_osc_path, str_eq,
};

verus! {

/// The fixed channel of all outbound note messages.
pub const CHANNEL: u8 = 0;

/// Brightness (fraction of 4096) a pad light falls back to on release;
/// a dim resting glow.
pub const PAD_RELEASED_BRIGHTNESS: u16 = 61;

/// Note offset of each pad: a fixed 4x4 grid, bottom row first.
pub open spec fn spec_pad_note_offset(pad: int) -> u8 {
    seq![12u8, 13u8, 14u8, 15u8, 8u8, 9u8, 10u8, 11u8, 4u8, 5u8, 6u8, 7u8, 0u8, 1u8, 2u8, 3u8][pad]
}

/// Note offset of each pad.
pub fn pad_note_offset(pad: usize) -> (r: u8)
    requires
        pad < 16,
    ensures
        r == spec_pad_note_offset(pad as int),
{
    match pad {
        0 => 12,
        1 => 13,
        2 => 14,
        3 => 15,
        4 => 8,
        5 => 9,
        6 => 10,
        7 => 11,
        8 => 4,
        9 => 5,
        10 => 6,
        11 => 7,
        12 => 0,
        13 => 1,
        14 => 2,
        _ => 3,
    }
}

/// The note a pad sounds: the note base plus the pad's offset, wrapping as
/// a byte.
pub open spec fn note_for(base: u8, pad: int) -> u8 {
    ((base + spec_pad_note_offset(pad)) % 256) as u8
}

/// The configurable pressure-response curve.
#[derive(Copy, Clone, PartialEq, Eq, Structural, Debug)]
pub enum PressureShape {
    /// Velocity follows the pressure directly.
    Linear,
    /// Velocity follows the given integer power of the normalized pressure.
    Exponential(u8),
    /// A fixed velocity regardless of pressure.
    Constant(u8),
}

/// A usable shape: the exponent keeps the power computation within a
/// machine word, and a constant velocity is a valid seven-bit value.
pub open spec fn shape_wf(shape: PressureShape) -> bool {
    match shape {
        PressureShape::Linear => true,
        PressureShape::Exponential(e) => 1 <= e <= 4,
        PressureShape::Constant(c) => c <= 127,
    }
}

/// The velocity a raw pressure maps to under a shape: the fraction
/// `pressure / 4095` is pushed through the curve and scaled to `0..=127`,
/// rounding down.
pub open spec fn spec_velocity(shape: PressureShape, pressure: u16) -> u8
    recommends
        shape_wf(shape),
        pressure <= 4095,
{
    match shape {
        PressureShape::Linear => ((pressure as int) * 127 / 4095) as u8,
        PressureShape::Exponential(e) => (pow(pressure as int, e as nat) * 127 / pow(
            4095,
            e as nat,
        )) as u8,
        PressureShape::Constant(c) => c,
    }
}

/// Small powers of 4095, written out.
proof fn lemma_pow_4095_small()
    ensures
        pow(4095, 0) == 1,
        pow(4095, 1) == 4095,
        pow(4095, 2) == 16769025,
        pow(4095, 3) == 68669157375,
        pow(4095, 4) == 281200199450625,
{
    reveal_with_fuel(vstd::arithmetic::power::pow, 6);
    assert(pow(4095, 1) == 4095 * pow(4095, 0));
    assert(pow(4095, 2) == 4095 * pow(4095, 1));
    assert(pow(4095, 3) == 4095 * pow(4095, 2));
    assert(pow(4095, 4) == 4095 * pow(4095, 3));
}

/// Velocity under an exponential curve: `(pressure/4095)^e`, scaled.
fn exp_velocity(pressure: u16, e: u8) -> (v: u8)
    requires
        pressure <= 4095,
        1 <= e <= 4,
    ensures
        v as int == pow(pressure as int, e as nat) * 127 / pow(4095, e as nat),
        v <= 127,
{
    proof {
        lemma_pow_4095_small();
        vstd::arithmetic::power::lemma_pow0(pressure as int);
        vstd::arithmetic::power::lemma_pow0(4095);
    }
    let mut num: u64 = 1;
    let mut den: u64 = 1;
    let mut k: u8 = 0;
    while k < e
        invariant
            k <= e <= 4,
            pressure <= 4095,
            num == pow(pressure as int, k as nat),
            den == pow(4095, k as nat),
            num <= den,
        decreases e - k,
    {
        proof {
            vstd::arithmetic::power::lemma_pow_increases(4095nat, k as nat, 3nat);
            lemma_pow_4095_small();
            assert(den * 4095 <= 68669157375 * 4095) by (nonlinear_arith)
                requires
                    den <= 68669157375u64,
            ;
            assert(num * pressure <= den * 4095) by (nonlinear_arith)
                requires
                    num <= den,
                    pressure <= 4095u16,
            ;
            vstd::arithmetic::power::lemma_pow1(pressure as int);
            vstd::arithmetic::power::lemma_pow1(4095);
            vstd::arithmetic::power::lemma_pow_adds(pressure as int, k as nat, 1nat);
            vstd::arithmetic::power::lemma_pow_adds(4095, k as nat, 1nat);
            assert(pow(pressure as int, (k + 1) as nat) == pow(pressure as int, k as nat) * pressure);
            assert(pow(4095, (k + 1) as nat) == pow(4095, k as nat) * 4095);
        }
        num = num * (pressure as u64);
        den = den * 4095;
        k += 1;
    }
    proof {
        vstd::arithmetic::power::lemma_pow_positive(4095, e as nat);
        vstd::arithmetic::power::lemma_pow_increases(4095nat, e as nat, 4nat);
        lemma_pow_4095_small();
        assert(num * 127 <= den * 127) by (nonlinear_arith)
            requires
                num <= den,
        ;
        vstd::arithmetic::div_mod::lemma_div_is_ordered((num * 127) as int, (den * 127) as int, den as int);
        vstd::arithmetic::div_mod::lemma_div_by_multiple(127int, den as int);
    }
    let v = num * 127 / den;
    v as u8
}

/// The brightness argument: `4096^2 * pressure / 4095`, whose integer
/// square root is the brightness `4096 * sqrt(pressure/4095)`, rounded
/// down.
pub open spec fn spec_brightness_arg(pressure: u16) -> int {
    16777216 * (pressure as int) / 4095
}

/// The brightness a pad light takes while its pad is held at `pressure`.
pub open spec fn spec_pressure_brightness(pressure: u16) -> u16 {
    spec_isqrt(spec_brightness_arg(pressure) as nat) as u16
}

/// Brightness of a held pad: the square root of the normalized pressure,
/// as a fraction of 4096.
pub fn pressure_brightness(pressure: u16) -> (b: u16)
    requires
        pressure <= 4095,
    ensures
        b == spec_pressure_brightness(pressure),
        b <= BRIGHTNESS_ONE,
{
    let arg: u64 = 16777216u64 * (pressure as u64) / 4095;
    let r = isqrt(arg);
    proof {
        assert(arg <= 16777216);
        assert(r <= 4096) by (nonlinear_arith)
            requires
                r * r <= 16777216u64,
        ;
    }
    r as u16
}

/// Brightness a pad light is refreshed to: the resting glow for idle pads,
/// the square-root curve for held ones.
pub open spec fn refresh_brightness(p: u16) -> u16 {
    if p == 0 {
        PAD_RELEASED_BRIGHTNESS
    } else {
        spec_pressure_brightness(p)
    }
}

/// The light image after refreshing the first `n` pads of `dev` to `color`
/// at their pressures' brightnesses.
pub open spec fn lights_refreshed(lights: Seq<u8>, dev: Mikro, color: u32, n: int) -> Seq<u8>
    decreases n,
{
    if n <= 0 {
        lights
    } else {
        let b = refresh_brightness(dev.pad_pressure(n - 1));
        lights_refreshed(lights, dev, color, n - 1).update(
            PAD_LIGHT_OFFSET + 3 * (n - 1),
            scale_channel(b, color_red(color)),
        ).update(PAD_LIGHT_OFFSET + 3 * (n - 1) + 1, scale_channel(b, color_green(color))).update(
            PAD_LIGHT_OFFSET + 3 * (n - 1) + 2,
            scale_channel(b, color_blue(color)),
        )
    }
}

/// One inbound control-channel argument: an integer, or a fraction of
/// 4096 (standing for the wire's unit-interval value).
#[derive(Copy, Clone, PartialEq, Eq, Structural, Debug)]
pub enum ControlArg {
    Int(i32),
    Frac(u16),
}

/// A decoded inbound control command.
#[derive(Copy, Clone, PartialEq, Eq, Structural, Debug)]
pub enum ControlCommand {
    /// Set a button light: button, colour, brightness.
    ButtonLight(MaschineButton, u32, u16),
    /// Set a pad light: pad index, colour, brightness.
    PadLight(usize, u32, u16),
    /// Set the note base.
    NoteBase(u8),
}

/// An integer argument read as a brightness: whole units of full
/// brightness, saturating well above the lit range.
pub open spec fn frac_of_int(v: i32) -> u16 {
    if v <= 0 {
        0u16
    } else if v >= 15 {
        61440u16
    } else {
        (v * 4096) as u16
    }
}

/// An integer argument read as a brightness.
pub fn frac_of_int_exec(v: i32) -> (r: u16)
    ensures
        r == frac_of_int(v),
{
    if v <= 0 {
        0
    } else if v >= 15 {
        61440
    } else {
        (v as u16) * 4096
    }
}

/// The path of an inbound or outbound button message, before the button
/// name.
pub open spec fn is_button_path(p: Seq<char>) -> bool {
    p.len() > 15 && p.subrange(0, 15) == "/device/button/"@
}

/// The command an inbound control message denotes, if any: button lights
/// by name with one (brightness) or two (colour, brightness) arguments,
/// pad lights with index, colour and brightness, and the note base.
pub open spec fn spec_parse_control(path: Seq<char>, args: Seq<ControlArg>) -> Option<
    ControlCommand,
> {
    if is_button_path(path) {
        match spec_button_of_name(path.subrange(15, path.len() as int)) {
            Some(btn) => if args.len() == 1 {
                match args[0] {
                    ControlArg::Int(v) => Some(
                        ControlCommand::ButtonLight(btn, 0xFFFFFF, frac_of_int(v)),
                    ),
                    ControlArg::Frac(b) => Some(ControlCommand::ButtonLight(btn, 0xFFFFFF, b)),
                }
            } else if args.len() == 2 {
                match (args[0], args[1]) {
                    (ControlArg::Int(c), ControlArg::Frac(b)) => Some(
                        ControlCommand::ButtonLight(btn, (c as u32) & 0xFFFFFF, b),
                    ),
                    _ => None,
                }
            } else {
                None
            },
            None => None,
        }
    } else if path == "/device/pad"@ {
        if args.len() == 3 {
            match (args[0], args[1], args[2]) {
                (ControlArg::Int(pad), ControlArg::Int(c), ControlArg::Frac(b)) => Some(
                    ControlCommand::PadLight(pad as usize, (c as u32) & 0xFFFFFF, b),
                ),
                _ => None,
            }
        } else {
            None
        }
    } else if path == "/device/note_base"@ {
        if args.len() == 1 {
            match args[0] {
                ControlArg::Int(v) => Some(ControlCommand::NoteBase(v as u8)),
                _ => None,
            }
        } else {
            None
        }
    } else {
        None
    }
}

/// Decode an inbound control message into a command.
pub fn parse_control(path: &str, args: &Vec<ControlArg>) -> (r: Option<ControlCommand>)
    ensures
        r == spec_parse_control(path@, args@),
{
    let n = path.unicode_len();
    if n > 15 && str_eq(path.substring_char(0, 15), "/device/button/") {
        let name = path.substring_char(15, n);
        match osc_button_to_btn_map(name) {
            Some(btn) => {
                if args.len() == 1 {
                    match args[0] {
                        ControlArg::Int(v) => Some(
                            ControlCommand::ButtonLight(btn, 0xFFFFFF, frac_of_int_exec(v)),
                        ),
                        ControlArg::Frac(b) => Some(ControlCommand::ButtonLight(btn, 0xFFFFFF, b)),
                    }
                } else if args.len() == 2 {
                    match (args[0], args[1]) {
                        (ControlArg::Int(c), ControlArg::Frac(b)) => Some(
                            ControlCommand::ButtonLight(btn, (c as u32) & 0xFFFFFF, b),
                        ),
                        _ => None,
                    }
                } else {
                    None
                }
            },
            None => None,
        }
    } else if str_eq(path, "/device/pad") {
        if args.len() == 3 {
            match (args[0], args[1], args[2]) {
                (ControlArg::Int(pad), ControlArg::Int(c), ControlArg::Frac(b)) => Some(
                    ControlCommand::PadLight(pad as usize, (c as u32) & 0xFFFFFF, b),
                ),
                _ => None,
            }
        } else {
            None
        }
    } else if str_eq(path, "/device/note_base") {
        if args.len() == 1 {
            match args[0] {
                ControlArg::Int(v) => Some(ControlCommand::NoteBase(v as u8)),
                _ => None,
            }
        } else {
            None
        }
    } else {
        None
    }
}

/// Apply one decoded control command to the device.  A pad index outside
/// the pad count leaves the device untouched and reports `false`.
pub fn apply_control<M: Maschine>(dev: &mut M, cmd: ControlCommand) -> (applied: bool)
    requires
        old(dev).wf(),
    ensures
        final(dev).wf(),
        match cmd {
            ControlCommand::ButtonLight(btn, c, b) => applied && M::button_light_set(
                *old(dev),
                *final(dev),
                btn,
                c,
                b,
            ),
            ControlCommand::PadLight(pad, c, b) => {
                &&& applied == (pad < old(dev).pad_count())
                &&& (applied ==> M::pad_light_set(*old(dev), *final(dev), pad as int, c, b))
                &&& (!applied ==> *final(dev) == *old(dev))
            },
            ControlCommand::NoteBase(b) => applied && M::note_base_set(*old(dev), *final(dev), b),
        },
{
    match cmd {
        ControlCommand::ButtonLight(btn, c, b) => {
            dev.set_button_light(btn, c, b);
            true
        },
        ControlCommand::PadLight(pad, c, b) => {
            match dev.set_pad_light(pad, c, b) {
                Ok(_) => true,
                Err(_) => false,
            }
        },
        ControlCommand::NoteBase(b) => {
            dev.set_midi_note_base(b);
            true
        },
    }
}

/// The application-level event handler: colour and curve configuration,
/// and the mapping from device events to outbound messages.
pub struct MHandler {
    color: u32,
    pressure_shape: PressureShape,
    send_aftertouch: bool,
}

impl MHandler {
    /// The colour pad lights take, packed `0x00RRGGBB`.
    pub closed spec fn color(&self) -> u32 {
        self.color
    }

    /// The configured pressure-response curve.
    pub closed spec fn shape(&self) -> PressureShape {
        self.pressure_shape
    }

    /// Whether aftertouch events are forwarded at all.
    pub closed spec fn aftertouch_enabled(&self) -> bool {
        self.send_aftertouch
    }

    /// The configured curve is usable.
    pub open spec fn wf(&self) -> bool {
        shape_wf(self.shape())
    }

    pub fn new(color: u32, pressure_shape: PressureShape, send_aftertouch: bool) -> (r: Self)
        requires
            shape_wf(pressure_shape),
        ensures
            r.wf(),
            r.color() == color,
            r.shape() == pressure_shape,
            r.aftertouch_enabled() == send_aftertouch,
    {
        MHandler { color, pressure_shape, send_aftertouch }
    }

    /// The current pad colour.
    pub fn pad_color(&self) -> (c: u32)
        ensures
            c == self.color(),
    {
        self.color
    }

    /// Velocity of a raw pressure under the configured curve.
    pub fn pressure_to_vel(&self, pressure: u16) -> (v: u8)
        requires
            self.wf(),
            pressure <= 4095,
        ensures
            v == spec_velocity(self.shape(), pressure),
            v <= 127,
    {
        match self.pressure_shape {
            PressureShape::Linear => ((pressure as u32) * 127 / 4095) as u8,
            PressureShape::Exponential(e) => exp_velocity(pressure, e),
            PressureShape::Constant(c) => c,
        }
    }

    /// A pad was pressed: sound its note and light it up with the
    /// pressure's brightness.
    pub fn pad_pressed<M: Maschine>(&self, dev: &mut M, pad_idx: usize, pressure: u16) -> (msg:
        OutboundMessage)
        requires
            old(dev).wf(),
            self.wf(),
            pad_idx < 16,
            pad_idx < old(dev).pad_count(),
            pressure <= 4095,
        ensures
            final(dev).wf(),
            msg == OutboundMessage::NoteOn(
                CHANNEL,
                note_for(old(dev).note_base(), pad_idx as int),
                spec_velocity(self.shape(), pressure),
            ),
            M::pad_light_set(
                *old(dev),
                *final(dev),
                pad_idx as int,
                self.color(),
                spec_pressure_brightness(pressure),
            ),
    {
        let base = dev.get_midi_note_base();
        let off = pad_note_offset(pad_idx);
        let note = (((base as u16) + (off as u16)) % 256) as u8;
        let vel = self.pressure_to_vel(pressure);
        let b = pressure_brightness(pressure);
        let _ok = dev.set_pad_light(pad_idx, self.color, b);
        OutboundMessage::NoteOn(CHANNEL, note, vel)
    }

    /// A held pad's pressure changed: forward polyphonic pressure and track
    /// the light, unless the curve is constant or aftertouch is disabled,
    /// in which case nothing happens at all.
    pub fn pad_aftertouch<M: Maschine>(&self, dev: &mut M, pad_idx: usize, pressure: u16) -> (msg:
        Option<OutboundMessage>)
        requires
            old(dev).wf(),
            self.wf(),
            pad_idx < 16,
            pad_idx < old(dev).pad_count(),
            pressure <= 4095,
        ensures
            final(dev).wf(),
            (msg is Some) == (self.aftertouch_enabled() && !(self.shape() is Constant)),
            msg matches Some(m) ==> {
                &&& m == OutboundMessage::PolyphonicPressure(
                    CHANNEL,
                    note_for(old(dev).note_base(), pad_idx as int),
                    spec_velocity(self.shape(), pressure),
                )
                &&& M::pad_light_set(
                    *old(dev),
                    *final(dev),
                    pad_idx as int,
                    self.color(),
                    spec_pressure_brightness(pressure),
                )
            },
            msg is None ==> *final(dev) == *old(dev),
    {
        match self.pressure_shape {
            PressureShape::Constant(_) => {
                return None;
            },
            _ => {},
        }
        if !self.send_aftertouch {
            return None;
        }
        let base = dev.get_midi_note_base();
        let off = pad_note_offset(pad_idx);
        let note = (((base as u16) + (off as u16)) % 256) as u8;
        let vel = self.pressure_to_vel(pressure);
        let b = pressure_brightness(pressure);
        let _ok = dev.set_pad_light(pad_idx, self.color, b);
        Some(OutboundMessage::PolyphonicPressure(CHANNEL, note, vel))
    }

    /// A pad was released: silence its note and dim its light to the
    /// resting glow.
    pub fn pad_released<M: Maschine>(&self, dev: &mut M, pad_idx: usize) -> (msg: OutboundMessage)
        requires
            old(dev).wf(),
            self.wf(),
            pad_idx < 16,
            pad_idx < old(dev).pad_count(),
        ensures
            final(dev).wf(),
            msg == OutboundMessage::NoteOff(
                CHANNEL,
                note_for(old(dev).note_base(), pad_idx as int),
                0u8,
            ),
            M::pad_light_set(
                *old(dev),
                *final(dev),
                pad_idx as int,
                self.color(),
                PAD_RELEASED_BRIGHTNESS,
            ),
    {
        let base = dev.get_midi_note_base();
        let off = pad_note_offset(pad_idx);
        let note = (((base as u16) + (off as u16)) % 256) as u8;
        let _ok = dev.set_pad_light(pad_idx, self.color, PAD_RELEASED_BRIGHTNESS);
        OutboundMessage::NoteOff(CHANNEL, note, 0)
    }

    /// The datagram that reports a button's state outward.
    pub fn send_osc_button_msg(&self, btn: MaschineButton, status: i32) -> (r: Vec<u8>)
        ensures
            r@ == osc_bytes_of(spec_button_path(btn), seq![status]),
    {
        let path = button_osc_path(btn);
        let mut args: Vec<i32> = Vec::new();
        args.push(status);
        proof {
            assert(args@ =~= seq![status]);
        }
        osc_datagram(path, args)
    }

    /// The datagram that reports an encoder step outward.
    pub fn send_osc_encoder_msg(&self, delta: i32) -> (r: Vec<u8>)
        ensures
            r@ == osc_bytes_of("/device/encoder"@, seq![delta]),
    {
        let mut args: Vec<i32> = Vec::new();
        args.push(delta);
        proof {
            assert(args@ =~= seq![delta]);
        }
        osc_datagram("/device/encoder", args)
    }

    /// An encoder step is forwarded on the control channel.
    pub fn encoder_step(&self, delta: i32) -> (r: Vec<u8>)
        ensures
            r@ == osc_bytes_of("/device/encoder"@, seq![delta]),
    {
        self.send_osc_encoder_msg(delta)
    }

    /// A button press is forwarded on the control channel with status 1.
    pub fn button_down(&self, btn: MaschineButton) -> (r: Vec<u8>)
        ensures
            r@ == osc_bytes_of(spec_button_path(btn), seq![1i32]),
    {
        self.send_osc_button_msg(btn, 1)
    }

    /// A button release is forwarded on the control channel with status 0.
    pub fn button_up(&self, btn: MaschineButton) -> (r: Vec<u8>)
        ensures
            r@ == osc_bytes_of(spec_button_path(btn), seq![0i32]),
    {
        self.send_osc_button_msg(btn, 0)
    }

    /// Refresh every pad light from its current pressure: the resting glow
    /// for idle pads, the square-root brightness for held ones.
    pub fn update_pad_colors(&self, dev: &mut Mikro)
        requires
            old(dev).mikro_wf(),
        ensures
            final(dev).mikro_wf(),
            final(dev).lights() == lights_refreshed(
                old(dev).lights(),
                *old(dev),
                self.color(),
                PAD_COUNT as int,
            ),
            final(dev).pads_view() == old(dev).pads_view(),
            final(dev).buttons_view() == old(dev).buttons_view(),
            final(dev).note_base_view() == old(dev).note_base_view(),
    {
        let mut i: usize = 0;
        while i < PAD_COUNT
            invariant
                i <= PAD_COUNT,
                dev.mikro_wf(),
                dev.pads_view() == old(dev).pads_view(),
                dev.buttons_view() == old(dev).buttons_view(),
                dev.note_base_view() == old(dev).note_base_view(),
                dev.lights() == lights_refreshed(
                    old(dev).lights(),
                    *old(dev),
                    self.color(),
                    i as int,
                ),
            decreases PAD_COUNT - i,
        {
            let p = match dev.get_pad_pressure(i) {
                Ok(p) => p,
                Err(_) => 0,
            };
            proof {
                crate::maschine_pad::lemma_median_bounded(
                    dev.pads_view()[i as int].window(),
                    crate::maschine_pad::PRESSURE_MAX,
                );
            }
            let b = if p == 0 {
                PAD_RELEASED_BRIGHTNESS
            } else {
                pressure_brightness(p)
            };
            let _ok = dev.set_pad_light(i, self.color, b);
            i += 1;
        }
    }

    /// Handle one inbound control message: decode it and apply the
    /// command; undecodable messages and out-of-range pad indices leave
    /// the device untouched.
    pub fn handle_osc_message<M: Maschine>(&self, dev: &mut M, path: &str, args: &Vec<
        ControlArg,
    >) -> (applied: bool)
        requires
            old(dev).wf(),
        ensures
            final(dev).wf(),
            match spec_parse_control(path@, args@) {
                Some(ControlCommand::ButtonLight(btn, c, b)) => applied && M::button_light_set(
                    *old(dev),
                    *final(dev),
                    btn,
                    c,
                    b,
                ),
                Some(ControlCommand::PadLight(pad, c, b)) => {
                    &&& applied == (pad < old(dev).pad_count())
                    &&& (applied ==> M::pad_light_set(*old(dev), *final(dev), pad as int, c, b))
                    &&& (!applied ==> *final(dev) == *old(dev))
                },
                Some(ControlCommand::NoteBase(b)) => applied && M::note_base_set(
                    *old(dev),
                    *final(dev),
                    b,
                ),
                None => !applied && *final(dev) == *old(dev),
            },
    {
        match parse_control(path, args) {
            Some(cmd) => apply_control(dev, cmd),
            None => false,
        }
    }
}

} // verus!
