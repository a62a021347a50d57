//! The device-capability surface.
//!
//! [`Maschine`] is the polymorphic interface a device model implements:
//! decoding raw HID reports into [`DiscreteEvent`]s, maintaining the
//! illumination buffer, producing the screen-clear packet sequence, and
//! holding the note-base byte.  The variant set is open: a new hardware
//! model implements the trait without changing the dispatcher or the
//! translation layer.  Each implementation pins its own behaviour down
//! through the trait's spec functions.

use vstd::prelude::*;

verus! {

/// The buttons a supported device can report or illuminate.
#[derive(Copy, Clone, PartialEq, Eq, Structural, Debug)]
pub enum MaschineButton {
    Restart,
    StepLeft,
    StepRight,
    Grid,
    Play,
    Rec,
    Erase,
    Shift,
    Group,
    Browse,
    Sampling,
    NoteRepeat,
    Encoder,
    F1,
    F2,
    F3,
    Control,
    Nav,
    NavLeft,
    NavRight,
    Main,
    Scene,
    Pattern,
    PadMode,
    View,
    Duplicate,
    Select,
    Solo,
    Mute,
}

/// A discrete input event decoded from one HID report.
///
/// Pressures are raw 12-bit values (`0..=4095`).
#[derive(Copy, Clone, PartialEq, Eq, Structural, Debug)]
pub enum DiscreteEvent {
    PadPressed { pad: usize, pressure: u16 },
    PadAftertouch { pad: usize, pressure: u16 },
    PadReleased { pad: usize },
    ButtonDown { button: MaschineButton },
    ButtonUp { button: MaschineButton },
    EncoderStep { delta: i32 },
}

/// Capability surface of one device model.
///
/// The relation spec functions (`pad_light_set`, `button_light_set`,
/// `note_base_set`, `report_processed`) are defined by each implementation
/// and pin down exactly how a call transforms the device state; callers
/// generic over the trait propagate them, and callers that know the
/// concrete model get its byte-exact definitions.
pub trait Maschine: Sized {
    /// The device state is well formed.
    spec fn wf(&self) -> bool;

    /// Number of pressure pads on this model.
    spec fn pad_count(&self) -> int;

    /// The configurable note-base byte.
    spec fn note_base(&self) -> u8;

    /// Filtered pressure of one pad: zero unless held above the threshold.
    spec fn pad_pressure(&self, pad: int) -> u16;

    /// The light-report wire image, transmitted verbatim by the flush.
    spec fn light_image(&self) -> Seq<u8>;

    /// How `set_pad_light` transforms the state.
    spec fn pad_light_set(pre: Self, post: Self, pad: int, color: u32, brightness: u16) -> bool;

    /// How `set_button_light` transforms the state.
    spec fn button_light_set(
        pre: Self,
        post: Self,
        btn: MaschineButton,
        color: u32,
        brightness: u16,
    ) -> bool;

    /// How `set_midi_note_base` transforms the state.
    spec fn note_base_set(pre: Self, post: Self, base: u8) -> bool;

    /// How `readable` transforms the state and which events it yields.
    spec fn report_processed(
        pre: Self,
        post: Self,
        report: Seq<u8>,
        events: Seq<DiscreteEvent>,
    ) -> bool;

    /// The screen-clear packet sequence, sent in order to blank the display.
    spec fn screen_clear_packets(&self) -> Seq<Seq<u8>>;

    /// Current note base.
    fn get_midi_note_base(&self) -> (r: u8)
        requires
            self.wf(),
        ensures
            r == self.note_base(),
    ;

    /// Replace the note base.
    fn set_midi_note_base(&mut self, base: u8)
        requires
            old(self).wf(),
        ensures
            final(self).wf(),
            final(self).note_base() == base,
            Self::note_base_set(*old(self), *final(self), base),
    ;

    /// Filtered pressure of the given pad; range error outside the pad count.
    fn get_pad_pressure(&self, pad_idx: usize) -> (r: Result<u16, ()>)
        requires
            self.wf(),
        ensures
            r is Ok <==> pad_idx < self.pad_count(),
            r matches Ok(p) ==> p == self.pad_pressure(pad_idx as int),
    ;

    /// Set one pad's colour; range error outside the pad count.
    ///
    /// `brightness` is a fraction of 4096, so 4096 is full brightness.
    fn set_pad_light(&mut self, pad_idx: usize, color: u32, brightness: u16) -> (r: Result<
        (),
        (),
    >)
        requires
            old(self).wf(),
        ensures
            final(self).wf(),
            r is Ok <==> pad_idx < old(self).pad_count(),
            r is Ok ==> Self::pad_light_set(
                *old(self),
                *final(self),
                pad_idx as int,
                color,
                brightness,
            ),
            r is Err ==> *final(self) == *old(self),
    ;

    /// Set one button's illumination.
    ///
    /// `brightness` is a fraction of 4096, as for `set_pad_light`.
    fn set_button_light(&mut self, btn: MaschineButton, color: u32, brightness: u16)
        requires
            old(self).wf(),
        ensures
            final(self).wf(),
            Self::button_light_set(*old(self), *final(self), btn, color, brightness),
    ;

    /// Decode one raw HID report (tag byte first) into discrete events,
    /// updating the per-pad filters and the encoder state.
    fn readable(&mut self, report: &[u8]) -> (events: Vec<DiscreteEvent>)
        requires
            old(self).wf(),
        ensures
            final(self).wf(),
            final(self).pad_count() == old(self).pad_count(),
            final(self).note_base() == old(self).note_base(),
            final(self).light_image() == old(self).light_image(),
            Self::report_processed(*old(self), *final(self), report@, events@),
    ;

    /// The light report to transmit verbatim on each flush tick.
    fn write_lights(&self) -> (r: &Vec<u8>)
        requires
            self.wf(),
        ensures
            r@ == self.light_image(),
    ;

    /// The packets that blank the display, to be sent in order.
    fn clear_screen(&self) -> (r: Vec<Vec<u8>>)
        requires
            self.wf(),
        ensures
            r.deep_view() == self.screen_clear_packets(),
    ;
}

} // verus!
