//! Control-channel naming and encoding.
//!
//! Buttons are named on the control channel by a fixed bijection; outbound
//! messages carry a path and integer arguments.  The wire encoding itself
//! is done by the `tinyosc` crate behind a trusted wrapper; everything the
//! library states about a datagram goes through the name `osc_bytes_of`.

use vstd::prelude::*;

use crate::maschine::MaschineButton;

verus! {

/// The control-channel name of a button.
pub open spec fn spec_button_name(btn: MaschineButton) -> Seq<char> {
    match btn {
        MaschineButton::Restart => "restart"@,
        MaschineButton::StepLeft => "step_left"@,
        MaschineButton::StepRight => "step_right"@,
        MaschineButton::Grid => "grid"@,
        MaschineButton::Play => "play"@,
        MaschineButton::Rec => "rec"@,
        MaschineButton::Erase => "erase"@,
        MaschineButton::Shift => "shift"@,
        MaschineButton::Group => "group"@,
        MaschineButton::Browse => "browse"@,
        MaschineButton::Sampling => "sampling"@,
        MaschineButton::NoteRepeat => "note_repeat"@,
        MaschineButton::Encoder => "encoder"@,
        MaschineButton::F1 => "f1"@,
        MaschineButton::F2 => "f2"@,
        MaschineButton::F3 => "f3"@,
        MaschineButton::Control => "control"@,
        MaschineButton::Nav => "nav"@,
        MaschineButton::NavLeft => "nav_left"@,
        MaschineButton::NavRight => "nav_right"@,
        MaschineButton::Main => "main"@,
        MaschineButton::Scene => "scene"@,
        MaschineButton::Pattern => "pattern"@,
        MaschineButton::PadMode => "pad_mode"@,
        MaschineButton::View => "view"@,
        MaschineButton::Duplicate => "duplicate"@,
        MaschineButton::Select => "select"@,
        MaschineButton::Solo => "solo"@,
        MaschineButton::Mute => "mute"@,
    }
}

/// The button a control-channel name denotes, if any.
pub open spec fn spec_button_of_name(name: Seq<char>) -> Option<MaschineButton> {
    if name == "restart"@ {
        Some(MaschineButton::Restart)
    } else if name == "step_left"@ {
        Some(MaschineButton::StepLeft)
    } else if name == "step_right"@ {
        Some(MaschineButton::StepRight)
    } else if name == "grid"@ {
        Some(MaschineButton::Grid)
    } else if name == "play"@ {
        Some(MaschineButton::Play)
    } else if name == "rec"@ {
        Some(MaschineButton::Rec)
    } else if name == "erase"@ {
        Some(MaschineButton::Erase)
    } else if name == "shift"@ {
        Some(MaschineButton::Shift)
    } else if name == "group"@ {
        Some(MaschineButton::Group)
    } else if name == "browse"@ {
        Some(MaschineButton::Browse)
    } else if name == "sampling"@ {
        Some(MaschineButton::Sampling)
    } else if name == "note_repeat"@ {
        Some(MaschineButton::NoteRepeat)
    } else if name == "encoder"@ {
        Some(MaschineButton::Encoder)
    } else if name == "f1"@ {
        Some(MaschineButton::F1)
    } else if name == "f2"@ {
        Some(MaschineButton::F2)
    } else if name == "f3"@ {
        Some(MaschineButton::F3)
    } else if name == "control"@ {
        Some(MaschineButton::Control)
    } else if name == "nav"@ {
        Some(MaschineButton::Nav)
    } else if name == "nav_left"@ {
        Some(MaschineButton::NavLeft)
    } else if name == "nav_right"@ {
        Some(MaschineButton::NavRight)
    } else if name == "main"@ {
        Some(MaschineButton::Main)
    } else if name == "scene"@ {
        Some(MaschineButton::Scene)
    } else if name == "pattern"@ {
        Some(MaschineButton::Pattern)
    } else if name == "pad_mode"@ {
        Some(MaschineButton::PadMode)
    } else if name == "view"@ {
        Some(MaschineButton::View)
    } else if name == "duplicate"@ {
        Some(MaschineButton::Duplicate)
    } else if name == "select"@ {
        Some(MaschineButton::Select)
    } else if name == "solo"@ {
        Some(MaschineButton::Solo)
    } else if name == "mute"@ {
        Some(MaschineButton::Mute)
    } else {
        None
    }
}

/// Character-wise string equality.
pub fn str_eq(a: &str, b: &str) -> (r: bool)
    ensures
        r == (a@ == b@),
{
    let n = a.unicode_len();
    let m = b.unicode_len();
    if n != m {
        proof {
            assert(a@.len() != b@.len());
        }
        return false;
    }
    let mut i: usize = 0;
    while i < n
        invariant
            n == a@.len(),
            n == b@.len(),
            i <= n,
            forall|k: int| 0 <= k < i ==> a@[k] == b@[k],
        decreases n - i,
    {
        if a.get_char(i) != b.get_char(i) {
            return false;
        }
        i += 1;
    }
    proof {
        assert(a@ =~= b@);
    }
    true
}

/// The control-channel name of a button.
pub fn btn_to_osc_button_map(btn: MaschineButton) -> (r: &'static str)
    ensures
        r@ == spec_button_name(btn),
{
    match btn {
        MaschineButton::Restart => "restart",
        MaschineButton::StepLeft => "step_left",
        MaschineButton::StepRight => "step_right",
        MaschineButton::Grid => "grid",
        MaschineButton::Play => "play",
        MaschineButton::Rec => "rec",
        MaschineButton::Erase => "erase",
        MaschineButton::Shift => "shift",
        MaschineButton::Group => "group",
        MaschineButton::Browse => "browse",
        MaschineButton::Sampling => "sampling",
        MaschineButton::NoteRepeat => "note_repeat",
        MaschineButton::Encoder => "encoder",
        MaschineButton::F1 => "f1",
        MaschineButton::F2 => "f2",
        MaschineButton::F3 => "f3",
        MaschineButton::Control => "control",
        MaschineButton::Nav => "nav",
        MaschineButton::NavLeft => "nav_left",
        MaschineButton::NavRight => "nav_right",
        MaschineButton::Main => "main",
        MaschineButton::Scene => "scene",
        MaschineButton::Pattern => "pattern",
        MaschineButton::PadMode => "pad_mode",
        MaschineButton::View => "view",
        MaschineButton::Duplicate => "duplicate",
        MaschineButton::Select => "select",
        MaschineButton::Solo => "solo",
        MaschineButton::Mute => "mute",
    }
}

/// The button a control-channel name denotes, if any.
pub fn osc_button_to_btn_map(name: &str) -> (r: Option<MaschineButton>)
    ensures
        r == spec_button_of_name(name@),
{
    if str_eq(name, "restart") {
        Some(MaschineButton::Restart)
    } else if str_eq(name, "step_left") {
        Some(MaschineButton::StepLeft)
    } else if str_eq(name, "step_right") {
        Some(MaschineButton::StepRight)
    } else if str_eq(name, "grid") {
        Some(MaschineButton::Grid)
    } else if str_eq(name, "play") {
        Some(MaschineButton::Play)
    } else if str_eq(name, "rec") {
        Some(MaschineButton::Rec)
    } else if str_eq(name, "erase") {
        Some(MaschineButton::Erase)
    } else if str_eq(name, "shift") {
        Some(MaschineButton::Shift)
    } else if str_eq(name, "group") {
        Some(MaschineButton::Group)
    } else if str_eq(name, "browse") {
        Some(MaschineButton::Browse)
    } else if str_eq(name, "sampling") {
        Some(MaschineButton::Sampling)
    } else if str_eq(name, "note_repeat") {
        Some(MaschineButton::NoteRepeat)
    } else if str_eq(name, "encoder") {
        Some(MaschineButton::Encoder)
    } else if str_eq(name, "f1") {
        Some(MaschineButton::F1)
    } else if str_eq(name, "f2") {
        Some(MaschineButton::F2)
    } else if str_eq(name, "f3") {
        Some(MaschineButton::F3)
    } else if str_eq(name, "control") {
        Some(MaschineButton::Control)
    } else if str_eq(name, "nav") {
        Some(MaschineButton::Nav)
    } else if str_eq(name, "nav_left") {
        Some(MaschineButton::NavLeft)
    } else if str_eq(name, "nav_right") {
        Some(MaschineButton::NavRight)
    } else if str_eq(name, "main") {
        Some(MaschineButton::Main)
    } else if str_eq(name, "scene") {
        Some(MaschineButton::Scene)
    } else if str_eq(name, "pattern") {
        Some(MaschineButton::Pattern)
    } else if str_eq(name, "pad_mode") {
        Some(MaschineButton::PadMode)
    } else if str_eq(name, "view") {
        Some(MaschineButton::View)
    } else if str_eq(name, "duplicate") {
        Some(MaschineButton::Duplicate)
    } else if str_eq(name, "select") {
        Some(MaschineButton::Select)
    } else if str_eq(name, "solo") {
        Some(MaschineButton::Solo)
    } else if str_eq(name, "mute") {
        Some(MaschineButton::Mute)
    } else {
        None
    }
}

/// The outbound control-channel path for a button message.
pub open spec fn spec_button_path(btn: MaschineButton) -> Seq<char> {
    match btn {
        MaschineButton::Restart => "/device/button/restart"@,
        MaschineButton::StepLeft => "/device/button/step_left"@,
        MaschineButton::StepRight => "/device/button/step_right"@,
        MaschineButton::Grid => "/device/button/grid"@,
        MaschineButton::Play => "/device/button/play"@,
        MaschineButton::Rec => "/device/button/rec"@,
        MaschineButton::Erase => "/device/button/erase"@,
        MaschineButton::Shift => "/device/button/shift"@,
        MaschineButton::Group => "/device/button/group"@,
        MaschineButton::Browse => "/device/button/browse"@,
        MaschineButton::Sampling => "/device/button/sampling"@,
        MaschineButton::NoteRepeat => "/device/button/note_repeat"@,
        MaschineButton::Encoder => "/device/button/encoder"@,
        MaschineButton::F1 => "/device/button/f1"@,
        MaschineButton::F2 => "/device/button/f2"@,
        MaschineButton::F3 => "/device/button/f3"@,
        MaschineButton::Control => "/device/button/control"@,
        MaschineButton::Nav => "/device/button/nav"@,
        MaschineButton::NavLeft => "/device/button/nav_left"@,
        MaschineButton::NavRight => "/device/button/nav_right"@,
        MaschineButton::Main => "/device/button/main"@,
        MaschineButton::Scene => "/device/button/scene"@,
        MaschineButton::Pattern => "/device/button/pattern"@,
        MaschineButton::PadMode => "/device/button/pad_mode"@,
        MaschineButton::View => "/device/button/view"@,
        MaschineButton::Duplicate => "/device/button/duplicate"@,
        MaschineButton::Select => "/device/button/select"@,
        MaschineButton::Solo => "/device/button/solo"@,
        MaschineButton::Mute => "/device/button/mute"@,
    }
}

/// The outbound control-channel path for a button message.
pub fn button_osc_path(btn: MaschineButton) -> (r: &'static str)
    ensures
        r@ == spec_button_path(btn),
{
    match btn {
        MaschineButton::Restart => "/device/button/restart",
        MaschineButton::StepLeft => "/device/button/step_left",
        MaschineButton::StepRight => "/device/button/step_right",
        MaschineButton::Grid => "/device/button/grid",
        MaschineButton::Play => "/device/button/play",
        MaschineButton::Rec => "/device/button/rec",
        MaschineButton::Erase => "/device/button/erase",
        MaschineButton::Shift => "/device/button/shift",
        MaschineButton::Group => "/device/button/group",
        MaschineButton::Browse => "/device/button/browse",
        MaschineButton::Sampling => "/device/button/sampling",
        MaschineButton::NoteRepeat => "/device/button/note_repeat",
        MaschineButton::Encoder => "/device/button/encoder",
        MaschineButton::F1 => "/device/button/f1",
        MaschineButton::F2 => "/device/button/f2",
        MaschineButton::F3 => "/device/button/f3",
        MaschineButton::Control => "/device/button/control",
        MaschineButton::Nav => "/device/button/nav",
        MaschineButton::NavLeft => "/device/button/nav_left",
        MaschineButton::NavRight => "/device/button/nav_right",
        MaschineButton::Main => "/device/button/main",
        MaschineButton::Scene => "/device/button/scene",
        MaschineButton::Pattern => "/device/button/pattern",
        MaschineButton::PadMode => "/device/button/pad_mode",
        MaschineButton::View => "/device/button/view",
        MaschineButton::Duplicate => "/device/button/duplicate",
        MaschineButton::Select => "/device/button/select",
        MaschineButton::Solo => "/device/button/solo",
        MaschineButton::Mute => "/device/button/mute",
    }
}

/// Sequences of different lengths differ.
proof fn lemma_neq_len(a: Seq<char>, b: Seq<char>)
    requires
        a.len() != b.len(),
    ensures
        a != b,
{
}

/// Sequences that differ at one position differ.
proof fn lemma_neq_char(a: Seq<char>, b: Seq<char>, i: int)
    requires
        0 <= i < a.len(),
        0 <= i < b.len(),
        a[i] != b[i],
    ensures
        a != b,
{
}

/// Naming a button and looking the name up round-trips.
#[verifier::rlimit(50)]
pub proof fn lemma_button_name_roundtrip(btn: MaschineButton)
    ensures
        spec_button_of_name(spec_button_name(btn)) == Some(btn),
{
    reveal_strlit("restart");
    reveal_strlit("step_left");
    reveal_strlit("step_right");
    reveal_strlit("grid");
    reveal_strlit("play");
    reveal_strlit("rec");
    reveal_strlit("erase");
    reveal_strlit("shift");
    reveal_strlit("group");
    reveal_strlit("browse");
    reveal_strlit("sampling");
    reveal_strlit("note_repeat");
    reveal_strlit("encoder");
    reveal_strlit("f1");
    reveal_strlit("f2");
    reveal_strlit("f3");
    reveal_strlit("control");
    reveal_strlit("nav");
    reveal_strlit("nav_left");
    reveal_strlit("nav_right");
    reveal_strlit("main");
    reveal_strlit("scene");
    reveal_strlit("pattern");
    reveal_strlit("pad_mode");
    reveal_strlit("view");
    reveal_strlit("duplicate");
    reveal_strlit("select");
    reveal_strlit("solo");
    reveal_strlit("mute");
    match btn {
        MaschineButton::Restart => {
            assert(spec_button_of_name("restart"@) == Some(btn));
        },
        MaschineButton::StepLeft => {
            lemma_neq_len("step_left"@, "restart"@);
            assert(spec_button_of_name("step_left"@) == Some(btn));
        },
        MaschineButton::StepRight => {
            lemma_neq_len("step_right"@, "restart"@);
            lemma_neq_len("step_right"@, "step_left"@);
            assert(spec_button_of_name("step_right"@) == Some(btn));
        },
        MaschineButton::Grid => {
            lemma_neq_len("grid"@, "restart"@);
            lemma_neq_len("grid"@, "step_left"@);
            lemma_neq_len("grid"@, "step_right"@);
            assert(spec_button_of_name("grid"@) == Some(btn));
        },
        MaschineButton::Play => {
            lemma_neq_len("play"@, "restart"@);
            lemma_neq_len("play"@, "step_left"@);
            lemma_neq_len("play"@, "step_right"@);
            lemma_neq_char("play"@, "grid"@, 0);
            assert(spec_button_of_name("play"@) == Some(btn));
        },
        MaschineButton::Rec => {
            lemma_neq_len("rec"@, "restart"@);
            lemma_neq_len("rec"@, "step_left"@);
            lemma_neq_len("rec"@, "step_right"@);
            lemma_neq_len("rec"@, "grid"@);
            lemma_neq_len("rec"@, "play"@);
            assert(spec_button_of_name("rec"@) == Some(btn));
        },
        MaschineButton::Erase => {
            lemma_neq_len("erase"@, "restart"@);
            lemma_neq_len("erase"@, "step_left"@);
            lemma_neq_len("erase"@, "step_right"@);
            lemma_neq_len("erase"@, "grid"@);
            lemma_neq_len("erase"@, "play"@);
            lemma_neq_len("erase"@, "rec"@);
            assert(spec_button_of_name("erase"@) == Some(btn));
        },
        MaschineButton::Shift => {
            lemma_neq_len("shift"@, "restart"@);
            lemma_neq_len("shift"@, "step_left"@);
            lemma_neq_len("shift"@, "step_right"@);
            lemma_neq_len("shift"@, "grid"@);
            lemma_neq_len("shift"@, "play"@);
            lemma_neq_len("shift"@, "rec"@);
            lemma_neq_char("shift"@, "erase"@, 0);
            assert(spec_button_of_name("shift"@) == Some(btn));
        },
        MaschineButton::Group => {
            lemma_neq_len("group"@, "restart"@);
            lemma_neq_len("group"@, "step_left"@);
            lemma_neq_len("group"@, "step_right"@);
            lemma_neq_len("group"@, "grid"@);
            lemma_neq_len("group"@, "play"@);
            lemma_neq_len("group"@, "rec"@);
            lemma_neq_char("group"@, "erase"@, 0);
            lemma_neq_char("group"@, "shift"@, 0);
            assert(spec_button_of_name("group"@) == Some(btn));
        },
        MaschineButton::Browse => {
            lemma_neq_len("browse"@, "restart"@);
            lemma_neq_len("browse"@, "step_left"@);
            lemma_neq_len("browse"@, "step_right"@);
            lemma_neq_len("browse"@, "grid"@);
            lemma_neq_len("browse"@, "play"@);
            lemma_neq_len("browse"@, "rec"@);
            lemma_neq_len("browse"@, "erase"@);
            lemma_neq_len("browse"@, "shift"@);
            lemma_neq_len("browse"@, "group"@);
            assert(spec_button_of_name("browse"@) == Some(btn));
        },
        MaschineButton::Sampling => {
            lemma_neq_len("sampling"@, "restart"@);
            lemma_neq_len("sampling"@, "step_left"@);
            lemma_neq_len("sampling"@, "step_right"@);
            lemma_neq_len("sampling"@, "grid"@);
            lemma_neq_len("sampling"@, "play"@);
            lemma_neq_len("sampling"@, "rec"@);
            lemma_neq_len("sampling"@, "erase"@);
            lemma_neq_len("sampling"@, "shift"@);
            lemma_neq_len("sampling"@, "group"@);
            lemma_neq_len("sampling"@, "browse"@);
            assert(spec_button_of_name("sampling"@) == Some(btn));
        },
        MaschineButton::NoteRepeat => {
            lemma_neq_len("note_repeat"@, "restart"@);
            lemma_neq_len("note_repeat"@, "step_left"@);
            lemma_neq_len("note_repeat"@, "step_right"@);
            lemma_neq_len("note_repeat"@, "grid"@);
            lemma_neq_len("note_repeat"@, "play"@);
            lemma_neq_len("note_repeat"@, "rec"@);
            lemma_neq_len("note_repeat"@, "erase"@);
            lemma_neq_len("note_repeat"@, "shift"@);
            lemma_neq_len("note_repeat"@, "group"@);
            lemma_neq_len("note_repeat"@, "browse"@);
            lemma_neq_len("note_repeat"@, "sampling"@);
            assert(spec_button_of_name("note_repeat"@) == Some(btn));
        },
        MaschineButton::Encoder => {
            lemma_neq_char("encoder"@, "restart"@, 0);
            lemma_neq_len("encoder"@, "step_left"@);
            lemma_neq_len("encoder"@, "step_right"@);
            lemma_neq_len("encoder"@, "grid"@);
            lemma_neq_len("encoder"@, "play"@);
            lemma_neq_len("encoder"@, "rec"@);
            lemma_neq_len("encoder"@, "erase"@);
            lemma_neq_len("encoder"@, "shift"@);
            lemma_neq_len("encoder"@, "group"@);
            lemma_neq_len("encoder"@, "browse"@);
            lemma_neq_len("encoder"@, "sampling"@);
            lemma_neq_len("encoder"@, "note_repeat"@);
            assert(spec_button_of_name("encoder"@) == Some(btn));
        },
        MaschineButton::F1 => {
            lemma_neq_len("f1"@, "restart"@);
            lemma_neq_len("f1"@, "step_left"@);
            lemma_neq_len("f1"@, "step_right"@);
            lemma_neq_len("f1"@, "grid"@);
            lemma_neq_len("f1"@, "play"@);
            lemma_neq_len("f1"@, "rec"@);
            lemma_neq_len("f1"@, "erase"@);
            lemma_neq_len("f1"@, "shift"@);
            lemma_neq_len("f1"@, "group"@);
            lemma_neq_len("f1"@, "browse"@);
            lemma_neq_len("f1"@, "sampling"@);
            lemma_neq_len("f1"@, "note_repeat"@);
            lemma_neq_len("f1"@, "encoder"@);
            assert(spec_button_of_name("f1"@) == Some(btn));
        },
        MaschineButton::F2 => {
            lemma_neq_len("f2"@, "restart"@);
            lemma_neq_len("f2"@, "step_left"@);
            lemma_neq_len("f2"@, "step_right"@);
            lemma_neq_len("f2"@, "grid"@);
            lemma_neq_len("f2"@, "play"@);
            lemma_neq_len("f2"@, "rec"@);
            lemma_neq_len("f2"@, "erase"@);
            lemma_neq_len("f2"@, "shift"@);
            lemma_neq_len("f2"@, "group"@);
            lemma_neq_len("f2"@, "browse"@);
            lemma_neq_len("f2"@, "sampling"@);
            lemma_neq_len("f2"@, "note_repeat"@);
            lemma_neq_len("f2"@, "encoder"@);
            lemma_neq_char("f2"@, "f1"@, 1);
            assert(spec_button_of_name("f2"@) == Some(btn));
        },
        MaschineButton::F3 => {
            lemma_neq_len("f3"@, "restart"@);
            lemma_neq_len("f3"@, "step_left"@);
            lemma_neq_len("f3"@, "step_right"@);
            lemma_neq_len("f3"@, "grid"@);
            lemma_neq_len("f3"@, "play"@);
            lemma_neq_len("f3"@, "rec"@);
            lemma_neq_len("f3"@, "erase"@);
            lemma_neq_len("f3"@, "shift"@);
            lemma_neq_len("f3"@, "group"@);
            lemma_neq_len("f3"@, "browse"@);
            lemma_neq_len("f3"@, "sampling"@);
            lemma_neq_len("f3"@, "note_repeat"@);
            lemma_neq_len("f3"@, "encoder"@);
            lemma_neq_char("f3"@, "f1"@, 1);
            lemma_neq_char("f3"@, "f2"@, 1);
            assert(spec_button_of_name("f3"@) == Some(btn));
        },
        MaschineButton::Control => {
            lemma_neq_char("control"@, "restart"@, 0);
            lemma_neq_len("control"@, "step_left"@);
            lemma_neq_len("control"@, "step_right"@);
            lemma_neq_len("control"@, "grid"@);
            lemma_neq_len("control"@, "play"@);
            lemma_neq_len("control"@, "rec"@);
            lemma_neq_len("control"@, "erase"@);
            lemma_neq_len("control"@, "shift"@);
            lemma_neq_len("control"@, "group"@);
            lemma_neq_len("control"@, "browse"@);
            lemma_neq_len("control"@, "sampling"@);
            lemma_neq_len("control"@, "note_repeat"@);
            lemma_neq_char("control"@, "encoder"@, 0);
            lemma_neq_len("control"@, "f1"@);
            lemma_neq_len("control"@, "f2"@);
            lemma_neq_len("control"@, "f3"@);
            assert(spec_button_of_name("control"@) == Some(btn));
        },
        MaschineButton::Nav => {
            lemma_neq_len("nav"@, "restart"@);
            lemma_neq_len("nav"@, "step_left"@);
            lemma_neq_len("nav"@, "step_right"@);
            lemma_neq_len("nav"@, "grid"@);
            lemma_neq_len("nav"@, "play"@);
            lemma_neq_char("nav"@, "rec"@, 0);
            lemma_neq_len("nav"@, "erase"@);
            lemma_neq_len("nav"@, "shift"@);
            lemma_neq_len("nav"@, "group"@);
            lemma_neq_len("nav"@, "browse"@);
            lemma_neq_len("nav"@, "sampling"@);
            lemma_neq_len("nav"@, "note_repeat"@);
            lemma_neq_len("nav"@, "encoder"@);
            lemma_neq_len("nav"@, "f1"@);
            lemma_neq_len("nav"@, "f2"@);
            lemma_neq_len("nav"@, "f3"@);
            lemma_neq_len("nav"@, "control"@);
            assert(spec_button_of_name("nav"@) == Some(btn));
        },
        MaschineButton::NavLeft => {
            lemma_neq_len("nav_left"@, "restart"@);
            lemma_neq_len("nav_left"@, "step_left"@);
            lemma_neq_len("nav_left"@, "step_right"@);
            lemma_neq_len("nav_left"@, "grid"@);
            lemma_neq_len("nav_left"@, "play"@);
            lemma_neq_len("nav_left"@, "rec"@);
            lemma_neq_len("nav_left"@, "erase"@);
            lemma_neq_len("nav_left"@, "shift"@);
            lemma_neq_len("nav_left"@, "group"@);
            lemma_neq_len("nav_left"@, "browse"@);
            lemma_neq_char("nav_left"@, "sampling"@, 0);
            lemma_neq_len("nav_left"@, "note_repeat"@);
            lemma_neq_len("nav_left"@, "encoder"@);
            lemma_neq_len("nav_left"@, "f1"@);
            lemma_neq_len("nav_left"@, "f2"@);
            lemma_neq_len("nav_left"@, "f3"@);
            lemma_neq_len("nav_left"@, "control"@);
            lemma_neq_len("nav_left"@, "nav"@);
            assert(spec_button_of_name("nav_left"@) == Some(btn));
        },
        MaschineButton::NavRight => {
            lemma_neq_len("nav_right"@, "restart"@);
            lemma_neq_char("nav_right"@, "step_left"@, 0);
            lemma_neq_len("nav_right"@, "step_right"@);
            lemma_neq_len("nav_right"@, "grid"@);
            lemma_neq_len("nav_right"@, "play"@);
            lemma_neq_len("nav_right"@, "rec"@);
            lemma_neq_len("nav_right"@, "erase"@);
            lemma_neq_len("nav_right"@, "shift"@);
            lemma_neq_len("nav_right"@, "group"@);
            lemma_neq_len("nav_right"@, "browse"@);
            lemma_neq_len("nav_right"@, "sampling"@);
            lemma_neq_len("nav_right"@, "note_repeat"@);
            lemma_neq_len("nav_right"@, "encoder"@);
            lemma_neq_len("nav_right"@, "f1"@);
            lemma_neq_len("nav_right"@, "f2"@);
            lemma_neq_len("nav_right"@, "f3"@);
            lemma_neq_len("nav_right"@, "control"@);
            lemma_neq_len("nav_right"@, "nav"@);
            lemma_neq_len("nav_right"@, "nav_left"@);
            assert(spec_button_of_name("nav_right"@) == Some(btn));
        },
        MaschineButton::Main => {
            lemma_neq_len("main"@, "restart"@);
            lemma_neq_len("main"@, "step_left"@);
            lemma_neq_len("main"@, "step_right"@);
            lemma_neq_char("main"@, "grid"@, 0);
            lemma_neq_char("main"@, "play"@, 0);
            lemma_neq_len("main"@, "rec"@);
            lemma_neq_len("main"@, "erase"@);
            lemma_neq_len("main"@, "shift"@);
            lemma_neq_len("main"@, "group"@);
            lemma_neq_len("main"@, "browse"@);
            lemma_neq_len("main"@, "sampling"@);
            lemma_neq_len("main"@, "note_repeat"@);
            lemma_neq_len("main"@, "encoder"@);
            lemma_neq_len("main"@, "f1"@);
            lemma_neq_len("main"@, "f2"@);
            lemma_neq_len("main"@, "f3"@);
            lemma_neq_len("main"@, "control"@);
            lemma_neq_len("main"@, "nav"@);
            lemma_neq_len("main"@, "nav_left"@);
            lemma_neq_len("main"@, "nav_right"@);
            assert(spec_button_of_name("main"@) == Some(btn));
        },
        MaschineButton::Scene => {
            lemma_neq_len("scene"@, "restart"@);
            lemma_neq_len("scene"@, "step_left"@);
            lemma_neq_len("scene"@, "step_right"@);
            lemma_neq_len("scene"@, "grid"@);
            lemma_neq_len("scene"@, "play"@);
            lemma_neq_len("scene"@, "rec"@);
            lemma_neq_char("scene"@, "erase"@, 0);
            lemma_neq_char("scene"@, "shift"@, 1);
            lemma_neq_char("scene"@, "group"@, 0);
            lemma_neq_len("scene"@, "browse"@);
            lemma_neq_len("scene"@, "sampling"@);
            lemma_neq_len("scene"@, "note_repeat"@);
            lemma_neq_len("scene"@, "encoder"@);
            lemma_neq_len("scene"@, "f1"@);
            lemma_neq_len("scene"@, "f2"@);
            lemma_neq_len("scene"@, "f3"@);
            lemma_neq_len("scene"@, "control"@);
            lemma_neq_len("scene"@, "nav"@);
            lemma_neq_len("scene"@, "nav_left"@);
            lemma_neq_len("scene"@, "nav_right"@);
            lemma_neq_len("scene"@, "main"@);
            assert(spec_button_of_name("scene"@) == Some(btn));
        },
        MaschineButton::Pattern => {
            lemma_neq_char("pattern"@, "restart"@, 0);
            lemma_neq_len("pattern"@, "step_left"@);
            lemma_neq_len("pattern"@, "step_right"@);
            lemma_neq_len("pattern"@, "grid"@);
            lemma_neq_len("pattern"@, "play"@);
            lemma_neq_len("pattern"@, "rec"@);
            lemma_neq_len("pattern"@, "erase"@);
            lemma_neq_len("pattern"@, "shift"@);
            lemma_neq_len("pattern"@, "group"@);
            lemma_neq_len("pattern"@, "browse"@);
            lemma_neq_len("pattern"@, "sampling"@);
            lemma_neq_len("pattern"@, "note_repeat"@);
            lemma_neq_char("pattern"@, "encoder"@, 0);
            lemma_neq_len("pattern"@, "f1"@);
            lemma_neq_len("pattern"@, "f2"@);
            lemma_neq_len("pattern"@, "f3"@);
            lemma_neq_char("pattern"@, "control"@, 0);
            lemma_neq_len("pattern"@, "nav"@);
            lemma_neq_len("pattern"@, "nav_left"@);
            lemma_neq_len("pattern"@, "nav_right"@);
            lemma_neq_len("pattern"@, "main"@);
            lemma_neq_len("pattern"@, "scene"@);
            assert(spec_button_of_name("pattern"@) == Some(btn));
        },
        MaschineButton::PadMode => {
            lemma_neq_len("pad_mode"@, "restart"@);
            lemma_neq_len("pad_mode"@, "step_left"@);
            lemma_neq_len("pad_mode"@, "step_right"@);
            lemma_neq_len("pad_mode"@, "grid"@);
            lemma_neq_len("pad_mode"@, "play"@);
            lemma_neq_len("pad_mode"@, "rec"@);
            lemma_neq_len("pad_mode"@, "erase"@);
            lemma_neq_len("pad_mode"@, "shift"@);
            lemma_neq_len("pad_mode"@, "group"@);
            lemma_neq_len("pad_mode"@, "browse"@);
            lemma_neq_char("pad_mode"@, "sampling"@, 0);
            lemma_neq_len("pad_mode"@, "note_repeat"@);
            lemma_neq_len("pad_mode"@, "encoder"@);
            lemma_neq_len("pad_mode"@, "f1"@);
            lemma_neq_len("pad_mode"@, "f2"@);
            lemma_neq_len("pad_mode"@, "f3"@);
            lemma_neq_len("pad_mode"@, "control"@);
            lemma_neq_len("pad_mode"@, "nav"@);
            lemma_neq_char("pad_mode"@, "nav_left"@, 0);
            lemma_neq_len("pad_mode"@, "nav_right"@);
            lemma_neq_len("pad_mode"@, "main"@);
            lemma_neq_len("pad_mode"@, "scene"@);
            lemma_neq_len("pad_mode"@, "pattern"@);
            assert(spec_button_of_name("pad_mode"@) == Some(btn));
        },
        MaschineButton::View => {
            lemma_neq_len("view"@, "restart"@);
            lemma_neq_len("view"@, "step_left"@);
            lemma_neq_len("view"@, "step_right"@);
            lemma_neq_char("view"@, "grid"@, 0);
            lemma_neq_char("view"@, "play"@, 0);
            lemma_neq_len("view"@, "rec"@);
            lemma_neq_len("view"@, "erase"@);
            lemma_neq_len("view"@, "shift"@);
            lemma_neq_len("view"@, "group"@);
            lemma_neq_len("view"@, "browse"@);
            lemma_neq_len("view"@, "sampling"@);
            lemma_neq_len("view"@, "note_repeat"@);
            lemma_neq_len("view"@, "encoder"@);
            lemma_neq_len("view"@, "f1"@);
            lemma_neq_len("view"@, "f2"@);
            lemma_neq_len("view"@, "f3"@);
            lemma_neq_len("view"@, "control"@);
            lemma_neq_len("view"@, "nav"@);
            lemma_neq_len("view"@, "nav_left"@);
            lemma_neq_len("view"@, "nav_right"@);
            lemma_neq_char("view"@, "main"@, 0);
            lemma_neq_len("view"@, "scene"@);
            lemma_neq_len("view"@, "pattern"@);
            lemma_neq_len("view"@, "pad_mode"@);
            assert(spec_button_of_name("view"@) == Some(btn));
        },
        MaschineButton::Duplicate => {
            lemma_neq_len("duplicate"@, "restart"@);
            lemma_neq_char("duplicate"@, "step_left"@, 0);
            lemma_neq_len("duplicate"@, "step_right"@);
            lemma_neq_len("duplicate"@, "grid"@);
            lemma_neq_len("duplicate"@, "play"@);
            lemma_neq_len("duplicate"@, "rec"@);
            lemma_neq_len("duplicate"@, "erase"@);
            lemma_neq_len("duplicate"@, "shift"@);
            lemma_neq_len("duplicate"@, "group"@);
            lemma_neq_len("duplicate"@, "browse"@);
            lemma_neq_len("duplicate"@, "sampling"@);
            lemma_neq_len("duplicate"@, "note_repeat"@);
            lemma_neq_len("duplicate"@, "encoder"@);
            lemma_neq_len("duplicate"@, "f1"@);
            lemma_neq_len("duplicate"@, "f2"@);
            lemma_neq_len("duplicate"@, "f3"@);
            lemma_neq_len("duplicate"@, "control"@);
            lemma_neq_len("duplicate"@, "nav"@);
            lemma_neq_len("duplicate"@, "nav_left"@);
            lemma_neq_char("duplicate"@, "nav_right"@, 0);
            lemma_neq_len("duplicate"@, "main"@);
            lemma_neq_len("duplicate"@, "scene"@);
            lemma_neq_len("duplicate"@, "pattern"@);
            lemma_neq_len("duplicate"@, "pad_mode"@);
            lemma_neq_len("duplicate"@, "view"@);
            assert(spec_button_of_name("duplicate"@) == Some(btn));
        },
        MaschineButton::Select => {
            lemma_neq_len("select"@, "restart"@);
            lemma_neq_len("select"@, "step_left"@);
            lemma_neq_len("select"@, "step_right"@);
            lemma_neq_len("select"@, "grid"@);
            lemma_neq_len("select"@, "play"@);
            lemma_neq_len("select"@, "rec"@);
            lemma_neq_len("select"@, "erase"@);
            lemma_neq_len("select"@, "shift"@);
            lemma_neq_len("select"@, "group"@);
            lemma_neq_char("select"@, "browse"@, 0);
            lemma_neq_len("select"@, "sampling"@);
            lemma_neq_len("select"@, "note_repeat"@);
            lemma_neq_len("select"@, "encoder"@);
            lemma_neq_len("select"@, "f1"@);
            lemma_neq_len("select"@, "f2"@);
            lemma_neq_len("select"@, "f3"@);
            lemma_neq_len("select"@, "control"@);
            lemma_neq_len("select"@, "nav"@);
            lemma_neq_len("select"@, "nav_left"@);
            lemma_neq_len("select"@, "nav_right"@);
            lemma_neq_len("select"@, "main"@);
            lemma_neq_len("select"@, "scene"@);
            lemma_neq_len("select"@, "pattern"@);
            lemma_neq_len("select"@, "pad_mode"@);
            lemma_neq_len("select"@, "view"@);
            lemma_neq_len("select"@, "duplicate"@);
            assert(spec_button_of_name("select"@) == Some(btn));
        },
        MaschineButton::Solo => {
            lemma_neq_len("solo"@, "restart"@);
            lemma_neq_len("solo"@, "step_left"@);
            lemma_neq_len("solo"@, "step_right"@);
            lemma_neq_char("solo"@, "grid"@, 0);
            lemma_neq_char("solo"@, "play"@, 0);
            lemma_neq_len("solo"@, "rec"@);
            lemma_neq_len("solo"@, "erase"@);
            lemma_neq_len("solo"@, "shift"@);
            lemma_neq_len("solo"@, "group"@);
            lemma_neq_len("solo"@, "browse"@);
            lemma_neq_len("solo"@, "sampling"@);
            lemma_neq_len("solo"@, "note_repeat"@);
            lemma_neq_len("solo"@, "encoder"@);
            lemma_neq_len("solo"@, "f1"@);
            lemma_neq_len("solo"@, "f2"@);
            lemma_neq_len("solo"@, "f3"@);
            lemma_neq_len("solo"@, "control"@);
            lemma_neq_len("solo"@, "nav"@);
            lemma_neq_len("solo"@, "nav_left"@);
            lemma_neq_len("solo"@, "nav_right"@);
            lemma_neq_char("solo"@, "main"@, 0);
            lemma_neq_len("solo"@, "scene"@);
            lemma_neq_len("solo"@, "pattern"@);
            lemma_neq_len("solo"@, "pad_mode"@);
            lemma_neq_char("solo"@, "view"@, 0);
            lemma_neq_len("solo"@, "duplicate"@);
            lemma_neq_len("solo"@, "select"@);
            assert(spec_button_of_name("solo"@) == Some(btn));
        },
        MaschineButton::Mute => {
            lemma_neq_len("mute"@, "restart"@);
            lemma_neq_len("mute"@, "step_left"@);
            lemma_neq_len("mute"@, "step_right"@);
            lemma_neq_char("mute"@, "grid"@, 0);
            lemma_neq_char("mute"@, "play"@, 0);
            lemma_neq_len("mute"@, "rec"@);
            lemma_neq_len("mute"@, "erase"@);
            lemma_neq_len("mute"@, "shift"@);
            lemma_neq_len("mute"@, "group"@);
            lemma_neq_len("mute"@, "browse"@);
            lemma_neq_len("mute"@, "sampling"@);
            lemma_neq_len("mute"@, "note_repeat"@);
            lemma_neq_len("mute"@, "encoder"@);
            lemma_neq_len("mute"@, "f1"@);
            lemma_neq_len("mute"@, "f2"@);
            lemma_neq_len("mute"@, "f3"@);
            lemma_neq_len("mute"@, "control"@);
            lemma_neq_len("mute"@, "nav"@);
            lemma_neq_len("mute"@, "nav_left"@);
            lemma_neq_len("mute"@, "nav_right"@);
            lemma_neq_char("mute"@, "main"@, 1);
            lemma_neq_len("mute"@, "scene"@);
            lemma_neq_len("mute"@, "pattern"@);
            lemma_neq_len("mute"@, "pad_mode"@);
            lemma_neq_char("mute"@, "view"@, 0);
            lemma_neq_len("mute"@, "duplicate"@);
            lemma_neq_len("mute"@, "select"@);
            lemma_neq_char("mute"@, "solo"@, 0);
            assert(spec_button_of_name("mute"@) == Some(btn));
        },
    }
}

/// The encoding of a control-channel message with integer arguments, as the
/// wire produces it: a function of the path and the arguments alone.
pub uninterp spec fn osc_bytes_of(path: Seq<char>, args: Seq<i32>) -> Seq<u8>;

/// Relies on tinyosc's `Message::serialize`: the datagram is a function of
/// the path and the arguments alone, and serialising into a byte vector
/// cannot fail (every write goes to a `Vec<u8>`, whose `Write`
/// implementation never errs).
#[verifier::external_body]
fn serialize_osc(path: &str, args: &Vec<i32>) -> (r: Vec<u8>)
    ensures
        r@ == osc_bytes_of(path@, args@),
{
    let msg = tinyosc::Message {
        path,
        arguments: args.iter().map(|&v| tinyosc::Argument::i(v)).collect(),
    };
    msg.serialize().expect("writing to a Vec cannot fail")
}

/// The datagram that carries `args` to `path` on the control channel.
pub fn osc_datagram(path: &str, args: Vec<i32>) -> (r: Vec<u8>)
    ensures
        r@ == osc_bytes_of(path@, args@),
{
    serialize_osc(path, &args)
}

} // verus!
