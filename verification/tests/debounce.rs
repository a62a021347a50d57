use maschine::maschine_pad::{MaschinePad, MaschinePadStateTransition};

#[test]
fn fresh_pad_is_idle() {
    let pad = MaschinePad::default();
    assert!(!pad.is_pressed());
    assert_eq!(pad.get_pressure(), 0);
}

#[test]
fn median_lags_single_spike() {
    // Fifteen zeros are in the window; one sample above the threshold
    // leaves the median at zero, so nothing fires.
    let mut pad = MaschinePad::default();
    let t = pad.pressure_val(100);
    assert!(matches!(t, MaschinePadStateTransition::AtRest));
    assert!(!pad.is_pressed());
    assert_eq!(pad.get_pressure(), 0);
}

#[test]
fn press_needs_majority_of_high_samples() {
    let mut pad = MaschinePad::default();
    for _ in 0..7 {
        let t = pad.pressure_val(100);
        assert!(matches!(t, MaschinePadStateTransition::AtRest));
        assert!(!pad.is_pressed());
    }
    // The eighth high sample moves the median of fifteen above the threshold.
    let t = pad.pressure_val(100);
    assert!(matches!(t, MaschinePadStateTransition::Pressed));
    assert!(pad.is_pressed());
    assert_eq!(pad.get_pressure(), 100);
}

#[test]
fn subthreshold_pressure_never_presses() {
    // Values below the threshold park the machine in its intermediate
    // state: no press, and no release either.
    let mut pad = MaschinePad::default();
    for _ in 0..20 {
        let t = pad.pressure_val(10);
        assert!(matches!(t, MaschinePadStateTransition::AtRest));
        assert!(!pad.is_pressed());
    }
    for _ in 0..20 {
        let t = pad.pressure_val(0);
        assert!(matches!(t, MaschinePadStateTransition::AtRest));
    }
}

#[test]
fn feed_sequence_matches_single_feeds() {
    let mut one_by_one = MaschinePad::default();
    let mut all_at_once = MaschinePad::default();
    let samples: Vec<u16> = vec![
        0, 50, 50, 50, 50, 50, 50, 50, 50, 3000, 3000, 0, 0, 0, 0, 0, 0, 0, 0, 0, 0,
    ];
    let mut expected = Vec::new();
    for &s in samples.iter() {
        expected.push(one_by_one.pressure_val(s));
    }
    let got = all_at_once.feed_sequence(&samples);
    assert_eq!(got, expected);
    assert_eq!(all_at_once.is_pressed(), one_by_one.is_pressed());
}

#[test]
fn no_second_press_without_release() {
    let mut pad = MaschinePad::default();
    // Press.
    for _ in 0..7 {
        pad.pressure_val(2000);
    }
    assert!(matches!(pad.pressure_val(2000), MaschinePadStateTransition::Pressed));
    // Holding keeps emitting aftertouch, never a second press.
    for _ in 0..10 {
        assert!(matches!(pad.pressure_val(2000), MaschinePadStateTransition::Aftertouch));
    }
    // Let go: the median stays high while a majority of high samples
    // remains, then the release fires once.
    let mut released = 0;
    for _ in 0..15 {
        match pad.pressure_val(0) {
            MaschinePadStateTransition::Aftertouch => assert_eq!(released, 0),
            MaschinePadStateTransition::Released => released += 1,
            MaschinePadStateTransition::AtRest => assert_eq!(released, 1),
            MaschinePadStateTransition::Pressed => panic!("second press without release"),
        }
    }
    assert_eq!(released, 1);
    assert!(!pad.is_pressed());
    // Only now can a second press fire.
    for _ in 0..7 {
        pad.pressure_val(2000);
    }
    assert!(matches!(pad.pressure_val(2000), MaschinePadStateTransition::Pressed));
}
