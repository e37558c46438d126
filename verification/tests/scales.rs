use musika_rs::scales::{major, minor, pentatonic_minor, Scales};
use musika_rs::{a, c, d};

#[test]
fn test_major() {
    let scale = major(c());
    assert_eq!(scale.show_sharp(), "C major [C, D, E, F, G, A, B, C]");
    assert_eq!(scale.show_flat(), "C major [C, D, E, F, G, A, B, C]");
}

#[test]
fn minor_test_minor() {
    let scale = minor(c());
    assert_eq!(scale.show_sharp(), "C minor [C, D, D#, F, G, G#, A#, C]");
    assert_eq!(scale.show_flat(), "C minor [C, D, Eb, F, G, Ab, Bb, C]");
}

#[test]
fn minor_test_penta_minor() {
    let scale = pentatonic_minor(a());
    assert_eq!(scale.show_sharp(), "A penta minor [A, C, D, E, G, A]");
    assert_eq!(scale.show_flat(), "A penta minor [A, C, D, E, G, A]");
}

#[test]
fn scale_shape() {
    let scale = major(d());
    assert_eq!(scale.tonic(), d());
    assert_eq!(scale.len(), 8);
    assert!(!scale.is_empty());
    assert_eq!(scale.name(), " major");
    assert_eq!(scale.show(), "D major");
    let steps: Vec<u8> = scale.as_steps().into_iter().map(u8::from).collect();
    assert_eq!(steps, vec![2, 2, 1, 2, 2, 2, 1]);
}

#[test]
fn scale_octave_shift_keeps_pitch_classes() {
    let scale = minor(a());
    let up = scale.up_one_octave();
    assert_eq!(up.show_sharp(), scale.show_sharp());
    let back = up.down_one_octave();
    let base_of = |s: &Scales| -> Vec<musika_rs::Note> {
        s.notes().iter().map(|n| n.base()).collect()
    };
    assert_eq!(base_of(&scale), base_of(&back));
}

#[test]
fn pentatonic_minor_on_d() {
    let scale = pentatonic_minor(d());
    assert_eq!(scale.show_sharp(), "D penta minor [D, F, G, A, C, D]");
}
