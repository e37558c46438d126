use musika_rs::{octave, semi_tone, whole_tone, Tone};

#[test]
fn tone_display() {
    assert_eq!(semi_tone().show(), "H");
    assert_eq!(whole_tone().show(), "W");
    assert_eq!(octave().show(), "O");
    assert_eq!(Tone::from(3).show(), "T(3)");
}

#[test]
fn u8_to_tone() {
    assert_eq!(Tone::from(1), semi_tone());
    assert_eq!(Tone::from(2), whole_tone());
    assert_eq!(Tone::from(3), Tone(3));
    assert_eq!(Tone::from(12), octave());
}

#[test]
fn tone_to_u8() {
    assert_eq!(u8::from(semi_tone()), 1);
    assert_eq!(u8::from(whole_tone()), 2);
    assert_eq!(u8::from(Tone(3)), 3);
    assert_eq!(u8::from(octave()), 12);
}

#[test]
fn tone_debug() {
    assert_eq!(semi_tone().show_debug(), "H(1)");
    assert_eq!(whole_tone().show_debug(), "W(2)");
    assert_eq!(octave().show_debug(), "O(12)");
    assert_eq!(Tone(37).show_debug(), "T(37)");
    assert_eq!(Tone(205).show(), "T(205)");
}
