use musika_rs::{
    a, augmented_4th, c, diminished_5th, e, g, major_2nd, major_3rd, major_6th, major_7th,
    minor_2nd, minor_3rd, minor_6th, minor_7th, octave_8ve, perfect_4th, perfect_5th, tritone,
    Interval,
};

#[test]
fn interval_names() {
    assert_eq!(minor_2nd().show(), "Minor2nd");
    assert_eq!(major_2nd().show(), "Major2nd");
    assert_eq!(minor_3rd().show(), "Minor3rd");
    assert_eq!(major_3rd().show(), "Major3rd");
    assert_eq!(perfect_4th().show(), "Perfect4th");
    assert_eq!(tritone().show(), "Tritone");
    assert_eq!(augmented_4th().show(), "Tritone");
    assert_eq!(diminished_5th().show(), "Tritone");
    assert_eq!(perfect_5th().show(), "Perfect5th");
    assert_eq!(minor_6th().show(), "Minor6th");
    assert_eq!(major_6th().show(), "Major6th");
    assert_eq!(minor_7th().show(), "Minor7th");
    assert_eq!(major_7th().show(), "Major7th");
    assert_eq!(octave_8ve().show(), "Octave");
}

#[test]
fn interval_reduces_modulo_twelve() {
    assert_eq!(Interval::from(13), minor_2nd());
    assert_eq!(Interval::from(19), perfect_5th());
    assert_eq!(Interval::from(12), octave_8ve());
    assert_eq!(u8::from(Interval::from(12)), 12);
    assert_eq!(u8::from(Interval::from(24)), 0);
}

#[test]
fn note_plus_interval() {
    assert_eq!(c() + major_3rd(), e());
    assert_eq!(c() + perfect_5th(), g());
    assert_eq!((c() + octave_8ve()).base(), c());
    assert_eq!(a().perfect_fifth(), a() + perfect_5th());
}
