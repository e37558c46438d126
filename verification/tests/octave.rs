use musika_rs::{c0, c1, c2, c3, c4, c5, c6, c7, Octave};

#[test]
fn octave_display() {
    assert_eq!(c0().show(), "C0");
    assert_eq!(c1().show(), "C1");
    assert_eq!(c2().show(), "C2");
    assert_eq!(c3().show(), "C3");
    assert_eq!(c4().show(), "C4");
    assert_eq!(c5().show(), "C5");
    assert_eq!(c6().show(), "C6");
    assert_eq!(c7().show(), "C7");
}

#[test]
fn octave_debug() {
    assert_eq!(c0().show_debug(), "C0");
    assert_eq!(c1().show_debug(), "C1");
    assert_eq!(c2().show_debug(), "C2");
    assert_eq!(c3().show_debug(), "C3");
    assert_eq!(c4().show_debug(), "C4");
    assert_eq!(c5().show_debug(), "C5");
    assert_eq!(c6().show_debug(), "C6");
    assert_eq!(c7().show_debug(), "C7");
}

#[test]
fn octave_to_u8() {
    assert_eq!(u8::from(c0()), 0);
    assert_eq!(u8::from(c1()), 1);
    assert_eq!(u8::from(c2()), 2);
    assert_eq!(u8::from(c3()), 3);
    assert_eq!(u8::from(c4()), 4);
    assert_eq!(u8::from(c5()), 5);
    assert_eq!(u8::from(c6()), 6);
    assert_eq!(u8::from(c7()), 7);
}

#[test]
fn u8_to_octave() {
    assert_eq!(Octave::from(0), c0());
    assert_eq!(Octave::from(1), c1());
    assert_eq!(Octave::from(2), c2());
    assert_eq!(Octave::from(3), c3());
    assert_eq!(Octave::from(4), c4());
    assert_eq!(Octave::from(5), c5());
    assert_eq!(Octave::from(6), c6());
    assert_eq!(Octave::from(7), c7());
}

#[test]
fn octave_default() {
    assert_eq!(Octave::default(), c4());
}
