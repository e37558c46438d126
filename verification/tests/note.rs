use musika_rs::{
    a, a_sharp, b, c, c_sharp, d, d_sharp, e, f, f_sharp, g, g_sharp, semi_tone, whole_tone,
    Note, Tone,
};

#[test]
fn note_display() {
    assert_eq!(c().show(), "C");
    assert_eq!(c_sharp().show(), "C#");
    assert_eq!(d().show(), "D");
    assert_eq!(d_sharp().show(), "D#");
    assert_eq!(e().show(), "E");
    assert_eq!(f().show(), "F");
    assert_eq!(f_sharp().show(), "F#");
    assert_eq!(g().show(), "G");
    assert_eq!(g_sharp().show(), "G#");
    assert_eq!(a().show(), "A");
    assert_eq!(a_sharp().show(), "A#");
    assert_eq!(b().show(), "B");
}

#[test]
fn note_debug() {
    assert_eq!(a().show_debug(), "C4:A:-3");
    assert_eq!(a_sharp().show_debug(), "C4:A#:-2");
    assert_eq!(b().show_debug(), "C4:B:-1");
    assert_eq!(c().show_debug(), "C4:C:0");
    assert_eq!(c_sharp().show_debug(), "C4:C#:1");
    assert_eq!(d().show_debug(), "C4:D:2");
    assert_eq!(d_sharp().show_debug(), "C4:D#:3");
    assert_eq!(e().show_debug(), "C4:E:4");
    assert_eq!(f().show_debug(), "C4:F:5");
    assert_eq!(f_sharp().show_debug(), "C4:F#:6");
    assert_eq!(g().show_debug(), "C4:G:7");
    assert_eq!(g_sharp().show_debug(), "C4:G#:8");
}

#[test]
fn upper_hex() {
    assert_eq!(c().show_sharp(), "C");
    assert_eq!(c_sharp().show_sharp(), "C#");
    assert_eq!(d().show_sharp(), "D");
    assert_eq!(d_sharp().show_sharp(), "D#");
    assert_eq!(e().show_sharp(), "E");
    assert_eq!(f().show_sharp(), "F");
    assert_eq!(f_sharp().show_sharp(), "F#");
    assert_eq!(g().show_sharp(), "G");
    assert_eq!(g_sharp().show_sharp(), "G#");
    assert_eq!(a().show_sharp(), "A");
    assert_eq!(a_sharp().show_sharp(), "A#");
    assert_eq!(b().show_sharp(), "B");
}

#[test]
fn lower_hex() {
    assert_eq!(c().show_flat(), "C");
    assert_eq!(c_sharp().show_flat(), "Db");
    assert_eq!(d().show_flat(), "D");
    assert_eq!(d_sharp().show_flat(), "Eb");
    assert_eq!(e().show_flat(), "E");
    assert_eq!(f().show_flat(), "F");
    assert_eq!(f_sharp().show_flat(), "Gb");
    assert_eq!(g().show_flat(), "G");
    assert_eq!(g_sharp().show_flat(), "Ab");
    assert_eq!(a().show_flat(), "A");
    assert_eq!(a_sharp().show_flat(), "Bb");
    assert_eq!(b().show_flat(), "B");
}

#[test]
fn i8_to_note() {
    assert_eq!(Note::from(-3), a());
    assert_eq!(Note::from(-2), a_sharp());
    assert_eq!(Note::from(-1), b());
    assert_eq!(Note::from(0), c());
    assert_eq!(Note::from(1), c_sharp());
    assert_eq!(Note::from(2), d());
    assert_eq!(Note::from(3), d_sharp());
    assert_eq!(Note::from(4), e());
    assert_eq!(Note::from(5), f());
    assert_eq!(Note::from(6), f_sharp());
    assert_eq!(Note::from(7), g());
    assert_eq!(Note::from(8), g_sharp());
}

#[test]
fn note_to_i8() {
    assert_eq!(i8::from(a()), -3);
    assert_eq!(i8::from(a_sharp()), -2);
    assert_eq!(i8::from(b()), -1);
    assert_eq!(i8::from(c()), 0);
    assert_eq!(i8::from(c_sharp()), 1);
    assert_eq!(i8::from(d()), 2);
    assert_eq!(i8::from(d_sharp()), 3);
    assert_eq!(i8::from(e()), 4);
    assert_eq!(i8::from(f()), 5);
    assert_eq!(i8::from(f_sharp()), 6);
    assert_eq!(i8::from(g()), 7);
    assert_eq!(i8::from(g_sharp()), 8);
}

#[test]
fn octave() {
    assert_eq!(a().octave(), 4);
    assert_eq!(a_sharp().octave(), 4);
    assert_eq!(b().octave(), 4);
    assert_eq!(c().octave(), 4);
    assert_eq!(c_sharp().octave(), 4);
    assert_eq!(d().octave(), 4);
    assert_eq!(d_sharp().octave(), 4);
    assert_eq!(e().octave(), 4);
    assert_eq!(f().octave(), 4);
    assert_eq!(f_sharp().octave(), 4);
    assert_eq!(g().octave(), 4);
    assert_eq!(g_sharp().octave(), 4);

    let note = Note::from(9);
    assert_eq!(note.base(), a());
    assert_eq!(note.octave(), 5);

    let note = Note::from(9 + 12);
    assert_eq!(note.base(), a());
    assert_eq!(note.octave(), 6);

    let note = Note::from(-4);
    assert_eq!(note.base(), g_sharp());
    assert_eq!(note.octave(), 3);

    let note = note - musika_rs::octave();
    assert_eq!(note.base(), g_sharp());
    assert_eq!(note.octave(), 2);
}

#[test]
fn add() {
    assert_eq!(c() + semi_tone(), c_sharp());
    assert_eq!(c() + whole_tone(), d());
    assert_eq!(c() + Tone::from(3), d_sharp());

    let note = g_sharp() + semi_tone();
    assert_eq!(note.octave(), 5);
    assert_eq!(note.base(), a());

    let note = g_sharp() + whole_tone();
    assert_eq!(note.octave(), 5);
    assert_eq!(note.base(), a_sharp());
}

#[test]
fn sub_tone() {
    assert_eq!(g() - semi_tone(), f_sharp());
    assert_eq!(g() - whole_tone(), f());

    let note = c() - semi_tone();
    assert_eq!(note.octave(), 4);
    assert_eq!(note.base(), b());

    let note = c() - whole_tone();
    assert_eq!(note.octave(), 4);
    assert_eq!(note.base(), a_sharp());

    let note = a() - semi_tone();
    assert_eq!(note.octave(), 3);
    assert_eq!(note.base(), g_sharp());
}

#[test]
fn sub_note() {
    assert_eq!(c() - b(), semi_tone());
}

#[test]
fn perfect_fifth() {
    assert_eq!(d().perfect_fifth().base(), a().base());
    assert_eq!(a().perfect_fifth().base(), e().base());
    assert_eq!(e().perfect_fifth().base(), b().base());
}

/// A reference implementation of mathematical floor division, against
/// which the folding arithmetic is swept over the whole offset range.
fn floor_div(a: i32, b: i32) -> i32 {
    let q = a / b;
    if a % b != 0 && (a < 0) != (b < 0) {
        q - 1
    } else {
        q
    }
}

#[test]
fn folding_matches_floor_mod_over_full_range() {
    for o in i8::MIN..=i8::MAX {
        let n = Note::from(o);
        let shifted = o as i32 + 3;
        let expected_octave = floor_div(shifted, 12) + 4;
        let expected_base = shifted - 12 * floor_div(shifted, 12) - 3;
        assert_eq!(n.octave() as i32, expected_octave);
        assert_eq!(n.base(), Note::from(expected_base as i8));
        assert_eq!(n.base().octave(), 4);
    }
}

#[test]
fn octave_shift_preserves_base() {
    for o in -100..=100i8 {
        let n = Note::from(o);
        assert_eq!(n.up_one_octave().base(), n.base());
        assert_eq!(n.down_one_octave().base(), n.base());
    }
}

#[test]
fn add_sub_round_trip() {
    for o in -60..=60i8 {
        let n = Note::from(o);
        for t in 0..=24u8 {
            assert_eq!((n + Tone::from(t)) - Tone::from(t), n);
            assert_eq!((n - Tone::from(t)) + Tone::from(t), n);
        }
    }
}

#[test]
fn octave_and_pitch_class_recover_the_offset() {
    for o in i8::MIN..=i8::MAX {
        let n = Note::from(o);
        let rebuilt = (n.octave() as i32) * 12 + i8::from(n.base()) as i32 - 48;
        assert_eq!(rebuilt, o as i32);
    }
}

#[test]
fn enharmonic_spelling_agrees_exactly_on_naturals() {
    let naturals = ["A", "B", "C", "D", "E", "F", "G"];
    let mut agree: usize = 0;
    let mut differ: usize = 0;
    for o in -3..=8i8 {
        let n = Note::from(o);
        if n.show_sharp() == n.show_flat() {
            assert!(naturals.contains(&n.show_sharp()));
            agree += 1;
        } else {
            differ += 1;
        }
    }
    assert_eq!(agree, 7);
    assert_eq!(differ, 5);
}
