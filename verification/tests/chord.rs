use musika_rs::chord::{
    Diminished, Diminished7, Dominant7, Dominant9, Major, Major7, Major9, Minor, Minor7,
    Minor7b5, Minor9,
};
use musika_rs::{a, a_sharp, b, c, d, d_sharp, e, f_sharp, g};

#[test]
fn major_new() {
    let chord = Major::new(c());

    assert_eq!(chord.root(), c());
    assert_eq!(chord.len(), 3);
    assert!(!chord.is_empty());

    let notes = chord.into_notes();
    assert_eq!(notes, vec![c(), e(), g()]);
}

#[test]
fn major_show() {
    let chord = Major::new(c());
    assert_eq!(chord.show(), "C");
    assert_eq!(
        chord.show_debug(),
        "Chord: Maj, C4:C:0, [C4:C:0, C4:E:4, C4:G:7]"
    );
    assert_eq!(chord.show_sharp(), "C [C, E, G]");
    assert_eq!(chord.show_flat(), "C [C, E, G]");
}

#[test]
fn major7_new() {
    let chord = Major7::new(c());

    assert_eq!(chord.root(), c());
    assert_eq!(chord.len(), 4);
    assert!(!chord.is_empty());

    let notes: Vec<_> = chord.into_notes().into_iter().map(|n| n.base()).collect();
    assert_eq!(notes, vec![c(), e(), g(), b()]);
}

#[test]
fn major7_show() {
    let chord = Major7::new(c());
    assert_eq!(chord.show(), "Cmaj7");
    assert_eq!(
        chord.show_debug(),
        "Chord: maj7, C4:C:0, [C4:C:0, C4:E:4, C4:G:7, C5:B:11]"
    );
    assert_eq!(chord.show_sharp(), "Cmaj7 [C, E, G, B]");
    assert_eq!(chord.show_flat(), "Cmaj7 [C, E, G, B]");
}

#[test]
fn major9_new() {
    let chord = Major9::new(c());

    assert_eq!(chord.root(), c());
    assert_eq!(chord.len(), 5);
    assert!(!chord.is_empty());

    let notes: Vec<_> = chord.into_notes().into_iter().map(|n| n.base()).collect();
    assert_eq!(notes, vec![c(), e(), g(), b(), d()]);
}

#[test]
fn major9_show() {
    let chord = Major9::new(c());
    assert_eq!(chord.show(), "Cmaj9");
    assert_eq!(
        chord.show_debug(),
        "Chord: maj9, C4:C:0, [C4:C:0, C4:E:4, C4:G:7, C5:B:11, C5:D:14]"
    );
    assert_eq!(chord.show_sharp(), "Cmaj9 [C, E, G, B, D]");
    assert_eq!(chord.show_flat(), "Cmaj9 [C, E, G, B, D]");
}

#[test]
fn minor_new() {
    let chord = Minor::new(c());

    assert_eq!(chord.root(), c());
    assert_eq!(chord.len(), 3);
    assert!(!chord.is_empty());

    let notes = chord.into_notes();
    assert_eq!(notes, vec![c(), d_sharp(), g()]);
}

#[test]
fn minor_show() {
    let chord = Minor::new(c());
    assert_eq!(chord.show(), "Cm");
    assert_eq!(
        chord.show_debug(),
        "Chord: m, C4:C:0, [C4:C:0, C4:D#:3, C4:G:7]"
    );
    assert_eq!(chord.show_sharp(), "Cm [C, D#, G]");
    assert_eq!(chord.show_flat(), "Cm [C, Eb, G]");
}

#[test]
fn minor7_new() {
    let chord = Minor7::new(c());

    assert_eq!(chord.root(), c());
    assert_eq!(chord.len(), 4);
    assert!(!chord.is_empty());

    let notes: Vec<_> = chord.into_notes().into_iter().map(|n| n.base()).collect();
    assert_eq!(notes, vec![c(), d_sharp(), g(), a_sharp()]);
}

#[test]
fn minor7_show() {
    let chord = Minor7::new(c());
    assert_eq!(chord.show(), "Cm7");
    assert_eq!(
        chord.show_debug(),
        "Chord: m7, C4:C:0, [C4:C:0, C4:D#:3, C4:G:7, C5:A#:10]"
    );
    assert_eq!(chord.show_sharp(), "Cm7 [C, D#, G, A#]");
    assert_eq!(chord.show_flat(), "Cm7 [C, Eb, G, Bb]");
}

#[test]
fn minor7b5_new() {
    let chord = Minor7b5::new(c());

    assert_eq!(chord.root(), c());
    assert_eq!(chord.len(), 4);
    assert!(!chord.is_empty());

    let notes: Vec<_> = chord.into_notes().into_iter().map(|n| n.base()).collect();
    assert_eq!(notes, vec![c(), d_sharp(), f_sharp(), a_sharp()]);
}

#[test]
fn minor9_new() {
    let chord = Minor9::new(c());

    assert_eq!(chord.root(), c());
    assert_eq!(chord.len(), 5);
    assert!(!chord.is_empty());

    let notes: Vec<_> = chord.into_notes().into_iter().map(|n| n.base()).collect();
    assert_eq!(notes, vec![c(), d_sharp(), g(), a_sharp(), d()]);
}

#[test]
fn minor9_show() {
    let chord = Minor9::new(c());
    assert_eq!(chord.show(), "Cm9");
    assert_eq!(
        chord.show_debug(),
        "Chord: m9, C4:C:0, [C4:C:0, C4:D#:3, C4:G:7, C5:A#:10, C5:D:14]"
    );
    assert_eq!(chord.show_sharp(), "Cm9 [C, D#, G, A#, D]");
    assert_eq!(chord.show_flat(), "Cm9 [C, Eb, G, Bb, D]");
}

#[test]
fn dominant7_new() {
    let chord = Dominant7::new(c());

    assert_eq!(chord.root(), c());
    assert_eq!(chord.len(), 4);
    assert!(!chord.is_empty());

    let notes: Vec<_> = chord.into_notes().into_iter().map(|n| n.base()).collect();
    assert_eq!(notes, vec![c(), e(), g(), a_sharp()]);
}

#[test]
fn dominant7_show() {
    let chord = Dominant7::new(c());
    assert_eq!(chord.show(), "C7");
    assert_eq!(
        chord.show_debug(),
        "Chord: Dom7, C4:C:0, [C4:C:0, C4:E:4, C4:G:7, C5:A#:10]"
    );
    assert_eq!(chord.show_sharp(), "C7 [C, E, G, A#]");
    assert_eq!(chord.show_flat(), "C7 [C, E, G, Bb]");
}

#[test]
fn dominant9_new() {
    let chord = Dominant9::new(c());

    assert_eq!(chord.root(), c());
    assert_eq!(chord.len(), 5);
    assert!(!chord.is_empty());

    let notes: Vec<_> = chord.into_notes().into_iter().map(|n| n.base()).collect();
    assert_eq!(notes, vec![c(), e(), g(), a_sharp(), d()]);
}

#[test]
fn dominant9_show() {
    let chord = Dominant9::new(c());
    assert_eq!(chord.show(), "C7");
    assert_eq!(
        chord.show_debug(),
        "Chord: 7, C4:C:0, [C4:C:0, C4:E:4, C4:G:7, C5:A#:10, C5:D:14]"
    );
    assert_eq!(chord.show_sharp(), "C7 [C, E, G, A#, D]");
    assert_eq!(chord.show_flat(), "C7 [C, E, G, Bb, D]");
}

#[test]
fn diminished7_new() {
    let chord = Diminished7::new(c());

    assert_eq!(chord.root(), c());
    assert_eq!(chord.len(), 4);
    assert!(!chord.is_empty());

    let notes: Vec<_> = chord.into_notes().into_iter().map(|n| n.base()).collect();
    assert_eq!(notes, vec![c(), d_sharp(), f_sharp(), a()]);
}

#[test]
fn diminished7_show() {
    let chord = Diminished7::new(c());
    assert_eq!(chord.show(), "Cdim7");
    assert_eq!(
        chord.show_debug(),
        "Chord: dim7, C4:C:0, [C4:C:0, C4:D#:3, C4:F#:6, C5:A:9]"
    );
    assert_eq!(chord.show_sharp(), "Cdim7 [C, D#, F#, A]");
    assert_eq!(chord.show_flat(), "Cdim7 [C, Eb, Gb, A]");
}

#[test]
fn quality_octave_shift_keeps_pitch_classes() {
    let chord = Major7::new(c());
    let up = chord.up_one_octave();
    assert_eq!(up.show_sharp(), "Cmaj7 [C, E, G, B]");
    assert_eq!(up.show_debug(), "Chord: maj7, C5:C:12, [C5:C:12, C5:E:16, C5:G:19, C6:B:23]");
    let back = up.down_one_octave();
    assert_eq!(back.show_debug(), "Chord: maj7, C4:C:0, [C4:C:0, C4:E:4, C4:G:7, C5:B:11]");
}

#[test]
fn diminished_triad_struct() {
    let chord = Diminished::new(c());
    assert_eq!(chord.root(), c());
    assert_eq!(chord.len(), 3);
    assert_eq!(chord.show(), "Cdim");
    assert_eq!(chord.show_sharp(), "Cdim [C, D#, F#]");
    assert_eq!(chord.show_flat(), "Cdim [C, Eb, Gb]");
    assert_eq!(
        chord.show_debug(),
        "Chord: dim, C4:C:0, [C4:C:0, C4:D#:3, C4:F#:6]"
    );
}
