use musika_rs::chords::{dom7, maj};
use musika_rs::{c, g, Bar};

#[test]
fn bar_display() {
    let bar = Bar::new().with_chord(maj(c()), 2).with_chord(maj(g()), 2);
    assert_eq!(bar.show(), "C G");
}

#[test]
fn bar_mixes_chords_notes_and_silences() {
    let bar = Bar::new()
        .with_chord(dom7(c()), 2)
        .with_silence(4)
        .with_note(g(), 4);
    assert_eq!(bar.show(), "C7 _ G");
    assert_eq!(bar.show_sharp(), "C7 [C, E, G, A#] _ G");
    assert_eq!(bar.show_flat(), "C7 [C, E, G, Bb] _ G");
}

#[test]
fn empty_bar_shows_nothing() {
    let bar = Bar::default();
    assert_eq!(bar.show(), "");
}
