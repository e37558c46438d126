use musika_rs::chords::{
    dim, dim7, dom11, dom13, dom7, dom7b5, dom7s5, dom9, maj, maj11, maj13, maj7, maj9, min,
    min11, min13, min7, min7b5, min9, Chords,
};
use musika_rs::{a, c, e, g};

#[test]
fn major_test_maj() {
    let chord = maj(c());
    assert_eq!(chord.show_sharp(), "C [C, E, G]")
}

#[test]
fn major_test_maj7() {
    let chord = maj7(c());
    assert_eq!(chord.show_sharp(), "Cmaj7 [C, E, G, B]")
}

#[test]
fn major_test_maj9() {
    let chord = maj9(c());
    assert_eq!(chord.show_sharp(), "Cmaj9 [C, E, G, B, D]")
}

#[test]
fn major_test_maj11() {
    let chord = maj11(c());
    assert_eq!(chord.show_sharp(), "Cmaj11 [C, E, G, B, D, F]")
}

#[test]
fn major_test_maj13() {
    let chord = maj13(c());
    assert_eq!(chord.show_sharp(), "Cmaj13 [C, E, G, B, D, F, A]")
}

#[test]
fn test_min() {
    let chord = min(c());
    assert_eq!(chord.show_sharp(), "Cm [C, D#, G]");
    assert_eq!(chord.show_flat(), "Cm [C, Eb, G]");
}

#[test]
fn test_min7() {
    let chord = min7(c());
    assert_eq!(chord.show_sharp(), "Cm7 [C, D#, G, A#]");
    assert_eq!(chord.show_flat(), "Cm7 [C, Eb, G, Bb]")
}

#[test]
fn test_min7b5() {
    let chord = min7b5(c());
    assert_eq!(chord.show_sharp(), "Cm7(b5) [C, D#, F#, A#]");
    assert_eq!(chord.show_flat(), "Cm7(b5) [C, Eb, Gb, Bb]")
}

#[test]
fn test_min9() {
    let chord = min9(c());
    assert_eq!(chord.show_sharp(), "Cm9 [C, D#, G, A#, D]");
    assert_eq!(chord.show_flat(), "Cm9 [C, Eb, G, Bb, D]")
}

#[test]
fn test_min11() {
    let chord = min11(c());
    assert_eq!(chord.show_sharp(), "Cm11 [C, D#, G, A#, D, F]");
    assert_eq!(chord.show_flat(), "Cm11 [C, Eb, G, Bb, D, F]")
}

#[test]
fn test_min13() {
    let chord = min13(c());
    assert_eq!(chord.show_sharp(), "Cm13 [C, D#, G, A#, D, F, A]");
    assert_eq!(chord.show_flat(), "Cm13 [C, Eb, G, Bb, D, F, A]")
}

#[test]
fn test_dom7() {
    let chord = dom7(c());
    assert_eq!(chord.show_sharp(), "C7 [C, E, G, A#]");
    assert_eq!(chord.show_flat(), "C7 [C, E, G, Bb]");
}

#[test]
fn test_dom7b5() {
    let chord = dom7b5(c());
    assert_eq!(chord.show_sharp(), "C7b5 [C, E, F#, A#]");
    assert_eq!(chord.show_flat(), "C7b5 [C, E, Gb, Bb]");
}

#[test]
fn test_dom7s5() {
    let chord = dom7s5(c());
    assert_eq!(chord.show_sharp(), "C7#5 [C, E, G#, A#]");
    assert_eq!(chord.show_flat(), "C7#5 [C, E, Ab, Bb]");
}

#[test]
fn test_dom9() {
    let chord = dom9(c());
    assert_eq!(chord.show_sharp(), "C9 [C, E, G, A#, D]");
    assert_eq!(chord.show_flat(), "C9 [C, E, G, Bb, D]");
}

#[test]
fn test_dom11() {
    let chord = dom11(c());
    assert_eq!(chord.show_sharp(), "C11 [C, E, G, A#, D, F]");
    assert_eq!(chord.show_flat(), "C11 [C, E, G, Bb, D, F]");
}

#[test]
fn test_dom13() {
    let chord = dom13(c());
    assert_eq!(chord.show_sharp(), "C13 [C, E, G, A#, D, F, A]");
    assert_eq!(chord.show_flat(), "C13 [C, E, G, Bb, D, F, A]");
}

#[test]
fn diminished_test_dim() {
    let chord = dim(c());
    assert_eq!(chord.show_sharp(), "Cdim [C, D#, F#]");
    assert_eq!(chord.show_flat(), "Cdim [C, Eb, Gb]");
}

#[test]
fn diminished_test_dim7() {
    let chord = dim7(c());
    assert_eq!(chord.show_sharp(), "Cdim7 [C, D#, F#, A]");
    assert_eq!(chord.show_flat(), "Cdim7 [C, Eb, Gb, A]");
}

#[test]
fn find_notes() {
    let notes = vec![c(), e(), g()];
    let res = Chords::find_contain_notes(c(), &notes);
    assert!(!res.is_empty());
}

#[test]
fn dom13b9b13_renders() {
    let chord = musika_rs::chords::dom13b9b13(c());
    assert_eq!(chord.show_sharp(), "C13b9b13 [C, E, G, A#, C#, F, G#]");
    assert_eq!(chord.show_flat(), "C13b9b13 [C, E, G, Bb, Db, F, Ab]");
}

#[test]
fn constructors_keep_root_and_length() {
    let cases: Vec<(Chords, usize)> = vec![
        (maj(c()), 3),
        (maj7(c()), 4),
        (maj9(c()), 5),
        (maj11(c()), 6),
        (maj13(c()), 7),
        (min(c()), 3),
        (min7(c()), 4),
        (min7b5(c()), 4),
        (min9(c()), 5),
        (min11(c()), 6),
        (min13(c()), 7),
        (dom7(c()), 4),
        (dom7b5(c()), 4),
        (dom7s5(c()), 4),
        (dom9(c()), 5),
        (dom11(c()), 6),
        (dom13(c()), 7),
        (musika_rs::chords::dom13b9b13(c()), 7),
        (dim(c()), 3),
        (dim7(c()), 4),
    ];
    for (chord, len) in cases {
        assert_eq!(chord.root(), c());
        assert_eq!(chord.len(), len);
        assert!(!chord.is_empty());
    }
}

#[test]
fn empty_query_returns_the_full_catalog() {
    let res = Chords::find_contain_notes(a(), &Vec::new());
    assert_eq!(res.len(), 20);
    let all = Chords::all_chords(a());
    assert_eq!(all.len(), 20);
    for (found, catalog) in res.iter().zip(all.iter()) {
        assert_eq!(found.show_sharp(), catalog.show_sharp());
    }
}

#[test]
fn finder_never_omits_a_matching_chord() {
    let query = vec![e()];
    let res = Chords::find_contain_notes(c(), &query);
    for chord in Chords::all_chords(c()) {
        if chord.contains_notes(&query) {
            let shown = chord.show_sharp();
            assert!(res.iter().any(|r| r.show_sharp() == shown));
        }
    }
}

#[test]
fn find_a_rooted_chords_containing_c_e_g() {
    let query = vec![c(), e(), g()];
    let res = Chords::find_contain_notes(a(), &query);
    for chord in &res {
        assert!(chord.contains_notes(&query));
    }
    let all = Chords::all_chords(a());
    let matching = all.iter().filter(|ch| ch.contains_notes(&query)).count();
    assert_eq!(res.len(), matching);
}

#[test]
fn find_accepts_a_caller_predicate() {
    let res = Chords::find(c(), |chord: &Chords| chord.len() == 3);
    assert_eq!(res.len(), 3);
    assert_eq!(res[0].show_sharp(), "C [C, E, G]");
    assert_eq!(res[1].show_sharp(), "Cm [C, D#, G]");
    assert_eq!(res[2].show_sharp(), "Cdim [C, D#, F#]");
}

#[test]
fn chord_octave_shift_keeps_pitch_classes() {
    let chord = maj(c());
    let up = chord.up_one_octave();
    let base_of = |ch: &Chords| -> Vec<musika_rs::Note> {
        ch.notes().iter().map(|n| n.base()).collect()
    };
    assert_eq!(base_of(&chord), base_of(&up));
    assert_eq!(base_of(&chord), base_of(&up.down_one_octave().down_one_octave()));
    assert_eq!(up.show_sharp(), "C [C, E, G]");
}

#[test]
fn as_steps_recovers_the_step_list() {
    let chord = maj7(c());
    let steps: Vec<u8> = chord.as_steps().into_iter().map(u8::from).collect();
    assert_eq!(steps, vec![4, 3, 4]);
}

#[test]
fn builder_methods_match_free_constructors() {
    assert_eq!(c().maj().show_sharp(), maj(c()).show_sharp());
    assert_eq!(c().min7().show_sharp(), min7(c()).show_sharp());
    assert_eq!(c().dom9().show_flat(), dom9(c()).show_flat());
    assert_eq!(c().dim7().show_sharp(), dim7(c()).show_sharp());
    assert_eq!(c().major_chords().len(), 5);
    assert_eq!(c().minor_chords().len(), 6);
    assert_eq!(c().dominant_chords().len(), 7);
    assert_eq!(c().dimished_chords().len(), 2);
    assert_eq!(c().all_chords().len(), 20);
}

#[test]
fn d_minor7_renders_sharp() {
    let chord = musika_rs::d().min7();
    assert_eq!(chord.show_sharp(), "Dm7 [D, F, A, C]");
}

#[test]
fn a_diminished_renders_sharp() {
    let chord = musika_rs::a().dim();
    assert_eq!(chord.show_sharp(), "Adim [A, C, D#]");
}

#[test]
fn c_dominant7_renders_flat() {
    let chord = musika_rs::c().dom7();
    assert_eq!(chord.show_flat(), "C7 [C, E, G, Bb]");
}
