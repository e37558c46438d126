//! The diminished seventh chord, as its own quality struct.

use vstd::prelude::*;

use crate::chord::{spec_show_quality_debug, InnerChord};
use crate::chords::{spec_show_chord, spec_show_chord_flat, spec_show_chord_sharp};
use crate::note::{lemma_sum3, spec_base, spec_step_offsets, Note};

verus! {

/// The diminished seventh chord: steps `[3, 3, 3]`, shown with the suffix `dim7`.
pub struct Diminished7(pub InnerChord);

impl Diminished7 {
    /// Builds the diminished seventh chord on `root`.
    pub fn new(root: Note) -> (r: Diminished7)
        requires
            root@ + 9 <= i8::MAX,
        ensures
            r.0.spec_offsets() == spec_step_offsets(root@, seq![3int, 3, 3]),
    {
        let steps: Vec<u8> = vec![3, 3, 3];
        proof {
            assert(steps@.map_values(|x: u8| x as int) =~= seq![3int, 3, 3]);
            lemma_sum3(3, 3, 3);
        }
        Diminished7(InnerChord::with_steps(root, &steps))
    }

    /// The root: the first member note.
    pub fn root(&self) -> (r: Note)
        requires
            self.0.spec_notes().len() > 0,
        ensures
            r@ == self.0.spec_offsets()[0],
    {
        self.0.root()
    }

    /// The number of member notes.
    pub fn len(&self) -> (r: usize)
        ensures
            r == self.0.spec_notes().len(),
    {
        self.0.len()
    }

    /// Whether the chord holds no notes; never true for a chord built by
    /// `new`.
    pub fn is_empty(&self) -> (r: bool)
        ensures
            r == (self.0.spec_notes().len() == 0),
    {
        self.0.is_empty()
    }

    /// The member notes, handed out as an owned list.
    pub fn into_notes(self) -> (r: Vec<Note>)
        ensures
            r@ == self.0.spec_notes(),
    {
        self.0.into_notes()
    }

    /// Every member note moved one octave up; the pitch-class content is
    /// unchanged.
    pub fn up_one_octave(self) -> (r: Diminished7)
        requires
            forall|i: int|
                0 <= i < self.0.spec_offsets().len() ==> #[trigger] self.0.spec_offsets()[i] + 12
                    <= i8::MAX,
        ensures
            r.0.spec_offsets().len() == self.0.spec_offsets().len(),
            forall|i: int|
                0 <= i < r.0.spec_offsets().len() ==> #[trigger] r.0.spec_offsets()[i]
                    == self.0.spec_offsets()[i] + 12,
            forall|i: int|
                0 <= i < r.0.spec_offsets().len() ==> spec_base(#[trigger] r.0.spec_offsets()[i])
                    == spec_base(self.0.spec_offsets()[i]),
    {
        Diminished7(self.0.up_one_octave())
    }

    /// Every member note moved one octave down; the pitch-class content
    /// is unchanged.
    pub fn down_one_octave(self) -> (r: Diminished7)
        requires
            forall|i: int|
                0 <= i < self.0.spec_offsets().len() ==> #[trigger] self.0.spec_offsets()[i] - 12
                    >= i8::MIN,
        ensures
            r.0.spec_offsets().len() == self.0.spec_offsets().len(),
            forall|i: int|
                0 <= i < r.0.spec_offsets().len() ==> #[trigger] r.0.spec_offsets()[i]
                    == self.0.spec_offsets()[i] - 12,
            forall|i: int|
                0 <= i < r.0.spec_offsets().len() ==> spec_base(#[trigger] r.0.spec_offsets()[i])
                    == spec_base(self.0.spec_offsets()[i]),
    {
        Diminished7(self.0.down_one_octave())
    }

    /// The display form: the folded root's sharp name, then `dim7`.
    pub fn show(&self) -> (r: String)
        requires
            self.0.spec_notes().len() > 0,
        ensures
            r@ == spec_show_chord(seq!['d', 'i', 'm', '7'], self.0.spec_offsets()),
    {
        proof {
            reveal_strlit("dim7");
            assert("dim7"@ =~= seq!['d', 'i', 'm', '7']);
        }
        let root = self.root();
        let mut s = String::from_str(root.show_sharp());
        s.append("dim7");
        proof {
            assert(s@ =~= spec_show_chord(seq!['d', 'i', 'm', '7'], self.0.spec_offsets()));
        }
        s
    }

    /// The debug form: the quality label `dim7`, the root's debug
    /// form, and every member's debug form.
    pub fn show_debug(&self) -> (r: String)
        requires
            self.0.spec_notes().len() > 0,
        ensures
            r@ == spec_show_quality_debug(seq!['d', 'i', 'm', '7'], self.0.spec_offsets()),
    {
        proof {
            reveal_strlit("Chord: ");
            reveal_strlit("dim7");
            reveal_strlit(", ");
            reveal_strlit(", [");
            reveal_strlit("]");
        }
        let mut s = String::from_str("Chord: ");
        s.append("dim7");
        s.append(", ");
        s.append(self.root().show_debug().as_str());
        s.append(", [");
        s.append(self.0.notes_debug().as_str());
        s.append("]");
        proof {
            assert(s@ =~= spec_show_quality_debug(seq!['d', 'i', 'm', '7'], self.0.spec_offsets()));
        }
        s
    }

    /// The sharp-enumerated form, display form plus the bracketed member
    /// list in sharp spelling.
    pub fn show_sharp(&self) -> (r: String)
        requires
            self.0.spec_notes().len() > 0,
        ensures
            r@ == spec_show_chord_sharp(seq!['d', 'i', 'm', '7'], self.0.spec_offsets()),
    {
        proof {
            reveal_strlit(" [");
            reveal_strlit("]");
        }
        let mut s = self.show();
        s.append(" [");
        s.append(self.0.notes_upper_hex().as_str());
        s.append("]");
        proof {
            assert(s@ =~= spec_show_chord_sharp(seq!['d', 'i', 'm', '7'], self.0.spec_offsets()));
        }
        s
    }

    /// The flat-enumerated form, display form plus the bracketed member
    /// list in flat spelling.
    pub fn show_flat(&self) -> (r: String)
        requires
            self.0.spec_notes().len() > 0,
        ensures
            r@ == spec_show_chord_flat(seq!['d', 'i', 'm', '7'], self.0.spec_offsets()),
    {
        proof {
            reveal_strlit(" [");
            reveal_strlit("]");
        }
        let mut s = self.show();
        s.append(" [");
        s.append(self.0.notes_lower_hex().as_str());
        s.append("]");
        proof {
            assert(s@ =~= spec_show_chord_flat(seq!['d', 'i', 'm', '7'], self.0.spec_offsets()));
        }
        s
    }
}

} // verus!
