//! Bars: beat-separated display lines of chords, notes and silences.

use vstd::prelude::*;

use crate::chords::{spec_show_chord, spec_show_chord_flat, spec_show_chord_sharp, Chords};
use crate::note::{spec_pitch_class, spec_flat_name, spec_sharp_name, Note};
use crate::text::{join_strs, spec_join};

verus! {

/// One slot of a bar: a chord, a single note or a silence, each carrying
/// an opaque duration fraction.
pub enum BarElement {
    Silence(u8),
    Chord(Chords, u8),
    Note(Note, u8),
}

impl BarElement {
    /// Whether this element can be rendered: a chord slot must hold at
    /// least its root.
    pub open spec fn spec_wf(&self) -> bool {
        match self {
            BarElement::Chord(chord, _) => chord.spec_notes().len() > 0,
            _ => true,
        }
    }

    /// The display form of this element.
    pub open spec fn spec_show(&self) -> Seq<char> {
        match self {
            BarElement::Silence(_) => seq!['_'],
            BarElement::Chord(chord, _) => spec_show_chord(
                chord.spec_name(),
                chord.spec_offsets(),
            ),
            BarElement::Note(note, _) => spec_sharp_name(spec_pitch_class(note@)),
        }
    }

    /// The sharp-enumerated form of this element.
    pub open spec fn spec_show_sharp(&self) -> Seq<char> {
        match self {
            BarElement::Silence(_) => seq!['_'],
            BarElement::Chord(chord, _) => spec_show_chord_sharp(
                chord.spec_name(),
                chord.spec_offsets(),
            ),
            BarElement::Note(note, _) => spec_sharp_name(spec_pitch_class(note@)),
        }
    }

    /// The flat-enumerated form of this element.
    pub open spec fn spec_show_flat(&self) -> Seq<char> {
        match self {
            BarElement::Silence(_) => seq!['_'],
            BarElement::Chord(chord, _) => spec_show_chord_flat(
                chord.spec_name(),
                chord.spec_offsets(),
            ),
            BarElement::Note(note, _) => spec_flat_name(spec_pitch_class(note@)),
        }
    }

    /// Renders the element in display form: `_` for a silence, the chord
    /// or note name otherwise.
    pub fn show(&self) -> (r: String)
        requires
            self.spec_wf(),
        ensures
            r@ == self.spec_show(),
    {
        match self {
            BarElement::Silence(_) => {
                proof {
                    reveal_strlit("_");
                }
                let s = String::from_str("_");
                proof {
                    assert(s@ =~= seq!['_']);
                }
                s
            },
            BarElement::Chord(chord, _) => chord.show(),
            BarElement::Note(note, _) => String::from_str(note.show_sharp()),
        }
    }

    /// Renders the element in sharp-enumerated form.
    pub fn show_sharp(&self) -> (r: String)
        requires
            self.spec_wf(),
        ensures
            r@ == self.spec_show_sharp(),
    {
        match self {
            BarElement::Silence(_) => {
                proof {
                    reveal_strlit("_");
                }
                let s = String::from_str("_");
                proof {
                    assert(s@ =~= seq!['_']);
                }
                s
            },
            BarElement::Chord(chord, _) => chord.show_sharp(),
            BarElement::Note(note, _) => String::from_str(note.show_sharp()),
        }
    }

    /// Renders the element in flat-enumerated form.
    pub fn show_flat(&self) -> (r: String)
        requires
            self.spec_wf(),
        ensures
            r@ == self.spec_show_flat(),
    {
        match self {
            BarElement::Silence(_) => {
                proof {
                    reveal_strlit("_");
                }
                let s = String::from_str("_");
                proof {
                    assert(s@ =~= seq!['_']);
                }
                s
            },
            BarElement::Chord(chord, _) => chord.show_flat(),
            BarElement::Note(note, _) => String::from_str(note.show_flat()),
        }
    }
}

/// A bar: an ordered list of elements, joined by single spaces when
/// rendered.  The duration fractions are carried, never interpreted.
pub struct Bar(pub Vec<BarElement>);

impl Bar {
    /// Whether every element of the bar can be rendered.
    pub open spec fn spec_wf(&self) -> bool {
        forall|i: int| 0 <= i < self.0@.len() ==> (#[trigger] self.0@[i]).spec_wf()
    }

    /// The empty bar.
    pub fn new() -> (r: Bar)
        ensures
            r.0@.len() == 0,
            r.spec_wf(),
    {
        Bar(Vec::new())
    }

    /// The bar extended by a chord slot with the given duration
    /// fraction.
    pub fn with_chord(self, chord: Chords, fraction: u8) -> (r: Bar)
        requires
            chord.spec_notes().len() > 0,
        ensures
            r.0@ == self.0@.push(BarElement::Chord(chord, fraction)),
            self.spec_wf() ==> r.spec_wf(),
    {
        let mut items = self.0;
        items.push(BarElement::Chord(chord, fraction));
        let r = Bar(items);
        proof {
            if self.spec_wf() {
                assert forall|i: int| 0 <= i < r.0@.len() implies (
                #[trigger] r.0@[i]).spec_wf() by {
                    if i < self.0@.len() {
                        assert(r.0@[i] == self.0@[i]);
                    }
                }
            }
        }
        r
    }

    /// The bar extended by a single-note slot with the given duration
    /// fraction.
    pub fn with_note(self, note: Note, fraction: u8) -> (r: Bar)
        ensures
            r.0@ == self.0@.push(BarElement::Note(note, fraction)),
            self.spec_wf() ==> r.spec_wf(),
    {
        let mut items = self.0;
        items.push(BarElement::Note(note, fraction));
        let r = Bar(items);
        proof {
            if self.spec_wf() {
                assert forall|i: int| 0 <= i < r.0@.len() implies (
                #[trigger] r.0@[i]).spec_wf() by {
                    if i < self.0@.len() {
                        assert(r.0@[i] == self.0@[i]);
                    }
                }
            }
        }
        r
    }

    /// The bar extended by a silence slot with the given duration
    /// fraction.
    pub fn with_silence(self, fraction: u8) -> (r: Bar)
        ensures
            r.0@ == self.0@.push(BarElement::Silence(fraction)),
            self.spec_wf() ==> r.spec_wf(),
    {
        let mut items = self.0;
        items.push(BarElement::Silence(fraction));
        let r = Bar(items);
        proof {
            if self.spec_wf() {
                assert forall|i: int| 0 <= i < r.0@.len() implies (
                #[trigger] r.0@[i]).spec_wf() by {
                    if i < self.0@.len() {
                        assert(r.0@[i] == self.0@[i]);
                    }
                }
            }
        }
        r
    }

    /// Renders the bar in display form: each element's display form,
    /// space-separated.
    pub fn show(&self) -> (r: String)
        requires
            self.spec_wf(),
        ensures
            r@ == spec_join(
                self.0@.map_values(|e: BarElement| e.spec_show()),
                seq![' '],
            ),
    {
        let mut parts: Vec<String> = Vec::new();
        let mut i: usize = 0;
        while i < self.0.len()
            invariant
                i <= self.0@.len(),
                self.spec_wf(),
                parts@.len() == i,
                forall|j: int|
                    0 <= j < i ==> #[trigger] parts@[j]@ == self.0@[j].spec_show(),
            decreases self.0@.len() - i,
        {
            parts.push(self.0[i].show());
            i += 1;
        }
        proof {
            reveal_strlit(" ");
            assert(" "@ =~= seq![' ']);
            assert(parts@.map_values(|s: String| s@) =~= self.0@.map_values(
                |e: BarElement| e.spec_show(),
            ));
        }
        join_strs(&parts, " ")
    }

    /// Renders the bar in sharp-enumerated form.
    pub fn show_sharp(&self) -> (r: String)
        requires
            self.spec_wf(),
        ensures
            r@ == spec_join(
                self.0@.map_values(|e: BarElement| e.spec_show_sharp()),
                seq![' '],
            ),
    {
        let mut parts: Vec<String> = Vec::new();
        let mut i: usize = 0;
        while i < self.0.len()
            invariant
                i <= self.0@.len(),
                self.spec_wf(),
                parts@.len() == i,
                forall|j: int|
                    0 <= j < i ==> #[trigger] parts@[j]@ == self.0@[j].spec_show_sharp(),
            decreases self.0@.len() - i,
        {
            parts.push(self.0[i].show_sharp());
            i += 1;
        }
        proof {
            reveal_strlit(" ");
            assert(" "@ =~= seq![' ']);
            assert(parts@.map_values(|s: String| s@) =~= self.0@.map_values(
                |e: BarElement| e.spec_show_sharp(),
            ));
        }
        join_strs(&parts, " ")
    }

    /// Renders the bar in flat-enumerated form.
    pub fn show_flat(&self) -> (r: String)
        requires
            self.spec_wf(),
        ensures
            r@ == spec_join(
                self.0@.map_values(|e: BarElement| e.spec_show_flat()),
                seq![' '],
            ),
    {
        let mut parts: Vec<String> = Vec::new();
        let mut i: usize = 0;
        while i < self.0.len()
            invariant
                i <= self.0@.len(),
                self.spec_wf(),
                parts@.len() == i,
                forall|j: int|
                    0 <= j < i ==> #[trigger] parts@[j]@ == self.0@[j].spec_show_flat(),
            decreases self.0@.len() - i,
        {
            parts.push(self.0[i].show_flat());
            i += 1;
        }
        proof {
            reveal_strlit(" ");
            assert(" "@ =~= seq![' ']);
            assert(parts@.map_values(|s: String| s@) =~= self.0@.map_values(
                |e: BarElement| e.spec_show_flat(),
            ));
        }
        join_strs(&parts, " ")
    }
}

impl Default for Bar {
    /// The empty bar.
    fn default() -> (r: Bar)
        ensures
            r.0@.len() == 0,
    {
        Bar::new()
    }
}

} // verus!
