//! The per-quality chord API: one struct per chord quality, sharing one
//! inner note list.

use vstd::prelude::*;

use crate::note::{
    note_list_debug, note_list_flat, note_list_sharp, shift_notes_down, shift_notes_up,
    spec_base, spec_note_list_debug, spec_note_list_flat, spec_note_list_sharp,
    spec_show_note_debug, spec_step_offsets, spec_sum, step_notes, Note,
};

mod diminished;
mod diminished7;
mod dominant7;
mod dominant9;
mod major;
mod major7;
mod major9;
mod minor;
mod minor7;
mod minor7b5;
mod minor9;

pub use diminished::Diminished;
pub use diminished7::Diminished7;
pub use dominant7::Dominant7;
pub use dominant9::Dominant9;
pub use major::Major;
pub use major7::Major7;
pub use major9::Major9;
pub use minor::Minor;
pub use minor7::Minor7;
pub use minor7b5::Minor7b5;
pub use minor9::Minor9;

verus! {

/// The shared body of every quality struct: the materialized note list,
/// root first, later notes accumulated from the step list without
/// folding.
pub struct InnerChord(pub Vec<Note>);

/// The debug form of a quality chord: the quality label, the folded
/// root's debug form, and the bracketed debug forms of every member.
pub open spec fn spec_show_quality_debug(label: Seq<char>, offs: Seq<int>) -> Seq<char> {
    seq!['C', 'h', 'o', 'r', 'd', ':', ' '] + label + seq![',', ' '] + spec_show_note_debug(
        offs[0],
    ) + seq![',', ' ', '['] + spec_note_list_debug(offs) + seq![']']
}

impl InnerChord {
    /// The member notes.
    pub open spec fn spec_notes(&self) -> Seq<Note> {
        self.0@
    }

    /// The raw offsets of the member notes.
    pub open spec fn spec_offsets(&self) -> Seq<int> {
        self.0@.map_values(|n: Note| n@)
    }

    /// Materializes the walk of `steps` upward from `root`.
    pub fn with_steps(root: Note, steps: &Vec<u8>) -> (r: InnerChord)
        requires
            root@ + spec_sum(steps@.map_values(|x: u8| x as int)) <= i8::MAX,
        ensures
            r.spec_offsets() == spec_step_offsets(root@, steps@.map_values(|x: u8| x as int)),
    {
        InnerChord(step_notes(root, steps))
    }

    /// The root: the first member note.
    pub fn root(&self) -> (r: Note)
        requires
            self.spec_notes().len() > 0,
        ensures
            r@ == self.spec_offsets()[0],
    {
        self.0[0]
    }

    /// The number of member notes.
    pub fn len(&self) -> (r: usize)
        ensures
            r == self.spec_notes().len(),
    {
        self.0.len()
    }

    /// Whether the chord holds no notes; never true for a chord built by
    /// `with_steps`.
    pub fn is_empty(&self) -> (r: bool)
        ensures
            r == (self.spec_notes().len() == 0),
    {
        self.0.len() == 0
    }

    /// The member notes, handed out as an owned list.
    pub fn into_notes(self) -> (r: Vec<Note>)
        ensures
            r@ == self.spec_notes(),
    {
        self.0
    }

    /// The member notes.
    pub fn notes(&self) -> (r: &Vec<Note>)
        ensures
            r@ == self.spec_notes(),
    {
        &self.0
    }

    /// Every member note moved one octave up; the pitch-class content is
    /// unchanged.
    pub fn up_one_octave(self) -> (r: InnerChord)
        requires
            forall|i: int|
                0 <= i < self.spec_offsets().len() ==> #[trigger] self.spec_offsets()[i] + 12
                    <= i8::MAX,
        ensures
            r.spec_offsets().len() == self.spec_offsets().len(),
            forall|i: int|
                0 <= i < r.spec_offsets().len() ==> #[trigger] r.spec_offsets()[i]
                    == self.spec_offsets()[i] + 12,
            forall|i: int|
                0 <= i < r.spec_offsets().len() ==> spec_base(#[trigger] r.spec_offsets()[i])
                    == spec_base(self.spec_offsets()[i]),
    {
        proof {
            assert forall|i: int| 0 <= i < self.0@.len() implies #[trigger] self.0@[i]@ + 12
                <= i8::MAX by {
                assert(self.spec_offsets()[i] == self.0@[i]@);
            }
        }
        InnerChord(shift_notes_up(&self.0))
    }

    /// Every member note moved one octave down; the pitch-class content
    /// is unchanged.
    pub fn down_one_octave(self) -> (r: InnerChord)
        requires
            forall|i: int|
                0 <= i < self.spec_offsets().len() ==> #[trigger] self.spec_offsets()[i] - 12
                    >= i8::MIN,
        ensures
            r.spec_offsets().len() == self.spec_offsets().len(),
            forall|i: int|
                0 <= i < r.spec_offsets().len() ==> #[trigger] r.spec_offsets()[i]
                    == self.spec_offsets()[i] - 12,
            forall|i: int|
                0 <= i < r.spec_offsets().len() ==> spec_base(#[trigger] r.spec_offsets()[i])
                    == spec_base(self.spec_offsets()[i]),
    {
        proof {
            assert forall|i: int| 0 <= i < self.0@.len() implies #[trigger] self.0@[i]@ - 12
                >= i8::MIN by {
                assert(self.spec_offsets()[i] == self.0@[i]@);
            }
        }
        InnerChord(shift_notes_down(&self.0))
    }

    /// The comma-joined member list in debug form.
    pub fn notes_debug(&self) -> (r: String)
        ensures
            r@ == spec_note_list_debug(self.spec_offsets()),
    {
        note_list_debug(&self.0)
    }

    /// The comma-joined member list in sharp spelling.
    pub fn notes_upper_hex(&self) -> (r: String)
        ensures
            r@ == spec_note_list_sharp(self.spec_offsets()),
    {
        note_list_sharp(&self.0)
    }

    /// The comma-joined member list in flat spelling.
    pub fn notes_lower_hex(&self) -> (r: String)
        ensures
            r@ == spec_note_list_flat(self.spec_offsets()),
    {
        note_list_flat(&self.0)
    }
}

} // verus!
