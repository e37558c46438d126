//! Scales: named note sequences generated from a tonic and a step list.

use vstd::prelude::*;

use crate::note::{
    note_list_flat, note_list_sharp, shift_notes_down, shift_notes_up, spec_base,
    spec_note_list_flat, spec_note_list_sharp, spec_pitch_class, spec_sharp_name,
    spec_step_offsets, spec_sum, step_notes, Note,
};
use crate::tone::Tone;

mod major;
mod minor;

pub use major::{major, spec_major_scale_desc};
pub use minor::{minor, pentatonic_minor, spec_minor_scale_desc, spec_penta_minor_scale_desc};

verus! {

/// A scale: a display name and the materialized note sequence, tagged as
/// major or minor family.  The first note is the tonic exactly as the
/// constructor received it; later notes accumulate the step list without
/// folding.
pub enum Scales {
    Major(&'static str, Vec<Note>),
    Minor(&'static str, Vec<Note>),
}

impl Scales {
    /// The display name of this scale.
    pub open spec fn spec_name(&self) -> Seq<char> {
        match self {
            Scales::Major(name, _) => name@,
            Scales::Minor(name, _) => name@,
        }
    }

    /// The member notes of this scale.
    pub open spec fn spec_notes(&self) -> Seq<Note> {
        match self {
            Scales::Major(_, notes) => notes@,
            Scales::Minor(_, notes) => notes@,
        }
    }

    /// The raw offsets of the member notes.
    pub open spec fn spec_offsets(&self) -> Seq<int> {
        self.spec_notes().map_values(|n: Note| n@)
    }

    /// Whether this scale is tagged as major.
    pub open spec fn spec_is_major(&self) -> bool {
        match self {
            Scales::Major(_, _) => true,
            Scales::Minor(_, _) => false,
        }
    }

    /// Everything a scale shows: family flag, name and member offsets.
    pub open spec fn spec_desc(&self) -> (bool, Seq<char>, Seq<int>) {
        (self.spec_is_major(), self.spec_name(), self.spec_offsets())
    }

    /// Builds a major-family scale from a tonic and a step list.
    pub(crate) fn major_with_steps(name: &'static str, tonic: Note, steps: &Vec<u8>) -> (s:
        Scales)
        requires
            tonic@ + spec_sum(steps@.map_values(|x: u8| x as int)) <= i8::MAX,
        ensures
            s.spec_desc() == (
                true,
                name@,
                spec_step_offsets(tonic@, steps@.map_values(|x: u8| x as int)),
            ),
    {
        Scales::Major(name, step_notes(tonic, steps))
    }

    /// Builds a minor-family scale from a tonic and a step list.
    pub(crate) fn minor_with_steps(name: &'static str, tonic: Note, steps: &Vec<u8>) -> (s:
        Scales)
        requires
            tonic@ + spec_sum(steps@.map_values(|x: u8| x as int)) <= i8::MAX,
        ensures
            s.spec_desc() == (
                false,
                name@,
                spec_step_offsets(tonic@, steps@.map_values(|x: u8| x as int)),
            ),
    {
        Scales::Minor(name, step_notes(tonic, steps))
    }

    /// The member notes.
    pub fn notes(&self) -> (r: &Vec<Note>)
        ensures
            r@ == self.spec_notes(),
    {
        match self {
            Scales::Major(_, notes) => notes,
            Scales::Minor(_, notes) => notes,
        }
    }

    /// The display name.
    pub fn name(&self) -> (r: &'static str)
        ensures
            r@ == self.spec_name(),
    {
        match self {
            Scales::Major(name, _) => name,
            Scales::Minor(name, _) => name,
        }
    }

    /// The number of member notes.
    pub fn len(&self) -> (r: usize)
        ensures
            r == self.spec_notes().len(),
    {
        self.notes().len()
    }

    /// Whether the scale holds no notes; never true for a scale built by
    /// a constructor.
    pub fn is_empty(&self) -> (r: bool)
        ensures
            r == (self.spec_notes().len() == 0),
    {
        self.len() == 0
    }

    /// The tonic: the first member note.
    pub fn tonic(&self) -> (r: Note)
        requires
            self.spec_notes().len() > 0,
        ensures
            r@ == self.spec_offsets()[0],
    {
        self.notes()[0]
    }

    /// The absolute semitone distances between neighbouring members.
    pub fn as_steps(&self) -> (r: Vec<Tone>)
        ensures
            r@.len() + 1 == self.spec_notes().len() || (self.spec_notes().len() == 0 && r@.len()
                == 0),
            forall|i: int|
                0 <= i < r@.len() ==> #[trigger] r@[i]@ == vstd::math::abs(
                    self.spec_offsets()[i] - self.spec_offsets()[i + 1],
                ),
    {
        let notes = self.notes();
        let mut r: Vec<Tone> = Vec::new();
        if notes.len() == 0 {
            return r;
        }
        let mut i: usize = 1;
        while i < notes.len()
            invariant
                1 <= i <= notes@.len(),
                notes@ == self.spec_notes(),
                r@.len() == i - 1,
                forall|j: int|
                    0 <= j < r@.len() ==> #[trigger] r@[j]@ == vstd::math::abs(
                        self.spec_offsets()[j] - self.spec_offsets()[j + 1],
                    ),
            decreases notes@.len() - i,
        {
            let d: i16 = notes[i - 1].0 as i16 - notes[i].0 as i16;
            let t: Tone = if d < 0 {
                Tone((-d) as u8)
            } else {
                Tone(d as u8)
            };
            r.push(t);
            i += 1;
        }
        r
    }

    /// The comma-joined member list in sharp spelling.
    pub fn notes_upper_hex(&self) -> (r: String)
        ensures
            r@ == spec_note_list_sharp(self.spec_offsets()),
    {
        note_list_sharp(self.notes())
    }

    /// The comma-joined member list in flat spelling.
    pub fn notes_lower_hex(&self) -> (r: String)
        ensures
            r@ == spec_note_list_flat(self.spec_offsets()),
    {
        note_list_flat(self.notes())
    }

    /// The display form: the folded tonic's sharp name, then the scale
    /// name, e.g. `C major`.
    pub fn show(&self) -> (r: String)
        requires
            self.spec_notes().len() > 0,
        ensures
            r@ == spec_show_scale(self.spec_name(), self.spec_offsets()),
    {
        let tonic = self.tonic();
        let mut s = String::from_str(tonic.show_sharp());
        s.append(self.name());
        s
    }

    /// The sharp-enumerated form, e.g. `C major [C, D, E, F, G, A, B,
    /// C]`.
    pub fn show_sharp(&self) -> (r: String)
        requires
            self.spec_notes().len() > 0,
        ensures
            r@ == spec_show_scale(self.spec_name(), self.spec_offsets()) + seq![' ', '[']
                + spec_note_list_sharp(self.spec_offsets()) + seq![']'],
    {
        proof {
            reveal_strlit(" [");
            reveal_strlit("]");
        }
        let mut s = self.show();
        s.append(" [");
        s.append(self.notes_upper_hex().as_str());
        s.append("]");
        proof {
            assert(s@ =~= spec_show_scale(self.spec_name(), self.spec_offsets()) + seq![' ', '[']
                + spec_note_list_sharp(self.spec_offsets()) + seq![']']);
        }
        s
    }

    /// The flat-enumerated form, e.g. `C minor [C, D, Eb, F, G, Ab, Bb,
    /// C]`.
    pub fn show_flat(&self) -> (r: String)
        requires
            self.spec_notes().len() > 0,
        ensures
            r@ == spec_show_scale(self.spec_name(), self.spec_offsets()) + seq![' ', '[']
                + spec_note_list_flat(self.spec_offsets()) + seq![']'],
    {
        proof {
            reveal_strlit(" [");
            reveal_strlit("]");
        }
        let mut s = self.show();
        s.append(" [");
        s.append(self.notes_lower_hex().as_str());
        s.append("]");
        proof {
            assert(s@ =~= spec_show_scale(self.spec_name(), self.spec_offsets()) + seq![' ', '[']
                + spec_note_list_flat(self.spec_offsets()) + seq![']']);
        }
        s
    }

    /// Every member note moved one octave up; the pitch-class content is
    /// unchanged.
    pub fn up_one_octave(&self) -> (r: Scales)
        requires
            forall|i: int|
                0 <= i < self.spec_offsets().len() ==> #[trigger] self.spec_offsets()[i] + 12
                    <= i8::MAX,
        ensures
            r.spec_is_major() == self.spec_is_major(),
            r.spec_name() == self.spec_name(),
            r.spec_offsets().len() == self.spec_offsets().len(),
            forall|i: int|
                0 <= i < r.spec_offsets().len() ==> #[trigger] r.spec_offsets()[i]
                    == self.spec_offsets()[i] + 12,
            forall|i: int|
                0 <= i < r.spec_offsets().len() ==> spec_base(#[trigger] r.spec_offsets()[i])
                    == spec_base(self.spec_offsets()[i]),
    {
        let notes = self.notes();
        proof {
            assert forall|i: int| 0 <= i < notes@.len() implies #[trigger] notes@[i]@ + 12
                <= i8::MAX by {
                assert(self.spec_offsets()[i] == notes@[i]@);
            }
        }
        let shifted = shift_notes_up(notes);
        let r = match self {
            Scales::Major(name, _) => Scales::Major(name, shifted),
            Scales::Minor(name, _) => Scales::Minor(name, shifted),
        };
        r
    }

    /// Every member note moved one octave down; the pitch-class content
    /// is unchanged.
    pub fn down_one_octave(&self) -> (r: Scales)
        requires
            forall|i: int|
                0 <= i < self.spec_offsets().len() ==> #[trigger] self.spec_offsets()[i] - 12
                    >= i8::MIN,
        ensures
            r.spec_is_major() == self.spec_is_major(),
            r.spec_name() == self.spec_name(),
            r.spec_offsets().len() == self.spec_offsets().len(),
            forall|i: int|
                0 <= i < r.spec_offsets().len() ==> #[trigger] r.spec_offsets()[i]
                    == self.spec_offsets()[i] - 12,
            forall|i: int|
                0 <= i < r.spec_offsets().len() ==> spec_base(#[trigger] r.spec_offsets()[i])
                    == spec_base(self.spec_offsets()[i]),
    {
        let notes = self.notes();
        proof {
            assert forall|i: int| 0 <= i < notes@.len() implies #[trigger] notes@[i]@ - 12
                >= i8::MIN by {
                assert(self.spec_offsets()[i] == notes@[i]@);
            }
        }
        let shifted = shift_notes_down(notes);
        let r = match self {
            Scales::Major(name, _) => Scales::Major(name, shifted),
            Scales::Minor(name, _) => Scales::Minor(name, shifted),
        };
        r
    }
}

/// What every scale offers: its name, its tonic, its member notes and
/// the step distances between them.
pub trait Scale {
    /// The member notes, as this trait sees them.
    spec fn scale_notes(&self) -> Seq<Note>;

    /// The display name.
    fn name(&self) -> (r: &'static str);

    /// The tonic: the first member note.
    fn tonic(&self) -> (r: Note)
        requires
            self.scale_notes().len() > 0,
        ensures
            r@ == self.scale_notes().map_values(|n: Note| n@)[0],
    ;

    /// The member notes.
    fn notes(&self) -> (r: &Vec<Note>)
        ensures
            r@ == self.scale_notes(),
    ;

    /// The absolute semitone distances between neighbouring members.
    fn as_steps(&self) -> (r: Vec<Tone>)
        ensures
            r@.len() + 1 == self.scale_notes().len() || (self.scale_notes().len() == 0
                && r@.len() == 0),
    ;
}

impl Scale for Scales {
    open spec fn scale_notes(&self) -> Seq<Note> {
        self.spec_notes()
    }

    fn name(&self) -> (r: &'static str) {
        Scales::name(self)
    }

    fn tonic(&self) -> (r: Note) {
        Scales::tonic(self)
    }

    fn notes(&self) -> (r: &Vec<Note>) {
        Scales::notes(self)
    }

    fn as_steps(&self) -> (r: Vec<Tone>) {
        Scales::as_steps(self)
    }
}

/// The display form of a scale: the sharp name of the folded tonic, then
/// the scale name.
pub open spec fn spec_show_scale(name: Seq<char>, offs: Seq<int>) -> Seq<char> {
    spec_sharp_name(spec_pitch_class(offs[0])) + name
}

} // verus!
