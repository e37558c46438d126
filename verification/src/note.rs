//! Notes as signed semitone offsets from C in the reference octave.

use vstd::arithmetic::div_mod::{
    lemma_fundamental_div_mod_converse_div, lemma_fundamental_div_mod_converse_mod,
};
use vstd::math::abs;
use vstd::prelude::*;
use vstd::std_specs::ops::{AddSpec, SubSpec};

use crate::chords::{self, Chords};
use crate::interval::Interval;
use crate::text::{dec_i8, join_strs, spec_dec_int, spec_join};
use crate::tone::Tone;

verus! {

/// How far the lowest named pitch (A) lies below the origin C: the offset
/// added before folding so that A, A# and B fold into the same register as
/// the C above them.
pub const TRANSLATE: i8 = 3;

/// The number of semitones in one octave.
pub const OCTAVE_SIZE: i8 = 12;

/// The register that every folded note reports.
pub const REFERENCE_OCTAVE: i8 = 4;

/// A pitch: an immutable signed semitone offset from C in the reference
/// octave.  Two notes are equal exactly when their raw offsets are equal,
/// so enharmonic spellings of one semitone position are one value.
#[derive(Clone, Copy, Debug, PartialEq, Eq, Structural)]
pub struct Note(pub i8);

impl View for Note {
    type V = int;

    open spec fn view(&self) -> int {
        self.0 as int
    }
}

/// The pitch class of the raw offset `o`: its position in `0..12` counted
/// from A, the lowest named pitch of the reference octave.
pub open spec fn spec_pitch_class(o: int) -> int {
    (o + TRANSLATE) % 12
}

/// The raw offset of the folded form of `o`: the one offset in `-3..=8`
/// with the same pitch class.
pub open spec fn spec_base(o: int) -> int {
    spec_pitch_class(o) - TRANSLATE
}

/// The register that holds the raw offset `o`.  Offsets `-3..=8` lie in
/// the reference octave; each shift by twelve semitones moves one register.
pub open spec fn spec_octave(o: int) -> int {
    (o + TRANSLATE) / 12 + REFERENCE_OCTAVE
}

/// Folding and register of `o + TRANSLATE`, computed from the quotient and
/// remainder of the shifted, non-negative value `o + TRANSLATE + 132`.
proof fn lemma_shifted_div_mod(o: int, q: int, r: int)
    requires
        o + TRANSLATE + 132 == 12 * q + r,
        0 <= r < 12,
    ensures
        spec_pitch_class(o) == r,
        spec_octave(o) == q - 11 + REFERENCE_OCTAVE,
{
    let x = o + TRANSLATE;
    assert(x == (q - 11) * 12 + r) by (nonlinear_arith)
        requires
            x + 132 == 12 * q + r,
    ;
    lemma_fundamental_div_mod_converse_mod(x, 12, q - 11, r);
    lemma_fundamental_div_mod_converse_div(x, 12, q - 11, r);
}

impl Note {
    /// The raw signed offset carried by this note.
    pub fn inner(&self) -> (r: i8)
        ensures
            r as int == self@,
    {
        self.0
    }

    /// The pitch class of this note, counted from A.
    pub fn pitch_class(&self) -> (r: u8)
        ensures
            r as int == spec_pitch_class(self@),
            0 <= r < 12,
    {
        let shifted: u16 = (self.0 as i16 + (TRANSLATE as i16) + 132) as u16;
        let r: u16 = shifted % 12;
        proof {
            lemma_shifted_div_mod(self@, shifted as int / 12, r as int);
        }
        r as u8
    }

    /// The folded form of this note: the note with the same pitch class
    /// whose offset lies in the reference octave.
    pub fn base(&self) -> (r: Note)
        ensures
            r@ == spec_base(self@),
            spec_octave(r@) == REFERENCE_OCTAVE,
    {
        let pc = self.pitch_class();
        let r = Note(pc as i8 - TRANSLATE);
        proof {
            lemma_base_in_reference_octave(self@);
        }
        r
    }

    /// The register number that holds this note, e.g. `4` for every offset
    /// in `-3..=8`.  Negative offsets below the reference octave report the
    /// register below, never a wrapped-up one.
    pub fn octave(&self) -> (r: i8)
        ensures
            r as int == spec_octave(self@),
    {
        let shifted: u16 = (self.0 as i16 + (TRANSLATE as i16) + 132) as u16;
        let q: u16 = shifted / 12;
        proof {
            lemma_shifted_div_mod(self@, q as int, (shifted % 12) as int);
        }
        (q as i16 - 11 + (REFERENCE_OCTAVE as i16)) as i8
    }

    /// The note one perfect fifth (seven semitones) above this one.
    pub fn perfect_fifth(&self) -> (r: Note)
        requires
            self@ + 7 <= i8::MAX,
        ensures
            r@ == self@ + 7,
    {
        Note(self.0 + 7)
    }

    /// The same pitch class one register higher.
    pub fn up_one_octave(&self) -> (r: Note)
        requires
            self@ + 12 <= i8::MAX,
        ensures
            r@ == self@ + 12,
            spec_base(r@) == spec_base(self@),
            spec_octave(r@) == spec_octave(self@) + 1,
    {
        proof {
            lemma_octave_shift_preserves_base(self@);
        }
        Note(self.0 + OCTAVE_SIZE)
    }

    /// The same pitch class one register lower.
    pub fn down_one_octave(&self) -> (r: Note)
        requires
            self@ - 12 >= i8::MIN,
        ensures
            r@ == self@ - 12,
            spec_base(r@) == spec_base(self@),
            spec_octave(r@) == spec_octave(self@) - 1,
    {
        proof {
            lemma_octave_shift_preserves_base(self@ - 12);
        }
        Note(self.0 - OCTAVE_SIZE)
    }
}

/// Law: folding always lands in the reference octave, and the folded
/// offset keeps the pitch class of the original.
pub proof fn lemma_base_in_reference_octave(o: int)
    ensures
        spec_octave(spec_base(o)) == REFERENCE_OCTAVE,
        spec_pitch_class(spec_base(o)) == spec_pitch_class(o),
        -3 <= spec_base(o) <= 8,
{
    let pc = spec_pitch_class(o);
    vstd::arithmetic::div_mod::lemma_mod_bound(o + TRANSLATE, 12);
    lemma_fundamental_div_mod_converse_mod(pc, 12, 0, pc);
    lemma_fundamental_div_mod_converse_div(pc, 12, 0, pc);
}

/// Law: a note is recovered from its register and pitch class; register
/// and pitch class together carry exactly the raw offset.
pub proof fn lemma_octave_pitch_class_identity(o: int)
    ensures
        (spec_octave(o) - REFERENCE_OCTAVE) * 12 + spec_pitch_class(o) == o + TRANSLATE,
        spec_octave(o) * 12 + spec_base(o) == o + 48,
{
    vstd::arithmetic::div_mod::lemma_fundamental_div_mod(o + TRANSLATE, 12);
}

/// Law: moving a note by a whole octave in either direction does not
/// change its folded form.
pub proof fn lemma_octave_shift_preserves_base(o: int)
    ensures
        spec_base(o + 12) == spec_base(o),
        spec_base(o - 12) == spec_base(o),
        spec_octave(o + 12) == spec_octave(o) + 1,
        spec_octave(o - 12) == spec_octave(o) - 1,
{
    let x = o + TRANSLATE;
    vstd::arithmetic::div_mod::lemma_fundamental_div_mod(x, 12);
    vstd::arithmetic::div_mod::lemma_mod_bound(x, 12);
    let q = x / 12;
    let r = x % 12;
    lemma_fundamental_div_mod_converse_mod(x + 12, 12, q + 1, r);
    lemma_fundamental_div_mod_converse_div(x + 12, 12, q + 1, r);
    lemma_fundamental_div_mod_converse_mod(x - 12, 12, q - 1, r);
    lemma_fundamental_div_mod_converse_div(x - 12, 12, q - 1, r);
}

/// Law: adding a tone and then subtracting it, or subtracting and then
/// adding it, gives back the original note, whenever the intermediate
/// offset stays within the machine range.
pub proof fn lemma_add_sub_round_trip(n: Note, t: Tone)
    ensures
        n.add_req(t) ==> n.add_spec(t).sub_spec(t) == n,
        n.sub_req(t) ==> n.sub_spec(t).add_spec(t) == n,
{
}

impl core::ops::Add<Tone> for Note {
    type Output = Note;

    /// Transposes the note up by the tone's semitone count; the result is
    /// not folded.
    fn add(self, tone: Tone) -> (r: Note) {
        Note((self.0 as i16 + tone.0 as i16) as i8)
    }
}

impl vstd::std_specs::ops::AddSpecImpl<Tone> for Note {
    open spec fn obeys_add_spec() -> bool {
        true
    }

    open spec fn add_req(self, tone: Tone) -> bool {
        self@ + tone@ <= i8::MAX
    }

    open spec fn add_spec(self, tone: Tone) -> Note {
        Note((self@ + tone@) as i8)
    }
}

impl core::ops::Add<Interval> for Note {
    type Output = Note;

    /// Transposes the note up by the interval's semitone size.
    fn add(self, interval: Interval) -> (r: Note) {
        Note((self.0 as i16 + interval.0 as i16) as i8)
    }
}

impl vstd::std_specs::ops::AddSpecImpl<Interval> for Note {
    open spec fn obeys_add_spec() -> bool {
        true
    }

    open spec fn add_req(self, interval: Interval) -> bool {
        self@ + interval@ <= i8::MAX
    }

    open spec fn add_spec(self, interval: Interval) -> Note {
        Note((self@ + interval@) as i8)
    }
}

impl core::ops::Sub<Tone> for Note {
    type Output = Note;

    /// Transposes the note down by the tone's semitone count.
    fn sub(self, tone: Tone) -> (r: Note) {
        Note((self.0 as i16 - tone.0 as i16) as i8)
    }
}

impl vstd::std_specs::ops::SubSpecImpl<Tone> for Note {
    open spec fn obeys_sub_spec() -> bool {
        true
    }

    open spec fn sub_req(self, tone: Tone) -> bool {
        self@ - tone@ >= i8::MIN
    }

    open spec fn sub_spec(self, tone: Tone) -> Note {
        Note((self@ - tone@) as i8)
    }
}

impl core::ops::Sub<Note> for Note {
    type Output = Tone;

    /// The absolute semitone distance between two notes, not a direction.
    fn sub(self, other: Note) -> (r: Tone) {
        let d: i16 = self.0 as i16 - other.0 as i16;
        if d < 0 {
            Tone((-d) as u8)
        } else {
            Tone(d as u8)
        }
    }
}

impl vstd::std_specs::ops::SubSpecImpl<Note> for Note {
    open spec fn obeys_sub_spec() -> bool {
        true
    }

    open spec fn sub_req(self, other: Note) -> bool {
        true
    }

    open spec fn sub_spec(self, other: Note) -> Tone {
        Tone(abs(self@ - other@) as u8)
    }
}

impl From<i8> for Note {
    /// Wraps a raw signed offset.
    fn from(value: i8) -> (r: Note) {
        Note(value)
    }
}

impl vstd::std_specs::convert::FromSpecImpl<i8> for Note {
    open spec fn obeys_from_spec() -> bool {
        true
    }

    open spec fn from_spec(value: i8) -> Note {
        Note(value)
    }
}

impl From<Note> for i8 {
    /// Unwraps the raw signed offset.
    fn from(note: Note) -> (r: i8) {
        note.0
    }
}

impl vstd::std_specs::convert::FromSpecImpl<Note> for i8 {
    open spec fn obeys_from_spec() -> bool {
        true
    }

    open spec fn from_spec(note: Note) -> i8 {
        note.0
    }
}

/// The pitch A of the reference octave.
pub fn a() -> (r: Note)
    ensures
        r@ == -3,
{
    Note(-3)
}

/// The pitch A# of the reference octave.
pub fn a_sharp() -> (r: Note)
    ensures
        r@ == -2,
{
    Note(-2)
}

/// The pitch B of the reference octave.
pub fn b() -> (r: Note)
    ensures
        r@ == -1,
{
    Note(-1)
}

/// The pitch C of the reference octave: the translation origin.
pub fn c() -> (r: Note)
    ensures
        r@ == 0,
{
    Note(0)
}

/// The pitch C# of the reference octave.
pub fn c_sharp() -> (r: Note)
    ensures
        r@ == 1,
{
    Note(1)
}

/// The pitch D of the reference octave.
pub fn d() -> (r: Note)
    ensures
        r@ == 2,
{
    Note(2)
}

/// The pitch D# of the reference octave.
pub fn d_sharp() -> (r: Note)
    ensures
        r@ == 3,
{
    Note(3)
}

/// The pitch E of the reference octave.
pub fn e() -> (r: Note)
    ensures
        r@ == 4,
{
    Note(4)
}

/// The pitch F of the reference octave.
pub fn f() -> (r: Note)
    ensures
        r@ == 5,
{
    Note(5)
}

/// The pitch F# of the reference octave.
pub fn f_sharp() -> (r: Note)
    ensures
        r@ == 6,
{
    Note(6)
}

/// The pitch G of the reference octave.
pub fn g() -> (r: Note)
    ensures
        r@ == 7,
{
    Note(7)
}

/// The pitch G# of the reference octave: the highest named constant; the
/// next semitone up wraps to A of the register above.
pub fn g_sharp() -> (r: Note)
    ensures
        r@ == 8,
{
    Note(8)
}

/// The sharp-preferring name of the pitch class `pc` (counted from A).
pub open spec fn spec_sharp_name(pc: int) -> Seq<char> {
    if pc == 0 {
        seq!['A']
    } else if pc == 1 {
        seq!['A', '#']
    } else if pc == 2 {
        seq!['B']
    } else if pc == 3 {
        seq!['C']
    } else if pc == 4 {
        seq!['C', '#']
    } else if pc == 5 {
        seq!['D']
    } else if pc == 6 {
        seq!['D', '#']
    } else if pc == 7 {
        seq!['E']
    } else if pc == 8 {
        seq!['F']
    } else if pc == 9 {
        seq!['F', '#']
    } else if pc == 10 {
        seq!['G']
    } else {
        seq!['G', '#']
    }
}

/// The flat-preferring name of the pitch class `pc` (counted from A).
pub open spec fn spec_flat_name(pc: int) -> Seq<char> {
    if pc == 0 {
        seq!['A']
    } else if pc == 1 {
        seq!['B', 'b']
    } else if pc == 2 {
        seq!['B']
    } else if pc == 3 {
        seq!['C']
    } else if pc == 4 {
        seq!['D', 'b']
    } else if pc == 5 {
        seq!['D']
    } else if pc == 6 {
        seq!['E', 'b']
    } else if pc == 7 {
        seq!['E']
    } else if pc == 8 {
        seq!['F']
    } else if pc == 9 {
        seq!['G', 'b']
    } else if pc == 10 {
        seq!['G']
    } else {
        seq!['A', 'b']
    }
}

/// Whether the pitch class `pc` (counted from A) is one of the seven
/// natural pitches rather than an altered (sharp or flat) one.
pub open spec fn spec_is_natural(pc: int) -> bool {
    pc == 0 || pc == 2 || pc == 3 || pc == 5 || pc == 7 || pc == 8 || pc == 10
}

/// Law: the sharp and flat spellings agree exactly on the seven natural
/// pitch classes and differ on the five altered ones.
pub proof fn lemma_enharmonic_spelling(pc: int)
    requires
        0 <= pc < 12,
    ensures
        spec_is_natural(pc) <==> spec_sharp_name(pc) == spec_flat_name(pc),
{
    if spec_is_natural(pc) {
        assert(spec_sharp_name(pc) =~= spec_flat_name(pc));
    } else {
        assert(spec_sharp_name(pc)[0] != spec_flat_name(pc)[0]);
    }
}

/// The debug form of the raw offset `o`: register, pitch-class name and
/// raw offset, e.g. `C4:C#:1`.
pub open spec fn spec_show_note_debug(o: int) -> Seq<char> {
    seq!['C'] + spec_dec_int(spec_octave(o)) + seq![':'] + spec_sharp_name(spec_pitch_class(o))
        + seq![':'] + spec_dec_int(o)
}

impl Note {
    /// The sharp-preferring name of this note's pitch class.
    pub fn show_sharp(&self) -> (r: &'static str)
        ensures
            r@ == spec_sharp_name(spec_pitch_class(self@)),
    {
        proof {
            reveal_strlit("A");
            reveal_strlit("A#");
            reveal_strlit("B");
            reveal_strlit("C");
            reveal_strlit("C#");
            reveal_strlit("D");
            reveal_strlit("D#");
            reveal_strlit("E");
            reveal_strlit("F");
            reveal_strlit("F#");
            reveal_strlit("G");
            reveal_strlit("G#");
        }
        let r = match self.pitch_class() {
            0 => "A",
            1 => "A#",
            2 => "B",
            3 => "C",
            4 => "C#",
            5 => "D",
            6 => "D#",
            7 => "E",
            8 => "F",
            9 => "F#",
            10 => "G",
            _ => "G#",
        };
        proof {
            assert(r@ =~= spec_sharp_name(spec_pitch_class(self@)));
        }
        r
    }

    /// The flat-preferring name of this note's pitch class.
    pub fn show_flat(&self) -> (r: &'static str)
        ensures
            r@ == spec_flat_name(spec_pitch_class(self@)),
    {
        proof {
            reveal_strlit("A");
            reveal_strlit("Bb");
            reveal_strlit("B");
            reveal_strlit("C");
            reveal_strlit("Db");
            reveal_strlit("D");
            reveal_strlit("Eb");
            reveal_strlit("E");
            reveal_strlit("F");
            reveal_strlit("Gb");
            reveal_strlit("G");
            reveal_strlit("Ab");
        }
        let r = match self.pitch_class() {
            0 => "A",
            1 => "Bb",
            2 => "B",
            3 => "C",
            4 => "Db",
            5 => "D",
            6 => "Eb",
            7 => "E",
            8 => "F",
            9 => "Gb",
            10 => "G",
            _ => "Ab",
        };
        proof {
            assert(r@ =~= spec_flat_name(spec_pitch_class(self@)));
        }
        r
    }

    /// The display form: the sharp-preferring pitch-class name.
    pub fn show(&self) -> (r: &'static str)
        ensures
            r@ == spec_sharp_name(spec_pitch_class(self@)),
    {
        self.show_sharp()
    }

    /// The debug form: register, pitch-class name and raw offset, e.g.
    /// `C4:C#:1`.
    pub fn show_debug(&self) -> (r: String)
        ensures
            r@ == spec_show_note_debug(self@),
    {
        proof {
            reveal_strlit("C");
            reveal_strlit(":");
        }
        let mut s = String::from_str("C");
        s.append(dec_i8(self.octave()).as_str());
        s.append(":");
        s.append(self.show_sharp());
        s.append(":");
        s.append(dec_i8(self.0).as_str());
        proof {
            assert(s@ =~= spec_show_note_debug(self@));
        }
        s
    }
}

impl Note {
    /// Builds the diminished triad rooted here.
    pub fn dim(self) -> (c: Chords)
        requires
            self@ + 6 <= i8::MAX,
        ensures
            c.spec_desc() == chords::spec_diminished_descs(self@)[0],
    {
        chords::dim(self)
    }

    /// Builds the diminished seventh chord rooted here.
    pub fn dim7(self) -> (c: Chords)
        requires
            self@ + 9 <= i8::MAX,
        ensures
            c.spec_desc() == chords::spec_diminished_descs(self@)[1],
    {
        chords::dim7(self)
    }

    /// Every diminished-family chord rooted here.
    pub fn dimished_chords(self) -> (r: Vec<Chords>)
        requires
            self@ + 9 <= i8::MAX,
        ensures
            r@.map_values(|c: Chords| c.spec_desc()) == chords::spec_diminished_descs(self@),
    {
        chords::diminished_chords(self)
    }

    /// Builds the dominant seventh chord rooted here.
    pub fn dom7(self) -> (c: Chords)
        requires
            self@ + 10 <= i8::MAX,
        ensures
            c.spec_desc() == chords::spec_dominant_descs(self@)[0],
    {
        chords::dom7(self)
    }

    /// Builds the dominant seventh flat-five chord rooted here.
    pub fn dom7b5(self) -> (c: Chords)
        requires
            self@ + 10 <= i8::MAX,
        ensures
            c.spec_desc() == chords::spec_dominant_descs(self@)[1],
    {
        chords::dom7b5(self)
    }

    /// Builds the dominant seventh sharp-five chord rooted here.
    pub fn dom7s5(self) -> (c: Chords)
        requires
            self@ + 10 <= i8::MAX,
        ensures
            c.spec_desc() == chords::spec_dominant_descs(self@)[2],
    {
        chords::dom7s5(self)
    }

    /// Builds the dominant ninth chord rooted here.
    pub fn dom9(self) -> (c: Chords)
        requires
            self@ + 14 <= i8::MAX,
        ensures
            c.spec_desc() == chords::spec_dominant_descs(self@)[3],
    {
        chords::dom9(self)
    }

    /// Builds the dominant eleventh chord rooted here.
    pub fn dom11(self) -> (c: Chords)
        requires
            self@ + 17 <= i8::MAX,
        ensures
            c.spec_desc() == chords::spec_dominant_descs(self@)[4],
    {
        chords::dom11(self)
    }

    /// Builds the dominant thirteenth chord rooted here.
    pub fn dom13(self) -> (c: Chords)
        requires
            self@ + 21 <= i8::MAX,
        ensures
            c.spec_desc() == chords::spec_dominant_descs(self@)[5],
    {
        chords::dom13(self)
    }

    /// Builds the dominant thirteenth flat-nine flat-thirteen chord
    /// rooted here.
    pub fn dom13b9b13(self) -> (c: Chords)
        requires
            self@ + 20 <= i8::MAX,
        ensures
            c.spec_desc() == chords::spec_dominant_descs(self@)[6],
    {
        chords::dom13b9b13(self)
    }

    /// Every dominant-family chord rooted here.
    pub fn dominant_chords(self) -> (r: Vec<Chords>)
        requires
            self@ + 21 <= i8::MAX,
        ensures
            r@.map_values(|c: Chords| c.spec_desc()) == chords::spec_dominant_descs(self@),
    {
        chords::dominant_chords(self)
    }

    /// Builds the major triad rooted here.
    pub fn maj(self) -> (c: Chords)
        requires
            self@ + 7 <= i8::MAX,
        ensures
            c.spec_desc() == chords::spec_major_descs(self@)[0],
    {
        chords::maj(self)
    }

    /// Builds the major seventh chord rooted here.
    pub fn maj7(self) -> (c: Chords)
        requires
            self@ + 11 <= i8::MAX,
        ensures
            c.spec_desc() == chords::spec_major_descs(self@)[1],
    {
        chords::maj7(self)
    }

    /// Builds the major ninth chord rooted here.
    pub fn maj9(self) -> (c: Chords)
        requires
            self@ + 14 <= i8::MAX,
        ensures
            c.spec_desc() == chords::spec_major_descs(self@)[2],
    {
        chords::maj9(self)
    }

    /// Builds the major eleventh chord rooted here.
    pub fn maj11(self) -> (c: Chords)
        requires
            self@ + 17 <= i8::MAX,
        ensures
            c.spec_desc() == chords::spec_major_descs(self@)[3],
    {
        chords::maj11(self)
    }

    /// Builds the major thirteenth chord rooted here.
    pub fn maj13(self) -> (c: Chords)
        requires
            self@ + 21 <= i8::MAX,
        ensures
            c.spec_desc() == chords::spec_major_descs(self@)[4],
    {
        chords::maj13(self)
    }

    /// Every major-family chord rooted here.
    pub fn major_chords(self) -> (r: Vec<Chords>)
        requires
            self@ + 21 <= i8::MAX,
        ensures
            r@.map_values(|c: Chords| c.spec_desc()) == chords::spec_major_descs(self@),
    {
        chords::major_chords(self)
    }

    /// Builds the minor triad rooted here.
    pub fn min(self) -> (c: Chords)
        requires
            self@ + 7 <= i8::MAX,
        ensures
            c.spec_desc() == chords::spec_minor_descs(self@)[0],
    {
        chords::min(self)
    }

    /// Builds the minor seventh chord rooted here.
    pub fn min7(self) -> (c: Chords)
        requires
            self@ + 10 <= i8::MAX,
        ensures
            c.spec_desc() == chords::spec_minor_descs(self@)[1],
    {
        chords::min7(self)
    }

    /// Builds the half-diminished seventh chord rooted here.
    pub fn min7b5(self) -> (c: Chords)
        requires
            self@ + 10 <= i8::MAX,
        ensures
            c.spec_desc() == chords::spec_minor_descs(self@)[2],
    {
        chords::min7b5(self)
    }

    /// Builds the minor ninth chord rooted here.
    pub fn min9(self) -> (c: Chords)
        requires
            self@ + 14 <= i8::MAX,
        ensures
            c.spec_desc() == chords::spec_minor_descs(self@)[3],
    {
        chords::min9(self)
    }

    /// Builds the minor eleventh chord rooted here.
    pub fn min11(self) -> (c: Chords)
        requires
            self@ + 17 <= i8::MAX,
        ensures
            c.spec_desc() == chords::spec_minor_descs(self@)[4],
    {
        chords::min11(self)
    }

    /// Builds the minor thirteenth chord rooted here.
    pub fn min13(self) -> (c: Chords)
        requires
            self@ + 21 <= i8::MAX,
        ensures
            c.spec_desc() == chords::spec_minor_descs(self@)[5],
    {
        chords::min13(self)
    }

    /// Every minor-family chord rooted here.
    pub fn minor_chords(self) -> (r: Vec<Chords>)
        requires
            self@ + 21 <= i8::MAX,
        ensures
            r@.map_values(|c: Chords| c.spec_desc()) == chords::spec_minor_descs(self@),
    {
        chords::minor_chords(self)
    }

    /// Every chord of the catalog rooted here, in enumeration order.
    pub fn all_chords(self) -> (r: Vec<Chords>)
        requires
            self@ + 21 <= i8::MAX,
        ensures
            r@.map_values(|c: Chords| c.spec_desc()) == chords::spec_catalog_descs(self@),
    {
        Chords::all_chords(self)
    }
}

/// The sum of a sequence of step sizes.
pub open spec fn spec_sum(s: Seq<int>) -> int
    decreases s.len(),
{
    if s.len() == 0 {
        0
    } else {
        spec_sum(s.drop_last()) + s.last()
    }
}

/// The note offsets produced by walking `steps` upward from `root`: the
/// element at `i` is the root plus the first `i` steps.
pub open spec fn spec_step_offsets(root: int, steps: Seq<int>) -> Seq<int> {
    Seq::new(steps.len() + 1, |i: int| root + spec_sum(steps.take(i)))
}

/// The sum of a one-element step list.
pub(crate) proof fn lemma_sum1(a: int)
    ensures
        spec_sum(seq![a]) == a,
{
    assert(seq![a].drop_last() =~= Seq::<int>::empty());
    assert(spec_sum(seq![a]) == spec_sum(seq![a].drop_last()) + a);
}

/// The sum of a two-element step list.
pub(crate) proof fn lemma_sum2(a: int, b: int)
    ensures
        spec_sum(seq![a, b]) == a + b,
{
    lemma_sum1(a);
    assert(seq![a, b].drop_last() =~= seq![a]);
    assert(spec_sum(seq![a, b]) == spec_sum(seq![a, b].drop_last()) + b);
}

/// The sum of a three-element step list.
pub(crate) proof fn lemma_sum3(a: int, b: int, c: int)
    ensures
        spec_sum(seq![a, b, c]) == a + b + c,
{
    lemma_sum2(a, b);
    assert(seq![a, b, c].drop_last() =~= seq![a, b]);
    assert(spec_sum(seq![a, b, c]) == spec_sum(seq![a, b, c].drop_last()) + c);
}

/// The sum of a four-element step list.
pub(crate) proof fn lemma_sum4(a: int, b: int, c: int, d: int)
    ensures
        spec_sum(seq![a, b, c, d]) == a + b + c + d,
{
    lemma_sum3(a, b, c);
    assert(seq![a, b, c, d].drop_last() =~= seq![a, b, c]);
    assert(spec_sum(seq![a, b, c, d]) == spec_sum(seq![a, b, c, d].drop_last()) + d);
}

/// The sum of a five-element step list.
pub(crate) proof fn lemma_sum5(a: int, b: int, c: int, d: int, e: int)
    ensures
        spec_sum(seq![a, b, c, d, e]) == a + b + c + d + e,
{
    lemma_sum4(a, b, c, d);
    assert(seq![a, b, c, d, e].drop_last() =~= seq![a, b, c, d]);
    assert(spec_sum(seq![a, b, c, d, e]) == spec_sum(seq![a, b, c, d, e].drop_last()) + e);
}

/// The sum of a six-element step list.
pub(crate) proof fn lemma_sum6(a: int, b: int, c: int, d: int, e: int, f: int)
    ensures
        spec_sum(seq![a, b, c, d, e, f]) == a + b + c + d + e + f,
{
    lemma_sum5(a, b, c, d, e);
    assert(seq![a, b, c, d, e, f].drop_last() =~= seq![a, b, c, d, e]);
    assert(spec_sum(seq![a, b, c, d, e, f]) == spec_sum(seq![a, b, c, d, e, f].drop_last()) + f);
}

/// The sum of a seven-element step list.
pub(crate) proof fn lemma_sum7(a: int, b: int, c: int, d: int, e: int, f: int, g: int)
    ensures
        spec_sum(seq![a, b, c, d, e, f, g]) == a + b + c + d + e + f + g,
{
    lemma_sum6(a, b, c, d, e, f);
    assert(seq![a, b, c, d, e, f, g].drop_last() =~= seq![a, b, c, d, e, f]);
    assert(spec_sum(seq![a, b, c, d, e, f, g]) == spec_sum(
        seq![a, b, c, d, e, f, g].drop_last(),
    ) + g);
}

/// Dropping the last element of a one-longer prefix gives the prefix.
proof fn lemma_sum_take_succ(s: Seq<int>, i: int)
    requires
        0 <= i < s.len(),
    ensures
        spec_sum(s.take(i + 1)) == spec_sum(s.take(i)) + s[i],
{
    assert(s.take(i + 1).drop_last() =~= s.take(i));
    assert(s.take(i + 1).last() == s[i]);
}

/// A sum of non-negative steps is non-negative.
proof fn lemma_sum_nonneg(s: Seq<int>)
    requires
        forall|k: int| 0 <= k < s.len() ==> s[k] >= 0,
    ensures
        spec_sum(s) >= 0,
    decreases s.len(),
{
    if s.len() > 0 {
        lemma_sum_nonneg(s.drop_last());
    }
}

/// With non-negative steps, every prefix sum lies between zero and the
/// total sum.
proof fn lemma_sum_take_bounds(s: Seq<int>, i: int)
    requires
        0 <= i <= s.len(),
        forall|k: int| 0 <= k < s.len() ==> s[k] >= 0,
    ensures
        0 <= spec_sum(s.take(i)) <= spec_sum(s),
    decreases s.len() - i,
{
    assert(forall|k: int| 0 <= k < s.take(i).len() ==> s.take(i)[k] >= 0);
    lemma_sum_nonneg(s.take(i));
    if i == s.len() {
        assert(s.take(i) =~= s);
    } else {
        lemma_sum_take_succ(s, i);
        lemma_sum_take_bounds(s, i + 1);
    }
}

/// Law: a step walk produces one note more than it has steps, starts at
/// the root exactly, and moves by one step between neighbours.
pub proof fn lemma_step_offsets_shape(root: int, steps: Seq<int>)
    ensures
        spec_step_offsets(root, steps).len() == steps.len() + 1,
        spec_step_offsets(root, steps)[0] == root,
        forall|i: int|
            1 <= i <= steps.len() ==> #[trigger] spec_step_offsets(root, steps)[i]
                == spec_step_offsets(root, steps)[i - 1] + steps[i - 1],
{
    assert(steps.take(0) =~= Seq::empty());
    assert forall|i: int| 1 <= i <= steps.len() implies #[trigger] spec_step_offsets(
        root,
        steps,
    )[i] == spec_step_offsets(root, steps)[i - 1] + steps[i - 1] by {
        lemma_sum_take_succ(steps, i - 1);
    }
}

/// Materializes the walk of `steps` upward from `root` into a note list.
pub(crate) fn step_notes(root: Note, steps: &Vec<u8>) -> (r: Vec<Note>)
    requires
        root@ + spec_sum(steps@.map_values(|x: u8| x as int)) <= i8::MAX,
    ensures
        r@.map_values(|n: Note| n@) == spec_step_offsets(
            root@,
            steps@.map_values(|x: u8| x as int),
        ),
{
    let ghost ssteps = steps@.map_values(|x: u8| x as int);
    let mut notes: Vec<Note> = Vec::new();
    notes.push(root);
    let mut cur: Note = root;
    let mut i: usize = 0;
    proof {
        assert(ssteps.take(0) =~= Seq::empty());
    }
    while i < steps.len()
        invariant
            i <= steps.len(),
            ssteps == steps@.map_values(|x: u8| x as int),
            root@ + spec_sum(ssteps) <= i8::MAX,
            cur@ == root@ + spec_sum(ssteps.take(i as int)),
            notes@.len() == i + 1,
            forall|j: int|
                0 <= j < notes@.len() ==> #[trigger] notes@[j]@ == root@ + spec_sum(
                    ssteps.take(j),
                ),
        decreases steps.len() - i,
    {
        let step = steps[i];
        proof {
            lemma_sum_take_succ(ssteps, i as int);
            lemma_sum_take_bounds(ssteps, i as int + 1);
            lemma_sum_take_bounds(ssteps, i as int);
        }
        cur = Note((cur.0 as i16 + step as i16) as i8);
        notes.push(cur);
        i += 1;
    }
    proof {
        assert(notes@.map_values(|n: Note| n@) =~= spec_step_offsets(root@, ssteps));
    }
    notes
}


/// Every note of `notes` moved one octave up.
pub(crate) fn shift_notes_up(notes: &Vec<Note>) -> (r: Vec<Note>)
    requires
        forall|i: int| 0 <= i < notes@.len() ==> #[trigger] notes@[i]@ + 12 <= i8::MAX,
    ensures
        r@.len() == notes@.len(),
        forall|i: int| 0 <= i < r@.len() ==> #[trigger] r@[i]@ == notes@[i]@ + 12,
        forall|i: int|
            0 <= i < r@.len() ==> spec_base(#[trigger] r@[i]@) == spec_base(notes@[i]@),
{
    let mut r: Vec<Note> = Vec::new();
    let mut i: usize = 0;
    while i < notes.len()
        invariant
            i <= notes@.len(),
            forall|k: int| 0 <= k < notes@.len() ==> #[trigger] notes@[k]@ + 12 <= i8::MAX,
            r@.len() == i,
            forall|k: int| 0 <= k < r@.len() ==> #[trigger] r@[k]@ == notes@[k]@ + 12,
            forall|k: int|
                0 <= k < r@.len() ==> spec_base(#[trigger] r@[k]@) == spec_base(notes@[k]@),
        decreases notes@.len() - i,
    {
        r.push(notes[i].up_one_octave());
        i += 1;
    }
    r
}

/// Every note of `notes` moved one octave down.
pub(crate) fn shift_notes_down(notes: &Vec<Note>) -> (r: Vec<Note>)
    requires
        forall|i: int| 0 <= i < notes@.len() ==> #[trigger] notes@[i]@ - 12 >= i8::MIN,
    ensures
        r@.len() == notes@.len(),
        forall|i: int| 0 <= i < r@.len() ==> #[trigger] r@[i]@ == notes@[i]@ - 12,
        forall|i: int|
            0 <= i < r@.len() ==> spec_base(#[trigger] r@[i]@) == spec_base(notes@[i]@),
{
    let mut r: Vec<Note> = Vec::new();
    let mut i: usize = 0;
    while i < notes.len()
        invariant
            i <= notes@.len(),
            forall|k: int| 0 <= k < notes@.len() ==> #[trigger] notes@[k]@ - 12 >= i8::MIN,
            r@.len() == i,
            forall|k: int| 0 <= k < r@.len() ==> #[trigger] r@[k]@ == notes@[k]@ - 12,
            forall|k: int|
                0 <= k < r@.len() ==> spec_base(#[trigger] r@[k]@) == spec_base(notes@[k]@),
        decreases notes@.len() - i,
    {
        r.push(notes[i].down_one_octave());
        i += 1;
    }
    r
}


/// The sharp-preferring names of the note offsets, comma-joined.
pub open spec fn spec_note_list_sharp(offs: Seq<int>) -> Seq<char> {
    spec_join(offs.map_values(|o: int| spec_sharp_name(spec_pitch_class(o))), seq![',', ' '])
}

/// The flat-preferring names of the note offsets, comma-joined.
pub open spec fn spec_note_list_flat(offs: Seq<int>) -> Seq<char> {
    spec_join(offs.map_values(|o: int| spec_flat_name(spec_pitch_class(o))), seq![',', ' '])
}

/// The sharp-preferring name of each note.
pub(crate) fn note_names_sharp(notes: &Vec<Note>) -> (r: Vec<String>)
    ensures
        r@.map_values(|s: String| s@) == notes@.map_values(
            |n: Note| spec_sharp_name(spec_pitch_class(n@)),
        ),
{
    let mut r: Vec<String> = Vec::new();
    let mut i: usize = 0;
    while i < notes.len()
        invariant
            i <= notes@.len(),
            r@.len() == i,
            forall|j: int|
                0 <= j < i ==> #[trigger] r@[j]@ == spec_sharp_name(
                    spec_pitch_class(notes@[j]@),
                ),
        decreases notes@.len() - i,
    {
        r.push(String::from_str(notes[i].show_sharp()));
        i += 1;
    }
    proof {
        assert(r@.map_values(|s: String| s@) =~= notes@.map_values(
            |n: Note| spec_sharp_name(spec_pitch_class(n@)),
        ));
    }
    r
}

/// The flat-preferring name of each note.
pub(crate) fn note_names_flat(notes: &Vec<Note>) -> (r: Vec<String>)
    ensures
        r@.map_values(|s: String| s@) == notes@.map_values(
            |n: Note| spec_flat_name(spec_pitch_class(n@)),
        ),
{
    let mut r: Vec<String> = Vec::new();
    let mut i: usize = 0;
    while i < notes.len()
        invariant
            i <= notes@.len(),
            r@.len() == i,
            forall|j: int|
                0 <= j < i ==> #[trigger] r@[j]@ == spec_flat_name(
                    spec_pitch_class(notes@[j]@),
                ),
        decreases notes@.len() - i,
    {
        r.push(String::from_str(notes[i].show_flat()));
        i += 1;
    }
    proof {
        assert(r@.map_values(|s: String| s@) =~= notes@.map_values(
            |n: Note| spec_flat_name(spec_pitch_class(n@)),
        ));
    }
    r
}

/// The debug forms of the note offsets, comma-joined.
pub open spec fn spec_note_list_debug(offs: Seq<int>) -> Seq<char> {
    spec_join(offs.map_values(|o: int| spec_show_note_debug(o)), seq![',', ' '])
}

/// The debug form of each note, comma-joined.
pub(crate) fn note_list_debug(notes: &Vec<Note>) -> (r: String)
    ensures
        r@ == spec_note_list_debug(notes@.map_values(|n: Note| n@)),
{
    let mut parts: Vec<String> = Vec::new();
    let mut i: usize = 0;
    while i < notes.len()
        invariant
            i <= notes@.len(),
            parts@.len() == i,
            forall|j: int|
                0 <= j < i ==> #[trigger] parts@[j]@ == spec_show_note_debug(notes@[j]@),
        decreases notes@.len() - i,
    {
        parts.push(notes[i].show_debug());
        i += 1;
    }
    proof {
        reveal_strlit(", ");
        assert(", "@ =~= seq![',', ' ']);
        assert(parts@.map_values(|s: String| s@) =~= notes@.map_values(|n: Note| n@).map_values(
            |o: int| spec_show_note_debug(o),
        ));
    }
    join_strs(&parts, ", ")
}

/// The sharp-preferring names of the notes, comma-joined.
pub(crate) fn note_list_sharp(notes: &Vec<Note>) -> (r: String)
    ensures
        r@ == spec_note_list_sharp(notes@.map_values(|n: Note| n@)),
{
    let parts = note_names_sharp(notes);
    proof {
        reveal_strlit(", ");
        assert(", "@ =~= seq![',', ' ']);
        assert(notes@.map_values(|n: Note| spec_sharp_name(spec_pitch_class(n@))) =~= notes@
            .map_values(|n: Note| n@).map_values(
            |o: int| spec_sharp_name(spec_pitch_class(o)),
        ));
    }
    join_strs(&parts, ", ")
}

/// The flat-preferring names of the notes, comma-joined.
pub(crate) fn note_list_flat(notes: &Vec<Note>) -> (r: String)
    ensures
        r@ == spec_note_list_flat(notes@.map_values(|n: Note| n@)),
{
    let parts = note_names_flat(notes);
    proof {
        reveal_strlit(", ");
        assert(", "@ =~= seq![',', ' ']);
        assert(notes@.map_values(|n: Note| spec_flat_name(spec_pitch_class(n@))) =~= notes@
            .map_values(|n: Note| n@).map_values(
            |o: int| spec_flat_name(spec_pitch_class(o)),
        ));
    }
    join_strs(&parts, ", ")
}


} // verus!
