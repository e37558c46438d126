//! Music-theory primitives: pitches, intervals, chords and scales.
//!
//! A [`Note`] is a signed semitone offset from C in the reference octave.
//! Adding a [`Tone`] (a semitone count) to a note transposes it; folding a
//! note with [`Note::base`] reduces it to its pitch class inside the
//! reference octave.  Chord and scale constructors turn a root note and a
//! fixed list of interval steps into an ordered note sequence, and the
//! rendering functions print those sequences in sharp-preferring,
//! flat-preferring and octave-qualified notations.

mod bar;
mod interval;
mod note;
mod octave;
mod text;
mod tone;

pub mod chord;
pub mod chords;
pub mod scales;

pub use bar::{Bar, BarElement};
pub use interval::{augmented_4th, diminished_5th, major_2nd, major_3rd, major_6th, major_7th,
    minor_2nd, minor_3rd, minor_6th, minor_7th, octave_8ve, perfect_4th, perfect_5th,
    spec_interval_name, tritone, Interval};
pub use note::{a, a_sharp, b, c, c_sharp, d, d_sharp, e, f, f_sharp, g, g_sharp,
    lemma_add_sub_round_trip, lemma_base_in_reference_octave, lemma_enharmonic_spelling,
    lemma_octave_pitch_class_identity, lemma_octave_shift_preserves_base,
    lemma_step_offsets_shape, spec_base, spec_flat_name, spec_is_natural, spec_note_list_debug,
    spec_note_list_flat, spec_note_list_sharp, spec_octave, spec_pitch_class, spec_sharp_name,
    spec_show_note_debug, spec_step_offsets, spec_sum, Note, OCTAVE_SIZE, REFERENCE_OCTAVE,
    TRANSLATE};
pub use octave::{c0, c1, c2, c3, c4, c5, c6, c7, spec_show_octave, Octave, OCTAVE_COUNT};
pub use text::{dec_i8, dec_u8, join_strs, spec_dec_int, spec_dec_nat, spec_digit, spec_join,
    spec_join_from};
pub use tone::{octave, semi_tone, spec_show_tone, spec_show_tone_debug, whole_tone, Tone};
