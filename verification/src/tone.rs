//! A semitone count: the unit of all pitch arithmetic.

use vstd::prelude::*;

use crate::text::{dec_u8, spec_dec_nat};

verus! {

/// A non-negative count of semitones (an interval size).
///
/// A tone is unbounded above: `12` is a full octave and larger values
/// describe compound intervals.
#[derive(Clone, Copy, Debug, PartialEq, Eq, Structural)]
pub struct Tone(pub u8);

impl View for Tone {
    type V = int;

    open spec fn view(&self) -> int {
        self.0 as int
    }
}

/// A half step: one semitone.
pub fn semi_tone() -> (r: Tone)
    ensures
        r@ == 1,
{
    Tone(1)
}

/// A whole step: two semitones.
pub fn whole_tone() -> (r: Tone)
    ensures
        r@ == 2,
{
    Tone(2)
}

/// A full octave: twelve semitones.
pub fn octave() -> (r: Tone)
    ensures
        r@ == 12,
{
    Tone(12)
}

impl Tone {
    /// The semitone count carried by this tone.
    pub fn inner(&self) -> (r: u8)
        ensures
            r as int == self@,
    {
        self.0
    }

    /// The display form: `"H"` for a half step, `"W"` for a whole step,
    /// `"O"` for an octave, and `"T(<n>)"` for any other size.
    pub fn show(&self) -> (r: String)
        ensures
            r@ == spec_show_tone(self@),
    {
        match self.0 {
            1 => {
                proof {
                    reveal_strlit("H");
                }
                String::from_str("H")
            },
            2 => {
                proof {
                    reveal_strlit("W");
                }
                String::from_str("W")
            },
            12 => {
                proof {
                    reveal_strlit("O");
                }
                String::from_str("O")
            },
            n => {
                proof {
                    reveal_strlit("T(");
                    reveal_strlit(")");
                }
                let mut s = String::from_str("T(");
                s.append(dec_u8(n).as_str());
                s.append(")");
                proof {
                    assert(s@ =~= spec_show_tone(self@));
                }
                s
            },
        }
    }

    /// The debug form: the display form with the semitone count attached
    /// for the three named sizes, e.g. `"H(1)"`.
    pub fn show_debug(&self) -> (r: String)
        ensures
            r@ == spec_show_tone_debug(self@),
    {
        match self.0 {
            1 => {
                proof {
                    reveal_strlit("H(1)");
                }
                String::from_str("H(1)")
            },
            2 => {
                proof {
                    reveal_strlit("W(2)");
                }
                String::from_str("W(2)")
            },
            12 => {
                proof {
                    reveal_strlit("O(12)");
                }
                String::from_str("O(12)")
            },
            n => {
                proof {
                    reveal_strlit("T(");
                    reveal_strlit(")");
                }
                let mut s = String::from_str("T(");
                s.append(dec_u8(n).as_str());
                s.append(")");
                proof {
                    assert(s@ =~= spec_show_tone_debug(self@));
                }
                s
            },
        }
    }
}

/// The display form of a tone of `n` semitones.
pub open spec fn spec_show_tone(n: int) -> Seq<char> {
    if n == 1 {
        seq!['H']
    } else if n == 2 {
        seq!['W']
    } else if n == 12 {
        seq!['O']
    } else {
        seq!['T', '('] + spec_dec_nat(n as nat) + seq![')']
    }
}

/// The debug form of a tone of `n` semitones.
pub open spec fn spec_show_tone_debug(n: int) -> Seq<char> {
    if n == 1 {
        seq!['H', '(', '1', ')']
    } else if n == 2 {
        seq!['W', '(', '2', ')']
    } else if n == 12 {
        seq!['O', '(', '1', '2', ')']
    } else {
        seq!['T', '('] + spec_dec_nat(n as nat) + seq![')']
    }
}

impl From<u8> for Tone {
    /// Wraps a raw semitone count.
    fn from(value: u8) -> (r: Tone) {
        Tone(value)
    }
}

impl vstd::std_specs::convert::FromSpecImpl<u8> for Tone {
    open spec fn obeys_from_spec() -> bool {
        true
    }

    open spec fn from_spec(value: u8) -> Tone {
        Tone(value)
    }
}

impl From<Tone> for u8 {
    /// Unwraps the semitone count.
    fn from(tone: Tone) -> (r: u8) {
        tone.0
    }
}

impl vstd::std_specs::convert::FromSpecImpl<Tone> for u8 {
    open spec fn obeys_from_spec() -> bool {
        true
    }

    open spec fn from_spec(tone: Tone) -> u8 {
        tone.0
    }
}

} // verus!
