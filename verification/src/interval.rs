//! Named canonical semitone distances, minor second through octave.

use vstd::prelude::*;

verus! {

/// A canonical interval: a semitone size in `1..=12` with a fixed label.
///
/// Sizes outside that range reduce modulo twelve on construction; a
/// reduced size of zero has no label and is a programming error, so the
/// label lookup excludes it.
#[derive(Clone, Copy, Debug, PartialEq, Eq, Structural)]
pub struct Interval(pub u8);

impl View for Interval {
    type V = int;

    open spec fn view(&self) -> int {
        self.0 as int
    }
}

/// A minor second: one semitone.
pub fn minor_2nd() -> (r: Interval)
    ensures
        r@ == 1,
{
    Interval(1)
}

/// A major second: two semitones.
pub fn major_2nd() -> (r: Interval)
    ensures
        r@ == 2,
{
    Interval(2)
}

/// A minor third: three semitones.
pub fn minor_3rd() -> (r: Interval)
    ensures
        r@ == 3,
{
    Interval(3)
}

/// A major third: four semitones.
pub fn major_3rd() -> (r: Interval)
    ensures
        r@ == 4,
{
    Interval(4)
}

/// A perfect fourth: five semitones.
pub fn perfect_4th() -> (r: Interval)
    ensures
        r@ == 5,
{
    Interval(5)
}

/// A tritone: six semitones.
pub fn tritone() -> (r: Interval)
    ensures
        r@ == 6,
{
    Interval(6)
}

/// An augmented fourth: six semitones, the same size as the tritone.
pub fn augmented_4th() -> (r: Interval)
    ensures
        r@ == 6,
{
    Interval(6)
}

/// A diminished fifth: six semitones, the same size as the tritone.
pub fn diminished_5th() -> (r: Interval)
    ensures
        r@ == 6,
{
    Interval(6)
}

/// A perfect fifth: seven semitones.
pub fn perfect_5th() -> (r: Interval)
    ensures
        r@ == 7,
{
    Interval(7)
}

/// A minor sixth: eight semitones.
pub fn minor_6th() -> (r: Interval)
    ensures
        r@ == 8,
{
    Interval(8)
}

/// A major sixth: nine semitones.
pub fn major_6th() -> (r: Interval)
    ensures
        r@ == 9,
{
    Interval(9)
}

/// A minor seventh: ten semitones.
pub fn minor_7th() -> (r: Interval)
    ensures
        r@ == 10,
{
    Interval(10)
}

/// A major seventh: eleven semitones.
pub fn major_7th() -> (r: Interval)
    ensures
        r@ == 11,
{
    Interval(11)
}

/// An octave: twelve semitones.
pub fn octave_8ve() -> (r: Interval)
    ensures
        r@ == 12,
{
    Interval(12)
}

/// The canonical label of the interval size `n` in `1..=12`.
pub open spec fn spec_interval_name(n: int) -> Seq<char> {
    if n == 1 {
        seq!['M', 'i', 'n', 'o', 'r', '2', 'n', 'd']
    } else if n == 2 {
        seq!['M', 'a', 'j', 'o', 'r', '2', 'n', 'd']
    } else if n == 3 {
        seq!['M', 'i', 'n', 'o', 'r', '3', 'r', 'd']
    } else if n == 4 {
        seq!['M', 'a', 'j', 'o', 'r', '3', 'r', 'd']
    } else if n == 5 {
        seq!['P', 'e', 'r', 'f', 'e', 'c', 't', '4', 't', 'h']
    } else if n == 6 {
        seq!['T', 'r', 'i', 't', 'o', 'n', 'e']
    } else if n == 7 {
        seq!['P', 'e', 'r', 'f', 'e', 'c', 't', '5', 't', 'h']
    } else if n == 8 {
        seq!['M', 'i', 'n', 'o', 'r', '6', 't', 'h']
    } else if n == 9 {
        seq!['M', 'a', 'j', 'o', 'r', '6', 't', 'h']
    } else if n == 10 {
        seq!['M', 'i', 'n', 'o', 'r', '7', 't', 'h']
    } else if n == 11 {
        seq!['M', 'a', 'j', 'o', 'r', '7', 't', 'h']
    } else {
        seq!['O', 'c', 't', 'a', 'v', 'e']
    }
}

impl Interval {
    /// The semitone size carried by this interval.
    pub fn inner(&self) -> (r: u8)
        ensures
            r as int == self@,
    {
        self.0
    }

    /// The canonical label of this interval.  A size of zero has no
    /// label: it signals a programming defect, so it is excluded here
    /// rather than reported as a recoverable error.
    pub fn show(&self) -> (r: &'static str)
        requires
            1 <= self@ <= 12,
        ensures
            r@ == spec_interval_name(self@),
    {
        proof {
            reveal_strlit("Minor2nd");
            reveal_strlit("Major2nd");
            reveal_strlit("Minor3rd");
            reveal_strlit("Major3rd");
            reveal_strlit("Perfect4th");
            reveal_strlit("Tritone");
            reveal_strlit("Perfect5th");
            reveal_strlit("Minor6th");
            reveal_strlit("Major6th");
            reveal_strlit("Minor7th");
            reveal_strlit("Major7th");
            reveal_strlit("Octave");
        }
        let r = match self.0 {
            1 => "Minor2nd",
            2 => "Major2nd",
            3 => "Minor3rd",
            4 => "Major3rd",
            5 => "Perfect4th",
            6 => "Tritone",
            7 => "Perfect5th",
            8 => "Minor6th",
            9 => "Major6th",
            10 => "Minor7th",
            11 => "Major7th",
            _ => "Octave",
        };
        proof {
            assert(r@ =~= spec_interval_name(self@));
        }
        r
    }
}

impl From<u8> for Interval {
    /// Reduces a semitone size modulo twelve and keeps the canonical
    /// label size.  A full octave, size twelve exactly, stays the octave
    /// interval; any other multiple of twelve reduces to the unlabelled
    /// size zero.
    fn from(value: u8) -> (r: Interval) {
        if value == 12 {
            Interval(12)
        } else {
            Interval(value % 12)
        }
    }
}

impl vstd::std_specs::convert::FromSpecImpl<u8> for Interval {
    open spec fn obeys_from_spec() -> bool {
        true
    }

    open spec fn from_spec(value: u8) -> Interval {
        if value == 12 {
            Interval(12)
        } else {
            Interval((value as int % 12) as u8)
        }
    }
}

impl From<Interval> for u8 {
    /// Unwraps the semitone size.
    fn from(interval: Interval) -> (r: u8) {
        interval.0
    }
}

impl vstd::std_specs::convert::FromSpecImpl<Interval> for u8 {
    open spec fn obeys_from_spec() -> bool {
        true
    }

    open spec fn from_spec(interval: Interval) -> u8 {
        interval.0
    }
}

} // verus!
