//! Octave register labels: a cosmetic annotation layered on notes.

use vstd::prelude::*;

use crate::text::{dec_u8, spec_dec_nat};

verus! {

/// A small register label, shown as `C0` through `C7`.
#[derive(Clone, Copy, Debug, PartialEq, Eq, Structural)]
pub struct Octave(pub u8);

impl View for Octave {
    type V = int;

    open spec fn view(&self) -> int {
        self.0 as int
    }
}

/// How many register labels the catalog names.
pub const OCTAVE_COUNT: u8 = 8;

/// The register `C0`.
pub fn c0() -> (r: Octave)
    ensures
        r@ == 0,
{
    Octave(0)
}

/// The register `C1`.
pub fn c1() -> (r: Octave)
    ensures
        r@ == 1,
{
    Octave(1)
}

/// The register `C2`.
pub fn c2() -> (r: Octave)
    ensures
        r@ == 2,
{
    Octave(2)
}

/// The register `C3`.
pub fn c3() -> (r: Octave)
    ensures
        r@ == 3,
{
    Octave(3)
}

/// The register `C4`: the reference octave.
pub fn c4() -> (r: Octave)
    ensures
        r@ == 4,
{
    Octave(4)
}

/// The register `C5`.
pub fn c5() -> (r: Octave)
    ensures
        r@ == 5,
{
    Octave(5)
}

/// The register `C6`.
pub fn c6() -> (r: Octave)
    ensures
        r@ == 6,
{
    Octave(6)
}

/// The register `C7`.
pub fn c7() -> (r: Octave)
    ensures
        r@ == 7,
{
    Octave(7)
}

/// The display form of the register `n`: `C` followed by the register
/// number.
pub open spec fn spec_show_octave(n: int) -> Seq<char> {
    seq!['C'] + spec_dec_nat(n as nat)
}

impl Octave {
    /// The register number carried by this label.
    pub fn inner(&self) -> (r: u8)
        ensures
            r as int == self@,
    {
        self.0
    }

    /// The display form, e.g. `C4`.
    pub fn show(&self) -> (r: String)
        ensures
            r@ == spec_show_octave(self@),
    {
        proof {
            reveal_strlit("C");
        }
        let mut s = String::from_str("C");
        s.append(dec_u8(self.0).as_str());
        proof {
            assert(s@ =~= spec_show_octave(self@));
        }
        s
    }

    /// The debug form, identical to the display form.
    pub fn show_debug(&self) -> (r: String)
        ensures
            r@ == spec_show_octave(self@),
    {
        self.show()
    }
}

impl Default for Octave {
    /// The reference octave `C4`.
    fn default() -> (r: Octave)
        ensures
            r@ == 4,
    {
        Octave(4)
    }
}

impl From<u8> for Octave {
    /// Wraps a raw register number.
    fn from(value: u8) -> (r: Octave) {
        Octave(value)
    }
}

impl vstd::std_specs::convert::FromSpecImpl<u8> for Octave {
    open spec fn obeys_from_spec() -> bool {
        true
    }

    open spec fn from_spec(value: u8) -> Octave {
        Octave(value)
    }
}

impl From<Octave> for u8 {
    /// Unwraps the register number.
    fn from(octave: Octave) -> (r: u8) {
        octave.0
    }
}

impl vstd::std_specs::convert::FromSpecImpl<Octave> for u8 {
    open spec fn obeys_from_spec() -> bool {
        true
    }

    open spec fn from_spec(octave: Octave) -> u8 {
        octave.0
    }
}

} // verus!
