//! The major scale.

use vstd::prelude::*;

use crate::note::{lemma_sum7, spec_step_offsets, Note};
use crate::scales::Scales;

verus! {

/// The description of the major scale on `tonic`: whole and half steps
/// `[2, 2, 1, 2, 2, 2, 1]`, named ` major`.
pub open spec fn spec_major_scale_desc(tonic: int) -> (bool, Seq<char>, Seq<int>) {
    (
        true,
        seq![' ', 'm', 'a', 'j', 'o', 'r'],
        spec_step_offsets(tonic, seq![2int, 2, 1, 2, 2, 2, 1]),
    )
}

/// Builds the major scale on `tonic`: eight notes spanning one octave.
pub fn major(tonic: Note) -> (s: Scales)
    requires
        tonic@ + 12 <= i8::MAX,
    ensures
        s.spec_desc() == spec_major_scale_desc(tonic@),
{
    let steps: Vec<u8> = vec![2, 2, 1, 2, 2, 2, 1];
    proof {
        assert(steps@.map_values(|x: u8| x as int) =~= seq![2int, 2, 1, 2, 2, 2, 1]);
        lemma_sum7(2, 2, 1, 2, 2, 2, 1);
        reveal_strlit(" major");
        assert(" major"@ =~= seq![' ', 'm', 'a', 'j', 'o', 'r']);
    }
    Scales::major_with_steps(" major", tonic, &steps)
}

} // verus!
