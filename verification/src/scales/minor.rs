//! The natural minor and pentatonic minor scales.

use vstd::prelude::*;

use crate::note::{lemma_sum5, lemma_sum7, spec_step_offsets, Note};
use crate::scales::Scales;

verus! {

/// The description of the natural minor scale on `tonic`: steps `[2, 1,
/// 2, 2, 1, 2, 2]`, named ` minor`.
pub open spec fn spec_minor_scale_desc(tonic: int) -> (bool, Seq<char>, Seq<int>) {
    (
        false,
        seq![' ', 'm', 'i', 'n', 'o', 'r'],
        spec_step_offsets(tonic, seq![2int, 1, 2, 2, 1, 2, 2]),
    )
}

/// The description of the pentatonic minor scale on `tonic`: steps `[3,
/// 2, 2, 3, 2]`, named ` penta minor`.
pub open spec fn spec_penta_minor_scale_desc(tonic: int) -> (bool, Seq<char>, Seq<int>) {
    (
        false,
        seq![' ', 'p', 'e', 'n', 't', 'a', ' ', 'm', 'i', 'n', 'o', 'r'],
        spec_step_offsets(tonic, seq![3int, 2, 2, 3, 2]),
    )
}

/// Builds the natural minor scale on `tonic`: eight notes spanning one
/// octave.
pub fn minor(tonic: Note) -> (s: Scales)
    requires
        tonic@ + 12 <= i8::MAX,
    ensures
        s.spec_desc() == spec_minor_scale_desc(tonic@),
{
    let steps: Vec<u8> = vec![2, 1, 2, 2, 1, 2, 2];
    proof {
        assert(steps@.map_values(|x: u8| x as int) =~= seq![2int, 1, 2, 2, 1, 2, 2]);
        lemma_sum7(2, 1, 2, 2, 1, 2, 2);
        reveal_strlit(" minor");
        assert(" minor"@ =~= seq![' ', 'm', 'i', 'n', 'o', 'r']);
    }
    Scales::minor_with_steps(" minor", tonic, &steps)
}

/// Builds the pentatonic minor scale on `tonic`: six notes spanning one
/// octave.
pub fn pentatonic_minor(tonic: Note) -> (s: Scales)
    requires
        tonic@ + 12 <= i8::MAX,
    ensures
        s.spec_desc() == spec_penta_minor_scale_desc(tonic@),
{
    let steps: Vec<u8> = vec![3, 2, 2, 3, 2];
    proof {
        assert(steps@.map_values(|x: u8| x as int) =~= seq![3int, 2, 2, 3, 2]);
        lemma_sum5(3, 2, 2, 3, 2);
        reveal_strlit(" penta minor");
        assert(" penta minor"@ =~= seq![
            ' ', 'p', 'e', 'n', 't', 'a', ' ', 'm', 'i', 'n', 'o', 'r',
        ]);
    }
    Scales::minor_with_steps(" penta minor", tonic, &steps)
}

} // verus!
