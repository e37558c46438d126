//! The diminished chord family: triad and diminished seventh.

use vstd::prelude::*;

use crate::chords::{Chords, Family};
use crate::note::{lemma_sum2, lemma_sum3, spec_step_offsets, Note};

verus! {

/// The catalog descriptions of the diminished family rooted at `root`.
pub open spec fn spec_diminished_descs(root: int) -> Seq<(Family, Seq<char>, Seq<int>)> {
    seq![
        (Family::Diminished, seq!['d', 'i', 'm'], spec_step_offsets(root, seq![3int, 3])),
        (
            Family::Diminished,
            seq!['d', 'i', 'm', '7'],
            spec_step_offsets(root, seq![3int, 3, 3]),
        ),
    ]
}

/// Builds the diminished triad on `root`: steps `[3, 3]`, suffix `dim`.
pub fn dim(root: Note) -> (c: Chords)
    requires
        root@ + 6 <= i8::MAX,
    ensures
        c.spec_desc() == spec_diminished_descs(root@)[0],
{
    let steps: Vec<u8> = vec![3, 3];
    proof {
        assert(steps@.map_values(|x: u8| x as int) =~= seq![3int, 3]);
        lemma_sum2(3, 3);
        reveal_strlit("dim");
        assert("dim"@ =~= seq!['d', 'i', 'm']);
    }
    Chords::diminished_with_steps("dim", root, &steps)
}

/// Builds the diminished seventh chord on `root`: steps `[3, 3, 3]`,
/// suffix `dim7`.
pub fn dim7(root: Note) -> (c: Chords)
    requires
        root@ + 9 <= i8::MAX,
    ensures
        c.spec_desc() == spec_diminished_descs(root@)[1],
{
    let steps: Vec<u8> = vec![3, 3, 3];
    proof {
        assert(steps@.map_values(|x: u8| x as int) =~= seq![3int, 3, 3]);
        lemma_sum3(3, 3, 3);
        reveal_strlit("dim7");
        assert("dim7"@ =~= seq!['d', 'i', 'm', '7']);
    }
    Chords::diminished_with_steps("dim7", root, &steps)
}

/// Every chord of the diminished family rooted at `root`.
pub fn diminished_chords(root: Note) -> (r: Vec<Chords>)
    requires
        root@ + 9 <= i8::MAX,
    ensures
        r@.map_values(|c: Chords| c.spec_desc()) == spec_diminished_descs(root@),
{
    let mut r: Vec<Chords> = Vec::new();
    r.push(dim(root));
    r.push(dim7(root));
    proof {
        assert(r@.map_values(|c: Chords| c.spec_desc()) =~= spec_diminished_descs(root@));
    }
    r
}

} // verus!
