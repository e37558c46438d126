//! The minor chord family: triad through thirteenth.

use vstd::prelude::*;

use crate::chords::{Chords, Family};
use crate::note::{
    lemma_sum2, lemma_sum3, lemma_sum4, lemma_sum5, lemma_sum6, spec_step_offsets, Note,
};

verus! {

/// The catalog descriptions of the minor family rooted at `root`, in
/// ascending extension order.
pub open spec fn spec_minor_descs(root: int) -> Seq<(Family, Seq<char>, Seq<int>)> {
    seq![
        (Family::Minor, seq!['m'], spec_step_offsets(root, seq![3int, 4])),
        (Family::Minor, seq!['m', '7'], spec_step_offsets(root, seq![3int, 4, 3])),
        (
            Family::Minor,
            seq!['m', '7', '(', 'b', '5', ')'],
            spec_step_offsets(root, seq![3int, 3, 4]),
        ),
        (Family::Minor, seq!['m', '9'], spec_step_offsets(root, seq![3int, 4, 3, 4])),
        (Family::Minor, seq!['m', '1', '1'], spec_step_offsets(root, seq![3int, 4, 3, 4, 3])),
        (
            Family::Minor,
            seq!['m', '1', '3'],
            spec_step_offsets(root, seq![3int, 4, 3, 4, 3, 4]),
        ),
    ]
}

/// Builds the minor triad on `root`: steps `[3, 4]`, suffix `m`.
pub fn min(root: Note) -> (c: Chords)
    requires
        root@ + 7 <= i8::MAX,
    ensures
        c.spec_desc() == spec_minor_descs(root@)[0],
{
    let steps: Vec<u8> = vec![3, 4];
    proof {
        assert(steps@.map_values(|x: u8| x as int) =~= seq![3int, 4]);
        lemma_sum2(3, 4);
        reveal_strlit("m");
        assert("m"@ =~= seq!['m']);
    }
    Chords::minor_with_steps("m", root, &steps)
}

/// Builds the minor seventh chord on `root`: steps `[3, 4, 3]`, suffix
/// `m7`.
pub fn min7(root: Note) -> (c: Chords)
    requires
        root@ + 10 <= i8::MAX,
    ensures
        c.spec_desc() == spec_minor_descs(root@)[1],
{
    let steps: Vec<u8> = vec![3, 4, 3];
    proof {
        assert(steps@.map_values(|x: u8| x as int) =~= seq![3int, 4, 3]);
        lemma_sum3(3, 4, 3);
        reveal_strlit("m7");
        assert("m7"@ =~= seq!['m', '7']);
    }
    Chords::minor_with_steps("m7", root, &steps)
}

/// Builds the half-diminished seventh chord on `root`: steps `[3, 3,
/// 4]`, suffix `m7(b5)`.
pub fn min7b5(root: Note) -> (c: Chords)
    requires
        root@ + 10 <= i8::MAX,
    ensures
        c.spec_desc() == spec_minor_descs(root@)[2],
{
    let steps: Vec<u8> = vec![3, 3, 4];
    proof {
        assert(steps@.map_values(|x: u8| x as int) =~= seq![3int, 3, 4]);
        lemma_sum3(3, 3, 4);
        reveal_strlit("m7(b5)");
        assert("m7(b5)"@ =~= seq!['m', '7', '(', 'b', '5', ')']);
    }
    Chords::minor_with_steps("m7(b5)", root, &steps)
}

/// Builds the minor ninth chord on `root`: steps `[3, 4, 3, 4]`, suffix
/// `m9`.
pub fn min9(root: Note) -> (c: Chords)
    requires
        root@ + 14 <= i8::MAX,
    ensures
        c.spec_desc() == spec_minor_descs(root@)[3],
{
    let steps: Vec<u8> = vec![3, 4, 3, 4];
    proof {
        assert(steps@.map_values(|x: u8| x as int) =~= seq![3int, 4, 3, 4]);
        lemma_sum4(3, 4, 3, 4);
        reveal_strlit("m9");
        assert("m9"@ =~= seq!['m', '9']);
    }
    Chords::minor_with_steps("m9", root, &steps)
}

/// Builds the minor eleventh chord on `root`: steps `[3, 4, 3, 4, 3]`,
/// suffix `m11`.
pub fn min11(root: Note) -> (c: Chords)
    requires
        root@ + 17 <= i8::MAX,
    ensures
        c.spec_desc() == spec_minor_descs(root@)[4],
{
    let steps: Vec<u8> = vec![3, 4, 3, 4, 3];
    proof {
        assert(steps@.map_values(|x: u8| x as int) =~= seq![3int, 4, 3, 4, 3]);
        lemma_sum5(3, 4, 3, 4, 3);
        reveal_strlit("m11");
        assert("m11"@ =~= seq!['m', '1', '1']);
    }
    Chords::minor_with_steps("m11", root, &steps)
}

/// Builds the minor thirteenth chord on `root`: steps `[3, 4, 3, 4, 3,
/// 4]`, suffix `m13`.
pub fn min13(root: Note) -> (c: Chords)
    requires
        root@ + 21 <= i8::MAX,
    ensures
        c.spec_desc() == spec_minor_descs(root@)[5],
{
    let steps: Vec<u8> = vec![3, 4, 3, 4, 3, 4];
    proof {
        assert(steps@.map_values(|x: u8| x as int) =~= seq![3int, 4, 3, 4, 3, 4]);
        lemma_sum6(3, 4, 3, 4, 3, 4);
        reveal_strlit("m13");
        assert("m13"@ =~= seq!['m', '1', '3']);
    }
    Chords::minor_with_steps("m13", root, &steps)
}

/// Every chord of the minor family rooted at `root`, in ascending
/// extension order.
pub fn minor_chords(root: Note) -> (r: Vec<Chords>)
    requires
        root@ + 21 <= i8::MAX,
    ensures
        r@.map_values(|c: Chords| c.spec_desc()) == spec_minor_descs(root@),
{
    let mut r: Vec<Chords> = Vec::new();
    r.push(min(root));
    r.push(min7(root));
    r.push(min7b5(root));
    r.push(min9(root));
    r.push(min11(root));
    r.push(min13(root));
    proof {
        assert(r@.map_values(|c: Chords| c.spec_desc()) =~= spec_minor_descs(root@));
    }
    r
}

} // verus!
