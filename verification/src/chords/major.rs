//! The major chord family: triad through thirteenth.

use vstd::prelude::*;

use crate::chords::{Chords, Family};
use crate::note::{
    lemma_sum2, lemma_sum3, lemma_sum4, lemma_sum5, lemma_sum6, spec_step_offsets, Note,
};

verus! {

/// The catalog descriptions of the major family rooted at `root`, in
/// ascending extension order.
pub open spec fn spec_major_descs(root: int) -> Seq<(Family, Seq<char>, Seq<int>)> {
    seq![
        (Family::Major, Seq::<char>::empty(), spec_step_offsets(root, seq![4int, 3])),
        (Family::Major, seq!['m', 'a', 'j', '7'], spec_step_offsets(root, seq![4int, 3, 4])),
        (Family::Major, seq!['m', 'a', 'j', '9'], spec_step_offsets(root, seq![4int, 3, 4, 3])),
        (
            Family::Major,
            seq!['m', 'a', 'j', '1', '1'],
            spec_step_offsets(root, seq![4int, 3, 4, 3, 3]),
        ),
        (
            Family::Major,
            seq!['m', 'a', 'j', '1', '3'],
            spec_step_offsets(root, seq![4int, 3, 4, 3, 3, 4]),
        ),
    ]
}

/// Builds the major triad on `root`: steps `[4, 3]`, no display suffix.
pub fn maj(root: Note) -> (c: Chords)
    requires
        root@ + 7 <= i8::MAX,
    ensures
        c.spec_desc() == spec_major_descs(root@)[0],
{
    let steps: Vec<u8> = vec![4, 3];
    proof {
        assert(steps@.map_values(|x: u8| x as int) =~= seq![4int, 3]);
        lemma_sum2(4, 3);
        reveal_strlit("");
        assert(""@ =~= Seq::<char>::empty());
    }
    Chords::major_with_steps("", root, &steps)
}

/// Builds the major seventh chord on `root`: steps `[4, 3, 4]`, suffix
/// `maj7`.
pub fn maj7(root: Note) -> (c: Chords)
    requires
        root@ + 11 <= i8::MAX,
    ensures
        c.spec_desc() == spec_major_descs(root@)[1],
{
    let steps: Vec<u8> = vec![4, 3, 4];
    proof {
        assert(steps@.map_values(|x: u8| x as int) =~= seq![4int, 3, 4]);
        lemma_sum3(4, 3, 4);
        reveal_strlit("maj7");
        assert("maj7"@ =~= seq!['m', 'a', 'j', '7']);
    }
    Chords::major_with_steps("maj7", root, &steps)
}

/// Builds the major ninth chord on `root`: steps `[4, 3, 4, 3]`, suffix
/// `maj9`.
pub fn maj9(root: Note) -> (c: Chords)
    requires
        root@ + 14 <= i8::MAX,
    ensures
        c.spec_desc() == spec_major_descs(root@)[2],
{
    let steps: Vec<u8> = vec![4, 3, 4, 3];
    proof {
        assert(steps@.map_values(|x: u8| x as int) =~= seq![4int, 3, 4, 3]);
        lemma_sum4(4, 3, 4, 3);
        reveal_strlit("maj9");
        assert("maj9"@ =~= seq!['m', 'a', 'j', '9']);
    }
    Chords::major_with_steps("maj9", root, &steps)
}

/// Builds the major eleventh chord on `root`: steps `[4, 3, 4, 3, 3]`,
/// suffix `maj11`.
pub fn maj11(root: Note) -> (c: Chords)
    requires
        root@ + 17 <= i8::MAX,
    ensures
        c.spec_desc() == spec_major_descs(root@)[3],
{
    let steps: Vec<u8> = vec![4, 3, 4, 3, 3];
    proof {
        assert(steps@.map_values(|x: u8| x as int) =~= seq![4int, 3, 4, 3, 3]);
        lemma_sum5(4, 3, 4, 3, 3);
        reveal_strlit("maj11");
        assert("maj11"@ =~= seq!['m', 'a', 'j', '1', '1']);
    }
    Chords::major_with_steps("maj11", root, &steps)
}

/// Builds the major thirteenth chord on `root`: steps `[4, 3, 4, 3, 3,
/// 4]`, suffix `maj13`.
pub fn maj13(root: Note) -> (c: Chords)
    requires
        root@ + 21 <= i8::MAX,
    ensures
        c.spec_desc() == spec_major_descs(root@)[4],
{
    let steps: Vec<u8> = vec![4, 3, 4, 3, 3, 4];
    proof {
        assert(steps@.map_values(|x: u8| x as int) =~= seq![4int, 3, 4, 3, 3, 4]);
        lemma_sum6(4, 3, 4, 3, 3, 4);
        reveal_strlit("maj13");
        assert("maj13"@ =~= seq!['m', 'a', 'j', '1', '3']);
    }
    Chords::major_with_steps("maj13", root, &steps)
}

/// Every chord of the major family rooted at `root`, in ascending
/// extension order.
pub fn major_chords(root: Note) -> (r: Vec<Chords>)
    requires
        root@ + 21 <= i8::MAX,
    ensures
        r@.map_values(|c: Chords| c.spec_desc()) == spec_major_descs(root@),
{
    let mut r: Vec<Chords> = Vec::new();
    r.push(maj(root));
    r.push(maj7(root));
    r.push(maj9(root));
    r.push(maj11(root));
    r.push(maj13(root));
    proof {
        assert(r@.map_values(|c: Chords| c.spec_desc()) =~= spec_major_descs(root@));
    }
    r
}

} // verus!
