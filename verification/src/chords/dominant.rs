//! The dominant chord family: seventh through thirteenth and altered
//! forms.

use vstd::prelude::*;

use crate::chords::{Chords, Family};
use crate::note::{
    lemma_sum3, lemma_sum4, lemma_sum5, lemma_sum6, spec_step_offsets, Note,
};

verus! {

/// The catalog descriptions of the dominant family rooted at `root`, in
/// ascending extension order with the altered fifths beside the plain
/// seventh.
pub open spec fn spec_dominant_descs(root: int) -> Seq<(Family, Seq<char>, Seq<int>)> {
    seq![
        (Family::Dominant, seq!['7'], spec_step_offsets(root, seq![4int, 3, 3])),
        (Family::Dominant, seq!['7', 'b', '5'], spec_step_offsets(root, seq![4int, 2, 4])),
        (Family::Dominant, seq!['7', '#', '5'], spec_step_offsets(root, seq![4int, 4, 2])),
        (Family::Dominant, seq!['9'], spec_step_offsets(root, seq![4int, 3, 3, 4])),
        (Family::Dominant, seq!['1', '1'], spec_step_offsets(root, seq![4int, 3, 3, 4, 3])),
        (
            Family::Dominant,
            seq!['1', '3'],
            spec_step_offsets(root, seq![4int, 3, 3, 4, 3, 4]),
        ),
        (
            Family::Dominant,
            seq!['1', '3', 'b', '9', 'b', '1', '3'],
            spec_step_offsets(root, seq![4int, 3, 3, 3, 4, 3]),
        ),
    ]
}

/// Builds the dominant seventh chord on `root`: steps `[4, 3, 3]`,
/// suffix `7`.
pub fn dom7(root: Note) -> (c: Chords)
    requires
        root@ + 10 <= i8::MAX,
    ensures
        c.spec_desc() == spec_dominant_descs(root@)[0],
{
    let steps: Vec<u8> = vec![4, 3, 3];
    proof {
        assert(steps@.map_values(|x: u8| x as int) =~= seq![4int, 3, 3]);
        lemma_sum3(4, 3, 3);
        reveal_strlit("7");
        assert("7"@ =~= seq!['7']);
    }
    Chords::dominant_with_steps("7", root, &steps)
}

/// Builds the dominant seventh flat-five chord on `root`: steps `[4, 2,
/// 4]`, suffix `7b5`.
pub fn dom7b5(root: Note) -> (c: Chords)
    requires
        root@ + 10 <= i8::MAX,
    ensures
        c.spec_desc() == spec_dominant_descs(root@)[1],
{
    let steps: Vec<u8> = vec![4, 2, 4];
    proof {
        assert(steps@.map_values(|x: u8| x as int) =~= seq![4int, 2, 4]);
        lemma_sum3(4, 2, 4);
        reveal_strlit("7b5");
        assert("7b5"@ =~= seq!['7', 'b', '5']);
    }
    Chords::dominant_with_steps("7b5", root, &steps)
}

/// Builds the dominant seventh sharp-five chord on `root`: steps `[4, 4,
/// 2]`, suffix `7#5`.
pub fn dom7s5(root: Note) -> (c: Chords)
    requires
        root@ + 10 <= i8::MAX,
    ensures
        c.spec_desc() == spec_dominant_descs(root@)[2],
{
    let steps: Vec<u8> = vec![4, 4, 2];
    proof {
        assert(steps@.map_values(|x: u8| x as int) =~= seq![4int, 4, 2]);
        lemma_sum3(4, 4, 2);
        reveal_strlit("7#5");
        assert("7#5"@ =~= seq!['7', '#', '5']);
    }
    Chords::dominant_with_steps("7#5", root, &steps)
}

/// Builds the dominant ninth chord on `root`: steps `[4, 3, 3, 4]`,
/// suffix `9`.
pub fn dom9(root: Note) -> (c: Chords)
    requires
        root@ + 14 <= i8::MAX,
    ensures
        c.spec_desc() == spec_dominant_descs(root@)[3],
{
    let steps: Vec<u8> = vec![4, 3, 3, 4];
    proof {
        assert(steps@.map_values(|x: u8| x as int) =~= seq![4int, 3, 3, 4]);
        lemma_sum4(4, 3, 3, 4);
        reveal_strlit("9");
        assert("9"@ =~= seq!['9']);
    }
    Chords::dominant_with_steps("9", root, &steps)
}

/// Builds the dominant eleventh chord on `root`: steps `[4, 3, 3, 4,
/// 3]`, suffix `11`.
pub fn dom11(root: Note) -> (c: Chords)
    requires
        root@ + 17 <= i8::MAX,
    ensures
        c.spec_desc() == spec_dominant_descs(root@)[4],
{
    let steps: Vec<u8> = vec![4, 3, 3, 4, 3];
    proof {
        assert(steps@.map_values(|x: u8| x as int) =~= seq![4int, 3, 3, 4, 3]);
        lemma_sum5(4, 3, 3, 4, 3);
        reveal_strlit("11");
        assert("11"@ =~= seq!['1', '1']);
    }
    Chords::dominant_with_steps("11", root, &steps)
}

/// Builds the dominant thirteenth chord on `root`: steps `[4, 3, 3, 4,
/// 3, 4]`, suffix `13`.
pub fn dom13(root: Note) -> (c: Chords)
    requires
        root@ + 21 <= i8::MAX,
    ensures
        c.spec_desc() == spec_dominant_descs(root@)[5],
{
    let steps: Vec<u8> = vec![4, 3, 3, 4, 3, 4];
    proof {
        assert(steps@.map_values(|x: u8| x as int) =~= seq![4int, 3, 3, 4, 3, 4]);
        lemma_sum6(4, 3, 3, 4, 3, 4);
        reveal_strlit("13");
        assert("13"@ =~= seq!['1', '3']);
    }
    Chords::dominant_with_steps("13", root, &steps)
}

/// Builds the dominant thirteenth flat-nine flat-thirteen chord on
/// `root`: steps `[4, 3, 3, 3, 4, 3]`, suffix `13b9b13`.
pub fn dom13b9b13(root: Note) -> (c: Chords)
    requires
        root@ + 20 <= i8::MAX,
    ensures
        c.spec_desc() == spec_dominant_descs(root@)[6],
{
    let steps: Vec<u8> = vec![4, 3, 3, 3, 4, 3];
    proof {
        assert(steps@.map_values(|x: u8| x as int) =~= seq![4int, 3, 3, 3, 4, 3]);
        lemma_sum6(4, 3, 3, 3, 4, 3);
        reveal_strlit("13b9b13");
        assert("13b9b13"@ =~= seq!['1', '3', 'b', '9', 'b', '1', '3']);
    }
    Chords::dominant_with_steps("13b9b13", root, &steps)
}

/// Every chord of the dominant family rooted at `root`, in ascending
/// extension order.
pub fn dominant_chords(root: Note) -> (r: Vec<Chords>)
    requires
        root@ + 21 <= i8::MAX,
    ensures
        r@.map_values(|c: Chords| c.spec_desc()) == spec_dominant_descs(root@),
{
    let mut r: Vec<Chords> = Vec::new();
    r.push(dom7(root));
    r.push(dom7b5(root));
    r.push(dom7s5(root));
    r.push(dom9(root));
    r.push(dom11(root));
    r.push(dom13(root));
    r.push(dom13b9b13(root));
    proof {
        assert(r@.map_values(|c: Chords| c.spec_desc()) =~= spec_dominant_descs(root@));
    }
    r
}

} // verus!
