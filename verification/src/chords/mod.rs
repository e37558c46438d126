//! Chords: named note sequences generated from a root and a step list.

use vstd::prelude::*;

use crate::note::{
    note_list_flat, note_list_sharp, shift_notes_down, shift_notes_up, spec_base,
    spec_note_list_flat, spec_note_list_sharp, spec_pitch_class, spec_sharp_name,
    spec_step_offsets, spec_sum, step_notes, Note,
};
use crate::tone::Tone;

mod diminished;
mod dominant;
mod major;
mod minor;

pub use diminished::{dim, dim7, diminished_chords, spec_diminished_descs};
pub use dominant::{
    dom11, dom13, dom13b9b13, dom7, dom7b5, dom7s5, dom9, dominant_chords, spec_dominant_descs,
};
pub use major::{maj, maj11, maj13, maj7, maj9, major_chords, spec_major_descs};
pub use minor::{min, min11, min13, min7, min7b5, min9, minor_chords, spec_minor_descs};

verus! {

/// The four chord families of the catalog.
#[derive(Clone, Copy, Debug, PartialEq, Eq, Structural)]
pub enum Family {
    Major,
    Minor,
    Dominant,
    Diminished,
}

/// A chord: a display suffix and the materialized note sequence, tagged
/// by family.  The first note is the root exactly as the constructor
/// received it; later notes accumulate the step list without folding.
pub enum Chords {
    Major(&'static str, Vec<Note>),
    Minor(&'static str, Vec<Note>),
    Dominant(&'static str, Vec<Note>),
    Diminished(&'static str, Vec<Note>),
}

impl Chords {
    /// The family tag of this chord.
    pub open spec fn spec_family(&self) -> Family {
        match self {
            Chords::Major(_, _) => Family::Major,
            Chords::Minor(_, _) => Family::Minor,
            Chords::Dominant(_, _) => Family::Dominant,
            Chords::Diminished(_, _) => Family::Diminished,
        }
    }

    /// The display suffix of this chord.
    pub open spec fn spec_name(&self) -> Seq<char> {
        match self {
            Chords::Major(name, _) => name@,
            Chords::Minor(name, _) => name@,
            Chords::Dominant(name, _) => name@,
            Chords::Diminished(name, _) => name@,
        }
    }

    /// The member notes of this chord.
    pub open spec fn spec_notes(&self) -> Seq<Note> {
        match self {
            Chords::Major(_, notes) => notes@,
            Chords::Minor(_, notes) => notes@,
            Chords::Dominant(_, notes) => notes@,
            Chords::Diminished(_, notes) => notes@,
        }
    }

    /// The raw offsets of the member notes.
    pub open spec fn spec_offsets(&self) -> Seq<int> {
        self.spec_notes().map_values(|n: Note| n@)
    }

    /// Everything a chord shows: family, suffix and member offsets.
    pub open spec fn spec_desc(&self) -> (Family, Seq<char>, Seq<int>) {
        (self.spec_family(), self.spec_name(), self.spec_offsets())
    }
}

impl Chords {
    /// Builds a major-family chord from a root and a step list.
    pub fn major_with_steps(name: &'static str, root: Note, steps: &Vec<u8>) -> (c: Chords)
        requires
            root@ + spec_sum(steps@.map_values(|x: u8| x as int)) <= i8::MAX,
        ensures
            c.spec_desc() == (
                Family::Major,
                name@,
                spec_step_offsets(root@, steps@.map_values(|x: u8| x as int)),
            ),
    {
        Chords::Major(name, step_notes(root, steps))
    }

    /// Builds a minor-family chord from a root and a step list.
    pub fn minor_with_steps(name: &'static str, root: Note, steps: &Vec<u8>) -> (c: Chords)
        requires
            root@ + spec_sum(steps@.map_values(|x: u8| x as int)) <= i8::MAX,
        ensures
            c.spec_desc() == (
                Family::Minor,
                name@,
                spec_step_offsets(root@, steps@.map_values(|x: u8| x as int)),
            ),
    {
        Chords::Minor(name, step_notes(root, steps))
    }

    /// Builds a dominant-family chord from a root and a step list.
    pub fn dominant_with_steps(name: &'static str, root: Note, steps: &Vec<u8>) -> (c:
        Chords)
        requires
            root@ + spec_sum(steps@.map_values(|x: u8| x as int)) <= i8::MAX,
        ensures
            c.spec_desc() == (
                Family::Dominant,
                name@,
                spec_step_offsets(root@, steps@.map_values(|x: u8| x as int)),
            ),
    {
        Chords::Dominant(name, step_notes(root, steps))
    }

    /// Builds a diminished-family chord from a root and a step list.
    pub fn diminished_with_steps(name: &'static str, root: Note, steps: &Vec<u8>) -> (c: Chords)
        requires
            root@ + spec_sum(steps@.map_values(|x: u8| x as int)) <= i8::MAX,
        ensures
            c.spec_desc() == (
                Family::Diminished,
                name@,
                spec_step_offsets(root@, steps@.map_values(|x: u8| x as int)),
            ),
    {
        Chords::Diminished(name, step_notes(root, steps))
    }

    /// The member notes.
    pub fn notes(&self) -> (r: &Vec<Note>)
        ensures
            r@ == self.spec_notes(),
    {
        match self {
            Chords::Major(_, notes) => notes,
            Chords::Minor(_, notes) => notes,
            Chords::Dominant(_, notes) => notes,
            Chords::Diminished(_, notes) => notes,
        }
    }

    /// The display suffix.
    pub fn name(&self) -> (r: &'static str)
        ensures
            r@ == self.spec_name(),
    {
        match self {
            Chords::Major(name, _) => name,
            Chords::Minor(name, _) => name,
            Chords::Dominant(name, _) => name,
            Chords::Diminished(name, _) => name,
        }
    }

    /// The number of member notes.
    pub fn len(&self) -> (r: usize)
        ensures
            r == self.spec_notes().len(),
    {
        self.notes().len()
    }

    /// Whether the chord holds no notes; never true for a chord built by
    /// a catalog constructor.
    pub fn is_empty(&self) -> (r: bool)
        ensures
            r == (self.spec_notes().len() == 0),
    {
        self.len() == 0
    }

    /// The root: the first member note.
    pub fn root(&self) -> (r: Note)
        requires
            self.spec_notes().len() > 0,
        ensures
            r@ == self.spec_offsets()[0],
    {
        self.notes()[0]
    }

    /// The absolute semitone distances between neighbouring members.
    pub fn as_steps(&self) -> (r: Vec<Tone>)
        ensures
            r@.len() + 1 == self.spec_notes().len() || (self.spec_notes().len() == 0 && r@.len()
                == 0),
            forall|i: int|
                0 <= i < r@.len() ==> #[trigger] r@[i]@ == vstd::math::abs(
                    self.spec_offsets()[i] - self.spec_offsets()[i + 1],
                ),
    {
        let notes = self.notes();
        let mut r: Vec<Tone> = Vec::new();
        if notes.len() == 0 {
            return r;
        }
        let mut i: usize = 1;
        while i < notes.len()
            invariant
                1 <= i <= notes@.len(),
                notes@ == self.spec_notes(),
                r@.len() == i - 1,
                forall|j: int|
                    0 <= j < r@.len() ==> #[trigger] r@[j]@ == vstd::math::abs(
                        self.spec_offsets()[j] - self.spec_offsets()[j + 1],
                    ),
            decreases notes@.len() - i,
        {
            let d: i16 = notes[i - 1].0 as i16 - notes[i].0 as i16;
            let t: Tone = if d < 0 {
                Tone((-d) as u8)
            } else {
                Tone(d as u8)
            };
            r.push(t);
            i += 1;
        }
        r
    }

    /// Every member note moved one octave up; the pitch-class content is
    /// unchanged.
    pub fn up_one_octave(&self) -> (r: Chords)
        requires
            forall|i: int|
                0 <= i < self.spec_offsets().len() ==> #[trigger] self.spec_offsets()[i] + 12
                    <= i8::MAX,
        ensures
            r.spec_family() == self.spec_family(),
            r.spec_name() == self.spec_name(),
            r.spec_offsets().len() == self.spec_offsets().len(),
            forall|i: int|
                0 <= i < r.spec_offsets().len() ==> #[trigger] r.spec_offsets()[i]
                    == self.spec_offsets()[i] + 12,
            forall|i: int|
                0 <= i < r.spec_offsets().len() ==> spec_base(#[trigger] r.spec_offsets()[i])
                    == spec_base(self.spec_offsets()[i]),
    {
        let notes = self.notes();
        proof {
            assert forall|i: int| 0 <= i < notes@.len() implies #[trigger] notes@[i]@ + 12
                <= i8::MAX by {
                assert(self.spec_offsets()[i] == notes@[i]@);
            }
        }
        let shifted = shift_notes_up(notes);
        let r = match self {
            Chords::Major(name, _) => Chords::Major(name, shifted),
            Chords::Minor(name, _) => Chords::Minor(name, shifted),
            Chords::Dominant(name, _) => Chords::Dominant(name, shifted),
            Chords::Diminished(name, _) => Chords::Diminished(name, shifted),
        };
        r
    }

    /// Every member note moved one octave down; the pitch-class content
    /// is unchanged.
    pub fn down_one_octave(&self) -> (r: Chords)
        requires
            forall|i: int|
                0 <= i < self.spec_offsets().len() ==> #[trigger] self.spec_offsets()[i] - 12
                    >= i8::MIN,
        ensures
            r.spec_family() == self.spec_family(),
            r.spec_name() == self.spec_name(),
            r.spec_offsets().len() == self.spec_offsets().len(),
            forall|i: int|
                0 <= i < r.spec_offsets().len() ==> #[trigger] r.spec_offsets()[i]
                    == self.spec_offsets()[i] - 12,
            forall|i: int|
                0 <= i < r.spec_offsets().len() ==> spec_base(#[trigger] r.spec_offsets()[i])
                    == spec_base(self.spec_offsets()[i]),
    {
        let notes = self.notes();
        proof {
            assert forall|i: int| 0 <= i < notes@.len() implies #[trigger] notes@[i]@ - 12
                >= i8::MIN by {
                assert(self.spec_offsets()[i] == notes@[i]@);
            }
        }
        let shifted = shift_notes_down(notes);
        let r = match self {
            Chords::Major(name, _) => Chords::Major(name, shifted),
            Chords::Minor(name, _) => Chords::Minor(name, shifted),
            Chords::Dominant(name, _) => Chords::Dominant(name, shifted),
            Chords::Diminished(name, _) => Chords::Diminished(name, shifted),
        };
        r
    }
}

/// Whether some offset of `offs` has the pitch class `pc`.
pub open spec fn spec_has_pc(offs: Seq<int>, pc: int) -> bool {
    exists|j: int| 0 <= j < offs.len() && spec_pitch_class(#[trigger] offs[j]) == pc
}

/// Whether every queried pitch class occurs among the offsets: the
/// pitch-class set of `qs` is a subset of the pitch-class set of `offs`.
pub open spec fn spec_contains_pcs(offs: Seq<int>, qs: Seq<int>) -> bool {
    forall|k: int| 0 <= k < qs.len() ==> spec_has_pc(offs, spec_pitch_class(#[trigger] qs[k]))
}

/// Whether some note of `notes` has the pitch class `pc`.
fn has_pitch_class(notes: &Vec<Note>, pc: u8) -> (r: bool)
    ensures
        r == spec_has_pc(notes@.map_values(|n: Note| n@), pc as int),
{
    let ghost offs = notes@.map_values(|n: Note| n@);
    let mut i: usize = 0;
    while i < notes.len()
        invariant
            i <= notes@.len(),
            offs == notes@.map_values(|n: Note| n@),
            forall|j: int| 0 <= j < i ==> spec_pitch_class(#[trigger] offs[j]) != pc as int,
        decreases notes@.len() - i,
    {
        if notes[i].pitch_class() == pc {
            proof {
                assert(spec_pitch_class(offs[i as int]) == pc as int);
            }
            return true;
        }
        i += 1;
    }
    false
}

impl Chords {
    /// Whether the pitch classes of `others`, each reduced by folding,
    /// all occur among this chord's folded members.
    pub fn contains_notes(&self, others: &Vec<Note>) -> (r: bool)
        ensures
            r == spec_contains_pcs(self.spec_offsets(), others@.map_values(|n: Note| n@)),
    {
        let ghost qs = others@.map_values(|n: Note| n@);
        let notes = self.notes();
        proof {
            assert(notes@.map_values(|n: Note| n@) =~= self.spec_offsets());
        }
        let mut k: usize = 0;
        while k < others.len()
            invariant
                k <= others@.len(),
                qs == others@.map_values(|n: Note| n@),
                notes@ == self.spec_notes(),
                notes@.map_values(|n: Note| n@) == self.spec_offsets(),
                forall|m: int|
                    0 <= m < k ==> spec_has_pc(
                        self.spec_offsets(),
                        spec_pitch_class(#[trigger] qs[m]),
                    ),
            decreases others@.len() - k,
        {
            let pc = others[k].pitch_class();
            proof {
                assert(spec_pitch_class(qs[k as int]) == pc as int);
            }
            if !has_pitch_class(notes, pc) {
                return false;
            }
            k += 1;
        }
        true
    }
}

/// The full catalog of chord shapes rooted at `root`: the major family,
/// then minor, dominant and diminished, each in ascending extension
/// order.
pub open spec fn spec_catalog_descs(root: int) -> Seq<(Family, Seq<char>, Seq<int>)> {
    spec_major_descs(root) + spec_minor_descs(root) + spec_dominant_descs(root)
        + spec_diminished_descs(root)
}

/// Whether the catalog description `d` contains every pitch class of the
/// query offsets `qs`.
pub open spec fn spec_desc_matches(d: (Family, Seq<char>, Seq<int>), qs: Seq<int>) -> bool {
    spec_contains_pcs(d.2, qs)
}

/// Taking the front chord off a queue whose descriptions are the
/// catalog's tail advances the tail by one.
proof fn lemma_desc_queue_step(
    old_cat: Seq<Chords>,
    rest: Seq<Chords>,
    descs: Seq<(Family, Seq<char>, Seq<int>)>,
    k: int,
)
    requires
        0 <= k <= descs.len(),
        old_cat.len() > 0,
        old_cat.map_values(|c: Chords| c.spec_desc()) == descs.skip(k),
        rest == old_cat.remove(0),
    ensures
        k < descs.len(),
        old_cat[0].spec_desc() == descs[k],
        rest.map_values(|c: Chords| c.spec_desc()) == descs.skip(k + 1),
{
    assert(old_cat.map_values(|c: Chords| c.spec_desc()).len() == old_cat.len());
    assert(descs.skip(k).len() == descs.len() - k);
    assert(old_cat.map_values(|c: Chords| c.spec_desc())[0] == descs.skip(k)[0]);
    assert(descs.skip(k)[0] == descs[k]);
    assert(rest =~= old_cat.skip(1));
    assert forall|i: int| 0 <= i < rest.len() implies rest.map_values(
        |c: Chords| c.spec_desc(),
    )[i] == #[trigger] descs.skip(k + 1)[i] by {
        assert(rest[i] == old_cat[i + 1]);
        assert(old_cat.map_values(|c: Chords| c.spec_desc())[i + 1] == descs.skip(k)[i + 1]);
        assert(descs.skip(k)[i + 1] == descs[k + 1 + i]);
        assert(descs.skip(k + 1)[i] == descs[k + 1 + i]);
    }
    assert(rest.map_values(|c: Chords| c.spec_desc()) =~= descs.skip(k + 1));
}

/// Every returned chord is a catalog shape rooted at `root`.
pub open spec fn spec_find_sound(root: int, rs: Seq<Chords>) -> bool {
    forall|k: int| 0 <= k < rs.len() ==> spec_catalog_descs(root).contains(
        #[trigger] rs[k].spec_desc(),
    )
}

/// Among the first `upto` catalog shapes rooted at `root`, each one
/// either appears in the returned chords or was rejected: the predicate
/// returned `false` for some chord of that shape.
pub open spec fn spec_find_complete_upto<F: Fn(&Chords) -> bool>(
    root: int,
    predicate: F,
    rs: Seq<Chords>,
    upto: int,
) -> bool {
    forall|i: int|
        0 <= i < upto ==> (exists|m: int|
            0 <= m < rs.len() && rs[m].spec_desc() == #[trigger] spec_catalog_descs(root)[i])
            || (exists|ch: Chords|
            ch.spec_desc() == spec_catalog_descs(root)[i] && call_ensures(
                predicate,
                (&ch,),
                false,
            ))
}

impl Chords {
    /// Every chord shape of the catalog rooted at `root`, in enumeration
    /// order.
    pub fn all_chords(root: Note) -> (r: Vec<Chords>)
        requires
            root@ + 21 <= i8::MAX,
        ensures
            r@.map_values(|c: Chords| c.spec_desc()) == spec_catalog_descs(root@),
    {
        let mut r = major_chords(root);
        let mut mi = minor_chords(root);
        let mut dm = dominant_chords(root);
        let mut di = diminished_chords(root);
        r.append(&mut mi);
        r.append(&mut dm);
        r.append(&mut di);
        proof {
            assert(r@.map_values(|c: Chords| c.spec_desc()) =~= spec_catalog_descs(root@));
        }
        r
    }

    /// The catalog chords rooted at `root` whose pitch-class set contains
    /// every pitch class of `notes`: a pure filter in catalog order, with
    /// an empty query matching everything.
    pub fn find_contain_notes(root: Note, notes: &Vec<Note>) -> (r: Vec<Chords>)
        requires
            root@ + 21 <= i8::MAX,
        ensures
            r@.map_values(|c: Chords| c.spec_desc()) == spec_catalog_descs(root@).filter(
                |d: (Family, Seq<char>, Seq<int>)|
                    spec_desc_matches(d, notes@.map_values(|n: Note| n@)),
            ),
    {
        let ghost qs = notes@.map_values(|n: Note| n@);
        let ghost pred = |d: (Family, Seq<char>, Seq<int>)| spec_desc_matches(d, qs);
        let ghost descs = spec_catalog_descs(root@);
        let mut cat = Chords::all_chords(root);
        let mut r: Vec<Chords> = Vec::new();
        let mut k: usize = 0;
        proof {
            assert(cat@.map_values(|c: Chords| c.spec_desc()) =~= descs.skip(0));
            assert(descs.take(0).filter(pred) =~= Seq::empty());
            assert(r@.map_values(|c: Chords| c.spec_desc()) =~= Seq::empty());
        }
        while cat.len() > 0
            invariant
                k <= descs.len(),
                qs == notes@.map_values(|n: Note| n@),
                pred == (|d: (Family, Seq<char>, Seq<int>)| spec_desc_matches(d, qs)),
                descs == spec_catalog_descs(root@),
                cat@.map_values(|c: Chords| c.spec_desc()) == descs.skip(k as int),
                r@.map_values(|c: Chords| c.spec_desc()) == descs.take(k as int).filter(pred),
            decreases cat@.len(),
        {
            let ghost old_cat = cat@;
            let ghost old_r = r@;
            let ch = cat.remove(0);
            proof {
                lemma_desc_queue_step(old_cat, cat@, descs, k as int);
            }
            let keep = ch.contains_notes(notes);
            proof {
                assert(ch.spec_desc().2 == ch.spec_offsets());
                assert(keep == pred(descs[k as int]));
            }
            if keep {
                r.push(ch);
            }
            proof {
                reveal(Seq::filter);
                assert(descs.take(k as int + 1).drop_last() =~= descs.take(k as int));
                assert(descs.take(k as int + 1).last() == descs[k as int]);
                assert(r@.map_values(|c: Chords| c.spec_desc()) =~= descs.take(
                    k as int + 1,
                ).filter(pred));
            }
            k += 1;
        }
        proof {
            assert(descs.skip(k as int).len() == 0);
            assert(descs.take(k as int) =~= descs);
        }
        r
    }

    /// The catalog chords rooted at `root` that the caller's predicate
    /// accepts: every returned chord is a catalog shape, and a catalog
    /// shape is only absent where the predicate rejected a chord of that
    /// shape.
    pub fn find<F: Fn(&Chords) -> bool>(root: Note, predicate: F) -> (r: Vec<Chords>)
        requires
            root@ + 21 <= i8::MAX,
            forall|c: Chords| #[trigger] predicate.requires((&c,)),
        ensures
            spec_find_sound(root@, r@),
            spec_find_complete_upto(root@, predicate, r@, spec_catalog_descs(root@).len() as int),
    {
        let ghost descs = spec_catalog_descs(root@);
        let mut cat = Chords::all_chords(root);
        let mut r: Vec<Chords> = Vec::new();
        let mut k: usize = 0;
        proof {
            assert(cat@.map_values(|c: Chords| c.spec_desc()) =~= descs.skip(0));
        }
        while cat.len() > 0
            invariant
                k <= descs.len(),
                descs == spec_catalog_descs(root@),
                cat@.map_values(|c: Chords| c.spec_desc()) == descs.skip(k as int),
                spec_find_sound(root@, r@),
                forall|c: Chords| #[trigger] predicate.requires((&c,)),
                spec_find_complete_upto(root@, predicate, r@, k as int),
            decreases cat@.len(),
        {
            let ghost old_cat = cat@;
            let ch = cat.remove(0);
            proof {
                lemma_desc_queue_step(old_cat, cat@, descs, k as int);
                assert(descs.contains(descs[k as int]));
            }
            let ghost old_r = r@;
            let keep = predicate(&ch);
            if keep {
                r.push(ch);
            }
            proof {
                assert forall|i: int| 0 <= i < k as int + 1 implies (exists|m: int|
                    0 <= m < r@.len() && r@[m].spec_desc() == #[trigger] spec_catalog_descs(
                        root@,
                    )[i]) || (exists|cc: Chords|
                    cc.spec_desc() == spec_catalog_descs(root@)[i] && call_ensures(
                        predicate,
                        (&cc,),
                        false,
                    )) by {
                    if i < k as int {
                        if exists|m: int| 0 <= m < old_r.len() && old_r[m].spec_desc()
                            == spec_catalog_descs(root@)[i] {
                            let m = choose|m: int|
                                0 <= m < old_r.len() && old_r[m].spec_desc()
                                    == spec_catalog_descs(root@)[i];
                            assert(r@[m].spec_desc() == spec_catalog_descs(root@)[i]);
                        }
                    } else {
                        if keep {
                            assert(r@[r@.len() - 1].spec_desc() == spec_catalog_descs(
                                root@,
                            )[i]);
                        } else {
                            assert(ch.spec_desc() == spec_catalog_descs(root@)[i]
                                && call_ensures(predicate, (&ch,), false));
                        }
                    }
                }
                assert(spec_find_complete_upto(root@, predicate, r@, k as int + 1));
            }
            k += 1;
        }
        proof {
            assert(cat@.map_values(|c: Chords| c.spec_desc()).len() == 0);
            assert(descs.skip(k as int).len() == 0);
            assert(k as int == descs.len());
        }
        r
    }
}

/// Law: filtering keeps every element that satisfies the predicate, so
/// the finder never omits a catalog chord that contains the queried
/// pitch classes.
pub proof fn lemma_find_never_omits(root: int, qs: Seq<int>, i: int)
    requires
        0 <= i < spec_catalog_descs(root).len(),
        spec_desc_matches(spec_catalog_descs(root)[i], qs),
    ensures
        spec_catalog_descs(root).filter(
            |d: (Family, Seq<char>, Seq<int>)| spec_desc_matches(d, qs),
        ).contains(spec_catalog_descs(root)[i]),
{
    spec_catalog_descs(root).lemma_filter_contains(
        |d: (Family, Seq<char>, Seq<int>)| spec_desc_matches(d, qs),
        i,
    );
}

/// A filter whose predicate holds of every element keeps the sequence
/// unchanged.
proof fn lemma_filter_all_true<A>(s: Seq<A>, pred: spec_fn(A) -> bool)
    requires
        forall|i: int| 0 <= i < s.len() ==> pred(#[trigger] s[i]),
    ensures
        s.filter(pred) == s,
    decreases s.len(),
{
    reveal(Seq::filter);
    if s.len() > 0 {
        lemma_filter_all_true(s.drop_last(), pred);
        assert(s.drop_last().push(s.last()) =~= s);
    }
}

/// Law: an empty query matches every chord, so the finder returns the
/// whole catalog rooted at the given note.
pub proof fn lemma_find_empty_query(root: int)
    ensures
        spec_catalog_descs(root).filter(
            |d: (Family, Seq<char>, Seq<int>)| spec_desc_matches(d, Seq::empty()),
        ) == spec_catalog_descs(root),
{
    lemma_filter_all_true(
        spec_catalog_descs(root),
        |d: (Family, Seq<char>, Seq<int>)| spec_desc_matches(d, Seq::empty()),
    );
}

/// The display form of a chord: the sharp name of the folded root, then
/// the suffix.
pub open spec fn spec_show_chord(name: Seq<char>, offs: Seq<int>) -> Seq<char> {
    spec_sharp_name(spec_pitch_class(offs[0])) + name
}

/// The sharp-enumerated form: the display form, then the bracketed
/// member list in sharp spelling.
pub open spec fn spec_show_chord_sharp(name: Seq<char>, offs: Seq<int>) -> Seq<char> {
    spec_show_chord(name, offs) + seq![' ', '['] + spec_note_list_sharp(offs) + seq![']']
}

/// The flat-enumerated form: the display form, then the bracketed member
/// list in flat spelling.
pub open spec fn spec_show_chord_flat(name: Seq<char>, offs: Seq<int>) -> Seq<char> {
    spec_show_chord(name, offs) + seq![' ', '['] + spec_note_list_flat(offs) + seq![']']
}

/// What every chord offers: its root, its member notes and the step
/// distances between them.
pub trait Chord {
    /// The member notes, as this trait sees them.
    spec fn chord_notes(&self) -> Seq<Note>;

    /// The root: the first member note.
    fn root(&self) -> (r: Note)
        requires
            self.chord_notes().len() > 0,
        ensures
            r@ == self.chord_notes().map_values(|n: Note| n@)[0],
    ;

    /// The member notes.
    fn notes(&self) -> (r: &Vec<Note>)
        ensures
            r@ == self.chord_notes(),
    ;

    /// The absolute semitone distances between neighbouring members.
    fn as_steps(&self) -> (r: Vec<Tone>)
        ensures
            r@.len() + 1 == self.chord_notes().len() || (self.chord_notes().len() == 0
                && r@.len() == 0),
    ;
}

impl Chord for Chords {
    open spec fn chord_notes(&self) -> Seq<Note> {
        self.spec_notes()
    }

    fn root(&self) -> (r: Note) {
        Chords::root(self)
    }

    fn notes(&self) -> (r: &Vec<Note>) {
        Chords::notes(self)
    }

    fn as_steps(&self) -> (r: Vec<Tone>) {
        Chords::as_steps(self)
    }
}

impl Chords {
    /// The comma-joined member list in sharp spelling.
    pub fn notes_upper_hex(&self) -> (r: String)
        ensures
            r@ == spec_note_list_sharp(self.spec_offsets()),
    {
        note_list_sharp(self.notes())
    }

    /// The comma-joined member list in flat spelling.
    pub fn notes_lower_hex(&self) -> (r: String)
        ensures
            r@ == spec_note_list_flat(self.spec_offsets()),
    {
        note_list_flat(self.notes())
    }

    /// The display form: the folded root's sharp name, then the suffix,
    /// e.g. `Cmaj7`.
    pub fn show(&self) -> (r: String)
        requires
            self.spec_notes().len() > 0,
        ensures
            r@ == spec_show_chord(self.spec_name(), self.spec_offsets()),
    {
        let root = self.root();
        let mut s = String::from_str(root.show_sharp());
        s.append(self.name());
        s
    }

    /// The sharp-enumerated form, e.g. `Cmaj7 [C, E, G, B]`.
    pub fn show_sharp(&self) -> (r: String)
        requires
            self.spec_notes().len() > 0,
        ensures
            r@ == spec_show_chord_sharp(self.spec_name(), self.spec_offsets()),
    {
        proof {
            reveal_strlit(" [");
            reveal_strlit("]");
        }
        let mut s = self.show();
        s.append(" [");
        s.append(self.notes_upper_hex().as_str());
        s.append("]");
        proof {
            assert(s@ =~= spec_show_chord_sharp(self.spec_name(), self.spec_offsets()));
        }
        s
    }

    /// The flat-enumerated form, e.g. `C7 [C, E, G, Bb]`.
    pub fn show_flat(&self) -> (r: String)
        requires
            self.spec_notes().len() > 0,
        ensures
            r@ == spec_show_chord_flat(self.spec_name(), self.spec_offsets()),
    {
        proof {
            reveal_strlit(" [");
            reveal_strlit("]");
        }
        let mut s = self.show();
        s.append(" [");
        s.append(self.notes_lower_hex().as_str());
        s.append("]");
        proof {
            assert(s@ =~= spec_show_chord_flat(self.spec_name(), self.spec_offsets()));
        }
        s
    }
}

} // verus!
