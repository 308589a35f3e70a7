use vstd::prelude::*;

verus! {

/// The kind of a hit object.
#[derive(Clone, Copy, Debug, PartialEq, Eq, Structural)]
pub enum ObjectKind {
    Circle,
    Slider,
    Spinner,
}

/// How many hit objects of each kind a map holds.
#[derive(Clone, Copy, Debug, PartialEq, Eq, Structural)]
pub struct ObjectCounts {
    pub n_circles: u32,
    pub n_sliders: u32,
    pub n_spinners: u32,
}

/// Number of entries of `kinds` that equal `k`.
pub open spec fn count_of(kinds: Seq<ObjectKind>, k: ObjectKind) -> nat
    decreases kinds.len(),
{
    if kinds.len() == 0 {
        0
    } else {
        count_of(kinds.drop_last(), k) + if kinds.last() == k {
            1nat
        } else {
            0nat
        }
    }
}

/// The three kind counts of a sequence add up to its length.
pub proof fn lemma_counts_sum_to_len(kinds: Seq<ObjectKind>)
    ensures
        count_of(kinds, ObjectKind::Circle) + count_of(kinds, ObjectKind::Slider) + count_of(
            kinds,
            ObjectKind::Spinner,
        ) == kinds.len(),
    decreases kinds.len(),
{
    if kinds.len() > 0 {
        lemma_counts_sum_to_len(kinds.drop_last());
    }
}

impl ObjectCounts {
    /// Total number of hit objects.
    pub fn n_objects(&self) -> (r: u64)
        ensures
            r == self.n_circles + self.n_sliders + self.n_spinners,
    {
        self.n_circles as u64 + self.n_sliders as u64 + self.n_spinners as u64
    }

    /// Counts the hit objects of each kind.
    pub fn from_kinds(kinds: &[ObjectKind]) -> (r: ObjectCounts)
        requires
            kinds@.len() <= u32::MAX,
        ensures
            r.n_circles == count_of(kinds@, ObjectKind::Circle),
            r.n_sliders == count_of(kinds@, ObjectKind::Slider),
            r.n_spinners == count_of(kinds@, ObjectKind::Spinner),
            r.n_circles + r.n_sliders + r.n_spinners == kinds@.len(),
    {
        let mut counts = ObjectCounts { n_circles: 0, n_sliders: 0, n_spinners: 0 };
        let mut i: usize = 0;
        while i < kinds.len()
            invariant
                i <= kinds@.len() <= u32::MAX,
                counts.n_circles == count_of(kinds@.take(i as int), ObjectKind::Circle),
                counts.n_sliders == count_of(kinds@.take(i as int), ObjectKind::Slider),
                counts.n_spinners == count_of(kinds@.take(i as int), ObjectKind::Spinner),
            decreases kinds@.len() - i,
        {
            proof {
                let next = kinds@.take(i as int + 1);
                assert(next.drop_last() =~= kinds@.take(i as int));
                lemma_counts_sum_to_len(kinds@.take(i as int));
            }
            match kinds[i] {
                ObjectKind::Circle => counts.n_circles = counts.n_circles + 1,
                ObjectKind::Slider => counts.n_sliders = counts.n_sliders + 1,
                ObjectKind::Spinner => counts.n_spinners = counts.n_spinners + 1,
            }
            i = i + 1;
        }
        proof {
            assert(kinds@.take(kinds@.len() as int) =~= kinds@);
            lemma_counts_sum_to_len(kinds@);
        }
        counts
    }
}

/// Combo of a map whose objects hold `nested` nested objects each: one for
/// every object and one for every nested object.
pub open spec fn combo_of(nested: Seq<u32>) -> int
    decreases nested.len(),
{
    if nested.len() == 0 {
        0
    } else {
        combo_of(nested.drop_last()) + 1 + nested.last()
    }
}

/// The maximum combo of a map; `nested` gives, per hit object, the number of
/// nested objects (slider repeats, ticks and tail) that also give combo.
pub fn max_combo(nested: &[u32]) -> (r: u64)
    requires
        nested@.len() <= u32::MAX,
    ensures
        r == combo_of(nested@),
{
    let mut combo: u64 = 0;
    let mut i: usize = 0;
    while i < nested.len()
        invariant
            i <= nested@.len() <= u32::MAX,
            combo == combo_of(nested@.take(i as int)),
            combo <= i * 0x1_0000_0000,
        decreases nested@.len() - i,
    {
        proof {
            assert(nested@.take(i as int + 1).drop_last() =~= nested@.take(i as int));
            assert(combo + 1 + nested[i as int] <= (i + 1) * 0x1_0000_0000) by (nonlinear_arith)
                requires
                    combo <= i * 0x1_0000_0000,
                    nested[i as int] <= u32::MAX,
            ;
            assert((i + 1) * 0x1_0000_0000 <= 0x1_0000_0000 * 0x1_0000_0000) by (nonlinear_arith)
                requires
                    i + 1 <= u32::MAX,
            ;
        }
        combo = combo + 1 + nested[i] as u64;
        i = i + 1;
    }
    assert(nested@.take(nested@.len() as int) =~= nested@);
    combo
}

/// Where a difficulty object's neighbours stand.
///
/// Hit object 0 has no difficulty object, so difficulty object `idx` is built
/// on hit object `idx + 1`; the hit object before it is `idx`, and the one
/// before that is `idx - 1`. Difficulty objects are linked to the one or two
/// difficulty objects before them.
#[derive(Clone, Copy, Debug, PartialEq, Eq, Structural)]
pub struct DiffObjectLinks {
    /// Index of this difficulty object.
    pub idx: usize,
    /// Hit object this difficulty object is built on.
    pub base: usize,
    /// Hit object right before `base`.
    pub last: usize,
    /// Hit object two before `base`, if any.
    pub last_last: Option<usize>,
    /// Difficulty object right before this one, if any.
    pub last_diff: Option<usize>,
    /// Difficulty object two before this one, if any.
    pub last_last_diff: Option<usize>,
}

/// The links of difficulty object `idx`.
pub open spec fn links_of(idx: int) -> DiffObjectLinks {
    DiffObjectLinks {
        idx: idx as usize,
        base: (idx + 1) as usize,
        last: idx as usize,
        last_last: if idx >= 1 {
            Some((idx - 1) as usize)
        } else {
            None
        },
        last_diff: if idx >= 1 {
            Some((idx - 1) as usize)
        } else {
            None
        },
        last_last_diff: if idx >= 2 {
            Some((idx - 2) as usize)
        } else {
            None
        },
    }
}

/// How many difficulty objects are built for a map of `n_hit_objects`
/// objects when `passed_objects` of them have been played: none when either
/// is zero, else one for every hit object but the first.
pub open spec fn n_built(n_hit_objects: int, passed_objects: int) -> int {
    if n_hit_objects == 0 || passed_objects == 0 {
        0
    } else {
        n_hit_objects - 1
    }
}

/// How many difficulty objects the skills process: those of the passed hit
/// objects, minus the first, which has none.
pub open spec fn n_processed(n_hit_objects: int, passed_objects: int) -> int {
    let taken = if n_hit_objects < passed_objects {
        n_hit_objects
    } else {
        passed_objects
    };
    if taken == 0 {
        0
    } else {
        taken - 1
    }
}

/// The index plan of the difficulty-object sequence: one entry per
/// difficulty object, in order.
pub fn difficulty_object_links(n_hit_objects: usize, passed_objects: usize) -> (r: Vec<
    DiffObjectLinks,
>)
    ensures
        r@.len() == n_built(n_hit_objects as int, passed_objects as int),
        forall|i: int| 0 <= i < r@.len() ==> #[trigger] r@[i] == links_of(i),
{
    let mut links: Vec<DiffObjectLinks> = Vec::new();
    if n_hit_objects == 0 || passed_objects == 0 {
        return links;
    }
    let n: usize = n_hit_objects - 1;
    let mut idx: usize = 0;
    while idx < n
        invariant
            idx <= n,
            n == n_hit_objects - 1,
            links@.len() == idx,
            forall|i: int| 0 <= i < links@.len() ==> #[trigger] links@[i] == links_of(i),
        decreases n - idx,
    {
        let last_last = if idx >= 1 {
            Some(idx - 1)
        } else {
            None
        };
        let last_last_diff = if idx >= 2 {
            Some(idx - 2)
        } else {
            None
        };
        links.push(
            DiffObjectLinks {
                idx,
                base: idx + 1,
                last: idx,
                last_last,
                last_diff: last_last,
                last_last_diff,
            },
        );
        idx = idx + 1;
    }
    links
}

/// How many difficulty objects the skills process.
pub fn processed_count(n_hit_objects: usize, passed_objects: usize) -> (r: usize)
    ensures
        r == n_processed(n_hit_objects as int, passed_objects as int),
{
    let taken = if n_hit_objects < passed_objects {
        n_hit_objects
    } else {
        passed_objects
    };
    taken.saturating_sub(1)
}

/// Index of the difficulty object `back + 1` places before `idx`, if it
/// exists among `len` objects.
pub fn previous(idx: usize, back: usize, len: usize) -> (r: Option<usize>)
    ensures
        r == if back < idx && idx - back - 1 < len {
            Some((idx - back - 1) as usize)
        } else {
            None::<usize>
        },
{
    if back < idx && idx - back - 1 < len {
        Some(idx - back - 1)
    } else {
        None
    }
}

/// Every processed difficulty object has been built.
pub proof fn lemma_processed_within_built(n_hit_objects: nat, passed_objects: nat)
    ensures
        0 <= n_processed(n_hit_objects as int, passed_objects as int) <= n_built(
            n_hit_objects as int,
            passed_objects as int,
        ),
{
}

} // verus!
