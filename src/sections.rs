use vstd::prelude::*;

verus! {

/// Length of a strain section, in milliseconds.
pub const SECTION_LEN_MS: u32 = 400;

/// Wall-clock section bookkeeping of a strain skill.
///
/// Sections are numbered: section `k` ends at `k * SECTION_LEN_MS`. An
/// object is fed as the number of the first section that ends at or after
/// its start time, `ceil(start_time / SECTION_LEN_MS)`. The first object
/// opens its own section; each later object past the open section's end
/// closes sections, one peak each, until the open section holds it.
#[derive(Clone, Copy, Debug)]
pub struct SectionClock {
    started: bool,
    end: i64,
}

/// Whether a section is open, and the number of the open section.
impl View for SectionClock {
    type V = (bool, int);

    closed spec fn view(&self) -> (bool, int) {
        (self.started, self.end as int)
    }
}

/// Sections closed when an object of section `section` arrives.
pub open spec fn closed_by(c: (bool, int), section: int) -> int {
    if c.0 && section > c.1 {
        section - c.1
    } else {
        0
    }
}

/// The clock once an object of section `section` has arrived.
pub open spec fn clock_next(c: (bool, int), section: int) -> (bool, int) {
    if !c.0 || section > c.1 {
        (true, section)
    } else {
        c
    }
}

/// The clock once the objects of sections `s` have arrived, in order.
pub open spec fn clock_after(s: Seq<int>) -> (bool, int)
    decreases s.len(),
{
    if s.len() == 0 {
        (false, 0)
    } else {
        clock_next(clock_after(s.drop_last()), s.last())
    }
}

/// Sections closed while the objects of sections `s` arrive, in order.
pub open spec fn closures_after(s: Seq<int>) -> int
    decreases s.len(),
{
    if s.len() == 0 {
        0
    } else {
        closures_after(s.drop_last()) + closed_by(clock_after(s.drop_last()), s.last())
    }
}

/// Number of the section that holds time `t`, for a time in whole
/// milliseconds: `ceil(t / SECTION_LEN_MS)`.
pub open spec fn section_of(t: int) -> int {
    (t + SECTION_LEN_MS - 1) / (SECTION_LEN_MS as int)
}

pub open spec fn nondecreasing(s: Seq<int>) -> bool {
    forall|i: int, j: int| 0 <= i <= j < s.len() ==> s[i] <= s[j]
}

impl SectionClock {
    /// A clock before any object.
    pub fn new() -> (r: SectionClock)
        ensures
            r@ == clock_after(Seq::empty()),
    {
        SectionClock { started: false, end: 0 }
    }

    /// Feeds an object of section `section`; returns how many sections it
    /// closes. Before the call, the sections closed end at
    /// `section_end() + 0, section_end() + 1, ...`.
    pub fn advance(&mut self, section: i64) -> (closed: u64)
        ensures
            closed == closed_by(old(self)@, section as int),
            final(self)@ == clock_next(old(self)@, section as int),
    {
        if !self.started {
            self.started = true;
            self.end = section;
            0
        } else if section > self.end {
            let closed = (section as i128 - self.end as i128) as u64;
            self.end = section;
            closed
        } else {
            0
        }
    }

    /// Whether an object has arrived.
    pub fn is_started(&self) -> (r: bool)
        ensures
            r == self@.0,
    {
        self.started
    }

    /// Number of the open section.
    pub fn section_end(&self) -> (r: i64)
        requires
            self@.0,
        ensures
            r == self@.1,
    {
        self.end
    }
}

/// Fed the sections of objects in time order, the clock closes exactly
/// `last - first` sections and keeps the last object's section open, so a
/// strain skill ends with `last - first + 1` section peaks.
pub proof fn lemma_section_peak_count(s: Seq<int>)
    requires
        s.len() > 0,
        nondecreasing(s),
    ensures
        closures_after(s) == s.last() - s[0],
        clock_after(s) == (true, s.last()),
        closures_after(s) + 1 == s.last() - s[0] + 1,
    decreases s.len(),
{
    if s.len() > 1 {
        let p = s.drop_last();
        assert(nondecreasing(p));
        lemma_section_peak_count(p);
        assert(p.last() == s[s.len() - 2]);
        assert(p[0] == s[0]);
    } else {
        assert(clock_after(s.drop_last()) == (false, 0int));
        assert(closures_after(s.drop_last()) == 0);
    }
}

/// For times in whole milliseconds, the sections from the first object's to
/// the last object's span `ceil((last - first) / SECTION_LEN_MS)`, give or
/// take one at the boundaries: with the open section, a strain skill ends
/// with that many peaks plus one, or exactly that many.
pub proof fn lemma_section_span(first: int, last: int)
    requires
        first <= last,
    ensures
        section_of(last) - section_of(first) == section_of(last - first) || section_of(last)
            - section_of(first) == section_of(last - first) - 1,
{
    let a = section_of(last);
    let b = section_of(first);
    let c = section_of(last - first);
    assert(400 * a <= last + 399 < 400 * a + 400);
    assert(400 * b <= first + 399 < 400 * b + 400);
    assert(400 * c <= last - first + 399 < 400 * c + 400);
}

/// Whatever order objects come in, the sections closed never exceed the
/// span from the first object's section to the latest section seen.
pub proof fn lemma_closures_bounded(s: Seq<int>)
    requires
        s.len() > 0,
    ensures
        clock_after(s).0,
        closures_after(s) == clock_after(s).1 - s[0],
        clock_after(s).1 >= s[0],
    decreases s.len(),
{
    if s.len() > 1 {
        let p = s.drop_last();
        lemma_closures_bounded(p);
        assert(p[0] == s[0]);
    } else {
        assert(clock_after(s.drop_last()) == (false, 0int));
        assert(closures_after(s.drop_last()) == 0);
    }
}

} // verus!
