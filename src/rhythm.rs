use vstd::prelude::*;

use crate::objects::ObjectKind;

verus! {

/// How many of the latest recorded doubles weigh on an offbeat bonus.
pub const DOUBLES_WINDOW: usize = 10;

/// How the current object's gap time compares with the previous object's gap
/// time (each flag is one of the approximate ratio tests of the evaluator).
#[derive(Clone, Copy, Debug, PartialEq, Eq, Structural)]
pub struct GapRatios {
    /// The gap is at least about 1.5 times the previous gap.
    pub at_least_one_and_half: bool,
    /// The gap is about two thirds of the previous gap.
    pub two_thirds: bool,
    /// The gap is about one third of the previous gap.
    pub one_third: bool,
    /// The gap is about half the previous gap.
    pub half: bool,
    /// The gap is about a quarter of the previous gap.
    pub quarter: bool,
    /// The gap is about equal to the previous gap.
    pub even: bool,
}

/// What the rhythm state machine reads of one difficulty object.
#[derive(Clone, Copy, Debug, PartialEq, Eq, Structural)]
pub struct RhythmEvent {
    /// Kind of the object's hit object.
    pub kind: ObjectKind,
    /// Kind of the previous difficulty object's hit object; `None` for the
    /// first difficulty object.
    pub prev_kind: Option<ObjectKind>,
    /// Gap ratios against the previous difficulty object.
    pub gaps: GapRatios,
    /// The object's flow is above 0.8.
    pub flowing: bool,
    /// The gap is about half or a quarter of the time spent on the slider
    /// before it.
    pub slider_gap_matches: bool,
    /// The flow out of the slider's end is above 0.8.
    pub slider_end_flowing: bool,
}

/// Which rhythm bonus an object earns on top of its flow share.
#[derive(Clone, Copy, Debug, PartialEq, Eq, Structural)]
pub enum RhythmPattern {
    /// No pattern bonus.
    Plain,
    /// A return to the beat after an offbeat: 5, decayed by recent doubles.
    Offbeat,
    /// A double: 4 + 8 * flow.
    Double,
    /// A triple: 0.4 + 0.8 * flow.
    Triple,
    /// A half or quarter step: 0.1 + 0.2 * flow.
    Half,
    /// A circle right after a slider end: 0.3 * end flow.
    SliderEnd,
}

/// Which running totals an object's bonus is added to.
#[derive(Clone, Copy, Debug, PartialEq, Eq, Structural)]
pub enum Accrual {
    /// Circles: both the circle total and the slider-accuracy total.
    Both,
    /// Sliders, when slider heads count for accuracy: the slider-accuracy total.
    SliderAccOnly,
    /// Neither total.
    Neither,
}

/// What one step of the state machine hands back.
#[derive(Clone, Debug)]
pub struct RhythmOutcome {
    pub accrual: Accrual,
    pub pattern: RhythmPattern,
    /// For an offbeat: the distances, in notes, to the doubles that decay
    /// its bonus, oldest first; each multiplies it by `1 - 0.5 * 0.9^d`.
    pub decay_steps: Vec<u32>,
}

/// Mathematical state of the rhythm state machine.
pub struct RhythmModel {
    /// Objects processed so far.
    pub note_index: int,
    /// Whether the last object was off the beat.
    pub previous_offbeat: bool,
    /// Notes of past offbeats, and `-1` for each flowing double.
    pub doubles: Seq<int>,
    /// Objects whose bonus went into the circle total.
    pub circle_count: int,
    /// Objects whose bonus went into the slider-accuracy total.
    pub accuracy_count: int,
    /// Whether slider heads count for accuracy.
    pub slider_acc: bool,
}

/// Discrete state of the rhythm-complexity skill.
#[derive(Clone, Debug)]
pub struct RhythmTracker {
    note_index: i32,
    is_previous_offbeat: bool,
    prev_doubles: Vec<i32>,
    hit_circle_count: i32,
    accuracy_object_count: i32,
    is_slider_acc: bool,
}

impl View for RhythmTracker {
    type V = RhythmModel;

    closed spec fn view(&self) -> RhythmModel {
        RhythmModel {
            note_index: self.note_index as int,
            previous_offbeat: self.is_previous_offbeat,
            doubles: self.prev_doubles@.map_values(|d: i32| d as int),
            circle_count: self.hit_circle_count as int,
            accuracy_count: self.accuracy_object_count as int,
            slider_acc: self.is_slider_acc,
        }
    }
}

/// Counts never exceed the objects processed, and agree unless slider heads
/// count for accuracy; recorded doubles lie before the current note.
pub open spec fn model_wf(m: RhythmModel) -> bool {
    &&& 0 <= m.circle_count <= m.accuracy_count <= m.note_index
    &&& !m.slider_acc ==> m.circle_count == m.accuracy_count
    &&& forall|k: int| 0 <= k < m.doubles.len() ==> -1 <= #[trigger] m.doubles[k] < m.note_index
}

/// Circles feed both totals; sliders feed the slider-accuracy total when
/// slider heads count for accuracy; nothing else is counted.
pub open spec fn accrual_of(m: RhythmModel, e: RhythmEvent) -> Accrual {
    if e.kind is Circle {
        Accrual::Both
    } else if m.slider_acc && e.kind is Slider {
        Accrual::SliderAccOnly
    } else {
        Accrual::Neither
    }
}

/// The pattern of a circle-to-circle step.
pub open spec fn pattern_after_circle(previous_offbeat: bool, g: GapRatios) -> RhythmPattern {
    if previous_offbeat && g.at_least_one_and_half {
        RhythmPattern::Offbeat
    } else if g.two_thirds {
        RhythmPattern::Double
    } else if g.one_third {
        RhythmPattern::Triple
    } else if g.half || g.quarter {
        RhythmPattern::Half
    } else {
        RhythmPattern::Plain
    }
}

/// The first difficulty object, spinners before the object and uncounted
/// objects earn no pattern bonus.
pub open spec fn pattern_of(m: RhythmModel, e: RhythmEvent) -> RhythmPattern {
    if accrual_of(m, e) is Neither {
        RhythmPattern::Plain
    } else {
        match e.prev_kind {
            Some(ObjectKind::Circle) => pattern_after_circle(m.previous_offbeat, e.gaps),
            Some(ObjectKind::Slider) => if e.slider_gap_matches {
                RhythmPattern::SliderEnd
            } else {
                RhythmPattern::Plain
            },
            _ => RhythmPattern::Plain,
        }
    }
}

/// The first difficulty object keeps the flag; a flowing double sets it; an
/// even, flowing step flips it; a slider end sets it when its gap matches and
/// it flows out; anything else clears it.
pub open spec fn next_offbeat(m: RhythmModel, e: RhythmEvent) -> bool {
    if accrual_of(m, e) is Neither {
        false
    } else {
        match e.prev_kind {
            None => m.previous_offbeat,
            Some(ObjectKind::Circle) => if e.gaps.two_thirds && e.flowing {
                true
            } else if e.gaps.even && e.flowing {
                !m.previous_offbeat
            } else {
                false
            },
            Some(ObjectKind::Slider) => e.slider_gap_matches && e.slider_end_flowing,
            Some(ObjectKind::Spinner) => false,
        }
    }
}

/// Offbeats record the note at which they happened; flowing doubles record
/// `-1`, which resets the decay of a later offbeat.
pub open spec fn next_doubles(m: RhythmModel, e: RhythmEvent) -> Seq<int> {
    if !(accrual_of(m, e) is Neither) && e.prev_kind == Some(ObjectKind::Circle) {
        let p = pattern_after_circle(m.previous_offbeat, e.gaps);
        if p is Offbeat {
            m.doubles.push(m.note_index)
        } else if p is Double && e.flowing {
            m.doubles.push(-1)
        } else {
            m.doubles
        }
    } else {
        m.doubles
    }
}

/// The state after one object: one more note, the counts of the totals it
/// fed, and the new offbeat flag and doubles.
pub open spec fn next_model(m: RhythmModel, e: RhythmEvent) -> RhythmModel {
    let a = accrual_of(m, e);
    RhythmModel {
        note_index: m.note_index + 1,
        previous_offbeat: next_offbeat(m, e),
        doubles: next_doubles(m, e),
        circle_count: m.circle_count + if a is Both {
            1int
        } else {
            0int
        },
        accuracy_count: m.accuracy_count + if a is Neither {
            0int
        } else {
            1int
        },
        slider_acc: m.slider_acc,
    }
}

/// The latest recorded doubles that weigh on an offbeat.
pub open spec fn doubles_window(d: Seq<int>) -> Seq<int> {
    if d.len() > DOUBLES_WINDOW {
        d.subrange(d.len() - DOUBLES_WINDOW, d.len() as int)
    } else {
        d
    }
}

/// The entries after the last one that is not positive.
pub open spec fn since_reset(w: Seq<int>) -> Seq<int>
    decreases w.len(),
{
    if w.len() == 0 {
        w
    } else if w.last() <= 0 {
        Seq::empty()
    } else {
        since_reset(w.drop_last()).push(w.last())
    }
}

/// Distances from the current note to the doubles that decay an offbeat.
pub open spec fn decay_steps_of(m: RhythmModel) -> Seq<int> {
    since_reset(doubles_window(m.doubles)).map_values(|d: int| m.note_index - d)
}

proof fn lemma_since_reset_within(w: Seq<int>)
    ensures
        since_reset(w).len() <= w.len(),
        forall|j: int|
            0 <= j < since_reset(w).len() ==> 0 < #[trigger] since_reset(w)[j] && exists|k: int|
                0 <= k < w.len() && w[k] == since_reset(w)[j],
    decreases w.len(),
{
    if w.len() > 0 && w.last() > 0 {
        let p = w.drop_last();
        lemma_since_reset_within(p);
        let s = since_reset(p);
        assert forall|j: int| 0 <= j < since_reset(w).len() implies 0 < #[trigger] since_reset(
            w,
        )[j] && exists|k: int| 0 <= k < w.len() && w[k] == since_reset(w)[j] by {
            if j < s.len() {
                let k = choose|k: int| 0 <= k < p.len() && p[k] == s[j];
                assert(w[k] == since_reset(w)[j]);
            } else {
                assert(w[w.len() - 1] == since_reset(w)[j]);
            }
        }
    }
}

/// An offbeat bonus is decayed by at most `DOUBLES_WINDOW` doubles, each at
/// least one note back, so each decay factor `1 - 0.5 * 0.9^d` lies between
/// one half and one.
pub proof fn lemma_decay_steps_bounded(m: RhythmModel)
    requires
        model_wf(m),
    ensures
        decay_steps_of(m).len() <= DOUBLES_WINDOW,
        forall|j: int|
            0 <= j < decay_steps_of(m).len() ==> 1 <= #[trigger] decay_steps_of(m)[j]
                < m.note_index,
{
    let w = doubles_window(m.doubles);
    lemma_since_reset_within(w);
    assert forall|j: int| 0 <= j < decay_steps_of(m).len() implies 1 <= #[trigger] decay_steps_of(
        m,
    )[j] < m.note_index by {
        let k = choose|k: int| 0 <= k < w.len() && w[k] == since_reset(w)[j];
        if m.doubles.len() > DOUBLES_WINDOW {
            assert(w[k] == m.doubles[k + m.doubles.len() - DOUBLES_WINDOW]);
        } else {
            assert(w[k] == m.doubles[k]);
        }
    }
}

fn pattern_after_circle_exec(previous_offbeat: bool, g: &GapRatios) -> (r: RhythmPattern)
    ensures
        r == pattern_after_circle(previous_offbeat, *g),
{
    if previous_offbeat && g.at_least_one_and_half {
        RhythmPattern::Offbeat
    } else if g.two_thirds {
        RhythmPattern::Double
    } else if g.one_third {
        RhythmPattern::Triple
    } else if g.half || g.quarter {
        RhythmPattern::Half
    } else {
        RhythmPattern::Plain
    }
}

impl RhythmTracker {
    pub open spec fn wf(&self) -> bool {
        model_wf(self@)
    }

    /// A fresh tracker; `is_slider_acc` says whether slider heads count for
    /// accuracy.
    pub fn new(is_slider_acc: bool) -> (r: RhythmTracker)
        ensures
            r.wf(),
            r@.note_index == 0,
            !r@.previous_offbeat,
            r@.doubles == Seq::<int>::empty(),
            r@.circle_count == 0,
            r@.accuracy_count == 0,
            r@.slider_acc == is_slider_acc,
    {
        let r = RhythmTracker {
            note_index: 0,
            is_previous_offbeat: false,
            prev_doubles: Vec::new(),
            hit_circle_count: 0,
            accuracy_object_count: 0,
            is_slider_acc,
        };
        assert(r@.doubles =~= Seq::<int>::empty());
        r
    }

    /// Number of objects processed so far.
    pub fn note_index(&self) -> (r: i32)
        ensures
            r == self@.note_index,
    {
        self.note_index
    }

    /// Number of circles whose bonus went into the circle total.
    pub fn hit_circle_count(&self) -> (r: i32)
        ensures
            r == self@.circle_count,
    {
        self.hit_circle_count
    }

    /// Number of objects whose bonus went into the slider-accuracy total.
    pub fn accuracy_object_count(&self) -> (r: i32)
        ensures
            r == self@.accuracy_count,
    {
        self.accuracy_object_count
    }

    /// Whether the last object was judged to be off the beat.
    pub fn is_previous_offbeat(&self) -> (r: bool)
        ensures
            r == self@.previous_offbeat,
    {
        self.is_previous_offbeat
    }

    /// Whether slider heads count for accuracy.
    pub fn is_slider_acc(&self) -> (r: bool)
        ensures
            r == self@.slider_acc,
    {
        self.is_slider_acc
    }

    fn decay_steps(&self) -> (r: Vec<u32>)
        requires
            self.wf(),
        ensures
            r@.len() == decay_steps_of(self@).len(),
            forall|j: int| 0 <= j < r@.len() ==> r@[j] as int == #[trigger] decay_steps_of(self@)[j],
    {
        let ghost d = self@.doubles;
        let len = self.prev_doubles.len();
        let start: usize = if len > DOUBLES_WINDOW {
            len - DOUBLES_WINDOW
        } else {
            0
        };
        let mut steps: Vec<u32> = Vec::new();
        let mut i: usize = start;
        while i < len
            invariant
                self.wf(),
                d == self@.doubles,
                len == d.len(),
                start <= i <= len,
                start == (if len > DOUBLES_WINDOW {
                    len - DOUBLES_WINDOW
                } else {
                    0
                }),
                steps@.len() == since_reset(d.subrange(start as int, i as int)).len(),
                forall|j: int|
                    0 <= j < steps@.len() ==> steps@[j] as int == self@.note_index
                        - #[trigger] since_reset(d.subrange(start as int, i as int))[j],
            decreases len - i,
        {
            let double = self.prev_doubles[i];
            proof {
                let prev = d.subrange(start as int, i as int);
                let next = d.subrange(start as int, i as int + 1);
                assert(next.drop_last() =~= prev);
                assert(next.last() == double as int);
                assert(d[i as int] == double as int);
            }
            if double > 0 {
                assert(d[i as int] < self@.note_index);
                steps.push((self.note_index - double) as u32);
            } else {
                steps = Vec::new();
            }
            i = i + 1;
        }
        proof {
            assert(d.subrange(start as int, len as int) =~= doubles_window(d));
        }
        steps
    }

    /// Feeds one difficulty object to the state machine: says which totals
    /// its bonus goes to and which pattern bonus it earns, and moves the
    /// state on.
    pub fn process(&mut self, e: &RhythmEvent) -> (r: RhythmOutcome)
        requires
            old(self).wf(),
            old(self)@.note_index < i32::MAX,
        ensures
            final(self).wf(),
            final(self)@ == next_model(old(self)@, *e),
            r.accrual == accrual_of(old(self)@, *e),
            r.pattern == pattern_of(old(self)@, *e),
            r.pattern is Offbeat ==> r.decay_steps@.len() == decay_steps_of(old(self)@).len()
                && forall|j: int|
                0 <= j < r.decay_steps@.len() ==> r.decay_steps@[j] as int
                    == #[trigger] decay_steps_of(old(self)@)[j],
            !(r.pattern is Offbeat) ==> r.decay_steps@.len() == 0,
    {
        let ghost m0 = self@;
        let accrual = if e.kind == ObjectKind::Circle {
            Accrual::Both
        } else if self.is_slider_acc && e.kind == ObjectKind::Slider {
            Accrual::SliderAccOnly
        } else {
            Accrual::Neither
        };
        let mut pattern = RhythmPattern::Plain;
        let mut decay_steps: Vec<u32> = Vec::new();
        let mut doubles = self.prev_doubles.clone();
        let mut offbeat = self.is_previous_offbeat;
        assert(doubles@ == self.prev_doubles@);
        match accrual {
            Accrual::Neither => {
                offbeat = false;
            },
            _ => {
                match e.prev_kind {
                    None => {},
                    Some(ObjectKind::Circle) => {
                        pattern = pattern_after_circle_exec(self.is_previous_offbeat, &e.gaps);
                        match pattern {
                            RhythmPattern::Offbeat => {
                                decay_steps = self.decay_steps();
                                doubles.push(self.note_index);
                            },
                            RhythmPattern::Double => {
                                if e.flowing {
                                    doubles.push(-1);
                                }
                            },
                            _ => {},
                        }
                        offbeat =
                            if e.gaps.two_thirds && e.flowing {
                                true
                            } else if e.gaps.even && e.flowing {
                                !self.is_previous_offbeat
                            } else {
                                false
                            };
                    },
                    Some(ObjectKind::Slider) => {
                        if e.slider_gap_matches {
                            pattern = RhythmPattern::SliderEnd;
                            offbeat = e.slider_end_flowing;
                        } else {
                            offbeat = false;
                        }
                    },
                    Some(ObjectKind::Spinner) => {
                        offbeat = false;
                    },
                }
            },
        }
        let circles = match accrual {
            Accrual::Both => self.hit_circle_count + 1,
            _ => self.hit_circle_count,
        };
        let accuracy_objects = match accrual {
            Accrual::Neither => self.accuracy_object_count,
            _ => self.accuracy_object_count + 1,
        };
        *self =
        RhythmTracker {
            note_index: self.note_index + 1,
            is_previous_offbeat: offbeat,
            prev_doubles: doubles,
            hit_circle_count: circles,
            accuracy_object_count: accuracy_objects,
            is_slider_acc: self.is_slider_acc,
        };
        proof {
            let m1 = next_model(m0, *e);
            assert(self@.doubles =~= m1.doubles);
            assert(self@ == m1);
        }
        RhythmOutcome { accrual, pattern, decay_steps }
    }
}

} // verus!
