use osu_pplus::objects::ObjectKind;
use osu_pplus::rhythm::{Accrual, GapRatios, RhythmEvent, RhythmPattern, RhythmTracker};

fn no_ratio() -> GapRatios {
    GapRatios {
        at_least_one_and_half: false,
        two_thirds: false,
        one_third: false,
        half: false,
        quarter: false,
        even: false,
    }
}

fn circle_after(prev_kind: Option<ObjectKind>, gaps: GapRatios, flowing: bool) -> RhythmEvent {
    RhythmEvent {
        kind: ObjectKind::Circle,
        prev_kind,
        gaps,
        flowing,
        slider_gap_matches: false,
        slider_end_flowing: false,
    }
}

fn even() -> GapRatios {
    GapRatios { even: true, ..no_ratio() }
}

fn long_gap() -> GapRatios {
    GapRatios { at_least_one_and_half: true, ..no_ratio() }
}

#[test]
fn fresh_tracker_is_empty() {
    let tracker = RhythmTracker::new(true);
    assert_eq!(tracker.note_index(), 0);
    assert_eq!(tracker.hit_circle_count(), 0);
    assert_eq!(tracker.accuracy_object_count(), 0);
    assert!(!tracker.is_previous_offbeat());
    assert!(tracker.is_slider_acc());
}

#[test]
fn first_object_earns_flow_share_only() {
    let mut tracker = RhythmTracker::new(false);
    let out = tracker.process(&circle_after(None, even(), true));
    assert_eq!(out.accrual, Accrual::Both);
    assert_eq!(out.pattern, RhythmPattern::Plain);
    assert!(!tracker.is_previous_offbeat());
    assert_eq!(tracker.note_index(), 1);
    assert_eq!(tracker.hit_circle_count(), 1);
}

#[test]
fn offbeat_decays_with_recent_offbeats() {
    let c = Some(ObjectKind::Circle);
    let mut tracker = RhythmTracker::new(false);
    tracker.process(&circle_after(None, no_ratio(), true));
    // Even, flowing gaps toggle the offbeat flag.
    tracker.process(&circle_after(c, even(), true));
    assert!(tracker.is_previous_offbeat());
    let first = tracker.process(&circle_after(c, long_gap(), false));
    assert_eq!(first.pattern, RhythmPattern::Offbeat);
    assert!(first.decay_steps.is_empty());
    assert!(!tracker.is_previous_offbeat());
    tracker.process(&circle_after(c, even(), true));
    let second = tracker.process(&circle_after(c, long_gap(), false));
    assert_eq!(second.pattern, RhythmPattern::Offbeat);
    // The first offbeat was at note 2, this one is at note 4.
    assert_eq!(second.decay_steps, vec![2]);
    assert_eq!(tracker.note_index(), 5);
}

#[test]
fn flowing_double_resets_decay() {
    let c = Some(ObjectKind::Circle);
    let mut tracker = RhythmTracker::new(false);
    tracker.process(&circle_after(None, no_ratio(), true));
    let double = tracker.process(&circle_after(c, GapRatios { two_thirds: true, ..no_ratio() }, true));
    assert_eq!(double.pattern, RhythmPattern::Double);
    assert!(tracker.is_previous_offbeat());
    let offbeat = tracker.process(&circle_after(c, long_gap(), false));
    assert_eq!(offbeat.pattern, RhythmPattern::Offbeat);
    assert!(offbeat.decay_steps.is_empty());
}

#[test]
fn circle_patterns_by_ratio() {
    let c = Some(ObjectKind::Circle);
    let mut tracker = RhythmTracker::new(false);
    let triple = tracker.process(&circle_after(c, GapRatios { one_third: true, ..no_ratio() }, true));
    assert_eq!(triple.pattern, RhythmPattern::Triple);
    let half = tracker.process(&circle_after(c, GapRatios { quarter: true, ..no_ratio() }, true));
    assert_eq!(half.pattern, RhythmPattern::Half);
    let plain = tracker.process(&circle_after(c, long_gap(), true));
    assert_eq!(plain.pattern, RhythmPattern::Plain);
    assert!(!tracker.is_previous_offbeat());
}

#[test]
fn spinner_resets_offbeat_and_is_not_counted() {
    let c = Some(ObjectKind::Circle);
    let mut tracker = RhythmTracker::new(true);
    tracker.process(&circle_after(c, even(), true));
    assert!(tracker.is_previous_offbeat());
    let spinner = RhythmEvent { kind: ObjectKind::Spinner, ..circle_after(c, even(), true) };
    let out = tracker.process(&spinner);
    assert_eq!(out.accrual, Accrual::Neither);
    assert_eq!(out.pattern, RhythmPattern::Plain);
    assert!(!tracker.is_previous_offbeat());
    assert_eq!(tracker.accuracy_object_count(), 1);
    assert_eq!(tracker.note_index(), 2);
}

#[test]
fn sliders_count_only_with_slider_accuracy() {
    let slider = RhythmEvent { kind: ObjectKind::Slider, ..circle_after(None, no_ratio(), false) };
    let mut classic = RhythmTracker::new(false);
    assert_eq!(classic.process(&slider).accrual, Accrual::Neither);
    assert_eq!(classic.accuracy_object_count(), 0);
    let mut lazer = RhythmTracker::new(true);
    assert_eq!(lazer.process(&slider).accrual, Accrual::SliderAccOnly);
    assert_eq!(lazer.accuracy_object_count(), 1);
    assert_eq!(lazer.hit_circle_count(), 0);
}

#[test]
fn slider_end_rhythm() {
    let s = Some(ObjectKind::Slider);
    let mut tracker = RhythmTracker::new(false);
    let matched = RhythmEvent {
        slider_gap_matches: true,
        slider_end_flowing: true,
        ..circle_after(s, no_ratio(), false)
    };
    let out = tracker.process(&matched);
    assert_eq!(out.pattern, RhythmPattern::SliderEnd);
    assert!(tracker.is_previous_offbeat());
    let unmatched = circle_after(s, no_ratio(), true);
    assert_eq!(tracker.process(&unmatched).pattern, RhythmPattern::Plain);
    assert!(!tracker.is_previous_offbeat());
}

#[test]
fn decay_looks_at_ten_latest_doubles() {
    let c = Some(ObjectKind::Circle);
    let mut tracker = RhythmTracker::new(false);
    tracker.process(&circle_after(None, no_ratio(), true));
    let mut last = Vec::new();
    for _ in 0..12 {
        tracker.process(&circle_after(c, even(), true));
        last = tracker.process(&circle_after(c, long_gap(), false)).decay_steps;
    }
    // Offbeats were at notes 2, 4, ..., 24; the last one sees the ten before it.
    assert_eq!(last, vec![20, 18, 16, 14, 12, 10, 8, 6, 4, 2]);
}
