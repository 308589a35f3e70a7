use osu_pplus::sections::SectionClock;

fn feed(sections: &[i64]) -> (Vec<u64>, SectionClock) {
    let mut clock = SectionClock::new();
    let closed = sections.iter().map(|&s| clock.advance(s)).collect();
    (closed, clock)
}

#[test]
fn first_object_opens_its_section() {
    let (closed, clock) = feed(&[3]);
    assert_eq!(closed, vec![0]);
    assert!(clock.is_started());
    assert_eq!(clock.section_end(), 3);
}

#[test]
fn fresh_clock_has_no_section() {
    assert!(!SectionClock::new().is_started());
}

#[test]
fn section_peaks_span_first_to_last() {
    let sections = [1, 1, 2, 5, 5, 9];
    let (closed, clock) = feed(&sections);
    assert_eq!(closed, vec![0, 0, 1, 3, 0, 4]);
    let peaks: u64 = closed.iter().sum::<u64>() + 1;
    assert_eq!(peaks, 9 - 1 + 1);
    assert_eq!(clock.section_end(), 9);
}

#[test]
fn earlier_object_closes_nothing() {
    let (closed, clock) = feed(&[4, 2, 6]);
    assert_eq!(closed, vec![0, 0, 2]);
    assert_eq!(clock.section_end(), 6);
}

#[test]
fn negative_sections_are_counted() {
    let (closed, _) = feed(&[-2, 0]);
    assert_eq!(closed, vec![0, 2]);
}

fn section_of_ms(t: i64) -> i64 {
    (t + 399).div_euclid(400)
}

#[test]
fn section_peaks_for_whole_ms_times() {
    let times = [100, 500, 900, 1300];
    let sections: Vec<i64> = times.iter().map(|&t| section_of_ms(t)).collect();
    assert_eq!(sections, vec![1, 2, 3, 4]);
    let (closed, _) = feed(&sections);
    let peaks: u64 = closed.iter().sum::<u64>() + 1;
    // ceil((1300 - 100) / 400) + 1
    assert_eq!(peaks, 4);
}
