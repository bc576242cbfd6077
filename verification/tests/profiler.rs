use pebble::profiler::{Profiler, Samples, HISTORY_LEN};

#[test]
fn a_fresh_profiler_reports_zero_rather_than_dividing_by_zero() {
    let profiler = Profiler::new();
    assert_eq!(profiler.frame_time(), 0);
    assert_eq!(profiler.average_frame_time(), 0);
    assert!(profiler.section_time("never_ran").is_none());
    assert!(profiler.average_section_time("never_ran").is_none());
    assert!(profiler.section_names().is_empty());
}

#[test]
fn sections_nest_without_a_borrow_conflict() {
    let mut profiler = Profiler::new();
    profiler.record_section("inner", 2_000);
    profiler.record_section("outer", 5_000);
    assert!(profiler.section_time("outer").is_some());
    assert!(profiler.section_time("inner").is_some());
}

#[test]
fn reusing_a_section_name_accumulates_history_for_averaging() {
    let mut profiler = Profiler::new();
    for nanos in [1_000u64, 2_000, 6_000] {
        profiler.record_section("repeated", nanos);
    }
    assert_eq!(profiler.average_section_time("repeated"), Some(3_000));
    assert_eq!(profiler.section_time("repeated"), Some(6_000));
    assert!(profiler.section_names().contains(&"repeated"));
    assert_eq!(profiler.section_names().len(), 1);
}

#[test]
fn frame_times_report_the_latest_and_the_rounded_down_average() {
    let mut profiler = Profiler::new();
    profiler.record_frame(10);
    profiler.record_frame(11);
    assert_eq!(profiler.frame_time(), 11);
    assert_eq!(profiler.average_frame_time(), 10);
}

#[test]
fn the_history_keeps_only_the_most_recent_samples() {
    let mut samples = Samples::new();
    for _ in 0..HISTORY_LEN {
        samples.push(1_000);
    }
    for _ in 0..HISTORY_LEN {
        samples.push(3_000);
    }
    assert_eq!(samples.average(), 3_000);
    samples.push(3_000 + HISTORY_LEN as u64);
    assert_eq!(samples.last(), 3_000 + HISTORY_LEN as u64);
    assert_eq!(samples.average(), 3_001);
}

#[test]
fn section_names_come_in_the_order_first_recorded() {
    let mut profiler = Profiler::new();
    profiler.record_section("physics", 1);
    profiler.record_section("render", 1);
    profiler.record_section("physics", 1);
    assert_eq!(profiler.section_names(), vec!["physics", "render"]);
}
