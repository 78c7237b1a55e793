use livesplit_core::run::PERSONAL_BEST;
use livesplit_core::{Attempt, Image, Run, Segment, Time, TimeSpan};

fn seconds(value: i64) -> Time {
    Time::new().with_real_time(Some(TimeSpan::from_seconds(value)))
}

#[test]
fn a_new_segment_holds_nothing_but_its_name() {
    let segment = Segment::new("Bowser");
    assert_eq!(segment.name(), "Bowser");
    assert!(segment.icon().is_empty());
    assert_eq!(segment.personal_best_split_time(), Time::new());
    assert_eq!(segment.best_segment_time(), Time::new());
    assert_eq!(segment.comparison(PERSONAL_BEST), Time::new());
    assert_eq!(segment.comparison("Old Run"), Time::new());
    assert!(!segment.has_comparison("Old Run"));
}

#[test]
fn comparisons_are_looked_up_by_name() {
    let mut segment = Segment::new("a");
    segment.set_comparison("Old Run", seconds(10));
    segment.set_comparison("Race", seconds(12));
    assert_eq!(segment.comparison("Old Run"), seconds(10));
    assert_eq!(segment.comparison("Race"), seconds(12));
    assert_eq!(segment.comparison("race"), Time::new());
    assert_eq!(segment.comparison(""), Time::new());
    segment.set_comparison("Old Run", seconds(9));
    assert_eq!(segment.comparison("Old Run"), seconds(9));
    assert_eq!(segment.comparison("Race"), seconds(12));
    assert!(segment.has_comparison("Race"));
}

#[test]
fn the_personal_best_is_a_comparison_of_every_segment() {
    let mut segment = Segment::new("a");
    segment.set_personal_best_split_time(seconds(30));
    assert_eq!(segment.comparison(PERSONAL_BEST), seconds(30));
    segment.set_comparison(PERSONAL_BEST, seconds(29));
    assert_eq!(segment.personal_best_split_time(), seconds(29));
    assert!(!segment.has_comparison(PERSONAL_BEST));
    segment.set_best_segment_time(seconds(5));
    assert_eq!(segment.best_segment_time(), seconds(5));
    segment.set_name("b");
    assert_eq!(segment.name(), "b");
    assert_eq!(segment.personal_best_split_time(), seconds(29));
}

#[test]
fn a_new_run_is_empty() {
    let run = Run::new();
    assert!(run.is_empty());
    assert_eq!(run.len(), 0);
    assert_eq!(run.category_name(), "");
    assert_eq!(run.attempt_count(), 0);
    assert_eq!(run.offset(), TimeSpan::zero());
    assert!(run.custom_comparisons().is_empty());
    assert!(run.attempt_history().is_empty());
}

#[test]
fn segments_keep_their_order() {
    let mut run = Run::new();
    for name in ["one", "two", "three"] {
        run.push_segment(Segment::new(name));
    }
    assert_eq!(run.len(), 3);
    assert!(!run.is_empty());
    assert_eq!(run.segment(0).name(), "one");
    assert_eq!(run.segment(1).name(), "two");
    assert_eq!(run.segment(2).name(), "three");
    assert_eq!(run.segments().len(), 3);
}

#[test]
fn run_fields_are_set_one_by_one() {
    let mut run = Run::new();
    run.set_category_name("Any%");
    run.set_attempt_count(12);
    run.set_offset(TimeSpan::from_seconds(-5));
    assert_eq!(run.category_name(), "Any%");
    assert_eq!(run.attempt_count(), 12);
    assert_eq!(run.offset(), TimeSpan::from_seconds(-5));
    assert!(run.is_empty());
}

#[test]
fn custom_comparisons_are_registered_once() {
    let mut run = Run::new();
    assert!(!run.has_custom_comparison("Old Run"));
    run.add_custom_comparison("Old Run");
    run.add_custom_comparison("Race");
    run.add_custom_comparison("Old Run");
    assert_eq!(run.custom_comparisons(), &vec!["Old Run".to_string(), "Race".to_string()]);
    assert!(run.has_custom_comparison("Race"));
    assert!(!run.has_custom_comparison("Personal Best"));
}

#[test]
fn attempts_are_appended_to_the_history() {
    let mut run = Run::new();
    let first = Attempt::new(1, seconds(100), TimeSpan::from_seconds(110));
    let second = Attempt::new(2, Time::new(), TimeSpan::from_seconds(7));
    run.add_attempt(first);
    run.add_attempt(second);
    assert_eq!(run.attempt_history(), &vec![first, second]);
    assert_eq!(run.attempt_history()[1].time, Time::new());
}

#[test]
fn icons_go_to_the_segments_by_position() {
    let mut run = Run::new();
    for name in ["one", "two", "three"] {
        run.push_segment(Segment::new(name));
    }
    run.set_segment_icon(2, Image::new(vec![7]));
    run.assign_icons(vec![Image::new(vec![1]), Image::new(vec![2, 2])]);
    assert_eq!(run.segment(0).icon().data(), &vec![1]);
    assert_eq!(run.segment(1).icon().data(), &vec![2, 2]);
    assert_eq!(run.segment(2).icon().data(), &vec![7]);
    run.assign_icons(vec![Image::default(), Image::new(vec![3]), Image::new(vec![4]), Image::new(vec![5])]);
    assert!(run.segment(0).icon().is_empty());
    assert_eq!(run.segment(1).icon().data(), &vec![3]);
    assert_eq!(run.segment(2).icon().data(), &vec![4]);
    assert_eq!(run.len(), 3);
    assert_eq!(run.segment(2).name(), "three");
}
