use asaogea::types::profiler::Profiler;
use asaogea::types::time_delta::TimeDelta;

fn names(records: &[asaogea::types::profiler::RecordData]) -> Vec<String> {
    records.iter().map(|r| r.name.clone()).collect()
}

#[test]
fn a_new_profiler_is_disabled_and_empty() {
    let p = Profiler::new();
    assert!(p.history().is_empty());
    assert!(p.current().is_empty());
    let d = Profiler::default();
    assert!(d.history().is_empty());
}

#[test]
fn disabled_profiler_ignores_measures() {
    let mut p = Profiler::new();
    let r = p.record("ignored");
    r.end(&mut p);
    p.new_frame();
    assert!(p.current().is_empty());
    assert!(p.history().is_empty());
}

#[test]
fn measures_join_the_current_frame_in_order() {
    let mut p = Profiler::new();
    p.enable(true);
    let a = p.record("update");
    let b = p.record("render");
    b.end(&mut p);
    a.end(&mut p);
    assert_eq!(names(&p.current()), vec!["render".to_string(), "update".to_string()]);
}

#[test]
fn new_frame_moves_the_measures_to_the_history() {
    let mut p = Profiler::new();
    p.enable(true);
    p.record("first").end(&mut p);
    p.new_frame();
    p.record("second").end(&mut p);
    p.record("third").end(&mut p);
    p.new_frame();
    assert!(p.current().is_empty());
    assert_eq!(p.history().len(), 2);
    assert_eq!(names(&p.history()[0]), vec!["first".to_string()]);
    assert_eq!(names(&p.history()[1]), vec!["second".to_string(), "third".to_string()]);
    // An empty frame is recorded too.
    p.new_frame();
    assert_eq!(p.history().len(), 3);
    assert!(p.history()[2].is_empty());
}

#[test]
fn clear_forgets_everything_but_keeps_profiling() {
    let mut p = Profiler::new();
    p.enable(true);
    p.record("a").end(&mut p);
    p.new_frame();
    p.record("b").end(&mut p);
    p.clear();
    assert!(p.history().is_empty());
    assert!(p.current().is_empty());
    p.record("c").end(&mut p);
    assert_eq!(names(&p.current()), vec!["c".to_string()]);
}

#[test]
fn enabling_again_starts_an_empty_frame() {
    let mut p = Profiler::new();
    p.enable(true);
    p.record("a").end(&mut p);
    p.enable(true);
    assert!(p.current().is_empty());
    p.record("b").end(&mut p);
    p.enable(false);
    assert!(p.current().is_empty());
    p.record("c").end(&mut p);
    p.new_frame();
    assert!(p.history().is_empty());
}

#[test]
fn recorded_durations_are_measured() {
    let mut p = Profiler::new();
    p.enable(true);
    let r = p.record("sleep-free");
    r.end(&mut p);
    let current = p.current();
    assert_eq!(current.len(), 1);
    assert!(*current[0].duration() < std::time::Duration::from_secs(60));
}

#[test]
fn time_delta_measures_between_frames() {
    let mut delta = TimeDelta::new();
    let first = *delta.delta_time();
    delta.next();
    assert!(*delta.delta_time() < std::time::Duration::from_secs(60));
    assert!(first < std::time::Duration::from_secs(60));
    let d = TimeDelta::default();
    assert!(*d.delta_time() < std::time::Duration::from_secs(60));
}

#[test]
fn time_delta_records_the_readings_it_is_given() {
    let start = std::time::Instant::now();
    let mut delta = TimeDelta::from_readings(start, std::time::Duration::from_millis(3));
    assert_eq!(*delta.delta_time(), std::time::Duration::from_millis(3));
    delta.advance(std::time::Duration::from_millis(16), start);
    assert_eq!(*delta.delta_time(), std::time::Duration::from_millis(16));
}

#[test]
fn next_measures_the_frame_since_the_previous_start() {
    let mut delta = TimeDelta::new();
    let frame_start = std::time::Instant::now();
    while frame_start.elapsed() < std::time::Duration::from_millis(3) {}
    delta.next();
    assert!(*delta.delta_time() >= std::time::Duration::from_millis(3));
}
