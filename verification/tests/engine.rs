use a_simple_autoclicker::clicker::{ClickEngine, WorkerStep, IDLE_POLL_MS, START_DELAY_MS};
use a_simple_autoclicker::model::{Action, ClickPosition, KeyModifiers};

#[test]
fn a_fresh_engine_is_stopped_with_defaults() {
    let engine = ClickEngine::new();
    assert!(!engine.is_active());
    assert_eq!(engine.interval_ms(), 100);
    assert_eq!(engine.duration_ms(), 0);
    assert_eq!(engine.max_actions(), 0);
    assert_eq!(engine.action(), Action::LeftClick);
    assert_eq!(engine.position(), None);
    assert_eq!(engine.backend_error(), None);
    assert_eq!(engine.remaining_ms(), None);
    assert_eq!(engine.remaining_actions(), None);
}

#[test]
fn the_interval_is_at_least_ten_milliseconds() {
    let mut engine = ClickEngine::new();
    engine.set_interval_ms(3);
    assert_eq!(engine.interval_ms(), 10);
    engine.set_interval_ms(60_000);
    assert_eq!(engine.interval_ms(), 60_000);
}

#[test]
fn toggling_twice_restores_the_state() {
    let mut engine = ClickEngine::new();
    engine.toggle();
    assert!(engine.is_active());
    engine.toggle();
    assert!(!engine.is_active());
    engine.set_active(true);
    assert!(engine.is_active());
}

fn start_run(engine: &mut ClickEngine, now: u64) {
    engine.set_active(true);
    assert_eq!(engine.poll(now), WorkerStep::Wait { ms: START_DELAY_MS });
}

#[test]
fn an_action_limit_stops_after_exactly_that_many_actions() {
    let mut engine = ClickEngine::new();
    engine.set_max_actions(3);
    engine.set_action(Action::MiddleClick);
    start_run(&mut engine, 0);
    let mut performed = 0;
    loop {
        match engine.poll(150) {
            WorkerStep::Perform { action, position } => {
                assert_eq!(action, Action::MiddleClick);
                assert_eq!(position, None);
                performed += 1;
                let pause = engine.record_outcome(Ok(()));
                if performed < 3 {
                    assert_eq!(pause, Some(100));
                    assert_eq!(engine.remaining_actions(), Some(3 - performed));
                } else {
                    assert_eq!(pause, None);
                }
            }
            WorkerStep::Wait { ms } => {
                assert_eq!(ms, IDLE_POLL_MS);
                break;
            }
            WorkerStep::Again => panic!("no time limit was set"),
        }
    }
    assert_eq!(performed, 3);
    assert!(!engine.is_active());
    assert!(engine.take_completed_run());
    assert!(!engine.take_completed_run());
}

#[test]
fn a_time_limit_stops_at_its_deadline() {
    let mut engine = ClickEngine::new();
    engine.set_duration_ms(1_000);
    start_run(&mut engine, 0);
    assert!(engine.deadline_fits(500));
    assert!(matches!(engine.poll(500), WorkerStep::Perform { .. }));
    assert_eq!(engine.remaining_ms(), Some(1_000));
    assert_eq!(engine.record_outcome(Ok(())), Some(100));
    assert!(matches!(engine.poll(1_200), WorkerStep::Perform { .. }));
    assert_eq!(engine.remaining_ms(), Some(300));
    assert_eq!(engine.poll(1_500), WorkerStep::Again);
    assert!(!engine.is_active());
    assert_eq!(engine.remaining_ms(), None);
    assert!(engine.take_completed_run());
}

#[test]
fn a_stopped_engine_clears_its_progress() {
    let mut engine = ClickEngine::new();
    engine.set_max_actions(5);
    engine.set_duration_ms(10_000);
    start_run(&mut engine, 0);
    assert!(matches!(engine.poll(100), WorkerStep::Perform { .. }));
    assert_eq!(engine.remaining_actions(), Some(5));
    engine.set_active(false);
    assert_eq!(engine.poll(200), WorkerStep::Wait { ms: IDLE_POLL_MS });
    assert_eq!(engine.remaining_actions(), None);
    assert_eq!(engine.remaining_ms(), None);
    assert!(!engine.take_completed_run());
}

#[test]
fn a_failed_action_stops_and_keeps_the_error() {
    let mut engine = ClickEngine::new();
    let position = ClickPosition { x: -5, y: 40 };
    engine.set_position(Some(position));
    let key = Action::Key { keysym: 0x61, modifiers: KeyModifiers::default() };
    engine.set_action(key);
    start_run(&mut engine, 0);
    assert_eq!(engine.poll(0), WorkerStep::Perform { action: key, position: Some(position) });
    assert_eq!(engine.record_outcome(Err("rejected".to_string())), Some(100));
    assert!(!engine.is_active());
    assert_eq!(engine.backend_error(), Some("rejected".to_string()));
    assert!(!engine.take_completed_run());
}

#[test]
fn a_deadline_past_the_clock_does_not_fit() {
    let mut engine = ClickEngine::new();
    engine.set_duration_ms(u64::MAX);
    start_run(&mut engine, 0);
    assert!(!engine.deadline_fits(1));
    assert!(engine.deadline_fits(0));
}

#[test]
fn a_missing_backend_is_reported() {
    let mut engine = ClickEngine::new();
    engine.report_backend_unavailable("no display".to_string());
    assert_eq!(engine.backend_error(), Some("no display".to_string()));
}
