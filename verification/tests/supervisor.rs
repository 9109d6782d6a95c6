use backend_supervisor::supervisor::StartStep;
use backend_supervisor::supervisor::StopOutcome;
use backend_supervisor::supervisor::Supervisor;
use backend_supervisor::supervisor::stop_reply;

#[test]
fn start_twice_is_idempotent() {
    let mut sup = Supervisor::new();
    assert!(matches!(sup.start_check(), StartStep::NeedSpawn));
    let first = sup.start_complete(Ok(4321));
    assert_eq!(first, Ok("Backend started with PID: 4321".to_string()));
    assert!(sup.status());
    match sup.start_check() {
        StartStep::AlreadyRunning(msg) => {
            assert_eq!(msg, "Backend already running".to_string());
        }
        StartStep::NeedSpawn => panic!("second start must not spawn"),
    }
    assert!(sup.status());
}

#[test]
fn stop_when_empty_is_idempotent() {
    let mut sup = Supervisor::new();
    assert!(!sup.status());
    let taken = sup.stop_take();
    assert_eq!(taken, None);
    let reply = stop_reply(StopOutcome::WasNotRunning);
    assert_eq!(reply, Ok("Backend was not running".to_string()));
    assert!(!sup.status());
}

#[test]
fn start_status_stop_status_cycle() {
    let mut sup = Supervisor::new();
    assert!(matches!(sup.start_check(), StartStep::NeedSpawn));
    let started = sup.start_complete(Ok(4242));
    assert_eq!(started, Ok("Backend started with PID: 4242".to_string()));
    assert!(sup.status());
    let taken = sup.stop_take();
    assert_eq!(taken, Some(4242));
    let reply = stop_reply(StopOutcome::Terminated);
    assert_eq!(reply, Ok("Backend stopped".to_string()));
    assert!(!sup.status());
}

#[test]
fn spawn_failure_reports_reason_and_stays_empty() {
    let mut sup = Supervisor::new();
    assert!(matches!(sup.start_check(), StartStep::NeedSpawn));
    let failed = sup.start_complete(Err("No such file or directory (os error 2)".to_string()));
    assert_eq!(
        failed,
        Err("Failed to start backend: No such file or directory (os error 2)".to_string())
    );
    assert!(!sup.status());
    assert!(matches!(sup.start_check(), StartStep::NeedSpawn));
}

#[test]
fn terminate_failure_still_clears_the_slot() {
    let mut sup = Supervisor::new();
    let started = sup.start_complete(Ok(7));
    assert_eq!(started, Ok("Backend started with PID: 7".to_string()));
    let taken = sup.stop_take();
    assert_eq!(taken, Some(7));
    assert!(!sup.status());
    let reply = stop_reply(StopOutcome::TerminateFailed("permission denied".to_string()));
    assert_eq!(reply, Err("Failed to kill backend: permission denied".to_string()));
    assert!(!sup.status());
}

#[test]
fn state_follows_the_call_sequence() {
    let mut sup = Supervisor::new();
    assert!(!sup.status());
    sup.start_complete(Ok(11)).unwrap();
    assert!(sup.status());
    assert!(matches!(sup.start_check(), StartStep::AlreadyRunning(_)));
    assert!(sup.status());
    sup.stop_take();
    assert!(!sup.status());
    sup.stop_take();
    assert!(!sup.status());
    let failed = sup.start_complete(Err("boom".to_string()));
    assert!(failed.is_err());
    assert!(!sup.status());
    sup.start_complete(Ok(12)).unwrap();
    assert!(sup.status());
}

#[test]
fn serialized_starts_spawn_exactly_once() {
    let mut sup = Supervisor::new();
    let calls = 5;
    let mut spawns = 0;
    let mut already = 0;
    for _ in 0..calls {
        match sup.start_check() {
            StartStep::NeedSpawn => {
                spawns += 1;
                sup.start_complete(Ok(99)).unwrap();
            }
            StartStep::AlreadyRunning(msg) => {
                assert_eq!(msg, "Backend already running".to_string());
                already += 1;
            }
        }
    }
    assert_eq!(spawns, 1);
    assert_eq!(already, calls - 1);
    assert!(sup.status());
}
