use backend_supervisor::messages::already_running_message;
use backend_supervisor::messages::kill_failed_message;
use backend_supervisor::messages::not_running_message;
use backend_supervisor::messages::spawn_failed_message;
use backend_supervisor::messages::started_message;
use backend_supervisor::messages::stopped_message;
use backend_supervisor::messages::u32_to_decimal;

#[test]
fn decimal_rendering_is_exact() {
    assert_eq!(u32_to_decimal(0), "0".to_string());
    assert_eq!(u32_to_decimal(7), "7".to_string());
    assert_eq!(u32_to_decimal(10), "10".to_string());
    assert_eq!(u32_to_decimal(100), "100".to_string());
    assert_eq!(u32_to_decimal(4242), "4242".to_string());
    assert_eq!(u32_to_decimal(u32::MAX), "4294967295".to_string());
}

#[test]
fn fixed_replies_are_exact() {
    assert_eq!(already_running_message(), "Backend already running".to_string());
    assert_eq!(stopped_message(), "Backend stopped".to_string());
    assert_eq!(not_running_message(), "Backend was not running".to_string());
}

#[test]
fn replies_with_details_are_exact() {
    assert_eq!(
        started_message(80531),
        "Backend started with PID: 80531".to_string()
    );
    assert_eq!(
        spawn_failed_message("program not found"),
        "Failed to start backend: program not found".to_string()
    );
    assert_eq!(
        kill_failed_message("Operation not permitted (os error 1)"),
        "Failed to kill backend: Operation not permitted (os error 1)".to_string()
    );
}
