use oadiscord::reconnect::{reconnecting_flag, reinitialize, LoopStep, ReinitAction};

#[test]
fn only_one_loop_is_started() {
    let mut flag = reconnecting_flag();
    assert!(flag.schedule_reconnect());
    assert!(!flag.schedule_reconnect());
    assert!(!flag.schedule_reconnect());
}

#[test]
fn reinitialize_actions() {
    assert_eq!(reinitialize(Ok(())), ReinitAction::InstallClient);
    assert_eq!(reinitialize(Err("down".to_string())), ReinitAction::ClearClient("down".to_string()));
}

#[test]
fn loop_retries_until_success_then_stops() {
    let mut flag = reconnecting_flag();
    assert!(flag.schedule_reconnect());
    let failed = reinitialize(Err("down".to_string()));
    assert_eq!(flag.finish_attempt(&failed), LoopStep::RetryAfterDelay);
    assert!(!flag.schedule_reconnect());
    let ok = reinitialize(Ok(()));
    assert_eq!(flag.finish_attempt(&ok), LoopStep::Stop);
    assert!(flag.schedule_reconnect());
}

#[test]
fn request_after_success_starts_exactly_one_new_loop() {
    // The old loop has stopped on its success before the flag is cleared,
    // so the new request's loop is the only one.
    let mut flag = reconnecting_flag();
    let mut running = 0;
    if flag.schedule_reconnect() {
        running += 1;
    }
    if flag.finish_attempt(&ReinitAction::InstallClient) == LoopStep::Stop {
        running -= 1;
    }
    if flag.schedule_reconnect() {
        running += 1;
    }
    if flag.schedule_reconnect() {
        running += 1;
    }
    assert_eq!(running, 1);
}
