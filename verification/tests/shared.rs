use std::cell::RefCell;

use coinswap_btcpay::shared::{
    one_line, sleep_unless_stopped, LogLine, Logger, Nap, Phase, RETRY_BACKOFF, START_ATTEMPTS,
    TICK,
};

#[test]
fn a_wait_adds_up_to_what_was_asked() {
    let total = 2 * TICK + 5;
    let mut slept = 0;
    let mut naps = 0;
    while let Nap::Sleep(nap) = sleep_unless_stopped(slept, total, false) {
        assert!(nap <= TICK);
        slept += nap;
        naps += 1;
    }
    assert_eq!(slept, total);
    assert_eq!(naps, 3);
    assert_eq!(sleep_unless_stopped(slept, total, false), Nap::Over(false));
}

#[test]
fn a_stop_ends_a_wait_at_once() {
    assert_eq!(sleep_unless_stopped(0, 1_000, true), Nap::Over(true));
    assert_eq!(sleep_unless_stopped(1_000, 1_000, true), Nap::Over(true));
    assert_eq!(sleep_unless_stopped(0, 0, false), Nap::Over(false));
}

#[test]
fn a_logger_says_what_it_was_told_and_how() {
    let seen = RefCell::new(Vec::new());
    let logger = Logger::new(|is_error: bool, message: &str| {
        seen.borrow_mut().push((is_error, message.to_string()));
    });
    logger.info("fine");
    logger.error("broken");
    assert_eq!(
        *seen.borrow(),
        vec![(false, "fine".to_string()), (true, "broken".to_string())]
    );
}

#[test]
fn a_cloned_logger_says_it_to_the_same_sink() {
    let seen = RefCell::new(Vec::new());
    let sink = |is_error: bool, message: &str| {
        seen.borrow_mut().push((is_error, message.to_string()));
    };
    let logger = Logger::new(&sink);
    let other = logger.clone();
    logger.info("one");
    other.error("two");
    assert_eq!(
        *seen.borrow(),
        vec![(false, "one".to_string()), (true, "two".to_string())]
    );
    Logger::<fn(bool, &str)>::silent().clone().info("nobody");
}

#[test]
fn a_silent_logger_swallows_everything() {
    let logger = Logger::<fn(bool, &str)>::silent();
    logger.info("nobody");
    logger.error("hears this");
}

#[test]
fn a_phase_is_live_while_it_holds_something() {
    assert!(Phase::Starting.is_live());
    assert!(Phase::Running.is_live());
    assert!(!Phase::Stopped.is_live());
    assert!(!Phase::Failed("x".to_string()).is_live());
    assert_eq!(
        Phase::Failed("x".to_string()).clone(),
        Phase::Failed("x".to_string())
    );
}

#[test]
fn lines_know_whether_they_report_an_error() {
    assert_eq!(
        one_line(LogLine::error("x".to_string())),
        vec![LogLine { is_error: true, text: "x".to_string() }]
    );
    assert!(!LogLine::info("x".to_string()).is_error);
    assert_eq!((START_ATTEMPTS, RETRY_BACKOFF), (4, 5));
}
