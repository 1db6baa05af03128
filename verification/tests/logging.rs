use coinswap_btcpay::logging::{detach, enabled, install, own_level, LogLevel, Sink};

#[test]
fn records_are_dropped_when_no_host_is_attached() {
    // The logger outlives the plugin, so a record after a stop must not reach a stale host.
    let mut sink = Sink::new();
    install(&mut sink, "host");
    detach(&mut sink);
    assert!(sink
        .record(LogLevel::Info, "test", "this must go nowhere")
        .is_none());
    assert!(sink.host().is_none());
}

#[test]
fn installing_twice_does_not_panic() {
    // A plugin restart in one BTCPay process installs a second time.
    let mut sink = Sink::default();
    install(&mut sink, 1);
    install(&mut sink, 2);
    assert_eq!(sink.host(), Some(&2));
    detach(&mut sink);
    assert!(sink.host().is_none());
}

#[test]
fn a_record_carries_its_target_and_level() {
    let mut sink = Sink::new();
    install(&mut sink, ());
    let record = sink
        .record(LogLevel::Warn, "openswap::maker", "no peers")
        .unwrap();
    assert_eq!(record.level, LogLevel::Warn);
    assert_eq!(record.message, "[openswap::maker] no peers");
    assert!(sink.record(LogLevel::Trace, "x", "y").is_none());
}

#[test]
fn only_trace_records_are_kept_back() {
    for level in [LogLevel::Debug, LogLevel::Info, LogLevel::Warn, LogLevel::Error] {
        assert!(enabled(level));
    }
    assert!(!enabled(LogLevel::Trace));
    assert_eq!(own_level(true), LogLevel::Error);
    assert_eq!(own_level(false), LogLevel::Info);
}
