use coinswap_btcpay::lifecycle::WalletRead;
use coinswap_btcpay::maker::{MakerReadings, MakerRuntime, SwapRecord, TrackedSwap, STALE_AFTER};
use coinswap_btcpay::runtime::{ServerReadings, StopStep, WalletReadings};
use coinswap_btcpay::shared::{Balances, Phase};

fn serving() -> MakerRuntime {
    let mut runtime = MakerRuntime::new();
    assert!(runtime.start().is_ok());
    runtime.thread().initialised(Ok(WalletRead::Existing));
    runtime.thread().tor_checked(1, 9051, Ok(()), false);
    runtime
}

fn swap(swap_id: &str, funded: bool, amount: u64) -> TrackedSwap {
    TrackedSwap {
        swap_id: swap_id.to_string(),
        phase: "Recovering".to_string(),
        recovery: "Monitoring".to_string(),
        swap_amount_sat: amount,
        funding_broadcast: funded,
        updated_at: 1_000,
    }
}

fn readings() -> MakerReadings {
    MakerReadings {
        server: ServerReadings {
            wallet: Some(WalletReadings {
                balances: Some(Balances { spendable: 70, swap: 0, fidelity: 0, contract: 0 }),
                bonds: Vec::new(),
            }),
            ongoing_swaps: Some(false),
            port: 6102,
        },
        maturities: vec![900_100, 900_007, 900_050],
        tip: Some(900_000),
        min_swap_sat: 10_000,
        swaps: Some(vec![
            swap("0123456789abcdef0123", true, 5),
            swap("short", false, 6),
        ]),
    }
}

#[test]
fn maker_a_new_runtime_is_stopped_and_has_no_seed_phrase() {
    let mut runtime = MakerRuntime::new();
    assert_eq!(runtime.phase(), Phase::Stopped);
    assert!(!runtime.is_live());
    assert!(runtime.take_new_mnemonic().is_none());
}

#[test]
fn maker_stopping_a_runtime_that_never_started_succeeds() {
    // Stopping runs on BTCPay's shutdown path, where panicking is not an option.
    let mut runtime = MakerRuntime::new();
    assert_eq!(runtime.stop(), StopStep::Done);
}

#[test]
fn maker_stopping_twice_succeeds() {
    let mut runtime = MakerRuntime::new();
    assert_eq!(runtime.stop(), StopStep::Done);
    assert_eq!(runtime.stop(), StopStep::Done);
}

#[test]
fn maker_commands_report_that_the_wallet_is_shut_rather_than_panicking() {
    // The dashboard is reachable while the maker is stopped, so commands must survive that.
    let mut runtime = MakerRuntime::new();
    assert!(runtime.receive_address().is_err());
    assert!(runtime.drain_idle_swaps().is_err());
    assert!(runtime.dismiss_swap("abc").is_err());
}

#[test]
fn maker_a_status_without_a_maker_still_renders() {
    let runtime = MakerRuntime::default();
    let status = runtime.status(None);
    assert_eq!(status.phase, Phase::Stopped);
    assert!(status.balances.is_none());
    assert!(status.port.is_none());
    assert!(status.bonds.is_empty());
}

#[test]
fn maker_a_seed_phrase_is_handed_out_once() {
    let mut runtime = MakerRuntime::new();
    assert!(runtime.start().is_ok());
    runtime
        .thread()
        .initialised(Ok(WalletRead::Created("abandon abandon about".to_string())));

    assert!(runtime.take_new_mnemonic().is_some());
    assert!(
        runtime.take_new_mnemonic().is_none(),
        "a reload must not put the phrase back on screen"
    );
}

#[test]
fn maker_a_failure_survives_a_later_stop() {
    // Overwriting the reason with a bare "stopped" loses the only clue the operator had.
    let mut runtime = MakerRuntime::new();
    assert!(runtime.start().is_ok());
    runtime
        .thread()
        .initialised(Err("backend unreachable".to_string()));

    runtime.stop();
    runtime.thread().stop_waited(true, 1);

    assert_eq!(
        runtime.phase(),
        Phase::Failed("backend unreachable".to_string())
    );
}

#[test]
fn maker_a_stop_that_times_out_reports_it_and_refuses_a_restart() {
    // A wedged maker still holds its port, so a start must be refused until it is gone.
    let mut runtime = serving();
    assert_eq!(runtime.stop(), StopStep::Wait { signal: true });
    assert_eq!(runtime.thread().stop_waited(false, 0).len(), 1);

    // Still live, because the thread it could not join is still out there.
    assert_eq!(runtime.phase(), Phase::Running);
    assert!(runtime.is_live());
    assert!(runtime.start().is_err());
}

#[test]
fn maker_a_start_is_refused_while_one_is_already_starting() {
    // Two makers on one port: the second fails to bind, confusingly.
    let mut runtime = MakerRuntime::new();
    assert!(runtime.start().is_ok());
    assert!(runtime.start().is_err());
}

fn record(phase: &str, recovery: &str, funded: bool) -> SwapRecord {
    SwapRecord {
        id: "abc123".to_string(),
        tracker_key: "abc123".to_string(),
        phase: phase.to_string(),
        recovery: recovery.to_string(),
        amount_sat: 100_000,
        funded,
        updated_at: 0,
    }
}

#[test]
fn a_swap_with_a_broadcast_funding_tx_still_recovering_has_funds_at_stake() {
    // The taker went away mid-swap, funding is on chain, and the maker is waiting on a timelock.
    assert!(record("Recovering", "TimelockWaiting", true).funds_at_stake());
    assert!(record("Recovering", "Monitoring", true).funds_at_stake());
}

#[test]
fn a_swap_that_never_reached_the_chain_has_nothing_at_stake() {
    // No funding broadcast means no contract to recover, so a warning would send the operator
    // looking for money that was never spent.
    assert!(!record("Recovering", "TimelockWaiting", false).funds_at_stake());
}

#[test]
fn a_cleaned_up_or_completed_swap_has_nothing_at_stake() {
    assert!(!record("Recovered", "CleanedUp", true).funds_at_stake());
    assert!(!record("Completed", "NotStarted", true).funds_at_stake());
}

#[test]
fn a_record_is_stale_after_more_than_a_day() {
    let record = SwapRecord { updated_at: 500, ..record("Recovering", "Monitoring", true) };
    assert!(!record.is_stale(500 + STALE_AFTER));
    assert!(record.is_stale(501 + STALE_AFTER));
    // A clock that went back does not make it so.
    assert!(!record.is_stale(0));
}

#[test]
fn a_status_lists_the_swaps_by_their_short_names() {
    let status = serving().status(Some(readings()));
    assert_eq!(status.port, Some(6102));
    assert_eq!(status.swaps.len(), 2);
    assert_eq!(status.swaps[0].id, "0123456789abcdef");
    assert_eq!(status.swaps[0].tracker_key, "0123456789abcdef0123");
    assert_eq!(status.swaps[0].amount_sat, 5);
    assert_eq!(status.swaps[1].id, "short");
    assert!(!status.swaps[1].funded);

    let locked = MakerReadings { swaps: None, ..readings() };
    assert!(serving().status(Some(locked)).swaps.is_empty());
    // Nothing is known of a maker that has no server.
    assert!(MakerRuntime::new().status(Some(readings())).swaps.is_empty());
}

#[test]
fn the_watcher_sees_the_funded_swaps() {
    let seen = serving().observe(Some(readings()));
    assert_eq!(seen.phase, Phase::Running);
    assert_eq!(seen.spendable_sat, Some(70));
    assert_eq!(seen.min_swap_sat, Some(10_000));
    assert_eq!(seen.bond_expiry_blocks, Some(7));
    assert_eq!(seen.unfinished_funded_swaps, vec!["0123456789abcdef".to_string()]);

    let stopped = MakerRuntime::new().observe(Some(readings()));
    assert_eq!(stopped.phase, Phase::Stopped);
    assert_eq!(stopped.spendable_sat, None);
    assert_eq!(stopped.min_swap_sat, None);
    assert_eq!(stopped.bond_expiry_blocks, None);
    assert!(stopped.unfinished_funded_swaps.is_empty());
}

#[test]
fn a_bond_that_matured_has_no_blocks_left() {
    let expiry = |maturities: Vec<u64>, tip: Option<u64>| {
        serving()
            .observe(Some(MakerReadings { maturities, tip, ..readings() }))
            .bond_expiry_blocks
    };
    assert_eq!(expiry(vec![899_999, 950_000], Some(900_000)), Some(0));
    assert_eq!(expiry(Vec::new(), Some(900_000)), None);
    assert_eq!(expiry(vec![950_000], None), None);
}

#[test]
fn a_dismissed_swap_is_shown_nowhere() {
    let mut runtime = serving();
    assert_eq!(
        runtime.dismiss_swap("0123456789abcdef0123"),
        Ok("Swap dismissed. Nothing on chain has changed.".to_string())
    );
    let status = runtime.status(Some(readings()));
    assert_eq!(status.swaps.len(), 1);
    assert_eq!(status.swaps[0].id, "short");
    assert!(runtime
        .observe(Some(readings()))
        .unfinished_funded_swaps
        .is_empty());
}
