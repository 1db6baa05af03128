use coinswap_btcpay::lifecycle::WalletRead;
use coinswap_btcpay::runtime::{
    address_outcome, drain_outcome, AddressReading, LaunchAction, Runtime, ServerReadings,
    StopStep, WalletReadings,
};
use coinswap_btcpay::shared::{Balances, Phase};

/// A maker that initialised with a wallet that was there before.
fn initialised() -> Runtime {
    let mut runtime = Runtime::new();
    assert!(runtime.start().is_ok());
    let step = runtime.initialised(Ok(WalletRead::Existing));
    assert_eq!(step.action, LaunchAction::CheckTor { attempt: 1 });
    assert!(step.log.is_empty());
    runtime
}

/// A maker that is serving.
fn serving() -> Runtime {
    let mut runtime = initialised();
    let step = runtime.tor_checked(1, 9051, Ok(()), false);
    assert_eq!(step.action, LaunchAction::Serve);
    assert_eq!(step.log[0].text, "Maker is running.");
    runtime
}

#[test]
fn runtime_a_new_runtime_is_stopped_and_has_no_seed_phrase() {
    let mut runtime = Runtime::new();
    assert_eq!(runtime.phase(), Phase::Stopped);
    assert!(!runtime.is_live());
    assert!(runtime.take_new_mnemonic().is_none());
}

#[test]
fn runtime_stopping_a_runtime_that_never_started_succeeds() {
    // Stopping runs on BTCPay's shutdown path, where throwing is not an option.
    let mut runtime = Runtime::new();
    assert_eq!(runtime.stop(), StopStep::Done);
}

#[test]
fn runtime_stopping_twice_succeeds() {
    let mut runtime = Runtime::new();
    assert_eq!(runtime.stop(), StopStep::Done);
    assert_eq!(runtime.stop(), StopStep::Done);
}

#[test]
fn runtime_commands_report_that_the_wallet_is_shut_rather_than_panicking() {
    // An operator can reach the dashboard while the maker is stopped, so every command has to
    // survive being pressed then.
    let runtime = Runtime::new();
    assert!(runtime.receive_address().is_err());
    assert!(runtime.drain_idle_swaps().is_err());
}

#[test]
fn runtime_a_status_without_a_maker_still_renders() {
    let runtime = Runtime::new();
    let status = runtime.status(None);
    assert_eq!(status.phase, Phase::Stopped);
    assert!(status.balances.is_none());
    assert!(status.port.is_none());
    assert!(status.bonds.is_empty());
}

#[test]
fn runtime_a_seed_phrase_is_handed_out_once() {
    let mut runtime = Runtime::new();
    assert!(runtime.start().is_ok());
    runtime.initialised(Ok(WalletRead::Created("abandon abandon about".to_string())));

    assert!(runtime.take_new_mnemonic().is_some());
    assert!(
        runtime.take_new_mnemonic().is_none(),
        "a reload must not put the phrase back on screen"
    );
}

#[test]
fn runtime_a_failure_survives_a_later_stop() {
    // The dashboard has to keep explaining why the maker went away; overwriting the reason with a
    // bare "stopped" is how an operator loses the only clue they had.
    let mut runtime = Runtime::new();
    assert!(runtime.start().is_ok());
    runtime.initialised(Err("backend unreachable".to_string()));

    assert_eq!(runtime.stop(), StopStep::Wait { signal: false });
    runtime.stop_waited(true, 1);

    assert_eq!(
        runtime.phase(),
        Phase::Failed("backend unreachable".to_string())
    );
}

#[test]
fn runtime_a_stop_that_times_out_reports_it_and_refuses_a_restart() {
    // The maker that would not stop is still holding its port and its wallet, so a start must be
    // refused until it is gone.
    let mut runtime = serving();

    assert_eq!(runtime.stop(), StopStep::Wait { signal: true });
    let log = runtime.stop_waited(false, 30);
    assert_eq!(log.len(), 1);
    assert!(log[0].is_error);
    assert_eq!(
        log[0].text,
        "The maker did not stop within 30s, so it has been left detached."
    );

    // Still live, because the thread it could not join is still out there.
    assert_eq!(runtime.phase(), Phase::Running);
    assert!(runtime.is_live());
    assert!(runtime.start().is_err());
}

#[test]
fn runtime_a_start_is_refused_while_one_is_already_starting() {
    // Two makers on one port, one of which would fail to bind and report a confusing error.
    let mut runtime = Runtime::new();
    assert!(runtime.start().is_ok());
    assert_eq!(runtime.phase(), Phase::Starting);

    assert_eq!(
        runtime.start().unwrap_err(),
        "The maker is already running."
    );
}

#[test]
fn a_failed_initialisation_is_logged_and_kept() {
    let mut runtime = Runtime::new();
    assert!(runtime.start().is_ok());
    let step = runtime.initialised(Err("no node".to_string()));
    assert_eq!(step.action, LaunchAction::Finish);
    assert_eq!(step.log.len(), 1);
    assert!(step.log[0].is_error);
    assert_eq!(step.log[0].text, "Maker failed to start: no node");
    assert_eq!(runtime.phase(), Phase::Failed("no node".to_string()));
    assert!(!runtime.wallet_open());
    assert!(runtime.start().is_ok());
}

#[test]
fn a_wallet_that_cannot_be_read_is_logged_and_open() {
    let mut runtime = Runtime::new();
    assert!(runtime.start().is_ok());
    let step = runtime.initialised(Ok(WalletRead::Unreadable));
    assert_eq!(step.action, LaunchAction::CheckTor { attempt: 1 });
    assert!(step.log[0].is_error);
    assert!(step.log[0].text.starts_with("Could not read the maker wallet"));
    assert!(runtime.wallet_open());
}

#[test]
fn a_stop_during_initialisation_is_honoured_after_it() {
    let mut runtime = Runtime::new();
    assert!(runtime.start().is_ok());
    assert_eq!(runtime.stop(), StopStep::Wait { signal: false });
    assert!(runtime.stop_requested());
    let step = runtime.initialised(Ok(WalletRead::Created("words".to_string())));
    assert_eq!(step.action, LaunchAction::Finish);
    assert_eq!(step.log.len(), 2);
    assert!(step.log[0].text.starts_with("A new maker wallet was created."));
    assert_eq!(step.log[1].text, "Maker stopped before it finished starting.");
    assert_eq!(runtime.phase(), Phase::Stopped);
    assert_eq!(runtime.take_new_mnemonic().as_deref(), Some("words"));
}

#[test]
fn tor_is_checked_four_times_with_growing_waits() {
    let mut runtime = initialised();
    for (attempt, seconds) in [(1, 5), (2, 10), (3, 15)] {
        let step = runtime.tor_checked(attempt, 9051, Err("refused".to_string()), false);
        assert_eq!(step.action, LaunchAction::Wait { attempt, seconds });
        assert_eq!(
            step.log[0].text,
            format!(
                "Tor check {attempt} of 4 failed: Tor is not usable on control port 9051: \
                 refused. Check the Tor control port and password on the settings page; the \
                 password must match the one Tor was configured with.. Retrying in {seconds}s."
            )
        );
        let step = runtime.waited(attempt);
        assert_eq!(step.action, LaunchAction::CheckTor { attempt: attempt + 1 });
        assert!(step.log.is_empty());
    }
    let step = runtime.tor_checked(4, 9051, Err("refused".to_string()), false);
    assert_eq!(step.action, LaunchAction::Finish);
    assert!(step.log[0]
        .text
        .starts_with("Maker stopped serving: Tor is not usable on control port 9051: refused."));
    assert!(matches!(runtime.phase(), Phase::Failed(_)));
    // The wallet stays open, so that it can be funded.
    assert!(runtime.wallet_open());
    assert!(runtime.receive_address().is_ok());
}

#[test]
fn a_stop_while_waiting_for_tor_ends_the_launch() {
    let mut runtime = initialised();
    runtime.tor_checked(1, 9051, Err("refused".to_string()), false);
    assert_eq!(runtime.stop(), StopStep::Wait { signal: true });
    let step = runtime.waited(1);
    assert_eq!(step.action, LaunchAction::Finish);
    assert_eq!(runtime.phase(), Phase::Stopped);
    assert!(runtime.stop_waited(true, 30).is_empty());
    assert!(!runtime.wallet_open());
}

#[test]
fn a_requested_shutdown_is_not_a_failure() {
    let mut runtime = serving();
    let step = runtime.served(Err("interrupted".to_string()), true);
    assert_eq!(step.action, LaunchAction::Finish);
    assert!(!step.log[0].is_error);
    assert_eq!(step.log[0].text, "Maker stopped.");
    assert_eq!(runtime.phase(), Phase::Stopped);
    assert!(!runtime.wallet_open());
}

#[test]
fn serving_that_breaks_off_is_a_failure() {
    let mut runtime = serving();
    let step = runtime.served(Err("port taken".to_string()), false);
    assert_eq!(step.action, LaunchAction::Finish);
    assert_eq!(step.log[0].text, "Maker stopped serving: port taken");
    assert_eq!(runtime.phase(), Phase::Failed("port taken".to_string()));
    assert!(runtime.wallet_open());
}

#[test]
fn a_thread_that_cannot_be_spawned_leaves_nothing_to_stop() {
    let mut runtime = Runtime::default();
    assert!(runtime.start().is_ok());
    assert_eq!(
        runtime.spawn_failed("no threads"),
        "Could not spawn the maker thread: no threads"
    );
    assert_eq!(runtime.phase(), Phase::Stopped);
    assert_eq!(runtime.stop(), StopStep::Done);
}

#[test]
fn a_status_shows_what_could_be_read() {
    let balances = Balances { spendable: 1, swap: 2, fidelity: 3, contract: 4 };
    let runtime = serving();
    let status = runtime.status(Some(ServerReadings {
        wallet: Some(WalletReadings {
            balances: Some(balances),
            bonds: vec![(5_000, "900000".to_string())],
        }),
        ongoing_swaps: Some(true),
        port: 6102,
    }));
    assert_eq!(status.balances, Some(balances));
    assert_eq!(status.bonds, vec![(5_000, "900000".to_string())]);
    assert_eq!(status.ongoing_swaps, Some(true));
    assert_eq!(status.port, Some(6102));
    assert!(!status.wallet_busy);

    let busy = runtime.status(Some(ServerReadings {
        wallet: None,
        ongoing_swaps: None,
        port: 6102,
    }));
    assert!(busy.wallet_busy);
    assert!(busy.balances.is_none());
    assert!(busy.bonds.is_empty());
}

#[test]
fn an_address_or_the_reason_there_is_none() {
    assert_eq!(
        address_outcome(AddressReading::Address("tb1q".to_string())),
        Ok("tb1q".to_string())
    );
    assert_eq!(
        address_outcome(AddressReading::Refused("NoKeys".to_string())),
        Err("Could not derive a receive address: NoKeys".to_string())
    );
    assert!(address_outcome(AddressReading::Busy)
        .unwrap_err()
        .starts_with("The maker is busy syncing its wallet"));
    assert_eq!(drain_outcome(Ok(3)), Ok(3));
    assert_eq!(
        drain_outcome(Err("Poisoned".to_string())),
        Err("Could not drain idle swaps: Poisoned".to_string())
    );
}

#[test]
fn a_new_maker_wallets_phrase_is_kept_out_of_the_log() {
    let mut runtime = Runtime::new();
    assert!(runtime.start().is_ok());
    let first = runtime.initialised(Ok(WalletRead::Created("abandon zoo".to_string())));
    let checked = runtime.tor_checked(1, 9051, Ok(()), false);
    let served = runtime.served(Err("gone".to_string()), false);
    for step in [first, checked, served] {
        assert_eq!(step.log.len(), 1);
        assert!(!step.log[0].text.contains("zoo"));
    }
    assert_eq!(runtime.take_new_mnemonic().as_deref(), Some("abandon zoo"));
}

#[test]
fn a_maker_that_could_not_be_spawned_is_as_shut_as_one_never_started() {
    let mut runtime = Runtime::new();
    assert!(runtime.start().is_ok());
    runtime.spawn_failed("no threads");
    assert!(!runtime.thread_started());
    assert_eq!(runtime.stop(), StopStep::Done);
    assert_eq!(runtime.phase(), Phase::Stopped);
    assert!(!runtime.is_live() && !runtime.wallet_open());
}
