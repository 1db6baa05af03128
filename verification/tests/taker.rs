use coinswap_btcpay::lifecycle::WalletRead;
use coinswap_btcpay::runtime::StopStep;
use coinswap_btcpay::settings::ProtocolVersion;
use coinswap_btcpay::shared::{Balances, Phase};
use coinswap_btcpay::taker::{
    address_outcome, funds_committed, swap_starting, taker_locked, withdrawal_outcome, Quote,
    QuoteHop, QuoteState, SwapOutcome, SwapState, TakerReading, TakerRuntime, WalletReply,
};

/// A taker whose wallet is open.
fn open() -> TakerRuntime {
    let mut runtime = TakerRuntime::new();
    assert!(runtime.start().is_ok());
    let log = runtime.opened(Ok(WalletRead::Existing));
    assert_eq!(log.len(), 1);
    assert_eq!(log[0].text, "Taker wallet is open.");
    runtime
}

fn quote() -> Quote {
    Quote {
        swap_id: "abc".to_string(),
        send_sat: 100_000,
        total_fee_sat: 250,
        receive_sat: 99_750,
        hops: vec![QuoteHop {
            address: "maker.onion:6102".to_string(),
            locktime: 60,
            fee_sat: 250,
        }],
    }
}

/// A taker with a quote that can be accepted.
fn quoted() -> TakerRuntime {
    let mut runtime = open();
    runtime
        .request_quote(100_000, 2, ProtocolVersion::Legacy)
        .unwrap();
    runtime.quote_finished(Ok(quote()));
    runtime
}

/// A taker with a running swap.
fn swapping() -> TakerRuntime {
    let mut runtime = quoted();
    assert_eq!(runtime.accept_quote(None, 7), Ok("abc".to_string()));
    runtime
}

#[test]
fn a_new_runtime_has_no_wallet_open() {
    let mut runtime = TakerRuntime::new();
    assert_eq!(runtime.phase(), Phase::Stopped);
    assert!(!runtime.is_live());
    assert!(!runtime.wallet_open());
    assert!(runtime.take_new_mnemonic().is_none());
}

#[test]
fn closing_a_runtime_that_never_opened_succeeds() {
    let mut runtime = TakerRuntime::new();
    assert_eq!(runtime.stop(), StopStep::Done);
    assert_eq!(runtime.stop(), StopStep::Done);
}

#[test]
fn a_status_without_a_wallet_still_renders() {
    let runtime = TakerRuntime::new();
    let status = runtime.status(None);
    assert_eq!(status.phase, Phase::Stopped);
    assert!(status.balances.is_none());
    assert!(!status.wallet_busy);
    assert!(status.recovery_complete.is_none());
}

#[test]
fn wallet_commands_report_that_it_is_shut_rather_than_panicking() {
    // The page is reachable while the taker is off, so commands must survive that.
    let runtime = TakerRuntime::new();
    assert!(runtime.receive_address().is_err());
    assert!(runtime.withdraw("tb1qexample", 1000).is_err());
}

#[test]
fn a_withdrawal_needs_a_destination_and_an_amount() {
    // Checked before the wallet is touched, so the message names the real problem.
    let runtime = TakerRuntime::new();
    assert!(runtime
        .withdraw("   ", 1000)
        .unwrap_err()
        .contains("address"));
    assert!(runtime
        .withdraw("tb1qexample", 0)
        .unwrap_err()
        .contains("amount"));
}

#[test]
fn taker_a_seed_phrase_is_handed_out_once() {
    let mut runtime = TakerRuntime::new();
    assert!(runtime.start().is_ok());
    runtime.opened(Ok(WalletRead::Created("abandon abandon about".to_string())));

    assert!(runtime.take_new_mnemonic().is_some());
    assert!(
        runtime.take_new_mnemonic().is_none(),
        "a reload must not put the phrase back on screen"
    );
}

#[test]
fn a_failure_survives_a_later_close() {
    let mut runtime = TakerRuntime::new();
    assert!(runtime.start().is_ok());
    let log = runtime.opened(Err("backend unreachable".to_string()));
    assert_eq!(log[0].text, "Taker wallet failed to open: backend unreachable");

    assert_eq!(runtime.stop(), StopStep::Wait { signal: false });
    runtime.stop_waited(true, 1);

    assert_eq!(
        runtime.phase(),
        Phase::Failed("backend unreachable".to_string())
    );
}

#[test]
fn a_quote_is_refused_before_the_wallet_is_open() {
    let mut runtime = TakerRuntime::new();
    assert!(runtime
        .request_quote(100_000, 2, ProtocolVersion::Legacy)
        .is_err());
}

#[test]
fn a_quote_needs_an_amount_and_a_maker() {
    // Checked before the wallet, so the message names the real problem.
    let mut runtime = TakerRuntime::new();
    assert!(runtime
        .request_quote(0, 2, ProtocolVersion::Legacy)
        .unwrap_err()
        .contains("amount"));
    assert!(runtime
        .request_quote(100_000, 0, ProtocolVersion::Legacy)
        .unwrap_err()
        .contains("maker"));
}

#[test]
fn a_fresh_runtime_has_no_quote() {
    assert!(matches!(
        TakerRuntime::new().quote_state(),
        QuoteState::Idle
    ));
}

#[test]
fn discarding_a_quote_returns_to_idle() {
    let mut runtime = TakerRuntime::new();
    runtime.quote_finished(Err("nope".to_string()));
    assert_eq!(runtime.quote_state(), QuoteState::Failed("nope".to_string()));

    runtime.clear_quote();

    assert!(matches!(runtime.quote_state(), QuoteState::Idle));
}

#[test]
fn a_second_quote_is_refused_while_one_is_being_prepared() {
    // Preparing holds the taker throughout, so a second request would queue invisibly rather than
    // being told no.
    let mut runtime = open();
    runtime
        .request_quote(100_000, 2, ProtocolVersion::Legacy)
        .unwrap();

    let err = runtime
        .request_quote(100_000, 2, ProtocolVersion::Legacy)
        .unwrap_err();

    assert!(!err.is_empty());
    assert!(matches!(runtime.quote_state(), QuoteState::Preparing));
}

#[test]
fn a_swap_cannot_be_accepted_without_a_quote() {
    let mut runtime = TakerRuntime::new();
    assert!(runtime.accept_quote(None, 0).is_err());
    assert_eq!(
        open().accept_quote(None, 0).unwrap_err(),
        "There is no quote to accept. Request one first."
    );
}

#[test]
fn a_second_swap_is_refused_while_one_is_running() {
    // The state is the only record that funds are committed, so it must not be trampled.
    let mut runtime = swapping();

    assert_eq!(
        runtime.accept_quote(None, 9).unwrap_err(),
        "A swap is already running."
    );
    assert!(runtime.swap_running());
    assert_eq!(
        runtime.swap_state(),
        SwapState::Running { swap_id: "abc".to_string(), since: 7 }
    );
}

#[test]
fn a_quote_is_refused_while_a_swap_is_running() {
    // Otherwise the quote waits for the whole swap and fires against a stale offerbook.
    let mut runtime = swapping();

    let err = runtime
        .request_quote(100_000, 2, ProtocolVersion::Legacy)
        .unwrap_err();
    assert!(err.contains("swap is running"), "{err}");
}

#[test]
fn a_running_swap_cannot_be_cleared() {
    let mut runtime = swapping();

    assert!(runtime.clear_swap().is_err());
    assert!(runtime.swap_running());
}

#[test]
fn a_failed_swap_can_be_cleared() {
    let mut runtime = swapping();
    let line = runtime.swap_finished(
        "abc".to_string(),
        Err("the makers went away".to_string()),
        None,
    );
    assert!(line.is_error);
    assert_eq!(line.text, "Swap abc did not finish: the makers went away");

    assert!(runtime.clear_swap().is_ok());
    assert!(matches!(runtime.swap_state(), SwapState::Idle));
}

#[test]
fn recovery_state_is_unknown_without_a_wallet() {
    // Unknown must not read as "pending", or a shut taker looks like it has contracts out.
    assert_eq!(TakerRuntime::new().recovery_pending(None), None);
    assert_eq!(TakerRuntime::new().recovery_pending(Some(false)), None);
    assert_eq!(open().recovery_pending(Some(false)), Some(true));
    assert_eq!(open().recovery_pending(Some(true)), Some(false));
    assert_eq!(open().recovery_pending(None), None);
}

#[test]
fn an_unknown_recovery_state_does_not_block_a_swap() {
    let mut runtime = TakerRuntime::new();
    let err = runtime.accept_quote(None, 0).unwrap_err();
    assert!(!err.contains("still being recovered"), "{err}");
    assert!(quoted().accept_quote(None, 0).is_ok());
}

#[test]
fn a_pending_recovery_blocks_a_swap() {
    let mut runtime = quoted();
    assert_eq!(
        runtime.accept_quote(Some(false), 0).unwrap_err(),
        "An earlier swap is still being recovered. Wait for its contracts to resolve before \
         starting another."
    );
    assert_eq!(runtime.quote_state(), QuoteState::Ready(quote()));
    assert!(runtime.accept_quote(Some(true), 0).is_ok());
}

#[test]
fn an_accepted_quote_is_gone() {
    let mut runtime = swapping();
    assert_eq!(runtime.quote_state(), QuoteState::Idle);
    let report = SwapOutcome {
        swap_id: "abc".to_string(),
        status: "Completed".to_string(),
        sent_sat: 100_000,
        received_sat: 99_750,
        maker_fees_sat: 250,
        mining_fee_sat: 90,
        duration_secs: "61".to_string(),
    };
    let line = runtime.swap_finished("abc".to_string(), Ok(report), Some(true));
    assert!(!line.is_error);
    assert_eq!(line.text, "Swap abc finished: Completed, 250 sats in maker fees.");
    match runtime.swap_state() {
        SwapState::Done(outcome) => {
            assert_eq!(outcome.mining_fee_sat, 90);
            assert_eq!(outcome.duration_secs, "61");
        }
        _ => panic!("expected a finished swap"),
    }
    assert_eq!(
        runtime.accept_quote(None, 0).unwrap_err(),
        "There is no quote to accept. Request one first."
    );
}

#[test]
fn a_quote_is_asked_for_and_logged() {
    let mut runtime = open();
    let params = runtime
        .request_quote(5, 3, ProtocolVersion::Taproot)
        .unwrap();
    assert_eq!(params.protocol, ProtocolVersion::Taproot);
    assert_eq!(
        params.preparing().text,
        "Preparing a quote for 5 sats across 3 maker(s). This synchronises the offerbook over Tor \
         and can take a while."
    );
    let line = runtime.quote_finished(Ok(quote()));
    assert_eq!(line.text, "Quote ready: swap abc costs 250 sats in fees.");
    assert!(!line.is_error);
    assert_eq!(runtime.quote_state(), QuoteState::Ready(quote()));
    let line = runtime.quote_finished(Err("no makers".to_string()));
    assert_eq!(line.text, "Could not prepare a quote: no makers");
    assert_eq!(taker_locked(), "The taker is locked by a failed operation.");
    assert_eq!(
        swap_starting("abc").text,
        "Starting swap abc. Funds are committed on chain from here; leave BTCPay running until it \
         finishes."
    );
}

#[test]
fn threads_that_cannot_be_spawned_are_undone() {
    let mut runtime = open();
    runtime.request_quote(5, 3, ProtocolVersion::Legacy).unwrap();
    assert_eq!(
        runtime.quote_spawn_failed("none"),
        "Could not spawn the quote thread: none"
    );
    assert_eq!(runtime.quote_state(), QuoteState::Idle);

    let mut runtime = swapping();
    assert_eq!(
        runtime.swap_spawn_failed("none"),
        "Could not spawn the swap thread: none"
    );
    assert_eq!(runtime.swap_state(), SwapState::Idle);

    let mut runtime = TakerRuntime::default();
    assert!(runtime.start().is_ok());
    assert_eq!(
        runtime.spawn_failed("none"),
        "Could not spawn the taker thread: none"
    );
    assert_eq!(runtime.phase(), Phase::Stopped);
}

#[test]
fn an_open_wallet_cannot_be_opened_again() {
    let mut runtime = open();
    assert_eq!(
        runtime.start().unwrap_err(),
        "The taker wallet is already open."
    );
    assert_eq!(runtime.stop(), StopStep::Wait { signal: false });
    let log = runtime.stop_waited(false, 30);
    assert_eq!(
        log[0].text,
        "The taker wallet did not close within 30s, so it has been left open."
    );
    assert!(runtime.is_live());
    assert!(runtime.stop_waited(true, 30).is_empty());
    assert_eq!(runtime.phase(), Phase::Stopped);
    assert!(!runtime.wallet_open());
}

#[test]
fn a_wallet_asked_to_close_while_opening_stays_shut() {
    let mut runtime = TakerRuntime::new();
    assert!(runtime.start().is_ok());
    runtime.stop();
    let log = runtime.opened(Ok(WalletRead::Unreadable));
    assert_eq!(log.len(), 2);
    assert!(log[0].text.starts_with("Could not read the taker wallet"));
    assert_eq!(log[1].text, "Taker wallet closed before it finished opening.");
    assert!(!runtime.wallet_open());
    assert_eq!(runtime.phase(), Phase::Stopped);
}

#[test]
fn the_status_of_an_open_wallet() {
    let balances = Balances { spendable: 1, swap: 2, fidelity: 0, contract: 3 };
    let runtime = open();
    let locked = runtime.status(Some(TakerReading::Locked));
    assert!(locked.wallet_busy);
    assert_eq!(locked.recovery_complete, None);
    let half = runtime.status(Some(TakerReading::WalletLocked { recovery_complete: false }));
    assert!(half.wallet_busy);
    assert_eq!(half.recovery_complete, Some(false));
    let free = runtime.status(Some(TakerReading::Free {
        recovery_complete: true,
        balances: Some(balances),
    }));
    assert!(!free.wallet_busy);
    assert_eq!(free.balances, Some(balances));
    assert_eq!(free.recovery_complete, Some(true));
}

#[test]
fn a_withdrawal_goes_to_the_trimmed_address() {
    assert_eq!(open().withdraw(" tb1q ", 1), Ok("tb1q".to_string()));
    assert_eq!(
        withdrawal_outcome(WalletReply::Answer("txid".to_string())),
        Ok("txid".to_string())
    );
    assert_eq!(
        withdrawal_outcome(WalletReply::Refused("Insufficient".to_string())),
        Err("The withdrawal failed: Insufficient".to_string())
    );
    assert_eq!(
        withdrawal_outcome(WalletReply::TakerBusy),
        Err("The taker is busy, so it cannot withdraw right now.".to_string())
    );
    assert_eq!(
        address_outcome(WalletReply::WalletBusy),
        Err("The taker wallet is busy syncing, so it cannot derive an address right now."
            .to_string())
    );
    assert_eq!(
        address_outcome(WalletReply::Refused("NoKeys".to_string())),
        Err("Could not derive a receive address: NoKeys".to_string())
    );
}

#[test]
fn funds_left_the_wallet_while_their_recovery_is_not_complete() {
    assert_eq!(funds_committed(Some(false)), Some(true));
    assert_eq!(funds_committed(Some(true)), Some(false));
    assert_eq!(funds_committed(None), None);
}

#[test]
fn a_new_taker_wallets_phrase_is_kept_out_of_the_log() {
    let mut runtime = TakerRuntime::new();
    assert!(runtime.start().is_ok());
    let log = runtime.opened(Ok(WalletRead::Created("abandon zoo".to_string())));
    assert_eq!(log.len(), 2);
    assert!(log.iter().all(|line| !line.text.contains("zoo")));
    assert_eq!(runtime.take_new_mnemonic().as_deref(), Some("abandon zoo"));
}
