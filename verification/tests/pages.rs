use btcpay_plugin::ui::Document;
use btcpay_plugin::UiDocument;
use coinswap_btcpay::maker::{Status, SwapRecord, STALE_AFTER};
use coinswap_btcpay::pages::{
    can_show, commands, dashboard, phase_alert, phase_label, settings_page, taker_page,
};
use coinswap_btcpay::blocks::AlertLevel;
use coinswap_btcpay::settings::{MakerDefaults, Settings};
use coinswap_btcpay::shared::{Balances, Phase};
use coinswap_btcpay::taker;
use coinswap_btcpay::taker::{Quote, QuoteHop, QuoteState, SwapOutcome, SwapState};

fn settings() -> Settings {
    Settings::defaults(&MakerDefaults {
        network_port: 6102,
        socks_port: 9050,
        control_port: 9051,
        tor_auth_password: String::new(),
        base_fee: 1_000,
        amount_relative_fee_bps: 2,
        time_relative_fee_bps: 0,
        min_swap_amount: 10_000,
        required_confirms: 1,
        fidelity_amount: 50_000,
        fidelity_timelock: 13_104,
    })
}

fn json(document: Document) -> String {
    UiDocument::from(document).document_json
}

fn status(phase: Phase) -> Status {
    Status {
        phase,
        balances: None,
        ongoing_swaps: None,
        bonds: Vec::new(),
        wallet_busy: false,
        port: None,
        swaps: Vec::new(),
    }
}

fn record(id: &str, amount_sat: u64, updated_at: u64) -> SwapRecord {
    SwapRecord {
        id: id.to_string(),
        tracker_key: format!("{id}-key"),
        phase: "Recovering".to_string(),
        recovery: "Monitoring".to_string(),
        amount_sat,
        funded: true,
        updated_at,
    }
}

fn idle_taker(phase: Phase) -> taker::Status {
    taker::Status {
        phase,
        balances: None,
        wallet_busy: false,
        recovery_complete: None,
    }
}

#[test]
fn an_empty_dashboard_in_full() {
    let page = dashboard(&settings(), &status(Phase::Stopped), None, false, 0);
    let expected = concat_json(&[
        r#"{"wireVersion":1,"title":"Coinswap maker","sections":["#,
        r#"{"type":"alert","level":"info","text":"The maker is off. Fill in the settings page, turn on \"Run the maker\", and save."},"#,
        r#"{"type":"stats","cards":[{"label":"Status","value":"Stopped"},{"label":"Network","value":"Regtest"},{"label":"Port","value":"-"},{"label":"Swap in progress","value":"Unknown"}]},"#,
        r#"{"type":"table","title":"Fidelity bonds","columns":["Amount","Locked until"],"rows":[],"emptyMessage":"No fidelity bond yet. The maker creates one while starting, which needs a funded wallet; takers will not choose a maker without one."},"#,
        r#"{"type":"actions","title":"Operations","buttons":[]}"#,
        r#"]}"#,
    ]);
    assert_eq!(json(page), expected);
}

fn concat_json(parts: &[&str]) -> String {
    parts.concat()
}

#[test]
fn a_busy_dashboard_in_full() {
    let full = Status {
        phase: Phase::Running,
        balances: Some(Balances { spendable: 1_234, swap: 2, fidelity: 3_000_000, contract: 4 }),
        ongoing_swaps: Some(true),
        bonds: vec![(5_000_000, "900000".to_string())],
        wallet_busy: false,
        port: Some(6102),
        swaps: Vec::new(),
    };
    let page = json(dashboard(&settings(), &full, Some("a b c".to_string()), true, 0));
    let expected = concat_json(&[
        r#"{"wireVersion":1,"title":"Coinswap maker","sections":["#,
        r#"{"type":"alert","level":"warning","text":"A new maker wallet was created. Write down the recovery phrase below now. It is shown once, it is not stored anywhere this page can read again, and without it the funds in this wallet cannot be recovered."},"#,
        r#"{"type":"text","text":"a b c"},"#,
        r#"{"type":"alert","level":"success","text":"The maker is running and advertising itself to takers."},"#,
        r#"{"type":"stats","cards":[{"label":"Status","value":"Running"},{"label":"Network","value":"Regtest"},{"label":"Port","value":"6102"},"#,
        r#"{"label":"Spendable","value":"1,234 sats","detail":"The maker's own wallet, not a BTCPay store wallet."},{"label":"In swaps","value":"2 sats"},"#,
        r#"{"label":"In bonds","value":"3,000,000 sats","detail":"Locked until the bond timelock expires."},{"label":"In contracts","value":"4 sats"},{"label":"Swap in progress","value":"Yes"}]},"#,
        r#"{"type":"table","title":"Fidelity bonds","columns":["Amount","Locked until"],"rows":[["5,000,000 sats","900000"]],"emptyMessage":"No fidelity bond yet. The maker creates one while starting, which needs a funded wallet; takers will not choose a maker without one."},"#,
        r#"{"type":"actions","title":"Operations","buttons":["#,
        r#"{"command":"stop","label":"Stop the maker","style":"danger","confirm":"A swap is in progress. Stopping now risks it timing out and falling back to a timelocked refund. Stop anyway?"},"#,
        r#"{"command":"drain","label":"Drain idle swaps","style":"secondary","confirm":"Clear out swaps that have gone idle? A counterparty that comes back will find its swap gone and fall back to its timelocked refund."},"#,
        r#"{"command":"address","label":"Show a funding address","style":"secondary"}]}"#,
        r#"]}"#,
    ]);
    assert_eq!(page, expected);
}

#[test]
fn swaps_at_stake_are_warned_about_by_what_helps() {
    let now = 10 * STALE_AFTER;
    let with_swaps = Status {
        swaps: vec![
            record("old", 1_000, 0),
            record("new", 20, now),
            SwapRecord { funded: false, ..record("never", 7, 0) },
            record("older", 5, 1),
        ],
        ..status(Phase::Running)
    };
    assert!(can_show(&with_swaps, now));
    let page = json(dashboard(&settings(), &with_swaps, None, false, now));
    assert!(page.contains("1 swap(s) did not finish, with 20 sats still in contracts on chain."));
    assert!(page.contains(
        "2 swap(s) have not changed for over a day, recorded at 1,005 sats in contracts on chain."
    ));
    assert!(page.contains(
        r#"{"type":"table","title":"Unfinished swaps","columns":["Swap","Amount","Phase","Recovery","On chain"],"rows":[["old","1,000 sats","Recovering","Monitoring","yes"],["new","20 sats","Recovering","Monitoring","yes"],["never","7 sats","Recovering","Monitoring","no"],["older","5 sats","Recovering","Monitoring","yes"]]}"#
    ));
    assert!(page.contains(
        r#"{"type":"actions","title":"Stalled swaps","buttons":[{"command":"dismiss-swap:old-key","label":"Dismiss old","style":"danger","confirm":"Dismiss swap old? It stops appearing here and in notifications. Its coins stay where they are on chain."},{"command":"dismiss-swap:older-key","label":"Dismiss older","#
    ));
    assert!(!page.contains("dismiss-swap:new-key"));
    assert!(!page.contains("dismiss-swap:never-key"));
}

#[test]
fn amounts_beyond_all_coins_cannot_be_shown() {
    let too_much = Status {
        swaps: vec![record("a", u64::MAX, 0), record("b", 1, 0)],
        ..status(Phase::Running)
    };
    assert!(!can_show(&too_much, 0));
    // One of them is stalled and the other is not, so neither sum is too large.
    let apart = Status {
        swaps: vec![record("a", u64::MAX, 0), record("b", 1, 2 * STALE_AFTER)],
        ..status(Phase::Running)
    };
    assert!(can_show(&apart, 2 * STALE_AFTER));
    let page = json(dashboard(&settings(), &apart, None, false, 2 * STALE_AFTER));
    assert!(page.contains("recorded at 18,446,744,073,709,551,615 sats"));
}

#[test]
fn a_locked_wallet_is_said_to_be() {
    let busy = Status { wallet_busy: true, ..status(Phase::Starting) };
    let page = json(dashboard(&settings(), &busy, None, true, 0));
    assert!(page.contains(
        r#"{"label":"Balances","value":"Busy","detail":"The wallet is locked by the maker; reload once it is done."}"#
    ));
    assert!(page.contains("The maker is using its wallet right now"));
}

#[test]
fn the_banner_says_what_to_do_next() {
    let on = Settings { enabled: true, ..settings() };
    let (level, text) = phase_alert(&status(Phase::Failed("x".to_string())), &on);
    assert_eq!(level, AlertLevel::Danger);
    assert_eq!(
        text,
        "The maker is not running: x. Check the settings page, then start it again."
    );
    assert_eq!(phase_alert(&status(Phase::Starting), &on).0, AlertLevel::Info);
    assert_eq!(phase_alert(&status(Phase::Running), &on).0, AlertLevel::Warning);
    assert_eq!(
        phase_alert(&status(Phase::Stopped), &on).1,
        "The maker is enabled but not running. Start it below."
    );
    assert_eq!(phase_label(&Phase::Failed("x".to_string())), "Failed");
}

#[test]
fn an_enabled_maker_that_stopped_can_be_started_and_funded() {
    let on = Settings { enabled: true, ..settings() };
    let failed = status(Phase::Failed("x".to_string()));
    let page = json(Document::new("t").actions(commands(&failed, &on, true)));
    assert!(page.contains(
        r#"[{"command":"start","label":"Start the maker","style":"primary"},{"command":"address","label":"Show a funding address","style":"secondary"}]"#
    ));
    let idle = Status { ongoing_swaps: Some(false), ..status(Phase::Running) };
    let page = json(Document::new("t").actions(commands(&idle, &on, false)));
    assert!(page.contains("Stop the maker? Takers will no longer be able to reach it."));
    assert!(!page.contains("\"address\""));
}

#[test]
fn an_open_taker_page_in_full() {
    let open = taker::Status {
        balances: Some(Balances { spendable: 10_000, swap: 0, fidelity: 9, contract: 1 }),
        recovery_complete: Some(true),
        ..idle_taker(Phase::Running)
    };
    let page = taker_page(
        &settings(),
        &open,
        None,
        &SwapState::Idle,
        &QuoteState::Idle,
        true,
        0,
    );
    let expected = concat_json(&[
        r#"{"wireVersion":1,"title":"Coinswap taker","sections":["#,
        r#"{"type":"alert","level":"info","text":"This wallet is the taker's own. Coins get here because somebody sent them, and leave because somebody withdrew them. It is not a BTCPay store wallet, and a swap gains privacy only for coins held here."},"#,
        r#"{"type":"stats","cards":[{"label":"Status","value":"Running"},{"label":"Spendable","value":"10,000 sats"},{"label":"In swaps","value":"0 sats"},{"label":"In contracts","value":"1 sats","detail":"Locked until a swap finishes or its timelock expires."}]},"#,
        r#"{"type":"actions","title":"Funding","buttons":[{"command":"taker-address","label":"Show a funding address","style":"primary"}]},"#,
        r#"{"type":"form","id":"quote","title":"Request a swap quote","fields":["#,
        r#"{"id":"sats","label":"Amount to swap (sats)","required":true,"kind":"number","min":1,"max":9223372036854775807},"#,
        r#"{"id":"makers","label":"Makers in the route","help":"More hops cost more and gain more privacy.","required":true,"kind":"number","min":1,"max":10}],"submitLabel":"Get a quote"},"#,
        r#"{"type":"form","id":"withdraw","title":"Withdraw","fields":["#,
        r#"{"id":"address","label":"Destination address","help":"Checked against this wallet's network before anything is signed.","required":true,"kind":"text"},"#,
        r#"{"id":"sats","label":"Amount (sats)","required":true,"kind":"number","min":1,"max":9223372036854775807}],"submitLabel":"Withdraw"}"#,
        r#"]}"#,
    ]);
    assert_eq!(json(page), expected);
}

#[test]
fn a_running_swap_hides_what_would_fail_on_its_lock() {
    let busy = taker::Status { wallet_busy: true, ..idle_taker(Phase::Running) };
    let page = json(taker_page(
        &settings(),
        &busy,
        None,
        &SwapState::Running { swap_id: "0123456789abcdef01".to_string(), since: 1_000 },
        &QuoteState::Idle,
        true,
        180_000_000_999,
    ));
    assert!(page.contains("Swap 0123456789abcdef is running, 2 minutes in."));
    assert!(page.contains("The wallet is locked right now; reload in a moment."));
    assert!(!page.contains("taker-address"));
    assert!(!page.contains("\"withdraw\""));
    assert!(!page.contains("\"quote\""));
}

#[test]
fn a_failed_swap_says_where_its_funds_are() {
    for (committed, funds) in [
        (Some(false), "why Nothing left the wallet"),
        (Some(true), "why Funds left the wallet"),
        (None, "why Whether funds left the wallet could not be checked."),
    ] {
        let page = json(taker_page(
            &settings(),
            &idle_taker(Phase::Running),
            None,
            &SwapState::Failed {
                swap_id: "s".to_string(),
                why: "why".to_string(),
                committed,
            },
            &QuoteState::Idle,
            false,
            0,
        ));
        assert!(page.contains(funds), "{page}");
        assert!(page.contains(
            r#"{"type":"actions","buttons":[{"command":"clear-swap","label":"Dismiss and start over","style":"secondary"}]}"#
        ));
    }
}

#[test]
fn a_finished_swap_is_accounted_for() {
    let page = json(taker_page(
        &settings(),
        &idle_taker(Phase::Running),
        None,
        &SwapState::Done(SwapOutcome {
            swap_id: "s".to_string(),
            status: "Completed".to_string(),
            sent_sat: 1_000,
            received_sat: 900,
            maker_fees_sat: 60,
            mining_fee_sat: 40,
            duration_secs: "61".to_string(),
        }),
        &QuoteState::Idle,
        true,
        0,
    ));
    assert!(page.contains("Swap s finished as Completed, in 61 seconds."));
    assert!(page.contains(
        r#"[{"label":"Sent","value":"1,000 sats"},{"label":"Received","value":"900 sats"},{"label":"Maker fees","value":"60 sats"},{"label":"Mining fee","value":"40 sats"}]"#
    ));
    assert!(page.contains("Clear and start over"));
    assert!(page.contains("taker-address"));
}

#[test]
fn a_quote_is_shown_with_its_route() {
    let page = json(taker_page(
        &settings(),
        &idle_taker(Phase::Running),
        None,
        &SwapState::Idle,
        &QuoteState::Ready(Quote {
            swap_id: "s".to_string(),
            send_sat: 100_000,
            total_fee_sat: 1_500,
            receive_sat: 98_500,
            hops: vec![
                QuoteHop { address: "a.onion".to_string(), locktime: 60, fee_sat: 1_000 },
                QuoteHop { address: "b.onion".to_string(), locktime: 40, fee_sat: 500 },
            ],
        }),
        false,
        0,
    ));
    assert!(page.contains(
        "Quote ready. Sending 100,000 sats costs 1,500 sats in fees and delivers 98,500 sats. \
         Nothing has been committed yet."
    ));
    assert!(page.contains(
        r#"{"type":"table","title":"Route","columns":["Hop","Maker","Locktime (blocks)","Fee"],"rows":[["1","a.onion","60","1,000 sats"],["2","b.onion","40","500 sats"]]}"#
    ));
    assert!(page.contains(
        r#"{"type":"actions","title":"This quote","buttons":[{"command":"accept-quote","label":"Accept and swap","style":"primary","confirm":"This commits 100,000 sats on chain across 2 hop(s) and pays 1,500 sats in fees. Once it starts, stopping BTCPay leaves contracts to recover from, which takes until their timelocks expire. Continue?"},{"command":"discard-quote","label":"Discard and start over","style":"secondary"}]}"#
    ));
    assert!(page.contains(r#"{"label":"You receive","value":"98,500 sats","detail":"After every hop's fee."}"#));
}

#[test]
fn a_quote_on_its_way_or_failed_is_said_to_be() {
    let page = |quote: QuoteState| {
        json(taker_page(
            &settings(),
            &taker::Status {
                recovery_complete: Some(false),
                ..idle_taker(Phase::Failed("no chain".to_string()))
            },
            Some("x y".to_string()),
            &SwapState::Idle,
            &quote,
            false,
            0,
        ))
    };
    assert!(page(QuoteState::Preparing).contains("Preparing a quote. This asks makers over Tor"));
    let failed = page(QuoteState::Failed("no makers".to_string()));
    assert!(failed.contains("No quote: no makers"));
    assert!(failed.contains("The taker wallet did not open: no chain"));
    assert!(failed.contains("A previous swap is still being recovered"));
    assert!(failed.contains(r#"{"type":"text","text":"x y"}"#));
}

#[test]
fn the_taker_banner_follows_the_settings() {
    let page = |settings: &Settings, phase: Phase| {
        json(taker_page(
            settings,
            &idle_taker(phase),
            None,
            &SwapState::Idle,
            &QuoteState::Idle,
            false,
            0,
        ))
    };
    let on = Settings { taker_enabled: true, ..settings() };
    assert!(page(&on, Phase::Stopped).contains("The taker is enabled but its wallet is not open."));
    assert!(page(&settings(), Phase::Stopped).contains("The taker is off."));
    assert!(page(&on, Phase::Starting).contains("The taker wallet is opening."));
}

#[test]
fn the_settings_form_is_saved_and_restarts() {
    let form = btcpay_plugin::ui::Form::new("settings").text("wallet_name", "Wallet name");
    let page = json(settings_page(form));
    assert!(page.contains("Saving restarts the maker."));
    assert!(page.contains(r#""submitLabel":"Save and restart""#));
    assert!(page.contains(r#""id":"wallet_name""#));
    assert!(!page.contains("btcpay-maker"));

    let form = btcpay_plugin::ui::Form::new("settings")
        .text("wallet_name", "Wallet name")
        .value("btcpay-maker");
    assert!(json(settings_page(form)).contains(r#""value":"btcpay-maker""#));
}
