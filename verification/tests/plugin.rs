use btcpay_plugin::ui::{Document, Form};
use btcpay_plugin::UiDocument;
use coinswap_btcpay::lifecycle::WalletRead;
use coinswap_btcpay::logging::LogLevel;
use coinswap_btcpay::maker::{MakerReadings, TrackedSwap};
use coinswap_btcpay::pages::settings_page;
use coinswap_btcpay::plugin::{
    command_report, directory_failed, drain_outcome, maker_address_outcome, pages, quote_outcome,
    report, save_report, startup, stop_outcome, swap_outcome, switched_off, switched_on,
    taker_address_outcome, withdraw_outcome, CoinswapPlugin, CommandStep, EventStep,
    FormStep, HostEvent, MessageLevel,
    Page, PluginAction, PluginError, ReconcileStep, Role, DASHBOARD_LINK, DRAIN_TIMEOUT,
    STOP_DEADLINE,
};
use coinswap_btcpay::runtime::{AddressReading, ServerReadings};
use coinswap_btcpay::settings::{MakerDefaults, Protocol, ProtocolVersion, Settings};
use coinswap_btcpay::taker::{Quote, SwapState, WalletReply};

fn defaults() -> Settings {
    Settings::defaults(&MakerDefaults {
        network_port: 6102,
        socks_port: 9050,
        control_port: 9051,
        tor_auth_password: String::new(),
        base_fee: 1_000,
        amount_relative_fee_bps: 2,
        time_relative_fee_bps: 0,
        min_swap_amount: 10_000,
        required_confirms: 1,
        fidelity_amount: 50_000,
        fidelity_timelock: 13_104,
    })
}

fn plugin() -> CoinswapPlugin {
    CoinswapPlugin::new(defaults())
}

fn json(document: Document) -> String {
    UiDocument::from(document).document_json
}

/// The dashboard as JSON, which is how the host sees it.
fn dashboard_json(plugin: &mut CoinswapPlugin) -> String {
    json(plugin.dashboard(None, 0))
}

/// The taker page as JSON, which is how the host sees it.
fn taker_json(plugin: &mut CoinswapPlugin) -> String {
    json(plugin.taker_page(None, 0))
}

/// The answer to a command that needs nothing from outside.
fn answer(plugin: &mut CoinswapPlugin, command: &str) -> Vec<PluginAction> {
    match plugin.run_command(command, None, 0) {
        CommandStep::Reply(actions) => actions,
        _ => panic!("{command} should be answered at once"),
    }
}

fn form_answer(step: FormStep) -> Vec<PluginAction> {
    match step {
        FormStep::Reply(actions) => actions,
        _ => panic!("the form should be answered at once"),
    }
}

fn values(pairs: &[(&str, &str)]) -> Vec<(String, String)> {
    pairs
        .iter()
        .map(|(key, value)| (key.to_string(), value.to_string()))
        .collect()
}

fn shows_an_error(actions: &[PluginAction]) -> bool {
    actions.iter().any(|action| {
        matches!(
            action,
            PluginAction::ShowMessage { level: MessageLevel::Error, .. }
        )
    })
}

fn shows_an_error_about(actions: &[PluginAction], what: &str) -> bool {
    actions.iter().any(|action| {
        matches!(
            action,
            PluginAction::ShowMessage { level: MessageLevel::Error, text } if text.contains(what)
        )
    })
}

fn logs(actions: &[PluginAction]) -> bool {
    actions
        .iter()
        .any(|action| matches!(action, PluginAction::Log { .. }))
}

/// A plugin the host has started, with the taker's wallet open.
fn started() -> CoinswapPlugin {
    let mut plugin = plugin();
    plugin.attach(Settings {
        tor_auth_password: "x".to_string(),
        ..defaults()
    });
    plugin.taker().start().unwrap();
    plugin.taker().opened(Ok(WalletRead::Existing));
    plugin
}

#[test]
fn the_plugin_offers_a_settings_page_and_one_page_per_role() {
    let ids: Vec<_> = pages().into_iter().map(|page| page.id()).collect();
    assert_eq!(ids, vec!["dashboard", "taker"]);
    assert!(json(settings_page(Form::new("settings"))).contains("\"form\""));
}

#[test]
fn the_dashboard_renders_before_the_plugin_has_started() {
    // BTCPay serves pages whether or not the start succeeded, and the operator still needs the
    // settings link.
    assert!(dashboard_json(&mut plugin()).contains("Stopped"));
}

#[test]
fn an_unknown_page_is_empty_rather_than_an_error() {
    assert_eq!(Page::find("nope"), None);
    assert!(UiDocument::empty().title.is_empty());
}

#[test]
fn a_stopped_maker_offers_no_drain_or_stop_button() {
    // Both act on a running maker, and neither can work without one.
    let json = dashboard_json(&mut plugin());
    assert!(!json.contains("\"drain\""));
    assert!(!json.contains("\"stop\""));
}

#[test]
fn no_page_ever_offers_a_fidelity_bond_command() {
    // Any bond this plugin created would commit to the wrong address and lock the funds until its
    // timelock expired.
    let json = dashboard_json(&mut plugin());
    assert!(!json.contains("\"bond\""));
}

#[test]
fn a_funding_address_is_not_offered_before_the_wallet_is_open() {
    let json = dashboard_json(&mut plugin());
    assert!(!json.contains("\"address\""));
}

#[test]
fn a_disabled_maker_offers_no_start_button_either() {
    // Starting would fail the `enabled` check, so the page points at settings instead.
    let json = dashboard_json(&mut plugin());
    assert!(!json.contains("\"start\""));
    assert!(json.contains("settings page"));
}

#[test]
fn a_command_pressed_before_start_reports_instead_of_panicking() {
    let mut plugin = plugin();
    for command in ["start", "stop", "address", "drain"] {
        let actions = answer(&mut plugin, command);
        assert!(shows_an_error(&actions), "{command} should report a failure");
    }
}

#[test]
fn an_unknown_command_is_reported_rather_than_ignored() {
    let actions = answer(&mut plugin(), "definitely-not-a-command");
    assert!(shows_an_error(&actions));
}

#[test]
fn a_failed_command_is_logged_as_well_as_shown() {
    // A page message dies with the page; a half-completed move must leave a trace.
    let actions = answer(&mut plugin(), "address");
    assert!(logs(&actions));
}

#[test]
fn a_rejected_save_leaves_the_running_settings_untouched() {
    // A rejection cannot half-apply, leaving the maker on a configuration nobody chose.
    let mut plugin = plugin();
    plugin.attach(Settings {
        wallet_name: "original".to_string(),
        ..defaults()
    });

    let settings = Settings {
        wallet_name: "changed".to_string(),
        fidelity_timelock: 5,
        ..plugin.settings()
    };
    let result = plugin.handle(HostEvent::SettingsUpdated { settings }, None, 0);

    assert!(matches!(result, EventStep::Refuse(_)));
    assert_eq!(plugin.settings().wallet_name, "original");
}

#[test]
fn the_settings_form_never_carries_the_stored_rpc_password() {
    // The page builder drops secret values before they reach the browser.
    let mut plugin = plugin();
    plugin.attach(Settings {
        core_password: "hunter2".to_string(),
        ..defaults()
    });
    let stored = plugin.settings().core_password;
    assert_eq!(stored, "hunter2");

    let form = Form::new("settings")
        .password("core_password", "Core RPC password")
        .value(stored);
    let page = json(settings_page(form));
    assert!(page.contains("core_password"));
    assert!(!page.contains("hunter2"));
}

#[test]
fn a_save_that_omits_the_rpc_password_keeps_the_stored_one() {
    // The host omits an untouched secret, so the submission starts from the stored settings.
    let mut plugin = plugin();
    plugin.attach(Settings {
        core_password: "stored-password".to_string(),
        tor_auth_password: "stored-tor-password".to_string(),
        ..defaults()
    });

    let settings = Settings {
        core_user: "someone".to_string(),
        ..plugin.settings()
    };
    let step = plugin.handle(HostEvent::SettingsUpdated { settings }, None, 0);

    match step {
        EventStep::Saved { settings } => assert_eq!(settings, plugin.settings()),
        _ => panic!("the settings should be kept"),
    }
    assert_eq!(plugin.settings().core_password, "stored-password");
    assert_eq!(plugin.settings().tor_auth_password, "stored-tor-password");
    assert_eq!(plugin.settings().core_user, "someone");
}

#[test]
fn the_taker_page_renders_before_the_plugin_has_started() {
    let json = taker_json(&mut plugin());
    assert!(json.contains("Stopped"));
    assert!(json.contains("settings page"));
}

#[test]
fn the_taker_page_offers_nothing_that_needs_an_open_wallet() {
    // Both need the wallet, so neither is offered until it is open.
    let json = taker_json(&mut plugin());
    assert!(!json.contains("taker-address"));
    assert!(!json.contains("\"withdraw\""));
}

#[test]
fn the_taker_page_says_the_wallet_is_not_a_store_wallet() {
    // The single most likely misunderstanding: that swapping here privatises store funds.
    let mut plugin = plugin();
    plugin.attach(Settings {
        taker_enabled: true,
        ..defaults()
    });
    assert!(taker_json(&mut plugin).contains("not open"));
}

#[test]
fn a_withdrawal_before_the_wallet_is_open_is_reported_not_attempted() {
    let actions = form_answer(
        plugin().withdraw(&values(&[("address", "tb1qexample"), ("sats", "5000")])),
    );

    assert!(shows_an_error(&actions));
    // Logged too, because a withdrawal is money moving.
    assert!(logs(&actions));
}

#[test]
fn a_withdrawal_amount_that_is_not_a_number_is_refused_by_the_plugin() {
    // The plugin should not depend on the host checking its input.
    let actions = form_answer(
        plugin().withdraw(&values(&[("address", "tb1qexample"), ("sats", "half of it")])),
    );
    assert!(shows_an_error_about(&actions, "whole number"));
}

#[test]
fn an_unknown_form_is_refused_rather_than_acted_on() {
    let step = plugin().handle(
        HostEvent::FormSubmitted {
            form_id: "not-a-form".to_string(),
            values: Vec::new(),
        },
        None,
        0,
    );
    match step {
        EventStep::Form(FormStep::Refuse(error)) => assert_eq!(
            error,
            PluginError::InvalidInput("unknown form: not-a-form".to_string())
        ),
        _ => panic!("an unknown form should be refused"),
    }
}

#[test]
fn every_event_is_dispatched() {
    let mut plugin = plugin();
    assert!(matches!(
        plugin.handle(HostEvent::Other, None, 0),
        EventStep::Ignore
    ));
    let command = "discard-quote".to_string();
    assert!(matches!(
        plugin.handle(HostEvent::CommandInvoked { command }, None, 0),
        EventStep::Command(CommandStep::Reply(_))
    ));
    let settings = Settings {
        tor_auth_password: "x".to_string(),
        ..defaults()
    };
    assert!(matches!(
        plugin.handle(HostEvent::SettingsUpdated { settings }, None, 0),
        EventStep::Saved { .. }
    ));
    assert_eq!(plugin.settings().tor_auth_password, "x");
}

#[test]
fn a_settings_save_reports_on_both_roles() {
    // A save that only changed the taker used to say nothing about the taker at all.
    let mut plugin = plugin();
    let updated = Settings {
        tor_auth_password: "x".to_string(),
        ..defaults()
    };
    plugin.save_settings(updated.clone()).unwrap();
    let mut outcomes = [Role::Maker, Role::Taker].map(|role| {
        match plugin.reconcile(role, &updated) {
            ReconcileStep::Done(outcome) => outcome,
            _ => panic!("nothing can be started yet"),
        }
    });
    let taker = std::mem::replace(&mut outcomes[1], Ok(String::new()));
    let maker = std::mem::replace(&mut outcomes[0], Ok(String::new()));

    let actions = save_report(updated, maker, taker);

    let messages = actions
        .iter()
        .filter(|action| matches!(action, PluginAction::ShowMessage { .. }))
        .count();
    assert_eq!(messages, 2, "one message per role");
}

#[test]
fn a_quote_is_not_offered_before_the_wallet_is_open() {
    let json = taker_json(&mut plugin());
    assert!(!json.contains("\"quote\""));
}

#[test]
fn a_quote_request_before_the_wallet_is_open_is_reported() {
    let actions = form_answer(
        plugin().request_quote(&values(&[("sats", "100000"), ("makers", "2")])),
    );
    assert!(shows_an_error(&actions));
}

#[test]
fn a_quote_request_with_junk_numbers_is_refused_by_the_plugin() {
    // The plugin should not depend on the host checking its input.
    let mut plugin = plugin();
    for pairs in [
        [("sats", "lots"), ("makers", "2")],
        [("sats", "100000"), ("makers", "")],
    ] {
        let actions = form_answer(plugin.request_quote(&values(&pairs)));
        assert!(shows_an_error_about(&actions, "whole numbers"));
    }
}

#[test]
fn dismissing_a_swap_before_the_maker_wallet_is_open_is_reported() {
    let actions = answer(&mut plugin(), "dismiss-swap:abc123");
    assert!(shows_an_error(&actions));
}

#[test]
fn an_empty_dismissal_is_not_a_known_command() {
    let actions = answer(&mut plugin(), "dismiss-swap");
    assert!(shows_an_error_about(&actions, "Unknown command"));
}

#[test]
fn a_command_that_needs_the_outside_says_what() {
    let mut plugin = plugin();
    plugin.attach(Settings { enabled: true, ..defaults() });
    assert!(matches!(
        plugin.run_command("start", None, 0),
        CommandStep::ReconcileMaker
    ));
    assert!(matches!(
        plugin.run_command("stop", None, 0),
        CommandStep::StopMaker
    ));
    plugin.maker().start().unwrap();
    plugin
        .maker()
        .thread()
        .initialised(Ok(WalletRead::Existing));
    assert!(matches!(
        plugin.run_command("address", None, 0),
        CommandStep::MakerAddress
    ));
    assert!(matches!(
        plugin.run_command("drain", None, 0),
        CommandStep::Drain
    ));
    assert_eq!(
        answer(&mut plugin, "dismiss-swap:abc:1"),
        vec![PluginAction::ShowMessage {
            level: MessageLevel::Success,
            text: "Swap dismissed. Nothing on chain has changed.".to_string(),
        }]
    );
}

#[test]
fn a_quote_is_requested_accepted_and_cleared() {
    let mut plugin = started();
    assert!(matches!(
        plugin.run_command("taker-address", None, 0),
        CommandStep::TakerAddress
    ));
    match plugin.submit_form("quote", &values(&[("makers", "+2"), ("sats", " 100000\n")])) {
        FormStep::Quote(params) => {
            assert_eq!(params.send_sat, 100_000);
            assert_eq!(params.maker_count, 2);
            assert_eq!(params.protocol, ProtocolVersion::Legacy);
        }
        _ => panic!("expected a quote"),
    }
    plugin.taker().quote_finished(Ok(Quote {
        swap_id: "0123456789abcdefXYZ".to_string(),
        send_sat: 100_000,
        total_fee_sat: 1,
        receive_sat: 99_999,
        hops: Vec::new(),
    }));
    let swap_id = match plugin.run_command("accept-quote", Some(true), 5) {
        CommandStep::RunSwap(swap_id) => swap_id,
        _ => panic!("expected a swap"),
    };
    assert_eq!(swap_id, "0123456789abcdefXYZ");
    assert_eq!(
        swap_outcome(Ok(swap_id)),
        Ok("Swap 0123456789abcdef started. It runs for a while; reload to follow it.".to_string())
    );
    assert_eq!(swap_outcome(Err("no".to_string())), Err("no".to_string()));
    assert!(shows_an_error_about(
        &answer(&mut plugin, "clear-swap"),
        "still running"
    ));
    plugin
        .taker()
        .swap_finished("0123456789abcdefXYZ".to_string(), Err("x".to_string()), None);
    assert_eq!(
        answer(&mut plugin, "clear-swap"),
        vec![PluginAction::ShowMessage {
            level: MessageLevel::Success,
            text: "Cleared. Request a new quote when you want one.".to_string(),
        }]
    );
    assert_eq!(plugin.taker().swap_state(), SwapState::Idle);
    assert_eq!(
        answer(&mut plugin, "discard-quote"),
        vec![PluginAction::ShowMessage {
            level: MessageLevel::Success,
            text: "Quote discarded.".to_string(),
        }]
    );
}

#[test]
fn a_refused_acceptance_is_answered() {
    let mut plugin = started();
    assert!(shows_an_error_about(
        &answer(&mut plugin, "accept-quote"),
        "no quote"
    ));
    assert!(shows_an_error_about(
        &answer(&mut CoinswapPlugin::new(defaults()), "accept-quote"),
        "not finished starting"
    ));
}

#[test]
fn a_withdrawal_is_passed_on_with_its_address() {
    let mut plugin = started();
    match plugin.submit_form("withdraw", &values(&[("sats", "7"), ("address", " tb1q ")])) {
        FormStep::Withdraw { address, sats } => {
            assert_eq!(address, "tb1q");
            assert_eq!(sats, 7);
        }
        _ => panic!("expected a withdrawal"),
    }
    assert!(shows_an_error_about(
        &form_answer(plugin.withdraw(&values(&[("address", "tb1q")]))),
        "The amount is missing."
    ));
    assert!(shows_an_error_about(
        &form_answer(plugin.withdraw(&values(&[("sats", "7")]))),
        "A withdrawal needs a destination address."
    ));
    assert_eq!(
        withdraw_outcome(WalletReply::Answer("ff00".to_string())),
        Ok("Withdrawal broadcast. Transaction ff00.".to_string())
    );
    assert_eq!(
        withdraw_outcome(WalletReply::WalletBusy),
        Err("The taker wallet is busy syncing, so it cannot withdraw right now.".to_string())
    );
}

#[test]
fn a_repeated_key_counts_once() {
    let mut plugin = started();
    match plugin.submit_form(
        "withdraw",
        &values(&[("address", "a"), ("sats", "1"), ("sats", "2")]),
    ) {
        FormStep::Withdraw { sats, .. } => assert_eq!(sats, 1),
        _ => panic!("expected a withdrawal"),
    }
}

#[test]
fn the_protocol_of_a_quote_comes_from_the_settings() {
    let mut plugin = started();
    plugin
        .save_settings(Settings {
            taker_protocol: Protocol::Taproot,
            ..plugin.settings()
        })
        .unwrap();
    match plugin.request_quote(&values(&[("sats", "1"), ("makers", "1")])) {
        FormStep::Quote(params) => assert_eq!(params.protocol, ProtocolVersion::Taproot),
        _ => panic!("expected a quote"),
    }
    assert_eq!(
        quote_outcome(Ok(())),
        Ok("Preparing a quote. It asks makers over Tor, so reload in a moment.".to_string())
    );
    assert_eq!(quote_outcome(Err("no".to_string())), Err("no".to_string()));
}

#[test]
fn roles_are_brought_into_line() {
    let mut plugin = plugin();
    let good = Settings {
        enabled: true,
        taker_enabled: true,
        tor_auth_password: "x".to_string(),
        ..defaults()
    };
    assert!(matches!(
        plugin.reconcile(Role::Maker, &good),
        ReconcileStep::Done(Err(_))
    ));
    plugin.attach(good.clone());
    assert!(matches!(
        plugin.reconcile(Role::Maker, &good),
        ReconcileStep::Start { stop_first: false }
    ));
    plugin.maker().start().unwrap();
    assert!(matches!(
        plugin.reconcile(Role::Maker, &good),
        ReconcileStep::Start { stop_first: true }
    ));
    assert!(matches!(
        plugin.reconcile(Role::Taker, &good),
        ReconcileStep::Start { stop_first: false }
    ));
    let off = Settings {
        enabled: false,
        taker_enabled: false,
        ..good.clone()
    };
    assert!(matches!(
        plugin.reconcile(Role::Maker, &off),
        ReconcileStep::Stop
    ));
    match plugin.reconcile(Role::Taker, &off) {
        ReconcileStep::Done(outcome) => assert_eq!(outcome, Ok("Taker is off.".to_string())),
        _ => panic!("nothing to do"),
    }
    let bad = Settings { network_port: 0, ..good };
    match plugin.reconcile(Role::Maker, &bad) {
        ReconcileStep::Done(outcome) => assert_eq!(
            outcome,
            Err("Maker port must be between 1 and 65535.".to_string())
        ),
        _ => panic!("a bad configuration is not started"),
    }
}

#[test]
fn what_the_operator_is_told_about_a_role() {
    assert_eq!(switched_off(Role::Maker, true), "Maker stopped.");
    assert_eq!(
        switched_off(Role::Maker, false),
        "Maker was asked to stop but did not finish in time."
    );
    assert_eq!(switched_off(Role::Taker, true), "Taker wallet closed.");
    assert_eq!(
        switched_off(Role::Taker, false),
        "Taker wallet was asked to close but did not finish in time."
    );
    assert_eq!(
        switched_on(Role::Maker),
        "Maker is starting. Reload the dashboard to see it come up."
    );
    assert_eq!(
        switched_on(Role::Taker),
        "Taker wallet is opening. Reload the taker page to see it."
    );
    assert_eq!(
        directory_failed(Role::Taker, "/x/taker", "denied"),
        "Could not create the taker directory at /x/taker: denied"
    );
}

#[test]
fn what_the_operator_is_told_about_a_command() {
    assert_eq!(stop_outcome(true), Ok("Maker stopped.".to_string()));
    assert_eq!(
        stop_outcome(false),
        Err("The maker did not stop within 30s and has been left running in the background. \
             Restarting BTCPay will clear it."
            .to_string())
    );
    assert_eq!(
        taker_address_outcome(WalletReply::Answer("tb1q".to_string())),
        Ok("Send funds to tb1q to top up the taker wallet. This is the taker's own wallet, not a \
            store wallet. The address advances each time."
            .to_string())
    );
    assert_eq!(
        maker_address_outcome(AddressReading::Address("tb1q".to_string())),
        Ok("Send funds to tb1q -- this is the maker's own wallet, not a store wallet. The address \
            advances each time, so take a fresh one per deposit."
            .to_string())
    );
    assert_eq!(
        drain_outcome(Ok(0)),
        Ok("No idle swaps needed draining.".to_string())
    );
    assert_eq!(drain_outcome(Ok(12)), Ok("Drained 12 idle swap(s).".to_string()));
    assert_eq!(
        drain_outcome(Err("x".to_string())),
        Err("Could not drain idle swaps: x".to_string())
    );
    assert_eq!((DRAIN_TIMEOUT, STOP_DEADLINE), (20, 30));
}

#[test]
fn failures_are_logged_under_their_name() {
    assert_eq!(
        command_report(Err("why".to_string()), "drain"),
        vec![
            PluginAction::Log {
                level: LogLevel::Error,
                message: "Command 'drain' failed: why".to_string(),
            },
            PluginAction::ShowMessage {
                level: MessageLevel::Error,
                text: "why".to_string(),
            },
        ]
    );
    assert_eq!(
        report(Err("why".to_string()), "withdraw")[0],
        PluginAction::Log {
            level: LogLevel::Error,
            message: "withdraw failed: why".to_string(),
        }
    );
    assert_eq!(
        report(Ok("fine".to_string()), "withdraw"),
        vec![PluginAction::ShowMessage {
            level: MessageLevel::Success,
            text: "fine".to_string(),
        }]
    );
}

#[test]
fn a_save_is_stored_and_reported() {
    let settings = Settings {
        core_user: "someone".to_string(),
        ..defaults()
    };
    assert_eq!(
        save_report(
            settings.clone(),
            Ok("Maker is off.".to_string()),
            Err("no".to_string())
        ),
        vec![
            PluginAction::SaveSettings { settings },
            PluginAction::ShowMessage {
                level: MessageLevel::Success,
                text: "Maker is off.".to_string(),
            },
            PluginAction::ShowMessage {
                level: MessageLevel::Error,
                text: "Settings saved, but the taker did not start: no".to_string(),
            },
        ]
    );
}

#[test]
fn what_is_logged_at_the_start() {
    let off = startup(Role::Maker, false, Ok(String::new())).unwrap();
    assert!(!off.is_error);
    assert_eq!(
        off.text,
        "Coinswap maker is off. Turn it on from the settings page."
    );
    let failed = startup(Role::Maker, true, Err("no port".to_string())).unwrap();
    assert!(failed.is_error);
    assert_eq!(
        failed.text,
        "The maker did not start: no port. Fix it on the settings page."
    );
    assert!(startup(Role::Maker, true, Ok("up".to_string())).is_none());
    assert!(startup(Role::Taker, false, Err("x".to_string())).is_none());
    assert_eq!(
        startup(Role::Taker, true, Err("x".to_string())).unwrap().text,
        "The taker wallet did not open: x."
    );
}

#[test]
fn pages_are_found_by_the_names_they_are_listed_under() {
    for page in pages() {
        assert_eq!(Page::find(page.id()), Some(page));
    }
    assert_eq!(Page::Dashboard.title(), "Maker dashboard");
    assert_eq!(Page::Taker.title(), "Taker wallet");
}

#[test]
fn a_notification_leads_to_the_dashboard_of_this_plugin() {
    assert_eq!(
        DASHBOARD_LINK,
        "/plugins/btcpayserver-plugins-coinswap/dashboard"
    );
    let route = "BTCPayServer.Plugins.Coinswap"
        .to_lowercase()
        .replace('.', "-");
    assert_eq!(
        DASHBOARD_LINK,
        format!("/plugins/{route}/{}", Page::Dashboard.id())
    );
}

#[test]
fn a_phrase_is_on_the_page_once() {
    let mut plugin = plugin();
    plugin.maker().start().unwrap();
    plugin
        .maker()
        .thread()
        .initialised(Ok(WalletRead::Created("zebra apple".to_string())));
    assert!(dashboard_json(&mut plugin).contains("zebra apple"));
    assert!(!dashboard_json(&mut plugin).contains("zebra apple"));

    plugin.taker().start().unwrap();
    plugin
        .taker()
        .opened(Ok(WalletRead::Created("lemon tree".to_string())));
    assert!(taker_json(&mut plugin).contains("lemon tree"));
    assert!(!taker_json(&mut plugin).contains("lemon tree"));
}

/// Readings of a maker with unfinished swaps of these amounts.
fn readings(amounts: &[u64]) -> Option<MakerReadings> {
    Some(MakerReadings {
        server: ServerReadings {
            wallet: None,
            ongoing_swaps: Some(false),
            port: 6102,
        },
        maturities: Vec::new(),
        tip: None,
        min_swap_sat: 10_000,
        swaps: Some(
            amounts
                .iter()
                .map(|amount| TrackedSwap {
                    swap_id: "0123456789abcdefXYZ".to_string(),
                    phase: "Recovering".to_string(),
                    recovery: "Monitoring".to_string(),
                    swap_amount_sat: *amount,
                    funding_broadcast: true,
                    updated_at: 0,
                })
                .collect(),
        ),
    })
}

#[test]
fn the_dashboard_goes_by_the_maker_and_not_by_what_was_read() {
    // Nothing is read of a maker that is shut.
    let mut shut = plugin();
    let page = json(shut.dashboard(readings(&[1_000]), 0));
    assert!(page.contains("Stopped") && !page.contains("0123456789abcdef"));
    assert!(!page.contains(r#""command":"stop""#));

    let mut plugin = plugin();
    plugin.maker().start().unwrap();
    plugin
        .maker()
        .thread()
        .initialised(Ok(WalletRead::Existing));
    let page = json(plugin.dashboard(readings(&[1_000]), 0));
    assert!(page.contains("Starting") && page.contains("0123456789abcdef"));
    assert!(page.contains(r#""command":"stop""#));
    assert!(page.contains(r#""command":"address""#));
}

#[test]
fn amounts_that_cannot_be_added_up_give_no_dashboard() {
    let mut plugin = plugin();
    plugin.maker().start().unwrap();
    plugin
        .maker()
        .thread()
        .initialised(Ok(WalletRead::Created("zebra apple".to_string())));

    assert!(plugin
        .try_dashboard(readings(&[u64::MAX, 1]), 0)
        .is_none());
    // The phrase was not used up on a page nobody saw.
    let page = plugin.try_dashboard(readings(&[u64::MAX]), 0).unwrap();
    assert!(json(page).contains("zebra apple"));
}

#[test]
fn the_roles_have_directories_of_their_own() {
    assert_eq!(Role::Maker.name(), "maker");
    assert_eq!(Role::Taker.name(), "taker");
}
