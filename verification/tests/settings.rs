use coinswap_btcpay::settings::{
    host_port, Auth, Backend, BackendConfig, Chain, ConnectionType, MakerDefaults, Network,
    Protocol, ProtocolVersion, Reach, Settings, MAX_FIDELITY_TIMELOCK, MIN_FIDELITY_TIMELOCK,
};

/// What a maker server nobody configured might have.
fn reference() -> MakerDefaults {
    MakerDefaults {
        network_port: 6102,
        socks_port: 9050,
        control_port: 9051,
        tor_auth_password: String::new(),
        base_fee: 1_000,
        amount_relative_fee_bps: 2,
        time_relative_fee_bps: 0,
        min_swap_amount: 10_000,
        required_confirms: 1,
        fidelity_amount: 50_000,
        fidelity_timelock: 13_104,
    }
}

fn defaults() -> Settings {
    Settings::defaults(&reference())
}

fn valid() -> Settings {
    Settings {
        enabled: true,
        wallet_name: "test-maker".to_string(),
        tor_auth_password: "hunter2".to_string(),
        ..defaults()
    }
}

#[test]
fn a_fresh_install_does_not_run_a_maker() {
    // Installing must not bind a port or lock funds.
    assert!(!defaults().enabled);
}

#[test]
fn a_fresh_install_defaults_to_regtest() {
    assert_eq!(defaults().chain, Chain::Regtest);
}

#[test]
fn core_settings_need_an_endpoint() {
    let settings = Settings {
        backend: Backend::CoreRpc,
        core_url: "  ".to_string(),
        ..valid()
    };
    assert!(settings
        .check()
        .unwrap_err()
        .contains("Core RPC host and port"));
}

#[test]
fn electrum_settings_need_a_url_and_ignore_the_core_one() {
    let settings = Settings {
        backend: Backend::Electrum,
        core_url: "127.0.0.1:18443".to_string(),
        electrum_url: String::new(),
        ..valid()
    };
    assert!(settings.check().unwrap_err().contains("Electrum URL"));
}

#[test]
fn a_port_outside_the_u16_range_is_refused_rather_than_truncated() {
    // Truncating 65536 to 0 would bind a random port and strand any bond.
    let settings = Settings {
        network_port: 65_536,
        ..valid()
    };
    assert!(settings.check().is_err());
}

#[test]
fn basis_points_become_a_percentage() {
    let settings = Settings {
        amount_relative_fee_bps: 250,
        ..valid()
    };
    let config = settings.to_maker_config("/tmp/x".to_string());
    assert_eq!(f64::from(config.amount_relative_fee_bps) / 100.0, 2.5);
}

#[test]
fn the_configured_data_dir_reaches_the_maker() {
    // Otherwise the wallet lands outside the mounted volume, and is lost on the next deploy.
    let dir = "/var/lib/btcpay/plugins/openswap".to_string();
    let config = valid().to_maker_config(dir.clone());
    assert_eq!(config.data_dir, dir);
}

#[test]
fn the_chain_choice_selects_the_bitcoin_network() {
    let config = Settings {
        chain: Chain::Mainnet,
        ..valid()
    }
    .to_maker_config("/tmp/x".to_string());
    assert_eq!(config.network, Network::Bitcoin);
}

#[test]
fn an_empty_electrum_proxy_means_no_proxy_rather_than_an_empty_one() {
    let settings = Settings {
        backend: Backend::Electrum,
        electrum_url: "tcp://localhost:50001".to_string(),
        electrum_socks5: "   ".to_string(),
        ..valid()
    };
    match settings.to_maker_config("/tmp/x".to_string()).backend {
        BackendConfig::Electrum(electrum) => assert_eq!(electrum.socks5, None),
        _ => panic!("expected an Electrum backend"),
    }
}

#[test]
fn a_timelock_outside_what_openswap_accepts_is_refused_at_save_time() {
    for timelock in [0, MIN_FIDELITY_TIMELOCK - 1, MAX_FIDELITY_TIMELOCK + 1] {
        let settings = Settings {
            fidelity_timelock: timelock,
            ..valid()
        };
        let message = settings.check().unwrap_err();
        assert!(message.contains("timelock"), "{timelock}: {message}");
        // The message states the real bounds.
        assert!(
            message.contains("12960") && message.contains("25920"),
            "{message}"
        );
    }
}

#[test]
fn openswaps_own_default_timelock_passes_the_check() {
    // Goes through `valid()` because the defaults deliberately do not pass: they have no Tor
    // control password.
    let settings = valid();
    assert_eq!(settings.fidelity_timelock, defaults().fidelity_timelock);
    assert!(settings.check().is_ok(), "{:?}", settings.check());
}

#[test]
fn an_empty_tor_password_is_refused_at_save_time() {
    let settings = Settings {
        tor_auth_password: String::new(),
        ..valid()
    };
    let message = settings.check().unwrap_err();
    assert!(message.contains("Tor control password"), "{message}");
}

#[test]
fn a_swap_below_the_protocol_minimum_is_refused() {
    let settings = Settings {
        min_swap_amount: 500,
        ..valid()
    };
    assert!(settings.check().unwrap_err().contains("10000"));
}

#[test]
fn every_port_is_range_checked_not_just_the_maker_one() {
    // All three are cast to u16 in `to_maker_config`, so any of them could truncate to zero.
    for settings in [
        Settings {
            socks_port: 70_000,
            ..valid()
        },
        Settings {
            control_port: 0,
            ..valid()
        },
    ] {
        assert!(settings.check().is_err());
    }
}

#[test]
fn a_blank_wallet_name_is_refused_because_it_names_a_file() {
    let settings = Settings {
        wallet_name: "   ".to_string(),
        ..valid()
    };
    assert!(settings.check().is_err());
}

#[test]
fn a_pasted_url_is_reduced_to_host_and_port() {
    assert_eq!(
        host_port("http://bitcoind-signet:38332"),
        "bitcoind-signet:38332"
    );
    assert_eq!(host_port("https://node.example:8332"), "node.example:8332");
    assert_eq!(host_port("  127.0.0.1:18443  "), "127.0.0.1:18443");
    assert_eq!(host_port("127.0.0.1:18443/"), "127.0.0.1:18443");
    // The wallet path is appended later, so a supplied one has to go.
    assert_eq!(
        host_port("http://127.0.0.1:18443/wallet/other"),
        "127.0.0.1:18443"
    );
}

#[test]
fn a_pasted_url_reaches_the_maker_as_host_and_port() {
    // The normalisation has to happen on the way into the config, not only in the check.
    let settings = Settings {
        core_url: "http://bitcoind-signet:38332".to_string(),
        ..valid()
    };
    match settings.to_maker_config("/tmp/x".to_string()).backend {
        BackendConfig::CoreRpc(core) => assert_eq!(core.url, "bitcoind-signet:38332"),
        _ => panic!("expected a Core backend"),
    }
}

#[test]
fn an_endpoint_without_a_port_is_refused_rather_than_defaulting_to_80() {
    // A missing port silently becomes 80.
    for endpoint in [
        "127.0.0.1",
        "http://bitcoind-signet",
        "localhost:",
        ":18443",
    ] {
        let settings = Settings {
            core_url: endpoint.to_string(),
            ..valid()
        };
        let message = settings.check().unwrap_err();
        assert!(
            message.contains("host:port"),
            "{endpoint} should be refused: {message}"
        );
    }
}

#[test]
fn a_port_that_is_not_a_port_is_refused() {
    let settings = Settings {
        core_url: "127.0.0.1:not-a-port".to_string(),
        ..valid()
    };
    assert!(settings.check().is_err());
}

#[test]
fn the_default_endpoint_is_in_the_format_openswap_wants() {
    let default = defaults().core_url;
    assert!(!default.contains("://"), "default must not carry a scheme");
    assert_eq!(host_port(&default), default);
}

#[test]
fn the_two_wallets_may_not_share_a_name() {
    // One name would mean one wallet file and one Core watch-only wallet driven by both roles,
    // each seeing the other's coins as its own.
    let settings = Settings {
        taker_enabled: true,
        wallet_name: "same".to_string(),
        taker_wallet_name: "same".to_string(),
        ..valid()
    };
    assert!(settings.check().unwrap_err().contains("must differ"));
}

#[test]
fn a_name_collision_is_ignored_while_the_taker_is_off() {
    // Nothing opens the taker wallet, so there is nothing to collide with, and refusing here
    // would block a maker-only operator over a field they never filled in.
    let settings = Settings {
        taker_enabled: false,
        wallet_name: "same".to_string(),
        taker_wallet_name: "same".to_string(),
        ..valid()
    };
    assert!(settings.check().is_ok(), "{:?}", settings.check());
}

#[test]
fn the_defaults_give_the_two_roles_different_wallets() {
    let defaults = defaults();
    assert_ne!(defaults.wallet_name, defaults.taker_wallet_name);
}

#[test]
fn each_role_drives_its_own_core_watch_only_wallet() {
    // Sharing one would give each role the other's coins.
    let settings = Settings {
        taker_enabled: true,
        ..valid()
    };
    let maker = match settings.to_maker_config("/tmp/m".to_string()).backend {
        BackendConfig::CoreRpc(core) => core.wallet_name,
        _ => panic!("expected a Core backend"),
    };
    let taker = match settings.to_taker_config("/tmp/t".to_string()).backend {
        BackendConfig::CoreRpc(core) => core.wallet_name,
        _ => panic!("expected a Core backend"),
    };
    assert_ne!(maker, taker);
}

#[test]
fn the_taker_gets_its_own_data_dir_and_the_shared_tor_settings() {
    let settings = Settings {
        taker_enabled: true,
        ..valid()
    };
    let config = settings.to_taker_config("/var/lib/x/taker".to_string());
    assert_eq!(config.data_dir, Some("/var/lib/x/taker".to_string()));
    assert_eq!(config.wallet_name, settings.taker_wallet_name);
    assert_eq!(config.socks_port, settings.socks_port as u16);
    assert_eq!(
        config.tor_auth_password.as_deref(),
        Some(settings.tor_auth_password.as_str())
    );
}

#[test]
fn the_taker_reaches_makers_over_tor_by_default() {
    // A maker advertises an onion address, which clearnet cannot reach at all.
    assert_eq!(defaults().taker_reach, Reach::Tor);
}

#[test]
fn the_swap_protocol_defaults_to_legacy() {
    // Every maker supports Legacy, so an operator who never touches this gets a swap that can
    // route. Taproot is opt-in.
    assert_eq!(defaults().taker_protocol, Protocol::Legacy);
}

#[test]
fn both_protocols_map_to_openswaps_own_type() {
    assert_eq!(
        Protocol::Legacy.to_protocol_version(),
        ProtocolVersion::Legacy
    );
    assert_eq!(
        Protocol::Taproot.to_protocol_version(),
        ProtocolVersion::Taproot
    );
}

#[test]
fn each_problem_has_its_own_message() {
    let cases = [
        (
            Settings { core_url: " / ".to_string(), ..valid() },
            "Core RPC host and port is required when the chain source is Bitcoin Core.",
        ),
        (
            Settings { core_url: "https://node:0/x".to_string(), ..valid() },
            "Core RPC host and port must look like host:port, for example 127.0.0.1:18443. Got \
             \"node:0\".",
        ),
        (
            Settings { core_url: "node:65536".to_string(), ..valid() },
            "Core RPC host and port must look like host:port, for example 127.0.0.1:18443. Got \
             \"node:65536\".",
        ),
        (
            Settings { backend: Backend::Electrum, electrum_url: "\t".to_string(), ..valid() },
            "Electrum URL is required when the chain source is an Electrum server.",
        ),
        (
            Settings { wallet_name: "\u{a0}".to_string(), ..valid() },
            "Wallet name is required.",
        ),
        (
            Settings { taker_enabled: true, taker_wallet_name: "".to_string(), ..valid() },
            "Taker wallet name is required.",
        ),
        (
            Settings {
                taker_enabled: true,
                taker_wallet_name: " test-maker ".to_string(),
                ..valid()
            },
            "The taker wallet name must differ from the maker's. They are two separate wallets, \
             and sharing a name would point both at one file.",
        ),
        (
            Settings { network_port: 0, ..valid() },
            "Maker port must be between 1 and 65535.",
        ),
        (
            Settings { socks_port: 65_536, ..valid() },
            "Tor SOCKS port must be between 1 and 65535.",
        ),
        (
            Settings { control_port: 70_000, ..valid() },
            "Tor control port must be between 1 and 65535.",
        ),
        (
            Settings { tor_auth_password: "".to_string(), ..valid() },
            "Tor control password is required. Tor refuses to open a control port with no \
             authentication, and openswap authenticates with a password, so this must match the \
             HashedControlPassword the Tor instance was configured with.",
        ),
        (
            Settings { fidelity_timelock: 12_959, ..valid() },
            "Fidelity bond timelock must be between 12960 and 25920 blocks, which is roughly \
             three to six months. 12959 is outside what openswap accepts.",
        ),
        (
            Settings { min_swap_amount: 9_999, ..valid() },
            "Minimum swap must be at least 10000 sats.",
        ),
        (
            Settings { fidelity_amount: 9_999, ..valid() },
            "Fidelity bond amount must be at least 10000 sats to be worth anything to a taker.",
        ),
    ];
    for (settings, message) in cases {
        assert_eq!(settings.check().unwrap_err(), message);
    }
}

#[test]
fn the_first_problem_is_the_one_that_is_named() {
    let settings = Settings {
        wallet_name: String::new(),
        network_port: 0,
        fidelity_timelock: 0,
        ..valid()
    };
    assert_eq!(settings.check().unwrap_err(), "Wallet name is required.");
}

#[test]
fn the_limits_themselves_are_accepted() {
    let settings = Settings {
        core_url: "[::1]:+65535".to_string(),
        network_port: 65_535,
        socks_port: 1,
        fidelity_timelock: 25_920,
        min_swap_amount: 10_000,
        fidelity_amount: 10_000,
        ..valid()
    };
    assert_eq!(settings.check(), Ok(()));
    let shortest = Settings { fidelity_timelock: 12_960, ..valid() };
    assert_eq!(shortest.check(), Ok(()));
}

#[test]
fn checked_ports_reach_both_roles() {
    let settings = Settings { network_port: 65_535, control_port: 65_534, ..valid() };
    assert_eq!(settings.check(), Ok(()));
    let maker = settings.to_maker_config("/m".to_string());
    assert_eq!(maker.network_port, 65_535);
    assert_eq!(maker.control_port, 65_534);
    assert_eq!(maker.socks_port, 9050);
    let taker = settings.to_taker_config("/t".to_string());
    assert_eq!(taker.control_port, Some(65_534));
    assert_eq!(taker.socks_port, 9050);
}

#[test]
fn the_whole_configuration_of_a_maker() {
    let settings = Settings {
        chain: Chain::Testnet4,
        core_user: "user".to_string(),
        core_password: "word".to_string(),
        core_zmq_addr: " tcp://127.0.0.1:1 ".to_string(),
        wallet_name: " m ".to_string(),
        time_relative_fee_bps: 7,
        ..valid()
    };
    let config = settings.to_maker_config("/m".to_string());
    assert_eq!(config.network, Network::Testnet4);
    assert_eq!(config.wallet_name, "m");
    assert_eq!(config.tor_auth_password, "hunter2");
    assert_eq!(config.base_fee, 1_000);
    assert_eq!(config.amount_relative_fee_bps, 2);
    assert_eq!(config.time_relative_fee_bps, 7);
    assert_eq!(config.min_swap_amount, 10_000);
    assert_eq!(config.required_confirms, 1);
    assert_eq!(config.fidelity_amount, 50_000);
    assert_eq!(config.fidelity_timelock, 13_104);
    match config.backend {
        BackendConfig::CoreRpc(core) => {
            assert_eq!(core.url, "127.0.0.1:18443");
            assert_eq!(
                core.auth,
                Auth::UserPass("user".to_string(), "word".to_string())
            );
            assert_eq!(core.wallet_name, "m");
            assert_eq!(core.zmq_addr, "tcp://127.0.0.1:1");
        }
        _ => panic!("expected a Core backend"),
    }
}

#[test]
fn an_electrum_proxy_is_trimmed_and_kept() {
    let settings = Settings {
        backend: Backend::Electrum,
        electrum_url: " ssl://x:50002 ".to_string(),
        electrum_socks5: " 127.0.0.1:9050 ".to_string(),
        taker_reach: Reach::Clearnet,
        ..valid()
    };
    let config = settings.to_taker_config("/t".to_string());
    assert_eq!(config.connection_type, ConnectionType::Clearnet);
    assert_eq!(config.password, None);
    match config.backend {
        BackendConfig::Electrum(electrum) => {
            assert_eq!(electrum.url, "ssl://x:50002");
            assert_eq!(electrum.socks5.as_deref(), Some("127.0.0.1:9050"));
            assert_eq!(electrum.timeout, None);
            assert_eq!(electrum.poll_interval_secs, None);
            assert_eq!(electrum.max_retries, 3);
        }
        _ => panic!("expected an Electrum backend"),
    }
}

#[test]
fn an_endpoint_is_normal_after_one_pass() {
    for value in ["http://http://x:1", " https://a:2/ /b", "plain", "/", "http:// c:3"] {
        let once = host_port(value);
        assert!(!once.contains('/'), "{once}");
        assert_eq!(host_port(&once), once);
    }
    assert_eq!(host_port("http:// c:3"), "c:3");
}

#[test]
fn defaults_follow_the_maker_server_and_its_width() {
    let settings = Settings::defaults(&MakerDefaults {
        base_fee: 4_294_967_297,
        ..reference()
    });
    assert_eq!(settings.base_fee, 1);
    assert_eq!(settings.network_port, 6102);
    assert_eq!(settings.core_zmq_addr, "tcp://127.0.0.1:28332");
    assert_eq!(settings.backend, Backend::default());
    assert_eq!(settings.taker_reach, Reach::default());
    assert_eq!(settings.chain, Chain::default());
    assert_eq!(settings.taker_protocol, Protocol::default());
    assert_eq!(Chain::Signet.name(), "Signet");
    assert_eq!(Chain::Signet.to_network(), Network::Signet);
}
