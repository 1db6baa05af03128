use coinswap_btcpay::alerts::{
    notification_failed, Alerts, Notification, Observation, Watcher, WatcherSlot,
    BOND_EXPIRY_WARNING_BLOCKS, POLL_INTERVAL, STOP_DEADLINE, STUCK_TICKS,
};
use coinswap_btcpay::shared::{Nap, Phase, TICK};

fn running(spendable: u64, minimum: u64) -> Observation {
    Observation {
        phase: Phase::Running,
        spendable_sat: Some(spendable),
        min_swap_sat: Some(minimum),
        bond_expiry_blocks: None,
        unfinished_funded_swaps: Vec::new(),
    }
}

#[test]
fn a_failed_maker_notifies_once() {
    let mut alerts = Alerts::default();
    let failed = Observation::only_phase(Phase::Failed("no backend".to_string()));

    let first = alerts.assess(&failed);
    assert_eq!(first.len(), 1);
    assert!(first[0].body.contains("no backend"));

    assert!(alerts.assess(&failed).is_empty());
}

#[test]
fn a_maker_that_recovers_and_fails_again_notifies_again() {
    let mut alerts = Alerts::default();
    let failed = Observation::only_phase(Phase::Failed("no backend".to_string()));

    assert_eq!(alerts.assess(&failed).len(), 1);
    assert!(alerts
        .assess(&Observation::only_phase(Phase::Running))
        .is_empty());
    assert_eq!(alerts.assess(&failed).len(), 1);
}

#[test]
fn a_stopped_maker_is_not_news() {
    let mut alerts = Alerts::default();
    assert!(alerts
        .assess(&Observation::only_phase(Phase::Stopped))
        .is_empty());
}

#[test]
fn liquidity_below_the_advertised_minimum_notifies_once() {
    let mut alerts = Alerts::default();

    let raised = alerts.assess(&running(9_000, 10_000));
    assert_eq!(raised.len(), 1);
    assert!(raised[0].body.contains("9000"));

    assert!(alerts.assess(&running(9_000, 10_000)).is_empty());
}

#[test]
fn refunding_the_wallet_re_arms_the_liquidity_alert() {
    let mut alerts = Alerts::default();

    assert_eq!(alerts.assess(&running(9_000, 10_000)).len(), 1);
    assert!(alerts.assess(&running(50_000, 10_000)).is_empty());
    assert_eq!(alerts.assess(&running(9_000, 10_000)).len(), 1);
}

#[test]
fn liquidity_exactly_at_the_minimum_is_enough() {
    let mut alerts = Alerts::default();
    assert!(alerts.assess(&running(10_000, 10_000)).is_empty());
}

#[test]
fn an_unreadable_wallet_decides_nothing() {
    let mut alerts = Alerts::default();
    assert_eq!(alerts.assess(&running(9_000, 10_000)).len(), 1);

    // Wallet busy: neither a fresh alert nor a clearing of the old one.
    let unreadable = Observation::only_phase(Phase::Running);
    assert!(alerts.assess(&unreadable).is_empty());

    assert!(alerts.assess(&running(9_000, 10_000)).is_empty());
}

#[test]
fn a_bond_inside_the_warning_window_notifies_once() {
    let mut alerts = Alerts::default();
    let expiring = Observation {
        bond_expiry_blocks: Some(BOND_EXPIRY_WARNING_BLOCKS),
        ..running(50_000, 10_000)
    };

    assert_eq!(alerts.assess(&expiring).len(), 1);
    assert!(alerts.assess(&expiring).is_empty());
}

#[test]
fn a_bond_with_time_left_is_not_news() {
    let mut alerts = Alerts::default();
    let healthy = Observation {
        bond_expiry_blocks: Some(BOND_EXPIRY_WARNING_BLOCKS + 1),
        ..running(50_000, 10_000)
    };

    assert!(alerts.assess(&healthy).is_empty());
}

#[test]
fn a_replacement_bond_re_arms_the_expiry_alert() {
    let mut alerts = Alerts::default();
    let expiring = Observation {
        bond_expiry_blocks: Some(100),
        ..running(50_000, 10_000)
    };
    let replaced = Observation {
        bond_expiry_blocks: Some(20_000),
        ..running(50_000, 10_000)
    };

    assert_eq!(alerts.assess(&expiring).len(), 1);
    assert!(alerts.assess(&replaced).is_empty());
    assert_eq!(alerts.assess(&expiring).len(), 1);
}

#[test]
fn a_swap_is_stuck_only_after_it_stops_moving() {
    let mut alerts = Alerts::default();
    let swapping = Observation {
        unfinished_funded_swaps: vec!["abc123".to_string()],
        ..running(50_000, 10_000)
    };

    for _ in 1..STUCK_TICKS {
        assert!(alerts.assess(&swapping).is_empty());
    }
    let raised = alerts.assess(&swapping);
    assert_eq!(raised.len(), 1);
    assert!(raised[0].body.contains("abc123"));
}

#[test]
fn a_stuck_swap_notifies_once_however_long_it_stays() {
    let mut alerts = Alerts::default();
    let swapping = Observation {
        unfinished_funded_swaps: vec!["abc123".to_string()],
        ..running(50_000, 10_000)
    };

    for _ in 0..STUCK_TICKS {
        alerts.assess(&swapping);
    }
    for _ in 0..STUCK_TICKS {
        assert!(alerts.assess(&swapping).is_empty());
    }
}

#[test]
fn a_swap_that_finishes_and_returns_starts_counting_again() {
    let mut alerts = Alerts::default();
    let swapping = Observation {
        unfinished_funded_swaps: vec!["abc123".to_string()],
        ..running(50_000, 10_000)
    };
    let idle = running(50_000, 10_000);

    for _ in 1..STUCK_TICKS {
        alerts.assess(&swapping);
    }
    assert!(alerts.assess(&idle).is_empty());
    assert!(alerts.assess(&swapping).is_empty());
}

#[test]
fn each_stuck_swap_is_reported_separately() {
    let mut alerts = Alerts::default();
    let swapping = Observation {
        unfinished_funded_swaps: vec!["abc123".to_string(), "def456".to_string()],
        ..running(50_000, 10_000)
    };

    for _ in 1..STUCK_TICKS {
        alerts.assess(&swapping);
    }
    assert_eq!(alerts.assess(&swapping).len(), 2);
}

#[test]
fn conditions_are_reported_together() {
    let mut alerts = Alerts::default();
    let bad = Observation {
        phase: Phase::Failed("no backend".to_string()),
        spendable_sat: Some(0),
        min_swap_sat: Some(10_000),
        bond_expiry_blocks: Some(10),
        unfinished_funded_swaps: Vec::new(),
    };

    assert_eq!(alerts.assess(&bad).len(), 3);
}

#[test]
fn a_watcher_stops_without_being_waited_out() {
    let mut watcher = Watcher::start("/plugins/test/dashboard".to_string());
    let mut slot = WatcherSlot::new();
    slot.replace(&mut watcher);
    assert_eq!(watcher.wait(&slot, 0), Nap::Sleep(TICK));
    watcher.stop();
    assert_eq!(watcher.wait(&slot, 0), Nap::Over(true));
    assert_eq!(watcher.wait(&slot, TICK), Nap::Over(true));
}

#[test]
fn a_watcher_looks_once_a_minute_and_links_what_it_raises() {
    let mut watcher = Watcher::start("/x".to_string());
    assert_eq!(POLL_INTERVAL, 60);
    let slot = WatcherSlot::new();
    assert_eq!(watcher.wait(&slot, 59_999_999_999), Nap::Sleep(1));
    assert_eq!(watcher.wait(&slot, 60_000_000_000), Nap::Over(false));
    let seen = running(1, 10_000);
    assert!(watcher.can_look(&seen));
    let raised = watcher.look(&seen);
    assert_eq!(raised.len(), 1);
    assert_eq!(raised[0].link.as_deref(), Some("/x"));
    assert!(watcher.look(&seen).is_empty());
}

#[test]
fn the_notifications_say_what_happened() {
    let mut alerts = Alerts::new();
    let bad = Observation {
        phase: Phase::Failed("no backend".to_string()),
        spendable_sat: Some(7),
        min_swap_sat: Some(10_000),
        bond_expiry_blocks: Some(2_016),
        unfinished_funded_swaps: Vec::new(),
    };
    let raised = alerts.assess(&bad);
    assert_eq!(raised[0].title, "The coinswap maker is down");
    assert_eq!(
        raised[0].body,
        "It stopped with: no backend. Takers cannot reach it until it is started again."
    );
    assert_eq!(raised[1].title, "The coinswap maker has run out of liquidity");
    assert_eq!(
        raised[1].body,
        "7 sats spendable, below the 10000 sats it advertises as its minimum swap, so it cannot \
         accept one."
    );
    assert_eq!(raised[2].title, "The coinswap fidelity bond is nearing expiry");
    assert_eq!(
        raised[2].body,
        "2016 blocks until it matures. A maker without a bond is not chosen by takers, so create \
         the next one before then."
    );
    assert!(raised.iter().all(|notification| notification.link.is_none()));
}

#[test]
fn a_swap_listed_twice_counts_twice_and_is_reported_once() {
    let mut alerts = Alerts::new();
    let twice = Observation {
        unfinished_funded_swaps: vec!["abc".to_string(), "abc".to_string()],
        ..running(50_000, 10_000)
    };
    for _ in 1..STUCK_TICKS / 2 {
        assert!(alerts.assess(&twice).is_empty());
    }
    let raised = alerts.assess(&twice);
    assert_eq!(
        raised,
        vec![Notification {
            title: "A coinswap is stuck".to_string(),
            body: "Swap abc has funding on chain and has not moved for 30 minutes. Its funds stay \
                   in the contract until recovery completes."
                .to_string(),
            link: None,
        }]
    );
    assert!(alerts.assess(&twice).is_empty());
}

#[test]
fn a_tick_links_every_notification() {
    let mut alerts = Alerts::new();
    let bad = Observation {
        bond_expiry_blocks: Some(10),
        ..running(1, 10_000)
    };
    assert!(alerts.can_assess(&bad));
    let raised = alerts.tick(&bad, "/plugins/test/dashboard");
    assert_eq!(raised.len(), 2);
    for notification in &raised {
        assert_eq!(notification.link.as_deref(), Some("/plugins/test/dashboard"));
    }
    assert!(raised[1].body.starts_with("10 blocks"));
    assert!(alerts.tick(&bad, "/plugins/test/dashboard").is_empty());
}

#[test]
fn an_untaken_notification_is_logged_as_an_error() {
    let line = notification_failed("Gone");
    assert!(line.is_error);
    assert_eq!(line.text, "Could not raise a notification: Gone");
}

#[test]
fn a_replaced_watcher_is_asked_to_stop_and_the_new_one_is_not() {
    let mut slot = WatcherSlot::default();
    let mut first = Watcher::start("/x".to_string());
    let mut second = Watcher::start("/x".to_string());

    assert!(slot.can_replace());
    slot.replace(&mut first);
    assert_eq!(first.wait(&slot, 0), Nap::Sleep(TICK));

    slot.replace(&mut second);
    assert_eq!(first.wait(&slot, 0), Nap::Over(true));
    assert_eq!(second.wait(&slot, 0), Nap::Sleep(TICK));

    slot.clear();
    assert_eq!(first.wait(&slot, 0), Nap::Over(true));
    assert_eq!(second.wait(&slot, 0), Nap::Over(true));

    let mut third = Watcher::start("/x".to_string());
    slot.replace(&mut third);
    assert_eq!(first.wait(&slot, 0), Nap::Over(true));
    assert_eq!(second.wait(&slot, 0), Nap::Over(true));
    assert_eq!(third.wait(&slot, 0), Nap::Sleep(TICK));
    assert!(slot.asked_to_stop(1) && slot.asked_to_stop(2) && !slot.asked_to_stop(3));
}

#[test]
fn lists_of_swaps_are_assessed_apart_from_the_rest() {
    let mut alerts = Alerts::default();
    let list = vec!["abc123".to_string()];
    for _ in 1..STUCK_TICKS {
        assert!(alerts.assess_swaps(&list).is_empty());
    }
    let raised = alerts.assess_swaps(&list);
    assert_eq!(raised.len(), 1);
    assert_eq!(raised[0].title, "A coinswap is stuck");
    assert!(alerts.assess_swaps(&Vec::new()).is_empty());
    assert!(alerts.assess_swaps(&list).is_empty());
}

#[test]
fn stuck_swaps_are_reported_in_the_order_of_the_list() {
    let mut alerts = Alerts::default();
    let both = Observation {
        unfinished_funded_swaps: vec!["def456".to_string(), "abc123".to_string()],
        ..running(50_000, 10_000)
    };
    let one = Observation {
        unfinished_funded_swaps: vec!["abc123".to_string()],
        ..running(50_000, 10_000)
    };

    for _ in 1..STUCK_TICKS {
        assert!(alerts.assess(&both).is_empty());
    }
    let raised = alerts.assess(&both);
    assert_eq!(raised.len(), 2);
    assert!(raised[0].body.contains("def456"));
    assert!(raised[1].body.contains("abc123"));

    // Gone, and back for long enough: it was reported already.
    assert!(alerts.assess(&one).is_empty());
    for _ in 0..=STUCK_TICKS {
        assert!(alerts.assess(&both).is_empty());
    }
}

#[test]
fn stuck_means_half_an_hour() {
    assert_eq!(u64::from(STUCK_TICKS) * POLL_INTERVAL, 1_800);
    assert_eq!(STOP_DEADLINE, 5);
}
