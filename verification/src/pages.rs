//! The maker's dashboard and the taker's page.

use vstd::prelude::*;

use btcpay_plugin::ui::{Actions, Document, Form, Stats, Table};

use crate::maker;
use crate::maker::{SwapRecord, SwapRecordView, SHORT_ID};
use crate::runtime;
use crate::settings::Settings;
use crate::shared::{Phase, PhaseView};
use crate::taker;
use crate::taker::{
    Quote, QuoteHopView, QuoteState, QuoteStateView, QuoteView, SwapOutcome, SwapOutcomeView,
    SwapState, SwapStateView,
};
use crate::text;
use crate::text::{decimal_text, sats, shorten};
use crate::blocks;
use crate::blocks::{
    actions_button, actions_new, actions_title, button_confirm, button_destructive, button_new,
    button_primary, document_actions, document_alert, document_form, document_new,
    document_stats, document_table, document_text, five_cells, form_help, form_new, form_number,
    form_range, form_required, form_submit_label, form_text, form_title, four_cells, stats_card,
    stats_detail, stats_new, table_empty_message, table_new, table_row, table_title, two_cells,
    ActionsView, AlertLevel, ButtonView, CardView, DocumentView, FieldKindView, FieldView,
    FormView, SectionView, TableView,
};

verus! {

/// What a phase is called.
pub open spec fn phase_name(phase: PhaseView) -> Seq<char> {
    match phase {
        PhaseView::Stopped => "Stopped"@,
        PhaseView::Starting => "Starting"@,
        PhaseView::Running => "Running"@,
        PhaseView::Failed(_) => "Failed"@,
    }
}

/// What a phase is called.
pub fn phase_label(phase: &Phase) -> (result: &'static str)
    ensures
        result@ == phase_name(phase@),
{
    match phase {
        Phase::Stopped => "Stopped",
        Phase::Starting => "Starting",
        Phase::Running => "Running",
        Phase::Failed(_) => "Failed",
    }
}

/// The banner at the top of the dashboard.
pub open spec fn banner(status: maker::StatusView, settings: Settings) -> (AlertLevel, Seq<char>) {
    match status.phase {
        PhaseView::Failed(reason) => (
            AlertLevel::Danger,
            "The maker is not running: "@ + reason
                + ". Check the settings page, then start it again."@,
        ),
        PhaseView::Starting => (
            AlertLevel::Info,
            "The maker is starting. Connecting to the chain backend takes a while, and longer over Tor."@,
        ),
        PhaseView::Running => if status.bonds.len() == 0 {
            (
                AlertLevel::Warning,
                "The maker is running but has no fidelity bond, so takers will not choose it."@,
            )
        } else {
            (
                AlertLevel::Success,
                "The maker is running and advertising itself to takers."@,
            )
        },
        PhaseView::Stopped => if settings.enabled {
            (AlertLevel::Warning, "The maker is enabled but not running. Start it below."@)
        } else {
            (
                AlertLevel::Info,
                "The maker is off. Fill in the settings page, turn on \"Run the maker\", and save."@,
            )
        },
    }
}

/// The banner at the top of the dashboard: what went wrong, or what to do next.
pub fn phase_alert(status: &maker::Status, settings: &Settings) -> (result: (AlertLevel, String))
    ensures
        (result.0, result.1@) == banner(status@, *settings),
{
    match &status.phase {
        Phase::Failed(reason) => (
            AlertLevel::Danger,
            "The maker is not running: ".to_string().concat(reason.as_str()).concat(
                ". Check the settings page, then start it again.",
            ),
        ),
        Phase::Starting => (
            AlertLevel::Info,
            "The maker is starting. Connecting to the chain backend takes a while, and longer over Tor.".to_string(),
        ),
        Phase::Running => if status.bonds.len() == 0 {
            (
                AlertLevel::Warning,
                "The maker is running but has no fidelity bond, so takers will not choose it.".to_string(),
            )
        } else {
            (
                AlertLevel::Success,
                "The maker is running and advertising itself to takers.".to_string(),
            )
        },
        Phase::Stopped => if settings.enabled {
            (
                AlertLevel::Warning,
                "The maker is enabled but not running. Start it below.".to_string(),
            )
        } else {
            (
                AlertLevel::Info,
                "The maker is off. Fill in the settings page, turn on \"Run the maker\", and save.".to_string(),
            )
        },
    }
}

/// The buttons of the dashboard, as they depend on what the maker is doing.
pub open spec fn command_buttons(
    status: maker::StatusView,
    settings: Settings,
    wallet_open: bool,
) -> Seq<ButtonView> {
    let running = if status.phase.live() {
        seq![
            ButtonView::plain("stop"@, "Stop the maker"@).destructive(
                if status.ongoing_swaps == Some(true) {
                    "A swap is in progress. Stopping now risks it timing out and falling back to a timelocked refund. Stop anyway?"@
                } else {
                    "Stop the maker? Takers will no longer be able to reach it."@
                },
            ),
            ButtonView::plain("drain"@, "Drain idle swaps"@).confirmed(
                "Clear out swaps that have gone idle? A counterparty that comes back will find its swap gone and fall back to its timelocked refund."@,
            ),
        ]
    } else if settings.enabled {
        seq![ButtonView::plain("start"@, "Start the maker"@).primary()]
    } else {
        Seq::empty()
    };
    if wallet_open {
        running.push(ButtonView::plain("address"@, "Show a funding address"@))
    } else {
        running
    }
}

/// The buttons, which depend on what the maker is currently doing.
///
/// A button that cannot work is worse than no button. An address is offered whenever the wallet
/// is open, including after a failed start: the maker cannot start without a funded wallet, so
/// withholding an address would deadlock. There is no command for a fidelity bond: the bond
/// commits to the maker's onion hostname, which only the maker itself knows.
pub fn commands(status: &maker::Status, settings: &Settings, wallet_open: bool) -> (result: Actions)
    ensures
        blocks::actions_view(result) == (ActionsView {
            title: Some("Operations"@),
            buttons: command_buttons(status@, *settings, wallet_open),
        }),
{
    let mut actions = actions_title(actions_new(), "Operations");
    if status.phase.is_live() {
        let question = if let Some(true) = status.ongoing_swaps {
            "A swap is in progress. Stopping now risks it timing out and falling back to a timelocked refund. Stop anyway?"
        } else {
            "Stop the maker? Takers will no longer be able to reach it."
        };
        actions = actions_button(
            actions,
            button_destructive(button_new("stop", "Stop the maker"), question),
        );
        actions = actions_button(
            actions,
            button_confirm(
                button_new("drain", "Drain idle swaps"),
                "Clear out swaps that have gone idle? A counterparty that comes back will find its swap gone and fall back to its timelocked refund.",
            ),
        );
    } else if settings.enabled {
        actions = actions_button(actions, button_primary(button_new("start", "Start the maker")));
    }
    if wallet_open {
        actions = actions_button(actions, button_new("address", "Show a funding address"));
    }
    assert(blocks::actions_view(actions).buttons =~= command_buttons(status@, *settings, wallet_open));
    actions
}

/// The swaps with funds at stake that are stalled, or those that are not.
pub open spec fn at_stake(swaps: Seq<SwapRecordView>, now: u64, stalled: bool) -> Seq<
    SwapRecordView,
> {
    swaps.filter(|swap: SwapRecordView| swap.at_stake() && swap.stale(now) == stalled)
}

/// What some swaps amount to together.
pub open spec fn total(swaps: Seq<SwapRecordView>) -> nat
    decreases swaps.len(),
{
    if swaps.len() == 0 {
        0
    } else {
        total(swaps.drop_last()) + swaps.last().amount_sat as nat
    }
}

/// Whether the amounts that the dashboard adds up can be added up.
pub open spec fn amounts_fit(swaps: Seq<SwapRecordView>, now: u64) -> bool {
    total(at_stake(swaps, now, false)) <= u64::MAX && total(at_stake(swaps, now, true)) <= u64::MAX
}

/// One more record is at stake or not, and adds to the total or not.
proof fn lemma_at_stake_step(swaps: Seq<SwapRecordView>, at: int, now: u64, stalled: bool)
    requires
        0 <= at < swaps.len(),
    ensures
        at_stake(swaps.take(at + 1), now, stalled) == if swaps[at].at_stake() && swaps[at].stale(
            now,
        ) == stalled {
            at_stake(swaps.take(at), now, stalled).push(swaps[at])
        } else {
            at_stake(swaps.take(at), now, stalled)
        },
        total(at_stake(swaps.take(at + 1), now, stalled)) == total(
            at_stake(swaps.take(at), now, stalled),
        ) + if swaps[at].at_stake() && swaps[at].stale(now) == stalled {
            swaps[at].amount_sat as nat
        } else {
            0nat
        },
{
    reveal(Seq::filter);
    let next = swaps.take(at + 1);
    assert(next.drop_last() =~= swaps.take(at));
    assert(next.last() == swaps[at]);
    let before = at_stake(swaps.take(at), now, stalled);
    assert(before.push(swaps[at]).drop_last() =~= before);
}

/// How many swaps are at stake that are stalled, or that are not, and what they amount to if
/// that can be said.
fn tally(swaps: &Vec<SwapRecord>, now: u64, stalled: bool) -> (result: (u64, Option<u64>))
    ensures
        result.0 == at_stake(SwapRecordView::of(swaps@), now, stalled).len(),
        match result.1 {
            Some(sum) => sum == total(at_stake(SwapRecordView::of(swaps@), now, stalled)),
            None => total(at_stake(SwapRecordView::of(swaps@), now, stalled)) > u64::MAX,
        },
{
    let ghost seen = SwapRecordView::of(swaps@);
    let mut count: u64 = 0;
    let mut sum: Option<u64> = Some(0);
    let mut at: usize = 0;
    proof {
        reveal(Seq::filter);
        assert(seen.take(0) =~= Seq::empty());
    }
    while at < swaps.len()
        invariant
            at <= swaps@.len(),
            seen == SwapRecordView::of(swaps@),
            count == at_stake(seen.take(at as int), now, stalled).len(),
            count <= at,
            match sum {
                Some(sum) => sum == total(at_stake(seen.take(at as int), now, stalled)),
                None => total(at_stake(seen.take(at as int), now, stalled)) > u64::MAX,
            },
        decreases swaps@.len() - at,
    {
        let swap = &swaps[at];
        assert(seen[at as int] == swap@);
        proof {
            lemma_at_stake_step(seen, at as int, now, stalled);
        }
        if swap.funds_at_stake() && swap.is_stale(now) == stalled {
            count = count + 1;
            sum = match sum {
                Some(sum) => sum.checked_add(swap.amount_sat),
                None => None,
            };
        }
        at = at + 1;
    }
    assert(seen.take(at as int) =~= seen);
    (count, sum)
}

/// Whether the amounts that the dashboard adds up can be added up. They can for any amounts there
/// are: all coins together are far from the limit.
pub fn can_show(status: &maker::Status, now: u64) -> (result: bool)
    ensures
        result == amounts_fit(status@.swaps, now),
{
    tally(&status.swaps, now, false).1.is_some() && tally(&status.swaps, now, true).1.is_some()
}

/// What a new maker wallet's recovery phrase is shown as. First on the page: an operator who
/// misses it cannot recover the wallet.
pub open spec fn maker_phrase(phrase: Option<Seq<char>>) -> Seq<SectionView> {
    match phrase {
        Some(words) => seq![
            SectionView::alert(
                AlertLevel::Warning,
                "A new maker wallet was created. Write down the recovery phrase below now. It is shown once, it is not stored anywhere this page can read again, and without it the funds in this wallet cannot be recovered."@,
            ),
            SectionView::Text(words),
        ],
        None => Seq::empty(),
    }
}

/// The headline numbers of the dashboard.
pub open spec fn maker_cards(status: maker::StatusView, settings: Settings) -> Seq<CardView> {
    seq![
        CardView::plain("Status"@, phase_name(status.phase)),
        CardView::plain("Network"@, settings.chain.named()),
        CardView::plain(
            "Port"@,
            match status.port {
                Some(port) => text::decimal(port as nat),
                None => "-"@,
            },
        ),
    ] + if status.wallet_busy {
        seq![
            CardView::plain("Balances"@, "Busy"@).detailed(
                "The wallet is locked by the maker; reload once it is done."@,
            ),
        ]
    } else {
        Seq::empty()
    } + match status.balances {
        Some(balances) => seq![
            CardView::plain("Spendable"@, text::sats_text(balances.spendable)).detailed(
                "The maker's own wallet, not a BTCPay store wallet."@,
            ),
            CardView::plain("In swaps"@, text::sats_text(balances.swap)),
            CardView::plain("In bonds"@, text::sats_text(balances.fidelity)).detailed(
                "Locked until the bond timelock expires."@,
            ),
            CardView::plain("In contracts"@, text::sats_text(balances.contract)),
        ],
        None => Seq::empty(),
    } + seq![
        CardView::plain(
            "Swap in progress"@,
            match status.ongoing_swaps {
                Some(true) => "Yes"@,
                Some(false) => "No"@,
                None => "Unknown"@,
            },
        ),
    ]
}

fn maker_stats(status: &maker::Status, settings: &Settings) -> (result: Stats)
    ensures
        blocks::stats_view(result) == maker_cards(status@, *settings),
{
    let port = match status.port {
        Some(port) => decimal_text(port as u64),
        None => "-".to_string(),
    };
    let mut stats = stats_card(stats_new(), "Status", phase_label(&status.phase));
    stats = stats_card(stats, "Network", settings.chain.name());
    stats = stats_card(stats, "Port", port.as_str());
    if status.wallet_busy {
        stats = stats_card(stats, "Balances", "Busy");
        stats = stats_detail(stats, "The wallet is locked by the maker; reload once it is done.");
    }
    if let Some(balances) = &status.balances {
        stats = stats_card(stats, "Spendable", sats(balances.spendable).as_str());
        stats = stats_detail(stats, "The maker's own wallet, not a BTCPay store wallet.");
        stats = stats_card(stats, "In swaps", sats(balances.swap).as_str());
        stats = stats_card(stats, "In bonds", sats(balances.fidelity).as_str());
        stats = stats_detail(stats, "Locked until the bond timelock expires.");
        stats = stats_card(stats, "In contracts", sats(balances.contract).as_str());
    }
    let ongoing = match status.ongoing_swaps {
        Some(true) => "Yes",
        Some(false) => "No",
        None => "Unknown",
    };
    stats = stats_card(stats, "Swap in progress", ongoing);
    assert(blocks::stats_view(stats) =~= maker_cards(status@, *settings));
    stats
}

/// The warnings about swaps that still have money on chain.
///
/// Those whose recovery is stalled are warned about separately, because the advice is the
/// opposite: waiting helps a swap still inside its timelock, and does nothing for one recovery
/// has stopped advancing.
pub open spec fn swap_warnings(swaps: Seq<SwapRecordView>, now: u64) -> Seq<SectionView> {
    let recovering = at_stake(swaps, now, false);
    let stalled = at_stake(swaps, now, true);
    (if recovering.len() == 0 {
        Seq::empty()
    } else {
        seq![
            SectionView::alert(
                AlertLevel::Warning,
                text::decimal(recovering.len()) + " swap(s) did not finish, with "@
                    + text::sats_text(total(recovering) as u64)
                    + " still in contracts on chain. The maker recovers these itself once the timelock allows it, which can take a while. Leave it running: stopping it now delays recovery."@,
            ),
        ]
    }) + if stalled.len() == 0 {
        Seq::empty()
    } else {
        seq![
            SectionView::alert(
                AlertLevel::Warning,
                text::decimal(stalled.len())
                    + " swap(s) have not changed for over a day, recorded at "@ + text::sats_text(
                    total(stalled) as u64,
                )
                    + " in contracts on chain. Recovery is not advancing them, so leaving the maker running will not bring these coins back. BTCPay's log says why on each maker start; look for \"Reboot recovery failed\". If the coins are not the maker's to claim, dismiss the swaps below. That only clears them from this page and from notifications; nothing on chain changes."@,
            ),
        ]
    }
}

fn add_swap_warnings(page: Document, swaps: &Vec<SwapRecord>, now: u64) -> (result: Document)
    requires
        amounts_fit(SwapRecordView::of(swaps@), now),
    ensures
        blocks::document_view(result) == blocks::document_view(page).plus(
            swap_warnings(SwapRecordView::of(swaps@), now),
        ),
{
    let ghost before = blocks::document_view(page);
    let mut page = page;
    let (recovering, recovering_sum) = tally(swaps, now, false);
    if recovering > 0 {
        if let Some(sum) = recovering_sum {
            let message = decimal_text(recovering).concat(
                " swap(s) did not finish, with ",
            ).concat(sats(sum).as_str()).concat(
                " still in contracts on chain. The maker recovers these itself once the timelock allows it, which can take a while. Leave it running: stopping it now delays recovery.",
            );
            page = document_alert(page, AlertLevel::Warning, message.as_str());
        }
    }
    let (stalled, stalled_sum) = tally(swaps, now, true);
    if stalled > 0 {
        if let Some(sum) = stalled_sum {
            let message = decimal_text(stalled).concat(
                " swap(s) have not changed for over a day, recorded at ",
            ).concat(sats(sum).as_str()).concat(
                " in contracts on chain. Recovery is not advancing them, so leaving the maker running will not bring these coins back. BTCPay's log says why on each maker start; look for \"Reboot recovery failed\". If the coins are not the maker's to claim, dismiss the swaps below. That only clears them from this page and from notifications; nothing on chain changes.",
            );
            page = document_alert(page, AlertLevel::Warning, message.as_str());
        }
    }
    assert(blocks::document_view(page).sections =~= before.plus(
        swap_warnings(SwapRecordView::of(swaps@), now),
    ).sections);
    page
}

/// The table of unfinished swaps.
pub open spec fn swap_table(swaps: Seq<SwapRecordView>) -> Seq<SectionView> {
    if swaps.len() == 0 {
        Seq::empty()
    } else {
        seq![
            SectionView::Table(
                TableView {
                    title: Some("Unfinished swaps"@),
                    columns: seq!["Swap"@, "Amount"@, "Phase"@, "Recovery"@, "On chain"@],
                    rows: swaps.map_values(|swap: SwapRecordView| swap_row(swap)),
                    empty_message: None,
                },
            ),
        ]
    }
}

/// The row of one unfinished swap.
pub open spec fn swap_row(swap: SwapRecordView) -> Seq<Seq<char>> {
    seq![
        swap.id,
        text::sats_text(swap.amount_sat),
        swap.phase,
        swap.recovery,
        if swap.funded {
            "yes"@
        } else {
            "no"@
        },
    ]
}

fn add_swap_table(page: Document, swaps: &Vec<SwapRecord>) -> (result: Document)
    ensures
        blocks::document_view(result) == blocks::document_view(page).plus(
            swap_table(SwapRecordView::of(swaps@)),
        ),
{
    let ghost before = blocks::document_view(page);
    let ghost seen = SwapRecordView::of(swaps@);
    if swaps.len() == 0 {
        assert(before.plus(swap_table(seen)).sections =~= before.sections);
        return page;
    }
    let mut table = table_title(
        table_new(
            five_cells(
                "Swap".to_string(),
                "Amount".to_string(),
                "Phase".to_string(),
                "Recovery".to_string(),
                "On chain".to_string(),
            ),
        ),
        "Unfinished swaps",
    );
    let ghost empty = blocks::table_view(table);
    let mut at: usize = 0;
    while at < swaps.len()
        invariant
            at <= swaps@.len(),
            seen == SwapRecordView::of(swaps@),
            blocks::table_view(table).rows.len() == at,
            forall|i: int|
                0 <= i < at ==> #[trigger] blocks::table_view(table).rows[i] == swap_row(seen[i]),
            blocks::table_view(table) == (TableView {
                rows: blocks::table_view(table).rows,
                ..empty
            }),
        decreases swaps@.len() - at,
    {
        let swap = &swaps[at];
        let on_chain = if swap.funded {
            "yes"
        } else {
            "no"
        };
        table = table_row(
            table,
            five_cells(
                swap.id.clone(),
                sats(swap.amount_sat),
                swap.phase.clone(),
                swap.recovery.clone(),
                on_chain.to_string(),
            ),
        );
        at = at + 1;
    }
    assert(blocks::table_view(table).rows =~= seen.map_values(
        |swap: SwapRecordView| swap_row(swap),
    ));
    let page = document_table(page, table);
    assert(blocks::document_view(page).sections =~= before.plus(swap_table(seen)).sections);
    page
}

/// The buttons that dismiss stalled swaps.
pub open spec fn dismissals(swaps: Seq<SwapRecordView>, now: u64) -> Seq<SectionView> {
    let stalled = at_stake(swaps, now, true);
    if stalled.len() == 0 {
        Seq::empty()
    } else {
        seq![
            SectionView::Actions(
                ActionsView {
                    title: Some("Stalled swaps"@),
                    buttons: stalled.map_values(|swap: SwapRecordView| dismiss_button(swap)),
                },
            ),
        ]
    }
}

/// The button that dismisses one stalled swap.
pub open spec fn dismiss_button(swap: SwapRecordView) -> ButtonView {
    ButtonView::plain("dismiss-swap:"@ + swap.tracker_key, "Dismiss "@ + swap.id).destructive(
        "Dismiss swap "@ + swap.id
            + "? It stops appearing here and in notifications. Its coins stay where they are on chain."@,
    )
}

fn add_dismissals(page: Document, swaps: &Vec<SwapRecord>, now: u64) -> (result: Document)
    ensures
        blocks::document_view(result) == blocks::document_view(page).plus(
            dismissals(SwapRecordView::of(swaps@), now),
        ),
{
    let ghost before = blocks::document_view(page);
    let ghost seen = SwapRecordView::of(swaps@);
    let ghost button = |swap: SwapRecordView| dismiss_button(swap);
    let mut actions = actions_title(actions_new(), "Stalled swaps");
    let mut any = false;
    let mut at: usize = 0;
    proof {
        reveal(Seq::filter);
        assert(seen.take(0) =~= Seq::empty());
        assert(blocks::actions_view(actions).buttons =~= at_stake(
            seen.take(0),
            now,
            true,
        ).map_values(button));
    }
    while at < swaps.len()
        invariant
            at <= swaps@.len(),
            seen == SwapRecordView::of(swaps@),
            button == (|swap: SwapRecordView| dismiss_button(swap)),
            any == (at_stake(seen.take(at as int), now, true).len() > 0),
            blocks::actions_view(actions).title == Some("Stalled swaps"@),
            blocks::actions_view(actions).buttons == at_stake(
                seen.take(at as int),
                now,
                true,
            ).map_values(button),
        decreases swaps@.len() - at,
    {
        let swap = &swaps[at];
        assert(seen[at as int] == swap@);
        proof {
            lemma_at_stake_step(seen, at as int, now, true);
        }
        if swap.funds_at_stake() && swap.is_stale(now) {
            let command = "dismiss-swap:".to_string().concat(swap.tracker_key.as_str());
            let label = "Dismiss ".to_string().concat(swap.id.as_str());
            let question = "Dismiss swap ".to_string().concat(swap.id.as_str()).concat(
                "? It stops appearing here and in notifications. Its coins stay where they are on chain.",
            );
            let ghost shown = blocks::actions_view(actions).buttons;
            actions = actions_button(
                actions,
                button_destructive(
                    button_new(command.as_str(), label.as_str()),
                    question.as_str(),
                ),
            );
            any = true;
            assert(blocks::actions_view(actions).buttons == shown.push(dismiss_button(swap@)));
            assert(blocks::actions_view(actions).buttons =~= at_stake(
                seen.take(at + 1),
                now,
                true,
            ).map_values(button));
        }
        at = at + 1;
    }
    assert(seen.take(at as int) =~= seen);
    let page = if any {
        document_actions(page, actions)
    } else {
        page
    };
    assert(blocks::document_view(page).sections =~= before.plus(dismissals(seen, now)).sections);
    page
}

/// The table of fidelity bonds.
pub open spec fn bond_table(bonds: Seq<(u64, Seq<char>)>) -> SectionView {
    SectionView::Table(
        TableView {
            title: Some("Fidelity bonds"@),
            columns: seq!["Amount"@, "Locked until"@],
            rows: bonds.map_values(|bond: (u64, Seq<char>)| seq![text::sats_text(bond.0), bond.1]),
            empty_message: Some(
                "No fidelity bond yet. The maker creates one while starting, which needs a funded wallet; takers will not choose a maker without one."@,
            ),
        },
    )
}

fn bonds(status: &maker::Status) -> (result: Table)
    ensures
        SectionView::Table(blocks::table_view(result)) == bond_table(status@.bonds),
{
    let ghost seen = status@.bonds;
    let mut table = table_empty_message(
        table_title(
            table_new(two_cells("Amount".to_string(), "Locked until".to_string())),
            "Fidelity bonds",
        ),
        "No fidelity bond yet. The maker creates one while starting, which needs a funded wallet; takers will not choose a maker without one.",
    );
    let ghost empty = blocks::table_view(table);
    let mut at: usize = 0;
    while at < status.bonds.len()
        invariant
            at <= status.bonds@.len(),
            seen == runtime::bonds_view(status.bonds@),
            blocks::table_view(table).rows.len() == at,
            forall|i: int|
                0 <= i < at ==> #[trigger] blocks::table_view(table).rows[i] == seq![
                    text::sats_text(seen[i].0),
                    seen[i].1,
                ],
            blocks::table_view(table) == (TableView {
                rows: blocks::table_view(table).rows,
                ..empty
            }),
        decreases status.bonds@.len() - at,
    {
        let bond = &status.bonds[at];
        table = table_row(table, two_cells(sats(bond.0), bond.1.clone()));
        at = at + 1;
    }
    assert(blocks::table_view(table).rows =~= seen.map_values(
        |bond: (u64, Seq<char>)| seq![text::sats_text(bond.0), bond.1],
    ));
    table
}

/// The dashboard.
pub open spec fn dashboard_view(
    settings: Settings,
    status: maker::StatusView,
    phrase: Option<Seq<char>>,
    wallet_open: bool,
    now: u64,
) -> DocumentView {
    DocumentView::titled("Coinswap maker"@).plus(maker_phrase(phrase)).with(
        SectionView::alert(banner(status, settings).0, banner(status, settings).1),
    ).with(SectionView::Stats(maker_cards(status, settings))).plus(
        swap_warnings(status.swaps, now),
    ).plus(swap_table(status.swaps)).plus(dismissals(status.swaps, now)).with(
        bond_table(status.bonds),
    ).plus(
        if status.wallet_busy {
            seq![
                SectionView::alert(
                    AlertLevel::Info,
                    "The maker is using its wallet right now, so balances and bonds are not shown. That is normal during a chain sync, and continuous while the maker is waiting for its fidelity bond to be funded. BTCPay's log shows what it is doing, including the address it wants funded."@,
                ),
            ]
        } else {
            Seq::empty()
        },
    ).with(
        SectionView::Actions(
            ActionsView {
                title: Some("Operations"@),
                buttons: command_buttons(status, settings, wallet_open),
            },
        ),
    )
}

/// Builds the dashboard. `phrase` is a new wallet's recovery phrase, and `now` is in seconds since
/// the Unix epoch.
pub fn dashboard(
    settings: &Settings,
    status: &maker::Status,
    phrase: Option<String>,
    wallet_open: bool,
    now: u64,
) -> (result: Document)
    requires
        amounts_fit(status@.swaps, now),
    ensures
        blocks::document_view(result) == dashboard_view(
            *settings,
            status@,
            text::optional(phrase),
            wallet_open,
            now,
        ),
{
    let mut page = document_new("Coinswap maker");
    let ghost titled = DocumentView::titled("Coinswap maker"@);
    if let Some(words) = &phrase {
        page = document_alert(
            page,
            AlertLevel::Warning,
            "A new maker wallet was created. Write down the recovery phrase below now. It is shown once, it is not stored anywhere this page can read again, and without it the funds in this wallet cannot be recovered.",
        );
        page = document_text(page, words.as_str());
    }
    assert(blocks::document_view(page).sections =~= titled.plus(
        maker_phrase(text::optional(phrase)),
    ).sections);
    let (level, message) = phase_alert(status, settings);
    page = document_alert(page, level, message.as_str());
    page = document_stats(page, maker_stats(status, settings));
    page = add_swap_warnings(page, &status.swaps, now);
    page = add_swap_table(page, &status.swaps);
    page = add_dismissals(page, &status.swaps, now);
    page = document_table(page, bonds(status));
    let ghost before = blocks::document_view(page);
    if status.wallet_busy {
        page = document_alert(
            page,
            AlertLevel::Info,
            "The maker is using its wallet right now, so balances and bonds are not shown. That is normal during a chain sync, and continuous while the maker is waiting for its fidelity bond to be funded. BTCPay's log shows what it is doing, including the address it wants funded.",
        );
        assert(before.sections.push(blocks::document_view(page).sections.last()) =~= before.sections
            + seq![blocks::document_view(page).sections.last()]);
    } else {
        assert(before.sections + Seq::<SectionView>::empty() =~= before.sections);
    }
    document_actions(page, commands(status, settings, wallet_open))
}

/// What a new taker wallet's recovery phrase is shown as. It names which wallet it belongs to:
/// two roles means two phrases.
pub open spec fn taker_phrase(phrase: Option<Seq<char>>) -> Seq<SectionView> {
    match phrase {
        Some(words) => seq![
            SectionView::alert(
                AlertLevel::Warning,
                "A new taker wallet was created. Write down the recovery phrase below now. It is shown once and stored nowhere this page can read again. This is the taker's wallet, a different wallet from the maker's, with its own phrase."@,
            ),
            SectionView::Text(words),
        ],
        None => Seq::empty(),
    }
}

/// The banner at the top of the taker's page.
pub open spec fn taker_banner(phase: PhaseView, settings: Settings) -> SectionView {
    match phase {
        PhaseView::Failed(reason) => SectionView::alert(
            AlertLevel::Danger,
            "The taker wallet did not open: "@ + reason,
        ),
        PhaseView::Starting => SectionView::alert(
            AlertLevel::Info,
            "The taker wallet is opening. It scans the chain on first use, which takes a while."@,
        ),
        PhaseView::Running => SectionView::alert(
            AlertLevel::Info,
            "This wallet is the taker's own. Coins get here because somebody sent them, and leave because somebody withdrew them. It is not a BTCPay store wallet, and a swap gains privacy only for coins held here."@,
        ),
        PhaseView::Stopped => if settings.taker_enabled {
            SectionView::alert(
                AlertLevel::Warning,
                "The taker is enabled but its wallet is not open."@,
            )
        } else {
            SectionView::alert(
                AlertLevel::Info,
                "The taker is off. Turn on \"Enable the taker wallet\" on the settings page."@,
            )
        },
    }
}

fn add_taker_banner(page: Document, phase: &Phase, settings: &Settings) -> (result: Document)
    ensures
        blocks::document_view(result) == blocks::document_view(page).with(
            taker_banner(phase@, *settings),
        ),
{
    match phase {
        Phase::Failed(reason) => {
            let message = "The taker wallet did not open: ".to_string().concat(reason.as_str());
            document_alert(page, AlertLevel::Danger, message.as_str())
        },
        Phase::Starting => document_alert(
            page,
            AlertLevel::Info,
            "The taker wallet is opening. It scans the chain on first use, which takes a while.",
        ),
        Phase::Running => document_alert(
            page,
            AlertLevel::Info,
            "This wallet is the taker's own. Coins get here because somebody sent them, and leave because somebody withdrew them. It is not a BTCPay store wallet, and a swap gains privacy only for coins held here.",
        ),
        Phase::Stopped => if settings.taker_enabled {
            document_alert(
                page,
                AlertLevel::Warning,
                "The taker is enabled but its wallet is not open.",
            )
        } else {
            document_alert(
                page,
                AlertLevel::Info,
                "The taker is off. Turn on \"Enable the taker wallet\" on the settings page.",
            )
        },
    }
}

/// The notice that an earlier swap is still being recovered. It outranks the balance: an
/// interrupted swap leaves funds in timelocked contracts.
pub open spec fn recovery_notice(recovery_complete: Option<bool>) -> Seq<SectionView> {
    if recovery_complete == Some(false) {
        seq![
            SectionView::alert(
                AlertLevel::Warning,
                "A previous swap is still being recovered, so its funds are in contracts until their timelocks expire. openswap does this itself and needs nothing from you; a new swap is refused until it finishes, because starting one now would commit funds on top of funds already committed."@,
            ),
        ]
    } else {
        Seq::empty()
    }
}

/// The headline numbers of the taker's page.
pub open spec fn taker_cards(status: taker::StatusView) -> Seq<CardView> {
    seq![CardView::plain("Status"@, phase_name(status.phase))] + if status.wallet_busy {
        seq![
            CardView::plain("Balances"@, "Busy"@).detailed(
                "The wallet is locked right now; reload in a moment."@,
            ),
        ]
    } else {
        Seq::empty()
    } + match status.balances {
        Some(balances) => seq![
            CardView::plain("Spendable"@, text::sats_text(balances.spendable)),
            CardView::plain("In swaps"@, text::sats_text(balances.swap)),
            CardView::plain("In contracts"@, text::sats_text(balances.contract)).detailed(
                "Locked until a swap finishes or its timelock expires."@,
            ),
        ],
        None => Seq::empty(),
    }
}

fn taker_stats(status: &taker::Status) -> (result: Stats)
    ensures
        blocks::stats_view(result) == taker_cards(status@),
{
    let mut stats = stats_card(stats_new(), "Status", phase_label(&status.phase));
    if status.wallet_busy {
        stats = stats_card(stats, "Balances", "Busy");
        stats = stats_detail(stats, "The wallet is locked right now; reload in a moment.");
    }
    if let Some(balances) = &status.balances {
        stats = stats_card(stats, "Spendable", sats(balances.spendable).as_str());
        stats = stats_card(stats, "In swaps", sats(balances.swap).as_str());
        stats = stats_card(stats, "In contracts", sats(balances.contract).as_str());
        stats = stats_detail(stats, "Locked until a swap finishes or its timelock expires.");
    }
    assert(blocks::stats_view(stats) =~= taker_cards(status@));
    stats
}

/// The start of a swap's identifier, which is what is shown of it.
pub open spec fn short(swap_id: Seq<char>) -> Seq<char> {
    text::shortened(swap_id, SHORT_ID as nat)
}

/// How many nanoseconds a minute has.
pub const MINUTE: u64 = 60_000_000_000;

/// For how many whole minutes something has been going on.
pub open spec fn minutes(since: u64, now: u64) -> nat {
    if now > since {
        ((now - since) / MINUTE as int) as nat
    } else {
        0
    }
}

/// What the operator is told of the funds of a swap that failed.
pub open spec fn funds_text(committed: Option<bool>) -> Seq<char> {
    match committed {
        Some(false) => "Nothing left the wallet, so there is nothing to recover and a new quote can be requested."@,
        Some(true) => "Funds left the wallet and are held in contracts until their timelocks expire. This page shows while their recovery is pending."@,
        None => "Whether funds left the wallet could not be checked. The balance on this page shows it once the wallet has synced."@,
    }
}

/// What the taker's page shows of the swap at the time `now`.
pub open spec fn swap_sections(swap: SwapStateView, now: u64) -> Seq<SectionView> {
    match swap {
        SwapStateView::Idle => Seq::empty(),
        SwapStateView::Running { swap_id, since } => seq![
            SectionView::alert(
                AlertLevel::Warning,
                "Swap "@ + short(swap_id) + " is running, "@ + text::decimal(minutes(since, now))
                    + " minutes in. Its funds are committed on chain. Leave BTCPay running: stopping it now leaves contracts to recover from, which takes until their timelocks expire."@,
            ),
        ],
        SwapStateView::Failed { swap_id, why, committed } => seq![
            SectionView::alert(
                AlertLevel::Danger,
                "Swap "@ + short(swap_id) + " did not finish: "@ + why + " "@ + funds_text(
                    committed,
                ),
            ),
            SectionView::Actions(
                ActionsView {
                    title: None,
                    buttons: seq![ButtonView::plain("clear-swap"@, "Dismiss and start over"@)],
                },
            ),
        ],
        SwapStateView::Done(outcome) => seq![
            SectionView::alert(
                AlertLevel::Success,
                "Swap "@ + short(outcome.swap_id) + " finished as "@ + outcome.status + ", in "@
                    + outcome.duration_secs + " seconds."@,
            ),
            SectionView::Stats(outcome_cards(outcome)),
            SectionView::Actions(
                ActionsView {
                    title: None,
                    buttons: seq![ButtonView::plain("clear-swap"@, "Clear and start over"@)],
                },
            ),
        ],
    }
}

/// The headline numbers of a finished swap.
pub open spec fn outcome_cards(outcome: SwapOutcomeView) -> Seq<CardView> {
    seq![
        CardView::plain("Sent"@, text::sats_text(outcome.sent_sat)),
        CardView::plain("Received"@, text::sats_text(outcome.received_sat)),
        CardView::plain("Maker fees"@, text::sats_text(outcome.maker_fees_sat)),
        CardView::plain("Mining fee"@, text::sats_text(outcome.mining_fee_sat)),
    ]
}

/// One ordinary button without a heading.
fn lone_button(command: &str, label: &str) -> (result: Actions)
    ensures
        blocks::actions_view(result) == (ActionsView {
            title: None,
            buttons: seq![ButtonView::plain(command@, label@)],
        }),
{
    let actions = actions_button(actions_new(), button_new(command, label));
    assert(blocks::actions_view(actions).buttons =~= seq![ButtonView::plain(command@, label@)]);
    actions
}

fn add_swap(page: Document, swap: &SwapState, now: u64) -> (result: Document)
    ensures
        blocks::document_view(result) == blocks::document_view(page).plus(
            swap_sections(swap@, now),
        ),
{
    let ghost before = blocks::document_view(page);
    let page = match swap {
        SwapState::Idle => page,
        SwapState::Running { swap_id, since } => {
            let elapsed: u64 = now.saturating_sub(*since) / MINUTE;
            let message = "Swap ".to_string().concat(
                shorten(swap_id.as_str(), SHORT_ID).as_str(),
            ).concat(" is running, ").concat(decimal_text(elapsed).as_str()).concat(
                " minutes in. Its funds are committed on chain. Leave BTCPay running: stopping it now leaves contracts to recover from, which takes until their timelocks expire.",
            );
            document_alert(page, AlertLevel::Warning, message.as_str())
        },
        SwapState::Failed { swap_id, why, committed } => {
            let funds = match committed {
                Some(false) => "Nothing left the wallet, so there is nothing to recover and a new quote can be requested.",
                Some(true) => "Funds left the wallet and are held in contracts until their timelocks expire. This page shows while their recovery is pending.",
                None => "Whether funds left the wallet could not be checked. The balance on this page shows it once the wallet has synced.",
            };
            let message = "Swap ".to_string().concat(
                shorten(swap_id.as_str(), SHORT_ID).as_str(),
            ).concat(" did not finish: ").concat(why.as_str()).concat(" ").concat(funds);
            document_actions(
                document_alert(page, AlertLevel::Danger, message.as_str()),
                lone_button("clear-swap", "Dismiss and start over"),
            )
        },
        SwapState::Done(outcome) => {
            let message = "Swap ".to_string().concat(
                shorten(outcome.swap_id.as_str(), SHORT_ID).as_str(),
            ).concat(" finished as ").concat(outcome.status.as_str()).concat(", in ").concat(
                outcome.duration_secs.as_str(),
            ).concat(" seconds.");
            document_actions(
                document_stats(
                    document_alert(page, AlertLevel::Success, message.as_str()),
                    outcome_stats(outcome),
                ),
                lone_button("clear-swap", "Clear and start over"),
            )
        },
    };
    assert(blocks::document_view(page).sections =~= before.plus(
        swap_sections(swap@, now),
    ).sections);
    page
}

fn outcome_stats(outcome: &SwapOutcome) -> (result: Stats)
    ensures
        blocks::stats_view(result) == outcome_cards(outcome@),
{
    let mut stats = stats_card(stats_new(), "Sent", sats(outcome.sent_sat).as_str());
    stats = stats_card(stats, "Received", sats(outcome.received_sat).as_str());
    stats = stats_card(stats, "Maker fees", sats(outcome.maker_fees_sat).as_str());
    stats = stats_card(stats, "Mining fee", sats(outcome.mining_fee_sat).as_str());
    assert(blocks::stats_view(stats) =~= outcome_cards(outcome@));
    stats
}

/// The headline numbers of a quote.
pub open spec fn quote_cards(quote: QuoteView) -> Seq<CardView> {
    seq![
        CardView::plain("Swap"@, short(quote.swap_id)),
        CardView::plain("Sending"@, text::sats_text(quote.send_sat)),
        CardView::plain("Fees"@, text::sats_text(quote.total_fee_sat)),
        CardView::plain("You receive"@, text::sats_text(quote.receive_sat)).detailed(
            "After every hop's fee."@,
        ),
    ]
}

/// The row of the hop at position `at`, counted from zero.
pub open spec fn hop_row(hop: QuoteHopView, at: int) -> Seq<Seq<char>> {
    seq![
        text::decimal((at + 1) as nat),
        hop.address,
        text::decimal(hop.locktime as nat),
        text::sats_text(hop.fee_sat),
    ]
}

/// The route of a quote.
pub open spec fn route(hops: Seq<QuoteHopView>) -> TableView {
    TableView {
        title: Some("Route"@),
        columns: seq!["Hop"@, "Maker"@, "Locktime (blocks)"@, "Fee"@],
        rows: Seq::new(hops.len(), |i: int| hop_row(hops[i], i)),
        empty_message: None,
    }
}

/// What can be done with a quote.
pub open spec fn quote_buttons(quote: QuoteView) -> Seq<ButtonView> {
    seq![
        ButtonView::plain("accept-quote"@, "Accept and swap"@).primary().confirmed(
            "This commits "@ + text::sats_text(quote.send_sat) + " on chain across "@
                + text::decimal(quote.hops.len()) + " hop(s) and pays "@ + text::sats_text(
                quote.total_fee_sat,
            )
                + " in fees. Once it starts, stopping BTCPay leaves contracts to recover from, which takes until their timelocks expire. Continue?"@,
        ),
        ButtonView::plain("discard-quote"@, "Discard and start over"@),
    ]
}

/// What the taker's page shows of the quote.
pub open spec fn quote_sections(quote: QuoteStateView) -> Seq<SectionView> {
    match quote {
        QuoteStateView::Idle => Seq::empty(),
        QuoteStateView::Preparing => seq![
            SectionView::alert(
                AlertLevel::Info,
                "Preparing a quote. This asks makers over Tor and waits on discovery, so it takes a while. Reload to see it."@,
            ),
        ],
        QuoteStateView::Failed(why) => seq![
            SectionView::alert(AlertLevel::Danger, "No quote: "@ + why),
        ],
        QuoteStateView::Ready(quote) => seq![
            SectionView::alert(
                AlertLevel::Success,
                "Quote ready. Sending "@ + text::sats_text(quote.send_sat) + " costs "@
                    + text::sats_text(quote.total_fee_sat) + " in fees and delivers "@
                    + text::sats_text(quote.receive_sat)
                    + ". Nothing has been committed yet."@,
            ),
            SectionView::Stats(quote_cards(quote)),
            SectionView::Table(route(quote.hops)),
            SectionView::Actions(
                ActionsView { title: Some("This quote"@), buttons: quote_buttons(quote) },
            ),
        ],
    }
}

fn quote_stats(quote: &Quote) -> (result: Stats)
    ensures
        blocks::stats_view(result) == quote_cards(quote@),
{
    let mut stats = stats_card(
        stats_new(),
        "Swap",
        shorten(quote.swap_id.as_str(), SHORT_ID).as_str(),
    );
    stats = stats_card(stats, "Sending", sats(quote.send_sat).as_str());
    stats = stats_card(stats, "Fees", sats(quote.total_fee_sat).as_str());
    stats = stats_card(stats, "You receive", sats(quote.receive_sat).as_str());
    stats = stats_detail(stats, "After every hop's fee.");
    assert(blocks::stats_view(stats) =~= quote_cards(quote@));
    stats
}

fn route_table(quote: &Quote) -> (result: Table)
    ensures
        blocks::table_view(result) == route(quote@.hops),
{
    let ghost hops = quote@.hops;
    let mut table = table_title(
        table_new(
            four_cells(
                "Hop".to_string(),
                "Maker".to_string(),
                "Locktime (blocks)".to_string(),
                "Fee".to_string(),
            ),
        ),
        "Route",
    );
    let ghost empty = blocks::table_view(table);
    let mut at: usize = 0;
    while at < quote.hops.len()
        invariant
            at <= quote.hops@.len(),
            hops == quote@.hops,
            blocks::table_view(table).rows.len() == at,
            forall|i: int|
                0 <= i < at ==> #[trigger] blocks::table_view(table).rows[i] == hop_row(
                    hops[i],
                    i,
                ),
            blocks::table_view(table) == (TableView {
                rows: blocks::table_view(table).rows,
                ..empty
            }),
        decreases quote.hops@.len() - at,
    {
        let hop = &quote.hops[at];
        assert(hop@ == hops[at as int]);
        table = table_row(
            table,
            four_cells(
                decimal_text(at as u64 + 1),
                hop.address.clone(),
                decimal_text(hop.locktime as u64),
                sats(hop.fee_sat),
            ),
        );
        at = at + 1;
    }
    assert(blocks::table_view(table).rows =~= route(hops).rows);
    table
}

fn quote_actions(quote: &Quote) -> (result: Actions)
    ensures
        blocks::actions_view(result) == (ActionsView {
            title: Some("This quote"@),
            buttons: quote_buttons(quote@),
        }),
{
    let question = "This commits ".to_string().concat(sats(quote.send_sat).as_str()).concat(
        " on chain across ",
    ).concat(decimal_text(quote.hops.len() as u64).as_str()).concat(" hop(s) and pays ").concat(
        sats(quote.total_fee_sat).as_str(),
    ).concat(
        " in fees. Once it starts, stopping BTCPay leaves contracts to recover from, which takes until their timelocks expire. Continue?",
    );
    let mut actions = actions_title(actions_new(), "This quote");
    actions = actions_button(
        actions,
        button_confirm(
            button_primary(button_new("accept-quote", "Accept and swap")),
            question.as_str(),
        ),
    );
    actions = actions_button(actions, button_new("discard-quote", "Discard and start over"));
    assert(blocks::actions_view(actions).buttons =~= quote_buttons(quote@));
    actions
}

fn add_quote(page: Document, quote: &QuoteState) -> (result: Document)
    ensures
        blocks::document_view(result) == blocks::document_view(page).plus(quote_sections(quote@)),
{
    let ghost before = blocks::document_view(page);
    let page = match quote {
        QuoteState::Idle => page,
        QuoteState::Preparing => document_alert(
            page,
            AlertLevel::Info,
            "Preparing a quote. This asks makers over Tor and waits on discovery, so it takes a while. Reload to see it.",
        ),
        QuoteState::Failed(why) => {
            let message = "No quote: ".to_string().concat(why.as_str());
            document_alert(page, AlertLevel::Danger, message.as_str())
        },
        QuoteState::Ready(quote) => {
            let message = "Quote ready. Sending ".to_string().concat(
                sats(quote.send_sat).as_str(),
            ).concat(" costs ").concat(sats(quote.total_fee_sat).as_str()).concat(
                " in fees and delivers ",
            ).concat(sats(quote.receive_sat).as_str()).concat(
                ". Nothing has been committed yet.",
            );
            document_actions(
                document_table(
                    document_stats(
                        document_alert(page, AlertLevel::Success, message.as_str()),
                        quote_stats(quote),
                    ),
                    route_table(quote),
                ),
                quote_actions(quote),
            )
        },
    };
    assert(blocks::document_view(page).sections =~= before.plus(
        quote_sections(quote@),
    ).sections);
    page
}

/// A required number from one to `max`, still to be entered.
pub open spec fn number_field(
    id: Seq<char>,
    label: Seq<char>,
    max: i64,
    help: Option<Seq<char>>,
) -> FieldView {
    FieldView {
        id,
        label,
        help,
        required: true,
        value: None,
        kind: FieldKindView::Number { min: Some(1), max: Some(max) },
    }
}

/// The form that asks for a quote.
pub open spec fn quote_form() -> FormView {
    FormView {
        id: "quote"@,
        title: Some("Request a swap quote"@),
        fields: seq![
            number_field("sats"@, "Amount to swap (sats)"@, i64::MAX, None),
            number_field(
                "makers"@,
                "Makers in the route"@,
                10,
                Some("More hops cost more and gain more privacy."@),
            ),
        ],
        submit_label: "Get a quote"@,
    }
}

/// The form that asks for a withdrawal.
pub open spec fn withdraw_form() -> FormView {
    FormView {
        id: "withdraw"@,
        title: Some("Withdraw"@),
        fields: seq![
            FieldView {
                id: "address"@,
                label: "Destination address"@,
                help: Some(
                    "Checked against this wallet's network before anything is signed."@,
                ),
                required: true,
                value: None,
                kind: FieldKindView::Text,
            },
            number_field("sats"@, "Amount (sats)"@, i64::MAX, None),
        ],
        submit_label: "Withdraw"@,
    }
}

/// What the taker's page offers while the wallet is open and no swap holds it: anything that
/// needs the taker would fail on its lock otherwise.
pub open spec fn wallet_sections(offered: bool) -> Seq<SectionView> {
    if offered {
        seq![
            SectionView::Actions(
                ActionsView {
                    title: Some("Funding"@),
                    buttons: seq![
                        ButtonView::plain("taker-address"@, "Show a funding address"@).primary(),
                    ],
                },
            ),
            SectionView::Form(quote_form()),
            SectionView::Form(withdraw_form()),
        ]
    } else {
        Seq::empty()
    }
}

fn new_quote_form() -> (result: Form)
    ensures
        blocks::form_view(result) == quote_form(),
{
    let mut form = form_title(form_new("quote"), "Request a swap quote");
    form = form_number(form, "sats", "Amount to swap (sats)");
    form = form_required(form);
    form = form_range(form, 1, i64::MAX);
    form = form_number(form, "makers", "Makers in the route");
    form = form_required(form);
    form = form_range(form, 1, 10);
    form = form_help(form, "More hops cost more and gain more privacy.");
    form = form_submit_label(form, "Get a quote");
    assert(blocks::form_view(form).fields =~= quote_form().fields);
    form
}

fn new_withdraw_form() -> (result: Form)
    ensures
        blocks::form_view(result) == withdraw_form(),
{
    let mut form = form_title(form_new("withdraw"), "Withdraw");
    form = form_text(form, "address", "Destination address");
    form = form_required(form);
    form = form_help(form, "Checked against this wallet's network before anything is signed.");
    form = form_number(form, "sats", "Amount (sats)");
    form = form_required(form);
    form = form_range(form, 1, i64::MAX);
    form = form_submit_label(form, "Withdraw");
    assert(blocks::form_view(form).fields =~= withdraw_form().fields);
    form
}

fn add_wallet(page: Document) -> (result: Document)
    ensures
        blocks::document_view(result) == blocks::document_view(page).plus(wallet_sections(true)),
{
    let ghost before = blocks::document_view(page);
    let actions = actions_button(
        actions_title(actions_new(), "Funding"),
        button_primary(button_new("taker-address", "Show a funding address")),
    );
    assert(blocks::actions_view(actions).buttons =~= seq![
        ButtonView::plain("taker-address"@, "Show a funding address"@).primary(),
    ]);
    // Forms, not commands: a button carries neither address nor amount. A quote is a question,
    // not a spend, so nothing is confirmed here.
    let page = document_form(
        document_form(document_actions(page, actions), new_quote_form()),
        new_withdraw_form(),
    );
    assert(blocks::document_view(page).sections =~= before.plus(wallet_sections(true)).sections);
    page
}

/// The taker's page.
pub open spec fn taker_page_view(
    settings: Settings,
    status: taker::StatusView,
    phrase: Option<Seq<char>>,
    swap: SwapStateView,
    quote: QuoteStateView,
    wallet_open: bool,
    now: u64,
) -> DocumentView {
    DocumentView::titled("Coinswap taker"@).plus(taker_phrase(phrase)).with(
        taker_banner(status.phase, settings),
    ).plus(recovery_notice(status.recovery_complete)).with(
        SectionView::Stats(taker_cards(status)),
    ).plus(swap_sections(swap, now)).plus(quote_sections(quote)).plus(
        wallet_sections(wallet_open && !(swap is Running)),
    )
}

/// Builds the taker wallet page. `phrase` is a new wallet's recovery phrase, and `now` is in
/// nanoseconds of the clock that the swap was started by.
pub fn taker_page(
    settings: &Settings,
    status: &taker::Status,
    phrase: Option<String>,
    swap: &SwapState,
    quote: &QuoteState,
    wallet_open: bool,
    now: u64,
) -> (result: Document)
    ensures
        blocks::document_view(result) == taker_page_view(
            *settings,
            status@,
            text::optional(phrase),
            swap@,
            quote@,
            wallet_open,
            now,
        ),
{
    let mut page = document_new("Coinswap taker");
    let ghost titled = DocumentView::titled("Coinswap taker"@);
    if let Some(words) = &phrase {
        page = document_alert(
            page,
            AlertLevel::Warning,
            "A new taker wallet was created. Write down the recovery phrase below now. It is shown once and stored nowhere this page can read again. This is the taker's wallet, a different wallet from the maker's, with its own phrase.",
        );
        page = document_text(page, words.as_str());
    }
    assert(blocks::document_view(page).sections =~= titled.plus(
        taker_phrase(text::optional(phrase)),
    ).sections);
    page = add_taker_banner(page, &status.phase, settings);
    let ghost before = blocks::document_view(page);
    if let Some(false) = status.recovery_complete {
        page = document_alert(
            page,
            AlertLevel::Warning,
            "A previous swap is still being recovered, so its funds are in contracts until their timelocks expire. openswap does this itself and needs nothing from you; a new swap is refused until it finishes, because starting one now would commit funds on top of funds already committed.",
        );
    }
    assert(blocks::document_view(page).sections =~= before.plus(
        recovery_notice(status.recovery_complete),
    ).sections);
    page = document_stats(page, taker_stats(status));
    page = add_swap(page, swap, now);
    // The quote, above the wallet: it is what the operator is waiting on.
    page = add_quote(page, quote);
    if wallet_open && !matches!(swap, SwapState::Running { .. }) {
        add_wallet(page)
    } else {
        assert(blocks::document_view(page).sections =~= blocks::document_view(page).plus(
            wallet_sections(false),
        ).sections);
        page
    }
}

/// The page that holds the settings form.
pub open spec fn settings_page_view(form: FormView) -> DocumentView {
    DocumentView::titled("Coinswap maker"@).with(
        SectionView::alert(
            AlertLevel::Info,
            "Saving restarts the maker. A swap in progress at that moment falls back to its timelocked refund path, so prefer to save while idle."@,
        ),
    ).with(SectionView::Form(FormView { submit_label: "Save and restart"@, ..form }))
}

/// Builds the page that holds the settings form.
pub fn settings_page(form: Form) -> (result: Document)
    ensures
        blocks::document_view(result) == settings_page_view(blocks::form_view(form)),
{
    document_form(
        document_alert(
            document_new("Coinswap maker"),
            AlertLevel::Info,
            "Saving restarts the maker. A swap in progress at that moment falls back to its timelocked refund path, so prefer to save while idle.",
        ),
        form_submit_label(form, "Save and restart"),
    )
}

/// A button of the dashboard is one of four, and each is there only when it can work: stopping
/// and draining need a live maker, starting an enabled one that is not, an address an open
/// wallet. In particular there is never one for a fidelity bond. Those that interrupt swaps ask
/// first.
pub proof fn buttons_fit_what_the_maker_is_doing(
    status: maker::StatusView,
    settings: Settings,
    wallet_open: bool,
    button: ButtonView,
)
    requires
        command_buttons(status, settings, wallet_open).contains(button),
    ensures
        button.command == "stop"@ || button.command == "drain"@ || button.command == "start"@
            || button.command == "address"@,
        button.command == "stop"@ || button.command == "drain"@ ==> status.phase.live()
            && button.confirm is Some,
        button.command == "start"@ ==> !status.phase.live() && settings.enabled,
        button.command == "address"@ ==> wallet_open,
{
    reveal_strlit("stop");
    reveal_strlit("drain");
    reveal_strlit("start");
    reveal_strlit("address");
    assert("stop"@[2] == 'o' && "start"@[2] == 'a');
    assert("stop"@.len() == 4 && "drain"@.len() == 5 && "start"@.len() == 5 && "address"@.len()
        == 7);
    assert("drain"@[0] == 'd' && "start"@[0] == 's');
}

/// An address is offered whenever the wallet is open, whatever became of the maker: it cannot
/// start without a funded wallet.
pub proof fn an_open_wallet_can_be_funded(status: maker::StatusView, settings: Settings)
    ensures
        command_buttons(status, settings, true).contains(
            ButtonView::plain("address"@, "Show a funding address"@),
        ),
{
    let buttons = command_buttons(status, settings, true);
    assert(buttons.last() == ButtonView::plain("address"@, "Show a funding address"@));
}

/// A swap with funds at stake is warned about once, as recovering or as stalled, and each stalled
/// one has the button that dismisses it.
pub proof fn stalled_swaps_can_be_dismissed(
    swaps: Seq<SwapRecordView>,
    now: u64,
    swap: SwapRecordView,
)
    requires
        swaps.contains(swap),
    ensures
        at_stake(swaps, now, true).contains(swap) <==> swap.at_stake() && swap.stale(now),
        at_stake(swaps, now, false).contains(swap) <==> swap.at_stake() && !swap.stale(now),
        swap.at_stake() && swap.stale(now) ==> dismissals(swaps, now).len() == 1
            && dismissals(swaps, now)[0]->Actions_0.buttons.contains(dismiss_button(swap)),
{
    let stalled = |swap: SwapRecordView| swap.at_stake() && swap.stale(now) == true;
    let recovering = |swap: SwapRecordView| swap.at_stake() && swap.stale(now) == false;
    maker::lemma_kept(swaps, stalled, swap);
    maker::lemma_kept(swaps, recovering, swap);
    if swap.at_stake() && swap.stale(now) {
        let shown = at_stake(swaps, now, true);
        let at = choose|i: int| 0 <= i < shown.len() && shown[i] == swap;
        assert(dismissals(swaps, now)[0]->Actions_0.buttons[at] == dismiss_button(swap));
    }
}

/// Whether none of some blocks is a form.
pub open spec fn formless(sections: Seq<SectionView>) -> bool {
    forall|i: int| 0 <= i < sections.len() ==> !((#[trigger] sections[i]) is Form)
}

/// The forms that need the taker's wallet are on its page exactly while the wallet is open and no
/// swap holds it.
pub proof fn the_wallet_is_offered_while_it_is_free(
    settings: Settings,
    status: taker::StatusView,
    phrase: Option<Seq<char>>,
    swap: SwapStateView,
    quote: QuoteStateView,
    wallet_open: bool,
    now: u64,
)
    ensures
        ({
            let page = taker_page_view(settings, status, phrase, swap, quote, wallet_open, now);
            let offered = wallet_open && !(swap is Running);
            &&& offered == page.sections.contains(SectionView::Form(quote_form()))
            &&& offered == page.sections.contains(SectionView::Form(withdraw_form()))
            &&& !offered ==> formless(page.sections)
        }),
{
    let page = taker_page_view(settings, status, phrase, swap, quote, wallet_open, now);
    let before = DocumentView::titled("Coinswap taker"@).plus(taker_phrase(phrase)).with(
        taker_banner(status.phase, settings),
    ).plus(recovery_notice(status.recovery_complete)).with(
        SectionView::Stats(taker_cards(status)),
    ).plus(swap_sections(swap, now)).plus(quote_sections(quote)).sections;
    assert(formless(swap_sections(swap, now)));
    assert(formless(quote_sections(quote)));
    assert(formless(before));
    let wallet = wallet_sections(wallet_open && !(swap is Running));
    assert(page.sections == before + wallet);
    if wallet_open && !(swap is Running) {
        assert(page.sections[before.len() as int + 1] == wallet[1]);
        assert(page.sections[before.len() as int + 2] == wallet[2]);
    } else {
        assert(page.sections =~= before);
        if page.sections.contains(SectionView::Form(quote_form())) {
            let i = choose|i: int|
                0 <= i < before.len() && before[i] == SectionView::Form(quote_form());
            assert(!(before[i] is Form));
        }
        if page.sections.contains(SectionView::Form(withdraw_form())) {
            let i = choose|i: int|
                0 <= i < before.len() && before[i] == SectionView::Form(withdraw_form());
            assert(!(before[i] is Form));
        }
    }
}

/// A new wallet's recovery phrase comes first on its page, after the warning that it is shown
/// only once.
pub proof fn a_phrase_comes_first(
    settings: Settings,
    maker: maker::StatusView,
    taker: taker::StatusView,
    words: Seq<char>,
    swap: SwapStateView,
    quote: QuoteStateView,
    wallet_open: bool,
    now: u64,
)
    ensures
        ({
            let dashboard = dashboard_view(settings, maker, Some(words), wallet_open, now).sections;
            let page = taker_page_view(
                settings,
                taker,
                Some(words),
                swap,
                quote,
                wallet_open,
                now,
            ).sections;
            &&& dashboard[0] is Alert && dashboard[1] == SectionView::Text(words)
            &&& page[0] is Alert && page[1] == SectionView::Text(words)
        }),
{
}

/// The four phases have four names.
pub proof fn phases_are_told_apart(one: PhaseView, other: PhaseView)
    ensures
        phase_name(one) == phase_name(other) <==> {
            ||| one is Stopped && other is Stopped
            ||| one is Starting && other is Starting
            ||| one is Running && other is Running
            ||| one is Failed && other is Failed
        },
        one is Running ==> phase_name(one) == "Running"@,
        one is Stopped ==> phase_name(one) == "Stopped"@,
{
    reveal_strlit("Stopped");
    reveal_strlit("Starting");
    reveal_strlit("Running");
    reveal_strlit("Failed");
    assert("Stopped"@[0] == 'S' && "Running"@[0] == 'R');
    assert("Stopped"@.len() == 7 && "Running"@.len() == 7);
    assert("Starting"@.len() == 8 && "Failed"@.len() == 6);
}

/// The banner of the dashboard alarms exactly if the maker failed, and then gives the reason. It
/// says that all is well exactly if the maker is running with a bond, and asks for attention
/// exactly if the maker is running without one, or is stopped though it is meant to run.
pub proof fn the_banner_fits_the_maker(status: maker::StatusView, settings: Settings)
    ensures
        ({
            let (level, message) = banner(status, settings);
            &&& level is Danger <==> status.phase is Failed
            &&& level is Success <==> status.phase is Running && status.bonds.len() > 0
            &&& level is Warning <==> (status.phase is Running && status.bonds.len() == 0) || (
            status.phase is Stopped && settings.enabled)
            &&& level is Info <==> status.phase is Starting || (status.phase is Stopped
                && !settings.enabled)
            &&& status.phase matches PhaseView::Failed(reason) ==> text::mentions(message, reason)
        }),
{
    broadcast use {text::lemma_mentions_end, text::lemma_mentions_front};

}

/// The banner of the taker's page alarms exactly if the wallet did not open, and then gives the
/// reason, and asks for attention exactly if the taker is meant to be open and is not.
pub proof fn the_taker_banner_fits_the_taker(phase: PhaseView, settings: Settings)
    ensures
        taker_banner(phase, settings) is Alert,
        taker_banner(phase, settings)->level is Danger <==> phase is Failed,
        taker_banner(phase, settings)->level is Warning <==> phase is Stopped
            && settings.taker_enabled,
        taker_banner(phase, settings)->level is Info <==> phase is Starting || phase is Running || (
        phase is Stopped && !settings.taker_enabled),
        phase matches PhaseView::Failed(reason) ==> text::mentions(
            taker_banner(phase, settings)->Alert_text,
            reason,
        ),
{
    broadcast use {text::lemma_mentions_end, text::lemma_mentions_front};

}

/// Every button that can work is there: stopping and draining while the maker is live, starting
/// while it is enabled and not live, an address while the wallet is open. Stopping says so when a
/// swap is known to be in progress.
pub proof fn every_button_that_can_work_is_there(
    status: maker::StatusView,
    settings: Settings,
    wallet_open: bool,
)
    ensures
        ({
            let buttons = command_buttons(status, settings, wallet_open);
            let live = status.phase is Starting || status.phase is Running;
            &&& live ==> {
                &&& buttons[0].command == "stop"@ && buttons[0].style is Danger
                &&& buttons[0].confirm is Some
                &&& buttons[1].command == "drain"@ && buttons[1].confirm is Some
            }
            &&& !live && settings.enabled ==> buttons[0].command == "start"@
                && buttons[0].style is Primary && buttons[0].confirm is None
            &&& wallet_open ==> buttons.last().command == "address"@
            &&& buttons.len() == (if live {
                2int
            } else if settings.enabled {
                1
            } else {
                0
            }) + (if wallet_open {
                1int
            } else {
                0
            })
        }),
{
}

/// What stopping asks first depends on whether a swap is known to be in progress, and on nothing
/// else.
pub proof fn stopping_warns_of_a_swap_in_progress(
    one: maker::StatusView,
    other: maker::StatusView,
    settings: Settings,
    wallet_open: bool,
)
    requires
        one.phase.live(),
        other.phase.live(),
    ensures
        command_buttons(one, settings, wallet_open)[0].confirm == command_buttons(
            other,
            settings,
            wallet_open,
        )[0].confirm <==> (one.ongoing_swaps == Some(true)) == (other.ongoing_swaps == Some(true)),
{
    reveal_strlit(
        "A swap is in progress. Stopping now risks it timing out and falling back to a timelocked refund. Stop anyway?",
    );
    reveal_strlit("Stop the maker? Takers will no longer be able to reach it.");
    assert("A swap is in progress. Stopping now risks it timing out and falling back to a timelocked refund. Stop anyway?"@[0]
        == 'A');
    assert("Stop the maker? Takers will no longer be able to reach it."@[0] == 'S');
}

/// The swaps of a warning are taken one by one: those with funds at stake, stalled ones being those
/// unchanged for over a day. What they amount to is the sum of their amounts.
pub proof fn swaps_are_added_up_one_by_one(
    some: Seq<SwapRecordView>,
    swap: SwapRecordView,
    now: u64,
    stalled: bool,
)
    ensures
        at_stake(Seq::empty(), now, stalled).len() == 0,
        at_stake(some.push(swap), now, stalled) == if swap.at_stake() && stalled == (now
            > swap.updated_at + 86_400) {
            at_stake(some, now, stalled).push(swap)
        } else {
            at_stake(some, now, stalled)
        },
        total(Seq::empty()) == 0,
        total(some.push(swap)) == total(some) + swap.amount_sat,
{
    reveal(Seq::filter);
    assert(some.push(swap).drop_last() =~= some);
}

/// There is a warning for the swaps that are recovering, exactly if there are any, and one for
/// those that are stalled, exactly if there are any. Each says how many there are and what they
/// amount to.
pub proof fn swaps_at_stake_are_warned_about(swaps: Seq<SwapRecordView>, now: u64)
    requires
        amounts_fit(swaps, now),
    ensures
        ({
            let recovering = at_stake(swaps, now, false);
            let stalled = at_stake(swaps, now, true);
            let warnings = swap_warnings(swaps, now);
            &&& warnings.len() == (if recovering.len() > 0 {
                1int
            } else {
                0
            }) + (if stalled.len() > 0 {
                1int
            } else {
                0
            })
            &&& recovering.len() > 0 ==> says(
                warnings[0],
                text::decimal(recovering.len()),
                text::sats_text(total(recovering) as u64),
            )
            &&& stalled.len() > 0 ==> says(
                warnings.last(),
                text::decimal(stalled.len()),
                text::sats_text(total(stalled) as u64),
            )
        }),
{
    broadcast use {text::lemma_mentions_end, text::lemma_mentions_front};

    text::lemma_mentions_itself(text::decimal(at_stake(swaps, now, false).len()));
    text::lemma_mentions_itself(text::decimal(at_stake(swaps, now, true).len()));
}

/// Whether a block is a warning that mentions a count and an amount.
pub open spec fn says(section: SectionView, count: Seq<char>, amount: Seq<char>) -> bool {
    &&& section matches SectionView::Alert { level, text: message }
    &&& level is Warning
    &&& text::mentions(message, count)
    &&& text::mentions(message, amount)
}

/// The headline numbers of the dashboard are the maker's: its phase, its chain and its port, its
/// balances where they were read, and whether a swap is in progress where that is known.
pub proof fn the_dashboard_shows_the_makers_numbers(status: maker::StatusView, settings: Settings)
    ensures
        ({
            let cards = maker_cards(status, settings);
            let busy: int = if status.wallet_busy {
                1
            } else {
                0
            };
            &&& cards[0].label == "Status"@ && cards[0].value == phase_name(status.phase)
            &&& cards[1].label == "Network"@ && cards[1].value == settings.chain.named()
            &&& cards[2].label == "Port"@
            &&& status.port matches Some(port) ==> cards[2].value == text::decimal(port as nat)
            &&& status.port is None ==> cards[2].value == "-"@
            &&& status.wallet_busy ==> cards[3].label == "Balances"@ && cards[3].value == "Busy"@
            &&& status.balances matches Some(balances) ==> {
                &&& cards[3 + busy].label == "Spendable"@ && cards[3 + busy].value
                    == text::sats_text(balances.spendable)
                &&& cards[4 + busy].label == "In swaps"@ && cards[4 + busy].value
                    == text::sats_text(balances.swap)
                &&& cards[5 + busy].label == "In bonds"@ && cards[5 + busy].value
                    == text::sats_text(balances.fidelity)
                &&& cards[6 + busy].label == "In contracts"@ && cards[6 + busy].value
                    == text::sats_text(balances.contract)
            }
            &&& cards.len() == 4 + busy + (if status.balances is Some {
                4int
            } else {
                0
            })
            &&& cards.last().label == "Swap in progress"@
            &&& status.ongoing_swaps == Some(true) <==> cards.last().value == "Yes"@
            &&& status.ongoing_swaps == Some(false) <==> cards.last().value == "No"@
            &&& status.ongoing_swaps is None <==> cards.last().value == "Unknown"@
        }),
{
    reveal_strlit("Yes");
    reveal_strlit("No");
    reveal_strlit("Unknown");
    assert("Yes"@.len() == 3 && "No"@.len() == 2 && "Unknown"@.len() == 7);
}

/// The table of unfinished swaps is there exactly if there is one, with a row for each in order: its
/// identifier, amount, phase, recovery, and whether it reached the chain.
pub proof fn every_unfinished_swap_has_a_row(swaps: Seq<SwapRecordView>, at: int)
    ensures
        swap_table(swaps).len() == if swaps.len() > 0 {
            1int
        } else {
            0
        },
        0 <= at < swaps.len() ==> {
            let table = swap_table(swaps)[0]->Table_0;
            &&& swap_table(swaps)[0] is Table
            &&& table.rows.len() == swaps.len()
            &&& table.rows[at].len() == table.columns.len()
            &&& table.rows[at][0] == swaps[at].id
            &&& table.rows[at][1] == text::sats_text(swaps[at].amount_sat)
            &&& table.rows[at][2] == swaps[at].phase
            &&& table.rows[at][3] == swaps[at].recovery
            &&& swaps[at].funded <==> table.rows[at][4] == "yes"@
            &&& !swaps[at].funded <==> table.rows[at][4] == "no"@
        },
{
    reveal_strlit("yes");
    reveal_strlit("no");
    assert("yes"@.len() == 3 && "no"@.len() == 2);
}

/// The table of bonds has a row for each in order, with its amount and what it is locked until, and
/// says so when there is none.
pub proof fn every_bond_has_a_row(bonds: Seq<(u64, Seq<char>)>, at: int)
    ensures
        bond_table(bonds) is Table,
        bond_table(bonds)->Table_0.rows.len() == bonds.len(),
        bond_table(bonds)->Table_0.empty_message is Some,
        0 <= at < bonds.len() ==> {
            let row = bond_table(bonds)->Table_0.rows[at];
            &&& row.len() == 2
            &&& row[0] == text::sats_text(bonds[at].0)
            &&& row[1] == bonds[at].1
        },
{
}

/// The button that dismisses a swap names it, by its key in the command, so that no two keys have
/// the same button, and asks first.
pub proof fn a_dismissal_names_its_swap(one: SwapRecordView, other: SwapRecordView)
    ensures
        text::after_prefix(dismiss_button(one).command, "dismiss-swap:"@) == Some(one.tracker_key),
        dismiss_button(one).command == dismiss_button(other).command ==> one.tracker_key
            == other.tracker_key,
        text::mentions(dismiss_button(one).label, one.id),
        dismiss_button(one).confirm is Some && text::mentions(
            dismiss_button(one).confirm->Some_0,
            one.id,
        ),
        dismiss_button(one).style is Danger,
{
    broadcast use {text::lemma_mentions_end, text::lemma_mentions_front};

    let prefix = "dismiss-swap:"@;
    text::removing_a_prefix_undoes_adding_it(
        dismiss_button(one).command,
        prefix,
        one.tracker_key,
    );
    text::removing_a_prefix_undoes_adding_it(
        dismiss_button(other).command,
        prefix,
        other.tracker_key,
    );
}

/// The dashboard is made of the phrase, the banner, the headline numbers, the warnings, the swaps,
/// their dismissals, the bonds, a notice while the wallet is busy, and the buttons, in that order
/// and with nothing else.
pub proof fn what_the_dashboard_is_made_of(
    settings: Settings,
    status: maker::StatusView,
    phrase: Option<Seq<char>>,
    wallet_open: bool,
    now: u64,
)
    ensures
        ({
            let page = dashboard_view(settings, status, phrase, wallet_open, now);
            let phrased = maker_phrase(phrase).len() as int;
            let swaps = swap_warnings(status.swaps, now) + swap_table(status.swaps) + dismissals(
                status.swaps,
                now,
            );
            let bonds = phrased + 2 + swaps.len();
            &&& page.title == "Coinswap maker"@
            &&& phrase is Some <==> phrased == 2
            &&& phrase is None <==> phrased == 0
            &&& page.sections.subrange(0, phrased) == maker_phrase(phrase)
            &&& page.sections[phrased] == SectionView::alert(
                banner(status, settings).0,
                banner(status, settings).1,
            )
            &&& page.sections[phrased + 1] == SectionView::Stats(maker_cards(status, settings))
            &&& page.sections.subrange(phrased + 2, bonds) == swaps
            &&& page.sections[bonds] == bond_table(status.bonds)
            &&& page.sections.len() == bonds + 2 + (if status.wallet_busy {
                1int
            } else {
                0
            })
            &&& status.wallet_busy ==> page.sections[bonds + 1] is Alert
            &&& page.sections.last() is Actions
            &&& page.sections.last()->Actions_0.buttons == command_buttons(
                status,
                settings,
                wallet_open,
            )
        }),
{
    let page = dashboard_view(settings, status, phrase, wallet_open, now);
    let phrased = maker_phrase(phrase).len() as int;
    let swaps = swap_warnings(status.swaps, now) + swap_table(status.swaps) + dismissals(
        status.swaps,
        now,
    );
    assert(page.sections.subrange(0, phrased) =~= maker_phrase(phrase));
    assert(page.sections.subrange(phrased + 2, phrased + 2 + swaps.len()) =~= swaps);
}

/// The warning about a swap still being recovered is there exactly if recovery is known not to be
/// complete.
pub proof fn a_pending_recovery_is_shown(recovery_complete: Option<bool>)
    ensures
        recovery_notice(recovery_complete).len() == if recovery_complete == Some(false) {
            1int
        } else {
            0
        },
        recovery_complete == Some(false) ==> recovery_notice(recovery_complete)[0] is Alert
            && recovery_notice(recovery_complete)[0]->level is Warning,
{
}

/// The headline numbers of the taker's page are the taker's: its phase, and its balances where they
/// were read.
pub proof fn the_taker_page_shows_the_takers_numbers(status: taker::StatusView)
    ensures
        ({
            let cards = taker_cards(status);
            let busy: int = if status.wallet_busy {
                1
            } else {
                0
            };
            &&& cards[0].label == "Status"@ && cards[0].value == phase_name(status.phase)
            &&& status.wallet_busy ==> cards[1].label == "Balances"@ && cards[1].value == "Busy"@
            &&& status.balances matches Some(balances) ==> {
                &&& cards[1 + busy].label == "Spendable"@ && cards[1 + busy].value
                    == text::sats_text(balances.spendable)
                &&& cards[2 + busy].label == "In swaps"@ && cards[2 + busy].value
                    == text::sats_text(balances.swap)
                &&& cards[3 + busy].label == "In contracts"@ && cards[3 + busy].value
                    == text::sats_text(balances.contract)
            }
            &&& cards.len() == 1 + busy + (if status.balances is Some {
                3int
            } else {
                0
            })
        }),
{
}

/// The minutes shown are those that have passed whole.
pub proof fn whole_minutes_are_shown(since: u64, now: u64)
    ensures
        now >= since ==> minutes(since, now) * 60_000_000_000 <= now - since < (minutes(since, now)
            + 1) * 60_000_000_000,
        now < since ==> minutes(since, now) == 0,
{
}

/// A running swap is shown as one, with the start of its identifier and the minutes it has taken. A
/// failed one is shown with its reason and what became of its funds, a finished one with its
/// amounts, and both can be cleared. Without a swap nothing is shown.
pub proof fn the_swap_is_shown_as_it_is(swap: SwapStateView, now: u64)
    ensures
        ({
            let sections = swap_sections(swap, now);
            &&& swap is Idle <==> sections.len() == 0
            &&& swap matches SwapStateView::Running { swap_id, since } ==> {
                &&& sections.len() == 1 && sections[0] is Alert && sections[0]->level is Warning
                &&& text::mentions(sections[0]->Alert_text, text::shortened(swap_id, 16))
                &&& text::mentions(sections[0]->Alert_text, text::decimal(minutes(since, now)))
            }
            &&& swap matches SwapStateView::Failed { swap_id, why, committed } ==> {
                &&& sections.len() == 2 && sections[0] is Alert && sections[0]->level is Danger
                &&& text::mentions(sections[0]->Alert_text, text::shortened(swap_id, 16))
                &&& text::mentions(sections[0]->Alert_text, why)
                &&& text::mentions(sections[0]->Alert_text, funds_text(committed))
                &&& clears(sections[1])
            }
            &&& swap matches SwapStateView::Done(outcome) ==> {
                &&& sections.len() == 3 && sections[0] is Alert && sections[0]->level is Success
                &&& text::mentions(sections[0]->Alert_text, text::shortened(outcome.swap_id, 16))
                &&& text::mentions(sections[0]->Alert_text, outcome.status)
                &&& text::mentions(sections[0]->Alert_text, outcome.duration_secs)
                &&& sections[1] is Stats
                &&& values(sections[1]->Stats_0) == seq![
                    text::sats_text(outcome.sent_sat),
                    text::sats_text(outcome.received_sat),
                    text::sats_text(outcome.maker_fees_sat),
                    text::sats_text(outcome.mining_fee_sat),
                ]
                &&& labels(sections[1]->Stats_0) == seq![
                    "Sent"@,
                    "Received"@,
                    "Maker fees"@,
                    "Mining fee"@,
                ]
                &&& clears(sections[2])
            }
        }),
{
    broadcast use {text::lemma_mentions_end, text::lemma_mentions_front};

    if let SwapStateView::Done(outcome) = swap {
        let cards = swap_sections(swap, now)[1]->Stats_0;
        assert(values(cards) =~= seq![
            text::sats_text(outcome.sent_sat),
            text::sats_text(outcome.received_sat),
            text::sats_text(outcome.maker_fees_sat),
            text::sats_text(outcome.mining_fee_sat),
        ]);
        assert(labels(cards) =~= seq!["Sent"@, "Received"@, "Maker fees"@, "Mining fee"@]);
    }
}

/// Whether a block is the one button that clears a swap.
pub open spec fn clears(section: SectionView) -> bool {
    &&& section is Actions
    &&& section->Actions_0.buttons.len() == 1
    &&& section->Actions_0.buttons[0].command == "clear-swap"@
    &&& section->Actions_0.buttons[0].confirm is None
}

/// The values of some headline numbers.
pub open spec fn values(cards: Seq<CardView>) -> Seq<Seq<char>> {
    cards.map_values(|card: CardView| card.value)
}

/// The labels of some headline numbers.
pub open spec fn labels(cards: Seq<CardView>) -> Seq<Seq<char>> {
    cards.map_values(|card: CardView| card.label)
}

/// The operator is told three different things of the funds of a failed swap.
pub proof fn what_became_of_the_funds_is_told_apart(one: Option<bool>, other: Option<bool>)
    ensures
        funds_text(one) == funds_text(other) ==> one == other,
{
    reveal_strlit(
        "Nothing left the wallet, so there is nothing to recover and a new quote can be requested.",
    );
    reveal_strlit(
        "Funds left the wallet and are held in contracts until their timelocks expire. This page shows while their recovery is pending.",
    );
    reveal_strlit(
        "Whether funds left the wallet could not be checked. The balance on this page shows it once the wallet has synced.",
    );
    assert(funds_text(Some(false))[0] == 'N');
    assert(funds_text(Some(true))[0] == 'F');
    assert(funds_text(None)[0] == 'W');
}

/// A quote that is ready is shown with what it sends, costs and delivers, its route hop by hop, and
/// the buttons that accept it, which asks first and says what is committed, and discard it.
pub proof fn a_ready_quote_is_shown_as_it_is(quote: QuoteView, at: int)
    ensures
        ({
            let sections = quote_sections(QuoteStateView::Ready(quote));
            &&& sections.len() == 4
            &&& sections[0] is Alert && sections[0]->level is Success
            &&& text::mentions(sections[0]->Alert_text, text::sats_text(quote.send_sat))
            &&& text::mentions(sections[0]->Alert_text, text::sats_text(quote.total_fee_sat))
            &&& text::mentions(sections[0]->Alert_text, text::sats_text(quote.receive_sat))
            &&& sections[1] is Stats
            &&& values(sections[1]->Stats_0) == seq![
                text::shortened(quote.swap_id, 16),
                text::sats_text(quote.send_sat),
                text::sats_text(quote.total_fee_sat),
                text::sats_text(quote.receive_sat),
            ]
            &&& labels(sections[1]->Stats_0) == seq!["Swap"@, "Sending"@, "Fees"@, "You receive"@]
            &&& sections[2] is Table
            &&& sections[2]->Table_0.rows.len() == quote.hops.len()
            &&& 0 <= at < quote.hops.len() ==> {
                let row = sections[2]->Table_0.rows[at];
                &&& row.len() == 4
                &&& row[0] == text::decimal((at + 1) as nat)
                &&& row[1] == quote.hops[at].address
                &&& row[2] == text::decimal(quote.hops[at].locktime as nat)
                &&& row[3] == text::sats_text(quote.hops[at].fee_sat)
            }
            &&& sections[3] is Actions
            &&& sections[3]->Actions_0.buttons.len() == 2
            &&& sections[3]->Actions_0.buttons[1].command == "discard-quote"@
            &&& asks_to_accept(sections[3]->Actions_0.buttons[0], quote)
        }),
{
    broadcast use {text::lemma_mentions_end, text::lemma_mentions_front};

    let cards = quote_sections(QuoteStateView::Ready(quote))[1]->Stats_0;
    assert(values(cards) =~= seq![
        text::shortened(quote.swap_id, 16),
        text::sats_text(quote.send_sat),
        text::sats_text(quote.total_fee_sat),
        text::sats_text(quote.receive_sat),
    ]);
    assert(labels(cards) =~= seq!["Swap"@, "Sending"@, "Fees"@, "You receive"@]);
}

/// Whether a button accepts a quote, after asking with what it commits, over how many hops and for
/// which fee.
pub open spec fn asks_to_accept(button: ButtonView, quote: QuoteView) -> bool {
    &&& button.command == "accept-quote"@
    &&& button.confirm is Some
    &&& text::mentions(button.confirm->Some_0, text::sats_text(quote.send_sat))
    &&& text::mentions(button.confirm->Some_0, text::sats_text(quote.total_fee_sat))
    &&& text::mentions(button.confirm->Some_0, text::decimal(quote.hops.len()))
}

/// A quote that is being prepared is shown as that, one that failed with its reason, and without a
/// quote nothing is shown. Only a ready one can be accepted.
pub proof fn the_quote_is_shown_as_it_is(quote: QuoteStateView)
    ensures
        ({
            let sections = quote_sections(quote);
            &&& quote is Idle <==> sections.len() == 0
            &&& quote is Preparing ==> sections.len() == 1 && sections[0] is Alert
                && sections[0]->level is Info
            &&& quote matches QuoteStateView::Failed(why) ==> {
                &&& sections.len() == 1 && sections[0] is Alert && sections[0]->level is Danger
                &&& text::mentions(sections[0]->Alert_text, why)
            }
            &&& quote is Ready <==> sections.len() == 4
        }),
{
    broadcast use {text::lemma_mentions_end, text::lemma_mentions_front};

}

/// The forms ask for what is parsed of them: a quote for an amount from one satoshi up and one to
/// ten makers, a withdrawal for a destination and an amount. All of it is required.
pub proof fn the_forms_ask_for_what_is_needed()
    ensures
        ({
            let quote = quote_form();
            let withdraw = withdraw_form();
            &&& quote.id == "quote"@ && withdraw.id == "withdraw"@
            &&& quote.fields.len() == 2 && withdraw.fields.len() == 2
            &&& quote.fields[0].id == "sats"@ && quote.fields[0].kind == (FieldKindView::Number {
                min: Some(1),
                max: Some(i64::MAX),
            })
            &&& quote.fields[1].id == "makers"@ && quote.fields[1].kind == (FieldKindView::Number {
                min: Some(1),
                max: Some(10),
            })
            &&& withdraw.fields[0].id == "address"@ && withdraw.fields[0].kind is Text
            &&& withdraw.fields[1].id == "sats"@ && withdraw.fields[1].kind == (
            FieldKindView::Number { min: Some(1), max: Some(i64::MAX) })
            &&& quote.fields[0].required && quote.fields[1].required
            &&& withdraw.fields[0].required && withdraw.fields[1].required
        }),
{
}

/// The taker's page is made of the phrase, the banner, a notice while recovery is pending, the
/// headline numbers, the swap, the quote and what the wallet offers, in that order and with nothing
/// else.
pub proof fn what_the_taker_page_is_made_of(
    settings: Settings,
    status: taker::StatusView,
    phrase: Option<Seq<char>>,
    swap: SwapStateView,
    quote: QuoteStateView,
    wallet_open: bool,
    now: u64,
)
    ensures
        ({
            let page = taker_page_view(settings, status, phrase, swap, quote, wallet_open, now);
            let phrased = taker_phrase(phrase).len() as int;
            let noticed = recovery_notice(status.recovery_complete).len() as int;
            let rest = phrased + 2 + noticed;
            &&& page.title == "Coinswap taker"@
            &&& phrase is Some <==> phrased == 2
            &&& phrase is None <==> phrased == 0
            &&& page.sections.subrange(0, phrased) == taker_phrase(phrase)
            &&& page.sections[phrased] == taker_banner(status.phase, settings)
            &&& page.sections.subrange(phrased + 1, phrased + 1 + noticed) == recovery_notice(
                status.recovery_complete,
            )
            &&& page.sections[rest - 1] == SectionView::Stats(taker_cards(status))
            &&& page.sections.skip(rest) == swap_sections(swap, now) + quote_sections(quote)
                + wallet_sections(wallet_open && !(swap is Running))
        }),
{
    let page = taker_page_view(settings, status, phrase, swap, quote, wallet_open, now);
    let phrased = taker_phrase(phrase).len() as int;
    let notice = recovery_notice(status.recovery_complete);
    let rest = phrased + 2 + notice.len();
    assert(page.sections.subrange(0, phrased) =~= taker_phrase(phrase));
    assert(page.sections.subrange(phrased + 1, phrased + 1 + notice.len()) =~= notice);
    assert(page.sections.skip(rest) =~= swap_sections(swap, now) + quote_sections(quote)
        + wallet_sections(wallet_open && !(swap is Running)));
}

/// The wallet, where it is offered, can be funded, asked for a quote and withdrawn from.
pub proof fn what_a_free_wallet_offers()
    ensures
        wallet_sections(false).len() == 0,
        wallet_sections(true).len() == 3,
        wallet_sections(true)[0] is Actions,
        wallet_sections(true)[0]->Actions_0.buttons.len() == 1,
        wallet_sections(true)[0]->Actions_0.buttons[0].command == "taker-address"@,
        wallet_sections(true)[1] == SectionView::Form(quote_form()),
        wallet_sections(true)[2] == SectionView::Form(withdraw_form()),
{
}

/// The settings page holds the form it was given, fields, values and all, under a warning.
pub proof fn the_settings_page_holds_the_form(form: FormView)
    ensures
        ({
            let page = settings_page_view(form);
            &&& page.sections.len() == 2
            &&& page.sections[0] is Alert
            &&& page.sections[0]->level is Info
            &&& page.title == "Coinswap maker"@
            &&& page.sections[1] is Form
            &&& page.sections[1]->Form_0.fields == form.fields
            &&& page.sections[1]->Form_0.id == form.id
            &&& page.sections[1]->Form_0.title == form.title
            &&& page.sections[1]->Form_0.submit_label == "Save and restart"@
        }),
{
}

/// The phases are called by their names.
pub proof fn phases_are_called_by_their_names(reason: Seq<char>)
    ensures
        phase_name(PhaseView::Stopped) == "Stopped"@,
        phase_name(PhaseView::Starting) == "Starting"@,
        phase_name(PhaseView::Running) == "Running"@,
        phase_name(PhaseView::Failed(reason)) == "Failed"@,
{
}

/// What the banners say fits what they are about.
pub proof fn what_the_banners_say(status: maker::StatusView, settings: Settings, phase: PhaseView)
    ensures
        ({
            let said = banner(status, settings).1;
            &&& status.phase matches PhaseView::Failed(reason) ==> ("The maker is not running: "@
                + reason).is_prefix_of(said)
            &&& status.phase is Starting ==> said
                == "The maker is starting. Connecting to the chain backend takes a while, and longer over Tor."@
            &&& status.phase is Running && status.bonds.len() == 0 ==> said
                == "The maker is running but has no fidelity bond, so takers will not choose it."@
            &&& status.phase is Running && status.bonds.len() > 0 ==> said
                == "The maker is running and advertising itself to takers."@
            &&& status.phase is Stopped && settings.enabled ==> said
                == "The maker is enabled but not running. Start it below."@
            &&& status.phase is Stopped && !settings.enabled ==> said
                == "The maker is off. Fill in the settings page, turn on \"Run the maker\", and save."@
        }),
        ({
            let said = taker_banner(phase, settings)->Alert_text;
            &&& phase matches PhaseView::Failed(reason) ==> said
                == "The taker wallet did not open: "@ + reason
            &&& phase is Starting ==> said
                == "The taker wallet is opening. It scans the chain on first use, which takes a while."@
            &&& phase is Stopped && settings.taker_enabled ==> said
                == "The taker is enabled but its wallet is not open."@
            &&& phase is Stopped && !settings.taker_enabled ==> said
                == "The taker is off. Turn on \"Enable the taker wallet\" on the settings page."@
        }),
{
    broadcast use {text::lemma_begins_itself, text::lemma_begins_more};

}

/// What the page says of a swap and a quote, with what it says it of in its place: what is sent
/// before what it costs and what it delivers, the hops before the fees, the count before the amount.
pub proof fn what_the_pages_say_of_swaps(
    id: Seq<char>,
    since: u64,
    now: u64,
    why: Seq<char>,
    committed: Option<bool>,
    outcome: SwapOutcomeView,
    quote: QuoteView,
    swaps: Seq<SwapRecordView>,
)
    ensures
        ("Swap "@ + text::shortened(id, 16) + " is running, "@ + text::decimal(
            minutes(since, now),
        )).is_prefix_of(
            swap_sections(SwapStateView::Running { swap_id: id, since }, now)[0]->Alert_text,
        ),
        swap_sections(
            SwapStateView::Failed { swap_id: id, why, committed },
            now,
        )[0]->Alert_text == "Swap "@ + text::shortened(id, 16) + " did not finish: "@ + why + " "@
            + funds_text(committed),
        swap_sections(SwapStateView::Done(outcome), now)[0]->Alert_text == "Swap "@
            + text::shortened(outcome.swap_id, 16) + " finished as "@ + outcome.status + ", in "@
            + outcome.duration_secs + " seconds."@,
        quote_sections(QuoteStateView::Failed(why))[0]->Alert_text == "No quote: "@ + why,
        ("Quote ready. Sending "@ + text::sats_text(quote.send_sat) + " costs "@ + text::sats_text(
            quote.total_fee_sat,
        ) + " in fees and delivers "@ + text::sats_text(quote.receive_sat)).is_prefix_of(
            quote_sections(QuoteStateView::Ready(quote))[0]->Alert_text,
        ),
        ("This commits "@ + text::sats_text(quote.send_sat) + " on chain across "@ + text::decimal(
            quote.hops.len(),
        ) + " hop(s) and pays "@ + text::sats_text(quote.total_fee_sat)).is_prefix_of(
            quote_buttons(quote)[0].confirm->Some_0,
        ),
        ({
            let recovering = at_stake(swaps, now, false);
            let stalled = at_stake(swaps, now, true);
            let warnings = swap_warnings(swaps, now);
            &&& recovering.len() > 0 ==> (text::decimal(recovering.len())
                + " swap(s) did not finish, with "@ + text::sats_text(
                total(recovering) as u64,
            )).is_prefix_of(warnings[0]->Alert_text)
            &&& stalled.len() > 0 ==> (text::decimal(stalled.len())
                + " swap(s) have not changed for over a day, recorded at "@ + text::sats_text(
                total(stalled) as u64,
            )).is_prefix_of(warnings.last()->Alert_text)
        }),
        funds_text(Some(false))
            == "Nothing left the wallet, so there is nothing to recover and a new quote can be requested."@,
        funds_text(Some(true))
            == "Funds left the wallet and are held in contracts until their timelocks expire. This page shows while their recovery is pending."@,
{
    broadcast use {text::lemma_begins_itself, text::lemma_begins_more};

}

/// The columns of the tables are headed by what stands in them, and the buttons are labelled by
/// what they do.
pub proof fn tables_and_buttons_are_labelled(
    swaps: Seq<SwapRecordView>,
    bonds: Seq<(u64, Seq<char>)>,
    hops: Seq<QuoteHopView>,
    quote: QuoteView,
    swap: SwapRecordView,
    status: maker::StatusView,
    settings: Settings,
)
    ensures
        swaps.len() > 0 ==> swap_table(swaps)[0]->Table_0.columns == seq![
            "Swap"@,
            "Amount"@,
            "Phase"@,
            "Recovery"@,
            "On chain"@,
        ],
        bond_table(bonds)->Table_0.columns == seq!["Amount"@, "Locked until"@],
        route(hops).columns == seq!["Hop"@, "Maker"@, "Locktime (blocks)"@, "Fee"@],
        quote_buttons(quote)[0].label == "Accept and swap"@,
        quote_buttons(quote)[0].style is Primary,
        quote_buttons(quote)[1].label == "Discard and start over"@,
        quote_buttons(quote)[1].confirm is None,
        dismiss_button(swap).label == "Dismiss "@ + swap.id,
        ({
            let open = command_buttons(status, settings, true);
            let shut = command_buttons(status, settings, false);
            &&& open.last().label == "Show a funding address"@ && open.last().confirm is None
            &&& open.drop_last() == shut
            &&& status.phase.live() ==> shut[0].label == "Stop the maker"@ && shut[1].label
                == "Drain idle swaps"@
            &&& !status.phase.live() && settings.enabled ==> shut[0].label == "Start the maker"@
        }),
{
    assert(command_buttons(status, settings, true).drop_last() =~= command_buttons(
        status,
        settings,
        false,
    ));
}

/// A page can be shown exactly if neither of the two amounts on it is beyond what a number holds.
pub proof fn a_page_can_be_shown_if_its_amounts_fit(swaps: Seq<SwapRecordView>, now: u64)
    ensures
        amounts_fit(swaps, now) <==> total(at_stake(swaps, now, false)) < 0x1_0000_0000_0000_0000
            && total(at_stake(swaps, now, true)) < 0x1_0000_0000_0000_0000,
{
}

/// Stopping while a swap is known to be in progress says so, and otherwise says what stopping does.
/// What needs the operator's attention is marked as that: a phrase to write down is a warning, a
/// busy wallet is none.
pub proof fn what_needs_attention_is_marked(
    status: maker::StatusView,
    settings: Settings,
    phrase: Option<Seq<char>>,
    words: Seq<char>,
    wallet_open: bool,
    now: u64,
)
    ensures
        status.phase.live() && status.ongoing_swaps == Some(true) ==> command_buttons(
            status,
            settings,
            wallet_open,
        )[0].confirm == Some(
            "A swap is in progress. Stopping now risks it timing out and falling back to a timelocked refund. Stop anyway?"@,
        ),
        status.phase.live() && status.ongoing_swaps != Some(true) ==> command_buttons(
            status,
            settings,
            wallet_open,
        )[0].confirm == Some("Stop the maker? Takers will no longer be able to reach it."@),
        maker_phrase(Some(words))[0] is Alert && maker_phrase(Some(words))[0]->level is Warning,
        taker_phrase(Some(words))[0] is Alert && taker_phrase(Some(words))[0]->level is Warning,
        maker_phrase(Some(words))[1] == SectionView::Text(words),
        taker_phrase(Some(words))[1] == SectionView::Text(words),
        maker_phrase(Some(words)).len() == 2 && taker_phrase(Some(words)).len() == 2,
        maker_phrase(None).len() == 0 && taker_phrase(None).len() == 0,
        status.wallet_busy ==> {
            let sections = dashboard_view(settings, status, phrase, wallet_open, now).sections;
            let notice = sections[sections.len() - 2];
            &&& notice is Alert
            &&& notice->level is Info
        },
        dashboard_view(settings, status, phrase, wallet_open, now).sections.last()->Actions_0.title
            == Some("Operations"@),
{
}

} // verus!
