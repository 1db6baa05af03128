//! Tells the operator about the maker without them having to go and look.
//!
//! The dashboard already reports everything here, but only to someone who opens it. A watcher
//! polls instead and raises a notification when something changes for the worse.
//!
//! Each condition notifies once when it starts and re-arms when it clears, so a maker that stays
//! down produces one notification rather than one per tick.

use vstd::prelude::*;

use vstd::hash_map::StringHashMap;
use vstd::hash_set::StringHashSet;

use crate::shared;
use crate::shared::{sleep_unless_stopped, LogLine, LogLineView, Nap, Phase, PhaseView};
use crate::text;
use crate::text::decimal_text;

verus! {

/// How often the maker is looked at, in seconds.
pub const POLL_INTERVAL: u64 = 60;

/// How close a fidelity bond may come to maturing before the operator is told.
///
/// About two weeks of blocks, against a timelock the settings hold between 12,960 and 25,920, so
/// the warning arrives with time to create the replacement bond.
pub const BOND_EXPIRY_WARNING_BLOCKS: u64 = 2_016;

/// How many consecutive ticks an unfinished funded swap must be seen before it counts as stuck.
///
/// Thirty minutes at the poll interval. Swaps take minutes, so anything past this has stopped
/// making progress.
pub const STUCK_TICKS: u32 = 30;

/// How long a stop waits for the watcher, in seconds.
///
/// Short: it holds nothing a counterparty is waiting on, unlike the maker.
pub const STOP_DEADLINE: u64 = 5;

/// What the operator is notified of.
#[derive(PartialEq, Eq, Debug)]
pub struct Notification {
    pub title: String,
    pub body: String,
    /// Where the notification sends the operator.
    pub link: Option<String>,
}

/// What a [`Notification`] says.
#[verifier::ext_equal]
pub struct NotificationView {
    pub title: Seq<char>,
    pub body: Seq<char>,
    pub link: Option<Seq<char>>,
}

impl View for Notification {
    type V = NotificationView;

    open spec fn view(&self) -> NotificationView {
        NotificationView { title: self.title@, body: self.body@, link: text::optional(self.link) }
    }
}

impl NotificationView {
    /// What some notifications say.
    pub open spec fn of(notifications: Seq<Notification>) -> Seq<NotificationView> {
        notifications.map_values(|n: Notification| n@)
    }

    /// A notification that leads nowhere.
    pub open spec fn plain(title: Seq<char>, body: Seq<char>) -> NotificationView {
        NotificationView { title, body, link: None }
    }

    /// The same notification leading to `link`.
    pub open spec fn linked(self, link: Seq<char>) -> NotificationView {
        NotificationView { link: Some(link), ..self }
    }
}

/// A notification that leads nowhere.
fn notification(title: &str, body: String) -> (result: Notification)
    ensures
        result@ == NotificationView::plain(title@, body@),
{
    Notification { title: title.to_string(), body, link: None }
}

/// One tick's view of the maker.
pub struct Observation {
    /// What the maker is doing.
    pub phase: Phase,
    /// Spendable balance. `None` when the wallet could not be read.
    pub spendable_sat: Option<u64>,
    /// The smallest swap this maker advertises. `None` when it is not running.
    pub min_swap_sat: Option<u64>,
    /// Blocks until the soonest-expiring bond matures. `None` when there is no bond, or the
    /// chain tip could not be read.
    pub bond_expiry_blocks: Option<u64>,
    /// Swaps with funding on chain that have not finished.
    pub unfinished_funded_swaps: Vec<String>,
}

/// What an [`Observation`] holds.
#[verifier::ext_equal]
pub struct ObservationView {
    pub phase: PhaseView,
    pub spendable_sat: Option<u64>,
    pub min_swap_sat: Option<u64>,
    pub bond_expiry_blocks: Option<u64>,
    pub unfinished_funded_swaps: Seq<Seq<char>>,
}

impl View for Observation {
    type V = ObservationView;

    open spec fn view(&self) -> ObservationView {
        ObservationView {
            phase: self.phase@,
            spendable_sat: self.spendable_sat,
            min_swap_sat: self.min_swap_sat,
            bond_expiry_blocks: self.bond_expiry_blocks,
            unfinished_funded_swaps: text::all(self.unfinished_funded_swaps@),
        }
    }
}

impl ObservationView {
    /// A maker of which nothing but its phase can be read.
    pub open spec fn only_phase(phase: PhaseView) -> ObservationView {
        ObservationView {
            phase,
            spendable_sat: None,
            min_swap_sat: None,
            bond_expiry_blocks: None,
            unfinished_funded_swaps: Seq::empty(),
        }
    }

    /// Whether the maker is down.
    pub open spec fn down(self) -> Option<bool> {
        Some(self.phase is Failed)
    }

    /// Whether the maker cannot afford the smallest swap it advertises, where that can be told.
    pub open spec fn illiquid(self) -> Option<bool> {
        match (self.spendable_sat, self.min_swap_sat) {
            (Some(spendable), Some(minimum)) => Some(spendable < minimum),
            _ => None,
        }
    }

    /// Whether a bond is nearing expiry, where that can be told.
    pub open spec fn expiring(self) -> Option<bool> {
        match self.bond_expiry_blocks {
            Some(blocks) => Some(blocks <= BOND_EXPIRY_WARNING_BLOCKS),
            None => None,
        }
    }
}

impl Observation {
    /// A maker that is not running, so nothing but its phase can be read.
    pub fn only_phase(phase: Phase) -> (result: Self)
        ensures
            result@ == ObservationView::only_phase(phase@),
    {
        let unfinished_funded_swaps: Vec<String> = Vec::new();
        assert(text::all(unfinished_funded_swaps@) =~= Seq::empty());
        Observation {
            phase,
            spendable_sat: None,
            min_swap_sat: None,
            bond_expiry_blocks: None,
            unfinished_funded_swaps,
        }
    }
}

/// Whether a condition holds after it was seen to hold, seen not to hold, or not seen at all.
///
/// A reading that could not be taken leaves the condition untouched: an unreadable wallet is not
/// evidence that the balance is fine, nor that it is not.
pub open spec fn condition_after(before: bool, seen: Option<bool>) -> bool {
    match seen {
        Some(holds) => holds,
        None => before,
    }
}

/// Whether a condition starts with what was seen, which is when the operator is told.
pub open spec fn condition_starts(before: bool, seen: Option<bool>) -> bool {
    seen == Some(true) && !before
}

/// `notice` where `raised`, and nothing otherwise.
pub open spec fn notice_if(raised: bool, notice: NotificationView) -> Seq<NotificationView> {
    if raised {
        seq![notice]
    } else {
        Seq::empty()
    }
}

/// The notification that the maker is down.
pub open spec fn down_notice(phase: PhaseView) -> NotificationView {
    NotificationView::plain(
        "The coinswap maker is down"@,
        "It stopped with: "@ + phase->Failed_0
            + ". Takers cannot reach it until it is started again."@,
    )
}

/// The notification that the maker cannot afford a swap.
pub open spec fn liquidity_notice(spendable: u64, minimum: u64) -> NotificationView {
    NotificationView::plain(
        "The coinswap maker has run out of liquidity"@,
        text::decimal(spendable as nat) + " sats spendable, below the "@ + text::decimal(
            minimum as nat,
        ) + " sats it advertises as its minimum swap, so it cannot accept one."@,
    )
}

/// The notification that a bond is nearing expiry.
pub open spec fn bond_notice(blocks: u64) -> NotificationView {
    NotificationView::plain(
        "The coinswap fidelity bond is nearing expiry"@,
        text::decimal(blocks as nat)
            + " blocks until it matures. A maker without a bond is not chosen by takers, so create the next one before then."@,
    )
}

/// The notification that a swap is stuck.
pub open spec fn stuck_notice(id: Seq<char>) -> NotificationView {
    NotificationView::plain(
        "A coinswap is stuck"@,
        "Swap "@ + id + " has funding on chain and has not moved for "@ + text::decimal(
            (STUCK_TICKS * POLL_INTERVAL / 60) as nat,
        ) + " minutes. Its funds stay in the contract until recovery completes."@,
    )
}

/// How often `id` is among `ids`.
pub open spec fn times(ids: Seq<Seq<char>>, id: Seq<char>) -> nat
    decreases ids.len(),
{
    if ids.len() == 0 {
        0
    } else {
        times(ids.drop_last(), id) + if ids.last() == id {
            1nat
        } else {
            0nat
        }
    }
}

/// For how many ticks a swap has been seen, once `ids` were seen on top of `ticks`.
pub open spec fn ticks_of(
    ticks: Map<Seq<char>, u32>,
    ids: Seq<Seq<char>>,
    id: Seq<char>,
) -> nat {
    times(ids, id) + if ticks.contains_key(id) {
        ticks[id] as nat
    } else {
        0nat
    }
}

/// Whether a swap that is among `ids` has been seen for so long that it counts as stuck.
pub open spec fn is_stuck(
    ticks: Map<Seq<char>, u32>,
    ids: Seq<Seq<char>>,
    id: Seq<char>,
) -> bool {
    times(ids, id) > 0 && ticks_of(ticks, ids, id) >= STUCK_TICKS
}

/// The swaps that are found stuck for the first time, in the order in which they are.
pub open spec fn newly_stuck(
    ticks: Map<Seq<char>, u32>,
    reported: Set<Seq<char>>,
    ids: Seq<Seq<char>>,
) -> Seq<Seq<char>>
    decreases ids.len(),
{
    if ids.len() == 0 {
        Seq::empty()
    } else {
        let front = ids.drop_last();
        let id = ids.last();
        let earlier = newly_stuck(ticks, reported, front);
        if is_stuck(ticks, ids, id) && !reported.contains(id) && !is_stuck(ticks, front, id) {
            earlier.push(id)
        } else {
            earlier
        }
    }
}

/// What has already been reported, so a condition notifies once rather than every tick.
pub struct Alerts {
    maker_down: bool,
    liquidity_exhausted: bool,
    bond_expiring: bool,
    ticks_seen: StringHashMap<u32>,
    reported_swaps: StringHashSet,
}

/// What [`Alerts`] remember.
#[verifier::ext_equal]
pub struct AlertsView {
    pub maker_down: bool,
    pub liquidity_exhausted: bool,
    pub bond_expiring: bool,
    /// For how many ticks running each unfinished swap has been seen.
    pub ticks_seen: Map<Seq<char>, u32>,
    /// The swaps that were reported as stuck.
    pub reported_swaps: Set<Seq<char>>,
}

impl View for Alerts {
    type V = AlertsView;

    closed spec fn view(&self) -> AlertsView {
        AlertsView {
            maker_down: self.maker_down,
            liquidity_exhausted: self.liquidity_exhausted,
            bond_expiring: self.bond_expiring,
            ticks_seen: self.ticks_seen@,
            reported_swaps: self.reported_swaps@,
        }
    }
}

impl AlertsView {
    /// Nothing seen and nothing reported.
    pub open spec fn fresh() -> AlertsView {
        AlertsView {
            maker_down: false,
            liquidity_exhausted: false,
            bond_expiring: false,
            ticks_seen: Map::empty(),
            reported_swaps: Set::empty(),
        }
    }

    /// Whether every swap's ticks can still be counted.
    pub open spec fn has_room(self, ids: Seq<Seq<char>>) -> bool {
        forall|id: Seq<char>| #[trigger] ticks_of(self.ticks_seen, ids, id) <= u32::MAX
    }

    /// The ticks after `ids` were seen: a swap that is gone starts again from nothing.
    pub open spec fn ticks_after(self, ids: Seq<Seq<char>>) -> Map<Seq<char>, u32> {
        Map::new(
            |id: Seq<char>| times(ids, id) > 0,
            |id: Seq<char>| ticks_of(self.ticks_seen, ids, id) as u32,
        )
    }

    /// The swaps that have been reported after `ids` were seen.
    pub open spec fn reported_after(self, ids: Seq<Seq<char>>) -> Set<Seq<char>> {
        self.reported_swaps.union(
            Set::new(|id: Seq<char>| is_stuck(self.ticks_seen, ids, id)),
        )
    }

    /// What is remembered after a list of unfinished swaps.
    pub open spec fn after_swaps(self, ids: Seq<Seq<char>>) -> AlertsView {
        AlertsView {
            ticks_seen: self.ticks_after(ids),
            reported_swaps: self.reported_after(ids),
            ..self
        }
    }

    /// What is remembered after an observation.
    pub open spec fn after(self, seen: ObservationView) -> AlertsView {
        AlertsView {
            maker_down: condition_after(self.maker_down, seen.down()),
            liquidity_exhausted: condition_after(self.liquidity_exhausted, seen.illiquid()),
            bond_expiring: condition_after(self.bond_expiring, seen.expiring()),
            ..self.after_swaps(seen.unfinished_funded_swaps)
        }
    }

    /// The notifications about the maker as a whole that an observation calls for.
    pub open spec fn condition_notices(self, seen: ObservationView) -> Seq<NotificationView> {
        notice_if(condition_starts(self.maker_down, seen.down()), down_notice(seen.phase))
            + notice_if(
            condition_starts(self.liquidity_exhausted, seen.illiquid()),
            liquidity_notice(seen.spendable_sat->Some_0, seen.min_swap_sat->Some_0),
        ) + notice_if(
            condition_starts(self.bond_expiring, seen.expiring()),
            bond_notice(seen.bond_expiry_blocks->Some_0),
        )
    }

    /// The notifications about stuck swaps that an observation calls for.
    pub open spec fn swap_notices(self, ids: Seq<Seq<char>>) -> Seq<NotificationView> {
        newly_stuck(self.ticks_seen, self.reported_swaps, ids).map_values(
            |id: Seq<char>| stuck_notice(id),
        )
    }

    /// The notifications that an observation calls for.
    pub open spec fn raised(self, seen: ObservationView) -> Seq<NotificationView> {
        self.condition_notices(seen) + self.swap_notices(seen.unfinished_funded_swaps)
    }
}

/// Of the first of some identifiers there are no more than of all of them.
proof fn lemma_times_of_prefix(ids: Seq<Seq<char>>, at: int, id: Seq<char>)
    requires
        0 <= at <= ids.len(),
    ensures
        times(ids.take(at), id) <= times(ids, id),
    decreases ids.len(),
{
    if at == ids.len() {
        assert(ids.take(at) =~= ids);
    } else {
        lemma_times_of_prefix(ids.drop_last(), at, id);
        assert(ids.drop_last().take(at) =~= ids.take(at));
    }
}

impl Alerts {
    /// Nothing seen and nothing reported.
    pub fn new() -> (result: Self)
        ensures
            result@ == AlertsView::fresh(),
    {
        Alerts {
            maker_down: false,
            liquidity_exhausted: false,
            bond_expiring: false,
            ticks_seen: StringHashMap::new(),
            reported_swaps: StringHashSet::new(),
        }
    }

    /// For how many ticks a swap has been seen: this time, or else before.
    fn ticks_so_far(&self, counted: &StringHashMap<u32>, id: &str) -> (result: u32)
        ensures
            result == if counted@.contains_key(id@) {
                counted@[id@]
            } else if self@.ticks_seen.contains_key(id@) {
                self@.ticks_seen[id@]
            } else {
                0
            },
    {
        match counted.get(id) {
            Some(ticks) => *ticks,
            None => match self.ticks_seen.get(id) {
                Some(ticks) => *ticks,
                None => 0,
            },
        }
    }

    /// Whether every swap's ticks can still be counted. At one tick a minute they can for eight
    /// thousand years.
    pub fn can_assess(&self, observation: &Observation) -> (result: bool)
        ensures
            result == self@.has_room(observation@.unfinished_funded_swaps),
    {
        let unfinished = &observation.unfinished_funded_swaps;
        let ghost ids = observation@.unfinished_funded_swaps;
        let ghost ticks = self@.ticks_seen;
        let mut counted: StringHashMap<u32> = StringHashMap::new();
        let mut at: usize = 0;
        assert(ids.take(0) =~= Seq::empty());
        assert(counted@ =~= self@.ticks_after(ids.take(0)));
        while at < unfinished.len()
            invariant
                at <= unfinished@.len(),
                ids == text::all(unfinished@),
                ids == observation@.unfinished_funded_swaps,
                ticks == self@.ticks_seen,
                counted@ == self@.ticks_after(ids.take(at as int)),
                self@.has_room(ids.take(at as int)),
            decreases unfinished@.len() - at,
        {
            let id = &unfinished[at];
            let before: u32 = self.ticks_so_far(&counted, id.as_str());
            let ghost next = ids.take(at + 1);
            proof {
                assert(next.drop_last() =~= ids.take(at as int));
                assert(next.last() == id@);
                assert(ticks_of(ticks, ids.take(at as int), id@) == before);
            }
            if before == u32::MAX {
                proof {
                    lemma_times_of_prefix(ids, at + 1, id@);
                    assert(ticks_of(ticks, next, id@) > u32::MAX);
                    assert(ticks_of(ticks, ids, id@) > u32::MAX);
                }
                return false;
            }
            counted.insert(id.clone(), before + 1);
            proof {
                assert forall|other: Seq<char>| #[trigger]
                    ticks_of(ticks, next, other) <= u32::MAX by {
                    assert(ticks_of(ticks, ids.take(at as int), other) <= u32::MAX);
                }
                assert(counted@ =~= self@.ticks_after(next));
            }
            at = at + 1;
        }
        assert(ids.take(at as int) =~= ids);
        true
    }

    /// Notifications this observation calls for, given everything seen before it.
    pub fn assess(&mut self, observation: &Observation) -> (raised: Vec<Notification>)
        requires
            old(self)@.has_room(observation@.unfinished_funded_swaps),
        ensures
            NotificationView::of(raised@) == old(self)@.raised(observation@),
            final(self)@ == old(self)@.after(observation@),
    {
        let ghost before = self@;
        let ghost seen = observation@;
        let mut raised: Vec<Notification> = Vec::new();
        assert(NotificationView::of(raised@) =~= Seq::empty());

        if let Phase::Failed(reason) = &observation.phase {
            if !self.maker_down {
                self.maker_down = true;
                raised.push(
                    notification(
                        "The coinswap maker is down",
                        "It stopped with: ".to_string().concat(reason.as_str()).concat(
                            ". Takers cannot reach it until it is started again.",
                        ),
                    ),
                );
            }
        } else {
            self.maker_down = false;
        }
        let ghost first = notice_if(
            condition_starts(before.maker_down, seen.down()),
            down_notice(seen.phase),
        );
        assert(NotificationView::of(raised@) =~= first);

        if let (Some(spendable), Some(minimum)) = (
            observation.spendable_sat,
            observation.min_swap_sat,
        ) {
            if spendable < minimum {
                if !self.liquidity_exhausted {
                    self.liquidity_exhausted = true;
                    raised.push(
                        notification(
                            "The coinswap maker has run out of liquidity",
                            decimal_text(spendable).concat(" sats spendable, below the ").concat(
                                decimal_text(minimum).as_str(),
                            ).concat(
                                " sats it advertises as its minimum swap, so it cannot accept one.",
                            ),
                        ),
                    );
                }
            } else {
                self.liquidity_exhausted = false;
            }
        }
        let ghost second = notice_if(
            condition_starts(before.liquidity_exhausted, seen.illiquid()),
            liquidity_notice(seen.spendable_sat->Some_0, seen.min_swap_sat->Some_0),
        );
        assert(NotificationView::of(raised@) =~= first + second);

        if let Some(blocks) = observation.bond_expiry_blocks {
            if blocks <= BOND_EXPIRY_WARNING_BLOCKS {
                if !self.bond_expiring {
                    self.bond_expiring = true;
                    raised.push(
                        notification(
                            "The coinswap fidelity bond is nearing expiry",
                            decimal_text(blocks).concat(
                                " blocks until it matures. A maker without a bond is not chosen by takers, so create the next one before then.",
                            ),
                        ),
                    );
                }
            } else {
                self.bond_expiring = false;
            }
        }
        let ghost third = notice_if(
            condition_starts(before.bond_expiring, seen.expiring()),
            bond_notice(seen.bond_expiry_blocks->Some_0),
        );
        assert(NotificationView::of(raised@) =~= first + second + third);

        assert(self@.ticks_seen == before.ticks_seen);
        assert(self@.has_room(seen.unfinished_funded_swaps));
        let mut stuck = self.assess_swaps(&observation.unfinished_funded_swaps);
        let ghost said = NotificationView::of(raised@);
        let ghost more = NotificationView::of(stuck@);
        raised.append(&mut stuck);
        assert(NotificationView::of(raised@) =~= said + more);
        raised
    }

    /// Notifications this list of unfinished swaps calls for, given those before it.
    ///
    /// A swap reports once and never again, so two records that can never finish cost two
    /// notifications rather than one every half hour.
    pub fn assess_swaps(&mut self, unfinished: &Vec<String>) -> (raised: Vec<Notification>)
        requires
            old(self)@.has_room(text::all(unfinished@)),
        ensures
            NotificationView::of(raised@) == old(self)@.swap_notices(text::all(unfinished@)),
            final(self)@ == old(self)@.after_swaps(text::all(unfinished@)),
    {
        let ghost before = self@;
        let ghost ticks = before.ticks_seen;
        let ghost ids = text::all(unfinished@);
        let mut counted: StringHashMap<u32> = StringHashMap::new();
        let mut raised: Vec<Notification> = Vec::new();
        let mut at: usize = 0;
        proof {
            assert(ids.take(0) =~= Seq::empty());
            assert(counted@ =~= before.ticks_after(ids.take(0)));
            assert(self@.reported_swaps =~= before.reported_after(ids.take(0)));
            assert(NotificationView::of(raised@) =~= before.swap_notices(ids.take(0)));
        }
        while at < unfinished.len()
            invariant
                at <= unfinished@.len(),
                ids == text::all(unfinished@),
                ticks == before.ticks_seen,
                before.has_room(ids),
                counted@ == before.ticks_after(ids.take(at as int)),
                self@ == (AlertsView {
                    reported_swaps: before.reported_after(ids.take(at as int)),
                    ..before
                }),
                NotificationView::of(raised@) == before.swap_notices(ids.take(at as int)),
            decreases unfinished@.len() - at,
        {
            let id = &unfinished[at];
            let so_far: u32 = self.ticks_so_far(&counted, id.as_str());
            let ghost front = ids.take(at as int);
            let ghost next = ids.take(at + 1);
            proof {
                assert(next.drop_last() =~= front);
                assert(next.last() == id@);
                assert(ticks_of(ticks, ids, id@) <= u32::MAX);
                lemma_times_of_prefix(ids, at + 1, id@);
                assert(ticks_of(ticks, front, id@) <= u32::MAX);
                assert(so_far == ticks_of(ticks, front, id@));
                assert forall|other: Seq<char>| #[trigger]
                    ticks_of(ticks, next, other) <= u32::MAX by {
                    assert(ticks_of(ticks, ids, other) <= u32::MAX);
                    lemma_times_of_prefix(ids, at + 1, other);
                }
            }
            counted.insert(id.clone(), so_far + 1);
            assert(counted@ =~= before.ticks_after(next));
            let ghost said = NotificationView::of(raised@);
            if so_far + 1 >= STUCK_TICKS && self.reported_swaps.insert(id.clone()) {
                raised.push(
                    notification(
                        "A coinswap is stuck",
                        "Swap ".to_string().concat(id.as_str()).concat(
                            " has funding on chain and has not moved for ",
                        ).concat(
                            decimal_text((STUCK_TICKS as u64) * POLL_INTERVAL / 60).as_str(),
                        ).concat(
                            " minutes. Its funds stay in the contract until recovery completes.",
                        ),
                    ),
                );
                assert(NotificationView::of(raised@) =~= said.push(stuck_notice(id@)));
            }
            proof {
                assert(self@.reported_swaps =~= before.reported_after(next));
                assert(NotificationView::of(raised@) =~= before.swap_notices(next));
            }
            at = at + 1;
        }
        assert(ids.take(at as int) =~= ids);
        self.ticks_seen = counted;
        raised
    }
}

impl Alerts {
    /// The notifications one tick of the watcher raises: those the observation calls for, each
    /// leading to `link`.
    pub fn tick(&mut self, observation: &Observation, link: &str) -> (raised: Vec<Notification>)
        requires
            old(self)@.has_room(observation@.unfinished_funded_swaps),
        ensures
            NotificationView::of(raised@) == old(self)@.raised(observation@).map_values(
                |n: NotificationView| n.linked(link@),
            ),
            final(self)@ == old(self)@.after(observation@),
    {
        let mut raised = self.assess(observation);
        let ghost plain = raised@;
        let mut at: usize = 0;
        while at < raised.len()
            invariant
                at <= raised@.len(),
                raised@.len() == plain.len(),
                forall|i: int| 0 <= i < at ==> (#[trigger] raised@[i])@ == plain[i]@.linked(link@),
                forall|i: int| at <= i < plain.len() ==> #[trigger] raised@[i] == plain[i],
            decreases raised@.len() - at,
        {
            let linked = Notification {
                title: raised[at].title.clone(),
                body: raised[at].body.clone(),
                link: Some(link.to_string()),
            };
            raised.set(at, linked);
            at = at + 1;
        }
        assert(NotificationView::of(raised@) =~= NotificationView::of(plain).map_values(
            |n: NotificationView| n.linked(link@),
        ));
        raised
    }
}

/// What is logged when the host did not take a notification.
pub open spec fn failure_line(error: Seq<char>) -> LogLineView {
    LogLineView::error("Could not raise a notification: "@ + error)
}

/// What is logged when the host did not take a notification.
pub fn notification_failed(error: &str) -> (result: LogLine)
    ensures
        result@ == failure_line(error@),
{
    LogLine::error("Could not raise a notification: ".to_string().concat(error))
}

impl Default for Alerts {
    fn default() -> (result: Self)
        ensures
            result@ == AlertsView::fresh(),
    {
        Alerts::new()
    }
}

/// Polls the maker and raises notifications for what an operator must not miss.
///
/// Whoever runs the watcher's thread waits as [`Watcher::wait`] says, and after each wait hands
/// over what there is to see.
pub struct Watcher {
    alerts: Alerts,
    link: String,
    stop_requested: bool,
    /// What the slot knows the watcher by. `None` until it is put in one.
    number: Option<u64>,
}

/// What a [`Watcher`] holds.
#[verifier::ext_equal]
pub struct WatcherView {
    pub alerts: AlertsView,
    pub link: Seq<char>,
    pub stop_requested: bool,
    pub number: Option<u64>,
}

impl View for Watcher {
    type V = WatcherView;

    closed spec fn view(&self) -> WatcherView {
        WatcherView {
            alerts: self.alerts@,
            link: self.link@,
            stop_requested: self.stop_requested,
            number: self.number,
        }
    }
}

impl WatcherView {
    /// A watcher that has seen nothing yet.
    pub open spec fn started(link: Seq<char>) -> WatcherView {
        WatcherView { alerts: AlertsView::fresh(), link, stop_requested: false, number: None }
    }

    /// The watcher after it was asked to stop.
    pub open spec fn stopped(self) -> WatcherView {
        WatcherView { stop_requested: true, ..self }
    }

    /// The watcher after it was put in a slot, which is now like this.
    pub open spec fn placed(self, slot: WatcherSlotView) -> WatcherView {
        WatcherView { number: slot.current, ..self }
    }

    /// The notifications that a look at the maker raises.
    pub open spec fn seen(self, observation: ObservationView) -> Seq<NotificationView> {
        self.alerts.raised(observation).map_values(|n: NotificationView| n.linked(self.link))
    }

    /// The watcher after a look at the maker.
    pub open spec fn after_look(self, observation: ObservationView) -> WatcherView {
        WatcherView { alerts: self.alerts.after(observation), ..self }
    }

    /// Whether the watcher was asked to stop, by itself or by the slot it was put in.
    pub open spec fn asked_to_stop(self, slot: WatcherSlotView) -> bool {
        self.stop_requested || (self.number matches Some(number) && slot.asked_to_stop(number))
    }

    /// The next step of the wait for the next look, `slept` nanoseconds after the last one.
    pub open spec fn waiting(self, slot: WatcherSlotView, slept: u128) -> Nap {
        shared::nap(slept, (POLL_INTERVAL * 1_000_000_000) as u128, self.asked_to_stop(slot))
    }
}

impl Watcher {
    /// A watcher that has seen nothing yet. `link` is where a notification sends the operator.
    pub fn start(link: String) -> (result: Self)
        ensures
            result@ == WatcherView::started(link@),
    {
        Watcher { alerts: Alerts::new(), link, stop_requested: false, number: None }
    }

    /// Asks the watcher to stop.
    pub fn stop(&mut self)
        ensures
            final(self)@ == old(self)@.stopped(),
    {
        self.stop_requested = true;
    }

    /// How to go on waiting for the next look, `slept` nanoseconds after the last one. The
    /// watcher waits first: a maker that has just been asked to start is not yet news.
    pub fn wait(&self, slot: &WatcherSlot, slept: u128) -> (result: Nap)
        ensures
            result == self@.waiting(slot@, slept),
    {
        let total: u128 = (POLL_INTERVAL as u128) * 1_000_000_000;
        let asked = self.stop_requested || match self.number {
            Some(number) => slot.asked_to_stop(number),
            None => false,
        };
        sleep_unless_stopped(slept, total, asked)
    }

    /// Whether the ticks of the swaps that are seen can still be counted.
    pub fn can_look(&self, observation: &Observation) -> (result: bool)
        ensures
            result == self@.alerts.has_room(observation@.unfinished_funded_swaps),
    {
        self.alerts.can_assess(observation)
    }

    /// The notifications a look at the maker raises, each leading to the watcher's link.
    pub fn look(&mut self, observation: &Observation) -> (raised: Vec<Notification>)
        requires
            old(self)@.alerts.has_room(observation@.unfinished_funded_swaps),
        ensures
            NotificationView::of(raised@) == old(self)@.seen(observation@),
            final(self)@ == old(self)@.after_look(observation@),
    {
        self.alerts.tick(observation, self.link.as_str())
    }
}

/// Holds the watcher for the plugin, so starting one twice cannot leave the first running.
///
/// The slot numbers the watchers put in it, and every number but the current one counts as asked
/// to stop. A watcher hears of it the next time it asks how to go on waiting; whoever runs its
/// thread waits for that.
pub struct WatcherSlot {
    /// The watcher in the slot, if there is one.
    current: Option<u64>,
    /// How many watchers have been put in the slot.
    placed: u64,
}

/// What a [`WatcherSlot`] holds.
#[verifier::ext_equal]
pub struct WatcherSlotView {
    pub current: Option<u64>,
    pub placed: u64,
}

impl View for WatcherSlot {
    type V = WatcherSlotView;

    closed spec fn view(&self) -> WatcherSlotView {
        WatcherSlotView { current: self.current, placed: self.placed }
    }
}

impl WatcherSlotView {
    /// A slot without a watcher.
    pub open spec fn fresh() -> WatcherSlotView {
        WatcherSlotView { current: None, placed: 0 }
    }

    /// Whether the watcher with this number was asked to stop.
    pub open spec fn asked_to_stop(self, number: u64) -> bool {
        self.current != Some(number)
    }

    /// The slot with the next watcher in place of whatever was there.
    pub open spec fn replaced(self) -> WatcherSlotView {
        let next = (self.placed + 1) as u64;
        WatcherSlotView { current: Some(next), placed: next }
    }

    /// The slot without whatever was there.
    pub open spec fn cleared(self) -> WatcherSlotView {
        WatcherSlotView { current: None, ..self }
    }
}

impl WatcherSlot {
    /// A slot without a watcher.
    pub fn new() -> (result: Self)
        ensures
            result@ == WatcherSlotView::fresh(),
    {
        WatcherSlot { current: None, placed: 0 }
    }

    /// Whether the watcher with this number was asked to stop.
    pub fn asked_to_stop(&self, number: u64) -> (result: bool)
        ensures
            result == self@.asked_to_stop(number),
    {
        match self.current {
            Some(current) => current != number,
            None => true,
        }
    }

    /// Whether there is a number left for another watcher.
    pub fn can_replace(&self) -> (result: bool)
        ensures
            result == (self@.placed < u64::MAX),
    {
        self.placed < u64::MAX
    }

    /// Asks whatever is in the slot to stop and puts `watcher` there.
    pub fn replace(&mut self, watcher: &mut Watcher)
        requires
            old(self)@.placed < u64::MAX,
        ensures
            final(self)@ == old(self)@.replaced(),
            final(watcher)@ == old(watcher)@.placed(final(self)@),
    {
        self.placed = self.placed + 1;
        self.current = Some(self.placed);
        watcher.number = self.current;
    }

    /// Asks whatever is in the slot to stop and leaves the slot empty.
    pub fn clear(&mut self)
        ensures
            final(self)@ == old(self)@.cleared(),
    {
        self.current = None;
    }
}

impl Default for WatcherSlot {
    fn default() -> (result: Self)
        ensures
            result@ == WatcherSlotView::fresh(),
    {
        WatcherSlot::new()
    }
}

/// What the slot is asked to do.
pub enum SlotStep {
    Replace,
    Clear,
}

impl WatcherSlotView {
    /// The slot after one step.
    pub open spec fn after(self, step: SlotStep) -> WatcherSlotView {
        match step {
            SlotStep::Replace => self.replaced(),
            SlotStep::Clear => self.cleared(),
        }
    }

    /// The slot after a series of steps.
    pub open spec fn after_all(self, steps: Seq<SlotStep>) -> WatcherSlotView
        decreases steps.len(),
    {
        if steps.len() == 0 {
            self
        } else {
            self.after_all(steps.drop_last()).after(steps.last())
        }
    }
}

/// Putting a watcher in the slot asks every earlier one to stop, which ends its wait at once, and
/// does not ask the new one. Clearing the slot asks that one too.
pub proof fn a_replaced_watcher_is_asked_to_stop(
    slot: WatcherSlotView,
    earlier: WatcherView,
    watcher: WatcherView,
    slept: u128,
)
    requires
        slot.placed < u64::MAX,
        earlier.number matches Some(number) && number <= slot.placed,
        watcher.number == slot.replaced().current,
        !watcher.stop_requested,
    ensures
        earlier.waiting(slot.replaced(), slept) == Nap::Over(true),
        !watcher.asked_to_stop(slot.replaced()),
        watcher.waiting(slot.replaced().cleared(), slept) == Nap::Over(true),
        slot.replaced().cleared().current is None,
{
}

/// A watcher that was asked to stop stays so, whatever happens to the slot afterwards: numbers
/// are not used again.
pub proof fn a_stopped_watcher_stays_stopped(
    slot: WatcherSlotView,
    steps: Seq<SlotStep>,
    number: u64,
)
    requires
        number <= slot.placed,
        slot.asked_to_stop(number),
        slot.placed + steps.len() <= u64::MAX,
    ensures
        slot.after_all(steps).asked_to_stop(number),
        slot.placed <= slot.after_all(steps).placed <= slot.placed + steps.len(),
    decreases steps.len(),
{
    if steps.len() > 0 {
        a_stopped_watcher_stays_stopped(slot, steps.drop_last(), number);
    }
}

/// At no time is more than one watcher running unasked.
pub proof fn at_most_one_watcher_is_wanted(slot: WatcherSlotView, one: u64, other: u64)
    requires
        !slot.asked_to_stop(one),
        !slot.asked_to_stop(other),
    ensures
        one == other,
{
}

/// Seeing the same thing again raises no second notification about the maker as a whole.
pub proof fn a_lasting_condition_notifies_once(state: AlertsView, seen: ObservationView)
    ensures
        state.after(seen).condition_notices(seen) == Seq::<NotificationView>::empty(),
{
    assert(state.after(seen).condition_notices(seen) =~= Seq::empty());
}

/// Whether a condition holds after a series of sightings.
pub open spec fn condition_after_all(before: bool, sightings: Seq<Option<bool>>) -> bool
    decreases sightings.len(),
{
    if sightings.len() == 0 {
        before
    } else {
        condition_after(condition_after_all(before, sightings.drop_last()), sightings.last())
    }
}

/// Between two notifications about a condition it was seen to clear, however many times it was
/// seen to hold or could not be read meanwhile.
pub proof fn a_condition_clears_between_notifications(
    before: bool,
    sightings: Seq<Option<bool>>,
    i: int,
    j: int,
)
    requires
        0 <= i < j < sightings.len(),
        condition_starts(condition_after_all(before, sightings.take(i)), sightings[i]),
        condition_starts(condition_after_all(before, sightings.take(j)), sightings[j]),
    ensures
        exists|k: int| i < k < j && #[trigger] sightings[k] == Some(false),
{
    lemma_condition_lasts(before, sightings, i, j);
}

/// A condition seen to hold holds until it is seen to clear.
proof fn lemma_condition_lasts(before: bool, sightings: Seq<Option<bool>>, i: int, j: int)
    requires
        0 <= i < j < sightings.len(),
        sightings[i] == Some(true),
        !condition_after_all(before, sightings.take(j)),
    ensures
        exists|k: int| i < k < j && #[trigger] sightings[k] == Some(false),
    decreases j,
{
    let front = sightings.take(j);
    assert(front.drop_last() =~= sightings.take(j - 1));
    assert(front.last() == sightings[j - 1]);
    if sightings[j - 1] is None {
        lemma_condition_lasts(before, sightings, i, j - 1);
    }
}

/// The three conditions are remembered over a series of observations just as a single one is.
pub proof fn conditions_are_followed_over_a_series(
    state: AlertsView,
    series: Seq<ObservationView>,
)
    ensures
        after_all(state, series).maker_down == condition_after_all(
            state.maker_down,
            series.map_values(|seen: ObservationView| seen.down()),
        ),
        after_all(state, series).liquidity_exhausted == condition_after_all(
            state.liquidity_exhausted,
            series.map_values(|seen: ObservationView| seen.illiquid()),
        ),
        after_all(state, series).bond_expiring == condition_after_all(
            state.bond_expiring,
            series.map_values(|seen: ObservationView| seen.expiring()),
        ),
    decreases series.len(),
{
    if series.len() > 0 {
        let front = series.drop_last();
        let down = |seen: ObservationView| seen.down();
        let illiquid = |seen: ObservationView| seen.illiquid();
        let expiring = |seen: ObservationView| seen.expiring();
        conditions_are_followed_over_a_series(state, front);
        assert(series.map_values(down).drop_last() =~= front.map_values(down));
        assert(series.map_values(illiquid).drop_last() =~= front.map_values(illiquid));
        assert(series.map_values(expiring).drop_last() =~= front.map_values(expiring));
    }
}

/// A condition that was seen to clear notifies again when it comes back.
pub proof fn a_cleared_condition_notifies_again(
    state: AlertsView,
    clear: ObservationView,
    back: ObservationView,
)
    ensures
        clear.down() == Some(false) && back.down() == Some(true) ==> condition_starts(
            state.after(clear).maker_down,
            back.down(),
        ),
        clear.illiquid() == Some(false) && back.illiquid() == Some(true) ==> condition_starts(
            state.after(clear).liquidity_exhausted,
            back.illiquid(),
        ),
        clear.expiring() == Some(false) && back.expiring() == Some(true) ==> condition_starts(
            state.after(clear).bond_expiring,
            back.expiring(),
        ),
{
}

/// A reading that could not be taken neither raises its condition nor clears it.
pub proof fn an_unreadable_field_decides_nothing(state: AlertsView, seen: ObservationView)
    ensures
        seen.illiquid() is None ==> state.after(seen).liquidity_exhausted
            == state.liquidity_exhausted && !condition_starts(
            state.liquidity_exhausted,
            seen.illiquid(),
        ),
        seen.expiring() is None ==> state.after(seen).bond_expiring == state.bond_expiring
            && !condition_starts(state.bond_expiring, seen.expiring()),
{
}

/// A swap is among those newly found stuck exactly if it is stuck and was not reported before,
/// and it is there once.
pub proof fn newly_stuck_swaps(state: AlertsView, ids: Seq<Seq<char>>)
    ensures
        forall|id: Seq<char>| #[trigger]
            newly_stuck(state.ticks_seen, state.reported_swaps, ids).contains(id) <==> is_stuck(
                state.ticks_seen,
                ids,
                id,
            ) && !state.reported_swaps.contains(id),
        newly_stuck(state.ticks_seen, state.reported_swaps, ids).no_duplicates(),
    decreases ids.len(),
{
    let ticks = state.ticks_seen;
    let reported = state.reported_swaps;
    let stuck = newly_stuck(ticks, reported, ids);
    if ids.len() > 0 {
        let front = ids.drop_last();
        let last = ids.last();
        let earlier = newly_stuck(ticks, reported, front);
        newly_stuck_swaps(state, front);
        assert forall|id: Seq<char>| #[trigger]
            stuck.contains(id) <==> is_stuck(ticks, ids, id) && !reported.contains(id) by {
            assert(earlier.contains(id) <==> is_stuck(ticks, front, id) && !reported.contains(id));
            assert(id != last ==> times(ids, id) == times(front, id));
            if is_stuck(ticks, ids, last) && !reported.contains(last) && !is_stuck(
                ticks,
                front,
                last,
            ) {
                assert(stuck == earlier.push(last));
                assert(stuck[earlier.len() as int] == last);
                if earlier.contains(id) {
                    let i = choose|i: int| 0 <= i < earlier.len() && earlier[i] == id;
                    assert(stuck[i] == id);
                }
            } else {
                assert(stuck == earlier);
            }
        }
        if stuck != earlier {
            assert(stuck == earlier.push(last));
            assert(!earlier.contains(last));
            assert forall|i: int, j: int|
                0 <= i < stuck.len() && 0 <= j < stuck.len() && i != j implies stuck[i]
                != stuck[j] by {
                assert(i < earlier.len() ==> earlier.contains(stuck[i]));
                assert(j < earlier.len() ==> earlier.contains(stuck[j]));
            }
        }
    }
}

/// A swap is reported at most once, however often and however long it is seen: once reported it
/// stays so, and a reported swap is never found newly stuck.
pub proof fn a_stuck_swap_is_reported_once(
    state: AlertsView,
    seen: ObservationView,
    later: Seq<Seq<char>>,
    id: Seq<char>,
)
    requires
        state.reported_swaps.contains(id) || newly_stuck(
            state.ticks_seen,
            state.reported_swaps,
            seen.unfinished_funded_swaps,
        ).contains(id),
    ensures
        state.after(seen).reported_swaps.contains(id),
        !newly_stuck(
            state.after(seen).ticks_seen,
            state.after(seen).reported_swaps,
            later,
        ).contains(id),
{
    newly_stuck_swaps(state, seen.unfinished_funded_swaps);
    newly_stuck_swaps(state.after(seen), later);
}

/// A swap that is missing from one observation starts counting again.
pub proof fn an_absent_swap_starts_again(
    state: AlertsView,
    ids: Seq<Seq<char>>,
    later: Seq<Seq<char>>,
    id: Seq<char>,
)
    requires
        times(ids, id) == 0,
    ensures
        ticks_of(state.ticks_after(ids), later, id) == times(later, id),
{
}

/// The memory after a series of observations.
pub open spec fn after_all(state: AlertsView, series: Seq<ObservationView>) -> AlertsView
    decreases series.len(),
{
    if series.len() == 0 {
        state
    } else {
        after_all(state, series.drop_last()).after(series.last())
    }
}

/// A swap that was not being counted and is then seen in every one of a series of observations,
/// once in each, is newly stuck with the thirtieth of them and not before.
pub proof fn a_swap_is_stuck_after_thirty_ticks(
    state: AlertsView,
    series: Seq<ObservationView>,
    id: Seq<char>,
)
    requires
        0 < series.len() <= STUCK_TICKS,
        !state.ticks_seen.contains_key(id),
        !state.reported_swaps.contains(id),
        forall|i: int|
            0 <= i < series.len() ==> times(
                (#[trigger] series[i]).unfinished_funded_swaps,
                id,
            ) == 1,
    ensures
        newly_stuck(
            after_all(state, series.drop_last()).ticks_seen,
            after_all(state, series.drop_last()).reported_swaps,
            series.last().unfinished_funded_swaps,
        ).contains(id) <==> series.len() == STUCK_TICKS,
{
    let front = series.drop_last();
    assert forall|i: int| 0 <= i < front.len() implies times(
        (#[trigger] front[i]).unfinished_funded_swaps,
        id,
    ) == 1 by {
        assert(front[i] == series[i]);
    }
    lemma_ticks_of_series(state, front, id);
    assert(times(series[series.len() - 1].unfinished_funded_swaps, id) == 1);
    newly_stuck_swaps(after_all(state, front), series.last().unfinished_funded_swaps);
}

proof fn lemma_ticks_of_series(state: AlertsView, series: Seq<ObservationView>, id: Seq<char>)
    requires
        series.len() < STUCK_TICKS,
        !state.ticks_seen.contains_key(id),
        !state.reported_swaps.contains(id),
        forall|i: int|
            0 <= i < series.len() ==> times(
                (#[trigger] series[i]).unfinished_funded_swaps,
                id,
            ) == 1,
    ensures
        ticks_of(after_all(state, series).ticks_seen, Seq::empty(), id) == series.len(),
        !after_all(state, series).reported_swaps.contains(id),
    decreases series.len(),
{
    if series.len() > 0 {
        let front = series.drop_last();
        assert forall|i: int| 0 <= i < front.len() implies times(
            (#[trigger] front[i]).unfinished_funded_swaps,
            id,
        ) == 1 by {
            assert(front[i] == series[i]);
        }
        lemma_ticks_of_series(state, front, id);
        assert(times(series[series.len() - 1].unfinished_funded_swaps, id) == 1);
    }
}

/// The memory after a series of lists of unfinished swaps.
pub open spec fn after_lists(state: AlertsView, series: Seq<Seq<Seq<char>>>) -> AlertsView
    decreases series.len(),
{
    if series.len() == 0 {
        state
    } else {
        after_lists(state, series.drop_last()).after_swaps(series.last())
    }
}

/// The swaps that the list at position `at` of a series finds newly stuck, in order.
pub open spec fn stuck_at(series: Seq<Seq<Seq<char>>>, at: int) -> Seq<Seq<char>> {
    let before = after_lists(AlertsView::fresh(), series.take(at));
    newly_stuck(before.ticks_seen, before.reported_swaps, series[at])
}

/// Whether a swap is in each of the last thirty lists of a series.
pub open spec fn seen_throughout(series: Seq<Seq<Seq<char>>>, id: Seq<char>) -> bool {
    &&& series.len() >= STUCK_TICKS
    &&& forall|i: int|
        series.len() - STUCK_TICKS <= i < series.len() ==> (
        #[trigger] series[i]).contains(id)
}

/// Whether a swap was found newly stuck before the last list of a series.
pub open spec fn stuck_earlier(series: Seq<Seq<Seq<char>>>, id: Seq<char>) -> bool {
    exists|at: int| 0 <= at < series.len() - 1 && #[trigger] stuck_at(series, at).contains(id)
}

/// Whether each list of a series can be assessed in its turn and names no swap twice.
pub open spec fn is_assessable(series: Seq<Seq<Seq<char>>>) -> bool {
    forall|at: int|
        0 <= at < series.len() ==> {
            &&& (#[trigger] series[at]).no_duplicates()
            &&& after_lists(AlertsView::fresh(), series.take(at)).has_room(
                series[at],
            )
        }
}

/// Counted from nothing, the last of a series of lists raises one notification for each swap that
/// is in it and in the twenty-nine before it and was not reported earlier, in the order of the
/// list, and none for any other swap.
pub proof fn stuck_swaps_over_a_series(series: Seq<Seq<Seq<char>>>)
    requires
        series.len() > 0,
        is_assessable(series),
    ensures
        after_lists(AlertsView::fresh(), series.drop_last()).swap_notices(
            series.last(),
        ) == series.last().filter(
            |id: Seq<char>| seen_throughout(series, id) && !stuck_earlier(series, id),
        ).map_values(|id: Seq<char>| stuck_notice(id)),
        stuck_at(series, series.len() - 1).no_duplicates(),
{
    let front = series.drop_last();
    let before = after_lists(AlertsView::fresh(), front);
    let ids = series.last();
    let wanted = |id: Seq<char>| seen_throughout(series, id) && !stuck_earlier(series, id);
    assert(series.take(series.len() - 1) =~= front);
    assert(series[series.len() - 1] == series.last());
    lemma_assessable_front(series);
    assert forall|id: Seq<char>| #[trigger] ids.contains(id) implies wanted(id) == (is_stuck(
        before.ticks_seen,
        ids,
        id,
    ) && !before.reported_swaps.contains(id)) by {
        lemma_ticks_are_a_run(front, id);
        lemma_times_without_duplicates(ids, id);
        lemma_run_is_seen_throughout(series, id);
        lemma_reported_earlier(front, id);
        assert(stuck_earlier(series, id) == before.reported_swaps.contains(id)) by {
            if before.reported_swaps.contains(id) {
                let at = choose|at: int|
                    0 <= at < front.len() && #[trigger] stuck_at(front, at).contains(id);
                lemma_stuck_at_prefix(series, at);
                assert(stuck_at(series, at).contains(id));
            }
            if stuck_earlier(series, id) {
                let at = choose|at: int|
                    0 <= at < series.len() - 1 && #[trigger] stuck_at(series, at).contains(id);
                lemma_stuck_at_prefix(series, at);
                assert(stuck_at(front, at).contains(id));
            }
        }
    }
    lemma_newly_stuck_is_a_filter(before, ids, wanted, ids.len());
    assert(ids.take(ids.len() as int) =~= ids);
    newly_stuck_swaps(before, ids);
}

/// The lists of unfinished swaps in a series of observations.
pub open spec fn lists_in(series: Seq<ObservationView>) -> Seq<Seq<Seq<char>>> {
    series.map_values(|seen: ObservationView| seen.unfinished_funded_swaps)
}

/// What is remembered of swaps over a series of observations is what their lists leave, so the law
/// about a series of lists is one about a series of observations too.
pub proof fn swaps_are_followed_over_a_series(state: AlertsView, series: Seq<ObservationView>)
    ensures
        after_all(state, series).ticks_seen == after_lists(state, lists_in(series)).ticks_seen,
        after_all(state, series).reported_swaps == after_lists(
            state,
            lists_in(series),
        ).reported_swaps,
    decreases series.len(),
{
    if series.len() > 0 {
        swaps_are_followed_over_a_series(state, series.drop_last());
        assert(lists_in(series).drop_last() =~= lists_in(series.drop_last()));
    }
}

/// For how many lists at the end of a series a swap has been seen without a gap.
spec fn run(series: Seq<Seq<Seq<char>>>, id: Seq<char>) -> nat
    decreases series.len(),
{
    if series.len() > 0 && series.last().contains(id) {
        run(series.drop_last(), id) + 1
    } else {
        0
    }
}

/// A list without duplicates holds a swap once or not at all.
proof fn lemma_times_without_duplicates(ids: Seq<Seq<char>>, id: Seq<char>)
    requires
        ids.no_duplicates(),
    ensures
        times(ids, id) == if ids.contains(id) {
            1nat
        } else {
            0nat
        },
    decreases ids.len(),
{
    if ids.len() > 0 {
        let front = ids.drop_last();
        lemma_times_without_duplicates(front, id);
        if front.contains(id) {
            let at = choose|i: int| 0 <= i < front.len() && front[i] == id;
            assert(ids[at] == id);
        }
        if ids.contains(id) && ids.last() != id {
            let at = choose|i: int| 0 <= i < ids.len() && ids[i] == id;
            assert(front[at] == id);
        }
        if ids.last() == id {
            assert(ids[ids.len() - 1] == id);
        }
    }
}

/// What holds of a series holds of it without its last list.
proof fn lemma_assessable_front(series: Seq<Seq<Seq<char>>>)
    requires
        series.len() > 0,
        is_assessable(series),
    ensures
        is_assessable(series.drop_last()),
{
    let front = series.drop_last();
    assert forall|at: int| 0 <= at < front.len() implies {
        &&& (#[trigger] front[at]).no_duplicates()
        &&& after_lists(AlertsView::fresh(), front.take(at)).has_room(
            front[at],
        )
    } by {
        assert(series[at] == front[at]);
        assert(series.take(at) =~= front.take(at));
    }
}

/// What a list finds depends on those up to it only.
proof fn lemma_stuck_at_prefix(series: Seq<Seq<Seq<char>>>, at: int)
    requires
        0 <= at < series.len() - 1,
    ensures
        stuck_at(series.drop_last(), at) == stuck_at(series, at),
{
    assert(series.drop_last().take(at) =~= series.take(at));
}

/// The ticks counted for a swap are the lists in which it was seen without a gap.
proof fn lemma_ticks_are_a_run(series: Seq<Seq<Seq<char>>>, id: Seq<char>)
    requires
        is_assessable(series),
    ensures
        ({
            let ticks = after_lists(AlertsView::fresh(), series).ticks_seen;
            &&& ticks.contains_key(id) == (run(series, id) > 0)
            &&& ticks.contains_key(id) ==> ticks[id] == run(series, id)
        }),
    decreases series.len(),
{
    if series.len() > 0 {
        let front = series.drop_last();
        let before = after_lists(AlertsView::fresh(), front);
        let ids = series.last();
        lemma_assessable_front(series);
        lemma_ticks_are_a_run(front, id);
        assert(series.take(series.len() - 1) =~= front);
        assert(series[series.len() - 1] == series.last());
        lemma_times_without_duplicates(ids, id);
        assert(ticks_of(before.ticks_seen, ids, id) <= u32::MAX);
    }
}

/// A run of at least thirty lists is what being seen throughout the last thirty means.
proof fn lemma_run_is_seen_throughout(series: Seq<Seq<Seq<char>>>, id: Seq<char>)
    ensures
        seen_throughout(series, id) == (run(series, id) >= STUCK_TICKS),
{
    lemma_run(series, id, STUCK_TICKS as nat);
}

proof fn lemma_run(series: Seq<Seq<Seq<char>>>, id: Seq<char>, count: nat)
    ensures
        run(series, id) >= count <==> series.len() >= count && forall|i: int|
            series.len() - count <= i < series.len() ==> (
            #[trigger] series[i]).contains(id),
    decreases series.len(),
{
    if series.len() > 0 && count > 0 {
        let front = series.drop_last();
        let fewer = (count - 1) as nat;
        lemma_run(front, id, fewer);
        assert(series[series.len() - 1] == series.last());
        if run(series, id) >= count {
            assert forall|i: int| series.len() - count <= i < series.len() implies (
            #[trigger] series[i]).contains(id) by {
                if i < front.len() {
                    assert(front[i] == series[i]);
                }
            }
        } else if series.len() >= count && series.last().contains(id) {
            let gap = choose|i: int|
                front.len() - fewer <= i < front.len() && !(
                #[trigger] front[i]).contains(id);
            assert(series[gap] == front[gap]);
        }
    }
}

/// A swap is remembered as reported exactly if a list found it newly stuck.
proof fn lemma_reported_earlier(series: Seq<Seq<Seq<char>>>, id: Seq<char>)
    ensures
        after_lists(AlertsView::fresh(), series).reported_swaps.contains(id) <==> exists|at: int|
            0 <= at < series.len() && #[trigger] stuck_at(series, at).contains(id),
    decreases series.len(),
{
    if series.len() > 0 {
        let front = series.drop_last();
        let last = series.len() - 1;
        let before = after_lists(AlertsView::fresh(), front);
        let after = after_lists(AlertsView::fresh(), series);
        lemma_reported_earlier(front, id);
        newly_stuck_swaps(before, series.last());
        assert(series.take(last) =~= front);
        assert(series[last] == series.last());
        assert(after.reported_swaps.contains(id) <==> before.reported_swaps.contains(id)
            || stuck_at(series, last).contains(id));
        if before.reported_swaps.contains(id) {
            let at = choose|at: int|
                0 <= at < front.len() && #[trigger] stuck_at(front, at).contains(id);
            lemma_stuck_at_prefix(series, at);
            assert(stuck_at(series, at).contains(id));
        }
        if exists|at: int| 0 <= at < series.len() && #[trigger] stuck_at(series, at).contains(id) {
            let at = choose|at: int|
                0 <= at < series.len() && #[trigger] stuck_at(series, at).contains(id);
            if at < last {
                lemma_stuck_at_prefix(series, at);
                assert(stuck_at(front, at).contains(id));
            }
        }
    }
}

/// Among the first of some identifiers without duplicates, those newly found stuck are the ones
/// to be reported, in order.
proof fn lemma_newly_stuck_is_a_filter(
    state: AlertsView,
    ids: Seq<Seq<char>>,
    wanted: spec_fn(Seq<char>) -> bool,
    count: nat,
)
    requires
        ids.no_duplicates(),
        count <= ids.len(),
        forall|id: Seq<char>| #[trigger]
            ids.contains(id) ==> wanted(id) == (is_stuck(state.ticks_seen, ids, id)
                && !state.reported_swaps.contains(id)),
    ensures
        newly_stuck(state.ticks_seen, state.reported_swaps, ids.take(count as int)) == ids.take(
            count as int,
        ).filter(wanted),
    decreases count,
{
    reveal(Seq::filter);
    let part = ids.take(count as int);
    if count > 0 {
        let front = ids.take(count - 1);
        let id = ids[count - 1];
        lemma_newly_stuck_is_a_filter(state, ids, wanted, (count - 1) as nat);
        assert(part.drop_last() =~= front);
        assert(part.last() == id);
        assert(ids.contains(id));
        lemma_times_without_duplicates(ids, id);
        lemma_times_without_duplicates(part, id);
        lemma_times_without_duplicates(front, id);
        assert(part[count - 1] == id);
        assert(!front.contains(id));
    } else {
        assert(part =~= Seq::empty());
    }
}

/// The maker is down exactly if it failed.
pub proof fn the_maker_is_down_when_it_failed(seen: ObservationView)
    ensures
        seen.down() is Some,
        seen.down()->Some_0 <==> seen.phase is Failed,
{
}

/// From a state without the condition, the liquidity notice is raised exactly if both amounts were
/// read and the spendable one is below the smallest swap, and it names both.
pub proof fn liquidity_is_held_against_the_smallest_swap(state: AlertsView, seen: ObservationView)
    requires
        !state.liquidity_exhausted,
    ensures
        state.after(seen).liquidity_exhausted <==> seen.spendable_sat is Some
            && seen.min_swap_sat is Some && seen.spendable_sat->Some_0 < seen.min_swap_sat->Some_0,
        state.condition_notices(seen).contains(
            liquidity_notice(seen.spendable_sat->Some_0, seen.min_swap_sat->Some_0),
        ) <==> seen.spendable_sat is Some && seen.min_swap_sat is Some && seen.spendable_sat->Some_0
            < seen.min_swap_sat->Some_0,
        text::mentions(
            liquidity_notice(seen.spendable_sat->Some_0, seen.min_swap_sat->Some_0).body,
            text::decimal(seen.min_swap_sat->Some_0 as nat),
        ),
        text::mentions(
            liquidity_notice(seen.spendable_sat->Some_0, seen.min_swap_sat->Some_0).body,
            text::decimal(seen.spendable_sat->Some_0 as nat),
        ),
{
    broadcast use {text::lemma_mentions_end, text::lemma_mentions_front};

    lemma_which_notices(state, seen);
    text::lemma_mentions_itself(text::decimal(seen.spendable_sat->Some_0 as nat));
}

/// A condition whose readings are both there clears exactly if the spendable amount suffices.
pub proof fn liquidity_is_back_when_it_suffices(state: AlertsView, seen: ObservationView)
    requires
        state.liquidity_exhausted,
    ensures
        !state.after(seen).liquidity_exhausted <==> seen.spendable_sat is Some
            && seen.min_swap_sat is Some && seen.spendable_sat->Some_0 >= seen.min_swap_sat->Some_0,
{
}

/// From a state without the condition, the bond notice is raised exactly if the blocks were read
/// and are no more than two weeks' worth, and it names them. It clears once there are more.
pub proof fn a_bond_is_warned_about_two_weeks_ahead(state: AlertsView, seen: ObservationView)
    ensures
        !state.bond_expiring ==> (state.condition_notices(seen).contains(
            bond_notice(seen.bond_expiry_blocks->Some_0),
        ) <==> seen.bond_expiry_blocks is Some && seen.bond_expiry_blocks->Some_0 <= 14 * 144),
        !state.bond_expiring ==> (state.after(seen).bond_expiring
            <==> seen.bond_expiry_blocks is Some && seen.bond_expiry_blocks->Some_0 <= 14 * 144),
        state.bond_expiring ==> (!state.after(seen).bond_expiring
            <==> seen.bond_expiry_blocks is Some && seen.bond_expiry_blocks->Some_0 > 14 * 144),
        text::mentions(
            bond_notice(seen.bond_expiry_blocks->Some_0).body,
            text::decimal(seen.bond_expiry_blocks->Some_0 as nat),
        ),
{
    broadcast use {text::lemma_mentions_end, text::lemma_mentions_front};

    lemma_which_notices(state, seen);
    text::lemma_mentions_itself(text::decimal(seen.bond_expiry_blocks->Some_0 as nat));
}

/// From a state without the condition, the notice that the maker is down is raised exactly if it
/// failed, and it gives the reason. It clears as soon as the maker is seen otherwise.
pub proof fn a_failed_maker_is_reported_with_its_reason(state: AlertsView, seen: ObservationView)
    ensures
        !state.maker_down ==> (state.condition_notices(seen).contains(down_notice(seen.phase))
            <==> seen.phase is Failed),
        state.after(seen).maker_down <==> seen.phase is Failed,
        seen.phase matches PhaseView::Failed(reason) ==> text::mentions(
            down_notice(seen.phase).body,
            reason,
        ),
{
    broadcast use {text::lemma_mentions_end, text::lemma_mentions_front};

    lemma_which_notices(state, seen);
}

/// Each notice has a title of its own.
proof fn lemma_titles_differ()
    ensures
        "The coinswap maker is down"@ != "The coinswap maker has run out of liquidity"@,
        "The coinswap maker is down"@ != "The coinswap fidelity bond is nearing expiry"@,
        "The coinswap maker has run out of liquidity"@
            != "The coinswap fidelity bond is nearing expiry"@,
{
    reveal_strlit("The coinswap maker is down");
    reveal_strlit("The coinswap maker has run out of liquidity");
    reveal_strlit("The coinswap fidelity bond is nearing expiry");
    assert("The coinswap maker is down"@.len() == 26);
    assert("The coinswap maker has run out of liquidity"@.len() == 43);
    assert("The coinswap fidelity bond is nearing expiry"@.len() == 44);
}

/// Which of the three notices an observation raises.
proof fn lemma_which_notices(state: AlertsView, seen: ObservationView)
    ensures
        ({
            let notices = state.condition_notices(seen);
            let down = down_notice(seen.phase);
            let dry = liquidity_notice(seen.spendable_sat->Some_0, seen.min_swap_sat->Some_0);
            let bond = bond_notice(seen.bond_expiry_blocks->Some_0);
            &&& notices.contains(down) <==> condition_starts(state.maker_down, seen.down())
            &&& notices.contains(dry) <==> condition_starts(
                state.liquidity_exhausted,
                seen.illiquid(),
            )
            &&& notices.contains(bond) <==> condition_starts(state.bond_expiring, seen.expiring())
        }),
{
    lemma_titles_differ();
    let down = down_notice(seen.phase);
    let dry = liquidity_notice(seen.spendable_sat->Some_0, seen.min_swap_sat->Some_0);
    let bond = bond_notice(seen.bond_expiry_blocks->Some_0);
    let first = notice_if(condition_starts(state.maker_down, seen.down()), down);
    let second = notice_if(condition_starts(state.liquidity_exhausted, seen.illiquid()), dry);
    let third = notice_if(condition_starts(state.bond_expiring, seen.expiring()), bond);
    let notices = state.condition_notices(seen);
    assert(notices == first + second + third);
    if first.len() > 0 {
        assert(notices[0] == down);
    }
    if second.len() > 0 {
        assert(notices[first.len() as int] == dry);
    }
    if third.len() > 0 {
        assert(notices[(first + second).len() as int] == bond);
    }
}

/// An observation raises the notices about the maker as a whole first, at most three, and then one
/// for each swap newly found stuck, which names it. Before they are sent each is given the link.
pub proof fn all_notices_are_raised(
    state: AlertsView,
    seen: ObservationView,
    link: Seq<char>,
    at: int,
)
    ensures
        ({
            let stuck = newly_stuck(
                state.ticks_seen,
                state.reported_swaps,
                seen.unfinished_funded_swaps,
            );
            let raised = state.raised(seen);
            let general = state.condition_notices(seen);
            &&& general.len() <= 3
            &&& raised.len() == general.len() + stuck.len()
            &&& 0 <= at < general.len() ==> raised[at] == general[at]
            &&& 0 <= at < stuck.len() ==> text::mentions(
                raised[general.len() + at].body,
                stuck[at],
            )
            &&& 0 <= at < raised.len() ==> {
                &&& raised[at].link is None
                &&& raised[at].linked(link).link == Some(link)
                &&& raised[at].linked(link).title == raised[at].title
                &&& raised[at].linked(link).body == raised[at].body
            }
        }),
{
    broadcast use {text::lemma_mentions_end, text::lemma_mentions_front};

}

/// The half hour after which a swap counts as stuck is what its notice says.
pub proof fn a_stuck_swap_is_reported_with_the_time(id: Seq<char>)
    ensures
        text::mentions(stuck_notice(id).body, id),
        text::mentions(stuck_notice(id).body, text::decimal(30)),
{
    broadcast use {text::lemma_mentions_end, text::lemma_mentions_front};

    assert((STUCK_TICKS * POLL_INTERVAL / 60) as nat == 30);
}

/// Only what is in a list is counted, once for each time it is there.
pub proof fn swaps_are_counted_one_by_one(some: Seq<Seq<char>>, last: Seq<char>, id: Seq<char>)
    ensures
        times(Seq::empty(), id) == 0,
        times(some.push(last), id) == times(some, id) + if last == id {
            1nat
        } else {
            0nat
        },
        times(some, id) > 0 <==> some.contains(id),
    decreases some.len(),
{
    assert(some.push(last).drop_last() =~= some);
    if some.len() > 0 {
        let front = some.drop_last();
        swaps_are_counted_one_by_one(front, some.last(), id);
        assert(front.push(some.last()) =~= some);
        if front.contains(id) {
            let at = choose|i: int| 0 <= i < front.len() && front[i] == id;
            assert(some[at] == id);
        }
        if some.contains(id) && some.last() != id {
            let at = choose|i: int| 0 <= i < some.len() && some[i] == id;
            assert(front[at] == id);
        }
        if some.last() == id {
            assert(some[some.len() - 1] == id);
        }
    }
}

/// A watcher looks once a minute, and ends its wait otherwise only when asked to stop.
pub proof fn a_watcher_looks_once_a_minute(watcher: WatcherView, slot: WatcherSlotView, slept: u128)
    ensures
        !watcher.asked_to_stop(slot) ==> (watcher.waiting(slot, slept) is Over <==> slept
            >= 60_000_000_000),
        watcher.waiting(slot, slept) == Nap::Over(true) <==> watcher.asked_to_stop(slot),
        watcher.stop_requested ==> watcher.asked_to_stop(slot),
        watcher.number is None && !watcher.stop_requested ==> !watcher.asked_to_stop(slot),
{
}

/// A watcher begins with nothing seen, leading to the link it was given. A look raises every notice
/// that its observation calls for, in order and each leading to that link, and keeps what was seen.
/// Asking it to stop is heard, and putting it in a slot gives it the slot's number.
pub proof fn a_watcher_leads_where_it_was_told(
    watcher: WatcherView,
    link: Seq<char>,
    seen: ObservationView,
    slot: WatcherSlotView,
    at: int,
)
    ensures
        WatcherView::started(link).link == link,
        !WatcherView::started(link).stop_requested,
        WatcherView::started(link).number is None,
        !WatcherView::started(link).asked_to_stop(slot),
        !WatcherView::started(link).alerts.maker_down,
        !WatcherView::started(link).alerts.liquidity_exhausted,
        !WatcherView::started(link).alerts.bond_expiring,
        watcher.seen(seen).len() == watcher.alerts.raised(seen).len(),
        0 <= at < watcher.seen(seen).len() ==> {
            let notice = watcher.seen(seen)[at];
            &&& notice.title == watcher.alerts.raised(seen)[at].title
            &&& notice.body == watcher.alerts.raised(seen)[at].body
            &&& notice.link == Some(watcher.link)
        },
        watcher.after_look(seen).alerts == watcher.alerts.after(seen),
        watcher.after_look(seen).link == watcher.link,
        watcher.after_look(seen).stop_requested == watcher.stop_requested,
        watcher.after_look(seen).number == watcher.number,
        watcher.stopped().asked_to_stop(slot),
        watcher.stopped().alerts == watcher.alerts && watcher.stopped().link == watcher.link
            && watcher.stopped().number == watcher.number,
        watcher.placed(slot).number == slot.current,
        watcher.placed(slot).alerts == watcher.alerts && watcher.placed(slot).link == watcher.link
            && watcher.placed(slot).stop_requested == watcher.stop_requested,
{
}

/// A notification that the host did not take is logged as an error, with the reason.
pub proof fn a_lost_notification_is_logged(error: Seq<char>)
    ensures
        failure_line(error).is_error,
        text::mentions(failure_line(error).text, error),
{
    broadcast use {text::lemma_mentions_end, text::lemma_mentions_front};

}

/// What the notices say, with what they say it of in its place: the reason, what there is to spend
/// before what would be needed, the blocks, and the swap.
pub proof fn what_the_notices_say(
    reason: Seq<char>,
    spendable: u64,
    minimum: u64,
    blocks: u64,
    id: Seq<char>,
)
    ensures
        down_notice(PhaseView::Failed(reason)).title == "The coinswap maker is down"@,
        ("It stopped with: "@ + reason).is_prefix_of(down_notice(PhaseView::Failed(reason)).body),
        liquidity_notice(spendable, minimum).title
            == "The coinswap maker has run out of liquidity"@,
        (text::decimal(spendable as nat) + " sats spendable, below the "@ + text::decimal(
            minimum as nat,
        )).is_prefix_of(liquidity_notice(spendable, minimum).body),
        bond_notice(blocks).title == "The coinswap fidelity bond is nearing expiry"@,
        text::decimal(blocks as nat).is_prefix_of(bond_notice(blocks).body),
        stuck_notice(id).title == "A coinswap is stuck"@,
        ("Swap "@ + id + " has funding on chain and has not moved for "@ + text::decimal(
            30,
        )).is_prefix_of(stuck_notice(id).body),
        failure_line(id).text == "Could not raise a notification: "@ + id,
        STOP_DEADLINE == 5,
{
    broadcast use {text::lemma_begins_itself, text::lemma_begins_more};

    assert((STUCK_TICKS * POLL_INTERVAL / 60) as nat == 30);
}

/// Ticks are kept for exactly the swaps that were seen, and are those of before and those of now. A
/// swap counts as reported once it was, or once it is seen and has been for thirty ticks. The
/// conditions of the maker as a whole are not touched by it.
pub proof fn ticks_are_kept_for_what_was_seen(
    state: AlertsView,
    ids: Seq<Seq<char>>,
    id: Seq<char>,
)
    ensures
        ({
            let before: nat = if state.ticks_seen.contains_key(id) {
                state.ticks_seen[id] as nat
            } else {
                0
            };
            let after = state.after_swaps(ids);
            &&& state.has_room(ids) ==> times(ids, id) + before <= 0xffff_ffff
            &&& after.ticks_seen.contains_key(id) <==> ids.contains(id)
            &&& state.has_room(ids) && ids.contains(id) ==> after.ticks_seen[id] == times(ids, id)
                + before
            &&& after.reported_swaps.contains(id) <==> state.reported_swaps.contains(id) || (
            ids.contains(id) && times(ids, id) + before >= 30)
            &&& after.maker_down == state.maker_down
            &&& after.liquidity_exhausted == state.liquidity_exhausted
            &&& after.bond_expiring == state.bond_expiring
        }),
        (forall|other: Seq<char>|
            #[trigger] times(ids, other) + (if state.ticks_seen.contains_key(other) {
                state.ticks_seen[other] as nat
            } else {
                0nat
            }) <= 0xffff_ffff) ==> state.has_room(ids),
{
    swaps_are_counted_one_by_one(ids, id, id);
    assert(ticks_of(state.ticks_seen, ids, id) >= 0);
    if forall|other: Seq<char>|
        #[trigger] times(ids, other) + (if state.ticks_seen.contains_key(other) {
            state.ticks_seen[other] as nat
        } else {
            0nat
        }) <= 0xffff_ffff {
        assert forall|other: Seq<char>| #[trigger]
            ticks_of(state.ticks_seen, ids, other) <= u32::MAX by {
            assert(times(ids, other) >= 0);
        }
    }
}

/// Replacing puts the next number in the slot, and clearing takes whatever is there out of it. A
/// series of steps is taken one by one.
pub proof fn the_slot_takes_its_steps_one_by_one(
    slot: WatcherSlotView,
    some: Seq<SlotStep>,
    step: SlotStep,
)
    ensures
        slot.placed < u64::MAX ==> {
            &&& slot.after(SlotStep::Replace).placed == slot.placed + 1
            &&& slot.after(SlotStep::Replace).current == Some((slot.placed + 1) as u64)
        },
        slot.after(SlotStep::Clear).current is None,
        slot.after(SlotStep::Clear).placed == slot.placed,
        slot.after_all(Seq::empty()) == slot,
        slot.after_all(some.push(step)) == slot.after_all(some).after(step),
        WatcherSlotView::fresh().current is None && WatcherSlotView::fresh().placed == 0,
{
    assert(some.push(step).drop_last() =~= some);
}

/// Notifications and observations are taken as they are, field by field and one by one.
pub proof fn observations_are_taken_as_they_are(
    notices: Seq<Notification>,
    at: int,
    seen: Observation,
)
    ensures
        NotificationView::of(notices).len() == notices.len(),
        0 <= at < notices.len() ==> {
            let notice = NotificationView::of(notices)[at];
            &&& notice.title == notices[at].title@
            &&& notice.body == notices[at].body@
            &&& notice.link == text::optional(notices[at].link)
        },
        seen@.phase == seen.phase@,
        seen@.spendable_sat == seen.spendable_sat,
        seen@.min_swap_sat == seen.min_swap_sat,
        seen@.bond_expiry_blocks == seen.bond_expiry_blocks,
        seen@.unfinished_funded_swaps == text::all(seen.unfinished_funded_swaps@),
{
}

} // verus!
