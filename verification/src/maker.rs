//! The maker: its lifecycle, its records of swaps, and what the dashboard and the watcher see.

use vstd::prelude::*;

use vstd::hash_set::StringHashSet;

use crate::alerts::{Observation, ObservationView};
use crate::lifecycle::LifecycleView;
use crate::runtime;
use crate::runtime::{Runtime, ServerReadings, ServerReadingsView, StopStep};
use crate::shared::{Balances, Phase, PhaseView};
use crate::text;
use crate::text::{same_text, shorten};

verus! {

/// How many characters of a swap's identifier are shown.
pub const SHORT_ID: usize = 16;

/// For how many seconds a swap may stay unchanged before its recovery counts as stalled: a day.
pub const STALE_AFTER: u64 = 86_400;

/// One swap the maker has a record of.
///
/// Owned rather than borrowed: the tracker sits behind a mutex the maker itself takes.
#[derive(PartialEq, Eq, Debug)]
pub struct SwapRecord {
    /// Short identifier, as it is logged.
    pub id: String,
    /// What the tracker knows the swap by.
    pub tracker_key: String,
    pub phase: String,
    pub recovery: String,
    pub amount_sat: u64,
    /// Whether a funding transaction reached the chain.
    ///
    /// If false there is nothing on-chain to recover.
    pub funded: bool,
    /// When the record last changed, in seconds since the Unix epoch.
    pub updated_at: u64,
}

/// What a [`SwapRecord`] holds.
#[verifier::ext_equal]
pub struct SwapRecordView {
    pub id: Seq<char>,
    pub tracker_key: Seq<char>,
    pub phase: Seq<char>,
    pub recovery: Seq<char>,
    pub amount_sat: u64,
    pub funded: bool,
    pub updated_at: u64,
}

impl View for SwapRecord {
    type V = SwapRecordView;

    open spec fn view(&self) -> SwapRecordView {
        SwapRecordView {
            id: self.id@,
            tracker_key: self.tracker_key@,
            phase: self.phase@,
            recovery: self.recovery@,
            amount_sat: self.amount_sat,
            funded: self.funded,
            updated_at: self.updated_at,
        }
    }
}

impl SwapRecordView {
    /// What some records hold.
    pub open spec fn of(records: Seq<SwapRecord>) -> Seq<SwapRecordView> {
        records.map_values(|record: SwapRecord| record@)
    }

    /// Whether the swap still has funds on chain that recovery has not finished returning.
    pub open spec fn at_stake(self) -> bool {
        self.funded && self.recovery != "CleanedUp"@ && self.phase != "Completed"@
    }

    /// Whether the record has not changed for over a day.
    pub open spec fn stale(self, now: u64) -> bool {
        now - self.updated_at > STALE_AFTER
    }
}

impl SwapRecord {
    /// True when this swap still has funds on chain that recovery has not finished returning.
    pub fn funds_at_stake(&self) -> (result: bool)
        ensures
            result == self@.at_stake(),
    {
        self.funded && !same_text(self.recovery.as_str(), "CleanedUp") && !same_text(
            self.phase.as_str(),
            "Completed",
        )
    }

    /// True when the record has not changed for over a day, so recovery is not advancing it.
    pub fn is_stale(&self, now: u64) -> (result: bool)
        ensures
            result == self@.stale(now),
    {
        now.saturating_sub(self.updated_at) > STALE_AFTER
    }
}

/// A swap as the maker's tracker has it.
pub struct TrackedSwap {
    pub swap_id: String,
    pub phase: String,
    pub recovery: String,
    pub swap_amount_sat: u64,
    pub funding_broadcast: bool,
    pub updated_at: u64,
}

impl TrackedSwap {
    /// The record the dashboard shows of it.
    pub open spec fn recorded(self) -> SwapRecordView {
        SwapRecordView {
            id: text::shortened(self.swap_id@, SHORT_ID as nat),
            tracker_key: self.swap_id@,
            phase: self.phase@,
            recovery: self.recovery@,
            amount_sat: self.swap_amount_sat,
            funded: self.funding_broadcast,
            updated_at: self.updated_at,
        }
    }

    /// The record the dashboard shows of it.
    pub fn record(&self) -> (result: SwapRecord)
        ensures
            result@ == self.recorded(),
    {
        SwapRecord {
            id: shorten(self.swap_id.as_str(), SHORT_ID),
            tracker_key: self.swap_id.clone(),
            phase: self.phase.clone(),
            recovery: self.recovery.clone(),
            amount_sat: self.swap_amount_sat,
            funded: self.funding_broadcast,
            updated_at: self.updated_at,
        }
    }
}

/// What could be read of the maker server, its swap tracker and the chain.
pub struct MakerReadings {
    pub server: ServerReadings,
    /// The heights at which the fidelity bonds mature.
    pub maturities: Vec<u64>,
    /// The height of the chain. Absent when it could not be read.
    pub tip: Option<u64>,
    /// The smallest swap the maker advertises.
    pub min_swap_sat: u64,
    /// Unfinished swaps, newest first. Absent when the tracker was locked.
    pub swaps: Option<Vec<TrackedSwap>>,
}

/// What [`MakerReadings`] hold.
#[verifier::ext_equal]
pub struct MakerReadingsView {
    pub server: ServerReadingsView,
    pub maturities: Seq<u64>,
    pub tip: Option<u64>,
    pub min_swap_sat: u64,
    pub swaps: Seq<SwapRecordView>,
}

impl View for MakerReadings {
    type V = MakerReadingsView;

    open spec fn view(&self) -> MakerReadingsView {
        MakerReadingsView {
            server: self.server@,
            maturities: self.maturities@,
            tip: self.tip,
            min_swap_sat: self.min_swap_sat,
            swaps: match self.swaps {
                Some(swaps) => swaps@.map_values(|swap: TrackedSwap| swap.recorded()),
                None => Seq::empty(),
            },
        }
    }
}

impl MakerReadings {
    /// What optional readings hold.
    pub open spec fn view_of(readings: Option<MakerReadings>) -> Option<MakerReadingsView> {
        match readings {
            Some(readings) => Some(readings@),
            None => None,
        }
    }
}

/// A point-in-time view of the maker, cheap enough to build on every page load.
///
/// A snapshot, so rendering never holds the wallet lock while the maker wants it.
pub struct Status {
    pub phase: Phase,
    /// Wallet balances, absent when the maker is down or the wallet lock was busy.
    pub balances: Option<Balances>,
    /// Whether a swap is in flight. `None` when it could not be determined.
    pub ongoing_swaps: Option<bool>,
    /// Fidelity bonds held, as (amount in sats, locktime).
    pub bonds: Vec<(u64, String)>,
    /// True when the wallet was locked, so balances and bonds could not be read.
    ///
    /// Not an error: normal for seconds at a time, and continuous while waiting to be funded.
    pub wallet_busy: bool,
    /// The port takers reach this maker on, when it is up.
    pub port: Option<u16>,
    /// Swaps the maker has records for, newest first. Empty when it has none or was busy.
    pub swaps: Vec<SwapRecord>,
}

/// What a [`Status`] holds.
#[verifier::ext_equal]
pub struct StatusView {
    pub phase: PhaseView,
    pub balances: Option<Balances>,
    pub ongoing_swaps: Option<bool>,
    pub bonds: Seq<(u64, Seq<char>)>,
    pub wallet_busy: bool,
    pub port: Option<u16>,
    pub swaps: Seq<SwapRecordView>,
}

impl View for Status {
    type V = StatusView;

    open spec fn view(&self) -> StatusView {
        StatusView {
            phase: self.phase@,
            balances: self.balances,
            ongoing_swaps: self.ongoing_swaps,
            bonds: runtime::bonds_view(self.bonds@),
            wallet_busy: self.wallet_busy,
            port: self.port,
            swaps: SwapRecordView::of(self.swaps@),
        }
    }
}

impl StatusView {
    /// A status of the server together with records of swaps.
    pub open spec fn of(server: runtime::StatusView, swaps: Seq<SwapRecordView>) -> StatusView {
        StatusView {
            phase: server.phase,
            balances: server.balances,
            ongoing_swaps: server.ongoing_swaps,
            bonds: server.bonds,
            wallet_busy: server.wallet_busy,
            port: server.port,
            swaps,
        }
    }
}

/// The least of some numbers, if there is any.
pub open spec fn least(numbers: Seq<u64>) -> Option<u64>
    decreases numbers.len(),
{
    if numbers.len() == 0 {
        None
    } else {
        match least(numbers.drop_last()) {
            Some(before) if before <= numbers.last() => Some(before),
            _ => Some(numbers.last()),
        }
    }
}

/// How many blocks are left until the first of some bonds matures. Not known without a bond, or
/// without the height of the chain.
pub open spec fn expiry(maturities: Seq<u64>, tip: Option<u64>) -> Option<u64> {
    match (least(maturities), tip) {
        (Some(height), Some(tip)) => Some(
            if height > tip {
                (height - tip) as u64
            } else {
                0
            },
        ),
        _ => None,
    }
}

/// What the watcher sees of a maker in this state, with these readings.
pub open spec fn observation_of(
    state: MakerView,
    readings: Option<MakerReadingsView>,
) -> ObservationView {
    match readings {
        Some(readings) if state.lifecycle.open => {
            let status = status_of(state, Some(readings));
            ObservationView {
                phase: status.phase,
                spendable_sat: match status.balances {
                    Some(balances) => Some(balances.spendable),
                    None => None,
                },
                min_swap_sat: if status.phase is Running {
                    Some(readings.min_swap_sat)
                } else {
                    None
                },
                bond_expiry_blocks: expiry(readings.maturities, readings.tip),
                unfinished_funded_swaps: funded_ids(status.swaps),
            }
        },
        _ => ObservationView::only_phase(state.lifecycle.phase),
    }
}

/// The identifiers of the swaps that still have funds at stake, in order.
pub open spec fn funded_ids(swaps: Seq<SwapRecordView>) -> Seq<Seq<char>> {
    swaps.filter(|swap: SwapRecordView| swap.at_stake()).map_values(
        |swap: SwapRecordView| swap.id,
    )
}

/// The records that were not dismissed, in order.
pub open spec fn shown(swaps: Seq<SwapRecordView>, dismissed: Set<Seq<char>>) -> Seq<
    SwapRecordView,
> {
    swaps.filter(|swap: SwapRecordView| !dismissed.contains(swap.tracker_key))
}

/// The status of a maker in this state, with these readings.
pub open spec fn status_of(state: MakerView, readings: Option<MakerReadingsView>) -> StatusView {
    match readings {
        Some(readings) if state.lifecycle.open => StatusView::of(
            runtime::status_of(state.lifecycle, Some(readings.server)),
            shown(readings.swaps, state.dismissed),
        ),
        _ => StatusView::of(runtime::status_of(state.lifecycle, None), Seq::empty()),
    }
}

/// Starts and stops the maker, and answers questions about it.
pub struct MakerRuntime {
    runtime: Runtime,
    /// What the tracker knows the swaps by that the operator has dismissed.
    dismissed: StringHashSet,
}

/// What a [`MakerRuntime`] holds.
#[verifier::ext_equal]
pub struct MakerView {
    pub lifecycle: LifecycleView,
    pub dismissed: Set<Seq<char>>,
}

impl View for MakerRuntime {
    type V = MakerView;

    closed spec fn view(&self) -> MakerView {
        MakerView { lifecycle: self.runtime@, dismissed: self.dismissed@ }
    }
}

impl MakerView {
    /// Nothing started and nothing dismissed.
    pub open spec fn fresh() -> MakerView {
        MakerView { lifecycle: LifecycleView::fresh(), dismissed: Set::empty() }
    }

    /// The state after the swap with this key was dismissed, which takes an open wallet.
    pub open spec fn without(self, key: Seq<char>) -> MakerView {
        if self.lifecycle.open {
            MakerView { dismissed: self.dismissed.insert(key), ..self }
        } else {
            self
        }
    }
}

/// What the operator is told about a dismissal.
pub open spec fn dismissal(state: MakerView) -> Result<Seq<char>, Seq<char>> {
    match runtime::drain_guard(state.lifecycle) {
        Ok(()) => Ok("Swap dismissed. Nothing on chain has changed."@),
        Err(why) => Err(why),
    }
}

/// The records of some swaps, without those that were dismissed.
fn records(swaps: &Vec<TrackedSwap>, dismissed: &StringHashSet) -> (result: Vec<SwapRecord>)
    ensures
        SwapRecordView::of(result@) == shown(
            swaps@.map_values(|swap: TrackedSwap| swap.recorded()),
            dismissed@,
        ),
{
    let ghost all = swaps@.map_values(|swap: TrackedSwap| swap.recorded());
    let mut result: Vec<SwapRecord> = Vec::new();
    let mut at: usize = 0;
    proof {
        reveal(Seq::filter);
        assert(all.take(0) =~= Seq::empty());
        assert(SwapRecordView::of(result@) =~= shown(all.take(0), dismissed@));
    }
    while at < swaps.len()
        invariant
            at <= swaps@.len(),
            all == swaps@.map_values(|swap: TrackedSwap| swap.recorded()),
            SwapRecordView::of(result@) == shown(all.take(at as int), dismissed@),
        decreases swaps@.len() - at,
    {
        let ghost before = SwapRecordView::of(result@);
        let ghost next = all.take(at + 1);
        proof {
            reveal(Seq::filter);
            assert(next.drop_last() =~= all.take(at as int));
            assert(next.last() == swaps@[at as int].recorded());
        }
        let record = swaps[at].record();
        if !dismissed.contains(record.tracker_key.as_str()) {
            result.push(record);
            assert(SwapRecordView::of(result@) =~= before.push(record@));
        }
        assert(SwapRecordView::of(result@) =~= shown(next, dismissed@));
        at = at + 1;
    }
    assert(all.take(at as int) =~= all);
    result
}

/// The least of some numbers, if there is any.
fn minimum(numbers: &Vec<u64>) -> (result: Option<u64>)
    ensures
        result == least(numbers@),
{
    let mut result: Option<u64> = None;
    let mut at: usize = 0;
    assert(numbers@.take(0) =~= Seq::empty());
    while at < numbers.len()
        invariant
            at <= numbers@.len(),
            result == least(numbers@.take(at as int)),
        decreases numbers@.len() - at,
    {
        assert(numbers@.take(at + 1).drop_last() =~= numbers@.take(at as int));
        result = match result {
            Some(before) if before <= numbers[at] => Some(before),
            _ => Some(numbers[at]),
        };
        at = at + 1;
    }
    assert(numbers@.take(at as int) =~= numbers@);
    result
}

/// The identifiers of the swaps that still have funds at stake, in order.
fn ids_at_stake(swaps: &Vec<SwapRecord>) -> (result: Vec<String>)
    ensures
        text::all(result@) == funded_ids(SwapRecordView::of(swaps@)),
{
    let mut result: Vec<String> = Vec::new();
    let mut at: usize = 0;
    let ghost seen = SwapRecordView::of(swaps@);
    let ghost keep = |swap: SwapRecordView| swap.at_stake();
    proof {
        reveal(Seq::filter);
        assert(seen.take(0) =~= Seq::empty());
        assert(text::all(result@) =~= funded_ids(seen.take(0)));
    }
    while at < swaps.len()
        invariant
            at <= swaps@.len(),
            seen == SwapRecordView::of(swaps@),
            text::all(result@) == funded_ids(seen.take(at as int)),
        decreases swaps@.len() - at,
    {
        let ghost before = text::all(result@);
        let ghost next = seen.take(at + 1);
        proof {
            reveal(Seq::filter);
            assert(next.drop_last() =~= seen.take(at as int));
            assert(next.last() == swaps@[at as int]@);
        }
        if swaps[at].funds_at_stake() {
            result.push(swaps[at].id.clone());
            assert(text::all(result@) =~= before.push(swaps@[at as int].id@));
        }
        assert(text::all(result@) =~= funded_ids(next));
        at = at + 1;
    }
    assert(seen.take(at as int) =~= seen);
    result
}

impl MakerRuntime {
    /// A runtime with no maker running.
    pub fn new() -> (result: Self)
        ensures
            result@ == MakerView::fresh(),
    {
        MakerRuntime { runtime: Runtime::new(), dismissed: StringHashSet::new() }
    }

    /// The part that the maker's thread and whoever stops it work on.
    pub fn thread(&mut self) -> (result: &mut Runtime)
        ensures
            result@ == old(self)@.lifecycle,
            final(self)@ == (MakerView { lifecycle: final(result)@, ..old(self)@ }),
    {
        &mut self.runtime
    }

    /// What the maker is doing, without querying it.
    pub fn phase(&self) -> (result: Phase)
        ensures
            result@ == self@.lifecycle.phase,
    {
        self.runtime.phase()
    }

    /// True when a maker is starting or running.
    pub fn is_live(&self) -> (result: bool)
        ensures
            result == self@.lifecycle.phase.live(),
    {
        self.runtime.is_live()
    }

    /// True when the wallet is open and can be queried, which outlasts a failed start.
    pub fn wallet_open(&self) -> (result: bool)
        ensures
            result == self@.lifecycle.open,
    {
        self.runtime.wallet_open()
    }

    /// Returns a new wallet's recovery phrase the first time it is asked for, and nothing after.
    ///
    /// Takes rather than reads, so a page reload cannot put it back on screen.
    pub fn take_new_mnemonic(&mut self) -> (result: Option<String>)
        ensures
            text::optional(result) == old(self)@.lifecycle.new_mnemonic,
            final(self)@ == (MakerView {
                lifecycle: old(self)@.lifecycle.phrase_taken(),
                ..old(self)@
            }),
    {
        self.runtime.take_new_mnemonic()
    }

    /// Prepares to start a maker, unless one is already live.
    pub fn start(&mut self) -> (result: Result<(), String>)
        ensures
            text::failure(result) == old(self)@.lifecycle.start_granted(
                "The maker is already running."@,
            ),
            final(self)@ == (MakerView {
                lifecycle: old(self)@.lifecycle.begun(),
                ..old(self)@
            }),
    {
        self.runtime.start()
    }

    /// Asks the maker to stop. There is nothing to wait for if none was ever started, which is shut.
    pub fn stop(&mut self) -> (result: StopStep)
        ensures
            result == StopStep::Done ==> !final(self)@.lifecycle.open
                && !final(self)@.lifecycle.phase.live(),
            result == runtime::stop_step(old(self)@.lifecycle, old(self)@.lifecycle.open),
            final(self)@ == (MakerView {
                lifecycle: old(self)@.lifecycle.asked_to_stop(),
                ..old(self)@
            }),
    {
        self.runtime.stop()
    }

    /// A point-in-time view of the maker for the dashboard, from what could be read of it.
    pub fn status(&self, readings: Option<MakerReadings>) -> (result: Status)
        ensures
            result@ == status_of(self@, MakerReadings::view_of(readings)),
    {
        let open = self.runtime.wallet_open();
        let mut swaps: Vec<SwapRecord> = Vec::new();
        assert(SwapRecordView::of(swaps@) =~= Seq::empty());
        let server = match readings {
            Some(readings) => {
                if open {
                    if let Some(unfinished) = &readings.swaps {
                        swaps = records(unfinished, &self.dismissed);
                    } else {
                        proof {
                            reveal(Seq::filter);
                            assert(shown(Seq::empty(), self@.dismissed) =~= Seq::empty());
                        }
                    }
                }
                Some(readings.server)
            },
            None => None,
        };
        let status = self.runtime.status(server);
        Status {
            phase: status.phase,
            balances: status.balances,
            ongoing_swaps: status.ongoing_swaps,
            bonds: status.bonds,
            wallet_busy: status.wallet_busy,
            port: status.port,
            swaps,
        }
    }

    /// What the watcher sees of the maker, from what could be read of it.
    pub fn observe(&self, readings: Option<MakerReadings>) -> (result: Observation)
        ensures
            result@ == observation_of(self@, MakerReadings::view_of(readings)),
    {
        if !self.wallet_open() {
            return Observation::only_phase(self.phase());
        }
        let readings = match readings {
            Some(readings) => readings,
            None => {
                return Observation::only_phase(self.phase());
            },
        };
        let bond_expiry_blocks = match (minimum(&readings.maturities), readings.tip) {
            (Some(height), Some(tip)) => Some(height.saturating_sub(tip)),
            _ => None,
        };
        let min_swap_sat: u64 = readings.min_swap_sat;
        let status = self.status(Some(readings));
        let unfinished_funded_swaps = ids_at_stake(&status.swaps);
        let running = matches!(status.phase, Phase::Running);
        Observation {
            phase: status.phase,
            spendable_sat: match status.balances {
                Some(balances) => Some(balances.spendable),
                None => None,
            },
            min_swap_sat: if running {
                Some(min_swap_sat)
            } else {
                None
            },
            bond_expiry_blocks,
            unfinished_funded_swaps,
        }
    }

    /// Whether a fresh address for funding the maker's wallet can be asked for.
    pub fn receive_address(&self) -> (result: Result<(), String>)
        ensures
            text::failure(result) == runtime::address_guard(self@.lifecycle),
    {
        self.runtime.receive_address()
    }

    /// Whether the maker can be asked to clear out idle swaps.
    pub fn drain_idle_swaps(&self) -> (result: Result<(), String>)
        ensures
            text::failure(result) == runtime::drain_guard(self@.lifecycle),
    {
        self.runtime.drain_idle_swaps()
    }

    /// Stops showing the swap with this key, on the dashboard and to the watcher.
    pub fn dismiss_swap(&mut self, key: &str) -> (result: Result<String, String>)
        ensures
            text::either(result) == dismissal(old(self)@),
            final(self)@ == old(self)@.without(key@),
    {
        match self.runtime.drain_idle_swaps() {
            Ok(()) => {
                self.dismissed.insert(key.to_string());
                Ok("Swap dismissed. Nothing on chain has changed.".to_string())
            },
            Err(why) => Err(why),
        }
    }
}

impl Default for MakerRuntime {
    fn default() -> (result: Self)
        ensures
            result@ == MakerView::fresh(),
    {
        MakerRuntime::new()
    }
}

/// The status has the maker's phase and, while the wallet is shut, nothing else. While it is open
/// the status has what was read: the port, balances and bonds unless the wallet was busy, and
/// records of unfinished swaps, each with the first sixteen characters of its identifier.
pub proof fn the_status_is_what_was_read(state: MakerView, readings: MakerReadings)
    ensures
        ({
            let status = status_of(state, Some(readings@));
            &&& status.phase == state.lifecycle.phase
            &&& status_of(state, None).phase == state.lifecycle.phase
            &&& !state.lifecycle.open ==> status == StatusView::of(
                runtime::StatusView::without_maker(state.lifecycle.phase),
                Seq::empty(),
            )
            &&& state.lifecycle.open ==> {
                &&& status.port == Some(readings.server.port)
                &&& status.ongoing_swaps == readings.server.ongoing_swaps
                &&& status.wallet_busy == (readings.server.wallet is None)
                &&& status.wallet_busy ==> status.balances is None && status.bonds.len() == 0
            }
            &&& forall|i: int|
                0 <= i < status.swaps.len() ==> {
                    &&& (#[trigger] status.swaps[i]).id == text::shortened(
                        status.swaps[i].tracker_key,
                        16,
                    )
                    &&& readings@.swaps.contains(status.swaps[i])
                }
        }),
{
    let status = status_of(state, Some(readings@));
    let keep = |swap: SwapRecordView| !state.dismissed.contains(swap.tracker_key);
    assert forall|i: int| 0 <= i < status.swaps.len() implies {
        &&& (#[trigger] status.swaps[i]).id == text::shortened(status.swaps[i].tracker_key, 16)
        &&& readings@.swaps.contains(status.swaps[i])
    } by {
        assert(readings@.swaps.filter(keep).contains(status.swaps[i]));
        readings@.swaps.lemma_filter_contains_rev(keep, status.swaps[i]);
        let at = choose|j: int|
            0 <= j < readings@.swaps.len() && readings@.swaps[j] == status.swaps[i];
        assert(readings.swaps->Some_0@[at].recorded() == status.swaps[i]);
    }
}

/// The bond that decides how many blocks are left is one of the bonds, and none matures earlier.
pub proof fn the_least_is_the_first_to_mature(numbers: Seq<u64>)
    ensures
        numbers.len() == 0 <==> least(numbers) is None,
        least(numbers) matches Some(first) ==> numbers.contains(first) && forall|i: int|
            0 <= i < numbers.len() ==> first <= #[trigger] numbers[i],
    decreases numbers.len(),
{
    if numbers.len() > 0 {
        let front = numbers.drop_last();
        the_least_is_the_first_to_mature(front);
        assert(numbers[numbers.len() - 1] == numbers.last());
        if let Some(before) = least(front) {
            let at = choose|i: int| 0 <= i < front.len() && front[i] == before;
            assert(front[at] == numbers[at]);
            assert forall|i: int| 0 <= i < numbers.len() implies least(numbers)->Some_0
                <= #[trigger] numbers[i] by {
                if i < front.len() {
                    assert(numbers[i] == front[i]);
                }
            }
        }
    }
}

/// Filtering keeps what it is meant to keep.
pub(crate) proof fn lemma_kept(
    swaps: Seq<SwapRecordView>,
    keep: spec_fn(SwapRecordView) -> bool,
    swap: SwapRecordView,
)
    requires
        swaps.contains(swap),
    ensures
        swaps.filter(keep).contains(swap) <==> keep(swap),
{
    let at = choose|i: int| 0 <= i < swaps.len() && swaps[i] == swap;
    if keep(swap) {
        swaps.lemma_filter_contains(keep, at);
    }
    if swaps.filter(keep).contains(swap) {
        let i = choose|i: int| 0 <= i < swaps.filter(keep).len() && swaps.filter(keep)[i] == swap;
        swaps.lemma_filter_pred(keep, i);
    }
}

/// A dismissed swap is gone from the dashboard and from what the watcher counts, and every other
/// swap is still shown.
pub proof fn a_dismissed_swap_is_shown_nowhere(
    state: MakerView,
    readings: MakerReadingsView,
    key: Seq<char>,
    swap: SwapRecordView,
)
    requires
        state.lifecycle.open,
        readings.swaps.contains(swap),
    ensures
        swap.tracker_key == key ==> !status_of(state.without(key), Some(readings)).swaps.contains(
            swap,
        ),
        swap.tracker_key != key ==> (status_of(state.without(key), Some(readings)).swaps.contains(
            swap,
        ) <==> status_of(state, Some(readings)).swaps.contains(swap)),
        observation_of(state.without(key), Some(readings)).unfinished_funded_swaps == funded_ids(
            status_of(state.without(key), Some(readings)).swaps,
        ),
{
    let before = |swap: SwapRecordView| !state.dismissed.contains(swap.tracker_key);
    let after = |swap: SwapRecordView| !state.without(key).dismissed.contains(swap.tracker_key);
    lemma_kept(readings.swaps, before, swap);
    lemma_kept(readings.swaps, after, swap);
}

/// The watcher counts every swap on the dashboard that has funds at stake, by its identifier.
pub proof fn the_watcher_sees_the_swaps_at_stake(
    state: MakerView,
    readings: MakerReadingsView,
    swap: SwapRecordView,
)
    requires
        state.lifecycle.open,
        status_of(state, Some(readings)).swaps.contains(swap),
        swap.at_stake(),
    ensures
        observation_of(state, Some(readings)).unfinished_funded_swaps.contains(swap.id),
{
    let status = status_of(state, Some(readings));
    let keep = |swap: SwapRecordView| swap.at_stake();
    let kept = status.swaps.filter(keep);
    lemma_kept(status.swaps, keep, swap);
    let found = choose|i: int| 0 <= i < kept.len() && kept[i] == swap;
    assert(funded_ids(status.swaps)[found] == swap.id);
}

/// A swap has funds at stake exactly if its funding reached the chain and neither its recovery was
/// cleaned up nor the swap completed.
pub proof fn funds_are_at_stake_until_returned(swap: SwapRecordView)
    ensures
        !swap.funded ==> !swap.at_stake(),
        swap.recovery == "CleanedUp"@ ==> !swap.at_stake(),
        swap.phase == "Completed"@ ==> !swap.at_stake(),
        swap.funded && swap.recovery != "CleanedUp"@ && swap.phase != "Completed"@
            ==> swap.at_stake(),
{
}

/// A record is stale exactly once more than a day has passed since it changed, and stays so. A
/// record from the future is not.
pub proof fn a_record_is_stale_after_a_day(swap: SwapRecordView, now: u64, later: u64)
    ensures
        swap.stale(now) <==> now > swap.updated_at + 24 * 60 * 60,
        swap.stale(now) && later >= now ==> swap.stale(later),
        now <= swap.updated_at ==> !swap.stale(now),
{
}

/// A record holds what the tracker has of the swap, by the start of its identifier, and its full
/// identifier as the key.
pub proof fn records_hold_what_the_tracker_has(swap: TrackedSwap)
    ensures
        swap.recorded().tracker_key == swap.swap_id@,
        swap.recorded().id == text::shortened(swap.swap_id@, 16),
        swap.recorded().phase == swap.phase@,
        swap.recorded().recovery == swap.recovery@,
        swap.recorded().amount_sat == swap.swap_amount_sat,
        swap.recorded().funded == swap.funding_broadcast,
        swap.recorded().updated_at == swap.updated_at,
{
}

/// The first bond matures that many blocks from the height of the chain, or has already. Without
/// a bond, or without the height, nothing is said.
pub proof fn blocks_are_counted_to_the_first_bond(maturities: Seq<u64>, tip: Option<u64>, at: int)
    ensures
        expiry(maturities, tip) is Some <==> maturities.len() > 0 && tip is Some,
        expiry(maturities, tip) matches Some(blocks) ==> {
            &&& 0 <= at < maturities.len() && maturities[at] > tip->Some_0 ==> tip->Some_0 + blocks
                <= maturities[at]
            &&& 0 <= at < maturities.len() && maturities[at] <= tip->Some_0 ==> blocks == 0
            &&& blocks > 0 ==> maturities.contains((tip->Some_0 + blocks) as u64)
        },
{
    the_least_is_the_first_to_mature(maturities);
}

/// What the watcher sees of an open maker is what was read of it: the spendable balance where the
/// wallet could be read, the smallest swap while the maker is running, the blocks left of the first
/// bond, and the swaps on the dashboard with funds at stake. Of a maker that is shut it sees the
/// phase.
pub proof fn the_watcher_sees_what_was_read(state: MakerView, readings: MakerReadingsView)
    ensures
        ({
            let seen = observation_of(state, Some(readings));
            &&& seen.phase == state.lifecycle.phase
            &&& state.lifecycle.open ==> {
                &&& seen.min_swap_sat == if state.lifecycle.phase is Running {
                    Some(readings.min_swap_sat)
                } else {
                    None
                }
                &&& seen.bond_expiry_blocks == expiry(readings.maturities, readings.tip)
                &&& readings.server.wallet is None ==> seen.spendable_sat is None
                &&& readings.server.wallet matches Some(wallet) ==> {
                    &&& seen.spendable_sat is Some <==> wallet.balances is Some
                    &&& wallet.balances matches Some(balances) ==> seen.spendable_sat == Some(
                        balances.spendable,
                    )
                }
                &&& seen.unfinished_funded_swaps == funded_ids(
                    shown(readings.swaps, state.dismissed),
                )
            }
            &&& !state.lifecycle.open ==> seen.spendable_sat is None && seen.min_swap_sat is None
                && seen.bond_expiry_blocks is None && seen.unfinished_funded_swaps.len() == 0
        }),
        observation_of(state, None).phase == state.lifecycle.phase,
        observation_of(state, None).unfinished_funded_swaps.len() == 0,
{
}

/// Records are shown one by one and in order: each is there unless its own key was dismissed.
pub proof fn records_are_shown_one_by_one(
    some: Seq<SwapRecordView>,
    swap: SwapRecordView,
    dismissed: Set<Seq<char>>,
)
    ensures
        shown(Seq::empty(), dismissed) == Seq::<SwapRecordView>::empty(),
        shown(some.push(swap), dismissed) == if dismissed.contains(swap.tracker_key) {
            shown(some, dismissed)
        } else {
            shown(some, dismissed).push(swap)
        },
{
    reveal(Seq::filter);
    assert(some.push(swap).drop_last() =~= some);
}

/// Swaps at stake are named one by one and in order, each by its short identifier.
pub proof fn swaps_at_stake_are_named_one_by_one(some: Seq<SwapRecordView>, swap: SwapRecordView)
    ensures
        funded_ids(Seq::empty()) == Seq::<Seq<char>>::empty(),
        funded_ids(some.push(swap)) == if swap.funded && swap.recovery != "CleanedUp"@ && swap.phase
            != "Completed"@ {
            funded_ids(some).push(swap.id)
        } else {
            funded_ids(some)
        },
{
    reveal(Seq::filter);
    let keep = |swap: SwapRecordView| swap.at_stake();
    assert(some.push(swap).drop_last() =~= some);
    assert(funded_ids(Seq::empty()) =~= Seq::empty());
    if swap.at_stake() {
        assert(funded_ids(some.push(swap)) =~= funded_ids(some).push(swap.id));
    }
}

/// The dashboard's status of an open maker is that of its server with the records that are shown.
pub proof fn the_status_has_the_shown_records(state: MakerView, readings: MakerReadingsView)
    requires
        state.lifecycle.open,
    ensures
        ({
            let status = status_of(state, Some(readings));
            let server = runtime::status_of(state.lifecycle, Some(readings.server));
            &&& status.swaps == shown(readings.swaps, state.dismissed)
            &&& status.phase == server.phase && status.balances == server.balances
            &&& status.bonds == server.bonds && status.wallet_busy == server.wallet_busy
            &&& status.ongoing_swaps == server.ongoing_swaps && status.port == server.port
        }),
{
}

/// A dismissal takes an open wallet, then it succeeds and adds that one key; without, it is refused
/// and nothing changes.
pub proof fn a_dismissal_takes_an_open_wallet(state: MakerView, key: Seq<char>, other: Seq<char>)
    ensures
        dismissal(state) is Ok <==> state.lifecycle.open,
        state.lifecycle.open ==> state.without(key).dismissed.contains(key),
        other != key ==> (state.without(key).dismissed.contains(other)
            <==> state.dismissed.contains(other)),
        !state.lifecycle.open ==> state.without(key) == state,
        state.without(key).lifecycle == state.lifecycle,
{
}

/// Records and readings are taken as they are, field by field and one by one.
pub proof fn records_and_readings_are_taken_as_they_are(
    records: Seq<SwapRecord>,
    at: int,
    status: Status,
    readings: MakerReadings,
)
    ensures
        SwapRecordView::of(records).len() == records.len(),
        0 <= at < records.len() ==> {
            let record = SwapRecordView::of(records)[at];
            &&& record.id == records[at].id@
            &&& record.tracker_key == records[at].tracker_key@
            &&& record.phase == records[at].phase@
            &&& record.recovery == records[at].recovery@
            &&& record.amount_sat == records[at].amount_sat
            &&& record.funded == records[at].funded
            &&& record.updated_at == records[at].updated_at
        },
        status@.phase == status.phase@,
        status@.balances == status.balances,
        status@.ongoing_swaps == status.ongoing_swaps,
        status@.bonds == runtime::bonds_view(status.bonds@),
        status@.wallet_busy == status.wallet_busy,
        status@.port == status.port,
        status@.swaps == SwapRecordView::of(status.swaps@),
        readings@.server == readings.server@,
        readings@.maturities == readings.maturities@,
        readings@.tip == readings.tip,
        readings@.min_swap_sat == readings.min_swap_sat,
        readings.swaps is None ==> readings@.swaps.len() == 0,
        readings.swaps matches Some(swaps) ==> {
            &&& readings@.swaps.len() == swaps@.len()
            &&& 0 <= at < swaps@.len() ==> readings@.swaps[at] == swaps@[at].recorded()
        },
        MakerReadings::view_of(Some(readings)) == Some(readings@),
        MakerReadings::view_of(None) is None,
{
}

} // verus!
