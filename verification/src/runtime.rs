//! Owns the maker's lifecycle: starting it, stopping it inside a deadline, and reporting what it
//! is doing.
//!
//! Two properties of the maker server drive the design. Initialising it talks to a Bitcoin node
//! and possibly Tor, so it can take tens of seconds or hang, and happens on the maker's own
//! thread. Serving blocks for the maker's whole life, so it is the end of that thread's work
//! rather than a call that returns. The decisions of that thread are the functions here; whoever
//! runs the thread performs the [`LaunchAction`] it is given and comes back with what happened.

use vstd::prelude::*;

use crate::lifecycle::{Lifecycle, LifecycleView, WalletRead, WalletReadView};
use crate::shared::{
    one_line, Balances, LogLine, LogLineView, Phase, PhaseView, RETRY_BACKOFF, START_ATTEMPTS,
};
use crate::text;
use crate::text::decimal_text;

verus! {

/// What the maker's thread does next.
#[derive(Clone, Copy, PartialEq, Eq, Structural, Debug)]
pub enum LaunchAction {
    /// Check that Tor is usable, for the `attempt`th time.
    CheckTor { attempt: u32 },
    /// Wait before the attempt after `attempt`, unless a stop is requested.
    Wait { attempt: u32, seconds: u64 },
    /// Serve takers, which returns only when the maker is done.
    Serve,
    /// Return: the launch is over.
    Finish,
}

impl LaunchAction {
    /// Which actions may come right after this one.
    pub open spec fn leads_to(self, next: LaunchAction) -> bool {
        match self {
            LaunchAction::CheckTor { attempt } => attempt <= START_ATTEMPTS && {
                ||| next is Serve
                ||| next is Finish
                ||| attempt < START_ATTEMPTS && next == (LaunchAction::Wait {
                    attempt,
                    seconds: (RETRY_BACKOFF * attempt) as u64,
                })
            },
            LaunchAction::Wait { attempt, .. } => attempt < START_ATTEMPTS && {
                ||| next is Finish
                ||| next == (LaunchAction::CheckTor { attempt: (attempt + 1) as u32 })
            },
            LaunchAction::Serve => next is Finish,
            LaunchAction::Finish => false,
        }
    }

    /// How many more actions can follow.
    pub open spec fn remaining(self) -> int {
        match self {
            LaunchAction::CheckTor { attempt } => 2 * (START_ATTEMPTS - attempt) + 2,
            LaunchAction::Wait { attempt, .. } => 2 * (START_ATTEMPTS - attempt) + 1,
            LaunchAction::Serve => 1,
            LaunchAction::Finish => 0,
        }
    }
}

/// What one step of a launch asks for.
pub struct LaunchStep {
    pub action: LaunchAction,
    /// What to log, in order.
    pub log: Vec<LogLine>,
}

/// What a [`LaunchStep`] asks for, and the state it leaves.
#[verifier::ext_equal]
pub struct LaunchStepView {
    pub state: LifecycleView,
    pub action: LaunchAction,
    pub log: Seq<LogLineView>,
}

impl LaunchStep {
    /// The step beside the state it left.
    pub open spec fn beside(self, state: LifecycleView) -> LaunchStepView {
        LaunchStepView { state, action: self.action, log: LogLineView::of(self.log@) }
    }
}

/// What is logged after a new maker wallet was created, or could not be read.
pub open spec fn wallet_lines(wallet: WalletReadView) -> Seq<LogLineView> {
    match wallet {
        WalletReadView::Created(_) => seq![
            LogLineView::info(
                "A new maker wallet was created. Its recovery phrase is on the dashboard and is shown only once."@,
            ),
        ],
        WalletReadView::Existing => Seq::empty(),
        WalletReadView::Unreadable => seq![
            LogLineView::error(
                "Could not read the maker wallet after starting it. If this was a new wallet, its recovery phrase could not be shown."@,
            ),
        ],
    }
}

/// The step after the maker server was initialised, or could not be.
///
/// A stop during initialisation had no server to signal, so it is honoured here.
pub open spec fn after_init(
    state: LifecycleView,
    outcome: Result<WalletReadView, Seq<char>>,
) -> LaunchStepView {
    match outcome {
        Err(message) => LaunchStepView {
            state: LifecycleView { phase: PhaseView::Failed(message), ..state },
            action: LaunchAction::Finish,
            log: seq![LogLineView::error("Maker failed to start: "@ + message)],
        },
        Ok(wallet) => {
            let opened = LifecycleView { open: true, ..state.after_read(wallet) };
            if state.stopping() {
                LaunchStepView {
                    state: LifecycleView { phase: PhaseView::Stopped, ..opened },
                    action: LaunchAction::Finish,
                    log: wallet_lines(wallet).push(
                        LogLineView::info("Maker stopped before it finished starting."@),
                    ),
                }
            } else {
                LaunchStepView {
                    state: opened,
                    action: LaunchAction::CheckTor { attempt: 1 },
                    log: wallet_lines(wallet),
                }
            }
        },
    }
}

/// What the operator is told when Tor cannot be used.
pub open spec fn tor_failure(port: u16, error: Seq<char>) -> Seq<char> {
    "Tor is not usable on control port "@ + text::decimal(port as nat) + ": "@ + error
        + ". Check the Tor control port and password on the settings page; the password must match the one Tor was configured with."@
}

/// What is logged before a Tor check is retried.
pub open spec fn retry_line(attempt: u32, failure: Seq<char>) -> LogLineView {
    LogLineView::error(
        "Tor check "@ + text::decimal(attempt as nat) + " of "@ + text::decimal(START_ATTEMPTS as nat)
            + " failed: "@ + failure + ". Retrying in "@ + text::decimal((RETRY_BACKOFF * attempt) as nat)
            + "s."@,
    )
}

/// The step after a Tor check.
///
/// Only the check is retried: serving is not idempotent, so it must not be.
pub open spec fn after_tor_check(
    state: LifecycleView,
    attempt: u32,
    port: u16,
    outcome: Result<(), Seq<char>>,
    shutdown: bool,
) -> LaunchStepView {
    match outcome {
        Ok(()) => LaunchStepView {
            state: LifecycleView { phase: PhaseView::Running, ..state },
            action: LaunchAction::Serve,
            log: seq![LogLineView::info("Maker is running."@)],
        },
        Err(error) => if attempt < START_ATTEMPTS {
            LaunchStepView {
                state,
                action: LaunchAction::Wait { attempt, seconds: (RETRY_BACKOFF * attempt) as u64 },
                log: seq![retry_line(attempt, tor_failure(port, error))],
            }
        } else {
            concluded(state, Err(tor_failure(port, error)), shutdown)
        },
    }
}

/// The step after a wait between Tor checks.
pub open spec fn after_wait(state: LifecycleView, attempt: u32) -> LaunchStepView {
    if state.stopping() {
        LaunchStepView {
            state: LifecycleView { phase: PhaseView::Stopped, ..state },
            action: LaunchAction::Finish,
            log: Seq::empty(),
        }
    } else {
        LaunchStepView {
            state,
            action: LaunchAction::CheckTor { attempt: (attempt + 1) as u32 },
            log: Seq::empty(),
        }
    }
}

/// The end of a launch that got past initialisation.
///
/// A requested shutdown surfaces as an error too, so an error counts as a failure only if nobody
/// asked to stop. The wallet then stays open: it is still the only way to read a balance or hand
/// out an address, which is exactly what an empty wallet needs.
pub open spec fn concluded(
    state: LifecycleView,
    outcome: Result<(), Seq<char>>,
    shutdown: bool,
) -> LaunchStepView {
    if outcome is Err && !state.stopping() && !shutdown {
        LaunchStepView {
            state: LifecycleView { phase: PhaseView::Failed(outcome->Err_0), ..state },
            action: LaunchAction::Finish,
            log: seq![LogLineView::error("Maker stopped serving: "@ + outcome->Err_0)],
        }
    } else {
        LaunchStepView {
            state: LifecycleView { phase: PhaseView::Stopped, open: false, ..state },
            action: LaunchAction::Finish,
            log: seq![LogLineView::info("Maker stopped."@)],
        }
    }
}

/// Starts and stops the maker, and answers questions about it.
pub struct Runtime {
    lifecycle: Lifecycle,
}

impl View for Runtime {
    type V = LifecycleView;

    closed spec fn view(&self) -> LifecycleView {
        self.lifecycle@
    }
}

impl Runtime {
    /// The step after the maker server was initialised.
    pub fn initialised(&mut self, outcome: Result<WalletRead, String>) -> (step: LaunchStep)
        requires
            old(self)@.stop_requested is Some,
        ensures
            step.beside(final(self)@) == after_init(old(self)@, WalletReadView::opening(outcome)),
    {
        let wallet = match outcome {
            Err(message) => {
                let line = LogLine::error(
                    "Maker failed to start: ".to_string().concat(message.as_str()),
                );
                self.lifecycle.set_phase(Phase::Failed(message));
                return LaunchStep { action: LaunchAction::Finish, log: one_line(line) };
            },
            Ok(wallet) => wallet,
        };
        let mut log: Vec<LogLine> = Vec::new();
        assert(LogLineView::of(log@) =~= Seq::empty());
        match wallet {
            WalletRead::Created(words) => {
                self.lifecycle.keep_mnemonic(words);
                log = one_line(
                    LogLine::info(
                        "A new maker wallet was created. Its recovery phrase is on the dashboard and is shown only once.".to_string(),
                    ),
                );
            },
            WalletRead::Existing => {},
            WalletRead::Unreadable => {
                log = one_line(
                    LogLine::error(
                        "Could not read the maker wallet after starting it. If this was a new wallet, its recovery phrase could not be shown.".to_string(),
                    ),
                );
            },
        }
        self.lifecycle.set_open(true);
        if self.lifecycle.stop_requested() {
            let line = LogLine::info("Maker stopped before it finished starting.".to_string());
            let ghost said = LogLineView::of(log@);
            log.push(line);
            assert(LogLineView::of(log@) =~= said.push(line@));
            self.lifecycle.set_phase(Phase::Stopped);
            return LaunchStep { action: LaunchAction::Finish, log };
        }
        LaunchStep { action: LaunchAction::CheckTor { attempt: 1 }, log }
    }

    /// The step after a Tor check on `port`. `shutdown` is whether the server was told to shut
    /// down.
    pub fn tor_checked(
        &mut self,
        attempt: u32,
        port: u16,
        outcome: Result<(), String>,
        shutdown: bool,
    ) -> (step: LaunchStep)
        requires
            old(self)@.stop_requested is Some,
            1 <= attempt <= START_ATTEMPTS,
        ensures
            step.beside(final(self)@) == after_tor_check(
                old(self)@,
                attempt,
                port,
                text::failure(outcome),
                shutdown,
            ),
    {
        match outcome {
            Ok(()) => {
                self.lifecycle.set_phase(Phase::Running);
                LaunchStep {
                    action: LaunchAction::Serve,
                    log: one_line(LogLine::info("Maker is running.".to_string())),
                }
            },
            Err(error) => {
                let failure = "Tor is not usable on control port ".to_string().concat(
                    decimal_text(port as u64).as_str(),
                ).concat(": ").concat(error.as_str()).concat(
                    ". Check the Tor control port and password on the settings page; the password must match the one Tor was configured with.",
                );
                if attempt < START_ATTEMPTS {
                    let seconds: u64 = RETRY_BACKOFF * (attempt as u64);
                    let line = "Tor check ".to_string().concat(
                        decimal_text(attempt as u64).as_str(),
                    ).concat(" of ").concat(decimal_text(START_ATTEMPTS as u64).as_str()).concat(
                        " failed: ",
                    ).concat(failure.as_str()).concat(". Retrying in ").concat(
                        decimal_text(seconds).as_str(),
                    ).concat("s.");
                    LaunchStep {
                        action: LaunchAction::Wait { attempt, seconds },
                        log: one_line(LogLine::error(line)),
                    }
                } else {
                    self.conclude(Err(failure), shutdown)
                }
            },
        }
    }

    /// The step after the wait that follows `attempt`.
    pub fn waited(&mut self, attempt: u32) -> (step: LaunchStep)
        requires
            1 <= attempt < START_ATTEMPTS,
        ensures
            step.beside(final(self)@) == after_wait(old(self)@, attempt),
    {
        let log: Vec<LogLine> = Vec::new();
        assert(LogLineView::of(log@) =~= Seq::empty());
        if self.lifecycle.stop_requested() {
            self.lifecycle.set_phase(Phase::Stopped);
            LaunchStep { action: LaunchAction::Finish, log }
        } else {
            LaunchStep { action: LaunchAction::CheckTor { attempt: attempt + 1 }, log }
        }
    }

    /// The step after serving. `shutdown` is whether the server was told to shut down.
    pub fn served(&mut self, outcome: Result<(), String>, shutdown: bool) -> (step: LaunchStep)
        ensures
            step.beside(final(self)@) == concluded(old(self)@, text::failure(outcome), shutdown),
    {
        self.conclude(outcome, shutdown)
    }

    fn conclude(&mut self, outcome: Result<(), String>, shutdown: bool) -> (step: LaunchStep)
        ensures
            step.beside(final(self)@) == concluded(old(self)@, text::failure(outcome), shutdown),
    {
        let asked_to_stop = self.lifecycle.stop_requested() || shutdown;
        match outcome {
            Err(message) if !asked_to_stop => {
                let line = LogLine::error(
                    "Maker stopped serving: ".to_string().concat(message.as_str()),
                );
                self.lifecycle.set_phase(Phase::Failed(message));
                LaunchStep { action: LaunchAction::Finish, log: one_line(line) }
            },
            _ => {
                self.lifecycle.set_open(false);
                self.lifecycle.set_phase(Phase::Stopped);
                LaunchStep {
                    action: LaunchAction::Finish,
                    log: one_line(LogLine::info("Maker stopped.".to_string())),
                }
            },
        }
    }

    /// A runtime with no maker running.
    pub fn new() -> (result: Self)
        ensures
            result@ == LifecycleView::fresh(),
    {
        Runtime { lifecycle: Lifecycle::new() }
    }

    /// What the maker is doing, without querying it.
    pub fn phase(&self) -> (result: Phase)
        ensures
            result@ == self@.phase,
    {
        self.lifecycle.phase()
    }

    /// True when a maker is starting or running.
    pub fn is_live(&self) -> (result: bool)
        ensures
            result == self@.phase.live(),
    {
        self.lifecycle.is_live()
    }

    /// True when the wallet is open and can be queried, which outlasts a failed start.
    pub fn wallet_open(&self) -> (result: bool)
        ensures
            result == self@.open,
    {
        self.lifecycle.wallet_open()
    }

    /// Whether the maker's thread was started, which may have finished since.
    pub fn thread_started(&self) -> (result: bool)
        ensures
            result == (self@.stop_requested is Some),
    {
        self.lifecycle.thread_started()
    }

    /// Whether the maker's thread was asked to stop.
    pub fn stop_requested(&self) -> (result: bool)
        ensures
            result == self@.stopping(),
    {
        self.lifecycle.stop_requested()
    }

    /// Returns a new wallet's recovery phrase the first time it is asked for, and nothing after.
    ///
    /// Takes rather than reads, so a page reload cannot put it back on screen.
    pub fn take_new_mnemonic(&mut self) -> (result: Option<String>)
        ensures
            text::optional(result) == old(self)@.new_mnemonic,
            final(self)@ == old(self)@.phrase_taken(),
    {
        self.lifecycle.take_new_mnemonic()
    }

    /// Prepares to start a maker, unless one is already live.
    ///
    /// On success the caller spawns the maker's thread; a backend that cannot be reached shows up
    /// later as a failed phase.
    pub fn start(&mut self) -> (result: Result<(), String>)
        ensures
            text::failure(result) == old(self)@.start_granted("The maker is already running."@),
            final(self)@ == old(self)@.begun(),
    {
        if self.lifecycle.begin() {
            Ok(())
        } else {
            Err("The maker is already running.".to_string())
        }
    }

    /// Takes note that the maker's thread could not be spawned, and says so.
    pub fn spawn_failed(&mut self, error: &str) -> (result: String)
        ensures
            result@ == "Could not spawn the maker thread: "@ + error@,
            final(self)@ == old(self)@.abandoned(),
    {
        self.lifecycle.abandon();
        "Could not spawn the maker thread: ".to_string().concat(error)
    }

    /// Asks the maker to stop. There is nothing to wait for if none was ever started, which is shut.
    pub fn stop(&mut self) -> (result: StopStep)
        ensures
            result == StopStep::Done ==> !final(self)@.open && !final(self)@.phase.live(),
            result == stop_step(old(self)@, old(self)@.open),
            final(self)@ == old(self)@.asked_to_stop(),
    {
        let signal = self.lifecycle.wallet_open();
        if self.lifecycle.request_stop() {
            StopStep::Wait { signal }
        } else {
            StopStep::Done
        }
    }

    /// Takes note of whether the maker's thread finished within the deadline, and returns what to
    /// log.
    ///
    /// A maker that did not finish is left as it is: its thread sets the phase when it returns,
    /// and until then the maker counts as live, which is what stops a second one from binding the
    /// same port.
    pub fn stop_waited(&mut self, finished: bool, deadline_secs: u64) -> (log: Vec<LogLine>)
        ensures
            final(self)@ == old(self)@.waited(finished),
            LogLineView::of(log@) == stop_lines(finished, deadline_secs),
    {
        if finished {
            self.lifecycle.finish();
            let log: Vec<LogLine> = Vec::new();
            assert(LogLineView::of(log@) =~= Seq::empty());
            log
        } else {
            one_line(
                LogLine::error(
                    "The maker did not stop within ".to_string().concat(
                        decimal_text(deadline_secs).as_str(),
                    ).concat("s, so it has been left detached."),
                ),
            )
        }
    }

    /// A point-in-time view of the maker for the dashboard, from what could be read of the server.
    ///
    /// Every reading may be missing: rendering one field as unavailable beats erroring the whole
    /// page. Without an open wallet there is nothing to read.
    pub fn status(&self, readings: Option<ServerReadings>) -> (result: Status)
        ensures
            result@ == status_of(self@, ServerReadings::view_of(readings)),
    {
        let phase = self.phase();
        if !self.wallet_open() {
            return Status::without_maker(phase);
        }
        match readings {
            None => Status::without_maker(phase),
            Some(readings) => {
                let (balances, bonds, wallet_busy) = match readings.wallet {
                    Some(wallet) => (wallet.balances, wallet.bonds, false),
                    None => {
                        let bonds: Vec<(u64, String)> = Vec::new();
                        assert(bonds_view(bonds@) =~= Seq::empty());
                        (None, bonds, true)
                    },
                };
                Status {
                    phase,
                    balances,
                    ongoing_swaps: readings.ongoing_swaps,
                    bonds,
                    wallet_busy,
                    port: Some(readings.port),
                }
            },
        }
    }

    /// Whether a fresh address for funding the maker's wallet can be asked for.
    ///
    /// A command, not a dashboard field: deriving one advances the address index and writes to
    /// disk.
    pub fn receive_address(&self) -> (result: Result<(), String>)
        ensures
            text::failure(result) == address_guard(self@),
    {
        if self.wallet_open() {
            Ok(())
        } else {
            Err(
                "The maker's wallet is not open yet. Start the maker, and if it fails, its wallet stays open so this will work.".to_string(),
            )
        }
    }

    /// Whether the maker can be asked to clear out idle swaps.
    pub fn drain_idle_swaps(&self) -> (result: Result<(), String>)
        ensures
            text::failure(result) == drain_guard(self@),
    {
        if self.wallet_open() {
            Ok(())
        } else {
            Err("The maker is not running.".to_string())
        }
    }
}

impl Default for Runtime {
    fn default() -> (result: Self)
        ensures
            result@ == LifecycleView::fresh(),
    {
        Runtime::new()
    }
}

/// What stopping takes.
#[derive(Clone, Copy, PartialEq, Eq, Structural, Debug)]
pub enum StopStep {
    /// Nothing: no thread was ever started.
    Done,
    /// Signal the server to shut down where `signal` says so, and wait for the thread.
    Wait { signal: bool },
}

/// What stopping a role takes, with or without a server to signal.
pub open spec fn stop_step(state: LifecycleView, signal: bool) -> StopStep {
    if state.stop_requested is None {
        StopStep::Done
    } else {
        StopStep::Wait { signal }
    }
}

/// What is logged after the wait for the maker's thread.
pub open spec fn stop_lines(finished: bool, deadline_secs: u64) -> Seq<LogLineView> {
    if finished {
        Seq::empty()
    } else {
        seq![
            LogLineView::error(
                "The maker did not stop within "@ + text::decimal(deadline_secs as nat)
                    + "s, so it has been left detached."@,
            ),
        ]
    }
}

/// Whether an address can be asked for, or what the operator is told instead.
pub open spec fn address_guard(state: LifecycleView) -> Result<(), Seq<char>> {
    if state.open {
        Ok(())
    } else {
        Err(
            "The maker's wallet is not open yet. Start the maker, and if it fails, its wallet stays open so this will work."@,
        )
    }
}

/// Whether the records of swaps can be worked on, or what the operator is told instead.
pub open spec fn drain_guard(state: LifecycleView) -> Result<(), Seq<char>> {
    if state.open {
        Ok(())
    } else {
        Err("The maker is not running."@)
    }
}

/// What came of asking the wallet for an address.
pub enum AddressReading {
    /// The wallet is locked by something else.
    Busy,
    /// The wallet refused, for this reason.
    Refused(String),
    /// The address.
    Address(String),
}

/// What an [`AddressReading`] says.
#[verifier::ext_equal]
pub enum AddressReadingView {
    Busy,
    Refused(Seq<char>),
    Address(Seq<char>),
}

impl View for AddressReading {
    type V = AddressReadingView;

    open spec fn view(&self) -> AddressReadingView {
        match *self {
            AddressReading::Busy => AddressReadingView::Busy,
            AddressReading::Refused(why) => AddressReadingView::Refused(why@),
            AddressReading::Address(address) => AddressReadingView::Address(address@),
        }
    }
}

/// The address, or what the operator is told instead.
pub open spec fn address_text(reading: AddressReadingView) -> Result<Seq<char>, Seq<char>> {
    match reading {
        AddressReadingView::Busy => Err(
            "The maker is busy syncing its wallet, so it cannot derive an address right now. coinswap logs the address it wants funded to BTCPay's log, which needs no lock."@,
        ),
        AddressReadingView::Refused(why) => Err("Could not derive a receive address: "@ + why),
        AddressReadingView::Address(address) => Ok(address),
    }
}

/// The address, or what the operator is told instead.
pub fn address_outcome(reading: AddressReading) -> (result: Result<String, String>)
    ensures
        text::either(result) == address_text(reading@),
{
    match reading {
        AddressReading::Busy => Err(
            "The maker is busy syncing its wallet, so it cannot derive an address right now. coinswap logs the address it wants funded to BTCPay's log, which needs no lock.".to_string(),
        ),
        AddressReading::Refused(why) => Err(
            "Could not derive a receive address: ".to_string().concat(why.as_str()),
        ),
        AddressReading::Address(address) => Ok(address),
    }
}

/// What the operator is told about clearing out idle swaps.
pub open spec fn drain_text(drained: Result<usize, Seq<char>>) -> Result<usize, Seq<char>> {
    match drained {
        Ok(count) => Ok(count),
        Err(why) => Err("Could not drain idle swaps: "@ + why),
    }
}

/// What the operator is told about clearing out idle swaps.
pub fn drain_outcome(drained: Result<usize, String>) -> (result: Result<usize, String>)
    ensures
        text::failure(result) == drain_text(text::failure(drained)),
{
    match drained {
        Ok(count) => Ok(count),
        Err(why) => Err("Could not drain idle swaps: ".to_string().concat(why.as_str())),
    }
}

/// What could be read of the maker's wallet while its lock was free.
pub struct WalletReadings {
    /// Absent when the wallet could not add them up.
    pub balances: Option<Balances>,
    /// Fidelity bonds held, as (amount in sats, locktime).
    pub bonds: Vec<(u64, String)>,
}

/// What could be read of the maker server.
pub struct ServerReadings {
    /// Absent when the wallet was locked.
    pub wallet: Option<WalletReadings>,
    /// Whether a swap is in flight. `None` when it could not be determined.
    pub ongoing_swaps: Option<bool>,
    /// The port takers reach this maker on.
    pub port: u16,
}

/// What [`WalletReadings`] hold.
#[verifier::ext_equal]
pub struct WalletReadingsView {
    pub balances: Option<Balances>,
    pub bonds: Seq<(u64, Seq<char>)>,
}

/// What [`ServerReadings`] hold.
#[verifier::ext_equal]
pub struct ServerReadingsView {
    pub wallet: Option<WalletReadingsView>,
    pub ongoing_swaps: Option<bool>,
    pub port: u16,
}

/// The amounts and locktimes of some bonds.
pub open spec fn bonds_view(bonds: Seq<(u64, String)>) -> Seq<(u64, Seq<char>)> {
    bonds.map_values(|bond: (u64, String)| (bond.0, bond.1@))
}

impl View for ServerReadings {
    type V = ServerReadingsView;

    open spec fn view(&self) -> ServerReadingsView {
        ServerReadingsView {
            wallet: match self.wallet {
                Some(wallet) => Some(
                    WalletReadingsView {
                        balances: wallet.balances,
                        bonds: bonds_view(wallet.bonds@),
                    },
                ),
                None => None,
            },
            ongoing_swaps: self.ongoing_swaps,
            port: self.port,
        }
    }
}

impl ServerReadings {
    /// What optional readings hold.
    pub open spec fn view_of(readings: Option<ServerReadings>) -> Option<ServerReadingsView> {
        match readings {
            Some(readings) => Some(readings@),
            None => None,
        }
    }
}

/// A point-in-time view of the maker, cheap enough to build on every page load.
///
/// A snapshot, so rendering never holds the wallet lock while the maker wants it.
pub struct Status {
    /// What the maker is doing.
    pub phase: Phase,
    /// Wallet balances, absent when the maker is down or the wallet lock was busy.
    pub balances: Option<Balances>,
    /// Whether a swap is in flight. `None` when it could not be determined.
    pub ongoing_swaps: Option<bool>,
    /// Fidelity bonds held, as (amount in sats, locktime).
    pub bonds: Vec<(u64, String)>,
    /// True when the wallet was locked, so balances and bonds could not be read.
    ///
    /// Not an error: normal for seconds at a time, and continuous while waiting to be funded.
    pub wallet_busy: bool,
    /// The port takers reach this maker on, when it is up.
    pub port: Option<u16>,
}

/// What a [`Status`] holds.
#[verifier::ext_equal]
pub struct StatusView {
    pub phase: PhaseView,
    pub balances: Option<Balances>,
    pub ongoing_swaps: Option<bool>,
    pub bonds: Seq<(u64, Seq<char>)>,
    pub wallet_busy: bool,
    pub port: Option<u16>,
}

impl View for Status {
    type V = StatusView;

    open spec fn view(&self) -> StatusView {
        StatusView {
            phase: self.phase@,
            balances: self.balances,
            ongoing_swaps: self.ongoing_swaps,
            bonds: bonds_view(self.bonds@),
            wallet_busy: self.wallet_busy,
            port: self.port,
        }
    }
}

impl StatusView {
    /// The status of a maker of which nothing but its phase is known.
    pub open spec fn without_maker(phase: PhaseView) -> StatusView {
        StatusView {
            phase,
            balances: None,
            ongoing_swaps: None,
            bonds: Seq::empty(),
            wallet_busy: false,
            port: None,
        }
    }
}

impl Status {
    /// The status of a maker of which nothing but its phase is known.
    pub fn without_maker(phase: Phase) -> (result: Self)
        ensures
            result@ == StatusView::without_maker(phase@),
    {
        let bonds: Vec<(u64, String)> = Vec::new();
        assert(bonds_view(bonds@) =~= Seq::empty());
        Status {
            phase,
            balances: None,
            ongoing_swaps: None,
            bonds,
            wallet_busy: false,
            port: None,
        }
    }
}

/// The status of a maker in this state, with these readings of its server.
pub open spec fn status_of(
    state: LifecycleView,
    readings: Option<ServerReadingsView>,
) -> StatusView {
    match readings {
        Some(readings) if state.open => StatusView {
            phase: state.phase,
            balances: match readings.wallet {
                Some(wallet) => wallet.balances,
                None => None,
            },
            ongoing_swaps: readings.ongoing_swaps,
            bonds: match readings.wallet {
                Some(wallet) => wallet.bonds,
                None => Seq::empty(),
            },
            wallet_busy: readings.wallet is None,
            port: Some(readings.port),
        },
        _ => StatusView::without_maker(state.phase),
    }
}

/// A launch that got past initialisation begins by checking Tor for the first time, and each step
/// leads to an action that may follow the one it answers.
pub proof fn launches_keep_their_order(
    state: LifecycleView,
    opening: Result<WalletReadView, Seq<char>>,
    attempt: u32,
    port: u16,
    outcome: Result<(), Seq<char>>,
    shutdown: bool,
)
    ensures
        after_init(state, opening).action == LaunchAction::Finish || after_init(
            state,
            opening,
        ).action == (LaunchAction::CheckTor { attempt: 1 }),
        1 <= attempt <= START_ATTEMPTS ==> (LaunchAction::CheckTor { attempt }).leads_to(
            after_tor_check(state, attempt, port, outcome, shutdown).action,
        ),
        1 <= attempt < START_ATTEMPTS ==> (LaunchAction::Wait {
            attempt,
            seconds: (RETRY_BACKOFF * attempt) as u64,
        }).leads_to(after_wait(state, attempt).action),
        LaunchAction::Serve.leads_to(concluded(state, outcome, shutdown).action),
{
}

/// Whether these actions may be taken one after the other.
pub open spec fn is_run(run: Seq<LaunchAction>) -> bool {
    forall|i: int| 0 <= i < run.len() - 1 ==> (#[trigger] run[i]).leads_to(run[i + 1])
}

proof fn lemma_remaining_decreases(run: Seq<LaunchAction>, i: int, j: int)
    requires
        is_run(run),
        0 <= i < j < run.len(),
    ensures
        run[j].remaining() < run[i].remaining(),
    decreases j - i,
{
    if i + 1 < j {
        lemma_remaining_decreases(run, i, j - 1);
    }
    assert(run[j - 1].leads_to(run[j - 1 + 1]));
}

/// However a launch goes, it serves at most once: serving again would leave several watchtowers
/// running against one wallet.
pub proof fn a_launch_serves_at_most_once(run: Seq<LaunchAction>, i: int, j: int)
    requires
        is_run(run),
        0 <= i < j < run.len(),
    ensures
        !(run[i] is Serve && run[j] is Serve),
{
    lemma_remaining_decreases(run, i, j);
}

/// A launch that starts by checking Tor is over after at most eight more actions, so Tor is
/// checked no more than four times.
pub proof fn a_launch_ends(run: Seq<LaunchAction>)
    requires
        is_run(run),
        run.len() > 0,
        run[0] == (LaunchAction::CheckTor { attempt: 1 }),
    ensures
        run.len() <= 2 * START_ATTEMPTS + 1,
        forall|i: int|
            0 <= i < run.len() ==> ((#[trigger] run[i]) matches LaunchAction::CheckTor { attempt }
                ==> 1 <= attempt <= START_ATTEMPTS),
{
    lemma_launch_from(run, (run.len() - 1) as nat);
    assert forall|i: int| 0 <= i < run.len() implies ((#[trigger] run[
        i
    ]) matches LaunchAction::CheckTor { attempt } ==> 1 <= attempt <= START_ATTEMPTS) by {
        lemma_launch_from(run, i as nat);
    }
}

proof fn lemma_launch_from(run: Seq<LaunchAction>, at: nat)
    requires
        is_run(run),
        at < run.len(),
        run[0] == (LaunchAction::CheckTor { attempt: 1 }),
    ensures
        0 <= run[at as int].remaining() <= 2 * START_ATTEMPTS - at,
        run[at as int] matches LaunchAction::CheckTor { attempt } ==> 1 <= attempt
            <= START_ATTEMPTS,
        run[at as int] matches LaunchAction::Wait { attempt, .. } ==> 1 <= attempt
            < START_ATTEMPTS,
    decreases at,
{
    if at > 0 {
        let before = (at - 1) as nat;
        lemma_launch_from(run, before);
        assert(run[before as int].leads_to(run[before as int + 1]));
    }
}

/// A maker that was asked to stop after it got past initialisation ends up stopped, not failed.
pub proof fn a_requested_stop_is_not_a_failure(
    state: LifecycleView,
    attempt: u32,
    port: u16,
    outcome: Result<(), Seq<char>>,
    shutdown: bool,
)
    requires
        state.stopping() || shutdown,
    ensures
        concluded(state, outcome, shutdown).state.phase is Stopped,
        attempt >= START_ATTEMPTS && outcome is Err ==> after_tor_check(
            state,
            attempt,
            port,
            outcome,
            shutdown,
        ).state.phase is Stopped,
        state.stopping() ==> after_wait(state, attempt).state.phase is Stopped,
{
}

/// The steps of the maker's thread leave the request to stop as it is, so they keep it true that a
/// maker never started is shut.
pub proof fn the_thread_keeps_an_unstarted_maker_shut(
    state: LifecycleView,
    opening: Result<WalletReadView, Seq<char>>,
    attempt: u32,
    port: u16,
    outcome: Result<(), Seq<char>>,
    shutdown: bool,
)
    requires
        state.stop_requested is Some,
    ensures
        after_init(state, opening).state.stop_requested == state.stop_requested,
        after_tor_check(state, attempt, port, outcome, shutdown).state.stop_requested
            == state.stop_requested,
        after_wait(state, attempt).state.stop_requested == state.stop_requested,
        concluded(state, outcome, shutdown).state.stop_requested == state.stop_requested,
        after_init(state, opening).state.shut_until_started(),
        after_tor_check(state, attempt, port, outcome, shutdown).state.shut_until_started(),
        after_wait(state, attempt).state.shut_until_started(),
        concluded(state, outcome, shutdown).state.shut_until_started(),
{
}

/// The recovery phrase is never logged: what a launch logs is the same whatever the phrase of a
/// new wallet is, and whatever phrase is still held for display.
pub proof fn the_phrase_is_never_logged(
    state: LifecycleView,
    held: Option<Seq<char>>,
    one: Seq<char>,
    other: Seq<char>,
    attempt: u32,
    port: u16,
    outcome: Result<(), Seq<char>>,
    shutdown: bool,
)
    ensures
        ({
            let elsewhere = LifecycleView { new_mnemonic: held, ..state };
            &&& after_init(state, Ok(WalletReadView::Created(one))).log == after_init(
                elsewhere,
                Ok(WalletReadView::Created(other)),
            ).log
            &&& after_tor_check(state, attempt, port, outcome, shutdown).log == after_tor_check(
                elsewhere,
                attempt,
                port,
                outcome,
                shutdown,
            ).log
            &&& after_wait(state, attempt).log == after_wait(elsewhere, attempt).log
            &&& concluded(state, outcome, shutdown).log == concluded(
                elsewhere,
                outcome,
                shutdown,
            ).log
        }),
{
}

/// A maker whose serving failed keeps its wallet open, so that it can be funded.
pub proof fn a_failed_maker_keeps_its_wallet_open(
    state: LifecycleView,
    outcome: Result<(), Seq<char>>,
    shutdown: bool,
)
    requires
        state.open,
        concluded(state, outcome, shutdown).state.phase is Failed,
    ensures
        concluded(state, outcome, shutdown).state.open,
{
}

/// A maker that could not be initialised has failed, for the reason that is logged as an error too,
/// and its launch is over. Nothing else changes.
pub proof fn a_failed_initialisation_is_the_end(state: LifecycleView, reason: Seq<char>)
    ensures
        ({
            let step = after_init(state, Err(reason));
            &&& step.state.phase == PhaseView::Failed(reason)
            &&& step.action is Finish
            &&& step.log.len() == 1
            &&& step.log[0].is_error
            &&& text::mentions(step.log[0].text, reason)
            &&& step.state.open == state.open
            &&& step.state.new_mnemonic == state.new_mnemonic
        }),
{
    broadcast use {text::lemma_mentions_end, text::lemma_mentions_front};

}

/// A maker that was initialised has its wallet open, and goes on to check Tor exactly if nobody
/// asked it to stop meanwhile. Being stopped is what it then is; otherwise it is still starting.
pub proof fn an_initialised_maker_goes_on_unless_stopped(
    state: LifecycleView,
    wallet: WalletReadView,
)
    ensures
        ({
            let step = after_init(state, Ok(wallet));
            &&& step.state.open
            &&& step.action is CheckTor <==> state.stop_requested != Some(true)
            &&& step.action is Finish <==> state.stop_requested == Some(true)
            &&& step.action is Finish ==> step.state.phase is Stopped
            &&& step.action is CheckTor ==> step.state.phase == state.phase
            &&& wallet matches WalletReadView::Created(words) ==> step.state.new_mnemonic == Some(
                words,
            )
            &&& !(wallet is Created) ==> step.state.new_mnemonic == state.new_mnemonic
            &&& step.log.len() == (if wallet is Existing {
                0int
            } else {
                1
            }) + (if step.action is Finish {
                1int
            } else {
                0
            })
            &&& wallet is Created ==> !step.log[0].is_error
            &&& wallet is Unreadable ==> step.log[0].is_error
        }),
{
}

/// A maker with a usable Tor serves, whatever the attempt, and is running from then on.
pub proof fn a_usable_tor_means_serving(
    state: LifecycleView,
    attempt: u32,
    port: u16,
    shutdown: bool,
)
    ensures
        ({
            let step = after_tor_check(state, attempt, port, Ok(()), shutdown);
            &&& step.action is Serve
            &&& step.state.phase is Running
            &&& step.state.open == state.open
            &&& step.state.new_mnemonic == state.new_mnemonic
            &&& step.log.len() == 1 && !step.log[0].is_error
        }),
{
}

/// Tor is checked up to four times, with waits of five, ten and fifteen seconds between, each
/// announced with the attempt, the reason and the wait. The maker goes on starting meanwhile.
pub proof fn an_unusable_tor_is_tried_again(
    state: LifecycleView,
    attempt: u32,
    port: u16,
    reason: Seq<char>,
    shutdown: bool,
)
    requires
        1 <= attempt < 4,
    ensures
        ({
            let step = after_tor_check(state, attempt, port, Err(reason), shutdown);
            &&& step.action == (LaunchAction::Wait { attempt, seconds: (5 * attempt) as u64 })
            &&& step.state == state
            &&& step.log.len() == 1 && step.log[0].is_error
            &&& text::mentions(step.log[0].text, reason)
            &&& text::mentions(step.log[0].text, text::decimal(attempt as nat))
            &&& text::mentions(step.log[0].text, text::decimal(port as nat))
            &&& text::mentions(step.log[0].text, text::decimal(4))
            &&& text::mentions(step.log[0].text, text::decimal((5 * attempt) as nat))
        }),
{
    broadcast use {text::lemma_mentions_end, text::lemma_mentions_front};

    let failure = tor_failure(port, reason);
    let front = "Tor check "@ + text::decimal(attempt as nat) + " of "@ + text::decimal(
        START_ATTEMPTS as nat,
    ) + " failed: "@;
    assert(text::mentions(failure, reason));
    assert(text::mentions(failure, text::decimal(port as nat)));
    text::lemma_mentions_back(front, failure, reason);
    text::lemma_mentions_back(front, failure, text::decimal(port as nat));
}

/// The wait before another attempt leads to it, unless a stop was asked for, which ends the launch.
pub proof fn a_wait_leads_to_the_next_attempt(state: LifecycleView, attempt: u32)
    requires
        1 <= attempt < 4,
    ensures
        ({
            let step = after_wait(state, attempt);
            &&& state.stop_requested == Some(true) ==> step.action is Finish
                && step.state.phase is Stopped
            &&& state.stop_requested != Some(true) ==> step.action == (LaunchAction::CheckTor {
                attempt: (attempt + 1) as u32,
            }) && step.state == state
            &&& step.log.len() == 0
            &&& step.state.open == state.open
        }),
{
}

/// Serving that ends with an error nobody asked for, and a Tor that stayed unusable to the last
/// attempt, fail the maker for that reason and leave its wallet open. Any other end stops it and
/// shuts the wallet.
pub proof fn how_a_launch_ends(
    state: LifecycleView,
    outcome: Result<(), Seq<char>>,
    port: u16,
    shutdown: bool,
)
    ensures
        ({
            let step = concluded(state, outcome, shutdown);
            let wanted = state.stop_requested == Some(true) || shutdown;
            &&& step.action is Finish
            &&& step.log.len() == 1
            &&& step.state.new_mnemonic == state.new_mnemonic
            &&& outcome matches Err(reason) ==> !wanted ==> {
                &&& step.state.phase == PhaseView::Failed(reason)
                &&& step.state.open == state.open
                &&& step.log[0].is_error
                &&& text::mentions(step.log[0].text, reason)
            }
            &&& outcome is Ok || wanted ==> {
                &&& step.state.phase is Stopped
                &&& !step.state.open
                &&& !step.log[0].is_error
            }
        }),
        outcome matches Err(reason) ==> {
            let step = after_tor_check(state, 4, port, Err(reason), shutdown);
            &&& step.action is Finish
            &&& state.stop_requested != Some(true) && !shutdown ==> step.state.phase is Failed
                && text::mentions(step.state.phase->Failed_0, reason) && step.state.open
                == state.open
            &&& state.stop_requested == Some(true) || shutdown ==> step.state.phase is Stopped
        },
{
    broadcast use {text::lemma_mentions_end, text::lemma_mentions_front};

}

/// The status of an open maker is what was read of it, apart from the phase, which is its own: the
/// balances and the bonds as they are unless the wallet was locked, the swaps in flight and the
/// port.
pub proof fn the_status_is_what_was_read(state: LifecycleView, readings: ServerReadingsView)
    ensures
        status_of(state, Some(readings)).phase == state.phase,
        status_of(state, None) == StatusView::without_maker(state.phase),
        !state.open ==> status_of(state, Some(readings)) == StatusView::without_maker(state.phase),
        state.open ==> {
            let status = status_of(state, Some(readings));
            &&& status.port == Some(readings.port)
            &&& status.ongoing_swaps == readings.ongoing_swaps
            &&& status.wallet_busy <==> readings.wallet is None
            &&& readings.wallet matches Some(wallet) ==> status.balances == wallet.balances
                && status.bonds == wallet.bonds
            &&& readings.wallet is None ==> status.balances is None && status.bonds.len() == 0
        },
        ({
            let bare = StatusView::without_maker(state.phase);
            &&& bare.phase == state.phase && bare.balances is None && bare.ongoing_swaps is None
            &&& bare.bonds.len() == 0 && !bare.wallet_busy && bare.port is None
        }),
{
}

/// A maker can be asked for an address, and to clear out idle swaps, exactly while its wallet is
/// open.
pub proof fn an_open_maker_can_be_asked(state: LifecycleView)
    ensures
        address_guard(state) is Ok <==> state.open,
        drain_guard(state) is Ok <==> state.open,
{
}

/// The address that is handed out is the one the wallet gave, and a refusal is told with its
/// reason. Only an address is a success.
pub proof fn the_address_is_the_wallets(reading: AddressReadingView)
    ensures
        address_text(reading) is Ok <==> reading is Address,
        reading matches AddressReadingView::Address(address) ==> address_text(reading) == Ok::<
            Seq<char>,
            Seq<char>,
        >(address),
        reading matches AddressReadingView::Refused(why) ==> text::mentions(
            address_text(reading)->Err_0,
            why,
        ),
{
    broadcast use {text::lemma_mentions_end, text::lemma_mentions_front};

}

/// There is a thread to wait for exactly if one was started, and the server is signalled exactly if
/// it is to be. An error that names the deadline is logged exactly if the thread missed it. A count
/// of drained swaps is handed on as it is, and a failure with its reason.
pub proof fn what_stopping_takes(
    state: LifecycleView,
    signal: bool,
    finished: bool,
    deadline_secs: u64,
    drained: Result<usize, Seq<char>>,
)
    ensures
        stop_step(state, signal) is Done <==> state.stop_requested is None,
        state.stop_requested is Some ==> stop_step(state, signal) == (StopStep::Wait { signal }),
        stop_lines(finished, deadline_secs).len() == if finished {
            0int
        } else {
            1
        },
        !finished ==> {
            let line = stop_lines(finished, deadline_secs)[0];
            &&& line.is_error
            &&& text::mentions(line.text, text::decimal(deadline_secs as nat))
        },
        drain_text(drained) is Ok <==> drained is Ok,
        drained matches Ok(count) ==> drain_text(drained)->Ok_0 == count,
        drained matches Err(why) ==> text::mentions(drain_text(drained)->Err_0, why),
{
    broadcast use {text::lemma_mentions_end, text::lemma_mentions_front};

}

/// A maker that was initialised goes on with the first of its attempts to reach Tor, and when the
/// last of them failed, or any later one, there is no other.
pub proof fn the_attempts_are_counted(
    state: LifecycleView,
    wallet: WalletReadView,
    attempt: u32,
    port: u16,
    reason: Seq<char>,
    shutdown: bool,
)
    ensures
        state.stop_requested != Some(true) ==> after_init(state, Ok(wallet)).action == (
        LaunchAction::CheckTor { attempt: 1 }),
        attempt >= 4 ==> after_tor_check(state, attempt, port, Err(reason), shutdown).action
            is Finish,
        after_init(state, Ok(wallet)).state.stop_requested == state.stop_requested,
        after_tor_check(state, attempt, port, Err(reason), shutdown).state.stop_requested
            == state.stop_requested,
        after_wait(state, attempt).state.stop_requested == state.stop_requested,
{
}

/// What is logged while the maker is launched, with what it is said of in its place: the attempt
/// before how many there are, the failure before the wait, the port before the error.
pub proof fn what_is_logged_about_a_launch(
    state: LifecycleView,
    attempt: u32,
    port: u16,
    error: Seq<char>,
)
    ensures
        ("Tor is not usable on control port "@ + text::decimal(port as nat) + ": "@
            + error).is_prefix_of(tor_failure(port, error)),
        ("Tor check "@ + text::decimal(attempt as nat) + " of "@ + text::decimal(4) + " failed: "@
            + error + ". Retrying in "@ + text::decimal((5 * attempt) as nat)).is_prefix_of(
            retry_line(attempt, error).text,
        ),
        after_tor_check(state, attempt, port, Ok(()), false).log[0].text == "Maker is running."@,
        after_init(state, Err(error)).log[0].text == "Maker failed to start: "@ + error,
        concluded(state, Ok(()), false).log[0].text == "Maker stopped."@,
        state.stop_requested != Some(true) ==> concluded(state, Err(error), false).log[0].text
            == "Maker stopped serving: "@ + error,
{
    broadcast use {text::lemma_begins_itself, text::lemma_begins_more};

}

/// A stop during initialisation is no error, and the log says so last.
pub proof fn a_stop_during_initialisation_is_logged(state: LifecycleView, wallet: WalletReadView)
    requires
        state.stop_requested == Some(true),
    ensures
        ({
            let last = after_init(state, Ok(wallet)).log.last();
            &&& !last.is_error
            &&& last.text == "Maker stopped before it finished starting."@
        }),
{
}

/// Readings are taken as they are, field by field and bond by bond, and so is a step of the launch.
pub proof fn readings_are_taken_as_they_are(
    bonds: Seq<(u64, String)>,
    at: int,
    readings: ServerReadings,
    status: Status,
    reading: AddressReading,
    step: LaunchStep,
    state: LifecycleView,
)
    ensures
        bonds_view(bonds).len() == bonds.len(),
        0 <= at < bonds.len() ==> bonds_view(bonds)[at].0 == bonds[at].0 && bonds_view(bonds)[at].1
            == bonds[at].1@,
        readings@.wallet is None <==> readings.wallet is None,
        readings.wallet matches Some(wallet) ==> readings@.wallet->Some_0.balances
            == wallet.balances && readings@.wallet->Some_0.bonds == bonds_view(wallet.bonds@),
        readings@.ongoing_swaps == readings.ongoing_swaps,
        readings@.port == readings.port,
        ServerReadings::view_of(Some(readings)) == Some(readings@),
        ServerReadings::view_of(None) is None,
        status@.phase == status.phase@,
        status@.balances == status.balances,
        status@.ongoing_swaps == status.ongoing_swaps,
        status@.bonds == bonds_view(status.bonds@),
        status@.wallet_busy == status.wallet_busy,
        status@.port == status.port,
        reading@ is Busy <==> reading is Busy,
        reading matches AddressReading::Refused(why) ==> reading@ == AddressReadingView::Refused(
            why@,
        ),
        reading matches AddressReading::Address(address) ==> reading@
            == AddressReadingView::Address(address@),
        step.beside(state).state == state,
        step.beside(state).action == step.action,
        step.beside(state).log == LogLineView::of(step.log@),
{
}

} // verus!
