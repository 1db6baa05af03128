//! Owns the taker's wallet: opening it, reporting on it, funding it, withdrawing from it, and
//! swapping what it holds.
//!
//! The wallet is the taker's own, separate from the maker's and from every BTCPay store. Quotes
//! and swaps take far too long for the operator's request, so they run elsewhere; the functions
//! here decide whether they may begin and record how they went.

use vstd::prelude::*;

use crate::lifecycle::{Lifecycle, LifecycleView, WalletRead, WalletReadView};
use crate::runtime;
use crate::runtime::StopStep;
use crate::settings::ProtocolVersion;
use crate::shared::{one_line, Balances, LogLine, LogLineView, Phase, PhaseView};
use crate::text;
use crate::text::{decimal_text, trim};

verus! {

/// One hop of a quote: the maker at that position and what it charges.
#[derive(PartialEq, Eq, Debug)]
pub struct QuoteHop {
    pub address: String,
    pub locktime: u16,
    pub fee_sat: u64,
}

/// What a [`QuoteHop`] holds.
#[verifier::ext_equal]
pub struct QuoteHopView {
    pub address: Seq<char>,
    pub locktime: u16,
    pub fee_sat: u64,
}

impl View for QuoteHop {
    type V = QuoteHopView;

    open spec fn view(&self) -> QuoteHopView {
        QuoteHopView {
            address: self.address@,
            locktime: self.locktime,
            fee_sat: self.fee_sat,
        }
    }
}

/// What a swap would cost, before anything is committed.
#[derive(PartialEq, Eq, Debug)]
pub struct Quote {
    /// Identifies the prepared swap, and is what executing it will refer to.
    pub swap_id: String,
    pub send_sat: u64,
    pub total_fee_sat: u64,
    pub receive_sat: u64,
    pub hops: Vec<QuoteHop>,
}

/// What a [`Quote`] holds.
#[verifier::ext_equal]
pub struct QuoteView {
    pub swap_id: Seq<char>,
    pub send_sat: u64,
    pub total_fee_sat: u64,
    pub receive_sat: u64,
    pub hops: Seq<QuoteHopView>,
}

impl View for Quote {
    type V = QuoteView;

    open spec fn view(&self) -> QuoteView {
        QuoteView {
            swap_id: self.swap_id@,
            send_sat: self.send_sat,
            total_fee_sat: self.total_fee_sat,
            receive_sat: self.receive_sat,
            hops: self.hops@.map_values(|hop: QuoteHop| hop@),
        }
    }
}

impl Quote {
    /// A copy to render, which needs no lock.
    fn copy(&self) -> (result: Self)
        ensures
            result@ == self@,
    {
        let mut hops: Vec<QuoteHop> = Vec::new();
        let mut at: usize = 0;
        while at < self.hops.len()
            invariant
                at <= self.hops@.len(),
                hops@.len() == at,
                forall|i: int| 0 <= i < at ==> (#[trigger] hops@[i])@ == self.hops@[i]@,
            decreases self.hops@.len() - at,
        {
            let hop = &self.hops[at];
            hops.push(
                QuoteHop {
                    address: hop.address.clone(),
                    locktime: hop.locktime,
                    fee_sat: hop.fee_sat,
                },
            );
            at = at + 1;
        }
        assert(hops@.map_values(|hop: QuoteHop| hop@) =~= self.hops@.map_values(
            |hop: QuoteHop| hop@,
        ));
        Quote {
            swap_id: self.swap_id.clone(),
            send_sat: self.send_sat,
            total_fee_sat: self.total_fee_sat,
            receive_sat: self.receive_sat,
            hops,
        }
    }
}

/// Where the quote has got to.
#[derive(PartialEq, Eq, Debug)]
pub enum QuoteState {
    Idle,
    Preparing,
    /// Nothing has been committed.
    Ready(Quote),
    /// The string is for the operator.
    Failed(String),
}

/// What a [`QuoteState`] says.
#[verifier::ext_equal]
pub enum QuoteStateView {
    Idle,
    Preparing,
    Ready(QuoteView),
    Failed(Seq<char>),
}

impl View for QuoteState {
    type V = QuoteStateView;

    open spec fn view(&self) -> QuoteStateView {
        match *self {
            QuoteState::Idle => QuoteStateView::Idle,
            QuoteState::Preparing => QuoteStateView::Preparing,
            QuoteState::Ready(quote) => QuoteStateView::Ready(quote@),
            QuoteState::Failed(why) => QuoteStateView::Failed(why@),
        }
    }
}

/// How a finished swap turned out.
#[derive(PartialEq, Eq, Debug)]
pub struct SwapOutcome {
    pub swap_id: String,
    pub status: String,
    pub sent_sat: u64,
    pub received_sat: u64,
    pub maker_fees_sat: u64,
    pub mining_fee_sat: u64,
    /// How many seconds it took, rounded to whole ones, as text.
    pub duration_secs: String,
}

/// What a [`SwapOutcome`] holds.
#[verifier::ext_equal]
pub struct SwapOutcomeView {
    pub swap_id: Seq<char>,
    pub status: Seq<char>,
    pub sent_sat: u64,
    pub received_sat: u64,
    pub maker_fees_sat: u64,
    pub mining_fee_sat: u64,
    pub duration_secs: Seq<char>,
}

impl View for SwapOutcome {
    type V = SwapOutcomeView;

    open spec fn view(&self) -> SwapOutcomeView {
        SwapOutcomeView {
            swap_id: self.swap_id@,
            status: self.status@,
            sent_sat: self.sent_sat,
            received_sat: self.received_sat,
            maker_fees_sat: self.maker_fees_sat,
            mining_fee_sat: self.mining_fee_sat,
            duration_secs: self.duration_secs@,
        }
    }
}

/// Where an accepted swap has got to.
///
/// Separate from [`QuoteState`]: a quote can be thrown away, a running swap has funds in
/// contracts.
#[derive(PartialEq, Eq, Debug)]
pub enum SwapState {
    Idle,
    /// Funds are committed on chain from here on.
    Running {
        swap_id: String,
        /// When it started, in nanoseconds of a clock that never goes back.
        since: u64,
    },
    Done(SwapOutcome),
    /// Funds may be in contracts awaiting recovery.
    Failed {
        swap_id: String,
        why: String,
        /// Whether funds left the wallet. `None` when that could not be checked.
        committed: Option<bool>,
    },
}

/// What a [`SwapState`] says.
#[verifier::ext_equal]
pub enum SwapStateView {
    Idle,
    Running { swap_id: Seq<char>, since: u64 },
    Done(SwapOutcomeView),
    Failed { swap_id: Seq<char>, why: Seq<char>, committed: Option<bool> },
}

impl View for SwapState {
    type V = SwapStateView;

    open spec fn view(&self) -> SwapStateView {
        match *self {
            SwapState::Idle => SwapStateView::Idle,
            SwapState::Running { swap_id, since } => SwapStateView::Running {
                swap_id: swap_id@,
                since,
            },
            SwapState::Done(outcome) => SwapStateView::Done(outcome@),
            SwapState::Failed { swap_id, why, committed } => SwapStateView::Failed {
                swap_id: swap_id@,
                why: why@,
                committed,
            },
        }
    }
}

/// Opens and closes the taker's wallet, and answers questions about it.
pub struct TakerRuntime {
    lifecycle: Lifecycle,
    /// The most recent quote, or how it is going.
    quote: QuoteState,
    /// The accepted swap, or how it went.
    swap: SwapState,
}

/// What a [`TakerRuntime`] holds.
#[verifier::ext_equal]
pub struct TakerView {
    pub lifecycle: LifecycleView,
    pub quote: QuoteStateView,
    pub swap: SwapStateView,
}

impl View for TakerRuntime {
    type V = TakerView;

    closed spec fn view(&self) -> TakerView {
        TakerView { lifecycle: self.lifecycle@, quote: self.quote@, swap: self.swap@ }
    }
}

impl TakerView {
    /// No wallet open, no quote and no swap.
    pub open spec fn fresh() -> TakerView {
        TakerView {
            lifecycle: LifecycleView::fresh(),
            quote: QuoteStateView::Idle,
            swap: SwapStateView::Idle,
        }
    }
}

/// What a swap is asked to be.
#[derive(Clone, Copy, PartialEq, Eq, Structural, Debug)]
pub struct SwapParams {
    pub protocol: ProtocolVersion,
    pub send_sat: u64,
    pub maker_count: usize,
}

/// Why a quote cannot be asked for, if there is a reason.
pub open spec fn quote_refusal(state: TakerView, params: SwapParams) -> Option<Seq<char>> {
    if params.send_sat == 0 {
        Some("A swap needs an amount above zero."@)
    } else if params.maker_count == 0 {
        Some("A swap needs at least one maker."@)
    } else if state.quote is Preparing {
        Some("A quote is already being prepared."@)
    } else if state.swap is Running {
        Some("A swap is running. Wait for it to finish before quoting another."@)
    } else if !state.lifecycle.open {
        Some("The taker wallet is not open."@)
    } else {
        None
    }
}

/// The state after a quote was asked for.
pub open spec fn after_quote_request(state: TakerView, params: SwapParams) -> TakerView {
    if quote_refusal(state, params) is None {
        TakerView { quote: QuoteStateView::Preparing, ..state }
    } else {
        state
    }
}

/// Whether an earlier swap is still being recovered, where that is known.
///
/// `recovery_complete` is what the taker says about it, where it could be asked.
pub open spec fn pending(state: TakerView, recovery_complete: Option<bool>) -> Option<bool> {
    match recovery_complete {
        Some(complete) if state.lifecycle.open => Some(!complete),
        _ => None,
    }
}

/// Why a quote cannot be accepted, if there is a reason.
pub open spec fn accept_refusal(
    state: TakerView,
    recovery_complete: Option<bool>,
) -> Option<Seq<char>> {
    if !state.lifecycle.open {
        Some("The taker wallet is not open."@)
    } else if pending(state, recovery_complete) == Some(true) {
        Some(
            "An earlier swap is still being recovered. Wait for its contracts to resolve before starting another."@,
        )
    } else if state.swap is Running {
        Some("A swap is already running."@)
    } else if !(state.quote is Ready) {
        Some("There is no quote to accept. Request one first."@)
    } else {
        None
    }
}

/// The state after the quote was accepted at the time `now`.
pub open spec fn after_accept(
    state: TakerView,
    recovery_complete: Option<bool>,
    now: u64,
) -> TakerView {
    if accept_refusal(state, recovery_complete) is None {
        TakerView {
            quote: QuoteStateView::Idle,
            swap: SwapStateView::Running { swap_id: state.quote->Ready_0.swap_id, since: now },
            ..state
        }
    } else {
        state
    }
}

/// The state after the swap was cleared, which a running one cannot be.
pub open spec fn after_clear_swap(state: TakerView) -> TakerView {
    if state.swap is Running {
        state
    } else {
        TakerView { swap: SwapStateView::Idle, ..state }
    }
}

/// The state after the quote was cleared.
pub open spec fn after_clear_quote(state: TakerView) -> TakerView {
    TakerView { quote: QuoteStateView::Idle, ..state }
}

/// What is logged after a new taker wallet was created, or could not be read.
pub open spec fn wallet_lines(wallet: WalletReadView) -> Seq<LogLineView> {
    match wallet {
        WalletReadView::Created(_) => seq![
            LogLineView::info(
                "A new taker wallet was created. Its recovery phrase is on the taker page and is shown only once. It is a different wallet from the maker's, with a different phrase."@,
            ),
        ],
        WalletReadView::Existing => Seq::empty(),
        WalletReadView::Unreadable => seq![
            LogLineView::error(
                "Could not read the taker wallet after opening it. If this was a new wallet, its recovery phrase could not be shown."@,
            ),
        ],
    }
}

/// The state after the wallet was opened, or could not be. One that was asked to close meanwhile
/// stays shut.
pub open spec fn after_open(
    state: LifecycleView,
    outcome: Result<WalletReadView, Seq<char>>,
) -> LifecycleView {
    match outcome {
        Err(message) => LifecycleView { phase: PhaseView::Failed(message), ..state },
        Ok(wallet) => if state.stopping() {
            LifecycleView { phase: PhaseView::Stopped, ..state.after_read(wallet) }
        } else {
            LifecycleView { phase: PhaseView::Running, open: true, ..state.after_read(wallet) }
        },
    }
}

/// What is logged about opening the wallet.
pub open spec fn open_lines(
    state: LifecycleView,
    outcome: Result<WalletReadView, Seq<char>>,
) -> Seq<LogLineView> {
    match outcome {
        Err(message) => seq![LogLineView::error("Taker wallet failed to open: "@ + message)],
        Ok(wallet) => wallet_lines(wallet).push(
            LogLineView::info(
                if state.stopping() {
                    "Taker wallet closed before it finished opening."@
                } else {
                    "Taker wallet is open."@
                },
            ),
        ),
    }
}

impl TakerRuntime {
    /// A runtime with no wallet open.
    pub fn new() -> (result: Self)
        ensures
            result@ == TakerView::fresh(),
    {
        TakerRuntime {
            lifecycle: Lifecycle::new(),
            quote: QuoteState::Idle,
            swap: SwapState::Idle,
        }
    }

    /// Asks the makers what a swap would cost.
    ///
    /// Nothing is committed: the operator sees the fee before deciding. The in-memory guards come
    /// first, so the message names the most specific reason. On success the caller prepares the
    /// swap with these parameters and reports back.
    pub fn request_quote(
        &mut self,
        send_sat: u64,
        maker_count: usize,
        protocol: ProtocolVersion,
    ) -> (result: Result<SwapParams, String>)
        ensures
            ({
                let params = SwapParams { protocol, send_sat, maker_count };
                &&& text::failure(result) == match quote_refusal(old(self)@, params) {
                    Some(why) => Err(why),
                    None => Ok(params),
                }
                &&& final(self)@ == after_quote_request(old(self)@, params)
            }),
    {
        if send_sat == 0 {
            return Err("A swap needs an amount above zero.".to_string());
        }
        if maker_count == 0 {
            return Err("A swap needs at least one maker.".to_string());
        }
        if matches!(self.quote, QuoteState::Preparing) {
            return Err("A quote is already being prepared.".to_string());
        }
        if self.swap_running() {
            return Err(
                "A swap is running. Wait for it to finish before quoting another.".to_string(),
            );
        }
        if !self.lifecycle.wallet_open() {
            return Err("The taker wallet is not open.".to_string());
        }
        self.quote = QuoteState::Preparing;
        Ok(SwapParams { protocol, send_sat, maker_count })
    }

    /// Executes the prepared quote. **This commits funds on chain.**
    ///
    /// The quote is consumed, so it cannot be accepted twice. On success the caller runs the swap
    /// with the returned identifier and reports back.
    pub fn accept_quote(&mut self, recovery_complete: Option<bool>, now: u64) -> (result: Result<
        String,
        String,
    >)
        ensures
            text::either(result) == match accept_refusal(old(self)@, recovery_complete) {
                Some(why) => Err(why),
                None => Ok(old(self)@.quote->Ready_0.swap_id),
            },
            final(self)@ == after_accept(old(self)@, recovery_complete, now),
    {
        if !self.lifecycle.wallet_open() {
            return Err("The taker wallet is not open.".to_string());
        }
        // Contracts still recovering means funds are committed elsewhere; starting another is how
        // one bad swap becomes two.
        if let Some(true) = self.recovery_pending(recovery_complete) {
            return Err(
                "An earlier swap is still being recovered. Wait for its contracts to resolve before starting another.".to_string(),
            );
        }
        if self.swap_running() {
            return Err("A swap is already running.".to_string());
        }
        let swap_id = match &self.quote {
            QuoteState::Ready(quote) => quote.swap_id.clone(),
            _ => {
                return Err("There is no quote to accept. Request one first.".to_string());
            },
        };
        self.quote = QuoteState::Idle;
        self.swap = SwapState::Running { swap_id: swap_id.clone(), since: now };
        Ok(swap_id)
    }

    /// Whether an earlier swap is still being recovered, given what the taker says about it where
    /// it could be asked.
    ///
    /// `None` when undetermined, which callers treat as "do not block": refusing on a reading
    /// that could not be taken would strand the operator.
    pub fn recovery_pending(&self, recovery_complete: Option<bool>) -> (result: Option<bool>)
        ensures
            result == pending(self@, recovery_complete),
    {
        if !self.lifecycle.wallet_open() {
            return None;
        }
        match recovery_complete {
            Some(complete) => Some(!complete),
            None => None,
        }
    }

    /// True while a swap is executing, so callers can refuse to start another.
    pub fn swap_running(&self) -> (result: bool)
        ensures
            result == self@.swap is Running,
    {
        matches!(self.swap, SwapState::Running { .. })
    }

    /// Clears a finished or failed swap, so the page offers a new quote.
    ///
    /// Refuses while one is running: the state is the only record that funds are committed.
    pub fn clear_swap(&mut self) -> (result: Result<(), String>)
        ensures
            text::failure(result) == if old(self)@.swap is Running {
                Err("That swap is still running."@)
            } else {
                Ok(())
            },
            final(self)@ == after_clear_swap(old(self)@),
    {
        if self.swap_running() {
            return Err("That swap is still running.".to_string());
        }
        self.swap = SwapState::Idle;
        Ok(())
    }

    /// Forgets the current quote, so the page offers a fresh one.
    pub fn clear_quote(&mut self)
        ensures
            final(self)@ == after_clear_quote(old(self)@),
    {
        self.quote = QuoteState::Idle;
    }

    /// Takes note of the quote, or of why there is none, and returns what to log.
    pub fn quote_finished(&mut self, outcome: Result<Quote, String>) -> (line: LogLine)
        ensures
            final(self)@ == after_quote(old(self)@, Quote::prepared(outcome)),
            line@ == quote_line(Quote::prepared(outcome)),
    {
        match outcome {
            Ok(quote) => {
                let line = LogLine::info(
                    "Quote ready: swap ".to_string().concat(quote.swap_id.as_str()).concat(
                        " costs ",
                    ).concat(decimal_text(quote.total_fee_sat).as_str()).concat(" sats in fees."),
                );
                self.quote = QuoteState::Ready(quote);
                line
            },
            Err(why) => {
                let line = LogLine::error(
                    "Could not prepare a quote: ".to_string().concat(why.as_str()),
                );
                self.quote = QuoteState::Failed(why);
                line
            },
        }
    }

    /// Takes note of how the swap went, and returns what to log.
    ///
    /// `committed` is whether funds left the wallet, which matters to a swap that failed.
    pub fn swap_finished(
        &mut self,
        started: String,
        outcome: Result<SwapOutcome, String>,
        committed: Option<bool>,
    ) -> (line: LogLine)
        ensures
            final(self)@ == after_swap(
                old(self)@,
                started@,
                SwapOutcome::reported(outcome),
                committed,
            ),
            line@ == swap_line(started@, SwapOutcome::reported(outcome)),
    {
        match outcome {
            Ok(report) => {
                let line = LogLine::info(
                    "Swap ".to_string().concat(report.swap_id.as_str()).concat(
                        " finished: ",
                    ).concat(report.status.as_str()).concat(", ").concat(
                        decimal_text(report.maker_fees_sat).as_str(),
                    ).concat(" sats in maker fees."),
                );
                self.swap = SwapState::Done(report);
                line
            },
            Err(why) => {
                let line = LogLine::error(
                    "Swap ".to_string().concat(started.as_str()).concat(
                        " did not finish: ",
                    ).concat(why.as_str()),
                );
                self.swap = SwapState::Failed { swap_id: started, why, committed };
                line
            },
        }
    }

    /// Takes note that no thread could be spawned for the quote, and says so.
    pub fn quote_spawn_failed(&mut self, error: &str) -> (result: String)
        ensures
            result@ == "Could not spawn the quote thread: "@ + error@,
            final(self)@ == after_clear_quote(old(self)@),
    {
        self.quote = QuoteState::Idle;
        "Could not spawn the quote thread: ".to_string().concat(error)
    }

    /// Takes note that no thread could be spawned for the swap, and says so.
    pub fn swap_spawn_failed(&mut self, error: &str) -> (result: String)
        ensures
            result@ == "Could not spawn the swap thread: "@ + error@,
            final(self)@ == (TakerView { swap: SwapStateView::Idle, ..old(self)@ }),
    {
        self.swap = SwapState::Idle;
        "Could not spawn the swap thread: ".to_string().concat(error)
    }

    /// Takes note of how opening the wallet went, and returns what to log.
    pub fn opened(&mut self, outcome: Result<WalletRead, String>) -> (log: Vec<LogLine>)
        requires
            old(self)@.lifecycle.stop_requested is Some,
        ensures
            final(self)@ == (TakerView {
                lifecycle: after_open(old(self)@.lifecycle, WalletReadView::opening(outcome)),
                ..old(self)@
            }),
            LogLineView::of(log@) == open_lines(
                old(self)@.lifecycle,
                WalletReadView::opening(outcome),
            ),
    {
        let wallet = match outcome {
            Err(message) => {
                let line = LogLine::error(
                    "Taker wallet failed to open: ".to_string().concat(message.as_str()),
                );
                self.lifecycle.set_phase(Phase::Failed(message));
                return one_line(line);
            },
            Ok(wallet) => wallet,
        };
        let mut log: Vec<LogLine> = Vec::new();
        assert(LogLineView::of(log@) =~= Seq::empty());
        match wallet {
            WalletRead::Created(words) => {
                self.lifecycle.keep_mnemonic(words);
                log = one_line(
                    LogLine::info(
                        "A new taker wallet was created. Its recovery phrase is on the taker page and is shown only once. It is a different wallet from the maker's, with a different phrase.".to_string(),
                    ),
                );
            },
            WalletRead::Existing => {},
            WalletRead::Unreadable => {
                log = one_line(
                    LogLine::error(
                        "Could not read the taker wallet after opening it. If this was a new wallet, its recovery phrase could not be shown.".to_string(),
                    ),
                );
            },
        }
        let ghost said = LogLineView::of(log@);
        let line = if self.lifecycle.stop_requested() {
            self.lifecycle.set_phase(Phase::Stopped);
            LogLine::info("Taker wallet closed before it finished opening.".to_string())
        } else {
            self.lifecycle.set_open(true);
            self.lifecycle.set_phase(Phase::Running);
            LogLine::info("Taker wallet is open.".to_string())
        };
        log.push(line);
        assert(LogLineView::of(log@) =~= said.push(line@));
        log
    }
}

impl TakerRuntime {
    /// What the taker is doing, without querying it.
    pub fn phase(&self) -> (result: Phase)
        ensures
            result@ == self@.lifecycle.phase,
    {
        self.lifecycle.phase()
    }

    /// True when the wallet is opening or open.
    pub fn is_live(&self) -> (result: bool)
        ensures
            result == self@.lifecycle.phase.live(),
    {
        self.lifecycle.is_live()
    }

    /// True when the wallet is open and can be queried.
    pub fn wallet_open(&self) -> (result: bool)
        ensures
            result == self@.lifecycle.open,
    {
        self.lifecycle.wallet_open()
    }

    /// Returns a new wallet's recovery phrase the first time it is asked for, and nothing after.
    pub fn take_new_mnemonic(&mut self) -> (result: Option<String>)
        ensures
            text::optional(result) == old(self)@.lifecycle.new_mnemonic,
            final(self)@ == (TakerView {
                lifecycle: old(self)@.lifecycle.phrase_taken(),
                ..old(self)@
            }),
    {
        self.lifecycle.take_new_mnemonic()
    }

    /// Whether the opening thread was started, which may have finished since.
    pub fn thread_started(&self) -> (result: bool)
        ensures
            result == (self@.lifecycle.stop_requested is Some),
    {
        self.lifecycle.thread_started()
    }

    /// Prepares to open the taker's wallet, unless it is opening or open already.
    ///
    /// On success the caller opens it on a thread of its own: opening scans the chain, which does
    /// not belong on BTCPay's startup path.
    pub fn start(&mut self) -> (result: Result<(), String>)
        ensures
            text::failure(result) == old(self)@.lifecycle.start_granted(
                "The taker wallet is already open."@,
            ),
            final(self)@ == (TakerView {
                lifecycle: old(self)@.lifecycle.begun(),
                ..old(self)@
            }),
    {
        if self.lifecycle.begin() {
            Ok(())
        } else {
            Err("The taker wallet is already open.".to_string())
        }
    }

    /// Takes note that no thread could be spawned to open the wallet, and says so.
    pub fn spawn_failed(&mut self, error: &str) -> (result: String)
        ensures
            result@ == "Could not spawn the taker thread: "@ + error@,
            final(self)@ == (TakerView {
                lifecycle: old(self)@.lifecycle.abandoned(),
                ..old(self)@
            }),
    {
        self.lifecycle.abandon();
        "Could not spawn the taker thread: ".to_string().concat(error)
    }

    /// Asks the opening thread to stop. There is nothing to wait for if none was ever started, and
    /// the wallet is shut.
    pub fn stop(&mut self) -> (result: StopStep)
        ensures
            result == StopStep::Done ==> !final(self)@.lifecycle.open
                && !final(self)@.lifecycle.phase.live(),
            result == runtime::stop_step(old(self)@.lifecycle, false),
            final(self)@ == (TakerView {
                lifecycle: old(self)@.lifecycle.asked_to_stop(),
                ..old(self)@
            }),
    {
        if self.lifecycle.request_stop() {
            StopStep::Wait { signal: false }
        } else {
            StopStep::Done
        }
    }

    /// Takes note of whether the opening thread finished within the deadline, closing the wallet
    /// if so, and returns what to log.
    pub fn stop_waited(&mut self, finished: bool, deadline_secs: u64) -> (log: Vec<LogLine>)
        ensures
            final(self)@ == (TakerView {
                lifecycle: old(self)@.lifecycle.waited(finished),
                ..old(self)@
            }),
            LogLineView::of(log@) == close_lines(finished, deadline_secs),
    {
        if finished {
            self.lifecycle.finish();
            let log: Vec<LogLine> = Vec::new();
            assert(LogLineView::of(log@) =~= Seq::empty());
            log
        } else {
            one_line(
                LogLine::error(
                    "The taker wallet did not close within ".to_string().concat(
                        decimal_text(deadline_secs).as_str(),
                    ).concat("s, so it has been left open."),
                ),
            )
        }
    }

    /// Reports where the current quote has got to, for the page.
    pub fn quote_state(&self) -> (result: QuoteState)
        ensures
            result@ == self@.quote,
    {
        match &self.quote {
            QuoteState::Idle => QuoteState::Idle,
            QuoteState::Preparing => QuoteState::Preparing,
            QuoteState::Failed(why) => QuoteState::Failed(why.clone()),
            QuoteState::Ready(quote) => QuoteState::Ready(quote.copy()),
        }
    }

    /// Reports where an accepted swap has got to, for the page.
    pub fn swap_state(&self) -> (result: SwapState)
        ensures
            result@ == self@.swap,
    {
        match &self.swap {
            SwapState::Idle => SwapState::Idle,
            SwapState::Running { swap_id, since } => SwapState::Running {
                swap_id: swap_id.clone(),
                since: *since,
            },
            SwapState::Failed { swap_id, why, committed } => SwapState::Failed {
                swap_id: swap_id.clone(),
                why: why.clone(),
                committed: *committed,
            },
            SwapState::Done(outcome) => SwapState::Done(
                SwapOutcome {
                    swap_id: outcome.swap_id.clone(),
                    status: outcome.status.clone(),
                    sent_sat: outcome.sent_sat,
                    received_sat: outcome.received_sat,
                    maker_fees_sat: outcome.maker_fees_sat,
                    mining_fee_sat: outcome.mining_fee_sat,
                    duration_secs: outcome.duration_secs.clone(),
                },
            ),
        }
    }

    /// A point-in-time view for the page, from what could be read of the taker.
    ///
    /// Without an open wallet there is nothing to read.
    pub fn status(&self, reading: Option<TakerReading>) -> (result: Status)
        ensures
            result@ == status_of(self@.lifecycle, reading),
    {
        let phase = self.phase();
        if !self.wallet_open() {
            return Status::shut(phase);
        }
        match reading {
            None => Status::shut(phase),
            Some(TakerReading::Locked) => Status {
                phase,
                balances: None,
                wallet_busy: true,
                recovery_complete: None,
            },
            Some(TakerReading::WalletLocked { recovery_complete }) => Status {
                phase,
                balances: None,
                wallet_busy: true,
                recovery_complete: Some(recovery_complete),
            },
            Some(TakerReading::Free { recovery_complete, balances }) => Status {
                phase,
                balances,
                wallet_busy: false,
                recovery_complete: Some(recovery_complete),
            },
        }
    }

    /// Whether a fresh address for funding the taker's wallet can be asked for.
    ///
    /// A command, not a page card: deriving one advances the address index and writes to disk.
    pub fn receive_address(&self) -> (result: Result<(), String>)
        ensures
            text::failure(result) == wallet_guard(self@),
    {
        self.guard_wallet()
    }

    /// Whether `sats` can be sent to `address`, and the address to send them to.
    ///
    /// The address and the amount are looked at before the wallet, so the message names the real
    /// problem.
    pub fn withdraw(&self, address: &str, sats: u64) -> (result: Result<String, String>)
        ensures
            text::either(result) == withdrawal(self@, address@, sats),
    {
        let address = trim(address);
        if address.unicode_len() == 0 {
            return Err("A withdrawal needs a destination address.".to_string());
        }
        if sats == 0 {
            return Err("A withdrawal needs an amount above zero.".to_string());
        }
        match self.guard_wallet() {
            Ok(()) => Ok(address.to_string()),
            Err(why) => Err(why),
        }
    }

    fn guard_wallet(&self) -> (result: Result<(), String>)
        ensures
            text::failure(result) == wallet_guard(self@),
    {
        if self.wallet_open() {
            Ok(())
        } else {
            Err(
                "The taker wallet is not open. Turn the taker on from the settings page.".to_string(),
            )
        }
    }
}

impl Default for TakerRuntime {
    fn default() -> (result: Self)
        ensures
            result@ == TakerView::fresh(),
    {
        TakerRuntime::new()
    }
}

/// Whether the wallet can be worked with, or what the operator is told instead.
pub open spec fn wallet_guard(state: TakerView) -> Result<(), Seq<char>> {
    if state.lifecycle.open {
        Ok(())
    } else {
        Err("The taker wallet is not open. Turn the taker on from the settings page."@)
    }
}

/// The address a withdrawal goes to, or why there is none.
pub open spec fn withdrawal(state: TakerView, address: Seq<char>, sats: u64) -> Result<
    Seq<char>,
    Seq<char>,
> {
    if text::trimmed(address).len() == 0 {
        Err("A withdrawal needs a destination address."@)
    } else if sats == 0 {
        Err("A withdrawal needs an amount above zero."@)
    } else {
        match wallet_guard(state) {
            Ok(()) => Ok(text::trimmed(address)),
            Err(why) => Err(why),
        }
    }
}

/// What came of working with the wallet.
pub enum WalletReply {
    /// Something else holds the taker.
    TakerBusy,
    /// Something else holds the wallet.
    WalletBusy,
    /// The wallet refused, for this reason.
    Refused(String),
    /// What was asked for.
    Answer(String),
}

/// What a [`WalletReply`] says.
#[verifier::ext_equal]
pub enum WalletReplyView {
    TakerBusy,
    WalletBusy,
    Refused(Seq<char>),
    Answer(Seq<char>),
}

impl View for WalletReply {
    type V = WalletReplyView;

    open spec fn view(&self) -> WalletReplyView {
        match *self {
            WalletReply::TakerBusy => WalletReplyView::TakerBusy,
            WalletReply::WalletBusy => WalletReplyView::WalletBusy,
            WalletReply::Refused(why) => WalletReplyView::Refused(why@),
            WalletReply::Answer(answer) => WalletReplyView::Answer(answer@),
        }
    }
}

/// What the operator is told about something that was asked of the wallet.
pub open spec fn reply_text(
    reply: WalletReplyView,
    what: Seq<char>,
    refused: Seq<char>,
) -> Result<Seq<char>, Seq<char>> {
    match reply {
        WalletReplyView::TakerBusy => Err(
            "The taker is busy, so it cannot "@ + what + " right now."@,
        ),
        WalletReplyView::WalletBusy => Err(
            "The taker wallet is busy syncing, so it cannot "@ + what + " right now."@,
        ),
        WalletReplyView::Refused(why) => Err(refused + why),
        WalletReplyView::Answer(answer) => Ok(answer),
    }
}

fn reply_outcome(reply: WalletReply, what: &str, refused: &str) -> (result: Result<
    String,
    String,
>)
    ensures
        text::either(result) == reply_text(reply@, what@, refused@),
{
    match reply {
        WalletReply::TakerBusy => Err(
            "The taker is busy, so it cannot ".to_string().concat(what).concat(" right now."),
        ),
        WalletReply::WalletBusy => Err(
            "The taker wallet is busy syncing, so it cannot ".to_string().concat(what).concat(
                " right now.",
            ),
        ),
        WalletReply::Refused(why) => Err(refused.to_string().concat(why.as_str())),
        WalletReply::Answer(answer) => Ok(answer),
    }
}

/// What the operator is told about a funding address of the taker.
pub fn address_outcome(reply: WalletReply) -> (result: Result<String, String>)
    ensures
        text::either(result) == reply_text(
            reply@,
            "derive an address"@,
            "Could not derive a receive address: "@,
        ),
{
    reply_outcome(reply, "derive an address", "Could not derive a receive address: ")
}

/// What the operator is told about a withdrawal: the transaction's identifier, or what went wrong.
pub fn withdrawal_outcome(reply: WalletReply) -> (result: Result<String, String>)
    ensures
        text::either(result) == reply_text(reply@, "withdraw"@, "The withdrawal failed: "@),
{
    reply_outcome(reply, "withdraw", "The withdrawal failed: ")
}

impl Quote {
    /// What became of preparing a quote.
    pub open spec fn prepared(outcome: Result<Quote, String>) -> Result<QuoteView, Seq<char>> {
        match outcome {
            Ok(quote) => Ok(quote@),
            Err(why) => Err(why@),
        }
    }
}

impl SwapOutcome {
    /// What became of a swap.
    pub open spec fn reported(outcome: Result<SwapOutcome, String>) -> Result<
        SwapOutcomeView,
        Seq<char>,
    > {
        match outcome {
            Ok(report) => Ok(report@),
            Err(why) => Err(why@),
        }
    }
}

/// The state after a quote was prepared, or could not be.
pub open spec fn after_quote(
    state: TakerView,
    outcome: Result<QuoteView, Seq<char>>,
) -> TakerView {
    TakerView {
        quote: match outcome {
            Ok(quote) => QuoteStateView::Ready(quote),
            Err(why) => QuoteStateView::Failed(why),
        },
        ..state
    }
}

/// What is logged after a quote was prepared, or could not be.
pub open spec fn quote_line(outcome: Result<QuoteView, Seq<char>>) -> LogLineView {
    match outcome {
        Ok(quote) => LogLineView::info(
            "Quote ready: swap "@ + quote.swap_id + " costs "@ + text::decimal(
                quote.total_fee_sat as nat,
            ) + " sats in fees."@,
        ),
        Err(why) => LogLineView::error("Could not prepare a quote: "@ + why),
    }
}

/// The state after a swap ran, and finished or did not.
pub open spec fn after_swap(
    state: TakerView,
    started: Seq<char>,
    outcome: Result<SwapOutcomeView, Seq<char>>,
    committed: Option<bool>,
) -> TakerView {
    TakerView {
        swap: match outcome {
            Ok(report) => SwapStateView::Done(report),
            Err(why) => SwapStateView::Failed { swap_id: started, why, committed },
        },
        ..state
    }
}

/// What is logged after a swap ran.
pub open spec fn swap_line(
    started: Seq<char>,
    outcome: Result<SwapOutcomeView, Seq<char>>,
) -> LogLineView {
    match outcome {
        Ok(report) => LogLineView::info(
            "Swap "@ + report.swap_id + " finished: "@ + report.status + ", "@ + text::decimal(
                report.maker_fees_sat as nat,
            ) + " sats in maker fees."@,
        ),
        Err(why) => LogLineView::error("Swap "@ + started + " did not finish: "@ + why),
    }
}

/// What is logged after the wait for the thread that opens the wallet.
pub open spec fn close_lines(finished: bool, deadline_secs: u64) -> Seq<LogLineView> {
    if finished {
        Seq::empty()
    } else {
        seq![
            LogLineView::error(
                "The taker wallet did not close within "@ + text::decimal(deadline_secs as nat)
                    + "s, so it has been left open."@,
            ),
        ]
    }
}

/// Whether funds left the wallet in a swap that failed, given what the taker says about recovery
/// where it could be asked: contracts that are still being recovered hold what left.
pub open spec fn left_the_wallet(recovery_complete: Option<bool>) -> Option<bool> {
    match recovery_complete {
        Some(complete) => Some(!complete),
        None => None,
    }
}

/// Whether funds left the wallet in a swap that failed.
pub fn funds_committed(recovery_complete: Option<bool>) -> (result: Option<bool>)
    ensures
        result == left_the_wallet(recovery_complete),
{
    match recovery_complete {
        Some(complete) => Some(!complete),
        None => None,
    }
}

/// What a quote or a swap ends with when an earlier operation left the taker locked.
pub fn taker_locked() -> (result: String)
    ensures
        result@ == "The taker is locked by a failed operation."@,
{
    "The taker is locked by a failed operation.".to_string()
}

/// What is logged when a quote begins to be prepared.
pub open spec fn preparing_line(params: SwapParams) -> LogLineView {
    LogLineView::info(
        "Preparing a quote for "@ + text::decimal(params.send_sat as nat) + " sats across "@
            + text::decimal(params.maker_count as nat)
            + " maker(s). This synchronises the offerbook over Tor and can take a while."@,
    )
}

impl SwapParams {
    /// What is logged when the quote begins to be prepared.
    pub fn preparing(&self) -> (result: LogLine)
        ensures
            result@ == preparing_line(*self),
    {
        LogLine::info(
            "Preparing a quote for ".to_string().concat(
                decimal_text(self.send_sat).as_str(),
            ).concat(" sats across ").concat(
                decimal_text(self.maker_count as u64).as_str(),
            ).concat(
                " maker(s). This synchronises the offerbook over Tor and can take a while.",
            ),
        )
    }
}

/// What is logged when a swap begins.
pub open spec fn starting_line(swap_id: Seq<char>) -> LogLineView {
    LogLineView::info(
        "Starting swap "@ + swap_id
            + ". Funds are committed on chain from here; leave BTCPay running until it finishes."@,
    )
}

/// What is logged when a swap begins.
pub fn swap_starting(swap_id: &str) -> (result: LogLine)
    ensures
        result@ == starting_line(swap_id@),
{
    LogLine::info(
        "Starting swap ".to_string().concat(swap_id).concat(
            ". Funds are committed on chain from here; leave BTCPay running until it finishes.",
        ),
    )
}

/// What could be read of the taker.
#[derive(Clone, Copy, PartialEq, Eq, Structural, Debug)]
pub enum TakerReading {
    /// Nothing: the taker was locked, as it is by any swap operation.
    Locked,
    /// Only the state of recovery: the wallet was locked.
    WalletLocked { recovery_complete: bool },
    /// Everything, apart from balances that the wallet could not add up.
    Free { recovery_complete: bool, balances: Option<Balances> },
}

/// A point-in-time view of the taker's wallet, cheap enough for every page load.
pub struct Status {
    pub phase: Phase,
    /// Balances, absent when the wallet is shut or its lock was busy.
    pub balances: Option<Balances>,
    /// True when a lock was held elsewhere, so nothing could be read.
    pub wallet_busy: bool,
    /// Whether an interrupted swap has finished being recovered.
    ///
    /// `None` when undetermined. A half-finished swap leaves funds in timelocked contracts.
    pub recovery_complete: Option<bool>,
}

/// What a [`Status`] holds.
#[verifier::ext_equal]
pub struct StatusView {
    pub phase: PhaseView,
    pub balances: Option<Balances>,
    pub wallet_busy: bool,
    pub recovery_complete: Option<bool>,
}

impl View for Status {
    type V = StatusView;

    open spec fn view(&self) -> StatusView {
        StatusView {
            phase: self.phase@,
            balances: self.balances,
            wallet_busy: self.wallet_busy,
            recovery_complete: self.recovery_complete,
        }
    }
}

impl StatusView {
    /// The status of a taker whose wallet is shut.
    pub open spec fn shut(phase: PhaseView) -> StatusView {
        StatusView { phase, balances: None, wallet_busy: false, recovery_complete: None }
    }
}

impl Status {
    fn shut(phase: Phase) -> (result: Self)
        ensures
            result@ == StatusView::shut(phase@),
    {
        Status { phase, balances: None, wallet_busy: false, recovery_complete: None }
    }
}

/// The status of a taker in this state, with this reading of it.
pub open spec fn status_of(state: LifecycleView, reading: Option<TakerReading>) -> StatusView {
    match reading {
        Some(reading) if state.open => match reading {
            TakerReading::Locked => StatusView {
                phase: state.phase,
                balances: None,
                wallet_busy: true,
                recovery_complete: None,
            },
            TakerReading::WalletLocked { recovery_complete } => StatusView {
                phase: state.phase,
                balances: None,
                wallet_busy: true,
                recovery_complete: Some(recovery_complete),
            },
            TakerReading::Free { recovery_complete, balances } => StatusView {
                phase: state.phase,
                balances,
                wallet_busy: false,
                recovery_complete: Some(recovery_complete),
            },
        },
        _ => StatusView::shut(state.phase),
    }
}

/// Nothing the operator can ask for tramples a running swap: its state is the only record that
/// funds are committed.
pub proof fn a_running_swap_is_not_trampled(
    state: TakerView,
    params: SwapParams,
    recovery_complete: Option<bool>,
    now: u64,
)
    requires
        state.swap is Running,
    ensures
        after_quote_request(state, params) == state,
        after_accept(state, recovery_complete, now) == state,
        after_clear_swap(state) == state,
        after_clear_quote(state).swap == state.swap,
{
}

/// An accepted quote is consumed: whatever is read of recovery afterwards, accepting again is
/// refused and changes nothing.
pub proof fn a_quote_is_accepted_at_most_once(
    state: TakerView,
    recovery_complete: Option<bool>,
    now: u64,
    later_complete: Option<bool>,
    later: u64,
)
    requires
        accept_refusal(state, recovery_complete) is None,
    ensures
        accept_refusal(after_accept(state, recovery_complete, now), later_complete) is Some,
        after_accept(after_accept(state, recovery_complete, now), later_complete, later)
            == after_accept(state, recovery_complete, now),
{
}

/// A swap only ever starts by accepting a quote that was ready.
pub proof fn only_an_accepted_quote_starts_a_swap(
    state: TakerView,
    params: SwapParams,
    recovery_complete: Option<bool>,
    now: u64,
)
    requires
        !(state.swap is Running),
    ensures
        !(after_quote_request(state, params).swap is Running),
        !(after_clear_swap(state).swap is Running),
        !(after_clear_quote(state).swap is Running),
        after_accept(state, recovery_complete, now).swap is Running ==> state.quote is Ready
            && after_accept(state, recovery_complete, now).swap == (SwapStateView::Running {
            swap_id: state.quote->Ready_0.swap_id,
            since: now,
        }),
{
}

/// While a quote is being prepared no second one is, so that it cannot queue up unseen.
pub proof fn a_second_quote_is_refused(state: TakerView, params: SwapParams, again: SwapParams)
    requires
        quote_refusal(state, params) is None,
    ensures
        quote_refusal(after_quote_request(state, params), again) is Some,
{
}

/// The recovery phrase is never logged: what opening the wallet logs is the same whatever the
/// phrase of a new wallet is, and whatever phrase is still held for display.
pub proof fn the_phrase_is_never_logged(
    state: LifecycleView,
    held: Option<Seq<char>>,
    one: Seq<char>,
    other: Seq<char>,
)
    ensures
        open_lines(state, Ok(WalletReadView::Created(one))) == open_lines(
            LifecycleView { new_mnemonic: held, ..state },
            Ok(WalletReadView::Created(other)),
        ),
{
}

/// Opening the wallet leaves the request to stop as it is, so it keeps it true that a taker never
/// started is shut.
pub proof fn opening_keeps_an_unstarted_taker_shut(
    state: LifecycleView,
    outcome: Result<WalletReadView, Seq<char>>,
)
    requires
        state.stop_requested is Some,
    ensures
        after_open(state, outcome).stop_requested == state.stop_requested,
        after_open(state, outcome).shut_until_started(),
{
}

/// A state of recovery that could not be read blocks a swap no more than one known to be over.
pub proof fn an_unknown_recovery_does_not_block(state: TakerView)
    ensures
        accept_refusal(state, None) == accept_refusal(state, Some(true)),
{
}

/// A quote is granted exactly if there is an amount and a maker, the wallet is open, no quote is
/// being prepared and no swap is running, so also after one that is over. It is then being prepared.
pub proof fn a_quote_is_granted_when_nothing_stands_in_its_way(
    state: TakerView,
    params: SwapParams,
)
    ensures
        quote_refusal(state, params) is None <==> {
            &&& params.send_sat > 0
            &&& params.maker_count > 0
            &&& state.lifecycle.open
            &&& !(state.quote is Preparing)
            &&& state.swap is Idle || state.swap is Done || state.swap is Failed
        },
        quote_refusal(state, params) is None ==> {
            &&& after_quote_request(state, params).quote is Preparing
            &&& after_quote_request(state, params).swap == state.swap
            &&& after_quote_request(state, params).lifecycle == state.lifecycle
        },
        quote_refusal(state, params) is Some ==> after_quote_request(state, params) == state,
{
}

/// A quote that was refused for the amount or the makers is refused the same whatever the taker is
/// doing, and one that was refused for a quote or a swap the same whatever the wallet is.
pub proof fn a_refused_quote_names_the_closest_reason(
    one: TakerView,
    other: TakerView,
    params: SwapParams,
    more: SwapParams,
)
    ensures
        params.send_sat == 0 || params.maker_count == 0 ==> quote_refusal(one, params)
            == quote_refusal(other, params),
        params.send_sat == 0 && more.send_sat == 0 ==> quote_refusal(one, params) == quote_refusal(
            one,
            more,
        ),
        params.send_sat > 0 && params.maker_count > 0 && more.send_sat > 0 && more.maker_count > 0
            ==> quote_refusal(one, params) == quote_refusal(one, more),
        one.quote is Preparing && other.quote is Preparing ==> quote_refusal(one, params)
            == quote_refusal(other, params),
        !(one.quote is Preparing) && !(other.quote is Preparing) && one.swap is Running
            && other.swap is Running ==> quote_refusal(one, params) == quote_refusal(other, params),
{
}

/// A quote can be accepted exactly if the wallet is open, the quote is ready, no swap is running
/// and no earlier one is known to be still recovering.
pub proof fn a_ready_quote_can_be_accepted(
    state: TakerView,
    recovery_complete: Option<bool>,
    now: u64,
)
    ensures
        accept_refusal(state, recovery_complete) is None <==> {
            &&& state.lifecycle.open
            &&& state.quote is Ready
            &&& !(state.swap is Running)
            &&& recovery_complete != Some(false)
        },
        accept_refusal(state, recovery_complete) is None ==> {
            let after = after_accept(state, recovery_complete, now);
            &&& after.quote is Idle
            &&& after.swap is Running
            &&& after.swap->Running_swap_id == state.quote->Ready_0.swap_id
            &&& after.swap->since == now
            &&& after.lifecycle == state.lifecycle
        },
        accept_refusal(state, recovery_complete) is Some ==> after_accept(
            state,
            recovery_complete,
            now,
        ) == state,
{
}

/// Recovery is pending exactly if the taker is there to be asked and says that it is not complete.
pub proof fn recovery_is_what_the_taker_says(state: TakerView, recovery_complete: Option<bool>)
    ensures
        pending(state, recovery_complete) is Some <==> state.lifecycle.open
            && recovery_complete is Some,
        pending(state, recovery_complete) matches Some(still) ==> still
            != recovery_complete->Some_0,
        left_the_wallet(recovery_complete) is Some <==> recovery_complete is Some,
        left_the_wallet(recovery_complete) matches Some(left) ==> left
            != recovery_complete->Some_0,
{
}

/// Clearing a swap that is over, and clearing a quote, leave none and touch nothing else.
pub proof fn clearing_leaves_nothing_behind(state: TakerView)
    ensures
        !(state.swap is Running) ==> after_clear_swap(state).swap is Idle,
        after_clear_swap(state).quote == state.quote,
        after_clear_swap(state).lifecycle == state.lifecycle,
        after_clear_quote(state).quote is Idle,
        after_clear_quote(state).swap == state.swap,
        after_clear_quote(state).lifecycle == state.lifecycle,
{
}

/// A withdrawal goes ahead exactly if there is a destination, an amount and an open wallet, and it
/// goes to the destination that was entered, without white space around: unchanged where there was
/// none.
pub proof fn a_withdrawal_goes_where_it_was_sent(
    state: TakerView,
    address: Seq<char>,
    sats: u64,
)
    ensures
        withdrawal(state, address, sats) is Ok <==> {
            &&& text::trimmed(address).len() > 0
            &&& sats > 0
            &&& state.lifecycle.open
        },
        withdrawal(state, address, sats) matches Ok(to) ==> to == text::trimmed(address),
        text::trimmed(address) == address && address.len() > 0 && sats > 0 && state.lifecycle.open
            ==> withdrawal(state, address, sats) == Ok::<Seq<char>, Seq<char>>(address),
        address.len() > 0 && !text::is_white_space(address[0]) && !text::is_white_space(
            address.last(),
        ) && sats > 0 && state.lifecycle.open ==> withdrawal(state, address, sats) == Ok::<
            Seq<char>,
            Seq<char>,
        >(address),
{
    if address.len() > 0 && !text::is_white_space(address[0]) && !text::is_white_space(
        address.last(),
    ) {
        text::a_tidy_text_is_not_trimmed(address);
    }
}

/// White space around a destination changes nothing about a withdrawal.
pub proof fn white_space_around_a_destination_does_not_matter(
    state: TakerView,
    before: Seq<char>,
    address: Seq<char>,
    after: Seq<char>,
    sats: u64,
)
    requires
        forall|i: int| 0 <= i < before.len() ==> text::is_white_space(#[trigger] before[i]),
        forall|i: int| 0 <= i < after.len() ==> text::is_white_space(#[trigger] after[i]),
    ensures
        withdrawal(state, before + address + after, sats) == withdrawal(state, address, sats),
{
    text::white_space_around_does_not_matter(before, address, after);
}

/// A withdrawal without a destination is refused for that, one without an amount for that, and
/// only then is the wallet looked at.
pub proof fn a_refused_withdrawal_names_the_closest_reason(
    one: TakerView,
    other: TakerView,
    address: Seq<char>,
    sats: u64,
    more: u64,
)
    ensures
        text::trimmed(address).len() == 0 ==> withdrawal(one, address, sats) == withdrawal(
            other,
            address,
            more,
        ),
        sats == 0 ==> withdrawal(one, address, sats) == withdrawal(other, address, sats),
        wallet_guard(one) is Ok <==> one.lifecycle.open,
{
}

/// What the wallet answered is handed on as it is, a refusal is told with its reason, and a wallet
/// that is busy with what it could not do. Only an answer is a success.
pub proof fn the_wallets_answer_is_handed_on(
    reply: WalletReplyView,
    what: Seq<char>,
    refused: Seq<char>,
)
    ensures
        reply_text(reply, what, refused) is Ok <==> reply is Answer,
        reply matches WalletReplyView::Answer(answer) ==> reply_text(reply, what, refused) == Ok::<
            Seq<char>,
            Seq<char>,
        >(answer),
        reply matches WalletReplyView::Refused(why) ==> text::mentions(
            reply_text(reply, what, refused)->Err_0,
            why,
        ) && text::mentions(reply_text(reply, what, refused)->Err_0, refused),
        reply is TakerBusy || reply is WalletBusy ==> text::mentions(
            reply_text(reply, what, refused)->Err_0,
            what,
        ),
{
    broadcast use {text::lemma_mentions_end, text::lemma_mentions_front};

    if let WalletReplyView::Refused(why) = reply {
        text::lemma_mentions_itself(refused);
    }
}

/// A wallet that could not be opened fails the taker for that reason. One that was opened is open
/// and the taker running, unless it was asked to close meanwhile, and a new one's phrase is held.
pub proof fn how_opening_goes(state: LifecycleView, outcome: Result<WalletReadView, Seq<char>>)
    ensures
        ({
            let after = after_open(state, outcome);
            let lines = open_lines(state, outcome);
            &&& outcome matches Err(reason) ==> {
                &&& after.phase == PhaseView::Failed(reason)
                &&& after.open == state.open && after.new_mnemonic == state.new_mnemonic
                &&& lines.len() == 1 && lines[0].is_error
                &&& text::mentions(lines[0].text, reason)
            }
            &&& outcome is Ok && state.stop_requested == Some(true) ==> after.phase is Stopped
                && after.open == state.open
            &&& outcome is Ok && state.stop_requested != Some(true) ==> after.phase is Running
                && after.open
            &&& outcome matches Ok(wallet) ==> {
                &&& wallet matches WalletReadView::Created(words) ==> after.new_mnemonic == Some(
                    words,
                )
                &&& !(wallet is Created) ==> after.new_mnemonic == state.new_mnemonic
                &&& lines.len() == if wallet is Existing {
                    1int
                } else {
                    2
                }
                &&& !lines.last().is_error
                &&& wallet is Unreadable ==> lines[0].is_error
                &&& wallet is Created ==> !lines[0].is_error
            }
        }),
{
    broadcast use {text::lemma_mentions_end, text::lemma_mentions_front};

}

/// The status of an open taker is what was read of it, apart from the phase, which is its own: the
/// balances where the wallet was free, recovery where the taker was, and busy where either was not.
pub proof fn the_status_is_what_was_read(state: LifecycleView, reading: TakerReading)
    ensures
        ({
            let status = status_of(state, Some(reading));
            &&& status.phase == state.phase
            &&& state.open ==> {
                &&& status.wallet_busy <==> !(reading is Free)
                &&& status.recovery_complete is None <==> reading is Locked
                &&& reading is Free ==> status.balances == reading->balances
                    && status.recovery_complete == Some(reading->Free_recovery_complete)
                &&& reading is WalletLocked ==> status.recovery_complete == Some(
                    reading->WalletLocked_recovery_complete,
                )
                &&& !(reading is Free) ==> status.balances is None
            }
            &&& !state.open ==> status.balances is None && !status.wallet_busy
                && status.recovery_complete is None
        }),
        status_of(state, None).phase == state.phase,
        status_of(state, None).balances is None && !status_of(state, None).wallet_busy,
{
}

/// A quote that was prepared is the one that is ready, as it is, and one that could not be is a
/// failure with its reason. A swap in progress and the wallet are left alone. What is logged has the
/// identifier and the fees, or the reason.
pub proof fn how_preparing_a_quote_ends(
    state: TakerView,
    outcome: Result<QuoteView, Seq<char>>,
    params: SwapParams,
)
    ensures
        ({
            let after = after_quote(state, outcome);
            let line = quote_line(outcome);
            &&& outcome matches Ok(quote) ==> {
                &&& after.quote is Ready && after.quote->Ready_0 == quote
                &&& !line.is_error
                &&& text::mentions(line.text, quote.swap_id)
                &&& text::mentions(line.text, text::decimal(quote.total_fee_sat as nat))
            }
            &&& outcome matches Err(why) ==> {
                &&& after.quote is Failed && after.quote->Failed_0 == why
                &&& line.is_error
                &&& text::mentions(line.text, why)
            }
            &&& after.swap == state.swap
            &&& after.lifecycle == state.lifecycle
        }),
        !preparing_line(params).is_error,
        text::mentions(preparing_line(params).text, text::decimal(params.send_sat as nat)),
        text::mentions(preparing_line(params).text, text::decimal(params.maker_count as nat)),
{
    broadcast use {text::lemma_mentions_end, text::lemma_mentions_front};

}

/// A swap that finished is done with the report there was, and one that did not is a failure under
/// the identifier it was started with, with its reason and what is known of the funds. A quote and
/// the wallet are left alone. What is logged has the identifier, and the status and the fees or the
/// reason.
pub proof fn how_a_swap_ends(
    state: TakerView,
    started: Seq<char>,
    outcome: Result<SwapOutcomeView, Seq<char>>,
    committed: Option<bool>,
)
    ensures
        ({
            let after = after_swap(state, started, outcome, committed);
            let line = swap_line(started, outcome);
            &&& outcome matches Ok(report) ==> {
                &&& after.swap is Done && after.swap->Done_0 == report
                &&& !line.is_error
                &&& text::mentions(line.text, report.swap_id)
                &&& text::mentions(line.text, report.status)
                &&& text::mentions(line.text, text::decimal(report.maker_fees_sat as nat))
            }
            &&& outcome matches Err(why) ==> {
                &&& after.swap is Failed
                &&& after.swap->Failed_swap_id == started
                &&& after.swap->why == why
                &&& after.swap->committed == committed
                &&& line.is_error
                &&& text::mentions(line.text, started)
                &&& text::mentions(line.text, why)
            }
            &&& after.quote == state.quote
            &&& after.lifecycle == state.lifecycle
        }),
        !starting_line(started).is_error,
        text::mentions(starting_line(started).text, started),
{
    broadcast use {text::lemma_mentions_end, text::lemma_mentions_front};

}

/// An error that names the deadline is logged exactly if the wallet did not close in time.
pub proof fn a_wallet_left_open_is_logged(finished: bool, deadline_secs: u64)
    ensures
        close_lines(finished, deadline_secs).len() == if finished {
            0int
        } else {
            1
        },
        !finished ==> {
            let line = close_lines(finished, deadline_secs)[0];
            &&& line.is_error
            &&& text::mentions(line.text, text::decimal(deadline_secs as nat))
        },
{
    broadcast use {text::lemma_mentions_end, text::lemma_mentions_front};

}

/// The reason for a refusal is the one that applies: what was entered comes before what the taker
/// is doing, and the wallet being shut comes last for a quote and first for a swap.
pub proof fn the_reason_that_applies_is_given(
    state: TakerView,
    params: SwapParams,
    recovery_complete: Option<bool>,
    address: Seq<char>,
    sats: u64,
)
    ensures
        ({
            let why = quote_refusal(state, params);
            &&& params.send_sat == 0 ==> why == Some("A swap needs an amount above zero."@)
            &&& params.send_sat > 0 && params.maker_count == 0 ==> why == Some(
                "A swap needs at least one maker."@,
            )
            &&& params.send_sat > 0 && params.maker_count > 0 ==> {
                &&& state.quote is Preparing ==> why == Some("A quote is already being prepared."@)
                &&& !(state.quote is Preparing) && state.swap is Running ==> why == Some(
                    "A swap is running. Wait for it to finish before quoting another."@,
                )
                &&& !(state.quote is Preparing) && !(state.swap is Running)
                    && !state.lifecycle.open ==> why == Some("The taker wallet is not open."@)
            }
        }),
        ({
            let why = accept_refusal(state, recovery_complete);
            &&& !state.lifecycle.open ==> why == Some("The taker wallet is not open."@)
            &&& state.lifecycle.open && recovery_complete == Some(false) ==> why == Some(
                "An earlier swap is still being recovered. Wait for its contracts to resolve before starting another."@,
            )
            &&& state.lifecycle.open && recovery_complete != Some(false) && state.swap is Running
                ==> why == Some("A swap is already running."@)
            &&& state.lifecycle.open && recovery_complete != Some(false) && !(state.swap is Running)
                && !(state.quote is Ready) ==> why == Some(
                "There is no quote to accept. Request one first."@,
            )
        }),
        ({
            let outcome = withdrawal(state, address, sats);
            &&& text::trimmed(address).len() == 0 ==> outcome == Err::<Seq<char>, Seq<char>>(
                "A withdrawal needs a destination address."@,
            )
            &&& text::trimmed(address).len() > 0 && sats == 0 ==> outcome == Err::<
                Seq<char>,
                Seq<char>,
            >("A withdrawal needs an amount above zero."@)
            &&& text::trimmed(address).len() > 0 && sats > 0 && !state.lifecycle.open ==> outcome
                == Err::<Seq<char>, Seq<char>>(
                "The taker wallet is not open. Turn the taker on from the settings page."@,
            )
        }),
{
}

/// What is logged about quotes and swaps, with what it is said of in its place: the amount before
/// the count of makers, the identifier before the fees, the status before the fees.
pub proof fn what_is_logged_about_swaps(
    params: SwapParams,
    quote: QuoteView,
    report: SwapOutcomeView,
    id: Seq<char>,
    why: Seq<char>,
)
    ensures
        ("Preparing a quote for "@ + text::decimal(params.send_sat as nat) + " sats across "@
            + text::decimal(params.maker_count as nat)).is_prefix_of(preparing_line(params).text),
        ("Quote ready: swap "@ + quote.swap_id + " costs "@ + text::decimal(
            quote.total_fee_sat as nat,
        )).is_prefix_of(quote_line(Ok(quote)).text),
        quote_line(Err(why)).text == "Could not prepare a quote: "@ + why,
        ("Starting swap "@ + id).is_prefix_of(starting_line(id).text),
        ("Swap "@ + report.swap_id + " finished: "@ + report.status + ", "@ + text::decimal(
            report.maker_fees_sat as nat,
        )).is_prefix_of(swap_line(id, Ok(report)).text),
        swap_line(id, Err(why)).text == "Swap "@ + id + " did not finish: "@ + why,
{
    broadcast use {text::lemma_begins_itself, text::lemma_begins_more};

}

/// What is logged about opening the wallet ends with how it went: closed before it was open exactly
/// if it was asked to stop, and open otherwise. Nothing is said of a wallet that was there before.
pub proof fn what_is_logged_about_opening(
    state: LifecycleView,
    wallet: WalletReadView,
    why: Seq<char>,
)
    ensures
        ({
            let last = open_lines(state, Ok(wallet)).last();
            &&& state.stop_requested == Some(true) ==> last.text
                == "Taker wallet closed before it finished opening."@
            &&& state.stop_requested != Some(true) ==> last.text == "Taker wallet is open."@
        }),
        open_lines(state, Err(why))[0].text == "Taker wallet failed to open: "@ + why,
        after_open(state, Ok(wallet)).stop_requested == state.stop_requested,
        after_open(state, Err(why)).stop_requested == state.stop_requested,
{
}

/// Quotes and swaps are taken as they are, field by field and hop by hop.
pub proof fn quotes_and_swaps_are_taken_as_they_are(
    quote: Quote,
    at: int,
    outcome: SwapOutcome,
    quote_state: QuoteState,
    swap_state: SwapState,
    reply: WalletReply,
    why: String,
)
    ensures
        quote@.swap_id == quote.swap_id@,
        quote@.send_sat == quote.send_sat,
        quote@.total_fee_sat == quote.total_fee_sat,
        quote@.receive_sat == quote.receive_sat,
        quote@.hops.len() == quote.hops@.len(),
        0 <= at < quote.hops@.len() ==> {
            &&& quote@.hops[at].address == quote.hops@[at].address@
            &&& quote@.hops[at].locktime == quote.hops@[at].locktime
            &&& quote@.hops[at].fee_sat == quote.hops@[at].fee_sat
        },
        outcome@.swap_id == outcome.swap_id@,
        outcome@.status == outcome.status@,
        outcome@.sent_sat == outcome.sent_sat,
        outcome@.received_sat == outcome.received_sat,
        outcome@.maker_fees_sat == outcome.maker_fees_sat,
        outcome@.mining_fee_sat == outcome.mining_fee_sat,
        outcome@.duration_secs == outcome.duration_secs@,
        quote_state@ is Idle <==> quote_state is Idle,
        quote_state@ is Preparing <==> quote_state is Preparing,
        quote_state matches QuoteState::Ready(ready) ==> quote_state@ == QuoteStateView::Ready(
            ready@,
        ),
        quote_state matches QuoteState::Failed(reason) ==> quote_state@ == QuoteStateView::Failed(
            reason@,
        ),
        swap_state@ is Idle <==> swap_state is Idle,
        swap_state matches SwapState::Running { swap_id, since } ==> swap_state@ == (
        SwapStateView::Running { swap_id: swap_id@, since }),
        swap_state matches SwapState::Done(done) ==> swap_state@ == SwapStateView::Done(done@),
        swap_state matches SwapState::Failed { swap_id, why, committed } ==> swap_state@ == (
        SwapStateView::Failed { swap_id: swap_id@, why: why@, committed }),
        reply@ is TakerBusy <==> reply is TakerBusy,
        reply@ is WalletBusy <==> reply is WalletBusy,
        reply matches WalletReply::Refused(reason) ==> reply@ == WalletReplyView::Refused(reason@),
        reply matches WalletReply::Answer(answer) ==> reply@ == WalletReplyView::Answer(answer@),
        Quote::prepared(Ok(quote)) == Ok::<QuoteView, Seq<char>>(quote@),
        Quote::prepared(Err(why)) == Err::<QuoteView, Seq<char>>(why@),
        SwapOutcome::reported(Ok(outcome)) == Ok::<SwapOutcomeView, Seq<char>>(outcome@),
        SwapOutcome::reported(Err(why)) == Err::<SwapOutcomeView, Seq<char>>(why@),
{
}

} // verus!
