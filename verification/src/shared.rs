//! Pieces the maker and the taker both need.

use vstd::prelude::*;

verus! {

/// What a role is doing, as far as the dashboard is concerned.
#[derive(PartialEq, Eq, Debug)]
pub enum Phase {
    /// Not running, and not asked to.
    Stopped,
    /// Connecting to the backend and opening the wallet.
    Starting,
    /// Started, and doing its job.
    Running,
    /// The string is for the operator, not for a machine.
    Failed(String),
}

/// What a [`Phase`] says.
#[verifier::ext_equal]
pub enum PhaseView {
    Stopped,
    Starting,
    Running,
    Failed(Seq<char>),
}

impl View for Phase {
    type V = PhaseView;

    open spec fn view(&self) -> PhaseView {
        match *self {
            Phase::Stopped => PhaseView::Stopped,
            Phase::Starting => PhaseView::Starting,
            Phase::Running => PhaseView::Running,
            Phase::Failed(reason) => PhaseView::Failed(reason@),
        }
    }
}

impl PhaseView {
    /// Starting or running: the role holds its port and its wallet.
    pub open spec fn live(self) -> bool {
        self is Starting || self is Running
    }
}

impl Clone for Phase {
    fn clone(&self) -> (result: Self)
        ensures
            result == *self,
    {
        match self {
            Phase::Stopped => Phase::Stopped,
            Phase::Starting => Phase::Starting,
            Phase::Running => Phase::Running,
            Phase::Failed(reason) => Phase::Failed(reason.clone()),
        }
    }
}

impl Phase {
    /// True when the role is starting or running.
    pub fn is_live(&self) -> (result: bool)
        ensures
            result == self@.live(),
    {
        match self {
            Phase::Starting => true,
            Phase::Running => true,
            _ => false,
        }
    }
}

/// What a wallet holds, in satoshis.
#[derive(Clone, Copy, PartialEq, Eq, Structural, Debug)]
pub struct Balances {
    /// Free to spend.
    pub spendable: u64,
    /// Received in swaps.
    pub swap: u64,
    /// Locked in fidelity bonds.
    pub fidelity: u64,
    /// Locked in swap contracts.
    pub contract: u64,
}

/// How many times to check that Tor is usable before giving up on it.
///
/// Small on purpose: this covers a Tor seconds from ready, not a misconfiguration.
pub const START_ATTEMPTS: u32 = 4;

/// Seconds, multiplied by the attempt number, so waits go 5s, 10s, 15s.
pub const RETRY_BACKOFF: u64 = 5;

/// The longest a wait sleeps without looking at the stop flag: 200 milliseconds, in nanoseconds.
pub const TICK: u128 = 200_000_000;

/// What a wait does next.
#[derive(Clone, Copy, PartialEq, Eq, Structural, Debug)]
pub enum Nap {
    /// Sleep this many nanoseconds and ask again.
    Sleep(u128),
    /// The wait is over, and whether that is because a stop was requested.
    Over(bool),
}

/// The next step of a wait of `total` nanoseconds of which `slept` have passed.
pub open spec fn nap(slept: u128, total: u128, stop_requested: bool) -> Nap {
    if stop_requested {
        Nap::Over(true)
    } else if slept >= total {
        Nap::Over(false)
    } else if total - slept > TICK {
        Nap::Sleep(TICK)
    } else {
        Nap::Sleep((total - slept) as u128)
    }
}

/// The next step of a wait of `total` nanoseconds of which `slept` have passed. The wait ends
/// early if a stop was requested.
///
/// Polled rather than parked on a condvar: the flag is shared with whoever stops the role, who
/// has no waker.
pub fn sleep_unless_stopped(slept: u128, total: u128, stop_requested: bool) -> (result: Nap)
    ensures
        result == nap(slept, total, stop_requested),
{
    if stop_requested {
        Nap::Over(true)
    } else if slept >= total {
        Nap::Over(false)
    } else if total - slept > TICK {
        Nap::Sleep(TICK)
    } else {
        Nap::Sleep(total - slept)
    }
}

/// How long a wait of `total` has lasted after `naps` steps that found no stop request.
pub open spec fn slept_after(total: u128, naps: nat) -> u128
    decreases naps,
{
    if naps == 0 {
        0
    } else {
        let before = slept_after(total, (naps - 1) as nat);
        match nap(before, total, false) {
            Nap::Sleep(step) => (before + step) as u128,
            Nap::Over(_) => before,
        }
    }
}

/// A wait nobody interrupts lasts exactly as long as it was meant to, and no nap oversleeps it.
pub proof fn a_wait_lasts_as_long_as_asked(total: u128, naps: nat)
    ensures
        slept_after(total, naps) <= total,
        naps * TICK >= total ==> slept_after(total, naps) == total,
        naps * TICK < total ==> slept_after(total, naps) == naps * TICK,
        nap(slept_after(total, naps), total, false) is Over <==> naps * TICK >= total,
    decreases naps,
{
    if naps > 0 {
        let fewer = (naps - 1) as nat;
        a_wait_lasts_as_long_as_asked(total, fewer);
        assert(naps * TICK == fewer * TICK + TICK) by (nonlinear_arith)
            requires
                naps == fewer + 1,
        ;
    }
}

/// A stop ends a wait at its next step, and a wait ends that way only by a stop.
pub proof fn a_stop_ends_a_wait(slept: u128, total: u128, stop_requested: bool)
    ensures
        nap(slept, total, stop_requested) == Nap::Over(true) <==> stop_requested,
{
}

/// One line for the log, and whether it reports an error.
#[derive(PartialEq, Eq, Debug)]
pub struct LogLine {
    pub is_error: bool,
    pub text: String,
}

/// What a [`LogLine`] says.
#[verifier::ext_equal]
pub struct LogLineView {
    pub is_error: bool,
    pub text: Seq<char>,
}

impl View for LogLine {
    type V = LogLineView;

    open spec fn view(&self) -> LogLineView {
        LogLineView { is_error: self.is_error, text: self.text@ }
    }
}

impl LogLineView {
    /// A line that informs.
    pub open spec fn info(text: Seq<char>) -> LogLineView {
        LogLineView { is_error: false, text }
    }

    /// A line that reports an error.
    pub open spec fn error(text: Seq<char>) -> LogLineView {
        LogLineView { is_error: true, text }
    }

    /// What the lines of a log say.
    pub open spec fn of(lines: Seq<LogLine>) -> Seq<LogLineView> {
        lines.map_values(|line: LogLine| line@)
    }
}

/// A log of one line.
pub fn one_line(line: LogLine) -> (result: Vec<LogLine>)
    ensures
        LogLineView::of(result@) == seq![line@],
{
    let mut log: Vec<LogLine> = Vec::new();
    log.push(line);
    assert(LogLineView::of(log@) =~= seq![line@]);
    log
}

impl LogLine {
    /// A line that informs.
    pub fn info(text: String) -> (result: Self)
        ensures
            result@ == LogLineView::info(text@),
    {
        LogLine { is_error: false, text }
    }

    /// A line that reports an error.
    pub fn error(text: String) -> (result: Self)
        ensures
            result@ == LogLineView::error(text@),
    {
        LogLine { is_error: true, text }
    }
}

/// Logging a role can do without knowing about the host.
///
/// The role's thread outlives the call that spawned it, so it cannot borrow the host.
pub struct Logger<F: Fn(bool, &str)> {
    sink: Option<F>,
}

impl<F: Fn(bool, &str) + Clone> Clone for Logger<F> {
    /// A logger for another thread, with a clone of the same sink.
    fn clone(&self) -> (result: Self)
        ensures
            match (self.sink(), result.sink()) {
                (Some(mine), Some(other)) => cloned(mine, other),
                (None, None) => true,
                _ => false,
            },
    {
        Logger {
            sink: match &self.sink {
                Some(sink) => Some(sink.clone()),
                None => None,
            },
        }
    }
}

impl<F: Fn(bool, &str)> Logger<F> {
    /// The callable the logger wraps, taking (is_error, message), or nothing.
    pub closed spec fn sink(self) -> Option<F> {
        self.sink
    }

    /// Whether the logger may be handed this message.
    pub open spec fn accepts(self, is_error: bool, message: &str) -> bool {
        self.sink() matches Some(sink) ==> call_requires(sink, (is_error, message))
    }

    /// Whether the message went where the logger sends messages.
    pub open spec fn delivered(self, is_error: bool, message: &str) -> bool {
        self.sink() matches Some(sink) ==> call_ensures(sink, (is_error, message), ())
    }

    /// Wraps a sink taking (is_error, message).
    pub fn new(sink: F) -> (result: Self)
        ensures
            result.sink() == Some(sink),
    {
        Logger { sink: Some(sink) }
    }

    /// Discards everything.
    pub fn silent() -> (result: Self)
        ensures
            result.sink() is None,
    {
        Logger { sink: None }
    }

    /// Logs a message that informs.
    pub fn info(&self, message: &str)
        requires
            self.accepts(false, message),
        ensures
            self.delivered(false, message),
    {
        self.put(false, message)
    }

    /// Logs a message that reports an error.
    pub fn error(&self, message: &str)
        requires
            self.accepts(true, message),
        ensures
            self.delivered(true, message),
    {
        self.put(true, message)
    }

    fn put(&self, is_error: bool, message: &str)
        requires
            self.accepts(is_error, message),
        ensures
            self.delivered(is_error, message),
    {
        match &self.sink {
            Some(sink) => sink(is_error, message),
            None => {},
        }
    }
}

/// A role holds its port and its wallet while it starts and while it runs, and neither before nor
/// after.
pub proof fn live_is_starting_or_running(phase: PhaseView, reason: Seq<char>)
    ensures
        PhaseView::Starting.live() && PhaseView::Running.live(),
        !PhaseView::Stopped.live() && !PhaseView::Failed(reason).live(),
        phase.live() <==> !(phase is Stopped) && !(phase is Failed),
{
}

/// The stop flag is looked at five times a second, and no nap goes past the end of the wait.
pub proof fn naps_are_short(slept: u128, total: u128)
    requires
        slept < total,
    ensures
        nap(slept, total, false) matches Nap::Sleep(step) ==> 0 < step <= 200_000_000 && slept
            + step <= total && (step == 200_000_000 || slept + step == total),
        nap(slept, total, false) is Sleep,
{
}

/// Whether a line reports an error is told from how it was made, and its text is what it was given.
pub proof fn lines_say_what_they_were_given(text: Seq<char>)
    ensures
        LogLineView::info(text).text == text && !LogLineView::info(text).is_error,
        LogLineView::error(text).text == text && LogLineView::error(text).is_error,
{
}

/// A phase is taken for what it is, with its reason, and lines for what they say, one by one.
pub proof fn phases_and_lines_are_taken_as_they_are(phase: Phase, lines: Seq<LogLine>, at: int)
    ensures
        phase@ is Stopped <==> phase is Stopped,
        phase@ is Starting <==> phase is Starting,
        phase@ is Running <==> phase is Running,
        phase matches Phase::Failed(reason) ==> phase@ == PhaseView::Failed(reason@),
        LogLineView::of(lines).len() == lines.len(),
        0 <= at < lines.len() ==> LogLineView::of(lines)[at].text == lines[at].text@
            && LogLineView::of(lines)[at].is_error == lines[at].is_error,
{
}

} // verus!
