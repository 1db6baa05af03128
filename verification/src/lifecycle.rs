//! The part of a role that starts, stops and hands out a recovery phrase.

use vstd::prelude::*;

use crate::shared::{Phase, PhaseView};
use crate::text;

verus! {

/// What the role's thread and the plugin both touch.
///
/// One value rather than one per field, so a phase cannot disagree with the handle beside it.
pub struct Lifecycle {
    phase: Phase,
    /// Whether the wallet is open, which is not so until opening it has finished.
    open: bool,
    /// A newly created wallet's recovery phrase, held for one display and then dropped.
    ///
    /// Memory only: never logged, persisted, or written to the settings store. A restart before
    /// the operator reads it loses it, which is the right direction to fail in.
    new_mnemonic: Option<String>,
    /// Whether the thread was asked to stop. `None` until a thread was started.
    stop_requested: Option<bool>,
}

/// What a [`Lifecycle`] holds.
#[verifier::ext_equal]
pub struct LifecycleView {
    pub phase: PhaseView,
    pub open: bool,
    pub new_mnemonic: Option<Seq<char>>,
    pub stop_requested: Option<bool>,
}

impl LifecycleView {
    /// Nothing started, nothing open and nothing to show.
    pub open spec fn fresh() -> LifecycleView {
        LifecycleView {
            phase: PhaseView::Stopped,
            open: false,
            new_mnemonic: None,
            stop_requested: None,
        }
    }

    /// The state in which a new thread begins.
    pub open spec fn starting(self) -> LifecycleView {
        LifecycleView {
            phase: PhaseView::Starting,
            open: false,
            stop_requested: Some(false),
            ..self
        }
    }

    /// The state after a start was asked for: a live role is left as it is.
    pub open spec fn begun(self) -> LifecycleView {
        if self.phase.live() {
            self
        } else {
            self.starting()
        }
    }

    /// Whether a start that is asked for is granted, or what the operator is told instead.
    pub open spec fn start_granted(self, live: Seq<char>) -> Result<(), Seq<char>> {
        if self.phase.live() {
            Err(live)
        } else {
            Ok(())
        }
    }

    /// The state after the wait for the thread, which finished within the deadline or did not.
    pub open spec fn waited(self, finished: bool) -> LifecycleView {
        if finished {
            self.finished()
        } else {
            self
        }
    }

    /// The state after the thread has finished on request. A failure stays, so the page can
    /// still explain why the role went away.
    pub open spec fn finished(self) -> LifecycleView {
        LifecycleView {
            phase: if self.phase is Failed {
                self.phase
            } else {
                PhaseView::Stopped
            },
            open: false,
            ..self
        }
    }

    /// The state after a thread that was started is asked to stop.
    pub open spec fn asked_to_stop(self) -> LifecycleView {
        if self.stop_requested is Some {
            LifecycleView { stop_requested: Some(true), ..self }
        } else {
            self
        }
    }

    /// The state after no thread could be started.
    pub open spec fn abandoned(self) -> LifecycleView {
        LifecycleView {
            phase: PhaseView::Stopped,
            open: false,
            stop_requested: None,
            ..self
        }
    }

    /// Whether a role for which no thread was ever started is shut: neither open nor live.
    pub open spec fn shut_until_started(self) -> bool {
        self.stop_requested is None ==> !self.open && !self.phase.live()
    }

    /// The state after the recovery phrase was handed out.
    pub open spec fn phrase_taken(self) -> LifecycleView {
        LifecycleView { new_mnemonic: None, ..self }
    }

    /// Whether the thread was asked to stop.
    pub open spec fn stopping(self) -> bool {
        self.stop_requested == Some(true)
    }
}

impl View for Lifecycle {
    type V = LifecycleView;

    closed spec fn view(&self) -> LifecycleView {
        LifecycleView {
            phase: self.phase@,
            open: self.open,
            new_mnemonic: text::optional(self.new_mnemonic),
            stop_requested: self.stop_requested,
        }
    }
}

impl Lifecycle {
    /// A role for which no thread was ever started is shut.
    #[verifier::type_invariant]
    closed spec fn valid(self) -> bool {
        self@.shut_until_started()
    }

    /// A role that is not running.
    pub fn new() -> (result: Self)
        ensures
            result@ == LifecycleView::fresh(),
    {
        Lifecycle { phase: Phase::Stopped, open: false, new_mnemonic: None, stop_requested: None }
    }

    /// What the role is doing.
    pub fn phase(&self) -> (result: Phase)
        ensures
            result@ == self@.phase,
    {
        self.phase.clone()
    }

    /// True when the role is starting or running.
    pub fn is_live(&self) -> (result: bool)
        ensures
            result == self@.phase.live(),
    {
        self.phase.is_live()
    }

    /// True when the wallet is open and can be queried.
    pub fn wallet_open(&self) -> (result: bool)
        ensures
            result == self@.open,
    {
        self.open
    }

    /// Whether a thread was started, which may have finished since.
    pub fn thread_started(&self) -> (result: bool)
        ensures
            result == (self@.stop_requested is Some),
    {
        self.stop_requested.is_some()
    }

    /// Whether the thread was asked to stop.
    pub fn stop_requested(&self) -> (result: bool)
        ensures
            result == self@.stopping(),
    {
        match self.stop_requested {
            Some(requested) => requested,
            None => false,
        }
    }

    /// Returns a new wallet's recovery phrase the first time it is asked for, and nothing after.
    pub fn take_new_mnemonic(&mut self) -> (result: Option<String>)
        ensures
            text::optional(result) == old(self)@.new_mnemonic,
            final(self)@ == old(self)@.phrase_taken(),
    {
        proof {
            use_type_invariant(&*self);
        }
        let phrase = match &self.new_mnemonic {
            Some(words) => Some(words.clone()),
            None => None,
        };
        self.new_mnemonic = None;
        phrase
    }

    /// Holds a new wallet's recovery phrase until it is taken.
    pub fn keep_mnemonic(&mut self, words: String)
        ensures
            final(self)@ == (LifecycleView { new_mnemonic: Some(words@), ..old(self)@ }),
    {
        proof {
            use_type_invariant(&*self);
        }
        self.new_mnemonic = Some(words);
    }

    /// Moves to another phase. Only a role with a thread can become live.
    pub fn set_phase(&mut self, phase: Phase)
        requires
            phase@.live() ==> old(self)@.stop_requested is Some,
        ensures
            final(self)@ == (LifecycleView { phase: phase@, ..old(self)@ }),
    {
        proof {
            use_type_invariant(&*self);
        }
        self.phase = phase;
    }

    /// Records whether the wallet is open, which takes a thread to open it.
    pub fn set_open(&mut self, open: bool)
        requires
            open ==> old(self)@.stop_requested is Some,
        ensures
            final(self)@ == (LifecycleView { open, ..old(self)@ }),
    {
        proof {
            use_type_invariant(&*self);
        }
        self.open = open;
    }

    /// Prepares for a new thread, unless one is already live. Returns whether it did.
    pub fn begin(&mut self) -> (result: bool)
        ensures
            result == !old(self)@.phase.live(),
            final(self)@ == old(self)@.begun(),
            result ==> final(self)@ == old(self)@.starting(),
            !result ==> final(self)@ == old(self)@,
    {
        if self.is_live() {
            return false;
        }
        self.stop_requested = Some(false);
        self.phase = Phase::Starting;
        self.open = false;
        true
    }

    /// Goes back to stopped, because no thread could be started to open the wallet.
    pub fn abandon(&mut self)
        ensures
            final(self)@ == old(self)@.abandoned(),
    {
        proof {
            use_type_invariant(&*self);
        }
        self.open = false;
        self.phase = Phase::Stopped;
        self.stop_requested = None;
    }

    /// Asks the thread to stop. Returns whether there was ever one to ask.
    pub fn request_stop(&mut self) -> (result: bool)
        ensures
            result == (old(self)@.stop_requested is Some),
            final(self)@ == old(self)@.asked_to_stop(),
            !result ==> !old(self)@.open && !old(self)@.phase.live(),
    {
        proof {
            use_type_invariant(&*self);
        }
        if self.stop_requested.is_none() {
            return false;
        }
        self.stop_requested = Some(true);
        true
    }

    /// Records that the thread has finished.
    pub fn finish(&mut self)
        ensures
            final(self)@ == old(self)@.finished(),
    {
        proof {
            use_type_invariant(&*self);
        }
        self.open = false;
        match self.phase {
            Phase::Failed(_) => {},
            _ => {
                self.phase = Phase::Stopped;
            },
        }
    }
}

/// What reading the wallet found right after it was opened.
pub enum WalletRead {
    /// The wallet was created, with this recovery phrase.
    Created(String),
    /// The wallet was there before.
    Existing,
    /// The wallet could not be read.
    Unreadable,
}

/// What a [`WalletRead`] says.
#[verifier::ext_equal]
pub enum WalletReadView {
    Created(Seq<char>),
    Existing,
    Unreadable,
}

impl View for WalletRead {
    type V = WalletReadView;

    open spec fn view(&self) -> WalletReadView {
        match *self {
            WalletRead::Created(words) => WalletReadView::Created(words@),
            WalletRead::Existing => WalletReadView::Existing,
            WalletRead::Unreadable => WalletReadView::Unreadable,
        }
    }
}

impl WalletReadView {
    /// What opening a wallet led to: what was read of it, or why it could not be opened.
    pub open spec fn opening(outcome: Result<WalletRead, String>) -> Result<
        WalletReadView,
        Seq<char>,
    > {
        match outcome {
            Ok(wallet) => Ok(wallet@),
            Err(text) => Err(text@),
        }
    }
}

impl LifecycleView {
    /// The state after the opened wallet was read: a new wallet's phrase is held for display.
    pub open spec fn after_read(self, wallet: WalletReadView) -> LifecycleView {
        match wallet {
            WalletReadView::Created(words) => LifecycleView { new_mnemonic: Some(words), ..self },
            _ => self,
        }
    }
}

/// A failure survives a later stop: the reason is the only clue the operator has.
pub proof fn a_failure_survives_a_stop(state: LifecycleView)
    requires
        state.phase is Failed,
    ensures
        state.finished().phase == state.phase,
        state.asked_to_stop().finished().phase == state.phase,
{
}

/// A stop that has not finished leaves the role as live as it was: it still holds its port, so a
/// start must be refused.
pub proof fn an_unfinished_stop_leaves_the_role_live(state: LifecycleView)
    ensures
        state.asked_to_stop().phase == state.phase,
        state.asked_to_stop().open == state.open,
{
}

/// A recovery phrase is handed out once: it is gone once taken, and neither starting nor stopping
/// brings one back.
pub proof fn a_phrase_is_handed_out_once(state: LifecycleView)
    ensures
        state.phrase_taken().new_mnemonic is None,
        state.phrase_taken().starting().new_mnemonic is None,
        state.phrase_taken().asked_to_stop().new_mnemonic is None,
        state.phrase_taken().finished().new_mnemonic is None,
        state.phrase_taken().after_read(WalletReadView::Existing).new_mnemonic is None,
        state.phrase_taken().after_read(WalletReadView::Unreadable).new_mnemonic is None,
{
}

/// Stopping a second time changes nothing more.
pub proof fn stopping_twice_is_stopping_once(state: LifecycleView)
    ensures
        state.finished().finished() == state.finished(),
        state.asked_to_stop().finished().asked_to_stop().finished()
            == state.asked_to_stop().finished(),
{
}

/// A role for which no thread was ever started is shut. It begins so, and starting, failing to,
/// stopping, handing out the phrase and reading the wallet keep it so.
pub proof fn a_role_never_started_is_shut(state: LifecycleView, wallet: WalletReadView)
    ensures
        LifecycleView::fresh().shut_until_started(),
        state.starting().shut_until_started(),
        state.abandoned().shut_until_started(),
        state.shut_until_started() ==> state.asked_to_stop().shut_until_started(),
        state.shut_until_started() ==> state.finished().shut_until_started(),
        state.shut_until_started() ==> state.phrase_taken().shut_until_started(),
        state.shut_until_started() ==> state.after_read(wallet).shut_until_started(),
{
}

/// Stopping a role that was never started has nothing to do: it is as a finished stop would leave
/// it already.
pub proof fn stopping_what_never_started_changes_nothing(state: LifecycleView)
    requires
        state.shut_until_started(),
        state.stop_requested is None,
    ensures
        state.asked_to_stop() == state,
        state.finished() == state,
        !state.open,
        !state.phase.live(),
{
}

/// Whether a stop succeeds: nothing was ever started, or the thread finished in time.
pub open spec fn stop_succeeds(state: LifecycleView, finished: bool) -> bool {
    state.stop_requested is None || finished
}

/// The state after a whole stop: the thread, if there ever was one, is asked to stop and either
/// finishes in time or does not.
pub open spec fn after_stop(state: LifecycleView, finished: bool) -> LifecycleView {
    if state.stop_requested is None {
        state
    } else if finished {
        state.asked_to_stop().finished()
    } else {
        state.asked_to_stop()
    }
}

/// A stop that succeeds leaves the wallet shut and the role failed, for the same reason, if it had
/// failed and stopped otherwise, and stopping once more changes nothing. One that does not succeed
/// leaves the phase as it was, so a live role cannot be started again.
pub proof fn what_a_stop_leaves(state: LifecycleView, finished: bool)
    requires
        state.shut_until_started(),
    ensures
        after_stop(state, finished).shut_until_started(),
        stop_succeeds(state, finished) ==> {
            let after = after_stop(state, finished);
            &&& !after.open
            &&& !after.phase.live()
            &&& after.phase == if state.phase is Failed {
                state.phase
            } else {
                PhaseView::Stopped
            }
            &&& after_stop(after, true) == after
        },
        !stop_succeeds(state, finished) ==> after_stop(state, finished).phase == state.phase
            && after_stop(state, finished).open == state.open,
{
}

/// After a finished stop the role is not live, so it can be started again.
pub proof fn a_finished_stop_allows_a_start(state: LifecycleView)
    ensures
        !state.finished().phase.live(),
        !state.finished().open,
{
}

/// A role that is started is live, with its wallet still to be opened and nobody asking it to stop.
/// A phrase that was not shown yet is kept.
pub proof fn how_a_role_starts(state: LifecycleView)
    ensures
        state.starting().phase is Starting,
        !state.starting().open,
        state.starting().stop_requested == Some(false),
        !state.starting().stopping(),
        state.starting().new_mnemonic == state.new_mnemonic,
{
}

/// Asking a role to stop reaches its thread, if there is one, and changes nothing else.
pub proof fn a_thread_hears_that_it_is_to_stop(state: LifecycleView)
    ensures
        state.stop_requested is Some ==> state.asked_to_stop().stopping(),
        state.stop_requested is None ==> !state.asked_to_stop().stopping(),
        state.asked_to_stop().new_mnemonic == state.new_mnemonic,
        state.finished().new_mnemonic == state.new_mnemonic,
        state.finished().stop_requested == state.stop_requested,
        state.stopping() <==> state.stop_requested is Some && state.stop_requested->Some_0,
{
}

/// The phrase of a wallet that was created is held until it is shown, and reading a wallet changes
/// nothing else.
pub proof fn the_phrase_of_a_new_wallet_is_held(state: LifecycleView, words: Seq<char>)
    ensures
        state.after_read(WalletReadView::Created(words)).new_mnemonic == Some(words),
        state.after_read(WalletReadView::Existing) == state,
        state.after_read(WalletReadView::Unreadable) == state,
        state.after_read(WalletReadView::Created(words)).phase == state.phase,
        state.after_read(WalletReadView::Created(words)).open == state.open,
        state.after_read(WalletReadView::Created(words)).stop_requested == state.stop_requested,
        state.phrase_taken().phase == state.phase,
        state.phrase_taken().open == state.open,
        state.phrase_taken().stop_requested == state.stop_requested,
{
}

/// A role whose thread could not be started is as if it had not been started, but for a phrase
/// that was not shown yet.
pub proof fn a_role_that_could_not_start_is_stopped(state: LifecycleView)
    ensures
        state.abandoned().phase is Stopped,
        !state.abandoned().open,
        state.abandoned().stop_requested is None,
        state.abandoned().new_mnemonic == state.new_mnemonic,
        LifecycleView::fresh().phase is Stopped,
        LifecycleView::fresh().new_mnemonic is None,
        LifecycleView::fresh().stop_requested is None,
{
}

/// A role is started exactly if it is neither starting nor running, and a live one is left exactly
/// as it is, with the reason given. A thread that did not finish in time leaves the role as it was,
/// one that did leaves it finished.
pub proof fn a_live_role_is_not_started_again(
    state: LifecycleView,
    live: Seq<char>,
    finished: bool,
)
    ensures
        ({
            let is_live = state.phase is Starting || state.phase is Running;
            &&& state.start_granted(live) is Ok <==> !is_live
            &&& is_live ==> state.start_granted(live)->Err_0 == live && state.begun() == state
            &&& !is_live ==> state.begun().phase is Starting && !state.begun().open
                && state.begun().stop_requested == Some(false) && state.begun().new_mnemonic
                == state.new_mnemonic
        }),
        !finished ==> state.waited(finished) == state,
        finished ==> {
            let after = state.waited(finished);
            &&& !after.open
            &&& state.phase is Failed ==> after.phase == state.phase
            &&& !(state.phase is Failed) ==> after.phase is Stopped
            &&& after.new_mnemonic == state.new_mnemonic
            &&& after.stop_requested == state.stop_requested
        },
{
}

/// What reading a wallet found is taken as it is.
pub proof fn a_wallet_is_taken_as_it_was_read(wallet: WalletRead, why: String)
    ensures
        wallet@ is Existing <==> wallet is Existing,
        wallet@ is Unreadable <==> wallet is Unreadable,
        wallet matches WalletRead::Created(words) ==> wallet@ == WalletReadView::Created(words@),
        WalletReadView::opening(Ok(wallet)) == Ok::<WalletReadView, Seq<char>>(wallet@),
        WalletReadView::opening(Err(why)) == Err::<WalletReadView, Seq<char>>(why@),
{
}

} // verus!
