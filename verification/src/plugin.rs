//! The glue: pages, commands, forms, and reacting to a settings change.
//!
//! What reaches outside (a thread, a wallet, the disk) is asked for in the steps that the
//! functions here return, and their outcome is handed back to the functions that report it.

use vstd::prelude::*;

use btcpay_plugin::ui::Document;

use crate::blocks;
use crate::blocks::{ActionsView, DocumentView, SectionView};
use crate::logging::LogLevel;
use crate::maker;
use crate::maker::{MakerReadings, MakerReadingsView, MakerRuntime, MakerView, SHORT_ID};
use crate::pages;
use crate::runtime;
use crate::settings::Settings;
use crate::shared::{LogLine, LogLineView};
use crate::taker;
use crate::taker::{SwapParams, TakerReading, TakerRuntime, TakerView};
use crate::text;
use crate::text::{decimal_text, parse_number, same_text, shorten, strip_prefix, trim};

verus! {

/// How long a drain command waits for an idle swap to wind up, in seconds.
///
/// Short, because the command runs inside the operator's request.
pub const DRAIN_TIMEOUT: u64 = 20;

/// How long a stop waits for a role before giving up on it, in seconds.
///
/// A maker mid-swap has contracts to watch; past this, BTCPay's own shutdown matters more.
pub const STOP_DEADLINE: u64 = 30;

/// Where a notification sends the operator.
///
/// The route `cargo btcpay` generates from the plugin identifier, `BTCPayServer.Plugins.Coinswap`,
/// plus the dashboard page id.
pub const DASHBOARD_LINK: &'static str = "/plugins/btcpayserver-plugins-coinswap/dashboard";

/// How a message to the operator is meant.
#[derive(Clone, Copy, PartialEq, Eq, Structural, Debug)]
pub enum MessageLevel {
    Success,
    Error,
}

/// What the host is asked to do.
#[derive(PartialEq, Eq, Debug)]
pub enum PluginAction {
    /// Show the operator a message.
    ShowMessage { level: MessageLevel, text: String },
    /// Write to the log.
    Log { level: LogLevel, message: String },
    /// Store these settings.
    SaveSettings { settings: Settings },
}

/// What a [`PluginAction`] asks for.
#[verifier::ext_equal]
pub enum PluginActionView {
    ShowMessage { level: MessageLevel, text: Seq<char> },
    Log { level: LogLevel, message: Seq<char> },
    SaveSettings { settings: Settings },
}

impl View for PluginAction {
    type V = PluginActionView;

    open spec fn view(&self) -> PluginActionView {
        match *self {
            PluginAction::ShowMessage { level, text } => PluginActionView::ShowMessage {
                level,
                text: text@,
            },
            PluginAction::Log { level, message } => PluginActionView::Log {
                level,
                message: message@,
            },
            PluginAction::SaveSettings { settings } => PluginActionView::SaveSettings { settings },
        }
    }
}

impl PluginActionView {
    /// What some actions ask for.
    pub open spec fn of(actions: Seq<PluginAction>) -> Seq<PluginActionView> {
        actions.map_values(|action: PluginAction| action@)
    }

    /// A message that something went well.
    pub open spec fn success(text: Seq<char>) -> PluginActionView {
        PluginActionView::ShowMessage { level: MessageLevel::Success, text }
    }

    /// A message that something went wrong.
    pub open spec fn error(text: Seq<char>) -> PluginActionView {
        PluginActionView::ShowMessage { level: MessageLevel::Error, text }
    }
}

/// What the host is asked to do about an outcome. A failure is logged, under the name `failed`,
/// as well as shown: a page message dies with the page.
pub open spec fn reported(outcome: Result<Seq<char>, Seq<char>>, failed: Seq<char>) -> Seq<
    PluginActionView,
> {
    match outcome {
        Ok(text) => seq![PluginActionView::success(text)],
        Err(text) => seq![
            PluginActionView::Log {
                level: LogLevel::Error,
                message: failed + " failed: "@ + text,
            },
            PluginActionView::error(text),
        ],
    }
}

fn actions_about(outcome: Result<String, String>, failed: &str) -> (result: Vec<PluginAction>)
    ensures
        PluginActionView::of(result@) == reported(text::either(outcome), failed@),
{
    let mut actions: Vec<PluginAction> = Vec::new();
    match outcome {
        Ok(text) => {
            actions.push(PluginAction::ShowMessage { level: MessageLevel::Success, text });
        },
        Err(text) => {
            let message = failed.to_string().concat(" failed: ").concat(text.as_str());
            actions.push(PluginAction::Log { level: LogLevel::Error, message });
            actions.push(PluginAction::ShowMessage { level: MessageLevel::Error, text });
        },
    }
    assert(PluginActionView::of(actions@) =~= reported(text::either(outcome), failed@));
    actions
}

/// Turns the outcome of a form into what the host should do about it.
pub fn report(outcome: Result<String, String>, what: &str) -> (result: Vec<PluginAction>)
    ensures
        PluginActionView::of(result@) == reported(text::either(outcome), what@),
{
    actions_about(outcome, what)
}

/// What a failed command is logged under.
pub open spec fn command_name(command: Seq<char>) -> Seq<char> {
    "Command '"@ + command + "'"@
}

/// Turns the outcome of a command into what the host should do about it.
pub fn command_report(outcome: Result<String, String>, command: &str) -> (result: Vec<
    PluginAction,
>)
    ensures
        PluginActionView::of(result@) == reported(text::either(outcome), command_name(command@)),
{
    let name = "Command '".to_string().concat(command).concat("'");
    actions_about(outcome, name.as_str())
}

/// The two roles.
#[derive(Clone, Copy, PartialEq, Eq, Structural, Debug)]
pub enum Role {
    Maker,
    Taker,
}

impl Role {
    /// What the role is called, and its directory too: a subdirectory each, never the same one.
    pub fn name(self) -> (result: &'static str)
        ensures
            result@ == self.named(),
    {
        match self {
            Role::Maker => "maker",
            Role::Taker => "taker",
        }
    }

    /// What the role is called.
    pub open spec fn named(self) -> Seq<char> {
        match self {
            Role::Maker => "maker"@,
            Role::Taker => "taker"@,
        }
    }

    /// Whether the settings want the role to run.
    pub open spec fn wanted(self, settings: Settings) -> bool {
        match self {
            Role::Maker => settings.enabled,
            Role::Taker => settings.taker_enabled,
        }
    }
}

/// What bringing a role into line with the settings takes.
pub enum ReconcileStep {
    /// Nothing: this is the outcome.
    Done(Result<String, String>),
    /// Stop the role.
    Stop,
    /// Start the role, after stopping it where `stop_first` says so.
    Start { stop_first: bool },
}

/// What a [`ReconcileStep`] asks for.
#[verifier::ext_equal]
pub enum ReconcileStepView {
    Done(Result<Seq<char>, Seq<char>>),
    Stop,
    Start { stop_first: bool },
}

impl View for ReconcileStep {
    type V = ReconcileStepView;

    open spec fn view(&self) -> ReconcileStepView {
        match *self {
            ReconcileStep::Done(outcome) => ReconcileStepView::Done(text::either(outcome)),
            ReconcileStep::Stop => ReconcileStepView::Stop,
            ReconcileStep::Start { stop_first } => ReconcileStepView::Start { stop_first },
        }
    }
}

/// What bringing a role into line with the settings takes. A live role is restarted rather than
/// reconfigured: it owns the configuration it was started with.
pub open spec fn reconciliation(
    role: Role,
    settings: Settings,
    attached: bool,
    live: bool,
) -> ReconcileStepView {
    if !attached {
        ReconcileStepView::Done(Err("The plugin has not finished starting yet."@))
    } else if !role.wanted(settings) {
        if live {
            ReconcileStepView::Stop
        } else {
            ReconcileStepView::Done(
                Ok(
                    match role {
                        Role::Maker => "Maker is off."@,
                        Role::Taker => "Taker is off."@,
                    },
                ),
            )
        }
    } else {
        match settings.problem() {
            Some(problem) => ReconcileStepView::Done(Err(problem)),
            None => ReconcileStepView::Start { stop_first: live },
        }
    }
}

/// What the operator is told about a role that was switched off.
pub open spec fn off_text(role: Role, finished: bool) -> Seq<char> {
    match (role, finished) {
        (Role::Maker, true) => "Maker stopped."@,
        (Role::Maker, false) => "Maker was asked to stop but did not finish in time."@,
        (Role::Taker, true) => "Taker wallet closed."@,
        (Role::Taker, false) => "Taker wallet was asked to close but did not finish in time."@,
    }
}

/// What the operator is told about a role that was switched off.
pub fn switched_off(role: Role, finished: bool) -> (result: String)
    ensures
        result@ == off_text(role, finished),
{
    match role {
        Role::Maker => if finished {
            "Maker stopped.".to_string()
        } else {
            "Maker was asked to stop but did not finish in time.".to_string()
        },
        Role::Taker => if finished {
            "Taker wallet closed.".to_string()
        } else {
            "Taker wallet was asked to close but did not finish in time.".to_string()
        },
    }
}

/// What the operator is told about a role that has no directory.
pub open spec fn directory_text(role: Role, dir: Seq<char>, error: Seq<char>) -> Seq<char> {
    "Could not create the "@ + role.named() + " directory at "@ + dir + ": "@ + error
}

/// What the operator is told about a role that has no directory.
pub fn directory_failed(role: Role, dir: &str, error: &str) -> (result: String)
    ensures
        result@ == directory_text(role, dir@, error@),
{
    "Could not create the ".to_string().concat(role.name()).concat(" directory at ").concat(
        dir,
    ).concat(": ").concat(error)
}

/// What the operator is told about a role that was started.
pub open spec fn on_text(role: Role) -> Seq<char> {
    match role {
        Role::Maker => "Maker is starting. Reload the dashboard to see it come up."@,
        Role::Taker => "Taker wallet is opening. Reload the taker page to see it."@,
    }
}

/// What the operator is told about a role that was started.
pub fn switched_on(role: Role) -> (result: String)
    ensures
        result@ == on_text(role),
{
    match role {
        Role::Maker => "Maker is starting. Reload the dashboard to see it come up.".to_string(),
        Role::Taker => "Taker wallet is opening. Reload the taker page to see it.".to_string(),
    }
}

/// Why an event was refused.
#[derive(PartialEq, Eq, Debug)]
pub enum PluginError {
    /// What the host handed over makes no sense, for this reason.
    InvalidInput(String),
}

impl PluginError {
    /// The reason.
    pub open spec fn reason(self) -> Seq<char> {
        match self {
            PluginError::InvalidInput(reason) => reason@,
        }
    }
}

/// What a command takes.
pub enum CommandStep {
    /// Nothing more: this is the answer.
    Reply(Vec<PluginAction>),
    /// Bring the maker into line with the settings.
    ReconcileMaker,
    /// Stop the maker.
    StopMaker,
    /// Run the swap with this identifier.
    RunSwap(String),
    /// Derive an address of the taker's wallet.
    TakerAddress,
    /// Derive an address of the maker's wallet.
    MakerAddress,
    /// Clear out the maker's idle swaps.
    Drain,
}

/// What a [`CommandStep`] asks for.
#[verifier::ext_equal]
pub enum CommandStepView {
    Reply(Seq<PluginActionView>),
    ReconcileMaker,
    StopMaker,
    RunSwap(Seq<char>),
    TakerAddress,
    MakerAddress,
    Drain,
}

impl View for CommandStep {
    type V = CommandStepView;

    open spec fn view(&self) -> CommandStepView {
        match *self {
            CommandStep::Reply(actions) => CommandStepView::Reply(PluginActionView::of(actions@)),
            CommandStep::ReconcileMaker => CommandStepView::ReconcileMaker,
            CommandStep::StopMaker => CommandStepView::StopMaker,
            CommandStep::RunSwap(swap_id) => CommandStepView::RunSwap(swap_id@),
            CommandStep::TakerAddress => CommandStepView::TakerAddress,
            CommandStep::MakerAddress => CommandStepView::MakerAddress,
            CommandStep::Drain => CommandStepView::Drain,
        }
    }
}

/// The plugin.
pub struct CoinswapPlugin {
    maker: MakerRuntime,
    taker: TakerRuntime,
    /// Cached so rendering a page does not re-read storage field by field.
    settings: Option<Settings>,
    /// What the settings are until they were loaded.
    defaults: Settings,
    /// Whether the host has started the plugin.
    attached: bool,
}

/// What a [`CoinswapPlugin`] holds.
#[verifier::ext_equal]
pub struct PluginView {
    pub maker: MakerView,
    pub taker: TakerView,
    pub settings: Option<Settings>,
    pub defaults: Settings,
    pub attached: bool,
}

impl View for CoinswapPlugin {
    type V = PluginView;

    closed spec fn view(&self) -> PluginView {
        PluginView {
            maker: self.maker@,
            taker: self.taker@,
            settings: self.settings,
            defaults: self.defaults,
            attached: self.attached,
        }
    }
}

impl PluginView {
    /// The settings in force.
    pub open spec fn current(self) -> Settings {
        match self.settings {
            Some(settings) => settings,
            None => self.defaults,
        }
    }

    /// Whether a role is live.
    pub open spec fn live(self, role: Role) -> bool {
        match role {
            Role::Maker => self.maker.lifecycle.phase.live(),
            Role::Taker => self.taker.lifecycle.phase.live(),
        }
    }
}

impl PluginView {
    /// The dashboard, with what could be read of the maker at the time `now`.
    pub open spec fn dashboard(self, readings: Option<MakerReadingsView>, now: u64) -> DocumentView {
        pages::dashboard_view(
            self.current(),
            maker::status_of(self.maker, readings),
            self.maker.lifecycle.new_mnemonic,
            self.maker.lifecycle.open,
            now,
        )
    }

    /// The taker's page, with what could be read of the taker at the time `now`.
    pub open spec fn taker_page(self, reading: Option<TakerReading>, now: u64) -> DocumentView {
        pages::taker_page_view(
            self.current(),
            taker::status_of(self.taker.lifecycle, reading),
            self.taker.lifecycle.new_mnemonic,
            self.taker.swap,
            self.taker.quote,
            self.taker.lifecycle.open,
            now,
        )
    }

    /// The state after the taker's recovery phrase was handed out.
    pub open spec fn taker_phrase_taken(self) -> PluginView {
        PluginView {
            taker: TakerView { lifecycle: self.taker.lifecycle.phrase_taken(), ..self.taker },
            ..self
        }
    }

    /// The state after the maker's recovery phrase was handed out.
    pub open spec fn maker_phrase_taken(self) -> PluginView {
        PluginView {
            maker: MakerView { lifecycle: self.maker.lifecycle.phrase_taken(), ..self.maker },
            ..self
        }
    }
}

/// What a command leads to that has an outcome at once.
pub open spec fn answered(outcome: Result<Seq<char>, Seq<char>>, command: Seq<char>) -> CommandStepView {
    CommandStepView::Reply(reported(outcome, command_name(command)))
}

/// What a guard leads to: the step, or the answer that says why not.
pub open spec fn guarded(
    guard: Result<(), Seq<char>>,
    step: CommandStepView,
    command: Seq<char>,
) -> CommandStepView {
    match guard {
        Ok(()) => step,
        Err(why) => answered(Err(why), command),
    }
}

/// What a button press takes.
///
/// Every command reports something: a button that appears to do nothing looks like a failure.
pub open spec fn command_step(
    state: PluginView,
    command: Seq<char>,
    recovery_complete: Option<bool>,
) -> CommandStepView {
    let not_started = "The plugin has not finished starting yet."@;
    if command == "start"@ {
        if state.current().enabled {
            CommandStepView::ReconcileMaker
        } else {
            answered(Err("Turn on \"Run the maker\" on the settings page first."@), command)
        }
    } else if command == "stop"@ {
        if state.attached {
            CommandStepView::StopMaker
        } else {
            answered(Err(not_started), command)
        }
    } else if command == "accept-quote"@ {
        if !state.attached {
            answered(Err(not_started), command)
        } else {
            match taker::accept_refusal(state.taker, recovery_complete) {
                Some(why) => answered(Err(why), command),
                None => CommandStepView::RunSwap(state.taker.quote->Ready_0.swap_id),
            }
        }
    } else if command == "clear-swap"@ {
        answered(
            if state.taker.swap is Running {
                Err("That swap is still running."@)
            } else {
                Ok("Cleared. Request a new quote when you want one."@)
            },
            command,
        )
    } else if command == "discard-quote"@ {
        answered(Ok("Quote discarded."@), command)
    } else if command == "taker-address"@ {
        guarded(taker::wallet_guard(state.taker), CommandStepView::TakerAddress, command)
    } else if command == "address"@ {
        guarded(runtime::address_guard(state.maker.lifecycle), CommandStepView::MakerAddress, command)
    } else if command == "drain"@ {
        guarded(runtime::drain_guard(state.maker.lifecycle), CommandStepView::Drain, command)
    } else {
        match text::after_prefix(command, "dismiss-swap:"@) {
            Some(_) => answered(maker::dismissal(state.maker), command),
            None => answered(Err("Unknown command: "@ + command), command),
        }
    }
}

/// The state after a button press at the time `now`.
pub open spec fn after_command(
    state: PluginView,
    command: Seq<char>,
    recovery_complete: Option<bool>,
    now: u64,
) -> PluginView {
    if command == "accept-quote"@ {
        if state.attached {
            PluginView {
                taker: taker::after_accept(state.taker, recovery_complete, now),
                ..state
            }
        } else {
            state
        }
    } else if command == "clear-swap"@ {
        PluginView { taker: taker::after_clear_swap(state.taker), ..state }
    } else if command == "discard-quote"@ {
        PluginView { taker: taker::after_clear_quote(state.taker), ..state }
    } else {
        match text::after_prefix(command, "dismiss-swap:"@) {
            Some(key) => PluginView { maker: state.maker.without(key), ..state },
            None => state,
        }
    }
}

/// None of the other commands asks for a dismissal, and starting and stopping are not about
/// quotes.
proof fn lemma_not_a_dismissal(command: Seq<char>)
    ensures
        text::after_prefix(command, "dismiss-swap:"@) is Some ==> command != "start"@ && command
            != "stop"@ && command != "accept-quote"@ && command != "clear-swap"@ && command
            != "discard-quote"@ && command != "taker-address"@ && command != "address"@ && command
            != "drain"@,
        command == "start"@ || command == "stop"@ ==> command != "accept-quote"@ && command
            != "clear-swap"@ && command != "discard-quote"@,
{
    let prefix = "dismiss-swap:"@;
    reveal_strlit("dismiss-swap:");
    reveal_strlit("start");
    reveal_strlit("stop");
    reveal_strlit("accept-quote");
    reveal_strlit("clear-swap");
    reveal_strlit("discard-quote");
    reveal_strlit("taker-address");
    reveal_strlit("address");
    reveal_strlit("drain");
    if text::after_prefix(command, prefix) is Some {
        assert(command.take(13)[0] == 'd' && command.take(13)[3] == 'm');
        assert(command[0] == 'd' && command[3] == 'm');
        assert("discard-quote"@[3] == 'c' && "taker-address"@[0] == 't');
    }
}

impl CoinswapPlugin {
    /// A plugin that has not been started. `defaults` are the settings of a fresh install.
    pub fn new(defaults: Settings) -> (result: Self)
        ensures
            result@ == (PluginView {
                maker: MakerView::fresh(),
                taker: TakerView::fresh(),
                settings: None,
                defaults,
                attached: false,
            }),
    {
        CoinswapPlugin {
            maker: MakerRuntime::new(),
            taker: TakerRuntime::new(),
            settings: None,
            defaults,
            attached: false,
        }
    }

    /// The maker.
    pub fn maker(&mut self) -> (result: &mut MakerRuntime)
        ensures
            result@ == old(self)@.maker,
            final(self)@ == (PluginView { maker: final(result)@, ..old(self)@ }),
    {
        &mut self.maker
    }

    /// The taker.
    pub fn taker(&mut self) -> (result: &mut TakerRuntime)
        ensures
            result@ == old(self)@.taker,
            final(self)@ == (PluginView { taker: final(result)@, ..old(self)@ }),
    {
        &mut self.taker
    }

    /// The settings in force.
    pub fn settings(&self) -> (result: Settings)
        ensures
            result == self@.current(),
    {
        match &self.settings {
            Some(settings) => settings.clone(),
            None => self.defaults.clone(),
        }
    }

    /// Runs a button press, as far as it needs nothing from outside.
    ///
    /// `recovery_complete` is what the taker says about recovery, where it could be asked.
    pub fn run_command(&mut self, command: &str, recovery_complete: Option<bool>, now: u64) -> (step:
        CommandStep)
        ensures
            step@ == command_step(old(self)@, command@, recovery_complete),
            final(self)@ == after_command(old(self)@, command@, recovery_complete, now),
    {
        proof {
            lemma_not_a_dismissal(command@);
        }
        if same_text(command, "start") {
            if self.settings().enabled {
                return CommandStep::ReconcileMaker;
            }
            let outcome = Err(
                "Turn on \"Run the maker\" on the settings page first.".to_string(),
            );
            return CommandStep::Reply(command_report(outcome, command));
        }
        if same_text(command, "stop") {
            // Does not clear `enabled`: this stops the maker now, and a restart brings it back.
            if self.attached {
                return CommandStep::StopMaker;
            }
            let outcome = Err("The plugin has not finished starting yet.".to_string());
            return CommandStep::Reply(command_report(outcome, command));
        }
        if same_text(command, "accept-quote") {
            if !self.attached {
                let outcome = Err("The plugin has not finished starting yet.".to_string());
                return CommandStep::Reply(command_report(outcome, command));
            }
            return match self.taker.accept_quote(recovery_complete, now) {
                Ok(swap_id) => CommandStep::RunSwap(swap_id),
                Err(why) => CommandStep::Reply(command_report(Err(why), command)),
            };
        }
        if same_text(command, "clear-swap") {
            let outcome = match self.taker.clear_swap() {
                Ok(()) => Ok("Cleared. Request a new quote when you want one.".to_string()),
                Err(why) => Err(why),
            };
            return CommandStep::Reply(command_report(outcome, command));
        }
        if same_text(command, "discard-quote") {
            self.taker.clear_quote();
            return CommandStep::Reply(
                command_report(Ok("Quote discarded.".to_string()), command),
            );
        }
        let (guard, step) = if same_text(command, "taker-address") {
            (self.taker.receive_address(), CommandStep::TakerAddress)
        } else if same_text(command, "address") {
            (self.maker.receive_address(), CommandStep::MakerAddress)
        } else if same_text(command, "drain") {
            (self.maker.drain_idle_swaps(), CommandStep::Drain)
        } else {
            let outcome = match strip_prefix(command, "dismiss-swap:") {
                Some(key) => self.maker.dismiss_swap(key),
                None => Err("Unknown command: ".to_string().concat(command)),
            };
            return CommandStep::Reply(command_report(outcome, command));
        };
        match guard {
            Ok(()) => step,
            Err(why) => CommandStep::Reply(command_report(Err(why), command)),
        }
    }

    /// What bringing a role into line with the settings takes: running when enabled, stopped when
    /// not. The roles are reconciled apart, so either one's failure cannot stop the other.
    pub fn reconcile(&self, role: Role, settings: &Settings) -> (step: ReconcileStep)
        ensures
            step@ == reconciliation(role, *settings, self@.attached, self@.live(role)),
    {
        if !self.attached {
            return ReconcileStep::Done(
                Err("The plugin has not finished starting yet.".to_string()),
            );
        }
        let (wanted, live) = match role {
            Role::Maker => (settings.enabled, self.maker.is_live()),
            Role::Taker => (settings.taker_enabled, self.taker.is_live()),
        };
        if !wanted {
            if live {
                return ReconcileStep::Stop;
            }
            return ReconcileStep::Done(
                Ok(
                    match role {
                        Role::Maker => "Maker is off.".to_string(),
                        Role::Taker => "Taker is off.".to_string(),
                    },
                ),
            );
        }
        match settings.check() {
            Ok(()) => ReconcileStep::Start { stop_first: live },
            Err(problem) => ReconcileStep::Done(Err(problem)),
        }
    }
}

/// What the operator is told after the command to stop the maker.
pub open spec fn stop_text(finished: bool) -> Result<Seq<char>, Seq<char>> {
    if finished {
        Ok("Maker stopped."@)
    } else {
        Err(
            "The maker did not stop within "@ + text::decimal(STOP_DEADLINE as nat)
                + "s and has been left running in the background. Restarting BTCPay will clear it."@,
        )
    }
}

/// What the operator is told after the command to stop the maker.
pub fn stop_outcome(finished: bool) -> (result: Result<String, String>)
    ensures
        text::either(result) == stop_text(finished),
{
    if finished {
        Ok("Maker stopped.".to_string())
    } else {
        Err(
            "The maker did not stop within ".to_string().concat(
                decimal_text(STOP_DEADLINE).as_str(),
            ).concat(
                "s and has been left running in the background. Restarting BTCPay will clear it.",
            ),
        )
    }
}

/// What the operator is told about a swap that was started, or that no thread could be spawned
/// for.
pub open spec fn swap_text(spawned: Result<Seq<char>, Seq<char>>) -> Result<Seq<char>, Seq<char>> {
    match spawned {
        Ok(swap_id) => Ok(
            "Swap "@ + text::shortened(swap_id, SHORT_ID as nat)
                + " started. It runs for a while; reload to follow it."@,
        ),
        Err(why) => Err(why),
    }
}

/// What the operator is told about a swap that was started, or that no thread could be spawned
/// for.
pub fn swap_outcome(spawned: Result<String, String>) -> (result: Result<String, String>)
    ensures
        text::either(result) == swap_text(text::either(spawned)),
{
    match spawned {
        Ok(swap_id) => Ok(
            "Swap ".to_string().concat(shorten(swap_id.as_str(), SHORT_ID).as_str()).concat(
                " started. It runs for a while; reload to follow it.",
            ),
        ),
        Err(why) => Err(why),
    }
}

/// What the operator is told about a funding address of the taker.
pub open spec fn taker_address_text(reply: taker::WalletReplyView) -> Result<
    Seq<char>,
    Seq<char>,
> {
    match taker::reply_text(
        reply,
        "derive an address"@,
        "Could not derive a receive address: "@,
    ) {
        Ok(address) => Ok(
            "Send funds to "@ + address
                + " to top up the taker wallet. This is the taker's own wallet, not a store wallet. The address advances each time."@,
        ),
        Err(why) => Err(why),
    }
}

/// What the operator is told about a funding address of the taker.
pub fn taker_address_outcome(reply: taker::WalletReply) -> (result: Result<String, String>)
    ensures
        text::either(result) == taker_address_text(reply@),
{
    match taker::address_outcome(reply) {
        Ok(address) => Ok(
            "Send funds to ".to_string().concat(address.as_str()).concat(
                " to top up the taker wallet. This is the taker's own wallet, not a store wallet. The address advances each time.",
            ),
        ),
        Err(why) => Err(why),
    }
}

/// What the operator is told about a funding address of the maker.
pub open spec fn maker_address_text(reading: runtime::AddressReadingView) -> Result<
    Seq<char>,
    Seq<char>,
> {
    match runtime::address_text(reading) {
        Ok(address) => Ok(
            "Send funds to "@ + address
                + " -- this is the maker's own wallet, not a store wallet. The address advances each time, so take a fresh one per deposit."@,
        ),
        Err(why) => Err(why),
    }
}

/// What the operator is told about a funding address of the maker.
pub fn maker_address_outcome(reading: runtime::AddressReading) -> (result: Result<String, String>)
    ensures
        text::either(result) == maker_address_text(reading@),
{
    match runtime::address_outcome(reading) {
        Ok(address) => Ok(
            "Send funds to ".to_string().concat(address.as_str()).concat(
                " -- this is the maker's own wallet, not a store wallet. The address advances each time, so take a fresh one per deposit.",
            ),
        ),
        Err(why) => Err(why),
    }
}

/// What the operator is told about clearing out idle swaps.
pub open spec fn drain_text(drained: Result<usize, Seq<char>>) -> Result<Seq<char>, Seq<char>> {
    match drained {
        Ok(count) => Ok(
            if count == 0 {
                "No idle swaps needed draining."@
            } else {
                "Drained "@ + text::decimal(count as nat) + " idle swap(s)."@
            },
        ),
        Err(why) => Err("Could not drain idle swaps: "@ + why),
    }
}

/// What the operator is told about clearing out idle swaps.
pub fn drain_outcome(drained: Result<usize, String>) -> (result: Result<String, String>)
    ensures
        text::either(result) == drain_text(text::failure(drained)),
{
    match runtime::drain_outcome(drained) {
        Ok(count) => if count == 0 {
            Ok("No idle swaps needed draining.".to_string())
        } else {
            Ok(
                "Drained ".to_string().concat(decimal_text(count as u64).as_str()).concat(
                    " idle swap(s).",
                ),
            )
        },
        Err(why) => Err(why),
    }
}

/// The value that was submitted under a key, if any.
pub open spec fn submitted(values: Seq<(Seq<char>, Seq<char>)>, key: Seq<char>) -> Option<
    Seq<char>,
>
    decreases values.len(),
{
    if values.len() == 0 {
        None
    } else if values[0].0 == key {
        Some(values[0].1)
    } else {
        submitted(values.skip(1), key)
    }
}

/// The keys and values that were submitted.
pub open spec fn values_view(values: Seq<(String, String)>) -> Seq<(Seq<char>, Seq<char>)> {
    values.map_values(|pair: (String, String)| (pair.0@, pair.1@))
}

fn lookup<'a>(values: &'a Vec<(String, String)>, key: &str) -> (result: Option<&'a String>)
    ensures
        match result {
            Some(value) => submitted(values_view(values@), key@) == Some(value@),
            None => submitted(values_view(values@), key@) is None,
        },
{
    let ghost pairs = values_view(values@);
    let mut at: usize = 0;
    assert(pairs.skip(0) =~= pairs);
    while at < values.len()
        invariant
            at <= values@.len(),
            pairs == values_view(values@),
            submitted(pairs, key@) == submitted(pairs.skip(at as int), key@),
        decreases values@.len() - at,
    {
        assert(pairs.skip(at as int)[0] == (values@[at as int].0@, values@[at as int].1@));
        if same_text(values[at].0.as_str(), key) {
            return Some(&values[at].1);
        }
        assert(pairs.skip(at as int).skip(1) =~= pairs.skip(at + 1));
        at = at + 1;
    }
    None
}

/// The number that was submitted under a key, if it is one.
pub open spec fn submitted_number(values: Seq<(Seq<char>, Seq<char>)>, key: Seq<char>) -> Option<
    u64,
> {
    match submitted(values, key) {
        Some(raw) => text::number_within(text::trimmed(raw), u64::MAX),
        None => None,
    }
}

fn lookup_number(values: &Vec<(String, String)>, key: &str) -> (result: Option<u64>)
    ensures
        result == submitted_number(values_view(values@), key@),
{
    match lookup(values, key) {
        Some(raw) => parse_number(trim(raw.as_str()), u64::MAX),
        None => None,
    }
}

/// What a submitted form takes.
pub enum FormStep {
    /// Nothing more: this is the answer.
    Reply(Vec<PluginAction>),
    /// Send this many satoshis to this address, out of the taker's wallet.
    Withdraw { address: String, sats: u64 },
    /// Prepare a swap with these parameters.
    Quote(SwapParams),
    /// Refuse the form.
    Refuse(PluginError),
}

/// What a [`FormStep`] asks for.
#[verifier::ext_equal]
pub enum FormStepView {
    Reply(Seq<PluginActionView>),
    Withdraw { address: Seq<char>, sats: u64 },
    Quote(SwapParams),
    Refuse(Seq<char>),
}

impl View for FormStep {
    type V = FormStepView;

    open spec fn view(&self) -> FormStepView {
        match *self {
            FormStep::Reply(actions) => FormStepView::Reply(PluginActionView::of(actions@)),
            FormStep::Withdraw { address, sats } => FormStepView::Withdraw {
                address: address@,
                sats,
            },
            FormStep::Quote(params) => FormStepView::Quote(params),
            FormStep::Refuse(error) => FormStepView::Refuse(error.reason()),
        }
    }
}

/// What a submitted withdrawal takes.
pub open spec fn withdraw_step(
    state: PluginView,
    values: Seq<(Seq<char>, Seq<char>)>,
) -> FormStepView {
    let address = match submitted(values, "address"@) {
        Some(address) => address,
        None => Seq::empty(),
    };
    if submitted(values, "sats"@) is None {
        FormStepView::Reply(reported(Err("The amount is missing."@), "withdraw"@))
    } else {
        match submitted_number(values, "sats"@) {
            None => FormStepView::Reply(
                reported(Err("The amount must be a whole number of sats."@), "withdraw"@),
            ),
            Some(sats) => match taker::withdrawal(state.taker, address, sats) {
                Ok(address) => FormStepView::Withdraw { address, sats },
                Err(why) => FormStepView::Reply(reported(Err(why), "withdraw"@)),
            },
        }
    }
}

/// The swap that a submitted form asks a quote for, if it says so in numbers.
pub open spec fn asked_for(state: PluginView, values: Seq<(Seq<char>, Seq<char>)>) -> Option<
    SwapParams,
> {
    match (submitted_number(values, "sats"@), submitted_number(values, "makers"@)) {
        (Some(send_sat), Some(makers)) => Some(
            SwapParams {
                protocol: state.current().taker_protocol.protocol_version(),
                send_sat,
                maker_count: makers as usize,
            },
        ),
        _ => None,
    }
}

/// What a submitted request for a quote takes.
pub open spec fn quote_step(
    state: PluginView,
    values: Seq<(Seq<char>, Seq<char>)>,
) -> FormStepView {
    match asked_for(state, values) {
        None => FormStepView::Reply(
            reported(
                Err("The amount and the maker count must both be whole numbers."@),
                "quote"@,
            ),
        ),
        Some(params) => if !state.attached {
            FormStepView::Reply(
                reported(Err("The plugin has not finished starting yet."@), "quote"@),
            )
        } else {
            match taker::quote_refusal(state.taker, params) {
                Some(why) => FormStepView::Reply(reported(Err(why), "quote"@)),
                None => FormStepView::Quote(params),
            }
        },
    }
}

/// What a submitted form takes.
pub open spec fn form_step(
    state: PluginView,
    form_id: Seq<char>,
    values: Seq<(Seq<char>, Seq<char>)>,
) -> FormStepView {
    if form_id == "withdraw"@ {
        withdraw_step(state, values)
    } else if form_id == "quote"@ {
        quote_step(state, values)
    } else {
        FormStepView::Refuse("unknown form: "@ + form_id)
    }
}

/// The taker after a form was submitted.
pub open spec fn taker_after_form(
    state: PluginView,
    form_id: Seq<char>,
    values: Seq<(Seq<char>, Seq<char>)>,
) -> TakerView {
    match asked_for(state, values) {
        Some(params) if form_id != "withdraw"@ && form_id == "quote"@ && state.attached =>
            taker::after_quote_request(state.taker, params),
        _ => state.taker,
    }
}

/// What the operator is told about a withdrawal.
pub open spec fn withdraw_text(reply: taker::WalletReplyView) -> Result<Seq<char>, Seq<char>> {
    match taker::reply_text(reply, "withdraw"@, "The withdrawal failed: "@) {
        Ok(txid) => Ok("Withdrawal broadcast. Transaction "@ + txid + "."@),
        Err(why) => Err(why),
    }
}

/// What the operator is told about a withdrawal.
pub fn withdraw_outcome(reply: taker::WalletReply) -> (result: Result<String, String>)
    ensures
        text::either(result) == withdraw_text(reply@),
{
    match taker::withdrawal_outcome(reply) {
        Ok(txid) => Ok(
            "Withdrawal broadcast. Transaction ".to_string().concat(txid.as_str()).concat("."),
        ),
        Err(why) => Err(why),
    }
}

/// What the operator is told about a quote that is being prepared, or that no thread could be
/// spawned for.
pub open spec fn quote_text(spawned: Result<(), Seq<char>>) -> Result<Seq<char>, Seq<char>> {
    match spawned {
        Ok(()) => Ok("Preparing a quote. It asks makers over Tor, so reload in a moment."@),
        Err(why) => Err(why),
    }
}

/// What the operator is told about a quote that is being prepared, or that no thread could be
/// spawned for.
pub fn quote_outcome(spawned: Result<(), String>) -> (result: Result<String, String>)
    ensures
        text::either(result) == quote_text(text::failure(spawned)),
{
    match spawned {
        Ok(()) => Ok(
            "Preparing a quote. It asks makers over Tor, so reload in a moment.".to_string(),
        ),
        Err(why) => Err(why),
    }
}

/// The state after the operator submitted settings: those that pass the check are kept, and
/// others change nothing.
pub open spec fn after_save(state: PluginView, updated: Settings) -> PluginView {
    if updated.problem() is None {
        PluginView { settings: Some(updated), ..state }
    } else {
        state
    }
}

/// What the host tells the plugin.
pub enum HostEvent {
    /// The operator submitted these settings.
    SettingsUpdated { settings: Settings },
    /// The operator submitted a form that is not the settings.
    FormSubmitted { form_id: String, values: Vec<(String, String)> },
    /// The operator pressed a button.
    CommandInvoked { command: String },
    /// Something that does not concern this plugin.
    Other,
}

/// What an event takes.
pub enum EventStep {
    /// Bring both roles into line with these settings, which were kept, and report on it.
    Saved { settings: Settings },
    /// What the form takes.
    Form(FormStep),
    /// What the command takes.
    Command(CommandStep),
    /// Nothing.
    Ignore,
    /// Refuse the event.
    Refuse(PluginError),
}

/// What an [`EventStep`] asks for.
#[verifier::ext_equal]
pub enum EventStepView {
    Saved { settings: Settings },
    Form(FormStepView),
    Command(CommandStepView),
    Ignore,
    Refuse(Seq<char>),
}

impl View for EventStep {
    type V = EventStepView;

    open spec fn view(&self) -> EventStepView {
        match *self {
            EventStep::Saved { settings } => EventStepView::Saved { settings },
            EventStep::Form(step) => EventStepView::Form(step@),
            EventStep::Command(step) => EventStepView::Command(step@),
            EventStep::Ignore => EventStepView::Ignore,
            EventStep::Refuse(error) => EventStepView::Refuse(error.reason()),
        }
    }
}

/// What an event takes.
///
/// A form is delivered separately from a settings save, so asking for an address cannot be
/// mistaken for reconfiguring the plugin.
pub open spec fn event_step(
    state: PluginView,
    event: HostEvent,
    recovery_complete: Option<bool>,
) -> EventStepView {
    match event {
        HostEvent::SettingsUpdated { settings } => match settings.problem() {
            Some(problem) => EventStepView::Refuse(problem),
            None => EventStepView::Saved { settings },
        },
        HostEvent::FormSubmitted { form_id, values } => EventStepView::Form(
            form_step(state, form_id@, values_view(values@)),
        ),
        HostEvent::CommandInvoked { command } => EventStepView::Command(
            command_step(state, command@, recovery_complete),
        ),
        HostEvent::Other => EventStepView::Ignore,
    }
}

/// The state after an event at the time `now`.
pub open spec fn after_event(
    state: PluginView,
    event: HostEvent,
    recovery_complete: Option<bool>,
    now: u64,
) -> PluginView {
    match event {
        HostEvent::SettingsUpdated { settings } => after_save(state, settings),
        HostEvent::FormSubmitted { form_id, values } => PluginView {
            taker: taker_after_form(state, form_id@, values_view(values@)),
            ..state
        },
        HostEvent::CommandInvoked { command } => after_command(
            state,
            command@,
            recovery_complete,
            now,
        ),
        HostEvent::Other => state,
    }
}

/// The message about one role after the settings were saved.
pub open spec fn save_message(role: Role, outcome: Result<Seq<char>, Seq<char>>) -> PluginActionView {
    match outcome {
        Ok(message) => PluginActionView::success(message),
        Err(error) => PluginActionView::error(
            "Settings saved, but the "@ + role.named() + " did not start: "@ + error,
        ),
    }
}

fn save_message_action(role: Role, outcome: Result<String, String>) -> (result: PluginAction)
    ensures
        result@ == save_message(role, text::either(outcome)),
{
    match outcome {
        Ok(text) => PluginAction::ShowMessage { level: MessageLevel::Success, text },
        Err(error) => PluginAction::ShowMessage {
            level: MessageLevel::Error,
            text: "Settings saved, but the ".to_string().concat(role.name()).concat(
                " did not start: ",
            ).concat(error.as_str()),
        },
    }
}

/// What the host is asked to do after the settings were kept and both roles reconciled.
pub open spec fn save_actions(
    settings: Settings,
    maker: Result<Seq<char>, Seq<char>>,
    taker: Result<Seq<char>, Seq<char>>,
) -> Seq<PluginActionView> {
    seq![
        PluginActionView::SaveSettings { settings },
        save_message(Role::Maker, maker),
        save_message(Role::Taker, taker),
    ]
}

/// What the host is asked to do after the settings were kept and both roles reconciled: store
/// them, and report both outcomes, or a taker-only save would say nothing about it.
pub fn save_report(
    settings: Settings,
    maker: Result<String, String>,
    taker: Result<String, String>,
) -> (result: Vec<PluginAction>)
    ensures
        PluginActionView::of(result@) == save_actions(
            settings,
            text::either(maker),
            text::either(taker),
        ),
{
    let mut actions: Vec<PluginAction> = Vec::new();
    let ghost said = save_actions(settings, text::either(maker), text::either(taker));
    actions.push(PluginAction::SaveSettings { settings });
    actions.push(save_message_action(Role::Maker, maker));
    actions.push(save_message_action(Role::Taker, taker));
    assert(PluginActionView::of(actions@) =~= said);
    actions
}

/// What is logged about a role when the plugin starts, given what came of reconciling it where
/// the settings want it to run. Neither failure fails the start: this plugin owns the only page
/// that can fix it.
pub open spec fn startup_line(
    role: Role,
    wanted: bool,
    outcome: Result<Seq<char>, Seq<char>>,
) -> Option<LogLineView> {
    match role {
        Role::Maker => if !wanted {
            Some(
                LogLineView::info(
                    "Coinswap maker is off. Turn it on from the settings page."@,
                ),
            )
        } else {
            match outcome {
                Ok(_) => None,
                Err(error) => Some(
                    LogLineView::error(
                        "The maker did not start: "@ + error + ". Fix it on the settings page."@,
                    ),
                ),
            }
        },
        Role::Taker => match outcome {
            Err(error) if wanted => Some(
                LogLineView::error("The taker wallet did not open: "@ + error + "."@),
            ),
            _ => None,
        },
    }
}

/// What to log about a role when the plugin starts.
pub fn startup(role: Role, wanted: bool, outcome: Result<String, String>) -> (result: Option<
    LogLine,
>)
    ensures
        match result {
            Some(line) => startup_line(role, wanted, text::either(outcome)) == Some(line@),
            None => startup_line(role, wanted, text::either(outcome)) is None,
        },
{
    match role {
        Role::Maker => if !wanted {
            Some(
                LogLine::info(
                    "Coinswap maker is off. Turn it on from the settings page.".to_string(),
                ),
            )
        } else {
            match outcome {
                Ok(_) => None,
                Err(error) => Some(
                    LogLine::error(
                        "The maker did not start: ".to_string().concat(error.as_str()).concat(
                            ". Fix it on the settings page.",
                        ),
                    ),
                ),
            }
        },
        Role::Taker => match outcome {
            Err(error) if wanted => Some(
                LogLine::error(
                    "The taker wallet did not open: ".to_string().concat(error.as_str()).concat(
                        ".",
                    ),
                ),
            ),
            _ => None,
        },
    }
}

/// A page the plugin has.
#[derive(Clone, Copy, PartialEq, Eq, Structural, Debug)]
pub enum Page {
    Dashboard,
    Taker,
}

impl Page {
    /// The name the host asks for the page by.
    pub fn id(self) -> (result: &'static str)
        ensures
            result@ == self.named(),
    {
        match self {
            Page::Dashboard => "dashboard",
            Page::Taker => "taker",
        }
    }

    /// The name the host asks for the page by.
    pub open spec fn named(self) -> Seq<char> {
        match self {
            Page::Dashboard => "dashboard"@,
            Page::Taker => "taker"@,
        }
    }

    /// The title the page is listed under.
    pub open spec fn titled(self) -> Seq<char> {
        match self {
            Page::Dashboard => "Maker dashboard"@,
            Page::Taker => "Taker wallet"@,
        }
    }

    /// The title the page is listed under.
    pub fn title(self) -> (result: &'static str)
        ensures
            result@ == self.titled(),
    {
        match self {
            Page::Dashboard => "Maker dashboard",
            Page::Taker => "Taker wallet",
        }
    }

    /// The page with this name. There is none for any other name, which is no error.
    pub fn find(id: &str) -> (result: Option<Page>)
        ensures
            match result {
                Some(page) => page.named() == id@,
                None => id@ != "dashboard"@ && id@ != "taker"@,
            },
            result is Some <==> id@ == Page::Dashboard.named() || id@ == Page::Taker.named(),
    {
        if same_text(id, "dashboard") {
            Some(Page::Dashboard)
        } else if same_text(id, "taker") {
            Some(Page::Taker)
        } else {
            None
        }
    }
}

/// The pages of the plugin, one per role, in the order in which they are listed.
pub fn pages() -> (result: Vec<Page>)
    ensures
        result@ == seq![Page::Dashboard, Page::Taker],
{
    let mut pages: Vec<Page> = Vec::new();
    pages.push(Page::Dashboard);
    pages.push(Page::Taker);
    assert(pages@ =~= seq![Page::Dashboard, Page::Taker]);
    pages
}

impl CoinswapPlugin {
    /// Takes note that the host has started the plugin, with these settings.
    pub fn attach(&mut self, settings: Settings)
        ensures
            final(self)@ == (PluginView {
                settings: Some(settings),
                attached: true,
                ..old(self)@
            }),
    {
        self.settings = Some(settings);
        self.attached = true;
    }

    /// Answers an event, as far as it needs nothing from outside.
    pub fn handle(&mut self, event: HostEvent, recovery_complete: Option<bool>, now: u64) -> (step:
        EventStep)
        ensures
            step@ == event_step(old(self)@, event, recovery_complete),
            final(self)@ == after_event(old(self)@, event, recovery_complete, now),
    {
        match event {
            HostEvent::SettingsUpdated { settings } => match self.save_settings(settings.clone()) {
                Ok(()) => EventStep::Saved { settings },
                Err(error) => EventStep::Refuse(error),
            },
            HostEvent::FormSubmitted { form_id, values } => EventStep::Form(
                self.submit_form(form_id.as_str(), &values),
            ),
            HostEvent::CommandInvoked { command } => EventStep::Command(
                self.run_command(command.as_str(), recovery_complete, now),
            ),
            HostEvent::Other => EventStep::Ignore,
        }
    }

    /// Keeps settings the operator submitted, unless the check finds a problem with them.
    pub fn save_settings(&mut self, updated: Settings) -> (result: Result<(), PluginError>)
        ensures
            match result {
                Ok(()) => updated.problem() is None,
                Err(error) => updated.problem() == Some(error.reason()),
            },
            final(self)@ == after_save(old(self)@, updated),
    {
        match updated.check() {
            Ok(()) => {
                self.settings = Some(updated);
                Ok(())
            },
            Err(problem) => Err(PluginError::InvalidInput(problem)),
        }
    }

    /// Answers a submitted form, as far as it needs nothing from outside.
    ///
    /// The numbers are parsed here rather than trusted to the host's own validation.
    pub fn submit_form(&mut self, form_id: &str, values: &Vec<(String, String)>) -> (step: FormStep)
        ensures
            step@ == form_step(old(self)@, form_id@, values_view(values@)),
            final(self)@ == (PluginView {
                taker: taker_after_form(old(self)@, form_id@, values_view(values@)),
                ..old(self)@
            }),
    {
        if same_text(form_id, "withdraw") {
            self.withdraw(values)
        } else if same_text(form_id, "quote") {
            self.request_quote(values)
        } else {
            FormStep::Refuse(
                PluginError::InvalidInput("unknown form: ".to_string().concat(form_id)),
            )
        }
    }

    /// Sends funds out of the taker wallet.
    pub fn withdraw(&self, values: &Vec<(String, String)>) -> (step: FormStep)
        ensures
            step@ == withdraw_step(self@, values_view(values@)),
    {
        if lookup(values, "sats").is_none() {
            return FormStep::Reply(
                report(Err("The amount is missing.".to_string()), "withdraw"),
            );
        }
        let sats: u64 = match lookup_number(values, "sats") {
            Some(sats) => sats,
            None => {
                let outcome = Err("The amount must be a whole number of sats.".to_string());
                return FormStep::Reply(report(outcome, "withdraw"));
            },
        };
        let withdrawal = match lookup(values, "address") {
            Some(address) => self.taker.withdraw(address.as_str(), sats),
            None => {
                proof {
                    reveal_strlit("");
                    assert(""@ =~= Seq::empty());
                }
                self.taker.withdraw("", sats)
            },
        };
        match withdrawal {
            Ok(address) => FormStep::Withdraw { address, sats },
            Err(why) => FormStep::Reply(report(Err(why), "withdraw")),
        }
    }

    /// Asks for a quote, parsing what the form sent.
    pub fn request_quote(&mut self, values: &Vec<(String, String)>) -> (step: FormStep)
        ensures
            step@ == quote_step(old(self)@, values_view(values@)),
            final(self)@ == (PluginView {
                taker: match asked_for(old(self)@, values_view(values@)) {
                    Some(params) if old(self)@.attached => taker::after_quote_request(
                        old(self)@.taker,
                        params,
                    ),
                    _ => old(self)@.taker,
                },
                ..old(self)@
            }),
    {
        let (sats, makers) = match (lookup_number(values, "sats"), lookup_number(values, "makers")) {
            (Some(sats), Some(makers)) => (sats, makers),
            _ => {
                let outcome = Err(
                    "The amount and the maker count must both be whole numbers.".to_string(),
                );
                return FormStep::Reply(report(outcome, "quote"));
            },
        };
        if !self.attached {
            let outcome = Err("The plugin has not finished starting yet.".to_string());
            return FormStep::Reply(report(outcome, "quote"));
        }
        let protocol = self.settings().taker_protocol.to_protocol_version();
        match self.taker.request_quote(sats, makers as usize, protocol) {
            Ok(params) => FormStep::Quote(params),
            Err(why) => FormStep::Reply(report(Err(why), "quote")),
        }
    }

    /// Builds the dashboard from what could be read of the maker, taking a new wallet's recovery
    /// phrase where there is one.
    pub fn dashboard(&mut self, readings: Option<MakerReadings>, now: u64) -> (result: Document)
        requires
            pages::amounts_fit(
                maker::status_of(old(self)@.maker, MakerReadings::view_of(readings)).swaps,
                now,
            ),
        ensures
            blocks::document_view(result) == old(self)@.dashboard(
                MakerReadings::view_of(readings),
                now,
            ),
            final(self)@ == old(self)@.maker_phrase_taken(),
    {
        let status = self.maker.status(readings);
        self.dashboard_of(&status, now)
    }

    /// Builds the dashboard where the amounts on it can be added up. Where they cannot, which takes
    /// more coins than there are, there is no page and the recovery phrase stays for later.
    pub fn try_dashboard(&mut self, readings: Option<MakerReadings>, now: u64) -> (result: Option<
        Document,
    >)
        ensures
            result is Some == pages::amounts_fit(
                maker::status_of(old(self)@.maker, MakerReadings::view_of(readings)).swaps,
                now,
            ),
            match result {
                Some(page) => blocks::document_view(page) == old(self)@.dashboard(
                    MakerReadings::view_of(readings),
                    now,
                ) && final(self)@ == old(self)@.maker_phrase_taken(),
                None => final(self)@ == old(self)@,
            },
    {
        let status = self.maker.status(readings);
        if pages::can_show(&status, now) {
            Some(self.dashboard_of(&status, now))
        } else {
            None
        }
    }

    fn dashboard_of(&mut self, status: &maker::Status, now: u64) -> (result: Document)
        requires
            pages::amounts_fit(status@.swaps, now),
        ensures
            blocks::document_view(result) == pages::dashboard_view(
                old(self)@.current(),
                status@,
                old(self)@.maker.lifecycle.new_mnemonic,
                old(self)@.maker.lifecycle.open,
                now,
            ),
            final(self)@ == old(self)@.maker_phrase_taken(),
    {
        let settings = self.settings();
        let phrase = self.maker.take_new_mnemonic();
        pages::dashboard(&settings, status, phrase, self.maker.wallet_open(), now)
    }

    /// Builds the taker wallet page from what could be read of the taker, taking a new wallet's
    /// recovery phrase where there is one.
    pub fn taker_page(&mut self, reading: Option<TakerReading>, now: u64) -> (result: Document)
        ensures
            blocks::document_view(result) == old(self)@.taker_page(reading, now),
            final(self)@ == old(self)@.taker_phrase_taken(),
    {
        let settings = self.settings();
        let status = self.taker.status(reading);
        let phrase = self.taker.take_new_mnemonic();
        pages::taker_page(
            &settings,
            &status,
            phrase,
            &self.taker.swap_state(),
            &self.taker.quote_state(),
            self.taker.wallet_open(),
            now,
        )
    }
}

/// Each role has a directory of its own: their names differ, and so does whatever is made by
/// putting them behind the same path.
pub proof fn the_roles_never_share_a_directory(root: Seq<char>)
    ensures
        Role::Maker.named() != Role::Taker.named(),
        root + Role::Maker.named() != root + Role::Taker.named(),
{
    reveal_strlit("maker");
    reveal_strlit("taker");
    assert("maker"@[0] == 'm' && "taker"@[0] == 't');
    assert((root + Role::Maker.named())[root.len() as int] == 'm');
    assert((root + Role::Taker.named())[root.len() as int] == 't');
}

/// What is stored after a save is what was submitted and what is in force from then on.
pub proof fn what_is_stored_is_in_force(
    state: PluginView,
    updated: Settings,
    recovery_complete: Option<bool>,
    now: u64,
)
    requires
        updated.problem() is None,
    ensures
        ({
            let event = HostEvent::SettingsUpdated { settings: updated };
            &&& event_step(state, event, recovery_complete) == (EventStepView::Saved {
                settings: updated,
            })
            &&& after_event(state, event, recovery_complete, now).current() == updated
        }),
{
}

/// The buttons of the dashboard go by the phase the maker itself is in and by whether its wallet is
/// open, whatever was read of it.
pub proof fn the_dashboard_shows_the_maker_as_it_is(
    state: PluginView,
    readings: Option<MakerReadingsView>,
    now: u64,
)
    ensures
        state.dashboard(readings, now).sections.last() == SectionView::Actions(
            ActionsView {
                title: Some("Operations"@),
                buttons: pages::command_buttons(
                    maker::status_of(state.maker, readings),
                    state.current(),
                    state.maker.lifecycle.open,
                ),
            },
        ),
        maker::status_of(state.maker, readings).phase == state.maker.lifecycle.phase,
{
}

/// A rejected save leaves the running settings, and everything else, untouched.
pub proof fn a_rejected_save_changes_nothing(state: PluginView, updated: Settings)
    requires
        updated.problem() is Some,
    ensures
        after_save(state, updated) == state,
{
}

/// Only a save changes the settings, and whatever happens they are ones that pass the check or
/// the ones there were before.
pub proof fn only_a_good_save_changes_the_settings(
    state: PluginView,
    event: HostEvent,
    recovery_complete: Option<bool>,
    now: u64,
)
    ensures
        ({
            let after = after_event(state, event, recovery_complete, now);
            after.settings != state.settings ==> event is SettingsUpdated
                && after.current().problem() is None
        }),
{
}

/// Whatever is cached by a save can be started with: the check that a start makes passes.
pub proof fn saved_settings_can_be_started(
    state: PluginView,
    updated: Settings,
    role: Role,
    live: bool,
)
    requires
        updated.problem() is None,
        role.wanted(updated),
    ensures
        after_save(state, updated).current() == updated,
        reconciliation(role, after_save(state, updated).current(), true, live)
            == (ReconcileStepView::Start { stop_first: live }),
{
}

/// A role is started only where the settings want it to run and pass the check, so one that is
/// off stays off whatever the other does.
pub proof fn only_what_is_wanted_and_checked_is_started(
    role: Role,
    settings: Settings,
    attached: bool,
    live: bool,
)
    requires
        reconciliation(role, settings, attached, live) is Start,
    ensures
        attached,
        role.wanted(settings),
        settings.problem() is None,
{
}

/// A role that is off and not live is left alone, even while the settings have a problem.
pub proof fn a_role_that_is_off_is_left_alone(role: Role, settings: Settings)
    requires
        !role.wanted(settings),
    ensures
        reconciliation(role, settings, true, false) matches ReconcileStepView::Done(outcome)
            && outcome is Ok,
{
}

/// A failure is logged as well as shown, a success is shown, and there is always a message.
pub proof fn a_failure_is_logged_as_well_as_shown(
    outcome: Result<Seq<char>, Seq<char>>,
    failed: Seq<char>,
)
    ensures
        match outcome {
            Ok(text) => reported(outcome, failed).contains(PluginActionView::success(text)),
            Err(text) => {
                &&& reported(outcome, failed).contains(PluginActionView::error(text))
                &&& exists|i: int|
                    0 <= i < reported(outcome, failed).len() && #[trigger] reported(
                        outcome,
                        failed,
                    )[i] is Log
            },
        },
{
    let actions = reported(outcome, failed);
    match outcome {
        Ok(text) => {
            assert(actions[0] == PluginActionView::success(text));
        },
        Err(text) => {
            assert(actions[0] is Log);
            assert(actions[1] == PluginActionView::error(text));
        },
    }
}

/// Before the host has started the plugin, nothing is started, stopped, swapped or quoted, and
/// the roles' wallets being shut, nothing is asked of them either.
pub proof fn nothing_is_done_before_the_start(
    defaults: Settings,
    command: Seq<char>,
    form_id: Seq<char>,
    values: Seq<(Seq<char>, Seq<char>)>,
    recovery_complete: Option<bool>,
    role: Role,
)
    requires
        !defaults.enabled,
    ensures
        ({
            let fresh = PluginView {
                maker: MakerView::fresh(),
                taker: TakerView::fresh(),
                settings: None,
                defaults,
                attached: false,
            };
            &&& command_step(fresh, command, recovery_complete) is Reply
            &&& form_step(fresh, form_id, values) is Reply || form_step(
                fresh,
                form_id,
                values,
            ) is Refuse
            &&& reconciliation(role, defaults, false, false) is Done
        }),
{
}

/// The button that dismisses a swap dismisses exactly that swap, by its tracker's key, while the
/// maker's wallet is open.
pub proof fn a_dismissal_reaches_its_swap(
    state: PluginView,
    swap: maker::SwapRecordView,
    recovery_complete: Option<bool>,
    now: u64,
)
    requires
        state.maker.lifecycle.open,
    ensures
        after_command(state, pages::dismiss_button(swap).command, recovery_complete, now) == (
        PluginView { maker: state.maker.without(swap.tracker_key), ..state }),
        command_step(state, pages::dismiss_button(swap).command, recovery_complete) == answered(
            Ok("Swap dismissed. Nothing on chain has changed."@),
            pages::dismiss_button(swap).command,
        ),
{
    let command = pages::dismiss_button(swap).command;
    let prefix = "dismiss-swap:"@;
    assert(command.take(prefix.len() as int) =~= prefix);
    assert(command.skip(prefix.len() as int) =~= swap.tracker_key);
    lemma_not_a_dismissal(command);
}

/// No command moves the maker between its phases or touches the settings: what does so is asked
/// for as a step, and only a dismissal changes what is remembered of the maker.
pub proof fn commands_leave_the_maker_running(
    state: PluginView,
    command: Seq<char>,
    recovery_complete: Option<bool>,
    now: u64,
)
    ensures
        after_command(state, command, recovery_complete, now).maker.lifecycle
            == state.maker.lifecycle,
        after_command(state, command, recovery_complete, now).settings == state.settings,
        after_command(state, command, recovery_complete, now).taker.lifecycle
            == state.taker.lifecycle,
        after_command(state, command, recovery_complete, now).maker != state.maker
            ==> text::after_prefix(command, "dismiss-swap:"@) is Some,
{
}

/// What bringing a role into line takes, whichever role it is. Before the plugin is attached it is
/// refused. A role whose own switch is off is stopped exactly if it is live, and is otherwise off
/// already. A role whose switch is on is started, and stopped first exactly if it is live, unless
/// the settings have a problem, which is then the answer.
pub proof fn a_role_is_brought_into_line(
    role: Role,
    settings: Settings,
    attached: bool,
    live: bool,
)
    ensures
        ({
            let switched_on = (role is Maker && settings.enabled) || (role is Taker
                && settings.taker_enabled);
            let step = reconciliation(role, settings, attached, live);
            &&& role.wanted(settings) <==> switched_on
            &&& step is Stop <==> attached && !switched_on && live
            &&& attached && !role.wanted(settings) && live ==> step is Stop
            &&& step is Start <==> attached && switched_on && settings.problem() is None
            &&& step is Start ==> step->stop_first == live
            &&& !attached ==> step is Done && step->Done_0 is Err
            &&& attached && !switched_on && !live ==> step is Done && step->Done_0 is Ok
            &&& attached && switched_on && settings.problem() is Some ==> step is Done
                && step->Done_0 == Err::<Seq<char>, Seq<char>>(settings.problem()->Some_0)
        }),
{
}

/// Whether a role is live is a matter of that role's own phase.
pub proof fn a_role_is_live_by_its_own_phase(state: PluginView)
    ensures
        state.live(Role::Maker) <==> state.maker.lifecycle.phase is Starting
            || state.maker.lifecycle.phase is Running,
        state.live(Role::Taker) <==> state.taker.lifecycle.phase is Starting
            || state.taker.lifecycle.phase is Running,
{
}

/// Neither role is touched on account of the other: with the same problem or none, what the maker
/// takes does not depend on the taker's switch, nor the other way round.
pub proof fn the_roles_are_reconciled_apart(
    one: Settings,
    other: Settings,
    attached: bool,
    live: bool,
)
    requires
        one.problem() == other.problem(),
    ensures
        one.enabled == other.enabled ==> reconciliation(Role::Maker, one, attached, live)
            == reconciliation(Role::Maker, other, attached, live),
        one.taker_enabled == other.taker_enabled ==> reconciliation(
            Role::Taker,
            one,
            attached,
            live,
        ) == reconciliation(Role::Taker, other, attached, live),
{
}

/// The settings in force are those that were loaded or saved, and the defaults until then.
pub proof fn the_settings_in_force(state: PluginView, settings: Settings)
    ensures
        state.settings == Some(settings) ==> state.current() == settings,
        state.settings is None ==> state.current() == state.defaults,
{
}

/// Whether some actions are the answer that says no: one line in the log, as an error and with the
/// reason in it, and the same reason shown as an error.
pub open spec fn says_no(actions: Seq<PluginActionView>, why: Seq<char>) -> bool {
    &&& actions.len() == 2
    &&& actions[0] is Log
    &&& actions[0]->Log_level is Error
    &&& text::mentions(actions[0]->message, why)
    &&& actions[1] is ShowMessage
    &&& actions[1]->ShowMessage_level is Error
    &&& actions[1]->text == why
}

/// Whether some actions are the answer that says yes: a message that shows the text as a success.
pub open spec fn says_yes(actions: Seq<PluginActionView>, text: Seq<char>) -> bool {
    &&& actions.len() == 1
    &&& actions[0] is ShowMessage
    &&& actions[0]->ShowMessage_level is Success
    &&& actions[0]->text == text
}

/// A success is shown as it is and nothing else is done. A failure is shown as it is, after a line
/// in the log that holds both it and what failed, which for a command is the command itself.
pub proof fn outcomes_are_reported_in_full(
    outcome: Result<Seq<char>, Seq<char>>,
    failed: Seq<char>,
    command: Seq<char>,
)
    ensures
        outcome matches Ok(text) ==> says_yes(reported(outcome, failed), text),
        outcome matches Err(why) ==> says_no(reported(outcome, failed), why) && text::mentions(
            reported(outcome, failed)[0]->message,
            failed,
        ),
        text::mentions(command_name(command), command),
        answered(outcome, command) is Reply,
        outcome matches Ok(text) ==> says_yes(answered(outcome, command)->Reply_0, text),
        outcome matches Err(why) ==> says_no(answered(outcome, command)->Reply_0, why)
            && text::mentions(answered(outcome, command)->Reply_0[0]->message, command),
{
    broadcast use {text::lemma_mentions_end, text::lemma_mentions_front};

    text::lemma_mentions_itself(failed);
    if let Err(why) = outcome {
        let name = command_name(command);
        let front = "Command '"@;
        let rest = "'"@ + " failed: "@ + why;
        assert(name + " failed: "@ + why =~= front + command + rest);
        text::lemma_mentions_front(front + command, rest, command);
    }
}

/// The commands that have a name of their own are told apart.
proof fn lemma_commands_differ()
    ensures
        "start"@ != "stop"@,
        "start"@ != "accept-quote"@ && "stop"@ != "accept-quote"@,
        "start"@ != "clear-swap"@ && "stop"@ != "clear-swap"@ && "accept-quote"@ != "clear-swap"@,
        "start"@ != "discard-quote"@ && "stop"@ != "discard-quote"@,
        "accept-quote"@ != "discard-quote"@ && "clear-swap"@ != "discard-quote"@,
        "start"@ != "taker-address"@ && "stop"@ != "taker-address"@,
        "accept-quote"@ != "taker-address"@ && "clear-swap"@ != "taker-address"@,
        "discard-quote"@ != "taker-address"@,
        "start"@ != "address"@ && "stop"@ != "address"@ && "accept-quote"@ != "address"@,
        "clear-swap"@ != "address"@ && "discard-quote"@ != "address"@,
        "taker-address"@ != "address"@,
        "start"@ != "drain"@ && "stop"@ != "drain"@ && "accept-quote"@ != "drain"@,
        "clear-swap"@ != "drain"@ && "discard-quote"@ != "drain"@ && "taker-address"@ != "drain"@,
        "address"@ != "drain"@,
{
    reveal_strlit("start");
    reveal_strlit("stop");
    reveal_strlit("accept-quote");
    reveal_strlit("clear-swap");
    reveal_strlit("discard-quote");
    reveal_strlit("taker-address");
    reveal_strlit("address");
    reveal_strlit("drain");
    assert("start"@[0] == 's' && "drain"@[0] == 'd');
    assert("discard-quote"@[0] == 'd' && "taker-address"@[0] == 't');
    assert("start"@.len() == 5 && "stop"@.len() == 4 && "accept-quote"@.len() == 12);
    assert("clear-swap"@.len() == 10 && "discard-quote"@.len() == 13);
    assert("taker-address"@.len() == 13 && "address"@.len() == 7 && "drain"@.len() == 5);
}

/// Starting brings the maker into line exactly if its switch is on, and otherwise says where to
/// turn it on. Stopping stops the maker exactly if the plugin is attached. Neither changes anything
/// by itself.
pub proof fn what_starting_and_stopping_take(
    state: PluginView,
    recovery_complete: Option<bool>,
    now: u64,
)
    ensures
        ({
            let start = command_step(state, "start"@, recovery_complete);
            let stop = command_step(state, "stop"@, recovery_complete);
            &&& start is ReconcileMaker <==> state.current().enabled
            &&& !state.current().enabled ==> start is Reply && says_no(
                start->Reply_0,
                "Turn on \"Run the maker\" on the settings page first."@,
            )
            &&& stop is StopMaker <==> state.attached
            &&& !state.attached ==> stop is Reply && says_no(
                stop->Reply_0,
                "The plugin has not finished starting yet."@,
            )
        }),
        after_command(state, "start"@, recovery_complete, now) == state,
        after_command(state, "stop"@, recovery_complete, now) == state,
{
    broadcast use {text::lemma_mentions_end, text::lemma_mentions_front};

    lemma_commands_differ();
    lemma_not_a_dismissal("start"@);
    lemma_not_a_dismissal("stop"@);
}

/// Accepting runs the swap of the quote at hand, by its full identifier, exactly if the plugin is
/// attached, the wallet is open, a quote is ready, no swap is running and no recovery is known to be
/// pending. The quote is then gone and the swap running since now. Otherwise nothing changes and
/// the answer says no.
pub proof fn what_accepting_takes(state: PluginView, recovery_complete: Option<bool>, now: u64)
    ensures
        ({
            let step = command_step(state, "accept-quote"@, recovery_complete);
            let after = after_command(state, "accept-quote"@, recovery_complete, now);
            let can = state.attached && state.taker.lifecycle.open && state.taker.quote is Ready && !(
            state.taker.swap is Running) && recovery_complete != Some(false);
            &&& step is RunSwap <==> can
            &&& can ==> {
                &&& step->RunSwap_0 == state.taker.quote->Ready_0.swap_id
                &&& after.taker.quote is Idle
                &&& after.taker.swap == (taker::SwapStateView::Running {
                    swap_id: state.taker.quote->Ready_0.swap_id,
                    since: now,
                })
                &&& after.taker.lifecycle == state.taker.lifecycle
                &&& after.maker == state.maker && after.settings == state.settings
                &&& after.defaults == state.defaults && after.attached
            }
            &&& !can ==> {
                &&& after == state
                &&& step is Reply
                &&& step->Reply_0.len() == 2
                &&& says_no(step->Reply_0, step->Reply_0[1]->text)
            }
        }),
{
    broadcast use {text::lemma_mentions_end, text::lemma_mentions_front};

    lemma_commands_differ();
}

/// Clearing a swap clears it exactly if it is not running, and discarding a quote discards it. Each
/// leaves everything else alone and says what it did.
pub proof fn what_clearing_takes(state: PluginView, recovery_complete: Option<bool>, now: u64)
    ensures
        ({
            let clear = command_step(state, "clear-swap"@, recovery_complete);
            let cleared = after_command(state, "clear-swap"@, recovery_complete, now);
            let discard = command_step(state, "discard-quote"@, recovery_complete);
            let discarded = after_command(state, "discard-quote"@, recovery_complete, now);
            &&& clear is Reply && discard is Reply
            &&& state.taker.swap is Running ==> cleared == state && says_no(
                clear->Reply_0,
                "That swap is still running."@,
            )
            &&& !(state.taker.swap is Running) ==> {
                &&& cleared == (PluginView {
                    taker: TakerView { swap: taker::SwapStateView::Idle, ..state.taker },
                    ..state
                })
                &&& says_yes(clear->Reply_0, "Cleared. Request a new quote when you want one."@)
            }
            &&& discarded == (PluginView {
                taker: TakerView { quote: taker::QuoteStateView::Idle, ..state.taker },
                ..state
            })
            &&& says_yes(discard->Reply_0, "Quote discarded."@)
        }),
{
    broadcast use {text::lemma_mentions_end, text::lemma_mentions_front};

    lemma_commands_differ();
}

/// An address is asked of the wallet the command is about, and idle swaps are drained, exactly if
/// that role's wallet is open. Otherwise the answer says no. Nothing changes either way.
pub proof fn what_asking_a_wallet_takes(
    state: PluginView,
    recovery_complete: Option<bool>,
    now: u64,
)
    ensures
        ({
            let taker = command_step(state, "taker-address"@, recovery_complete);
            let maker = command_step(state, "address"@, recovery_complete);
            let drain = command_step(state, "drain"@, recovery_complete);
            &&& taker is TakerAddress <==> state.taker.lifecycle.open
            &&& maker is MakerAddress <==> state.maker.lifecycle.open
            &&& drain is Drain <==> state.maker.lifecycle.open
            &&& !state.taker.lifecycle.open ==> taker is Reply && says_no(
                taker->Reply_0,
                "The taker wallet is not open. Turn the taker on from the settings page."@,
            )
            &&& !state.maker.lifecycle.open ==> maker is Reply && says_no(
                maker->Reply_0,
                "The maker's wallet is not open yet. Start the maker, and if it fails, its wallet stays open so this will work."@,
            )
            &&& !state.maker.lifecycle.open ==> drain is Reply && says_no(
                drain->Reply_0,
                "The maker is not running."@,
            )
        }),
        after_command(state, "taker-address"@, recovery_complete, now) == state,
        after_command(state, "address"@, recovery_complete, now) == state,
        after_command(state, "drain"@, recovery_complete, now) == state,
{
    broadcast use {text::lemma_mentions_end, text::lemma_mentions_front};

    lemma_commands_differ();
    lemma_not_a_dismissal("taker-address"@);
    lemma_not_a_dismissal("address"@);
    lemma_not_a_dismissal("drain"@);
}

/// A dismissal takes exactly the swap with the key in it off the dashboard, exactly if the maker's
/// wallet is open, and says so.
pub proof fn what_dismissing_takes(
    state: PluginView,
    key: Seq<char>,
    other: Seq<char>,
    recovery_complete: Option<bool>,
    now: u64,
)
    ensures
        ({
            let command = "dismiss-swap:"@ + key;
            let step = command_step(state, command, recovery_complete);
            let after = after_command(state, command, recovery_complete, now);
            &&& step is Reply
            &&& state.maker.lifecycle.open ==> {
                &&& after.maker.dismissed.contains(other) <==> other == key
                    || state.maker.dismissed.contains(other)
                &&& says_yes(step->Reply_0, "Swap dismissed. Nothing on chain has changed."@)
            }
            &&& !state.maker.lifecycle.open ==> after == state && says_no(
                step->Reply_0,
                "The maker is not running."@,
            )
            &&& after.maker.lifecycle == state.maker.lifecycle
            &&& after.taker == state.taker && after.settings == state.settings
            &&& after.defaults == state.defaults && after.attached == state.attached
        }),
{
    broadcast use {text::lemma_mentions_end, text::lemma_mentions_front};

    let command = "dismiss-swap:"@ + key;
    text::removing_a_prefix_undoes_adding_it(command, "dismiss-swap:"@, key);
    lemma_not_a_dismissal(command);
}

/// Any other command is refused as unknown, by its name, and changes nothing.
pub proof fn an_unknown_command_is_refused(
    state: PluginView,
    command: Seq<char>,
    recovery_complete: Option<bool>,
    now: u64,
)
    requires
        command != "start"@ && command != "stop"@ && command != "accept-quote"@,
        command != "clear-swap"@ && command != "discard-quote"@,
        command != "taker-address"@ && command != "address"@ && command != "drain"@,
        forall|key: Seq<char>| command != #[trigger] ("dismiss-swap:"@ + key),
    ensures
        ({
            let step = command_step(state, command, recovery_complete);
            &&& step is Reply
            &&& says_no(step->Reply_0, "Unknown command: "@ + command)
        }),
        after_command(state, command, recovery_complete, now) == state,
{
    broadcast use {text::lemma_mentions_end, text::lemma_mentions_front};

    let prefix = "dismiss-swap:"@;
    if let Some(key) = text::after_prefix(command, prefix) {
        text::removing_a_prefix_undoes_adding_it(command, prefix, key);
        assert(command == prefix + key);
    }
}

/// The operator is told of a role that was switched on or off in four and two different ways, so
/// that a role that did not finish is not reported as stopped, nor one role as the other.
pub proof fn switching_is_told_apart(
    one: Role,
    finished: bool,
    other: Role,
    other_finished: bool,
    dir: Seq<char>,
    error: Seq<char>,
)
    ensures
        off_text(one, finished) == off_text(other, other_finished) <==> one == other && finished
            == other_finished,
        on_text(one) == on_text(other) <==> one == other,
        text::mentions(directory_text(one, dir, error), dir),
        text::mentions(directory_text(one, dir, error), error),
        text::mentions(directory_text(one, dir, error), one.named()),
        off_text(Role::Maker, true) == "Maker stopped."@,
        off_text(Role::Taker, true) == "Taker wallet closed."@,
{
    broadcast use {text::lemma_mentions_end, text::lemma_mentions_front};

    reveal_strlit("Maker stopped.");
    reveal_strlit("Maker was asked to stop but did not finish in time.");
    reveal_strlit("Taker wallet closed.");
    reveal_strlit("Taker wallet was asked to close but did not finish in time.");
    reveal_strlit("Maker is starting. Reload the dashboard to see it come up.");
    reveal_strlit("Taker wallet is opening. Reload the taker page to see it.");
    assert(off_text(Role::Maker, true).len() == 14);
    assert(off_text(Role::Maker, false).len() == 51);
    assert(off_text(Role::Taker, true).len() == 20);
    assert(off_text(Role::Taker, false).len() == 59);
    assert(on_text(Role::Maker)[0] == 'M' && on_text(Role::Taker)[0] == 'T');
}

/// What came of a command is reported as a success exactly if it was one, with what the operator
/// needs of it: the deadline that a stop missed, the start of the swap's identifier, the address,
/// the count, the transaction, or the reason.
pub proof fn what_came_of_a_command_is_told(
    finished: bool,
    spawned: Result<Seq<char>, Seq<char>>,
    reply: taker::WalletReplyView,
    reading: runtime::AddressReadingView,
    drained: Result<usize, Seq<char>>,
    prepared: Result<(), Seq<char>>,
)
    ensures
        stop_text(finished) is Ok <==> finished,
        !finished ==> text::mentions(stop_text(finished)->Err_0, text::decimal(30)),
        swap_text(spawned) is Ok <==> spawned is Ok,
        spawned matches Ok(id) ==> text::mentions(swap_text(spawned)->Ok_0, text::shortened(id, 16)),
        spawned matches Err(why) ==> swap_text(spawned)->Err_0 == why,
        taker_address_text(reply) is Ok <==> reply is Answer,
        withdraw_text(reply) is Ok <==> reply is Answer,
        reply matches taker::WalletReplyView::Answer(answer) ==> text::mentions(
            taker_address_text(reply)->Ok_0,
            answer,
        ) && text::mentions(withdraw_text(reply)->Ok_0, answer),
        reply matches taker::WalletReplyView::Refused(why) ==> text::mentions(
            taker_address_text(reply)->Err_0,
            why,
        ) && text::mentions(withdraw_text(reply)->Err_0, why),
        maker_address_text(reading) is Ok <==> reading is Address,
        reading matches runtime::AddressReadingView::Address(address) ==> text::mentions(
            maker_address_text(reading)->Ok_0,
            address,
        ),
        reading matches runtime::AddressReadingView::Refused(why) ==> text::mentions(
            maker_address_text(reading)->Err_0,
            why,
        ),
        drain_text(drained) is Ok <==> drained is Ok,
        drained matches Ok(count) ==> if count == 0 {
            drain_text(drained)->Ok_0 == "No idle swaps needed draining."@
        } else {
            text::mentions(drain_text(drained)->Ok_0, text::decimal(count as nat))
        },
        drained matches Err(why) ==> text::mentions(drain_text(drained)->Err_0, why),
        quote_text(prepared) is Ok <==> prepared is Ok,
        prepared matches Err(why) ==> quote_text(prepared)->Err_0 == why,
{
    broadcast use {text::lemma_mentions_end, text::lemma_mentions_front};

}

/// What counts as submitted under a key is the first value under it, and nothing where there is
/// none.
pub proof fn the_first_value_under_a_key_counts(
    values: Seq<(Seq<char>, Seq<char>)>,
    key: Seq<char>,
    at: int,
)
    requires
        0 <= at <= values.len(),
        forall|i: int| 0 <= i < at ==> (#[trigger] values[i]).0 != key,
    ensures
        at == values.len() ==> submitted(values, key) is None,
        at < values.len() && values[at].0 == key ==> submitted(values, key) == Some(values[at].1),
    decreases values.len(),
{
    if values.len() > 0 && at > 0 {
        assert(values[0].0 != key);
        let rest = values.skip(1);
        assert forall|i: int| 0 <= i < at - 1 implies (#[trigger] rest[i]).0 != key by {
            assert(rest[i] == values[i + 1]);
        }
        the_first_value_under_a_key_counts(rest, key, at - 1);
    }
}

/// A number that was submitted is read as that number, with white space around it or not, and what
/// is no number, or was not submitted, is not read as one.
pub proof fn submitted_numbers_are_read(
    values: Seq<(Seq<char>, Seq<char>)>,
    key: Seq<char>,
    before: Seq<char>,
    number: u64,
    after: Seq<char>,
)
    requires
        forall|i: int| 0 <= i < before.len() ==> text::is_white_space(#[trigger] before[i]),
        forall|i: int| 0 <= i < after.len() ==> text::is_white_space(#[trigger] after[i]),
    ensures
        submitted(values, key) == Some(before + text::decimal(number as nat) + after)
            ==> submitted_number(values, key) == Some(number),
        submitted(values, key) is None ==> submitted_number(values, key) is None,
        submitted_number(values, key) is Some ==> {
            let written = text::trimmed(submitted(values, key)->Some_0);
            &&& written.len() > 0
            &&& forall|i: int|
                0 <= i < written.len() ==> 48 <= #[trigger] written[i] as nat <= 57 || (i == 0
                    && written[i] == '+')
        },
{
    let digits = text::decimal(number as nat);
    text::white_space_around_does_not_matter(before, digits, after);
    text::numbers_are_read_from_digits(digits, number as nat, u64::MAX);
    if digits.len() == 0 {
        assert(digits =~= Seq::empty());
    }
    text::plain_white_space(digits[0]);
    text::plain_white_space(digits.last());
    text::a_tidy_text_is_not_trimmed(digits);
    if let Some(raw) = submitted(values, key) {
        text::numbers_are_read_from_digits(text::trimmed(raw), number as nat, u64::MAX);
        if text::trimmed(raw).len() == 0 {
            assert(text::trimmed(raw) =~= Seq::empty());
        }
    }
}

/// A withdrawal of a submitted amount to a submitted destination is asked for exactly if the amount
/// is a number above zero, the destination is not blank and the wallet is open, and it is then that
/// amount to that destination. Otherwise the answer says no. Nothing changes either way.
pub proof fn what_a_withdrawal_takes(
    state: PluginView,
    values: Seq<(Seq<char>, Seq<char>)>,
    to: Seq<char>,
)
    ensures
        ({
            let step = form_step(state, "withdraw"@, values);
            let amount = submitted_number(values, "sats"@);
            let given = submitted(values, "address"@);
            &&& step is Withdraw <==> amount is Some && amount->Some_0 > 0 && given is Some
                && text::trimmed(given->Some_0).len() > 0 && state.taker.lifecycle.open
            &&& step is Withdraw ==> step->sats == amount->Some_0 && step->address
                == text::trimmed(given->Some_0)
            &&& step is Withdraw && given == Some(to) && !text::is_white_space(to[0])
                && !text::is_white_space(to.last()) ==> step->address == to
            &&& !(step is Withdraw) ==> {
                &&& step is Reply
                &&& step->Reply_0.len() == 2
                &&& says_no(step->Reply_0, step->Reply_0[1]->text)
            }
            &&& submitted(values, "sats"@) is None ==> says_no(
                step->Reply_0,
                "The amount is missing."@,
            )
            &&& submitted(values, "sats"@) is Some && amount is None ==> says_no(
                step->Reply_0,
                "The amount must be a whole number of sats."@,
            )
        }),
        taker_after_form(state, "withdraw"@, values) == state.taker,
{
    broadcast use {text::lemma_mentions_end, text::lemma_mentions_front};

    text::trimming_cuts_white_space_off_the_ends(Seq::empty());
    if to.len() > 0 && !text::is_white_space(to[0]) && !text::is_white_space(to.last()) {
        text::a_tidy_text_is_not_trimmed(to);
    } else if to.len() == 0 {
        assert(to =~= Seq::empty());
    }
    let empty = Seq::<char>::empty();
    assert(text::trimmed(empty).len() == 0) by {
        let from = choose|from: int|
            #[trigger] text::stands_at(empty, text::trimmed(empty), from);
        assert(text::stands_at(empty, text::trimmed(empty), from));
    }
}

/// A quote is asked for exactly if the amount and the count of makers are numbers above zero, the
/// plugin is attached, the wallet is open, no quote is being prepared and no swap is running. It is
/// then for that amount over that many makers by the chosen protocol, and being prepared from then
/// on. Otherwise the answer says no and nothing changes.
pub proof fn what_a_quote_takes(state: PluginView, values: Seq<(Seq<char>, Seq<char>)>)
    ensures
        ({
            let step = form_step(state, "quote"@, values);
            let after = taker_after_form(state, "quote"@, values);
            let amount = submitted_number(values, "sats"@);
            let makers = submitted_number(values, "makers"@);
            let can = amount is Some && makers is Some && amount->Some_0 > 0
                && (makers->Some_0 as usize) > 0 && state.attached && state.taker.lifecycle.open && !(
            state.taker.quote is Preparing) && !(state.taker.swap is Running);
            &&& step is Quote <==> can
            &&& can ==> {
                &&& step->Quote_0.send_sat == amount->Some_0
                &&& step->Quote_0.maker_count == makers->Some_0 as usize
                &&& step->Quote_0.protocol == state.current().taker_protocol.protocol_version()
                &&& after == (TakerView {
                    quote: taker::QuoteStateView::Preparing,
                    ..state.taker
                })
            }
            &&& !can ==> {
                &&& after == state.taker
                &&& step is Reply
                &&& step->Reply_0.len() == 2
                &&& says_no(step->Reply_0, step->Reply_0[1]->text)
            }
            &&& amount is None || makers is None ==> says_no(
                step->Reply_0,
                "The amount and the maker count must both be whole numbers."@,
            )
        }),
{
    broadcast use {text::lemma_mentions_end, text::lemma_mentions_front};

    reveal_strlit("withdraw");
    reveal_strlit("quote");
    assert("withdraw"@.len() == 8 && "quote"@.len() == 5);
}

/// Any other form is refused, by its name, and changes nothing.
pub proof fn an_unknown_form_is_refused(
    state: PluginView,
    form_id: Seq<char>,
    values: Seq<(Seq<char>, Seq<char>)>,
)
    requires
        form_id != "withdraw"@,
        form_id != "quote"@,
    ensures
        form_step(state, form_id, values) is Refuse,
        form_step(state, form_id, values)->Refuse_0 == "unknown form: "@ + form_id,
        taker_after_form(state, form_id, values) == state.taker,
{
}

/// Every event is taken for what it is. Settings that pass the check are kept and handed on,
/// others are refused with the problem and change nothing. A form is taken as a form and changes
/// the taker alone, a command as a command. What does not concern the plugin changes nothing.
pub proof fn events_are_taken_for_what_they_are(
    state: PluginView,
    event: HostEvent,
    recovery_complete: Option<bool>,
    now: u64,
)
    ensures
        ({
            let step = event_step(state, event, recovery_complete);
            let after = after_event(state, event, recovery_complete, now);
            &&& event matches HostEvent::SettingsUpdated { settings } ==> {
                &&& settings.problem() is None ==> step is Saved && step->settings == settings
                    && after == (PluginView { settings: Some(settings), ..state })
                &&& settings.problem() is Some ==> step is Refuse && step->Refuse_0
                    == settings.problem()->Some_0 && after == state
            }
            &&& event matches HostEvent::FormSubmitted { form_id, values } ==> {
                &&& step is Form
                &&& step->Form_0 == form_step(state, form_id@, values_view(values@))
                &&& after == (PluginView { taker: after.taker, ..state })
                &&& after.taker == taker_after_form(state, form_id@, values_view(values@))
            }
            &&& event matches HostEvent::CommandInvoked { command } ==> {
                &&& step is Command
                &&& step->Command_0 == command_step(state, command@, recovery_complete)
                &&& after == after_command(state, command@, recovery_complete, now)
            }
            &&& event is Other ==> step is Ignore && after == state
        }),
{
}

/// What was submitted is seen pair by pair, keys as keys and values as values.
pub proof fn submissions_are_seen_pair_by_pair(values: Seq<(String, String)>, at: int)
    ensures
        values_view(values).len() == values.len(),
        0 <= at < values.len() ==> values_view(values)[at].0 == values[at].0@
            && values_view(values)[at].1 == values[at].1@,
{
}

/// After a save exactly the settings that were kept are stored, and the operator hears of both
/// roles, first of the maker: as a success what came of it, as an error which role it was and why.
pub proof fn a_save_is_reported_for_both_roles(
    settings: Settings,
    maker: Result<Seq<char>, Seq<char>>,
    taker: Result<Seq<char>, Seq<char>>,
)
    ensures
        ({
            let actions = save_actions(settings, maker, taker);
            &&& actions.len() == 3
            &&& actions[0] is SaveSettings && actions[0]->settings == settings
            &&& actions[1] is ShowMessage && actions[2] is ShowMessage
            &&& actions[1]->ShowMessage_level is Success <==> maker is Ok
            &&& actions[2]->ShowMessage_level is Success <==> taker is Ok
            &&& maker matches Ok(text) ==> actions[1]->text == text
            &&& taker matches Ok(text) ==> actions[2]->text == text
            &&& maker matches Err(why) ==> text::mentions(actions[1]->text, why) && text::mentions(
                actions[1]->text,
                "maker"@,
            )
            &&& taker matches Err(why) ==> text::mentions(actions[2]->text, why) && text::mentions(
                actions[2]->text,
                "taker"@,
            )
        }),
{
    broadcast use {text::lemma_mentions_end, text::lemma_mentions_front};

}

/// At the start an error is logged, with its reason, exactly if a role that is wanted did not come
/// up. Of a maker that is not wanted it is said that it is off, of a taker nothing.
pub proof fn what_is_logged_at_the_start(
    role: Role,
    wanted: bool,
    outcome: Result<Seq<char>, Seq<char>>,
)
    ensures
        ({
            let line = startup_line(role, wanted, outcome);
            &&& line is Some <==> (wanted && outcome is Err) || (!wanted && role is Maker)
            &&& line is Some ==> (line->Some_0.is_error <==> wanted)
            &&& wanted ==> (outcome matches Err(why) ==> text::mentions(line->Some_0.text, why))
            &&& !wanted && role is Maker ==> line->Some_0.text
                == "Coinswap maker is off. Turn it on from the settings page."@
        }),
{
    broadcast use {text::lemma_mentions_end, text::lemma_mentions_front};

}

/// The pages and the roles have names of their own, and the page the notifications send the operator
/// to is the dashboard.
pub proof fn pages_and_roles_are_told_apart(page: Page, other: Page, role: Role, another: Role)
    ensures
        page.named() == other.named() <==> page == other,
        page.titled() == other.titled() <==> page == other,
        role.named() == another.named() <==> role == another,
        Page::Dashboard.named() == "dashboard"@,
        Page::Taker.named() == "taker"@,
        Role::Maker.named() == "maker"@,
        Role::Taker.named() == "taker"@,
        DASHBOARD_LINK@ == "/plugins/btcpayserver-plugins-coinswap/"@ + Page::Dashboard.named(),
{
    reveal_strlit("dashboard");
    reveal_strlit("taker");
    reveal_strlit("maker");
    reveal_strlit("Maker dashboard");
    reveal_strlit("Taker wallet");
    reveal_strlit("/plugins/btcpayserver-plugins-coinswap/dashboard");
    reveal_strlit("/plugins/btcpayserver-plugins-coinswap/");
    assert("dashboard"@[0] == 'd' && "taker"@[0] == 't' && "maker"@[0] == 'm');
    assert("Maker dashboard"@[0] == 'M' && "Taker wallet"@[0] == 'T');
    assert(DASHBOARD_LINK@ =~= "/plugins/btcpayserver-plugins-coinswap/"@ + "dashboard"@);
}

/// A page shows its own role's phrase if there is one, which is gone afterwards, and goes by that
/// role's own state, the settings in force and the time. Showing it changes nothing else.
pub proof fn pages_go_by_their_own_role(
    state: PluginView,
    readings: Option<MakerReadingsView>,
    reading: Option<TakerReading>,
    now: u64,
)
    ensures
        state.dashboard(readings, now) == pages::dashboard_view(
            state.current(),
            maker::status_of(state.maker, readings),
            state.maker.lifecycle.new_mnemonic,
            state.maker.lifecycle.open,
            now,
        ),
        state.taker_page(reading, now).sections.len() >= 2,
        state.taker.lifecycle.new_mnemonic matches Some(words) ==> state.taker_page(
            reading,
            now,
        ).sections.take(2) == pages::taker_phrase(Some(words)),
        state.maker.lifecycle.new_mnemonic matches Some(words) ==> state.dashboard(
            readings,
            now,
        ).sections.take(2) == pages::maker_phrase(Some(words)),
        state.maker_phrase_taken().maker.lifecycle.new_mnemonic is None,
        state.taker_phrase_taken().taker.lifecycle.new_mnemonic is None,
        state.maker_phrase_taken().maker.lifecycle == (crate::lifecycle::LifecycleView {
            new_mnemonic: None,
            ..state.maker.lifecycle
        }),
        state.maker_phrase_taken().maker.dismissed == state.maker.dismissed,
        state.maker_phrase_taken() == (PluginView {
            maker: state.maker_phrase_taken().maker,
            ..state
        }),
        state.taker_phrase_taken().taker == (TakerView {
            lifecycle: crate::lifecycle::LifecycleView {
                new_mnemonic: None,
                ..state.taker.lifecycle
            },
            ..state.taker
        }),
        state.taker_phrase_taken() == (PluginView {
            taker: state.taker_phrase_taken().taker,
            ..state
        }),
{
    if let Some(words) = state.taker.lifecycle.new_mnemonic {
        assert(state.taker_page(reading, now).sections.take(2) =~= pages::taker_phrase(
            Some(words),
        ));
    }
    if let Some(words) = state.maker.lifecycle.new_mnemonic {
        assert(state.dashboard(readings, now).sections.take(2) =~= pages::maker_phrase(
            Some(words),
        ));
    }
}

/// What the operator is told about a role is said of that role, and the pages are listed under
/// their own titles.
pub proof fn what_is_said_of_a_role(
    role: Role,
    settings: Settings,
    dir: Seq<char>,
    error: Seq<char>,
)
    ensures
        off_text(Role::Maker, true) == "Maker stopped."@,
        off_text(Role::Maker, false) == "Maker was asked to stop but did not finish in time."@,
        off_text(Role::Taker, true) == "Taker wallet closed."@,
        off_text(Role::Taker, false)
            == "Taker wallet was asked to close but did not finish in time."@,
        on_text(Role::Maker) == "Maker is starting. Reload the dashboard to see it come up."@,
        on_text(Role::Taker) == "Taker wallet is opening. Reload the taker page to see it."@,
        directory_text(role, dir, error) == "Could not create the "@ + role.named()
            + " directory at "@ + dir + ": "@ + error,
        reconciliation(role, settings, false, true)->Done_0->Err_0
            == "The plugin has not finished starting yet."@,
        !settings.enabled ==> reconciliation(
            Role::Maker,
            settings,
            true,
            false,
        )->Done_0->Ok_0 == "Maker is off."@,
        !settings.taker_enabled ==> reconciliation(
            Role::Taker,
            settings,
            true,
            false,
        )->Done_0->Ok_0 == "Taker is off."@,
        startup_line(Role::Maker, true, Err(error))->Some_0.text == "The maker did not start: "@
            + error + ". Fix it on the settings page."@,
        startup_line(Role::Taker, true, Err(error))->Some_0.text
            == "The taker wallet did not open: "@ + error + "."@,
        save_message(role, Err(error))->text == "Settings saved, but the "@ + role.named()
            + " did not start: "@ + error,
        stop_text(true) == Ok::<Seq<char>, Seq<char>>("Maker stopped."@),
        Page::Dashboard.titled() == "Maker dashboard"@,
        Page::Taker.titled() == "Taker wallet"@,
{
}

/// A command that waits inside the operator's request does so for less time than a stop may take.
pub proof fn a_drain_waits_less_than_a_stop()
    ensures
        DRAIN_TIMEOUT < STOP_DEADLINE,
        DRAIN_TIMEOUT == 20,
        STOP_DEADLINE == 30,
{
}

/// What the host is asked to do, and what a step takes, is taken as it is.
pub proof fn actions_and_steps_are_taken_as_they_are(
    actions: Seq<PluginAction>,
    at: int,
    reconcile: ReconcileStep,
    command: CommandStep,
    form: FormStep,
    event: EventStep,
)
    ensures
        PluginActionView::of(actions).len() == actions.len(),
        0 <= at < actions.len() ==> {
            let action = PluginActionView::of(actions)[at];
            &&& actions[at] matches PluginAction::ShowMessage { level, text } ==> action == (
            PluginActionView::ShowMessage { level, text: text@ })
            &&& actions[at] matches PluginAction::Log { level, message } ==> action == (
            PluginActionView::Log { level, message: message@ })
            &&& actions[at] matches PluginAction::SaveSettings { settings } ==> action == (
            PluginActionView::SaveSettings { settings })
        },
        reconcile@ is Stop <==> reconcile is Stop,
        reconcile matches ReconcileStep::Start { stop_first } ==> reconcile@ == (
        ReconcileStepView::Start { stop_first }),
        reconcile matches ReconcileStep::Done(outcome) ==> reconcile@ == ReconcileStepView::Done(
            text::either(outcome),
        ),
        command@ is ReconcileMaker <==> command is ReconcileMaker,
        command@ is StopMaker <==> command is StopMaker,
        command@ is TakerAddress <==> command is TakerAddress,
        command@ is MakerAddress <==> command is MakerAddress,
        command@ is Drain <==> command is Drain,
        command matches CommandStep::RunSwap(id) ==> command@ == CommandStepView::RunSwap(id@),
        command matches CommandStep::Reply(said) ==> command@ == CommandStepView::Reply(
            PluginActionView::of(said@),
        ),
        form matches FormStep::Withdraw { address, sats } ==> form@ == (FormStepView::Withdraw {
            address: address@,
            sats,
        }),
        form matches FormStep::Quote(params) ==> form@ == FormStepView::Quote(params),
        form matches FormStep::Refuse(PluginError::InvalidInput(why)) ==> form@
            == FormStepView::Refuse(why@),
        form matches FormStep::Reply(said) ==> form@ == FormStepView::Reply(
            PluginActionView::of(said@),
        ),
        event@ is Ignore <==> event is Ignore,
        event matches EventStep::Saved { settings } ==> event@ == (EventStepView::Saved {
            settings,
        }),
        event matches EventStep::Form(step) ==> event@ == EventStepView::Form(step@),
        event matches EventStep::Command(step) ==> event@ == EventStepView::Command(step@),
        event matches EventStep::Refuse(PluginError::InvalidInput(why)) ==> event@
            == EventStepView::Refuse(why@),
{
}

} // verus!
