//! Forwards the swap library's own log output into BTCPay's log.
//!
//! Without an installed logger a library's records are discarded, and its errors are too thin to
//! diagnose a failure on their own.

use vstd::prelude::*;

use crate::text;

verus! {

/// How important a record is.
#[derive(Clone, Copy, PartialEq, Eq, Structural, Debug)]
pub enum LogLevel {
    Trace,
    Debug,
    Info,
    Warn,
    Error,
}

/// A record for the host's log.
#[derive(PartialEq, Eq, Debug)]
pub struct HostRecord {
    pub level: LogLevel,
    pub message: String,
}

/// What a [`HostRecord`] says.
#[verifier::ext_equal]
pub struct HostRecordView {
    pub level: LogLevel,
    pub message: Seq<char>,
}

impl View for HostRecord {
    type V = HostRecordView;

    open spec fn view(&self) -> HostRecordView {
        HostRecordView { level: self.level, message: self.message@ }
    }
}

/// Whether records of this level are forwarded.
pub open spec fn forwarded(level: LogLevel) -> bool {
    level != LogLevel::Trace
}

/// The record for a host, if there is one to deliver it to and the record is one that is forwarded.
pub open spec fn delivery(
    has_host: bool,
    level: LogLevel,
    target: Seq<char>,
    message: Seq<char>,
) -> Option<HostRecordView> {
    if has_host && forwarded(level) {
        Some(HostRecordView { level, message: "["@ + target + "] "@ + message })
    } else {
        None
    }
}

/// The level of a message the plugin logs itself.
pub open spec fn level_of(is_error: bool) -> LogLevel {
    if is_error {
        LogLevel::Error
    } else {
        LogLevel::Info
    }
}

/// Where records go, set when the plugin starts and cleared when it stops.
///
/// Separate from the logger because there is one of those for the life of the process, while
/// hosts come and go with the plugin.
pub struct Sink<H> {
    host: Option<H>,
}

impl<H> View for Sink<H> {
    type V = Option<H>;

    closed spec fn view(&self) -> Option<H> {
        self.host
    }
}

impl<H> Sink<H> {
    /// A sink that leads nowhere.
    pub fn new() -> (result: Self)
        ensures
            result@ is None,
    {
        Sink { host: None }
    }

    /// Where records go, if anywhere.
    pub fn host(&self) -> (result: Option<&H>)
        ensures
            match result {
                Some(host) => self@ == Some(*host),
                None => self@ is None,
            },
    {
        match &self.host {
            Some(host) => Some(host),
            None => None,
        }
    }

    /// The record for the host, if there is a host to deliver it to and the record is one that is
    /// forwarded. The target in front separates the library's records from the plugin's own.
    pub fn record(&self, level: LogLevel, target: &str, message: &str) -> (result: Option<
        HostRecord,
    >)
        ensures
            match result {
                Some(record) => delivery(self@ is Some, level, target@, message@) == Some(record@),
                None => delivery(self@ is Some, level, target@, message@) is None,
            },
    {
        if !enabled(level) || self.host.is_none() {
            return None;
        }
        Some(
            HostRecord {
                level,
                message: "[".to_string().concat(target).concat("] ").concat(message),
            },
        )
    }
}

impl<H> Default for Sink<H> {
    fn default() -> (result: Self)
        ensures
            result@ is None,
    {
        Sink::new()
    }
}

/// Whether records of this level are forwarded.
pub fn enabled(level: LogLevel) -> (result: bool)
    ensures
        result == forwarded(level),
{
    !matches!(level, LogLevel::Trace)
}

/// Routes records to `host` from now on. A later call only swaps the destination.
pub fn install<H>(sink: &mut Sink<H>, host: H)
    ensures
        final(sink)@ == Some(host),
{
    sink.host = Some(host);
}

/// Stops forwarding, so no record can reach a host the plugin has already given up.
pub fn detach<H>(sink: &mut Sink<H>)
    ensures
        final(sink)@ is None,
{
    sink.host = None;
}

/// The level of a message the plugin logs itself.
pub fn own_level(is_error: bool) -> (result: LogLevel)
    ensures
        result == level_of(is_error),
{
    if is_error {
        LogLevel::Error
    } else {
        LogLevel::Info
    }
}

/// Every record but the finest is delivered, exactly if there is a host, at its own level and with
/// both its target and its message. What the plugin logs itself is an error exactly if it is one.
pub proof fn records_are_delivered_as_they_are(
    has_host: bool,
    level: LogLevel,
    target: Seq<char>,
    message: Seq<char>,
    is_error: bool,
)
    ensures
        forwarded(level) <==> level is Debug || level is Info || level is Warn || level is Error,
        delivery(has_host, level, target, message) is Some <==> has_host && !(level is Trace),
        delivery(has_host, level, target, message) matches Some(record) ==> {
            &&& record.level == level
            &&& text::mentions(record.message, target)
            &&& text::mentions(record.message, message)
            &&& record.message.len() > target.len() + message.len()
        },
        level_of(is_error) is Error <==> is_error,
        level_of(is_error) is Info <==> !is_error,
{
    broadcast use {text::lemma_mentions_end, text::lemma_mentions_front};

    reveal_strlit("[");
}

/// A record is taken for its level and its message.
pub proof fn records_are_taken_as_they_are(record: HostRecord)
    ensures
        record@.level == record.level,
        record@.message == record.message@,
{
}

} // verus!
