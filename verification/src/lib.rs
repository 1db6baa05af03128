//! Coinswap inside BTCPay Server: a maker, a taker, or both.
//!
//! Both roles are off until switched on, and either can run without the other. Each keeps its own
//! wallet with its own recovery phrase. Neither is a BTCPay store wallet, and money in them is not
//! money in a store.
//!
//! The library holds what the plugin decides, shows and says. Threads, locks, the disk, the host
//! and the swap library itself are its caller's.
//!
//! - [`settings`] is what the operator fills in, its check, and what the roles run on.
//! - [`lifecycle`] is what both roles share: starting, stopping and the recovery phrase.
//! - [`runtime`] is the maker's thread, and [`maker`] the maker as the plugin sees it.
//! - [`taker`] is the taker's wallet, its quotes and its swaps.
//! - [`alerts`] decides what the operator is notified of.
//! - [`logging`] decides which of the swap library's log records reach the host.
//! - [`pages`] builds the pages out of [`blocks`], the host's page builder.
//! - [`plugin`] is the glue: commands, forms, and reacting to a settings change.
//! - [`shared`] and [`text`] are what all of them need.

pub mod alerts;
pub mod blocks;
pub mod lifecycle;
pub mod logging;
pub mod maker;
pub mod pages;
pub mod plugin;
pub mod runtime;
pub mod settings;
pub mod shared;
pub mod taker;
pub mod text;
