//! Operator-facing configuration, and its translation into what each role runs on.
//!
//! [`Settings`] is flat and form-renderable; the roles' configurations are nested and typed.
//! [`Settings::to_maker_config`] and [`Settings::to_taker_config`] are the only places where they
//! meet.

use vstd::prelude::*;

use crate::text;
use crate::text::{
    before_first, decimal_text, parse_number, same_text, split_last, strip_prefix, trim,
};

verus! {

/// The shortest fidelity bond that is accepted, in blocks: about three months.
pub const MIN_FIDELITY_TIMELOCK: u32 = 12_960;

/// The longest fidelity bond that is accepted, in blocks: about six months.
pub const MAX_FIDELITY_TIMELOCK: u32 = 25_920;

/// The smallest amount a swap or a bond can have, in satoshis.
pub const MIN_SWAP_AMOUNT: u64 = 10_000;

/// `value` without the scheme it starts with, if any.
pub open spec fn without_scheme(value: Seq<char>) -> Seq<char> {
    match text::after_prefix(value, "http://"@) {
        Some(rest) => rest,
        None => match text::after_prefix(value, "https://"@) {
            Some(rest) => rest,
            None => value,
        },
    }
}

/// The bare `host:port` in a Core RPC endpoint: no scheme, no path and no white space around.
pub open spec fn endpoint(value: Seq<char>) -> Seq<char> {
    text::trimmed(text::up_to(without_scheme(text::trimmed(value)), '/'))
}

/// Reduces a Core RPC endpoint to the bare `host:port` the wallet wants.
///
/// The wallet builds `http://{url}/wallet/{name}` itself, so a scheme here yields
/// `http://http://host:port/...` and a DNS error naming no cause.
pub fn host_port(value: &str) -> (result: String)
    ensures
        result@ == endpoint(value@),
{
    let value = trim(value);
    let value = match strip_prefix(value, "http://") {
        Some(rest) => rest,
        None => match strip_prefix(value, "https://") {
            Some(rest) => rest,
            None => value,
        },
    };
    // Anything after the host and port is a path, which the wallet appends itself.
    trim(before_first(value, '/')).to_string()
}

/// Whether an endpoint names a host and a port that can be connected to.
pub open spec fn is_host_and_port(endpoint: Seq<char>) -> bool {
    match text::around_last(endpoint, ':') {
        Some((host, port)) => {
            &&& host.len() > 0
            &&& text::number_within(port, 65_535) matches Some(number)
            &&& number != 0
        },
        None => false,
    }
}

fn names_host_and_port(endpoint: &str) -> (result: bool)
    ensures
        result == is_host_and_port(endpoint@),
{
    match split_last(endpoint, ':') {
        Some((host, port)) => host.unicode_len() > 0 && match parse_number(port, 65_535) {
            Some(number) => number != 0,
            None => false,
        },
        None => false,
    }
}

/// How the taker connects to makers.
#[derive(Clone, Copy, PartialEq, Eq, Structural, Debug)]
pub enum ConnectionType {
    Tor,
    Clearnet,
}

/// The swap protocols.
#[derive(Clone, Copy, PartialEq, Eq, Structural, Debug)]
pub enum ProtocolVersion {
    Legacy,
    Taproot,
}

/// The Bitcoin networks a role can run on.
#[derive(Clone, Copy, PartialEq, Eq, Structural, Debug)]
pub enum Network {
    Bitcoin,
    Testnet4,
    Signet,
    Regtest,
}

/// How the taker reaches makers.
#[derive(Clone, Copy, PartialEq, Eq, Structural, Debug)]
pub enum Reach {
    /// Through the Tor SOCKS proxy. The only way to reach an onion address, which is what a
    /// maker advertises, so this is the default.
    Tor,
    /// Direct TCP. Cannot reach an onion address at all, so it is only useful against a maker
    /// on a clearnet address, which in practice means a local test.
    Clearnet,
}

impl Default for Reach {
    fn default() -> (result: Self)
        ensures
            result == Reach::Tor,
    {
        Reach::Tor
    }
}

impl Reach {
    /// The connection type of the same name.
    pub fn to_connection_type(self) -> (result: ConnectionType)
        ensures
            result == self.connection_type(),
    {
        match self {
            Reach::Tor => ConnectionType::Tor,
            Reach::Clearnet => ConnectionType::Clearnet,
        }
    }

    /// The connection type of the same name.
    pub open spec fn connection_type(self) -> ConnectionType {
        match self {
            Reach::Tor => ConnectionType::Tor,
            Reach::Clearnet => ConnectionType::Clearnet,
        }
    }
}

/// Which swap protocol the taker asks for.
#[derive(Clone, Copy, PartialEq, Eq, Structural, Debug)]
pub enum Protocol {
    /// ECDSA contracts with script-evaluated HTLCs. Every maker supports it.
    Legacy,
    /// Taproot MuSig2 with scriptless contracts. Only makers advertising it are eligible, which
    /// is most of them: a maker that supports both advertises "Unified".
    Taproot,
}

impl Default for Protocol {
    fn default() -> (result: Self)
        ensures
            result == Protocol::Legacy,
    {
        Protocol::Legacy
    }
}

impl Protocol {
    /// The protocol version of the same name.
    pub fn to_protocol_version(self) -> (result: ProtocolVersion)
        ensures
            result == self.protocol_version(),
    {
        match self {
            Protocol::Legacy => ProtocolVersion::Legacy,
            Protocol::Taproot => ProtocolVersion::Taproot,
        }
    }

    /// The protocol version of the same name.
    pub open spec fn protocol_version(self) -> ProtocolVersion {
        match self {
            Protocol::Legacy => ProtocolVersion::Legacy,
            Protocol::Taproot => ProtocolVersion::Taproot,
        }
    }
}

/// Where the maker gets its chain data from.
#[derive(Clone, Copy, PartialEq, Eq, Structural, Debug)]
pub enum Backend {
    /// The natural choice inside BTCPay, which already runs one.
    CoreRpc,
    /// For an operator who does not want the maker touching their node.
    Electrum,
}

impl Default for Backend {
    fn default() -> (result: Self)
        ensures
            result == Backend::CoreRpc,
    {
        Backend::CoreRpc
    }
}

/// Which chain to run on.
///
/// Deliberately not every network there is: an unexercised one loses money.
#[derive(Clone, Copy, PartialEq, Eq, Structural, Debug)]
pub enum Chain {
    /// Real money.
    Mainnet,
    /// The public test network.
    Testnet4,
    /// The test network whose blocks are signed rather than mined.
    Signet,
    /// The default, so an unconfigured plugin cannot touch real funds.
    Regtest,
}

impl Default for Chain {
    fn default() -> (result: Self)
        ensures
            result == Chain::Regtest,
    {
        Chain::Regtest
    }
}

impl Chain {
    /// The network this chain is on.
    pub fn to_network(self) -> (result: Network)
        ensures
            result == self.network(),
    {
        match self {
            Chain::Mainnet => Network::Bitcoin,
            Chain::Testnet4 => Network::Testnet4,
            Chain::Signet => Network::Signet,
            Chain::Regtest => Network::Regtest,
        }
    }

    /// The network this chain is on.
    pub open spec fn network(self) -> Network {
        match self {
            Chain::Mainnet => Network::Bitcoin,
            Chain::Testnet4 => Network::Testnet4,
            Chain::Signet => Network::Signet,
            Chain::Regtest => Network::Regtest,
        }
    }

    /// The chain's name, as the dashboard shows it.
    pub fn name(self) -> (result: &'static str)
        ensures
            result@ == self.named(),
    {
        match self {
            Chain::Mainnet => "Mainnet",
            Chain::Testnet4 => "Testnet4",
            Chain::Signet => "Signet",
            Chain::Regtest => "Regtest",
        }
    }

    /// The chain's name, as the dashboard shows it.
    pub open spec fn named(self) -> Seq<char> {
        match self {
            Chain::Mainnet => "Mainnet"@,
            Chain::Testnet4 => "Testnet4"@,
            Chain::Signet => "Signet"@,
            Chain::Regtest => "Regtest"@,
        }
    }
}

/// Everything the operator configures, for both roles.
///
/// Chain source and Tor settings are shared; everything else is per role, including the wallet
/// name: maker and taker wallets are separate files with separate seeds.
///
/// Both roles default to off: neither should start because somebody clicked install.
#[derive(PartialEq, Eq, Debug)]
pub struct Settings {
    /// Whether the maker should run.
    pub enabled: bool,
    /// The network.
    pub chain: Chain,
    /// Selects which of the two blocks below is used.
    pub backend: Backend,
    /// Core RPC host and port. Normalised by [`host_port`] before it is used.
    pub core_url: String,
    /// Core RPC username.
    pub core_user: String,
    /// Core RPC password.
    pub core_password: String,
    /// Block and transaction notifications. The watchtower needs this to see a counterparty
    /// broadcasting a contract.
    pub core_zmq_addr: String,
    /// Electrum URL. Unlike the Core endpoint, this one must carry a scheme, which picks the
    /// transport.
    pub electrum_url: String,
    /// Electrum SOCKS5 proxy, empty for a direct connection.
    pub electrum_socks5: String,
    /// Names the maker's own wallet file.
    pub wallet_name: String,
    /// The port takers reach this maker on.
    pub network_port: u32,
    /// Tor SOCKS port.
    pub socks_port: u32,
    /// Tor control port.
    pub control_port: u32,
    /// Tor control password.
    pub tor_auth_password: String,
    /// Charged per swap regardless of size, in satoshis.
    pub base_fee: u32,
    /// Proportional fee on the swap amount, in basis points.
    pub amount_relative_fee_bps: u32,
    /// Proportional fee for the time funds stay locked, in basis points.
    pub time_relative_fee_bps: u32,
    /// Swaps smaller than this many satoshis are refused.
    pub min_swap_amount: u32,
    /// Confirmations the maker waits for before treating a funding transaction as final.
    pub required_confirms: u32,
    /// Fidelity bond amount, in satoshis.
    pub fidelity_amount: u32,
    /// How long the bond stays locked, in blocks.
    pub fidelity_timelock: u32,
    /// Whether the taker's wallet should be open.
    ///
    /// Independent of the maker: an operator may want one, the other, or both.
    pub taker_enabled: bool,
    /// Names the taker's wallet file.
    pub taker_wallet_name: String,
    /// How the taker reaches makers.
    pub taker_reach: Reach,
    /// Which protocol the taker asks makers for.
    pub taker_protocol: Protocol,
}

impl Clone for Settings {
    fn clone(&self) -> (result: Self)
        ensures
            result == *self,
    {
        Settings {
            enabled: self.enabled,
            chain: self.chain,
            backend: self.backend,
            core_url: self.core_url.clone(),
            core_user: self.core_user.clone(),
            core_password: self.core_password.clone(),
            core_zmq_addr: self.core_zmq_addr.clone(),
            electrum_url: self.electrum_url.clone(),
            electrum_socks5: self.electrum_socks5.clone(),
            wallet_name: self.wallet_name.clone(),
            network_port: self.network_port,
            socks_port: self.socks_port,
            control_port: self.control_port,
            tor_auth_password: self.tor_auth_password.clone(),
            base_fee: self.base_fee,
            amount_relative_fee_bps: self.amount_relative_fee_bps,
            time_relative_fee_bps: self.time_relative_fee_bps,
            min_swap_amount: self.min_swap_amount,
            required_confirms: self.required_confirms,
            fidelity_amount: self.fidelity_amount,
            fidelity_timelock: self.fidelity_timelock,
            taker_enabled: self.taker_enabled,
            taker_wallet_name: self.taker_wallet_name.clone(),
            taker_reach: self.taker_reach,
            taker_protocol: self.taker_protocol,
        }
    }
}

/// Whether a port is one that can be bound or connected to.
pub open spec fn is_port(port: u32) -> bool {
    1 <= port <= 65_535
}

impl Settings {
    /// What is wrong with the chain source, if anything.
    pub open spec fn backend_problem(self) -> Option<Seq<char>> {
        match self.backend {
            Backend::CoreRpc => {
                let endpoint = endpoint(self.core_url@);
                if endpoint.len() == 0 {
                    Some(
                        "Core RPC host and port is required when the chain source is Bitcoin Core."@,
                    )
                } else if !is_host_and_port(endpoint) {
                    Some(
                        "Core RPC host and port must look like host:port, for example 127.0.0.1:18443. Got \""@
                            + endpoint + "\"."@,
                    )
                } else {
                    None
                }
            },
            Backend::Electrum => if text::trimmed(self.electrum_url@).len() == 0 {
                Some("Electrum URL is required when the chain source is an Electrum server."@)
            } else {
                None
            },
        }
    }

    /// What is wrong with the wallet names, if anything.
    pub open spec fn wallet_problem(self) -> Option<Seq<char>> {
        let maker = text::trimmed(self.wallet_name@);
        let taker = text::trimmed(self.taker_wallet_name@);
        if maker.len() == 0 {
            Some("Wallet name is required."@)
        } else if self.taker_enabled && taker.len() == 0 {
            Some("Taker wallet name is required."@)
        } else if self.taker_enabled && taker == maker {
            Some(
                "The taker wallet name must differ from the maker's. They are two separate wallets, and sharing a name would point both at one file."@,
            )
        } else {
            None
        }
    }

    /// What is wrong with the way to Tor and to takers, if anything.
    pub open spec fn network_problem(self) -> Option<Seq<char>> {
        if !is_port(self.network_port) {
            Some("Maker port"@ + " must be between 1 and 65535."@)
        } else if !is_port(self.socks_port) {
            Some("Tor SOCKS port"@ + " must be between 1 and 65535."@)
        } else if !is_port(self.control_port) {
            Some("Tor control port"@ + " must be between 1 and 65535."@)
        } else if self.tor_auth_password@.len() == 0 {
            Some(
                "Tor control password is required. Tor refuses to open a control port with no authentication, and openswap authenticates with a password, so this must match the HashedControlPassword the Tor instance was configured with."@,
            )
        } else {
            None
        }
    }

    /// What is wrong with the amounts and times, if anything.
    pub open spec fn bond_problem(self) -> Option<Seq<char>> {
        if !(MIN_FIDELITY_TIMELOCK <= self.fidelity_timelock <= MAX_FIDELITY_TIMELOCK) {
            Some(
                "Fidelity bond timelock must be between "@ + text::decimal(
                    MIN_FIDELITY_TIMELOCK as nat,
                ) + " and "@ + text::decimal(MAX_FIDELITY_TIMELOCK as nat)
                    + " blocks, which is roughly three to six months. "@ + text::decimal(
                    self.fidelity_timelock as nat,
                ) + " is outside what openswap accepts."@,
            )
        } else if self.min_swap_amount < MIN_SWAP_AMOUNT {
            Some(
                "Minimum swap must be at least "@ + text::decimal(MIN_SWAP_AMOUNT as nat)
                    + " sats."@,
            )
        } else if self.fidelity_amount < MIN_SWAP_AMOUNT {
            Some(
                "Fidelity bond amount must be at least "@ + text::decimal(MIN_SWAP_AMOUNT as nat)
                    + " sats to be worth anything to a taker."@,
            )
        } else {
            None
        }
    }

    /// The first thing that is wrong with the settings, if anything is.
    pub open spec fn problem(self) -> Option<Seq<char>> {
        if self.backend_problem() is Some {
            self.backend_problem()
        } else if self.wallet_problem() is Some {
            self.wallet_problem()
        } else if self.network_problem() is Some {
            self.network_problem()
        } else {
            self.bond_problem()
        }
    }

    /// Rejects a configuration the roles could not run with, naming what is wrong.
    ///
    /// Cross-field rules only; individual fields are validated where they are entered.
    pub fn check(&self) -> (result: Result<(), String>)
        ensures
            match result {
                Ok(()) => self.problem() is None,
                Err(message) => self.problem() == Some(message@),
            },
    {
        match self.backend {
            Backend::CoreRpc => {
                let endpoint = host_port(self.core_url.as_str());
                if endpoint.as_str().unicode_len() == 0 {
                    return Err(
                        "Core RPC host and port is required when the chain source is Bitcoin Core.".to_string(),
                    );
                }
                // A plain http client is used, so a missing port silently becomes 80.
                if !names_host_and_port(endpoint.as_str()) {
                    return Err(
                        "Core RPC host and port must look like host:port, for example 127.0.0.1:18443. Got \"".to_string().concat(
                        endpoint.as_str()).concat("\"."),
                    );
                }
            },
            Backend::Electrum => {
                if trim(self.electrum_url.as_str()).unicode_len() == 0 {
                    return Err(
                        "Electrum URL is required when the chain source is an Electrum server.".to_string(),
                    );
                }
            },
        }
        if trim(self.wallet_name.as_str()).unicode_len() == 0 {
            return Err("Wallet name is required.".to_string());
        }
        if self.taker_enabled {
            if trim(self.taker_wallet_name.as_str()).unicode_len() == 0 {
                return Err("Taker wallet name is required.".to_string());
            }
            // Two wallets on one file, and one Bitcoin Core watch-only wallet driven by both,
            // each treating the other's coins as its own. Refuse rather than discover it.

            if same_text(trim(self.taker_wallet_name.as_str()), trim(self.wallet_name.as_str())) {
                return Err(
                    "The taker wallet name must differ from the maker's. They are two separate wallets, and sharing a name would point both at one file.".to_string(),
                );
            }
        }
        check_port("Maker port", self.network_port)?;
        check_port("Tor SOCKS port", self.socks_port)?;
        check_port("Tor control port", self.control_port)?;
        // Tor is authenticated to by password, so an empty one cannot work.
        if self.tor_auth_password.as_str().unicode_len() == 0 {
            return Err(
                "Tor control password is required. Tor refuses to open a control port with no authentication, and openswap authenticates with a password, so this must match the HashedControlPassword the Tor instance was configured with.".to_string(),
            );
        }
        if self.fidelity_timelock < MIN_FIDELITY_TIMELOCK || self.fidelity_timelock
            > MAX_FIDELITY_TIMELOCK {
            return Err(
                "Fidelity bond timelock must be between ".to_string().concat(
                    decimal_text(MIN_FIDELITY_TIMELOCK as u64).as_str(),
                ).concat(" and ").concat(
                    decimal_text(MAX_FIDELITY_TIMELOCK as u64).as_str(),
                ).concat(" blocks, which is roughly three to six months. ").concat(
                    decimal_text(self.fidelity_timelock as u64).as_str(),
                ).concat(" is outside what openswap accepts."),
            );
        }
        if (self.min_swap_amount as u64) < MIN_SWAP_AMOUNT {
            return Err(
                "Minimum swap must be at least ".to_string().concat(
                    decimal_text(MIN_SWAP_AMOUNT).as_str(),
                ).concat(" sats."),
            );
        }
        if (self.fidelity_amount as u64) < MIN_SWAP_AMOUNT {
            return Err(
                "Fidelity bond amount must be at least ".to_string().concat(
                    decimal_text(MIN_SWAP_AMOUNT).as_str(),
                ).concat(" sats to be worth anything to a taker."),
            );
        }
        Ok(())
    }
}

fn check_port(label: &str, port: u32) -> (result: Result<(), String>)
    ensures
        text::failure(result) == if is_port(port) {
            Ok(())
        } else {
            Err(label@ + " must be between 1 and 65535."@)
        },
{
    if port == 0 || port > 65_535 {
        Err(label.to_string().concat(" must be between 1 and 65535."))
    } else {
        Ok(())
    }
}

/// How to authenticate to Bitcoin Core.
#[derive(PartialEq, Eq, Debug)]
pub enum Auth {
    /// By user name and password.
    UserPass(String, String),
}

/// A Bitcoin Core chain source.
#[derive(PartialEq, Eq, Debug)]
pub struct CoreRpcConfig {
    /// Bare `host:port`, never a URL.
    pub url: String,
    pub auth: Auth,
    /// The watch-only wallet inside Bitcoin Core that the role drives.
    pub wallet_name: String,
    pub zmq_addr: String,
}

/// An Electrum chain source.
#[derive(PartialEq, Eq, Debug)]
pub struct ElectrumConfig {
    pub url: String,
    /// The proxy to connect through, if any.
    pub socks5: Option<String>,
    pub timeout: Option<u64>,
    pub poll_interval_secs: Option<u64>,
    pub max_retries: u8,
}

/// The chain source a role runs on.
#[derive(PartialEq, Eq, Debug)]
pub enum BackendConfig {
    CoreRpc(CoreRpcConfig),
    Electrum(ElectrumConfig),
}

/// What a [`BackendConfig`] holds.
#[verifier::ext_equal]
pub enum BackendConfigView {
    CoreRpc {
        url: Seq<char>,
        user: Seq<char>,
        password: Seq<char>,
        wallet_name: Seq<char>,
        zmq_addr: Seq<char>,
    },
    Electrum {
        url: Seq<char>,
        socks5: Option<Seq<char>>,
        timeout: Option<u64>,
        poll_interval_secs: Option<u64>,
        max_retries: u8,
    },
}

impl View for BackendConfig {
    type V = BackendConfigView;

    open spec fn view(&self) -> BackendConfigView {
        match *self {
            BackendConfig::CoreRpc(core) => BackendConfigView::CoreRpc {
                url: core.url@,
                user: core.auth->UserPass_0@,
                password: core.auth->UserPass_1@,
                wallet_name: core.wallet_name@,
                zmq_addr: core.zmq_addr@,
            },
            BackendConfig::Electrum(electrum) => BackendConfigView::Electrum {
                url: electrum.url@,
                socks5: text::optional(electrum.socks5),
                timeout: electrum.timeout,
                poll_interval_secs: electrum.poll_interval_secs,
                max_retries: electrum.max_retries,
            },
        }
    }
}

/// What the maker runs on.
#[derive(PartialEq, Eq, Debug)]
pub struct MakerServerConfig {
    pub data_dir: String,
    pub network: Network,
    pub wallet_name: String,
    pub network_port: u16,
    pub socks_port: u16,
    pub control_port: u16,
    pub tor_auth_password: String,
    pub base_fee: u64,
    /// In basis points: hundredths of a percent.
    pub amount_relative_fee_bps: u32,
    /// In basis points: hundredths of a percent.
    pub time_relative_fee_bps: u32,
    pub min_swap_amount: u64,
    pub required_confirms: u32,
    pub fidelity_amount: u64,
    pub fidelity_timelock: u32,
    pub backend: BackendConfig,
}

/// What a [`MakerServerConfig`] holds.
#[verifier::ext_equal]
pub struct MakerServerConfigView {
    pub data_dir: Seq<char>,
    pub network: Network,
    pub wallet_name: Seq<char>,
    pub network_port: u16,
    pub socks_port: u16,
    pub control_port: u16,
    pub tor_auth_password: Seq<char>,
    pub base_fee: u64,
    pub amount_relative_fee_bps: u32,
    pub time_relative_fee_bps: u32,
    pub min_swap_amount: u64,
    pub required_confirms: u32,
    pub fidelity_amount: u64,
    pub fidelity_timelock: u32,
    pub backend: BackendConfigView,
}

impl View for MakerServerConfig {
    type V = MakerServerConfigView;

    open spec fn view(&self) -> MakerServerConfigView {
        MakerServerConfigView {
            data_dir: self.data_dir@,
            network: self.network,
            wallet_name: self.wallet_name@,
            network_port: self.network_port,
            socks_port: self.socks_port,
            control_port: self.control_port,
            tor_auth_password: self.tor_auth_password@,
            base_fee: self.base_fee,
            amount_relative_fee_bps: self.amount_relative_fee_bps,
            time_relative_fee_bps: self.time_relative_fee_bps,
            min_swap_amount: self.min_swap_amount,
            required_confirms: self.required_confirms,
            fidelity_amount: self.fidelity_amount,
            fidelity_timelock: self.fidelity_timelock,
            backend: self.backend@,
        }
    }
}

/// What the taker's wallet opens with.
#[derive(PartialEq, Eq, Debug)]
pub struct TakerInitConfig {
    pub data_dir: Option<String>,
    pub backend: BackendConfig,
    pub wallet_name: String,
    pub control_port: Option<u16>,
    pub tor_auth_password: Option<String>,
    pub socks_port: u16,
    pub password: Option<String>,
    pub connection_type: ConnectionType,
}

/// What a [`TakerInitConfig`] holds.
#[verifier::ext_equal]
pub struct TakerInitConfigView {
    pub data_dir: Option<Seq<char>>,
    pub backend: BackendConfigView,
    pub wallet_name: Seq<char>,
    pub control_port: Option<u16>,
    pub tor_auth_password: Option<Seq<char>>,
    pub socks_port: u16,
    pub password: Option<Seq<char>>,
    pub connection_type: ConnectionType,
}

impl View for TakerInitConfig {
    type V = TakerInitConfigView;

    open spec fn view(&self) -> TakerInitConfigView {
        TakerInitConfigView {
            data_dir: text::optional(self.data_dir),
            backend: self.backend@,
            wallet_name: self.wallet_name@,
            control_port: self.control_port,
            tor_auth_password: text::optional(self.tor_auth_password),
            socks_port: self.socks_port,
            password: text::optional(self.password),
            connection_type: self.connection_type,
        }
    }
}

/// The values a maker server has when nobody configured it, of the settings that follow them.
pub struct MakerDefaults {
    pub network_port: u16,
    pub socks_port: u16,
    pub control_port: u16,
    pub tor_auth_password: String,
    pub base_fee: u64,
    /// In basis points: hundredths of a percent.
    pub amount_relative_fee_bps: u32,
    /// In basis points: hundredths of a percent.
    pub time_relative_fee_bps: u32,
    pub min_swap_amount: u64,
    pub required_confirms: u32,
    pub fidelity_amount: u64,
    pub fidelity_timelock: u32,
}

impl Settings {
    /// The settings of a fresh install: the maker server's own values where it has them, and both
    /// roles off.
    pub open spec fn is_default(self, reference: MakerDefaults) -> bool {
        &&& !self.enabled
        &&& self.chain == Chain::Regtest
        &&& self.backend == Backend::CoreRpc
        &&& self.core_url@ == "127.0.0.1:18443"@
        &&& self.core_user@ == Seq::<char>::empty()
        &&& self.core_password@ == Seq::<char>::empty()
        &&& self.core_zmq_addr@ == "tcp://127.0.0.1:28332"@
        &&& self.electrum_url@ == Seq::<char>::empty()
        &&& self.electrum_socks5@ == Seq::<char>::empty()
        &&& self.wallet_name@ == "btcpay-maker"@
        &&& self.network_port == reference.network_port
        &&& self.socks_port == reference.socks_port
        &&& self.control_port == reference.control_port
        &&& self.tor_auth_password@ == reference.tor_auth_password@
        &&& self.base_fee == reference.base_fee as u32
        &&& self.amount_relative_fee_bps == reference.amount_relative_fee_bps
        &&& self.time_relative_fee_bps == reference.time_relative_fee_bps
        &&& self.min_swap_amount == reference.min_swap_amount as u32
        &&& self.required_confirms == reference.required_confirms
        &&& self.fidelity_amount == reference.fidelity_amount as u32
        &&& self.fidelity_timelock == reference.fidelity_timelock
        &&& !self.taker_enabled
        &&& self.taker_protocol == Protocol::Legacy
        &&& self.taker_wallet_name@ == "btcpay-taker"@
        &&& self.taker_reach == Reach::Tor
    }

    /// The settings of a fresh install: the maker server's own values where it has them, and both
    /// roles off.
    pub fn defaults(reference: &MakerDefaults) -> (result: Self)
        ensures
            result.is_default(*reference),
    {
        Settings {
            enabled: false,
            chain: Chain::Regtest,
            backend: Backend::CoreRpc,
            core_url: "127.0.0.1:18443".to_string(),
            core_user: String::new(),
            core_password: String::new(),
            core_zmq_addr: "tcp://127.0.0.1:28332".to_string(),
            electrum_url: String::new(),
            electrum_socks5: String::new(),
            wallet_name: "btcpay-maker".to_string(),
            network_port: reference.network_port as u32,
            socks_port: reference.socks_port as u32,
            control_port: reference.control_port as u32,
            tor_auth_password: reference.tor_auth_password.clone(),
            base_fee: reference.base_fee as u32,
            amount_relative_fee_bps: reference.amount_relative_fee_bps,
            time_relative_fee_bps: reference.time_relative_fee_bps,
            min_swap_amount: reference.min_swap_amount as u32,
            required_confirms: reference.required_confirms,
            fidelity_amount: reference.fidelity_amount as u32,
            fidelity_timelock: reference.fidelity_timelock,
            taker_enabled: false,
            taker_protocol: Protocol::Legacy,
            // Distinct from the maker's on purpose: one wallet name for two wallets would be an
            // operator's worst afternoon.
            taker_wallet_name: "btcpay-taker".to_string(),
            taker_reach: Reach::Tor,
        }
    }

    /// The chain source, for a role with this wallet.
    pub open spec fn backend_for(self, wallet_name: Seq<char>) -> BackendConfigView {
        match self.backend {
            Backend::CoreRpc => BackendConfigView::CoreRpc {
                url: endpoint(self.core_url@),
                user: self.core_user@,
                password: self.core_password@,
                wallet_name: text::trimmed(wallet_name),
                zmq_addr: text::trimmed(self.core_zmq_addr@),
            },
            Backend::Electrum => BackendConfigView::Electrum {
                url: text::trimmed(self.electrum_url@),
                socks5: if text::trimmed(self.electrum_socks5@).len() == 0 {
                    None
                } else {
                    Some(text::trimmed(self.electrum_socks5@))
                },
                timeout: None,
                poll_interval_secs: None,
                max_retries: 3,
            },
        }
    }

    /// The chain source, in the shape the roles want.
    ///
    /// Shared by both roles rather than built twice: they talk to the same node, and two copies
    /// of this would be two places for a change to be forgotten.
    ///
    /// `wallet_name` is a parameter because the Core backend names a watch-only wallet inside
    /// Bitcoin Core, and the two roles must not share one. If they did, each would see the
    /// other's coins as its own.
    fn backend_config(&self, wallet_name: &str) -> (result: BackendConfig)
        ensures
            result@ == self.backend_for(wallet_name@),
    {
        match self.backend {
            Backend::CoreRpc => BackendConfig::CoreRpc(
                CoreRpcConfig {
                    url: host_port(self.core_url.as_str()),
                    auth: Auth::UserPass(self.core_user.clone(), self.core_password.clone()),
                    wallet_name: trim(wallet_name).to_string(),
                    zmq_addr: trim(self.core_zmq_addr.as_str()).to_string(),
                },
            ),
            Backend::Electrum => {
                let proxy = trim(self.electrum_socks5.as_str());
                BackendConfig::Electrum(
                    ElectrumConfig {
                        url: trim(self.electrum_url.as_str()).to_string(),
                        socks5: if proxy.unicode_len() == 0 {
                            None
                        } else {
                            Some(proxy.to_string())
                        },
                        timeout: None,
                        poll_interval_secs: None,
                        max_retries: 3,
                    },
                )
            },
        }
    }

    /// The configuration the taker's wallet opens with.
    pub open spec fn taker_config(self, data_dir: Seq<char>) -> TakerInitConfigView {
        TakerInitConfigView {
            data_dir: Some(data_dir),
            backend: self.backend_for(self.taker_wallet_name@),
            wallet_name: text::trimmed(self.taker_wallet_name@),
            control_port: Some(self.control_port as u16),
            tor_auth_password: Some(self.tor_auth_password@),
            socks_port: self.socks_port as u16,
            password: None,
            connection_type: self.taker_reach.connection_type(),
        }
    }

    /// Builds the configuration the taker's wallet opens with.
    ///
    /// Shares the chain source and the Tor settings with the maker, and nothing else: a separate
    /// wallet name and a separate data directory, so the two wallets cannot touch each other.
    pub fn to_taker_config(&self, data_dir: String) -> (result: TakerInitConfig)
        ensures
            result@ == self.taker_config(data_dir@),
    {
        TakerInitConfig {
            data_dir: Some(data_dir),
            backend: self.backend_config(self.taker_wallet_name.as_str()),
            wallet_name: trim(self.taker_wallet_name.as_str()).to_string(),
            // Range-checked in `check`, so these casts cannot truncate a port to zero.
            control_port: Some(self.control_port as u16),
            tor_auth_password: Some(self.tor_auth_password.clone()),
            socks_port: self.socks_port as u16,
            password: None,
            connection_type: self.taker_reach.to_connection_type(),
        }
    }

    /// The configuration the maker runs on.
    pub open spec fn maker_config(self, data_dir: Seq<char>) -> MakerServerConfigView {
        MakerServerConfigView {
            data_dir,
            network: self.chain.network(),
            wallet_name: text::trimmed(self.wallet_name@),
            network_port: self.network_port as u16,
            socks_port: self.socks_port as u16,
            control_port: self.control_port as u16,
            tor_auth_password: self.tor_auth_password@,
            base_fee: self.base_fee as u64,
            amount_relative_fee_bps: self.amount_relative_fee_bps,
            time_relative_fee_bps: self.time_relative_fee_bps,
            min_swap_amount: self.min_swap_amount as u64,
            required_confirms: self.required_confirms,
            fidelity_amount: self.fidelity_amount as u64,
            fidelity_timelock: self.fidelity_timelock,
            backend: self.backend_for(self.wallet_name@),
        }
    }

    /// Builds the configuration the maker actually runs on.
    pub fn to_maker_config(&self, data_dir: String) -> (result: MakerServerConfig)
        ensures
            result@ == self.maker_config(data_dir@),
    {
        MakerServerConfig {
            data_dir,
            network: self.chain.to_network(),
            wallet_name: trim(self.wallet_name.as_str()).to_string(),
            // Range-checked in `check`, so this cast cannot silently truncate a port to zero.
            network_port: self.network_port as u16,
            socks_port: self.socks_port as u16,
            control_port: self.control_port as u16,
            tor_auth_password: self.tor_auth_password.clone(),
            base_fee: self.base_fee as u64,
            amount_relative_fee_bps: self.amount_relative_fee_bps,
            time_relative_fee_bps: self.time_relative_fee_bps,
            min_swap_amount: self.min_swap_amount as u64,
            required_confirms: self.required_confirms,
            fidelity_amount: self.fidelity_amount as u64,
            fidelity_timelock: self.fidelity_timelock,
            backend: self.backend_config(self.wallet_name.as_str()),
        }
    }
}

/// Settings that pass the check reach the roles with their ports as they were entered, none of
/// them zero.
pub proof fn checked_ports_are_not_truncated(settings: Settings, data_dir: Seq<char>)
    requires
        settings.problem() is None,
    ensures
        settings.maker_config(data_dir).network_port == settings.network_port,
        settings.maker_config(data_dir).socks_port == settings.socks_port,
        settings.maker_config(data_dir).control_port == settings.control_port,
        settings.taker_config(data_dir).socks_port == settings.socks_port,
        settings.taker_config(data_dir).control_port == Some(settings.control_port as u16),
        settings.control_port as u16 == settings.control_port,
        settings.network_port != 0,
        settings.socks_port != 0,
        settings.control_port != 0,
{
}

/// The wallet of a role on Bitcoin Core.
pub open spec fn core_wallet(backend: BackendConfigView) -> Option<Seq<char>> {
    match backend {
        BackendConfigView::CoreRpc { wallet_name, .. } => Some(wallet_name),
        BackendConfigView::Electrum { .. } => None,
    }
}

/// With settings that pass the check and the taker enabled, the two roles have two wallets, on
/// disk and inside Bitcoin Core, whatever their directories.
pub proof fn each_role_has_its_own_wallet(
    settings: Settings,
    maker_dir: Seq<char>,
    taker_dir: Seq<char>,
)
    requires
        settings.problem() is None,
        settings.taker_enabled,
    ensures
        settings.maker_config(maker_dir).wallet_name != settings.taker_config(
            taker_dir,
        ).wallet_name,
        settings.backend == Backend::CoreRpc ==> core_wallet(
            settings.maker_config(maker_dir).backend,
        ) != core_wallet(settings.taker_config(taker_dir).backend),
{
}

/// Settings that pass the check name a chain source that can be connected to.
pub proof fn checked_settings_name_a_chain_source(settings: Settings, data_dir: Seq<char>)
    requires
        settings.problem() is None,
    ensures
        match settings.maker_config(data_dir).backend {
            BackendConfigView::CoreRpc { url, .. } => is_host_and_port(url),
            BackendConfigView::Electrum { url, .. } => url.len() > 0,
        },
{
}

/// What stands before the first `c` holds no `c`, and is all there is where there is none.
proof fn lemma_up_to(s: Seq<char>, c: char)
    ensures
        !text::up_to(s, c).contains(c),
        !s.contains(c) ==> text::up_to(s, c) == s,
    decreases s.len(),
{
    if s.len() > 0 && s[0] != c {
        let rest = s.skip(1);
        lemma_up_to(rest, c);
        let front = text::up_to(rest, c);
        assert(text::up_to(s, c) == seq![s[0]] + front);
        assert forall|i: int| 0 <= i < (seq![s[0]] + front).len() implies (seq![s[0]] + front)[i]
            != c by {
            if i > 0 {
                assert(front.contains(front[i - 1]));
            }
        }
        if !s.contains(c) {
            assert forall|i: int| 0 <= i < rest.len() implies rest[i] != c by {
                assert(s.contains(s[i + 1]));
            }
            assert(seq![s[0]] + rest =~= s);
        }
    } else if s.len() > 0 {
        assert(s.contains(s[0]));
    } else {
        assert(text::up_to(s, c) =~= s);
    }
}

/// An endpoint holds no slash, so no scheme and no path, whatever it was made from.
pub proof fn an_endpoint_has_no_scheme_and_no_path(value: Seq<char>)
    ensures
        !endpoint(value).contains('/'),
{
    let bare = without_scheme(text::trimmed(value));
    lemma_up_to(bare, '/');
    text::trimmed_text_stays_trimmed(text::up_to(bare, '/'));
    assert forall|i: int| 0 <= i < endpoint(value).len() implies endpoint(value)[i] != '/' by {
        assert(endpoint(value).contains(endpoint(value)[i]));
    }
}

/// Normalising an endpoint a second time changes nothing.
pub proof fn normalising_twice_is_normalising_once(value: Seq<char>)
    ensures
        endpoint(endpoint(value)) == endpoint(value),
{
    an_endpoint_has_no_scheme_and_no_path(value);
    let once = endpoint(value);
    text::trimmed_text_stays_trimmed(text::up_to(without_scheme(text::trimmed(value)), '/'));
    reveal_strlit("http://");
    reveal_strlit("https://");
    if let Some(rest) = text::after_prefix(once, "http://"@) {
        assert(once.take("http://"@.len() as int)[5] == '/');
        assert(once.contains(once[5]));
    }
    if let Some(rest) = text::after_prefix(once, "https://"@) {
        assert(once.take("https://"@.len() as int)[6] == '/');
        assert(once.contains(once[6]));
    }
    lemma_up_to(once, '/');
}

/// The taker connects to makers the way the settings say.
pub proof fn the_taker_connects_as_the_settings_say(settings: Settings, data_dir: Seq<char>)
    ensures
        settings.taker_config(data_dir).connection_type is Tor <==> settings.taker_reach is Tor,
        settings.taker_config(data_dir).connection_type is Clearnet
            <==> settings.taker_reach is Clearnet,
{
}

/// The maker runs on the network of the chain that was chosen, and on real money only where that
/// is the main one.
pub proof fn the_maker_runs_on_the_chosen_chain(settings: Settings, data_dir: Seq<char>)
    ensures
        settings.maker_config(data_dir).network is Bitcoin <==> settings.chain is Mainnet,
        settings.maker_config(data_dir).network is Testnet4 <==> settings.chain is Testnet4,
        settings.maker_config(data_dir).network is Signet <==> settings.chain is Signet,
        settings.maker_config(data_dir).network is Regtest <==> settings.chain is Regtest,
{
}

/// The protocol that is asked for is the one that was chosen.
pub proof fn the_chosen_protocol_is_asked_for(settings: Settings)
    ensures
        settings.taker_protocol.protocol_version() is Legacy <==> settings.taker_protocol is Legacy,
        settings.taker_protocol.protocol_version() is Taproot
            <==> settings.taker_protocol is Taproot,
{
}

/// The dashboard tells the chains apart.
pub proof fn chains_are_told_apart(one: Chain, other: Chain)
    ensures
        one.named() == other.named() ==> one == other,
        Chain::Mainnet.named() == "Mainnet"@,
        Chain::Regtest.named() == "Regtest"@,
{
    reveal_strlit("Mainnet");
    reveal_strlit("Testnet4");
    reveal_strlit("Signet");
    reveal_strlit("Regtest");
    assert("Mainnet"@[0] == 'M' && "Regtest"@[0] == 'R');
    assert("Testnet4"@.len() == 8 && "Signet"@.len() == 6);
    assert("Mainnet"@.len() == 7 && "Regtest"@.len() == 7);
}

/// What was entered for the maker reaches it: its directory and wallet, the Tor password, every
/// fee, the smallest swap, the confirmations and the bond.
pub proof fn the_maker_gets_what_was_entered(settings: Settings, data_dir: Seq<char>)
    ensures
        ({
            let config = settings.maker_config(data_dir);
            &&& config.data_dir == data_dir
            &&& config.wallet_name == text::trimmed(settings.wallet_name@)
            &&& config.tor_auth_password == settings.tor_auth_password@
            &&& config.base_fee == settings.base_fee
            &&& config.amount_relative_fee_bps == settings.amount_relative_fee_bps
            &&& config.time_relative_fee_bps == settings.time_relative_fee_bps
            &&& config.min_swap_amount == settings.min_swap_amount
            &&& config.required_confirms == settings.required_confirms
            &&& config.fidelity_amount == settings.fidelity_amount
            &&& config.fidelity_timelock == settings.fidelity_timelock
            &&& is_port(settings.network_port) ==> config.network_port == settings.network_port
            &&& is_port(settings.socks_port) ==> config.socks_port == settings.socks_port
            &&& is_port(settings.control_port) ==> config.control_port == settings.control_port
        }),
{
}

/// What was entered for the taker reaches it: its directory and wallet, and the Tor settings it
/// shares with the maker. Its wallet file has no password.
pub proof fn the_taker_gets_what_was_entered(settings: Settings, data_dir: Seq<char>)
    ensures
        ({
            let config = settings.taker_config(data_dir);
            &&& config.data_dir == Some(data_dir)
            &&& config.wallet_name == text::trimmed(settings.taker_wallet_name@)
            &&& config.tor_auth_password == Some(settings.tor_auth_password@)
            &&& config.password is None
            &&& is_port(settings.socks_port) ==> config.socks_port == settings.socks_port
            &&& is_port(settings.control_port) ==> config.control_port is Some
                && config.control_port->Some_0 == settings.control_port
        }),
{
}

/// A port is a number from 1 to 65535.
pub proof fn ports_fit_sixteen_bits(port: u32)
    ensures
        is_port(port) <==> port > 0 && port < 0x1_0000,
{
}

/// Both roles get the chain source that was chosen, with what was entered for that one: a bare
/// endpoint, the user and the password as they are, and the addresses without white space around.
/// An Electrum proxy that is blank is none.
pub proof fn the_chosen_chain_source_is_used(settings: Settings, wallet_name: Seq<char>)
    ensures
        match settings.backend_for(wallet_name) {
            BackendConfigView::CoreRpc { url, user, password, wallet_name: core, zmq_addr } => {
                &&& settings.backend is CoreRpc
                &&& url == endpoint(settings.core_url@)
                &&& user == settings.core_user@
                &&& password == settings.core_password@
                &&& core == text::trimmed(wallet_name)
                &&& zmq_addr == text::trimmed(settings.core_zmq_addr@)
            },
            BackendConfigView::Electrum {
                url,
                socks5,
                timeout,
                poll_interval_secs,
                max_retries,
            } => {
                &&& settings.backend is Electrum
                &&& url == text::trimmed(settings.electrum_url@)
                &&& socks5 is None <==> text::trimmed(settings.electrum_socks5@).len() == 0
                &&& socks5 matches Some(proxy) ==> proxy == text::trimmed(
                    settings.electrum_socks5@,
                )
                &&& timeout is None && poll_interval_secs is None && max_retries == 3
            },
        },
{
}

/// The two roles share their chain source, apart from the wallet that each has in it.
pub proof fn the_roles_share_their_chain_source(
    settings: Settings,
    maker_dir: Seq<char>,
    taker_dir: Seq<char>,
)
    ensures
        settings.maker_config(maker_dir).backend == settings.backend_for(settings.wallet_name@),
        settings.taker_config(taker_dir).backend == settings.backend_for(
            settings.taker_wallet_name@,
        ),
        settings.wallet_name@ == settings.taker_wallet_name@ ==> settings.maker_config(
            maker_dir,
        ).backend == settings.taker_config(taker_dir).backend,
        core_wallet(settings.maker_config(maker_dir).backend) matches Some(wallet)
            ==> settings.backend is CoreRpc && wallet == text::trimmed(settings.wallet_name@),
        core_wallet(settings.taker_config(taker_dir).backend) matches Some(wallet)
            ==> settings.backend is CoreRpc && wallet == text::trimmed(settings.taker_wallet_name@),
        settings.backend is CoreRpc ==> core_wallet(
            settings.maker_config(maker_dir).backend,
        ) is Some,
{
}

/// Whether a text is an endpoint as it is wanted: not empty, with no slash, and with no white space
/// at either end.
pub open spec fn is_bare(s: Seq<char>) -> bool {
    &&& s.len() > 0
    &&& !s.contains('/')
    &&& text::trimmed(s) == s
}

/// A bare endpoint stays as it is, and is what is left of it with a scheme in front, a path behind,
/// or both. One that ends with a colon is left out where it would make up a scheme with the path.
pub proof fn a_bare_endpoint_is_found(bare: Seq<char>, path: Seq<char>)
    requires
        is_bare(bare),
        path.len() > 0 ==> !text::is_white_space(path.last()),
    ensures
        endpoint(bare) == bare,
        endpoint("http://"@ + bare) == bare,
        endpoint("https://"@ + bare) == bare,
        bare.last() != ':' ==> endpoint(bare.push('/') + path) == bare,
        endpoint("http://"@ + (bare.push('/') + path)) == bare,
        endpoint("https://"@ + (bare.push('/') + path)) == bare,
{
    let long = bare.push('/') + path;
    assert(!text::is_white_space(bare[0]) && !text::is_white_space(bare.last())) by {
        text::trimming_cuts_white_space_off_the_ends(bare);
    }
    assert(text::up_to(long, '/') == bare && text::up_to(bare, '/') == bare) by {
        text::the_first_is_found(bare, '/', path);
    }
    assert(!text::is_white_space(long.last())) by {
        text::plain_white_space('/');
        if path.len() == 0 {
            assert(long.last() == '/');
        } else {
            assert(long.last() == path.last());
        }
    }
    assert(text::trimmed(long) == long) by {
        assert(long[0] == bare[0]);
        text::a_tidy_text_is_not_trimmed(long);
    }
    lemma_behind_a_scheme(bare, bare);
    lemma_behind_a_scheme(bare, long);
    lemma_nothing_but_a_path(bare, path);
}

/// Without a slash there is no scheme, and one that starts a path does not make up one unless a
/// colon stands before it.
proof fn lemma_nothing_but_a_path(bare: Seq<char>, path: Seq<char>)
    requires
        bare.len() > 0,
        !bare.contains('/'),
    ensures
        without_scheme(bare) == bare,
        bare.last() != ':' ==> without_scheme(bare.push('/') + path) == bare.push('/') + path,
{
    let long = bare.push('/') + path;
    let len = bare.len() as int;
    lemma_where_a_scheme_ends(bare);
    lemma_where_a_scheme_ends(long);
    assert forall|i: int| 0 <= i < len implies long[i] == bare[i] && bare[i] != '/' by {
        assert(bare.contains(bare[i]));
    }
    assert(long[len] == '/');
    assert(bare.last() == long[len - 1]);
    if without_scheme(bare) != bare {
        assert(bare[6] == '/');
    }
    if without_scheme(long) != long {
        assert(len >= 4);
        assert(len == 4 ==> long[4] == '/');
        assert(len <= 6) by {
            if len > 6 {
                assert(long[6] == bare[6]);
            }
        }
        assert(len == 5 ==> long[5] == '/' && long[4] == bare[4]);
        assert(len == 6 ==> long[5] == bare[5]);
    }
}

/// A text with a scheme in front has the colon and the slashes of it where they belong, and no
/// slash before them.
proof fn lemma_where_a_scheme_ends(s: Seq<char>)
    ensures
        without_scheme(s) != s ==> s.len() >= 7 && {
            ||| s[4] == ':' && s[5] == '/' && s[6] == '/'
            ||| s[4] == 's' && s[5] == ':' && s[6] == '/'
        },
        without_scheme(s) != s ==> s[0] != '/' && s[1] != '/' && s[2] != '/' && s[3] != '/',
{
    reveal_strlit("http://");
    reveal_strlit("https://");
    if text::after_prefix(s, "http://"@) is Some {
        let front = s.take(7);
        assert(front == "http://"@);
        assert(front[0] == 'h' && front[1] == 't' && front[2] == 't' && front[3] == 'p');
        assert(front[4] == ':' && front[5] == '/' && front[6] == '/');
    } else if text::after_prefix(s, "https://"@) is Some {
        let front = s.take(8);
        assert(front == "https://"@);
        assert(front[0] == 'h' && front[1] == 't' && front[2] == 't' && front[3] == 'p');
        assert(front[4] == 's' && front[5] == ':' && front[6] == '/');
    }
}

/// Behind a scheme stands the endpoint, whatever it is the start of.
proof fn lemma_behind_a_scheme(bare: Seq<char>, rest: Seq<char>)
    requires
        is_bare(bare),
        rest.len() > 0,
        !text::is_white_space(rest.last()),
        text::up_to(rest, '/') == bare,
    ensures
        endpoint("http://"@ + rest) == bare,
        endpoint("https://"@ + rest) == bare,
{
    reveal_strlit("http://");
    reveal_strlit("https://");
    let http = "http://"@;
    let https = "https://"@;
    text::plain_white_space('h');
    assert((http + rest).last() == rest.last() && (http + rest)[0] == 'h');
    assert((https + rest).last() == rest.last() && (https + rest)[0] == 'h');
    text::a_tidy_text_is_not_trimmed(http + rest);
    text::a_tidy_text_is_not_trimmed(https + rest);
    text::removing_a_prefix_undoes_adding_it(http + rest, http, rest);
    text::removing_a_prefix_undoes_adding_it(https + rest, https, rest);
    assert(text::after_prefix(https + rest, http) is None) by {
        assert((https + rest)[4] == 's');
        assert((https + rest).take(7)[4] == 's');
    }
}

/// White space around an endpoint does not matter.
pub proof fn an_endpoint_is_trimmed(before: Seq<char>, value: Seq<char>, after: Seq<char>)
    requires
        forall|i: int| 0 <= i < before.len() ==> text::is_white_space(#[trigger] before[i]),
        forall|i: int| 0 <= i < after.len() ==> text::is_white_space(#[trigger] after[i]),
    ensures
        endpoint(before + value + after) == endpoint(value),
{
    text::white_space_around_does_not_matter(before, value, after);
}

/// An endpoint names a host and a port exactly if the part behind its last colon is a port number
/// and there is something in front of it.
pub proof fn an_endpoint_names_a_port(host: Seq<char>, port: nat, other: Seq<char>)
    ensures
        is_host_and_port(host.push(':') + text::decimal(port)) <==> host.len() > 0 && 1 <= port
            <= 65_535,
        !other.contains(':') ==> !is_host_and_port(other),
        !other.contains(':') && text::number_in(other) is None ==> !is_host_and_port(
            host.push(':') + other,
        ),
{
    text::lemma_only_digits(port, ':');
    text::the_last_is_found(host, ':', text::decimal(port));
    text::numbers_are_read_from_digits(other, port, 65_535);
    text::the_parts_around_the_last(other, ':');
    if let Some((head, tail)) = text::around_last(other, ':') {
        assert((head.push(':') + tail)[head.len() as int] == ':');
        assert(other.contains(':'));
    }
    if !other.contains(':') {
        text::the_last_is_found(host, ':', other);
    }
}

/// Settings pass the check exactly if the chosen chain source can be connected to, the wallets have
/// names, which differ where both roles are wanted, each port is one, there is a Tor password, and
/// the bond and the smallest swap are within bounds.
pub proof fn settings_pass_the_check_exactly_if_they_can_run(settings: Settings)
    ensures
        settings.problem() is None <==> {
            &&& settings.backend is CoreRpc ==> is_host_and_port(endpoint(settings.core_url@))
            &&& settings.backend is Electrum ==> text::trimmed(settings.electrum_url@).len() > 0
            &&& text::trimmed(settings.wallet_name@).len() > 0
            &&& settings.taker_enabled ==> text::trimmed(settings.taker_wallet_name@).len() > 0
            &&& settings.taker_enabled ==> text::trimmed(settings.taker_wallet_name@)
                != text::trimmed(settings.wallet_name@)
            &&& 0 < settings.network_port < 65_536
            &&& 0 < settings.socks_port < 65_536
            &&& 0 < settings.control_port < 65_536
            &&& settings.tor_auth_password@.len() > 0
            &&& 12_960 <= settings.fidelity_timelock <= 25_920
            &&& settings.min_swap_amount >= 10_000
            &&& settings.fidelity_amount >= 10_000
        },
{
    let found = endpoint(settings.core_url@);
    if found.len() == 0 {
        text::the_parts_around_the_last(found, ':');
    }
}

/// The first fault is the one that is named: one in the chain source hides those in the wallets,
/// those hide the ones in the ports and the password, and those the ones in the amounts.
pub proof fn the_first_fault_is_named(one: Settings, other: Settings)
    requires
        one.backend == other.backend,
        one.core_url@ == other.core_url@,
        one.electrum_url@ == other.electrum_url@,
    ensures
        one.backend_problem() is Some ==> one.problem() == other.problem(),
        one.backend_problem() is None && one.wallet_problem() is Some && one.wallet_name@
            == other.wallet_name@ && one.taker_wallet_name@ == other.taker_wallet_name@
            && one.taker_enabled == other.taker_enabled ==> one.problem() == other.problem(),
        one.wallet_problem() is None && other.wallet_problem() is None && one.network_port
            == other.network_port && one.socks_port == other.socks_port && one.control_port
            == other.control_port && one.tor_auth_password@ == other.tor_auth_password@
            && one.network_problem() is Some ==> one.problem() == other.problem(),
        one.backend_problem() is Some <==> (one.backend is CoreRpc && !is_host_and_port(
            endpoint(one.core_url@),
        )) || (one.backend is Electrum && text::trimmed(one.electrum_url@).len() == 0),
{
    let found = endpoint(one.core_url@);
    if found.len() == 0 {
        text::the_parts_around_the_last(found, ':');
    }
}

/// A fault is named with what was entered: the endpoint that is none, and the timelock that is out
/// of bounds, with the bounds.
pub proof fn a_fault_is_named_with_what_was_entered(settings: Settings)
    ensures
        settings.backend is CoreRpc && endpoint(settings.core_url@).len() > 0 && !is_host_and_port(
            endpoint(settings.core_url@),
        ) ==> settings.problem() is Some && text::mentions(
            settings.problem()->Some_0,
            endpoint(settings.core_url@),
        ),
        settings.backend_problem() is None && settings.wallet_problem() is None
            && settings.network_problem() is None && !(12_960 <= settings.fidelity_timelock
            <= 25_920) ==> settings.problem() is Some && text::mentions(
            settings.problem()->Some_0,
            text::decimal(settings.fidelity_timelock as nat),
        ) && text::mentions(settings.problem()->Some_0, text::decimal(12_960)) && text::mentions(
            settings.problem()->Some_0,
            text::decimal(25_920),
        ),
{
    broadcast use {text::lemma_mentions_end, text::lemma_mentions_front};

}

/// A port that is none is named by its field.
pub proof fn a_wrong_port_is_named(settings: Settings)
    ensures
        settings.network_port == 0 || settings.network_port > 65_535
            ==> settings.network_problem() == Some("Maker port"@ + " must be between 1 and 65535."@),
        0 < settings.network_port <= 65_535 && (settings.socks_port == 0 || settings.socks_port
            > 65_535) ==> settings.network_problem() == Some(
            "Tor SOCKS port"@ + " must be between 1 and 65535."@,
        ),
        0 < settings.network_port <= 65_535 && 0 < settings.socks_port <= 65_535 && (
        settings.control_port == 0 || settings.control_port > 65_535)
            ==> settings.network_problem() == Some(
            "Tor control port"@ + " must be between 1 and 65535."@,
        ),
{
}

/// On a fresh install neither role runs, the two wallets have different names, the taker goes
/// through Tor, and the chain is one where coins are worth nothing. The ports and the password are
/// the maker server's own.
pub proof fn a_fresh_install_does_nothing(settings: Settings, reference: MakerDefaults)
    requires
        settings.is_default(reference),
    ensures
        !settings.enabled && !settings.taker_enabled,
        settings.wallet_name@ != settings.taker_wallet_name@,
        settings.chain is Regtest,
        settings.taker_reach is Tor,
        settings.network_port == reference.network_port,
        settings.socks_port == reference.socks_port,
        settings.control_port == reference.control_port,
        settings.tor_auth_password@ == reference.tor_auth_password@,
        settings.required_confirms == reference.required_confirms,
        settings.fidelity_timelock == reference.fidelity_timelock,
        settings.amount_relative_fee_bps == reference.amount_relative_fee_bps,
        settings.time_relative_fee_bps == reference.time_relative_fee_bps,
        reference.base_fee <= u32::MAX ==> settings.base_fee == reference.base_fee,
        reference.min_swap_amount <= u32::MAX ==> settings.min_swap_amount
            == reference.min_swap_amount,
        reference.fidelity_amount <= u32::MAX ==> settings.fidelity_amount
            == reference.fidelity_amount,
{
    reveal_strlit("btcpay-maker");
    reveal_strlit("btcpay-taker");
    assert("btcpay-maker"@[7] == 'm' && "btcpay-taker"@[7] == 't');
}

/// Every fault has words of its own, and the first one in the order of the page is named: the chain
/// source, the wallets, the ports, the password, the timelock and the amounts.
pub proof fn every_fault_has_its_own_words(settings: Settings)
    ensures
        ({
            let found = endpoint(settings.core_url@);
            &&& settings.backend is CoreRpc && found.len() == 0 ==> settings.problem() == Some(
                "Core RPC host and port is required when the chain source is Bitcoin Core."@,
            )
            &&& settings.backend is Electrum && text::trimmed(settings.electrum_url@).len() == 0
                ==> settings.problem() == Some(
                "Electrum URL is required when the chain source is an Electrum server."@,
            )
        }),
        settings.backend_problem() is None ==> {
            let maker = text::trimmed(settings.wallet_name@);
            let taker = text::trimmed(settings.taker_wallet_name@);
            &&& maker.len() == 0 ==> settings.problem() == Some("Wallet name is required."@)
            &&& maker.len() > 0 && settings.taker_enabled && taker.len() == 0
                ==> settings.problem() == Some("Taker wallet name is required."@)
            &&& maker.len() > 0 && settings.taker_enabled && taker == maker ==> settings.problem()
                == Some(
                "The taker wallet name must differ from the maker's. They are two separate wallets, and sharing a name would point both at one file."@,
            )
        },
        settings.backend_problem() is None && settings.wallet_problem() is None ==> {
            &&& settings.network_problem() is Some ==> settings.problem()
                == settings.network_problem()
            &&& settings.network_problem() is None ==> settings.problem()
                == settings.bond_problem()
        },
        settings.bond_problem() is Some && 12_960 <= settings.fidelity_timelock <= 25_920 ==> {
            &&& settings.min_swap_amount < 10_000 ==> settings.bond_problem() == Some(
                "Minimum swap must be at least "@ + text::decimal(10_000) + " sats."@,
            )
            &&& settings.min_swap_amount >= 10_000 ==> settings.bond_problem() == Some(
                "Fidelity bond amount must be at least "@ + text::decimal(10_000)
                    + " sats to be worth anything to a taker."@,
            )
        },
        !(12_960 <= settings.fidelity_timelock <= 25_920) ==> settings.bond_problem() is Some && (
        "Fidelity bond timelock must be between "@ + text::decimal(12_960) + " and "@
            + text::decimal(25_920)).is_prefix_of(settings.bond_problem()->Some_0),
{
    broadcast use {text::lemma_begins_itself, text::lemma_begins_more};

}

/// The chains are called by their names.
pub proof fn chains_are_called_by_their_names()
    ensures
        Chain::Mainnet.named() == "Mainnet"@,
        Chain::Testnet4.named() == "Testnet4"@,
        Chain::Signet.named() == "Signet"@,
        Chain::Regtest.named() == "Regtest"@,
{
}

/// On a fresh install the chain source is a Bitcoin Core on the same machine, with no credentials
/// and no other source entered, and swaps go by the protocol that every maker speaks.
pub proof fn a_fresh_install_asks_the_node_next_to_it(settings: Settings, reference: MakerDefaults)
    requires
        settings.is_default(reference),
    ensures
        settings.backend is CoreRpc,
        settings.core_url@ == "127.0.0.1:18443"@,
        settings.core_zmq_addr@ == "tcp://127.0.0.1:28332"@,
        settings.core_user@.len() == 0 && settings.core_password@.len() == 0,
        settings.electrum_url@.len() == 0 && settings.electrum_socks5@.len() == 0,
        settings.wallet_name@ == "btcpay-maker"@,
        settings.taker_wallet_name@ == "btcpay-taker"@,
        settings.taker_protocol is Legacy,
{
}

/// A configuration is taken as it is, field by field.
pub proof fn configurations_are_taken_as_they_are(
    maker: MakerServerConfig,
    taker: TakerInitConfig,
    backend: BackendConfig,
)
    ensures
        maker@.data_dir == maker.data_dir@ && maker@.network == maker.network,
        maker@.wallet_name == maker.wallet_name@,
        maker@.network_port == maker.network_port && maker@.socks_port == maker.socks_port,
        maker@.control_port == maker.control_port,
        maker@.tor_auth_password == maker.tor_auth_password@,
        maker@.base_fee == maker.base_fee,
        maker@.amount_relative_fee_bps == maker.amount_relative_fee_bps,
        maker@.time_relative_fee_bps == maker.time_relative_fee_bps,
        maker@.min_swap_amount == maker.min_swap_amount,
        maker@.required_confirms == maker.required_confirms,
        maker@.fidelity_amount == maker.fidelity_amount,
        maker@.fidelity_timelock == maker.fidelity_timelock,
        maker@.backend == maker.backend@,
        taker@.data_dir == text::optional(taker.data_dir) && taker@.backend == taker.backend@,
        taker@.wallet_name == taker.wallet_name@,
        taker@.control_port == taker.control_port && taker@.socks_port == taker.socks_port,
        taker@.tor_auth_password == text::optional(taker.tor_auth_password),
        taker@.password == text::optional(taker.password),
        taker@.connection_type == taker.connection_type,
        backend matches BackendConfig::CoreRpc(core) ==> {
            &&& backend@ is CoreRpc
            &&& backend@->CoreRpc_url == core.url@
            &&& backend@->user == core.auth->UserPass_0@
            &&& backend@->password == core.auth->UserPass_1@
            &&& backend@->wallet_name == core.wallet_name@
            &&& backend@->zmq_addr == core.zmq_addr@
        },
        backend matches BackendConfig::Electrum(electrum) ==> {
            &&& backend@ is Electrum
            &&& backend@->Electrum_url == electrum.url@
            &&& backend@->socks5 == text::optional(electrum.socks5)
            &&& backend@->timeout == electrum.timeout
            &&& backend@->poll_interval_secs == electrum.poll_interval_secs
            &&& backend@->max_retries == electrum.max_retries
        },
{
}

} // verus!
