//! Payloads exchanged with the exchange, as plain data.

use vstd::prelude::*;

verus! {

/// Answer of the credential endpoint.
#[derive(Debug, Clone, PartialEq)]
pub struct Channels {
    pub code: String,
    pub data: ChannelsData,
}

/// The streaming token and the candidate servers, in the exchange's order of
/// preference.
#[derive(Debug, Clone, PartialEq)]
pub struct ChannelsData {
    pub instance_servers: Vec<InstanceServer>,
    pub token: String,
}

/// One interchangeable streaming endpoint.
#[derive(Debug, Clone, PartialEq)]
pub struct InstanceServer {
    pub ping_interval: i64,
    pub endpoint: String,
    pub protocol: String,
    pub encrypt: bool,
    pub ping_timeout: i64,
}

/// The identifying part of one active instrument record.
#[derive(Debug, Clone, PartialEq)]
pub struct OpenContractData {
    pub symbol: String,
    pub root_symbol: String,
    pub contract_type: String,
    pub base_currency: String,
    pub quote_currency: String,
    pub settle_currency: String,
}

/// Answer of the active-instruments endpoint.
#[derive(Debug, Clone, PartialEq)]
pub struct OpenContracts {
    pub code: Option<String>,
    pub data: Vec<OpenContractData>,
}

/// A control message of the exchange: an id and a type.
#[derive(Debug, Clone, PartialEq)]
pub struct GenericMessage {
    pub id: String,
    pub msg_type: String,
}

/// A request to subscribe to one topic.
#[derive(Debug, Clone, PartialEq)]
pub struct SubscribeMessage {
    pub id: u64,
    pub msg_type: String,
    pub topic: String,
    pub private_channel: bool,
    pub response: bool,
}

/// Best bid and ask of one symbol.
#[derive(Debug, Clone, PartialEq)]
pub struct SymbolTicker {
    pub sequence: u64,
    pub symbol: String,
    pub best_bid_price: String,
    pub best_bid_size: u64,
    pub best_ask_price: String,
    pub best_ask_size: u64,
    pub ts: u64,
}

} // verus!
