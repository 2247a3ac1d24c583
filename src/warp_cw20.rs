use vstd::prelude::*;

verus! {

/// How a native token is identified.
#[derive(Debug, Clone, PartialEq, Eq)]
pub enum TokenTypeNative {
    Fungible { denom: String },
    NonFungible { class: String },
}

/// The kind of token that a warp route moves.
#[derive(Debug, Clone, PartialEq, Eq)]
pub enum TokenType {
    Native(TokenTypeNative),
    CW20 { contract: String },
    CW721 { contract: String },
}

/// Whether the route mints bridged tokens or locks collateral.
#[derive(Debug, Clone, Copy, PartialEq, Eq, Structural)]
pub enum TokenMode {
    Bridged,
    Collateral,
}

/// A message received with a token transfer: send it to a remote domain.
#[derive(Debug, Clone, PartialEq, Eq)]
pub enum ReceiveMsg {
    TransferRemote { dest_domain: u32, recipient: Vec<u8> },
}

/// One route: the remote router for `domain`, or its removal.
#[derive(Debug, Clone, PartialEq, Eq)]
pub struct DomainRouteSet {
    pub domain: u32,
    pub route: Option<Vec<u8>>,
}

/// A change to the remote routers of a warp route.
#[derive(Debug, Clone, PartialEq, Eq)]
pub enum RouterMsg {
    SetRoute { set: DomainRouteSet },
    SetRoutes { set: Vec<DomainRouteSet> },
}

/// A delivered message, as a recipient receives it.
#[derive(Debug, Clone, PartialEq, Eq)]
pub struct HandleMsg {
    pub origin: u32,
    pub sender: Vec<u8>,
    pub body: Vec<u8>,
}

/// A cw20 token transfer announced to its receiving contract.
#[derive(Debug, Clone, PartialEq, Eq)]
pub struct Cw20ReceiveMsg {
    pub sender: String,
    pub amount: u128,
    pub msg: Vec<u8>,
}

/// The operations of a cw20 warp route.
#[derive(Debug, Clone, PartialEq, Eq)]
pub enum ExecuteMsg {
    Router(RouterMsg),
    /// An inbound transfer from a remote domain.
    Handle(HandleMsg),
    /// Tokens received for a transfer to a remote domain.
    Receive(Cw20ReceiveMsg),
}

/// The questions that a cw20 warp route answers.
#[derive(Debug, Clone, Copy, PartialEq, Eq, Structural)]
pub enum QueryMsg {
    Domains,
    Router { domain: u32 },
    TokenType,
    TokenMode,
}

/// The answer to [`QueryMsg::TokenType`].
#[derive(Debug, Clone, PartialEq, Eq)]
pub struct TokenTypeResponse {
    pub typ: TokenType,
}

/// The answer to [`QueryMsg::TokenMode`].
#[derive(Debug, Clone, Copy, PartialEq, Eq, Structural)]
pub struct TokenModeResponse {
    pub mode: TokenMode,
}

} // verus!
