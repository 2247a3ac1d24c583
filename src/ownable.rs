use vstd::prelude::*;
use crate::error::ContractError;

verus! {

/// The owner and, while a transfer is outstanding, the proposed successor.
#[derive(Debug, Clone)]
pub struct Ownership {
    pub owner: String,
    pub pending_owner: Option<String>,
}

/// The mathematical value of an [`Ownership`].
pub ghost struct OwnershipView {
    pub owner: Seq<char>,
    pub pending_owner: Option<Seq<char>>,
}

pub open spec fn opt_view(o: Option<String>) -> Option<Seq<char>> {
    match o {
        Some(s) => Some(s@),
        None => None,
    }
}

impl View for Ownership {
    type V = OwnershipView;

    open spec fn view(&self) -> OwnershipView {
        OwnershipView { owner: self.owner@, pending_owner: opt_view(self.pending_owner) }
    }
}

/// A change to the ownership registry.
#[derive(Debug, Clone)]
pub enum OwnableMsg {
    InitOwnershipTransfer { next_owner: String },
    RevokeOwnershipTransfer,
    ClaimOwnership,
}

/// A question to the ownership registry.
#[derive(Debug, Clone, Copy, PartialEq, Eq, Structural)]
pub enum OwnableQueryMsg {
    GetOwner,
    GetPendingOwner,
}

/// The answer to an [`OwnableQueryMsg`].
#[derive(Debug, Clone)]
pub enum OwnableQueryResponse {
    Owner { owner: String },
    PendingOwner { pending_owner: Option<String> },
}

/// The record of a successful ownership transition.
#[derive(Debug, Clone)]
pub enum OwnableEvent {
    Init { owner: String, next_owner: String },
    Revoke { owner: String },
    Claim { owner: String },
}

/// The registry after `sender` proposes `next`, or the failure.
pub open spec fn init_transfer_step(s: OwnershipView, sender: Seq<char>, next: Seq<char>) -> Result<
    OwnershipView,
    ContractError,
> {
    if sender != s.owner {
        Err(ContractError::Unauthorized)
    } else if s.pending_owner is Some {
        Err(ContractError::TransferAlreadyPending)
    } else {
        Ok(OwnershipView { pending_owner: Some(next), ..s })
    }
}

/// The registry after `sender` withdraws the proposal, or the failure.
pub open spec fn revoke_transfer_step(s: OwnershipView, sender: Seq<char>) -> Result<
    OwnershipView,
    ContractError,
> {
    if sender != s.owner {
        Err(ContractError::Unauthorized)
    } else if s.pending_owner is None {
        Err(ContractError::NoPendingTransfer)
    } else {
        Ok(OwnershipView { pending_owner: None, ..s })
    }
}

/// The registry after `sender` claims ownership, or the failure.
pub open spec fn claim_step(s: OwnershipView, sender: Seq<char>) -> Result<
    OwnershipView,
    ContractError,
> {
    match s.pending_owner {
        None => Err(ContractError::NoPendingTransfer),
        Some(p) => if sender != p {
            Err(ContractError::Unauthorized)
        } else {
            Ok(OwnershipView { owner: sender, pending_owner: None })
        },
    }
}

/// How a call that returned `r` left the registry, given the expected step.
pub open spec fn step_taken<E>(
    step: Result<OwnershipView, ContractError>,
    r: Result<E, ContractError>,
    before: OwnershipView,
    after: OwnershipView,
) -> bool {
    match r {
        Ok(_) => step == Ok::<OwnershipView, ContractError>(after),
        Err(e) => step == Err::<OwnershipView, ContractError>(e) && after == before,
    }
}

/// A registry owned by `owner` with no transfer outstanding.
pub fn initialize(owner: &String) -> (r: Ownership)
    ensures
        r@ == (OwnershipView { owner: owner@, pending_owner: None }),
{
    Ownership { owner: owner.clone(), pending_owner: None }
}

/// Proposes `next_owner` as the successor; only the owner may, and only
/// while no other proposal is outstanding.
pub fn init_ownership_transfer(reg: &mut Ownership, sender: &String, next_owner: &String) -> (r:
    Result<OwnableEvent, ContractError>)
    ensures
        step_taken(init_transfer_step(old(reg)@, sender@, next_owner@), r, old(reg)@, final(reg)@),
        match r {
            Ok(OwnableEvent::Init { owner, next_owner: n }) => owner@ == sender@ && n@
                == next_owner@,
            Ok(_) => false,
            Err(_) => true,
        },
{
    if *sender != reg.owner {
        return Err(ContractError::Unauthorized);
    }
    if reg.pending_owner.is_some() {
        return Err(ContractError::TransferAlreadyPending);
    }
    reg.pending_owner = Some(next_owner.clone());
    Ok(OwnableEvent::Init { owner: sender.clone(), next_owner: next_owner.clone() })
}

/// Withdraws the outstanding proposal; only the owner may.
pub fn revoke_ownership_transfer(reg: &mut Ownership, sender: &String) -> (r: Result<
    OwnableEvent,
    ContractError,
>)
    ensures
        step_taken(revoke_transfer_step(old(reg)@, sender@), r, old(reg)@, final(reg)@),
        match r {
            Ok(OwnableEvent::Revoke { owner }) => owner@ == sender@,
            Ok(_) => false,
            Err(_) => true,
        },
{
    if *sender != reg.owner {
        return Err(ContractError::Unauthorized);
    }
    if reg.pending_owner.is_none() {
        return Err(ContractError::NoPendingTransfer);
    }
    reg.pending_owner = None;
    Ok(OwnableEvent::Revoke { owner: sender.clone() })
}

/// The proposed successor takes ownership.
pub fn claim_ownership(reg: &mut Ownership, sender: &String) -> (r: Result<
    OwnableEvent,
    ContractError,
>)
    ensures
        step_taken(claim_step(old(reg)@, sender@), r, old(reg)@, final(reg)@),
        match r {
            Ok(OwnableEvent::Claim { owner }) => owner@ == sender@,
            Ok(_) => false,
            Err(_) => true,
        },
{
    let is_pending = match &reg.pending_owner {
        None => {
            return Err(ContractError::NoPendingTransfer);
        },
        Some(p) => *p == *sender,
    };
    if !is_pending {
        return Err(ContractError::Unauthorized);
    }
    reg.owner = sender.clone();
    reg.pending_owner = None;
    Ok(OwnableEvent::Claim { owner: sender.clone() })
}

/// Applies one ownership change requested by `sender`.
pub fn handle(reg: &mut Ownership, sender: &String, msg: OwnableMsg) -> (r: Result<
    OwnableEvent,
    ContractError,
>)
    ensures
        match msg {
            OwnableMsg::InitOwnershipTransfer { next_owner } => {
                &&& step_taken(
                    init_transfer_step(old(reg)@, sender@, next_owner@),
                    r,
                    old(reg)@,
                    final(reg)@,
                )
                &&& match r {
                    Ok(OwnableEvent::Init { owner, next_owner: n }) => owner@ == sender@ && n@
                        == next_owner@,
                    Ok(_) => false,
                    Err(_) => true,
                }
            },
            OwnableMsg::RevokeOwnershipTransfer => {
                &&& step_taken(revoke_transfer_step(old(reg)@, sender@), r, old(reg)@, final(reg)@)
                &&& match r {
                    Ok(OwnableEvent::Revoke { owner }) => owner@ == sender@,
                    Ok(_) => false,
                    Err(_) => true,
                }
            },
            OwnableMsg::ClaimOwnership => {
                &&& step_taken(claim_step(old(reg)@, sender@), r, old(reg)@, final(reg)@)
                &&& match r {
                    Ok(OwnableEvent::Claim { owner }) => owner@ == sender@,
                    Ok(_) => false,
                    Err(_) => true,
                }
            },
        },
{
    match msg {
        OwnableMsg::InitOwnershipTransfer { next_owner } => init_ownership_transfer(
            reg,
            sender,
            &next_owner,
        ),
        OwnableMsg::RevokeOwnershipTransfer => revoke_ownership_transfer(reg, sender),
        OwnableMsg::ClaimOwnership => claim_ownership(reg, sender),
    }
}

/// Answers a question about the registry.
pub fn handle_query(reg: &Ownership, msg: OwnableQueryMsg) -> (r: OwnableQueryResponse)
    ensures
        match msg {
            OwnableQueryMsg::GetOwner => match r {
                OwnableQueryResponse::Owner { owner } => owner@ == reg@.owner,
                _ => false,
            },
            OwnableQueryMsg::GetPendingOwner => match r {
                OwnableQueryResponse::PendingOwner { pending_owner } => opt_view(pending_owner)
                    == reg@.pending_owner,
                _ => false,
            },
        },
{
    match msg {
        OwnableQueryMsg::GetOwner => OwnableQueryResponse::Owner { owner: get_owner(reg) },
        OwnableQueryMsg::GetPendingOwner => OwnableQueryResponse::PendingOwner {
            pending_owner: get_pending_owner(reg),
        },
    }
}

/// The current owner.
pub fn get_owner(reg: &Ownership) -> (r: String)
    ensures
        r@ == reg@.owner,
{
    reg.owner.clone()
}

/// The proposed successor, if a transfer is outstanding.
pub fn get_pending_owner(reg: &Ownership) -> (r: Option<String>)
    ensures
        opt_view(r) == reg@.pending_owner,
{
    match &reg.pending_owner {
        Some(p) => Some(p.clone()),
        None => None,
    }
}

} // verus!
