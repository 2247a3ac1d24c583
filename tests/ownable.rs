use hpl_mailbox::error::ContractError;
use hpl_mailbox::ownable::{
    claim_ownership, get_owner, get_pending_owner, handle, handle_query, init_ownership_transfer,
    initialize, revoke_ownership_transfer, OwnableEvent, OwnableMsg, OwnableQueryMsg,
    OwnableQueryResponse,
};

fn s(v: &str) -> String {
    v.to_string()
}

#[test]
fn ownership_transfer_flow() {
    let mut reg = initialize(&s("owner"));
    assert_eq!(get_owner(&reg), s("owner"));
    assert_eq!(get_pending_owner(&reg), None);

    assert!(matches!(
        init_ownership_transfer(&mut reg, &s("mallory"), &s("next")),
        Err(ContractError::Unauthorized)
    ));
    assert_eq!(get_pending_owner(&reg), None);

    match init_ownership_transfer(&mut reg, &s("owner"), &s("next")) {
        Ok(OwnableEvent::Init { owner, next_owner }) => {
            assert_eq!(owner, s("owner"));
            assert_eq!(next_owner, s("next"));
        }
        other => panic!("unexpected {:?}", other),
    }
    assert_eq!(get_pending_owner(&reg), Some(s("next")));

    assert!(matches!(
        init_ownership_transfer(&mut reg, &s("owner"), &s("other")),
        Err(ContractError::TransferAlreadyPending)
    ));
    assert_eq!(get_pending_owner(&reg), Some(s("next")));

    assert!(matches!(claim_ownership(&mut reg, &s("mallory")), Err(ContractError::Unauthorized)));
    assert_eq!(get_owner(&reg), s("owner"));

    assert!(matches!(claim_ownership(&mut reg, &s("next")), Ok(OwnableEvent::Claim { .. })));
    assert_eq!(get_owner(&reg), s("next"));
    assert_eq!(get_pending_owner(&reg), None);
}

#[test]
fn revoke_clears_pending() {
    let mut reg = initialize(&s("owner"));
    assert!(matches!(
        revoke_ownership_transfer(&mut reg, &s("owner")),
        Err(ContractError::NoPendingTransfer)
    ));
    init_ownership_transfer(&mut reg, &s("owner"), &s("next")).unwrap();
    assert!(matches!(
        revoke_ownership_transfer(&mut reg, &s("next")),
        Err(ContractError::Unauthorized)
    ));
    assert!(matches!(
        revoke_ownership_transfer(&mut reg, &s("owner")),
        Ok(OwnableEvent::Revoke { .. })
    ));
    assert_eq!(get_pending_owner(&reg), None);
    assert!(matches!(claim_ownership(&mut reg, &s("next")), Err(ContractError::NoPendingTransfer)));
    assert_eq!(get_owner(&reg), s("owner"));
}

#[test]
fn handle_dispatches_and_queries_answer() {
    let mut reg = initialize(&s("owner"));
    match handle(&mut reg, &s("owner"), OwnableMsg::InitOwnershipTransfer { next_owner: s("next") }) {
        Ok(OwnableEvent::Init { owner, next_owner }) => {
            assert_eq!(owner, s("owner"));
            assert_eq!(next_owner, s("next"));
        }
        other => panic!("unexpected {:?}", other),
    }
    match handle_query(&reg, OwnableQueryMsg::GetPendingOwner) {
        OwnableQueryResponse::PendingOwner { pending_owner } => assert_eq!(pending_owner, Some(s("next"))),
        other => panic!("unexpected {:?}", other),
    }
    assert!(matches!(
        handle(&mut reg, &s("next"), OwnableMsg::ClaimOwnership),
        Ok(OwnableEvent::Claim { owner }) if owner == s("next")
    ));
    match handle_query(&reg, OwnableQueryMsg::GetOwner) {
        OwnableQueryResponse::Owner { owner } => assert_eq!(owner, s("next")),
        other => panic!("unexpected {:?}", other),
    }
    assert!(matches!(
        handle(&mut reg, &s("next"), OwnableMsg::RevokeOwnershipTransfer),
        Err(ContractError::NoPendingTransfer)
    ));
}
