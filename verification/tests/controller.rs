use ibc_controller::contract::{
    execute, instantiate, migrate, on_acknowledge, on_timeout, query, record_last_error,
};
use ibc_controller::error::ContractError;
use ibc_controller::msg::{
    ExecuteMsg, IbcProposalState, InstantiateMsg, ProposalMessage, QueryMsg, QueryResponse,
};
use ibc_controller::state::{LegacyConfig, State, VersionTag, MAX_TIMEOUT, MIN_TIMEOUT};

const OWNER: &str = "owner";
const NOW: u64 = 1_571_797_419;

fn init_state(owner: &str, timeout: u64) -> State {
    let mut state = State::new();
    instantiate(
        &mut state,
        InstantiateMsg { owner: owner.to_string(), timeout },
        true,
    )
    .unwrap();
    state
}

fn submit_msg(channel: &str, id: u64, messages: Vec<ProposalMessage>) -> ExecuteMsg {
    ExecuteMsg::IbcExecuteProposal {
        channel_id: channel.to_string(),
        proposal_id: id,
        messages,
    }
}

fn proposal_state(state: &State, id: u64) -> Result<IbcProposalState, ContractError> {
    match query(state, QueryMsg::ProposalState { id }) {
        Ok(QueryResponse::ProposalState(st)) => Ok(st),
        Ok(_) => panic!("Unexpected message"),
        Err(e) => Err(e),
    }
}

#[test]
fn test_ibc_execute() {
    let mut state = init_state(OWNER, 360);

    let channel_id = "channel-0".to_string();
    let proposal_id = 1;
    let proposal_msg = ProposalMessage {
        order: 1,
        msg: format!("bank send 100 stake to foreign_addr").into_bytes(),
    };
    let msg = submit_msg("channel-0", proposal_id, vec![proposal_msg.clone()]);
    let resp = execute(&mut state, NOW, OWNER.to_string(), msg, false).unwrap();

    assert_eq!(resp.packets.len(), 1);
    let real_deadline = NOW + 360;
    let packet = &resp.packets[0];
    if packet.channel_id == channel_id && packet.deadline == real_deadline {
        assert_eq!(packet.payload.id, proposal_id);
        assert_eq!(packet.payload.messages.len(), 1);
        assert_eq!(packet.payload.messages[0], proposal_msg);
    } else {
        panic!("Unexpected message");
    }

    let st = proposal_state(&state, proposal_id).unwrap();
    assert_eq!(st, IbcProposalState::InProgress);
}

#[test]
fn test_submit_attributes() {
    let mut state = init_state(OWNER, 10);
    let resp = execute(
        &mut state,
        NOW,
        OWNER.to_string(),
        submit_msg("channel-7", 4, vec![]),
        false,
    )
    .unwrap();
    assert_eq!(resp.attributes.len(), 2);
    assert_eq!(resp.attributes[0].key, "action");
    assert_eq!(resp.attributes[0].value, "ibc_execute");
    assert_eq!(resp.attributes[1].key, "channel");
    assert_eq!(resp.attributes[1].value, "channel-7");
}

#[test]
fn test_instantiate_timeout_bounds() {
    let mut state = State::new();
    let too_small = instantiate(
        &mut state,
        InstantiateMsg { owner: OWNER.to_string(), timeout: MIN_TIMEOUT - 1 },
        true,
    );
    assert_eq!(too_small.unwrap_err(), ContractError::InvalidTimeout);
    assert!(state.config.is_none());

    let too_large = instantiate(
        &mut state,
        InstantiateMsg { owner: OWNER.to_string(), timeout: MAX_TIMEOUT + 1 },
        true,
    );
    assert_eq!(too_large.unwrap_err(), ContractError::InvalidTimeout);
    assert!(state.config.is_none());

    let smallest = init_state(OWNER, MIN_TIMEOUT);
    assert_eq!(smallest.config.as_ref().unwrap().timeout, MIN_TIMEOUT);
    assert_eq!(smallest.config.as_ref().unwrap().owner, OWNER);

    let largest = init_state(OWNER, MAX_TIMEOUT);
    assert_eq!(largest.config.as_ref().unwrap().timeout, MAX_TIMEOUT);
}

#[test]
fn test_instantiate_invalid_address() {
    let mut state = State::new();
    let r = instantiate(
        &mut state,
        InstantiateMsg { owner: "OWNER!!".to_string(), timeout: 360 },
        false,
    );
    assert_eq!(r.unwrap_err(), ContractError::InvalidAddress);
    assert!(state.config.is_none());
    assert!(state.version.is_none());
}

#[test]
fn test_instantiate_attributes() {
    let mut state = State::new();
    let resp = instantiate(
        &mut state,
        InstantiateMsg { owner: OWNER.to_string(), timeout: 360 },
        true,
    )
    .unwrap();
    assert!(resp.packets.is_empty());
    assert_eq!(resp.attributes.len(), 1);
    assert_eq!(resp.attributes[0].key, "action");
    assert_eq!(resp.attributes[0].value, "instantiate");
    let tag = state.version.as_ref().unwrap();
    assert_eq!(tag.name, "ibc-controller");
    assert_eq!(tag.version, "1.0.0");
}

#[test]
fn test_duplicate_submit() {
    let mut state = init_state(OWNER, 360);
    execute(
        &mut state,
        NOW,
        OWNER.to_string(),
        submit_msg("channel-0", 1, vec![]),
        false,
    )
    .unwrap();
    let second = execute(
        &mut state,
        NOW,
        OWNER.to_string(),
        submit_msg("channel-0", 1, vec![]),
        false,
    );
    assert_eq!(
        second.unwrap_err(),
        ContractError::DuplicateProposal { proposal_id: 1 }
    );
    assert_eq!(proposal_state(&state, 1).unwrap(), IbcProposalState::InProgress);
}

#[test]
fn test_acknowledge_success() {
    let mut state = init_state(OWNER, 360);
    execute(
        &mut state,
        NOW,
        OWNER.to_string(),
        submit_msg("channel-0", 1, vec![]),
        false,
    )
    .unwrap();
    on_acknowledge(&mut state, 1, true);
    assert_eq!(proposal_state(&state, 1).unwrap(), IbcProposalState::Succeed);
}

#[test]
fn test_acknowledge_failure() {
    let mut state = init_state(OWNER, 360);
    execute(
        &mut state,
        NOW,
        OWNER.to_string(),
        submit_msg("channel-0", 1, vec![]),
        false,
    )
    .unwrap();
    on_acknowledge(&mut state, 1, false);
    assert_eq!(proposal_state(&state, 1).unwrap(), IbcProposalState::Failed);
}

#[test]
fn test_timeout_callback() {
    let mut state = init_state(OWNER, 360);
    execute(
        &mut state,
        NOW,
        OWNER.to_string(),
        submit_msg("channel-0", 1, vec![]),
        false,
    )
    .unwrap();
    on_timeout(&mut state, 1);
    assert_eq!(proposal_state(&state, 1).unwrap(), IbcProposalState::Failed);
}

#[test]
fn test_terminal_state_not_reverted() {
    let mut state = init_state(OWNER, 360);
    execute(
        &mut state,
        NOW,
        OWNER.to_string(),
        submit_msg("channel-0", 1, vec![]),
        false,
    )
    .unwrap();
    on_acknowledge(&mut state, 1, true);
    on_timeout(&mut state, 1);
    on_acknowledge(&mut state, 1, false);
    assert_eq!(proposal_state(&state, 1).unwrap(), IbcProposalState::Succeed);
}

#[test]
fn test_unknown_id_callbacks_ignored() {
    let mut state = init_state(OWNER, 360);
    on_acknowledge(&mut state, 9, true);
    on_timeout(&mut state, 9);
    assert_eq!(proposal_state(&state, 9).unwrap_err(), ContractError::NotFound);
}

#[test]
fn test_non_owner_unauthorized() {
    let mut state = init_state(OWNER, 360);
    let r = execute(
        &mut state,
        NOW,
        "intruder".to_string(),
        submit_msg("channel-0", 1, vec![]),
        false,
    );
    assert_eq!(r.unwrap_err(), ContractError::Unauthorized);
    assert_eq!(proposal_state(&state, 1).unwrap_err(), ContractError::NotFound);

    let r = execute(
        &mut state,
        NOW,
        "intruder".to_string(),
        ExecuteMsg::ProposeNewOwner { owner: "candidate".to_string(), expires_in: 100 },
        true,
    );
    assert_eq!(r.unwrap_err(), ContractError::Unauthorized);
    assert!(state.ownership_proposal.is_none());

    let r = execute(
        &mut state,
        NOW,
        "intruder".to_string(),
        ExecuteMsg::DropOwnershipProposal,
        false,
    );
    assert_eq!(r.unwrap_err(), ContractError::Unauthorized);
    assert_eq!(state.config.as_ref().unwrap().owner, OWNER);
}

#[test]
fn test_ownership_claim_in_time() {
    let mut state = init_state(OWNER, 360);
    let resp = execute(
        &mut state,
        NOW,
        OWNER.to_string(),
        ExecuteMsg::ProposeNewOwner { owner: "candidate".to_string(), expires_in: 100 },
        true,
    )
    .unwrap();
    assert_eq!(resp.attributes[0].value, "propose_new_owner");
    assert_eq!(resp.attributes[1].key, "new_owner");
    assert_eq!(resp.attributes[1].value, "candidate");

    let resp = execute(
        &mut state,
        NOW + 100,
        "candidate".to_string(),
        ExecuteMsg::ClaimOwnership,
        false,
    )
    .unwrap();
    assert_eq!(resp.attributes[0].value, "claim_ownership");
    assert_eq!(state.config.as_ref().unwrap().owner, "candidate");
    assert!(state.ownership_proposal.is_none());

    // the new owner is authorized from now on, the old one no longer
    execute(
        &mut state,
        NOW + 101,
        "candidate".to_string(),
        submit_msg("channel-0", 1, vec![]),
        false,
    )
    .unwrap();
    let r = execute(
        &mut state,
        NOW + 101,
        OWNER.to_string(),
        submit_msg("channel-0", 2, vec![]),
        false,
    );
    assert_eq!(r.unwrap_err(), ContractError::Unauthorized);
}

#[test]
fn test_ownership_claim_expired() {
    let mut state = init_state(OWNER, 360);
    execute(
        &mut state,
        NOW,
        OWNER.to_string(),
        ExecuteMsg::ProposeNewOwner { owner: "candidate".to_string(), expires_in: 100 },
        true,
    )
    .unwrap();
    let r = execute(
        &mut state,
        NOW + 101,
        "candidate".to_string(),
        ExecuteMsg::ClaimOwnership,
        false,
    );
    assert_eq!(r.unwrap_err(), ContractError::ExpiredProposal);
    assert_eq!(state.config.as_ref().unwrap().owner, OWNER);
    assert!(state.ownership_proposal.is_some());
}

#[test]
fn test_drop_ownership_proposal() {
    let mut state = init_state(OWNER, 360);
    execute(
        &mut state,
        NOW,
        OWNER.to_string(),
        ExecuteMsg::ProposeNewOwner { owner: "candidate".to_string(), expires_in: 100 },
        true,
    )
    .unwrap();
    let resp = execute(
        &mut state,
        NOW,
        OWNER.to_string(),
        ExecuteMsg::DropOwnershipProposal,
        false,
    )
    .unwrap();
    assert_eq!(resp.attributes[0].value, "drop_ownership_proposal");
    assert!(state.ownership_proposal.is_none());
    let r = execute(
        &mut state,
        NOW,
        "candidate".to_string(),
        ExecuteMsg::ClaimOwnership,
        false,
    );
    assert_eq!(r.unwrap_err(), ContractError::NotFound);
}

#[test]
fn test_propose_candidate_equals_owner() {
    let mut state = init_state(OWNER, 360);
    let r = execute(
        &mut state,
        NOW,
        OWNER.to_string(),
        ExecuteMsg::ProposeNewOwner { owner: OWNER.to_string(), expires_in: 100 },
        true,
    );
    assert_eq!(r.unwrap_err(), ContractError::InvalidCandidate);
    assert!(state.ownership_proposal.is_none());
}

#[test]
fn test_propose_malformed_candidate() {
    let mut state = init_state(OWNER, 360);
    let r = execute(
        &mut state,
        NOW,
        OWNER.to_string(),
        ExecuteMsg::ProposeNewOwner { owner: "NOT VALID".to_string(), expires_in: 100 },
        false,
    );
    assert_eq!(r.unwrap_err(), ContractError::InvalidAddress);
    assert!(state.ownership_proposal.is_none());
}

#[test]
fn test_migration_supported() {
    let mut state = State::new();
    state.version = Some(VersionTag {
        name: "ibc-controller".to_string(),
        version: "0.1.0".to_string(),
    });
    state.legacy_config = Some(LegacyConfig {
        owner: OWNER.to_string(),
        timeout: 360,
        channel: Some("channel-3".to_string()),
    });
    let resp = migrate(&mut state).unwrap();

    let cfg = state.config.as_ref().unwrap();
    assert_eq!(cfg.owner, OWNER);
    assert_eq!(cfg.timeout, 360);
    assert!(state.legacy_config.is_none());
    let tag = state.version.as_ref().unwrap();
    assert_eq!(tag.name, "ibc-controller");
    assert_eq!(tag.version, "1.0.0");

    assert_eq!(resp.attributes.len(), 4);
    assert_eq!(resp.attributes[0].key, "previous_contract_name");
    assert_eq!(resp.attributes[0].value, "ibc-controller");
    assert_eq!(resp.attributes[1].key, "previous_contract_version");
    assert_eq!(resp.attributes[1].value, "0.1.0");
    assert_eq!(resp.attributes[2].key, "new_contract_name");
    assert_eq!(resp.attributes[2].value, "ibc-controller");
    assert_eq!(resp.attributes[3].key, "new_contract_version");
    assert_eq!(resp.attributes[3].value, "1.0.0");
}

#[test]
fn test_migration_unsupported() {
    let mut state = State::new();
    state.version = Some(VersionTag {
        name: "ibc-controller".to_string(),
        version: "1.0.0".to_string(),
    });
    state.legacy_config = Some(LegacyConfig {
        owner: OWNER.to_string(),
        timeout: 360,
        channel: None,
    });
    let r = migrate(&mut state);
    assert_eq!(r.unwrap_err(), ContractError::UnsupportedMigration);
    assert!(state.config.is_none());
    assert!(state.legacy_config.is_some());
    assert_eq!(state.version.as_ref().unwrap().version, "1.0.0");

    state.version = Some(VersionTag {
        name: "another-contract".to_string(),
        version: "0.1.0".to_string(),
    });
    let r = migrate(&mut state);
    assert_eq!(r.unwrap_err(), ContractError::UnsupportedMigration);
    assert!(state.config.is_none());
}

#[test]
fn test_query_unknown_proposal() {
    let state = init_state(OWNER, 360);
    assert_eq!(proposal_state(&state, 42).unwrap_err(), ContractError::NotFound);
}

#[test]
fn test_last_error() {
    let mut state = init_state(OWNER, 360);
    match query(&state, QueryMsg::LastError).unwrap() {
        QueryResponse::LastError(e) => assert!(e.is_none()),
        _ => panic!("Unexpected message"),
    }
    record_last_error(&mut state, "packet 3 rejected by counterparty".to_string());
    match query(&state, QueryMsg::LastError).unwrap() {
        QueryResponse::LastError(e) => {
            assert_eq!(e.unwrap(), "packet 3 rejected by counterparty")
        }
        _ => panic!("Unexpected message"),
    }
}

#[test]
fn test_tracker_append_only() {
    let mut state = init_state(OWNER, 360);
    execute(
        &mut state,
        NOW,
        OWNER.to_string(),
        submit_msg("channel-0", 1, vec![]),
        false,
    )
    .unwrap();
    execute(
        &mut state,
        NOW + 5,
        OWNER.to_string(),
        submit_msg("channel-1", 2, vec![]),
        false,
    )
    .unwrap();
    on_acknowledge(&mut state, 1, true);
    assert_eq!(proposal_state(&state, 1).unwrap(), IbcProposalState::Succeed);
    assert_eq!(proposal_state(&state, 2).unwrap(), IbcProposalState::InProgress);
    assert_eq!(state.proposals.len(), 2);
}

#[test]
fn test_timeout_immutable_across_claim() {
    let mut state = init_state(OWNER, 360);
    execute(
        &mut state,
        NOW,
        OWNER.to_string(),
        ExecuteMsg::ProposeNewOwner { owner: "candidate".to_string(), expires_in: 100 },
        true,
    )
    .unwrap();
    execute(
        &mut state,
        NOW + 1,
        "candidate".to_string(),
        ExecuteMsg::ClaimOwnership,
        false,
    )
    .unwrap();
    let cfg = state.config.as_ref().unwrap();
    assert_eq!(cfg.owner, "candidate");
    assert_eq!(cfg.timeout, 360);
}

#[test]
fn test_state_tags() {
    assert_eq!(IbcProposalState::InProgress.as_str(), "in_progress");
    assert_eq!(IbcProposalState::Succeed.as_str(), "succeed");
    assert_eq!(IbcProposalState::Failed.as_str(), "failed");
}
