use vstd::prelude::*;
use crate::error::ContractError;
use crate::msg::{ExecuteMsg, IbcProposalState, ProposalMessage};
use crate::response::{PacketModel, ResponseModel};
use crate::state::{ConfigModel, StateModel, VersionModel, MAX_TIMEOUT, MIN_TIMEOUT};
use crate::contract::{
    migration_supported, spec_attr, spec_claim, spec_execute, spec_instantiate, spec_migrate,
    spec_on_acknowledge, spec_on_timeout, spec_propose, spec_submit,
};
use crate::state::{spec_contract_name, spec_contract_version};

verus! {

/// Instantiation accepts exactly the timeouts in
/// [`MIN_TIMEOUT`, `MAX_TIMEOUT`]: outside the range it fails
/// `InvalidTimeout` and stores nothing; inside it (with a well-formed owner)
/// it succeeds and stores owner and timeout verbatim.
pub proof fn lemma_instantiate_timeout_bounds(
    s: StateModel,
    owner: Seq<char>,
    owner_valid: bool,
    timeout: u64,
)
    ensures
        !(MIN_TIMEOUT <= timeout <= MAX_TIMEOUT) ==> spec_instantiate(
            s,
            owner,
            owner_valid,
            timeout,
        ) == (s, Err::<ResponseModel, ContractError>(ContractError::InvalidTimeout)),
        MIN_TIMEOUT <= timeout <= MAX_TIMEOUT && owner_valid ==> spec_instantiate(
            s,
            owner,
            owner_valid,
            timeout,
        ).1 is Ok && spec_instantiate(s, owner, owner_valid, timeout).0.config == Some(
            ConfigModel { owner, timeout },
        ),
{
}

/// Dispatch is exactly-once per id: after a successful `submit` of `id`,
/// a second `submit` of the same id — whatever its channel, messages or
/// time — fails `DuplicateProposal`, changes nothing, and the tracker still
/// reads `InProgress` for `id`.
pub proof fn lemma_duplicate_submit(
    s: StateModel,
    now1: u64,
    now2: u64,
    sender: Seq<char>,
    channel1: Seq<char>,
    channel2: Seq<char>,
    id: u64,
    messages1: Seq<ProposalMessage>,
    messages2: Seq<ProposalMessage>,
)
    requires
        spec_submit(s, now1, sender, channel1, id, messages1).1 is Ok,
    ensures
        ({
            let s1 = spec_submit(s, now1, sender, channel1, id, messages1).0;
            &&& spec_submit(s1, now2, sender, channel2, id, messages2).1 == Err::<
                ResponseModel,
                ContractError,
            >(ContractError::DuplicateProposal { proposal_id: id })
            &&& spec_submit(s1, now2, sender, channel2, id, messages2).0 == s1
            &&& s1.proposals[id] == IbcProposalState::InProgress
        }),
{
}

/// A successful dispatch emits exactly one packet, to the named channel,
/// whose payload is `{proposal_id, messages}` unchanged and whose deadline
/// is the call time plus the configured timeout; and it records the id as
/// `InProgress`.
pub proof fn lemma_submit_packet(
    s: StateModel,
    now: u64,
    sender: Seq<char>,
    channel_id: Seq<char>,
    proposal_id: u64,
    messages: Seq<ProposalMessage>,
    timeout: u64,
)
    requires
        s.config is Some && s.config->Some_0.owner == sender && s.config->Some_0.timeout
            == timeout,
        !s.proposals.contains_key(proposal_id),
        now + timeout <= u64::MAX,
    ensures
        spec_submit(s, now, sender, channel_id, proposal_id, messages).1 == Ok::<
            ResponseModel,
            ContractError,
        >(
            ResponseModel {
                packets: seq![
                    (PacketModel {
                        channel_id,
                        id: proposal_id,
                        messages,
                        deadline: (now + timeout) as u64,
                    }),
                ],
                attributes: seq![
                    spec_attr("action"@, "ibc_execute"@),
                    spec_attr("channel"@, channel_id),
                ],
            },
        ),
        spec_submit(s, now, sender, channel_id, proposal_id, messages).0 == (StateModel {
            proposals: s.proposals.insert(proposal_id, IbcProposalState::InProgress),
            ..s
        }),
{
}

/// A transport callback moves an `InProgress` entry to the matching
/// terminal state: a positive acknowledgement to `Succeed`, a negative one
/// or a timeout to `Failed`. No other entry moves.
pub proof fn lemma_callback_outcomes(s: StateModel, id: u64)
    requires
        s.proposals.contains_key(id),
        s.proposals[id] == IbcProposalState::InProgress,
    ensures
        spec_on_acknowledge(s, id, true).proposals[id] == IbcProposalState::Succeed,
        spec_on_acknowledge(s, id, false).proposals[id] == IbcProposalState::Failed,
        spec_on_timeout(s, id).proposals[id] == IbcProposalState::Failed,
{
}

/// A terminal state is final: once an entry reads `Succeed` or `Failed`,
/// any later acknowledgement or timeout callback leaves the whole store
/// untouched. An unknown id is likewise ignored.
pub proof fn lemma_terminal_state_stable(s: StateModel, id: u64, success: bool)
    requires
        s.proposals.contains_key(id) ==> s.proposals[id].is_terminal(),
    ensures
        spec_on_acknowledge(s, id, success) == s,
        spec_on_timeout(s, id) == s,
{
}

/// The ownership handshake: after the owner proposes a well-formed
/// candidate valid for `expires_in` seconds, a claim by the candidate past
/// the expiry fails `ExpiredProposal` and changes nothing, while a claim at
/// or before the expiry succeeds, and from then on the candidate — and no
/// longer the proposer — is the authorized owner.
pub proof fn lemma_propose_then_claim(
    s: StateModel,
    now: u64,
    claim_time: u64,
    sender: Seq<char>,
    candidate: Seq<char>,
    expires_in: u64,
)
    requires
        spec_propose(s, now, sender, candidate, true, expires_in).1 is Ok,
        now + expires_in <= u64::MAX,
    ensures
        ({
            let s1 = spec_propose(s, now, sender, candidate, true, expires_in).0;
            &&& claim_time > now + expires_in ==> spec_claim(s1, claim_time, candidate) == (
                s1,
                Err::<ResponseModel, ContractError>(ContractError::ExpiredProposal),
            )
            &&& claim_time <= now + expires_in ==> ({
                let s2 = spec_claim(s1, claim_time, candidate).0;
                &&& spec_claim(s1, claim_time, candidate).1 is Ok
                &&& s2.authorized(candidate)
                &&& !s2.authorized(sender)
                &&& s2.ownership_proposal is None
            })
        }),
{
}

/// Every mutating command by a caller who is not the owner — and, for a
/// claim, not the proposed candidate either — fails `Unauthorized` and
/// changes nothing. (A claim while no proposal is stored fails `NotFound`
/// instead, so that case is excluded here.)
pub proof fn lemma_non_owner_rejected(
    s: StateModel,
    now: u64,
    sender: Seq<char>,
    msg: ExecuteMsg,
    candidate_valid: bool,
)
    requires
        s.config is Some && s.config->Some_0.owner != sender,
        msg is ClaimOwnership ==> s.ownership_proposal is Some
            && s.ownership_proposal->Some_0.candidate != sender,
    ensures
        spec_execute(s, now, sender, msg, candidate_valid) == (
            s,
            Err::<ResponseModel, ContractError>(ContractError::Unauthorized),
        ),
{
}

/// Migration from the one recognized predecessor tag folds the
/// predecessor's record into the current configuration — owner and timeout
/// preserved verbatim — and brings the tag up to date; any other stored tag
/// is rejected with `UnsupportedMigration` and nothing moves.
pub proof fn lemma_migration(s: StateModel)
    ensures
        (s.version is Some && migration_supported(s.version->Some_0) && s.legacy_config is Some)
            ==> ({
            let lc = s.legacy_config->Some_0;
            let s1 = spec_migrate(s).0;
            &&& spec_migrate(s).1 is Ok
            &&& s1.config == Some(ConfigModel { owner: lc.owner, timeout: lc.timeout })
            &&& s1.version == Some(
                VersionModel { name: spec_contract_name(), version: spec_contract_version() },
            )
            &&& s1.proposals == s.proposals
            &&& s1.ownership_proposal == s.ownership_proposal
        }),
        (s.version is Some && !migration_supported(s.version->Some_0)) ==> spec_migrate(s) == (
            s,
            Err::<ResponseModel, ContractError>(ContractError::UnsupportedMigration),
        ),
{
}

/// The tracker is append-only: no command removes or rewrites an entry —
/// at most it adds one — and the transport callbacks never touch the id
/// set. Ids are therefore never recycled.
pub proof fn lemma_tracker_append_only(
    s: StateModel,
    now: u64,
    sender: Seq<char>,
    msg: ExecuteMsg,
    candidate_valid: bool,
    ack_id: u64,
    ack_success: bool,
)
    ensures
        ({
            let s1 = spec_execute(s, now, sender, msg, candidate_valid).0;
            forall|id: u64| #[trigger]
                s.proposals.contains_key(id) ==> s1.proposals.contains_key(id)
                    && s1.proposals[id] == s.proposals[id]
        }),
        spec_on_acknowledge(s, ack_id, ack_success).proposals.dom() == s.proposals.dom(),
        spec_on_timeout(s, ack_id).proposals.dom() == s.proposals.dom(),
{
    if s.proposals.contains_key(ack_id) && s.proposals[ack_id] == IbcProposalState::InProgress {
        assert(spec_on_acknowledge(s, ack_id, ack_success).proposals.dom()
            =~= s.proposals.dom());
        assert(spec_on_timeout(s, ack_id).proposals.dom() =~= s.proposals.dom());
    }
}

/// The configuration is stable under commands: the timeout is never mutated
/// after creation, a configured store never loses its configuration, the
/// invariant on the timeout is preserved, and the owner moves only when a
/// claim succeeds.
pub proof fn lemma_execute_preserves_config(
    s: StateModel,
    now: u64,
    sender: Seq<char>,
    msg: ExecuteMsg,
    candidate_valid: bool,
)
    ensures
        ({
            let s1 = spec_execute(s, now, sender, msg, candidate_valid).0;
            &&& s.config is Some ==> s1.config is Some && s1.config->Some_0.timeout
                == s.config->Some_0.timeout
            &&& s.config is None ==> s1.config is None
            &&& s.well_formed() ==> s1.well_formed()
            &&& (s.config is Some && s1.config->Some_0.owner != s.config->Some_0.owner)
                ==> msg is ClaimOwnership && spec_execute(
                s,
                now,
                sender,
                msg,
                candidate_valid,
            ).1 is Ok
        }),
{
}

} // verus!
