use vstd::prelude::*;
use crate::error::ContractError;
use crate::msg::{
    ExecuteMsg, IbcProposal, IbcProposalState, InstantiateMsg, ProposalMessage, QueryMsg,
    QueryResponse, QueryResponseModel,
};
use crate::response::{Attribute, AttributeModel, Packet, PacketModel, Response, ResponseModel};
use crate::state::{
    Config, ConfigModel, OwnershipModel, OwnershipProposal, State, StateModel, VersionModel,
    VersionTag, spec_contract_name, spec_contract_version, contract_name, contract_version,
    MAX_TIMEOUT, MIN_TIMEOUT,
};

verus! {

broadcast use vstd::std_specs::hash::group_hash_axioms;

pub open spec fn spec_attr(key: Seq<char>, value: Seq<char>) -> AttributeModel {
    AttributeModel { key, value }
}

/// The abstract value of an invocation's outcome: the error, or the
/// response's abstract value.
pub open spec fn result_model(r: Result<Response, ContractError>) -> Result<
    ResponseModel,
    ContractError,
> {
    match r {
        Ok(resp) => Ok(resp@),
        Err(e) => Err(e),
    }
}

/// What instantiation does: reject a timeout outside
/// [`MIN_TIMEOUT`, `MAX_TIMEOUT`], reject an owner the host found malformed,
/// and otherwise store the configuration verbatim and stamp the current
/// version tag. A rejected instantiation changes nothing.
pub open spec fn spec_instantiate(
    s: StateModel,
    owner: Seq<char>,
    owner_valid: bool,
    timeout: u64,
) -> (StateModel, Result<ResponseModel, ContractError>) {
    if !(MIN_TIMEOUT <= timeout && timeout <= MAX_TIMEOUT) {
        (s, Err(ContractError::InvalidTimeout))
    } else if !owner_valid {
        (s, Err(ContractError::InvalidAddress))
    } else {
        (
            StateModel {
                version: Some(
                    VersionModel {
                        name: spec_contract_name(),
                        version: spec_contract_version(),
                    },
                ),
                config: Some(ConfigModel { owner, timeout }),
                ..s
            },
            Ok(
                ResponseModel {
                    packets: Seq::empty(),
                    attributes: seq![spec_attr("action"@, "instantiate"@)],
                },
            ),
        )
    }
}

/// What dispatching a proposal does: only the owner may dispatch; an id that
/// already exists is rejected; otherwise exactly one packet leaves for
/// `channel_id`, carrying `{proposal_id, messages}` with deadline
/// `now + timeout`, and the tracker gains `proposal_id -> InProgress`.
/// A rejected dispatch changes nothing and emits nothing.
pub open spec fn spec_submit(
    s: StateModel,
    now: u64,
    sender: Seq<char>,
    channel_id: Seq<char>,
    proposal_id: u64,
    messages: Seq<ProposalMessage>,
) -> (StateModel, Result<ResponseModel, ContractError>) {
    match s.config {
        None => (s, Err(ContractError::NotFound)),
        Some(cfg) => if cfg.owner != sender {
            (s, Err(ContractError::Unauthorized))
        } else if s.proposals.contains_key(proposal_id) {
            (s, Err(ContractError::DuplicateProposal { proposal_id }))
        } else {
            (
                StateModel {
                    proposals: s.proposals.insert(proposal_id, IbcProposalState::InProgress),
                    ..s
                },
                Ok(
                    ResponseModel {
                        packets: seq![
                            (PacketModel {
                                channel_id,
                                id: proposal_id,
                                messages,
                                deadline: (now + cfg.timeout) as u64,
                            }),
                        ],
                        attributes: seq![
                            spec_attr("action"@, "ibc_execute"@),
                            spec_attr("channel"@, channel_id),
                        ],
                    },
                ),
            )
        },
    }
}

/// What proposing a new owner does: only the owner may propose; the
/// candidate must be well-formed per the host and differ from the current
/// owner; the stored proposal (overwriting any prior one) names the
/// candidate and expires at `now + expires_in`. A rejection changes nothing.
pub open spec fn spec_propose(
    s: StateModel,
    now: u64,
    sender: Seq<char>,
    candidate: Seq<char>,
    candidate_valid: bool,
    expires_in: u64,
) -> (StateModel, Result<ResponseModel, ContractError>) {
    match s.config {
        None => (s, Err(ContractError::NotFound)),
        Some(cfg) => if cfg.owner != sender {
            (s, Err(ContractError::Unauthorized))
        } else if !candidate_valid {
            (s, Err(ContractError::InvalidAddress))
        } else if candidate == cfg.owner {
            (s, Err(ContractError::InvalidCandidate))
        } else {
            (
                StateModel {
                    ownership_proposal: Some(
                        OwnershipModel { candidate, expiry: (now + expires_in) as u64 },
                    ),
                    ..s
                },
                Ok(
                    ResponseModel {
                        packets: Seq::empty(),
                        attributes: seq![
                            spec_attr("action"@, "propose_new_owner"@),
                            spec_attr("new_owner"@, candidate),
                        ],
                    },
                ),
            )
        },
    }
}

/// What dropping the ownership proposal does: only the owner may drop; the
/// stored proposal, present or not, is gone afterwards.
pub open spec fn spec_drop(s: StateModel, sender: Seq<char>) -> (
    StateModel,
    Result<ResponseModel, ContractError>,
) {
    match s.config {
        None => (s, Err(ContractError::NotFound)),
        Some(cfg) => if cfg.owner != sender {
            (s, Err(ContractError::Unauthorized))
        } else {
            (
                StateModel { ownership_proposal: None, ..s },
                Ok(
                    ResponseModel {
                        packets: Seq::empty(),
                        attributes: seq![spec_attr("action"@, "drop_ownership_proposal"@)],
                    },
                ),
            )
        },
    }
}

/// What claiming ownership does: there must be a live proposal, the caller
/// must be its candidate, and `now` must not lie past its expiry; then, in
/// one step, the proposal is consumed and the owner becomes the candidate.
/// A rejection changes nothing.
pub open spec fn spec_claim(s: StateModel, now: u64, sender: Seq<char>) -> (
    StateModel,
    Result<ResponseModel, ContractError>,
) {
    match s.config {
        None => (s, Err(ContractError::NotFound)),
        Some(cfg) => match s.ownership_proposal {
            None => (s, Err(ContractError::NotFound)),
            Some(p) => if p.candidate != sender {
                (s, Err(ContractError::Unauthorized))
            } else if now > p.expiry {
                (s, Err(ContractError::ExpiredProposal))
            } else {
                (
                    StateModel {
                        config: Some(ConfigModel { owner: p.candidate, timeout: cfg.timeout }),
                        ownership_proposal: None,
                        ..s
                    },
                    Ok(
                        ResponseModel {
                            packets: Seq::empty(),
                            attributes: seq![
                                spec_attr("action"@, "claim_ownership"@),
                                spec_attr("new_owner"@, p.candidate),
                            ],
                        },
                    ),
                )
            },
        },
    }
}

/// What one command does, by dispatch on the message.
pub open spec fn spec_execute(
    s: StateModel,
    now: u64,
    sender: Seq<char>,
    msg: ExecuteMsg,
    candidate_valid: bool,
) -> (StateModel, Result<ResponseModel, ContractError>) {
    match msg {
        ExecuteMsg::IbcExecuteProposal { channel_id, proposal_id, messages } => spec_submit(
            s,
            now,
            sender,
            channel_id@,
            proposal_id,
            messages@,
        ),
        ExecuteMsg::ProposeNewOwner { owner, expires_in } => spec_propose(
            s,
            now,
            sender,
            owner@,
            candidate_valid,
            expires_in,
        ),
        ExecuteMsg::DropOwnershipProposal => spec_drop(s, sender),
        ExecuteMsg::ClaimOwnership => spec_claim(s, now, sender),
    }
}

/// The machine-limit precondition of [`execute`]: the one deadline sum the
/// command computes must fit in 64 bits.
pub open spec fn no_deadline_overflow(s: StateModel, now: u64, msg: ExecuteMsg) -> bool {
    match msg {
        ExecuteMsg::IbcExecuteProposal { .. } => match s.config {
            Some(cfg) => now + cfg.timeout <= u64::MAX,
            None => true,
        },
        ExecuteMsg::ProposeNewOwner { expires_in, .. } => now + expires_in <= u64::MAX,
        _ => true,
    }
}

/// What a query returns; queries never change state.
pub open spec fn spec_query(s: StateModel, msg: QueryMsg) -> Result<
    QueryResponseModel,
    ContractError,
> {
    match msg {
        QueryMsg::ProposalState { id } => if s.proposals.contains_key(id) {
            Ok(QueryResponseModel::ProposalState(s.proposals[id]))
        } else {
            Err(ContractError::NotFound)
        },
        QueryMsg::LastError => Ok(QueryResponseModel::LastError(s.last_error)),
    }
}

/// The abstract value of a query's outcome.
pub open spec fn query_result_model(r: Result<QueryResponse, ContractError>) -> Result<
    QueryResponseModel,
    ContractError,
> {
    match r {
        Ok(resp) => Ok(resp@),
        Err(e) => Err(e),
    }
}

/// Whether the stored tag is in the supported-upgrade table.
pub open spec fn migration_supported(tag: VersionModel) -> bool {
    tag.name == spec_contract_name() && tag.version == "0.1.0"@
}

/// What migration does: a stored tag outside the supported-upgrade table —
/// the current tag included — is rejected; for a supported tag the
/// predecessor's record is folded into the current configuration, owner and
/// timeout preserved, and the tag is brought up to date. A rejection
/// changes nothing.
pub open spec fn spec_migrate(s: StateModel) -> (StateModel, Result<ResponseModel, ContractError>) {
    match s.version {
        None => (s, Err(ContractError::NotFound)),
        Some(tag) => if !migration_supported(tag) {
            (s, Err(ContractError::UnsupportedMigration))
        } else {
            match s.legacy_config {
                None => (s, Err(ContractError::NotFound)),
                Some(lc) => (
                    StateModel {
                        version: Some(
                            VersionModel {
                                name: spec_contract_name(),
                                version: spec_contract_version(),
                            },
                        ),
                        config: Some(ConfigModel { owner: lc.owner, timeout: lc.timeout }),
                        legacy_config: None,
                        ..s
                    },
                    Ok(
                        ResponseModel {
                            packets: Seq::empty(),
                            attributes: seq![
                                spec_attr("previous_contract_name"@, tag.name),
                                spec_attr("previous_contract_version"@, tag.version),
                                spec_attr("new_contract_name"@, spec_contract_name()),
                                spec_attr("new_contract_version"@, spec_contract_version()),
                            ],
                        },
                    ),
                ),
            }
        },
    }
}

/// What a delivery acknowledgement does: an `InProgress` entry becomes
/// `Succeed` or `Failed` by the reported outcome; an unknown id and a
/// terminal entry are left untouched.
pub open spec fn spec_on_acknowledge(s: StateModel, id: u64, success: bool) -> StateModel {
    if s.proposals.contains_key(id) && s.proposals[id] == IbcProposalState::InProgress {
        StateModel {
            proposals: s.proposals.insert(
                id,
                if success {
                    IbcProposalState::Succeed
                } else {
                    IbcProposalState::Failed
                },
            ),
            ..s
        }
    } else {
        s
    }
}

/// What a delivery timeout does: an `InProgress` entry becomes `Failed`;
/// an unknown id and a terminal entry are left untouched.
pub open spec fn spec_on_timeout(s: StateModel, id: u64) -> StateModel {
    if s.proposals.contains_key(id) && s.proposals[id] == IbcProposalState::InProgress {
        StateModel { proposals: s.proposals.insert(id, IbcProposalState::Failed), ..s }
    } else {
        s
    }
}

fn attr(key: &str, value: String) -> (a: Attribute)
    ensures
        a@ == spec_attr(key@, value@),
{
    Attribute { key: key.to_owned(), value }
}

/// Creates the controller: stores `{owner, timeout}` and the current version
/// tag, or rejects the input. `owner_valid` is the host's verdict on the
/// owner identity; the host alone can judge an address.
pub fn instantiate(state: &mut State, msg: InstantiateMsg, owner_valid: bool) -> (r: Result<
    Response,
    ContractError,
>)
    ensures
        final(state)@ == spec_instantiate(old(state)@, msg.owner@, owner_valid, msg.timeout).0,
        result_model(r) == spec_instantiate(old(state)@, msg.owner@, owner_valid, msg.timeout).1,
{
    if !(MIN_TIMEOUT <= msg.timeout && msg.timeout <= MAX_TIMEOUT) {
        return Err(ContractError::InvalidTimeout);
    }
    if !owner_valid {
        return Err(ContractError::InvalidAddress);
    }
    state.version = Some(VersionTag { name: contract_name(), version: contract_version() });
    state.config = Some(Config { owner: msg.owner, timeout: msg.timeout });
    let mut attributes: Vec<Attribute> = Vec::new();
    attributes.push(attr("action", "instantiate".to_owned()));
    let resp = Response { packets: Vec::new(), attributes };
    proof {
        assert(resp@.packets =~= Seq::<PacketModel>::empty());
        assert(resp@.attributes =~= seq![spec_attr("action"@, "instantiate"@)]);
        assert(final(state)@ =~= spec_instantiate(
            old(state)@,
            msg.owner@,
            owner_valid,
            msg.timeout,
        ).0);
        assert(resp@ =~= (ResponseModel {
            packets: Seq::empty(),
            attributes: seq![spec_attr("action"@, "instantiate"@)],
        }));
    }
    Ok(resp)
}

fn do_submit(
    state: &mut State,
    now: u64,
    sender: &String,
    channel_id: String,
    proposal_id: u64,
    messages: Vec<ProposalMessage>,
) -> (r: Result<Response, ContractError>)
    requires
        (match old(state)@.config {
            Some(cfg) => now + cfg.timeout <= u64::MAX,
            None => true,
        }),
    ensures
        final(state)@ == spec_submit(
            old(state)@,
            now,
            sender@,
            channel_id@,
            proposal_id,
            messages@,
        ).0,
        result_model(r) == spec_submit(
            old(state)@,
            now,
            sender@,
            channel_id@,
            proposal_id,
            messages@,
        ).1,
{
    let cfg_timeout: u64 = match &state.config {
        None => {
            return Err(ContractError::NotFound);
        },
        Some(cfg) => {
            if !(cfg.owner == *sender) {
                return Err(ContractError::Unauthorized);
            }
            cfg.timeout
        },
    };
    if state.proposals.contains_key(&proposal_id) {
        return Err(ContractError::DuplicateProposal { proposal_id });
    }
    let deadline = now + cfg_timeout;
    state.proposals.insert(proposal_id, IbcProposalState::InProgress);
    let packet = Packet {
        channel_id: channel_id.clone(),
        payload: IbcProposal { id: proposal_id, messages },
        deadline,
    };
    let ghost packet_model = packet@;
    let mut packets: Vec<Packet> = Vec::new();
    packets.push(packet);
    let mut attributes: Vec<Attribute> = Vec::new();
    attributes.push(attr("action", "ibc_execute".to_owned()));
    attributes.push(attr("channel", channel_id));
    let resp = Response { packets, attributes };
    proof {
        let target = spec_submit(old(state)@, now, sender@, channel_id@, proposal_id, messages@);
        assert(resp@.packets =~= seq![packet_model]);
        assert(resp@.attributes =~= seq![
            spec_attr("action"@, "ibc_execute"@),
            spec_attr("channel"@, channel_id@),
        ]);
        assert(final(state)@ =~= target.0);
        assert(result_model(Ok(resp)) =~= target.1);
    }
    Ok(resp)
}

fn do_propose(
    state: &mut State,
    now: u64,
    sender: &String,
    candidate: String,
    candidate_valid: bool,
    expires_in: u64,
) -> (r: Result<Response, ContractError>)
    requires
        now + expires_in <= u64::MAX,
    ensures
        final(state)@ == spec_propose(
            old(state)@,
            now,
            sender@,
            candidate@,
            candidate_valid,
            expires_in,
        ).0,
        result_model(r) == spec_propose(
            old(state)@,
            now,
            sender@,
            candidate@,
            candidate_valid,
            expires_in,
        ).1,
{
    match &state.config {
        None => {
            return Err(ContractError::NotFound);
        },
        Some(cfg) => {
            if !(cfg.owner == *sender) {
                return Err(ContractError::Unauthorized);
            }
            if !candidate_valid {
                return Err(ContractError::InvalidAddress);
            }
            if cfg.owner == candidate {
                return Err(ContractError::InvalidCandidate);
            }
        },
    }
    let expiry = now + expires_in;
    state.ownership_proposal = Some(
        OwnershipProposal { candidate: candidate.clone(), expiry },
    );
    let mut attributes: Vec<Attribute> = Vec::new();
    attributes.push(attr("action", "propose_new_owner".to_owned()));
    attributes.push(attr("new_owner", candidate));
    let resp = Response { packets: Vec::new(), attributes };
    proof {
        let target = spec_propose(
            old(state)@,
            now,
            sender@,
            candidate@,
            candidate_valid,
            expires_in,
        );
        assert(resp@.packets =~= Seq::<PacketModel>::empty());
        assert(resp@.attributes =~= seq![
            spec_attr("action"@, "propose_new_owner"@),
            spec_attr("new_owner"@, candidate@),
        ]);
        assert(final(state)@ =~= target.0);
        assert(result_model(Ok(resp)) =~= target.1);
    }
    Ok(resp)
}

fn do_drop(state: &mut State, sender: &String) -> (r: Result<Response, ContractError>)
    ensures
        final(state)@ == spec_drop(old(state)@, sender@).0,
        result_model(r) == spec_drop(old(state)@, sender@).1,
{
    match &state.config {
        None => {
            return Err(ContractError::NotFound);
        },
        Some(cfg) => {
            if !(cfg.owner == *sender) {
                return Err(ContractError::Unauthorized);
            }
        },
    }
    state.ownership_proposal = None;
    let mut attributes: Vec<Attribute> = Vec::new();
    attributes.push(attr("action", "drop_ownership_proposal".to_owned()));
    let resp = Response { packets: Vec::new(), attributes };
    proof {
        let target = spec_drop(old(state)@, sender@);
        assert(resp@.packets =~= Seq::<PacketModel>::empty());
        assert(resp@.attributes =~= seq![spec_attr("action"@, "drop_ownership_proposal"@)]);
        assert(final(state)@ =~= target.0);
        assert(result_model(Ok(resp)) =~= target.1);
    }
    Ok(resp)
}

fn do_claim(state: &mut State, now: u64, sender: &String) -> (r: Result<Response, ContractError>)
    ensures
        final(state)@ == spec_claim(old(state)@, now, sender@).0,
        result_model(r) == spec_claim(old(state)@, now, sender@).1,
{
    let (candidate, cfg_timeout): (String, u64) = match &state.config {
        None => {
            return Err(ContractError::NotFound);
        },
        Some(cfg) => match &state.ownership_proposal {
            None => {
                return Err(ContractError::NotFound);
            },
            Some(p) => {
                if !(p.candidate == *sender) {
                    return Err(ContractError::Unauthorized);
                }
                if now > p.expiry {
                    return Err(ContractError::ExpiredProposal);
                }
                (p.candidate.clone(), cfg.timeout)
            },
        },
    };
    let ghost cand_view = candidate@;
    state.config = Some(Config { owner: candidate.clone(), timeout: cfg_timeout });
    state.ownership_proposal = None;
    let mut attributes: Vec<Attribute> = Vec::new();
    attributes.push(attr("action", "claim_ownership".to_owned()));
    attributes.push(attr("new_owner", candidate));
    let resp = Response { packets: Vec::new(), attributes };
    proof {
        let target = spec_claim(old(state)@, now, sender@);
        assert(resp@.packets =~= Seq::<PacketModel>::empty());
        assert(resp@.attributes =~= seq![
            spec_attr("action"@, "claim_ownership"@),
            spec_attr("new_owner"@, cand_view),
        ]);
        assert(final(state)@ =~= target.0);
        assert(result_model(Ok(resp)) =~= target.1);
    }
    Ok(resp)
}

/// Runs one command for `sender` at time `now` (seconds). `candidate_valid`
/// is the host's verdict on the candidate identity inside `ProposeNewOwner`;
/// it is ignored by every other command.
pub fn execute(
    state: &mut State,
    now: u64,
    sender: String,
    msg: ExecuteMsg,
    candidate_valid: bool,
) -> (r: Result<Response, ContractError>)
    requires
        no_deadline_overflow(old(state)@, now, msg),
    ensures
        final(state)@ == spec_execute(old(state)@, now, sender@, msg, candidate_valid).0,
        result_model(r) == spec_execute(old(state)@, now, sender@, msg, candidate_valid).1,
{
    match msg {
        ExecuteMsg::IbcExecuteProposal { channel_id, proposal_id, messages } => do_submit(
            state,
            now,
            &sender,
            channel_id,
            proposal_id,
            messages,
        ),
        ExecuteMsg::ProposeNewOwner { owner, expires_in } => do_propose(
            state,
            now,
            &sender,
            owner,
            candidate_valid,
            expires_in,
        ),
        ExecuteMsg::DropOwnershipProposal => do_drop(state, &sender),
        ExecuteMsg::ClaimOwnership => do_claim(state, now, &sender),
    }
}

/// Answers one read-only query; the store is not touched.
pub fn query(state: &State, msg: QueryMsg) -> (r: Result<QueryResponse, ContractError>)
    ensures
        query_result_model(r) == spec_query(state@, msg),
{
    match msg {
        QueryMsg::ProposalState { id } => match state.proposals.get(&id) {
            Some(st) => Ok(QueryResponse::ProposalState(*st)),
            None => Err(ContractError::NotFound),
        },
        QueryMsg::LastError => {
            let e: Option<String> = match &state.last_error {
                Some(s) => Some(s.clone()),
                None => None,
            };
            Ok(QueryResponse::LastError(e))
        },
    }
}

/// Upgrades the store from a supported predecessor schema, or rejects the
/// stored tag.
pub fn migrate(state: &mut State) -> (r: Result<Response, ContractError>)
    ensures
        final(state)@ == spec_migrate(old(state)@).0,
        result_model(r) == spec_migrate(old(state)@).1,
{
    let (old_name, old_version): (String, String) = match &state.version {
        None => {
            return Err(ContractError::NotFound);
        },
        Some(tag) => (tag.name.clone(), tag.version.clone()),
    };
    if !(old_name == contract_name() && old_version == "0.1.0".to_owned()) {
        return Err(ContractError::UnsupportedMigration);
    }
    let (legacy_owner, legacy_timeout): (String, u64) = match &state.legacy_config {
        None => {
            return Err(ContractError::NotFound);
        },
        Some(lc) => (lc.owner.clone(), lc.timeout),
    };
    state.config = Some(Config { owner: legacy_owner, timeout: legacy_timeout });
    state.legacy_config = None;
    state.version = Some(VersionTag { name: contract_name(), version: contract_version() });
    let mut attributes: Vec<Attribute> = Vec::new();
    attributes.push(attr("previous_contract_name", old_name));
    attributes.push(attr("previous_contract_version", old_version));
    attributes.push(attr("new_contract_name", contract_name()));
    attributes.push(attr("new_contract_version", contract_version()));
    let resp = Response { packets: Vec::new(), attributes };
    proof {
        let target = spec_migrate(old(state)@);
        assert(resp@.packets =~= Seq::<PacketModel>::empty());
        assert(resp@.attributes =~= target.1->Ok_0.attributes);
        assert(final(state)@ =~= target.0);
        assert(resp@ =~= target.1->Ok_0);
        assert(result_model(Ok(resp)) == target.1);
    }
    Ok(resp)
}

/// Records the transport's acknowledgement for packet `id`. Invoked by the
/// transport, never by a caller; unknown ids are ignored and a terminal
/// state is never overwritten.
pub fn on_acknowledge(state: &mut State, id: u64, success: bool)
    ensures
        final(state)@ == spec_on_acknowledge(old(state)@, id, success),
{
    let current: Option<IbcProposalState> = match state.proposals.get(&id) {
        Some(st) => Some(*st),
        None => None,
    };
    if let Some(IbcProposalState::InProgress) = current {
        let outcome = if success {
            IbcProposalState::Succeed
        } else {
            IbcProposalState::Failed
        };
        state.proposals.insert(id, outcome);
    }
    proof {
        assert(final(state)@ =~= spec_on_acknowledge(old(state)@, id, success));
    }
}

/// Records that packet `id` timed out. Invoked by the transport; unknown
/// ids are ignored and a terminal state is never overwritten.
pub fn on_timeout(state: &mut State, id: u64)
    ensures
        final(state)@ == spec_on_timeout(old(state)@, id),
{
    let current: Option<IbcProposalState> = match state.proposals.get(&id) {
        Some(st) => Some(*st),
        None => None,
    };
    if let Some(IbcProposalState::InProgress) = current {
        state.proposals.insert(id, IbcProposalState::Failed);
    }
    proof {
        assert(final(state)@ =~= spec_on_timeout(old(state)@, id));
    }
}

/// Overwrites the single last-error record. An observability aid for
/// externally reported failures; it never gates an operation.
pub fn record_last_error(state: &mut State, err: String)
    ensures
        final(state)@ == (StateModel { last_error: Some(err@), ..old(state)@ }),
{
    state.last_error = Some(err);
    proof {
        assert(final(state)@ =~= (StateModel { last_error: Some(err@), ..old(state)@ }));
    }
}

} // verus!
