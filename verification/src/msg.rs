use vstd::prelude::*;

verus! {

/// One remote command inside a proposal: a caller-chosen ordering key and
/// the opaque, already-encoded command to run on the remote chain. The
/// controller never inspects the command bytes; it only preserves them and
/// their order.
#[derive(Clone, Debug, PartialEq, Eq)]
pub struct ProposalMessage {
    pub order: u64,
    pub msg: Vec<u8>,
}

/// The wire payload of one outbound packet: the proposal id together with
/// the ordered batch of remote commands, exactly as the caller supplied them.
#[derive(Debug, PartialEq, Eq)]
pub struct IbcProposal {
    pub id: u64,
    pub messages: Vec<ProposalMessage>,
}

/// Lifecycle state of a dispatched proposal. Created `InProgress`; moved
/// once to a terminal state (`Succeed` or `Failed`) by a transport callback
/// and never changed again.
#[derive(Clone, Copy, Debug, PartialEq, Eq, Structural)]
pub enum IbcProposalState {
    InProgress,
    Succeed,
    Failed,
}

impl IbcProposalState {
    /// The externally visible lowercase tag of each lifecycle state.
    pub open spec fn spec_tag(self) -> Seq<char> {
        match self {
            IbcProposalState::InProgress => "in_progress"@,
            IbcProposalState::Succeed => "succeed"@,
            IbcProposalState::Failed => "failed"@,
        }
    }

    /// A terminal state is never left again.
    pub open spec fn is_terminal(self) -> bool {
        self != IbcProposalState::InProgress
    }

    /// Serializes the state as its lowercase tag; external indexers depend
    /// on this exact text.
    pub fn as_str(&self) -> (r: &'static str)
        ensures
            r@ == self.spec_tag(),
    {
        match self {
            IbcProposalState::InProgress => "in_progress",
            IbcProposalState::Succeed => "succeed",
            IbcProposalState::Failed => "failed",
        }
    }
}

/// Instantiation input: the initial owner identity and the packet timeout
/// in seconds.
#[derive(Debug, PartialEq, Eq)]
pub struct InstantiateMsg {
    pub owner: String,
    pub timeout: u64,
}

/// The commands a caller can submit.
#[derive(Debug, PartialEq, Eq)]
pub enum ExecuteMsg {
    /// Dispatch one proposal to the remote chain over `channel_id`.
    /// Only the current owner may execute this.
    IbcExecuteProposal { channel_id: String, proposal_id: u64, messages: Vec<ProposalMessage> },
    /// Create a request to change contract ownership.
    /// Only the current owner may execute this.
    ProposeNewOwner { owner: String, expires_in: u64 },
    /// Remove the pending request to change contract ownership.
    /// Only the current owner may execute this.
    DropOwnershipProposal,
    /// Claim contract ownership.
    /// Only the proposed new owner may execute this.
    ClaimOwnership,
}

/// The read-only queries.
#[derive(Debug, PartialEq, Eq)]
pub enum QueryMsg {
    /// The lifecycle state of the proposal with this id.
    ProposalState { id: u64 },
    /// The most recent externally reported error, if any.
    LastError,
}

/// What a query returns.
#[derive(Debug, PartialEq, Eq)]
pub enum QueryResponse {
    ProposalState(IbcProposalState),
    LastError(Option<String>),
}

/// Abstract value of [`QueryResponse`].
pub enum QueryResponseModel {
    ProposalState(IbcProposalState),
    LastError(Option<Seq<char>>),
}

impl View for QueryResponse {
    type V = QueryResponseModel;

    open spec fn view(&self) -> QueryResponseModel {
        match self {
            QueryResponse::ProposalState(st) => QueryResponseModel::ProposalState(*st),
            QueryResponse::LastError(e) => QueryResponseModel::LastError(
                match e {
                    Some(s) => Some(s@),
                    None => None,
                },
            ),
        }
    }
}

} // verus!
