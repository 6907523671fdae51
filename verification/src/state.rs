use vstd::prelude::*;
use std::collections::HashMap;
use crate::msg::IbcProposalState;

verus! {

broadcast use vstd::std_specs::hash::group_hash_axioms;

/// Smallest accepted packet timeout, in seconds.
pub const MIN_TIMEOUT: u64 = 1;

/// Largest accepted packet timeout: one year in seconds.
pub const MAX_TIMEOUT: u64 = 31556926;

/// The name this controller records in its version tag.
pub open spec fn spec_contract_name() -> Seq<char> {
    "ibc-controller"@
}

/// The schema version this controller writes.
pub open spec fn spec_contract_version() -> Seq<char> {
    "1.0.0"@
}

pub fn contract_name() -> (s: String)
    ensures
        s@ == spec_contract_name(),
{
    "ibc-controller".to_owned()
}

pub fn contract_version() -> (s: String)
    ensures
        s@ == spec_contract_version(),
{
    "1.0.0".to_owned()
}

/// The persisted configuration: who may author commands, and how long the
/// transport gets to deliver each packet. The timeout is fixed at
/// instantiation; the owner changes only through the ownership-transfer
/// protocol.
#[derive(Debug, PartialEq, Eq)]
pub struct Config {
    pub owner: String,
    pub timeout: u64,
}

/// Abstract value of [`Config`].
pub struct ConfigModel {
    pub owner: Seq<char>,
    pub timeout: u64,
}

impl View for Config {
    type V = ConfigModel;

    open spec fn view(&self) -> ConfigModel {
        ConfigModel { owner: self.owner@, timeout: self.timeout }
    }
}

impl ConfigModel {
    /// The invariant instantiation establishes and no later operation breaks.
    pub open spec fn well_formed(self) -> bool {
        MIN_TIMEOUT <= self.timeout <= MAX_TIMEOUT
    }
}

/// The pending request to change contract ownership. At most one exists;
/// a newer request overwrites it, a claim or an explicit drop consumes it.
#[derive(Debug, PartialEq, Eq)]
pub struct OwnershipProposal {
    /// The identity that may claim ownership.
    pub candidate: String,
    /// Absolute time, in seconds, up to which (inclusive) the claim is valid.
    pub expiry: u64,
}

/// Abstract value of [`OwnershipProposal`].
pub struct OwnershipModel {
    pub candidate: Seq<char>,
    pub expiry: u64,
}

impl View for OwnershipProposal {
    type V = OwnershipModel;

    open spec fn view(&self) -> OwnershipModel {
        OwnershipModel { candidate: self.candidate@, expiry: self.expiry }
    }
}

/// The stored schema version tag, compared against the supported-upgrade
/// table during migration.
#[derive(Debug, PartialEq, Eq)]
pub struct VersionTag {
    pub name: String,
    pub version: String,
}

/// Abstract value of [`VersionTag`].
pub struct VersionModel {
    pub name: Seq<char>,
    pub version: Seq<char>,
}

impl View for VersionTag {
    type V = VersionModel;

    open spec fn view(&self) -> VersionModel {
        VersionModel { name: self.name@, version: self.version@ }
    }
}

/// The predecessor schema's configuration record: the reduced variant kept a
/// single fixed channel and tracked no proposals and no ownership transfer.
/// Migration folds it into the current [`Config`], preserving owner and
/// timeout and dropping the fixed channel.
#[derive(Debug, PartialEq, Eq)]
pub struct LegacyConfig {
    pub owner: String,
    pub timeout: u64,
    /// The fixed channel of the reduced variant, if one was ever opened.
    pub channel: Option<String>,
}

/// Abstract value of [`LegacyConfig`].
pub struct LegacyModel {
    pub owner: Seq<char>,
    pub timeout: u64,
    pub channel: Option<Seq<char>>,
}

impl View for LegacyConfig {
    type V = LegacyModel;

    open spec fn view(&self) -> LegacyModel {
        LegacyModel {
            owner: self.owner@,
            timeout: self.timeout,
            channel: match self.channel {
                Some(ref c) => Some(c@),
                None => None,
            },
        }
    }
}

/// Abstract value of the whole durable store.
#[verifier::ext_equal]
pub struct StateModel {
    pub version: Option<VersionModel>,
    pub config: Option<ConfigModel>,
    pub legacy_config: Option<LegacyModel>,
    pub proposals: Map<u64, IbcProposalState>,
    pub ownership_proposal: Option<OwnershipModel>,
    pub last_error: Option<Seq<char>>,
}

impl StateModel {
    /// Whether `caller` may author commands.
    pub open spec fn authorized(self, caller: Seq<char>) -> bool {
        match self.config {
            Some(cfg) => cfg.owner == caller,
            None => false,
        }
    }

    /// Everything instantiation establishes and every operation preserves.
    pub open spec fn well_formed(self) -> bool {
        match self.config {
            Some(cfg) => cfg.well_formed(),
            None => true,
        }
    }
}

/// The durable store, one typed slot per entity, handed into every
/// operation by the host. The host persists it between invocations and
/// serializes the invocations themselves.
pub struct State {
    pub version: Option<VersionTag>,
    pub config: Option<Config>,
    pub legacy_config: Option<LegacyConfig>,
    /// Append-only: an id, once present, is never removed nor reused.
    pub proposals: HashMap<u64, IbcProposalState>,
    pub ownership_proposal: Option<OwnershipProposal>,
    pub last_error: Option<String>,
}

impl View for State {
    type V = StateModel;

    open spec fn view(&self) -> StateModel {
        StateModel {
            version: match self.version {
                Some(ref v) => Some(v@),
                None => None,
            },
            config: match self.config {
                Some(ref c) => Some(c@),
                None => None,
            },
            legacy_config: match self.legacy_config {
                Some(ref l) => Some(l@),
                None => None,
            },
            proposals: self.proposals@,
            ownership_proposal: match self.ownership_proposal {
                Some(ref p) => Some(p@),
                None => None,
            },
            last_error: match self.last_error {
                Some(ref e) => Some(e@),
                None => None,
            },
        }
    }
}

impl State {
    /// An empty store, as the host hands it to the very first invocation.
    pub fn new() -> (s: State)
        ensures
            s@ == (StateModel {
                version: None,
                config: None,
                legacy_config: None,
                proposals: Map::<u64, IbcProposalState>::empty(),
                ownership_proposal: None,
                last_error: None,
            }),
    {
        State {
            version: None,
            config: None,
            legacy_config: None,
            proposals: HashMap::new(),
            ownership_proposal: None,
            last_error: None,
        }
    }
}

} // verus!
