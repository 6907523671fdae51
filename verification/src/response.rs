use vstd::prelude::*;
use crate::msg::{IbcProposal, ProposalMessage};

verus! {

/// Abstract value of one outbound packet.
pub struct PacketModel {
    pub channel_id: Seq<char>,
    pub id: u64,
    pub messages: Seq<ProposalMessage>,
    /// Absolute deadline, in seconds, after which delivery counts as failed.
    pub deadline: u64,
}

/// Abstract value of one observable attribute.
pub struct AttributeModel {
    pub key: Seq<char>,
    pub value: Seq<char>,
}

/// Abstract value of a successful invocation's outcome.
#[verifier::ext_equal]
pub struct ResponseModel {
    pub packets: Seq<PacketModel>,
    pub attributes: Seq<AttributeModel>,
}

/// One outbound packet: where it goes, what it carries, and until when the
/// transport may deliver it.
#[derive(Debug, PartialEq, Eq)]
pub struct Packet {
    pub channel_id: String,
    pub payload: IbcProposal,
    /// Absolute deadline, in seconds since the epoch the host counts from.
    pub deadline: u64,
}

impl View for Packet {
    type V = PacketModel;

    open spec fn view(&self) -> PacketModel {
        PacketModel {
            channel_id: self.channel_id@,
            id: self.payload.id,
            messages: self.payload.messages@,
            deadline: self.deadline,
        }
    }
}

/// One named observable attribute of a successful invocation.
#[derive(Debug, PartialEq, Eq)]
pub struct Attribute {
    pub key: String,
    pub value: String,
}

impl View for Attribute {
    type V = AttributeModel;

    open spec fn view(&self) -> AttributeModel {
        AttributeModel { key: self.key@, value: self.value@ }
    }
}

/// What a successful invocation hands back to the host: the packets to send
/// and the attributes to record. Emitting the packets is the host's job; a
/// failed invocation emits nothing.
#[derive(Debug, PartialEq, Eq)]
pub struct Response {
    pub packets: Vec<Packet>,
    pub attributes: Vec<Attribute>,
}

impl View for Response {
    type V = ResponseModel;

    open spec fn view(&self) -> ResponseModel {
        ResponseModel {
            packets: self.packets@.map_values(|p: Packet| p@),
            attributes: self.attributes@.map_values(|a: Attribute| a@),
        }
    }
}

} // verus!
