//! Payload bytes of extension messages, as they travel inside Storm peer
//! messages: the strict encoding of the payload alone, never the peer.

use std::collections::BTreeSet;
use vstd::prelude::*;

use amplify::Wrapper;

use crate::ids::MesgId;
use crate::messages::ExtMsg;
use internet2::addr::NodeId;
use storm::{Mesg, Topic};

verus! {

/// Failure of the strict encoder.
#[verifier::external_type_specification]
#[verifier::external_body]
pub struct ExStrictError(strict_encoding::Error);

/// Strict encoding of a topic; `None` where the encoder fails.
pub uninterp spec fn topic_bytes(t: Topic) -> Option<Seq<u8>>;

/// Strict encoding of a message; `None` where the encoder fails.
pub uninterp spec fn mesg_bytes(m: Mesg) -> Option<Seq<u8>>;

/// Strict encoding of a set of message ids; `None` where the encoder fails.
pub uninterp spec fn id_set_bytes(ids: Set<MesgId>) -> Option<Seq<u8>>;

/// Relies on strict_encoding::strict_serialize for storm::Topic.
#[verifier::external_body]
fn serialize_topic(t: &Topic) -> (r: Result<Vec<u8>, strict_encoding::Error>)
    ensures
        r is Ok <==> topic_bytes(*t) is Some,
        r is Ok ==> topic_bytes(*t) == Some(r->Ok_0@),
{
    strict_encoding::strict_serialize(t)
}

/// Relies on strict_encoding::strict_serialize for storm::Mesg.
#[verifier::external_body]
fn serialize_mesg(m: &Mesg) -> (r: Result<Vec<u8>, strict_encoding::Error>)
    ensures
        r is Ok <==> mesg_bytes(*m) is Some,
        r is Ok ==> mesg_bytes(*m) == Some(r->Ok_0@),
{
    strict_encoding::strict_serialize(m)
}

/// Relies on strict_encoding::strict_serialize for a set of storm::MesgId,
/// each built from its hash bytes.
#[verifier::external_body]
fn serialize_id_set(ids: &BTreeSet<MesgId>) -> (r: Result<Vec<u8>, strict_encoding::Error>)
    ensures
        r is Ok <==> id_set_bytes(ids@) is Some,
        r is Ok ==> id_set_bytes(ids@) == Some(r->Ok_0@),
{
    let ids: BTreeSet<storm::MesgId> = ids.iter().map(
        |id| storm::MesgId::from_inner(bitcoin_hashes::Hash::from_inner(id.hash)),
    ).collect();
    strict_encoding::strict_serialize(&ids)
}

/// The payload bytes of an addressed message: nothing for a unit payload,
/// the 32 hash bytes for a message id, the strict encoding otherwise.
pub open spec fn payload_bytes(msg: ExtMsg) -> Option<Seq<u8>>
    recommends
        msg.is_addressed(),
{
    match msg {
        ExtMsg::RegisterApp(_) => None,
        ExtMsg::ListTopics(_) => Some(Seq::<u8>::empty()),
        ExtMsg::Topics(m) => id_set_bytes(m.data@),
        ExtMsg::ProposeTopic(m) => topic_bytes(m.data),
        ExtMsg::Post(m) => mesg_bytes(m.data),
        ExtMsg::Read(m) => Some(m.data.hash@),
        ExtMsg::Decline(m) => Some(m.data.hash@),
        ExtMsg::Accept(m) => Some(m.data.hash@),
    }
}

/// The 32 bytes of a message id.
fn id_bytes(id: &MesgId) -> (r: Vec<u8>)
    ensures
        r@ == id.hash@,
{
    let mut r: Vec<u8> = Vec::new();
    let mut i: usize = 0;
    while i < 32
        invariant
            i <= 32,
            r@ == id.hash@.subrange(0, i as int),
        decreases 32 - i,
    {
        r.push(id.hash[i]);
        i = i + 1;
    }
    assert(r@ == id.hash@);
    r
}

impl ExtMsg {
    /// The payload bytes that an addressed message carries to the peer;
    /// `None` where the encoder refuses the payload.
    pub fn to_payload(&self) -> (r: Option<Vec<u8>>)
        requires
            self.is_addressed(),
        ensures
            r is Some <==> payload_bytes(*self) is Some,
            r is Some ==> payload_bytes(*self) == Some(r->Some_0@),
    {
        let encoded = match self {
            ExtMsg::RegisterApp(_) => unreached(),
            ExtMsg::ListTopics(_) => Ok(Vec::new()),
            ExtMsg::Topics(m) => serialize_id_set(&m.data),
            ExtMsg::ProposeTopic(m) => serialize_topic(&m.data),
            ExtMsg::Post(m) => serialize_mesg(&m.data),
            ExtMsg::Read(m) => Ok(id_bytes(&m.data)),
            ExtMsg::Decline(m) => Ok(id_bytes(&m.data)),
            ExtMsg::Accept(m) => Ok(id_bytes(&m.data)),
        };
        match encoded {
            Ok(bytes) => Some(bytes),
            Err(_) => None,
        }
    }
}

/// The payload bytes of an addressed message do not depend on the remote
/// peer it is addressed to.
pub proof fn lemma_payload_ignores_remote(msg: ExtMsg, other: NodeId)
    requires
        msg.is_addressed(),
    ensures
        payload_bytes(msg) == payload_bytes(msg.with_remote(other)),
{
}

} // verus!
