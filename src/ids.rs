//! Identities that the router deals with, and the outside types that it
//! carries through without looking inside.

use vstd::prelude::*;

verus! {

/// Identity of a remote node, as the peer network layer hands it over.
#[verifier::external_type_specification]
#[verifier::external_body]
pub struct ExNodeId(internet2::addr::NodeId);

/// A Storm topic, carried as an opaque payload.
#[verifier::external_type_specification]
#[verifier::external_body]
pub struct ExTopic(storm::Topic);

/// A Storm message, carried as an opaque payload.
#[verifier::external_type_specification]
#[verifier::external_body]
pub struct ExMesg(storm::Mesg);

/// A Storm peer message as the peer codec decodes it.
#[verifier::external_type_specification]
#[verifier::external_body]
pub struct ExPeerMessages(storm::p2p::Messages);

/// Identifier of a Storm message or topic: the 32 bytes of its tagged hash.
#[derive(Copy, Clone, Debug, PartialEq, Eq, PartialOrd, Ord, Hash)]
pub struct MesgId {
    pub hash: [u8; 32],
}

/// Selector of a Storm application: the 16-bit application code under which
/// peers and extensions address it.
#[derive(Copy, Clone, Debug, PartialEq, Eq, Structural)]
pub struct AppSelector {
    pub code: u16,
}

impl AppSelector {
    pub fn with_code(code: u16) -> (r: AppSelector)
        ensures
            r.code == code,
    {
        AppSelector { code }
    }
}

} // verus!
