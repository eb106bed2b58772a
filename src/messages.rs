//! The extension protocol: its message taxonomy with stable wire tags, the
//! addressed wrapper binding a payload to a remote peer, the Storm peer
//! messages it is bridged to, and the bridge in both directions.

use std::collections::BTreeSet;
use vstd::prelude::*;

use crate::ids::{AppSelector, MesgId};
use internet2::addr::NodeId;
use storm::{Mesg, Topic};

verus! {

/// Wire tag of [`ExtMsg::RegisterApp`].
pub const TAG_REGISTER_APP: u16 = 0x0100;
/// Wire tag of [`ExtMsg::ProposeTopic`].
pub const TAG_PROPOSE_TOPIC: u16 = 0x0006;
/// Wire tag of [`ExtMsg::Post`].
pub const TAG_POST: u16 = 0x0008;
/// Wire tag of [`ExtMsg::Read`].
pub const TAG_READ: u16 = 0x000a;
/// Wire tag of [`ExtMsg::Decline`].
pub const TAG_DECLINE: u16 = 0x000c;
/// Wire tag of [`ExtMsg::Accept`].
pub const TAG_ACCEPT: u16 = 0x000e;
/// Wire tag of [`ExtMsg::ListTopics`].
pub const TAG_LIST_TOPICS: u16 = 0x0102;
/// Wire tag of [`ExtMsg::Topics`].
pub const TAG_TOPICS: u16 = 0x0103;

/// A payload bound to the remote peer it comes from or goes to. The peer is
/// routing information only and never part of the payload bytes.
#[derive(Debug, PartialEq, Eq)]
pub struct AddressedMsg<T> {
    pub remote_id: NodeId,
    pub data: T,
}

/// A payload of a Storm peer message, bound to the application it targets.
#[derive(Debug, PartialEq, Eq)]
pub struct AppMsg<T> {
    pub app: AppSelector,
    pub data: T,
}

impl<T> AddressedMsg<T> {
    /// Takes the payload of a peer message and the peer that the bus layer
    /// says it arrived from.
    pub fn with(app_msg: AppMsg<T>, remote_peer: NodeId) -> (r: Self)
        ensures
            r.remote_id == remote_peer,
            r.data == app_msg.data,
    {
        AddressedMsg { remote_id: remote_peer, data: app_msg.data }
    }
}

/// Messages exchanged between the node and its extension applications.
#[derive(Debug, PartialEq, Eq)]
pub enum ExtMsg {
    /// An extension announces its own application; required before peers
    /// can see it among the active applications.
    RegisterApp(AppSelector),
    /// Ask a peer for the topics it knows.
    ListTopics(AddressedMsg<()>),
    /// Answer to `ListTopics`.
    Topics(AddressedMsg<BTreeSet<MesgId>>),
    /// Propose a new topic, which the other side accepts or declines.
    ProposeTopic(AddressedMsg<Topic>),
    /// A message posted to or received from a peer.
    Post(AddressedMsg<Mesg>),
    /// Request a message or a topic from a peer.
    Read(AddressedMsg<MesgId>),
    /// Decline a topic or a message coming from a peer.
    Decline(AddressedMsg<MesgId>),
    /// Accept a topic or a message coming from a peer.
    Accept(AddressedMsg<MesgId>),
}

/// Storm messages exchanged with remote peers.
#[derive(Debug)]
pub enum PeerMsg {
    /// Ask which applications are active on the node.
    ListApps,
    /// The application codes active on a node.
    ActiveApps(BTreeSet<u16>),
    ListTopics(AppMsg<()>),
    AppTopics(AppMsg<BTreeSet<MesgId>>),
    ProposeTopic(AppMsg<Topic>),
    Post(AppMsg<Mesg>),
    Read(AppMsg<MesgId>),
    Decline(AppMsg<MesgId>),
    Accept(AppMsg<MesgId>),
    /// A message of the bulk transfer family (containers and chunks), kept
    /// as it came for the transfer service.
    Transfer(storm::p2p::Messages),
}

/// Where an incoming peer message goes.
#[derive(Debug)]
pub enum Inbound {
    /// To the local extension of the given application.
    Forward(AppSelector, ExtMsg),
    /// Nowhere among the extensions: the node handles it, or ignores it.
    Local(PeerMsg),
}

impl ExtMsg {
    /// Wire tag of the message's case.
    pub open spec fn tag(&self) -> u16 {
        match self {
            ExtMsg::RegisterApp(_) => TAG_REGISTER_APP,
            ExtMsg::ListTopics(_) => TAG_LIST_TOPICS,
            ExtMsg::Topics(_) => TAG_TOPICS,
            ExtMsg::ProposeTopic(_) => TAG_PROPOSE_TOPIC,
            ExtMsg::Post(_) => TAG_POST,
            ExtMsg::Read(_) => TAG_READ,
            ExtMsg::Decline(_) => TAG_DECLINE,
            ExtMsg::Accept(_) => TAG_ACCEPT,
        }
    }

    /// Whether the message is addressed to a remote peer, which all but the
    /// registration are.
    pub open spec fn is_addressed(&self) -> bool {
        !(self is RegisterApp)
    }

    /// The remote peer of an addressed message.
    pub open spec fn remote(&self) -> NodeId
        recommends
            self.is_addressed(),
    {
        match self {
            ExtMsg::RegisterApp(_) => arbitrary(),
            ExtMsg::ListTopics(m) => m.remote_id,
            ExtMsg::Topics(m) => m.remote_id,
            ExtMsg::ProposeTopic(m) => m.remote_id,
            ExtMsg::Post(m) => m.remote_id,
            ExtMsg::Read(m) => m.remote_id,
            ExtMsg::Decline(m) => m.remote_id,
            ExtMsg::Accept(m) => m.remote_id,
        }
    }

    /// The wire tag of the message's case.
    pub fn type_id(&self) -> (r: u16)
        ensures
            r == self.tag(),
    {
        match self {
            ExtMsg::RegisterApp(_) => TAG_REGISTER_APP,
            ExtMsg::ListTopics(_) => TAG_LIST_TOPICS,
            ExtMsg::Topics(_) => TAG_TOPICS,
            ExtMsg::ProposeTopic(_) => TAG_PROPOSE_TOPIC,
            ExtMsg::Post(_) => TAG_POST,
            ExtMsg::Read(_) => TAG_READ,
            ExtMsg::Decline(_) => TAG_DECLINE,
            ExtMsg::Accept(_) => TAG_ACCEPT,
        }
    }

    /// The same message addressed to peer `remote` instead.
    pub open spec fn with_remote(self, remote: NodeId) -> ExtMsg {
        match self {
            ExtMsg::RegisterApp(a) => ExtMsg::RegisterApp(a),
            ExtMsg::ListTopics(m) => ExtMsg::ListTopics(AddressedMsg { remote_id: remote, ..m }),
            ExtMsg::Topics(m) => ExtMsg::Topics(AddressedMsg { remote_id: remote, ..m }),
            ExtMsg::ProposeTopic(m) => ExtMsg::ProposeTopic(AddressedMsg { remote_id: remote, ..m }),
            ExtMsg::Post(m) => ExtMsg::Post(AddressedMsg { remote_id: remote, ..m }),
            ExtMsg::Read(m) => ExtMsg::Read(AddressedMsg { remote_id: remote, ..m }),
            ExtMsg::Decline(m) => ExtMsg::Decline(AddressedMsg { remote_id: remote, ..m }),
            ExtMsg::Accept(m) => ExtMsg::Accept(AddressedMsg { remote_id: remote, ..m }),
        }
    }

    /// The remote peer that an addressed message goes to or comes from.
    pub fn remote_id(&self) -> (r: NodeId)
        requires
            self.is_addressed(),
        ensures
            r == self.remote(),
    {
        match self {
            ExtMsg::RegisterApp(_) => unreached(),
            ExtMsg::ListTopics(m) => m.remote_id,
            ExtMsg::Topics(m) => m.remote_id,
            ExtMsg::ProposeTopic(m) => m.remote_id,
            ExtMsg::Post(m) => m.remote_id,
            ExtMsg::Read(m) => m.remote_id,
            ExtMsg::Decline(m) => m.remote_id,
            ExtMsg::Accept(m) => m.remote_id,
        }
    }
}

/// The peer message that an addressed extension message becomes when it is
/// sent on behalf of application `app`: the same case, the same payload, the
/// remote peer left out.
pub open spec fn outbound(msg: ExtMsg, app: AppSelector) -> PeerMsg
    recommends
        msg.is_addressed(),
{
    match msg {
        ExtMsg::RegisterApp(_) => PeerMsg::ListApps,
        ExtMsg::ListTopics(m) => PeerMsg::ListTopics(AppMsg { app, data: m.data }),
        ExtMsg::Topics(m) => PeerMsg::AppTopics(AppMsg { app, data: m.data }),
        ExtMsg::ProposeTopic(m) => PeerMsg::ProposeTopic(AppMsg { app, data: m.data }),
        ExtMsg::Post(m) => PeerMsg::Post(AppMsg { app, data: m.data }),
        ExtMsg::Read(m) => PeerMsg::Read(AppMsg { app, data: m.data }),
        ExtMsg::Decline(m) => PeerMsg::Decline(AppMsg { app, data: m.data }),
        ExtMsg::Accept(m) => PeerMsg::Accept(AppMsg { app, data: m.data }),
    }
}

/// Where a peer message from `remote` goes: application messages to the
/// extension of their application, addressed to `remote`; the rest stays
/// with the node.
pub open spec fn inbound(msg: PeerMsg, remote: NodeId) -> Inbound {
    match msg {
        PeerMsg::ListTopics(m) => Inbound::Forward(
            m.app,
            ExtMsg::ListTopics(AddressedMsg { remote_id: remote, data: m.data }),
        ),
        PeerMsg::AppTopics(m) => Inbound::Forward(
            m.app,
            ExtMsg::Topics(AddressedMsg { remote_id: remote, data: m.data }),
        ),
        PeerMsg::ProposeTopic(m) => Inbound::Forward(
            m.app,
            ExtMsg::ProposeTopic(AddressedMsg { remote_id: remote, data: m.data }),
        ),
        PeerMsg::Post(m) => Inbound::Forward(
            m.app,
            ExtMsg::Post(AddressedMsg { remote_id: remote, data: m.data }),
        ),
        PeerMsg::Read(m) => Inbound::Forward(
            m.app,
            ExtMsg::Read(AddressedMsg { remote_id: remote, data: m.data }),
        ),
        PeerMsg::Decline(m) => Inbound::Forward(
            m.app,
            ExtMsg::Decline(AddressedMsg { remote_id: remote, data: m.data }),
        ),
        PeerMsg::Accept(m) => Inbound::Forward(
            m.app,
            ExtMsg::Accept(AddressedMsg { remote_id: remote, data: m.data }),
        ),
        other => Inbound::Local(other),
    }
}

impl ExtMsg {
    /// The peer message that this addressed message becomes when sent on
    /// behalf of application `app`.
    pub fn p2p_message(self, app: AppSelector) -> (r: PeerMsg)
        requires
            self.is_addressed(),
        ensures
            r == outbound(self, app),
    {
        match self {
            ExtMsg::RegisterApp(_) => unreached(),
            ExtMsg::ListTopics(m) => PeerMsg::ListTopics(AppMsg { app, data: m.data }),
            ExtMsg::Topics(m) => PeerMsg::AppTopics(AppMsg { app, data: m.data }),
            ExtMsg::ProposeTopic(m) => PeerMsg::ProposeTopic(AppMsg { app, data: m.data }),
            ExtMsg::Post(m) => PeerMsg::Post(AppMsg { app, data: m.data }),
            ExtMsg::Read(m) => PeerMsg::Read(AppMsg { app, data: m.data }),
            ExtMsg::Decline(m) => PeerMsg::Decline(AppMsg { app, data: m.data }),
            ExtMsg::Accept(m) => PeerMsg::Accept(AppMsg { app, data: m.data }),
        }
    }
}

impl PeerMsg {
    /// Sorts a peer message from `remote_id`: an application message becomes
    /// an extension message for its application, addressed to the peer.
    pub fn storm_ext_msg(self, remote_id: NodeId) -> (r: Inbound)
        ensures
            r == inbound(self, remote_id),
    {
        match self {
            PeerMsg::ListTopics(m) => Inbound::Forward(
                m.app,
                ExtMsg::ListTopics(AddressedMsg::with(m, remote_id)),
            ),
            PeerMsg::AppTopics(m) => Inbound::Forward(
                m.app,
                ExtMsg::Topics(AddressedMsg::with(m, remote_id)),
            ),
            PeerMsg::ProposeTopic(m) => Inbound::Forward(
                m.app,
                ExtMsg::ProposeTopic(AddressedMsg::with(m, remote_id)),
            ),
            PeerMsg::Post(m) => Inbound::Forward(
                m.app,
                ExtMsg::Post(AddressedMsg::with(m, remote_id)),
            ),
            PeerMsg::Read(m) => Inbound::Forward(
                m.app,
                ExtMsg::Read(AddressedMsg::with(m, remote_id)),
            ),
            PeerMsg::Decline(m) => Inbound::Forward(
                m.app,
                ExtMsg::Decline(AddressedMsg::with(m, remote_id)),
            ),
            PeerMsg::Accept(m) => Inbound::Forward(
                m.app,
                ExtMsg::Accept(AddressedMsg::with(m, remote_id)),
            ),
            other => Inbound::Local(other),
        }
    }
}

/// Two messages with the same wire tag are of the same case: the tag alone
/// tells a decoder which case follows.
pub proof fn lemma_tags_distinct(a: ExtMsg, b: ExtMsg)
    requires
        a.tag() == b.tag(),
    ensures
        a is RegisterApp <==> b is RegisterApp,
        a is ListTopics <==> b is ListTopics,
        a is Topics <==> b is Topics,
        a is ProposeTopic <==> b is ProposeTopic,
        a is Post <==> b is Post,
        a is Read <==> b is Read,
        a is Decline <==> b is Decline,
        a is Accept <==> b is Accept,
{
}

/// Bridging an addressed extension message out to a peer and back in from
/// the same peer gives the message itself, for the application that sent it.
pub proof fn lemma_bridge_round_trip(msg: ExtMsg, app: AppSelector)
    requires
        msg.is_addressed(),
    ensures
        inbound(outbound(msg, app), msg.remote()) == Inbound::Forward(app, msg),
{
}

/// A list of topics goes out to the peer as the application's topics with
/// the same payload; the remote peer only picks the route, so the peer
/// message is the same whatever peer the list is addressed to.
pub proof fn lemma_topics_outbound(
    remote: NodeId,
    other_remote: NodeId,
    ids: BTreeSet<MesgId>,
    app: AppSelector,
)
    ensures
        outbound(ExtMsg::Topics(AddressedMsg { remote_id: remote, data: ids }), app)
            == PeerMsg::AppTopics(AppMsg { app, data: ids }),
        outbound(ExtMsg::Topics(AddressedMsg { remote_id: remote, data: ids }), app)
            == outbound(ExtMsg::Topics(AddressedMsg { remote_id: other_remote, data: ids }), app),
{
}

} // verus!
