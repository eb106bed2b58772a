//! The router: one event from one of the node's four buses at a time,
//! dispatched by bus, message family and origin, with the ledger of
//! registered applications as its only state.

use vstd::prelude::*;

use crate::ids::AppSelector;
use crate::ledger::{register_result, registered, IdentityMismatch, Ledger};
use crate::messages::{inbound, outbound, ExtMsg, Inbound, PeerMsg};
use internet2::addr::NodeId;

verus! {

/// The buses that the router listens on.
#[derive(Copy, Clone, Debug, PartialEq, Eq, Structural)]
pub enum ServiceBus {
    /// The peer network, through the peer message dispatcher.
    Msg,
    /// Control messages among the node's services.
    Ctl,
    /// The extension applications.
    Storm,
    /// Requests of clients.
    Rpc,
}

/// Who sent an event.
#[derive(Debug)]
pub enum ServiceId {
    /// The router itself.
    Stormd,
    /// A remote peer.
    Peer(NodeId),
    /// An extension instance of the given application.
    StormApp(AppSelector),
    /// A client with the given id.
    Client(u64),
}

/// The peer network's own envelope: a message for the Storm application, as
/// the peer codec decoded it, or anything else.
#[derive(Debug)]
pub enum BifrostMsg {
    /// A Storm message; `Err` where its bytes did not decode.
    Storm(Result<PeerMsg, DecodeError>),
    /// A message for another application, or of the peer layer itself.
    Other,
}

/// The bytes of a peer message did not decode.
#[derive(Copy, Clone, Debug, PartialEq, Eq, Structural)]
pub struct DecodeError;

/// Control messages.
#[derive(Copy, Clone, Debug, PartialEq, Eq, Structural)]
pub enum CtlMsg {
    /// A service announces itself.
    Hello,
    /// Any other control message, by its type id.
    Other(u16),
}

/// A client request, by its type id.
#[derive(Copy, Clone, Debug, PartialEq, Eq, Structural)]
pub struct RpcMsg {
    pub type_id: u16,
}

/// What can arrive on a bus.
#[derive(Debug)]
pub enum BusMsg {
    Bifrost(BifrostMsg),
    Ctl(CtlMsg),
    Storm(ExtMsg),
    Rpc(RpcMsg),
}

/// The family of a bus message, as errors name it.
#[derive(Copy, Clone, Debug, PartialEq, Eq, Structural)]
pub enum MsgKind {
    Bifrost,
    Ctl,
    Storm,
    Rpc,
}

/// Why an event was not handled. None of these stops the router.
#[derive(Copy, Clone, Debug, PartialEq, Eq, Structural)]
pub enum DaemonError {
    /// The message, or its origin, does not belong on this bus.
    WrongBus { bus: ServiceBus, msg: MsgKind },
    /// An extension claimed the identity of another application.
    WrongBusSource(IdentityMismatch),
    /// The bytes of a peer message did not decode.
    Decode,
    /// The bus is right, but the router does not implement the message.
    Unsupported { bus: ServiceBus },
}

/// What the router sends out after an event.
#[derive(Debug)]
pub enum Action {
    /// Nothing.
    Nothing,
    /// A message on the extension bus to the extension of an application.
    SendExt(AppSelector, ExtMsg),
    /// A message on the peer bus to a remote peer.
    SendPeer(NodeId, PeerMsg),
}

/// Companion services that the router may launch.
#[derive(Copy, Clone, Debug, PartialEq, Eq, Structural)]
pub enum Daemon {
    Chatd,
}

/// Settings of the router.
#[derive(Copy, Clone, Debug, PartialEq, Eq, Structural)]
pub struct Config {
    /// Whether the chat service is launched once the buses are ready.
    pub run_chat: bool,
}

/// The router could not start.
#[derive(Copy, Clone, Debug, PartialEq, Eq, Structural)]
pub enum BootstrapError {
    /// The buses could not be set up.
    BusSetupFailure,
    /// A companion service could not be launched.
    DaemonLaunchFailure,
}

/// The family of a bus message.
pub open spec fn kind(msg: BusMsg) -> MsgKind {
    match msg {
        BusMsg::Bifrost(_) => MsgKind::Bifrost,
        BusMsg::Ctl(_) => MsgKind::Ctl,
        BusMsg::Storm(_) => MsgKind::Storm,
        BusMsg::Rpc(_) => MsgKind::Rpc,
    }
}

/// Whether `r` is the right answer to peer message `msg` from `remote`,
/// with `ledger` registered: an application message goes to the extension
/// of its application; a request for the active applications gets exactly
/// one reply, to `remote`, with the ledger; anything else of Storm is
/// accepted and dropped.
pub open spec fn p2p_handled(
    ledger: Set<u16>,
    remote: NodeId,
    msg: BifrostMsg,
    r: Result<Action, DaemonError>,
) -> bool {
    match msg {
        BifrostMsg::Other => r == Err::<Action, DaemonError>(
            DaemonError::WrongBus { bus: ServiceBus::Msg, msg: MsgKind::Bifrost },
        ),
        BifrostMsg::Storm(Err(_)) => r == Err::<Action, DaemonError>(DaemonError::Decode),
        BifrostMsg::Storm(Ok(m)) => match inbound(m, remote) {
            Inbound::Forward(app, ext) => r == Ok::<Action, DaemonError>(Action::SendExt(app, ext)),
            Inbound::Local(PeerMsg::ListApps) => match r {
                Ok(Action::SendPeer(to, PeerMsg::ActiveApps(apps))) => to == remote && apps@
                    == ledger,
                _ => false,
            },
            Inbound::Local(_) => r == Ok::<Action, DaemonError>(Action::Nothing),
        },
    }
}

/// The answer to control message `msg`.
pub open spec fn ctl_result(msg: CtlMsg) -> Result<Action, DaemonError> {
    match msg {
        CtlMsg::Hello => Ok(Action::Nothing),
        CtlMsg::Other(_) => Err(DaemonError::Unsupported { bus: ServiceBus::Ctl }),
    }
}

/// The answer to extension message `msg` from the extension of `app`: a
/// registration is checked against the sender, anything else goes to the
/// remote peer that it names, on behalf of `app`.
pub open spec fn app_result(app: AppSelector, msg: ExtMsg) -> Result<Action, DaemonError> {
    match msg {
        ExtMsg::RegisterApp(claimed) => match register_result(claimed, app) {
            Ok(_) => Ok(Action::Nothing),
            Err(e) => Err(DaemonError::WrongBusSource(e)),
        },
        _ => Ok(Action::SendPeer(msg.remote(), outbound(msg, app))),
    }
}

/// The ledger after the event: only a registration on the extension bus
/// from an extension changes it.
pub open spec fn ledger_after(
    ledger: Set<u16>,
    bus: ServiceBus,
    source: ServiceId,
    request: BusMsg,
) -> Set<u16> {
    match (bus, request, source) {
        (
            ServiceBus::Storm,
            BusMsg::Storm(ExtMsg::RegisterApp(claimed)),
            ServiceId::StormApp(app),
        ) => registered(ledger, claimed, app),
        _ => ledger,
    }
}

/// Whether `r` is the right answer to the event, with `ledger` registered
/// before it.
pub open spec fn handled(
    ledger: Set<u16>,
    bus: ServiceBus,
    source: ServiceId,
    request: BusMsg,
    r: Result<Action, DaemonError>,
) -> bool {
    match (bus, request, source) {
        (ServiceBus::Msg, BusMsg::Bifrost(m), ServiceId::Peer(remote)) => p2p_handled(
            ledger,
            remote,
            m,
            r,
        ),
        (ServiceBus::Ctl, BusMsg::Ctl(m), _) => r == ctl_result(m),
        (ServiceBus::Storm, BusMsg::Storm(m), ServiceId::StormApp(app)) => r == app_result(app, m),
        (ServiceBus::Rpc, BusMsg::Rpc(_), ServiceId::Client(_)) => r == Err::<Action, DaemonError>(
            DaemonError::Unsupported { bus: ServiceBus::Rpc },
        ),
        (b, m, _) => r == Err::<Action, DaemonError>(DaemonError::WrongBus { bus: b, msg: kind(m) }),
    }
}

/// A request for the active applications from peer `peer` is answered with
/// exactly one message, sent to `peer` and holding the registered
/// applications; nothing goes to the extensions and the ledger stays as it
/// was.
pub proof fn lemma_list_apps_answered(ledger: Set<u16>, peer: NodeId, r: Result<Action, DaemonError>)
    requires
        handled(
            ledger,
            ServiceBus::Msg,
            ServiceId::Peer(peer),
            BusMsg::Bifrost(BifrostMsg::Storm(Ok(PeerMsg::ListApps))),
            r,
        ),
    ensures
        match r {
            Ok(Action::SendPeer(to, PeerMsg::ActiveApps(apps))) => to == peer && apps@ == ledger,
            _ => false,
        },
        ledger_after(
            ledger,
            ServiceBus::Msg,
            ServiceId::Peer(peer),
            BusMsg::Bifrost(BifrostMsg::Storm(Ok(PeerMsg::ListApps))),
        ) == ledger,
{
}

/// Every request on the client bus fails: from a client as unsupported,
/// from anyone else as a message on the wrong bus. The ledger stays.
pub proof fn lemma_client_requests_fail(
    ledger: Set<u16>,
    source: ServiceId,
    msg: RpcMsg,
    r: Result<Action, DaemonError>,
)
    requires
        handled(ledger, ServiceBus::Rpc, source, BusMsg::Rpc(msg), r),
    ensures
        r is Err,
        source is Client ==> r == Err::<Action, DaemonError>(
            DaemonError::Unsupported { bus: ServiceBus::Rpc },
        ),
        ledger_after(ledger, ServiceBus::Rpc, source, BusMsg::Rpc(msg)) == ledger,
{
}

/// The router's state.
pub struct Runtime {
    config: Config,
    registered_apps: Ledger,
}

impl Runtime {
    /// The applications registered so far.
    pub closed spec fn ledger(&self) -> Set<u16> {
        self.registered_apps@
    }

    /// The router's settings.
    pub closed spec fn settings(&self) -> Config {
        self.config
    }

    /// A router with the given settings and nothing registered.
    pub fn init(config: Config) -> (r: Result<Runtime, BootstrapError>)
        ensures
            r is Ok,
            r->Ok_0.settings() == config,
            r->Ok_0.ledger() == Set::<u16>::empty(),
    {
        Ok(Runtime { config, registered_apps: Ledger::new() })
    }

    /// The router's own identity on the buses.
    pub fn identity(&self) -> (r: ServiceId)
        ensures
            r is Stormd,
    {
        ServiceId::Stormd
    }

    /// The companion service to launch once the buses are ready, if any.
    pub fn on_ready(&self) -> (r: Option<Daemon>)
        ensures
            r == (if self.settings().run_chat {
                Some(Daemon::Chatd)
            } else {
                None
            }),
    {
        if self.config.run_chat {
            Some(Daemon::Chatd)
        } else {
            None
        }
    }

    /// A snapshot of the registered applications.
    pub fn registered_apps(&self) -> (r: std::collections::BTreeSet<u16>)
        ensures
            r@ == self.ledger(),
    {
        self.registered_apps.list()
    }

    /// Handles one event: `request` arrived on `bus` from `source`.
    pub fn handle(&mut self, bus: ServiceBus, source: ServiceId, request: BusMsg) -> (r: Result<
        Action,
        DaemonError,
    >)
        ensures
            handled(old(self).ledger(), bus, source, request, r),
            final(self).ledger() == ledger_after(old(self).ledger(), bus, source, request),
            final(self).settings() == old(self).settings(),
    {
        match (bus, request, source) {
            (ServiceBus::Msg, BusMsg::Bifrost(msg), ServiceId::Peer(remote_id)) => {
                self.handle_p2p(remote_id, msg)
            },
            (ServiceBus::Ctl, BusMsg::Ctl(msg), _) => self.handle_ctl(msg),
            (ServiceBus::Storm, BusMsg::Storm(msg), ServiceId::StormApp(app_id)) => {
                self.handle_app(app_id, msg)
            },
            (ServiceBus::Rpc, BusMsg::Rpc(msg), ServiceId::Client(client_id)) => {
                self.handle_rpc(client_id, msg)
            },
            (bus, msg, _) => Err(DaemonError::WrongBus { bus, msg: msg.kind() }),
        }
    }

    fn handle_p2p(&mut self, remote_id: NodeId, message: BifrostMsg) -> (r: Result<
        Action,
        DaemonError,
    >)
        ensures
            p2p_handled(old(self).ledger(), remote_id, message, r),
            *final(self) == *old(self),
    {
        match message {
            BifrostMsg::Other => Err(
                DaemonError::WrongBus { bus: ServiceBus::Msg, msg: MsgKind::Bifrost },
            ),
            BifrostMsg::Storm(Err(_)) => Err(DaemonError::Decode),
            BifrostMsg::Storm(Ok(mesg)) => match mesg.storm_ext_msg(remote_id) {
                Inbound::Forward(app, storm_msg) => Ok(Action::SendExt(app, storm_msg)),
                Inbound::Local(PeerMsg::ListApps) => Ok(
                    Action::SendPeer(remote_id, PeerMsg::ActiveApps(self.registered_apps.list())),
                ),
                // Reports of a peer's active applications have no consumer
                // yet; the transfer family belongs to the transfer service.
                Inbound::Local(_) => Ok(Action::Nothing),
            },
        }
    }

    fn handle_rpc(&mut self, _client_id: u64, _message: RpcMsg) -> (r: Result<
        Action,
        DaemonError,
    >)
        ensures
            r == Err::<Action, DaemonError>(DaemonError::Unsupported { bus: ServiceBus::Rpc }),
            *final(self) == *old(self),
    {
        Err(DaemonError::Unsupported { bus: ServiceBus::Rpc })
    }

    fn handle_ctl(&mut self, message: CtlMsg) -> (r: Result<Action, DaemonError>)
        ensures
            r == ctl_result(message),
            *final(self) == *old(self),
    {
        match message {
            CtlMsg::Hello => Ok(Action::Nothing),
            CtlMsg::Other(_) => Err(DaemonError::Unsupported { bus: ServiceBus::Ctl }),
        }
    }

    fn handle_app(&mut self, app: AppSelector, message: ExtMsg) -> (r: Result<
        Action,
        DaemonError,
    >)
        ensures
            r == app_result(app, message),
            final(self).ledger() == match message {
                ExtMsg::RegisterApp(claimed) => registered(old(self).ledger(), claimed, app),
                _ => old(self).ledger(),
            },
            final(self).settings() == old(self).settings(),
    {
        match message {
            ExtMsg::RegisterApp(app_id) => match self.registered_apps.register(app_id, app) {
                Ok(()) => Ok(Action::Nothing),
                Err(e) => Err(DaemonError::WrongBusSource(e)),
            },
            forward => {
                let remote_id = forward.remote_id();
                Ok(Action::SendPeer(remote_id, forward.p2p_message(app)))
            },
        }
    }
}

impl BusMsg {
    /// The family of the message.
    pub fn kind(&self) -> (r: MsgKind)
        ensures
            r == kind(*self),
    {
        match self {
            BusMsg::Bifrost(_) => MsgKind::Bifrost,
            BusMsg::Ctl(_) => MsgKind::Ctl,
            BusMsg::Storm(_) => MsgKind::Storm,
            BusMsg::Rpc(_) => MsgKind::Rpc,
        }
    }
}

} // verus!
