use std::collections::BTreeSet;

use internet2::addr::NodeId;
use stormd_core::ids::{AppSelector, MesgId};
use stormd_core::ledger::{IdentityMismatch, Ledger};
use stormd_core::messages::{AddressedMsg, AppMsg, ExtMsg, Inbound, PeerMsg};
use stormd_core::service::{
    Action, BifrostMsg, BusMsg, Config, CtlMsg, Daemon, DaemonError, DecodeError, MsgKind, RpcMsg,
    Runtime, ServiceBus, ServiceId,
};

const APP_A: u16 = 0x0001;
const APP_B: u16 = 0x0002;
const APP_C: u16 = 0x0003;

fn peer_one() -> NodeId {
    "0279be667ef9dcbbac55a06295ce870b07029bfcdb2dce28d959f2815b16f81798".parse().unwrap()
}

fn peer_two() -> NodeId {
    "02c6047f9441ed7d6d3045406e95c07cd85c778e4b8cef3ca7abac09b95c709ee5".parse().unwrap()
}

fn app(code: u16) -> AppSelector {
    AppSelector::with_code(code)
}

fn id(byte: u8) -> MesgId {
    MesgId { hash: [byte; 32] }
}

fn runtime_with_app_a() -> Runtime {
    let mut rt = Runtime::init(Config { run_chat: false }).unwrap();
    let r = rt.handle(
        ServiceBus::Storm,
        ServiceId::StormApp(app(APP_A)),
        BusMsg::Storm(ExtMsg::RegisterApp(app(APP_A))),
    );
    assert!(matches!(r, Ok(Action::Nothing)));
    rt
}

fn set_of(codes: &[u16]) -> BTreeSet<u16> {
    codes.iter().copied().collect()
}

#[test]
fn register_twice_is_idempotent() {
    let mut ledger = Ledger::new();
    assert_eq!(ledger.register(app(APP_A), app(APP_A)), Ok(()));
    let first = ledger.list();
    assert_eq!(ledger.register(app(APP_A), app(APP_A)), Ok(()));
    assert_eq!(ledger.list(), first);
    assert_eq!(ledger.list(), set_of(&[APP_A]));
}

#[test]
fn register_mismatch_leaves_ledger() {
    let mut ledger = Ledger::new();
    assert_eq!(ledger.register(app(APP_A), app(APP_A)), Ok(()));
    let r = ledger.register(app(APP_C), app(APP_B));
    assert_eq!(r, Err(IdentityMismatch { claimed: app(APP_C), actual: app(APP_B) }));
    assert_eq!(ledger.list(), set_of(&[APP_A]));
    assert!(ledger.contains(app(APP_A)));
    assert!(!ledger.contains(app(APP_C)));
}

#[test]
fn bridge_round_trip_of_every_addressed_case() {
    let cases = vec![
        ExtMsg::ListTopics(AddressedMsg { remote_id: peer_one(), data: () }),
        ExtMsg::Topics(AddressedMsg { remote_id: peer_one(), data: [id(1), id(2)].into_iter().collect() }),
        ExtMsg::Read(AddressedMsg { remote_id: peer_two(), data: id(3) }),
        ExtMsg::Decline(AddressedMsg { remote_id: peer_one(), data: id(4) }),
        ExtMsg::Accept(AddressedMsg { remote_id: peer_two(), data: id(5) }),
    ];
    for msg in cases {
        let remote = msg.remote_id();
        let expected = format!("{:?}", msg);
        let peer = match msg {
            ExtMsg::ListTopics(m) => ExtMsg::ListTopics(m).p2p_message(app(APP_B)),
            ExtMsg::Topics(m) => ExtMsg::Topics(m).p2p_message(app(APP_B)),
            ExtMsg::Read(m) => ExtMsg::Read(m).p2p_message(app(APP_B)),
            ExtMsg::Decline(m) => ExtMsg::Decline(m).p2p_message(app(APP_B)),
            ExtMsg::Accept(m) => ExtMsg::Accept(m).p2p_message(app(APP_B)),
            _ => unreachable!(),
        };
        match peer.storm_ext_msg(remote) {
            Inbound::Forward(a, back) => {
                assert_eq!(a, app(APP_B));
                assert_eq!(format!("{:?}", back), expected);
            }
            Inbound::Local(_) => panic!("an application message must be forwarded"),
        }
    }
}

#[test]
fn topics_go_out_without_the_remote() {
    let ids: BTreeSet<MesgId> = [id(9), id(8)].into_iter().collect();
    let msg = ExtMsg::Topics(AddressedMsg { remote_id: peer_one(), data: ids.clone() });
    match msg.p2p_message(app(APP_A)) {
        PeerMsg::AppTopics(AppMsg { app: a, data }) => {
            assert_eq!(a, app(APP_A));
            assert_eq!(data, ids);
        }
        other => panic!("unexpected peer message {:?}", other),
    }
}

#[test]
fn topics_payload_is_the_encoded_set_only() {
    let ids: BTreeSet<MesgId> = [id(2), id(1)].into_iter().collect();
    let one = ExtMsg::Topics(AddressedMsg { remote_id: peer_one(), data: ids.clone() });
    let two = ExtMsg::Topics(AddressedMsg { remote_id: peer_two(), data: ids });
    let mut expected = vec![2u8, 0u8];
    expected.extend_from_slice(&[1u8; 32]);
    expected.extend_from_slice(&[2u8; 32]);
    assert_eq!(one.to_payload(), Some(expected.clone()));
    assert_eq!(two.to_payload(), Some(expected));
}

#[test]
fn id_and_unit_payloads() {
    let read = ExtMsg::Read(AddressedMsg { remote_id: peer_one(), data: id(0xab) });
    assert_eq!(read.to_payload(), Some(vec![0xabu8; 32]));
    let list = ExtMsg::ListTopics(AddressedMsg { remote_id: peer_one(), data: () });
    assert_eq!(list.to_payload(), Some(vec![]));
}

#[test]
fn list_apps_is_answered_to_the_peer_only() {
    let mut rt = runtime_with_app_a();
    let r = rt.handle(
        ServiceBus::Msg,
        ServiceId::Peer(peer_two()),
        BusMsg::Bifrost(BifrostMsg::Storm(Ok(PeerMsg::ListApps))),
    );
    match r {
        Ok(Action::SendPeer(to, PeerMsg::ActiveApps(apps))) => {
            assert_eq!(to, peer_two());
            assert_eq!(apps, set_of(&[APP_A]));
        }
        other => panic!("unexpected outcome {:?}", other),
    }
    assert_eq!(rt.registered_apps(), set_of(&[APP_A]));
}

#[test]
fn register_of_another_app_is_rejected() {
    let mut rt = runtime_with_app_a();
    let r = rt.handle(
        ServiceBus::Storm,
        ServiceId::StormApp(app(APP_B)),
        BusMsg::Storm(ExtMsg::RegisterApp(app(APP_C))),
    );
    assert!(matches!(
        r,
        Err(DaemonError::WrongBusSource(IdentityMismatch { claimed, actual }))
            if claimed == app(APP_C) && actual == app(APP_B)
    ));
    assert_eq!(rt.registered_apps(), set_of(&[APP_A]));
}

#[test]
fn accept_is_forwarded_to_the_named_peer() {
    let mut rt = runtime_with_app_a();
    let r = rt.handle(
        ServiceBus::Storm,
        ServiceId::StormApp(app(APP_A)),
        BusMsg::Storm(ExtMsg::Accept(AddressedMsg { remote_id: peer_two(), data: id(0x12) })),
    );
    match r {
        Ok(Action::SendPeer(to, PeerMsg::Accept(AppMsg { app: a, data }))) => {
            assert_eq!(to, peer_two());
            assert_eq!(a, app(APP_A));
            assert_eq!(data, id(0x12));
        }
        other => panic!("unexpected outcome {:?}", other),
    }
    assert_eq!(rt.registered_apps(), set_of(&[APP_A]));
}

#[test]
fn unregistered_sender_is_forwarded_too() {
    let mut rt = Runtime::init(Config { run_chat: false }).unwrap();
    let r = rt.handle(
        ServiceBus::Storm,
        ServiceId::StormApp(app(APP_B)),
        BusMsg::Storm(ExtMsg::Read(AddressedMsg { remote_id: peer_one(), data: id(1) })),
    );
    assert!(matches!(r, Ok(Action::SendPeer(to, PeerMsg::Read(_))) if to == peer_one()));
    assert_eq!(rt.registered_apps(), set_of(&[]));
}

#[test]
fn client_requests_are_unsupported() {
    let mut rt = runtime_with_app_a();
    for type_id in [0u16, 1, 0x0100, u16::MAX] {
        let r = rt.handle(ServiceBus::Rpc, ServiceId::Client(7), BusMsg::Rpc(RpcMsg { type_id }));
        assert!(matches!(r, Err(DaemonError::Unsupported { bus: ServiceBus::Rpc })));
    }
    let r = rt.handle(ServiceBus::Rpc, ServiceId::Peer(peer_one()), BusMsg::Rpc(RpcMsg { type_id: 1 }));
    assert!(matches!(r, Err(DaemonError::WrongBus { bus: ServiceBus::Rpc, msg: MsgKind::Rpc })));
}

#[test]
fn control_hello_only() {
    let mut rt = runtime_with_app_a();
    let r = rt.handle(ServiceBus::Ctl, ServiceId::Stormd, BusMsg::Ctl(CtlMsg::Hello));
    assert!(matches!(r, Ok(Action::Nothing)));
    let r = rt.handle(ServiceBus::Ctl, ServiceId::Stormd, BusMsg::Ctl(CtlMsg::Other(3)));
    assert!(matches!(r, Err(DaemonError::Unsupported { bus: ServiceBus::Ctl })));
}

#[test]
fn wrong_bus_combinations() {
    let mut rt = runtime_with_app_a();
    let r = rt.handle(ServiceBus::Msg, ServiceId::Peer(peer_one()), BusMsg::Ctl(CtlMsg::Hello));
    assert!(matches!(r, Err(DaemonError::WrongBus { bus: ServiceBus::Msg, msg: MsgKind::Ctl })));
    let r = rt.handle(
        ServiceBus::Storm,
        ServiceId::Peer(peer_one()),
        BusMsg::Storm(ExtMsg::RegisterApp(app(APP_B))),
    );
    assert!(matches!(r, Err(DaemonError::WrongBus { bus: ServiceBus::Storm, msg: MsgKind::Storm })));
    let r = rt.handle(ServiceBus::Msg, ServiceId::Peer(peer_one()), BusMsg::Bifrost(BifrostMsg::Other));
    assert!(matches!(r, Err(DaemonError::WrongBus { bus: ServiceBus::Msg, msg: MsgKind::Bifrost })));
    assert_eq!(rt.registered_apps(), set_of(&[APP_A]));
}

#[test]
fn undecodable_peer_message_is_dropped() {
    let mut rt = runtime_with_app_a();
    let r = rt.handle(
        ServiceBus::Msg,
        ServiceId::Peer(peer_one()),
        BusMsg::Bifrost(BifrostMsg::Storm(Err(DecodeError))),
    );
    assert!(matches!(r, Err(DaemonError::Decode)));
    let r = rt.handle(
        ServiceBus::Msg,
        ServiceId::Peer(peer_one()),
        BusMsg::Bifrost(BifrostMsg::Storm(Ok(PeerMsg::ListApps))),
    );
    assert!(matches!(r, Ok(Action::SendPeer(_, PeerMsg::ActiveApps(_)))));
}

#[test]
fn peer_messages_reach_their_extension() {
    let mut rt = runtime_with_app_a();
    let r = rt.handle(
        ServiceBus::Msg,
        ServiceId::Peer(peer_one()),
        BusMsg::Bifrost(BifrostMsg::Storm(Ok(PeerMsg::Decline(AppMsg { app: app(APP_C), data: id(6) })))),
    );
    match r {
        Ok(Action::SendExt(a, ExtMsg::Decline(AddressedMsg { remote_id, data }))) => {
            assert_eq!(a, app(APP_C));
            assert_eq!(remote_id, peer_one());
            assert_eq!(data, id(6));
        }
        other => panic!("unexpected outcome {:?}", other),
    }
}

#[test]
fn active_apps_report_is_accepted_silently() {
    let mut rt = runtime_with_app_a();
    let r = rt.handle(
        ServiceBus::Msg,
        ServiceId::Peer(peer_one()),
        BusMsg::Bifrost(BifrostMsg::Storm(Ok(PeerMsg::ActiveApps(set_of(&[APP_B, APP_C]))))),
    );
    assert!(matches!(r, Ok(Action::Nothing)));
    assert_eq!(rt.registered_apps(), set_of(&[APP_A]));
}

#[test]
fn startup_and_identity() {
    let rt = Runtime::init(Config { run_chat: true }).unwrap();
    assert_eq!(rt.on_ready(), Some(Daemon::Chatd));
    assert!(matches!(rt.identity(), ServiceId::Stormd));
    assert_eq!(rt.registered_apps(), set_of(&[]));
    let quiet = Runtime::init(Config { run_chat: false }).unwrap();
    assert_eq!(quiet.on_ready(), None);
}

#[test]
fn addressed_with_takes_payload_and_peer() {
    let m = AddressedMsg::with(AppMsg { app: app(APP_A), data: id(4) }, peer_two());
    assert_eq!(m.remote_id, peer_two());
    assert_eq!(m.data, id(4));
}

#[test]
fn wire_tags_are_stable() {
    let cases = vec![
        (ExtMsg::RegisterApp(app(APP_A)), 0x0100u16),
        (ExtMsg::ListTopics(AddressedMsg { remote_id: peer_one(), data: () }), 0x0102),
        (ExtMsg::Topics(AddressedMsg { remote_id: peer_one(), data: BTreeSet::new() }), 0x0103),
        (ExtMsg::Read(AddressedMsg { remote_id: peer_one(), data: id(1) }), 0x000a),
        (ExtMsg::Decline(AddressedMsg { remote_id: peer_one(), data: id(1) }), 0x000c),
        (ExtMsg::Accept(AddressedMsg { remote_id: peer_one(), data: id(1) }), 0x000e),
    ];
    for (msg, tag) in cases {
        assert_eq!(msg.type_id(), tag);
    }
}
