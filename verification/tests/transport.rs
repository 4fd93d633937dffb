use zenoh_nostd::establishment::{
    InitIdentifier, InitResolution, InitSyn, InitSynOutcome, LocalParams, State, TransportError,
    WhatAmI, ZenohId,
};
use zenoh_nostd::mesh::MeshState;
use zenoh_nostd::ws::{deliver_frame, read_exact_result, LinkError, OpCode, WsLinkInfo};

fn params(zid: u128) -> LocalParams {
    LocalParams { zid: ZenohId { id: zid }, whatami: WhatAmI::Peer, batch_size: 512, resolution: 0, lease_ms: 30000 }
}

fn syn_from(p: &LocalParams) -> InitSyn {
    InitSyn {
        identifier: InitIdentifier { zid: p.zid, whatami: p.whatami },
        resolution: InitResolution { resolution: p.resolution, batch_size: p.batch_size },
    }
}

fn zid(byte: u8) -> u128 {
    u128::from_be_bytes([byte; 16])
}

#[test]
fn simultaneous_open_scenario() {
    let lower = params(zid(1));
    let higher = params(zid(2));
    let mut state_lower = State::WaitingInitAck(lower);
    match state_lower.on_init_syn(&syn_from(&higher), vec![]) {
        InitSynOutcome::Keep => {}
        _ => panic!("the lower identifier must win"),
    }
    assert_eq!(state_lower, State::WaitingInitAck(lower));
    let mut state_higher = State::WaitingInitAck(higher);
    match state_higher.on_init_syn(&syn_from(&lower), vec![7]) {
        InitSynOutcome::Reply(ack) => {
            assert_eq!(ack.identifier.zid, higher.zid);
            assert_eq!(ack.identifier.whatami, WhatAmI::Peer);
            assert_eq!(ack.resolution.batch_size, 512);
            assert_eq!(ack.cookie, vec![7]);
        }
        _ => panic!("the higher identifier must yield"),
    }
    assert_eq!(state_higher, State::WaitingOpenSyn(higher));
}

#[test]
fn identical_identifiers_are_refused() {
    let a = params(zid(0));
    let mut s = State::WaitingInitAck(a);
    match s.on_init_syn(&syn_from(&a), vec![]) {
        InitSynOutcome::Refused(e) => assert_eq!(e, TransportError::InvalidAttribute),
        _ => panic!("equal identifiers must be refused"),
    }
    assert_eq!(s, State::WaitingInitAck(a));
}

#[test]
fn listener_answers_and_other_states_refuse() {
    let me = params(5);
    let other = params(9);
    let mut s = State::WaitingInitSyn(me);
    match s.on_init_syn(&syn_from(&other), vec![1, 2]) {
        InitSynOutcome::Reply(ack) => assert_eq!(ack.identifier.zid, me.zid),
        _ => panic!("a listener answers"),
    }
    assert_eq!(s, State::WaitingOpenSyn(me));
    match s.on_init_syn(&syn_from(&other), vec![]) {
        InitSynOutcome::Refused(e) => assert_eq!(e, TransportError::InvalidState),
        _ => panic!("unexpected InitSyn"),
    }
    let mut done = State::Established;
    assert!(matches!(done.on_init_syn(&syn_from(&other), vec![]), InitSynOutcome::Refused(TransportError::InvalidState)));
}

#[test]
fn mesh_forwards_to_every_other_peer_in_order() {
    let mut m: MeshState<&'static str> = MeshState::new();
    assert_eq!(m.insert(ZenohId { id: 30 }, "c"), None);
    assert_eq!(m.insert(ZenohId { id: 10 }, "a"), None);
    assert_eq!(m.insert(ZenohId { id: 20 }, "b"), None);
    assert_eq!(m.insert(ZenohId { id: 20 }, "b2"), Some("b"));
    assert_eq!(m.len(), 3);
    let f: Vec<(u128, &str)> = m.forward(ZenohId { id: 20 }).into_iter().map(|(k, e)| (k, *e)).collect();
    assert_eq!(f, vec![(10, "a"), (30, "c")]);
    let f: Vec<&str> = m.forward(ZenohId { id: 99 }).into_iter().map(|(_, e)| *e).collect();
    assert_eq!(f, vec!["a", "b2", "c"]);
    m.remove(&ZenohId { id: 10 });
    m.remove(&ZenohId { id: 11 });
    let f: Vec<&str> = m.forward(ZenohId { id: 30 }).into_iter().map(|(_, e)| *e).collect();
    assert_eq!(f, vec!["b2"]);
    assert_eq!(m.len(), 2);
}

#[test]
fn binary_frame_is_copied_as_far_as_it_fits() {
    let mut buf = [9u8; 4];
    assert_eq!(deliver_frame(OpCode::Binary, &[1, 2], &mut buf), Ok(2));
    assert_eq!(buf, [1, 2, 9, 9]);
    let mut small = [0u8; 2];
    assert_eq!(deliver_frame(OpCode::Binary, &[5, 6, 7], &mut small), Ok(2));
    assert_eq!(small, [5, 6]);
}

#[test]
fn other_frames_are_refused() {
    let mut buf = [3u8; 2];
    assert_eq!(deliver_frame(OpCode::Text, &[1], &mut buf), Err(LinkError::LinkRxFailed));
    assert_eq!(deliver_frame(OpCode::Close, &[], &mut buf), Err(LinkError::LinkRxFailed));
    assert_eq!(buf, [3, 3]);
    assert_eq!(read_exact_result(Ok(3)), Ok(()));
    assert_eq!(read_exact_result(Err(LinkError::LinkTxFailed)), Err(LinkError::LinkTxFailed));
}

#[test]
fn ws_link_info() {
    let l = WsLinkInfo::new(1500);
    assert_eq!(l.mtu(), 1500);
    assert!(!l.is_streamed());
    let (tx, rx) = l.split();
    assert_eq!(tx.mtu(), 1500);
    assert_eq!(rx.mtu(), 1500);
}
