use embassy_sync::blocking_mutex::raw::NoopRawMutex;
use embassy_sync::channel::Channel;
use zenoh_nostd::get::RecvEvent;
use zenoh_nostd::keyexpr::KeyExpr;
use zenoh_nostd::messages::{
    ConsolidationMode, Encoding, GetResponse, NetworkMessage, QoS, QueryTarget, Reliability,
    Timestamp,
};
use zenoh_nostd::establishment::ZenohId;
use zenoh_nostd::queryable::{response_final, FinalizeAction, ReplyRoute};
use zenoh_nostd::session::{Callbacks, IdAllocator, SessionError, SessionState};
use zenoh_nostd::channel::channel_item;
use zenoh_nostd::mesh::{forward_next, forward_start, ForwardStep};
use zenoh_nostd::messages::Sample;
use zenoh_nostd::put::local_delivery;

fn ke(s: &str) -> KeyExpr {
    KeyExpr::new(s).ok().unwrap()
}

#[test]
fn ids_count_up() {
    let mut st = SessionState::new();
    assert_eq!(st.ids.peek(), 0);
    assert_eq!(st.next(), 0);
    assert_eq!(st.next(), 1);
    assert_eq!(st.ids.peek(), 2);
    let mut ids = IdAllocator::new();
    let a = ids.next();
    let b = ids.next();
    assert_ne!(a, b);
    assert_eq!(ids.peek(), 2);
}

#[test]
fn callbacks_insert_remove_and_errors() {
    let mut cb = Callbacks::new();
    assert_eq!(cb.insert(3, ke("a/b"), None), Ok(()));
    assert_eq!(cb.insert(3, ke("a/c"), None), Err(SessionError::DuplicateId));
    assert!(cb.contains(3));
    assert_eq!(cb.remove(3), Ok(()));
    assert!(!cb.contains(3));
    assert_eq!(cb.remove(3), Err(SessionError::UnknownId));
}

#[test]
fn callbacks_drop_timedout_and_intersects() {
    let mut cb = Callbacks::new();
    cb.insert(1, ke("a/*"), Some(10)).unwrap();
    cb.insert(2, ke("a/b"), None).unwrap();
    cb.insert(3, ke("c"), Some(20)).unwrap();
    assert_eq!(cb.intersects(&ke("a/b")), vec![1, 2]);
    cb.drop_timedout(10);
    assert!(!cb.contains(1));
    assert!(cb.contains(2));
    assert!(cb.contains(3));
    assert_eq!(cb.intersects(&ke("**")), vec![2, 3]);
}

#[test]
fn callbacks_counters() {
    let mut cb = Callbacks::new();
    cb.set_counter(7, 2);
    assert_eq!(cb.counter(7), Some(2));
    assert!(!cb.decrease(7));
    assert_eq!(cb.counter(7), Some(1));
    assert!(cb.decrease(7));
    assert_eq!(cb.counter(7), None);
    assert!(!cb.decrease(7));
    cb.set_counter(8, 3);
    cb.set_counter(8, 0);
    assert_eq!(cb.counter(8), None);
}

#[test]
fn put_delivers_locally_and_builds_push() {
    let mut st = SessionState::new();
    st.subscribers.insert(10, ke("demo/*"), None).unwrap();
    st.subscribers.insert(11, ke("other"), None).unwrap();
    let ts = Timestamp { time: 42, id: ZenohId { id: 9 } };
    let plan = st
        .put(ke("demo/mesh"), b"hi".to_vec())
        .encoding(Encoding::with_id(7))
        .timestamp(ts)
        .attachment(b"att".to_vec())
        .qos(QoS::from_parts(2, true, true))
        .reliability(Reliability::BestEffort)
        .finish();
    let (_, ids) = local_delivery::<()>(&st, Sample { ke: ke("demo/mesh"), payload: vec![], encoding_id: 0 }, Ok(()))
        .ok()
        .unwrap();
    assert_eq!(ids, vec![10]);
    assert_eq!(plan.sample.payload, b"hi".to_vec());
    assert_eq!(plan.sample.encoding_id, 7);
    match plan.message {
        NetworkMessage::Push { ke, payload, encoding, timestamp, attachment, qos, reliability } => {
            assert_eq!(ke.as_str(), "demo/mesh");
            assert_eq!(payload, b"hi".to_vec());
            assert_eq!(encoding.id, 7);
            assert_eq!(timestamp, Some(ts));
            assert_eq!(attachment, Some(b"att".to_vec()));
            assert_eq!(qos, QoS { priority: 2, congestion_block: true, express: true });
            assert_eq!(reliability, Reliability::BestEffort);
        }
        _ => panic!("expected a push"),
    }
}

#[test]
fn put_defaults() {
    let st = SessionState::new();
    let b = st.put(ke("a"), vec![1]);
    assert_eq!(b.qos, QoS { priority: 5, congestion_block: false, express: false });
    assert_eq!(b.reliability, Reliability::Reliable);
    assert_eq!(b.encoding.id, 0);
    assert!(b.timestamp.is_none());
    assert!(b.attachment.is_none());
    let b = b.payload(vec![2, 3]);
    assert_eq!(b.payload, vec![2, 3]);
}

#[test]
fn publisher_declares_interest_and_publishes() {
    let mut st = SessionState::new();
    st.next();
    let (publisher, msg) = st
        .declare_publisher(ke("demo/mesh"))
        .encoding(Encoding::with_id(3))
        .attachment(vec![9])
        .finish(&mut st);
    assert_eq!(publisher.id(), 1);
    assert_eq!(publisher.keyexpr().as_str(), "demo/mesh");
    match msg {
        NetworkMessage::Interest { id, ke } => {
            assert_eq!(id, 1);
            assert_eq!(ke.as_str(), "demo/mesh");
        }
        _ => panic!("expected an interest"),
    }
    let put = publisher.put(b"x".to_vec());
    assert_eq!(put.encoding.id, 3);
    assert_eq!(put.attachment, Some(vec![9]));
    assert_eq!(put.reliability, Reliability::Reliable);
    match publisher.undeclare() {
        NetworkMessage::InterestFinal { id } => assert_eq!(id, 1),
        _ => panic!("expected interest final"),
    }
}

#[test]
fn queryable_declare_and_undeclare() {
    let mut st = SessionState::new();
    let (q, msg) = st.declare_queryable::<()>(ke("q/*")).callback_sync().finish(&mut st, 0).ok().unwrap();
    assert_eq!(q.id(), 0);
    assert!(q.receiver.is_none());
    match msg {
        NetworkMessage::DeclareQueryable { id, ke } => {
            assert_eq!(id, 0);
            assert_eq!(ke.as_str(), "q/*");
        }
        _ => panic!("expected a declaration"),
    }
    assert!(st.queryables.contains(0));
    match st.undeclare_queryable(0) {
        Ok(NetworkMessage::UndeclareQueryable { id }) => assert_eq!(id, 0),
        _ => panic!("expected an undeclaration"),
    }
    assert!(matches!(st.undeclare_queryable(0), Err(SessionError::UnknownId)));
}

#[test]
fn queryable_finish_duplicate_id() {
    let mut st = SessionState::new();
    st.queryables.insert(0, ke("x"), None).unwrap();
    let ch: Channel<NoopRawMutex, u8, 2> = Channel::new();
    assert!(matches!(
        st.declare_queryable(ke("q")).channel(ch.dyn_receiver()).finish(&mut st, 0),
        Err(SessionError::DuplicateId)
    ));
    assert_eq!(st.ids.peek(), 1);
}

#[test]
fn get_builds_request_with_defaults() {
    let mut st = SessionState::new();
    let (pending, msg) = st.get::<()>(ke("a/b")).callback().finish(&mut st, 100).ok().unwrap();
    assert_eq!(pending.rid, 0);
    assert_eq!(pending.deadline, 30100);
    assert!(st.gets.contains(0));
    match msg {
        NetworkMessage::Request { rid, ke, target, consolidation, parameters, payload } => {
            assert_eq!(rid, 0);
            assert_eq!(ke.as_str(), "a/b");
            assert_eq!(target, QueryTarget::BestMatching);
            assert_eq!(consolidation, ConsolidationMode::Auto);
            assert_eq!(parameters, "");
            assert_eq!(payload, None);
        }
        _ => panic!("expected a request"),
    }
    let r = pending.responses();
    assert_eq!(r.keyexpr().as_str(), "a/b");
    assert_eq!(r.recv_outcome(RecvEvent::TimedOut), None);
    assert_eq!(r.recv_outcome(RecvEvent::Received(())), Some(()));
}

#[test]
fn get_builder_options() {
    let mut st = SessionState::new();
    let ch: Channel<NoopRawMutex, u32, 4> = Channel::new();
    let (pending, msg) = st
        .get(ke("a"))
        .keyexpr(ke("b/c"))
        .parameters("x=1".to_string())
        .payload(vec![1, 2])
        .timeout(50)
        .target(QueryTarget::All)
        .consolidation(ConsolidationMode::Latest)
        .channel(ch.dyn_receiver())
        .finish(&mut st, 7)
        .ok()
        .unwrap();
    assert_eq!(pending.deadline, 57);
    assert!(pending.receiver.is_some());
    let q = pending.query();
    assert_eq!(q.parameters, Some("x=1".to_string()));
    assert_eq!(q.payload, Some(vec![1, 2]));
    match msg {
        NetworkMessage::Request { ke, target, consolidation, parameters, payload, .. } => {
            assert_eq!(ke.as_str(), "b/c");
            assert_eq!(target, QueryTarget::All);
            assert_eq!(consolidation, ConsolidationMode::Latest);
            assert_eq!(parameters, "x=1");
            assert_eq!(payload, Some(vec![1, 2]));
        }
        _ => panic!("expected a request"),
    }
    let responses = pending.responses();
    assert_eq!(responses.try_recv(), None);
    ch.try_send(11).unwrap();
    ch.try_send(12).unwrap();
    assert_eq!(responses.try_recv(), Some(11));
    assert_eq!(responses.try_recv(), Some(12));
    assert_eq!(responses.try_recv(), None);
}

#[test]
fn queryable_channel_receives_queries() {
    let mut st = SessionState::new();
    let ch: Channel<NoopRawMutex, u32, 2> = Channel::new();
    let (q, _) = st.declare_queryable(ke("q/*")).channel(ch.dyn_receiver()).finish(&mut st, 0).ok().unwrap();
    assert_eq!(q.try_recv(), None);
    ch.try_send(5).unwrap();
    assert_eq!(q.try_recv(), Some(5));
}

#[test]
fn get_drops_timed_out_gets() {
    let mut st = SessionState::new();
    let (p0, _) = st.get::<()>(ke("a")).callback().timeout(10).finish(&mut st, 0).ok().unwrap();
    let (p1, _) = st.get::<()>(ke("a")).callback().finish(&mut st, 10).ok().unwrap();
    assert!(!st.gets.contains(p0.rid));
    assert!(st.gets.contains(p1.rid));
}

#[test]
fn reply_and_err_route_locally_or_remotely() {
    let mut st = SessionState::new();
    let (pending, _) = st.get::<()>(ke("a/b")).callback().finish(&mut st, 0).ok().unwrap();
    match st.reply(pending.rid, &ke("a/b"), b"v") {
        ReplyRoute::Local(GetResponse::Reply(s)) => {
            assert_eq!(s.ke.as_str(), "a/b");
            assert_eq!(s.payload, b"v".to_vec());
        }
        _ => panic!("expected a local reply"),
    }
    match st.err(pending.rid, &ke("a/b"), b"e") {
        ReplyRoute::Local(GetResponse::ReplyErr(s)) => assert_eq!(s.payload, b"e".to_vec()),
        _ => panic!("expected a local error reply"),
    }
    match st.reply(99, &ke("a/b"), b"v") {
        ReplyRoute::Remote(NetworkMessage::Reply { rid, payload, .. }) => {
            assert_eq!(rid, 99);
            assert_eq!(payload, b"v".to_vec());
        }
        _ => panic!("expected a remote reply"),
    }
    match st.err(99, &ke("a/b"), b"e") {
        ReplyRoute::Remote(NetworkMessage::ReplyErr { rid, .. }) => assert_eq!(rid, 99),
        _ => panic!("expected a remote error reply"),
    }
}

#[test]
fn local_get_with_two_queryables_awaits_remote_final() {
    let mut st = SessionState::new();
    st.declare_queryable::<()>(ke("a/*")).callback().finish(&mut st, 0).ok().unwrap();
    st.declare_queryable::<()>(ke("a/b")).callback_sync().finish(&mut st, 0).ok().unwrap();
    st.declare_queryable::<()>(ke("z")).callback().finish(&mut st, 0).ok().unwrap();
    let (pending, _) = st.get::<()>(ke("a/b")).callback().finish(&mut st, 0).ok().unwrap();
    let ids = pending.dispatch_local(&mut st);
    assert_eq!(ids, vec![0, 1]);
    assert_eq!(st.gets.counter(pending.rid), Some(1));
    assert_eq!(st.queryables.counter(pending.rid), Some(2));
    assert_eq!(st.finalize(pending.rid), FinalizeAction::Wait);
    assert_eq!(st.finalize(pending.rid), FinalizeAction::AwaitRemoteFinal);
    assert!(st.gets.contains(pending.rid));
    assert_eq!(st.finalize(pending.rid), FinalizeAction::Wait);
}

#[test]
fn get_without_local_queryables_sets_no_counter() {
    let mut st = SessionState::new();
    let (pending, _) = st.get::<()>(ke("a/b")).callback().finish(&mut st, 0).ok().unwrap();
    assert!(pending.dispatch_local(&mut st).is_empty());
    assert_eq!(st.gets.counter(pending.rid), None);
    assert_eq!(st.finalize(pending.rid), FinalizeAction::Wait);
}

#[test]
fn local_get_without_remote_flag_gets_done_once() {
    let mut st = SessionState::new();
    let (pending, _) = st.get::<()>(ke("a")).callback().finish(&mut st, 0).ok().unwrap();
    st.queryables.set_counter(pending.rid, 1);
    assert_eq!(st.finalize(pending.rid), FinalizeAction::DeliverDone);
    assert!(!st.gets.contains(pending.rid));
    assert_eq!(st.finalize(pending.rid), FinalizeAction::Wait);
}

#[test]
fn remote_request_sends_response_final_once() {
    let mut st = SessionState::new();
    st.queryables.set_counter(55, 2);
    assert_eq!(st.finalize(55), FinalizeAction::Wait);
    assert_eq!(st.finalize(55), FinalizeAction::SendResponseFinal);
    assert_eq!(st.finalize(55), FinalizeAction::Wait);
    match response_final(55) {
        NetworkMessage::ResponseFinal { rid } => assert_eq!(rid, 55),
        _ => panic!("expected response final"),
    }
}

#[test]
fn subscriber_declare_and_undeclare() {
    let mut st = SessionState::new();
    st.next();
    let (sub, msg) = st.declare_subscriber(ke("s/*")).ok().unwrap();
    assert_eq!(sub.id(), 1);
    assert_eq!(sub.keyexpr().as_str(), "s/*");
    match msg {
        NetworkMessage::DeclareSubscriber { id, ke } => {
            assert_eq!(id, 1);
            assert_eq!(ke.as_str(), "s/*");
        }
        _ => panic!("expected a declaration"),
    }
    assert!(st.subscribers.contains(1));
    let plan = st.put(ke("s/x"), vec![5]).finish();
    let (_, ids) = local_delivery::<()>(&st, plan.sample, Ok(())).ok().unwrap();
    assert_eq!(ids, vec![1]);
    match st.undeclare_subscriber(1) {
        Ok(NetworkMessage::UndeclareSubscriber { id }) => assert_eq!(id, 1),
        _ => panic!("expected an undeclaration"),
    }
    assert!(matches!(st.undeclare_subscriber(1), Err(SessionError::UnknownId)));
    st.subscribers.insert(2, ke("t"), None).unwrap();
    assert!(matches!(st.declare_subscriber(ke("u")), Err(SessionError::DuplicateId)));
    assert_eq!(st.ids.peek(), 3);
}

#[test]
fn failed_put_is_not_delivered_locally() {
    let mut st = SessionState::new();
    st.subscribers.insert(4, ke("a"), None).unwrap();
    let sample = Sample { ke: ke("a"), payload: vec![1], encoding_id: 0 };
    let r: Result<(Sample, Vec<u32>), u8> = local_delivery(&st, sample, Err(9));
    assert!(matches!(r, Err(9)));
    let plan = st.put(ke("a"), vec![1]).finish();
    // A subscriber declared while the message was being sent is served too:
    // the subscribers are looked up after the send.
    st.subscribers.insert(5, ke("*"), None).unwrap();
    let (s, ids) = local_delivery::<u8>(&st, plan.sample, Ok(())).ok().unwrap();
    assert_eq!(s.payload, vec![1]);
    assert_eq!(ids, vec![4, 5]);
}

#[test]
fn failed_get_request_is_not_dispatched_locally() {
    let mut st = SessionState::new();
    st.declare_queryable::<()>(ke("a/*")).callback_sync().finish(&mut st, 0).ok().unwrap();
    let (pending, _) = st.get::<()>(ke("a/b")).callback().finish(&mut st, 0).ok().unwrap();
    let r = pending.after_send(&mut st, Err(3u8));
    assert!(matches!(r, Err(3)));
    assert!(st.gets.contains(pending.rid));
    assert_eq!(st.gets.counter(pending.rid), None);
    assert_eq!(st.queryables.counter(pending.rid), None);
    let (ids, q) = pending.after_send::<u8>(&mut st, Ok(())).ok().unwrap();
    assert_eq!(ids, vec![0]);
    assert_eq!(q.rid, pending.rid);
    assert_eq!(q.ke.as_str(), "a/b");
    assert_eq!(st.gets.counter(pending.rid), Some(1));
    assert_eq!(st.queryables.counter(pending.rid), Some(1));
}

#[test]
fn channel_gets_only_converted_answers() {
    assert_eq!(channel_item::<u8, ()>(Ok(3)), Some(3));
    assert_eq!(channel_item::<u8, ()>(Err(())), None);
}

#[test]
fn forward_stops_at_first_failed_send() {
    assert!(matches!(forward_start::<u8>(0), ForwardStep::Done(Ok(()))));
    assert!(matches!(forward_start::<u8>(3), ForwardStep::Send(0)));
    assert!(matches!(forward_next::<u8>(0, 3, Ok(())), ForwardStep::Send(1)));
    assert!(matches!(forward_next::<u8>(1, 3, Err(7)), ForwardStep::Done(Err(7))));
    assert!(matches!(forward_next::<u8>(2, 3, Ok(())), ForwardStep::Done(Ok(()))));
    let outcomes: [Result<(), u8>; 3] = [Ok(()), Err(4), Ok(())];
    let mut tried = Vec::new();
    let mut step = forward_start::<u8>(3);
    let result = loop {
        match step {
            ForwardStep::Send(i) => {
                tried.push(i);
                step = forward_next(i, 3, outcomes[i]);
            }
            ForwardStep::Done(r) => break r,
        }
    };
    assert_eq!(tried, vec![0, 1]);
    assert_eq!(result, Err(4));
}

#[test]
fn ids_differ_across_declarations() {
    let mut st = SessionState::new();
    let (p, _) = st.declare_publisher(ke("a")).finish(&mut st);
    let (g, _) = st.get::<()>(ke("a")).callback().finish(&mut st, 0).ok().unwrap();
    let (q, _) = st.declare_queryable::<()>(ke("b")).callback().finish(&mut st, 0).ok().unwrap();
    let (s, _) = st.declare_subscriber(ke("c")).ok().unwrap();
    let ids = [p.id(), g.rid, q.id(), s.id()];
    assert_eq!(ids, [0, 1, 2, 3]);
}
