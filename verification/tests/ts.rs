use zenoh_nostd::intern::KeyExprCache;
use zenoh_nostd::keyexpr::KeyExpr;
use zenoh_nostd::messages::{ConsolidationMode, GetResponse, QoS, QueryTarget, QueryableQuery, Reliability, Sample};
use zenoh_nostd::queryable::Delivery;
use zenoh_nostd::slots::{SessionSlots, SlotError, MAX_SESSIONS};
use zenoh_nostd::ts::{
    consolidation_from, encoding_id_from, qos_from, query_to_js, reliability_from, reply_to_js,
    sample_to_js, target_from, wasm_buff, GetWait, JsQuerier, JsQuery, JsQueryable, JsSession,
    JsSubscriber, TsError,
};

fn ke(s: &str) -> KeyExpr {
    KeyExpr::new(s).ok().unwrap()
}

fn opened(slots: &mut SessionSlots<u32, u8>, session: u32, link: u8) -> JsSession {
    let h = JsSession::open(slots).ok().unwrap();
    assert!(slots.occupy(h.slot, h.generation, session, link));
    h
}

#[test]
fn qos_defaults_and_overrides() {
    assert_eq!(qos_from(None, None, None), QoS { priority: 5, congestion_block: false, express: false });
    assert_eq!(qos_from(Some(2), Some(1), Some(true)), QoS { priority: 2, congestion_block: true, express: true });
    assert_eq!(qos_from(None, Some(0), None).congestion_block, false);
    assert_eq!(qos_from(None, Some(7), None).congestion_block, false);
}

#[test]
fn option_mappings() {
    assert_eq!(reliability_from(Some(0)), Reliability::BestEffort);
    assert_eq!(reliability_from(Some(1)), Reliability::Reliable);
    assert_eq!(reliability_from(None), Reliability::Reliable);
    assert_eq!(target_from(None), QueryTarget::BestMatching);
    assert_eq!(target_from(Some(1)), QueryTarget::All);
    assert_eq!(target_from(Some(2)), QueryTarget::AllComplete);
    assert_eq!(target_from(Some(9)), QueryTarget::BestMatching);
    assert_eq!(consolidation_from(None), ConsolidationMode::Auto);
    assert_eq!(consolidation_from(Some(1)), ConsolidationMode::NoConsolidation);
    assert_eq!(consolidation_from(Some(2)), ConsolidationMode::Monotonic);
    assert_eq!(consolidation_from(Some(3)), ConsolidationMode::Latest);
    assert_eq!(consolidation_from(Some(4)), ConsolidationMode::Auto);
}

#[test]
fn encoding_id_range() {
    assert_eq!(encoding_id_from(65535), Ok(65535));
    assert_eq!(encoding_id_from(65536), Err(TsError::EncodingIdOutOfRange));
}

#[test]
fn error_messages() {
    assert_eq!(TsError::NoOpenSession.message(), "No open Zenoh session");
    assert_eq!(TsError::TooManySessions.message(), "Too many open Zenoh sessions (max 4)");
    assert_eq!(TsError::EncodingIdOutOfRange.message(), "Encoding id out of range");
    assert_eq!(TsError::DeleteNotImplemented.message(), "Delete is not yet implemented in zenoh-nostd");
    assert_eq!(TsError::InvalidKeyExpr.message(), "Invalid keyexpr");
}

#[test]
fn slots_open_close_and_limit() {
    let mut slots: SessionSlots<u32, u8> = SessionSlots::new();
    assert_eq!(slots.capacity(), MAX_SESSIONS);
    let mut handles = Vec::new();
    for i in 0..MAX_SESSIONS {
        let h = opened(&mut slots, 100 + i as u32, i as u8);
        assert_eq!(h.slot, i);
        assert_eq!(h.generation, 1);
        handles.push(h);
    }
    assert_eq!(JsSession::open(&mut slots).err(), Some(TsError::TooManySessions));
    assert_eq!(slots.reserve(), Err(SlotError::TooManySessions));
    let s = &handles[2];
    assert_eq!(s.close(&mut slots), Some(2));
    assert_eq!(slots.require_session(2, 1), Err(SlotError::NoOpenSession));
    assert_eq!(slots.require_session(1, 1), Ok(101));
    assert_eq!(slots.find_free_slot(), Some(2));
    assert!(!slots.is_open(2, 1));
    assert_eq!(s.close(&mut slots), None);
}

#[test]
fn opens_in_flight_get_distinct_slots() {
    let mut slots: SessionSlots<u32, u8> = SessionSlots::new();
    let a = JsSession::open(&mut slots).ok().unwrap();
    let b = JsSession::open(&mut slots).ok().unwrap();
    assert_eq!((a.slot, b.slot), (0, 1));
    assert!(slots.occupy(b.slot, b.generation, 20, 2));
    assert!(slots.occupy(a.slot, a.generation, 10, 1));
    assert_eq!(slots.require_session(a.slot, a.generation), Ok(10));
    assert_eq!(slots.require_session(b.slot, b.generation), Ok(20));
    assert!(!slots.occupy(a.slot, a.generation, 11, 1));
    let c = JsSession::open(&mut slots).ok().unwrap();
    slots.release(c.slot, c.generation);
    assert_eq!(slots.find_free_slot(), Some(c.slot));
    assert!(!slots.occupy(c.slot, c.generation, 30, 3));
}

#[test]
fn closed_handle_never_reaches_a_later_session() {
    let mut slots: SessionSlots<u32, u8> = SessionSlots::new();
    let old = opened(&mut slots, 7, 1);
    assert_eq!(old.close(&mut slots), Some(1));
    let new = opened(&mut slots, 8, 2);
    assert_eq!(new.slot, old.slot);
    assert_eq!(new.generation, old.generation + 1);
    assert_eq!(old.put(&slots, "a", vec![], 0, None, None, None, None).err(), Some(TsError::NoOpenSession));
    assert_eq!(old.close(&mut slots), None);
    assert_eq!(slots.require_session(new.slot, new.generation), Ok(8));
    let (sess, _) = new.put(&slots, "a", vec![], 0, None, None, None, None).ok().unwrap();
    assert_eq!(sess, 8);
}

#[test]
fn session_put_checks_in_order() {
    let mut slots: SessionSlots<u32, u8> = SessionSlots::new();
    let stale = JsSession { slot: 0, generation: 1 };
    assert_eq!(stale.put(&slots, "a", vec![], 0, None, None, None, None).err(), Some(TsError::NoOpenSession));
    let s = opened(&mut slots, 7, 0);
    assert_eq!(s.put(&slots, "a//", vec![], 70000, None, None, None, None).err(), Some(TsError::InvalidKeyExpr));
    assert_eq!(s.put(&slots, "a", vec![], 70000, None, None, None, None).err(), Some(TsError::EncodingIdOutOfRange));
    let (sess, b) = s.put(&slots, "a/b", vec![1], 3, Some(vec![4]), Some(1), Some(1), None).ok().unwrap();
    assert_eq!(sess, 7);
    assert_eq!(b.ke.as_str(), "a/b");
    assert_eq!(b.encoding.id, 3);
    assert_eq!(b.attachment, Some(vec![4]));
    assert_eq!(b.qos, QoS { priority: 1, congestion_block: true, express: false });
    assert_eq!(b.reliability, Reliability::Reliable);
    assert_eq!(s.delete("a"), Err(TsError::DeleteNotImplemented));
}

#[test]
fn publisher_handle() {
    let mut slots: SessionSlots<u32, u8> = SessionSlots::new();
    let s = opened(&mut slots, 8, 0);
    let p = s.publisher_handle("x/y".to_string(), 3);
    assert_eq!((p.slot, p.generation, p.id), (s.slot, s.generation, 3));
    assert_eq!(p.key_expr(), "x/y");
    let (_, b) = p.put(&slots, vec![], 2, None, None, None, None, Some(0)).ok().unwrap();
    assert_eq!(b.reliability, Reliability::BestEffort);
    assert_eq!(p.delete(), Err(TsError::DeleteNotImplemented));
    p.undeclare();
}

#[test]
fn declarations_intern_keyexprs() {
    let mut slots: SessionSlots<u32, u8> = SessionSlots::new();
    let mut cache = KeyExprCache::new();
    let stale = JsSession { slot: 0, generation: 1 };
    assert_eq!(stale.declare_publisher(&slots, &mut cache, "a").err(), Some(TsError::NoOpenSession));
    let s = opened(&mut slots, 1, 0);
    assert_eq!(s.declare_subscriber(&slots, &mut cache, "a//").err(), Some(TsError::InvalidKeyExpr));
    let (_, pb) = s.declare_publisher(&slots, &mut cache, "a").ok().unwrap();
    assert_eq!(pb.ke.as_str(), "a");
    let (_, k) = s.declare_subscriber(&slots, &mut cache, "a").ok().unwrap();
    assert_eq!(k.as_str(), "a");
    let (_, qb) = s.declare_queryable(&slots, &mut cache, "b").ok().unwrap();
    assert_eq!(qb.delivery, Some(Delivery::CallbackSync));
    assert_eq!(cache.len(), 2);
}

#[test]
fn session_get_and_querier() {
    let mut slots: SessionSlots<u32, u8> = SessionSlots::new();
    let mut cache = KeyExprCache::new();
    let s = opened(&mut slots, 1, 0);
    let (_, b) = s
        .get(&slots, &mut cache, "a/*", Some("p".to_string()), Some(vec![1]), 100, Some(1), Some(3))
        .ok()
        .unwrap();
    assert_eq!(b.timeout_ms, Some(100));
    assert_eq!(b.target, QueryTarget::All);
    assert_eq!(b.consolidation, ConsolidationMode::Latest);
    assert_eq!(b.parameters, Some("p".to_string()));
    assert_eq!(b.delivery, Some(Delivery::CallbackSync));
    assert_eq!(s.declare_querier("a//".to_string(), 5).err(), Some(TsError::InvalidKeyExpr));
    let q = s.declare_querier("a/b".to_string(), 250).ok().unwrap();
    assert_eq!(q.effective_timeout(None), 250);
    assert_eq!(q.effective_timeout(Some(7)), 7);
    assert_eq!(q.effective_timeout(Some(0)), 250);
    let (_, b0, t0) = q.get(&slots, &mut cache, None, None, Some(0)).ok().unwrap();
    assert_eq!(t0, 250);
    assert_eq!(b0.timeout_ms, Some(250));
    let (_, b, t) = q.get(&slots, &mut cache, None, None, None).ok().unwrap();
    assert_eq!(t, 250);
    assert_eq!(b.timeout_ms, Some(250));
    assert_eq!(b.target, QueryTarget::BestMatching);
    let bad = JsQuerier { slot: s.slot, generation: s.generation, ke: "a//".to_string(), timeout_ms: 1 };
    assert_eq!(bad.get(&slots, &mut cache, None, None, None).err(), Some(TsError::InvalidKeyExpr));
    q.undeclare();
}

#[test]
fn undeclare_on_closed_session_does_nothing() {
    let mut slots: SessionSlots<u32, u8> = SessionSlots::new();
    let stale_sub = JsSubscriber { slot: 0, generation: 1, id: 4 };
    let stale_qbl = JsQueryable { slot: 0, generation: 1, id: 5 };
    assert_eq!(stale_sub.undeclare(&slots), None);
    assert_eq!(stale_qbl.undeclare(&slots), None);
    let s = opened(&mut slots, 9, 0);
    let sub = s.subscriber_handle(4);
    let qbl = s.queryable_handle(5);
    assert_eq!((sub.slot, sub.generation), (s.slot, s.generation));
    assert_eq!((qbl.slot, qbl.generation), (s.slot, s.generation));
    assert_eq!(sub.undeclare(&slots), Some((9, 4)));
    assert_eq!(qbl.undeclare(&slots), Some((9, 5)));
    assert_eq!(sub.id(), 4);
    assert_eq!(qbl.id(), 5);
}

#[test]
fn query_reply_and_finalize_once() {
    let mut slots: SessionSlots<u32, u8> = SessionSlots::new();
    let qq = QueryableQuery { rid: 12, ke: ke("k/q"), parameters: None, payload: Some(vec![1]) };
    let mut q: JsQuery = query_to_js(&qq, 0, 1);
    assert_eq!((q.slot, q.generation), (0, 1));
    assert_eq!(q.key_expr, "k/q");
    assert_eq!(q.payload, Some(vec![1]));
    assert!(!q.finalized);
    assert_eq!(q.finalize(&slots).err(), Some(TsError::NoOpenSession));
    assert!(q.reply(&slots, "k/q").is_err());
    let s = opened(&mut slots, 6, 0);
    assert_eq!((s.slot, s.generation), (0, 1));
    let t = q.reply(&slots, "k/r").ok().unwrap();
    assert_eq!((t.session, t.rid, t.ke.as_str().to_string()), (6, 12, "k/r".to_string()));
    assert_eq!(q.reply(&slots, "k//").err().unwrap(), TsError::InvalidKeyExpr);
    let t = q.reply_err(&slots).ok().unwrap();
    assert_eq!(t.ke.as_str(), "k/q");
    assert_eq!(q.finalize(&slots), Ok(Some((6, 12))));
    q.mark_finalized();
    assert_eq!(q.finalize(&slots), Ok(None));
}

#[test]
fn answers_for_the_script_side() {
    let s = Sample { ke: ke("a"), payload: vec![3], encoding_id: 9 };
    let j = sample_to_js(&s);
    assert_eq!((j.key_expr.as_str(), j.payload.clone(), j.encoding_id, j.kind), ("a", vec![3], 9, 0));
    let r = reply_to_js(&GetResponse::Reply(Sample { ke: ke("a"), payload: vec![1], encoding_id: 0 })).unwrap();
    assert!(r.is_ok);
    let r = reply_to_js(&GetResponse::ReplyErr(Sample { ke: ke("a"), payload: vec![1], encoding_id: 0 })).unwrap();
    assert!(!r.is_ok);
    assert!(reply_to_js(&GetResponse::Done).is_none());
}

#[test]
fn wait_polls_every_five_ms_until_timeout_or_done() {
    let mut w = GetWait::new(12);
    let mut sleeps = 0;
    while w.step(false) {
        sleeps += 1;
    }
    assert_eq!(sleeps, 3);
    let mut w = GetWait::new(100);
    assert!(w.step(false));
    assert!(!w.step(true));
    let mut w = GetWait::new(u32::MAX);
    let mut n: u64 = 0;
    while w.step(false) {
        n += 1;
        if n > 2 { break; }
    }
    assert_eq!(GetWait::new(0).step(false), false);
}

#[test]
fn buffer_is_zeroed() {
    let b = wasm_buff();
    assert_eq!(b.len(), 32767);
    assert!(b.iter().all(|x| *x == 0));
}
