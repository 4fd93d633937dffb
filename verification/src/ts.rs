//! The TypeScript-facing layer: how the numeric options of the script API
//! map to session options, what each handle checks before it touches its
//! session, and how answers are shaped for the script side.
use vstd::prelude::*;

use crate::get::{opt_bytes, opt_text, GetBuilder};
use crate::intern::{all_distinct, interned, KeyExprCache};
use crate::keyexpr::{keyexpr_is_valid, parse_keyexpr, KeyExpr};
use crate::messages::{
    encoding_view, ConsolidationMode, Encoding, GetResponse, QoS, QueryTarget, QueryableQuery,
    Reliability, Sample, PRIORITY_DATA,
};
use crate::put::PutBuilder;
use crate::publisher::PublisherBuilder;
use crate::queryable::{Delivery, QueryableBuilder};
use crate::slots::{first_free, after_reserve, next_generation, session_of, SessionSlot, SessionSlots, SlotError};

verus! {

/// Errors reported to the script side.
#[derive(Debug, PartialEq, Eq, Structural, Clone, Copy)]
pub enum TsError {
    /// The handle's slot holds no session.
    NoOpenSession,
    /// Every session slot is taken.
    TooManySessions,
    /// The text is not a key expression.
    InvalidKeyExpr,
    /// The encoding id does not fit in 16 bits.
    EncodingIdOutOfRange,
    /// Delete notifications are not supported.
    DeleteNotImplemented,
}

impl TsError {
    /// The message shown on the script side (key expression errors are
    /// prefixed there with the validator's own explanation).
    pub fn message(&self) -> (r: &'static str)
        ensures
            *self == TsError::NoOpenSession ==> r@ == "No open Zenoh session"@,
            *self == TsError::TooManySessions ==> r@ == "Too many open Zenoh sessions (max 4)"@,
            *self == TsError::InvalidKeyExpr ==> r@ == "Invalid keyexpr"@,
            *self == TsError::EncodingIdOutOfRange ==> r@ == "Encoding id out of range"@,
            *self == TsError::DeleteNotImplemented ==> r@
                == "Delete is not yet implemented in zenoh-nostd"@,
    {
        match self {
            TsError::NoOpenSession => "No open Zenoh session",
            TsError::TooManySessions => "Too many open Zenoh sessions (max 4)",
            TsError::InvalidKeyExpr => "Invalid keyexpr",
            TsError::EncodingIdOutOfRange => "Encoding id out of range",
            TsError::DeleteNotImplemented => "Delete is not yet implemented in zenoh-nostd",
        }
    }
}

/// The script-side error for a slot error.
pub open spec fn slot_error(e: SlotError) -> TsError {
    match e {
        SlotError::TooManySessions => TsError::TooManySessions,
        SlotError::NoOpenSession => TsError::NoOpenSession,
    }
}

/// The quality of service for the optional script fields: priority 5 (data)
/// by default; block under congestion exactly when `congestion_control` is 1;
/// not express by default.
pub open spec fn qos_spec(priority: Option<u8>, congestion_control: Option<u8>, express: Option<bool>) -> QoS {
    QoS {
        priority: match priority {
            Some(p) => p,
            None => PRIORITY_DATA,
        },
        congestion_block: congestion_control == Some(1u8),
        express: match express {
            Some(e) => e,
            None => false,
        },
    }
}

/// The script's QoS options are honoured field by field: a given priority and
/// a given express flag are used as they are (false and 5 when absent), and
/// congestion blocks exactly when the option is 1; each field depends on its
/// own option only.
pub proof fn lemma_qos_follows_options(
    priority: Option<u8>,
    congestion_control: Option<u8>,
    express: Option<bool>,
    other_priority: Option<u8>,
    other_congestion: Option<u8>,
)
    ensures
        express matches Some(e) ==> qos_spec(priority, congestion_control, express).express == e,
        express is None ==> !qos_spec(priority, congestion_control, express).express,
        priority matches Some(p) ==> qos_spec(priority, congestion_control, express).priority == p,
        priority is None ==> qos_spec(priority, congestion_control, express).priority == 5,
        qos_spec(priority, congestion_control, express).congestion_block <==> congestion_control
            == Some(1u8),
        qos_spec(priority, congestion_control, express).express == qos_spec(
            other_priority,
            other_congestion,
            express,
        ).express,
{
}

/// Builds a `QoS` from the optional numeric QoS fields passed by the script
/// layer.
pub fn qos_from(priority: Option<u8>, congestion_control: Option<u8>, express: Option<bool>) -> (r: QoS)
    ensures
        r == qos_spec(priority, congestion_control, express),
        express matches Some(e) ==> r.express == e,
        express is None ==> !r.express,
        priority matches Some(p) ==> r.priority == p,
        priority is None ==> r.priority == 5,
        r.congestion_block <==> congestion_control == Some(1u8),
{
    let p = match priority {
        Some(p) => p,
        None => PRIORITY_DATA,
    };
    let block = match congestion_control {
        Some(1) => true,
        _ => false,
    };
    let e = match express {
        Some(e) => e,
        None => false,
    };
    QoS::from_parts(p, block, e)
}

/// The reliability for the optional script field: 0 is best effort,
/// anything else (or nothing) reliable.
pub open spec fn reliability_spec(reliability: Option<u8>) -> Reliability {
    if reliability == Some(0u8) {
        Reliability::BestEffort
    } else {
        Reliability::Reliable
    }
}

/// The numeric reliability reads as documented: only 0 asks for best effort;
/// any other number, and nothing, are reliable.
pub proof fn lemma_reliability_numbers(n: u8)
    ensures
        reliability_spec(Some(0u8)) == Reliability::BestEffort,
        reliability_spec(None) == Reliability::Reliable,
        n != 0 ==> reliability_spec(Some(n)) == reliability_spec(None),
{
}

/// Maps the optional numeric reliability passed by the script layer.
pub fn reliability_from(reliability: Option<u8>) -> (r: Reliability)
    ensures
        r == reliability_spec(reliability),
        reliability == Some(0u8) ==> r == Reliability::BestEffort,
        reliability != Some(0u8) ==> r == Reliability::Reliable,
{
    match reliability {
        Some(0) => Reliability::BestEffort,
        _ => Reliability::Reliable,
    }
}

/// The target for the optional script field: 1 all, 2 all complete, anything
/// else best matching.
pub open spec fn target_spec(target: Option<u8>) -> QueryTarget {
    match target {
        Some(1u8) => QueryTarget::All,
        Some(2u8) => QueryTarget::AllComplete,
        _ => QueryTarget::BestMatching,
    }
}

/// The numeric target reads as documented: 0, and nothing, are the default
/// (best matching); 1 is all; 2 is all complete; any other number is the
/// default too.
pub proof fn lemma_target_numbers(n: u8)
    ensures
        target_spec(Some(0u8)) == target_spec(None),
        target_spec(None) == QueryTarget::BestMatching,
        target_spec(Some(1u8)) == QueryTarget::All,
        target_spec(Some(2u8)) == QueryTarget::AllComplete,
        n > 2 ==> target_spec(Some(n)) == target_spec(None),
{
}

/// Maps the optional numeric query target passed by the script layer.
pub fn target_from(target: Option<u8>) -> (r: QueryTarget)
    ensures
        r == target_spec(target),
        target == Some(1u8) ==> r == QueryTarget::All,
        target == Some(2u8) ==> r == QueryTarget::AllComplete,
        target != Some(1u8) && target != Some(2u8) ==> r == QueryTarget::BestMatching,
{
    let t = match target {
        Some(t) => t,
        None => 0,
    };
    match t {
        1 => QueryTarget::All,
        2 => QueryTarget::AllComplete,
        _ => QueryTarget::BestMatching,
    }
}

/// The consolidation for the optional script field: 1 none, 2 monotonic,
/// 3 latest, anything else automatic.
pub open spec fn consolidation_spec(consolidation: Option<u8>) -> ConsolidationMode {
    match consolidation {
        Some(1u8) => ConsolidationMode::NoConsolidation,
        Some(2u8) => ConsolidationMode::Monotonic,
        Some(3u8) => ConsolidationMode::Latest,
        _ => ConsolidationMode::Auto,
    }
}

/// The numeric consolidation reads as documented: 0, and nothing, are the
/// default (automatic); 1 none; 2 monotonic; 3 latest; any other number is
/// the default too.
pub proof fn lemma_consolidation_numbers(n: u8)
    ensures
        consolidation_spec(Some(0u8)) == consolidation_spec(None),
        consolidation_spec(None) == ConsolidationMode::Auto,
        consolidation_spec(Some(1u8)) == ConsolidationMode::NoConsolidation,
        consolidation_spec(Some(2u8)) == ConsolidationMode::Monotonic,
        consolidation_spec(Some(3u8)) == ConsolidationMode::Latest,
        n > 3 ==> consolidation_spec(Some(n)) == consolidation_spec(None),
{
}

/// Maps the optional numeric consolidation passed by the script layer.
pub fn consolidation_from(consolidation: Option<u8>) -> (r: ConsolidationMode)
    ensures
        r == consolidation_spec(consolidation),
        consolidation == Some(1u8) ==> r == ConsolidationMode::NoConsolidation,
        consolidation == Some(2u8) ==> r == ConsolidationMode::Monotonic,
        consolidation == Some(3u8) ==> r == ConsolidationMode::Latest,
        consolidation != Some(1u8) && consolidation != Some(2u8) && consolidation != Some(3u8)
            ==> r == ConsolidationMode::Auto,
{
    let c = match consolidation {
        Some(c) => c,
        None => 0,
    };
    match c {
        1 => ConsolidationMode::NoConsolidation,
        2 => ConsolidationMode::Monotonic,
        3 => ConsolidationMode::Latest,
        _ => ConsolidationMode::Auto,
    }
}

/// The encoding id as 16 bits, or `EncodingIdOutOfRange`.
pub fn encoding_id_from(encoding_id: u32) -> (r: Result<u16, TsError>)
    ensures
        encoding_id <= u16::MAX ==> r == Ok::<u16, TsError>(encoding_id as u16),
        encoding_id > u16::MAX ==> r == Err::<u16, TsError>(TsError::EncodingIdOutOfRange),
{
    if encoding_id <= 0xffff {
        Ok(encoding_id as u16)
    } else {
        Err(TsError::EncodingIdOutOfRange)
    }
}

/// The key expression behind `key_expr`, interned in `cache`.
pub fn intern_keyexpr(cache: &mut KeyExprCache, key_expr: &str) -> (r: Result<KeyExpr, TsError>)
    requires
        all_distinct(old(cache)@),
    ensures
        all_distinct(final(cache)@),
        r is Ok <==> keyexpr_is_valid(key_expr@),
        r matches Ok(k) ==> k@ == key_expr@ && final(cache)@ == interned(old(cache)@, key_expr@),
        r matches Err(e) ==> e == TsError::InvalidKeyExpr && final(cache)@ == old(cache)@,
{
    match cache.intern(key_expr) {
        Ok(i) => Ok(cache.get(i).duplicate()),
        Err(_) => Err(TsError::InvalidKeyExpr),
    }
}

fn require<S: Copy, L: Copy>(slots: &SessionSlots<S, L>, slot: usize, generation: u64) -> (r: Result<S, TsError>)
    requires
        slot < slots@.len(),
    ensures
        match session_of(slots@, slot as int, generation) {
            Some(s) => r == Ok::<S, TsError>(s),
            None => r == Err::<S, TsError>(TsError::NoOpenSession),
        },
{
    match slots.require_session(slot, generation) {
        Ok(s) => Ok(s),
        Err(_) => Err(TsError::NoOpenSession),
    }
}

fn parse(key_expr: &str) -> (r: Result<KeyExpr, TsError>)
    ensures
        r is Ok <==> keyexpr_is_valid(key_expr@),
        r matches Ok(k) ==> k@ == key_expr@,
        r matches Err(e) ==> e == TsError::InvalidKeyExpr,
{
    match parse_keyexpr(key_expr) {
        Ok(k) => Ok(k),
        Err(_) => Err(TsError::InvalidKeyExpr),
    }
}

/// The checks before a publication, in order: the session must be open, the
/// key expression valid, the encoding id within 16 bits.
pub open spec fn put_error<S, L>(
    slots: Seq<SessionSlot<S, L>>,
    slot: int,
    generation: u64,
    key_expr: Seq<char>,
    encoding_id: u32,
) -> Option<TsError> {
    if session_of(slots, slot, generation) is None {
        Some(TsError::NoOpenSession)
    } else if !keyexpr_is_valid(key_expr) {
        Some(TsError::InvalidKeyExpr)
    } else if encoding_id > u16::MAX {
        Some(TsError::EncodingIdOutOfRange)
    } else {
        None
    }
}

/// Prepares a publication from the script fields: checks (see `put_error`),
/// then a builder with the encoding id, the quality of service from the
/// optional fields, the reliability, and the attachment when given.
fn prepare_put<S: Copy, L: Copy>(
    slots: &SessionSlots<S, L>,
    slot: usize,
    generation: u64,
    key_expr: &str,
    payload: Vec<u8>,
    encoding_id: u32,
    attachment: Option<Vec<u8>>,
    qos: QoS,
    reliability: Reliability,
) -> (r: Result<(S, PutBuilder), TsError>)
    requires
        slot < slots@.len(),
    ensures
        put_error(slots@, slot as int, generation, key_expr@, encoding_id) matches Some(e) ==> r
            == Err::<(S, PutBuilder), TsError>(e),
        put_error(slots@, slot as int, generation, key_expr@, encoding_id) is None ==> (r matches Ok(
            (s, b),
        ) && session_of(slots@, slot as int, generation) == Some(s) && b.ke@ == key_expr@ && b.payload@ == payload@
            && encoding_view(b.encoding) == (encoding_id as u16, None::<Seq<u8>>) && b.timestamp
            is None && opt_bytes(b.attachment) == opt_bytes(attachment) && b.qos == qos
            && b.reliability == reliability),
{
    let session = match require(slots, slot, generation) {
        Ok(s) => s,
        Err(e) => {
            return Err(e);
        },
    };
    let ke = match parse(key_expr) {
        Ok(k) => k,
        Err(e) => {
            return Err(e);
        },
    };
    let id = match encoding_id_from(encoding_id) {
        Ok(i) => i,
        Err(e) => {
            return Err(e);
        },
    };
    let mut builder = PutBuilder::new(ke, payload).encoding(Encoding::with_id(id)).qos(
        qos,
    ).reliability(reliability);
    match attachment {
        Some(a) => {
            builder = builder.attachment(a);
        },
        None => {},
    }
    Ok((session, builder))
}

/// Handle to one session: the index of its slot and the generation the slot
/// was opened under.
pub struct JsSession {
    pub slot: usize,
    pub generation: u64,
}

/// Handle returned by `declare_publisher`.
pub struct JsPublisher {
    pub slot: usize,
    pub generation: u64,
    pub ke: String,
    pub id: u32,
}

/// Handle returned by `declare_subscriber`.
pub struct JsSubscriber {
    pub slot: usize,
    pub generation: u64,
    pub id: u32,
}

/// Handle returned by `declare_queryable`.
pub struct JsQueryable {
    pub slot: usize,
    pub generation: u64,
    pub id: u32,
}

/// Handle returned by `declare_querier`.
pub struct JsQuerier {
    pub slot: usize,
    pub generation: u64,
    pub ke: String,
    pub timeout_ms: u32,
}

/// A received sample as the script side sees it; `kind` 0 is a put, 1 a
/// delete.
pub struct JsSample {
    pub key_expr: String,
    pub payload: Vec<u8>,
    pub encoding_id: u32,
    pub kind: u8,
}

/// An incoming query as the script side sees it.
pub struct JsQuery {
    pub key_expr: String,
    pub parameters: Option<String>,
    pub payload: Option<Vec<u8>>,
    pub slot: usize,
    pub generation: u64,
    pub rid: u32,
    pub finalized: bool,
}

/// A get answer as the script side sees it.
pub struct JsReply {
    pub is_ok: bool,
    pub sample: JsSample,
}

/// A sample for the script side: its key expression, payload and encoding
/// id, as a put.
pub fn sample_to_js(s: &Sample) -> (r: JsSample)
    ensures
        r.key_expr@ == s.ke@,
        r.payload@ == s.payload@,
        r.encoding_id == s.encoding_id as u32,
        r.kind == 0,
{
    JsSample {
        key_expr: s.ke.as_str().to_owned(),
        payload: s.payload.clone(),
        encoding_id: s.encoding_id as u32,
        kind: 0,
    }
}

/// A get answer for the script side: `Some` for a reply (`is_ok`) or an error
/// reply, `None` for `Done`, which ends the wait instead.
pub fn reply_to_js(r: &GetResponse) -> (out: Option<JsReply>)
    ensures
        match r {
            GetResponse::Reply(s) => out matches Some(j) && j.is_ok && j.sample.key_expr@ == s.ke@
                && j.sample.payload@ == s.payload@ && j.sample.encoding_id == s.encoding_id as u32
                && j.sample.kind == 0,
            GetResponse::ReplyErr(s) => out matches Some(j) && !j.is_ok && j.sample.key_expr@
                == s.ke@ && j.sample.payload@ == s.payload@ && j.sample.encoding_id
                == s.encoding_id as u32 && j.sample.kind == 0,
            GetResponse::Done => out is None,
        },
{
    match r {
        GetResponse::Reply(s) => Some(JsReply { is_ok: true, sample: sample_to_js(s) }),
        GetResponse::ReplyErr(s) => Some(JsReply { is_ok: false, sample: sample_to_js(s) }),
        GetResponse::Done => None,
    }
}

/// An incoming query for the script side, answered through the session of
/// slot `slot` opened under `generation`.
pub fn query_to_js(q: &QueryableQuery, slot: usize, generation: u64) -> (r: JsQuery)
    ensures
        r.key_expr@ == q.ke@,
        opt_text(r.parameters) == opt_text(q.parameters),
        opt_bytes(r.payload) == opt_bytes(q.payload),
        r.slot == slot,
        r.generation == generation,
        r.rid == q.rid,
        !r.finalized,
{
    let parameters = match &q.parameters {
        Some(p) => Some(p.clone()),
        None => None,
    };
    let payload = match &q.payload {
        Some(p) => Some(p.clone()),
        None => None,
    };
    JsQuery {
        key_expr: q.ke.as_str().to_owned(),
        parameters,
        payload,
        slot,
        generation,
        rid: q.rid,
        finalized: false,
    }
}

/// The size of the buffer of a session link.
pub const WASM_BUFF_LEN: usize = 32767;

/// A fresh, zeroed buffer for a session link.
pub fn wasm_buff() -> (r: Vec<u8>)
    ensures
        r@.len() == WASM_BUFF_LEN,
        forall|i: int| 0 <= i < r@.len() ==> r@[i] == 0u8,
{
    vec![0u8; WASM_BUFF_LEN]
}

/// The step of the wait for a get's `Done`, in milliseconds.
pub const WAIT_STEP_MS: u32 = 5;

/// The wait for a get's `Done`: polled every 5 ms until `Done` arrives or the
/// timeout has elapsed.
pub struct GetWait {
    elapsed: u32,
    timeout_ms: u32,
}

impl View for GetWait {
    type V = (u32, u32);

    closed spec fn view(&self) -> (u32, u32) {
        (self.elapsed, self.timeout_ms)
    }
}

impl GetWait {
    #[verifier::type_invariant]
    spec fn inv(self) -> bool {
        self.elapsed % 5 == 0
    }

    /// A wait of `timeout_ms`, nothing elapsed yet.
    pub fn new(timeout_ms: u32) -> (r: GetWait)
        ensures
            r@ == (0u32, timeout_ms),
    {
        GetWait { elapsed: 0, timeout_ms }
    }

    /// Whether to sleep one more step: not when `done`, nor when the timeout
    /// has elapsed; when it sleeps, the elapsed time grows by 5 ms.
    pub fn step(&mut self, done: bool) -> (sleep: bool)
        ensures
            sleep == (!done && old(self)@.0 < old(self)@.1),
            final(self)@.1 == old(self)@.1,
            sleep ==> final(self)@.0 == old(self)@.0 + 5,
            !sleep ==> final(self)@.0 == old(self)@.0,
    {
        proof {
            use_type_invariant(&*self);
        }
        if done || self.elapsed >= self.timeout_ms {
            return false;
        }
        assert(self.elapsed + 5 <= u32::MAX) by {
            assert(self.elapsed < self.timeout_ms);
            assert(self.timeout_ms <= 4294967295);
        }
        self.elapsed = self.elapsed + WAIT_STEP_MS;
        true
    }
}

/// The wait ends: without `Done`, a wait of `timeout_ms` sleeps exactly
/// `ceil(timeout_ms / 5)` times (the `k`-th step sleeps exactly when
/// `5 * k < timeout_ms`), and the elapsed time `5 * k` never exceeds `u32::MAX`.
pub proof fn lemma_wait_sleeps_bounded(timeout_ms: u32)
    ensures
        ({
            let n = (timeout_ms as int + 4) / 5;
            &&& 5 * n >= timeout_ms
            &&& n > 0 ==> 5 * (n - 1) < timeout_ms
            &&& 5 * n <= u32::MAX
        }),
{
}

/// The pieces of an answer to a query: the session to send it through, the
/// request id and the key expression to answer on.
pub struct ReplyTarget<S> {
    pub session: S,
    pub rid: u32,
    pub ke: KeyExpr,
}

impl JsSession {
    /// Starts opening a session: reserves the lowest free slot under a new
    /// generation and returns the handle to it, or `TooManySessions` when
    /// every slot holds or awaits a session. The open completes with
    /// `SessionSlots::occupy` once the link is up, or is given up with
    /// `SessionSlots::release`.
    pub fn open<S: Copy, L: Copy>(slots: &mut SessionSlots<S, L>) -> (r: Result<JsSession, TsError>)
        ensures
            r matches Ok(h) ==> first_free(old(slots)@) == Some(h.slot as int) && h.generation
                == next_generation(old(slots)@[h.slot as int].generation) && final(slots)@
                == after_reserve(old(slots)@, h.slot as int),
            r matches Err(e) ==> first_free(old(slots)@) is None && e == TsError::TooManySessions
                && final(slots)@ == old(slots)@,
    {
        match slots.reserve() {
            Ok((slot, generation)) => Ok(JsSession { slot, generation }),
            Err(_) => Err(TsError::TooManySessions),
        }
    }

    /// The script handle of the publisher declared on this session under `id`,
    /// on `key_expr`.
    pub fn publisher_handle(&self, key_expr: String, id: u32) -> (r: JsPublisher)
        ensures
            r.slot == self.slot,
            r.generation == self.generation,
            r.ke@ == key_expr@,
            r.id == id,
    {
        JsPublisher { slot: self.slot, generation: self.generation, ke: key_expr, id }
    }

    /// The script handle of the subscriber declared on this session under `id`.
    pub fn subscriber_handle(&self, id: u32) -> (r: JsSubscriber)
        ensures
            r.slot == self.slot,
            r.generation == self.generation,
            r.id == id,
    {
        JsSubscriber { slot: self.slot, generation: self.generation, id }
    }

    /// The script handle of the queryable declared on this session under `id`.
    pub fn queryable_handle(&self, id: u32) -> (r: JsQueryable)
        ensures
            r.slot == self.slot,
            r.generation == self.generation,
            r.id == id,
    {
        JsQueryable { slot: self.slot, generation: self.generation, id }
    }

    /// Closes this session: empties its slot and returns the link to close.
    /// When the session is already closed (or its slot reopened since),
    /// nothing changes and there is no link to close.
    pub fn close<S: Copy, L: Copy>(&self, slots: &mut SessionSlots<S, L>) -> (r: Option<L>)
        requires
            self.slot < old(slots)@.len(),
        ensures
            session_of(old(slots)@, self.slot as int, self.generation) is Some ==> r == old(slots)@[self.slot as int].ws_close && final(slots)@ == crate::slots::after_close(
                old(slots)@,
                self.slot as int,
            ),
            session_of(old(slots)@, self.slot as int, self.generation) is None ==> r is None
                && final(slots)@ == old(slots)@,
    {
        slots.close(self.slot, self.generation)
    }

    /// Prepares a publication (see `put_error` for the checks), with the
    /// quality of service from the optional fields and reliable delivery.
    pub fn put<S: Copy, L: Copy>(
        &self,
        slots: &SessionSlots<S, L>,
        key_expr: &str,
        payload: Vec<u8>,
        encoding_id: u32,
        attachment: Option<Vec<u8>>,
        priority: Option<u8>,
        congestion_control: Option<u8>,
        express: Option<bool>,
    ) -> (r: Result<(S, PutBuilder), TsError>)
        requires
            self.slot < slots@.len(),
        ensures
            put_error(slots@, self.slot as int, self.generation, key_expr@, encoding_id) matches Some(e) ==> r
                == Err::<(S, PutBuilder), TsError>(e),
            put_error(slots@, self.slot as int, self.generation, key_expr@, encoding_id) is None ==> (r matches Ok(
                (s, b),
            ) && session_of(slots@, self.slot as int, self.generation) == Some(s) && b.ke@ == key_expr@ && b.payload@
                == payload@ && encoding_view(b.encoding) == (encoding_id as u16, None::<Seq<u8>>)
                && b.timestamp is None && opt_bytes(b.attachment) == opt_bytes(attachment) && b.qos
                == qos_spec(priority, congestion_control, express) && b.reliability
                == Reliability::Reliable),
    {
        let qos = qos_from(priority, congestion_control, express);
        prepare_put(
            slots,
            self.slot,
            self.generation,
            key_expr,
            payload,
            encoding_id,
            attachment,
            qos,
            Reliability::default_reliability(),
        )
    }

    /// Delete notifications are not supported: always `DeleteNotImplemented`.
    pub fn delete(&self, key_expr: &str) -> (r: Result<(), TsError>)
        ensures
            r == Err::<(), TsError>(TsError::DeleteNotImplemented),
    {
        Err(TsError::DeleteNotImplemented)
    }

    /// Prepares a publisher: the session must be open and the key expression
    /// valid (it is interned).
    pub fn declare_publisher<S: Copy, L: Copy>(
        &self,
        slots: &SessionSlots<S, L>,
        cache: &mut KeyExprCache,
        key_expr: &str,
    ) -> (r: Result<(S, PublisherBuilder), TsError>)
        requires
            self.slot < slots@.len(),
            all_distinct(old(cache)@),
        ensures
            all_distinct(final(cache)@),
            session_of(slots@, self.slot as int, self.generation) is None ==> r == Err::<(S, PublisherBuilder), TsError>(
                TsError::NoOpenSession,
            ) && final(cache)@ == old(cache)@,
            session_of(slots@, self.slot as int, self.generation) is Some && !keyexpr_is_valid(key_expr@) ==> r == Err::<
                (S, PublisherBuilder),
                TsError,
            >(TsError::InvalidKeyExpr),
            session_of(slots@, self.slot as int, self.generation) is Some && keyexpr_is_valid(key_expr@) ==> (r matches Ok(
                (s, b),
            ) && session_of(slots@, self.slot as int, self.generation) == Some(s) && b.ke@ == key_expr@ && b.encoding.id == 0
                && b.encoding.schema is None && b.timestamp is None && b.attachment is None
                && final(cache)@ == interned(old(cache)@, key_expr@)),
    {
        let session = match require(slots, self.slot, self.generation) {
            Ok(s) => s,
            Err(e) => {
                return Err(e);
            },
        };
        match intern_keyexpr(cache, key_expr) {
            Ok(ke) => Ok((session, PublisherBuilder::new(ke))),
            Err(e) => Err(e),
        }
    }

    /// Prepares a subscriber: the session must be open and the key expression
    /// valid (it is interned); returns the session and the key expression.
    pub fn declare_subscriber<S: Copy, L: Copy>(
        &self,
        slots: &SessionSlots<S, L>,
        cache: &mut KeyExprCache,
        key_expr: &str,
    ) -> (r: Result<(S, KeyExpr), TsError>)
        requires
            self.slot < slots@.len(),
            all_distinct(old(cache)@),
        ensures
            all_distinct(final(cache)@),
            session_of(slots@, self.slot as int, self.generation) is None ==> r == Err::<(S, KeyExpr), TsError>(
                TsError::NoOpenSession,
            ) && final(cache)@ == old(cache)@,
            session_of(slots@, self.slot as int, self.generation) is Some && !keyexpr_is_valid(key_expr@) ==> r == Err::<
                (S, KeyExpr),
                TsError,
            >(TsError::InvalidKeyExpr),
            session_of(slots@, self.slot as int, self.generation) is Some && keyexpr_is_valid(key_expr@) ==> (r matches Ok(
                (s, k),
            ) && session_of(slots@, self.slot as int, self.generation) == Some(s) && k@ == key_expr@ && final(cache)@
                == interned(old(cache)@, key_expr@)),
    {
        let session = match require(slots, self.slot, self.generation) {
            Ok(s) => s,
            Err(e) => {
                return Err(e);
            },
        };
        match intern_keyexpr(cache, key_expr) {
            Ok(ke) => Ok((session, ke)),
            Err(e) => Err(e),
        }
    }

    /// Prepares a queryable delivered to a synchronous callback: the session
    /// must be open and the key expression valid (it is interned).
    pub fn declare_queryable<S: Copy, L: Copy>(
        &self,
        slots: &SessionSlots<S, L>,
        cache: &mut KeyExprCache,
        key_expr: &str,
    ) -> (r: Result<(S, QueryableBuilder<'static, ()>), TsError>)
        requires
            self.slot < slots@.len(),
            all_distinct(old(cache)@),
        ensures
            all_distinct(final(cache)@),
            session_of(slots@, self.slot as int, self.generation) is None ==> r == Err::<(S, QueryableBuilder<'static, ()>), TsError>(
                TsError::NoOpenSession,
            ) && final(cache)@ == old(cache)@,
            session_of(slots@, self.slot as int, self.generation) is Some && !keyexpr_is_valid(key_expr@) ==> r == Err::<
                (S, QueryableBuilder<'static, ()>),
                TsError,
            >(TsError::InvalidKeyExpr),
            session_of(slots@, self.slot as int, self.generation) is Some && keyexpr_is_valid(key_expr@) ==> (r matches Ok(
                (s, b),
            ) && session_of(slots@, self.slot as int, self.generation) == Some(s) && b.ke@ == key_expr@ && b.delivery == Some(
                Delivery::CallbackSync,
            ) && final(cache)@ == interned(old(cache)@, key_expr@)),
    {
        let session = match require(slots, self.slot, self.generation) {
            Ok(s) => s,
            Err(e) => {
                return Err(e);
            },
        };
        match intern_keyexpr(cache, key_expr) {
            Ok(ke) => Ok((session, QueryableBuilder::new(ke).callback_sync())),
            Err(e) => Err(e),
        }
    }

    /// A querier on `key_expr` with default timeout `timeout_ms`; the key
    /// expression must be valid.
    pub fn declare_querier(&self, key_expr: String, timeout_ms: u32) -> (r: Result<
        JsQuerier,
        TsError,
    >)
        ensures
            keyexpr_is_valid(key_expr@) ==> (r matches Ok(q) && q.slot == self.slot && q.generation
                == self.generation && q.ke@
                == key_expr@ && q.timeout_ms == timeout_ms),
            !keyexpr_is_valid(key_expr@) ==> r == Err::<JsQuerier, TsError>(
                TsError::InvalidKeyExpr,
            ),
    {
        match parse(key_expr.as_str()) {
            Ok(_) => Ok(JsQuerier { slot: self.slot, generation: self.generation, ke: key_expr, timeout_ms }),
            Err(e) => Err(e),
        }
    }

    /// Prepares a get delivered to a synchronous callback: the session must be
    /// open and the key expression valid (it is interned); the target and
    /// consolidation come from the optional fields, and parameters and payload
    /// are set when given.
    pub fn get<S: Copy, L: Copy>(
        &self,
        slots: &SessionSlots<S, L>,
        cache: &mut KeyExprCache,
        key_expr: &str,
        parameters: Option<String>,
        payload: Option<Vec<u8>>,
        timeout_ms: u32,
        target: Option<u8>,
        consolidation: Option<u8>,
    ) -> (r: Result<(S, GetBuilder<'static, ()>), TsError>)
        requires
            self.slot < slots@.len(),
            all_distinct(old(cache)@),
        ensures
            all_distinct(final(cache)@),
            session_of(slots@, self.slot as int, self.generation) is None ==> r == Err::<(S, GetBuilder<'static, ()>), TsError>(
                TsError::NoOpenSession,
            ) && final(cache)@ == old(cache)@,
            session_of(slots@, self.slot as int, self.generation) is Some && !keyexpr_is_valid(key_expr@) ==> r == Err::<
                (S, GetBuilder<'static, ()>),
                TsError,
            >(TsError::InvalidKeyExpr),
            session_of(slots@, self.slot as int, self.generation) is Some && keyexpr_is_valid(key_expr@) ==> (r matches Ok(
                (s, b),
            ) && session_of(slots@, self.slot as int, self.generation) == Some(s) && b.ke@ == key_expr@ && opt_text(
                b.parameters,
            ) == opt_text(parameters) && opt_bytes(b.payload) == opt_bytes(payload) && b.timeout_ms
                == Some(timeout_ms as u64) && b.target == target_spec(target) && b.consolidation
                == consolidation_spec(consolidation) && b.delivery == Some(Delivery::CallbackSync)
                && final(cache)@ == interned(old(cache)@, key_expr@)),
    {
        let session = match require(slots, self.slot, self.generation) {
            Ok(s) => s,
            Err(e) => {
                return Err(e);
            },
        };
        let ke = match intern_keyexpr(cache, key_expr) {
            Ok(k) => k,
            Err(e) => {
                return Err(e);
            },
        };
        Ok((session, build_get(ke, parameters, payload, timeout_ms as u64, target_from(target), consolidation_from(consolidation))))
    }
}

fn build_get(
    ke: KeyExpr,
    parameters: Option<String>,
    payload: Option<Vec<u8>>,
    timeout_ms: u64,
    target: QueryTarget,
    consolidation: ConsolidationMode,
) -> (b: GetBuilder<'static, ()>)
    ensures
        b.ke@ == ke@,
        opt_text(b.parameters) == opt_text(parameters),
        opt_bytes(b.payload) == opt_bytes(payload),
        b.timeout_ms == Some(timeout_ms),
        b.target == target,
        b.consolidation == consolidation,
        b.delivery == Some(Delivery::CallbackSync),
{
    let mut builder = GetBuilder::new(ke).timeout(timeout_ms).target(target).consolidation(
        consolidation,
    );
    match parameters {
        Some(p) => {
            builder = builder.parameters(p);
        },
        None => {},
    }
    match payload {
        Some(p) => {
            builder = builder.payload(p);
        },
        None => {},
    }
    builder.callback_sync()
}

impl JsPublisher {
    /// The key expression this publisher was declared on.
    pub fn key_expr(&self) -> (r: String)
        ensures
            r@ == self.ke@,
    {
        self.ke.clone()
    }

    /// Prepares a publication on this publisher's key expression (see
    /// `put_error` for the checks), with the quality of service and
    /// reliability from the optional fields.
    pub fn put<S: Copy, L: Copy>(
        &self,
        slots: &SessionSlots<S, L>,
        payload: Vec<u8>,
        encoding_id: u32,
        attachment: Option<Vec<u8>>,
        priority: Option<u8>,
        congestion_control: Option<u8>,
        express: Option<bool>,
        reliability: Option<u8>,
    ) -> (r: Result<(S, PutBuilder), TsError>)
        requires
            self.slot < slots@.len(),
        ensures
            put_error(slots@, self.slot as int, self.generation, self.ke@, encoding_id) matches Some(e) ==> r
                == Err::<(S, PutBuilder), TsError>(e),
            put_error(slots@, self.slot as int, self.generation, self.ke@, encoding_id) is None ==> (r matches Ok(
                (s, b),
            ) && session_of(slots@, self.slot as int, self.generation) == Some(s) && b.ke@ == self.ke@ && b.payload@
                == payload@ && encoding_view(b.encoding) == (encoding_id as u16, None::<Seq<u8>>)
                && b.timestamp is None && opt_bytes(b.attachment) == opt_bytes(attachment) && b.qos
                == qos_spec(priority, congestion_control, express) && b.reliability
                == reliability_spec(reliability)),
    {
        let qos = qos_from(priority, congestion_control, express);
        let rel = reliability_from(reliability);
        prepare_put(slots, self.slot, self.generation, self.ke.as_str(), payload, encoding_id, attachment, qos, rel)
    }

    /// Undeclaring a publisher does nothing yet.
    pub fn undeclare(self) {
    }

    /// Delete notifications are not supported: always `DeleteNotImplemented`.
    pub fn delete(&self) -> (r: Result<(), TsError>)
        ensures
            r == Err::<(), TsError>(TsError::DeleteNotImplemented),
    {
        Err(TsError::DeleteNotImplemented)
    }
}

impl JsSubscriber {
    /// The id of this subscriber.
    pub fn id(&self) -> (r: u32)
        ensures
            r == self.id,
    {
        self.id
    }

    /// What undeclaring needs: nothing when the session is already closed
    /// (`None`), else the session and the subscriber id.
    pub fn undeclare<S: Copy, L: Copy>(&self, slots: &SessionSlots<S, L>) -> (r: Option<(S, u32)>)
        requires
            self.slot < slots@.len(),
        ensures
            match session_of(slots@, self.slot as int, self.generation) {
                None => r is None,
                Some(s) => r == Some((s, self.id)),
            },
    {
        if !slots.is_open(self.slot, self.generation) {
            return None;
        }
        match slots.require_session(self.slot, self.generation) {
            Ok(s) => Some((s, self.id)),
            Err(_) => None,
        }
    }
}

impl JsQueryable {
    /// The id of this queryable.
    pub fn id(&self) -> (r: u32)
        ensures
            r == self.id,
    {
        self.id
    }

    /// What undeclaring needs: nothing when the session is already closed
    /// (`None`), else the session and the queryable id.
    pub fn undeclare<S: Copy, L: Copy>(&self, slots: &SessionSlots<S, L>) -> (r: Option<(S, u32)>)
        requires
            self.slot < slots@.len(),
        ensures
            match session_of(slots@, self.slot as int, self.generation) {
                None => r is None,
                Some(s) => r == Some((s, self.id)),
            },
    {
        if !slots.is_open(self.slot, self.generation) {
            return None;
        }
        match slots.require_session(self.slot, self.generation) {
            Ok(s) => Some((s, self.id)),
            Err(_) => None,
        }
    }
}

/// The timeout of a querier's get: the one given, unless it is absent or 0,
/// in which case the querier's default applies.
pub open spec fn querier_timeout(given: Option<u32>, default: u32) -> u32 {
    match given {
        Some(t) => if t == 0 {
            default
        } else {
            t
        },
        None => default,
    }
}

/// A querier's get uses the timeout it is given, whatever its size relative
/// to the querier's default, unless it is absent or 0; then the default
/// applies.
pub proof fn lemma_querier_timeout_as_given(t: u32, default: u32)
    ensures
        t != 0 ==> querier_timeout(Some(t), default) == t,
        querier_timeout(Some(0u32), default) == default,
        querier_timeout(None, default) == default,
        t != 0 ==> querier_timeout(Some(t), default) == querier_timeout(Some(t), 0u32),
{
}

impl JsQuerier {
    /// Undeclaring a querier does nothing yet.
    pub fn undeclare(self) {
    }

    /// The timeout of one get: the one given, or the querier's default when
    /// none or 0 is given.
    pub fn effective_timeout(&self, timeout_ms: Option<u32>) -> (r: u32)
        ensures
            r == querier_timeout(timeout_ms, self.timeout_ms),
            timeout_ms matches Some(t) ==> (t != 0 ==> r == t),
            timeout_ms == Some(0u32) || timeout_ms is None ==> r == self.timeout_ms,
    {
        match timeout_ms {
            Some(t) => if t == 0 {
                self.timeout_ms
            } else {
                t
            },
            None => self.timeout_ms,
        }
    }

    /// Prepares a get through this querier: the session must be open and the
    /// querier's key expression valid (it is interned); the timeout is the one
    /// given, or the querier's default when none or 0 is given; default target
    /// and consolidation.
    pub fn get<S: Copy, L: Copy>(
        &self,
        slots: &SessionSlots<S, L>,
        cache: &mut KeyExprCache,
        parameters: Option<String>,
        payload: Option<Vec<u8>>,
        timeout_ms: Option<u32>,
    ) -> (r: Result<(S, GetBuilder<'static, ()>, u32), TsError>)
        requires
            self.slot < slots@.len(),
            all_distinct(old(cache)@),
        ensures
            all_distinct(final(cache)@),
            session_of(slots@, self.slot as int, self.generation) is None ==> r == Err::<(S, GetBuilder<'static, ()>, u32), TsError>(
                TsError::NoOpenSession,
            ) && final(cache)@ == old(cache)@,
            session_of(slots@, self.slot as int, self.generation) is Some && !keyexpr_is_valid(self.ke@) ==> r == Err::<
                (S, GetBuilder<'static, ()>, u32),
                TsError,
            >(TsError::InvalidKeyExpr),
            session_of(slots@, self.slot as int, self.generation) is Some && keyexpr_is_valid(self.ke@) ==> (r matches Ok(
                (s, b, t),
            ) && session_of(slots@, self.slot as int, self.generation) == Some(s) && b.ke@ == self.ke@ && opt_text(
                b.parameters,
            ) == opt_text(parameters) && opt_bytes(b.payload) == opt_bytes(payload) && t == querier_timeout(
                timeout_ms,
                self.timeout_ms,
            ) && b.timeout_ms == Some(t as u64) && b.target == QueryTarget::BestMatching
                && b.consolidation == ConsolidationMode::Auto && b.delivery == Some(
                Delivery::CallbackSync,
            ) && final(cache)@ == interned(old(cache)@, self.ke@)),
    {
        let session = match require(slots, self.slot, self.generation) {
            Ok(s) => s,
            Err(e) => {
                return Err(e);
            },
        };
        let ke = match intern_keyexpr(cache, self.ke.as_str()) {
            Ok(k) => k,
            Err(e) => {
                return Err(e);
            },
        };
        let tms = self.effective_timeout(timeout_ms);
        let builder = build_get(
            ke,
            parameters,
            payload,
            tms as u64,
            QueryTarget::default_target(),
            ConsolidationMode::default_consolidation(),
        );
        Ok((session, builder, tms))
    }
}

impl JsQuery {
    /// What a reply needs: the session (which must be open), this query's
    /// request id and the reply's key expression (which must be valid).
    pub fn reply<S: Copy, L: Copy>(&self, slots: &SessionSlots<S, L>, ke: &str) -> (r: Result<
        ReplyTarget<S>,
        TsError,
    >)
        requires
            self.slot < slots@.len(),
        ensures
            session_of(slots@, self.slot as int, self.generation) is None ==> r is Err && r->Err_0 == TsError::NoOpenSession,
            session_of(slots@, self.slot as int, self.generation) is Some && !keyexpr_is_valid(ke@) ==> r is Err && r->Err_0
                == TsError::InvalidKeyExpr,
            session_of(slots@, self.slot as int, self.generation) is Some && keyexpr_is_valid(ke@) ==> (r matches Ok(t)
                && session_of(slots@, self.slot as int, self.generation) == Some(t.session) && t.rid == self.rid && t.ke@
                == ke@),
    {
        let session = match require(slots, self.slot, self.generation) {
            Ok(s) => s,
            Err(e) => {
                return Err(e);
            },
        };
        match parse(ke) {
            Ok(k) => Ok(ReplyTarget { session, rid: self.rid, ke: k }),
            Err(e) => Err(e),
        }
    }

    /// What an error reply needs: as `reply`, on this query's own key
    /// expression.
    pub fn reply_err<S: Copy, L: Copy>(&self, slots: &SessionSlots<S, L>) -> (r: Result<
        ReplyTarget<S>,
        TsError,
    >)
        requires
            self.slot < slots@.len(),
        ensures
            session_of(slots@, self.slot as int, self.generation) is None ==> r is Err && r->Err_0 == TsError::NoOpenSession,
            session_of(slots@, self.slot as int, self.generation) is Some && !keyexpr_is_valid(self.key_expr@) ==> r is Err
                && r->Err_0 == TsError::InvalidKeyExpr,
            session_of(slots@, self.slot as int, self.generation) is Some && keyexpr_is_valid(self.key_expr@) ==> (r matches Ok(
                t,
            ) && session_of(slots@, self.slot as int, self.generation) == Some(t.session) && t.rid == self.rid && t.ke@
                == self.key_expr@),
    {
        self.reply(slots, self.key_expr.as_str())
    }

    /// What finalizing needs: nothing when already finalized (`Ok(None)`);
    /// else the session (which must be open) and the request id. The query
    /// counts as finalized only once `mark_finalized` is called.
    pub fn finalize<S: Copy, L: Copy>(&self, slots: &SessionSlots<S, L>) -> (r: Result<
        Option<(S, u32)>,
        TsError,
    >)
        requires
            self.slot < slots@.len(),
        ensures
            self.finalized ==> r == Ok::<Option<(S, u32)>, TsError>(None),
            !self.finalized ==> match session_of(slots@, self.slot as int, self.generation) {
                None => r == Err::<Option<(S, u32)>, TsError>(TsError::NoOpenSession),
                Some(s) => r == Ok::<Option<(S, u32)>, TsError>(Some((s, self.rid))),
            },
    {
        if self.finalized {
            return Ok(None);
        }
        match require(slots, self.slot, self.generation) {
            Ok(s) => Ok(Some((s, self.rid))),
            Err(e) => Err(e),
        }
    }

    /// Records that the session finalized this query.
    pub fn mark_finalized(&mut self)
        ensures
            final(self).finalized,
            final(self).rid == old(self).rid,
            final(self).slot == old(self).slot,
            final(self).key_expr == old(self).key_expr,
    {
        self.finalized = true;
    }
}

} // verus!
