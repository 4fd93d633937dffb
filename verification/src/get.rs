//! Gets: building a query, registering the callback that receives its
//! answers, and handing it to the queryables of this same session.
use vstd::prelude::*;

use embassy_sync::channel::DynamicReceiver;

use crate::channel::try_receive;
use crate::keyexpr::KeyExpr;
use crate::messages::{ConsolidationMode, NetworkMessage, QueryTarget, QueryableQuery};
use crate::queryable::Delivery;
use crate::session::{
    alive_only, is_registered, matching_ids, with_counter, SessionError, SessionState,
};

verus! {

/// How long a get waits for answers when no timeout is given, in milliseconds.
pub const DEFAULT_GET_TIMEOUT_MS: u64 = 30000;

/// The timeout of a get: the one given, or the default.
pub open spec fn effective_timeout(timeout_ms: Option<u64>) -> u64 {
    match timeout_ms {
        Some(t) => t,
        None => DEFAULT_GET_TIMEOUT_MS,
    }
}

/// A get waits exactly as long as it was told to: a given timeout `t` is
/// used as is, whatever its size, and only an absent one falls back to 30 s.
pub proof fn lemma_get_timeout_as_given(t: u64)
    ensures
        effective_timeout(Some(t)) == t,
        effective_timeout(None) == 30000,
        forall|u: u64| effective_timeout(Some(t)) < effective_timeout(Some(u)) <==> t < u,
{
}

/// The contents of an optional text.
pub open spec fn opt_text(o: Option<String>) -> Option<Seq<char>> {
    match o {
        Some(s) => Some(s@),
        None => None,
    }
}

/// The contents of an optional byte buffer.
pub open spec fn opt_bytes(o: Option<Vec<u8>>) -> Option<Seq<u8>> {
    match o {
        Some(v) => Some(v@),
        None => None,
    }
}

fn clone_opt_text(o: &Option<String>) -> (r: Option<String>)
    ensures
        opt_text(r) == opt_text(*o),
{
    match o {
        Some(s) => Some(s.clone()),
        None => None,
    }
}

fn clone_opt_bytes(o: &Option<Vec<u8>>) -> (r: Option<Vec<u8>>)
    ensures
        opt_bytes(r) == opt_bytes(*o),
{
    match o {
        Some(v) => Some(v.clone()),
        None => None,
    }
}

/// Builds a get on a key expression.
#[verifier::reject_recursive_types(T)]
pub struct GetBuilder<'res, T> {
    pub ke: KeyExpr,
    pub parameters: Option<String>,
    pub payload: Option<Vec<u8>>,
    pub timeout_ms: Option<u64>,
    pub target: QueryTarget,
    pub consolidation: ConsolidationMode,
    pub delivery: Option<Delivery>,
    pub receiver: Option<DynamicReceiver<'res, T>>,
}

/// The answers of a get, awaited until `deadline`; read from `receiver`
/// when they go through a channel.
#[verifier::reject_recursive_types(T)]
pub struct GetResponses<'res, T> {
    pub ke: KeyExpr,
    pub deadline: u64,
    pub receiver: Option<DynamicReceiver<'res, T>>,
}

impl<'res, T> GetResponses<'res, T> {
    /// The key expression that was queried.
    pub fn keyexpr(&self) -> (r: &KeyExpr)
        ensures
            r@ == self.ke@,
    {
        &self.ke
    }

    /// The next answer already in the channel, if any.
    pub fn try_recv(&self) -> (r: Option<T>)
        requires
            self.receiver is Some,
    {
        match &self.receiver {
            Some(receiver) => try_receive(receiver),
            None => None,
        }
    }
}

/// What waiting for the next answer of a get yields: the deadline passed
/// first, or an answer arrived first.
pub enum RecvEvent<T> {
    TimedOut,
    Received(T),
}

impl<'res, T> GetResponses<'res, T> {
    /// The next answer: `None` when the deadline passed first.
    pub fn recv_outcome(&self, event: RecvEvent<T>) -> (r: Option<T>)
        ensures
            match event {
                RecvEvent::TimedOut => r is None,
                RecvEvent::Received(v) => r == Some(v),
            },
    {
        match event {
            RecvEvent::TimedOut => None,
            RecvEvent::Received(v) => Some(v),
        }
    }
}

/// A get that is registered and sent, before the local queryables see it.
#[verifier::reject_recursive_types(T)]
pub struct PendingGet<'res, T> {
    pub rid: u32,
    pub ke: KeyExpr,
    pub parameters: Option<String>,
    pub payload: Option<Vec<u8>>,
    pub deadline: u64,
    pub receiver: Option<DynamicReceiver<'res, T>>,
}

impl<'res, T> GetBuilder<'res, T> {
    /// A get on `ke` with no parameters, payload or timeout, the default target
    /// and consolidation, and no delivery chosen yet.
    pub fn new(ke: KeyExpr) -> (r: GetBuilder<'res, T>)
        ensures
            r.ke@ == ke@,
            r.parameters is None,
            r.payload is None,
            r.timeout_ms is None,
            r.target == QueryTarget::BestMatching,
            r.consolidation == ConsolidationMode::Auto,
            r.delivery is None,
            r.receiver is None,
    {
        GetBuilder {
            ke,
            parameters: None,
            payload: None,
            timeout_ms: None,
            target: QueryTarget::default_target(),
            consolidation: ConsolidationMode::default_consolidation(),
            delivery: None,
            receiver: None,
        }
    }

    /// Delivers the answers to an asynchronous callback.
    pub fn callback(self) -> (r: GetBuilder<'res, T>)
        ensures
            r.delivery == Some(Delivery::Callback),
            r.receiver is None,
            r.ke@ == self.ke@,
            r.parameters == self.parameters,
            r.payload == self.payload,
            r.timeout_ms == self.timeout_ms,
            r.target == self.target,
            r.consolidation == self.consolidation,
    {
        GetBuilder { delivery: Some(Delivery::Callback), receiver: None, ..self }
    }

    /// Delivers the answers to a synchronous callback.
    pub fn callback_sync(self) -> (r: GetBuilder<'res, T>)
        ensures
            r.delivery == Some(Delivery::CallbackSync),
            r.receiver is None,
            r.ke@ == self.ke@,
            r.parameters == self.parameters,
            r.payload == self.payload,
            r.timeout_ms == self.timeout_ms,
            r.target == self.target,
            r.consolidation == self.consolidation,
    {
        GetBuilder { delivery: Some(Delivery::CallbackSync), receiver: None, ..self }
    }

    /// Delivers the answers through a channel, read from `receiver`.
    pub fn channel(self, receiver: DynamicReceiver<'res, T>) -> (r: GetBuilder<'res, T>)
        ensures
            r.delivery == Some(Delivery::Channel),
            r.receiver == Some(receiver),
            r.ke@ == self.ke@,
            r.parameters == self.parameters,
            r.payload == self.payload,
            r.timeout_ms == self.timeout_ms,
            r.target == self.target,
            r.consolidation == self.consolidation,
    {
        GetBuilder { delivery: Some(Delivery::Channel), receiver: Some(receiver), ..self }
    }

    /// Queries `ke` instead.
    pub fn keyexpr(self, ke: KeyExpr) -> (r: GetBuilder<'res, T>)
        ensures
            r.receiver == self.receiver,
            r.ke@ == ke@,
            r.parameters == self.parameters,
            r.payload == self.payload,
            r.timeout_ms == self.timeout_ms,
            r.target == self.target,
            r.consolidation == self.consolidation,
            r.delivery == self.delivery,
    {
        GetBuilder { ke, ..self }
    }

    /// Sets the query parameters.
    pub fn parameters(self, parameters: String) -> (r: GetBuilder<'res, T>)
        ensures
            r.receiver == self.receiver,
            r.parameters == Some(parameters),
            r.ke@ == self.ke@,
            r.payload == self.payload,
            r.timeout_ms == self.timeout_ms,
            r.target == self.target,
            r.consolidation == self.consolidation,
            r.delivery == self.delivery,
    {
        GetBuilder { parameters: Some(parameters), ..self }
    }

    /// Sets the query payload.
    pub fn payload(self, payload: Vec<u8>) -> (r: GetBuilder<'res, T>)
        ensures
            r.receiver == self.receiver,
            r.payload == Some(payload),
            r.ke@ == self.ke@,
            r.parameters == self.parameters,
            r.timeout_ms == self.timeout_ms,
            r.target == self.target,
            r.consolidation == self.consolidation,
            r.delivery == self.delivery,
    {
        GetBuilder { payload: Some(payload), ..self }
    }

    /// Sets the timeout, in milliseconds.
    pub fn timeout(self, timeout_ms: u64) -> (r: GetBuilder<'res, T>)
        ensures
            r.receiver == self.receiver,
            r.timeout_ms == Some(timeout_ms),
            r.ke@ == self.ke@,
            r.parameters == self.parameters,
            r.payload == self.payload,
            r.target == self.target,
            r.consolidation == self.consolidation,
            r.delivery == self.delivery,
    {
        GetBuilder { timeout_ms: Some(timeout_ms), ..self }
    }

    /// Sets the target.
    pub fn target(self, target: QueryTarget) -> (r: GetBuilder<'res, T>)
        ensures
            r.receiver == self.receiver,
            r.target == target,
            r.ke@ == self.ke@,
            r.parameters == self.parameters,
            r.payload == self.payload,
            r.timeout_ms == self.timeout_ms,
            r.consolidation == self.consolidation,
            r.delivery == self.delivery,
    {
        GetBuilder { target, ..self }
    }

    /// Sets the consolidation.
    pub fn consolidation(self, consolidation: ConsolidationMode) -> (r: GetBuilder<'res, T>)
        ensures
            r.receiver == self.receiver,
            r.consolidation == consolidation,
            r.ke@ == self.ke@,
            r.parameters == self.parameters,
            r.payload == self.payload,
            r.timeout_ms == self.timeout_ms,
            r.target == self.target,
            r.delivery == self.delivery,
    {
        GetBuilder { consolidation, ..self }
    }

    /// Issues the get at time `now` (milliseconds): its deadline is `now` plus
    /// the timeout (30 s by default); it takes a fresh request id; the get
    /// callbacks that have timed out at `now` are dropped and this get's
    /// callback is registered until the deadline. Returns the pending get and
    /// the request to send (empty parameters when none were given).
    /// `Err(DuplicateId)` exactly when the fresh id is already registered.
    pub fn finish(self, state: &mut SessionState, now: u64) -> (r: Result<
        (PendingGet<'res, T>, NetworkMessage),
        SessionError,
    >)
        requires
            self.delivery is Some,
            old(state).wf(),
            now + effective_timeout(self.timeout_ms) <= u64::MAX,
        ensures
            final(state).wf(),
            final(state).ids.advanced_from(old(state).ids),
            !old(state).ids.has_wrapped() ==> !old(state).ids.issued().contains(
                old(state).ids.next_value(),
            ),
            final(state).subscribers == old(state).subscribers,
            final(state).queryables == old(state).queryables,
            final(state).gets@.1 == old(state).gets@.1,
            r is Err <==> is_registered(alive_only(old(state).gets@.0, now), old(state).ids.next_value()),
            r is Err ==> final(state).gets@.0 == alive_only(old(state).gets@.0, now),
            r matches Ok((g, msg)) ==> {
                &&& g.rid == old(state).ids.next_value()
                &&& g.ke@ == self.ke@
                &&& g.parameters == self.parameters
                &&& g.payload == self.payload
                &&& g.deadline == now + effective_timeout(self.timeout_ms)
                &&& (self.timeout_ms matches Some(t) ==> g.deadline == now + t)
                &&& (self.timeout_ms is None ==> g.deadline == now + 30000)
                &&& g.receiver == self.receiver
                &&& final(state).gets@.0 == alive_only(old(state).gets@.0, now).push(
                    (g.rid, self.ke@, Some(g.deadline)),
                )
                &&& msg matches NetworkMessage::Request {
                    rid,
                    ke,
                    target,
                    consolidation,
                    parameters,
                    payload,
                } && rid == g.rid && ke@ == self.ke@ && target == self.target && consolidation
                    == self.consolidation && parameters@ == (match self.parameters {
                    Some(p) => p@,
                    None => Seq::<char>::empty(),
                }) && opt_bytes(payload) == opt_bytes(self.payload)
            },
    {
        let timeout = match self.timeout_ms {
            Some(t) => t,
            None => DEFAULT_GET_TIMEOUT_MS,
        };
        let deadline = now + timeout;
        let rid = state.next();
        state.gets.drop_timedout(now);
        let registered = self.ke.duplicate();
        match state.gets.insert(rid, registered, Some(deadline)) {
            Err(e) => Err(e),
            Ok(()) => {
                let parameters_text = match &self.parameters {
                    Some(p) => p.clone(),
                    None => String::new(),
                };
                let request = NetworkMessage::Request {
                    rid,
                    ke: self.ke.duplicate(),
                    target: self.target,
                    consolidation: self.consolidation,
                    parameters: parameters_text,
                    payload: clone_opt_bytes(&self.payload),
                };
                let pending = PendingGet {
                    rid,
                    ke: self.ke,
                    parameters: self.parameters,
                    payload: self.payload,
                    deadline,
                    receiver: self.receiver,
                };
                Ok((pending, request))
            },
        }
    }
}

impl<'res, T> PendingGet<'res, T> {
    /// Hands the get to the queryables of this session whose key expression
    /// intersects it (the network never routes a request back to the session
    /// that issued it). Returns their ids, in registration order. When there
    /// is at least one, the get is flagged as still expecting the network's
    /// final answer (its counter is set to 1) and the request's counter of
    /// outstanding local queryables is set to their number.
    pub fn dispatch_local(&self, state: &mut SessionState) -> (r: Vec<u32>)
        requires
            old(state).wf(),
        ensures
            final(state).wf(),
            r@ == matching_ids(old(state).queryables@.0, self.ke@),
            final(state).ids == old(state).ids,
            final(state).subscribers == old(state).subscribers,
            final(state).gets@.0 == old(state).gets@.0,
            final(state).queryables@.0 == old(state).queryables@.0,
            r@.len() == 0 ==> final(state).gets@.1 == old(state).gets@.1
                && final(state).queryables@.1 == old(state).queryables@.1,
            r@.len() > 0 ==> final(state).gets@.1 == with_counter(old(state).gets@.1, self.rid, 1)
                && final(state).queryables@.1 == with_counter(
                old(state).queryables@.1,
                self.rid,
                r@.len() as usize,
            ),
    {
        let ids = state.queryables.intersects(&self.ke);
        let count = ids.len();
        if count > 0 {
            state.gets.set_counter(self.rid, 1);
            state.queryables.set_counter(self.rid, count);
        }
        ids
    }

    /// The step after the request was handed to the network. When the send
    /// failed: its error, nothing dispatched, and the session unchanged (the
    /// get's callback stays registered). When it succeeded: the get is
    /// dispatched to the local queryables (see `dispatch_local`), whose ids are
    /// returned with the query they receive.
    pub fn after_send<E>(&self, state: &mut SessionState, sent: Result<(), E>) -> (r: Result<
        (Vec<u32>, QueryableQuery),
        E,
    >)
        requires
            old(state).wf(),
        ensures
            final(state).wf(),
            sent matches Err(e) ==> r == Err::<(Vec<u32>, QueryableQuery), E>(e) && *final(state)
                == *old(state),
            sent is Ok ==> (r matches Ok((ids, q)) && ids@ == matching_ids(
                old(state).queryables@.0,
                self.ke@,
            ) && q.rid == self.rid && q.ke@ == self.ke@ && opt_text(q.parameters) == opt_text(
                self.parameters,
            ) && opt_bytes(q.payload) == opt_bytes(self.payload) && final(state).ids == old(
                state,
            ).ids && final(state).subscribers == old(state).subscribers && final(state).gets@.0
                == old(state).gets@.0 && final(state).queryables@.0 == old(state).queryables@.0 && (
            ids@.len() == 0 ==> final(state).gets@.1 == old(state).gets@.1
                && final(state).queryables@.1 == old(state).queryables@.1) && (ids@.len() > 0
                ==> final(state).gets@.1 == with_counter(old(state).gets@.1, self.rid, 1)
                && final(state).queryables@.1 == with_counter(
                old(state).queryables@.1,
                self.rid,
                ids@.len() as usize,
            ))),
    {
        match sent {
            Err(e) => Err(e),
            Ok(()) => {
                let ids = self.dispatch_local(state);
                Ok((ids, self.query()))
            },
        }
    }

    /// The query as the local queryables see it.
    pub fn query(&self) -> (r: QueryableQuery)
        ensures
            r.rid == self.rid,
            r.ke@ == self.ke@,
            opt_text(r.parameters) == opt_text(self.parameters),
            opt_bytes(r.payload) == opt_bytes(self.payload),
    {
        QueryableQuery {
            rid: self.rid,
            ke: self.ke.duplicate(),
            parameters: clone_opt_text(&self.parameters),
            payload: clone_opt_bytes(&self.payload),
        }
    }

    /// The handle on the answers of this get.
    pub fn responses(self) -> (r: GetResponses<'res, T>)
        ensures
            r.ke@ == self.ke@,
            r.deadline == self.deadline,
            r.receiver == self.receiver,
    {
        GetResponses { ke: self.ke, deadline: self.deadline, receiver: self.receiver }
    }
}

impl SessionState {
    /// A get builder on `ke`.
    pub fn get<'res, T>(&self, ke: KeyExpr) -> (r: GetBuilder<'res, T>)
        ensures
            r.ke@ == ke@,
            r.parameters is None,
            r.payload is None,
            r.timeout_ms is None,
            r.target == QueryTarget::BestMatching,
            r.consolidation == ConsolidationMode::Auto,
            r.delivery is None,
            r.receiver is None,
    {
        GetBuilder::new(ke)
    }
}

} // verus!
