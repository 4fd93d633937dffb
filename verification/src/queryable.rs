//! Queryables, and how the answers to a query are routed: to a get of this
//! same session directly, or to the network.
use vstd::prelude::*;

use embassy_sync::channel::DynamicReceiver;

use crate::channel::try_receive;
use crate::keyexpr::KeyExpr;
use crate::messages::{GetResponse, NetworkMessage, Sample};
use crate::session::{
    decrease_reaches_zero, decreased, is_registered, without_id, SessionError, SessionState,
};

verus! {

/// How the answers of a declared entity are delivered to the application.
#[derive(Debug, PartialEq, Eq, Structural, Clone, Copy)]
pub enum Delivery {
    /// An asynchronous callback.
    Callback,
    /// A synchronous callback.
    CallbackSync,
    /// A channel that the application reads.
    Channel,
}

/// Builds a queryable on a key expression.
#[verifier::reject_recursive_types(T)]
pub struct QueryableBuilder<'res, T> {
    pub ke: KeyExpr,
    pub delivery: Option<Delivery>,
    pub receiver: Option<DynamicReceiver<'res, T>>,
}

/// A declared queryable; its queries are read from `receiver` when they go
/// through a channel.
#[verifier::reject_recursive_types(T)]
pub struct Queryable<'res, T> {
    pub id: u32,
    pub receiver: Option<DynamicReceiver<'res, T>>,
}

impl<'res, T> Queryable<'res, T> {
    /// The next query already in the channel, if any.
    pub fn try_recv(&self) -> (r: Option<T>)
        requires
            self.receiver is Some,
    {
        match &self.receiver {
            Some(receiver) => try_receive(receiver),
            None => None,
        }
    }

    /// The id of this queryable.
    pub fn id(&self) -> (r: u32)
        ensures
            r == self.id,
    {
        self.id
    }
}

impl<'res, T> QueryableBuilder<'res, T> {
    /// A builder on `ke` with no delivery chosen yet.
    pub fn new(ke: KeyExpr) -> (r: QueryableBuilder<'res, T>)
        ensures
            r.ke@ == ke@,
            r.delivery is None,
            r.receiver is None,
    {
        QueryableBuilder { ke, delivery: None, receiver: None }
    }

    /// Delivers queries to an asynchronous callback.
    pub fn callback(self) -> (r: QueryableBuilder<'res, T>)
        ensures
            r.ke@ == self.ke@,
            r.delivery == Some(Delivery::Callback),
            r.receiver is None,
    {
        QueryableBuilder { ke: self.ke, delivery: Some(Delivery::Callback), receiver: None }
    }

    /// Delivers queries to a synchronous callback.
    pub fn callback_sync(self) -> (r: QueryableBuilder<'res, T>)
        ensures
            r.ke@ == self.ke@,
            r.delivery == Some(Delivery::CallbackSync),
            r.receiver is None,
    {
        QueryableBuilder { ke: self.ke, delivery: Some(Delivery::CallbackSync), receiver: None }
    }

    /// Delivers queries through a channel, read from `receiver`.
    pub fn channel(self, receiver: DynamicReceiver<'res, T>) -> (r: QueryableBuilder<'res, T>)
        ensures
            r.ke@ == self.ke@,
            r.delivery == Some(Delivery::Channel),
            r.receiver == Some(receiver),
    {
        QueryableBuilder { ke: self.ke, delivery: Some(Delivery::Channel), receiver: Some(receiver) }
    }

    /// Declares the queryable: takes a fresh id, drops the callbacks that have
    /// timed out at `now`, registers the queryable's callback without deadline
    /// and returns the queryable with the declaration to send.
    /// `Err(DuplicateId)` exactly when the fresh id is already registered.
    pub fn finish(self, state: &mut SessionState, now: u64) -> (r: Result<
        (Queryable<'res, T>, NetworkMessage),
        SessionError,
    >)
        requires
            self.delivery is Some,
            old(state).wf(),
        ensures
            final(state).wf(),
            final(state).ids.advanced_from(old(state).ids),
            !old(state).ids.has_wrapped() ==> !old(state).ids.issued().contains(
                old(state).ids.next_value(),
            ),
            final(state).subscribers == old(state).subscribers,
            final(state).gets == old(state).gets,
            final(state).queryables@.1 == old(state).queryables@.1,
            r is Err <==> is_registered(
                crate::session::alive_only(old(state).queryables@.0, now),
                old(state).ids.next_value(),
            ),
            r is Err ==> final(state).queryables@.0 == crate::session::alive_only(
                old(state).queryables@.0,
                now,
            ),
            r matches Ok((q, msg)) ==> {
                &&& q.id == old(state).ids.next_value()
                &&& q.receiver == self.receiver
                &&& final(state).queryables@.0 == crate::session::alive_only(
                    old(state).queryables@.0,
                    now,
                ).push((q.id, self.ke@, None))
                &&& msg matches NetworkMessage::DeclareQueryable { id, ke } && id == q.id && ke@
                    == self.ke@
            },
    {
        let id = state.next();
        state.queryables.drop_timedout(now);
        let declared = self.ke.duplicate();
        match state.queryables.insert(id, self.ke, None) {
            Err(e) => Err(e),
            Ok(()) => {
                Ok(
                    (
                        Queryable { id, receiver: self.receiver },
                        NetworkMessage::DeclareQueryable { id, ke: declared },
                    ),
                )
            },
        }
    }
}

/// Where an answer to request `rid` goes.
pub enum ReplyRoute {
    /// To the callback of a get of this session.
    Local(GetResponse),
    /// To the network, as this message.
    Remote(NetworkMessage),
}

/// What finalizing request `rid` asks for.
#[derive(Debug, PartialEq, Eq, Structural, Clone, Copy)]
pub enum FinalizeAction {
    /// Other local queryables have not finalized yet: nothing to do.
    Wait,
    /// The request is a local get with no answer pending from the network:
    /// deliver `Done` to its callback, which is now unregistered.
    DeliverDone,
    /// The request is a local get that still awaits the network's final
    /// answer: leave `Done` and the cleanup to it.
    AwaitRemoteFinal,
    /// The request came from the network: send `ResponseFinal` for it.
    SendResponseFinal,
}

/// What finalizing `rid` asks for, given the get registry (`gets`) and the
/// counters of outstanding local queryables (`pending`).
pub open spec fn finalize_action(
    gets: (Seq<(u32, Seq<char>, Option<u64>)>, Map<u32, usize>),
    pending: Map<u32, usize>,
    rid: u32,
) -> FinalizeAction {
    if !decrease_reaches_zero(pending, rid) {
        FinalizeAction::Wait
    } else if is_registered(gets.0, rid) {
        if decrease_reaches_zero(gets.1, rid) {
            FinalizeAction::AwaitRemoteFinal
        } else {
            FinalizeAction::DeliverDone
        }
    } else {
        FinalizeAction::SendResponseFinal
    }
}

/// The get registry after finalizing `rid`.
pub open spec fn gets_after_finalize(
    gets: (Seq<(u32, Seq<char>, Option<u64>)>, Map<u32, usize>),
    pending: Map<u32, usize>,
    rid: u32,
) -> (Seq<(u32, Seq<char>, Option<u64>)>, Map<u32, usize>) {
    if decrease_reaches_zero(pending, rid) && is_registered(gets.0, rid) {
        if decrease_reaches_zero(gets.1, rid) {
            (gets.0, decreased(gets.1, rid))
        } else {
            (without_id(gets.0, rid), decreased(gets.1, rid))
        }
    } else {
        gets
    }
}

impl SessionState {
    /// A queryable builder on `ke`.
    pub fn declare_queryable<'res, T>(&self, ke: KeyExpr) -> (r: QueryableBuilder<'res, T>)
        ensures
            r.ke@ == ke@,
            r.delivery is None,
            r.receiver is None,
    {
        QueryableBuilder::new(ke)
    }

    /// Withdraws queryable `id` and returns the withdrawal to send.
    /// `Err(UnknownId)`, nothing changed, exactly when `id` is not registered.
    pub fn undeclare_queryable(&mut self, id: u32) -> (r: Result<NetworkMessage, SessionError>)
        requires
            old(self).wf(),
        ensures
            final(self).wf(),
            final(self).ids == old(self).ids,
            final(self).subscribers == old(self).subscribers,
            final(self).gets == old(self).gets,
            r is Err <==> !is_registered(old(self).queryables@.0, id),
            r is Err ==> final(self).queryables@ == old(self).queryables@,
            r matches Err(e) ==> e == SessionError::UnknownId,
            r matches Ok(m) ==> {
                &&& m matches NetworkMessage::UndeclareQueryable { id: i } && i == id
                &&& final(self).queryables@.0 == without_id(old(self).queryables@.0, id)
                &&& final(self).queryables@.1 == old(self).queryables@.1
            },
    {
        match self.queryables.remove(id) {
            Err(e) => Err(e),
            Ok(()) => Ok(NetworkMessage::UndeclareQueryable { id }),
        }
    }

    /// Routes a reply to request `rid`: when `rid` is a get of this session,
    /// its callback receives the sample directly (the network never routes a
    /// reply back to the session that asked); otherwise it is sent.
    pub fn reply(&self, rid: u32, ke: &KeyExpr, payload: &[u8]) -> (r: ReplyRoute)
        ensures
            is_registered(self.gets@.0, rid) ==> (r matches ReplyRoute::Local(
                GetResponse::Reply(s),
            ) && s.ke@ == ke@ && s.payload@ == payload@ && s.encoding_id == 0),
            !is_registered(self.gets@.0, rid) ==> (r matches ReplyRoute::Remote(
                NetworkMessage::Reply { rid: i, ke: k, payload: p },
            ) && i == rid && k@ == ke@ && p@ == payload@),
    {
        if self.gets.contains(rid) {
            ReplyRoute::Local(
                GetResponse::Reply(
                    Sample { ke: ke.duplicate(), payload: vstd::slice::slice_to_vec(payload), encoding_id: 0 },
                ),
            )
        } else {
            ReplyRoute::Remote(
                NetworkMessage::Reply { rid, ke: ke.duplicate(), payload: vstd::slice::slice_to_vec(payload) },
            )
        }
    }

    /// Routes an error reply to request `rid`, as `reply` does.
    pub fn err(&self, rid: u32, ke: &KeyExpr, payload: &[u8]) -> (r: ReplyRoute)
        ensures
            is_registered(self.gets@.0, rid) ==> (r matches ReplyRoute::Local(
                GetResponse::ReplyErr(s),
            ) && s.ke@ == ke@ && s.payload@ == payload@ && s.encoding_id == 0),
            !is_registered(self.gets@.0, rid) ==> (r matches ReplyRoute::Remote(
                NetworkMessage::ReplyErr { rid: i, ke: k, payload: p },
            ) && i == rid && k@ == ke@ && p@ == payload@),
    {
        if self.gets.contains(rid) {
            ReplyRoute::Local(
                GetResponse::ReplyErr(
                    Sample { ke: ke.duplicate(), payload: vstd::slice::slice_to_vec(payload), encoding_id: 0 },
                ),
            )
        } else {
            ReplyRoute::Remote(
                NetworkMessage::ReplyErr { rid, ke: ke.duplicate(), payload: vstd::slice::slice_to_vec(payload) },
            )
        }
    }

    /// One queryable of this session is done with request `rid`. The counter
    /// of outstanding local queryables is decreased; when it reaches zero the
    /// request is finished: for a local get, its callback gets `Done` and is
    /// removed unless the network's final answer is still pending (a flag
    /// that this consumes); for a request from the network, `ResponseFinal`
    /// is sent.
    pub fn finalize(&mut self, rid: u32) -> (r: FinalizeAction)
        requires
            old(self).wf(),
        ensures
            final(self).wf(),
            r == finalize_action(old(self).gets@, old(self).queryables@.1, rid),
            final(self).gets@ == gets_after_finalize(old(self).gets@, old(self).queryables@.1, rid),
            final(self).queryables@.0 == old(self).queryables@.0,
            final(self).queryables@.1 == decreased(old(self).queryables@.1, rid),
            final(self).subscribers == old(self).subscribers,
            final(self).ids == old(self).ids,
    {
        let reached_zero = self.queryables.decrease(rid);
        if !reached_zero {
            return FinalizeAction::Wait;
        }
        let is_local = self.gets.contains(rid);
        if !is_local {
            return FinalizeAction::SendResponseFinal;
        }
        let pending_remote = self.gets.decrease(rid);
        if pending_remote {
            FinalizeAction::AwaitRemoteFinal
        } else {
            let removed = self.gets.remove(rid);
            assert(removed is Ok);
            FinalizeAction::DeliverDone
        }
    }
}

/// The final-answer message for request `rid`.
pub fn response_final(rid: u32) -> (r: NetworkMessage)
    ensures
        r matches NetworkMessage::ResponseFinal { rid: i } && i == rid,
{
    NetworkMessage::ResponseFinal { rid }
}

} // verus!
