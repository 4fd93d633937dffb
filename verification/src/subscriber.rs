//! Declaring and withdrawing the subscribers of a session.
use vstd::prelude::*;

use crate::keyexpr::KeyExpr;
use crate::messages::NetworkMessage;
use crate::session::{is_registered, without_id, SessionError, SessionState};

verus! {

/// A declared subscriber: its id and key expression.
pub struct Subscriber {
    id: u32,
    ke: KeyExpr,
}

impl Subscriber {
    /// The id this subscriber was declared under.
    pub closed spec fn spec_id(&self) -> u32 {
        self.id
    }

    /// The key expression this subscriber was declared on.
    pub closed spec fn spec_ke(&self) -> Seq<char> {
        self.ke@
    }

    /// The id this subscriber was declared under.
    pub fn id(&self) -> (r: u32)
        ensures
            r == self.spec_id(),
    {
        self.id
    }

    /// The key expression this subscriber was declared on.
    pub fn keyexpr(&self) -> (r: &KeyExpr)
        ensures
            r@ == self.spec_ke(),
    {
        &self.ke
    }
}

impl SessionState {
    /// Declares a subscriber on `ke`: takes a fresh id, registers the
    /// subscriber's callback (without deadline) under it, and returns the
    /// subscriber with the declaration to send. `Err(DuplicateId)`, no
    /// subscriber registered, exactly when the fresh id is already registered.
    pub fn declare_subscriber(&mut self, ke: KeyExpr) -> (r: Result<
        (Subscriber, NetworkMessage),
        SessionError,
    >)
        requires
            old(self).wf(),
        ensures
            final(self).wf(),
            final(self).ids.advanced_from(old(self).ids),
            !old(self).ids.has_wrapped() ==> !old(self).ids.issued().contains(
                old(self).ids.next_value(),
            ),
            final(self).gets == old(self).gets,
            final(self).queryables == old(self).queryables,
            final(self).subscribers@.1 == old(self).subscribers@.1,
            r is Err <==> is_registered(old(self).subscribers@.0, old(self).ids.next_value()),
            r matches Err(e) ==> e == SessionError::DuplicateId && final(self).subscribers@
                == old(self).subscribers@,
            r matches Ok((s, msg)) ==> {
                &&& s.spec_id() == old(self).ids.next_value()
                &&& s.spec_ke() == ke@
                &&& final(self).subscribers@.0 == old(self).subscribers@.0.push(
                    (s.spec_id(), ke@, None),
                )
                &&& msg matches NetworkMessage::DeclareSubscriber { id, ke: k } && id
                    == s.spec_id() && k@ == ke@
            },
    {
        let id = self.next();
        let registered = ke.duplicate();
        let declared = ke.duplicate();
        match self.subscribers.insert(id, registered, None) {
            Err(e) => Err(e),
            Ok(()) => Ok((Subscriber { id, ke }, NetworkMessage::DeclareSubscriber { id, ke: declared })),
        }
    }

    /// Withdraws subscriber `id` and returns the withdrawal to send.
    /// `Err(UnknownId)`, nothing changed, exactly when `id` is not registered.
    pub fn undeclare_subscriber(&mut self, id: u32) -> (r: Result<NetworkMessage, SessionError>)
        requires
            old(self).wf(),
        ensures
            final(self).wf(),
            final(self).ids == old(self).ids,
            final(self).gets == old(self).gets,
            final(self).queryables == old(self).queryables,
            r is Err <==> !is_registered(old(self).subscribers@.0, id),
            r matches Err(e) ==> e == SessionError::UnknownId && final(self).subscribers@
                == old(self).subscribers@,
            r matches Ok(m) ==> {
                &&& m matches NetworkMessage::UndeclareSubscriber { id: i } && i == id
                &&& final(self).subscribers@.0 == without_id(old(self).subscribers@.0, id)
                &&& final(self).subscribers@.1 == old(self).subscribers@.1
            },
    {
        match self.subscribers.remove(id) {
            Err(e) => Err(e),
            Ok(()) => Ok(NetworkMessage::UndeclareSubscriber { id }),
        }
    }
}

} // verus!
