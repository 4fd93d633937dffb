//! Publishers: a key expression declared once, then published on repeatedly.
use vstd::prelude::*;

use crate::get::opt_bytes;
use crate::keyexpr::KeyExpr;
use crate::messages::{default_qos_spec, encoding_view, Encoding, NetworkMessage, QoS, Reliability, Timestamp};
use crate::put::PutBuilder;
use crate::session::SessionState;

verus! {

/// A declared publisher.
pub struct Publisher {
    pub id: u32,
    pub ke: KeyExpr,
    pub encoding: Encoding,
    pub timestamp: Option<Timestamp>,
    pub attachment: Option<Vec<u8>>,
}

/// Builds a publisher.
pub struct PublisherBuilder {
    pub ke: KeyExpr,
    pub encoding: Encoding,
    pub timestamp: Option<Timestamp>,
    pub attachment: Option<Vec<u8>>,
}

impl Publisher {
    /// The id of this publisher (also the id of its interest).
    pub fn id(&self) -> (r: u32)
        ensures
            r == self.id,
    {
        self.id
    }

    /// The key expression this publisher publishes on.
    pub fn keyexpr(&self) -> (r: &KeyExpr)
        ensures
            r@ == self.ke@,
    {
        &self.ke
    }

    /// A publication of `payload` with this publisher's key expression,
    /// encoding, time stamp and attachment, and the default quality of service
    /// and reliability.
    pub fn put(&self, payload: Vec<u8>) -> (r: PutBuilder)
        ensures
            r.ke@ == self.ke@,
            r.payload@ == payload@,
            encoding_view(r.encoding) == encoding_view(self.encoding),
            r.timestamp == self.timestamp,
            opt_bytes(r.attachment) == opt_bytes(self.attachment),
            r.qos == default_qos_spec(),
            r.reliability == Reliability::Reliable,
    {
        let attachment = match &self.attachment {
            Some(a) => Some(a.clone()),
            None => None,
        };
        PutBuilder {
            ke: self.ke.duplicate(),
            payload,
            encoding: self.encoding.duplicate(),
            timestamp: self.timestamp,
            attachment,
            qos: QoS::default_qos(),
            reliability: Reliability::default_reliability(),
        }
    }

    /// Withdraws this publisher: the end of its interest.
    pub fn undeclare(self) -> (r: NetworkMessage)
        ensures
            r matches NetworkMessage::InterestFinal { id } && id == self.id,
    {
        NetworkMessage::InterestFinal { id: self.id }
    }
}

impl PublisherBuilder {
    /// A publisher on `ke` with the default encoding and no time stamp or
    /// attachment.
    pub fn new(ke: KeyExpr) -> (r: PublisherBuilder)
        ensures
            r.ke@ == ke@,
            r.encoding.id == 0,
            r.encoding.schema is None,
            r.timestamp is None,
            r.attachment is None,
    {
        PublisherBuilder {
            ke,
            encoding: Encoding::default_encoding(),
            timestamp: None,
            attachment: None,
        }
    }

    /// Publishes on `ke` instead.
    pub fn keyexpr(self, ke: KeyExpr) -> (r: PublisherBuilder)
        ensures
            r.ke@ == ke@,
            encoding_view(r.encoding) == encoding_view(self.encoding),
            r.timestamp == self.timestamp,
            opt_bytes(r.attachment) == opt_bytes(self.attachment),
    {
        PublisherBuilder { ke, ..self }
    }

    /// Sets the encoding.
    pub fn encoding(self, encoding: Encoding) -> (r: PublisherBuilder)
        ensures
            r.ke@ == self.ke@,
            encoding_view(r.encoding) == encoding_view(encoding),
            r.timestamp == self.timestamp,
            opt_bytes(r.attachment) == opt_bytes(self.attachment),
    {
        PublisherBuilder { encoding, ..self }
    }

    /// Sets the time stamp.
    pub fn timestamp(self, timestamp: Timestamp) -> (r: PublisherBuilder)
        ensures
            r.ke@ == self.ke@,
            encoding_view(r.encoding) == encoding_view(self.encoding),
            r.timestamp == Some(timestamp),
            opt_bytes(r.attachment) == opt_bytes(self.attachment),
    {
        PublisherBuilder { timestamp: Some(timestamp), ..self }
    }

    /// Sets the attachment.
    pub fn attachment(self, attachment: Vec<u8>) -> (r: PublisherBuilder)
        ensures
            r.ke@ == self.ke@,
            encoding_view(r.encoding) == encoding_view(self.encoding),
            r.timestamp == self.timestamp,
            opt_bytes(r.attachment) == Some(attachment@),
    {
        PublisherBuilder { attachment: Some(attachment), ..self }
    }

    /// Declares the publisher: takes a fresh id and returns the publisher with
    /// the interest to send (in the subscribers of its key expression, current
    /// and future).
    pub fn finish(self, state: &mut SessionState) -> (r: (Publisher, NetworkMessage))
        requires
            old(state).wf(),
        ensures
            final(state).wf(),
            r.0.id == old(state).ids.next_value(),
            r.0.ke@ == self.ke@,
            encoding_view(r.0.encoding) == encoding_view(self.encoding),
            r.0.timestamp == self.timestamp,
            opt_bytes(r.0.attachment) == opt_bytes(self.attachment),
            r.1 matches NetworkMessage::Interest { id, ke } && id == r.0.id && ke@ == self.ke@,
            final(state).ids.advanced_from(old(state).ids),
            !old(state).ids.has_wrapped() ==> !old(state).ids.issued().contains(
                old(state).ids.next_value(),
            ),
            final(state).subscribers == old(state).subscribers,
            final(state).gets == old(state).gets,
            final(state).queryables == old(state).queryables,
    {
        let id = state.next();
        let interest = NetworkMessage::Interest { id, ke: self.ke.duplicate() };
        (
            Publisher {
                id,
                ke: self.ke,
                encoding: self.encoding,
                timestamp: self.timestamp,
                attachment: self.attachment,
            },
            interest,
        )
    }
}

impl SessionState {
    /// A publisher builder on `ke`.
    pub fn declare_publisher(&self, ke: KeyExpr) -> (r: PublisherBuilder)
        ensures
            r.ke@ == ke@,
            r.encoding.id == 0,
            r.encoding.schema is None,
            r.timestamp is None,
            r.attachment is None,
    {
        PublisherBuilder::new(ke)
    }
}

} // verus!
