//! Publishing a value once: the message to send and the local subscribers
//! that receive it directly.
use vstd::prelude::*;

use crate::get::opt_bytes;
use crate::keyexpr::KeyExpr;
use crate::messages::{default_qos_spec, encoding_view, Encoding, NetworkMessage, QoS, Reliability, Sample, Timestamp};
use crate::session::{matching_ids, SessionState};

verus! {

/// Builds one publication.
pub struct PutBuilder {
    pub ke: KeyExpr,
    pub payload: Vec<u8>,
    pub encoding: Encoding,
    pub timestamp: Option<Timestamp>,
    pub attachment: Option<Vec<u8>>,
    pub qos: QoS,
    pub reliability: Reliability,
}

/// What publishing does: send `message`, then, once the send succeeded,
/// hand `sample` to the subscribers of this session whose key expression
/// intersects it (see `local_delivery`; the network does not route a
/// publication back to its sender).
pub struct PutPlan {
    pub message: NetworkMessage,
    pub sample: Sample,
}

/// The fields of a builder other than the one a setter changes are kept.
pub open spec fn same_put_fields_but(a: PutBuilder, b: PutBuilder, field: int) -> bool {
    &&& (field != 0 ==> a.payload@ == b.payload@)
    &&& (field != 1 ==> a.qos == b.qos)
    &&& (field != 2 ==> a.reliability == b.reliability)
    &&& (field != 3 ==> encoding_view(a.encoding) == encoding_view(b.encoding))
    &&& (field != 4 ==> a.timestamp == b.timestamp)
    &&& (field != 5 ==> opt_bytes(a.attachment) == opt_bytes(b.attachment))
    &&& a.ke@ == b.ke@
}

impl PutBuilder {
    /// A publication of `payload` on `ke` with the default encoding, no time
    /// stamp or attachment, and the default quality of service and reliability.
    pub fn new(ke: KeyExpr, payload: Vec<u8>) -> (r: PutBuilder)
        ensures
            r.ke@ == ke@,
            r.payload@ == payload@,
            r.encoding.id == 0,
            r.encoding.schema is None,
            r.timestamp is None,
            r.attachment is None,
            r.qos == default_qos_spec(),
            r.reliability == Reliability::Reliable,
    {
        PutBuilder {
            ke,
            payload,
            encoding: Encoding::default_encoding(),
            timestamp: None,
            attachment: None,
            qos: QoS::default_qos(),
            reliability: Reliability::default_reliability(),
        }
    }

    /// Publishes `payload` instead.
    pub fn payload(self, payload: Vec<u8>) -> (r: PutBuilder)
        ensures
            r.payload@ == payload@,
            same_put_fields_but(r, self, 0),
    {
        PutBuilder { payload, ..self }
    }

    /// Sets the quality of service.
    pub fn qos(self, qos: QoS) -> (r: PutBuilder)
        ensures
            r.qos == qos,
            same_put_fields_but(r, self, 1),
    {
        PutBuilder { qos, ..self }
    }

    /// Sets the reliability.
    pub fn reliability(self, reliability: Reliability) -> (r: PutBuilder)
        ensures
            r.reliability == reliability,
            same_put_fields_but(r, self, 2),
    {
        PutBuilder { reliability, ..self }
    }

    /// Sets the encoding.
    pub fn encoding(self, encoding: Encoding) -> (r: PutBuilder)
        ensures
            encoding_view(r.encoding) == encoding_view(encoding),
            same_put_fields_but(r, self, 3),
    {
        PutBuilder { encoding, ..self }
    }

    /// Sets the time stamp.
    pub fn timestamp(self, timestamp: Timestamp) -> (r: PutBuilder)
        ensures
            r.timestamp == Some(timestamp),
            same_put_fields_but(r, self, 4),
    {
        PutBuilder { timestamp: Some(timestamp), ..self }
    }

    /// Sets the attachment.
    pub fn attachment(self, attachment: Vec<u8>) -> (r: PutBuilder)
        ensures
            opt_bytes(r.attachment) == Some(attachment@),
            same_put_fields_but(r, self, 5),
    {
        PutBuilder { attachment: Some(attachment), ..self }
    }

    /// The publication: a push of the payload with this encoding, time stamp,
    /// attachment, quality of service and reliability; and the sample (key
    /// expression, payload, encoding id) for the local subscribers.
    pub fn finish(self) -> (r: PutPlan)
        ensures
            r.message matches NetworkMessage::Push {
                ke,
                payload,
                encoding,
                timestamp,
                attachment,
                qos,
                reliability,
            } && ke@ == self.ke@ && payload@ == self.payload@ && encoding_view(encoding)
                == encoding_view(self.encoding) && timestamp == self.timestamp && opt_bytes(
                attachment,
            ) == opt_bytes(self.attachment) && qos == self.qos && reliability == self.reliability,
            r.sample.ke@ == self.ke@,
            r.sample.payload@ == self.payload@,
            r.sample.encoding_id == self.encoding.id,
    {
        let encoding_id = self.encoding.id;
        let sample = Sample {
            ke: self.ke.duplicate(),
            payload: self.payload.clone(),
            encoding_id,
        };
        let message = NetworkMessage::Push {
            ke: self.ke,
            payload: self.payload,
            encoding: self.encoding,
            timestamp: self.timestamp,
            attachment: self.attachment,
            qos: self.qos,
            reliability: self.reliability,
        };
        PutPlan { message, sample }
    }
}

/// The local delivery of a publication once its message has been handed to
/// the network: when the send succeeded, the sample and the subscribers of
/// the session, as they stand after the send, whose key expression
/// intersects the sample's; when it failed, the send's error, and no
/// subscriber is called.
pub fn local_delivery<E>(state: &SessionState, sample: Sample, sent: Result<(), E>) -> (r: Result<
    (Sample, Vec<u32>),
    E,
>)
    ensures
        sent matches Err(e) ==> r == Err::<(Sample, Vec<u32>), E>(e),
        sent is Ok ==> (r matches Ok((s, ids)) && s == sample && ids@ == matching_ids(
            state.subscribers@.0,
            sample.ke@,
        )),
{
    match sent {
        Ok(()) => {
            let ids = state.subscribers.intersects(&sample.ke);
            Ok((sample, ids))
        },
        Err(e) => Err(e),
    }
}

impl SessionState {
    /// A publication of `payload` on `ke`.
    pub fn put(&self, ke: KeyExpr, payload: Vec<u8>) -> (r: PutBuilder)
        ensures
            r.ke@ == ke@,
            r.payload@ == payload@,
            r.encoding.id == 0,
            r.encoding.schema is None,
            r.timestamp is None,
            r.attachment is None,
            r.qos == default_qos_spec(),
            r.reliability == Reliability::Reliable,
    {
        PutBuilder::new(ke, payload)
    }
}

} // verus!
