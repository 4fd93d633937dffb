//! The values a session exchanges: the fields of outgoing messages, samples,
//! and the answers a get receives.
use vstd::prelude::*;

use crate::establishment::ZenohId;
use crate::keyexpr::KeyExpr;

verus! {

/// Which queryables a query targets.
#[derive(Debug, PartialEq, Eq, Structural, Clone, Copy)]
pub enum QueryTarget {
    BestMatching,
    All,
    AllComplete,
}

/// How replies to a query are consolidated.
#[derive(Debug, PartialEq, Eq, Structural, Clone, Copy)]
pub enum ConsolidationMode {
    Auto,
    /// No consolidation.
    NoConsolidation,
    Monotonic,
    Latest,
}

/// Whether a message must be delivered reliably.
#[derive(Debug, PartialEq, Eq, Structural, Clone, Copy)]
pub enum Reliability {
    BestEffort,
    Reliable,
}

/// Quality of service of a message: priority (1 highest .. 7 lowest),
/// whether to block rather than drop under congestion, and whether to send
/// without batching.
#[derive(Debug, PartialEq, Eq, Structural, Clone, Copy)]
pub struct QoS {
    pub priority: u8,
    pub congestion_block: bool,
    pub express: bool,
}

/// The priority of ordinary data.
pub const PRIORITY_DATA: u8 = 5;

/// The default quality of service: data priority, drop under congestion,
/// batched.
pub open spec fn default_qos_spec() -> QoS {
    QoS { priority: PRIORITY_DATA, congestion_block: false, express: false }
}

impl QoS {
    /// The default quality of service: data priority, drop under congestion,
    /// batched.
    pub fn default_qos() -> (r: QoS)
        ensures
            r == default_qos_spec(),
    {
        QoS { priority: PRIORITY_DATA, congestion_block: false, express: false }
    }

    /// A quality of service from its three parts.
    pub fn from_parts(priority: u8, congestion_block: bool, express: bool) -> (r: QoS)
        ensures
            r == (QoS { priority, congestion_block, express }),
    {
        QoS { priority, congestion_block, express }
    }
}

impl Reliability {
    /// The default reliability: reliable.
    pub fn default_reliability() -> (r: Reliability)
        ensures
            r == Reliability::Reliable,
    {
        Reliability::Reliable
    }
}

impl QueryTarget {
    /// The default target: the best matching queryables.
    pub fn default_target() -> (r: QueryTarget)
        ensures
            r == QueryTarget::BestMatching,
    {
        QueryTarget::BestMatching
    }
}

impl ConsolidationMode {
    /// The default consolidation: automatic.
    pub fn default_consolidation() -> (r: ConsolidationMode)
        ensures
            r == ConsolidationMode::Auto,
    {
        ConsolidationMode::Auto
    }
}

/// The encoding of a payload: a numeric id and an optional schema.
pub struct Encoding {
    pub id: u16,
    pub schema: Option<Vec<u8>>,
}

impl Encoding {
    /// The default encoding: id 0, no schema.
    pub fn default_encoding() -> (r: Encoding)
        ensures
            r.id == 0,
            r.schema is None,
    {
        Encoding { id: 0, schema: None }
    }

    /// An encoding with id `id` and no schema.
    pub fn with_id(id: u16) -> (r: Encoding)
        ensures
            r.id == id,
            r.schema is None,
    {
        Encoding { id, schema: None }
    }
}

/// The contents of an encoding.
pub open spec fn encoding_view(e: Encoding) -> (u16, Option<Seq<u8>>) {
    (e.id, match e.schema {
        Some(v) => Some(v@),
        None => None,
    })
}

impl Encoding {
    /// A copy of this encoding.
    pub fn duplicate(&self) -> (r: Encoding)
        ensures
            encoding_view(r) == encoding_view(*self),
    {
        let schema = match &self.schema {
            Some(v) => Some(v.clone()),
            None => None,
        };
        Encoding { id: self.id, schema }
    }
}

/// A hybrid logical clock time stamp: a time and the identifier of its source.
#[derive(Debug, PartialEq, Eq, Structural, Clone, Copy)]
pub struct Timestamp {
    pub time: u64,
    pub id: ZenohId,
}

/// A value published on a key expression.
pub struct Sample {
    pub ke: KeyExpr,
    pub payload: Vec<u8>,
    pub encoding_id: u16,
}

/// What a get callback receives.
pub enum GetResponse {
    /// A reply.
    Reply(Sample),
    /// An error reply.
    ReplyErr(Sample),
    /// No more replies will come.
    Done,
}

/// A query as a local queryable sees it.
pub struct QueryableQuery {
    pub rid: u32,
    pub ke: KeyExpr,
    pub parameters: Option<String>,
    pub payload: Option<Vec<u8>>,
}

/// The messages a session sends to the network.
#[allow(inconsistent_fields)]
pub enum NetworkMessage {
    /// A publication.
    Push {
        ke: KeyExpr,
        payload: Vec<u8>,
        encoding: Encoding,
        timestamp: Option<Timestamp>,
        attachment: Option<Vec<u8>>,
        qos: QoS,
        reliability: Reliability,
    },
    /// A query.
    Request {
        rid: u32,
        ke: KeyExpr,
        target: QueryTarget,
        consolidation: ConsolidationMode,
        parameters: String,
        payload: Option<Vec<u8>>,
    },
    /// A reply to query `rid`.
    Reply { rid: u32, ke: KeyExpr, payload: Vec<u8> },
    /// An error reply to query `rid`.
    ReplyErr { rid: u32, ke: KeyExpr, payload: Vec<u8> },
    /// No more replies to query `rid` will come from this session.
    ResponseFinal { rid: u32 },
    /// Declares queryable `id` on a key expression.
    DeclareQueryable { id: u32, ke: KeyExpr },
    /// Withdraws queryable `id`.
    UndeclareQueryable { id: u32 },
    /// Declares subscriber `id` on a key expression.
    DeclareSubscriber { id: u32, ke: KeyExpr },
    /// Withdraws subscriber `id`.
    UndeclareSubscriber { id: u32 },
    /// Asks for the subscribers of a key expression, current and future.
    Interest { id: u32, ke: KeyExpr },
    /// Withdraws interest `id`.
    InterestFinal { id: u32 },
}

} // verus!
