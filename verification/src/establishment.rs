//! The handshake that opens a transport, and how two peers that open towards
//! each other at the same time settle who yields.
use vstd::prelude::*;

verus! {

/// A zenoh identifier: its 16 bytes read as one big-endian number, so that the
/// numeric order is the order of the bytes.
#[derive(Debug, PartialEq, Eq, Structural, Clone, Copy)]
pub struct ZenohId {
    pub id: u128,
}

/// The role a node announces.
#[derive(Debug, PartialEq, Eq, Structural, Clone, Copy)]
pub enum WhatAmI {
    Router,
    Peer,
    Client,
}

/// Errors of the transport handshake.
#[derive(Debug, PartialEq, Eq, Structural, Clone, Copy)]
pub enum TransportError {
    /// The message is not expected in the current state.
    InvalidState,
    /// A field of the message is not acceptable (both sides share one identifier).
    InvalidAttribute,
}

/// The identity a node announces in the handshake.
#[derive(Debug, PartialEq, Eq, Structural, Clone, Copy)]
pub struct InitIdentifier {
    pub zid: ZenohId,
    pub whatami: WhatAmI,
}

/// The sequence-number resolution and batch size a node proposes.
#[derive(Debug, PartialEq, Eq, Structural, Clone, Copy)]
pub struct InitResolution {
    pub resolution: u8,
    pub batch_size: u16,
}

/// The message that opens a handshake.
#[derive(Debug, PartialEq, Eq, Structural, Clone, Copy)]
pub struct InitSyn {
    pub identifier: InitIdentifier,
    pub resolution: InitResolution,
}

/// The answer to an `InitSyn`.
pub struct InitAck {
    pub identifier: InitIdentifier,
    pub resolution: InitResolution,
    pub cookie: Vec<u8>,
}

/// What this side proposes in the handshake.
#[derive(Debug, PartialEq, Eq, Structural, Clone, Copy)]
pub struct LocalParams {
    pub zid: ZenohId,
    pub whatami: WhatAmI,
    pub batch_size: u16,
    pub resolution: u8,
    pub lease_ms: u64,
}

/// The states of the handshake that an `InitSyn` can meet.
#[derive(Debug, PartialEq, Eq, Structural, Clone, Copy)]
pub enum State {
    /// Listening: waiting for the other side to start.
    WaitingInitSyn(LocalParams),
    /// Connecting: our `InitSyn` is sent, waiting for the answer.
    WaitingInitAck(LocalParams),
    /// Our `InitAck` is sent, waiting for the `OpenSyn`.
    WaitingOpenSyn(LocalParams),
    /// Any later state of the handshake.
    Established,
}

/// What receiving an `InitSyn` produces.
pub enum InitSynOutcome {
    /// Answer with this `InitAck`.
    Reply(InitAck),
    /// Send nothing and stay: this side keeps the initiator role.
    Keep,
    /// The message is refused; the state does not change.
    Refused(TransportError),
}

/// The state after receiving `syn` in `s`.
pub open spec fn state_after_init_syn(s: State, syn: InitSyn) -> State {
    match s {
        State::WaitingInitSyn(p) => State::WaitingOpenSyn(p),
        State::WaitingInitAck(p) => if p.zid.id > syn.identifier.zid.id {
            State::WaitingOpenSyn(p)
        } else {
            s
        },
        _ => s,
    }
}

/// Whether receiving `syn` in `s` is answered with an `InitAck`.
pub open spec fn replies_to_init_syn(s: State, syn: InitSyn) -> bool {
    match s {
        State::WaitingInitSyn(_) => true,
        State::WaitingInitAck(p) => p.zid.id > syn.identifier.zid.id,
        _ => false,
    }
}

/// The error, if receiving `syn` in `s` is refused.
pub open spec fn init_syn_error(s: State, syn: InitSyn) -> Option<TransportError> {
    match s {
        State::WaitingInitSyn(_) => None,
        State::WaitingInitAck(p) => if p.zid.id == syn.identifier.zid.id {
            Some(TransportError::InvalidAttribute)
        } else {
            None
        },
        _ => Some(TransportError::InvalidState),
    }
}

/// The parameters a state carries, if it carries any.
pub open spec fn params_of(s: State) -> Option<LocalParams> {
    match s {
        State::WaitingInitSyn(p) => Some(p),
        State::WaitingInitAck(p) => Some(p),
        State::WaitingOpenSyn(p) => Some(p),
        State::Established => None,
    }
}

impl State {
    /// Handles an incoming `InitSyn`. A listener answers and waits for the
    /// `OpenSyn`. A connector that meets the other side's `InitSyn`
    /// (simultaneous open) yields when its identifier is the higher one: it
    /// answers and becomes the acceptor; with the lower identifier it keeps the
    /// initiator role and sends nothing; equal identifiers are refused. The
    /// answer carries our identity and proposal, and `cookie`.
    pub fn on_init_syn(&mut self, syn: &InitSyn, cookie: Vec<u8>) -> (r: InitSynOutcome)
        ensures
            *final(self) == state_after_init_syn(*old(self), *syn),
            *old(self) matches State::WaitingInitSyn(p) ==> *final(self) == State::WaitingOpenSyn(p)
                && r is Reply,
            match r {
                InitSynOutcome::Reply(ack) => {
                    &&& replies_to_init_syn(*old(self), *syn)
                    &&& params_of(*old(self)) matches Some(p)
                    &&& ack.identifier == (InitIdentifier { zid: p.zid, whatami: p.whatami })
                    &&& ack.resolution == (InitResolution {
                        resolution: p.resolution,
                        batch_size: p.batch_size,
                    })
                    &&& ack.cookie@ == cookie@
                },
                InitSynOutcome::Keep => !replies_to_init_syn(*old(self), *syn) && init_syn_error(
                    *old(self),
                    *syn,
                ) is None,
                InitSynOutcome::Refused(e) => init_syn_error(*old(self), *syn) == Some(e),
            },
    {
        match *self {
            State::WaitingInitSyn(p) => {
                *self = State::WaitingOpenSyn(p);
                InitSynOutcome::Reply(
                    InitAck {
                        identifier: InitIdentifier { zid: p.zid, whatami: p.whatami },
                        resolution: InitResolution {
                            resolution: p.resolution,
                            batch_size: p.batch_size,
                        },
                        cookie,
                    },
                )
            },
            State::WaitingInitAck(p) => {
                if p.zid.id > syn.identifier.zid.id {
                    *self = State::WaitingOpenSyn(p);
                    InitSynOutcome::Reply(
                        InitAck {
                            identifier: InitIdentifier { zid: p.zid, whatami: p.whatami },
                            resolution: InitResolution {
                                resolution: p.resolution,
                                batch_size: p.batch_size,
                            },
                            cookie,
                        },
                    )
                } else if p.zid.id < syn.identifier.zid.id {
                    InitSynOutcome::Keep
                } else {
                    InitSynOutcome::Refused(TransportError::InvalidAttribute)
                }
            },
            _ => InitSynOutcome::Refused(TransportError::InvalidState),
        }
    }
}

/// A listener answers every `InitSyn`, whatever the two identifiers: it
/// replies and moves on to wait for the `OpenSyn` with its own parameters,
/// and the answer does not depend on which side has the lower identifier.
pub proof fn lemma_listener_always_answers(p: LocalParams, syn: InitSyn, other: InitSyn)
    ensures
        replies_to_init_syn(State::WaitingInitSyn(p), syn),
        state_after_init_syn(State::WaitingInitSyn(p), syn) == State::WaitingOpenSyn(p),
        init_syn_error(State::WaitingInitSyn(p), syn) is None,
        state_after_init_syn(State::WaitingInitSyn(p), syn) == state_after_init_syn(
            State::WaitingInitSyn(p),
            other,
        ),
{
}

/// The `InitSyn` a connector sends: its identity and proposal.
pub open spec fn init_syn_of(p: LocalParams) -> InitSyn {
    InitSyn {
        identifier: InitIdentifier { zid: p.zid, whatami: p.whatami },
        resolution: InitResolution { resolution: p.resolution, batch_size: p.batch_size },
    }
}

/// Simultaneous open: when two connectors with different identifiers each
/// receive the other's `InitSyn`, the one with the lower identifier wins (sends
/// nothing and stays connecting) and the one with the higher identifier yields
/// (answers with an `InitAck` and becomes the acceptor); neither refuses. With
/// equal identifiers both refuse with `InvalidAttribute`.
pub proof fn simultaneous_open_proof(lower: LocalParams, higher: LocalParams)
    requires
        lower.zid.id < higher.zid.id,
    ensures
        !replies_to_init_syn(State::WaitingInitAck(lower), init_syn_of(higher)),
        init_syn_error(State::WaitingInitAck(lower), init_syn_of(higher)) is None,
        state_after_init_syn(State::WaitingInitAck(lower), init_syn_of(higher))
            == State::WaitingInitAck(lower),
        replies_to_init_syn(State::WaitingInitAck(higher), init_syn_of(lower)),
        init_syn_error(State::WaitingInitAck(higher), init_syn_of(lower)) is None,
        state_after_init_syn(State::WaitingInitAck(higher), init_syn_of(lower))
            == State::WaitingOpenSyn(higher),
{
}

/// Exactly one side of a simultaneous open answers, whichever identifier is the
/// lower; and identical identifiers are refused on both sides.
pub proof fn lemma_exactly_one_side_yields(a: LocalParams, b: LocalParams)
    ensures
        a.zid != b.zid ==> (replies_to_init_syn(State::WaitingInitAck(a), init_syn_of(b))
            != replies_to_init_syn(State::WaitingInitAck(b), init_syn_of(a))),
        a.zid == b.zid ==> init_syn_error(State::WaitingInitAck(a), init_syn_of(b)) == Some(
            TransportError::InvalidAttribute,
        ),
{
}

} // verus!
