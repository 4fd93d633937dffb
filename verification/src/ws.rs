//! The WebSocket link: its link information, and how a received frame is
//! delivered into the reader's buffer.
use vstd::prelude::*;

verus! {

/// Errors of a link.
#[derive(Debug, PartialEq, Eq, Structural, Clone, Copy)]
pub enum LinkError {
    /// Sending failed.
    LinkTxFailed,
    /// Receiving failed, or an unexpected frame arrived.
    LinkRxFailed,
}

/// The kinds of WebSocket frames.
#[derive(Debug, PartialEq, Eq, Structural, Clone, Copy)]
pub enum OpCode {
    Continuation,
    Text,
    Binary,
    Close,
    Ping,
    Pong,
}

/// What the session needs to know about a WebSocket link, and about each of
/// its two halves: its MTU; and that it is not a stream (each frame is one
/// message).
#[derive(Debug, PartialEq, Eq, Structural, Clone, Copy)]
pub struct WsLinkInfo {
    pub mtu: u16,
}

impl WsLinkInfo {
    /// A link with MTU `mtu`.
    pub fn new(mtu: u16) -> (r: WsLinkInfo)
        ensures
            r.mtu == mtu,
    {
        WsLinkInfo { mtu }
    }

    /// The MTU of the link.
    pub fn mtu(&self) -> (r: u16)
        ensures
            r == self.mtu,
    {
        self.mtu
    }

    /// A WebSocket link carries whole messages, not a byte stream.
    pub fn is_streamed(&self) -> (r: bool)
        ensures
            !r,
    {
        false
    }

    /// The link information of the sending and the receiving half: both keep
    /// the MTU.
    pub fn split(&self) -> (r: (WsLinkInfo, WsLinkInfo))
        ensures
            r.0.mtu == self.mtu,
            r.1.mtu == self.mtu,
    {
        (WsLinkInfo { mtu: self.mtu }, WsLinkInfo { mtu: self.mtu })
    }
}

/// The smaller of two lengths.
pub open spec fn min_len(a: int, b: int) -> int {
    if a < b {
        a
    } else {
        b
    }
}

/// Delivers a received frame into `buffer`: a binary frame's payload is
/// copied, as much as fits, to the front of `buffer` and its length returned;
/// any other frame is refused with `LinkRxFailed` and `buffer` is untouched.
pub fn deliver_frame(op: OpCode, payload: &[u8], buffer: &mut [u8]) -> (r: Result<
    usize,
    LinkError,
>)
    ensures
        final(buffer)@.len() == old(buffer)@.len(),
        op != OpCode::Binary ==> r == Err::<usize, LinkError>(LinkError::LinkRxFailed)
            && final(buffer)@ == old(buffer)@,
        op == OpCode::Binary ==> ({
            let n = min_len(payload@.len() as int, old(buffer)@.len() as int);
            &&& r == Ok::<usize, LinkError>(n as usize)
            &&& final(buffer)@.take(n) == payload@.take(n)
            &&& final(buffer)@.skip(n) == old(buffer)@.skip(n)
        }),
{
    match op {
        OpCode::Binary => {},
        _ => {
            return Err(LinkError::LinkRxFailed);
        },
    }
    let len = if payload.len() < buffer.len() {
        payload.len()
    } else {
        buffer.len()
    };
    let ghost before = buffer@;
    let mut i: usize = 0;
    while i < len
        invariant
            len <= payload@.len(),
            len <= buffer@.len(),
            buffer@.len() == before.len(),
            i <= len,
            forall|k: int| 0 <= k < i ==> buffer@[k] == payload@[k],
            forall|k: int| i <= k < buffer@.len() ==> buffer@[k] == before[k],
        decreases len - i,
    {
        buffer[i] = payload[i];
        i = i + 1;
    }
    assert(buffer@.take(len as int) =~= payload@.take(len as int));
    assert(buffer@.skip(len as int) =~= before.skip(len as int));
    Ok(len)
}

/// `read_exact` on a WebSocket link reads one frame and drops its length.
pub fn read_exact_result(r: Result<usize, LinkError>) -> (out: Result<(), LinkError>)
    ensures
        match r {
            Ok(_) => out == Ok::<(), LinkError>(()),
            Err(e) => out == Err::<(), LinkError>(e),
        },
{
    match r {
        Ok(_) => Ok(()),
        Err(e) => Err(e),
    }
}

} // verus!
