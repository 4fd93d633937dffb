//! The table of open sessions: a fixed number of slots, each holding at most
//! one session and the link that closes it.
//!
//! Opening a session takes time (the link must connect), so a slot is first
//! reserved, then filled. Each reservation gives the slot a new generation;
//! a handle names its slot and the generation it was opened under, so a
//! handle to a closed session never reaches a later session in the same slot.
use vstd::prelude::*;

verus! {

/// How many sessions can be open at once.
pub const MAX_SESSIONS: usize = 4;

/// Why a slot operation was refused.
#[derive(Debug, PartialEq, Eq, Structural, Clone, Copy)]
pub enum SlotError {
    /// Every slot already holds or awaits a session.
    TooManySessions,
    /// The slot holds no session of that generation.
    NoOpenSession,
}

/// One slot: the session it holds, the link to close when it is closed,
/// whether an open is under way in it, and its generation.
pub struct SessionSlot<S, L> {
    pub session: Option<S>,
    pub ws_close: Option<L>,
    pub reserved: bool,
    pub generation: u64,
}

impl<S: Copy, L: Copy> SessionSlot<S, L> {
    /// A slot that holds nothing, at generation 0.
    pub fn empty() -> (r: SessionSlot<S, L>)
        ensures
            r == (SessionSlot::<S, L> {
                session: None,
                ws_close: None,
                reserved: false,
                generation: 0,
            }),
    {
        SessionSlot { session: None, ws_close: None, reserved: false, generation: 0 }
    }
}

/// A slot is free when it holds no session and no open is under way in it.
pub open spec fn is_free<S, L>(s: SessionSlot<S, L>) -> bool {
    s.session is None && !s.reserved
}

/// The generation after `g`, wrapping to 0 after `u64::MAX`.
pub open spec fn next_generation(g: u64) -> u64 {
    if g == u64::MAX {
        0
    } else {
        (g + 1) as u64
    }
}

/// The session that slot `i` holds for a handle of generation `g`: none when
/// the slot is empty or has been reopened since.
pub open spec fn session_of<S, L>(v: Seq<SessionSlot<S, L>>, i: int, g: u64) -> Option<S> {
    if v[i].generation == g {
        v[i].session
    } else {
        None
    }
}

/// The index of the lowest free slot at or after `from`, if any.
pub open spec fn first_free_from<S, L>(v: Seq<SessionSlot<S, L>>, from: int) -> Option<int>
    decreases v.len() - from,
{
    if from >= v.len() || from < 0 {
        None
    } else if is_free(v[from]) {
        Some(from)
    } else {
        first_free_from(v, from + 1)
    }
}

/// The index of the lowest free slot, if any.
pub open spec fn first_free<S, L>(v: Seq<SessionSlot<S, L>>) -> Option<int> {
    first_free_from(v, 0)
}

/// The table after slot `i` is reserved for an open: empty, reserved, at the
/// next generation.
pub open spec fn after_reserve<S, L>(v: Seq<SessionSlot<S, L>>, i: int) -> Seq<SessionSlot<S, L>> {
    v.update(
        i,
        SessionSlot {
            session: None,
            ws_close: None,
            reserved: true,
            generation: next_generation(v[i].generation),
        },
    )
}

/// The table after the open reserved in slot `i` completes with `s` and `l`.
pub open spec fn after_occupy<S, L>(v: Seq<SessionSlot<S, L>>, i: int, s: S, l: L) -> Seq<
    SessionSlot<S, L>,
> {
    v.update(
        i,
        SessionSlot { session: Some(s), ws_close: Some(l), reserved: false, generation: v[i].generation },
    )
}

/// The table after slot `i` is emptied (its generation stays).
pub open spec fn after_close<S, L>(v: Seq<SessionSlot<S, L>>, i: int) -> Seq<SessionSlot<S, L>> {
    v.update(
        i,
        SessionSlot { session: None, ws_close: None, reserved: false, generation: v[i].generation },
    )
}

/// The table of session slots.
pub struct SessionSlots<S, L> {
    slots: Vec<SessionSlot<S, L>>,
}

impl<S, L> View for SessionSlots<S, L> {
    type V = Seq<SessionSlot<S, L>>;

    closed spec fn view(&self) -> Seq<SessionSlot<S, L>> {
        self.slots@
    }
}

proof fn lemma_first_free_from<S, L>(v: Seq<SessionSlot<S, L>>, from: int)
    requires
        0 <= from,
    ensures
        first_free_from(v, from) matches Some(j) ==> from <= j < v.len() && is_free(v[j]) && (
        forall|k: int| from <= k < j ==> !is_free(#[trigger] v[k])),
        first_free_from(v, from) is None ==> forall|k: int|
            from <= k < v.len() ==> !is_free(#[trigger] v[k]),
    decreases v.len() - from,
{
    if from < v.len() && !is_free(v[from]) {
        lemma_first_free_from(v, from + 1);
    }
}

/// `first_free` is the lowest free slot, and is `None` exactly when every slot
/// holds a session or awaits one.
pub proof fn lemma_first_free<S, L>(v: Seq<SessionSlot<S, L>>)
    ensures
        first_free(v) matches Some(j) ==> 0 <= j < v.len() && is_free(v[j]) && (forall|k: int|
            0 <= k < j ==> !is_free(#[trigger] v[k])),
        first_free(v) is None <==> forall|k: int| 0 <= k < v.len() ==> !is_free(#[trigger] v[k]),
{
    lemma_first_free_from(v, 0);
}

impl<S: Copy, L: Copy> SessionSlots<S, L> {
    /// A table of `MAX_SESSIONS` empty slots.
    pub fn new() -> (r: SessionSlots<S, L>)
        ensures
            r@.len() == MAX_SESSIONS,
            forall|i: int|
                0 <= i < MAX_SESSIONS ==> #[trigger] r@[i] == (SessionSlot::<S, L> {
                    session: None,
                    ws_close: None,
                    reserved: false,
                    generation: 0,
                }),
    {
        let mut slots: Vec<SessionSlot<S, L>> = Vec::new();
        let mut i: usize = 0;
        while i < MAX_SESSIONS
            invariant
                i <= MAX_SESSIONS,
                slots@.len() == i,
                forall|k: int|
                    0 <= k < i ==> #[trigger] slots@[k] == (SessionSlot::<S, L> {
                        session: None,
                        ws_close: None,
                        reserved: false,
                        generation: 0,
                    }),
            decreases MAX_SESSIONS - i,
        {
            slots.push(SessionSlot::empty());
            i = i + 1;
        }
        SessionSlots { slots }
    }

    /// The number of slots.
    pub fn capacity(&self) -> (r: usize)
        ensures
            r == self@.len(),
    {
        self.slots.len()
    }

    /// The lowest free slot, if any.
    pub fn find_free_slot(&self) -> (r: Option<usize>)
        ensures
            r matches Some(i) ==> first_free(self@) == Some(i as int),
            r is None ==> first_free(self@) is None,
    {
        let n = self.slots.len();
        let mut i: usize = 0;
        while i < n
            invariant
                n == self@.len(),
                i <= n,
                first_free(self@) == first_free_from(self@, i as int),
            decreases n - i,
        {
            if self.slots[i].session.is_none() && !self.slots[i].reserved {
                return Some(i);
            }
            i = i + 1;
        }
        None
    }

    /// Reserves the lowest free slot for a session being opened and returns
    /// it with its new generation, or `TooManySessions` when no slot is free
    /// (the table is then unchanged).
    pub fn reserve(&mut self) -> (r: Result<(usize, u64), SlotError>)
        ensures
            r matches Ok((i, g)) ==> first_free(old(self)@) == Some(i as int) && g
                == next_generation(old(self)@[i as int].generation) && final(self)@ == after_reserve(
                old(self)@,
                i as int,
            ),
            r matches Err(e) ==> first_free(old(self)@) is None && e == SlotError::TooManySessions
                && final(self)@ == old(self)@,
    {
        match self.find_free_slot() {
            Some(i) => {
                proof {
                    lemma_first_free(self@);
                }
                let old_gen = self.slots[i].generation;
                let g: u64 = if old_gen == u64::MAX {
                    0
                } else {
                    old_gen + 1
                };
                self.slots[i] = SessionSlot { session: None, ws_close: None, reserved: true, generation: g };
                proof {
                    assert(self@ =~= after_reserve(old(self)@, i as int));
                }
                Ok((i, g))
            },
            None => Err(SlotError::TooManySessions),
        }
    }

    /// Whether slot `idx` holds a session for a handle of generation `g`.
    pub fn is_open(&self, idx: usize, g: u64) -> (r: bool)
        requires
            idx < self@.len(),
        ensures
            r == session_of(self@, idx as int, g) is Some,
    {
        self.slots[idx].generation == g && self.slots[idx].session.is_some()
    }

    /// The session in slot `idx` for a handle of generation `g`, or
    /// `NoOpenSession`.
    pub fn require_session(&self, idx: usize, g: u64) -> (r: Result<S, SlotError>)
        requires
            idx < self@.len(),
        ensures
            match session_of(self@, idx as int, g) {
                Some(s) => r == Ok::<S, SlotError>(s),
                None => r == Err::<S, SlotError>(SlotError::NoOpenSession),
            },
    {
        if self.slots[idx].generation != g {
            return Err(SlotError::NoOpenSession);
        }
        match self.slots[idx].session {
            Some(s) => Ok(s),
            None => Err(SlotError::NoOpenSession),
        }
    }

    /// Completes the open reserved in slot `idx` under generation `g`: puts
    /// `session`, closed through `link`, in it. Refused (`false`, nothing
    /// changed) unless that reservation is still pending.
    pub fn occupy(&mut self, idx: usize, g: u64, session: S, link: L) -> (r: bool)
        requires
            idx < old(self)@.len(),
        ensures
            r == (old(self)@[idx as int].reserved && old(self)@[idx as int].generation == g),
            r ==> final(self)@ == after_occupy(old(self)@, idx as int, session, link),
            !r ==> final(self)@ == old(self)@,
    {
        if !(self.slots[idx].reserved && self.slots[idx].generation == g) {
            return false;
        }
        self.slots[idx] = SessionSlot { session: Some(session), ws_close: Some(link), reserved: false, generation: g };
        assert(self@ =~= after_occupy(old(self)@, idx as int, session, link));
        true
    }

    /// Gives up the open reserved in slot `idx` under generation `g` (its
    /// link could not connect): the slot is free again. Nothing changes
    /// unless that reservation is still pending.
    pub fn release(&mut self, idx: usize, g: u64)
        requires
            idx < old(self)@.len(),
        ensures
            old(self)@[idx as int].reserved && old(self)@[idx as int].generation == g ==> final(self)@ == after_close(old(self)@, idx as int),
            !(old(self)@[idx as int].reserved && old(self)@[idx as int].generation == g)
                ==> final(self)@ == old(self)@,
    {
        if self.slots[idx].reserved && self.slots[idx].generation == g {
            self.slots[idx] = SessionSlot { session: None, ws_close: None, reserved: false, generation: g };
            assert(self@ =~= after_close(old(self)@, idx as int));
        }
    }

    /// Closes the session that slot `idx` holds for a handle of generation
    /// `g`: empties the slot and hands back the link to close, if it had one.
    /// A handle whose session is already closed, or whose slot was reopened
    /// since, changes nothing and gets `None`.
    pub fn close(&mut self, idx: usize, g: u64) -> (r: Option<L>)
        requires
            idx < old(self)@.len(),
        ensures
            session_of(old(self)@, idx as int, g) is Some ==> r == old(self)@[idx as int].ws_close
                && final(self)@ == after_close(old(self)@, idx as int),
            session_of(old(self)@, idx as int, g) is None ==> r is None && final(self)@ == old(self)@,
    {
        if !self.is_open(idx, g) {
            return None;
        }
        let link = self.slots[idx].ws_close;
        self.slots[idx] = SessionSlot { session: None, ws_close: None, reserved: false, generation: g };
        assert(self@ =~= after_close(old(self)@, idx as int));
        link
    }
}

/// Two opens in flight never share a slot: once the lowest free slot is
/// reserved, the next open gets another slot (or none).
pub proof fn lemma_reserved_slot_taken<S, L>(v: Seq<SessionSlot<S, L>>)
    requires
        first_free(v) is Some,
    ensures
        first_free(after_reserve(v, first_free(v)->0)) != first_free(v),
{
    let i = first_free(v)->0;
    lemma_first_free(v);
    let w = after_reserve(v, i);
    lemma_first_free(w);
    assert(!is_free(w[i]));
}

/// Each open of a slot is under a new generation: a handle to the session
/// that slot `i` held reaches nothing once it is closed, even when the slot
/// is reserved and filled again.
pub proof fn lemma_closed_handle_stays_closed<S, L>(
    v: Seq<SessionSlot<S, L>>,
    i: int,
    s: S,
    l: L,
)
    requires
        0 <= i < v.len(),
        session_of(v, i, v[i].generation) is Some,
    ensures
        ({
            let g = v[i].generation;
            let closed = after_close(v, i);
            let reopened = after_occupy(after_reserve(closed, i), i, s, l);
            &&& session_of(closed, i, g) is None
            &&& session_of(reopened, i, g) is None
            &&& session_of(reopened, i, next_generation(g)) == Some(s)
        }),
{
}

/// A closed slot can be opened again: after slot `i` is emptied, the lowest free
/// slot exists and is at most `i`.
pub proof fn lemma_close_frees<S, L>(v: Seq<SessionSlot<S, L>>, i: int)
    requires
        0 <= i < v.len(),
    ensures
        first_free(after_close(v, i)) matches Some(j) && j <= i,
{
    let w = after_close(v, i);
    lemma_first_free(w);
    assert(is_free(w[i]));
}

/// A session put in a slot is the one its handle reaches until it is closed.
pub proof fn lemma_occupy_then_require<S, L>(v: Seq<SessionSlot<S, L>>, i: int, s: S, l: L)
    requires
        0 <= i < v.len(),
    ensures
        session_of(after_occupy(v, i, s, l), i, v[i].generation) == Some(s),
        session_of(after_close(after_occupy(v, i, s, l), i), i, v[i].generation) is None,
{
}

} // verus!
