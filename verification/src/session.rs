//! The bookkeeping of a session: the callbacks registered by id, with the key
//! expression each listens on, an optional deadline, and counters of
//! outstanding replies; and the allocator of ids.
use vstd::prelude::*;
use vstd::hash_map::HashMapWithView;

use crate::keyexpr::{keyexprs_intersect, KeyExpr};

use vstd::arithmetic::div_mod::{lemma_add_mod_noop, lemma_fundamental_div_mod_converse, lemma_small_mod};

verus! {

broadcast use vstd::std_specs::hash::axiom_u32_obeys_hash_table_key_model;

/// Errors of the session's bookkeeping.
#[derive(Debug, PartialEq, Eq, Structural, Clone, Copy)]
pub enum SessionError {
    /// A callback with this id is already registered.
    DuplicateId,
    /// No callback with this id is registered.
    UnknownId,
}

/// A registered callback: its id, the key expression it listens on, and the
/// time after which it is dropped, if any.
pub struct Registration {
    pub id: u32,
    pub ke: KeyExpr,
    pub deadline: Option<u64>,
}

/// The plain contents of a registration.
pub open spec fn reg_view(r: Registration) -> (u32, Seq<char>, Option<u64>) {
    (r.id, r.ke@, r.deadline)
}

/// No id is registered twice.
pub open spec fn ids_distinct(e: Seq<(u32, Seq<char>, Option<u64>)>) -> bool {
    forall|i: int, j: int| 0 <= i < j < e.len() ==> e[i].0 != e[j].0
}

/// Whether `id` is registered.
pub open spec fn is_registered(e: Seq<(u32, Seq<char>, Option<u64>)>, id: u32) -> bool {
    exists|i: int| 0 <= i < e.len() && e[i].0 == id
}

/// The registrations without those of `id`, in order.
pub open spec fn without_id(e: Seq<(u32, Seq<char>, Option<u64>)>, id: u32) -> Seq<
    (u32, Seq<char>, Option<u64>),
>
    decreases e.len(),
{
    if e.len() == 0 {
        e
    } else {
        let rest = without_id(e.drop_last(), id);
        if e.last().0 == id {
            rest
        } else {
            rest.push(e.last())
        }
    }
}

/// Whether a registration is still alive at time `now`: it has no deadline or
/// its deadline is later than `now`.
pub open spec fn alive_at(r: (u32, Seq<char>, Option<u64>), now: u64) -> bool {
    match r.2 {
        None => true,
        Some(d) => d > now,
    }
}

/// The registrations still alive at `now`, in order.
pub open spec fn alive_only(e: Seq<(u32, Seq<char>, Option<u64>)>, now: u64) -> Seq<
    (u32, Seq<char>, Option<u64>),
>
    decreases e.len(),
{
    if e.len() == 0 {
        e
    } else {
        let rest = alive_only(e.drop_last(), now);
        if alive_at(e.last(), now) {
            rest.push(e.last())
        } else {
            rest
        }
    }
}

/// The ids, in order, of the registrations whose key expression intersects `ke`.
pub open spec fn matching_ids(e: Seq<(u32, Seq<char>, Option<u64>)>, ke: Seq<char>) -> Seq<u32>
    decreases e.len(),
{
    if e.len() == 0 {
        Seq::<u32>::empty()
    } else {
        let rest = matching_ids(e.drop_last(), ke);
        if keyexprs_intersect(e.last().1, ke) {
            rest.push(e.last().0)
        } else {
            rest
        }
    }
}

/// The counter of `id` after one decrease: gone when it reaches zero.
pub open spec fn decreased(c: Map<u32, usize>, id: u32) -> Map<u32, usize> {
    if c.contains_key(id) {
        if c[id] <= 1 {
            c.remove(id)
        } else {
            c.insert(id, (c[id] - 1) as usize)
        }
    } else {
        c
    }
}

/// Whether one decrease of the counter of `id` brings it to zero.
pub open spec fn decrease_reaches_zero(c: Map<u32, usize>, id: u32) -> bool {
    c.contains_key(id) && c[id] <= 1
}

/// The counters after setting the counter of `id` to `n` (zero clears it).
pub open spec fn with_counter(c: Map<u32, usize>, id: u32, n: usize) -> Map<u32, usize> {
    if n == 0 {
        c.remove(id)
    } else {
        c.insert(id, n)
    }
}

proof fn lemma_without_id_props(e: Seq<(u32, Seq<char>, Option<u64>)>, id: u32)
    requires
        ids_distinct(e),
    ensures
        ids_distinct(without_id(e, id)),
        !is_registered(without_id(e, id), id),
        forall|x: u32| x != id ==> (is_registered(without_id(e, id), x) == is_registered(e, x)),
    decreases e.len(),
{
    if e.len() > 0 {
        let p = e.drop_last();
        assert(ids_distinct(p));
        lemma_without_id_props(p, id);
        let rest = without_id(p, id);
        assert forall|x: u32| x != id implies (is_registered(without_id(e, id), x)
            == is_registered(e, x)) by {
            if is_registered(e, x) {
                let i = choose|i: int| 0 <= i < e.len() && e[i].0 == x;
                if i < e.len() - 1 {
                    assert(p[i].0 == x);
                }
            }
            if is_registered(p, x) {
                let i = choose|i: int| 0 <= i < p.len() && p[i].0 == x;
                assert(e[i].0 == x);
            }
            if e.last().0 != id {
                let w = rest.push(e.last());
                if is_registered(w, x) {
                    let i = choose|i: int| 0 <= i < w.len() && w[i].0 == x;
                    if i < rest.len() {
                        assert(rest[i].0 == x);
                    } else {
                        assert(e[e.len() - 1].0 == x);
                    }
                }
                if is_registered(rest, x) {
                    let i = choose|i: int| 0 <= i < rest.len() && rest[i].0 == x;
                    assert(w[i].0 == x);
                }
                if e.last().0 == x {
                    assert(w[rest.len() as int].0 == x);
                }
            }
        }
        if e.last().0 != id {
            let w = rest.push(e.last());
            assert forall|i: int, j: int| 0 <= i < j < w.len() implies w[i].0 != w[j].0 by {
                if j == rest.len() {
                    assert(is_registered(rest, w[i].0));
                    if w[i].0 == e.last().0 {
                        assert(is_registered(p, w[i].0));
                        let k = choose|k: int| 0 <= k < p.len() && p[k].0 == w[i].0;
                        assert(e[k].0 == e[e.len() - 1].0);
                    }
                }
            }
            if is_registered(w, id) {
                let i = choose|i: int| 0 <= i < w.len() && w[i].0 == id;
                if i < rest.len() {
                    assert(rest[i].0 == id);
                }
            }
        }
    }
}

/// A registry of callbacks keyed by id, with counters of outstanding replies
/// keyed by request id.
pub struct Callbacks {
    entries: Vec<Registration>,
    counters: HashMapWithView<u32, usize>,
}

impl View for Callbacks {
    type V = (Seq<(u32, Seq<char>, Option<u64>)>, Map<u32, usize>);

    closed spec fn view(&self) -> (Seq<(u32, Seq<char>, Option<u64>)>, Map<u32, usize>) {
        (self.entries@.map_values(|r: Registration| reg_view(r)), self.counters@)
    }
}

impl Callbacks {
    /// The registry is well formed: no id is registered twice.
    pub open spec fn wf(&self) -> bool {
        ids_distinct(self@.0)
    }

    /// An empty registry.
    pub fn new() -> (r: Callbacks)
        ensures
            r@.0 == Seq::<(u32, Seq<char>, Option<u64>)>::empty(),
            r@.1 == Map::<u32, usize>::empty(),
            r.wf(),
    {
        let r = Callbacks { entries: Vec::new(), counters: HashMapWithView::new() };
        assert(r@.0 =~= Seq::<(u32, Seq<char>, Option<u64>)>::empty());
        r
    }

    fn find(&self, id: u32) -> (r: Option<usize>)
        ensures
            r matches Some(i) ==> i < self@.0.len() && self@.0[i as int].0 == id,
            r is None ==> !is_registered(self@.0, id),
    {
        let n = self.entries.len();
        let mut i: usize = 0;
        while i < n
            invariant
                n == self@.0.len(),
                i <= n,
                forall|k: int| 0 <= k < i ==> self@.0[k].0 != id,
            decreases n - i,
        {
            if self.entries[i].id == id {
                return Some(i);
            }
            i = i + 1;
        }
        None
    }

    /// Whether a callback with id `id` is registered.
    pub fn contains(&self, id: u32) -> (r: bool)
        ensures
            r == is_registered(self@.0, id),
    {
        self.find(id).is_some()
    }

    /// Registers callback `id` on `ke`, dropped after `deadline` if any.
    /// `Err(DuplicateId)`, registry unchanged, exactly when `id` is registered.
    pub fn insert(&mut self, id: u32, ke: KeyExpr, deadline: Option<u64>) -> (r: Result<
        (),
        SessionError,
    >)
        requires
            old(self).wf(),
        ensures
            final(self).wf(),
            r is Err <==> is_registered(old(self)@.0, id),
            r matches Err(e) ==> e == SessionError::DuplicateId && final(self)@ == old(self)@,
            r is Ok ==> final(self)@.0 == old(self)@.0.push((id, ke@, deadline)) && final(self)@.1 == old(self)@.1,
    {
        if self.find(id).is_some() {
            return Err(SessionError::DuplicateId);
        }
        let ghost before = self@.0;
        let ghost kv = ke@;
        self.entries.push(Registration { id, ke, deadline });
        assert(self@.0 =~= before.push((id, kv, deadline)));
        assert forall|i: int, j: int| 0 <= i < j < self@.0.len() implies self@.0[i].0
            != self@.0[j].0 by {
            if j == before.len() {
                assert(before[i].0 == self@.0[i].0);
            }
        }
        Ok(())
    }

    /// Withdraws callback `id`. `Err(UnknownId)`, registry unchanged, exactly
    /// when `id` is not registered.
    pub fn remove(&mut self, id: u32) -> (r: Result<(), SessionError>)
        requires
            old(self).wf(),
        ensures
            final(self).wf(),
            r is Err <==> !is_registered(old(self)@.0, id),
            r matches Err(e) ==> e == SessionError::UnknownId && final(self)@ == old(self)@,
            r is Ok ==> final(self)@.0 == without_id(old(self)@.0, id) && final(self)@.1 == old(self)@.1,
    {
        match self.find(id) {
            None => Err(SessionError::UnknownId),
            Some(i) => {
                let ghost before = self@.0;
                proof {
                    lemma_without_id_distinct_single(before, id, i as int);
                }
                let _removed = self.entries.remove(i);
                assert(self@.0 =~= before.remove(i as int));
                proof {
                    lemma_without_id_props(before, id);
                }
                Ok(())
            },
        }
    }

    /// Drops every callback whose deadline is not later than `now`.
    pub fn drop_timedout(&mut self, now: u64)
        requires
            old(self).wf(),
        ensures
            final(self).wf(),
            final(self)@.0 == alive_only(old(self)@.0, now),
            final(self)@.1 == old(self)@.1,
    {
        let n = self.entries.len();
        let mut kept: Vec<Registration> = Vec::new();
        let mut i: usize = 0;
        while i < n
            invariant
                n == self@.0.len(),
                i <= n,
                kept@.map_values(|r: Registration| reg_view(r)) == alive_only(
                    self@.0.take(i as int),
                    now,
                ),
                ids_distinct(self@.0),
            decreases n - i,
        {
            let r = &self.entries[i];
            proof {
                assert(self@.0.take(i + 1).drop_last() == self@.0.take(i as int));
                assert(self@.0[i as int] == reg_view(*r));
            }
            let alive = match r.deadline {
                None => true,
                Some(d) => d > now,
            };
            if alive {
                let ghost before = kept@.map_values(|x: Registration| reg_view(x));
                kept.push(Registration { id: r.id, ke: r.ke.duplicate(), deadline: r.deadline });
                assert(kept@.map_values(|x: Registration| reg_view(x)) =~= before.push(
                    self@.0[i as int],
                ));
            }
            i = i + 1;
        }
        assert(self@.0.take(n as int) == self@.0);
        proof {
            lemma_alive_only_distinct(self@.0, now);
        }
        self.entries = kept;
    }

    /// The ids, in registration order, of the callbacks whose key expression
    /// intersects `ke`.
    pub fn intersects(&self, ke: &KeyExpr) -> (r: Vec<u32>)
        ensures
            r@ == matching_ids(self@.0, ke@),
    {
        let n = self.entries.len();
        let mut out: Vec<u32> = Vec::new();
        let mut i: usize = 0;
        while i < n
            invariant
                n == self@.0.len(),
                i <= n,
                out@ == matching_ids(self@.0.take(i as int), ke@),
            decreases n - i,
        {
            proof {
                assert(self@.0.take(i + 1).drop_last() == self@.0.take(i as int));
            }
            if self.entries[i].ke.intersects(ke) {
                out.push(self.entries[i].id);
            }
            i = i + 1;
        }
        assert(self@.0.take(n as int) == self@.0);
        out
    }

    /// Sets the counter of request `rid` to `n`; zero clears it.
    pub fn set_counter(&mut self, rid: u32, n: usize)
        requires
            old(self).wf(),
        ensures
            final(self).wf(),
            final(self)@.0 == old(self)@.0,
            final(self)@.1 == with_counter(old(self)@.1, rid, n),
    {
        if n == 0 {
            let _ = self.counters.remove(&rid);
        } else {
            self.counters.insert(rid, n);
        }
    }

    /// The counter of request `rid`, if set.
    pub fn counter(&self, rid: u32) -> (r: Option<usize>)
        ensures
            r matches Some(c) ==> self@.1.contains_key(rid) && self@.1[rid] == c,
            r is None ==> !self@.1.contains_key(rid),
    {
        match self.counters.get(&rid) {
            Some(c) => Some(*c),
            None => None,
        }
    }

    /// Decreases the counter of request `rid`; true exactly when a counter was
    /// set and has now reached zero (it is then cleared).
    pub fn decrease(&mut self, rid: u32) -> (r: bool)
        requires
            old(self).wf(),
        ensures
            final(self).wf(),
            r == decrease_reaches_zero(old(self)@.1, rid),
            final(self)@.0 == old(self)@.0,
            final(self)@.1 == decreased(old(self)@.1, rid),
    {
        match self.counters.get(&rid) {
            None => false,
            Some(c) => {
                let c: usize = *c;
                if c <= 1 {
                    let _ = self.counters.remove(&rid);
                    true
                } else {
                    self.counters.insert(rid, c - 1);
                    false
                }
            },
        }
    }
}

proof fn lemma_without_id_distinct_single(e: Seq<(u32, Seq<char>, Option<u64>)>, id: u32, i: int)
    requires
        ids_distinct(e),
        0 <= i < e.len(),
        e[i].0 == id,
    ensures
        without_id(e, id) == e.remove(i),
    decreases e.len(),
{
    let p = e.drop_last();
    if i == e.len() - 1 {
        lemma_without_id_absent(p, id);
        assert(e.remove(i) =~= p);
    } else {
        lemma_without_id_distinct_single(p, id, i);
        assert(e.last().0 != id);
        assert(e.remove(i) =~= p.remove(i).push(e.last()));
    }
}

proof fn lemma_without_id_absent(e: Seq<(u32, Seq<char>, Option<u64>)>, id: u32)
    requires
        forall|k: int| 0 <= k < e.len() ==> e[k].0 != id,
    ensures
        without_id(e, id) == e,
    decreases e.len(),
{
    if e.len() > 0 {
        lemma_without_id_absent(e.drop_last(), id);
        assert(e.drop_last().push(e.last()) =~= e);
    }
}

proof fn lemma_alive_only_distinct(e: Seq<(u32, Seq<char>, Option<u64>)>, now: u64)
    requires
        ids_distinct(e),
    ensures
        ids_distinct(alive_only(e, now)),
        forall|x: u32| is_registered(alive_only(e, now), x) ==> is_registered(e, x),
    decreases e.len(),
{
    if e.len() > 0 {
        let p = e.drop_last();
        lemma_alive_only_distinct(p, now);
        let rest = alive_only(p, now);
        assert forall|x: u32| is_registered(rest, x) implies is_registered(e, x) by {
            let k = choose|k: int| 0 <= k < rest.len() && rest[k].0 == x;
            assert(is_registered(p, x));
            let m = choose|m: int| 0 <= m < p.len() && p[m].0 == x;
            assert(e[m].0 == x);
        }
        if alive_at(e.last(), now) {
            let w = rest.push(e.last());
            assert forall|i: int, j: int| 0 <= i < j < w.len() implies w[i].0 != w[j].0 by {
                if j == rest.len() {
                    assert(is_registered(rest, w[i].0));
                    if w[i].0 == e.last().0 {
                        assert(is_registered(p, w[i].0));
                        let k = choose|k: int| 0 <= k < p.len() && p[k].0 == w[i].0;
                        assert(e[k].0 == e[e.len() - 1].0);
                    }
                }
            }
            assert forall|x: u32| is_registered(w, x) implies is_registered(e, x) by {
                let k = choose|k: int| 0 <= k < w.len() && w[k].0 == x;
                if k < rest.len() {
                    assert(rest[k].0 == x);
                } else {
                    assert(e[e.len() - 1].0 == x);
                }
            }
        }
    }
}

/// The id after `id`: ids count up, wrapping to 0 after `u32::MAX`.
pub open spec fn id_after(id: u32) -> u32 {
    if id == u32::MAX {
        0
    } else {
        (id + 1) as u32
    }
}

/// The source of a session's ids. It hands them out counting up from 0, and
/// keeps (as ghost state) the set of ids handed out so far and whether the
/// count has wrapped past `u32::MAX`: until it has, every id is fresh.
pub struct IdAllocator {
    next: u32,
    wrapped: Ghost<bool>,
    issued: Ghost<Set<u32>>,
}

impl IdAllocator {
    /// The id the next call of `next` hands out.
    pub closed spec fn next_value(&self) -> u32 {
        self.next
    }

    /// The ids handed out so far.
    pub closed spec fn issued(&self) -> Set<u32> {
        self.issued@
    }

    /// Whether the count has wrapped past `u32::MAX`.
    pub closed spec fn has_wrapped(&self) -> bool {
        self.wrapped@
    }

    /// Until the count wraps, the ids handed out are exactly those below the
    /// next one.
    pub closed spec fn wf(&self) -> bool {
        !self.wrapped@ ==> forall|x: u32| #[trigger] self.issued@.contains(x) <==> x < self.next
    }

    /// `self` is `before` after one id was handed out.
    pub open spec fn advanced_from(&self, before: IdAllocator) -> bool {
        &&& self.next_value() == id_after(before.next_value())
        &&& self.issued() == before.issued().insert(before.next_value())
        &&& self.has_wrapped() == (before.has_wrapped() || before.next_value() == u32::MAX)
    }

    /// An allocator that has handed out nothing; the first id is 0.
    pub fn new() -> (r: IdAllocator)
        ensures
            r.wf(),
            r.next_value() == 0,
            r.issued() == Set::<u32>::empty(),
            !r.has_wrapped(),
    {
        IdAllocator { next: 0, wrapped: Ghost(false), issued: Ghost(Set::empty()) }
    }

    /// The id the next call of `next` hands out.
    pub fn peek(&self) -> (r: u32)
        ensures
            r == self.next_value(),
    {
        self.next
    }

    /// Hands out the next id. Until the count has wrapped, it was never handed
    /// out before.
    pub fn next(&mut self) -> (r: u32)
        requires
            old(self).wf(),
        ensures
            final(self).wf(),
            r == old(self).next_value(),
            final(self).advanced_from(*old(self)),
            !old(self).has_wrapped() ==> !old(self).issued().contains(r),
    {
        let r = self.next;
        proof {
            self.issued@ = self.issued@.insert(r);
            self.wrapped@ = self.wrapped@ || r == u32::MAX;
        }
        self.next = if r == u32::MAX {
            0
        } else {
            r + 1
        };
        r
    }
}

/// Ids are fresh until the count wraps: of two ids handed out one after the
/// other by a well-formed allocator that has not wrapped, the second differs
/// from the first and from every id handed out before.
pub proof fn lemma_ids_fresh(a: IdAllocator, b: IdAllocator, c: IdAllocator)
    requires
        a.wf(),
        b.wf(),
        b.advanced_from(a),
        c.advanced_from(b),
        !b.has_wrapped(),
    ensures
        !a.issued().contains(b.next_value()),
        b.next_value() != a.next_value(),
        c.issued().contains(a.next_value()) && c.issued().contains(b.next_value()),
{
    assert(b.issued().contains(a.next_value()));
}

/// Step `i` of `run` is one draw: `run[i + 1]` is `run[i]` after it handed
/// out the id `run[i].next_value()`.
pub open spec fn drawn_at(run: Seq<IdAllocator>, i: int) -> bool {
    run[i + 1].advanced_from(run[i])
}

/// `run` is the successive states of an allocator, one draw apart.
pub open spec fn is_draw_run(run: Seq<IdAllocator>) -> bool {
    forall|i: int| 0 <= i < run.len() - 1 ==> #[trigger] drawn_at(run, i)
}

/// `j - i` draws after state `i`, the next id is `j - i` further, modulo 2^32.
proof fn lemma_run_offset(run: Seq<IdAllocator>, i: int, j: int)
    requires
        is_draw_run(run),
        0 <= i <= j < run.len(),
    ensures
        run[j].next_value() == (run[i].next_value() + (j - i)) % 0x1_0000_0000,
    decreases j - i,
{
    let m: int = 0x1_0000_0000;
    if j == i {
        lemma_small_mod(run[i].next_value() as nat, m as nat);
    } else {
        lemma_run_offset(run, i, j - 1);
        assert(drawn_at(run, j - 1));
        let x: int = run[i].next_value() + (j - 1 - i);
        let v: int = x % m;
        assert(run[j - 1].next_value() == v);
        lemma_add_mod_noop(x, 1, m);
        lemma_small_mod(1, m as nat);
        assert((v + 1) % m == (x + 1) % m);
        if v == m - 1 {
            assert(run[j].next_value() == 0);
            assert((v + 1) % m == 0);
        } else {
            lemma_small_mod((v + 1) as nat, m as nat);
        }
    }
}

/// Ids are fresh within any run of fewer than 2^32 draws: two ids drawn
/// from one allocator, at most `u32::MAX` draws apart, differ, whatever the
/// count started at and even across its wrap past `u32::MAX`.
pub proof fn lemma_ids_distinct_in_run(run: Seq<IdAllocator>, i: int, j: int)
    requires
        is_draw_run(run),
        0 <= i < j < run.len(),
        j - i < 0x1_0000_0000,
    ensures
        run[i].next_value() != run[j].next_value(),
{
    let m: int = 0x1_0000_0000;
    let a: int = run[i].next_value() as int;
    let d: int = j - i;
    lemma_run_offset(run, i, j);
    if a + d < m {
        lemma_small_mod((a + d) as nat, m as nat);
    } else {
        lemma_fundamental_div_mod_converse(a + d, m, 1, a + d - m);
    }
}

/// The bookkeeping of one session.
pub struct SessionState {
    /// Where the session's ids come from.
    pub ids: IdAllocator,
    pub subscribers: Callbacks,
    pub gets: Callbacks,
    pub queryables: Callbacks,
}

impl SessionState {
    /// All three registries and the id source are well formed.
    pub open spec fn wf(&self) -> bool {
        self.ids.wf() && self.subscribers.wf() && self.gets.wf() && self.queryables.wf()
    }

    /// A session with nothing registered; ids start at 0.
    pub fn new() -> (r: SessionState)
        ensures
            r.wf(),
            r.ids.next_value() == 0,
            r.ids.issued() == Set::<u32>::empty(),
            !r.ids.has_wrapped(),
            r.subscribers@.0.len() == 0,
            r.gets@.0.len() == 0,
            r.queryables@.0.len() == 0,
            r.subscribers@.1 == Map::<u32, usize>::empty(),
            r.gets@.1 == Map::<u32, usize>::empty(),
            r.queryables@.1 == Map::<u32, usize>::empty(),
    {
        SessionState {
            ids: IdAllocator::new(),
            subscribers: Callbacks::new(),
            gets: Callbacks::new(),
            queryables: Callbacks::new(),
        }
    }

    /// Hands out the session's next id (see `IdAllocator::next`).
    pub fn next(&mut self) -> (r: u32)
        requires
            old(self).wf(),
        ensures
            final(self).wf(),
            r == old(self).ids.next_value(),
            final(self).ids.advanced_from(old(self).ids),
            !old(self).ids.has_wrapped() ==> !old(self).ids.issued().contains(r),
            final(self).subscribers == old(self).subscribers,
            final(self).gets == old(self).gets,
            final(self).queryables == old(self).queryables,
    {
        self.ids.next()
    }
}

} // verus!
