//! A cache of key expressions that must outlive the call that named them.
use vstd::prelude::*;

use crate::keyexpr::{keyexpr_is_valid, KeyExpr, KeyExprError};

verus! {

/// The cache after interning `s`: unchanged when `s` is already held, else `s`
/// appended.
pub open spec fn interned(entries: Seq<Seq<char>>, s: Seq<char>) -> Seq<Seq<char>> {
    if entries.contains(s) {
        entries
    } else {
        entries.push(s)
    }
}

/// No text is held twice.
pub open spec fn all_distinct(entries: Seq<Seq<char>>) -> bool {
    forall|i: int, j: int| 0 <= i < j < entries.len() ==> entries[i] != entries[j]
}

/// Interned key expressions, each held once; a handle is a position.
pub struct KeyExprCache {
    entries: Vec<KeyExpr>,
}

impl View for KeyExprCache {
    type V = Seq<Seq<char>>;

    closed spec fn view(&self) -> Seq<Seq<char>> {
        self.entries@.map_values(|k: KeyExpr| k@)
    }
}

impl KeyExprCache {
    /// An empty cache.
    pub fn new() -> (r: KeyExprCache)
        ensures
            r@ == Seq::<Seq<char>>::empty(),
            all_distinct(r@),
    {
        let r = KeyExprCache { entries: Vec::new() };
        assert(r@ =~= Seq::<Seq<char>>::empty());
        r
    }

    /// The number of interned key expressions.
    pub fn len(&self) -> (r: usize)
        ensures
            r == self@.len(),
    {
        self.entries.len()
    }

    /// The key expression behind handle `idx`.
    pub fn get(&self, idx: usize) -> (r: &KeyExpr)
        requires
            idx < self@.len(),
        ensures
            r@ == self@[idx as int],
    {
        &self.entries[idx]
    }

    /// Validates `s` and returns its handle, adding it when it is new.
    /// `Err(Invalid)` (cache unchanged) exactly when `s` is not a key expression.
    pub fn intern(&mut self, s: &str) -> (r: Result<usize, KeyExprError>)
        requires
            all_distinct(old(self)@),
        ensures
            r is Ok <==> keyexpr_is_valid(s@),
            r is Err ==> final(self)@ == old(self)@,
            r matches Ok(i) ==> {
                &&& final(self)@ == interned(old(self)@, s@)
                &&& i < final(self)@.len()
                &&& final(self)@[i as int] == s@
            },
            all_distinct(final(self)@),
    {
        let ke = match KeyExpr::new(s) {
            Ok(k) => k,
            Err(e) => {
                return Err(e);
            },
        };
        let n = self.entries.len();
        let mut i: usize = 0;
        while i < n
            invariant
                n == self.entries@.len(),
                i <= n,
                ke@ == s@,
                keyexpr_is_valid(s@),
                all_distinct(old(self)@),
                self@ == old(self)@,
                forall|k: int| 0 <= k < i ==> self@[k] != s@,
            decreases n - i,
        {
            if self.entries[i].is_text(s) {
                proof {
                    assert(self@[i as int] == s@);
                    assert(self@.contains(s@));
                }
                return Ok(i);
            }
            i = i + 1;
        }
        proof {
            assert(!self@.contains(s@));
        }
        let ghost before = self@;
        self.entries.push(ke);
        assert(self@ =~= before.push(s@));
        Ok(n)
    }
}

/// Interning is stable: interning a text a second time changes nothing, and the
/// text is then held.
pub proof fn lemma_intern_stable(entries: Seq<Seq<char>>, s: Seq<char>)
    ensures
        interned(interned(entries, s), s) == interned(entries, s),
        interned(entries, s).contains(s),
{
    if !entries.contains(s) {
        assert(entries.push(s)[entries.len() as int] == s);
    }
}

/// In a cache whose texts are distinct, one text has one handle.
pub proof fn lemma_handle_unique(entries: Seq<Seq<char>>, i: int, j: int)
    requires
        all_distinct(entries),
        0 <= i < entries.len(),
        0 <= j < entries.len(),
        entries[i] == entries[j],
    ensures
        i == j,
{
}

} // verus!
