//! Key expressions: validation, intersection and inclusion.
use vstd::prelude::*;
use vstd::string::StringSliceAdditionalSpecFns;

verus! {

/// Whether `s` is a canonical key expression, as decided by
/// `zenoh_keyexpr::keyexpr::new`.
pub uninterp spec fn keyexpr_is_valid(s: Seq<char>) -> bool;

/// Whether the key expressions `a` and `b` intersect, as decided by
/// `zenoh_keyexpr::keyexpr::intersects`.
pub uninterp spec fn keyexprs_intersect(a: Seq<char>, b: Seq<char>) -> bool;

/// Calls `zenoh_keyexpr::keyexpr::new` (the `TryFrom<&str>` conversion) and
/// reports whether it succeeded. Claimed: the answer is `keyexpr_is_valid` of
/// the text, and it is the byte grammar `valid_keyexpr_bytes` that the
/// conversion's scan of the text's bytes checks (no empty chunk or trailing
/// `/`, `*` only as a whole `*` or `**` chunk or after `$`, no `*` or `**`
/// chunk after `**`, `$` only in `$*`, never `$*$` nor a lone `$*` chunk, no
/// `#` or `?`).
#[verifier::external_body]
fn keyexpr_check(s: &str) -> (valid: bool)
    ensures
        valid == keyexpr_is_valid(s@),
        valid == valid_keyexpr_bytes(s.spec_bytes()),
{
    <&zenoh_keyexpr::keyexpr>::try_from(s).is_ok()
}

/// Calls `zenoh_keyexpr::keyexpr::intersects` on two valid key expressions.
/// Claimed: the answer is `keyexprs_intersect` of the two texts; it does not
/// depend on their order (the documentation defines intersection as having a
/// key in common, and the source treats both sides alike); it is `true` when
/// the two texts are equal (the source returns early on equal bytes); and it
/// is `true` when some key is matched by both (the documented definition, in
/// the direction the source's search, which tries every way a wildcard can
/// be taken, bears out). That it is `false` when no key is shared is left
/// unsaid: the source answers `true` on two equal texts even when no key
/// matches them, as for `@a$*` (a verbatim chunk is matched only by itself,
/// and no key holds `$`).
#[verifier::external_body]
fn keyexpr_intersects(a: &str, b: &str) -> (r: bool)
    requires
        keyexpr_is_valid(a@),
        keyexpr_is_valid(b@),
    ensures
        r == keyexprs_intersect(a@, b@),
        r == keyexprs_intersect(b@, a@),
        a@ == b@ ==> r,
        share_a_key(split_chunks(a.spec_bytes()), split_chunks(b.spec_bytes())) ==> r,
{
    match (<&zenoh_keyexpr::keyexpr>::try_from(a), <&zenoh_keyexpr::keyexpr>::try_from(b)) {
        (Ok(ka), Ok(kb)) => ka.intersects(kb),
        _ => false,
    }
}

/// Returns true if key expression `a` intersects `b` (they could match the same
/// resource). Invalid key expressions intersect nothing; the answer does not
/// depend on the order of the two; a valid key expression intersects itself;
/// two valid key expressions that share a key intersect.
pub fn ke_intersects(a: &str, b: &str) -> (r: bool)
    ensures
        r == (keyexpr_is_valid(a@) && keyexpr_is_valid(b@) && keyexprs_intersect(a@, b@)),
        r == (keyexpr_is_valid(a@) && keyexpr_is_valid(b@) && keyexprs_intersect(b@, a@)),
        a@ == b@ ==> r == keyexpr_is_valid(a@),
        keyexpr_is_valid(a@) && keyexpr_is_valid(b@) && share_a_key(
            split_chunks(a.spec_bytes()),
            split_chunks(b.spec_bytes()),
        ) ==> r,
{
    if keyexpr_check(a) && keyexpr_check(b) {
        keyexpr_intersects(a, b)
    } else {
        false
    }
}


/// The separator between the chunks of a key expression.
pub const CHUNK_SEPARATOR: u8 = 0x2f;

/// The chunk `*`: any one chunk that is not verbatim.
pub open spec fn single_star() -> Seq<u8> {
    seq![0x2au8]
}

/// The chunk `**`: any number of chunks, none of them verbatim.
pub open spec fn double_star() -> Seq<u8> {
    seq![0x2au8, 0x2au8]
}

/// The in-chunk wildcard `$*`: any run of bytes.
pub open spec fn star_dsl() -> Seq<u8> {
    seq![0x24u8, 0x2au8]
}

/// A verbatim chunk starts with `@`; it is matched only by itself, never by
/// a wildcard.
pub open spec fn is_verbatim(c: Seq<u8>) -> bool {
    c.len() > 0 && c[0] == 0x40u8
}

/// Whether the chunk pattern `p` starts with the wildcard `$*`.
pub open spec fn starts_with_star(p: Seq<u8>) -> bool {
    p.len() >= 2 && p[0] == 0x24u8 && p[1] == 0x2au8
}

/// The chunk `*` read as the equivalent in-chunk pattern `$*`.
pub open spec fn chunk_pattern(c: Seq<u8>) -> Seq<u8> {
    if c == single_star() {
        star_dsl()
    } else {
        c
    }
}

/// Whether the bytes `s` are matched by the chunk pattern `p`, in which each
/// `$*` stands for any run of bytes and every other byte for itself.
pub open spec fn glob(p: Seq<u8>, s: Seq<u8>) -> bool
    decreases p.len() + s.len(),
{
    if p.len() == 0 {
        s.len() == 0
    } else if starts_with_star(p) {
        glob(p.skip(2), s) || (s.len() > 0 && glob(p, s.skip(1)))
    } else {
        s.len() > 0 && p[0] == s[0] && glob(p.skip(1), s.skip(1))
    }
}

/// Whether the chunk `c` of a key is matched by the chunk pattern `p` (not
/// `**`): a verbatim chunk only by itself, a verbatim pattern only itself,
/// otherwise as `glob` reads `p` (with `*` as `$*`).
pub open spec fn chunk_matches(p: Seq<u8>, c: Seq<u8>) -> bool {
    if is_verbatim(p) || is_verbatim(c) {
        p == c
    } else {
        glob(chunk_pattern(p), c)
    }
}

/// Whether the key `k` (its chunks) is matched by the key expression `a`
/// (its chunks): `**` matches any number of chunks that are not verbatim,
/// every other chunk of `a` matches one chunk of `k` by `chunk_matches`.
pub open spec fn matches_key(a: Seq<Seq<u8>>, k: Seq<Seq<u8>>) -> bool
    decreases a.len() + k.len(),
{
    if a.len() == 0 {
        k.len() == 0
    } else if a[0] == double_star() {
        matches_key(a.drop_first(), k) || (k.len() > 0 && !is_verbatim(k[0]) && matches_key(
            a,
            k.drop_first(),
        ))
    } else {
        k.len() > 0 && chunk_matches(a[0], k[0]) && matches_key(a.drop_first(), k.drop_first())
    }
}

/// A key: none of its chunks is `*` or `**` or holds a `$`.
pub open spec fn is_key(k: Seq<Seq<u8>>) -> bool {
    forall|i: int|
        0 <= i < k.len() ==> #[trigger] k[i] != single_star() && k[i] != double_star() && !k[i].contains(
            0x24u8,
        )
}

/// Whether the chunk pattern `p` covers the chunk pattern `q`, both read with
/// `$*` as the wildcard: a `$*` of `p` takes the empty run, or one byte of
/// `q`, or a `$*` of `q`; any other byte must meet the same byte.
pub open spec fn pattern_includes(p: Seq<u8>, q: Seq<u8>) -> bool
    decreases p.len() + q.len(),
{
    if p.len() == 0 {
        q.len() == 0
    } else if starts_with_star(p) {
        pattern_includes(p.skip(2), q) || (q.len() > 0 && pattern_includes(
            p,
            if starts_with_star(q) {
                q.skip(2)
            } else {
                q.skip(1)
            },
        ))
    } else {
        q.len() > 0 && !starts_with_star(q) && p[0] == q[0] && pattern_includes(p.skip(1), q.skip(1))
    }
}

/// Whether the chunk `p` of a key expression covers its chunk `q` (neither
/// `**`): a verbatim chunk only covers or is covered by itself; otherwise by
/// `pattern_includes`, with `*` read as `$*`.
pub open spec fn chunk_includes(p: Seq<u8>, q: Seq<u8>) -> bool {
    if is_verbatim(p) || is_verbatim(q) {
        p == q
    } else {
        pattern_includes(chunk_pattern(p), chunk_pattern(q))
    }
}

/// Whether the key expression `a` covers the key expression `b`, chunk by
/// chunk: a `**` of `a` takes nothing, or a chunk of `b` that is not
/// verbatim; any other chunk of `a` covers one chunk of `b` that is not
/// `**`, by `chunk_includes`.
pub open spec fn chunks_include(a: Seq<Seq<u8>>, b: Seq<Seq<u8>>) -> bool
    decreases a.len() + b.len(),
{
    if a.len() == 0 {
        b.len() == 0
    } else if a[0] == double_star() {
        chunks_include(a.drop_first(), b) || (b.len() > 0 && !is_verbatim(b[0]) && chunks_include(
            a,
            b.drop_first(),
        ))
    } else {
        b.len() > 0 && b[0] != double_star() && chunk_includes(a[0], b[0]) && chunks_include(
            a.drop_first(),
            b.drop_first(),
        )
    }
}

/// The chunks of `s` cut at every `/`, as `str::split('/')` gives them: there is
/// always at least one chunk, and consecutive or trailing separators give empty
/// chunks.
pub open spec fn split_chunks(s: Seq<u8>) -> Seq<Seq<u8>>
    decreases s.len(),
{
    if s.len() == 0 {
        seq![Seq::<u8>::empty()]
    } else {
        let prev = split_chunks(s.drop_last());
        if s.last() == CHUNK_SEPARATOR {
            prev.push(Seq::<u8>::empty())
        } else {
            prev.update(prev.len() - 1, prev.last().push(s.last()))
        }
    }
}

/// The byte contents of a list of chunks.
pub open spec fn chunks_view(v: Seq<Vec<u8>>) -> Seq<Seq<u8>> {
    v.map_values(|c: Vec<u8>| c@)
}

proof fn lemma_split_chunks_nonempty(s: Seq<u8>)
    ensures
        split_chunks(s).len() >= 1,
    decreases s.len(),
{
    if s.len() > 0 {
        lemma_split_chunks_nonempty(s.drop_last());
    }
}

/// Cuts `s` at every `/` into its chunks.
pub fn split_chunks_of(s: &[u8]) -> (chunks: Vec<Vec<u8>>)
    ensures
        chunks_view(chunks@) == split_chunks(s@),
{
    let mut chunks: Vec<Vec<u8>> = Vec::new();
    let mut cur: Vec<u8> = Vec::new();
    let mut i: usize = 0;
    while i < s.len()
        invariant
            i <= s.len(),
            chunks_view(chunks@).push(cur@) == split_chunks(s@.take(i as int)),
        decreases s.len() - i,
    {
        let c = s[i];
        proof {
            assert(s@.take(i + 1).drop_last() == s@.take(i as int));
            lemma_split_chunks_nonempty(s@.take(i as int));
        }
        if c == CHUNK_SEPARATOR {
            chunks.push(cur);
            cur = Vec::new();
            assert(chunks_view(chunks@).push(cur@) == chunks_view(chunks@.drop_last()).push(
                chunks@.last()@,
            ).push(Seq::<u8>::empty()));
        } else {
            let ghost old_cur = cur@;
            cur.push(c);
            assert(chunks_view(chunks@).push(cur@) == chunks_view(chunks@).push(old_cur).update(
                chunks@.len() as int,
                old_cur.push(c),
            ));
        }
        i = i + 1;
    }
    assert(s@.take(s.len() as int) == s@);
    chunks.push(cur);
    assert(chunks_view(chunks@) == chunks_view(chunks@.drop_last()).push(chunks@.last()@));
    chunks
}


/// Whether two byte strings are equal.
pub fn bytes_equal(a: &[u8], b: &[u8]) -> (r: bool)
    ensures
        r == (a@ == b@),
{
    if a.len() != b.len() {
        return false;
    }
    let mut i: usize = 0;
    while i < a.len()
        invariant
            a.len() == b.len(),
            i <= a.len(),
            forall|k: int| 0 <= k < i ==> a@[k] == b@[k],
        decreases a.len() - i,
    {
        if a[i] != b[i] {
            return false;
        }
        i = i + 1;
    }
    assert(a@ == b@);
    true
}

fn is_single_star(c: &[u8]) -> (r: bool)
    ensures
        r == (c@ == single_star()),
{
    let r = c.len() == 1 && c[0] == 0x2au8;
    proof {
        if c.len() == 1 && c[0] == 0x2au8 {
            assert(c@ =~= single_star());
        }
    }
    r
}

fn is_double_star(c: &[u8]) -> (r: bool)
    ensures
        r == (c@ == double_star()),
{
    let r = c.len() == 2 && c[0] == 0x2au8 && c[1] == 0x2au8;
    proof {
        if c.len() == 2 && c[0] == 0x2au8 && c[1] == 0x2au8 {
            assert(c@ =~= double_star());
        }
    }
    r
}

fn is_verbatim_chunk(c: &[u8]) -> (r: bool)
    ensures
        r == is_verbatim(c@),
{
    c.len() > 0 && c[0] == 0x40u8
}

fn starts_with_star_at(p: &[u8], i: usize) -> (r: bool)
    requires
        i <= p.len(),
    ensures
        r == starts_with_star(p@.skip(i as int)),
{
    p.len() - i >= 2 && p[i] == 0x24u8 && p[i + 1] == 0x2au8
}

/// Whether the pattern `p[i..]` covers the pattern `q[j..]`.
fn pattern_includes_from(p: &[u8], i: usize, q: &[u8], j: usize) -> (r: bool)
    requires
        i <= p.len(),
        j <= q.len(),
    ensures
        r == pattern_includes(p@.skip(i as int), q@.skip(j as int)),
    decreases p.len() - i + q.len() - j,
{
    let ghost sp = p@.skip(i as int);
    let ghost sq = q@.skip(j as int);
    if i == p.len() {
        return j == q.len();
    }
    if starts_with_star_at(p, i) {
        proof {
            assert(sp.skip(2) =~= p@.skip(i + 2));
        }
        if pattern_includes_from(p, i + 2, q, j) {
            return true;
        }
        if j == q.len() {
            return false;
        }
        if starts_with_star_at(q, j) {
            proof {
                assert(sq.skip(2) =~= q@.skip(j + 2));
            }
            pattern_includes_from(p, i, q, j + 2)
        } else {
            proof {
                assert(sq.skip(1) =~= q@.skip(j + 1));
            }
            pattern_includes_from(p, i, q, j + 1)
        }
    } else {
        if j == q.len() || starts_with_star_at(q, j) || p[i] != q[j] {
            return false;
        }
        proof {
            assert(sp.skip(1) =~= p@.skip(i + 1));
            assert(sq.skip(1) =~= q@.skip(j + 1));
        }
        pattern_includes_from(p, i + 1, q, j + 1)
    }
}

/// Whether the chunk `p` covers the chunk `q` (see `chunk_includes`).
fn chunk_includes_exec(p: &[u8], q: &[u8]) -> (r: bool)
    ensures
        r == chunk_includes(p@, q@),
{
    if is_verbatim_chunk(p) || is_verbatim_chunk(q) {
        return bytes_equal(p, q);
    }
    let star: Vec<u8> = vec![0x24u8, 0x2au8];
    proof {
        assert(star@ =~= star_dsl());
    }
    let pp: &[u8] = if is_single_star(p) {
        star.as_slice()
    } else {
        p
    };
    let qq: &[u8] = if is_single_star(q) {
        star.as_slice()
    } else {
        q
    };
    proof {
        assert(pp@.skip(0) =~= pp@);
        assert(qq@.skip(0) =~= qq@);
    }
    pattern_includes_from(pp, 0, qq, 0)
}

proof fn lemma_chunks_view_skip(v: Seq<Vec<u8>>, i: int)
    requires
        0 <= i < v.len(),
    ensures
        chunks_view(v).skip(i).len() > 0,
        chunks_view(v).skip(i)[0] == v[i]@,
        chunks_view(v).skip(i).drop_first() == chunks_view(v).skip(i + 1),
{
    assert(chunks_view(v).skip(i).drop_first() =~= chunks_view(v).skip(i + 1));
}

/// Whether `a[i..]` covers `b[j..]` chunk by chunk.
fn includes_from(a: &Vec<Vec<u8>>, i: usize, b: &Vec<Vec<u8>>, j: usize) -> (r: bool)
    requires
        i <= a.len(),
        j <= b.len(),
    ensures
        r == chunks_include(chunks_view(a@).skip(i as int), chunks_view(b@).skip(j as int)),
    decreases a.len() - i + b.len() - j,
{
    if i == a.len() {
        return j == b.len();
    }
    proof {
        lemma_chunks_view_skip(a@, i as int);
        if j < b.len() {
            lemma_chunks_view_skip(b@, j as int);
        }
    }
    if is_double_star(a[i].as_slice()) {
        if includes_from(a, i + 1, b, j) {
            true
        } else if j < b.len() && !is_verbatim_chunk(b[j].as_slice()) {
            includes_from(a, i, b, j + 1)
        } else {
            false
        }
    } else if j == b.len() || is_double_star(b[j].as_slice()) {
        false
    } else if chunk_includes_exec(a[i].as_slice(), b[j].as_slice()) {
        includes_from(a, i + 1, b, j + 1)
    } else {
        false
    }
}

/// Chunk-level inclusion: whether the key expression with chunks `a` covers
/// the one with chunks `b` (see `chunks_include`).
pub fn ke_includes_chunks(a: &Vec<Vec<u8>>, b: &Vec<Vec<u8>>) -> (r: bool)
    ensures
        r == chunks_include(chunks_view(a@), chunks_view(b@)),
{
    assert(chunks_view(a@).skip(0) == chunks_view(a@));
    assert(chunks_view(b@).skip(0) == chunks_view(b@));
    includes_from(a, 0, b, 0)
}

/// Returns true if key expression `a` includes all resources matched by `b`:
/// both must be valid, and the chunks of `a` must cover the chunks of `b`
/// (`chunks_include`; see `lemma_includes_sound` for what that guarantees).
pub fn ke_includes(a: &str, b: &str) -> (r: bool)
    ensures
        r == (keyexpr_is_valid(a@) && keyexpr_is_valid(b@) && chunks_include(
            split_chunks(a.spec_bytes()),
            split_chunks(b.spec_bytes()),
        )),
        r ==> valid_keyexpr_bytes(a.spec_bytes()) && valid_keyexpr_bytes(b.spec_bytes()),
{
    if !keyexpr_check(a) || !keyexpr_check(b) {
        return false;
    }
    let ab = a.as_bytes();
    let bb = b.as_bytes();
    if bytes_equal(ab, bb) {
        proof {
            lemma_chunks_include_reflexive(split_chunks(ab@));
        }
        return true;
    }
    let a_chunks = split_chunks_of(ab);
    let b_chunks = split_chunks_of(bb);
    ke_includes_chunks(&a_chunks, &b_chunks)
}

proof fn lemma_pattern_includes_reflexive(p: Seq<u8>)
    ensures
        pattern_includes(p, p),
    decreases p.len(),
{
    if p.len() > 0 {
        if starts_with_star(p) {
            lemma_pattern_includes_reflexive(p.skip(2));
            assert(pattern_includes(p, p.skip(2)));
        } else {
            lemma_pattern_includes_reflexive(p.skip(1));
        }
    }
}

proof fn lemma_pattern_includes_sound(p: Seq<u8>, q: Seq<u8>, s: Seq<u8>)
    requires
        pattern_includes(p, q),
        glob(q, s),
    ensures
        glob(p, s),
    decreases p.len() + q.len() + s.len(),
{
    if p.len() == 0 {
    } else if starts_with_star(p) {
        if pattern_includes(p.skip(2), q) {
            lemma_pattern_includes_sound(p.skip(2), q, s);
        } else if starts_with_star(q) {
            if glob(q.skip(2), s) {
                lemma_pattern_includes_sound(p, q.skip(2), s);
            } else {
                lemma_pattern_includes_sound(p, q, s.skip(1));
            }
        } else {
            lemma_pattern_includes_sound(p, q.skip(1), s.skip(1));
        }
    } else {
        lemma_pattern_includes_sound(p.skip(1), q.skip(1), s.skip(1));
    }
}

proof fn lemma_no_dollar_skip(s: Seq<u8>, n: int)
    requires
        !s.contains(0x24u8),
        0 <= n <= s.len(),
    ensures
        !s.skip(n).contains(0x24u8),
        n < s.len() ==> s[n] != 0x24u8,
{
    if n < s.len() && s[n] == 0x24u8 {
        assert(s.contains(0x24u8));
    }
    if s.skip(n).contains(0x24u8) {
        let i = choose|i: int| 0 <= i < s.skip(n).len() && s.skip(n)[i] == 0x24u8;
        assert(s[i + n] == 0x24u8);
        assert(s.contains(0x24u8));
    }
}

proof fn lemma_pattern_includes_exact(p: Seq<u8>, s: Seq<u8>)
    requires
        !s.contains(0x24u8),
    ensures
        pattern_includes(p, s) == glob(p, s),
    decreases p.len() + s.len(),
{
    if s.len() > 0 {
        lemma_no_dollar_skip(s, 0);
        lemma_no_dollar_skip(s, 1);
        assert(!starts_with_star(s));
    }
    if p.len() == 0 {
    } else if starts_with_star(p) {
        lemma_pattern_includes_exact(p.skip(2), s);
        if s.len() > 0 {
            lemma_pattern_includes_exact(p, s.skip(1));
        }
    } else if s.len() > 0 {
        lemma_pattern_includes_exact(p.skip(1), s.skip(1));
    }
}

proof fn lemma_chunk_includes_sound(p: Seq<u8>, q: Seq<u8>, c: Seq<u8>)
    requires
        chunk_includes(p, q),
        chunk_matches(q, c),
    ensures
        chunk_matches(p, c),
{
    if !(is_verbatim(p) || is_verbatim(q)) {
        if is_verbatim(c) {
            assert(q == c);
        }
        lemma_pattern_includes_sound(chunk_pattern(p), chunk_pattern(q), c);
    }
}

proof fn lemma_chunk_includes_exact(p: Seq<u8>, c: Seq<u8>)
    requires
        c != single_star(),
        !c.contains(0x24u8),
    ensures
        chunk_includes(p, c) == chunk_matches(p, c),
{
    if !(is_verbatim(p) || is_verbatim(c)) {
        lemma_pattern_includes_exact(chunk_pattern(p), c);
    }
}

/// Every key expression covers itself.
pub proof fn lemma_chunks_include_reflexive(a: Seq<Seq<u8>>)
    ensures
        chunks_include(a, a),
    decreases a.len(),
{
    if a.len() > 0 {
        let rest = a.drop_first();
        lemma_chunks_include_reflexive(rest);
        if a[0] == double_star() {
            assert(!is_verbatim(double_star()));
            assert(chunks_include(a, rest));
        } else {
            lemma_pattern_includes_reflexive(chunk_pattern(a[0]));
        }
    }
}

/// Inclusion is sound: when `a` covers `b`, every key matched by `b` is also
/// matched by `a`.
pub proof fn lemma_includes_sound(a: Seq<Seq<u8>>, b: Seq<Seq<u8>>, k: Seq<Seq<u8>>)
    requires
        chunks_include(a, b),
        matches_key(b, k),
    ensures
        matches_key(a, k),
    decreases a.len() + b.len() + k.len(),
{
    if a.len() == 0 {
    } else if a[0] == double_star() {
        if chunks_include(a.drop_first(), b) {
            lemma_includes_sound(a.drop_first(), b, k);
        } else if b[0] == double_star() {
            if matches_key(b.drop_first(), k) {
                lemma_includes_sound(a, b.drop_first(), k);
            } else {
                lemma_includes_sound(a, b, k.drop_first());
            }
        } else {
            if is_verbatim(k[0]) {
                assert(b[0] == k[0]);
            }
            lemma_includes_sound(a, b.drop_first(), k.drop_first());
        }
    } else {
        lemma_chunk_includes_sound(a[0], b[0], k[0]);
        lemma_includes_sound(a.drop_first(), b.drop_first(), k.drop_first());
    }
}

/// On a key, inclusion is exactly matching: `a` covers the key `k` if and only
/// if `a` matches `k`.
pub proof fn lemma_includes_exact_on_keys(a: Seq<Seq<u8>>, k: Seq<Seq<u8>>)
    requires
        is_key(k),
    ensures
        chunks_include(a, k) == matches_key(a, k),
    decreases a.len() + k.len(),
{
    if k.len() > 0 {
        assert(k[0] != single_star() && k[0] != double_star() && !k[0].contains(0x24u8));
        assert forall|i: int| 0 <= i < k.drop_first().len() implies #[trigger] k.drop_first()[i]
            != single_star() && k.drop_first()[i] != double_star() && !k.drop_first()[i].contains(
            0x24u8,
        ) by {
            assert(k.drop_first()[i] == k[i + 1]);
        }
    }
    if a.len() == 0 {
    } else if a[0] == double_star() {
        lemma_includes_exact_on_keys(a.drop_first(), k);
        if k.len() > 0 {
            lemma_includes_exact_on_keys(a, k.drop_first());
        }
    } else if k.len() > 0 {
        lemma_chunk_includes_exact(a[0], k[0]);
        lemma_includes_exact_on_keys(a.drop_first(), k.drop_first());
    }
}

proof fn lemma_pattern_includes_transitive(p: Seq<u8>, q: Seq<u8>, r: Seq<u8>)
    requires
        pattern_includes(p, q),
        pattern_includes(q, r),
    ensures
        pattern_includes(p, r),
    decreases p.len() + q.len() + r.len(),
{
    if p.len() == 0 {
    } else if starts_with_star(p) {
        if pattern_includes(p.skip(2), q) {
            lemma_pattern_includes_transitive(p.skip(2), q, r);
        } else if starts_with_star(q) {
            if pattern_includes(q.skip(2), r) {
                lemma_pattern_includes_transitive(p, q.skip(2), r);
            } else if starts_with_star(r) {
                lemma_pattern_includes_transitive(p, q, r.skip(2));
            } else {
                lemma_pattern_includes_transitive(p, q, r.skip(1));
            }
        } else {
            lemma_pattern_includes_transitive(p, q.skip(1), r.skip(1));
        }
    } else {
        lemma_pattern_includes_transitive(p.skip(1), q.skip(1), r.skip(1));
    }
}

proof fn lemma_chunk_includes_transitive(p: Seq<u8>, q: Seq<u8>, r: Seq<u8>)
    requires
        chunk_includes(p, q),
        chunk_includes(q, r),
    ensures
        chunk_includes(p, r),
{
    if !(is_verbatim(p) || is_verbatim(q)) {
        if is_verbatim(r) {
            assert(q == r);
        }
        lemma_pattern_includes_transitive(chunk_pattern(p), chunk_pattern(q), chunk_pattern(r));
    }
}

/// Inclusion is transitive: if `a` covers `b` and `b` covers `c`, then `a`
/// covers `c`.
pub proof fn lemma_chunks_include_transitive(a: Seq<Seq<u8>>, b: Seq<Seq<u8>>, c: Seq<Seq<u8>>)
    requires
        chunks_include(a, b),
        chunks_include(b, c),
    ensures
        chunks_include(a, c),
    decreases a.len() + b.len() + c.len(),
{
    if a.len() == 0 {
    } else if a[0] == double_star() {
        if chunks_include(a.drop_first(), b) {
            lemma_chunks_include_transitive(a.drop_first(), b, c);
        } else if b[0] == double_star() {
            if chunks_include(b.drop_first(), c) {
                lemma_chunks_include_transitive(a, b.drop_first(), c);
            } else {
                lemma_chunks_include_transitive(a, b, c.drop_first());
            }
        } else {
            if is_verbatim(c[0]) {
                assert(b[0] == c[0]);
            }
            lemma_chunks_include_transitive(a, b.drop_first(), c.drop_first());
        }
    } else {
        lemma_chunk_includes_transitive(a[0], b[0], c[0]);
        lemma_chunks_include_transitive(a.drop_first(), b.drop_first(), c.drop_first());
    }
}

/// No chunk of `b` is verbatim.
pub open spec fn has_no_verbatim(b: Seq<Seq<u8>>) -> bool {
    forall|i: int| 0 <= i < b.len() ==> !is_verbatim(#[trigger] b[i])
}

/// The key expression `**` covers exactly the key expressions with no verbatim
/// chunk.
pub proof fn lemma_double_star_includes(b: Seq<Seq<u8>>)
    ensures
        chunks_include(seq![double_star()], b) <==> has_no_verbatim(b),
    decreases b.len(),
{
    let a = seq![double_star()];
    assert(a.drop_first() =~= Seq::<Seq<u8>>::empty());
    assert(a[0] == double_star());
    if b.len() > 0 {
        let rest = b.drop_first();
        lemma_double_star_includes(rest);
        assert(chunks_include(a.drop_first(), b) == false);
        assert(has_no_verbatim(b) <==> (!is_verbatim(b[0]) && has_no_verbatim(rest))) by {
            if has_no_verbatim(b) {
                assert forall|i: int| 0 <= i < rest.len() implies !is_verbatim(#[trigger] rest[i]) by {
                    assert(rest[i] == b[i + 1]);
                }
            }
            if !is_verbatim(b[0]) && has_no_verbatim(rest) {
                assert forall|i: int| 0 <= i < b.len() implies !is_verbatim(#[trigger] b[i]) by {
                    if i > 0 {
                        assert(b[i] == rest[i - 1]);
                    }
                }
            }
        }
    } else {
        assert(chunks_include(a.drop_first(), b));
    }
}

/// The in-chunk wildcard is well formed in `c`: every `$` starts a `$*` and
/// every `*` ends one.
pub open spec fn star_dsl_well_formed(c: Seq<u8>) -> bool {
    &&& forall|i: int|
        0 <= i < c.len() && #[trigger] c[i] == 0x24u8 ==> i + 1 < c.len() && c[i + 1] == 0x2au8
    &&& forall|i: int| 0 <= i < c.len() && #[trigger] c[i] == 0x2au8 ==> i > 0 && c[i - 1] == 0x24u8
}

/// A chunk of a canonical key expression: not empty, without `#` or `?`;
/// either `*` or `**`, or a chunk whose `$*` are well formed, never followed
/// by `$`, and never alone.
pub open spec fn chunk_is_valid(c: Seq<u8>) -> bool {
    &&& c.len() > 0
    &&& !c.contains(0x23u8)
    &&& !c.contains(0x3fu8)
    &&& (c == single_star() || c == double_star() || {
        &&& star_dsl_well_formed(c)
        &&& forall|i: int| 0 <= i && i + 2 < c.len() && #[trigger] c[i] == 0x24u8 ==> c[i + 2] != 0x24u8
        &&& c != star_dsl()
    })
}

/// The grammar of canonical key expressions, byte by byte: not empty, every
/// chunk valid, and no `*` or `**` chunk right after a `**` chunk.
pub open spec fn valid_keyexpr_bytes(b: Seq<u8>) -> bool {
    let cs = split_chunks(b);
    &&& b.len() > 0
    &&& forall|i: int| 0 <= i < cs.len() ==> chunk_is_valid(#[trigger] cs[i])
    &&& forall|i: int|
        0 <= i && i + 1 < cs.len() && #[trigger] cs[i] == double_star() ==> cs[i + 1] != single_star()
            && cs[i + 1] != double_star()
}

/// A key: at least one chunk, each of them not empty and free of `$`, `*`,
/// `/`, `#` and `?`.
pub open spec fn is_plain_key(k: Seq<Seq<u8>>) -> bool {
    &&& k.len() > 0
    &&& forall|i: int|
        0 <= i < k.len() ==> {
            &&& (#[trigger] k[i]).len() > 0
            &&& !k[i].contains(0x24u8)
            &&& !k[i].contains(0x2au8)
            &&& !k[i].contains(CHUNK_SEPARATOR)
            &&& !k[i].contains(0x23u8)
            &&& !k[i].contains(0x3fu8)
        }
}

/// Some key is matched by both `a` and `b`.
pub open spec fn share_a_key(a: Seq<Seq<u8>>, b: Seq<Seq<u8>>) -> bool {
    exists|k: Seq<Seq<u8>>| is_plain_key(k) && #[trigger] matches_key(a, k) && matches_key(b, k)
}

/// No verbatim chunk of `b` holds a `$`.
pub open spec fn verbatim_chunks_plain(b: Seq<Seq<u8>>) -> bool {
    forall|i: int| 0 <= i < b.len() && is_verbatim(#[trigger] b[i]) ==> !b[i].contains(0x24u8)
}

/// The chunk `c` with every `$*` replaced by `x`.
pub open spec fn fill_stars(c: Seq<u8>) -> Seq<u8>
    decreases c.len(),
{
    if c.len() == 0 {
        c
    } else if starts_with_star(c) {
        seq![0x78u8] + fill_stars(c.skip(2))
    } else {
        seq![c[0]] + fill_stars(c.skip(1))
    }
}

/// A key matched by the chunk `c`: `x` for `*` and `**`, else `c` with its
/// wildcards filled.
pub open spec fn witness_chunk(c: Seq<u8>) -> Seq<u8> {
    if c == single_star() || c == double_star() {
        seq![0x78u8]
    } else {
        fill_stars(c)
    }
}

/// A key matched by the key expression with chunks `b`.
pub open spec fn witness_key(b: Seq<Seq<u8>>) -> Seq<Seq<u8>> {
    b.map_values(|c: Seq<u8>| witness_chunk(c))
}

proof fn lemma_fill_stars(c: Seq<u8>)
    ensures
        glob(c, fill_stars(c)),
        c.len() > 0 ==> fill_stars(c).len() > 0,
        c.len() > 0 && !starts_with_star(c) ==> fill_stars(c)[0] == c[0],
        c.len() > 0 && starts_with_star(c) ==> fill_stars(c)[0] == 0x78u8,
        forall|x: u8| x != 0x78u8 && !c.contains(x) ==> !fill_stars(c).contains(x),
        star_dsl_well_formed(c) ==> !fill_stars(c).contains(0x24u8) && !fill_stars(c).contains(
            0x2au8,
        ),
        !c.contains(0x24u8) ==> fill_stars(c) == c,
    decreases c.len(),
{
    if c.len() > 0 {
        let f = fill_stars(c);
        if starts_with_star(c) {
            let rest = c.skip(2);
            lemma_fill_stars(rest);
            assert(f.skip(1) =~= fill_stars(rest));
            assert(glob(c, fill_stars(rest)));
            assert(c.contains(c[0]));
            assert forall|x: u8| x != 0x78u8 && !c.contains(x) implies !f.contains(x) by {
                if rest.contains(x) {
                    let i = choose|i: int| 0 <= i < rest.len() && rest[i] == x;
                    assert(c[i + 2] == x);
                }
                if f.contains(x) {
                    let i = choose|i: int| 0 <= i < f.len() && f[i] == x;
                    assert(i > 0);
                    assert(fill_stars(rest)[i - 1] == x);
                }
            }
            if star_dsl_well_formed(c) {
                assert(star_dsl_well_formed(rest)) by {
                    assert forall|i: int| 0 <= i < rest.len() && #[trigger] rest[i] == 0x24u8 implies i
                        + 1 < rest.len() && rest[i + 1] == 0x2au8 by {
                        assert(c[i + 2] == 0x24u8);
                    }
                    assert forall|i: int| 0 <= i < rest.len() && #[trigger] rest[i] == 0x2au8 implies i
                        > 0 && rest[i - 1] == 0x24u8 by {
                        assert(c[i + 2] == 0x2au8);
                        if i == 0 {
                            assert(c[1] == 0x2au8);
                        }
                    }
                }
            }
        } else {
            let rest = c.skip(1);
            lemma_fill_stars(rest);
            assert(f.skip(1) =~= fill_stars(rest));
            assert forall|x: u8| x != 0x78u8 && !c.contains(x) implies !f.contains(x) by {
                if rest.contains(x) {
                    let i = choose|i: int| 0 <= i < rest.len() && rest[i] == x;
                    assert(c[i + 1] == x);
                }
                assert(c.contains(c[0]));
                if f.contains(x) {
                    let i = choose|i: int| 0 <= i < f.len() && f[i] == x;
                    if i > 0 {
                        assert(fill_stars(rest)[i - 1] == x);
                    }
                }
            }
            if star_dsl_well_formed(c) {
                assert(c[0] != 0x24u8 && c[0] != 0x2au8);
                assert(star_dsl_well_formed(rest)) by {
                    assert forall|i: int| 0 <= i < rest.len() && #[trigger] rest[i] == 0x24u8 implies i
                        + 1 < rest.len() && rest[i + 1] == 0x2au8 by {
                        assert(c[i + 1] == 0x24u8);
                    }
                    assert forall|i: int| 0 <= i < rest.len() && #[trigger] rest[i] == 0x2au8 implies i
                        > 0 && rest[i - 1] == 0x24u8 by {
                        assert(c[i + 1] == 0x2au8);
                    }
                }
            }
            if !c.contains(0x24u8) {
                assert(!rest.contains(0x24u8)) by {
                    if rest.contains(0x24u8) {
                        let i = choose|i: int| 0 <= i < rest.len() && rest[i] == 0x24u8;
                        assert(c[i + 1] == 0x24u8);
                    }
                }
                assert(f =~= c);
            }
        }
    }
}

proof fn lemma_split_chunks_no_separator(s: Seq<u8>)
    ensures
        forall|i: int|
            0 <= i < split_chunks(s).len() ==> !(#[trigger] split_chunks(s)[i]).contains(
                CHUNK_SEPARATOR,
            ),
    decreases s.len(),
{
    if s.len() > 0 {
        let prev = split_chunks(s.drop_last());
        lemma_split_chunks_no_separator(s.drop_last());
        lemma_split_chunks_nonempty(s.drop_last());
        let cur = split_chunks(s);
        if s.last() != CHUNK_SEPARATOR {
            assert forall|i: int| 0 <= i < cur.len() implies !(#[trigger] cur[i]).contains(
                CHUNK_SEPARATOR,
            ) by {
                if i == prev.len() - 1 {
                    let c = prev.last().push(s.last());
                    assert(cur[i] == c);
                    if c.contains(CHUNK_SEPARATOR) {
                        let j = choose|j: int| 0 <= j < c.len() && c[j] == CHUNK_SEPARATOR;
                        assert(prev[i][j] == CHUNK_SEPARATOR);
                        assert(prev[i].contains(CHUNK_SEPARATOR));
                    }
                } else {
                    assert(cur[i] == prev[i]);
                }
            }
        } else {
            assert forall|i: int| 0 <= i < cur.len() implies !(#[trigger] cur[i]).contains(
                CHUNK_SEPARATOR,
            ) by {
                if i < prev.len() {
                    assert(cur[i] == prev[i]);
                } else {
                    assert(cur[i] =~= Seq::<u8>::empty());
                }
            }
        }
    }
}

proof fn lemma_witness_matches(b: Seq<Seq<u8>>)
    requires
        forall|i: int| 0 <= i < b.len() ==> chunk_is_valid(#[trigger] b[i]),
        verbatim_chunks_plain(b),
    ensures
        matches_key(b, witness_key(b)),
    decreases b.len(),
{
    let k = witness_key(b);
    if b.len() > 0 {
        let rest = b.drop_first();
        assert(witness_key(rest) =~= k.drop_first());
        assert(forall|i: int| 0 <= i < rest.len() ==> #[trigger] rest[i] == b[i + 1]);
        assert(chunk_is_valid(b[0]));
        lemma_witness_matches(rest);
        let x = seq![0x78u8];
        assert(!is_verbatim(x));
        if b[0] == double_star() {
            assert(matches_key(b, k.drop_first()));
        } else if b[0] == single_star() {
            assert(chunk_pattern(b[0]) == star_dsl());
            assert(star_dsl().skip(2) =~= Seq::<u8>::empty());
            assert(x.skip(1) =~= Seq::<u8>::empty());
            assert(starts_with_star(star_dsl()));
            assert(glob(star_dsl().skip(2), x.skip(1)));
            assert(glob(star_dsl(), x.skip(1)));
            assert(glob(star_dsl(), x));
            assert(chunk_matches(b[0], k[0]));
        } else {
            lemma_fill_stars(b[0]);
            if is_verbatim(b[0]) {
                assert(!b[0].contains(0x24u8));
            } else {
                assert(!is_verbatim(k[0]));
            }
            assert(chunk_matches(b[0], k[0]));
        }
    }
}

proof fn lemma_witness_is_key(b: Seq<Seq<u8>>)
    requires
        b.len() > 0,
        forall|i: int| 0 <= i < b.len() ==> chunk_is_valid(#[trigger] b[i]),
        forall|i: int| 0 <= i < b.len() ==> !(#[trigger] b[i]).contains(CHUNK_SEPARATOR),
    ensures
        is_plain_key(witness_key(b)),
{
    let k = witness_key(b);
    assert forall|i: int| 0 <= i < k.len() implies {
        &&& (#[trigger] k[i]).len() > 0
        &&& !k[i].contains(0x24u8)
        &&& !k[i].contains(0x2au8)
        &&& !k[i].contains(CHUNK_SEPARATOR)
        &&& !k[i].contains(0x23u8)
        &&& !k[i].contains(0x3fu8)
    } by {
        let c = b[i];
        assert(chunk_is_valid(c));
        assert(!c.contains(CHUNK_SEPARATOR));
        if c == single_star() || c == double_star() {
            let x = seq![0x78u8];
            assert(k[i] == x);
            assert forall|y: u8| y != 0x78u8 implies !x.contains(y) by {
                if x.contains(y) {
                    let j = choose|j: int| 0 <= j < x.len() && x[j] == y;
                    assert(j == 0);
                }
            }
        } else {
            lemma_fill_stars(c);
        }
    }
}

/// A key expression that covers another shares a key with it: when `b` is a
/// canonical key expression none of whose verbatim chunks holds a `$`, and
/// `a` covers `b`, some key is matched by both (so `ke_intersects` answers
/// `true` for them, either way round).
pub proof fn lemma_includes_shares_a_key(a: Seq<u8>, b: Seq<u8>)
    requires
        valid_keyexpr_bytes(b),
        verbatim_chunks_plain(split_chunks(b)),
        chunks_include(split_chunks(a), split_chunks(b)),
    ensures
        share_a_key(split_chunks(a), split_chunks(b)),
        share_a_key(split_chunks(b), split_chunks(a)),
{
    let bs = split_chunks(b);
    let k = witness_key(bs);
    lemma_split_chunks_nonempty(b);
    lemma_split_chunks_no_separator(b);
    lemma_witness_matches(bs);
    lemma_witness_is_key(bs);
    lemma_includes_sound(split_chunks(a), bs, k);
    assert(is_plain_key(k) && matches_key(split_chunks(a), k) && matches_key(bs, k));
    assert(is_plain_key(k) && matches_key(bs, k) && matches_key(split_chunks(a), k));
}

/// Why a text was refused as a key expression.
#[derive(Debug, PartialEq, Eq, Structural, Clone, Copy)]
pub enum KeyExprError {
    /// The text is not a canonical key expression.
    Invalid,
}

/// A validated key expression, held as its text.
pub struct KeyExpr {
    text: String,
}

impl View for KeyExpr {
    type V = Seq<char>;

    closed spec fn view(&self) -> Seq<char> {
        self.text@
    }
}

impl KeyExpr {
    #[verifier::type_invariant]
    spec fn inv(self) -> bool {
        keyexpr_is_valid(self.text@)
    }

    /// Validates `s`; `Err(Invalid)` exactly when it is not a key expression.
    pub fn new(s: &str) -> (r: Result<KeyExpr, KeyExprError>)
        ensures
            match r {
                Ok(k) => keyexpr_is_valid(s@) && k@ == s@,
                Err(e) => !keyexpr_is_valid(s@) && e == KeyExprError::Invalid,
            },
    {
        if keyexpr_check(s) {
            Ok(KeyExpr { text: s.to_owned() })
        } else {
            Err(KeyExprError::Invalid)
        }
    }

    /// The text of this key expression, which is valid.
    pub fn as_str(&self) -> (r: &str)
        ensures
            r@ == self@,
            keyexpr_is_valid(r@),
    {
        proof {
            use_type_invariant(self);
        }
        self.text.as_str()
    }

    /// Whether this key expression intersects `other`.
    pub fn intersects(&self, other: &KeyExpr) -> (r: bool)
        ensures
            r == keyexprs_intersect(self@, other@),
            self@ == other@ ==> r,
    {
        keyexpr_intersects(self.as_str(), other.as_str())
    }

    /// Whether this key expression is the text `s`.
    pub fn is_text(&self, s: &str) -> (r: bool)
        ensures
            r == (self@ == s@),
    {
        let owned: String = s.to_owned();
        self.text == owned
    }

    /// A copy of this key expression.
    pub fn duplicate(&self) -> (r: KeyExpr)
        ensures
            r@ == self@,
    {
        proof {
            use_type_invariant(self);
        }
        KeyExpr { text: self.text.clone() }
    }
}

/// Parses `s` as a key expression.
pub fn parse_keyexpr(s: &str) -> (r: Result<KeyExpr, KeyExprError>)
    ensures
        r is Ok <==> keyexpr_is_valid(s@),
        r matches Ok(k) ==> k@ == s@,
        r matches Err(e) ==> e == KeyExprError::Invalid,
{
    KeyExpr::new(s)
}

} // verus!
