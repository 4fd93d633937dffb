use zenoh_nostd::intern::KeyExprCache;
use zenoh_nostd::keyexpr::{
    bytes_equal, ke_includes, ke_includes_chunks, ke_intersects, parse_keyexpr, split_chunks_of,
    KeyExpr, KeyExprError,
};

fn chunks(s: &str) -> Vec<Vec<u8>> {
    split_chunks_of(s.as_bytes())
}

#[test]
fn split_cuts_at_every_slash() {
    assert_eq!(chunks("a/b/c"), vec![b"a".to_vec(), b"b".to_vec(), b"c".to_vec()]);
    assert_eq!(chunks(""), vec![Vec::<u8>::new()]);
    assert_eq!(chunks("a//b/"), vec![b"a".to_vec(), vec![], b"b".to_vec(), vec![]]);
}

#[test]
fn bytes_equal_compares_contents() {
    assert!(bytes_equal(b"abc", b"abc"));
    assert!(!bytes_equal(b"abc", b"abd"));
    assert!(!bytes_equal(b"ab", b"abc"));
}

#[test]
fn includes_literal_and_wildcards() {
    assert!(ke_includes("a/b", "a/b"));
    assert!(!ke_includes("a/b", "a/c"));
    assert!(ke_includes("a/*", "a/b"));
    assert!(!ke_includes("a/*", "a/b/c"));
    assert!(ke_includes("a/**", "a/b/c"));
    assert!(ke_includes("a/**", "a"));
    assert!(ke_includes("**", "x/y/z"));
    assert!(ke_includes("a/*/c", "a/*/c"));
    assert!(!ke_includes("a/*", "a/**"));
    assert!(ke_includes("a/**", "a/*"));
    assert!(!ke_includes("a/b", "a/*"));
}

#[test]
fn includes_refuses_invalid_keyexprs() {
    assert!(!ke_includes("a//b", "a//b"));
    assert!(!ke_includes("a/", "a"));
    assert!(!ke_includes("a/b", "a/#"));
    assert!(!ke_includes("**/**", "a"));
}

#[test]
fn chunk_inclusion_is_transitive_on_an_example() {
    let a = chunks("a/**");
    let b = chunks("a/*/c");
    let c = chunks("a/x/c");
    assert!(ke_includes_chunks(&a, &b));
    assert!(ke_includes_chunks(&b, &c));
    assert!(ke_includes_chunks(&a, &c));
}

#[test]
fn double_star_includes_everything() {
    let a = chunks("**");
    for b in ["x", "x/y", "*", "**", "a/**/b"] {
        assert!(ke_includes_chunks(&a, &chunks(b)));
    }
}

#[test]
fn every_pattern_includes_itself() {
    for a in ["a", "a/*", "**", "a/**/b", "*/*"] {
        assert!(ke_includes_chunks(&chunks(a), &chunks(a)));
    }
}

#[test]
fn intersects_on_wildcards() {
    assert!(ke_intersects("a/*", "*/b"));
    assert!(ke_intersects("a/b", "a/b"));
    assert!(!ke_intersects("a/b", "a/c"));
    assert!(ke_intersects("a/**", "a/b/c"));
    assert!(!ke_intersects("a/**", "b/**"));
}

#[test]
fn intersects_refuses_invalid_keyexprs() {
    assert!(!ke_intersects("a//b", "a//b"));
    assert!(!ke_intersects("a?", "a?"));
}

#[test]
fn parse_accepts_and_refuses() {
    assert_eq!(parse_keyexpr("demo/mesh").map(|k| k.as_str().to_string()), Ok("demo/mesh".to_string()));
    assert!(matches!(parse_keyexpr(""), Err(KeyExprError::Invalid)));
    assert!(matches!(parse_keyexpr("/a"), Err(KeyExprError::Invalid)));
    assert!(matches!(parse_keyexpr("a$b"), Err(KeyExprError::Invalid)));
    assert!(parse_keyexpr("a/b*").is_err());
}

#[test]
fn keyexpr_methods() {
    let a = KeyExpr::new("a/*").ok().unwrap();
    let b = KeyExpr::new("a/b").ok().unwrap();
    let c = KeyExpr::new("c").ok().unwrap();
    assert!(a.intersects(&b));
    assert!(!b.intersects(&c));
    assert!(a.is_text("a/*"));
    assert!(!a.is_text("a/b"));
    assert_eq!(a.duplicate().as_str(), "a/*");
}

#[test]
fn intern_is_stable() {
    let mut cache = KeyExprCache::new();
    let i = cache.intern("a/b").ok().unwrap();
    let j = cache.intern("c/d").ok().unwrap();
    let k = cache.intern("a/b").ok().unwrap();
    assert_eq!(i, 0);
    assert_eq!(j, 1);
    assert_eq!(k, i);
    assert_eq!(cache.len(), 2);
    assert_eq!(cache.get(1).as_str(), "c/d");
}

#[test]
fn intern_refuses_invalid_and_keeps_cache() {
    let mut cache = KeyExprCache::new();
    cache.intern("a").ok().unwrap();
    assert!(matches!(cache.intern("a//"), Err(KeyExprError::Invalid)));
    assert_eq!(cache.len(), 1);
}

#[test]
fn inclusion_is_chunk_wise_not_set_wise() {
    // `*/**` and `**` match the same keys, yet the chunk-wise check does not
    // see `*/**` as including `**`.
    assert!(!ke_includes("*/**", "**"));
    assert!(ke_includes("**", "*/**"));
}

#[test]
fn includes_is_sound_on_keys() {
    for (a, b, k) in [("a/**", "a/*/c", "a/x/c"), ("**", "x/*", "x/y"), ("*/b", "a/b", "a/b")] {
        assert!(ke_includes(a, b));
        assert!(ke_includes(b, k));
        assert!(ke_includes(a, k));
    }
}

#[test]
fn intersection_is_symmetric_and_reflexive() {
    for (a, b) in [("a/*", "*/b"), ("a/**", "b"), ("x/y", "x/y"), ("a/$*b", "a/cb")] {
        assert_eq!(ke_intersects(a, b), ke_intersects(b, a));
    }
    for a in ["a", "a/*/b", "**"] {
        assert!(ke_intersects(a, a));
    }
}

#[test]
fn includes_in_chunk_wildcards() {
    assert!(ke_includes("a$*", "ab"));
    assert!(ke_includes("a$*", "a"));
    assert!(!ke_includes("a$*", "ba"));
    assert!(ke_includes("$*b", "ab"));
    assert!(ke_includes("a$*c", "ab$*bc"));
    assert!(!ke_includes("a$*c", "ab$*b"));
    assert!(ke_includes("*", "a$*"));
    assert!(!ke_includes("a$*", "*"));
    assert!(ke_includes("a$*", "a$*b"));
    assert!(!ke_includes("a$*b", "a$*"));
    assert!(ke_includes("x/a$*/**", "x/ab/y/z"));
}

#[test]
fn verbatim_chunks_only_match_themselves() {
    assert!(!ke_includes("*", "@a"));
    assert!(!ke_includes("**", "@a"));
    assert!(!ke_includes("**", "x/@a"));
    assert!(ke_includes("@a", "@a"));
    assert!(ke_includes("@a/**", "@a/b/c"));
    assert!(!ke_includes("@a", "@b"));
    assert!(!ke_includes("$*a", "@a"));
}

#[test]
fn double_star_excludes_verbatim_chunks() {
    let a = chunks("**");
    assert!(ke_includes_chunks(&a, &chunks("x/y")));
    assert!(!ke_includes_chunks(&a, &chunks("x/@y")));
    assert!(!ke_includes_chunks(&a, &chunks("@x")));
}

#[test]
fn inclusion_agrees_with_intersection_on_examples() {
    for (a, b) in [("a$*", "ab"), ("*", "x"), ("**", "x/y"), ("@a", "@a"), ("a/**", "a/*")] {
        assert!(ke_includes(a, b));
        assert!(ke_intersects(a, b));
    }
    assert!(!ke_includes("*", "@a"));
    assert!(!ke_intersects("*", "@a"));
}

#[test]
fn inclusion_implies_intersection_on_verbatim_and_dsl_chunks() {
    for (a, b) in [("@a/**", "@a/x"), ("a/$*c", "a/bc"), ("**", "a$*/b"), ("@a$*/**", "@a$*/x")] {
        assert!(ke_includes(a, b));
        assert!(ke_intersects(a, b));
        assert!(ke_intersects(b, a));
    }
}
