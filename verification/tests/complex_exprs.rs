//! Operands that are place expressions: fields, indexing, tuple fields,
//! dereferences.  The operand tokens parse as an expression; the block runs
//! on the place that expression names.

use crement::{crement, post_dec, post_inc, pre_dec, pre_inc, CrementError, Expansion};
use proc_macro2::TokenStream;
use quote::ToTokens;

fn ts(src: &str) -> TokenStream {
    src.parse().expect("the source text is a token stream")
}

/// The expansion, after checking that its operand is the place expression
/// `place` on which the test runs it.
fn form(r: Result<Expansion, CrementError>, place: &str) -> Expansion {
    let e = r.unwrap();
    assert_eq!(e.expr().to_token_stream().to_string(), ts(place).to_string(), "the operand names the place");
    e
}

// ── Struct field access ──────────────────────────────────────────────────────

struct Scoreboard {
    hits: i32,
    misses: i32,
}

#[test]
fn field_prefix_inc() {
    let mut sb = Scoreboard { hits: 0, misses: 0 };
    assert_eq!(form(crement(ts("++sb.hits")), "sb.hits").run(&mut sb.hits), 1);
    assert_eq!(sb.hits, 1);
    assert_eq!(sb.misses, 0);
}

#[test]
fn field_postfix_inc_returns_old() {
    let mut sb = Scoreboard { hits: 5, misses: 2 };
    let old_hits = form(crement(ts("sb.hits++")), "sb.hits").run(&mut sb.hits);
    assert_eq!(old_hits, 5);
    assert_eq!(sb.hits, 6);
    assert_eq!(sb.misses, 2);
}

#[test]
fn field_prefix_dec() {
    let mut sb = Scoreboard { hits: 10, misses: 3 };
    assert_eq!(form(pre_dec(ts("sb.misses")), "sb.misses").run(&mut sb.misses), 2);
    assert_eq!(sb.misses, 2);
    assert_eq!(sb.hits, 10);
}

#[test]
fn field_postfix_dec_returns_old() {
    let mut sb = Scoreboard { hits: 10, misses: 5 };
    let old = form(post_dec(ts("sb.misses")), "sb.misses").run(&mut sb.misses);
    assert_eq!(old, 5);
    assert_eq!(sb.misses, 4);
}

#[test]
fn two_fields_independent() {
    let mut sb = Scoreboard { hits: 0, misses: 0 };
    let hit = form(crement(ts("++sb.hits")), "sb.hits");
    hit.run(&mut sb.hits);
    hit.run(&mut sb.hits);
    form(crement(ts("++sb.misses")), "sb.misses").run(&mut sb.misses);
    assert_eq!(sb.hits, 2);
    assert_eq!(sb.misses, 1);
}

// ── Nested struct field ──────────────────────────────────────────────────────

struct Outer {
    inner: Inner,
}

struct Inner {
    value: i32,
}

#[test]
fn nested_field_postfix_inc() {
    let mut o = Outer { inner: Inner { value: 7 } };
    let old = form(crement(ts("o.inner.value++")), "o.inner.value").run(&mut o.inner.value);
    assert_eq!(old, 7);
    assert_eq!(o.inner.value, 8);
}

// ── Array / slice indexing ───────────────────────────────────────────────────

#[test]
fn array_index_prefix_inc() {
    let mut arr = [10i32, 20, 30, 40];
    assert_eq!(form(crement(ts("++arr[2]")), "arr[2]").run(&mut arr[2]), 31);
    assert_eq!(arr, [10, 20, 31, 40]);
}

#[test]
fn array_index_postfix_inc_returns_old() {
    let mut arr = [10i32, 20, 30, 40];
    let old = form(crement(ts("arr[1]++")), "arr[1]").run(&mut arr[1]);
    assert_eq!(old, 20);
    assert_eq!(arr, [10, 21, 30, 40]);
}

#[test]
fn array_index_prefix_dec() {
    let mut arr = [0i32, 0, 5, 0];
    assert_eq!(form(pre_dec(ts("arr[2]")), "arr[2]").run(&mut arr[2]), 4);
    assert_eq!(arr[2], 4);
}

#[test]
fn array_index_postfix_dec_returns_old() {
    let mut arr = [100u64; 4];
    let old = form(post_dec(ts("arr[3]")), "arr[3]").run(&mut arr[3]);
    assert_eq!(old, 100u64);
    assert_eq!(arr[3], 99);
}

#[test]
fn slice_index_postfix_inc() {
    let mut data = vec![1i32, 2, 3, 4, 5];
    let slice: &mut [i32] = &mut data;
    let old = form(post_inc(ts("slice[0]")), "slice[0]").run(&mut slice[0]);
    assert_eq!(old, 1);
    assert_eq!(slice[0], 2);
}

#[test]
fn array_walk_with_postfix() {
    let mut arr = [0i32; 5];
    let mut w: usize = 0;
    let step = form(post_inc(ts("w")), "w");
    for val in 0..5i32 {
        arr[step.run(&mut w)] = val;
    }
    assert_eq!(arr, [0, 1, 2, 3, 4]);
    assert_eq!(w, 5);
}

// ── Tuple field indexing ─────────────────────────────────────────────────────

#[test]
fn tuple_field_prefix_inc() {
    let mut t: (i32, i32) = (10, 20);
    assert_eq!(form(pre_inc(ts("t.0")), "t.0").run(&mut t.0), 11);
    assert_eq!(t.0, 11);
    assert_eq!(t.1, 20);
}

#[test]
fn tuple_field_postfix_dec() {
    let mut t: (i32, i32) = (5, 3);
    let old = form(post_dec(ts("t.1")), "t.1").run(&mut t.1);
    assert_eq!(old, 3);
    assert_eq!(t.1, 2);
}

// ── Dereference of a Box ─────────────────────────────────────────────────────

#[test]
fn boxed_value_prefix_inc() {
    let mut b: Box<i32> = Box::new(41);
    assert_eq!(form(pre_inc(ts("*b")), "*b").run(&mut *b), 42);
    assert_eq!(*b, 42);
}

#[test]
fn boxed_value_postfix_inc_returns_old() {
    let mut b: Box<i32> = Box::new(99);
    let old = form(post_inc(ts("*b")), "*b").run(&mut *b);
    assert_eq!(old, 99);
    assert_eq!(*b, 100);
}

#[test]
fn boxed_value_postfix_dec() {
    let mut b: Box<i64> = Box::new(10);
    let old = form(crement(ts("*b--")), "*b").run(&mut *b);
    assert_eq!(old, 10i64);
    assert_eq!(*b, 9);
}

// ── Vec element ──────────────────────────────────────────────────────────────

#[test]
fn vec_element_postfix_inc() {
    let mut v: Vec<i32> = vec![1, 2, 3];
    let old = form(post_inc(ts("v[1]")), "v[1]").run(&mut v[1]);
    assert_eq!(old, 2);
    assert_eq!(v[1], 3);
}

#[test]
fn vec_element_prefix_dec() {
    let mut v: Vec<u32> = vec![10, 20, 30];
    assert_eq!(form(pre_dec(ts("v[2]")), "v[2]").run(&mut v[2]), 29u32);
    assert_eq!(v[2], 29);
}
