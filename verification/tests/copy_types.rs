//! The forms across every primitive integer type.  For Copy types the clone
//! that the block takes is a plain copy.

use crement::{crement, post_dec, post_inc, pre_dec, pre_inc};
use proc_macro2::TokenStream;

fn ts(src: &str) -> TokenStream {
    src.parse().expect("the source text is a token stream")
}

// ── Signed integers ──────────────────────────────────────────────────────────

#[test]
fn i8_prefix_inc() {
    let mut x: i8 = 10;
    assert_eq!(crement(ts("++x")).unwrap().run(&mut x), 11i8);
    assert_eq!(x, 11);
}

#[test]
fn i8_postfix_inc() {
    let mut x: i8 = 10;
    assert_eq!(crement(ts("x++")).unwrap().run(&mut x), 10i8);
    assert_eq!(x, 11);
}

#[test]
fn i16_roundtrip() {
    let mut x: i16 = 1000;
    assert_eq!(post_inc(ts("x")).unwrap().run(&mut x), 1000i16);
    assert_eq!(pre_inc(ts("x")).unwrap().run(&mut x), 1002i16);
    assert_eq!(post_dec(ts("x")).unwrap().run(&mut x), 1002i16);
    assert_eq!(pre_dec(ts("x")).unwrap().run(&mut x), 1000i16);
    assert_eq!(x, 1000);
}

#[test]
fn i32_full_roundtrip() {
    let mut x: i32 = 0;
    assert_eq!(pre_inc(ts("x")).unwrap().run(&mut x), 1);
    assert_eq!(post_inc(ts("x")).unwrap().run(&mut x), 1);
    assert_eq!(x, 2);
    assert_eq!(pre_dec(ts("x")).unwrap().run(&mut x), 1);
    assert_eq!(post_dec(ts("x")).unwrap().run(&mut x), 1);
    assert_eq!(x, 0);
}

#[test]
fn i64_postfix_sequence() {
    let mut x: i64 = 100;
    let inc = post_inc(ts("x")).unwrap();
    let a = inc.run(&mut x);
    let b = inc.run(&mut x);
    let c = inc.run(&mut x);
    assert_eq!([a, b, c], [100i64, 101, 102]);
    assert_eq!(x, 103);
}

#[test]
fn i128_prefix_dec() {
    let mut x: i128 = 0;
    assert_eq!(pre_dec(ts("x")).unwrap().run(&mut x), -1i128);
    assert_eq!(x, -1);
}

#[test]
fn isize_postfix_dec() {
    let mut x: isize = 5;
    assert_eq!(post_dec(ts("x")).unwrap().run(&mut x), 5isize);
    assert_eq!(x, 4);
}

// ── Unsigned integers ────────────────────────────────────────────────────────

#[test]
fn u8_prefix_inc() {
    let mut x: u8 = 200;
    assert_eq!(pre_inc(ts("x")).unwrap().run(&mut x), 201u8);
    assert_eq!(x, 201);
}

#[test]
fn u16_postfix_inc() {
    let mut x: u16 = 0;
    assert_eq!(post_inc(ts("x")).unwrap().run(&mut x), 0u16);
    assert_eq!(x, 1);
}

#[test]
fn u32_full_roundtrip() {
    let mut x: u32 = 50;
    assert_eq!(pre_inc(ts("x")).unwrap().run(&mut x), 51u32);
    assert_eq!(post_inc(ts("x")).unwrap().run(&mut x), 51u32);
    assert_eq!(x, 52);
    assert_eq!(pre_dec(ts("x")).unwrap().run(&mut x), 51u32);
    assert_eq!(post_dec(ts("x")).unwrap().run(&mut x), 51u32);
    assert_eq!(x, 50);
}

#[test]
fn u64_postfix_sequence() {
    let mut x: u64 = 1_000_000;
    let inc = post_inc(ts("x")).unwrap();
    let a = inc.run(&mut x);
    let b = inc.run(&mut x);
    assert_eq!(a, 1_000_000u64);
    assert_eq!(b, 1_000_001u64);
    assert_eq!(x, 1_000_002);
}

#[test]
fn u128_prefix_inc() {
    let mut x: u128 = u64::MAX as u128;
    let ret = pre_inc(ts("x")).unwrap().run(&mut x);
    assert_eq!(ret, u64::MAX as u128 + 1);
}

#[test]
fn usize_postfix_dec() {
    let mut x: usize = 10;
    assert_eq!(post_dec(ts("x")).unwrap().run(&mut x), 10usize);
    assert_eq!(x, 9);
}
