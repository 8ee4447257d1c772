//! The arithmetic model of address values.
//!
//! Addresses live in `0 .. 2^width`; every operation on them is stated as
//! reduction of an unbounded integer into that range ([`wrap64`], [`wrap32`]),
//! as the two's-complement reading of such a residue ([`sig64`], [`sig32`]),
//! or as division that truncates toward zero ([`trunc_div`]). The lemmas here
//! connect those definitions to the wrapping operations the executable code
//! performs.

use vstd::prelude::*;
use vstd::arithmetic::div_mod::lemma_fundamental_div_mod_converse;
use vstd::arithmetic::div_mod::lemma_add_mod_noop;
use vstd::arithmetic::div_mod::lemma_div_multiples_vanish;

verus! {

/// The value of `x` reduced modulo 2^64: the address a 64-bit machine word
/// holds after wraparound.
pub open spec fn wrap64(x: int) -> u64 {
    (x % 0x1_0000_0000_0000_0000) as u64
}

/// The value of `x` reduced modulo 2^32: the address a 32-bit machine word
/// holds after wraparound.
pub open spec fn wrap32(x: int) -> u32 {
    (x % 0x1_0000_0000) as u32
}

/// The value of `x` modulo 2^64, read back as a two's-complement signed
/// 64-bit quantity, in `-2^63 .. 2^63`.
pub open spec fn sig64(x: int) -> int {
    let m = x % 0x1_0000_0000_0000_0000;
    if m >= 0x8000_0000_0000_0000 {
        m - 0x1_0000_0000_0000_0000
    } else {
        m
    }
}

/// The value of `x` modulo 2^32, read back as a two's-complement signed
/// 32-bit quantity, in `-2^31 .. 2^31`.
pub open spec fn sig32(x: int) -> int {
    let m = x % 0x1_0000_0000;
    if m >= 0x8000_0000 {
        m - 0x1_0000_0000
    } else {
        m
    }
}

/// Signed division that truncates toward zero, as machine division does.
pub open spec fn trunc_div(x: int, d: int) -> int
    recommends
        0 < d,
{
    if x >= 0 {
        x / d
    } else {
        -((-x) / d)
    }
}

/// Wrapping addition of a signed offset to a 64-bit address computes the
/// residue of the exact sum.
pub proof fn lemma_wrap64_add_signed(x: u64, y: i64)
    ensures
        vstd::wrapping::u64_specs::wrapping_add_signed(x, y) == wrap64(x + y),
{
    let s = x + y;
    if s > u64::MAX {
        lemma_fundamental_div_mod_converse(s, 0x1_0000_0000_0000_0000, 1, s - 0x1_0000_0000_0000_0000);
    } else if s < 0 {
        lemma_fundamental_div_mod_converse(s, 0x1_0000_0000_0000_0000, -1, s + 0x1_0000_0000_0000_0000);
    } else {
        lemma_fundamental_div_mod_converse(s, 0x1_0000_0000_0000_0000, 0, s);
    }
}

/// Wrapping addition of a signed offset to a 32-bit address computes the
/// residue of the exact sum.
pub proof fn lemma_wrap32_add_signed(x: u32, y: i32)
    ensures
        vstd::wrapping::u32_specs::wrapping_add_signed(x, y) == wrap32(x + y),
{
    let s = x + y;
    if s > u32::MAX {
        lemma_fundamental_div_mod_converse(s, 0x1_0000_0000, 1, s - 0x1_0000_0000);
    } else if s < 0 {
        lemma_fundamental_div_mod_converse(s, 0x1_0000_0000, -1, s + 0x1_0000_0000);
    } else {
        lemma_fundamental_div_mod_converse(s, 0x1_0000_0000, 0, s);
    }
}

/// Wrapping subtraction of 64-bit addresses computes the residue of the exact
/// byte distance, so its two's-complement reading is `sig64` of that distance.
pub proof fn lemma_wrap64_sub(x: u64, y: u64)
    ensures
        vstd::wrapping::u64_specs::wrapping_sub(x, y) == wrap64(x - y),
{
    let s = x - y;
    if s < 0 {
        lemma_fundamental_div_mod_converse(s, 0x1_0000_0000_0000_0000, -1, s + 0x1_0000_0000_0000_0000);
    } else {
        lemma_fundamental_div_mod_converse(s, 0x1_0000_0000_0000_0000, 0, s);
    }
}

/// Wrapping subtraction of 32-bit addresses computes the residue of the exact
/// byte distance.
pub proof fn lemma_wrap32_sub(x: u32, y: u32)
    ensures
        vstd::wrapping::u32_specs::wrapping_sub(x, y) == wrap32(x - y),
{
    let s = x - y;
    if s < 0 {
        lemma_fundamental_div_mod_converse(s, 0x1_0000_0000, -1, s + 0x1_0000_0000);
    } else {
        lemma_fundamental_div_mod_converse(s, 0x1_0000_0000, 0, s);
    }
}

/// A residue below 2^64 is its own reduction.
pub proof fn lemma_wrap64_small(x: int)
    requires
        0 <= x <= u64::MAX,
    ensures
        wrap64(x) == x,
{
    lemma_fundamental_div_mod_converse(x, 0x1_0000_0000_0000_0000, 0, x);
}

/// A residue below 2^32 is its own reduction.
pub proof fn lemma_wrap32_small(x: int)
    requires
        0 <= x <= u32::MAX,
    ensures
        wrap32(x) == x,
{
    lemma_fundamental_div_mod_converse(x, 0x1_0000_0000, 0, x);
}

/// The two's-complement reading of a value already in signed 64-bit range is
/// the value itself.
pub proof fn lemma_sig64_id(x: int)
    requires
        -0x8000_0000_0000_0000 <= x < 0x8000_0000_0000_0000,
    ensures
        sig64(x) == x,
{
    if x < 0 {
        lemma_fundamental_div_mod_converse(x, 0x1_0000_0000_0000_0000, -1, x + 0x1_0000_0000_0000_0000);
    } else {
        lemma_fundamental_div_mod_converse(x, 0x1_0000_0000_0000_0000, 0, x);
    }
}

/// The two's-complement reading of a value already in signed 32-bit range is
/// the value itself.
pub proof fn lemma_sig32_id(x: int)
    requires
        -0x8000_0000 <= x < 0x8000_0000,
    ensures
        sig32(x) == x,
{
    if x < 0 {
        lemma_fundamental_div_mod_converse(x, 0x1_0000_0000, -1, x + 0x1_0000_0000);
    } else {
        lemma_fundamental_div_mod_converse(x, 0x1_0000_0000, 0, x);
    }
}

/// Truncating division undoes multiplication: `(count * d) / d == count` for
/// a positive divisor, whatever the sign of `count`.
pub proof fn lemma_trunc_div_multiple(count: int, d: int)
    requires
        0 < d,
    ensures
        trunc_div(count * d, d) == count,
{
    if count >= 0 {
        assert(count * d >= 0) by (nonlinear_arith)
            requires
                count >= 0 && d > 0,
        ;
        assert(count * d == d * count) by (nonlinear_arith);
        lemma_div_multiples_vanish(count, d);
    } else {
        assert(count * d < 0) by (nonlinear_arith)
            requires
                count < 0 && d > 0,
        ;
        assert(-(count * d) == d * (-count)) by (nonlinear_arith);
        lemma_div_multiples_vanish(-count, d);
    }
}

/// Cropping an integer into signed 64-bit range, as wrapping multiplication
/// does, leaves its residue modulo 2^64 unchanged.
pub proof fn lemma_sig_crop64(x: int)
    ensures
        (vstd::wrapping::i64_specs::signed_crop(x) as int) % 0x1_0000_0000_0000_0000 == x % 0x1_0000_0000_0000_0000,
{
    let m = x % 0x1_0000_0000_0000_0000;
    if m > i64::MAX {
        lemma_fundamental_div_mod_converse(m - 0x1_0000_0000_0000_0000, 0x1_0000_0000_0000_0000, -1, m);
    } else {
        lemma_fundamental_div_mod_converse(m, 0x1_0000_0000_0000_0000, 0, m);
    }
}

/// Cropping an integer into signed 32-bit range, as wrapping multiplication
/// does, leaves its residue modulo 2^32 unchanged.
pub proof fn lemma_sig_crop32(x: int)
    ensures
        (vstd::wrapping::i32_specs::signed_crop(x) as int) % 0x1_0000_0000 == x % 0x1_0000_0000,
{
    let m = x % 0x1_0000_0000;
    if m > i32::MAX {
        lemma_fundamental_div_mod_converse(m - 0x1_0000_0000, 0x1_0000_0000, -1, m);
    } else {
        lemma_fundamental_div_mod_converse(m, 0x1_0000_0000, 0, m);
    }
}

/// Summands congruent modulo 2^64 wrap to the same address.
pub proof fn lemma_wrap64_congruent(a: int, y1: int, y2: int)
    requires
        y1 % 0x1_0000_0000_0000_0000 == y2 % 0x1_0000_0000_0000_0000,
    ensures
        wrap64(a + y1) == wrap64(a + y2),
{
    lemma_add_mod_noop(a, y1, 0x1_0000_0000_0000_0000);
    lemma_add_mod_noop(a, y2, 0x1_0000_0000_0000_0000);
}

/// Summands congruent modulo 2^32 wrap to the same address.
pub proof fn lemma_wrap32_congruent(a: int, y1: int, y2: int)
    requires
        y1 % 0x1_0000_0000 == y2 % 0x1_0000_0000,
    ensures
        wrap32(a + y1) == wrap32(a + y2),
{
    lemma_add_mod_noop(a, y1, 0x1_0000_0000);
    lemma_add_mod_noop(a, y2, 0x1_0000_0000);
}

} // verus!
