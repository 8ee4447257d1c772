//! 64-bit foreign pointers.
//!
//! [`RawPtr64`] wraps a 64-bit address in another process's memory;
//! [`TypePtr64`] additionally tags it with a payload type. Offsets wrap
//! modulo 2^64 and never fail; differences are the two's-complement reading
//! of the wrapped byte distance, scaled to elements for typed pointers with
//! truncating division.

use vstd::prelude::*;
use vstd::layout::size_of;
use vstd::string::StringExecFns;
use core::marker::PhantomData;
use crate::arith::lemma_sig_crop64;
use crate::arith::lemma_sig64_id;
use crate::arith::lemma_wrap64_add_signed;
use crate::arith::lemma_wrap64_congruent;
use crate::arith::lemma_wrap64_small;
use crate::arith::lemma_wrap64_sub;
use crate::arith::sig64;
use crate::arith::trunc_div;
use crate::arith::wrap64;
use crate::hexfmt::hex_digits;
use crate::hexfmt::hex_seq;
use crate::pod::Pod;

verus! {

/// An untyped 64-bit address in a foreign process's memory.
///
/// The value is a plain number: it never implies that the addressed memory is
/// mapped, and it is only meaningful relative to addresses of the same
/// foreign process.
#[derive(Clone, Copy, PartialEq, Eq, Structural, Debug)]
pub struct RawPtr64 {
    /// The address value.
    pub addr: u64,
}

impl RawPtr64 {
    /// The pointer holding the given address.
    pub open spec fn spec_from_integer(address: u64) -> RawPtr64 {
        RawPtr64 { addr: address }
    }

    /// The pointer `count` bytes further, wrapped modulo 2^64.
    pub open spec fn spec_offset(self, count: i64) -> RawPtr64 {
        RawPtr64 { addr: wrap64(self.addr + count) }
    }

    /// The byte distance from `other` to `self`, modulo 2^64, read as a
    /// two's-complement signed quantity.
    pub open spec fn spec_difference(self, other: RawPtr64) -> int {
        sig64(self.addr - other.addr)
    }

    /// The concise display form: `0x` and sixteen hex digits.
    pub open spec fn spec_display(self) -> Seq<char> {
        "0x"@ + hex_seq(self.addr as int, 16)
    }

    /// The debug form, naming the width variant.
    pub open spec fn spec_debug(self) -> Seq<char> {
        "RawPtr64("@ + self.spec_display() + ")"@
    }

    /// Wraps an address as a raw 64-bit pointer; lossless.
    pub fn from_integer(address: u64) -> (r: RawPtr64)
        ensures
            r == Self::spec_from_integer(address),
    {
        RawPtr64 { addr: address }
    }

    /// Returns the underlying address; lossless.
    pub fn into_integer(self) -> (r: u64)
        ensures
            r == self.addr,
    {
        self.addr
    }

    /// Moves the pointer by `count` bytes, wrapping modulo 2^64; never fails.
    pub fn offset(self, count: i64) -> (r: RawPtr64)
        ensures
            r == self.spec_offset(count),
            r.addr == wrap64(self.addr + count),
    {
        proof {
            lemma_wrap64_add_signed(self.addr, count);
        }
        RawPtr64 { addr: self.addr.wrapping_add_signed(count) }
    }

    /// The byte distance from `other` to `self`, wrapped modulo 2^64 and read
    /// as a signed 64-bit count.
    pub fn difference(self, other: RawPtr64) -> (r: i64)
        ensures
            r == self.spec_difference(other),
    {
        proof {
            lemma_wrap64_sub(self.addr, other.addr);
        }
        let d: u64 = self.addr.wrapping_sub(other.addr);
        if d < 0x8000_0000_0000_0000 {
            d as i64
        } else {
            ((d as i128) - 0x1_0000_0000_0000_0000i128) as i64
        }
    }

    /// The display text of the address.
    pub fn display_string(&self) -> (r: String)
        ensures
            r@ == self.spec_display(),
    {
        let mut s: String = "0x".to_owned();
        let digits = hex_digits(self.addr, 16);
        s.append(digits.as_str());
        s
    }

    /// The debug text of the pointer, naming the width variant.
    pub fn debug_string(&self) -> (r: String)
        ensures
            r@ == self.spec_debug(),
    {
        let mut s: String = "RawPtr64(".to_owned();
        let shown = self.display_string();
        s.append(shown.as_str());
        s.append(")");
        s
    }
}

/// Law: a raw pointer built from an address returns exactly that address.
pub proof fn lemma_raw64_round_trip(address: u64)
    ensures
        RawPtr64::spec_from_integer(address).addr == address,
{
}

/// Law: when moving a pointer does not wrap past either end of the address
/// space, the difference of the moved pointer from the original is the offset.
pub proof fn lemma_raw64_offset_difference_inverse(p: RawPtr64, count: i64)
    requires
        0 <= p.addr + count <= u64::MAX,
    ensures
        p.spec_offset(count).spec_difference(p) == count,
{
    lemma_wrap64_small(p.addr + count);
    lemma_sig64_id(count as int);
}

/// A 64-bit address tagged with the payload type `T`.
///
/// The tag costs no storage; element-sized arithmetic is available exactly
/// when `T` carries the [`Pod`] capability.
pub struct TypePtr64<T> {
    /// The address value.
    pub addr: u64,
    /// The compile-time payload tag; no runtime storage.
    pub tag: PhantomData<T>,
}

impl<T> Clone for TypePtr64<T> {
    fn clone(&self) -> (r: Self)
        ensures
            r == *self,
    {
        TypePtr64 { addr: self.addr, tag: PhantomData }
    }
}

impl<T> Copy for TypePtr64<T> {

}

impl<T> TypePtr64<T> {
    /// The typed pointer holding the given address.
    pub open spec fn spec_from_integer(address: u64) -> TypePtr64<T> {
        TypePtr64 { addr: address, tag: PhantomData }
    }

    /// The concise display form: `0x` and sixteen hex digits.
    pub open spec fn spec_display(self) -> Seq<char> {
        "0x"@ + hex_seq(self.addr as int, 16)
    }

    /// Wraps an address as a typed 64-bit pointer; lossless.
    pub fn from_integer(address: u64) -> (r: TypePtr64<T>)
        ensures
            r == Self::spec_from_integer(address),
    {
        TypePtr64 { addr: address, tag: PhantomData }
    }

    /// Returns the underlying address; lossless.
    pub fn into_integer(self) -> (r: u64)
        ensures
            r == self.addr,
    {
        self.addr
    }

    /// Attaches the payload type to a raw pointer; the address is kept as it
    /// is, for any `T`.
    pub fn from_raw(raw: RawPtr64) -> (r: TypePtr64<T>)
        ensures
            r.addr == raw.addr,
    {
        TypePtr64 { addr: raw.addr, tag: PhantomData }
    }

    /// Erases the payload type; the address is kept as it is, for any `T`.
    pub fn into_raw(self) -> (r: RawPtr64)
        ensures
            r.addr == self.addr,
    {
        RawPtr64 { addr: self.addr }
    }

    /// The display text of the address.
    pub fn display_string(&self) -> (r: String)
        ensures
            r@ == self.spec_display(),
    {
        let mut s: String = "0x".to_owned();
        let digits = hex_digits(self.addr, 16);
        s.append(digits.as_str());
        s
    }

    /// The debug form, naming the width variant.
    pub open spec fn spec_debug(self) -> Seq<char> {
        "TypePtr64("@ + self.spec_display() + ")"@
    }

    /// The debug text of the pointer, naming the width variant.
    pub fn debug_string(&self) -> (r: String)
        ensures
            r@ == self.spec_debug(),
    {
        let mut s: String = "TypePtr64(".to_owned();
        let shown = self.display_string();
        s.append(shown.as_str());
        s.append(")");
        s
    }
}

impl<T: Pod> TypePtr64<T> {
    /// The pointer `count` elements further: `count * size_of::<T>()` bytes,
    /// wrapped modulo 2^64.
    pub open spec fn spec_offset(self, count: i64) -> TypePtr64<T> {
        TypePtr64 { addr: wrap64(self.addr + count * size_of::<T>()), tag: PhantomData }
    }

    /// The element distance from `other` to `self`: the wrapped byte distance,
    /// read as a signed quantity, divided by the element size with truncation
    /// toward zero.
    pub open spec fn spec_difference(self, other: TypePtr64<T>) -> int {
        trunc_div(sig64(self.addr - other.addr), size_of::<T>() as int)
    }

    /// Moves the pointer by `count` elements, that is by
    /// `count * size_of::<T>()` bytes, wrapping modulo 2^64; never fails.
    pub fn offset(self, count: i64) -> (r: TypePtr64<T>)
        ensures
            r == self.spec_offset(count),
            r.addr == wrap64(self.addr + count * size_of::<T>()),
    {
        proof {
            T::pod_size_facts();
        }
        let s: usize = core::mem::size_of::<T>();
        let bytes: i64 = count.wrapping_mul(s as i64);
        proof {
            lemma_sig_crop64(count * (s as int));
            lemma_wrap64_congruent(self.addr as int, bytes as int, count * (s as int));
            lemma_wrap64_add_signed(self.addr, bytes);
        }
        TypePtr64 { addr: self.addr.wrapping_add_signed(bytes), tag: PhantomData }
    }

    /// The element distance from `other` to `self`: the signed byte distance
    /// divided by the element size, truncated toward zero; never fails.
    pub fn difference(self, other: TypePtr64<T>) -> (r: i64)
        ensures
            r == self.spec_difference(other),
    {
        proof {
            T::pod_size_facts();
        }
        let s: usize = core::mem::size_of::<T>();
        let d: i64 = self.into_raw().difference(other.into_raw());
        let magnitude: u64 = if d >= 0 {
            d as u64
        } else {
            (-(d as i128)) as u64
        };
        let q: u64 = magnitude / (s as u64);
        if d >= 0 {
            q as i64
        } else if q == 0x8000_0000_0000_0000 {
            i64::MIN
        } else {
            -(q as i64)
        }
    }
}

/// Law: typed-pointer movement is exactly byte movement scaled by the
/// element size: the moved pointer's address is the original plus
/// `count * size_of::<T>()`, modulo 2^64.
pub proof fn lemma_type64_offset_scaled<T: Pod>(p: TypePtr64<T>, count: i64)
    ensures
        p.spec_offset(count).addr == wrap64(p.addr + count * size_of::<T>()),
{
}

/// Law: when moving a typed pointer wraps past neither end of the address
/// space nor the signed reading of the byte distance, the element difference
/// of the moved pointer from the original is the element count moved by.
pub proof fn lemma_type64_offset_difference_inverse<T: Pod>(p: TypePtr64<T>, count: i64)
    requires
        0 <= p.addr + count * size_of::<T>() <= u64::MAX,
        -0x8000_0000_0000_0000 <= count * size_of::<T>() < 0x8000_0000_0000_0000,
    ensures
        p.spec_offset(count).spec_difference(p) == count,
{
    let s = size_of::<T>() as int;
    T::pod_size_facts();
    lemma_wrap64_small(p.addr + count * s);
    lemma_sig64_id(count * s);
    crate::arith::lemma_trunc_div_multiple(count as int, s);
}

} // verus!
