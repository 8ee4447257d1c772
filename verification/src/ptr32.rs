//! 32-bit foreign pointers.
//!
//! [`RawPtr32`] and [`TypePtr32`] mirror their 64-bit counterparts at 32-bit
//! width, and add the one cross-width conversion this library offers:
//! widening into the 64-bit form by zero-extension. No narrowing conversion
//! exists; an address is never silently truncated.

use vstd::prelude::*;
use vstd::layout::size_of;
use vstd::string::StringExecFns;
use core::marker::PhantomData;
use crate::arith::lemma_sig_crop32;
use crate::arith::lemma_sig32_id;
use crate::arith::lemma_wrap32_add_signed;
use crate::arith::lemma_wrap32_congruent;
use crate::arith::lemma_wrap32_small;
use crate::arith::lemma_wrap32_sub;
use crate::arith::sig32;
use crate::arith::trunc_div;
use crate::arith::wrap32;
use crate::hexfmt::hex_digits;
use crate::hexfmt::hex_seq;
use crate::pod::Pod;
use crate::ptr64::RawPtr64;
use crate::ptr64::TypePtr64;

verus! {

/// An untyped 32-bit address in a foreign process's memory.
///
/// The value is a plain number: it never implies that the addressed memory is
/// mapped, and it is only meaningful relative to addresses of the same
/// foreign process.
#[derive(Clone, Copy, PartialEq, Eq, Structural, Debug)]
pub struct RawPtr32 {
    /// The address value.
    pub addr: u32,
}

impl RawPtr32 {
    /// The pointer holding the given address.
    pub open spec fn spec_from_integer(address: u32) -> RawPtr32 {
        RawPtr32 { addr: address }
    }

    /// The pointer `count` bytes further, wrapped modulo 2^32.
    pub open spec fn spec_offset(self, count: i32) -> RawPtr32 {
        RawPtr32 { addr: wrap32(self.addr + count) }
    }

    /// The byte distance from `other` to `self`, modulo 2^32, read as a
    /// two's-complement signed quantity.
    pub open spec fn spec_difference(self, other: RawPtr32) -> int {
        sig32(self.addr - other.addr)
    }

    /// The zero-extended 64-bit form of the pointer.
    pub open spec fn spec_widen(self) -> RawPtr64 {
        RawPtr64 { addr: self.addr as u64 }
    }

    /// The concise display form: `0x` and eight hex digits.
    pub open spec fn spec_display(self) -> Seq<char> {
        "0x"@ + hex_seq(self.addr as int, 8)
    }

    /// The debug form, naming the width variant.
    pub open spec fn spec_debug(self) -> Seq<char> {
        "RawPtr32("@ + self.spec_display() + ")"@
    }

    /// Wraps an address as a raw 32-bit pointer; lossless.
    pub fn from_integer(address: u32) -> (r: RawPtr32)
        ensures
            r == Self::spec_from_integer(address),
    {
        RawPtr32 { addr: address }
    }

    /// Returns the underlying address; lossless.
    pub fn into_integer(self) -> (r: u32)
        ensures
            r == self.addr,
    {
        self.addr
    }

    /// Moves the pointer by `count` bytes, wrapping modulo 2^32; never fails.
    pub fn offset(self, count: i32) -> (r: RawPtr32)
        ensures
            r == self.spec_offset(count),
            r.addr == wrap32(self.addr + count),
    {
        proof {
            lemma_wrap32_add_signed(self.addr, count);
        }
        RawPtr32 { addr: self.addr.wrapping_add_signed(count) }
    }

    /// The byte distance from `other` to `self`, wrapped modulo 2^32 and read
    /// as a signed 32-bit count.
    pub fn difference(self, other: RawPtr32) -> (r: i32)
        ensures
            r == self.spec_difference(other),
    {
        proof {
            lemma_wrap32_sub(self.addr, other.addr);
        }
        let d: u32 = self.addr.wrapping_sub(other.addr);
        if d < 0x8000_0000 {
            d as i32
        } else {
            ((d as i64) - 0x1_0000_0000i64) as i32
        }
    }

    /// Widens into the 64-bit form by zero-extension; lossless, never
    /// sign-extends.
    pub fn widen(self) -> (r: RawPtr64)
        ensures
            r == self.spec_widen(),
            r.addr == self.addr as u64,
            r.addr <= u32::MAX,
    {
        RawPtr64 { addr: self.addr as u64 }
    }

    /// The display text of the address.
    pub fn display_string(&self) -> (r: String)
        ensures
            r@ == self.spec_display(),
    {
        let mut s: String = "0x".to_owned();
        let digits = hex_digits(self.addr as u64, 8);
        s.append(digits.as_str());
        s
    }

    /// The debug text of the pointer, naming the width variant.
    pub fn debug_string(&self) -> (r: String)
        ensures
            r@ == self.spec_debug(),
    {
        let mut s: String = "RawPtr32(".to_owned();
        let shown = self.display_string();
        s.append(shown.as_str());
        s.append(")");
        s
    }
}

/// Law: a raw pointer built from an address returns exactly that address.
pub proof fn lemma_raw32_round_trip(address: u32)
    ensures
        RawPtr32::spec_from_integer(address).addr == address,
{
}

/// Law: when moving a pointer does not wrap past either end of the address
/// space, the difference of the moved pointer from the original is the offset.
pub proof fn lemma_raw32_offset_difference_inverse(p: RawPtr32, count: i32)
    requires
        0 <= p.addr + count <= u32::MAX,
    ensures
        p.spec_offset(count).spec_difference(p) == count,
{
    lemma_wrap32_small(p.addr + count);
    lemma_sig32_id(count as int);
}

/// Law: widening is strictly order-preserving, and therefore injective; it
/// zero-extends and never sign-extends.
pub proof fn lemma_raw32_widen_monotone(p: RawPtr32, q: RawPtr32)
    ensures
        p.addr < q.addr ==> p.spec_widen().addr < q.spec_widen().addr,
        p.spec_widen().addr == q.spec_widen().addr ==> p.addr == q.addr,
        p.spec_widen().addr == p.addr,
{
}

/// A 32-bit address tagged with the payload type `T`.
///
/// The tag costs no storage; element-sized arithmetic is available exactly
/// when `T` carries the [`Pod`] capability.
pub struct TypePtr32<T> {
    /// The address value.
    pub addr: u32,
    /// The compile-time payload tag; no runtime storage.
    pub tag: PhantomData<T>,
}

impl<T> Clone for TypePtr32<T> {
    fn clone(&self) -> (r: Self)
        ensures
            r == *self,
    {
        TypePtr32 { addr: self.addr, tag: PhantomData }
    }
}

impl<T> Copy for TypePtr32<T> {

}

impl<T> TypePtr32<T> {
    /// The typed pointer holding the given address.
    pub open spec fn spec_from_integer(address: u32) -> TypePtr32<T> {
        TypePtr32 { addr: address, tag: PhantomData }
    }

    /// The zero-extended 64-bit form of the pointer, tagged with the same
    /// payload type.
    pub open spec fn spec_widen(self) -> TypePtr64<T> {
        TypePtr64 { addr: self.addr as u64, tag: PhantomData }
    }

    /// The concise display form: `0x` and eight hex digits.
    pub open spec fn spec_display(self) -> Seq<char> {
        "0x"@ + hex_seq(self.addr as int, 8)
    }

    /// The debug form, naming the width variant.
    pub open spec fn spec_debug(self) -> Seq<char> {
        "TypePtr32("@ + self.spec_display() + ")"@
    }

    /// Wraps an address as a typed 32-bit pointer; lossless.
    pub fn from_integer(address: u32) -> (r: TypePtr32<T>)
        ensures
            r == Self::spec_from_integer(address),
    {
        TypePtr32 { addr: address, tag: PhantomData }
    }

    /// Returns the underlying address; lossless.
    pub fn into_integer(self) -> (r: u32)
        ensures
            r == self.addr,
    {
        self.addr
    }

    /// Attaches the payload type to a raw pointer; the address is kept as it
    /// is, for any `T`.
    pub fn from_raw(raw: RawPtr32) -> (r: TypePtr32<T>)
        ensures
            r.addr == raw.addr,
    {
        TypePtr32 { addr: raw.addr, tag: PhantomData }
    }

    /// Erases the payload type; the address is kept as it is, for any `T`.
    pub fn into_raw(self) -> (r: RawPtr32)
        ensures
            r.addr == self.addr,
    {
        RawPtr32 { addr: self.addr }
    }

    /// Widens into the 64-bit form by zero-extension, keeping the payload
    /// type; lossless, never sign-extends.
    pub fn widen(self) -> (r: TypePtr64<T>)
        ensures
            r == self.spec_widen(),
            r.addr == self.addr as u64,
            r.addr <= u32::MAX,
    {
        TypePtr64 { addr: self.addr as u64, tag: PhantomData }
    }

    /// The display text of the address.
    pub fn display_string(&self) -> (r: String)
        ensures
            r@ == self.spec_display(),
    {
        let mut s: String = "0x".to_owned();
        let digits = hex_digits(self.addr as u64, 8);
        s.append(digits.as_str());
        s
    }

    /// The debug text of the pointer, naming the width variant.
    pub fn debug_string(&self) -> (r: String)
        ensures
            r@ == self.spec_debug(),
    {
        let mut s: String = "TypePtr32(".to_owned();
        let shown = self.display_string();
        s.append(shown.as_str());
        s.append(")");
        s
    }
}

impl<T: Pod> TypePtr32<T> {
    /// The pointer `count` elements further: `count * size_of::<T>()` bytes,
    /// wrapped modulo 2^32.
    pub open spec fn spec_offset(self, count: i32) -> TypePtr32<T> {
        TypePtr32 { addr: wrap32(self.addr + count * size_of::<T>()), tag: PhantomData }
    }

    /// The element distance from `other` to `self`: the wrapped byte distance,
    /// read as a signed quantity, divided by the element size with truncation
    /// toward zero.
    pub open spec fn spec_difference(self, other: TypePtr32<T>) -> int {
        trunc_div(sig32(self.addr - other.addr), size_of::<T>() as int)
    }

    /// Moves the pointer by `count` elements, that is by
    /// `count * size_of::<T>()` bytes, wrapping modulo 2^32; never fails.
    pub fn offset(self, count: i32) -> (r: TypePtr32<T>)
        ensures
            r == self.spec_offset(count),
            r.addr == wrap32(self.addr + count * size_of::<T>()),
    {
        proof {
            T::pod_size_facts();
        }
        let s: usize = core::mem::size_of::<T>();
        let bytes: i32 = count.wrapping_mul(s as i32);
        proof {
            lemma_sig_crop32(count * (s as int));
            lemma_wrap32_congruent(self.addr as int, bytes as int, count * (s as int));
            lemma_wrap32_add_signed(self.addr, bytes);
        }
        TypePtr32 { addr: self.addr.wrapping_add_signed(bytes), tag: PhantomData }
    }

    /// The element distance from `other` to `self`: the signed byte distance
    /// divided by the element size, truncated toward zero; never fails.
    pub fn difference(self, other: TypePtr32<T>) -> (r: i32)
        ensures
            r == self.spec_difference(other),
    {
        proof {
            T::pod_size_facts();
        }
        let s: usize = core::mem::size_of::<T>();
        let d: i32 = self.into_raw().difference(other.into_raw());
        let magnitude: u32 = if d >= 0 {
            d as u32
        } else {
            (-(d as i64)) as u32
        };
        let q: u32 = magnitude / (s as u32);
        if d >= 0 {
            q as i32
        } else if q == 0x8000_0000 {
            i32::MIN
        } else {
            -(q as i32)
        }
    }
}

/// Law: typed-pointer movement is exactly byte movement scaled by the
/// element size: the moved pointer's address is the original plus
/// `count * size_of::<T>()`, modulo 2^32.
pub proof fn lemma_type32_offset_scaled<T: Pod>(p: TypePtr32<T>, count: i32)
    ensures
        p.spec_offset(count).addr == wrap32(p.addr + count * size_of::<T>()),
{
}

/// Law: when moving a typed pointer wraps past neither end of the address
/// space nor the signed reading of the byte distance, the element difference
/// of the moved pointer from the original is the element count moved by.
pub proof fn lemma_type32_offset_difference_inverse<T: Pod>(p: TypePtr32<T>, count: i32)
    requires
        0 <= p.addr + count * size_of::<T>() <= u32::MAX,
        -0x8000_0000 <= count * size_of::<T>() < 0x8000_0000,
    ensures
        p.spec_offset(count).spec_difference(p) == count,
{
    let s = size_of::<T>() as int;
    T::pod_size_facts();
    lemma_wrap32_small(p.addr + count * s);
    lemma_sig32_id(count * s);
    crate::arith::lemma_trunc_div_multiple(count as int, s);
}

/// Law: widening a typed pointer is strictly order-preserving, and therefore
/// injective; it zero-extends and never sign-extends, and keeps the payload
/// type.
pub proof fn lemma_type32_widen_monotone<T>(p: TypePtr32<T>, q: TypePtr32<T>)
    ensures
        p.addr < q.addr ==> p.spec_widen().addr < q.spec_widen().addr,
        p.spec_widen().addr == q.spec_widen().addr ==> p.addr == q.addr,
        p.spec_widen().addr == p.addr,
{
}

} // verus!
