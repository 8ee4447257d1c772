//! Addresses in a foreign process's memory.
//!
//! The pointers defined here denote locations inside another process's address
//! space; they are never dereferenceable from the process that holds them. A
//! raw pointer wraps a fixed-width unsigned address (32 or 64 bits), a typed
//! pointer additionally tags the address with a payload type at compile time.
//! Element-sized arithmetic on typed pointers is gated by the [`pod::Pod`]
//! capability, which asserts that the payload's size is fixed and known.
//!
//! All arithmetic wraps modulo two to the width: an offset never fails, and
//! the difference of two pointers is the two's-complement reading of the
//! wrapped byte distance. Pointer values carry no claim that the addressed
//! memory exists; they are plain values, freely copied and compared.

use vstd::prelude::*;

pub mod arith;
pub mod hexfmt;
pub mod pod;
pub mod ptr32;
pub mod ptr64;

pub use arith::sig32;
pub use arith::sig64;
pub use arith::trunc_div;
pub use arith::wrap32;
pub use arith::wrap64;
pub use pod::Pod;
pub use ptr32::RawPtr32;
pub use ptr32::TypePtr32;
pub use ptr64::RawPtr64;
pub use ptr64::TypePtr64;

verus! {

/// The raw pointer at the width native to the host this library is built
/// for. The choice of width stands once, at build time, and is never a
/// runtime decision.
pub type RawPtr = RawPtr64;

/// The typed pointer at the width native to the host this library is built
/// for.
pub type TypePtr<T> = TypePtr64<T>;

/// Interact with pointers at the host's own address width.
///
/// This is the boundary where a foreign address is handed to, or received
/// from, an API of the host process that speaks `usize`. Which pointer width
/// is native stands fixed at build time.
pub trait NativePtr: Sized {
    /// The host-native integer form of the pointer's address.
    spec fn spec_native(self) -> usize;

    /// The pointer that a host-native address turns into.
    spec fn spec_of_native(address: usize) -> Self;

    /// Whether the pointer's address fits the host's own address width.
    spec fn spec_fits_native(self) -> bool;

    /// Converts the pointer to a `usize` value. Defined only where the
    /// address fits the host's own width: an address is never silently
    /// truncated on the way out.
    fn into_usize(self) -> (r: usize)
        requires
            self.spec_fits_native(),
        ensures
            r == self.spec_native(),
    ;

    /// Creates a pointer from a `usize` value. A 32-bit pointer keeps the
    /// low 32 bits of the host-native address.
    fn from_usize(address: usize) -> (r: Self)
        ensures
            r == Self::spec_of_native(address),
    ;
}

impl NativePtr for RawPtr64 {
    open spec fn spec_native(self) -> usize {
        self.addr as usize
    }

    open spec fn spec_of_native(address: usize) -> RawPtr64 {
        RawPtr64 { addr: address as u64 }
    }

    open spec fn spec_fits_native(self) -> bool {
        self.addr <= usize::MAX
    }

    fn into_usize(self) -> (r: usize)
        ensures
            r == self.spec_native(),
    {
        self.addr as usize
    }

    fn from_usize(address: usize) -> (r: RawPtr64)
        ensures
            r == Self::spec_of_native(address),
    {
        RawPtr64 { addr: address as u64 }
    }
}

impl<T> NativePtr for TypePtr64<T> {
    open spec fn spec_native(self) -> usize {
        self.addr as usize
    }

    open spec fn spec_of_native(address: usize) -> TypePtr64<T> {
        TypePtr64 { addr: address as u64, tag: core::marker::PhantomData }
    }

    open spec fn spec_fits_native(self) -> bool {
        self.addr <= usize::MAX
    }

    fn into_usize(self) -> (r: usize)
        ensures
            r == self.spec_native(),
    {
        self.addr as usize
    }

    fn from_usize(address: usize) -> (r: TypePtr64<T>)
        ensures
            r == Self::spec_of_native(address),
    {
        TypePtr64 { addr: address as u64, tag: core::marker::PhantomData }
    }
}

impl NativePtr for RawPtr32 {
    open spec fn spec_native(self) -> usize {
        self.addr as usize
    }

    open spec fn spec_of_native(address: usize) -> RawPtr32 {
        RawPtr32 { addr: arith::wrap32(address as int) }
    }

    open spec fn spec_fits_native(self) -> bool {
        true
    }

    fn into_usize(self) -> (r: usize)
        ensures
            r == self.spec_native(),
    {
        self.addr as usize
    }

    fn from_usize(address: usize) -> (r: RawPtr32)
        ensures
            r == Self::spec_of_native(address),
    {
        let low: u64 = (address as u64) % 0x1_0000_0000;
        RawPtr32 { addr: low as u32 }
    }
}

impl<T> NativePtr for TypePtr32<T> {
    open spec fn spec_native(self) -> usize {
        self.addr as usize
    }

    open spec fn spec_of_native(address: usize) -> TypePtr32<T> {
        TypePtr32 { addr: arith::wrap32(address as int), tag: core::marker::PhantomData }
    }

    open spec fn spec_fits_native(self) -> bool {
        true
    }

    fn into_usize(self) -> (r: usize)
        ensures
            r == self.spec_native(),
    {
        self.addr as usize
    }

    fn from_usize(address: usize) -> (r: TypePtr32<T>)
        ensures
            r == Self::spec_of_native(address),
    {
        let low: u64 = (address as u64) % 0x1_0000_0000;
        TypePtr32 { addr: low as u32, tag: core::marker::PhantomData }
    }
}

impl From<RawPtr32> for RawPtr64 {
    /// Widens by zero-extension, as [`RawPtr32::widen`] does.
    fn from(ptr: RawPtr32) -> (r: RawPtr64)
        ensures
            r == ptr.spec_widen(),
    {
        ptr.widen()
    }
}

impl vstd::std_specs::convert::FromSpecImpl<RawPtr32> for RawPtr64 {
    open spec fn obeys_from_spec() -> bool {
        true
    }

    open spec fn from_spec(ptr: RawPtr32) -> RawPtr64 {
        ptr.spec_widen()
    }
}

impl<T> From<TypePtr32<T>> for TypePtr64<T> {
    /// Widens by zero-extension, as [`TypePtr32::widen`] does, keeping the
    /// payload type.
    fn from(ptr: TypePtr32<T>) -> (r: TypePtr64<T>)
        ensures
            r == ptr.spec_widen(),
    {
        ptr.widen()
    }
}

impl<T> vstd::std_specs::convert::FromSpecImpl<TypePtr32<T>> for TypePtr64<T> {
    open spec fn obeys_from_spec() -> bool {
        true
    }

    open spec fn from_spec(ptr: TypePtr32<T>) -> TypePtr64<T> {
        ptr.spec_widen()
    }
}

} // verus!
