//! The plain-old-data capability.
//!
//! `Pod` marks exactly the types whose size is fixed and statically known, so
//! that a typed pointer may step over them and count elements between two
//! addresses. It grants no behaviour and makes no claim that copying such a
//! value across a process boundary is meaningful; it only certifies the size.

use vstd::prelude::*;
use vstd::layout::size_of;

verus! {

/// A marker for types of fixed, known size and stable byte layout.
///
/// The one obligation on an implementor is a proof that the type's size is at
/// least one byte (so element counts divide by it) and small enough that a
/// byte distance scaled by it is computable at either pointer width.
pub trait Pod: Sized {
    /// The size of the type is positive and fits comfortably in 31 bits.
    proof fn pod_size_facts()
        ensures
            1 <= size_of::<Self>() <= 0x7fff_ffff;
}

impl Pod for u8 {
    proof fn pod_size_facts() {
        broadcast use vstd::layout::layout_of_primitives;

    }
}

impl Pod for u16 {
    proof fn pod_size_facts() {
        broadcast use vstd::layout::layout_of_primitives;

    }
}

impl Pod for u32 {
    proof fn pod_size_facts() {
        broadcast use vstd::layout::layout_of_primitives;

    }
}

impl Pod for u64 {
    proof fn pod_size_facts() {
        broadcast use vstd::layout::layout_of_primitives;

    }
}

impl Pod for i8 {
    proof fn pod_size_facts() {
        broadcast use vstd::layout::layout_of_primitives;

    }
}

impl Pod for i16 {
    proof fn pod_size_facts() {
        broadcast use vstd::layout::layout_of_primitives;

    }
}

impl Pod for i32 {
    proof fn pod_size_facts() {
        broadcast use vstd::layout::layout_of_primitives;

    }
}

impl Pod for i64 {
    proof fn pod_size_facts() {
        broadcast use vstd::layout::layout_of_primitives;

    }
}

impl Pod for u128 {
    proof fn pod_size_facts() {
        broadcast use vstd::layout::layout_of_primitives;

    }
}

impl Pod for i128 {
    proof fn pod_size_facts() {
        broadcast use vstd::layout::layout_of_primitives;

    }
}

impl Pod for bool {
    proof fn pod_size_facts() {
        broadcast use vstd::layout::layout_of_primitives;

    }
}

} // verus!
