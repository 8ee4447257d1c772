use remoteptr::NativePtr;
use remoteptr::RawPtr32;
use remoteptr::RawPtr64;
use remoteptr::TypePtr32;
use remoteptr::TypePtr64;

#[test]
fn raw64_round_trip() {
    assert_eq!(RawPtr64::from_integer(0).into_integer(), 0);
    assert_eq!(RawPtr64::from_integer(0x1234_5678_9abc_def0).into_integer(), 0x1234_5678_9abc_def0);
    assert_eq!(RawPtr64::from_integer(u64::MAX).into_integer(), u64::MAX);
}

#[test]
fn raw32_round_trip() {
    assert_eq!(RawPtr32::from_integer(0).into_integer(), 0);
    assert_eq!(RawPtr32::from_integer(0xdead_beef).into_integer(), 0xdead_beef);
    assert_eq!(RawPtr32::from_integer(u32::MAX).into_integer(), u32::MAX);
}

#[test]
fn typed_round_trip() {
    assert_eq!(TypePtr64::<u32>::from_integer(0x4000).into_integer(), 0x4000);
    assert_eq!(TypePtr32::<u16>::from_integer(0x8000_0001).into_integer(), 0x8000_0001);
}

#[test]
fn raw_typed_conversions() {
    let raw = RawPtr64::from_integer(0x7fff_0000);
    let typed = TypePtr64::<u64>::from_raw(raw);
    assert_eq!(typed.into_integer(), 0x7fff_0000);
    assert_eq!(typed.into_raw().into_integer(), 0x7fff_0000);

    let raw = RawPtr32::from_integer(0x1000);
    let typed = TypePtr32::<i8>::from_raw(raw);
    assert_eq!(typed.into_raw().into_integer(), 0x1000);
}

#[test]
fn raw_offset_forward_and_back() {
    let p = RawPtr64::from_integer(0x1000);
    assert_eq!(p.offset(0x20).into_integer(), 0x1020);
    assert_eq!(p.offset(-0x20).into_integer(), 0x0fe0);

    let q = RawPtr32::from_integer(0x1000);
    assert_eq!(q.offset(0x20).into_integer(), 0x1020);
    assert_eq!(q.offset(-0x20).into_integer(), 0x0fe0);
}

#[test]
fn raw32_offset_wraps_around() {
    // Offset arithmetic wraps modulo 2^32 and never fails.
    assert_eq!(RawPtr32::from_integer(0xFFFF_FFFF).offset(1).into_integer(), 0x0000_0000);
    assert_eq!(RawPtr32::from_integer(0).offset(-1).into_integer(), 0xFFFF_FFFF);
}

#[test]
fn raw64_offset_wraps_around() {
    assert_eq!(RawPtr64::from_integer(u64::MAX).offset(1).into_integer(), 0);
    assert_eq!(RawPtr64::from_integer(0).offset(-1).into_integer(), u64::MAX);
}

#[test]
fn raw_difference_is_byte_distance() {
    let base = RawPtr64::from_integer(0x2000);
    assert_eq!(base.offset(0x30).difference(base), 0x30);
    assert_eq!(base.difference(base.offset(0x30)), -0x30);
    assert_eq!(base.difference(base), 0);

    let base = RawPtr32::from_integer(0x2000);
    assert_eq!(base.offset(0x30).difference(base), 0x30);
    assert_eq!(base.difference(base.offset(0x30)), -0x30);
}

#[test]
fn raw_difference_wraps_as_signed() {
    // The byte distance is read modulo 2^width as a two's-complement value.
    assert_eq!(RawPtr64::from_integer(0).difference(RawPtr64::from_integer(u64::MAX)), 1);
    assert_eq!(RawPtr64::from_integer(u64::MAX).difference(RawPtr64::from_integer(0)), -1);
    assert_eq!(RawPtr32::from_integer(0).difference(RawPtr32::from_integer(u32::MAX)), 1);
    assert_eq!(RawPtr32::from_integer(u32::MAX).difference(RawPtr32::from_integer(0)), -1);
}

#[test]
fn widen_zero_extends() {
    // Widening is zero-extension, never sign-extension.
    assert_eq!(
        RawPtr32::from_integer(0x12345678).widen().into_integer(),
        0x0000_0000_1234_5678u64
    );
    assert_eq!(
        RawPtr32::from_integer(0xFFFF_FFFF).widen().into_integer(),
        0x0000_0000_FFFF_FFFFu64
    );
    assert_eq!(
        TypePtr32::<u32>::from_integer(0x8000_0000).widen().into_integer(),
        0x0000_0000_8000_0000u64
    );
}

#[test]
fn widen_preserves_order() {
    let a = RawPtr32::from_integer(0x1000).widen().into_integer();
    let b = RawPtr32::from_integer(0xF000_0000).widen().into_integer();
    assert!(a < b);
    assert_eq!(
        RawPtr32::from_integer(7).widen().into_integer(),
        RawPtr32::from_integer(7).widen().into_integer()
    );
}

#[test]
fn widen_through_from() {
    let w: RawPtr64 = RawPtr64::from(RawPtr32::from_integer(0xabc0_0001));
    assert_eq!(w.into_integer(), 0xabc0_0001u64);
    let t: TypePtr64<u16> = TypePtr64::from(TypePtr32::<u16>::from_integer(0x00F0_0002));
    assert_eq!(t.into_integer(), 0x00F0_0002u64);
}

#[test]
fn typed_offset_scales_by_element_size() {
    // Typed arithmetic matches scaled byte arithmetic.
    let p = TypePtr64::<u64>::from_integer(0x1000);
    assert_eq!(p.offset(3).into_integer(), 0x1000 + 3 * 8);
    assert_eq!(p.offset(-2).into_integer(), 0x1000 - 2 * 8);

    let q = TypePtr32::<u32>::from_integer(0x1000);
    assert_eq!(q.offset(3).into_integer(), 0x1000 + 3 * 4);
    assert_eq!(q.offset(-2).into_integer(), 0x1000 - 2 * 4);

    let bytes = TypePtr32::<u8>::from_integer(0x1000);
    assert_eq!(bytes.offset(5).into_integer(), 0x1005);

    let wide = TypePtr64::<u128>::from_integer(0x1000);
    assert_eq!(wide.offset(2).into_integer(), 0x1000 + 2 * 16);

    let flags = TypePtr64::<bool>::from_integer(0x1000);
    assert_eq!(flags.offset(3).into_integer(), 0x1003);
}

#[test]
fn typed_offset_wraps_around() {
    let p = TypePtr32::<u32>::from_integer(0xFFFF_FFFC);
    assert_eq!(p.offset(1).into_integer(), 0x0000_0000);
    let p = TypePtr64::<u16>::from_integer(u64::MAX - 1);
    assert_eq!(p.offset(1).into_integer(), 0);
}

#[test]
fn typed_difference_counts_elements() {
    let base = TypePtr64::<u32>::from_integer(0x3000);
    assert_eq!(base.offset(6).difference(base), 6);
    assert_eq!(base.difference(base.offset(6)), -6);

    let base = TypePtr32::<u16>::from_integer(0x3000);
    assert_eq!(base.offset(9).difference(base), 9);
    assert_eq!(base.difference(base.offset(9)), -9);
}

#[test]
fn typed_difference_truncates() {
    // Two 4-byte-element pointers 10 bytes apart are 2 elements apart:
    // truncating division, not an error.
    let low = TypePtr64::<u32>::from_integer(100);
    let high = TypePtr64::<u32>::from_integer(110);
    assert_eq!(high.difference(low), 2);
    assert_eq!(low.difference(high), -2);

    let low = TypePtr32::<u32>::from_integer(100);
    let high = TypePtr32::<u32>::from_integer(110);
    assert_eq!(high.difference(low), 2);
    assert_eq!(low.difference(high), -2);
}

#[test]
fn typed_difference_signed_extremes() {
    // The most negative signed distance divides without overflow.
    let a = TypePtr64::<u8>::from_integer(0x8000_0000_0000_0000);
    let b = TypePtr64::<u8>::from_integer(0);
    assert_eq!(a.difference(b), i64::MIN);
    let a = TypePtr32::<u8>::from_integer(0x8000_0000);
    let b = TypePtr32::<u8>::from_integer(0);
    assert_eq!(a.difference(b), i32::MIN);
}

#[test]
fn display_forms() {
    assert_eq!(RawPtr32::from_integer(0xabcd).display_string(), "0x0000abcd");
    assert_eq!(RawPtr64::from_integer(0xabcd).display_string(), "0x000000000000abcd");
    assert_eq!(
        RawPtr64::from_integer(0x0123_4567_89ab_cdef).display_string(),
        "0x0123456789abcdef"
    );
    assert_eq!(TypePtr32::<u32>::from_integer(0xFF).display_string(), "0x000000ff");
    assert_eq!(TypePtr64::<u32>::from_integer(0xFF).display_string(), "0x00000000000000ff");
}

#[test]
fn debug_forms_name_the_width() {
    assert_eq!(RawPtr32::from_integer(0x10).debug_string(), "RawPtr32(0x00000010)");
    assert_eq!(RawPtr64::from_integer(0x10).debug_string(), "RawPtr64(0x0000000000000010)");
    assert_eq!(TypePtr32::<u8>::from_integer(0x10).debug_string(), "TypePtr32(0x00000010)");
    assert_eq!(TypePtr64::<u8>::from_integer(0x10).debug_string(), "TypePtr64(0x0000000000000010)");
}

#[test]
fn native_bridge_round_trips() {
    assert_eq!(RawPtr64::from_usize(0x1234).into_usize(), 0x1234);
    assert_eq!(TypePtr64::<u32>::from_usize(0x5678).into_usize(), 0x5678);
    assert_eq!(RawPtr32::from_usize(0x9abc).into_usize(), 0x9abc);
    assert_eq!(TypePtr32::<u32>::from_usize(0xdef0).into_usize(), 0xdef0);
}

#[test]
fn native_bridge_32_keeps_low_bits() {
    // A host-native address wider than 32 bits keeps its low 32 bits when it
    // enters the 32-bit form.
    assert_eq!(RawPtr32::from_usize(0x1_2345_6789usize).into_integer(), 0x2345_6789u32);
    assert_eq!(TypePtr32::<u64>::from_usize(0x1_0000_0001usize).into_integer(), 1u32);
}

#[test]
fn pointers_are_plain_values() {
    let p = RawPtr64::from_integer(5);
    let q = p;
    assert_eq!(p, q);
    assert!(p == RawPtr64::from_integer(5));
    assert!(p != RawPtr64::from_integer(6));

    let t = TypePtr64::<u32>::from_integer(5);
    let u = t;
    assert_eq!(t.into_integer(), u.into_integer());
    let t32 = TypePtr32::<u32>::from_integer(5);
    let u32ptr = t32;
    assert_eq!(t32.into_integer(), u32ptr.into_integer());
}
