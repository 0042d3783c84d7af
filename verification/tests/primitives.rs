use easy::module::types::{NumType, ValType};
use easy::{Decode, Name};

#[test]
fn u32_boundary_values() {
    assert_eq!(u32::decode(&[0x00], 0), Ok((0u32, 1)));
    assert_eq!(
        u32::decode(&[0xFF, 0xFF, 0xFF, 0xFF, 0x0F], 0),
        Ok((u32::MAX, 5))
    );
}

#[test]
fn u32_rejects_overlong_encodings() {
    // a sixth continuation group
    assert!(u32::decode(&[0x80, 0x80, 0x80, 0x80, 0x80, 0x01], 0).is_err());
    // five groups whose final bits overflow 32 bits
    assert!(u32::decode(&[0xFF, 0xFF, 0xFF, 0xFF, 0x1F], 0).is_err());
}

#[test]
fn u32_accepts_padded_zero() {
    // a non-canonical two-group encoding of zero is still five groups or fewer
    assert_eq!(u32::decode(&[0x80, 0x00], 0), Ok((0u32, 2)));
}

#[test]
fn u32_rejects_truncation() {
    assert!(u32::decode(&[0x80], 0).is_err());
    assert!(u32::decode(&[], 0).is_err());
}

#[test]
fn signed_decoders_sign_extend() {
    assert_eq!(i32::decode(&[0x7F], 0), Ok((-1i32, 1)));
    assert_eq!(i64::decode(&[0x7F], 0), Ok((-1i64, 1)));
    assert_eq!(i32::decode(&[0x40], 0), Ok((-64i32, 1)));
    assert_eq!(i32::decode(&[0xFF, 0x7F], 0), Ok((-1i32, 2)));
    assert_eq!(i32::decode(&[0x08], 0), Ok((8i32, 1)));
}

#[test]
fn i32_range_limits() {
    assert_eq!(
        i32::decode(&[0xFF, 0xFF, 0xFF, 0xFF, 0x07], 0),
        Ok((i32::MAX, 5))
    );
    assert_eq!(
        i32::decode(&[0x80, 0x80, 0x80, 0x80, 0x78], 0),
        Ok((i32::MIN, 5))
    );
    assert!(i32::decode(&[0xFF, 0xFF, 0xFF, 0xFF, 0x3F], 0).is_err());
}

#[test]
fn u64_decodes_ten_groups() {
    assert_eq!(
        u64::decode(
            &[0xFF, 0xFF, 0xFF, 0xFF, 0xFF, 0xFF, 0xFF, 0xFF, 0xFF, 0x01],
            0
        ),
        Ok((u64::MAX, 10))
    );
    assert_eq!(u64::decode(&[0x2A], 0), Ok((42u64, 1)));
}

#[test]
fn u8_reads_one_byte() {
    assert_eq!(u8::decode(&[0x07, 0x08], 0), Ok((7u8, 1)));
    assert_eq!(u8::decode(&[0x07, 0x08], 1), Ok((8u8, 2)));
    assert!(u8::decode(&[0x07], 1).is_err());
}

#[test]
fn sequence_length_fidelity() {
    assert_eq!(
        <Vec<u8>>::decode(&[0x03, 0x01, 0x02, 0x03], 0),
        Ok((vec![1u8, 2, 3], 4))
    );
    // a zero-length sequence reads no elements
    assert_eq!(<Vec<u8>>::decode(&[0x00, 0xAA], 0), Ok((vec![], 1)));
    // fewer elements than declared
    assert!(<Vec<u8>>::decode(&[0x02, 0x01], 0).is_err());
    assert_eq!(
        <Vec<ValType>>::decode(&[0x02, 0x7F, 0x7E], 0),
        Ok((
            vec![ValType::NumType(NumType::I32), ValType::NumType(NumType::I64)],
            3
        ))
    );
}

#[test]
fn optional_probe_never_fails() {
    assert_eq!(<Option<u32>>::decode(&[0x05], 0), Ok((Some(5), 1)));
    assert_eq!(<Option<u32>>::decode(&[], 0), Ok((None, 0)));
}

#[test]
fn name_is_length_prefixed_bytes() {
    assert_eq!(
        Name::decode(&[0x02, 0xC3, 0xA9], 0),
        Ok((Name(vec![0xC3, 0xA9]), 3))
    );
    assert!(Name::decode(&[0x05, 0x01], 0).is_err());
}
