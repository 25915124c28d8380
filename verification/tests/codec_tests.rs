use simulation::codec::{
    decode_account, decode_accounts, decode_bytes, decode_end, decode_envelope, decode_length,
    decode_optional_bytes, decode_presence,
    decode_u128, decode_u32, decode_u64, decode_u8, encode_account, encode_accounts, encode_bool,
    encode_bytes, encode_length, encode_presence, encode_raw, encode_u128, encode_u32, encode_u64,
    encode_u8, encode_verdict, Account, DecodeError, Layer,
};
use simulation::wire::{push_le, read_le};

fn length_bytes(n: u32) -> Vec<u8> {
    let mut out = Vec::new();
    encode_length(n, &mut out);
    out
}

#[test]
fn integers_are_little_endian() {
    let mut out = Vec::new();
    encode_u8(0xab, &mut out);
    encode_u32(0x0102_0304, &mut out);
    encode_u64(1, &mut out);
    assert_eq!(out, vec![0xab, 4, 3, 2, 1, 1, 0, 0, 0, 0, 0, 0, 0]);
}

#[test]
fn u128_max_is_sixteen_full_bytes() {
    let mut out = Vec::new();
    encode_u128(u128::MAX, &mut out);
    assert_eq!(out, vec![0xff; 16]);
    assert_eq!(decode_u128(&out, 0), Ok((u128::MAX, 16)));
}

#[test]
fn u128_matches_the_platform_encoding() {
    let v: u128 = 1_000_000 * 10u128.pow(18);
    let mut out = Vec::new();
    encode_u128(v, &mut out);
    assert_eq!(out, v.to_le_bytes().to_vec());
}

#[test]
fn push_le_keeps_what_is_there() {
    let mut out = vec![9, 9];
    push_le(&mut out, 0x0102, 3);
    assert_eq!(out, vec![9, 9, 2, 1, 0]);
    assert_eq!(read_le(&out, 2, 3), 0x0102);
}

#[test]
fn integers_round_trip() {
    let mut out = vec![7];
    encode_u8(200, &mut out);
    encode_u32(4_000_000_000, &mut out);
    encode_u64(u64::MAX - 5, &mut out);
    encode_u128(12345678901234567890123456789, &mut out);
    let (a, at) = decode_u8(&out, 1).unwrap();
    let (b, at) = decode_u32(&out, at).unwrap();
    let (c, at) = decode_u64(&out, at).unwrap();
    let (d, at) = decode_u128(&out, at).unwrap();
    assert_eq!((a, b, c, d), (200, 4_000_000_000, u64::MAX - 5, 12345678901234567890123456789));
    assert_eq!(at, out.len());
    assert_eq!(decode_end(&out, at), Ok(()));
}

#[test]
fn short_buffers_are_refused() {
    assert_eq!(decode_u8(&[], 0), Err(DecodeError::UnexpectedEnd));
    assert_eq!(decode_u32(&[1, 2, 3], 0), Err(DecodeError::UnexpectedEnd));
    assert_eq!(decode_u64(&[0; 8], 1), Err(DecodeError::UnexpectedEnd));
    assert_eq!(decode_u128(&[0; 15], 0), Err(DecodeError::UnexpectedEnd));
    assert_eq!(decode_u32(&[0; 4], usize::MAX), Err(DecodeError::UnexpectedEnd));
    assert_eq!(decode_account(&[0; 31], 0), Err(DecodeError::UnexpectedEnd));
}

#[test]
fn end_of_buffer_is_exact() {
    assert_eq!(decode_end(&[1, 2], 2), Ok(()));
    assert_eq!(decode_end(&[1, 2], 1), Err(DecodeError::TrailingBytes));
    assert_eq!(decode_end(&[1, 2], 3), Err(DecodeError::UnexpectedEnd));
}

#[test]
fn account_round_trip() {
    let mut id = [0u8; 32];
    for (i, b) in id.iter_mut().enumerate() {
        *b = i as u8;
    }
    let a = Account { id };
    let mut out = vec![0xee];
    encode_account(&a, &mut out);
    assert_eq!(out.len(), 33);
    assert_eq!(&out[1..], &id[..]);
    assert_eq!(decode_account(&out, 1), Ok((a, 33)));
}

#[test]
fn length_prefix_forms() {
    assert_eq!(length_bytes(0), vec![0]);
    assert_eq!(length_bytes(1), vec![4]);
    assert_eq!(length_bytes(63), vec![252]);
    assert_eq!(length_bytes(64), vec![1, 1]);
    assert_eq!(length_bytes(16383), vec![0xfd, 0xff]);
    assert_eq!(length_bytes(16384), vec![2, 0, 1, 0]);
    assert_eq!(length_bytes((1 << 30) - 1), vec![0xfe, 0xff, 0xff, 0xff]);
    assert_eq!(length_bytes(1 << 30), vec![3, 0, 0, 0, 0x40]);
    assert_eq!(length_bytes(u32::MAX), vec![3, 0xff, 0xff, 0xff, 0xff]);
}

#[test]
fn length_prefix_round_trip() {
    for n in [0u32, 1, 63, 64, 65, 16383, 16384, 1_000_000, (1 << 30) - 1, 1 << 30, u32::MAX] {
        let mut out = vec![0xaa];
        encode_length(n, &mut out);
        let width = out.len();
        out.push(0xbb);
        assert_eq!(decode_length(&out, 1), Ok((n, width)));
    }
}

#[test]
fn length_prefix_must_be_shortest() {
    assert_eq!(decode_length(&[1, 0], 0), Err(DecodeError::BadLength));
    assert_eq!(decode_length(&[0xfd, 0], 0), Err(DecodeError::BadLength));
    assert_eq!(decode_length(&[2, 0, 0, 0], 0), Err(DecodeError::BadLength));
    assert_eq!(decode_length(&[3, 0xff, 0xff, 0xff, 0x3f], 0), Err(DecodeError::BadLength));
    assert_eq!(decode_length(&[7, 0, 0, 0, 0x40, 0], 0), Err(DecodeError::BadLength));
    assert_eq!(decode_length(&[1], 0), Err(DecodeError::UnexpectedEnd));
    assert_eq!(decode_length(&[3, 0, 0, 0], 0), Err(DecodeError::UnexpectedEnd));
    assert_eq!(decode_length(&[], 0), Err(DecodeError::UnexpectedEnd));
}

#[test]
fn presence_tags() {
    let mut out = Vec::new();
    encode_presence(false, &mut out);
    encode_presence(true, &mut out);
    assert_eq!(out, vec![0, 1]);
    assert_eq!(decode_presence(&out, 0), Ok((false, 1)));
    assert_eq!(decode_presence(&out, 1), Ok((true, 2)));
    assert_eq!(decode_presence(&out, 2), Err(DecodeError::UnexpectedEnd));
    assert_eq!(decode_presence(&[2], 0), Err(DecodeError::BadTag));
}

#[test]
fn envelope_discriminants() {
    let mut out = Vec::new();
    encode_verdict(true, &mut out);
    encode_verdict(false, &mut out);
    assert_eq!(out, vec![0, 1]);
    assert_eq!(decode_envelope(&out, 0, Layer::Dispatch), Ok(1));
    assert_eq!(
        decode_envelope(&out, 1, Layer::Dispatch),
        Err(DecodeError::Failed(Layer::Dispatch))
    );
    assert_eq!(
        decode_envelope(&out, 1, Layer::Application),
        Err(DecodeError::Failed(Layer::Application))
    );
    assert_eq!(decode_envelope(&[9], 0, Layer::Dispatch), Err(DecodeError::BadTag));
    assert_eq!(decode_envelope(&[], 0, Layer::Dispatch), Err(DecodeError::UnexpectedEnd));
}

#[test]
fn ok_with_a_zero_payload_is_not_a_failure() {
    let mut out = Vec::new();
    encode_verdict(true, &mut out);
    encode_u8(0, &mut out);
    let at = decode_envelope(&out, 0, Layer::Dispatch).unwrap();
    assert_eq!(decode_u8(&out, at), Ok((0, 2)));
}

#[test]
fn text_is_length_then_bytes() {
    let mut out = Vec::new();
    encode_bytes("WOOD".as_bytes(), &mut out);
    assert_eq!(out, vec![16, b'W', b'O', b'O', b'D']);
    assert_eq!(decode_bytes(&out, 0), Ok((b"WOOD".to_vec(), 5)));
    assert_eq!(decode_bytes(&[16, b'W'], 0), Err(DecodeError::UnexpectedEnd));
    assert_eq!(decode_bytes(&[0], 0), Ok((Vec::new(), 1)));
}

#[test]
fn long_text_takes_a_two_byte_length() {
    let content = vec![5u8; 100];
    let mut out = Vec::new();
    encode_bytes(&content, &mut out);
    assert_eq!(&out[..2], &[0x91, 0x01]);
    assert_eq!(decode_bytes(&out, 0), Ok((content, 102)));
}

#[test]
fn accounts_are_counted_then_concatenated() {
    let a = Account { id: [1; 32] };
    let b = Account { id: [3; 32] };
    let mut out = Vec::new();
    encode_accounts(&vec![a, b], &mut out);
    let mut expected = vec![8u8];
    expected.extend_from_slice(&[1; 32]);
    expected.extend_from_slice(&[3; 32]);
    assert_eq!(out, expected);
}

#[test]
fn raw_bytes_and_booleans() {
    let mut out = vec![1];
    encode_raw(&[2, 3], &mut out);
    encode_bool(true, &mut out);
    encode_bool(false, &mut out);
    assert_eq!(out, vec![1, 2, 3, 1, 0]);
}

#[test]
fn accounts_round_trip() {
    let a = Account { id: [1; 32] };
    let b = Account { id: [3; 32] };
    let mut out = vec![0xaa];
    encode_accounts(&vec![a, b, a], &mut out);
    out.push(0xbb);
    assert_eq!(decode_accounts(&out, 1), Ok((vec![a, b, a], 98)));
    assert_eq!(decode_accounts(&[0], 0), Ok((Vec::new(), 1)));
    assert_eq!(decode_accounts(&out[..97], 1), Err(DecodeError::UnexpectedEnd));
    assert_eq!(decode_accounts(&[1, 0], 0), Err(DecodeError::BadLength));
}

#[test]
fn optional_text_round_trip() {
    let mut out = vec![0xaa];
    encode_presence(true, &mut out);
    encode_bytes(b"ICE", &mut out);
    encode_presence(false, &mut out);
    assert_eq!(out, vec![0xaa, 1, 12, b'I', b'C', b'E', 0]);
    assert_eq!(decode_optional_bytes(&out, 1), Ok((Some(b"ICE".to_vec()), 6)));
    assert_eq!(decode_optional_bytes(&out, 6), Ok((None, 7)));
    assert_eq!(decode_optional_bytes(&out, 7), Err(DecodeError::UnexpectedEnd));
    assert_eq!(decode_optional_bytes(&[2], 0), Err(DecodeError::BadTag));
    assert_eq!(decode_optional_bytes(&[1, 12, b'I'], 0), Err(DecodeError::UnexpectedEnd));
    assert_eq!(decode_optional_bytes(&[1, 0], 0), Ok((Some(Vec::new()), 2)));
}
