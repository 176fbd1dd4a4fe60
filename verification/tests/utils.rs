use tlv_packet::error::DecodeError;
use tlv_packet::utils::{slice_to_u32_hton, slice_to_u32_ntoh, u32_to_vec_hton, u32_to_vec_ntoh};

#[test]
fn least_significant_first() {
    assert_eq!(slice_to_u32_ntoh(&[0x78, 0x56, 0x34, 0x12]), Ok(0x1234_5678));
    assert_eq!(slice_to_u32_ntoh(&[1, 0, 0, 0]), Ok(1));
    assert_eq!(slice_to_u32_ntoh(&[0, 0, 0, 0x80]), Ok(0x8000_0000));
    assert_eq!(slice_to_u32_ntoh(&[0xFF, 0xFF, 0xFF, 0xFF, 0x01]), Ok(u32::MAX));
    assert_eq!(u32_to_vec_hton(0x1234_5678), vec![0x78, 0x56, 0x34, 0x12]);
    assert_eq!(u32_to_vec_hton(1), vec![1, 0, 0, 0]);
    assert_eq!(u32_to_vec_hton(u32::MAX), vec![0xFF; 4]);
}

#[test]
fn most_significant_first() {
    assert_eq!(slice_to_u32_hton(&[0x12, 0x34, 0x56, 0x78]), Ok(0x1234_5678));
    assert_eq!(slice_to_u32_hton(&[0, 0, 0, 1]), Ok(1));
    assert_eq!(slice_to_u32_hton(&[0x80, 0, 0, 0, 7]), Ok(0x8000_0000));
    assert_eq!(u32_to_vec_ntoh(0x1234_5678), vec![0x12, 0x34, 0x56, 0x78]);
    assert_eq!(u32_to_vec_ntoh(1), vec![0, 0, 0, 1]);
    assert_eq!(u32_to_vec_ntoh(0), vec![0; 4]);
}

#[test]
fn short_slices_are_truncated_input() {
    for len in 0..4 {
        let bytes = vec![0xAB; len];
        assert_eq!(slice_to_u32_ntoh(&bytes), Err(DecodeError::TruncatedInput));
        assert_eq!(slice_to_u32_hton(&bytes), Err(DecodeError::TruncatedInput));
    }
}

#[test]
fn byte_order_round_trips() {
    for val in [0u32, 1, 0xFF, 0x100, 0xFFFF, 0x1_0000, 0x00FF_FF00, 0x1234_5678, 0x8000_0001, u32::MAX] {
        assert_eq!(slice_to_u32_ntoh(&u32_to_vec_hton(val)), Ok(val));
        assert_eq!(slice_to_u32_hton(&u32_to_vec_ntoh(val)), Ok(val));
        assert_eq!(u32_to_vec_hton(val), val.to_le_bytes().to_vec());
        assert_eq!(u32_to_vec_ntoh(val), val.to_be_bytes().to_vec());
    }
    let bytes = [0xDE, 0xAD, 0xBE, 0xEF];
    assert_eq!(u32_to_vec_hton(slice_to_u32_ntoh(&bytes).unwrap()), bytes.to_vec());
    assert_eq!(u32_to_vec_ntoh(slice_to_u32_hton(&bytes).unwrap()), bytes.to_vec());
}

#[test]
fn the_two_orders_mirror_each_other() {
    let bytes = [1u8, 2, 3, 4];
    let mirrored = [4u8, 3, 2, 1];
    assert_eq!(slice_to_u32_ntoh(&bytes), slice_to_u32_hton(&mirrored));
    assert_eq!(slice_to_u32_ntoh(&bytes), Ok(0x0403_0201));
}
