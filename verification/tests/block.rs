//! Block hashes and the constants of the network.

use snarkos::block::{Block, BlockHash, HEADER_SIZE_IN_BYTES, V12_UPGRADE_BLOCK_HEIGHT};
use snarkos::bytes::{append_bytes, copy_range, push_u32_le, read_32, read_u32_le, same_bytes, same_text};
use snarkvm::dpc::testnet2::Testnet2;
use snarkvm::dpc::Network;

/// The order of the field of block hashes, the least significant byte first.
const ORDER: [u8; 32] = [
    0x01, 0x00, 0x00, 0x00, 0x00, 0x80, 0x11, 0x0a, 0x01, 0x00, 0x00, 0xd0, 0xfe, 0x76, 0xaa, 0x59, 0x01, 0xb0, 0x37,
    0x5c, 0x1e, 0x4d, 0xb4, 0x60, 0x56, 0xa5, 0x2c, 0x9a, 0x5e, 0x65, 0xab, 0x12,
];

#[test]
fn constants_are_those_of_the_network() {
    assert_eq!(<Testnet2 as Network>::HEADER_SIZE_IN_BYTES, HEADER_SIZE_IN_BYTES);
    assert_eq!(snarkvm::dpc::testnet2::V12_UPGRADE_BLOCK_HEIGHT, V12_UPGRADE_BLOCK_HEIGHT);
    assert_eq!(100_000, V12_UPGRADE_BLOCK_HEIGHT);
}

#[test]
fn block_hashes_are_below_the_order_of_the_field() {
    assert!(BlockHash::from_bytes([0; 32]).is_some());
    assert_eq!(None, BlockHash::from_bytes(ORDER));
    let mut below = ORDER;
    below[0] = 0;
    assert_eq!(below, BlockHash::from_bytes(below).unwrap().bytes);
    let mut above = ORDER;
    above[0] = 2;
    assert_eq!(None, BlockHash::from_bytes(above));
    assert_eq!(None, BlockHash::from_bytes([0xff; 32]));
}

#[test]
fn block_hashes_are_equal_by_their_bytes() {
    let zero = BlockHash::from_bytes([0; 32]).unwrap();
    let mut bytes = [0; 32];
    bytes[17] = 1;
    let other = BlockHash::from_bytes(bytes).unwrap();
    assert_eq!(zero, BlockHash { bytes: [0; 32] });
    assert_ne!(zero, other);
}

#[test]
fn blocks_are_cloned() {
    let block = Block {
        height: 3,
        hash: BlockHash { bytes: [1; 32] },
        cumulative_weight: 4,
        is_hiding: true,
        is_valid: false,
        bytes: vec![1, 2],
    };
    assert_eq!(block, block.clone());
}

#[test]
fn numbers_round_trip() {
    for x in [0, 1, 255, 256, 0x0102_0304, u32::MAX] {
        let mut bytes = vec![9];
        push_u32_le(&mut bytes, x);
        assert_eq!(x.to_le_bytes(), bytes[1..]);
        bytes.push(8);
        assert_eq!(x, read_u32_le(&bytes, 1));
    }
}

#[test]
fn byte_strings() {
    let mut bytes = vec![1, 2];
    append_bytes(&mut bytes, &[3, 4]);
    assert_eq!(vec![1, 2, 3, 4], bytes);
    assert_eq!(vec![2, 3], copy_range(&bytes, 1, 3));
    assert!(same_bytes(&bytes, &[1, 2, 3, 4]));
    assert!(!same_bytes(&bytes, &[1, 2, 3]));
    assert!(!same_bytes(&bytes, &[1, 2, 3, 5]));
    assert!(same_text("getblock", "getblock"));
    assert!(!same_text("getblock", "getblocks"));
    let many: Vec<u8> = (0..40).collect();
    assert_eq!(many[5..37], read_32(&many, 5));
}
