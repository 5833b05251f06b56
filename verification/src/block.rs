//! Block hashes, block headers and blocks, as the node handles them.

use snarkvm::dpc::testnet2::Testnet2;
use snarkvm::dpc::Network;
use snarkvm::utilities::FromBytes;
use vstd::prelude::*;

use crate::bytes::{le_value, same_bytes};

verus! {

/// The size of a serialized block header.
pub const HEADER_SIZE_IN_BYTES: usize = 903;

/// The last block height at which a hiding proof is accepted on the second testnet.
pub const V12_UPGRADE_BLOCK_HEIGHT: u32 = 100_000;

/// The order of the field that block hashes are elements of.
pub open spec fn hash_field_order() -> nat {
    8444461749428370424248824938781546531375899335154063827935233455917409239041nat
}

/// Whether 32 bytes are the encoding of a block hash: a field element in little-endian order.
pub open spec fn is_block_hash(s: Seq<u8>) -> bool {
    s.len() == 32 && le_value(s) < hash_field_order()
}

/// Calls `FromBytes::read_le` of the block hash of `snarkvm`'s second testnet
/// on 32 bytes. It reads four little-endian limbs and accepts them exactly if
/// the number that they form is below the order of the field.
#[verifier::external_body]
fn reads_as_block_hash(bytes: &[u8; 32]) -> (r: bool)
    ensures
        r == is_block_hash(bytes@),
{
    <Testnet2 as Network>::BlockHash::read_le(&bytes[..]).is_ok()
}

/// The hash of a block, in its serialized form.
#[derive(Clone, Copy, Debug)]
pub struct BlockHash {
    pub bytes: [u8; 32],
}

impl View for BlockHash {
    type V = Seq<u8>;

    open spec fn view(&self) -> Seq<u8> {
        self.bytes@
    }
}

impl PartialEq for BlockHash {
    fn eq(&self, other: &Self) -> (r: bool) {
        let r = same_bytes(self.bytes.as_slice(), other.bytes.as_slice());
        proof {
            if self.bytes@ == other.bytes@ {
                assert(self.bytes =~= other.bytes) by {
                    assert forall|i: int| 0 <= i < 32 implies self.bytes[i] == other.bytes[i] by {
                        assert(self.bytes@[i] == other.bytes@[i]);
                    }
                }
            }
        }
        r
    }
}

impl Eq for BlockHash {}

impl vstd::std_specs::cmp::PartialEqSpecImpl for BlockHash {
    open spec fn obeys_eq_spec() -> bool {
        true
    }

    open spec fn eq_spec(&self, other: &Self) -> bool {
        *self == *other
    }
}

impl BlockHash {
    /// Whether the bytes encode a field element.
    pub open spec fn wf(self) -> bool {
        is_block_hash(self@)
    }

    /// Takes 32 bytes for a block hash, if they encode a field element.
    pub fn from_bytes(bytes: [u8; 32]) -> (r: Option<BlockHash>)
        ensures
            r == (if is_block_hash(bytes@) {
                Some(BlockHash { bytes })
            } else {
                None
            }),
    {
        if reads_as_block_hash(&bytes) {
            Some(BlockHash { bytes })
        } else {
            None
        }
    }
}

/// What a block header tells.
pub struct HeaderView {
    pub height: u32,
    pub cumulative_weight: u128,
    pub is_hiding: bool,
    pub bytes: Seq<u8>,
}

impl HeaderView {
    /// Whether the serialized form has the size of a header.
    pub open spec fn wf(self) -> bool {
        self.bytes.len() == HEADER_SIZE_IN_BYTES
    }
}

/// The header of a block: what the node reads of it, and its serialized form.
#[derive(Debug, PartialEq, Eq)]
pub struct BlockHeader {
    /// The height of the block.
    pub height: u32,
    /// The cumulative weight up to the block, inclusive.
    pub cumulative_weight: u128,
    /// Whether the proof of the header is a hiding one.
    pub is_hiding: bool,
    /// The serialized header.
    pub bytes: Vec<u8>,
}

impl View for BlockHeader {
    type V = HeaderView;

    open spec fn view(&self) -> HeaderView {
        HeaderView {
            height: self.height,
            cumulative_weight: self.cumulative_weight,
            is_hiding: self.is_hiding,
            bytes: self.bytes@,
        }
    }
}

impl Clone for BlockHeader {
    fn clone(&self) -> (r: Self)
        ensures
            r@ == self@,
    {
        let bytes = self.bytes.clone();
        assert(bytes@ =~= self.bytes@);
        BlockHeader {
            height: self.height,
            cumulative_weight: self.cumulative_weight,
            is_hiding: self.is_hiding,
            bytes,
        }
    }
}

/// What a block tells.
pub struct BlockView {
    pub height: u32,
    pub hash: BlockHash,
    pub cumulative_weight: u128,
    pub is_hiding: bool,
    pub is_valid: bool,
    pub bytes: Seq<u8>,
}

/// A block: what the node reads of it, and its serialized form.
#[derive(Debug, PartialEq, Eq)]
pub struct Block {
    /// The height of the block.
    pub height: u32,
    /// The hash of the block.
    pub hash: BlockHash,
    /// The cumulative weight up to the block, inclusive.
    pub cumulative_weight: u128,
    /// Whether the proof of the block's header is a hiding one.
    pub is_hiding: bool,
    /// Whether the block is well-formed.
    pub is_valid: bool,
    /// The serialized block.
    pub bytes: Vec<u8>,
}

impl View for Block {
    type V = BlockView;

    open spec fn view(&self) -> BlockView {
        BlockView {
            height: self.height,
            hash: self.hash,
            cumulative_weight: self.cumulative_weight,
            is_hiding: self.is_hiding,
            is_valid: self.is_valid,
            bytes: self.bytes@,
        }
    }
}

impl Clone for Block {
    fn clone(&self) -> (r: Self)
        ensures
            r@ == self@,
    {
        let bytes = self.bytes.clone();
        assert(bytes@ =~= self.bytes@);
        Block {
            height: self.height,
            hash: self.hash,
            cumulative_weight: self.cumulative_weight,
            is_hiding: self.is_hiding,
            is_valid: self.is_valid,
            bytes,
        }
    }
}

} // verus!
