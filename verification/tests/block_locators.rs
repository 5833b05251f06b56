//! Block locators: queries, the serialized form, and what holds of writing and reading.

use std::collections::BTreeMap;
use std::io::{Error, ErrorKind, Read, Result as IoResult, Write};

use serde::{Deserialize, Deserializer, Serialize, Serializer};
use snarkos::block::{BlockHash, BlockHeader, HEADER_SIZE_IN_BYTES};
use snarkos::block_locators::{read_locator, BlockLocators, RawLocator, ReadError};
use snarkos::locator_reader::LocatorReader;
use snarkvm::parameters::testnet2::GenesisBlock;
use snarkvm::parameters::Genesis;
use snarkvm::utilities::{FromBytes, FromBytesDeserializer, ToBytes, ToBytesSerializer};

/// Reads the fields of a serialized header at their places.
fn header_of(bytes: &[u8]) -> BlockHeader {
    assert_eq!(HEADER_SIZE_IN_BYTES, bytes.len());
    let mut height = [0u8; 4];
    height.copy_from_slice(&bytes[64..68]);
    let mut weight = [0u8; 16];
    weight.copy_from_slice(&bytes[84..100]);
    BlockHeader {
        height: u32::from_le_bytes(height),
        cumulative_weight: u128::from_le_bytes(weight),
        is_hiding: bytes[HEADER_SIZE_IN_BYTES - 80..].iter().any(|byte| *byte != 0),
        bytes: bytes.to_vec(),
    }
}

fn hash_of(byte: u8) -> BlockHash {
    let mut bytes = [byte; 32];
    bytes[31] = 0;
    BlockHash::from_bytes(bytes).unwrap()
}

fn some_header(height: u32, cumulative_weight: u128) -> BlockHeader {
    let mut bytes = vec![7u8; HEADER_SIZE_IN_BYTES];
    bytes[64..68].copy_from_slice(&height.to_le_bytes());
    bytes[84..100].copy_from_slice(&cumulative_weight.to_le_bytes());
    header_of(&bytes)
}

/// The locators at the heights 5 (with a header), 9 and 300 (with a header).
fn sample() -> BlockLocators {
    let mut map = BTreeMap::new();
    map.insert(300, (hash_of(3), Some(some_header(300, 77))));
    map.insert(5, (hash_of(1), Some(some_header(5, 11))));
    map.insert(9, (hash_of(2), None));
    BlockLocators::from(map)
}

fn decode(entries: Vec<RawLocator>) -> BlockLocators {
    BlockLocators::from_entries(
        entries
            .into_iter()
            .map(|entry| (entry.height, entry.hash, entry.header.map(|bytes| header_of(&bytes))))
            .collect(),
    )
}

/// Block locators with the traits that `bincode` goes by.
#[derive(Debug, PartialEq)]
struct Locators(BlockLocators);

impl FromBytes for Locators {
    fn read_le<R: Read>(mut reader: R) -> IoResult<Self> {
        let mut locators = LocatorReader::new();
        loop {
            match locators.poll() {
                Ok(None) => return Ok(Locators(decode(locators.finish().unwrap().0))),
                Ok(Some(missing)) => {
                    let mut bytes = vec![0; missing];
                    reader.read_exact(&mut bytes)?;
                    locators.feed(&bytes);
                }
                Err(_) => return Err(Error::from(ErrorKind::InvalidData)),
            }
        }
    }
}

impl ToBytes for Locators {
    fn write_le<W: Write>(&self, mut writer: W) -> IoResult<()> {
        writer.write_all(&self.0.write_le())
    }
}

impl Serialize for Locators {
    fn serialize<S: Serializer>(&self, serializer: S) -> Result<S::Ok, S::Error> {
        ToBytesSerializer::serialize_with_size_encoding(self, serializer)
    }
}

impl<'de> Deserialize<'de> for Locators {
    fn deserialize<D: Deserializer<'de>>(deserializer: D) -> Result<Self, D::Error> {
        FromBytesDeserializer::<Self>::deserialize_with_size_encoding(deserializer, "block locators")
    }
}

#[test]
fn test_block_locators_bincode() {
    let genesis = GenesisBlock::load_bytes();
    let mut hash = [0u8; 32];
    hash.copy_from_slice(&genesis[..32]);
    let expected_block_header = header_of(&genesis[64..64 + HEADER_SIZE_IN_BYTES]);
    let expected_block_height = expected_block_header.height;
    assert_eq!(0, expected_block_height);
    let expected_block_hash = BlockHash::from_bytes(hash).unwrap();
    let expected_block_locators = Locators(BlockLocators::from(
        [(expected_block_height, (expected_block_hash, Some(expected_block_header)))].into(),
    ));

    // Serialize
    let expected_bytes = expected_block_locators.to_bytes_le().unwrap();
    let candidate_bytes = bincode::serialize(&expected_block_locators).unwrap();
    assert_eq!(944, expected_bytes.len());
    assert_eq!(&expected_bytes[..], &candidate_bytes[8..]);

    // Deserialize
    assert_eq!(expected_block_locators, <Locators as FromBytes>::read_le(&expected_bytes[..]).unwrap());
    assert_eq!(expected_block_locators, bincode::deserialize(&candidate_bytes[..]).unwrap());
}

#[test]
fn queries() {
    let locators = sample();
    assert!(!locators.is_empty());
    assert_eq!(3, locators.len());
    assert_eq!(Some(hash_of(1)), locators.get_block_hash(5));
    assert_eq!(Some(hash_of(2)), locators.get_block_hash(9));
    assert_eq!(None, locators.get_block_hash(6));
    assert_eq!(Some(11), locators.get_cumulative_weight(5));
    assert_eq!(None, locators.get_cumulative_weight(9));
    assert_eq!(None, locators.get_cumulative_weight(10));
    assert_eq!(Some(77), locators.get_cumulative_weight(300));
    let (height, entry) = locators.last().unwrap();
    assert_eq!(300, height);
    assert_eq!(hash_of(3), entry.0);
    // The map is at hand too.
    assert_eq!(vec![5, 9, 300], locators.keys().copied().collect::<Vec<u32>>());
    assert_eq!(locators, locators.clone());
}

#[test]
fn no_locators() {
    let locators = BlockLocators::default();
    assert!(locators.is_empty());
    assert_eq!(0, locators.len());
    assert!(locators.last().is_none());
    assert_eq!(vec![0, 0, 0, 0], locators.write_le());
    assert_eq!(Ok((vec![], 4)), BlockLocators::read_le(&[0, 0, 0, 0]));
}

#[test]
fn serialized_form_of_an_entry_without_header() {
    let mut map = BTreeMap::new();
    map.insert(0x0403_0201, (hash_of(9), None));
    let bytes = BlockLocators::from(map).write_le();
    let mut expected = vec![1, 0, 0, 0, 1, 2, 3, 4];
    expected.extend_from_slice(&[9; 31]);
    expected.extend_from_slice(&[0, 0]);
    assert_eq!(expected, bytes);
}

#[test]
fn read_gives_back_write() {
    let locators = sample();
    let mut bytes = locators.write_le();
    assert_eq!(4 + 3 * 37 + 2 * 903, bytes.len());
    let length = bytes.len();
    // What follows makes no difference.
    bytes.extend_from_slice(&[1, 2, 3]);
    let (entries, end) = BlockLocators::read_le(&bytes).unwrap();
    assert_eq!(length, end);
    assert_eq!(vec![5, 9, 300], entries.iter().map(|entry| entry.height).collect::<Vec<u32>>());
    assert_eq!(locators, decode(entries));
}

#[test]
fn later_entries_win() {
    let locators = BlockLocators::from_entries(vec![
        (4, hash_of(1), None),
        (2, hash_of(2), None),
        (4, hash_of(3), Some(some_header(4, 5))),
    ]);
    assert_eq!(2, locators.len());
    assert_eq!(Some(hash_of(3)), locators.get_block_hash(4));
    assert_eq!(Some(5), locators.get_cumulative_weight(4));
}

#[test]
fn reading_asks_for_the_missing_bytes() {
    let bytes = sample().write_le();
    let missing_at = |length: usize| match BlockLocators::read_le(&bytes[..length]) {
        Err(ReadError::UnexpectedEnd { missing }) => missing,
        other => panic!("{:?}", other),
    };
    assert_eq!(4, missing_at(0));
    assert_eq!(1, missing_at(3));
    assert_eq!(4, missing_at(4));
    assert_eq!(32, missing_at(8));
    assert_eq!(1, missing_at(39));
    assert_eq!(1, missing_at(40));
    assert_eq!(903, missing_at(41));
    assert_eq!(900, missing_at(44));
    // The more bytes are there, the fewer are missing; none is asked for past the end.
    for length in 0..bytes.len() {
        assert!(length + missing_at(length) <= bytes.len());
    }
}

#[test]
fn reading_refuses_a_hash_out_of_the_field() {
    let mut bytes = sample().write_le();
    for byte in bytes[8..40].iter_mut() {
        *byte = 0xff;
    }
    assert_eq!(Err(ReadError::InvalidHash), BlockLocators::read_le(&bytes));
    // The hash is refused before the flag is looked at.
    assert_eq!(Err(ReadError::InvalidHash), BlockLocators::read_le(&bytes[..40]));
    assert_eq!(Err(ReadError::InvalidHash), read_locator(&bytes, 4));
}

#[test]
fn reading_refuses_an_unknown_flag() {
    let mut bytes = sample().write_le();
    bytes[40] = 2;
    assert_eq!(Err(ReadError::InvalidFlag), BlockLocators::read_le(&bytes));
}

#[test]
fn one_entry_is_read_at_its_place() {
    let bytes = sample().write_le();
    let (first, next) = read_locator(&bytes, 4).unwrap();
    assert_eq!(5, first.height);
    assert_eq!(4 + 940, next);
    let (second, end) = read_locator(&bytes, next).unwrap();
    assert_eq!(RawLocator { height: 9, hash: hash_of(2), header: None }, second);
    assert_eq!(next + 37, end);
}

#[test]
fn the_reader_takes_no_byte_past_the_end() {
    let locators = sample();
    let mut stream = locators.write_le();
    let length = stream.len();
    stream.extend_from_slice(&[1, 2, 3]);
    let mut reader = LocatorReader::new();
    let mut taken = 0;
    while let Some(missing) = reader.poll().unwrap() {
        reader.feed(&stream[taken..taken + missing]);
        taken += missing;
    }
    assert_eq!(length, taken);
    let (entries, rest) = reader.finish().unwrap();
    assert_eq!(locators, decode(entries));
    assert!(rest.is_empty());

    // Fed all at once, it leaves what follows.
    let mut reader = LocatorReader::new();
    reader.feed(&stream);
    assert_eq!(Ok(None), reader.poll());
    assert_eq!(vec![1, 2, 3], reader.finish().unwrap().1);

    // Fed what is no hash, it says so.
    let mut reader = LocatorReader::new();
    reader.feed(&[1, 0, 0, 0, 7, 0, 0, 0]);
    assert_eq!(Ok(Some(32)), reader.poll());
    reader.feed(&[0xff; 32]);
    assert_eq!(Err(ReadError::InvalidHash), reader.poll());
    assert_eq!(Err(ReadError::InvalidHash), reader.finish());

    // Finished too early, it says what is missing; finished in time, it need not be polled.
    let mut reader = LocatorReader::new();
    reader.feed(&stream[..length - 1]);
    assert_eq!(Err(ReadError::UnexpectedEnd { missing: 1 }), reader.finish());
    let mut reader = LocatorReader::new();
    reader.feed(&stream[..length]);
    assert_eq!(locators, decode(reader.finish().unwrap().0));
}
