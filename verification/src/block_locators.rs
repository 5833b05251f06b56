//! Block locators: for chosen heights of a ledger, the hash of the block there
//! and, for some, its header.

use std::collections::BTreeMap;
use vstd::prelude::*;
use vstd::std_specs::cmp::OrdSpec;
use vstd::std_specs::iter::IteratorSpec;

use crate::block::{is_block_hash, BlockHash, BlockHeader, HeaderView, HEADER_SIZE_IN_BYTES};
use crate::bytes::{append_bytes, copy_range, push_u32_le, read_32, read_u32_le, u32_at, u32_le};

verus! {

/// What is located at one height.
pub struct LocatorView {
    pub hash: Seq<u8>,
    pub header: Option<HeaderView>,
}

impl LocatorView {
    /// Whether the hash encodes a field element and the header has the size of one.
    pub open spec fn wf(self) -> bool {
        &&& is_block_hash(self.hash)
        &&& self.header matches Some(header) ==> header.wf()
    }
}

/// What an entry of the map locates.
pub open spec fn locator_view(entry: (BlockHash, Option<BlockHeader>)) -> LocatorView {
    LocatorView {
        hash: entry.0@,
        header: match entry.1 {
            Some(header) => Some(header@),
            None => None,
        },
    }
}

/// What the map locates at each height.
pub open spec fn locators_view(map: Map<u32, (BlockHash, Option<BlockHeader>)>) -> Map<
    u32,
    LocatorView,
> {
    map.map_values(|entry: (BlockHash, Option<BlockHeader>)| locator_view(entry))
}

/// Block locators, by height.
#[derive(Debug, PartialEq, Eq)]
pub struct BlockLocators {
    block_locators: BTreeMap<u32, (BlockHash, Option<BlockHeader>)>,
}

impl View for BlockLocators {
    type V = Map<u32, LocatorView>;

    closed spec fn view(&self) -> Map<u32, LocatorView> {
        locators_view(self.block_locators@)
    }
}

impl BlockLocators {
    /// Makes block locators of a map from heights.
    pub fn from(block_locators: BTreeMap<u32, (BlockHash, Option<BlockHeader>)>) -> (r: Self)
        ensures
            r@ == locators_view(block_locators@),
    {
        BlockLocators { block_locators }
    }

    /// Whether nothing is located.
    pub fn is_empty(&self) -> (r: bool)
        ensures
            r == (self@ == Map::<u32, LocatorView>::empty()),
    {
        let r = self.block_locators.is_empty();
        proof {
            if r {
                assert(self@ =~= Map::<u32, LocatorView>::empty());
            } else {
                assert(self@.dom() =~= self.block_locators@.dom());
            }
        }
        r
    }

    /// The number of heights.
    pub fn len(&self) -> (r: usize)
        ensures
            r == self@.len(),
    {
        assert(self@.dom() =~= self.block_locators@.dom());
        self.block_locators.len()
    }

    /// The hash of the block at a height.
    pub fn get_block_hash(&self, block_height: u32) -> (r: Option<BlockHash>)
        ensures
            r is Some <==> self@.contains_key(block_height),
            r matches Some(hash) ==> hash@ == self@[block_height].hash,
    {
        match self.block_locators.get(&block_height) {
            Some(entry) => Some(entry.0),
            None => None,
        }
    }

    /// The cumulative weight at a height, where the header is located too.
    pub fn get_cumulative_weight(&self, block_height: u32) -> (r: Option<u128>)
        ensures
            r == (if self@.contains_key(block_height) {
                match self@[block_height].header {
                    Some(header) => Some(header.cumulative_weight),
                    None => None,
                }
            } else {
                None
            }),
    {
        match self.block_locators.get(&block_height) {
            Some(entry) => match &entry.1 {
                Some(header) => Some(header.cumulative_weight),
                None => None,
            },
            None => None,
        }
    }
}

/// The located heights below `bound`, in increasing order, each with what is located there.
pub open spec fn ordered_below(m: Map<u32, LocatorView>, bound: int) -> Seq<(u32, LocatorView)>
    decreases bound,
{
    if bound <= 0 {
        Seq::empty()
    } else {
        let height = (bound - 1) as u32;
        let rest = ordered_below(m, bound - 1);
        if m.contains_key(height) {
            rest.push((height, m[height]))
        } else {
            rest
        }
    }
}

/// The located heights in increasing order, each with what is located there.
pub open spec fn ordered(m: Map<u32, LocatorView>) -> Seq<(u32, LocatorView)> {
    ordered_below(m, 0x1_0000_0000)
}

/// The bytes of one entry: the height, the hash, a flag, and the header where the flag is set.
pub open spec fn entry_bytes(height: u32, locator: LocatorView) -> Seq<u8> {
    u32_le(height) + locator.hash + match locator.header {
        Some(header) => seq![1u8] + header.bytes,
        None => seq![0u8],
    }
}

/// The bytes of entries, one after the other.
pub open spec fn entries_bytes(entries: Seq<(u32, LocatorView)>) -> Seq<u8>
    decreases entries.len(),
{
    if entries.len() == 0 {
        Seq::empty()
    } else {
        entries_bytes(entries.drop_last()) + entry_bytes(entries.last().0, entries.last().1)
    }
}

/// The bytes of block locators: the number of entries, then the entries in order of height.
/// The number is written in four bytes, so only its remainder is kept of a larger one.
pub open spec fn locators_bytes(m: Map<u32, LocatorView>) -> Seq<u8> {
    u32_le(m.len() as u32) + entries_bytes(ordered(m))
}

/// A sequence in increasing order that lists what is located below `bound` is the ordered one.
proof fn lemma_ordered_below_unique(
    m: Map<u32, LocatorView>,
    s: Seq<(u32, LocatorView)>,
    bound: int,
)
    requires
        0 <= bound <= 0x1_0000_0000,
        forall|i: int, j: int| 0 <= i < j < s.len() ==> s[i].0 < s[j].0,
        forall|i: int|
            0 <= i < s.len() ==> (#[trigger] s[i]).0 < bound && m.contains_key(s[i].0) && m[s[i].0]
                == s[i].1,
        forall|k: u32| #[trigger]
            m.contains_key(k) && k < bound ==> exists|i: int| 0 <= i < s.len() && s[i].0 == k,
    ensures
        s == ordered_below(m, bound),
    decreases bound,
{
    if bound == 0 {
        assert(s.len() == 0) by {
            if s.len() > 0 {
                assert(s[0].0 < bound);
            }
        }
        assert(s =~= Seq::empty());
    } else {
        let height = (bound - 1) as u32;
        if m.contains_key(height) {
            let i = choose|i: int| 0 <= i < s.len() && s[i].0 == height;
            assert(i == s.len() - 1) by {
                if i < s.len() - 1 {
                    assert(s[i].0 < s[s.len() - 1].0);
                }
            }
            let t = s.drop_last();
            assert forall|j: int| 0 <= j < t.len() implies (#[trigger] t[j]).0 < bound - 1 by {
                assert(s[j].0 < s[i].0);
            }
            assert forall|k: u32| #[trigger] m.contains_key(k) && k < bound - 1 implies exists|j: int|
                0 <= j < t.len() && t[j].0 == k by {
                let j = choose|j: int| 0 <= j < s.len() && s[j].0 == k;
                assert(t[j].0 == k);
            }
            lemma_ordered_below_unique(m, t, bound - 1);
            assert(s =~= t.push(s[i]));
        } else {
            assert forall|j: int| 0 <= j < s.len() implies (#[trigger] s[j]).0 < bound - 1 by {
                assert(m.contains_key(s[j].0));
            }
            lemma_ordered_below_unique(m, s, bound - 1);
        }
    }
}

/// Entries whose heights increase by the order of `u32` increase by `<`.
proof fn lemma_increasing(s: Seq<(&u32, &(BlockHash, Option<BlockHeader>))>)
    requires
        vstd::std_specs::btree::increasing_seq(
            s.map_values(|x: (&u32, &(BlockHash, Option<BlockHeader>))| *x.0),
        ),
    ensures
        forall|i: int, j: int| 0 <= i < j < s.len() ==> *s[i].0 < *s[j].0,
{
    broadcast use vstd::std_specs::btree::group_btree_axioms;
    broadcast use vstd::laws_cmp::group_laws_cmp;

    let keys = s.map_values(|x: (&u32, &(BlockHash, Option<BlockHeader>))| *x.0);
    assert forall|i: int, j: int| 0 <= i < j < s.len() implies *s[i].0 < *s[j].0 by {
        assert(keys[i].cmp_spec(&keys[j]) is Less);
    }
}

impl BlockLocators {
    /// Serializes the block locators.
    pub fn write_le(&self) -> (r: Vec<u8>)
        ensures
            r@ == locators_bytes(self@),
    {
        let mut out: Vec<u8> = Vec::new();
        let count: usize = self.block_locators.len();
        proof {
            assert(self@.dom() =~= self.block_locators@.dom());
        }
        push_u32_le(&mut out, count as u32);
        let ghost head = out@;
        let ghost mut done: Seq<(u32, LocatorView)> = Seq::empty();
        let entries = self.block_locators.iter();
        proof {
            lemma_increasing(entries.remaining());
            assert forall|k: u32| #[trigger] self@.contains_key(k) implies exists|i: int|
                0 <= i < entries.remaining().len() && *entries.remaining()[i].0 == k by {
                assert(self.block_locators@.contains_key(k));
                assert(entries.remaining().contains((&k, &self.block_locators@[k])));
            }
        }
        for x in iter: entries
            invariant
                forall|i: int, j: int|
                    0 <= i < j < iter.seq().len() ==> *iter.seq()[i].0 < *iter.seq()[j].0,
                forall|k: u32| #[trigger]
                    self@.contains_key(k) ==> exists|i: int|
                        0 <= i < iter.seq().len() && *iter.seq()[i].0 == k,
                out@ == head + entries_bytes(done),
                done.len() == iter.index(),
                forall|i: int|
                    0 <= i < done.len() ==> #[trigger] done[i] == (
                        *iter.seq()[i].0,
                        locator_view(*iter.seq()[i].1),
                    ),
        {
            let height: u32 = *x.0;
            let entry = x.1;
            push_u32_le(&mut out, height);
            append_bytes(&mut out, entry.0.bytes.as_slice());
            match &entry.1 {
                Some(header) => {
                    out.push(1u8);
                    append_bytes(&mut out, header.bytes.as_slice());
                },
                None => {
                    out.push(0u8);
                },
            }
            proof {
                let next = done.push((height, locator_view(*entry)));
                assert(next.drop_last() =~= done);
                assert(out@ =~= head + entries_bytes(next));
                done = next;
            }
        }
        proof {
            assert forall|k: u32| #[trigger] self@.contains_key(k) implies exists|i: int|
                0 <= i < done.len() && done[i].0 == k by {
                let i = choose|i: int| 0 <= i < done.len() && *entries.remaining()[i].0 == k;
                assert(done[i].0 == k);
            }
            lemma_ordered_below_unique(self@, done, 0x1_0000_0000);
        }
        out
    }
}

/// One entry as it is read: the header is still serialized.
#[derive(Debug, PartialEq, Eq)]
pub struct RawLocator {
    pub height: u32,
    pub hash: BlockHash,
    pub header: Option<Vec<u8>>,
}

/// What an entry that is read holds.
pub struct RawLocatorView {
    pub height: u32,
    pub hash: Seq<u8>,
    pub header: Option<Seq<u8>>,
}

impl View for RawLocator {
    type V = RawLocatorView;

    open spec fn view(&self) -> RawLocatorView {
        RawLocatorView {
            height: self.height,
            hash: self.hash@,
            header: match self.header {
                Some(bytes) => Some(bytes@),
                None => None,
            },
        }
    }
}

/// What entries that are read hold.
pub open spec fn raw_views(entries: Seq<RawLocator>) -> Seq<RawLocatorView> {
    entries.map_values(|entry: RawLocator| entry@)
}

/// The entry that is read where one was written.
pub open spec fn raw_of(height: u32, locator: LocatorView) -> RawLocatorView {
    RawLocatorView {
        height,
        hash: locator.hash,
        header: match locator.header {
            Some(header) => Some(header.bytes),
            None => None,
        },
    }
}

/// The entries that are read where some were written.
pub open spec fn raws_of(entries: Seq<(u32, LocatorView)>) -> Seq<RawLocatorView> {
    entries.map_values(|entry: (u32, LocatorView)| raw_of(entry.0, entry.1))
}

/// Why bytes are not block locators.
#[derive(Debug, Clone, Copy, PartialEq, Eq, Structural)]
pub enum ReadError {
    /// The bytes end before a number, hash, flag or header that has to follow.
    /// That many bytes of it are missing.
    UnexpectedEnd { missing: usize },
    /// The bytes of a hash are not a field element.
    InvalidHash,
    /// The byte that says whether a header follows is neither zero nor one.
    InvalidFlag,
}

/// What is read of one entry at `pos`: the entry and where it ends.
pub open spec fn parse_locator(s: Seq<u8>, pos: int) -> Result<(RawLocatorView, int), ReadError> {
    if s.len() < pos + 4 {
        Err(ReadError::UnexpectedEnd { missing: (pos + 4 - s.len()) as usize })
    } else if s.len() < pos + 36 {
        Err(ReadError::UnexpectedEnd { missing: (pos + 36 - s.len()) as usize })
    } else if !is_block_hash(s.subrange(pos + 4, pos + 36)) {
        Err(ReadError::InvalidHash)
    } else if s.len() < pos + 37 {
        Err(ReadError::UnexpectedEnd { missing: 1 })
    } else if s[pos + 36] == 0 {
        Ok(
            (
                RawLocatorView {
                    height: u32_at(s, pos),
                    hash: s.subrange(pos + 4, pos + 36),
                    header: None,
                },
                pos + 37,
            ),
        )
    } else if s[pos + 36] == 1 {
        if s.len() < pos + 37 + HEADER_SIZE_IN_BYTES {
            Err(
                ReadError::UnexpectedEnd {
                    missing: (pos + 37 + HEADER_SIZE_IN_BYTES - s.len()) as usize,
                },
            )
        } else {
            Ok(
                (
                    RawLocatorView {
                        height: u32_at(s, pos),
                        hash: s.subrange(pos + 4, pos + 36),
                        header: Some(s.subrange(pos + 37, pos + 37 + HEADER_SIZE_IN_BYTES)),
                    },
                    pos + 37 + HEADER_SIZE_IN_BYTES,
                ),
            )
        }
    } else {
        Err(ReadError::InvalidFlag)
    }
}

/// What is read of `n` entries from `pos` on: the entries and where the last one ends.
pub open spec fn parse_locators(s: Seq<u8>, pos: int, n: nat) -> Result<
    (Seq<RawLocatorView>, int),
    ReadError,
>
    decreases n,
{
    if n == 0 {
        Ok((Seq::empty(), pos))
    } else {
        match parse_locators(s, pos, (n - 1) as nat) {
            Ok((entries, end)) => match parse_locator(s, end) {
                Ok((entry, next)) => Ok((entries.push(entry), next)),
                Err(error) => Err(error),
            },
            Err(error) => Err(error),
        }
    }
}

/// What is read of block locators: their number, then as many entries.
pub open spec fn parse(s: Seq<u8>) -> Result<(Seq<RawLocatorView>, int), ReadError> {
    if s.len() < 4 {
        Err(ReadError::UnexpectedEnd { missing: (4 - s.len()) as usize })
    } else {
        parse_locators(s, 4, u32_at(s, 0) as nat)
    }
}

/// Where the entries up to one cannot be read, neither can more of them.
pub(crate) proof fn lemma_parse_error_stays(s: Seq<u8>, pos: int, m: nat, n: nat)
    requires
        m <= n,
        parse_locators(s, pos, m) is Err,
    ensures
        parse_locators(s, pos, n) == parse_locators(s, pos, m),
    decreases n,
{
    if m < n {
        lemma_parse_error_stays(s, pos, m, (n - 1) as nat);
    }
}

/// Reads one entry at `pos`, and where it ends.
pub fn read_locator(bytes: &[u8], pos: usize) -> (r: Result<(RawLocator, usize), ReadError>)
    requires
        pos <= bytes@.len(),
    ensures
        match r {
            Ok((entry, next)) => {
                &&& parse_locator(bytes@, pos as int) == Ok::<(RawLocatorView, int), ReadError>(
                    (entry@, next as int),
                )
                &&& pos < next <= bytes@.len()
                &&& entry.hash.wf()
            },
            Err(error) => parse_locator(bytes@, pos as int) == Err::<
                (RawLocatorView, int),
                ReadError,
            >(error),
        },
{
    let left: usize = bytes.len() - pos;
    if left < 4 {
        return Err(ReadError::UnexpectedEnd { missing: 4 - left });
    }
    let height: u32 = read_u32_le(bytes, pos);
    if left < 36 {
        return Err(ReadError::UnexpectedEnd { missing: 36 - left });
    }
    let hash: BlockHash = match BlockHash::from_bytes(read_32(bytes, pos + 4)) {
        Some(hash) => hash,
        None => {
            return Err(ReadError::InvalidHash);
        },
    };
    if left < 37 {
        return Err(ReadError::UnexpectedEnd { missing: 1 });
    }
    let flag: u8 = bytes[pos + 36];
    if flag == 0 {
        Ok((RawLocator { height, hash, header: None }, pos + 37))
    } else if flag == 1 {
        if left - 37 < HEADER_SIZE_IN_BYTES {
            Err(ReadError::UnexpectedEnd { missing: HEADER_SIZE_IN_BYTES - (left - 37) })
        } else {
            let end: usize = pos + 37 + HEADER_SIZE_IN_BYTES;
            let header: Vec<u8> = copy_range(bytes, pos + 37, end);
            Ok((RawLocator { height, hash, header: Some(header) }, end))
        }
    } else {
        Err(ReadError::InvalidFlag)
    }
}

impl BlockLocators {
    /// Reads the entries of serialized block locators, and where the last one ends.
    pub fn read_le(bytes: &[u8]) -> (r: Result<(Vec<RawLocator>, usize), ReadError>)
        ensures
            match r {
                Ok((entries, end)) => {
                    &&& parse(bytes@) == Ok::<(Seq<RawLocatorView>, int), ReadError>(
                        (raw_views(entries@), end as int),
                    )
                    &&& end <= bytes@.len()
                    &&& forall|i: int| 0 <= i < entries@.len() ==> (#[trigger] entries@[i]).hash.wf()
                },
                Err(error) => parse(bytes@) == Err::<(Seq<RawLocatorView>, int), ReadError>(error),
            },
    {
        if bytes.len() < 4 {
            return Err(ReadError::UnexpectedEnd { missing: 4 - bytes.len() });
        }
        let count: u32 = read_u32_le(bytes, 0);
        let mut entries: Vec<RawLocator> = Vec::new();
        let mut pos: usize = 4;
        assert(raw_views(entries@) =~= Seq::empty());
        for i in 0..count
            invariant
                4 <= pos <= bytes@.len(),
                count == u32_at(bytes@, 0),
                parse_locators(bytes@, 4, i as nat) == Ok::<
                    (Seq<RawLocatorView>, int),
                    ReadError,
                >((raw_views(entries@), pos as int)),
                forall|j: int| 0 <= j < entries@.len() ==> (#[trigger] entries@[j]).hash.wf(),
        {
            match read_locator(bytes, pos) {
                Ok((entry, next)) => {
                    proof {
                        assert(raw_views(entries@.push(entry)) =~= raw_views(entries@).push(
                            entry@,
                        ));
                    }
                    entries.push(entry);
                    pos = next;
                },
                Err(error) => {
                    proof {
                        lemma_parse_error_stays(bytes@, 4, (i + 1) as nat, count as nat);
                    }
                    return Err(error);
                },
            }
        }
        Ok((entries, pos))
    }
}

/// What entries locate together: of several at one height, the last one counts.
pub open spec fn collected(entries: Seq<(u32, LocatorView)>) -> Map<u32, LocatorView>
    decreases entries.len(),
{
    if entries.len() == 0 {
        Map::empty()
    } else {
        collected(entries.drop_last()).insert(entries.last().0, entries.last().1)
    }
}

/// What decoded entries locate, one by one.
pub open spec fn entries_view(entries: Seq<(u32, BlockHash, Option<BlockHeader>)>) -> Seq<
    (u32, LocatorView),
> {
    entries.map_values(
        |entry: (u32, BlockHash, Option<BlockHeader>)| (entry.0, locator_view((entry.1, entry.2))),
    )
}

impl BlockLocators {
    /// Makes block locators of entries whose headers are decoded.
    pub fn from_entries(entries: Vec<(u32, BlockHash, Option<BlockHeader>)>) -> (r: Self)
        ensures
            r@ == collected(entries_view(entries@)),
    {
        let mut map: BTreeMap<u32, (BlockHash, Option<BlockHeader>)> = BTreeMap::new();
        let ghost mut done: Seq<(u32, LocatorView)> = Seq::empty();
        proof {
            assert(locators_view(map@) =~= Map::empty());
        }
        for entry in iter: entries
            invariant
                locators_view(map@) == collected(done),
                done == entries_view(iter.seq().take(iter.index())),
        {
            let ghost before = map@;
            proof {
                let next = done.push((entry.0, locator_view((entry.1, entry.2))));
                assert(next.drop_last() =~= done);
                assert(entries_view(iter.seq().take(iter.index() + 1)) =~= next);
                done = next;
            }
            let (height, hash, header) = entry;
            map.insert(height, (hash, header));
            proof {
                assert(locators_view(map@) =~= locators_view(before).insert(
                    height,
                    locator_view((hash, header)),
                ));
            }
        }
        proof {
            assert(done =~= entries_view(entries@));
        }
        BlockLocators { block_locators: map }
    }

    /// The entry at the greatest height.
    pub fn last(&self) -> (r: Option<(u32, &(BlockHash, Option<BlockHeader>))>)
        ensures
            r is None <==> self@ == Map::<u32, LocatorView>::empty(),
            r matches Some((height, entry)) ==> {
                &&& self@.contains_key(height)
                &&& locator_view(*entry) == self@[height]
                &&& forall|other: u32| #[trigger] self@.contains_key(other) ==> other <= height
            },
    {
        let entries = self.block_locators.iter();
        proof {
            lemma_increasing(entries.remaining());
            assert forall|k: u32| #[trigger] self@.contains_key(k) implies exists|i: int|
                0 <= i < entries.remaining().len() && *entries.remaining()[i].0 == k by {
                assert(self.block_locators@.contains_key(k));
                assert(entries.remaining().contains((&k, &self.block_locators@[k])));
            }
            assert forall|i: int| 0 <= i < entries.remaining().len() implies ({
                let x = #[trigger] entries.remaining()[i];
                self@.contains_key(*x.0) && self@[*x.0] == locator_view(*x.1)
            }) by {
                assert(self.block_locators@.contains_key(*entries.remaining()[i].0));
            }
        }
        let mut last: Option<(u32, &(BlockHash, Option<BlockHeader>))> = None;
        for x in iter: entries
            invariant
                forall|i: int, j: int|
                    0 <= i < j < iter.seq().len() ==> *iter.seq()[i].0 < *iter.seq()[j].0,
                forall|k: u32| #[trigger]
                    self@.contains_key(k) ==> exists|i: int|
                        0 <= i < iter.seq().len() && *iter.seq()[i].0 == k,
                forall|i: int|
                    0 <= i < iter.seq().len() ==> {
                        let x = #[trigger] iter.seq()[i];
                        self@.contains_key(*x.0) && self@[*x.0] == locator_view(*x.1)
                    },
                last is None ==> iter.index() == 0,
                last matches Some((height, entry)) ==> {
                    &&& self@.contains_key(height)
                    &&& locator_view(*entry) == self@[height]
                    &&& forall|i: int| 0 <= i < iter.index() ==> *iter.seq()[i].0 <= height
                },
        {
            last = Some((*x.0, x.1));
        }
        proof {
            if last is None {
                assert(self@ =~= Map::<u32, LocatorView>::empty());
            }
        }
        last
    }
}

impl Clone for BlockLocators {
    fn clone(&self) -> (r: Self)
        ensures
            r@ == self@,
    {
        BlockLocators { block_locators: self.block_locators.clone() }
    }
}

impl Default for BlockLocators {
    /// Locates nothing.
    fn default() -> (r: Self)
        ensures
            r@ == Map::<u32, LocatorView>::empty(),
    {
        let r = BlockLocators { block_locators: BTreeMap::new() };
        assert(r@ =~= Map::<u32, LocatorView>::empty());
        r
    }
}

impl std::ops::Deref for BlockLocators {
    type Target = BTreeMap<u32, (BlockHash, Option<BlockHeader>)>;

    fn deref(&self) -> (r: &Self::Target)
        ensures
            locators_view(r@) == self@,
    {
        &self.block_locators
    }
}

} // verus!
