//! What holds of writing and reading block locators.

use vstd::prelude::*;

use crate::block::{is_block_hash, HeaderView, HEADER_SIZE_IN_BYTES};
use crate::block_locators::{
    collected, entries_bytes, entry_bytes, locators_bytes, ordered, ordered_below, parse,
    parse_locator, parse_locators, raw_of, raws_of, LocatorView, RawLocatorView, ReadError,
};
use crate::bytes::{law_u32_le_round_trip, le_value, u32_at, u32_le};

verus! {

/// Whether every located hash and header has the form of one.
pub open spec fn all_wf(m: Map<u32, LocatorView>) -> bool {
    forall|height: u32| #[trigger] m.contains_key(height) ==> m[height].wf()
}

/// The ordered entries below `bound` are those of the map, at increasing heights below `bound`.
proof fn lemma_ordered_below(m: Map<u32, LocatorView>, bound: int)
    requires
        0 <= bound <= 0x1_0000_0000,
    ensures
        ({
            let s = ordered_below(m, bound);
            &&& forall|i: int|
                0 <= i < s.len() ==> (#[trigger] s[i]).0 < bound && m.contains_key(s[i].0)
                    && m[s[i].0] == s[i].1
            &&& forall|i: int, j: int| 0 <= i < j < s.len() ==> s[i].0 < s[j].0
        }),
    decreases bound,
{
    if bound > 0 {
        lemma_ordered_below(m, bound - 1);
        let rest = ordered_below(m, bound - 1);
        let s = ordered_below(m, bound);
        assert forall|i: int, j: int| 0 <= i < j < s.len() implies s[i].0 < s[j].0 by {
            assert(s[i] == rest[i]);
            if j < rest.len() {
                assert(s[j] == rest[j]);
            }
        }
        assert forall|i: int| 0 <= i < s.len() implies (#[trigger] s[i]).0 < bound
            && m.contains_key(s[i].0) && m[s[i].0] == s[i].1 by {
            if i < rest.len() {
                assert(s[i] == rest[i]);
            }
        }
    }
}

/// Collecting the ordered entries below `bound` gives the part of the map below `bound`.
proof fn lemma_collected_ordered(m: Map<u32, LocatorView>, bound: int)
    requires
        0 <= bound <= 0x1_0000_0000,
    ensures
        forall|k: u32| #[trigger]
            collected(ordered_below(m, bound)).contains_key(k) <==> k < bound && m.contains_key(k),
        forall|k: u32|
            k < bound && m.contains_key(k) ==> #[trigger] collected(ordered_below(m, bound))[k]
                == m[k],
    decreases bound,
{
    if bound > 0 {
        let height = (bound - 1) as u32;
        let rest = ordered_below(m, bound - 1);
        lemma_collected_ordered(m, bound - 1);
        if m.contains_key(height) {
            let all = rest.push((height, m[height]));
            assert(all.drop_last() =~= rest);
            assert(collected(all) == collected(rest).insert(height, m[height]));
        }
    }
}

/// The entries of a map are as many as its heights.
proof fn lemma_ordered_len(m: Map<u32, LocatorView>, bound: int)
    requires
        0 <= bound <= 0x1_0000_0000,
    ensures
        m.dom().filter(|k: u32| k < bound).finite(),
        ordered_below(m, bound).len() == m.dom().filter(|k: u32| k < bound).len(),
    decreases bound,
{
    let now = m.dom().filter(|k: u32| k < bound);
    if bound == 0 {
        assert(now =~= Set::empty());
    } else {
        let height = (bound - 1) as u32;
        let before = m.dom().filter(|k: u32| k < bound - 1);
        lemma_ordered_len(m, bound - 1);
        if m.contains_key(height) {
            assert(now =~= before.insert(height));
        } else {
            assert(now =~= before);
        }
    }
}

/// The bytes of entries are those of the first ones, then those of the others.
proof fn lemma_entries_bytes_split(entries: Seq<(u32, LocatorView)>, k: int)
    requires
        0 <= k <= entries.len(),
    ensures
        entries_bytes(entries) == entries_bytes(entries.take(k)) + entries_bytes(entries.skip(k)),
    decreases entries.len(),
{
    if k == entries.len() {
        assert(entries.take(k) =~= entries);
        assert(entries.skip(k) =~= Seq::empty());
        assert(entries_bytes(entries) =~= entries_bytes(entries) + Seq::empty());
    } else {
        let rest = entries.drop_last();
        lemma_entries_bytes_split(rest, k);
        assert(rest.take(k) =~= entries.take(k));
        assert(entries.skip(k).drop_last() =~= rest.skip(k));
        assert(entries_bytes(entries) =~= entries_bytes(entries.take(k)) + entries_bytes(
            entries.skip(k),
        ));
    }
}

/// An entry is read back where it was written, whatever stands before and after it.
pub proof fn law_entry_round_trip(
    before: Seq<u8>,
    height: u32,
    locator: LocatorView,
    after: Seq<u8>,
)
    requires
        locator.wf(),
    ensures
        parse_locator(before + entry_bytes(height, locator) + after, before.len() as int) == Ok::<
            (RawLocatorView, int),
            ReadError,
        >((raw_of(height, locator), (before.len() + entry_bytes(height, locator).len()) as int)),
{
    let e = entry_bytes(height, locator);
    let s = before + e + after;
    let n = before.len() as int;
    let flag_and_header = match locator.header {
        Some(header) => seq![1u8] + header.bytes,
        None => seq![0u8],
    };
    law_u32_le_round_trip(height, before, locator.hash + flag_and_header + after);
    assert(s =~= before + u32_le(height) + (locator.hash + flag_and_header + after));
    assert(s.subrange(n + 4, n + 36) =~= locator.hash);
    assert(s[n + 36] == flag_and_header[0]);
    if let Some(header) = locator.header {
        assert(s.subrange(n + 37, n + 37 + HEADER_SIZE_IN_BYTES) =~= header.bytes);
    }
}

/// The first entries are read back where all of them were written.
proof fn lemma_entries_round_trip(
    head: Seq<u8>,
    entries: Seq<(u32, LocatorView)>,
    tail: Seq<u8>,
    k: nat,
)
    requires
        k <= entries.len(),
        forall|i: int| 0 <= i < entries.len() ==> (#[trigger] entries[i]).1.wf(),
    ensures
        parse_locators(head + entries_bytes(entries) + tail, head.len() as int, k) == Ok::<
            (Seq<RawLocatorView>, int),
            ReadError,
        >(
            (
                raws_of(entries.take(k as int)),
                (head.len() + entries_bytes(entries.take(k as int)).len()) as int,
            ),
        ),
    decreases k,
{
    let s = head + entries_bytes(entries) + tail;
    if k == 0 {
        assert(entries.take(0) =~= Seq::empty());
        assert(raws_of(entries.take(0)) =~= Seq::empty());
    } else {
        let j = k - 1;
        lemma_entries_round_trip(head, entries, tail, j as nat);
        let (height, locator) = entries[j];
        let first = entries.take(k as int);
        lemma_entries_bytes_split(entries, k as int);
        assert(first.drop_last() =~= entries.take(j));
        let before = head + entries_bytes(entries.take(j));
        let after = entries_bytes(entries.skip(k as int)) + tail;
        law_entry_round_trip(before, height, locator, after);
        assert(s =~= before + entry_bytes(height, locator) + after);
        assert(raws_of(first) =~= raws_of(entries.take(j)).push(raw_of(height, locator)));
    }
}

/// Reading gives back what was written, whatever bytes follow: the entries come
/// back in order of height, and reading ends where writing did. Collected with
/// their headers decoded, they are the block locators that were written.
pub proof fn law_read_gives_back_write(
    m: Map<u32, LocatorView>,
    tail: Seq<u8>,
    decode: spec_fn(Seq<u8>) -> HeaderView,
)
    requires
        all_wf(m),
        m.len() <= u32::MAX,
        forall|height: u32| #[trigger]
            m.contains_key(height) ==> (m[height].header matches Some(header) ==> decode(
                header.bytes,
            ) == header),
    ensures
        parse(locators_bytes(m) + tail) == Ok::<(Seq<RawLocatorView>, int), ReadError>(
            (raws_of(ordered(m)), locators_bytes(m).len() as int),
        ),
        collected(decoded(raws_of(ordered(m)), decode)) == m,
{
    let entries = ordered(m);
    lemma_ordered_below(m, 0x1_0000_0000);
    lemma_ordered_len(m, 0x1_0000_0000);
    assert(m.dom().filter(|k: u32| k < 0x1_0000_0000) =~= m.dom());
    let count = u32_le(m.len() as u32);
    let s = locators_bytes(m) + tail;
    law_u32_le_round_trip(m.len() as u32, Seq::empty(), entries_bytes(entries) + tail);
    assert(s =~= Seq::empty() + count + (entries_bytes(entries) + tail));
    assert(s =~= count + entries_bytes(entries) + tail);
    lemma_entries_round_trip(count, entries, tail, entries.len());
    assert(entries.take(entries.len() as int) =~= entries);
    lemma_collected_ordered(m, 0x1_0000_0000);
    assert(collected(entries) =~= m);
    assert(decoded(raws_of(entries), decode) =~= entries);
}

/// What entries that were read locate, once their headers are decoded.
pub open spec fn decoded(
    entries: Seq<RawLocatorView>,
    decode: spec_fn(Seq<u8>) -> HeaderView,
) -> Seq<(u32, LocatorView)> {
    entries.map_values(
        |entry: RawLocatorView|
            (
                entry.height,
                LocatorView {
                    hash: entry.hash,
                    header: match entry.header {
                        Some(bytes) => Some(decode(bytes)),
                        None => None,
                    },
                },
            ),
    )
}

/// Bytes that follow do not change what was read, nor why it could not be read;
/// where bytes were missing, as many fewer are missing. So a reader that fetches
/// the missing bytes and reads again takes no byte past the end.
pub proof fn law_reading_an_entry_is_incremental(s: Seq<u8>, pos: int, more: Seq<u8>)
    requires
        0 <= pos <= s.len(),
    ensures
        match parse_locator(s, pos) {
            Err(ReadError::UnexpectedEnd { missing }) => more.len() < missing ==> parse_locator(
                s + more,
                pos,
            ) == Err::<(RawLocatorView, int), ReadError>(
                ReadError::UnexpectedEnd { missing: (missing - more.len()) as usize },
            ),
            r => parse_locator(s + more, pos) == r,
        },
{
    let t = s + more;
    if s.len() >= pos + 36 {
        assert(t.subrange(pos + 4, pos + 36) =~= s.subrange(pos + 4, pos + 36));
    }
    if s.len() >= pos + 37 + HEADER_SIZE_IN_BYTES {
        assert(t.subrange(pos + 37, pos + 37 + HEADER_SIZE_IN_BYTES) =~= s.subrange(
            pos + 37,
            pos + 37 + HEADER_SIZE_IN_BYTES,
        ));
    }
}

/// Entries that were read end within the bytes.
pub(crate) proof fn lemma_parse_locators_end(s: Seq<u8>, pos: int, n: nat)
    requires
        0 <= pos <= s.len(),
    ensures
        parse_locators(s, pos, n) matches Ok((entries, end)) ==> pos <= end <= s.len()
            && entries.len() == n,
    decreases n,
{
    if n > 0 {
        lemma_parse_locators_end(s, pos, (n - 1) as nat);
    }
}

/// Reading several entries is incremental in the same way.
pub(crate) proof fn lemma_reading_entries_is_incremental(s: Seq<u8>, pos: int, n: nat, more: Seq<u8>)
    requires
        0 <= pos <= s.len(),
    ensures
        match parse_locators(s, pos, n) {
            Err(ReadError::UnexpectedEnd { missing }) => more.len() < missing ==> parse_locators(
                s + more,
                pos,
                n,
            ) == Err::<(Seq<RawLocatorView>, int), ReadError>(
                ReadError::UnexpectedEnd { missing: (missing - more.len()) as usize },
            ),
            r => parse_locators(s + more, pos, n) == r,
        },
    decreases n,
{
    if n > 0 {
        lemma_reading_entries_is_incremental(s, pos, (n - 1) as nat, more);
        lemma_parse_locators_end(s, pos, (n - 1) as nat);
        if let Ok((entries, end)) = parse_locators(s, pos, (n - 1) as nat) {
            law_reading_an_entry_is_incremental(s, end, more);
        }
    }
}

/// Reading all of the block locators is incremental in the same way.
pub proof fn law_reading_is_incremental(s: Seq<u8>, more: Seq<u8>)
    ensures
        match parse(s) {
            Err(ReadError::UnexpectedEnd { missing }) => more.len() < missing ==> parse(s + more)
                == Err::<(Seq<RawLocatorView>, int), ReadError>(
                ReadError::UnexpectedEnd { missing: (missing - more.len()) as usize },
            ),
            r => parse(s + more) == r,
        },
{
    if s.len() >= 4 {
        lemma_reading_entries_is_incremental(s, 4, u32_at(s, 0) as nat, more);
    }
}

/// Entries take 37 bytes each, and a header's size more where the header is located.
pub proof fn law_entry_size(height: u32, locator: LocatorView)
    requires
        locator.wf(),
    ensures
        entry_bytes(height, locator).len() == 37 + (if locator.header is Some {
            HEADER_SIZE_IN_BYTES as int
        } else {
            0
        }),
{
}

/// A number is written in four bytes, the least significant one first, and read alike.
pub proof fn law_numbers_in_bytes(x: u32, s: Seq<u8>, pos: int)
    ensures
        u32_le(x).len() == 4,
        x == u32_le(x)[0] + 256 * u32_le(x)[1] + 65536 * u32_le(x)[2] + 16777216 * u32_le(x)[3],
        u32_at(s, pos) as int == s[pos] + 256 * s[pos + 1] + 65536 * s[pos + 2] + 16777216 * s[pos
            + 3],
{
    law_u32_le_round_trip(x, Seq::empty(), Seq::empty());
    assert(Seq::empty() + u32_le(x) + Seq::empty() =~= u32_le(x));
}

/// An entry is written as four bytes of the height, the 32 bytes of the hash, and a byte
/// that is one where a header follows, with the 903 bytes of that, and zero where none does.
pub proof fn law_entry_layout(height: u32, locator: LocatorView)
    requires
        locator.wf(),
    ensures
        ({
            let e = entry_bytes(height, locator);
            &&& height == e[0] + 256 * e[1] + 65536 * e[2] + 16777216 * e[3]
            &&& e.subrange(4, 36) == locator.hash
            &&& match locator.header {
                Some(header) => e[36] == 1 && e.len() == 940 && e.subrange(37, 940) == header.bytes,
                None => e[36] == 0 && e.len() == 37,
            }
        }),
{
    let e = entry_bytes(height, locator);
    law_numbers_in_bytes(height, e, 0);
    assert(locator.hash.len() == 32);
    assert(e[0] == u32_le(height)[0] && e[1] == u32_le(height)[1] && e[2] == u32_le(height)[2]
        && e[3] == u32_le(height)[3]);
    assert(e.subrange(4, 36) =~= locator.hash);
    if let Some(header) = locator.header {
        assert(e.subrange(37, 940) =~= header.bytes);
    }
}

/// The ordered entries are those of the map, each once, at increasing heights.
pub proof fn law_entries_are_ordered(m: Map<u32, LocatorView>, height: u32)
    ensures
        ({
            let s = ordered(m);
            &&& forall|i: int|
                0 <= i < s.len() ==> m.contains_key((#[trigger] s[i]).0) && m[s[i].0] == s[i].1
            &&& forall|i: int, j: int| 0 <= i < j < s.len() ==> s[i].0 < s[j].0
            &&& m.contains_key(height) ==> s.contains((height, m[height]))
        }),
{
    lemma_ordered_below(m, 0x1_0000_0000);
    if m.contains_key(height) {
        lemma_ordered_contains(m, height, 0x1_0000_0000);
    }
}

proof fn lemma_ordered_contains(m: Map<u32, LocatorView>, height: u32, bound: int)
    requires
        m.contains_key(height),
        height < bound <= 0x1_0000_0000,
    ensures
        ordered_below(m, bound).contains((height, m[height])),
    decreases bound,
{
    let s = ordered_below(m, bound);
    let entry = (height, m[height]);
    if height == bound - 1 {
        assert(s.last() == entry);
    } else {
        let rest = ordered_below(m, bound - 1);
        lemma_ordered_contains(m, height, bound - 1);
        let i = choose|i: int| 0 <= i < rest.len() && rest[i] == entry;
        assert(s[i] == entry);
    }
}

proof fn lemma_ordered_insert_above(
    m: Map<u32, LocatorView>,
    height: u32,
    locator: LocatorView,
    bound: int,
)
    requires
        0 <= bound <= 0x1_0000_0000,
        forall|other: u32| #[trigger] m.contains_key(other) ==> other < height,
    ensures
        ordered_below(m.insert(height, locator), bound) == (if bound <= height {
            ordered_below(m, bound)
        } else {
            ordered_below(m, bound).push((height, locator))
        }),
    decreases bound,
{
    if bound > 0 {
        let k = (bound - 1) as u32;
        lemma_ordered_insert_above(m, height, locator, bound - 1);
        assert(m.contains_key(k) ==> k < height);
        assert(m.insert(height, locator).contains_key(k) <==> k == height || m.contains_key(k));
    }
}

/// Without entries four zeros are written. With one entry more, at a height above all others,
/// the number that stands in front is one more, and the bytes of the entry follow those of
/// the others, which stay as they are.
pub proof fn law_entries_are_written_by_height(
    m: Map<u32, LocatorView>,
    height: u32,
    locator: LocatorView,
)
    requires
        m.dom().finite(),
        m.len() < u32::MAX,
        forall|other: u32| #[trigger] m.contains_key(other) ==> other < height,
    ensures
        locators_bytes(Map::empty()) == seq![0u8, 0u8, 0u8, 0u8],
        ({
            let before = locators_bytes(m);
            let after = locators_bytes(m.insert(height, locator));
            &&& before.len() >= 4
            &&& before[0] + 256 * before[1] + 65536 * before[2] + 16777216 * before[3] == m.len()
            &&& after.len() >= 4
            &&& after[0] + 256 * after[1] + 65536 * after[2] + 16777216 * after[3] == m.len() + 1
            &&& after.skip(4) == before.skip(4) + entry_bytes(height, locator)
        }),
{
    let empty = Map::<u32, LocatorView>::empty();
    lemma_ordered_len(empty, 0x1_0000_0000);
    assert(empty.dom().filter(|k: u32| k < 0x1_0000_0000) =~= Set::empty());
    assert(ordered(empty) =~= Seq::empty());
    assert(locators_bytes(empty) =~= seq![0u8, 0u8, 0u8, 0u8]);
    let more = m.insert(height, locator);
    assert(!m.contains_key(height));
    assert(more.len() == m.len() + 1);
    lemma_ordered_insert_above(m, height, locator, 0x1_0000_0000);
    assert(ordered(more).drop_last() =~= ordered(m));
    let before = locators_bytes(m);
    let after = locators_bytes(more);
    law_numbers_in_bytes(m.len() as u32, before, 0);
    law_numbers_in_bytes(more.len() as u32, after, 0);
    assert(before.skip(4) =~= entries_bytes(ordered(m)));
    assert(after.skip(4) =~= entries_bytes(ordered(more)));
}

/// An entry is read where its number, its hash, its flag and, if the flag is one, its header
/// are there: the hash has to be a field element, and the flag zero or one. It has the number
/// as height, the 32 bytes behind that as hash, and the 903 bytes behind the flag as header
/// if the flag is one.
pub proof fn law_entry_is_read(s: Seq<u8>, pos: int)
    requires
        0 <= pos <= s.len(),
    ensures
        parse_locator(s, pos) is Ok <==> {
            &&& s.len() >= pos + 37
            &&& is_block_hash(s.subrange(pos + 4, pos + 36))
            &&& s[pos + 36] == 0 || s[pos + 36] == 1 && s.len() >= pos + 940
        },
        parse_locator(s, pos) matches Ok((entry, end)) ==> {
            &&& entry.height as int == s[pos] + 256 * s[pos + 1] + 65536 * s[pos + 2] + 16777216
                * s[pos + 3]
            &&& entry.hash == s.subrange(pos + 4, pos + 36)
            &&& entry.header is Some <==> s[pos + 36] == 1
            &&& entry.header matches Some(bytes) ==> bytes == s.subrange(pos + 37, pos + 940)
            &&& end == (if s[pos + 36] == 1 {
                pos + 940
            } else {
                pos + 37
            })
        },
{
}

/// An entry is refused for its hash exactly if the hash is there and is not a field element;
/// for its flag exactly if the flag is there behind a hash that is one, and is neither zero
/// nor one; and else for the bytes that are missing of the first of its parts that is not
/// there as a whole.
pub proof fn law_entry_is_refused(s: Seq<u8>, pos: int)
    requires
        0 <= pos <= s.len(),
    ensures
        parse_locator(s, pos) == Err::<(RawLocatorView, int), ReadError>(ReadError::InvalidHash)
            <==> s.len() >= pos + 36 && !is_block_hash(s.subrange(pos + 4, pos + 36)),
        parse_locator(s, pos) == Err::<(RawLocatorView, int), ReadError>(ReadError::InvalidFlag)
            <==> s.len() >= pos + 37 && is_block_hash(s.subrange(pos + 4, pos + 36)) && s[pos + 36]
            > 1,
        parse_locator(s, pos) matches Err(ReadError::UnexpectedEnd { missing }) ==> {
            ||| s.len() < pos + 4 && missing == pos + 4 - s.len()
            ||| pos + 4 <= s.len() < pos + 36 && missing == pos + 36 - s.len()
            ||| s.len() == pos + 36 && missing == 1
            ||| pos + 37 <= s.len() < pos + 940 && s[pos + 36] == 1 && missing == pos + 940
                - s.len()
        },
{
}

/// Any entries, in any order and also at the same height, are read back as they were
/// written behind their number, whatever follows.
pub proof fn law_any_entries_are_read_back(entries: Seq<(u32, LocatorView)>, tail: Seq<u8>)
    requires
        entries.len() <= u32::MAX,
        forall|i: int| 0 <= i < entries.len() ==> (#[trigger] entries[i]).1.wf(),
    ensures
        ({
            let written = u32_le(entries.len() as u32) + entries_bytes(entries);
            parse(written + tail) == Ok::<(Seq<RawLocatorView>, int), ReadError>(
                (raws_of(entries), written.len() as int),
            )
        }),
{
    let count = u32_le(entries.len() as u32);
    let s = count + entries_bytes(entries) + tail;
    law_u32_le_round_trip(entries.len() as u32, Seq::empty(), entries_bytes(entries) + tail);
    assert(s =~= Seq::empty() + count + (entries_bytes(entries) + tail));
    lemma_entries_round_trip(count, entries, tail, entries.len());
    assert(entries.take(entries.len() as int) =~= entries);
}

/// Where one entry begins when those before it are read.
pub open spec fn entry_start(s: Seq<u8>, i: nat) -> int {
    match parse_locators(s, 4, i) {
        Ok((_, end)) => end,
        Err(_) => 0,
    }
}

/// As many entries are read as the first four bytes say. The first one is read behind these, each
/// other one where the one before it ends, and reading ends with the last one.
pub proof fn law_entries_are_read_one_by_one(s: Seq<u8>, i: nat)
    ensures
        s.len() < 4 ==> parse(s) == Err::<(Seq<RawLocatorView>, int), ReadError>(
            ReadError::UnexpectedEnd { missing: (4 - s.len()) as usize },
        ),
        entry_start(s, 0) == 4,
        parse(s) matches Ok((entries, end)) ==> {
            &&& entries.len() == s[0] + 256 * s[1] + 65536 * s[2] + 16777216 * s[3]
            &&& end == entry_start(s, entries.len())
            &&& i < entries.len() ==> parse_locator(s, entry_start(s, i)) == Ok::<
                (RawLocatorView, int),
                ReadError,
            >((entries[i as int], entry_start(s, i + 1)))
        },
{
    if s.len() >= 4 {
        let n = u32_at(s, 0) as nat;
        lemma_parse_locators_end(s, 4, n);
        if parse(s) is Ok && i < n {
            lemma_parse_prefix(s, i, n);
        }
    }
}

proof fn lemma_parse_prefix(s: Seq<u8>, i: nat, n: nat)
    requires
        s.len() >= 4,
        i < n,
        parse_locators(s, 4, n) is Ok,
    ensures
        parse_locators(s, 4, i + 1) is Ok,
        parse_locators(s, 4, i) is Ok,
        parse_locators(s, 4, n)->Ok_0.0[i as int] == parse_locators(s, 4, i + 1)->Ok_0.0.last(),
        parse_locators(s, 4, i + 1)->Ok_0.0.len() == i + 1,
        parse_locator(s, entry_start(s, i)) == Ok::<(RawLocatorView, int), ReadError>(
            (parse_locators(s, 4, n)->Ok_0.0[i as int], entry_start(s, i + 1)),
        ),
    decreases n,
{
    lemma_parse_locators_end(s, 4, n);
    lemma_parse_locators_end(s, 4, (n - 1) as nat);
    lemma_parse_locators_end(s, 4, i);
    if i + 1 < n {
        lemma_parse_prefix(s, i, (n - 1) as nat);
        let rest = parse_locators(s, 4, (n - 1) as nat)->Ok_0.0;
        let all = parse_locators(s, 4, n)->Ok_0.0;
        assert(all[i as int] == rest[i as int]);
    }
}

/// Of the entries at a height, the last one is located there; where there is none, nothing is.
pub proof fn law_later_entries_win(entries: Seq<(u32, LocatorView)>, height: u32, i: int)
    ensures
        collected(entries).contains_key(height) <==> exists|j: int|
            0 <= j < entries.len() && (#[trigger] entries[j]).0 == height,
        0 <= i < entries.len() && (forall|j: int|
            i < j < entries.len() ==> (#[trigger] entries[j]).0 != entries[i].0)
            ==> collected(entries)[entries[i].0] == entries[i].1,
    decreases entries.len(),
{
    if entries.len() > 0 {
        let rest = entries.drop_last();
        law_later_entries_win(rest, height, i);
        if collected(rest).contains_key(height) {
            let j = choose|j: int| 0 <= j < rest.len() && (#[trigger] rest[j]).0 == height;
            assert(entries[j].0 == height);
        }
        if entries.last().0 == height {
            assert(entries[entries.len() - 1].0 == height);
        } else if exists|j: int| 0 <= j < entries.len() && (#[trigger] entries[j]).0 == height {
            let j = choose|j: int| 0 <= j < entries.len() && (#[trigger] entries[j]).0 == height;
            assert(rest[j].0 == height);
        }
        if 0 <= i < rest.len() && (forall|j: int|
            i < j < entries.len() ==> (#[trigger] entries[j]).0 != entries[i].0) {
            assert forall|j: int| i < j < rest.len() implies (#[trigger] rest[j]).0
                != rest[i].0 by {
                assert(entries[j].0 != entries[i].0);
            }
            assert(entries[entries.len() - 1].0 != entries[i].0);
            assert(rest[i] == entries[i]);
        }
    }
}

/// Where block locators cannot be read, it is for the first of their entries that cannot be:
/// all before it are read, and it is refused for the reason that is given.
pub proof fn law_first_unreadable_entry(s: Seq<u8>)
    requires
        s.len() >= 4,
    ensures
        parse(s) matches Err(error) ==> exists|i: nat|
            {
                &&& i < s[0] + 256 * s[1] + 65536 * s[2] + 16777216 * s[3]
                &&& parse_locators(s, 4, i) is Ok
                &&& parse_locator(s, #[trigger] entry_start(s, i)) == Err::<
                    (RawLocatorView, int),
                    ReadError,
                >(error)
            },
{
    if parse(s) is Err {
        let n = u32_at(s, 0) as nat;
        let i = lemma_first_error(s, n);
        assert(parse_locator(s, entry_start(s, i)) is Err);
    }
}

proof fn lemma_first_error(s: Seq<u8>, n: nat) -> (i: nat)
    requires
        s.len() >= 4,
        parse_locators(s, 4, n) is Err,
    ensures
        i < n,
        parse_locators(s, 4, i) is Ok,
        parse_locator(s, entry_start(s, i)) == Err::<(RawLocatorView, int), ReadError>(
            parse_locators(s, 4, n)->Err_0,
        ),
    decreases n,
{
    if parse_locators(s, 4, (n - 1) as nat) is Ok {
        (n - 1) as nat
    } else {
        lemma_first_error(s, (n - 1) as nat)
    }
}

/// What is located is well-formed exactly if the hash is 32 bytes that denote, the least
/// significant one first, a number below the order of the field, and the header, if one is
/// located, has 903 bytes.
pub proof fn law_well_formed_locators(locator: LocatorView, byte: u8, s: Seq<u8>)
    ensures
        locator.wf() <==> {
            &&& locator.hash.len() == 32
            &&& le_value(locator.hash)
                < 8444461749428370424248824938781546531375899335154063827935233455917409239041nat
            &&& locator.header matches Some(header) ==> header.bytes.len() == 903
        },
        le_value(Seq::empty()) == 0,
        le_value(seq![byte] + s) == byte + 256 * le_value(s),
{
    assert((seq![byte] + s).drop_first() =~= s);
}

} // verus!
