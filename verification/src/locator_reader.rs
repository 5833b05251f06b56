//! A reader of block locators that asks for the bytes it needs, and for no more.

use vstd::prelude::*;

use crate::block_locators::{
    lemma_parse_error_stays, parse, parse_locator, parse_locators, raw_views, read_locator,
    RawLocator, RawLocatorView, ReadError,
};
use crate::bytes::{append_bytes, copy_range, read_u32_le, u32_at};
use crate::locator_laws::lemma_reading_entries_is_incremental;

verus! {

/// A reader of block locators from a stream of bytes.
pub struct LocatorReader {
    count: Option<u32>,
    entries: Vec<RawLocator>,
    buffer: Vec<u8>,
    fed: Ghost<Seq<u8>>,
}

impl View for LocatorReader {
    /// The bytes that the reader was fed.
    type V = Seq<u8>;

    closed spec fn view(&self) -> Seq<u8> {
        self.fed@
    }
}

/// Whether a number of entries, entries and left bytes are what was read of the bytes that were fed.
spec fn consistent(
    count: Option<u32>,
    entries: Seq<RawLocator>,
    buffer: Seq<u8>,
    fed: Seq<u8>,
) -> bool {
    match count {
        None => buffer == fed && entries.len() == 0,
        Some(count) => {
            &&& fed.len() >= 4 + buffer.len()
            &&& count == u32_at(fed, 0)
            &&& entries.len() <= count
            &&& fed.skip(fed.len() - buffer.len()) == buffer
            &&& parse_locators(fed, 4, entries.len()) == Ok::<
                (Seq<RawLocatorView>, int),
                ReadError,
            >((raw_views(entries), fed.len() - buffer.len()))
        },
    }
}

/// What is read at a place does not depend on what stands before the place.
proof fn lemma_parse_locator_shifts(before: Seq<u8>, s: Seq<u8>)
    ensures
        parse_locator(before + s, before.len() as int) == match parse_locator(s, 0) {
            Ok((entry, end)) => Ok::<(RawLocatorView, int), ReadError>((entry, before.len() + end)),
            Err(error) => Err(error),
        },
{
    let n = before.len() as int;
    let t = before + s;
    if s.len() >= 36 {
        assert(t.subrange(n + 4, n + 36) =~= s.subrange(4, 36));
    }
    if s.len() >= 940 {
        assert(t.subrange(n + 37, n + 940) =~= s.subrange(37, 940));
    }
}

impl LocatorReader {
    /// The reader holds what was read of the bytes that it was fed, and the bytes that are left.
    #[verifier::type_invariant]
    closed spec fn inv(&self) -> bool {
        consistent(self.count, self.entries@, self.buffer@, self.fed@)
    }

    /// Whether all entries are read.
    closed spec fn done(&self) -> bool {
        self.count matches Some(count) && self.entries@.len() == count
    }

    /// Makes a reader that was fed nothing.
    pub fn new() -> (r: Self)
        ensures
            r@ == Seq::<u8>::empty(),
    {
        LocatorReader {
            count: None,
            entries: Vec::new(),
            buffer: Vec::new(),
            fed: Ghost(Seq::empty()),
        }
    }

    /// Feeds the reader bytes.
    pub fn feed(&mut self, bytes: &[u8])
        ensures
            final(self)@ == old(self)@ + bytes@,
    {
        let mut reader: LocatorReader = LocatorReader::new();
        std::mem::swap(self, &mut reader);
        proof {
            use_type_invariant(&reader);
        }
        let LocatorReader { count, entries, buffer, fed } = reader;
        let mut buffer: Vec<u8> = buffer;
        append_bytes(&mut buffer, bytes);
        proof {
            if count is Some {
                lemma_reading_entries_is_incremental(fed@, 4, entries@.len(), bytes@);
                let now = fed@ + bytes@;
                assert(now.skip(now.len() - buffer@.len()) =~= buffer@);
            }
        }
        *self = LocatorReader { count, entries, buffer, fed: Ghost(fed@ + bytes@) };
    }

    /// Reads on: says how many bytes are missing at least, or that all entries are read.
    pub fn poll(&mut self) -> (r: Result<Option<usize>, ReadError>)
        ensures
            final(self)@ == old(self)@,
            match r {
                Ok(None) => parse(old(self)@) is Ok,
                Ok(Some(missing)) => parse(old(self)@) == Err::<
                    (Seq<RawLocatorView>, int),
                    ReadError,
                >(ReadError::UnexpectedEnd { missing }),
                Err(error) => error !is UnexpectedEnd && parse(old(self)@) == Err::<
                    (Seq<RawLocatorView>, int),
                    ReadError,
                >(error),
            },
    {
        match self.advance() {
            Ok(()) => {
                proof {
                    use_type_invariant(&*self);
                }
                Ok(None)
            },
            Err(ReadError::UnexpectedEnd { missing }) => Ok(Some(missing)),
            Err(error) => Err(error),
        }
    }

    /// Reads as many entries as there are.
    fn advance(&mut self) -> (r: Result<(), ReadError>)
        ensures
            final(self)@ == old(self)@,
            match r {
                Ok(()) => final(self).done(),
                Err(error) => parse(old(self)@) == Err::<(Seq<RawLocatorView>, int), ReadError>(
                    error,
                ),
            },
    {
        let mut reader: LocatorReader = LocatorReader::new();
        std::mem::swap(self, &mut reader);
        proof {
            use_type_invariant(&reader);
        }
        let LocatorReader { count, entries, buffer, fed } = reader;
        let mut entries: Vec<RawLocator> = entries;
        let mut buffer: Vec<u8> = buffer;
        let ghost s = fed@;
        let count: u32 = match count {
            Some(count) => count,
            None => {
                let length: usize = buffer.len();
                if length < 4 {
                    *self = LocatorReader { count: None, entries, buffer, fed };
                    return Err(ReadError::UnexpectedEnd { missing: 4 - length });
                }
                let count: u32 = read_u32_le(buffer.as_slice(), 0);
                buffer = copy_range(buffer.as_slice(), 4, length);
                proof {
                    assert(raw_views(entries@) =~= Seq::empty());
                    assert(s.skip(s.len() - buffer@.len()) =~= buffer@);
                }
                count
            },
        };
        while entries.len() < count as usize
            invariant
                consistent(Some(count), entries@, buffer@, s),
                fed@ == s,
                s == old(self)@,
            decreases count - entries@.len(),
        {
            let ghost n = entries@.len();
            let ghost before = s.take(s.len() - buffer@.len());
            proof {
                assert(before + buffer@ =~= s);
                lemma_parse_locator_shifts(before, buffer@);
            }
            match read_locator(buffer.as_slice(), 0) {
                Ok((entry, next)) => {
                    let length: usize = buffer.len();
                    let ghost old_buffer = buffer@;
                    proof {
                        assert(raw_views(entries@.push(entry)) =~= raw_views(entries@).push(entry@));
                    }
                    entries.push(entry);
                    buffer = copy_range(buffer.as_slice(), next, length);
                    proof {
                        assert(s.skip(s.len() - buffer@.len()) =~= buffer@) by {
                            assert(s.skip(s.len() - old_buffer.len()) == old_buffer);
                        }
                    }
                },
                Err(error) => {
                    proof {
                        lemma_parse_error_stays(s, 4, (n + 1) as nat, count as nat);
                    }
                    *self = LocatorReader { count: Some(count), entries, buffer, fed };
                    return Err(error);
                },
            }
        }
        *self = LocatorReader { count: Some(count), entries, buffer, fed };
        Ok(())
    }

    /// Hands out the entries that were read, and the bytes that follow them, if all entries are there.
    pub fn finish(self) -> (r: Result<(Vec<RawLocator>, Vec<u8>), ReadError>)
        ensures
            match r {
                Ok((entries, rest)) => parse(self@) matches Ok((expected, end)) && expected
                    == raw_views(entries@) && 0 <= end <= self@.len() && rest@ == self@.skip(end),
                Err(error) => parse(self@) == Err::<(Seq<RawLocatorView>, int), ReadError>(error),
            },
    {
        let mut reader: LocatorReader = self;
        match reader.advance() {
            Ok(()) => {
                proof {
                    use_type_invariant(&reader);
                }
                Ok((reader.entries, reader.buffer))
            },
            Err(error) => Err(error),
        }
    }
}

} // verus!
