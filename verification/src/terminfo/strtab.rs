//! String tables: concatenated NUL-terminated byte strings, referenced by
//! byte offset.  `StringTable` owns its bytes; `StrTable` borrows them from
//! a parsed buffer.

use vstd::prelude::*;

use crate::terminfo::errors::ErrorKind;
use crate::util::spec_strlen;
use crate::util::strlen;

verus! {

/// The NUL-terminated string that starts at `offset` of table `t`, without
/// its terminator.  Reading at the very end of the table yields the empty
/// string.
pub open spec fn spec_table_get(t: Seq<u8>, offset: int) -> Seq<u8> {
    t.subrange(offset, offset + spec_strlen(t.subrange(offset, t.len() as int)))
}

/// An owned string table.
#[derive(Debug, Clone)]
pub struct StringTable {
    table: Vec<u8>,
}

impl View for StringTable {
    type V = Seq<u8>;

    closed spec fn view(&self) -> Seq<u8> {
        self.table@
    }
}

impl StringTable {
    /// An owned copy of the given table bytes.
    pub fn from_slice(s: &[u8]) -> (r: StringTable)
        ensures
            r@ == s@,
    {
        StringTable { table: vstd::slice::slice_to_vec(s) }
    }

    /// An empty table.
    pub fn new() -> (r: StringTable)
        ensures
            r@ == Seq::<u8>::empty(),
    {
        StringTable { table: Vec::new() }
    }

    /// Append `s` and a NUL terminator; the offset of the new entry is
    /// returned.  Entries are never deduplicated.
    pub fn add(&mut self, s: &[u8]) -> (start: usize)
        requires
            old(self)@.len() + s@.len() + 1 <= usize::MAX,
        ensures
            start == old(self)@.len(),
            final(self)@ == old(self)@ + s@ + seq![0u8],
    {
        let start = self.table.len();
        let mut i: usize = 0;
        while i < s.len()
            invariant
                0 <= i <= s@.len(),
                self.table@ == old(self)@ + s@.subrange(0, i as int),
                old(self)@.len() + s@.len() + 1 <= usize::MAX,
            decreases s@.len() - i,
        {
            self.table.push(s[i]);
            proof {
                assert(self.table@ =~= old(self)@ + s@.subrange(0, i + 1));
            }
            i += 1;
        }
        self.table.push(0);
        proof {
            assert(s@.subrange(0, s@.len() as int) =~= s@);
            assert(self.table@ =~= old(self)@ + s@ + seq![0u8]);
        }
        start
    }

    /// How many bytes the table holds.
    pub fn len(&self) -> (r: usize)
        ensures
            r == self@.len(),
    {
        self.table.len()
    }

    /// The entry that starts at `offset`, copied out.  An offset past the
    /// end of the table is reported as `OutOfRange`.
    pub fn get(&self, offset: usize) -> (r: Result<Vec<u8>, ErrorKind>)
        ensures
            match r {
                Ok(v) => offset <= self@.len() && v@ == spec_table_get(self@, offset as int),
                Err(e) => offset > self@.len() && e == ErrorKind::OutOfRange(
                    offset,
                    self@.len() as usize,
                ),
            },
    {
        match self.get_slice(offset) {
            Ok(s) => Ok(vstd::slice::slice_to_vec(s)),
            Err(e) => Err(e),
        }
    }

    /// The entry that starts at `offset`, borrowed from the table.
    pub fn get_slice(&self, offset: usize) -> (r: Result<&[u8], ErrorKind>)
        ensures
            match r {
                Ok(v) => offset <= self@.len() && v@ == spec_table_get(self@, offset as int),
                Err(e) => offset > self@.len() && e == ErrorKind::OutOfRange(
                    offset,
                    self@.len() as usize,
                ),
            },
    {
        if offset > self.table.len() {
            return Err(ErrorKind::OutOfRange(offset, self.table.len()));
        }
        let whole = self.table.as_slice();
        let tail = vstd::slice::slice_subrange(whole, offset, self.table.len());
        let n = strlen(tail);
        proof {
            crate::util::lemma_strlen(tail@);
        }
        Ok(vstd::slice::slice_subrange(tail, 0, n))
    }
}

/// A string table borrowed from a parsed buffer.
#[derive(Debug, Clone)]
pub struct StrTable<'a> {
    table: &'a [u8],
}

impl<'a> View for StrTable<'a> {
    type V = Seq<u8>;

    closed spec fn view(&self) -> Seq<u8> {
        self.table@
    }
}

impl<'a> StrTable<'a> {
    /// A table over the given bytes.
    pub fn new(src: &'a [u8]) -> (r: StrTable<'a>)
        ensures
            r@ == src@,
    {
        StrTable { table: src }
    }

    /// The entry that starts at `offset`, borrowed from the underlying
    /// buffer.  An offset past the end of the table is reported as
    /// `OutOfRange`.
    pub fn get(&self, offset: usize) -> (r: Result<&'a [u8], ErrorKind>)
        ensures
            match r {
                Ok(v) => offset <= self@.len() && v@ == spec_table_get(self@, offset as int),
                Err(e) => offset > self@.len() && e == ErrorKind::OutOfRange(
                    offset,
                    self@.len() as usize,
                ),
            },
    {
        if offset > self.table.len() {
            return Err(ErrorKind::OutOfRange(offset, self.table.len()));
        }
        let tail = vstd::slice::slice_subrange(self.table, offset, self.table.len());
        let n = strlen(tail);
        proof {
            crate::util::lemma_strlen(tail@);
        }
        Ok(vstd::slice::slice_subrange(tail, 0, n))
    }

    /// An owned copy of the whole table.
    pub fn to_string_table(&self) -> (r: StringTable)
        ensures
            r@ == self@,
    {
        StringTable::from_slice(self.table)
    }

    /// Split the table at `idx` into two owned tables.
    pub fn split(&self, idx: usize) -> (r: (StringTable, StringTable))
        requires
            idx <= self@.len(),
        ensures
            r.0@ == self@.subrange(0, idx as int),
            r.1@ == self@.subrange(idx as int, self@.len() as int),
    {
        let head = vstd::slice::slice_subrange(self.table, 0, idx);
        let tail = vstd::slice::slice_subrange(self.table, idx, self.table.len());
        (StringTable::from_slice(head), StringTable::from_slice(tail))
    }
}

} // verus!
