//! The signature catalog: an ordered, immutable collection of magic-number
//! entries, validated once at construction.

use vstd::prelude::*;

verus! {

/// Represents a magic number entry with offset, magic bytes, and description.
///
/// The `magic` bytes must appear byte-for-byte at byte offset `offset` from
/// the start of a buffer for the entry to match that buffer.
pub struct MagicEntry {
    pub offset: usize,
    pub magic: Vec<u8>,
    pub description: &'static str,
}

/// A catalog entry is valid when its pattern is non-empty.
pub open spec fn entry_valid(e: MagicEntry) -> bool {
    e.magic@.len() > 0
}

/// Every entry of the sequence is valid.
pub open spec fn catalog_valid(s: Seq<MagicEntry>) -> bool {
    forall|i: int| 0 <= i < s.len() ==> entry_valid(#[trigger] s[i])
}

/// Error returned by [`Catalog::build`] when some entry has an empty pattern.
#[derive(Clone, Copy, PartialEq, Eq, Structural, Debug)]
pub struct InvalidEntry {
    /// Index of the first offending entry in the input sequence.
    pub index: usize,
}

/// An ordered collection of signature entries, immutable once constructed.
///
/// Every `Catalog` that [`Catalog::build`] returns contains only valid
/// entries; the order of the input sequence is preserved, since declaration
/// order is the tie-break of last resort during classification.
pub struct Catalog {
    entries: Vec<MagicEntry>,
}

impl View for Catalog {
    type V = Seq<MagicEntry>;

    closed spec fn view(&self) -> Seq<MagicEntry> {
        self.entries@
    }
}

impl Catalog {
    /// Constructs a catalog from the given entries, in order.
    ///
    /// Fails with `InvalidEntry` exactly when some entry has an empty
    /// pattern; the error carries the index of the first such entry.
    pub fn build(entries: Vec<MagicEntry>) -> (r: Result<Catalog, InvalidEntry>)
        ensures
            match r {
                Ok(c) => c@ == entries@ && catalog_valid(entries@),
                Err(e) => {
                    &&& !catalog_valid(entries@)
                    &&& 0 <= e.index < entries@.len()
                    &&& !entry_valid(entries@[e.index as int])
                    &&& forall|k: int| 0 <= k < e.index ==> entry_valid(#[trigger] entries@[k])
                },
            },
    {
        let mut i: usize = 0;
        while i < entries.len()
            invariant
                i <= entries@.len(),
                forall|k: int| 0 <= k < i ==> entry_valid(#[trigger] entries@[k]),
            decreases entries@.len() - i,
        {
            if entries[i].magic.len() == 0 {
                return Err(InvalidEntry { index: i });
            }
            i += 1;
        }
        Ok(Catalog { entries })
    }

    /// The entries of the catalog, in declaration order.
    pub fn entries(&self) -> (r: &Vec<MagicEntry>)
        ensures
            r@ == self@,
    {
        &self.entries
    }

    /// The number of entries in the catalog.
    pub fn len(&self) -> (n: usize)
        ensures
            n == self@.len(),
    {
        self.entries.len()
    }
}

} // verus!
