//! The matching engine: decides which catalog entries match a buffer and
//! selects the single best match under a deterministic resolution policy.
//!
//! An entry matches when its pattern appears byte-for-byte at its declared
//! offset, entirely inside the buffer; a buffer too short for the span is an
//! ordinary non-match. The best match is chosen by greatest pattern length,
//! then smallest offset, then earliest declaration in the catalog.

use vstd::prelude::*;

use crate::catalog::Catalog;
use crate::catalog::MagicEntry;

verus! {

/// The pattern of `e` appears byte-for-byte at offset `e.offset` of `buf`,
/// with the whole span in bounds.
pub open spec fn entry_matches(buf: Seq<u8>, e: MagicEntry) -> bool {
    &&& e.offset + e.magic@.len() <= buf.len()
    &&& buf.subrange(e.offset as int, e.offset + e.magic@.len()) == e.magic@
}

/// The indices of the entries among `cat[0..n]` that match `buf`, in
/// ascending catalog order.
pub open spec fn matches_prefix(buf: Seq<u8>, cat: Seq<MagicEntry>, n: int) -> Seq<int>
    decreases n,
{
    if n <= 0 {
        Seq::empty()
    } else if entry_matches(buf, cat[n - 1]) {
        matches_prefix(buf, cat, n - 1).push(n - 1)
    } else {
        matches_prefix(buf, cat, n - 1)
    }
}

/// The indices of all entries of `cat` that match `buf`, in catalog order.
pub open spec fn matching_indices(buf: Seq<u8>, cat: Seq<MagicEntry>) -> Seq<int> {
    matches_prefix(buf, cat, cat.len() as int)
}

/// The resolution policy as a strict order on catalog indices: entry `i`
/// outranks entry `j` when its pattern is longer; on equal length, when its
/// offset is smaller; on equal length and offset, when it was declared first.
pub open spec fn ranks_before(cat: Seq<MagicEntry>, i: int, j: int) -> bool {
    ||| cat[i].magic@.len() > cat[j].magic@.len()
    ||| (cat[i].magic@.len() == cat[j].magic@.len() && cat[i].offset < cat[j].offset)
    ||| (cat[i].magic@.len() == cat[j].magic@.len() && cat[i].offset == cat[j].offset && i < j)
}

/// Entry `b` matches `buf` and outranks every other matching entry.
pub open spec fn is_best(buf: Seq<u8>, cat: Seq<MagicEntry>, b: int) -> bool {
    &&& 0 <= b < cat.len()
    &&& entry_matches(buf, cat[b])
    &&& forall|i: int|
        0 <= i < cat.len() && entry_matches(buf, #[trigger] cat[i]) && i != b ==> ranks_before(
            cat,
            b,
            i,
        )
}

/// One reported match: the catalog index of the entry and the number of
/// bytes of the buffer that its pattern covered (its full pattern length).
#[derive(Clone, Copy, PartialEq, Eq, Structural, Debug)]
pub struct SigMatch {
    pub index: usize,
    pub length: usize,
}

/// The outcome of classifying one buffer: every matching entry in catalog
/// order, and the single best match, absent when nothing matched.
#[derive(Debug)]
pub struct ClassificationResult {
    pub matches: Vec<SigMatch>,
    pub best: Option<SigMatch>,
}

/// `ms` reports exactly the matching entries of `cat`, in catalog order,
/// each with its pattern length.
pub open spec fn result_matches(buf: Seq<u8>, cat: Seq<MagicEntry>, ms: Seq<SigMatch>) -> bool {
    &&& ms.len() == matching_indices(buf, cat).len()
    &&& forall|j: int|
        0 <= j < ms.len() ==> (#[trigger] ms[j]).index as int == matching_indices(buf, cat)[j]
    &&& forall|j: int|
        0 <= j < ms.len() ==> (#[trigger] ms[j]).length == cat[matching_indices(
            buf,
            cat,
        )[j]].magic@.len()
}

/// The full contract of classification: `r.matches` reports exactly the
/// matching entries in catalog order, and `r.best` is the top-ranked match
/// under the resolution policy, or absent exactly when nothing matched.
pub open spec fn result_spec(buf: Seq<u8>, cat: Seq<MagicEntry>, r: ClassificationResult) -> bool {
    &&& result_matches(buf, cat, r.matches@)
    &&& match r.best {
        None => matching_indices(buf, cat).len() == 0,
        Some(b) => is_best(buf, cat, b.index as int) && b.length == cat[b.index
            as int].magic@.len(),
    }
}

/// The elements of `matches_prefix(buf, cat, n)` are exactly the indices
/// below `n` whose entries match `buf`, listed in strictly ascending order.
pub proof fn lemma_matches_prefix_props(buf: Seq<u8>, cat: Seq<MagicEntry>, n: int)
    requires
        0 <= n <= cat.len(),
    ensures
        forall|j: int|
            0 <= j < matches_prefix(buf, cat, n).len() ==> 0 <= #[trigger] matches_prefix(
                buf,
                cat,
                n,
            )[j] < n && entry_matches(buf, cat[matches_prefix(buf, cat, n)[j]]),
        forall|i: int|
            0 <= i < n && entry_matches(buf, #[trigger] cat[i]) ==> matches_prefix(
                buf,
                cat,
                n,
            ).contains(i),
        forall|j1: int, j2: int|
            0 <= j1 < j2 < matches_prefix(buf, cat, n).len() ==> matches_prefix(buf, cat, n)[j1]
                < matches_prefix(buf, cat, n)[j2],
    decreases n,
{
    if n > 0 {
        lemma_matches_prefix_props(buf, cat, n - 1);
        let prev = matches_prefix(buf, cat, n - 1);
        let cur = matches_prefix(buf, cat, n);
        if entry_matches(buf, cat[n - 1]) {
            assert(cur == prev.push(n - 1));
            assert forall|j: int| 0 <= j < cur.len() implies 0 <= #[trigger] cur[j] < n
                && entry_matches(buf, cat[cur[j]]) by {
                if j < prev.len() {
                    assert(cur[j] == prev[j]);
                } else {
                    assert(cur[j] == n - 1);
                }
            }
            assert forall|i: int| 0 <= i < n && entry_matches(buf, #[trigger] cat[i]) implies cur
                .contains(i) by {
                if i == n - 1 {
                    assert(cur[prev.len() as int] == n - 1);
                } else {
                    assert(prev.contains(i));
                    let k = choose|k: int| 0 <= k < prev.len() && prev[k] == i;
                    assert(cur[k] == i);
                }
            }
            assert forall|j1: int, j2: int| 0 <= j1 < j2 < cur.len() implies cur[j1] < cur[j2] by {
                if j2 < prev.len() {
                    assert(cur[j1] == prev[j1] && cur[j2] == prev[j2]);
                } else {
                    assert(cur[j2] == n - 1);
                    assert(cur[j1] == prev[j1] && prev[j1] < n - 1);
                }
            }
        } else {
            assert(cur == prev);
        }
    }
}

/// Whether the pattern of `e` appears byte-for-byte at offset `e.offset`
/// of `buffer`, the span checked against the buffer length first.
fn entry_matches_at(buffer: &[u8], e: &MagicEntry) -> (b: bool)
    ensures
        b == entry_matches(buffer@, *e),
{
    if e.offset > buffer.len() {
        return false;
    }
    if e.magic.len() > buffer.len() - e.offset {
        return false;
    }
    let mut k: usize = 0;
    while k < e.magic.len()
        invariant
            e.offset + e.magic@.len() <= buffer@.len(),
            buffer@.len() <= usize::MAX,
            k <= e.magic@.len(),
            forall|m: int| 0 <= m < k ==> buffer@[e.offset + m] == e.magic@[m],
        decreases e.magic@.len() - k,
    {
        if buffer[e.offset + k] != e.magic[k] {
            proof {
                let sub = buffer@.subrange(e.offset as int, e.offset + e.magic@.len());
                assert(sub[k as int] == buffer@[e.offset + k]);
            }
            return false;
        }
        k += 1;
    }
    proof {
        assert(buffer@.subrange(e.offset as int, e.offset + e.magic@.len()) =~= e.magic@);
    }
    true
}

/// Classifies `buffer` against `catalog`.
///
/// The result reports, in catalog order, every entry whose pattern appears
/// byte-for-byte at its declared offset — a buffer too short for an entry's
/// span is a normal non-match, never a fault — and the single best match:
/// greatest pattern length first, then smallest offset, then earliest
/// declaration; absent exactly when nothing matched.
#[verifier::rlimit(30)]
pub fn classify(buffer: &[u8], catalog: &Catalog) -> (r: ClassificationResult)
    ensures
        result_spec(buffer@, catalog@, r),
        forall|j: int|
            0 <= j < r.matches@.len() ==> 0 <= (#[trigger] r.matches@[j]).index < catalog@.len(),
        forall|j: int|
            0 <= j < r.matches@.len() ==> entry_matches(
                buffer@,
                catalog@[(#[trigger] r.matches@[j]).index as int],
            ),
        forall|j: int|
            0 <= j < r.matches@.len() ==> (#[trigger] r.matches@[j]).length
                == catalog@[r.matches@[j].index as int].magic@.len(),
        forall|j1: int, j2: int|
            0 <= j1 < j2 < r.matches@.len() ==> (#[trigger] r.matches@[j1]).index < (
            #[trigger] r.matches@[j2]).index,
        r.best is None <==> r.matches@.len() == 0,
{
    let entries = catalog.entries();
    let mut found: Vec<SigMatch> = Vec::new();
    let mut best_idx: Option<usize> = None;
    let mut i: usize = 0;
    while i < entries.len()
        invariant
            entries@ == catalog@,
            i <= catalog@.len(),
            found@.len() == matches_prefix(buffer@, catalog@, i as int).len(),
            forall|j: int|
                0 <= j < found@.len() ==> (#[trigger] found@[j]).index as int == matches_prefix(
                    buffer@,
                    catalog@,
                    i as int,
                )[j],
            forall|j: int|
                0 <= j < found@.len() ==> (#[trigger] found@[j]).length
                    == catalog@[matches_prefix(buffer@, catalog@, i as int)[j]].magic@.len(),
            match best_idx {
                None => forall|k: int|
                    0 <= k < i ==> !entry_matches(buffer@, #[trigger] catalog@[k]),
                Some(b) => 0 <= b < i && entry_matches(buffer@, catalog@[b as int]) && forall|
                    k: int,
                |
                    0 <= k < i && entry_matches(buffer@, #[trigger] catalog@[k]) && k != b
                        ==> ranks_before(catalog@, b as int, k),
            },
        decreases entries@.len() - i,
    {
        let e = &entries[i];
        let ghost prev = matches_prefix(buffer@, catalog@, i as int);
        if entry_matches_at(buffer, e) {
            found.push(SigMatch { index: i, length: e.magic.len() });
            proof {
                assert(matches_prefix(buffer@, catalog@, i + 1) == prev.push(i as int));
            }
            match best_idx {
                None => {
                    best_idx = Some(i);
                },
                Some(b) => {
                    let be = &entries[b];
                    if e.magic.len() > be.magic.len() || (e.magic.len() == be.magic.len()
                        && e.offset < be.offset) {
                        best_idx = Some(i);
                    }
                },
            }
        } else {
            proof {
                assert(matches_prefix(buffer@, catalog@, i + 1) == prev);
            }
        }
        i += 1;
    }
    proof {
        lemma_matches_prefix_props(buffer@, catalog@, catalog@.len() as int);
    }
    let best: Option<SigMatch> = match best_idx {
        None => None,
        Some(b) => Some(SigMatch { index: b, length: entries[b].magic.len() }),
    };
    proof {
        let mi = matching_indices(buffer@, catalog@);
        match best_idx {
            None => {
                if mi.len() > 0 {
                    assert(0 <= mi[0] < catalog@.len() && entry_matches(buffer@, catalog@[mi[0]]));
                }
            },
            Some(b) => {
                assert(is_best(buffer@, catalog@, b as int));
                assert(mi.contains(b as int));
                assert(mi.len() > 0);
            },
        }
    }
    ClassificationResult { matches: found, best }
}

/// Error returned by [`classify_strict`] on a zero-length buffer.
#[derive(Clone, Copy, PartialEq, Eq, Structural, Debug)]
pub struct EmptyBuffer;

/// Classification for callers that treat a zero-length buffer as a fault:
/// fails with `EmptyBuffer` exactly when the buffer is empty, and otherwise
/// behaves as [`classify`] does.
pub fn classify_strict(buffer: &[u8], catalog: &Catalog) -> (r: Result<
    ClassificationResult,
    EmptyBuffer,
>)
    ensures
        r is Err <==> buffer@.len() == 0,
        r matches Ok(c) ==> result_spec(buffer@, catalog@, c),
{
    if buffer.len() == 0 {
        Err(EmptyBuffer)
    } else {
        Ok(classify(buffer, catalog))
    }
}

/// Law: a planted pattern is always found. If the pattern of entry `i`
/// stands byte-for-byte at its offset inside the buffer — whatever the other
/// bytes hold — then any classification of that buffer reports entry `i`
/// among its matches, and some best match exists.
pub proof fn lemma_planted_pattern_is_matched(
    buf: Seq<u8>,
    cat: Seq<MagicEntry>,
    r: ClassificationResult,
    i: int,
)
    requires
        result_spec(buf, cat, r),
        0 <= i < cat.len(),
        cat[i].offset + cat[i].magic@.len() <= buf.len(),
        buf.subrange(cat[i].offset as int, cat[i].offset + cat[i].magic@.len()) == cat[i].magic@,
    ensures
        exists|j: int| 0 <= j < r.matches@.len() && (#[trigger] r.matches@[j]).index as int == i,
        r.best is Some,
{
    assert(entry_matches(buf, cat[i]));
    lemma_matches_prefix_props(buf, cat, cat.len() as int);
    let mi = matching_indices(buf, cat);
    assert(mi.contains(i));
    let j = choose|j: int| 0 <= j < mi.len() && mi[j] == i;
    assert((r.matches@[j]).index as int == i);
}

/// Law: a buffer too short for every entry yields an empty result. If the
/// buffer is shorter than `offset + pattern length` for each catalog entry,
/// classification reports no matches and no best match.
pub proof fn lemma_short_buffer_matches_nothing(
    buf: Seq<u8>,
    cat: Seq<MagicEntry>,
    r: ClassificationResult,
)
    requires
        result_spec(buf, cat, r),
        forall|i: int| 0 <= i < cat.len() ==> buf.len() < (#[trigger] cat[i]).offset
            + cat[i].magic@.len(),
    ensures
        r.matches@.len() == 0,
        r.best is None,
{
    lemma_matches_prefix_props(buf, cat, cat.len() as int);
    let mi = matching_indices(buf, cat);
    if mi.len() > 0 {
        assert(0 <= mi[0] < cat.len() && entry_matches(buf, cat[mi[0]]));
    }
}

/// Law: classification is deterministic. Any two results that satisfy the
/// classification contract for the same buffer and catalog agree on the
/// match list and on the best match.
pub proof fn lemma_classify_deterministic(
    buf: Seq<u8>,
    cat: Seq<MagicEntry>,
    r1: ClassificationResult,
    r2: ClassificationResult,
)
    requires
        result_spec(buf, cat, r1),
        result_spec(buf, cat, r2),
    ensures
        r1.matches@ == r2.matches@,
        r1.best == r2.best,
{
    let mi = matching_indices(buf, cat);
    assert forall|j: int| 0 <= j < mi.len() implies r1.matches@[j] == r2.matches@[j] by {
        assert((r1.matches@[j]).index as int == mi[j] && (r2.matches@[j]).index as int == mi[j]);
        assert((r1.matches@[j]).length == (r2.matches@[j]).length);
    }
    assert(r1.matches@ =~= r2.matches@);
    lemma_matches_prefix_props(buf, cat, cat.len() as int);
    match (r1.best, r2.best) {
        (Some(b1), Some(b2)) => {
            if b1.index != b2.index {
                assert(ranks_before(cat, b1.index as int, b2.index as int));
                assert(ranks_before(cat, b2.index as int, b1.index as int));
                assert(false);
            }
        },
        (Some(b1), None) => {
            assert(mi.contains(b1.index as int));
        },
        (None, Some(b2)) => {
            assert(mi.contains(b2.index as int));
        },
        (None, None) => {},
    }
}

/// Law: the best match is exactly the policy's optimum. If entry `b`
/// matches and outranks every other matching entry, any classification of
/// that buffer selects entry `b`, with its pattern length, as the best
/// match.
pub proof fn lemma_best_is_the_unique_optimum(
    buf: Seq<u8>,
    cat: Seq<MagicEntry>,
    r: ClassificationResult,
    b: int,
)
    requires
        result_spec(buf, cat, r),
        is_best(buf, cat, b),
    ensures
        r.best matches Some(m) && m.index as int == b && m.length == cat[b].magic@.len(),
{
    lemma_matches_prefix_props(buf, cat, cat.len() as int);
    let mi = matching_indices(buf, cat);
    assert(mi.contains(b));
    match r.best {
        None => {
            assert(false);
        },
        Some(m) => {
            if m.index as int != b {
                assert(ranks_before(cat, b, m.index as int));
                assert(ranks_before(cat, m.index as int, b));
                assert(false);
            }
        },
    }
}

/// Law: a longer matching pattern always beats a shorter one. When entries
/// `i` and `j` both match and the pattern of `i` is strictly longer, the
/// best match exists and is not entry `j`.
pub proof fn lemma_shorter_match_never_best(
    buf: Seq<u8>,
    cat: Seq<MagicEntry>,
    r: ClassificationResult,
    i: int,
    j: int,
)
    requires
        result_spec(buf, cat, r),
        0 <= i < cat.len(),
        0 <= j < cat.len(),
        entry_matches(buf, cat[i]),
        entry_matches(buf, cat[j]),
        cat[i].magic@.len() > cat[j].magic@.len(),
    ensures
        r.best matches Some(b) && b.index as int != j,
{
    lemma_matches_prefix_props(buf, cat, cat.len() as int);
    let mi = matching_indices(buf, cat);
    assert(mi.contains(i));
    match r.best {
        None => {
            assert(false);
        },
        Some(b) => {
            if b.index as int == j {
                assert(ranks_before(cat, j, i));
                assert(false);
            }
        },
    }
}

/// Law: of two entries with the same offset and the same pattern, both
/// matching, the one declared later is never the best match — declaration
/// order is the tie-break of last resort.
pub proof fn lemma_later_duplicate_never_best(
    buf: Seq<u8>,
    cat: Seq<MagicEntry>,
    r: ClassificationResult,
    i: int,
    j: int,
)
    requires
        result_spec(buf, cat, r),
        0 <= i < j < cat.len(),
        entry_matches(buf, cat[i]),
        cat[i].offset == cat[j].offset,
        cat[i].magic@ == cat[j].magic@,
    ensures
        r.best matches Some(b) && b.index as int != j,
{
    lemma_matches_prefix_props(buf, cat, cat.len() as int);
    let mi = matching_indices(buf, cat);
    assert(mi.contains(i));
    match r.best {
        None => {
            assert(false);
        },
        Some(b) => {
            if b.index as int == j {
                assert(ranks_before(cat, j, i));
                assert(false);
            }
        },
    }
}

} // verus!
