//! The byte-pattern search engine.
//!
//! A query is either a literal (marked by a leading `/`, whose remaining
//! bytes are the pattern) or a hexadecimal digit string decoded two digits
//! per byte. Every starting position where the pattern occurs is reported,
//! including overlapping occurrences, in ascending order. A result set
//! answers "does this absolute offset fall inside a match, and how far from
//! its end" queries by binary search, and carries a selection index moved by
//! next/previous navigation.

use vstd::prelude::*;
use vstd::string::StringSliceAdditionalSpecFns;

verus! {

/// The byte that marks a literal (non-hex) query.
pub const LITERAL_MARKER: u8 = 0x2f;

// ---------------------------------------------------------------------------
// Query compilation
// ---------------------------------------------------------------------------

/// Whether `b` is an ASCII hex digit (either case).
pub open spec fn is_hex_digit_byte(b: u8) -> bool {
    (48 <= b <= 57) || (97 <= b <= 102) || (65 <= b <= 70)
}

/// The value of the hex digit `b`.
pub open spec fn hex_digit_value(b: u8) -> int
    recommends
        is_hex_digit_byte(b),
{
    if 48 <= b <= 57 {
        b - 48
    } else if 97 <= b <= 102 {
        b - 97 + 10
    } else {
        b - 65 + 10
    }
}

/// Whether `q` is a well-formed hex query: an even number of hex digits.
pub open spec fn valid_hex(q: Seq<u8>) -> bool {
    &&& q.len() % 2 == 0
    &&& forall|i: int| 0 <= i < q.len() ==> is_hex_digit_byte(#[trigger] q[i])
}

/// The bytes a well-formed hex query decodes to, two digits per byte.
pub open spec fn hex_decoded(q: Seq<u8>) -> Seq<u8>
    recommends
        valid_hex(q),
{
    Seq::new((q.len() / 2) as nat, |i: int| (16 * hex_digit_value(q[2 * i]) + hex_digit_value(q[2 * i + 1])) as u8)
}

/// The pattern a query's bytes compile to: after a leading literal marker,
/// the remaining bytes as they stand; otherwise the hex decoding, or nothing
/// when the digits are malformed.
pub open spec fn compiled_pattern(q: Seq<u8>) -> Option<Seq<u8>> {
    if q.len() > 0 && q[0] == LITERAL_MARKER {
        Some(q.subrange(1, q.len() as int))
    } else if valid_hex(q) {
        Some(hex_decoded(q))
    } else {
        None
    }
}

/// Relies on hex::decode: decodes a string of hex digit pairs (either case)
/// into bytes, and fails exactly on an odd digit count or a non-hex-digit
/// byte.
#[verifier::external_body]
fn hex_decode(input: &str) -> (r: Option<Vec<u8>>)
    ensures
        r is Some <==> valid_hex(input.spec_bytes()),
        r matches Some(v) ==> v@ == hex_decoded(input.spec_bytes()),
{
    hex::decode(input).ok()
}

// ---------------------------------------------------------------------------
// Finding every occurrence
// ---------------------------------------------------------------------------

/// Whether `pat` occurs in `buf` starting at position `i`.
pub open spec fn matches_at(buf: Seq<u8>, pat: Seq<u8>, i: int) -> bool {
    &&& 0 <= i
    &&& i + pat.len() <= buf.len()
    &&& forall|j: int| 0 <= j < pat.len() ==> buf[i + j] == #[trigger] pat[j]
}

/// Every position `>= pos` where `pat` occurs in `buf`, in ascending order.
pub open spec fn matches_from(buf: Seq<u8>, pat: Seq<u8>, pos: int) -> Seq<usize>
    decreases buf.len() + 1 - pos,
    when pos >= 0
{
    if pos + pat.len() > buf.len() {
        Seq::empty()
    } else if matches_at(buf, pat, pos) {
        seq![pos as usize] + matches_from(buf, pat, pos + 1)
    } else {
        matches_from(buf, pat, pos + 1)
    }
}

/// Every position where `pat` occurs in `buf`, in ascending order,
/// overlapping occurrences included.
pub open spec fn all_matches(buf: Seq<u8>, pat: Seq<u8>) -> Seq<usize> {
    matches_from(buf, pat, 0)
}

/// Positions without a match contribute nothing: the match list from `pos`
/// equals the match list from `end` when no position in `[pos, end)` matches.
pub proof fn lemma_matches_from_skip(buf: Seq<u8>, pat: Seq<u8>, pos: int, end: int)
    requires
        0 <= pos <= end,
        forall|i: int| pos <= i < end ==> !matches_at(buf, pat, i),
    ensures
        matches_from(buf, pat, pos) == matches_from(buf, pat, end),
    decreases end - pos,
{
    if pos < end {
        lemma_matches_from_skip(buf, pat, pos + 1, end);
    }
}

/// The match list from `pos` holds exactly the matching positions `>= pos`,
/// strictly ascending.
pub proof fn lemma_matches_from_characterization(buf: Seq<u8>, pat: Seq<u8>, pos: int)
    requires
        0 <= pos,
        buf.len() <= usize::MAX as int,
    ensures
        forall|k: int|
            0 <= k < matches_from(buf, pat, pos).len() ==> pos <= #[trigger] matches_from(
                buf,
                pat,
                pos,
            )[k] as int && matches_at(buf, pat, matches_from(buf, pat, pos)[k] as int),
        forall|i: int|
            pos <= i && matches_at(buf, pat, i) ==> matches_from(buf, pat, pos).contains(
                i as usize,
            ),
        forall|k1: int, k2: int|
            0 <= k1 < k2 < matches_from(buf, pat, pos).len() ==> matches_from(buf, pat, pos)[k1]
                < matches_from(buf, pat, pos)[k2],
    decreases buf.len() + 1 - pos,
{
    let m = matches_from(buf, pat, pos);
    if pos + pat.len() > buf.len() {
        assert forall|i: int| pos <= i && matches_at(buf, pat, i) implies m.contains(
            i as usize,
        ) by {
            assert(i + pat.len() > buf.len());
        }
    } else {
        lemma_matches_from_characterization(buf, pat, pos + 1);
        let rest = matches_from(buf, pat, pos + 1);
        if matches_at(buf, pat, pos) {
            assert(m == seq![pos as usize] + rest);
            assert(m[0] == pos as usize);
            assert forall|k: int| 0 <= k < m.len() implies pos <= #[trigger] m[k] as int
                && matches_at(buf, pat, m[k] as int) by {
                if k > 0 {
                    assert(m[k] == rest[k - 1]);
                }
            }
            assert forall|k1: int, k2: int| 0 <= k1 < k2 < m.len() implies m[k1] < m[k2] by {
                if k1 == 0 {
                    assert(m[k2] == rest[k2 - 1]);
                    assert(pos + 1 <= rest[k2 - 1] as int);
                } else {
                    assert(m[k1] == rest[k1 - 1]);
                    assert(m[k2] == rest[k2 - 1]);
                }
            }
            assert forall|i: int| pos <= i && matches_at(buf, pat, i) implies m.contains(
                i as usize,
            ) by {
                if i == pos {
                    assert(m[0] == i as usize);
                } else {
                    let k = choose|k: int| 0 <= k < rest.len() && rest[k] == i as usize;
                    assert(m[k + 1] == i as usize);
                }
            }
        } else {
            assert(m == rest);
            assert forall|i: int| pos <= i && matches_at(buf, pat, i) implies m.contains(
                i as usize,
            ) by {
                assert(i != pos);
            }
        }
    }
}

/// The reported match list is sound and complete: every reported position is
/// an occurrence, every occurrence is reported — overlapping occurrences
/// included — and the list is strictly ascending.
pub proof fn lemma_all_matches_characterization(buf: Seq<u8>, pat: Seq<u8>)
    requires
        buf.len() <= usize::MAX as int,
    ensures
        forall|k: int|
            0 <= k < all_matches(buf, pat).len() ==> matches_at(
                buf,
                pat,
                #[trigger] all_matches(buf, pat)[k] as int,
            ),
        forall|i: int| matches_at(buf, pat, i) ==> all_matches(buf, pat).contains(i as usize),
        forall|k1: int, k2: int|
            0 <= k1 < k2 < all_matches(buf, pat).len() ==> all_matches(buf, pat)[k1]
                < all_matches(buf, pat)[k2],
{
    lemma_matches_from_characterization(buf, pat, 0);
}

/// Relies on memchr::memmem::find: the index of the first occurrence of
/// `needle` in `haystack`, if any.
#[verifier::external_body]
fn memmem_find(haystack: &[u8], needle: &[u8]) -> (r: Option<usize>)
    ensures
        r matches Some(i) ==> matches_at(haystack@, needle@, i as int) && (forall|j: int|
            0 <= j < i ==> !matches_at(haystack@, needle@, j)),
        r is None ==> forall|j: int| !matches_at(haystack@, needle@, j),
{
    memchr::memmem::find(haystack, needle)
}

/// Every starting position where `pattern` occurs in `buffer`, ascending,
/// overlapping occurrences included. Found by repeated substring search, one
/// position past each hit, so overlapping hits are each reported.
pub fn find_all(buffer: &[u8], pattern: &[u8]) -> (r: Vec<usize>)
    requires
        buffer@.len() < usize::MAX,
    ensures
        r@ == all_matches(buffer@, pattern@),
{
    let mut out: Vec<usize> = Vec::new();
    if pattern.len() > buffer.len() {
        return out;
    }
    let mut pos: usize = 0;
    let ghost buf = buffer@;
    let ghost pat = pattern@;
    while pos <= buffer.len() - pattern.len()
        invariant
            buf == buffer@,
            pat == pattern@,
            buf.len() < usize::MAX,
            pat.len() <= buf.len(),
            0 <= pos <= buf.len() - pat.len() + 1,
            all_matches(buf, pat) == out@ + matches_from(buf, pat, pos as int),
        decreases buf.len() - pat.len() + 1 - pos,
    {
        let sub = vstd::slice::slice_subrange(buffer, pos, buffer.len());
        match memmem_find(sub, pattern) {
            None => {
                proof {
                    assert forall|i: int| pos <= i implies !matches_at(buf, pat, i) by {
                        if matches_at(buf, pat, i) && i + pat.len() <= buf.len() {
                            assert(matches_at(sub@, pat, i - pos)) by {
                                assert forall|j: int| 0 <= j < pat.len() implies sub@[(i - pos)
                                    + j] == pat[j] by {
                                    assert(sub@[(i - pos) + j] == buf[i + j]);
                                }
                            }
                        }
                    }
                    lemma_matches_from_skip(buf, pat, pos as int, buf.len() as int + 1);
                    assert(matches_from(buf, pat, buf.len() as int + 1) == Seq::<usize>::empty());
                    assert(out@ + Seq::<usize>::empty() =~= out@);
                }
                return out;
            },
            Some(j) => {
                proof {
                    assert(matches_at(buf, pat, pos + j)) by {
                        assert forall|k: int| 0 <= k < pat.len() implies buf[(pos + j)
                            + k] == pat[k] by {
                            assert(sub@[j + k] == pat[k]);
                            assert(sub@[j + k] == buf[pos + (j + k)]);
                        }
                    }
                    assert forall|i: int| pos <= i < pos + j implies !matches_at(buf, pat, i) by {
                        if matches_at(buf, pat, i) {
                            assert(matches_at(sub@, pat, i - pos)) by {
                                assert forall|jj: int| 0 <= jj < pat.len() implies sub@[(i - pos)
                                    + jj] == pat[jj] by {
                                    assert(sub@[(i - pos) + jj] == buf[i + jj]);
                                }
                            }
                        }
                    }
                    lemma_matches_from_skip(buf, pat, pos as int, pos + j);
                    assert(matches_from(buf, pat, pos + j) == seq![(pos + j) as usize]
                        + matches_from(buf, pat, pos + j + 1));
                    assert(out@ + matches_from(buf, pat, pos as int) =~= out@.push(
                        (pos + j) as usize,
                    ) + matches_from(buf, pat, pos + j + 1));
                }
                let hit = pos + j;
                out.push(hit);
                pos = hit + 1;
            },
        }
    }
    proof {
        assert(matches_from(buf, pat, pos as int) == Seq::<usize>::empty());
        assert(out@ + Seq::<usize>::empty() =~= out@);
    }
    out
}

// ---------------------------------------------------------------------------
// Result sets
// ---------------------------------------------------------------------------

/// Mathematical model of a [`SearchResults`] value.
#[verifier::ext_equal]
pub ghost struct SearchModel {
    /// Match start offsets, strictly ascending.
    pub results: Seq<usize>,
    /// The pattern's byte length.
    pub match_size: int,
    /// The currently selected match.
    pub sel: int,
}

impl SearchModel {
    /// Well-formedness: at least one match, strictly ascending offsets, and
    /// a selection inside the list.
    pub open spec fn wf(self) -> bool {
        &&& self.results.len() >= 1
        &&& 0 <= self.sel < self.results.len()
        &&& 0 <= self.match_size
        &&& forall|k1: int, k2: int|
            0 <= k1 < k2 < self.results.len() ==> #[trigger] self.results[k1]
                < #[trigger] self.results[k2]
    }

    /// Whether the absolute offset `offset` falls inside the `k`-th match
    /// span `[start, start + match_size)`.
    pub open spec fn covers(self, k: int, offset: int) -> bool {
        &&& 0 <= k < self.results.len()
        &&& self.results[k] <= offset < self.results[k] + self.match_size
    }
}

/// The outcome of one search submission: every match's start offset plus the
/// pattern length, and the index of the currently selected match.
pub struct SearchResults {
    pub results: Vec<usize>,
    pub match_size: usize,
    pub i: usize,
}

impl View for SearchResults {
    type V = SearchModel;

    open spec fn view(&self) -> SearchModel {
        SearchModel {
            results: self.results@,
            match_size: self.match_size as int,
            sel: self.i as int,
        }
    }
}

impl SearchResults {
    /// Wraps a non-empty, ascending list of match offsets; an empty list is
    /// no result set.
    pub fn new(results: Vec<usize>, match_size: usize) -> (r: Option<SearchResults>)
        requires
            forall|k1: int, k2: int|
                0 <= k1 < k2 < results@.len() ==> #[trigger] results@[k1]
                    < #[trigger] results@[k2],
        ensures
            r is Some <==> results@.len() > 0,
            r matches Some(sr) ==> sr@ == (SearchModel {
                results: results@,
                match_size: match_size as int,
                sel: 0,
            }) && sr@.wf(),
    {
        if results.is_empty() {
            return None;
        }

        Some(SearchResults { results, match_size, i: 0 })
    }

    /// Whether the byte being rendered at absolute offset `offset` lies
    /// inside a match: `None` when it lies outside every match span, and the
    /// distance to that span's end (at least 1) when it lies inside one.
    /// When spans overlap, one covering span is surfaced; when the offset is
    /// the first byte of its only covering match, the full pattern length
    /// comes back.
    pub fn match_len(&self, offset: usize) -> (r: Option<usize>)
        requires
            self@.wf(),
        ensures
            r is Some <==> exists|k: int| self@.covers(k, offset as int),
            r matches Some(l) ==> exists|k: int|
                #[trigger] self@.covers(k, offset as int) && l == self@.results[k]
                    + self@.match_size - offset,
            ((forall|k: int| self@.covers(k, offset as int) ==> self@.results[k] == offset as int)
                && (exists|k: int| self@.covers(k, offset as int))) ==> r == Some(
                self.match_size,
            ),
    {
        let mut lo: usize = 0;
        let mut hi: usize = self.results.len();
        while lo < hi
            invariant
                self@.wf(),
                0 <= lo <= hi <= self@.results.len(),
                forall|k: int| 0 <= k < lo ==> #[trigger] self@.results[k] + self@.match_size
                    <= offset,
                forall|k: int| hi <= k < self@.results.len() ==> offset < #[trigger] self@.results[
                    k
                ],
            decreases hi - lo,
        {
            let mid = lo + (hi - lo) / 2;
            let x = self.results[mid];
            if offset < x {
                hi = mid;
            } else if offset - x < self.match_size {
                assert(self@.covers(mid as int, offset as int));
                return Some(self.match_size - (offset - x));
            } else {
                lo = mid + 1;
            }
        }
        assert forall|k: int| !self@.covers(k, offset as int) by {
            if 0 <= k < self@.results.len() {
                if k < lo {
                    assert(self@.results[k] + self@.match_size <= offset);
                } else {
                    assert(offset < self@.results[k]);
                }
            }
        }
        None
    }

    /// The number of matches.
    pub fn len(&self) -> (r: usize)
        ensures
            r == self@.results.len(),
    {
        self.results.len()
    }

    /// Moves the selection one match forward, saturating at the last match,
    /// and returns the selected match's start offset.
    pub fn next(&mut self) -> (r: usize)
        requires
            old(self)@.wf(),
        ensures
            final(self)@ == (SearchModel {
                sel: if old(self)@.sel + 1 < old(self)@.results.len() {
                    old(self)@.sel + 1
                } else {
                    old(self)@.results.len() - 1
                },
                ..old(self)@
            }),
            final(self)@.wf(),
            r == final(self)@.results[final(self)@.sel],
    {
        assert(old(self)@.sel < old(self)@.results.len());
        if self.i < self.results.len() - 1 {
            self.i = self.i + 1;
        } else {
            self.i = self.results.len() - 1;
        }
        self.results[self.i]
    }

    /// Moves the selection one match back, saturating at the first match,
    /// and returns the selected match's start offset.
    pub fn prev(&mut self) -> (r: usize)
        requires
            old(self)@.wf(),
        ensures
            final(self)@ == (SearchModel {
                sel: if old(self)@.sel > 0 {
                    old(self)@.sel - 1
                } else {
                    0
                },
                ..old(self)@
            }),
            final(self)@.wf(),
            r == final(self)@.results[final(self)@.sel],
    {
        if self.i > 0 {
            self.i = self.i - 1;
        }
        self.results[self.i]
    }

    /// The selected match's start offset.
    pub fn result(&self) -> (r: usize)
        requires
            self@.wf(),
        ensures
            r == self@.results[self@.sel],
    {
        self.results[self.i]
    }

    /// The selected match's index, for the "current/total" status display.
    pub fn idx(&self) -> (r: usize)
        ensures
            r == self@.sel,
    {
        self.i
    }
}

// ---------------------------------------------------------------------------
// Searching
// ---------------------------------------------------------------------------

/// The result set a query produces against `buf`: nothing when the query is
/// malformed hex or when the compiled pattern never occurs; otherwise every
/// occurrence, ascending, with the first selected. `query` is taken by its
/// UTF-8 bytes.
pub open spec fn spec_search(buf: Seq<u8>, query_bytes: Seq<u8>) -> Option<SearchModel> {
    match compiled_pattern(query_bytes) {
        None => None,
        Some(pat) => {
            let rs = all_matches(buf, pat);
            if rs.len() == 0 {
                None
            } else {
                Some(SearchModel { results: rs, match_size: pat.len() as int, sel: 0 })
            }
        },
    }
}

/// Compiles `input` (a literal after a leading `/`, else hex digits) and
/// finds every occurrence of the pattern in `buffer`. A malformed hex query
/// and a pattern with no occurrences both yield no result set.
pub fn search(buffer: &[u8], input: &str) -> (r: Option<SearchResults>)
    requires
        buffer@.len() < usize::MAX,
    ensures
        r is Some <==> spec_search(buffer@, input.spec_bytes()) is Some,
        r matches Some(sr) ==> Some(sr@) == spec_search(buffer@, input.spec_bytes()) && sr@.wf(),
{
    let q = input.as_bytes();
    let pattern: Vec<u8> = if q.len() > 0 && q[0] == LITERAL_MARKER {
        vstd::slice::slice_to_vec(vstd::slice::slice_subrange(q, 1, q.len()))
    } else {
        match hex_decode(input) {
            Some(v) => v,
            None => {
                return None;
            },
        }
    };
    let found = find_all(buffer, pattern.as_slice());
    proof {
        lemma_matches_from_characterization(buffer@, pattern@, 0);
    }
    let r = SearchResults::new(found, pattern.len());
    proof {
        if r is Some {
            assert(Some(r->Some_0@) =~= spec_search(buffer@, input.spec_bytes()));
        }
    }
    r
}

} // verus!
