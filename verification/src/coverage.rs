//! Coverage tables: the structure every substitution subtable consults to
//! test whether a glyph takes part in the lookup, and to obtain the dense
//! index that selects the glyph's entry in a parallel data array.
//!
//! Two binary formats exist: format 1 is a plain glyph list whose position
//! is the coverage index; format 2 is a list of ranges, each carrying the
//! coverage index of its first glyph.

use vstd::prelude::*;

use crate::bytes::{U16Array, read_array16, read_u16_at, spec_be_u16, spec_words};

verus! {

/// Position of the first occurrence of `glyph_id` in `glyphs`.
pub open spec fn spec_first_glyph_index(glyphs: Seq<u16>, glyph_id: u16) -> Option<int>
    decreases glyphs.len(),
{
    if glyphs.len() == 0 {
        None
    } else if glyphs[0] == glyph_id {
        Some(0)
    } else {
        match spec_first_glyph_index(glyphs.drop_first(), glyph_id) {
            Some(i) => Some(i + 1),
            None => None,
        }
    }
}

/// What a format 1 table answers: the position of the glyph in the list.
pub open spec fn spec_get_format1(glyphs: Seq<u16>, glyph_id: u16) -> Option<u16>
    recommends
        glyphs.len() <= 0xFFFF,
{
    match spec_first_glyph_index(glyphs, glyph_id) {
        Some(i) => Some(i as u16),
        None => None,
    }
}

/// Position of the first range record (three words: start, end, first
/// coverage index) that contains `glyph_id`. `records` is the flattened
/// word list of all range records.
pub open spec fn spec_first_range_index(records: Seq<u16>, glyph_id: u16) -> Option<int>
    decreases records.len(),
{
    if records.len() < 3 {
        None
    } else if records[0] <= glyph_id && glyph_id <= records[1] {
        Some(0)
    } else {
        match spec_first_range_index(records.skip(3), glyph_id) {
            Some(i) => Some(i + 1),
            None => None,
        }
    }
}

/// What a format 2 table answers: the containing range's first coverage
/// index plus the glyph's distance from the range start, modulo 2^16.
pub open spec fn spec_get_format2(records: Seq<u16>, glyph_id: u16) -> Option<u16> {
    match spec_first_range_index(records, glyph_id) {
        Some(k) => Some(
            ((records[3 * k + 2] + glyph_id - records[3 * k]) % 0x10000) as u16,
        ),
        None => None,
    }
}

/// Whether `b` is a well-formed coverage table: a recognized format tag and
/// a declared array that stays inside the slice.
pub open spec fn spec_coverage_parse_ok(b: Seq<u8>) -> bool {
    b.len() >= 4 && {
        let format = spec_be_u16(b, 0);
        let count = spec_be_u16(b, 2);
        if format == 1 {
            4 + 2 * count <= b.len()
        } else if format == 2 {
            4 + 6 * count <= b.len()
        } else {
            false
        }
    }
}

/// The coverage index that the table stored in `b` assigns to `glyph_id`,
/// or `None` where `b` is malformed or the glyph is not covered.
pub open spec fn spec_coverage_get_bytes(b: Seq<u8>, glyph_id: u16) -> Option<u16> {
    if spec_coverage_parse_ok(b) {
        let count = spec_be_u16(b, 2);
        if spec_be_u16(b, 0) == 1 {
            spec_get_format1(spec_words(b.subrange(4, 4 + 2 * count)), glyph_id)
        } else {
            spec_get_format2(spec_words(b.subrange(4, 4 + 6 * count)), glyph_id)
        }
    } else {
        None
    }
}

/// A parsed coverage table, borrowing the caller's subtable bytes.
pub enum Coverage<'a> {
    /// A glyph list; the coverage index is the list position.
    Format1 { glyphs: U16Array<'a> },
    /// Flattened range records of three words each: start glyph, end glyph,
    /// coverage index of the start glyph.
    Format2 { records: U16Array<'a> },
}

impl<'a> Coverage<'a> {
    /// The arrays cover their bytes exactly and fit 16-bit indexing.
    pub open spec fn wf(&self) -> bool {
        match self {
            Coverage::Format1 { glyphs } => glyphs.wf() && glyphs@.len() <= 0xFFFF,
            Coverage::Format2 { records } => records.wf() && records@.len() % 3 == 0
                && records@.len() <= 3 * 0xFFFF,
        }
    }

    /// The coverage index this table assigns to `glyph_id`.
    pub open spec fn spec_get(&self, glyph_id: u16) -> Option<u16> {
        match self {
            Coverage::Format1 { glyphs } => spec_get_format1(glyphs@, glyph_id),
            Coverage::Format2 { records } => spec_get_format2(records@, glyph_id),
        }
    }

    /// Parses a coverage table. Fails exactly where the format tag is
    /// neither 1 nor 2 or the declared array runs past the slice.
    pub fn parse(data: &'a [u8]) -> (r: Option<Coverage<'a>>)
        ensures
            r.is_some() == spec_coverage_parse_ok(data@),
            r matches Some(c) ==> c.wf() && forall|g: u16|
                #[trigger] c.spec_get(g) == spec_coverage_get_bytes(data@, g),
    {
        if data.len() < 4 {
            return None;
        }
        let format: u16 = read_u16_at(data, 0);
        let count: u16 = read_u16_at(data, 2);
        if format == 1 {
            match read_array16(data, 4, count) {
                Some(glyphs) => Some(Coverage::Format1 { glyphs }),
                None => None,
            }
        } else if format == 2 {
            if count as usize > 0xFFFF {
                return None;
            }
            match read_array16_triple(data, count) {
                Some(records) => Some(Coverage::Format2 { records }),
                None => None,
            }
        } else {
            None
        }
    }

    /// Looks `glyph_id` up. `None` means the glyph is not covered by this
    /// lookup; `Some(i)` hands back the dense index that selects the
    /// glyph's entry in the subtable's parallel array.
    #[verifier::loop_isolation(false)]
    pub fn get(&self, glyph_id: u16) -> (r: Option<u16>)
        requires
            self.wf(),
        ensures
            r == self.spec_get(glyph_id),
    {
        match self {
            Coverage::Format1 { glyphs } => {
                let n: usize = glyphs.len();
                let mut i: usize = 0;
                while i < n
                    invariant
                        glyphs.wf(),
                        n == glyphs@.len(),
                        n <= 0xFFFF,
                        i <= n,
                        forall|j: int| 0 <= j < i ==> glyphs@[j] != glyph_id,
                    decreases n - i,
                {
                    let word: u16 = read_u16_at(glyphs.data, 2 * i);
                    proof {
                        assert(glyphs@[i as int] == spec_be_u16(glyphs.data@, 2 * i));
                    }
                    if word == glyph_id {
                        proof {
                            lemma_first_glyph_index_char(glyphs@, glyph_id);
                        }
                        return Some(i as u16);
                    }
                    i = i + 1;
                }
                proof {
                    lemma_first_glyph_index_char(glyphs@, glyph_id);
                }
                None
            }
            Coverage::Format2 { records } => {
                let n: usize = records.len() / 3;
                let mut k: usize = 0;
                proof {
                    lemma_first_range_index_char(records@, glyph_id);
                }
                while k < n
                    invariant
                        records.wf(),
                        records@.len() % 3 == 0,
                        records@.len() <= 3 * 0xFFFF,
                        n == records@.len() / 3,
                        k <= n,
                        forall|j: int|
                            0 <= j < k ==> !(#[trigger] records@[3 * j] <= glyph_id
                                && glyph_id <= records@[3 * j + 1]),
                    decreases n - k,
                {
                    let start: u16 = read_u16_at(records.data, 6 * k);
                    let end: u16 = read_u16_at(records.data, 6 * k + 2);
                    proof {
                        assert(records@[3 * k] == spec_be_u16(records.data@, 2 * (3 * k)));
                        assert(records@[3 * k + 1] == spec_be_u16(records.data@, 2 * (3 * k) + 2));
                        assert(records@[3 * k + 2] == spec_be_u16(records.data@, 2 * (3 * k) + 4));
                    }
                    if start <= glyph_id && glyph_id <= end {
                        let first_index: u16 = read_u16_at(records.data, 6 * k + 4);
                        proof {
                            lemma_first_range_index_char(records@, glyph_id);
                        }
                        let wide: u32 = first_index as u32 + (glyph_id - start) as u32;
                        return Some((wide % 0x10000) as u16);
                    }
                    k = k + 1;
                }
                proof {
                    lemma_first_range_index_char(records@, glyph_id);
                }
                None
            }
        }
    }
}

/// Carves the flattened range-record array (three words per record) that
/// starts at byte 4.
fn read_array16_triple<'a>(data: &'a [u8], count: u16) -> (r: Option<U16Array<'a>>)
    ensures
        r.is_some() == (4 + 6 * count <= data@.len()),
        r matches Some(a) ==> a.wf() && a@ == spec_words(
            data@.subrange(4, 4 + 6 * count),
        ) && a@.len() == 3 * count,
{
    let words: usize = 3 * (count as usize);
    if data.len() >= 4 && 2 * words <= data.len() - 4 {
        let a = U16Array { data: vstd::slice::slice_subrange(data, 4, 4 + 2 * words) };
        proof {
            assert(a@ =~= spec_words(data@.subrange(4, 4 + 6 * count)));
        }
        Some(a)
    } else {
        None
    }
}

/// Law: a slice shorter than the minimum coverage header, or one whose
/// format tag is neither 1 nor 2, is never a well-formed coverage table,
/// so `Coverage::parse` rejects it (and, being verified, reads nothing
/// out of bounds while doing so).
pub proof fn lemma_coverage_parse_rejects(b: Seq<u8>)
    ensures
        b.len() < 4 ==> !spec_coverage_parse_ok(b),
        b.len() >= 2 && spec_be_u16(b, 0) != 1 && spec_be_u16(b, 0) != 2
            ==> !spec_coverage_parse_ok(b),
{
}

/// Whether the glyph list is strictly increasing, as format 1 demands of
/// well-formed fonts.
pub open spec fn spec_sorted_glyphs(glyphs: Seq<u16>) -> bool {
    forall|i: int, j: int| 0 <= i < j < glyphs.len() ==> glyphs[i] < glyphs[j]
}

/// Law: over a sorted glyph list, format 1 lookup answers the exact
/// 0-based list position for every member and `None` for every
/// non-member.
pub proof fn lemma_format1_sorted_get(glyphs: Seq<u16>, glyph_id: u16)
    requires
        spec_sorted_glyphs(glyphs),
        glyphs.len() <= 0xFFFF,
    ensures
        forall|i: int|
            0 <= i < glyphs.len() && glyphs[i] == glyph_id ==> spec_get_format1(glyphs, glyph_id)
                == Some(i as u16),
        (forall|i: int| 0 <= i < glyphs.len() ==> glyphs[i] != glyph_id) ==> spec_get_format1(
            glyphs,
            glyph_id,
        ).is_none(),
{
    lemma_first_glyph_index_char(glyphs, glyph_id);
    match spec_first_glyph_index(glyphs, glyph_id) {
        Some(i0) => {
            assert forall|i: int|
                0 <= i < glyphs.len() && glyphs[i] == glyph_id implies spec_get_format1(
                glyphs,
                glyph_id,
            ) == Some(i as u16) by {
                if i < i0 {
                    assert(glyphs[i] != glyph_id);
                } else if i > i0 {
                    assert(glyphs[i0] < glyphs[i]);
                }
            }
        }
        None => {}
    }
}

/// Whether range records are orderly, as format 2 demands of well-formed
/// fonts: each range runs forward, and consecutive ranges come in strictly
/// increasing, non-overlapping order.
pub open spec fn spec_orderly_ranges(records: Seq<u16>) -> bool {
    &&& records.len() % 3 == 0
    &&& forall|k: int| 0 <= 3 * k + 2 < records.len() ==> #[trigger] records[3 * k] <= records[3 * k
        + 1]
    &&& forall|k: int|
        0 <= 3 * (k + 1) + 2 < records.len() ==> #[trigger] records[3 * k + 1] < records[3 * (k
            + 1)]
}

/// Over orderly records, range ends stay below every later range's start.
proof fn lemma_orderly_ranges_monotone(records: Seq<u16>, k1: int, k2: int)
    requires
        spec_orderly_ranges(records),
        0 <= k1 < k2,
        3 * k2 + 2 < records.len(),
    ensures
        records[3 * k1 + 1] < records[3 * k2],
    decreases k2 - k1,
{
    if k2 == k1 + 1 {
        assert(records[3 * k1 + 1] < records[3 * (k1 + 1)]);
    } else {
        lemma_orderly_ranges_monotone(records, k1, k2 - 1);
        assert(records[3 * (k2 - 1)] <= records[3 * (k2 - 1) + 1]);
        assert(records[3 * (k2 - 1) + 1] < records[3 * ((k2 - 1) + 1)]);
    }
}

/// Law: over orderly range records, format 2 lookup answers the containing
/// range's stored index base plus the glyph's distance into the range, for
/// every covered glyph, and `None` for every glyph no range contains.
pub proof fn lemma_format2_orderly_get(records: Seq<u16>, glyph_id: u16)
    requires
        spec_orderly_ranges(records),
    ensures
        forall|k: int|
            0 <= 3 * k + 2 < records.len() && #[trigger] records[3 * k] <= glyph_id && glyph_id
                <= records[3 * k + 1] ==> spec_get_format2(records, glyph_id) == Some(
                ((records[3 * k + 2] + glyph_id - records[3 * k]) % 0x10000) as u16,
            ),
        (forall|k: int|
            0 <= 3 * k + 2 < records.len() ==> !(#[trigger] records[3 * k] <= glyph_id && glyph_id
                <= records[3 * k + 1])) ==> spec_get_format2(records, glyph_id).is_none(),
{
    lemma_first_range_index_char(records, glyph_id);
    match spec_first_range_index(records, glyph_id) {
        Some(k0) => {
            assert forall|k: int|
                0 <= 3 * k + 2 < records.len() && #[trigger] records[3 * k] <= glyph_id && glyph_id
                    <= records[3 * k + 1] implies spec_get_format2(records, glyph_id) == Some(
                ((records[3 * k + 2] + glyph_id - records[3 * k]) % 0x10000) as u16,
            ) by {
                if k < k0 {
                    assert(!(records[3 * k] <= glyph_id && glyph_id <= records[3 * k + 1]));
                } else if k > k0 {
                    lemma_orderly_ranges_monotone(records, k0, k);
                }
            }
        }
        None => {}
    }
}

/// How the first-occurrence search reads: where it answers `Some(i)`, the
/// glyph stands at `i` and nowhere earlier; where it answers `None`, the
/// glyph is absent.
pub proof fn lemma_first_glyph_index_char(glyphs: Seq<u16>, glyph_id: u16)
    ensures
        match spec_first_glyph_index(glyphs, glyph_id) {
            Some(i) => 0 <= i < glyphs.len() && glyphs[i] == glyph_id && (forall|j: int|
                0 <= j < i ==> glyphs[j] != glyph_id),
            None => forall|j: int| 0 <= j < glyphs.len() ==> glyphs[j] != glyph_id,
        },
    decreases glyphs.len(),
{
    if glyphs.len() == 0 {
    } else if glyphs[0] == glyph_id {
    } else {
        lemma_first_glyph_index_char(glyphs.drop_first(), glyph_id);
        assert forall|j: int| 1 <= j < glyphs.len() implies glyphs[j] == glyphs.drop_first()[j - 1]
        by {}
    }
}

/// How the first-containing-range search reads: where it answers `Some(k)`,
/// record `k` contains the glyph and no earlier record does; where it
/// answers `None`, no record contains it.
pub proof fn lemma_first_range_index_char(records: Seq<u16>, glyph_id: u16)
    requires
        records.len() % 3 == 0,
    ensures
        match spec_first_range_index(records, glyph_id) {
            Some(k) => 0 <= k && 3 * k + 2 < records.len() && records[3 * k] <= glyph_id
                && glyph_id <= records[3 * k + 1] && (forall|j: int|
                0 <= j < k ==> !(#[trigger] records[3 * j] <= glyph_id && glyph_id <= records[3 * j
                    + 1])),
            None => forall|j: int|
                0 <= 3 * j + 2 < records.len() ==> !(#[trigger] records[3 * j] <= glyph_id
                    && glyph_id <= records[3 * j + 1]),
        },
    decreases records.len(),
{
    if records.len() < 3 {
    } else if records[0] <= glyph_id && glyph_id <= records[1] {
    } else {
        let rest = records.skip(3);
        assert(rest.len() % 3 == 0);
        lemma_first_range_index_char(rest, glyph_id);
        match spec_first_range_index(rest, glyph_id) {
            Some(i) => {
                assert(records[3 * (i + 1)] == rest[3 * i]);
                assert(records[3 * (i + 1) + 1] == rest[3 * i + 1]);
                assert forall|j: int| 0 <= j < i + 1 implies !(#[trigger] records[3 * j]
                    <= glyph_id && glyph_id <= records[3 * j + 1]) by {
                    if j >= 1 {
                        assert(rest[3 * (j - 1)] == records[3 * j]);
                        assert(rest[3 * (j - 1) + 1] == records[3 * j + 1]);
                    }
                }
            }
            None => {
                assert forall|j: int| 0 <= 3 * j + 2 < records.len() implies !(#[trigger] records[3
                    * j] <= glyph_id && glyph_id <= records[3 * j + 1]) by {
                    if j >= 1 {
                        assert(rest[3 * (j - 1)] == records[3 * j]);
                        assert(rest[3 * (j - 1) + 1] == records[3 * j + 1]);
                    }
                }
            }
        }
    }
}

} // verus!
