//! Big-endian 16-bit readers over a borrowed byte slice, and the
//! lazily-decoded array of 16-bit words that every subtable stores its
//! glyph lists, range records and offset tables in.

use vstd::prelude::*;
use vstd::slice::{slice_index_get, slice_subrange};

verus! {

/// The 16-bit big-endian word stored at byte position `i` of `b`.
pub open spec fn spec_be_u16(b: Seq<u8>, i: int) -> u16
    recommends
        0 <= i,
        i + 2 <= b.len(),
{
    (b[i] * 256 + b[i + 1]) as u16
}

/// The 16-bit big-endian word at byte position `i` of `b`, read as a
/// two's-complement signed value.
pub open spec fn spec_be_i16(b: Seq<u8>, i: int) -> i16
    recommends
        0 <= i,
        i + 2 <= b.len(),
{
    if spec_be_u16(b, i) >= 0x8000 {
        (spec_be_u16(b, i) - 0x10000) as i16
    } else {
        spec_be_u16(b, i) as i16
    }
}

/// The sequence of 16-bit big-endian words that fills `b` (a trailing odd
/// byte, if any, belongs to no word).
pub open spec fn spec_words(b: Seq<u8>) -> Seq<u16> {
    Seq::new((b.len() / 2) as nat, |i: int| spec_be_u16(b, 2 * i))
}

/// Reads the big-endian `u16` at byte position `pos`.
pub fn read_u16_at(data: &[u8], pos: usize) -> (r: u16)
    requires
        pos + 2 <= data@.len(),
    ensures
        r == spec_be_u16(data@, pos as int),
{
    // the length, a usize, bounds pos + 1 away from overflow
    let n: usize = data.len();
    let hi: u16 = *slice_index_get(data, pos) as u16;
    let lo: u16 = *slice_index_get(data, pos + 1) as u16;
    hi * 256 + lo
}

/// Reads the big-endian two's-complement `i16` at byte position `pos`.
pub fn read_i16_at(data: &[u8], pos: usize) -> (r: i16)
    requires
        pos + 2 <= data@.len(),
    ensures
        r == spec_be_i16(data@, pos as int),
{
    let raw: u16 = read_u16_at(data, pos);
    if raw >= 0x8000 {
        (raw as i32 - 0x10000) as i16
    } else {
        raw as i16
    }
}

/// A borrowed run of bytes holding consecutive big-endian 16-bit words:
/// a glyph list, an offset table, or flattened coverage range records.
pub struct U16Array<'a> {
    pub data: &'a [u8],
}

impl<'a> View for U16Array<'a> {
    type V = Seq<u16>;

    open spec fn view(&self) -> Seq<u16> {
        spec_words(self.data@)
    }
}

impl<'a> U16Array<'a> {
    /// The byte run covers its words exactly.
    pub open spec fn wf(&self) -> bool {
        self.data@.len() % 2 == 0
    }

    /// Number of 16-bit words.
    pub fn len(&self) -> (r: usize)
        requires
            self.wf(),
        ensures
            r == self@.len(),
    {
        self.data.len() / 2
    }

    /// The word at `i`, or `None` past the end.
    pub fn get(&self, i: u16) -> (r: Option<u16>)
        requires
            self.wf(),
        ensures
            r == if (i as int) < self@.len() {
                Some(self@[i as int])
            } else {
                None::<u16>
            },
    {
        if (i as usize) < self.len() {
            Some(read_u16_at(self.data, 2 * (i as usize)))
        } else {
            None
        }
    }
}

/// Whether `b` is a well-formed count-prefixed glyph list: a 16-bit count
/// followed by that many glyph identifiers, all inside the slice. Sequence
/// and AlternateSet blocks both take this shape.
pub open spec fn spec_glyph_list_parse_ok(b: Seq<u8>) -> bool {
    b.len() >= 2 && 2 + 2 * spec_be_u16(b, 0) <= b.len()
}

/// The glyph identifiers such a list holds.
pub open spec fn spec_glyph_list(b: Seq<u8>) -> Seq<u16> {
    spec_words(b.subrange(2, 2 + 2 * spec_be_u16(b, 0)))
}

/// The bytes that entry `i` of an offset table points at: the tail of
/// `base` from the stored offset on, or `None` where `i` is out of range
/// or the offset leaves `base`.
pub open spec fn spec_slice_bytes(base: Seq<u8>, offsets: Seq<u16>, i: int) -> Option<Seq<u8>> {
    if 0 <= i < offsets.len() && offsets[i] <= base.len() {
        Some(base.skip(offsets[i] as int))
    } else {
        None
    }
}

/// An offset table: 16-bit offsets resolved relative to the start of the
/// subtable (`base`) they were read from.
pub struct OffsetArray<'a> {
    /// The whole subtable the offsets are relative to.
    pub base: &'a [u8],
    /// The stored offsets.
    pub offsets: U16Array<'a>,
}

impl<'a> OffsetArray<'a> {
    /// The offset words cover their bytes exactly.
    pub open spec fn wf(&self) -> bool {
        self.offsets.wf()
    }

    /// Resolves entry `i`: bounds-checks the stored offset against the
    /// subtable and re-slices from it to the subtable's end.
    pub fn slice(&self, i: u16) -> (r: Option<&'a [u8]>)
        requires
            self.wf(),
        ensures
            r.is_some() == spec_slice_bytes(self.base@, self.offsets@, i as int).is_some(),
            r matches Some(s) ==> Some(s@) == spec_slice_bytes(self.base@, self.offsets@, i as int),
    {
        match self.offsets.get(i) {
            Some(off) => {
                if off as usize <= self.base.len() {
                    Some(slice_subrange(self.base, off as usize, self.base.len()))
                } else {
                    None
                }
            }
            None => None,
        }
    }
}

/// Carves the word array of `count` 16-bit entries that starts at byte
/// `start` of `data`, or `None` where it would run past the end.
pub fn read_array16<'a>(data: &'a [u8], start: usize, count: u16) -> (r: Option<U16Array<'a>>)
    ensures
        r.is_some() == (start + 2 * count <= data@.len()),
        r matches Some(a) ==> a.wf() && a@ == spec_words(
            data@.subrange(start as int, start + 2 * count),
        ) && a@.len() == count,
{
    if start <= data.len() && 2 * (count as usize) <= data.len() - start {
        let a = U16Array { data: slice_subrange(data, start, start + 2 * (count as usize)) };
        proof {
            assert(a@ =~= spec_words(data@.subrange(start as int, start + 2 * count)));
            assert(a@.len() == count);
        }
        Some(a)
    } else {
        None
    }
}

} // verus!
