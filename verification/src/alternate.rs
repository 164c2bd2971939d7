//! Alternate substitution: a covered glyph selects an AlternateSet — a
//! list of candidate replacements — and the feature author's choice,
//! encoded in the lookup's mask bits on the glyph, picks one of them. A
//! reserved maximum-value selector means "no explicit choice" and, where
//! the randomization feature drives the lookup, draws the candidate from
//! the context's randomness service instead.

use vstd::prelude::*;

use crate::buffer::{ApplyContext, GlyphInfo, WouldApplyContext};
use crate::bytes::{OffsetArray, U16Array, read_array16, read_u16_at, spec_be_u16,
    spec_glyph_list, spec_glyph_list_parse_ok, spec_slice_bytes, spec_words};
use crate::coverage::{Coverage, spec_coverage_get_bytes, spec_coverage_parse_ok};

verus! {

/// The reserved selector value meaning "no explicit choice": the largest
/// value a lookup's mask field can carry.
pub const MAP_MAX_VALUE: u32 = 255;

/// The selector encoded in the glyph's mask under the lookup's mask: the
/// masked bits shifted down to the lookup mask's lowest set bit. A lookup
/// mask of zero selects nothing.
///
/// The lookup mask is assumed to occupy one contiguous bit field owned by
/// a single feature; where two active features route through the same bits
/// the selection is undefined by design, and this exact extraction is kept
/// for compatibility.
pub open spec fn spec_selector(lookup_mask: u32, glyph_mask: u32) -> u32 {
    if lookup_mask == 0 {
        0
    } else {
        (lookup_mask & glyph_mask) >> lookup_mask.trailing_zeros()
    }
}

/// The candidate an AlternateSet with glyphs `alts` yields under the given
/// masks and randomness state: the 1-based selector (replaced by
/// `random_value % len + 1` where it is the reserved maximum and
/// randomization is on) converted to a 0-based index, or `None` where the
/// set is empty, the selector is zero or oversized, or the index falls
/// outside the set.
pub open spec fn spec_alternate_choice(
    alts: Seq<u16>,
    lookup_mask: u32,
    glyph_mask: u32,
    random: bool,
    random_value: u32,
) -> Option<u16> {
    if alts.len() == 0 {
        None
    } else {
        let raw = spec_selector(lookup_mask, glyph_mask);
        let chosen: u32 = if raw == MAP_MAX_VALUE && random {
            ((random_value % (alts.len() as u32)) + 1) as u32
        } else {
            raw
        };
        if 1 <= chosen && chosen <= 0xFFFF && chosen - 1 < alts.len() {
            Some(alts[chosen - 1])
        } else {
            None
        }
    }
}

/// A parsed AlternateSet block: the candidate replacements for one glyph.
pub struct AlternateSet<'a> {
    /// The candidate glyphs, logically 1-indexed by the selector.
    pub alternates: U16Array<'a>,
}

impl<'a> AlternateSet<'a> {
    /// The glyph words cover their bytes exactly and fit 16-bit indexing.
    pub open spec fn wf(&self) -> bool {
        self.alternates.wf() && self.alternates@.len() <= 0xFFFF
    }

    /// Parses an AlternateSet block. Fails exactly where the declared list
    /// runs past the slice.
    pub fn parse(data: &'a [u8]) -> (r: Option<AlternateSet<'a>>)
        ensures
            r.is_some() == spec_glyph_list_parse_ok(data@),
            r matches Some(s) ==> s.wf() && s.alternates@ == spec_glyph_list(data@),
    {
        if data.len() < 2 {
            return None;
        }
        let count: u16 = read_u16_at(data, 0);
        match read_array16(data, 2, count) {
            Some(alternates) => Some(AlternateSet { alternates }),
            None => None,
        }
    }

    /// Decodes the selector from the masks, falls back to the randomness
    /// service where the reserved value asks for it, and replaces the glyph
    /// under the cursor with the chosen candidate; reports `None` and
    /// leaves the context untouched where no candidate is selected.
    pub fn apply(&self, ctx: &mut ApplyContext) -> (r: Option<()>)
        requires
            self.wf(),
            old(ctx).buffer.has_cur(),
        ensures
            r.is_some() == spec_alternate_choice(
                self.alternates@,
                old(ctx).lookup_mask,
                old(ctx).buffer.spec_cur().mask,
                old(ctx).random,
                old(ctx).random_value,
            ).is_some(),
            r matches Some(_) ==> {
                &&& final(ctx).buffer.info@ == old(ctx).buffer.info@.update(
                    old(ctx).buffer.idx as int,
                    GlyphInfo {
                        glyph_id: spec_alternate_choice(
                            self.alternates@,
                            old(ctx).lookup_mask,
                            old(ctx).buffer.spec_cur().mask,
                            old(ctx).random,
                            old(ctx).random_value,
                        ).unwrap(),
                        ..old(ctx).buffer.spec_cur()
                    },
                )
                &&& final(ctx).buffer.out@ == old(ctx).buffer.out@
                &&& final(ctx).buffer.idx == old(ctx).buffer.idx
                &&& final(ctx).lookup_mask == old(ctx).lookup_mask
                &&& final(ctx).random == old(ctx).random
                &&& final(ctx).random_value == old(ctx).random_value
            },
            r.is_none() ==> *final(ctx) == *old(ctx),
    {
        let len: usize = self.alternates.len();
        if len == 0 {
            return None;
        }
        let glyph_mask: u32 = ctx.buffer.cur().mask;
        let lookup_mask: u32 = ctx.lookup_mask();
        let mut alt_index: u32 = if lookup_mask == 0 {
            0
        } else {
            let shift: u32 = lookup_mask.trailing_zeros();
            proof {
                vstd::std_specs::bits::axiom_u32_trailing_zeros(lookup_mask);
            }
            (lookup_mask & glyph_mask) >> shift
        };
        if alt_index == MAP_MAX_VALUE && ctx.random() {
            alt_index = ctx.random_number() % (len as u32) + 1;
        }
        if alt_index > 0xFFFF {
            return None;
        }
        if alt_index == 0 {
            return None;
        }
        let index: u16 = (alt_index - 1) as u16;
        match self.alternates.get(index) {
            Some(g) => {
                ctx.replace_glyph(g);
                Some(())
            }
            None => None,
        }
    }
}

/// A parsed alternate-substitution subtable (one binary format exists).
pub enum AlternateSubst<'a> {
    /// The coverage index selects an AlternateSet through the offset table.
    Format1 { coverage: Coverage<'a>, alternate_sets: OffsetArray<'a> },
}

/// Whether `b` is a well-formed alternate-substitution subtable: format
/// tag 1, a coverage table inside the slice, and an offset table that
/// stays inside it (the AlternateSet blocks themselves are resolved lazily
/// at apply time).
pub open spec fn spec_alternate_parse_ok(b: Seq<u8>) -> bool {
    b.len() >= 6 && {
        let format = spec_be_u16(b, 0);
        let off = spec_be_u16(b, 2);
        format == 1 && off <= b.len() && spec_coverage_parse_ok(b.skip(off as int)) && 6 + 2
            * spec_be_u16(b, 4) <= b.len()
    }
}

/// Law: a slice shorter than the minimum subtable header, or one whose
/// format tag is not 1, is never a well-formed alternate-substitution
/// subtable, so `AlternateSubst::parse` rejects it (and, being verified,
/// reads nothing out of bounds while doing so).
pub proof fn lemma_alternate_parse_rejects(b: Seq<u8>)
    ensures
        b.len() < 6 ==> !spec_alternate_parse_ok(b),
        b.len() >= 2 && spec_be_u16(b, 0) != 1 ==> !spec_alternate_parse_ok(b),
{
}

/// The candidate glyphs that the subtable stored in `b` lists for
/// `glyph_id`: `None` where `b` is malformed, the glyph is not covered,
/// its offset entry is missing or out of bounds, or the AlternateSet block
/// is malformed.
pub open spec fn spec_alternate_set_bytes(b: Seq<u8>, glyph_id: u16) -> Option<Seq<u16>> {
    if spec_alternate_parse_ok(b) {
        let offsets = spec_words(b.subrange(6, 6 + 2 * spec_be_u16(b, 4)));
        match spec_coverage_get_bytes(b.skip(spec_be_u16(b, 2) as int), glyph_id) {
            Some(index) => match spec_slice_bytes(b, offsets, index as int) {
                Some(set_bytes) => if spec_glyph_list_parse_ok(set_bytes) {
                    Some(spec_glyph_list(set_bytes))
                } else {
                    None
                },
                None => None,
            },
            None => None,
        }
    } else {
        None
    }
}

/// The replacement that the subtable stored in `b` yields for `glyph_id`
/// under the given masks and randomness state.
pub open spec fn spec_alternate_target_bytes(
    b: Seq<u8>,
    glyph_id: u16,
    lookup_mask: u32,
    glyph_mask: u32,
    random: bool,
    random_value: u32,
) -> Option<u16> {
    match spec_alternate_set_bytes(b, glyph_id) {
        Some(alts) => spec_alternate_choice(alts, lookup_mask, glyph_mask, random, random_value),
        None => None,
    }
}

impl<'a> AlternateSubst<'a> {
    /// The parts are internally consistent.
    pub open spec fn wf(&self) -> bool {
        match self {
            AlternateSubst::Format1 { coverage, alternate_sets } => coverage.wf()
                && alternate_sets.wf(),
        }
    }

    /// The coverage table.
    pub open spec fn spec_coverage(&self) -> Coverage<'a> {
        match self {
            AlternateSubst::Format1 { coverage, .. } => *coverage,
        }
    }

    /// The candidate glyphs listed for `glyph_id`, or `None` where the
    /// subtable does not apply to it.
    pub open spec fn spec_alternates(&self, glyph_id: u16) -> Option<Seq<u16>> {
        match self {
            AlternateSubst::Format1 { coverage, alternate_sets } => match coverage.spec_get(
                glyph_id,
            ) {
                Some(index) => match spec_slice_bytes(
                    alternate_sets.base@,
                    alternate_sets.offsets@,
                    index as int,
                ) {
                    Some(set_bytes) => if spec_glyph_list_parse_ok(set_bytes) {
                        Some(spec_glyph_list(set_bytes))
                    } else {
                        None
                    },
                    None => None,
                },
                None => None,
            },
        }
    }

    /// Parses an alternate-substitution subtable. Fails exactly where the
    /// format tag is not 1 or the coverage or offset table leaves the
    /// slice; the AlternateSet blocks are validated only when applied.
    pub fn parse(data: &'a [u8]) -> (r: Option<AlternateSubst<'a>>)
        ensures
            r.is_some() == spec_alternate_parse_ok(data@),
            r matches Some(t) ==> t.wf() && (forall|g: u16|
                #[trigger] t.spec_alternates(g) == spec_alternate_set_bytes(data@, g)) && (forall|
                g: u16,
            |
                #[trigger] t.spec_coverage().spec_get(g) == spec_coverage_get_bytes(
                    data@.skip(spec_be_u16(data@, 2) as int),
                    g,
                )),
    {
        if data.len() < 6 {
            return None;
        }
        let format: u16 = read_u16_at(data, 0);
        if format != 1 {
            return None;
        }
        let off: usize = read_u16_at(data, 2) as usize;
        if off > data.len() {
            return None;
        }
        let tail: &[u8] = vstd::slice::slice_subrange(data, off, data.len());
        let coverage: Coverage<'a> = match Coverage::parse(tail) {
            Some(c) => c,
            None => {
                return None;
            }
        };
        let count: u16 = read_u16_at(data, 4);
        let offsets: U16Array<'a> = match read_array16(data, 6, count) {
            Some(a) => a,
            None => {
                return None;
            }
        };
        let t = AlternateSubst::Format1 {
            coverage,
            alternate_sets: OffsetArray { base: data, offsets },
        };
        proof {
            assert forall|g: u16| #[trigger] t.spec_alternates(g) == spec_alternate_set_bytes(
                data@,
                g,
            ) by {}
        }
        Some(t)
    }

    /// Non-mutating applicability test: true exactly when the context holds
    /// a single glyph and that glyph is covered, whatever the payload.
    pub fn would_apply(&self, ctx: &WouldApplyContext) -> (r: bool)
        requires
            self.wf(),
        ensures
            r == (ctx.glyphs@.len() == 1 && self.spec_coverage().spec_get(
                ctx.glyphs@[0],
            ).is_some()),
    {
        let coverage = match self {
            AlternateSubst::Format1 { coverage, .. } => coverage,
        };
        ctx.len() == 1 && coverage.get(ctx.glyph(0)).is_some()
    }

    /// Looks the current glyph up, resolves and parses its AlternateSet
    /// lazily, and applies the selection. Where no candidate is selected,
    /// reports `None` and leaves the context untouched.
    pub fn apply(&self, ctx: &mut ApplyContext) -> (r: Option<()>)
        requires
            self.wf(),
            old(ctx).buffer.has_cur(),
        ensures
            r.is_some() == (self.spec_alternates(old(ctx).buffer.spec_cur().glyph_id) matches Some(
                alts,
            ) && spec_alternate_choice(
                alts,
                old(ctx).lookup_mask,
                old(ctx).buffer.spec_cur().mask,
                old(ctx).random,
                old(ctx).random_value,
            ).is_some()),
            r matches Some(_) ==> {
                &&& final(ctx).buffer.info@ == old(ctx).buffer.info@.update(
                    old(ctx).buffer.idx as int,
                    GlyphInfo {
                        glyph_id: spec_alternate_choice(
                            self.spec_alternates(old(ctx).buffer.spec_cur().glyph_id).unwrap(),
                            old(ctx).lookup_mask,
                            old(ctx).buffer.spec_cur().mask,
                            old(ctx).random,
                            old(ctx).random_value,
                        ).unwrap(),
                        ..old(ctx).buffer.spec_cur()
                    },
                )
                &&& final(ctx).buffer.out@ == old(ctx).buffer.out@
                &&& final(ctx).buffer.idx == old(ctx).buffer.idx
                &&& final(ctx).lookup_mask == old(ctx).lookup_mask
                &&& final(ctx).random == old(ctx).random
                &&& final(ctx).random_value == old(ctx).random_value
            },
            r.is_none() ==> *final(ctx) == *old(ctx),
    {
        let glyph_id: u16 = ctx.buffer.cur().glyph_id;
        match self {
            AlternateSubst::Format1 { coverage, alternate_sets } => {
                let index: u16 = match coverage.get(glyph_id) {
                    Some(i) => i,
                    None => {
                        return None;
                    }
                };
                let set_data: &[u8] = match alternate_sets.slice(index) {
                    Some(s) => s,
                    None => {
                        return None;
                    }
                };
                let set: AlternateSet<'_> = match AlternateSet::parse(set_data) {
                    Some(s) => s,
                    None => {
                        return None;
                    }
                };
                set.apply(ctx)
            }
        }
    }
}

/// The boundary entry for `would_apply`: parses the raw subtable and tests
/// applicability; a malformed subtable never applies.
pub fn alternate_subst_would_apply(data: &[u8], ctx: &WouldApplyContext) -> (r: bool)
    ensures
        r == (spec_alternate_parse_ok(data@) && ctx.glyphs@.len() == 1 && spec_coverage_get_bytes(
            data@.skip(spec_be_u16(data@, 2) as int),
            ctx.glyphs@[0],
        ).is_some()),
{
    match AlternateSubst::parse(data) {
        Some(table) => table.would_apply(ctx),
        None => false,
    }
}

/// The boundary entry for `apply`: parses the raw subtable and applies it
/// to the glyph under the cursor. Reports whether the lookup applied;
/// where it did not, the context is left untouched.
pub fn alternate_subst_apply(data: &[u8], ctx: &mut ApplyContext) -> (r: bool)
    requires
        old(ctx).buffer.has_cur(),
    ensures
        r == spec_alternate_target_bytes(
            data@,
            old(ctx).buffer.spec_cur().glyph_id,
            old(ctx).lookup_mask,
            old(ctx).buffer.spec_cur().mask,
            old(ctx).random,
            old(ctx).random_value,
        ).is_some(),
        r ==> {
            &&& final(ctx).buffer.info@ == old(ctx).buffer.info@.update(
                old(ctx).buffer.idx as int,
                GlyphInfo {
                    glyph_id: spec_alternate_target_bytes(
                        data@,
                        old(ctx).buffer.spec_cur().glyph_id,
                        old(ctx).lookup_mask,
                        old(ctx).buffer.spec_cur().mask,
                        old(ctx).random,
                        old(ctx).random_value,
                    ).unwrap(),
                    ..old(ctx).buffer.spec_cur()
                },
            )
            &&& final(ctx).buffer.out@ == old(ctx).buffer.out@
            &&& final(ctx).buffer.idx == old(ctx).buffer.idx
        },
        !r ==> *final(ctx) == *old(ctx),
{
    match AlternateSubst::parse(data) {
        Some(table) => table.apply(ctx).is_some(),
        None => false,
    }
}

} // verus!
