//! Single substitution: a covered glyph is rewritten in place, either by
//! adding a 16-bit delta (format 1, wrapping modulo 2^16) or by looking up
//! an explicit replacement in a parallel array (format 2).

use vstd::prelude::*;
use vstd::slice::slice_subrange;

use crate::buffer::{ApplyContext, GlyphInfo, WouldApplyContext};
use crate::bytes::{U16Array, read_array16, read_i16_at, read_u16_at, spec_be_i16, spec_be_u16,
    spec_words};
use crate::coverage::{Coverage, spec_coverage_get_bytes, spec_coverage_parse_ok};

verus! {

/// The format 1 replacement: the glyph identifier plus the delta, wrapped
/// modulo 2^16.
pub open spec fn spec_delta_target(glyph_id: u16, delta: i16) -> u16 {
    ((glyph_id + delta + 0x10000) % 0x10000) as u16
}

/// Whether `b` is a well-formed single-substitution subtable: format tag 1
/// or 2, a coverage table inside the slice, and a payload that stays inside
/// it.
pub open spec fn spec_single_parse_ok(b: Seq<u8>) -> bool {
    b.len() >= 6 && {
        let format = spec_be_u16(b, 0);
        let off = spec_be_u16(b, 2);
        if format == 1 {
            off <= b.len() && spec_coverage_parse_ok(b.skip(off as int))
        } else if format == 2 {
            off <= b.len() && spec_coverage_parse_ok(b.skip(off as int)) && 6 + 2 * spec_be_u16(
                b,
                4,
            ) <= b.len()
        } else {
            false
        }
    }
}

/// The replacement that the subtable stored in `b` assigns to `glyph_id`:
/// `None` where `b` is malformed, the glyph is not covered, or the coverage
/// index falls outside the substitutes array.
pub open spec fn spec_single_target_bytes(b: Seq<u8>, glyph_id: u16) -> Option<u16> {
    if spec_single_parse_ok(b) {
        let cov = spec_coverage_get_bytes(b.skip(spec_be_u16(b, 2) as int), glyph_id);
        if spec_be_u16(b, 0) == 1 {
            match cov {
                Some(_) => Some(spec_delta_target(glyph_id, spec_be_i16(b, 4))),
                None => None,
            }
        } else {
            let subs = spec_words(b.subrange(6, 6 + 2 * spec_be_u16(b, 4)));
            match cov {
                Some(index) => if (index as int) < subs.len() {
                    Some(subs[index as int])
                } else {
                    None
                },
                None => None,
            }
        }
    } else {
        None
    }
}

/// Law: a slice shorter than the minimum subtable header, or one whose
/// format tag is neither 1 nor 2, is never a well-formed
/// single-substitution subtable, so `SingleSubst::parse` rejects it (and,
/// being verified, reads nothing out of bounds while doing so).
pub proof fn lemma_single_parse_rejects(b: Seq<u8>)
    ensures
        b.len() < 6 ==> !spec_single_parse_ok(b),
        b.len() >= 2 && spec_be_u16(b, 0) != 1 && spec_be_u16(b, 0) != 2 ==> !spec_single_parse_ok(
            b,
        ),
{
}

/// A parsed single-substitution subtable.
pub enum SingleSubst<'a> {
    /// Every covered glyph maps to itself plus `delta`, wrapping.
    Format1 { coverage: Coverage<'a>, delta: i16 },
    /// The coverage index selects the replacement from a parallel array.
    Format2 { coverage: Coverage<'a>, substitutes: U16Array<'a> },
}

impl<'a> SingleSubst<'a> {
    /// The parts are internally consistent.
    pub open spec fn wf(&self) -> bool {
        match self {
            SingleSubst::Format1 { coverage, .. } => coverage.wf(),
            SingleSubst::Format2 { coverage, substitutes } => coverage.wf() && substitutes.wf(),
        }
    }

    /// The coverage table of either format.
    pub open spec fn spec_coverage(&self) -> Coverage<'a> {
        match self {
            SingleSubst::Format1 { coverage, .. } => *coverage,
            SingleSubst::Format2 { coverage, .. } => *coverage,
        }
    }

    /// The replacement for `glyph_id`, or `None` where the subtable does
    /// not apply to it.
    pub open spec fn spec_target(&self, glyph_id: u16) -> Option<u16> {
        match self {
            SingleSubst::Format1 { coverage, delta } => match coverage.spec_get(glyph_id) {
                Some(_) => Some(spec_delta_target(glyph_id, *delta)),
                None => None,
            },
            SingleSubst::Format2 { coverage, substitutes } => match coverage.spec_get(glyph_id) {
                Some(index) => if (index as int) < substitutes@.len() {
                    Some(substitutes@[index as int])
                } else {
                    None
                },
                None => None,
            },
        }
    }

    /// Parses a single-substitution subtable. Fails exactly where the
    /// format tag is neither 1 nor 2 or any read would leave the slice.
    pub fn parse(data: &'a [u8]) -> (r: Option<SingleSubst<'a>>)
        ensures
            r.is_some() == spec_single_parse_ok(data@),
            r matches Some(t) ==> t.wf() && (forall|g: u16|
                #[trigger] t.spec_target(g) == spec_single_target_bytes(data@, g)) && (forall|
                g: u16,
            | #[trigger] t.spec_coverage().spec_get(g) == spec_coverage_get_bytes(
                data@.skip(spec_be_u16(data@, 2) as int),
                g,
            )),
    {
        if data.len() < 6 {
            return None;
        }
        let format: u16 = read_u16_at(data, 0);
        let off: usize = read_u16_at(data, 2) as usize;
        if off > data.len() {
            return None;
        }
        let tail: &[u8] = slice_subrange(data, off, data.len());
        let coverage: Coverage<'a> = match Coverage::parse(tail) {
            Some(c) => c,
            None => {
                return None;
            }
        };
        if format == 1 {
            let delta: i16 = read_i16_at(data, 4);
            let t = SingleSubst::Format1 { coverage, delta };
            proof {
                assert forall|g: u16| #[trigger] t.spec_target(g) == spec_single_target_bytes(
                    data@,
                    g,
                ) by {}
            }
            Some(t)
        } else if format == 2 {
            let count: u16 = read_u16_at(data, 4);
            let substitutes: U16Array<'a> = match read_array16(data, 6, count) {
                Some(a) => a,
                None => {
                    return None;
                }
            };
            let t = SingleSubst::Format2 { coverage, substitutes };
            proof {
                assert forall|g: u16| #[trigger] t.spec_target(g) == spec_single_target_bytes(
                    data@,
                    g,
                ) by {}
            }
            Some(t)
        } else {
            None
        }
    }

    /// Non-mutating applicability test: true exactly when the context holds
    /// a single glyph and that glyph is covered, whatever the payload.
    pub fn would_apply(&self, ctx: &WouldApplyContext) -> (r: bool)
        requires
            self.wf(),
        ensures
            r == (ctx.glyphs@.len() == 1 && self.spec_coverage().spec_get(
                ctx.glyphs@[0],
            ).is_some()),
    {
        let coverage = match self {
            SingleSubst::Format1 { coverage, .. } => coverage,
            SingleSubst::Format2 { coverage, .. } => coverage,
        };
        ctx.len() == 1 && coverage.get(ctx.glyph(0)).is_some()
    }

    /// Rewrites the glyph under the cursor in place, or does nothing and
    /// reports `None` where the subtable does not apply to it.
    pub fn apply(&self, ctx: &mut ApplyContext) -> (r: Option<()>)
        requires
            self.wf(),
            old(ctx).buffer.has_cur(),
        ensures
            r.is_some() == self.spec_target(old(ctx).buffer.spec_cur().glyph_id).is_some(),
            r matches Some(_) ==> {
                &&& final(ctx).buffer.info@ == old(ctx).buffer.info@.update(
                    old(ctx).buffer.idx as int,
                    GlyphInfo {
                        glyph_id: self.spec_target(old(ctx).buffer.spec_cur().glyph_id).unwrap(),
                        ..old(ctx).buffer.spec_cur()
                    },
                )
                &&& final(ctx).buffer.out@ == old(ctx).buffer.out@
                &&& final(ctx).buffer.idx == old(ctx).buffer.idx
                &&& final(ctx).lookup_mask == old(ctx).lookup_mask
                &&& final(ctx).random == old(ctx).random
                &&& final(ctx).random_value == old(ctx).random_value
            },
            r.is_none() ==> *final(ctx) == *old(ctx),
    {
        let glyph_id: u16 = ctx.buffer.cur().glyph_id;
        let subst: u16 = match self {
            SingleSubst::Format1 { coverage, delta } => {
                if coverage.get(glyph_id).is_none() {
                    return None;
                }
                delta_target(glyph_id, *delta)
            }
            SingleSubst::Format2 { coverage, substitutes } => {
                let index: u16 = match coverage.get(glyph_id) {
                    Some(i) => i,
                    None => {
                        return None;
                    }
                };
                match substitutes.get(index) {
                    Some(g) => g,
                    None => {
                        return None;
                    }
                }
            }
        };
        ctx.replace_glyph(subst);
        Some(())
    }
}

/// Computes the wrapped format 1 replacement: the result is always reduced
/// to 16 bits, per the historical behavior this format is held to.
fn delta_target(glyph_id: u16, delta: i16) -> (r: u16)
    ensures
        r == spec_delta_target(glyph_id, delta),
{
    let wide: i32 = glyph_id as i32 + delta as i32 + 0x10000;
    (wide % 0x10000) as u16
}

/// The boundary entry for `would_apply`: parses the raw subtable and tests
/// applicability; a malformed subtable never applies.
pub fn single_subst_would_apply(data: &[u8], ctx: &WouldApplyContext) -> (r: bool)
    ensures
        r == (spec_single_parse_ok(data@) && ctx.glyphs@.len() == 1 && spec_coverage_get_bytes(
            data@.skip(spec_be_u16(data@, 2) as int),
            ctx.glyphs@[0],
        ).is_some()),
{
    match SingleSubst::parse(data) {
        Some(table) => table.would_apply(ctx),
        None => false,
    }
}

/// The boundary entry for `apply`: parses the raw subtable and applies it
/// to the glyph under the cursor. Reports whether the lookup applied; where
/// it did not (malformed table, uncovered glyph, index out of range) the
/// context is left untouched.
pub fn single_subst_apply(data: &[u8], ctx: &mut ApplyContext) -> (r: bool)
    requires
        old(ctx).buffer.has_cur(),
    ensures
        r == spec_single_target_bytes(data@, old(ctx).buffer.spec_cur().glyph_id).is_some(),
        r ==> {
            &&& final(ctx).buffer.info@ == old(ctx).buffer.info@.update(
                old(ctx).buffer.idx as int,
                GlyphInfo {
                    glyph_id: spec_single_target_bytes(
                        data@,
                        old(ctx).buffer.spec_cur().glyph_id,
                    ).unwrap(),
                    ..old(ctx).buffer.spec_cur()
                },
            )
            &&& final(ctx).buffer.out@ == old(ctx).buffer.out@
            &&& final(ctx).buffer.idx == old(ctx).buffer.idx
        },
        !r ==> *final(ctx) == *old(ctx),
{
    match SingleSubst::parse(data) {
        Some(table) => table.apply(ctx).is_some(),
        None => false,
    }
}

} // verus!
