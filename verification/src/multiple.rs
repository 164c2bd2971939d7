//! Multiple substitution: a covered glyph selects a Sequence — an
//! offset-addressed list of zero or more replacement glyphs — and the
//! glyph stream is rewritten accordingly: deleted (empty sequence),
//! rewritten in place (one glyph), or expanded one-to-many.

use vstd::prelude::*;

use crate::buffer::{ApplyContext, GLYPH_PROPS_BASE_GLYPH, GlyphInfo, WouldApplyContext};
use crate::bytes::{OffsetArray, U16Array, read_array16, read_u16_at, spec_be_u16,
    spec_glyph_list, spec_glyph_list_parse_ok, spec_slice_bytes, spec_words};
use crate::coverage::{Coverage, spec_coverage_get_bytes, spec_coverage_parse_ok};

verus! {

/// The classification every member of a one-to-many expansion carries:
/// "base glyph" exactly when the glyph being replaced was itself formed by
/// a ligature substitution, nothing otherwise.
pub open spec fn spec_expansion_class(cur: GlyphInfo) -> u16 {
    if cur.spec_is_ligature() {
        GLYPH_PROPS_BASE_GLYPH
    } else {
        0
    }
}

/// The glyphs a one-to-many expansion emits in place of `cur`: each output
/// glyph carries `cur`'s mask, the shared classification, and a ligature
/// component index equal to its position (truncated to 8 bits, as the
/// stream stores it).
pub open spec fn spec_expansion(cur: GlyphInfo, subs: Seq<u16>) -> Seq<GlyphInfo> {
    Seq::new(
        subs.len(),
        |i: int|
            GlyphInfo {
                glyph_id: subs[i],
                mask: cur.mask,
                props: spec_expansion_class(cur),
                lig_component: (i % 256) as u8,
            },
    )
}

/// How applying a Sequence with substitutes `subs` rewrites the context
/// `pre` into `post`, by the length of `subs`: zero deletes the current
/// glyph, one rewrites it in place, two or more emit the expansion and
/// step past the consumed glyph.
pub open spec fn spec_sequence_applied(pre: ApplyContext, post: ApplyContext, subs: Seq<u16>) -> bool
    recommends
        pre.buffer.has_cur(),
{
    &&& post.lookup_mask == pre.lookup_mask
    &&& post.random == pre.random
    &&& post.random_value == pre.random_value
    &&& if subs.len() == 0 {
        &&& post.buffer.info@ == pre.buffer.info@.remove(pre.buffer.idx as int)
        &&& post.buffer.out@ == pre.buffer.out@
        &&& post.buffer.idx == pre.buffer.idx
    } else if subs.len() == 1 {
        &&& post.buffer.info@ == pre.buffer.info@.update(
            pre.buffer.idx as int,
            GlyphInfo { glyph_id: subs[0], ..pre.buffer.spec_cur() },
        )
        &&& post.buffer.out@ == pre.buffer.out@
        &&& post.buffer.idx == pre.buffer.idx
    } else {
        &&& post.buffer.out@ == pre.buffer.out@ + spec_expansion(pre.buffer.spec_cur(), subs)
        &&& post.buffer.info@ == pre.buffer.info@.update(
            pre.buffer.idx as int,
            GlyphInfo {
                lig_component: ((subs.len() - 1) % 256) as u8,
                ..pre.buffer.spec_cur()
            },
        )
        &&& post.buffer.idx == pre.buffer.idx + 1
    }
}

/// A parsed Sequence block: the glyphs that together replace one input
/// glyph.
pub struct Sequence<'a> {
    /// The replacement glyphs, possibly none.
    pub substitutes: U16Array<'a>,
}

impl<'a> Sequence<'a> {
    /// The glyph words cover their bytes exactly.
    pub open spec fn wf(&self) -> bool {
        self.substitutes.wf()
    }

    /// Parses a Sequence block. Fails exactly where the declared list runs
    /// past the slice.
    pub fn parse(data: &'a [u8]) -> (r: Option<Sequence<'a>>)
        ensures
            r.is_some() == spec_glyph_list_parse_ok(data@),
            r matches Some(s) ==> s.wf() && s.substitutes@ == spec_glyph_list(data@),
    {
        if data.len() < 2 {
            return None;
        }
        let count: u16 = read_u16_at(data, 0);
        match read_array16(data, 2, count) {
            Some(substitutes) => Some(Sequence { substitutes }),
            None => None,
        }
    }

    /// Rewrites the glyph under the cursor according to the sequence
    /// length: deletes it, replaces it in place, or emits the full
    /// expansion (tagging each member's component index) and steps past it.
    /// Never fails once the sequence itself is in hand.
    #[verifier::loop_isolation(false)]
    pub fn apply(&self, ctx: &mut ApplyContext) -> (r: Option<()>)
        requires
            self.wf(),
            old(ctx).buffer.has_cur(),
        ensures
            r.is_some(),
            spec_sequence_applied(*old(ctx), *final(ctx), self.substitutes@),
    {
        let n: usize = self.substitutes.len();
        if n == 0 {
            ctx.buffer.delete_glyph();
        } else if n == 1 {
            let g: u16 = read_u16_at(self.substitutes.data, 0);
            proof {
                assert(self.substitutes@[0] == crate::bytes::spec_be_u16(
                    self.substitutes.data@,
                    0,
                ));
            }
            ctx.replace_glyph(g);
        } else {
            let class: u16 = if ctx.buffer.cur().is_ligature() {
                GLYPH_PROPS_BASE_GLYPH
            } else {
                0
            };
            let ghost cur0: GlyphInfo = ctx.buffer.spec_cur();
            // the byte length, a usize, bounds 2 * i away from overflow in the loop
            let total: usize = self.substitutes.data.len();
            proof {
                assert(2 * n == total);
            }
            let mut i: usize = 0;
            while i < n
                invariant
                    i <= n,
                    ctx.buffer.out@ == old(ctx).buffer.out@ + spec_expansion(
                        cur0,
                        self.substitutes@.take(i as int),
                    ),
                    ctx.buffer.info@ == if i == 0 {
                        old(ctx).buffer.info@
                    } else {
                        old(ctx).buffer.info@.update(
                            old(ctx).buffer.idx as int,
                            GlyphInfo {
                                lig_component: (((i - 1) as int % 256)) as u8,
                                ..cur0
                            },
                        )
                    },
                    ctx.buffer.idx == old(ctx).buffer.idx,
                    ctx.lookup_mask == old(ctx).lookup_mask,
                    ctx.random == old(ctx).random,
                    ctx.random_value == old(ctx).random_value,
                decreases n - i,
            {
                let g: u16 = read_u16_at(self.substitutes.data, 2 * i);
                proof {
                    assert(self.substitutes@[i as int] == crate::bytes::spec_be_u16(
                        self.substitutes.data@,
                        2 * i,
                    ));
                }
                ctx.buffer.set_cur_lig_component((i % 256) as u8);
                proof {
                    assert(ctx.buffer.info@ =~= old(ctx).buffer.info@.update(
                        old(ctx).buffer.idx as int,
                        GlyphInfo { lig_component: ((i as int % 256)) as u8, ..cur0 },
                    ));
                }
                ctx.output_glyph_for_component(g, class);
                proof {
                    assert(ctx.buffer.out@ =~= old(ctx).buffer.out@ + spec_expansion(
                        cur0,
                        self.substitutes@.take(i + 1),
                    ));
                }
                i = i + 1;
            }
            proof {
                assert(self.substitutes@.take(n as int) =~= self.substitutes@);
            }
            ctx.buffer.skip_glyph();
        }
        Some(())
    }
}

/// A parsed multiple-substitution subtable (one binary format exists).
pub enum MultipleSubst<'a> {
    /// The coverage index selects a Sequence through the offset table.
    Format1 { coverage: Coverage<'a>, sequences: OffsetArray<'a> },
}

/// Whether `b` is a well-formed multiple-substitution subtable: format tag
/// 1, a coverage table inside the slice, and an offset table that stays
/// inside it (the Sequence blocks themselves are resolved lazily at apply
/// time).
pub open spec fn spec_multiple_parse_ok(b: Seq<u8>) -> bool {
    b.len() >= 6 && {
        let format = spec_be_u16(b, 0);
        let off = spec_be_u16(b, 2);
        format == 1 && off <= b.len() && spec_coverage_parse_ok(b.skip(off as int)) && 6 + 2
            * spec_be_u16(b, 4) <= b.len()
    }
}

/// Law: a slice shorter than the minimum subtable header, or one whose
/// format tag is not 1, is never a well-formed multiple-substitution
/// subtable, so `MultipleSubst::parse` rejects it (and, being verified,
/// reads nothing out of bounds while doing so).
pub proof fn lemma_multiple_parse_rejects(b: Seq<u8>)
    ensures
        b.len() < 6 ==> !spec_multiple_parse_ok(b),
        b.len() >= 2 && spec_be_u16(b, 0) != 1 ==> !spec_multiple_parse_ok(b),
{
}

/// The substitutes that the subtable stored in `b` selects for `glyph_id`:
/// `None` where `b` is malformed, the glyph is not covered, its offset
/// entry is missing or out of bounds, or the Sequence block is malformed.
pub open spec fn spec_multiple_substitutes_bytes(b: Seq<u8>, glyph_id: u16) -> Option<Seq<u16>> {
    if spec_multiple_parse_ok(b) {
        let offsets = spec_words(b.subrange(6, 6 + 2 * spec_be_u16(b, 4)));
        match spec_coverage_get_bytes(b.skip(spec_be_u16(b, 2) as int), glyph_id) {
            Some(index) => match spec_slice_bytes(b, offsets, index as int) {
                Some(seq_bytes) => if spec_glyph_list_parse_ok(seq_bytes) {
                    Some(spec_glyph_list(seq_bytes))
                } else {
                    None
                },
                None => None,
            },
            None => None,
        }
    } else {
        None
    }
}

impl<'a> MultipleSubst<'a> {
    /// The parts are internally consistent.
    pub open spec fn wf(&self) -> bool {
        match self {
            MultipleSubst::Format1 { coverage, sequences } => coverage.wf() && sequences.wf(),
        }
    }

    /// The coverage table.
    pub open spec fn spec_coverage(&self) -> Coverage<'a> {
        match self {
            MultipleSubst::Format1 { coverage, .. } => *coverage,
        }
    }

    /// The substitutes selected for `glyph_id`, or `None` where the
    /// subtable does not apply to it.
    pub open spec fn spec_substitutes(&self, glyph_id: u16) -> Option<Seq<u16>> {
        match self {
            MultipleSubst::Format1 { coverage, sequences } => match coverage.spec_get(glyph_id) {
                Some(index) => match spec_slice_bytes(
                    sequences.base@,
                    sequences.offsets@,
                    index as int,
                ) {
                    Some(seq_bytes) => if spec_glyph_list_parse_ok(seq_bytes) {
                        Some(spec_glyph_list(seq_bytes))
                    } else {
                        None
                    },
                    None => None,
                },
                None => None,
            },
        }
    }

    /// Parses a multiple-substitution subtable. Fails exactly where the
    /// format tag is not 1 or the coverage or offset table leaves the
    /// slice; the Sequence blocks are validated only when applied.
    pub fn parse(data: &'a [u8]) -> (r: Option<MultipleSubst<'a>>)
        ensures
            r.is_some() == spec_multiple_parse_ok(data@),
            r matches Some(t) ==> t.wf() && (forall|g: u16|
                #[trigger] t.spec_substitutes(g) == spec_multiple_substitutes_bytes(data@, g)) && (
            forall|g: u16|
                #[trigger] t.spec_coverage().spec_get(g) == spec_coverage_get_bytes(
                    data@.skip(spec_be_u16(data@, 2) as int),
                    g,
                )),
    {
        if data.len() < 6 {
            return None;
        }
        let format: u16 = read_u16_at(data, 0);
        if format != 1 {
            return None;
        }
        let off: usize = read_u16_at(data, 2) as usize;
        if off > data.len() {
            return None;
        }
        let tail: &[u8] = vstd::slice::slice_subrange(data, off, data.len());
        let coverage: Coverage<'a> = match Coverage::parse(tail) {
            Some(c) => c,
            None => {
                return None;
            }
        };
        let count: u16 = read_u16_at(data, 4);
        let offsets: U16Array<'a> = match read_array16(data, 6, count) {
            Some(a) => a,
            None => {
                return None;
            }
        };
        let t = MultipleSubst::Format1 { coverage, sequences: OffsetArray { base: data, offsets } };
        proof {
            assert forall|g: u16| #[trigger] t.spec_substitutes(g)
                == spec_multiple_substitutes_bytes(data@, g) by {}
        }
        Some(t)
    }

    /// Non-mutating applicability test: true exactly when the context holds
    /// a single glyph and that glyph is covered, whatever the payload.
    pub fn would_apply(&self, ctx: &WouldApplyContext) -> (r: bool)
        requires
            self.wf(),
        ensures
            r == (ctx.glyphs@.len() == 1 && self.spec_coverage().spec_get(
                ctx.glyphs@[0],
            ).is_some()),
    {
        let coverage = match self {
            MultipleSubst::Format1 { coverage, .. } => coverage,
        };
        ctx.len() == 1 && coverage.get(ctx.glyph(0)).is_some()
    }

    /// Looks the current glyph up, resolves and parses its Sequence lazily,
    /// and applies it. Where the glyph is not covered or the Sequence
    /// cannot be resolved, reports `None` and leaves the context untouched.
    pub fn apply(&self, ctx: &mut ApplyContext) -> (r: Option<()>)
        requires
            self.wf(),
            old(ctx).buffer.has_cur(),
        ensures
            r.is_some() == self.spec_substitutes(old(ctx).buffer.spec_cur().glyph_id).is_some(),
            r matches Some(_) ==> spec_sequence_applied(
                *old(ctx),
                *final(ctx),
                self.spec_substitutes(old(ctx).buffer.spec_cur().glyph_id).unwrap(),
            ),
            r.is_none() ==> *final(ctx) == *old(ctx),
    {
        let glyph_id: u16 = ctx.buffer.cur().glyph_id;
        match self {
            MultipleSubst::Format1 { coverage, sequences } => {
                let index: u16 = match coverage.get(glyph_id) {
                    Some(i) => i,
                    None => {
                        return None;
                    }
                };
                let seq_data: &[u8] = match sequences.slice(index) {
                    Some(s) => s,
                    None => {
                        return None;
                    }
                };
                let seq: Sequence<'_> = match Sequence::parse(seq_data) {
                    Some(s) => s,
                    None => {
                        return None;
                    }
                };
                seq.apply(ctx)
            }
        }
    }
}

/// The boundary entry for `would_apply`: parses the raw subtable and tests
/// applicability; a malformed subtable never applies.
pub fn multiple_subst_would_apply(data: &[u8], ctx: &WouldApplyContext) -> (r: bool)
    ensures
        r == (spec_multiple_parse_ok(data@) && ctx.glyphs@.len() == 1 && spec_coverage_get_bytes(
            data@.skip(spec_be_u16(data@, 2) as int),
            ctx.glyphs@[0],
        ).is_some()),
{
    match MultipleSubst::parse(data) {
        Some(table) => table.would_apply(ctx),
        None => false,
    }
}

/// The boundary entry for `apply`: parses the raw subtable and applies it
/// to the glyph under the cursor. Reports whether the lookup applied;
/// where it did not, the context is left untouched.
pub fn multiple_subst_apply(data: &[u8], ctx: &mut ApplyContext) -> (r: bool)
    requires
        old(ctx).buffer.has_cur(),
    ensures
        r == spec_multiple_substitutes_bytes(data@, old(ctx).buffer.spec_cur().glyph_id).is_some(),
        r ==> spec_sequence_applied(
            *old(ctx),
            *final(ctx),
            spec_multiple_substitutes_bytes(data@, old(ctx).buffer.spec_cur().glyph_id).unwrap(),
        ),
        !r ==> *final(ctx) == *old(ctx),
{
    match MultipleSubst::parse(data) {
        Some(table) => table.apply(ctx).is_some(),
        None => false,
    }
}

} // verus!
