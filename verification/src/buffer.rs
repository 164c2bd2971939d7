//! The glyph stream that substitutions mutate, and the two context views a
//! lookup is applied through: a read-only one for `would_apply` and a
//! mutating one for `apply`.
//!
//! The stream is split in two: `out` holds glyphs already produced by the
//! shaping pass, `info` the glyphs still to be processed, with the cursor
//! standing on `info[idx]`. The engine touches it only through the
//! capability methods below: read the current glyph, rewrite it in place,
//! delete it, emit an expansion member, or step past it.

use vstd::prelude::*;

verus! {

/// Classification flag: the glyph is the base of a multi-glyph expansion.
pub const GLYPH_PROPS_BASE_GLYPH: u16 = 0x02;

/// Classification flag: the glyph was formed by a ligature substitution.
pub const GLYPH_PROPS_LIGATURE: u16 = 0x04;

/// One entry of the glyph stream: an identifier plus the per-glyph shaping
/// metadata this engine reads and writes.
#[derive(Clone, Copy, PartialEq, Eq, Structural, Debug)]
pub struct GlyphInfo {
    /// 16-bit identifier into the font's glyph index space.
    pub glyph_id: u16,
    /// Feature-selection bit field assigned during shape planning.
    pub mask: u32,
    /// Classification flag bits (`GLYPH_PROPS_*`).
    pub props: u16,
    /// Position of this glyph within a multi-glyph expansion.
    pub lig_component: u8,
}

impl GlyphInfo {
    /// Whether the glyph is flagged as ligature-formed.
    pub open spec fn spec_is_ligature(&self) -> bool {
        self.props & GLYPH_PROPS_LIGATURE != 0
    }

    /// Tests the ligature classification flag.
    pub fn is_ligature(&self) -> (r: bool)
        ensures
            r == self.spec_is_ligature(),
    {
        self.props & GLYPH_PROPS_LIGATURE != 0
    }
}

/// The glyph stream with its cursor.
pub struct GlyphBuffer {
    /// Glyphs already emitted by this shaping pass.
    pub out: Vec<GlyphInfo>,
    /// Glyphs not yet consumed; the cursor stands on `info[idx]`.
    pub info: Vec<GlyphInfo>,
    /// Cursor position into `info`.
    pub idx: usize,
}

impl GlyphBuffer {
    /// A glyph stands under the cursor.
    pub open spec fn has_cur(&self) -> bool {
        self.idx < self.info@.len()
    }

    /// The glyph under the cursor.
    pub open spec fn spec_cur(&self) -> GlyphInfo
        recommends
            self.has_cur(),
    {
        self.info@[self.idx as int]
    }

    /// Reads the glyph under the cursor.
    pub fn cur(&self) -> (r: GlyphInfo)
        requires
            self.has_cur(),
        ensures
            r == self.spec_cur(),
    {
        self.info[self.idx]
    }

    /// Rewrites the identifier of the current glyph in place; the cursor
    /// does not advance past it.
    pub fn replace_glyph(&mut self, glyph_id: u16)
        requires
            old(self).has_cur(),
        ensures
            final(self).info@ == old(self).info@.update(
                old(self).idx as int,
                GlyphInfo { glyph_id, ..old(self).spec_cur() },
            ),
            final(self).out@ == old(self).out@,
            final(self).idx == old(self).idx,
    {
        let i = self.idx;
        let entry = GlyphInfo { glyph_id, ..self.info[i] };
        self.info.set(i, entry);
    }

    /// Deletes the current glyph outright; the stream shrinks by one.
    pub fn delete_glyph(&mut self)
        requires
            old(self).has_cur(),
        ensures
            final(self).info@ == old(self).info@.remove(old(self).idx as int),
            final(self).out@ == old(self).out@,
            final(self).idx == old(self).idx,
    {
        let i = self.idx;
        self.info.remove(i);
    }

    /// Sets the ligature-component index of the current glyph.
    pub fn set_cur_lig_component(&mut self, component: u8)
        requires
            old(self).has_cur(),
        ensures
            final(self).info@ == old(self).info@.update(
                old(self).idx as int,
                GlyphInfo { lig_component: component, ..old(self).spec_cur() },
            ),
            final(self).out@ == old(self).out@,
            final(self).idx == old(self).idx,
    {
        let i = self.idx;
        let entry = GlyphInfo { lig_component: component, ..self.info[i] };
        self.info.set(i, entry);
    }

    /// Emits one member of a multi-glyph expansion: the given identifier,
    /// the given classification flags, and the mask and component index of
    /// the glyph being expanded.
    pub fn output_glyph_for_component(&mut self, glyph_id: u16, props: u16)
        requires
            old(self).has_cur(),
        ensures
            final(self).out@ == old(self).out@.push(
                GlyphInfo {
                    glyph_id,
                    mask: old(self).spec_cur().mask,
                    props,
                    lig_component: old(self).spec_cur().lig_component,
                },
            ),
            final(self).info@ == old(self).info@,
            final(self).idx == old(self).idx,
    {
        let i = self.idx;
        let entry = GlyphInfo {
            glyph_id,
            mask: self.info[i].mask,
            props,
            lig_component: self.info[i].lig_component,
        };
        self.out.push(entry);
    }

    /// Steps past the current glyph without emitting it.
    pub fn skip_glyph(&mut self)
        requires
            old(self).has_cur(),
        ensures
            final(self).idx == old(self).idx + 1,
            final(self).info@ == old(self).info@,
            final(self).out@ == old(self).out@,
    {
        // the length, a usize, bounds idx + 1 away from overflow
        let n: usize = self.info.len();
        self.idx = self.idx + 1;
    }
}

/// Context for the non-mutating `would_apply` test: the glyph sequence a
/// higher-level rule is matching against.
pub struct WouldApplyContext {
    /// Identifiers of the glyph sequence under consideration.
    pub glyphs: Vec<u16>,
}

impl WouldApplyContext {
    /// Number of glyphs in the sequence.
    pub fn len(&self) -> (r: usize)
        ensures
            r == self.glyphs@.len(),
    {
        self.glyphs.len()
    }

    /// The identifier at position `i`.
    pub fn glyph(&self, i: usize) -> (r: u16)
        requires
            i < self.glyphs@.len(),
        ensures
            r == self.glyphs@[i as int],
    {
        self.glyphs[i]
    }
}

/// Context for `apply`: the mutable glyph stream plus the lookup's feature
/// mask and the injected randomness service.
pub struct ApplyContext {
    /// The glyph stream being rewritten.
    pub buffer: GlyphBuffer,
    /// Feature-selection mask assigned to this lookup during planning.
    pub lookup_mask: u32,
    /// Whether this lookup is subject to the randomization feature.
    pub random: bool,
    /// What the context's randomness service yields when consulted.
    pub random_value: u32,
}

impl ApplyContext {
    /// The feature mask of the running lookup.
    pub fn lookup_mask(&self) -> (r: u32)
        ensures
            r == self.lookup_mask,
    {
        self.lookup_mask
    }

    /// Whether the randomization feature drives this lookup.
    pub fn random(&self) -> (r: bool)
        ensures
            r == self.random,
    {
        self.random
    }

    /// Consults the randomness service.
    pub fn random_number(&self) -> (r: u32)
        ensures
            r == self.random_value,
    {
        self.random_value
    }

    /// Rewrites the identifier of the glyph under the cursor.
    pub fn replace_glyph(&mut self, glyph_id: u16)
        requires
            old(self).buffer.has_cur(),
        ensures
            final(self).buffer.info@ == old(self).buffer.info@.update(
                old(self).buffer.idx as int,
                GlyphInfo { glyph_id, ..old(self).buffer.spec_cur() },
            ),
            final(self).buffer.out@ == old(self).buffer.out@,
            final(self).buffer.idx == old(self).buffer.idx,
            final(self).lookup_mask == old(self).lookup_mask,
            final(self).random == old(self).random,
            final(self).random_value == old(self).random_value,
    {
        self.buffer.replace_glyph(glyph_id);
    }

    /// Emits one member of a multi-glyph expansion.
    pub fn output_glyph_for_component(&mut self, glyph_id: u16, props: u16)
        requires
            old(self).buffer.has_cur(),
        ensures
            final(self).buffer.out@ == old(self).buffer.out@.push(
                GlyphInfo {
                    glyph_id,
                    mask: old(self).buffer.spec_cur().mask,
                    props,
                    lig_component: old(self).buffer.spec_cur().lig_component,
                },
            ),
            final(self).buffer.info@ == old(self).buffer.info@,
            final(self).buffer.idx == old(self).buffer.idx,
            final(self).lookup_mask == old(self).lookup_mask,
            final(self).random == old(self).random,
            final(self).random_value == old(self).random_value,
    {
        self.buffer.output_glyph_for_component(glyph_id, props);
    }
}

} // verus!
