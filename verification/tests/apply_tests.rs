//! Application behavior: each substitution type against a glyph stream,
//! including the historical edge cases the formats are held to.

use gsub::alternate::alternate_subst_apply;
use gsub::alternate::alternate_subst_would_apply;
use gsub::buffer::{ApplyContext, GLYPH_PROPS_BASE_GLYPH, GLYPH_PROPS_LIGATURE, GlyphBuffer,
    GlyphInfo, WouldApplyContext};
use gsub::multiple::multiple_subst_apply;
use gsub::multiple::multiple_subst_would_apply;
use gsub::single::single_subst_apply;
use gsub::single::single_subst_would_apply;

fn push16(v: &mut Vec<u8>, w: u16) {
    v.push((w >> 8) as u8);
    v.push(w as u8);
}

fn coverage_f1(glyphs: &[u16]) -> Vec<u8> {
    let mut v = Vec::new();
    push16(&mut v, 1);
    push16(&mut v, glyphs.len() as u16);
    for &g in glyphs {
        push16(&mut v, g);
    }
    v
}

fn single_f1(cov_glyphs: &[u16], delta: i16) -> Vec<u8> {
    let mut v = Vec::new();
    push16(&mut v, 1);
    push16(&mut v, 6);
    push16(&mut v, delta as u16);
    v.extend_from_slice(&coverage_f1(cov_glyphs));
    v
}

fn single_f2(cov_glyphs: &[u16], substitutes: &[u16]) -> Vec<u8> {
    let mut v = Vec::new();
    push16(&mut v, 2);
    push16(&mut v, (6 + 2 * substitutes.len()) as u16);
    push16(&mut v, substitutes.len() as u16);
    for &g in substitutes {
        push16(&mut v, g);
    }
    v.extend_from_slice(&coverage_f1(cov_glyphs));
    v
}

/// A format 1 subtable whose offset table points at one glyph list per
/// covered glyph; serves both multiple (Sequence) and alternate
/// (AlternateSet) layouts, which share this shape.
fn offset_list_f1(cov_glyphs: &[u16], lists: &[&[u16]]) -> Vec<u8> {
    let header = 6 + 2 * lists.len();
    let mut blocks: Vec<u8> = Vec::new();
    let mut offsets: Vec<u16> = Vec::new();
    for list in lists {
        offsets.push((header + blocks.len()) as u16);
        push16(&mut blocks, list.len() as u16);
        for &g in *list {
            push16(&mut blocks, g);
        }
    }
    let mut v = Vec::new();
    push16(&mut v, 1);
    push16(&mut v, (header + blocks.len()) as u16);
    push16(&mut v, lists.len() as u16);
    for off in offsets {
        push16(&mut v, off);
    }
    v.extend_from_slice(&blocks);
    v.extend_from_slice(&coverage_f1(cov_glyphs));
    v
}

fn glyph(id: u16) -> GlyphInfo {
    GlyphInfo { glyph_id: id, mask: 0, props: 0, lig_component: 0 }
}

fn ctx_of(ids: &[u16]) -> ApplyContext {
    ApplyContext {
        buffer: GlyphBuffer {
            out: Vec::new(),
            info: ids.iter().map(|&id| glyph(id)).collect(),
            idx: 0,
        },
        lookup_mask: 0,
        random: false,
        random_value: 0,
    }
}

#[test]
fn single_format1_wraparound() {
    let data = single_f1(&[0xFFFE], 5);
    let mut ctx = ctx_of(&[0xFFFE]);
    assert!(single_subst_apply(&data, &mut ctx));
    assert_eq!(ctx.buffer.info.len(), 1);
    assert_eq!(ctx.buffer.info[0].glyph_id, 0x0003);
    assert_eq!(ctx.buffer.idx, 0);
    assert!(ctx.buffer.out.is_empty());
}

#[test]
fn single_format1_negative_delta_wraps() {
    let data = single_f1(&[2], -5);
    let mut ctx = ctx_of(&[2]);
    assert!(single_subst_apply(&data, &mut ctx));
    assert_eq!(ctx.buffer.info[0].glyph_id, 0xFFFD);
}

#[test]
fn single_format1_uncovered_glyph_does_nothing() {
    let data = single_f1(&[10], 5);
    let mut ctx = ctx_of(&[11]);
    assert!(!single_subst_apply(&data, &mut ctx));
    assert_eq!(ctx.buffer.info[0].glyph_id, 11);
}

#[test]
fn single_format2_explicit_substitute() {
    let data = single_f2(&[5], &[42]);
    let mut ctx = ctx_of(&[5]);
    assert!(single_subst_apply(&data, &mut ctx));
    assert_eq!(ctx.buffer.info[0].glyph_id, 42);
}

#[test]
fn single_format2_index_out_of_bounds_leaves_buffer() {
    // glyph 6 is covered with index 1, but only one substitute is stored
    let data = single_f2(&[5, 6], &[42]);
    let mut ctx = ctx_of(&[6]);
    assert!(!single_subst_apply(&data, &mut ctx));
    assert_eq!(ctx.buffer.info.len(), 1);
    assert_eq!(ctx.buffer.info[0], glyph(6));
    assert_eq!(ctx.buffer.idx, 0);
    assert!(ctx.buffer.out.is_empty());
}

#[test]
fn sequence_length_zero_deletes_glyph() {
    let data = offset_list_f1(&[7], &[&[]]);
    let mut ctx = ctx_of(&[7]);
    assert!(multiple_subst_apply(&data, &mut ctx));
    assert!(ctx.buffer.info.is_empty());
    assert!(ctx.buffer.out.is_empty());
    assert_eq!(ctx.buffer.idx, 0);
}

#[test]
fn sequence_length_one_replaces_in_place() {
    let data = offset_list_f1(&[7], &[&[33]]);
    let mut ctx = ctx_of(&[7]);
    assert!(multiple_subst_apply(&data, &mut ctx));
    assert_eq!(ctx.buffer.info.len(), 1);
    assert_eq!(ctx.buffer.info[0].glyph_id, 33);
    assert_eq!(ctx.buffer.info[0].lig_component, 0);
    assert_eq!(ctx.buffer.info[0].props, 0);
    assert!(ctx.buffer.out.is_empty());
    assert_eq!(ctx.buffer.idx, 0);
}

#[test]
fn sequence_length_three_expands_ligature_base() {
    let data = offset_list_f1(&[7], &[&[1, 2, 3]]);
    let mut ctx = ctx_of(&[7]);
    ctx.buffer.info[0].props = GLYPH_PROPS_LIGATURE;
    ctx.buffer.info[0].mask = 0xABCD;
    assert!(multiple_subst_apply(&data, &mut ctx));
    assert_eq!(ctx.buffer.out.len(), 3);
    for (i, entry) in ctx.buffer.out.iter().enumerate() {
        assert_eq!(entry.glyph_id, [1, 2, 3][i]);
        assert_eq!(entry.lig_component, i as u8);
        assert_eq!(entry.props, GLYPH_PROPS_BASE_GLYPH);
        assert_eq!(entry.mask, 0xABCD);
    }
    // the consumed input glyph was stepped past
    assert_eq!(ctx.buffer.idx, 1);
    assert_eq!(ctx.buffer.info.len(), 1);
}

#[test]
fn sequence_length_three_expands_plain_glyph_untagged() {
    let data = offset_list_f1(&[7], &[&[1, 2, 3]]);
    let mut ctx = ctx_of(&[7]);
    assert!(multiple_subst_apply(&data, &mut ctx));
    assert_eq!(ctx.buffer.out.len(), 3);
    for entry in &ctx.buffer.out {
        assert_eq!(entry.props, 0);
    }
}

#[test]
fn multiple_subst_bad_sequence_offset_leaves_buffer() {
    // one covered glyph whose stored offset points past the subtable
    let mut data = Vec::new();
    push16(&mut data, 1);
    push16(&mut data, 8);
    push16(&mut data, 1);
    push16(&mut data, 999);
    data.extend_from_slice(&coverage_f1(&[7]));
    let mut ctx = ctx_of(&[7]);
    assert!(!multiple_subst_apply(&data, &mut ctx));
    assert_eq!(ctx.buffer.info.len(), 1);
    assert_eq!(ctx.buffer.info[0], glyph(7));
    assert!(ctx.buffer.out.is_empty());
}

#[test]
fn alternate_selection_by_mask() {
    let data = offset_list_f1(&[5], &[&[100, 101, 102]]);
    let mut ctx = ctx_of(&[5]);
    ctx.lookup_mask = 0b0011_0000;
    // selector 2, stored in the lookup's bit field on the glyph
    ctx.buffer.info[0].mask = 2 << 4;
    assert!(alternate_subst_apply(&data, &mut ctx));
    assert_eq!(ctx.buffer.info[0].glyph_id, 101);
}

#[test]
fn alternate_selector_one_picks_first() {
    let data = offset_list_f1(&[5], &[&[100, 101, 102]]);
    let mut ctx = ctx_of(&[5]);
    ctx.lookup_mask = 0b0011_0000;
    ctx.buffer.info[0].mask = 1 << 4;
    assert!(alternate_subst_apply(&data, &mut ctx));
    assert_eq!(ctx.buffer.info[0].glyph_id, 100);
}

#[test]
fn alternate_selector_zero_fails() {
    let data = offset_list_f1(&[5], &[&[100, 101, 102]]);
    let mut ctx = ctx_of(&[5]);
    ctx.lookup_mask = 0b0011_0000;
    ctx.buffer.info[0].mask = 0;
    assert!(!alternate_subst_apply(&data, &mut ctx));
    assert_eq!(ctx.buffer.info[0].glyph_id, 5);
}

#[test]
fn alternate_sentinel_without_randomization_fails() {
    // an eight-bit field whose selector is the reserved maximum value
    let data = offset_list_f1(&[5], &[&[100, 101, 102]]);
    let mut ctx = ctx_of(&[5]);
    ctx.lookup_mask = 0xFF0;
    ctx.buffer.info[0].mask = 0xFF0;
    assert!(!alternate_subst_apply(&data, &mut ctx));
    assert_eq!(ctx.buffer.info[0].glyph_id, 5);
    assert!(ctx.buffer.out.is_empty());
    assert_eq!(ctx.buffer.idx, 0);
}

#[test]
fn alternate_sentinel_with_randomization_draws_candidate() {
    let data = offset_list_f1(&[5], &[&[100, 101, 102]]);
    let mut ctx = ctx_of(&[5]);
    ctx.lookup_mask = 0xFF0;
    ctx.buffer.info[0].mask = 0xFF0;
    ctx.random = true;
    ctx.random_value = 4;
    // 4 % 3 + 1 selects the second candidate
    assert!(alternate_subst_apply(&data, &mut ctx));
    assert_eq!(ctx.buffer.info[0].glyph_id, 101);
}

#[test]
fn alternate_empty_set_fails() {
    let data = offset_list_f1(&[5], &[&[]]);
    let mut ctx = ctx_of(&[5]);
    ctx.lookup_mask = 0b0011_0000;
    ctx.buffer.info[0].mask = 1 << 4;
    assert!(!alternate_subst_apply(&data, &mut ctx));
    assert_eq!(ctx.buffer.info[0].glyph_id, 5);
}

#[test]
fn alternate_index_out_of_bounds_fails() {
    let data = offset_list_f1(&[5], &[&[100, 101, 102]]);
    let mut ctx = ctx_of(&[5]);
    ctx.lookup_mask = 0b0011_0000;
    // selector 3 exists, selector 4 falls outside the three candidates
    ctx.buffer.info[0].mask = 3 << 4;
    assert!(alternate_subst_apply(&data, &mut ctx));
    assert_eq!(ctx.buffer.info[0].glyph_id, 102);

    // selector 3 is in range; selector 4 falls past the three candidates
    let mut far = ctx_of(&[5]);
    far.lookup_mask = 0xFF0;
    far.buffer.info[0].mask = 4 << 4;
    assert!(!alternate_subst_apply(&data, &mut far));
    assert_eq!(far.buffer.info[0].glyph_id, 5);
}

#[test]
fn would_apply_iff_single_covered_glyph() {
    let single = single_f1(&[10], 5);
    let multiple = offset_list_f1(&[10], &[&[1, 2]]);
    let alternate = offset_list_f1(&[10], &[&[1, 2]]);

    let one_covered = WouldApplyContext { glyphs: vec![10] };
    let one_uncovered = WouldApplyContext { glyphs: vec![11] };
    let two_covered = WouldApplyContext { glyphs: vec![10, 10] };

    assert!(single_subst_would_apply(&single, &one_covered));
    assert!(!single_subst_would_apply(&single, &one_uncovered));
    assert!(!single_subst_would_apply(&single, &two_covered));

    assert!(multiple_subst_would_apply(&multiple, &one_covered));
    assert!(!multiple_subst_would_apply(&multiple, &one_uncovered));
    assert!(!multiple_subst_would_apply(&multiple, &two_covered));

    assert!(alternate_subst_would_apply(&alternate, &one_covered));
    assert!(!alternate_subst_would_apply(&alternate, &one_uncovered));
    assert!(!alternate_subst_would_apply(&alternate, &two_covered));

    // a malformed subtable never would-apply
    assert!(!single_subst_would_apply(&[0, 9], &one_covered));
    assert!(!multiple_subst_would_apply(&[0, 9], &one_covered));
    assert!(!alternate_subst_would_apply(&[0, 9], &one_covered));
}

#[test]
fn apply_on_malformed_subtable_fails_and_preserves_buffer() {
    let mut ctx = ctx_of(&[7]);
    assert!(!single_subst_apply(&[0, 3, 0, 0, 0, 0], &mut ctx));
    assert!(!multiple_subst_apply(&[0, 2, 0, 0, 0, 0], &mut ctx));
    assert!(!alternate_subst_apply(&[], &mut ctx));
    assert_eq!(ctx.buffer.info.len(), 1);
    assert_eq!(ctx.buffer.info[0], glyph(7));
    assert!(ctx.buffer.out.is_empty());
    assert_eq!(ctx.buffer.idx, 0);
}

#[test]
fn apply_operates_on_glyph_under_cursor() {
    let data = single_f1(&[20], 1);
    let mut ctx = ctx_of(&[10, 20, 30]);
    ctx.buffer.idx = 1;
    assert!(single_subst_apply(&data, &mut ctx));
    assert_eq!(ctx.buffer.info[0].glyph_id, 10);
    assert_eq!(ctx.buffer.info[1].glyph_id, 21);
    assert_eq!(ctx.buffer.info[2].glyph_id, 30);
}
