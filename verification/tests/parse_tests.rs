//! Parsing behavior: well-formed tables parse, and short or unrecognized
//! slices are rejected by every parser.

use gsub::alternate::AlternateSubst;
use gsub::coverage::Coverage;
use gsub::multiple::MultipleSubst;
use gsub::single::SingleSubst;

fn push16(v: &mut Vec<u8>, w: u16) {
    v.push((w >> 8) as u8);
    v.push(w as u8);
}

fn coverage_f1(glyphs: &[u16]) -> Vec<u8> {
    let mut v = Vec::new();
    push16(&mut v, 1);
    push16(&mut v, glyphs.len() as u16);
    for &g in glyphs {
        push16(&mut v, g);
    }
    v
}

fn coverage_f2(ranges: &[(u16, u16, u16)]) -> Vec<u8> {
    let mut v = Vec::new();
    push16(&mut v, 2);
    push16(&mut v, ranges.len() as u16);
    for &(start, end, index) in ranges {
        push16(&mut v, start);
        push16(&mut v, end);
        push16(&mut v, index);
    }
    v
}

#[test]
fn coverage_rejects_short_and_unknown() {
    assert!(Coverage::parse(&[]).is_none());
    assert!(Coverage::parse(&[0]).is_none());
    assert!(Coverage::parse(&[0, 1]).is_none());
    assert!(Coverage::parse(&[0, 1, 0]).is_none());
    // format 3 is not a coverage format
    assert!(Coverage::parse(&[0, 3, 0, 0]).is_none());
    // declared count runs past the slice
    assert!(Coverage::parse(&[0, 1, 0, 2, 0, 5]).is_none());
}

#[test]
fn coverage_accepts_both_formats() {
    assert!(Coverage::parse(&coverage_f1(&[3, 7, 9])).is_some());
    assert!(Coverage::parse(&coverage_f2(&[(10, 12, 0)])).is_some());
    // an empty glyph list is well-formed
    assert!(Coverage::parse(&coverage_f1(&[])).is_some());
}

#[test]
fn coverage_format1_get_is_list_position() {
    let data = coverage_f1(&[3, 7, 9]);
    let cov = Coverage::parse(&data).unwrap();
    assert_eq!(cov.get(3), Some(0));
    assert_eq!(cov.get(7), Some(1));
    assert_eq!(cov.get(9), Some(2));
    assert_eq!(cov.get(0), None);
    assert_eq!(cov.get(4), None);
    assert_eq!(cov.get(10), None);
}

#[test]
fn coverage_format2_get_is_range_offset() {
    let data = coverage_f2(&[(10, 12, 0), (20, 22, 3)]);
    let cov = Coverage::parse(&data).unwrap();
    assert_eq!(cov.get(10), Some(0));
    assert_eq!(cov.get(11), Some(1));
    assert_eq!(cov.get(12), Some(2));
    assert_eq!(cov.get(20), Some(3));
    assert_eq!(cov.get(22), Some(5));
    assert_eq!(cov.get(9), None);
    assert_eq!(cov.get(13), None);
    assert_eq!(cov.get(23), None);
}

#[test]
fn single_subst_rejects_short_and_unknown() {
    assert!(SingleSubst::parse(&[]).is_none());
    assert!(SingleSubst::parse(&[0, 1]).is_none());
    assert!(SingleSubst::parse(&[0, 1, 0, 6, 0]).is_none());
    // format 3 is not a single-substitution format
    let mut v = Vec::new();
    push16(&mut v, 3);
    push16(&mut v, 6);
    push16(&mut v, 0);
    v.extend_from_slice(&coverage_f1(&[5]));
    assert!(SingleSubst::parse(&v).is_none());
}

#[test]
fn single_subst_rejects_coverage_offset_past_end() {
    let mut v = Vec::new();
    push16(&mut v, 1);
    push16(&mut v, 999);
    push16(&mut v, 5);
    assert!(SingleSubst::parse(&v).is_none());
}

#[test]
fn single_subst_accepts_both_formats() {
    let mut f1 = Vec::new();
    push16(&mut f1, 1);
    push16(&mut f1, 6);
    push16(&mut f1, 5);
    f1.extend_from_slice(&coverage_f1(&[5]));
    assert!(SingleSubst::parse(&f1).is_some());

    let mut f2 = Vec::new();
    push16(&mut f2, 2);
    push16(&mut f2, 8);
    push16(&mut f2, 1);
    push16(&mut f2, 42);
    f2.extend_from_slice(&coverage_f1(&[5]));
    assert!(SingleSubst::parse(&f2).is_some());
}

#[test]
fn multiple_subst_rejects_short_and_unknown() {
    assert!(MultipleSubst::parse(&[]).is_none());
    assert!(MultipleSubst::parse(&[0, 1, 0, 6]).is_none());
    // only format 1 exists
    let mut v = Vec::new();
    push16(&mut v, 2);
    push16(&mut v, 6);
    push16(&mut v, 0);
    v.extend_from_slice(&coverage_f1(&[5]));
    assert!(MultipleSubst::parse(&v).is_none());
}

#[test]
fn alternate_subst_rejects_short_and_unknown() {
    assert!(AlternateSubst::parse(&[]).is_none());
    assert!(AlternateSubst::parse(&[0, 1, 0, 6, 0]).is_none());
    // only format 1 exists
    let mut v = Vec::new();
    push16(&mut v, 2);
    push16(&mut v, 6);
    push16(&mut v, 0);
    v.extend_from_slice(&coverage_f1(&[5]));
    assert!(AlternateSubst::parse(&v).is_none());
}

#[test]
fn multiple_subst_offset_table_validated_eagerly() {
    // the offset array itself must fit ...
    let mut v = Vec::new();
    push16(&mut v, 1);
    push16(&mut v, 6);
    push16(&mut v, 4);
    assert!(MultipleSubst::parse(&v).is_none());
    // ... but the sequence blocks it points at are not parsed eagerly
    let mut w = Vec::new();
    push16(&mut w, 1);
    push16(&mut w, 8);
    push16(&mut w, 1);
    push16(&mut w, 999);
    w.extend_from_slice(&coverage_f1(&[5]));
    assert!(MultipleSubst::parse(&w).is_some());
}
