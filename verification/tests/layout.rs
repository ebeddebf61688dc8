use retained_ui::geometry::{HandyDandyRectBuilder, LayoutPoint, LayoutRect, LayoutSize};
use retained_ui::shaper::{FontInstanceKey, FontKey, GlyphMetrics, TableShaper};
use retained_ui::text::{GlyphInstance, LayoutedText, chars_eq, position_glyphs};

fn font() -> FontKey {
    FontKey { id: 7 }
}

fn inst() -> FontInstanceKey {
    FontInstanceKey { id: 8 }
}

/// A shaper resolving 'a', 'b', 'c' to glyphs 1, 2, 3 with simple metrics.
fn abc_shaper() -> TableShaper {
    let mut sh = TableShaper::new();
    sh.insert_char('a', 1);
    sh.insert_char('b', 2);
    sh.insert_char('c', 3);
    sh.insert_metrics(1, GlyphMetrics::new(10, 12, 2));
    sh.insert_metrics(2, GlyphMetrics::new(11, 15, 3));
    sh.insert_metrics(3, GlyphMetrics::new(12, 9, 1));
    sh
}

#[test]
fn layout_resolves_in_text_order() {
    let mut sh = abc_shaper();
    let t = LayoutedText::new(vec!['a', 'b', 'c'], font(), inst(), &mut sh);
    assert_eq!(t.text, vec!['a', 'b', 'c']);
    assert_eq!(t.indices, vec![1, 2, 3]);
    assert_eq!(
        t.dimensions,
        vec![
            GlyphMetrics::new(10, 12, 2),
            GlyphMetrics::new(11, 15, 3),
            GlyphMetrics::new(12, 9, 1),
        ]
    );
    // Width: 10 + 11 + 12. Height: max of 2*12-2, 2*15-3, 2*9-1.
    assert_eq!(t.size, LayoutSize { w: 33, h: 27 });
    assert_eq!(t.font_key, font());
    assert_eq!(t.inst_key, inst());
}

#[test]
fn layout_drops_unresolved_characters() {
    let mut sh = abc_shaper();
    let t = LayoutedText::new(vec!['a', '!', 'b'], font(), inst(), &mut sh);
    assert_eq!(t.indices, vec![1, 2]);
    assert_eq!(t.size.w, 21);
}

#[test]
fn layout_drops_glyphs_without_metrics() {
    let mut sh = abc_shaper();
    sh.insert_char('d', 4);
    // Glyph 4 has no metrics entry: 'd' resolves to an index but is
    // dropped from the laid-out run.
    let t = LayoutedText::new(vec!['a', 'd', 'c'], font(), inst(), &mut sh);
    assert_eq!(t.indices, vec![1, 3]);
    assert_eq!(t.dimensions.len(), 2);
    assert_eq!(t.size.w, 22);
}

#[test]
fn layout_of_empty_text_is_empty() {
    let mut sh = abc_shaper();
    let t = LayoutedText::new(Vec::new(), font(), inst(), &mut sh);
    assert_eq!(t.indices, Vec::<u32>::new());
    assert_eq!(t.size, LayoutSize { w: 0, h: 0 });
}

#[test]
fn layout_is_deterministic() {
    let mut sh1 = abc_shaper();
    let mut sh2 = abc_shaper();
    let a = LayoutedText::new(vec!['c', 'a', 'b'], font(), inst(), &mut sh1);
    let b = LayoutedText::new(vec!['c', 'a', 'b'], font(), inst(), &mut sh2);
    assert_eq!(a.indices, b.indices);
    assert_eq!(a.dimensions, b.dimensions);
    assert_eq!(a.size, b.size);
    // And again through the same shaper: queries change counters, never
    // the mapping.
    let c = LayoutedText::new(vec!['c', 'a', 'b'], font(), inst(), &mut sh1);
    assert_eq!(c.indices, a.indices);
    assert_eq!(c.size, a.size);
}

#[test]
fn layout_counts_one_query_pair() {
    let mut sh = abc_shaper();
    assert_eq!(sh.index_query_count(), 0);
    assert_eq!(sh.metrics_query_count(), 0);
    let _ = LayoutedText::new(vec!['a', 'b'], font(), inst(), &mut sh);
    assert_eq!(sh.index_query_count(), 1);
    assert_eq!(sh.metrics_query_count(), 1);
}

#[test]
fn positioning_advances_left_to_right() {
    let mut sh = abc_shaper();
    let t = LayoutedText::new(vec!['a', 'b', 'c'], font(), inst(), &mut sh);
    let glyphs = position_glyphs(&t.indices, &t.dimensions, LayoutPoint { x: 100, y: 50 });
    // Offset is the largest glyph height, 15.
    assert_eq!(
        glyphs,
        vec![
            GlyphInstance { index: 1, point: LayoutPoint { x: 100, y: 65 } },
            GlyphInstance { index: 2, point: LayoutPoint { x: 110, y: 65 } },
            GlyphInstance { index: 3, point: LayoutPoint { x: 121, y: 65 } },
        ]
    );
}

#[test]
fn shaper_keeps_first_mapping() {
    let mut sh = TableShaper::new();
    sh.insert_char('a', 1);
    sh.insert_char('a', 9);
    sh.insert_metrics(1, GlyphMetrics::new(5, 5, 0));
    let t = LayoutedText::new(vec!['a'], font(), inst(), &mut sh);
    assert_eq!(t.indices, vec![1]);
}

#[test]
fn shaper_ignores_out_of_range_metrics() {
    let mut sh = TableShaper::new();
    sh.insert_char('a', 1);
    // Negative advance is out of range: the entry resolves to nothing.
    sh.insert_metrics(1, GlyphMetrics::new(-5, 5, 0));
    let t = LayoutedText::new(vec!['a'], font(), inst(), &mut sh);
    assert_eq!(t.indices, Vec::<u32>::new());
}

#[test]
fn rect_builder_spans_corners() {
    let r = (10i64, 20i64).to(110, 220);
    assert_eq!(
        r,
        LayoutRect {
            origin: LayoutPoint { x: 10, y: 20 },
            size: LayoutSize { w: 100, h: 200 },
        }
    );
    let b = (5i64, 6i64).by(30, 40);
    assert_eq!(
        b,
        LayoutRect { origin: LayoutPoint { x: 5, y: 6 }, size: LayoutSize { w: 30, h: 40 } }
    );
}

#[test]
fn chars_eq_compares_element_wise() {
    assert!(chars_eq(&vec![], &vec![]));
    assert!(chars_eq(&vec!['a', 'b'], &vec!['a', 'b']));
    assert!(!chars_eq(&vec!['a', 'b'], &vec!['a']));
    assert!(!chars_eq(&vec!['a', 'b'], &vec!['a', 'c']));
}
