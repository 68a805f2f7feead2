use nyon::glyphs::{GlyphCell, glyph_for, replacement_glyph, text_glyph_cells};

#[test]
fn the_font_covers_capitals_digits_and_a_few_marks() {
    assert_eq!(
        glyph_for(b'A'),
        Some([0b01110, 0b10001, 0b10001, 0b11111, 0b10001, 0b10001, 0b10001])
    );
    assert_eq!(glyph_for(b'7'), Some([0b11111, 0b00001, 0b00010, 0b00100, 0b01000, 0b01000, 0b01000]));
    assert_eq!(glyph_for(b'%'), Some([0b11001, 0b11010, 0b00100, 0b01000, 0b10110, 0b00110, 0]));
    assert_eq!(glyph_for(b' '), Some([0; 7]));
    assert_eq!(glyph_for(b'a'), None);
    assert_eq!(glyph_for(b'@'), None);
}

#[test]
fn bitmap_glyph_vertices_stay_inside_their_seven_by_five_cell() {
    let cells = text_glyph_cells(b"A");
    assert!(!cells.is_empty());
    assert!(cells.iter().all(|cell| cell.glyph_index == 0 && cell.row < 7 && cell.column < 5));
    assert_eq!(cells.len(), 18);
}

#[test]
fn unsupported_glyph_uses_boxed_question_fallback() {
    let cells: Vec<(usize, usize)> =
        text_glyph_cells(b"@").iter().map(|cell| (cell.column, cell.row)).collect();
    let expected = vec![
        (0, 0),
        (1, 0),
        (2, 0),
        (3, 0),
        (4, 0),
        (0, 1),
        (4, 1),
        (0, 2),
        (4, 2),
        (0, 3),
        (4, 3),
        (0, 4),
        (4, 4),
        (0, 5),
        (4, 5),
        (0, 6),
        (1, 6),
        (2, 6),
        (3, 6),
        (4, 6),
    ];
    assert_eq!(cells, expected);
    assert_eq!(replacement_glyph(), [0b11111, 0b10001, 0b10001, 0b10001, 0b10001, 0b10001, 0b11111]);
}

#[test]
fn text_cells_run_glyph_by_glyph() {
    let cells = text_glyph_cells(b"-.");
    assert_eq!(
        cells,
        vec![
            GlyphCell { glyph_index: 0, row: 3, column: 0 },
            GlyphCell { glyph_index: 0, row: 3, column: 1 },
            GlyphCell { glyph_index: 0, row: 3, column: 2 },
            GlyphCell { glyph_index: 0, row: 3, column: 3 },
            GlyphCell { glyph_index: 0, row: 3, column: 4 },
            GlyphCell { glyph_index: 1, row: 5, column: 2 },
            GlyphCell { glyph_index: 1, row: 6, column: 2 },
        ]
    );
    assert!(text_glyph_cells(b"").is_empty());
    assert!(text_glyph_cells(b"   ").is_empty());
}
