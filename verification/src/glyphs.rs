//! The bitmap font of the primitive text path: seven rows of five columns
//! per glyph, and the cells a line of text lights, glyph by glyph. Placing
//! the cells on screen is the caller's.

use vstd::prelude::*;

verus! {

/// Rows of a glyph.
pub const GLYPH_ROWS: usize = 7;

/// Columns of a glyph; a row's bits run from the leftmost column (bit 4)
/// to the rightmost (bit 0).
pub const GLYPH_COLUMNS: usize = 5;

/// The rows of the glyph drawn for `byte`, where the font has one.
pub open spec fn glyph_table(byte: u8) -> Option<[u8; 7]> {
    match byte {
        65 => Some([0b01110, 0b10001, 0b10001, 0b11111, 0b10001, 0b10001, 0b10001]),  // A
        66 => Some([0b11110, 0b10001, 0b10001, 0b11110, 0b10001, 0b10001, 0b11110]),  // B
        67 => Some([0b01110, 0b10001, 0b10000, 0b10000, 0b10000, 0b10001, 0b01110]),  // C
        68 => Some([0b11110, 0b10001, 0b10001, 0b10001, 0b10001, 0b10001, 0b11110]),  // D
        69 => Some([0b11111, 0b10000, 0b10000, 0b11110, 0b10000, 0b10000, 0b11111]),  // E
        70 => Some([0b11111, 0b10000, 0b10000, 0b11110, 0b10000, 0b10000, 0b10000]),  // F
        71 => Some([0b01110, 0b10001, 0b10000, 0b10111, 0b10001, 0b10001, 0b01110]),  // G
        72 => Some([0b10001, 0b10001, 0b10001, 0b11111, 0b10001, 0b10001, 0b10001]),  // H
        73 => Some([0b01110, 0b00100, 0b00100, 0b00100, 0b00100, 0b00100, 0b01110]),  // I
        74 => Some([0b00111, 0b00010, 0b00010, 0b00010, 0b10010, 0b10010, 0b01100]),  // J
        75 => Some([0b10001, 0b10010, 0b10100, 0b11000, 0b10100, 0b10010, 0b10001]),  // K
        76 => Some([0b10000, 0b10000, 0b10000, 0b10000, 0b10000, 0b10000, 0b11111]),  // L
        77 => Some([0b10001, 0b11011, 0b10101, 0b10101, 0b10001, 0b10001, 0b10001]),  // M
        78 => Some([0b10001, 0b11001, 0b10101, 0b10011, 0b10001, 0b10001, 0b10001]),  // N
        79 => Some([0b01110, 0b10001, 0b10001, 0b10001, 0b10001, 0b10001, 0b01110]),  // O
        80 => Some([0b11110, 0b10001, 0b10001, 0b11110, 0b10000, 0b10000, 0b10000]),  // P
        81 => Some([0b01110, 0b10001, 0b10001, 0b10001, 0b10101, 0b10010, 0b01101]),  // Q
        82 => Some([0b11110, 0b10001, 0b10001, 0b11110, 0b10100, 0b10010, 0b10001]),  // R
        83 => Some([0b01111, 0b10000, 0b10000, 0b01110, 0b00001, 0b00001, 0b11110]),  // S
        84 => Some([0b11111, 0b00100, 0b00100, 0b00100, 0b00100, 0b00100, 0b00100]),  // T
        85 => Some([0b10001, 0b10001, 0b10001, 0b10001, 0b10001, 0b10001, 0b01110]),  // U
        86 => Some([0b10001, 0b10001, 0b10001, 0b10001, 0b10001, 0b01010, 0b00100]),  // V
        87 => Some([0b10001, 0b10001, 0b10001, 0b10101, 0b10101, 0b10101, 0b01010]),  // W
        88 => Some([0b10001, 0b10001, 0b01010, 0b00100, 0b01010, 0b10001, 0b10001]),  // X
        89 => Some([0b10001, 0b10001, 0b01010, 0b00100, 0b00100, 0b00100, 0b00100]),  // Y
        90 => Some([0b11111, 0b00001, 0b00010, 0b00100, 0b01000, 0b10000, 0b11111]),  // Z
        48 => Some([0b01110, 0b10001, 0b10011, 0b10101, 0b11001, 0b10001, 0b01110]),  // 0
        49 => Some([0b00100, 0b01100, 0b00100, 0b00100, 0b00100, 0b00100, 0b01110]),  // 1
        50 => Some([0b01110, 0b10001, 0b00001, 0b00010, 0b00100, 0b01000, 0b11111]),  // 2
        51 => Some([0b11110, 0b00001, 0b00001, 0b01110, 0b00001, 0b00001, 0b11110]),  // 3
        52 => Some([0b00010, 0b00110, 0b01010, 0b10010, 0b11111, 0b00010, 0b00010]),  // 4
        53 => Some([0b11111, 0b10000, 0b10000, 0b11110, 0b00001, 0b00001, 0b11110]),  // 5
        54 => Some([0b00110, 0b01000, 0b10000, 0b11110, 0b10001, 0b10001, 0b01110]),  // 6
        55 => Some([0b11111, 0b00001, 0b00010, 0b00100, 0b01000, 0b01000, 0b01000]),  // 7
        56 => Some([0b01110, 0b10001, 0b10001, 0b01110, 0b10001, 0b10001, 0b01110]),  // 8
        57 => Some([0b01110, 0b10001, 0b10001, 0b01111, 0b00001, 0b00010, 0b11100]),  // 9
        58 => Some([0, 0b00100, 0, 0, 0b00100, 0, 0]),  // :
        45 => Some([0, 0, 0, 0b11111, 0, 0, 0]),  // -
        47 => Some([0b00001, 0b00010, 0b00100, 0b01000, 0b10000, 0, 0]),  // /
        37 => Some([0b11001, 0b11010, 0b00100, 0b01000, 0b10110, 0b00110, 0]),  // %
        46 => Some([0, 0, 0, 0, 0, 0b00100, 0b00100]),  // .
        32 => Some([0, 0, 0, 0, 0, 0, 0]),  // space
        _ => None,
    }
}

/// The boxed glyph drawn for a byte the font lacks.
pub open spec fn replacement() -> [u8; 7] {
    [0b11111, 0b10001, 0b10001, 0b10001, 0b10001, 0b10001, 0b11111]
}

/// The glyph drawn for `byte`.
pub open spec fn shown_glyph(byte: u8) -> [u8; 7] {
    match glyph_table(byte) {
        Some(glyph) => glyph,
        None => replacement(),
    }
}

/// A glyph's seven five-column rows read top to bottom as one number, the
/// top row in the highest bits.
pub open spec fn glyph_code(glyph: [u8; 7]) -> int {
    (((((glyph@[0] * 32 + glyph@[1]) * 32 + glyph@[2]) * 32 + glyph@[3]) * 32 + glyph@[4]) * 32
        + glyph@[5]) * 32 + glyph@[6]
}

/// The character a reader sees in the picture `code` (rows written left to
/// right, top row first), for the pictures of this font.
pub open spec fn character_pictured(code: int) -> Option<u8> {
    if code == 0b01110_10001_10001_11111_10001_10001_10001 {
        Some(65u8)  // A
    } else if code == 0b11110_10001_10001_11110_10001_10001_11110 {
        Some(66u8)  // B
    } else if code == 0b01110_10001_10000_10000_10000_10001_01110 {
        Some(67u8)  // C
    } else if code == 0b11110_10001_10001_10001_10001_10001_11110 {
        Some(68u8)  // D
    } else if code == 0b11111_10000_10000_11110_10000_10000_11111 {
        Some(69u8)  // E
    } else if code == 0b11111_10000_10000_11110_10000_10000_10000 {
        Some(70u8)  // F
    } else if code == 0b01110_10001_10000_10111_10001_10001_01110 {
        Some(71u8)  // G
    } else if code == 0b10001_10001_10001_11111_10001_10001_10001 {
        Some(72u8)  // H
    } else if code == 0b01110_00100_00100_00100_00100_00100_01110 {
        Some(73u8)  // I
    } else if code == 0b00111_00010_00010_00010_10010_10010_01100 {
        Some(74u8)  // J
    } else if code == 0b10001_10010_10100_11000_10100_10010_10001 {
        Some(75u8)  // K
    } else if code == 0b10000_10000_10000_10000_10000_10000_11111 {
        Some(76u8)  // L
    } else if code == 0b10001_11011_10101_10101_10001_10001_10001 {
        Some(77u8)  // M
    } else if code == 0b10001_11001_10101_10011_10001_10001_10001 {
        Some(78u8)  // N
    } else if code == 0b01110_10001_10001_10001_10001_10001_01110 {
        Some(79u8)  // O
    } else if code == 0b11110_10001_10001_11110_10000_10000_10000 {
        Some(80u8)  // P
    } else if code == 0b01110_10001_10001_10001_10101_10010_01101 {
        Some(81u8)  // Q
    } else if code == 0b11110_10001_10001_11110_10100_10010_10001 {
        Some(82u8)  // R
    } else if code == 0b01111_10000_10000_01110_00001_00001_11110 {
        Some(83u8)  // S
    } else if code == 0b11111_00100_00100_00100_00100_00100_00100 {
        Some(84u8)  // T
    } else if code == 0b10001_10001_10001_10001_10001_10001_01110 {
        Some(85u8)  // U
    } else if code == 0b10001_10001_10001_10001_10001_01010_00100 {
        Some(86u8)  // V
    } else if code == 0b10001_10001_10001_10101_10101_10101_01010 {
        Some(87u8)  // W
    } else if code == 0b10001_10001_01010_00100_01010_10001_10001 {
        Some(88u8)  // X
    } else if code == 0b10001_10001_01010_00100_00100_00100_00100 {
        Some(89u8)  // Y
    } else if code == 0b11111_00001_00010_00100_01000_10000_11111 {
        Some(90u8)  // Z
    } else if code == 0b01110_10001_10011_10101_11001_10001_01110 {
        Some(48u8)  // 0
    } else if code == 0b00100_01100_00100_00100_00100_00100_01110 {
        Some(49u8)  // 1
    } else if code == 0b01110_10001_00001_00010_00100_01000_11111 {
        Some(50u8)  // 2
    } else if code == 0b11110_00001_00001_01110_00001_00001_11110 {
        Some(51u8)  // 3
    } else if code == 0b00010_00110_01010_10010_11111_00010_00010 {
        Some(52u8)  // 4
    } else if code == 0b11111_10000_10000_11110_00001_00001_11110 {
        Some(53u8)  // 5
    } else if code == 0b00110_01000_10000_11110_10001_10001_01110 {
        Some(54u8)  // 6
    } else if code == 0b11111_00001_00010_00100_01000_01000_01000 {
        Some(55u8)  // 7
    } else if code == 0b01110_10001_10001_01110_10001_10001_01110 {
        Some(56u8)  // 8
    } else if code == 0b01110_10001_10001_01111_00001_00010_11100 {
        Some(57u8)  // 9
    } else if code == 0b00000_00100_00000_00000_00100_00000_00000 {
        Some(58u8)  // :
    } else if code == 0b00000_00000_00000_11111_00000_00000_00000 {
        Some(45u8)  // -
    } else if code == 0b00001_00010_00100_01000_10000_00000_00000 {
        Some(47u8)  // /
    } else if code == 0b11001_11010_00100_01000_10110_00110_00000 {
        Some(37u8)  // %
    } else if code == 0b00000_00000_00000_00000_00000_00100_00100 {
        Some(46u8)  // .
    } else if code == 0b00000_00000_00000_00000_00000_00000_00000 {
        Some(32u8)  // space
    } else {
        None
    }
}

/// The character a reader sees in `glyph`.
pub open spec fn reads_as(glyph: [u8; 7]) -> Option<u8> {
    character_pictured(glyph_code(glyph))
}

/// Every glyph of the font shows its own character, so no two characters
/// share a picture; and the box drawn for a missing character reads as no
/// character at all.
pub proof fn lemma_glyphs_show_their_characters(byte: u8, other: u8)
    ensures
        glyph_table(byte) matches Some(glyph) ==> reads_as(glyph) == Some(byte),
        glyph_table(byte) is Some && byte != other ==> glyph_table(byte) != glyph_table(other),
        reads_as(replacement()) is None,
        reads_as(shown_glyph(byte)) is Some <==> glyph_table(byte) is Some,
{
}

/// A lit cell of a glyph: the glyph's position in the text, its row from
/// the top and its column from the left.
#[derive(Clone, Copy, Debug, PartialEq, Eq, Structural)]
pub struct GlyphCell {
    pub glyph_index: usize,
    pub row: usize,
    pub column: usize,
}

/// Whether `bits` lights `column` (0 is the leftmost of five).
pub open spec fn lit(bits: u8, column: int) -> bool {
    bits & (1u8 << ((4 - column) as u8)) != 0
}

/// The lit cells among the first `columns` columns of one row, left to
/// right.
pub open spec fn row_cells(index: nat, row: nat, bits: u8, columns: nat) -> Seq<GlyphCell>
    decreases columns,
{
    if columns == 0 {
        seq![]
    } else {
        row_cells(index, row, bits, (columns - 1) as nat) + if lit(bits, columns - 1) {
            seq![GlyphCell { glyph_index: index as usize, row: row as usize, column: (columns - 1) as usize }]
        } else {
            seq![]
        }
    }
}

/// The lit cells of the first `rows` rows of `glyph`, top to bottom.
pub open spec fn glyph_cells_of(index: nat, glyph: [u8; 7], rows: nat) -> Seq<GlyphCell>
    decreases rows,
{
    if rows == 0 {
        seq![]
    } else {
        glyph_cells_of(index, glyph, (rows - 1) as nat) + row_cells(
            index,
            (rows - 1) as nat,
            glyph@[rows - 1],
            GLYPH_COLUMNS as nat,
        )
    }
}

/// The lit cells of `text`, glyph after glyph.
pub open spec fn text_cells(text: Seq<u8>) -> Seq<GlyphCell>
    decreases text.len(),
{
    if text.len() == 0 {
        seq![]
    } else {
        text_cells(text.drop_last()) + glyph_cells_of(
            (text.len() - 1) as nat,
            shown_glyph(text.last()),
            GLYPH_ROWS as nat,
        )
    }
}

/// The glyph the font has for `byte`.
pub fn glyph_for(byte: u8) -> (glyph: Option<[u8; 7]>)
    ensures
        glyph == glyph_table(byte),
{
    let glyph = match byte {
        65 => [0b01110, 0b10001, 0b10001, 0b11111, 0b10001, 0b10001, 0b10001],  // A
        66 => [0b11110, 0b10001, 0b10001, 0b11110, 0b10001, 0b10001, 0b11110],  // B
        67 => [0b01110, 0b10001, 0b10000, 0b10000, 0b10000, 0b10001, 0b01110],  // C
        68 => [0b11110, 0b10001, 0b10001, 0b10001, 0b10001, 0b10001, 0b11110],  // D
        69 => [0b11111, 0b10000, 0b10000, 0b11110, 0b10000, 0b10000, 0b11111],  // E
        70 => [0b11111, 0b10000, 0b10000, 0b11110, 0b10000, 0b10000, 0b10000],  // F
        71 => [0b01110, 0b10001, 0b10000, 0b10111, 0b10001, 0b10001, 0b01110],  // G
        72 => [0b10001, 0b10001, 0b10001, 0b11111, 0b10001, 0b10001, 0b10001],  // H
        73 => [0b01110, 0b00100, 0b00100, 0b00100, 0b00100, 0b00100, 0b01110],  // I
        74 => [0b00111, 0b00010, 0b00010, 0b00010, 0b10010, 0b10010, 0b01100],  // J
        75 => [0b10001, 0b10010, 0b10100, 0b11000, 0b10100, 0b10010, 0b10001],  // K
        76 => [0b10000, 0b10000, 0b10000, 0b10000, 0b10000, 0b10000, 0b11111],  // L
        77 => [0b10001, 0b11011, 0b10101, 0b10101, 0b10001, 0b10001, 0b10001],  // M
        78 => [0b10001, 0b11001, 0b10101, 0b10011, 0b10001, 0b10001, 0b10001],  // N
        79 => [0b01110, 0b10001, 0b10001, 0b10001, 0b10001, 0b10001, 0b01110],  // O
        80 => [0b11110, 0b10001, 0b10001, 0b11110, 0b10000, 0b10000, 0b10000],  // P
        81 => [0b01110, 0b10001, 0b10001, 0b10001, 0b10101, 0b10010, 0b01101],  // Q
        82 => [0b11110, 0b10001, 0b10001, 0b11110, 0b10100, 0b10010, 0b10001],  // R
        83 => [0b01111, 0b10000, 0b10000, 0b01110, 0b00001, 0b00001, 0b11110],  // S
        84 => [0b11111, 0b00100, 0b00100, 0b00100, 0b00100, 0b00100, 0b00100],  // T
        85 => [0b10001, 0b10001, 0b10001, 0b10001, 0b10001, 0b10001, 0b01110],  // U
        86 => [0b10001, 0b10001, 0b10001, 0b10001, 0b10001, 0b01010, 0b00100],  // V
        87 => [0b10001, 0b10001, 0b10001, 0b10101, 0b10101, 0b10101, 0b01010],  // W
        88 => [0b10001, 0b10001, 0b01010, 0b00100, 0b01010, 0b10001, 0b10001],  // X
        89 => [0b10001, 0b10001, 0b01010, 0b00100, 0b00100, 0b00100, 0b00100],  // Y
        90 => [0b11111, 0b00001, 0b00010, 0b00100, 0b01000, 0b10000, 0b11111],  // Z
        48 => [0b01110, 0b10001, 0b10011, 0b10101, 0b11001, 0b10001, 0b01110],  // 0
        49 => [0b00100, 0b01100, 0b00100, 0b00100, 0b00100, 0b00100, 0b01110],  // 1
        50 => [0b01110, 0b10001, 0b00001, 0b00010, 0b00100, 0b01000, 0b11111],  // 2
        51 => [0b11110, 0b00001, 0b00001, 0b01110, 0b00001, 0b00001, 0b11110],  // 3
        52 => [0b00010, 0b00110, 0b01010, 0b10010, 0b11111, 0b00010, 0b00010],  // 4
        53 => [0b11111, 0b10000, 0b10000, 0b11110, 0b00001, 0b00001, 0b11110],  // 5
        54 => [0b00110, 0b01000, 0b10000, 0b11110, 0b10001, 0b10001, 0b01110],  // 6
        55 => [0b11111, 0b00001, 0b00010, 0b00100, 0b01000, 0b01000, 0b01000],  // 7
        56 => [0b01110, 0b10001, 0b10001, 0b01110, 0b10001, 0b10001, 0b01110],  // 8
        57 => [0b01110, 0b10001, 0b10001, 0b01111, 0b00001, 0b00010, 0b11100],  // 9
        58 => [0, 0b00100, 0, 0, 0b00100, 0, 0],  // :
        45 => [0, 0, 0, 0b11111, 0, 0, 0],  // -
        47 => [0b00001, 0b00010, 0b00100, 0b01000, 0b10000, 0, 0],  // /
        37 => [0b11001, 0b11010, 0b00100, 0b01000, 0b10110, 0b00110, 0],  // %
        46 => [0, 0, 0, 0, 0, 0b00100, 0b00100],  // .
        32 => [0, 0, 0, 0, 0, 0, 0],  // space
        _ => return None,
    };
    Some(glyph)
}

/// The boxed glyph drawn for a byte the font lacks.
pub fn replacement_glyph() -> (glyph: [u8; 7])
    ensures
        glyph == replacement(),
{
    [0b11111, 0b10001, 0b10001, 0b10001, 0b10001, 0b10001, 0b11111]
}

/// The cells `text` lights, glyph after glyph, each glyph row by row from
/// the top and each row from the left; a byte the font lacks shows the
/// boxed glyph.
pub fn text_glyph_cells(text: &[u8]) -> (cells: Vec<GlyphCell>)
    ensures
        cells@ == text_cells(text@),
{
    let mut cells: Vec<GlyphCell> = Vec::new();
    let mut index: usize = 0;
    while index < text.len()
        invariant
            index <= text@.len(),
            cells@ == text_cells(text@.take(index as int)),
        decreases text.len() - index,
    {
        let glyph = match glyph_for(text[index]) {
            Some(glyph) => glyph,
            None => replacement_glyph(),
        };
        let ghost before = cells@;
        let mut row: usize = 0;
        while row < GLYPH_ROWS
            invariant
                row <= GLYPH_ROWS,
                index < text@.len(),
                glyph == shown_glyph(text@[index as int]),
                cells@ == before + glyph_cells_of(index as nat, glyph, row as nat),
            decreases GLYPH_ROWS - row,
        {
            let bits = glyph[row];
            let ghost row_start = cells@;
            let mut column: usize = 0;
            while column < GLYPH_COLUMNS
                invariant
                    column <= GLYPH_COLUMNS,
                    row < GLYPH_ROWS,
                    bits == glyph@[row as int],
                    cells@ == row_start + row_cells(index as nat, row as nat, bits, column as nat),
                decreases GLYPH_COLUMNS - column,
            {
                let shift: u8 = (4 - column) as u8;
                if bits & (1u8 << shift) != 0 {
                    cells.push(GlyphCell { glyph_index: index, row, column });
                }
                proof {
                    assert(row_start + row_cells(index as nat, row as nat, bits, (column + 1) as nat)
                        =~= cells@);
                }
                column = column + 1;
            }
            proof {
                assert(before + glyph_cells_of(index as nat, glyph, (row + 1) as nat) =~= cells@);
            }
            row = row + 1;
        }
        proof {
            assert(text@.take(index + 1).drop_last() =~= text@.take(index as int));
            assert(text@.take(index + 1).last() == text@[index as int]);
            assert(text_cells(text@.take(index + 1)) =~= cells@);
        }
        index = index + 1;
    }
    proof {
        assert(text@.take(text@.len() as int) =~= text@);
    }
    cells
}

/// Every lit cell of a row lies in the row, in one of the five columns,
/// and belongs to the row's glyph.
proof fn lemma_row_cells_in_cell(index: nat, row: nat, bits: u8, columns: nat)
    requires
        columns <= GLYPH_COLUMNS,
        row < GLYPH_ROWS,
        index <= usize::MAX,
    ensures
        forall|k: int| 0 <= k < row_cells(index, row, bits, columns).len() ==> {
            &&& (#[trigger] row_cells(index, row, bits, columns)[k]).row == row
            &&& row_cells(index, row, bits, columns)[k].column < columns
            &&& row_cells(index, row, bits, columns)[k].glyph_index == index
        },
    decreases columns,
{
    if columns > 0 {
        lemma_row_cells_in_cell(index, row, bits, (columns - 1) as nat);
        let front = row_cells(index, row, bits, (columns - 1) as nat);
        let whole = row_cells(index, row, bits, columns);
        assert forall|k: int| 0 <= k < whole.len() implies {
            &&& (#[trigger] whole[k]).row == row
            &&& whole[k].column < columns
            &&& whole[k].glyph_index == index
        } by {
            if k < front.len() {
                assert(whole[k] == front[k]);
            }
        }
    }
}

/// Every lit cell of a glyph lies within its seven rows and five columns.
proof fn lemma_glyph_cells_in_cell(index: nat, glyph: [u8; 7], rows: nat)
    requires
        rows <= GLYPH_ROWS,
        index <= usize::MAX,
    ensures
        forall|k: int| 0 <= k < glyph_cells_of(index, glyph, rows).len() ==> {
            &&& (#[trigger] glyph_cells_of(index, glyph, rows)[k]).row < rows
            &&& glyph_cells_of(index, glyph, rows)[k].column < GLYPH_COLUMNS
            &&& glyph_cells_of(index, glyph, rows)[k].glyph_index == index
        },
    decreases rows,
{
    if rows > 0 {
        lemma_glyph_cells_in_cell(index, glyph, (rows - 1) as nat);
        lemma_row_cells_in_cell(index, (rows - 1) as nat, glyph@[rows - 1], GLYPH_COLUMNS as nat);
        let front = glyph_cells_of(index, glyph, (rows - 1) as nat);
        let back = row_cells(index, (rows - 1) as nat, glyph@[rows - 1], GLYPH_COLUMNS as nat);
        let whole = glyph_cells_of(index, glyph, rows);
        assert forall|k: int| 0 <= k < whole.len() implies {
            &&& (#[trigger] whole[k]).row < rows
            &&& whole[k].column < GLYPH_COLUMNS
            &&& whole[k].glyph_index == index
        } by {
            if k < front.len() {
                assert(whole[k] == front[k]);
            } else {
                assert(whole[k] == back[k - front.len()]);
            }
        }
    }
}

/// Every cell a text lights lies inside its glyph's seven-by-five cell,
/// and belongs to a glyph of the text.
pub proof fn lemma_text_stays_inside_glyph_cells(text: Seq<u8>)
    requires
        text.len() <= usize::MAX,
    ensures
        forall|k: int| 0 <= k < text_cells(text).len() ==> {
            &&& (#[trigger] text_cells(text)[k]).row < GLYPH_ROWS
            &&& text_cells(text)[k].column < GLYPH_COLUMNS
            &&& text_cells(text)[k].glyph_index < text.len()
        },
    decreases text.len(),
{
    if text.len() > 0 {
        lemma_text_stays_inside_glyph_cells(text.drop_last());
        lemma_glyph_cells_in_cell((text.len() - 1) as nat, shown_glyph(text.last()), GLYPH_ROWS as nat);
        let front = text_cells(text.drop_last());
        let back = glyph_cells_of((text.len() - 1) as nat, shown_glyph(text.last()), GLYPH_ROWS as nat);
        assert forall|k: int| 0 <= k < text_cells(text).len() implies {
            &&& (#[trigger] text_cells(text)[k]).row < GLYPH_ROWS
            &&& text_cells(text)[k].column < GLYPH_COLUMNS
            &&& text_cells(text)[k].glyph_index < text.len()
        } by {
            if k < front.len() {
                assert(text_cells(text)[k] == front[k]);
            } else {
                assert(text_cells(text)[k] == back[k - front.len()]);
            }
        }
    }
}

} // verus!
