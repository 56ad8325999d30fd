//! The parts of drawing the wall that are not about energy levels: the
//! colours of each theme, the glyph tables, and which bands each screen
//! column shows.
use vstd::prelude::*;
use vstd::arithmetic::div_mod::{
    lemma_div_is_ordered, lemma_div_multiples_vanish_fancy, lemma_multiply_divide_lt,
};
use vstd::arithmetic::mul::{
    lemma_mul_inequality, lemma_mul_is_distributive_add_other_way, lemma_mul_strict_inequality,
};
use crate::app::Theme;

verus! {

/// A terminal colour.
#[derive(Debug, Clone, Copy, PartialEq, Eq, Structural)]
pub enum Color {
    Black,
    Rgb(u8, u8, u8),
}

/// The colour behind the wall.
pub fn theme_background(theme: Theme) -> (r: Color)
    ensures
        r == match theme {
            Theme::Nord => Color::Rgb(46, 52, 64),
            Theme::Mono => Color::Black,
            Theme::Amber => Color::Rgb(32, 24, 16),
        },
{
    match theme {
        Theme::Nord => Color::Rgb(46, 52, 64),
        Theme::Mono => Color::Black,
        Theme::Amber => Color::Rgb(32, 24, 16),
    }
}

/// The colour of the lines above and below the wall.
pub fn theme_border(theme: Theme) -> (r: Color)
    ensures
        r == match theme {
            Theme::Nord => Color::Rgb(59, 66, 82),
            Theme::Mono => Color::Rgb(67, 76, 94),
            Theme::Amber => Color::Rgb(94, 61, 38),
        },
{
    match theme {
        Theme::Nord => Color::Rgb(59, 66, 82),
        Theme::Mono => Color::Rgb(67, 76, 94),
        Theme::Amber => Color::Rgb(94, 61, 38),
    }
}

/// The colour of the peak marks.
pub fn theme_peak(theme: Theme) -> (r: Color)
    ensures
        r == match theme {
            Theme::Nord => Color::Rgb(180, 142, 173),
            Theme::Mono => Color::Rgb(216, 222, 233),
            Theme::Amber => Color::Rgb(235, 203, 139),
        },
{
    match theme {
        Theme::Nord => Color::Rgb(180, 142, 173),
        Theme::Mono => Color::Rgb(216, 222, 233),
        Theme::Amber => Color::Rgb(235, 203, 139),
    }
}

/// The colour of faint traces.
pub fn theme_dim(theme: Theme) -> (r: Color)
    ensures
        r == match theme {
            Theme::Nord => Color::Rgb(76, 86, 106),
            Theme::Mono => Color::Rgb(67, 76, 94),
            Theme::Amber => Color::Rgb(111, 76, 47),
        },
{
    match theme {
        Theme::Nord => Color::Rgb(76, 86, 106),
        Theme::Mono => Color::Rgb(67, 76, 94),
        Theme::Amber => Color::Rgb(111, 76, 47),
    }
}

/// The glyph of a peak mark, which changes from column to column in a
/// cycle of four.
pub open spec fn spec_peak_glyph(column: usize) -> Seq<char> {
    if column % 4 == 0 {
        "▀"@
    } else if column % 4 == 1 {
        "▔"@
    } else if column % 4 == 2 {
        "▝"@
    } else {
        "▘"@
    }
}

/// The peak mark drawn in `column`.
pub fn peak_glyph(column: usize) -> (r: &'static str)
    ensures
        r@ == spec_peak_glyph(column),
{
    match column % 4 {
        0 => "▀",
        1 => "▔",
        2 => "▝",
        _ => "▘",
    }
}

/// The glyphs of a lit bar cell, from faint to full, by how far the level
/// reaches above the cell; any step beyond the last is full.
pub open spec fn spec_bucket_glyph(bucket: usize) -> Seq<char> {
    if bucket == 0 {
        "·"@
    } else if bucket == 1 {
        "▪"@
    } else if bucket == 2 {
        "▖"@
    } else if bucket == 3 {
        "▄"@
    } else if bucket == 4 {
        "▙"@
    } else if bucket == 5 {
        "▛"@
    } else if bucket == 6 {
        "▓"@
    } else {
        "█"@
    }
}

/// The glyph of a lit bar cell for its step.
pub fn bucket_glyph(bucket: usize) -> (r: &'static str)
    ensures
        r@ == spec_bucket_glyph(bucket),
{
    let step = if bucket < 7 {
        bucket
    } else {
        7
    };
    match step {
        0 => "·",
        1 => "▪",
        2 => "▖",
        3 => "▄",
        4 => "▙",
        5 => "▛",
        6 => "▓",
        _ => "█",
    }
}

/// The dither of a bar cell in tenths, from 0 to 10, which scatters the
/// glyph steps over the wall.
pub fn dither_tenths(row: usize, column: usize) -> (r: usize)
    requires
        row * 17 + column * 29 <= usize::MAX,
    ensures
        r == (row * 17 + column * 29) % 11,
        r <= 10,
{
    (row * 17 + column * 29) % 11
}

/// The glyphs of the wave line: a stroke near the contour, a dot at its
/// fringe, each cycling with the cell's row and column.
pub open spec fn spec_wave_glyph(row: usize, column: usize, near: bool) -> Seq<char> {
    let step = (row + column) % 4;
    if near {
        if step == 0 {
            "╱"@
        } else if step == 1 {
            "━"@
        } else if step == 2 {
            "╲"@
        } else {
            "─"@
        }
    } else {
        if step == 0 {
            "·"@
        } else if step == 1 {
            "∙"@
        } else if step == 2 {
            "⋅"@
        } else {
            "˙"@
        }
    }
}

/// The glyph of a wave cell; `near` says that the contour passes within a
/// third of a row of the cell.
pub fn wave_glyph(row: usize, column: usize, near: bool) -> (r: &'static str)
    requires
        row + column <= usize::MAX,
    ensures
        r@ == spec_wave_glyph(row, column, near),
{
    let step = (row + column) % 4;
    if near {
        match step {
            0 => "╱",
            1 => "━",
            2 => "╲",
            _ => "─",
        }
    } else {
        match step {
            0 => "·",
            1 => "∙",
            2 => "⋅",
            _ => "˙",
        }
    }
}

/// The first band that screen column `column` of `width` shows, when the
/// wall has `band_count` bands.
pub open spec fn column_start(column: int, width: int, band_count: int) -> int {
    column * band_count / width
}

/// The end (exclusive) of the bands that column `column` shows: the
/// rounded-up share of the column, at least one band, at most the wall.
pub open spec fn column_end(column: int, width: int, band_count: int) -> int {
    let start = column_start(column, width, band_count);
    let end = ((column + 1) * band_count + (width - 1)) / width;
    if end < start + 1 {
        start + 1
    } else if end > band_count {
        band_count
    } else {
        end
    }
}

/// The bands that a screen column shows: from the column's share of the
/// wall rounded down to its end rounded up, never empty and never past the
/// last band. A width of zero is taken as one.
pub fn column_band_range(column: usize, width: usize, band_count: usize) -> (r: (usize, usize))
    requires
        band_count > 0,
        column < (if width == 0 { 1 } else { width }),
        (column + 1) * band_count + width <= usize::MAX,
    ensures
        r.0 == column_start(column as int, (if width == 0 { 1 } else { width }) as int, band_count as int),
        r.1 == column_end(column as int, (if width == 0 { 1 } else { width }) as int, band_count as int),
        r.0 < r.1 <= band_count,
{
    let w: usize = if width == 0 {
        1
    } else {
        width
    };
    proof {
        lemma_mul_inequality(column as int, column + 1, band_count as int);
        lemma_mul_inequality(column as int, w - 1, band_count as int);
        lemma_mul_is_distributive_add_other_way(band_count as int, w - 1, 1);
        lemma_multiply_divide_lt(column * band_count, w as int, band_count as int);
    }
    let start = column * band_count / w;
    let mut end = ((column + 1) * band_count + (w - 1)) / w;
    if end < start + 1 {
        end = start + 1;
    } else if end > band_count {
        end = band_count;
    }
    (start, end)
}

/// The columns of a screen `width` wide show every band of the wall: the
/// first column starts at the first band, the last ends after the last
/// band, and no column starts after the previous one has ended.
pub proof fn lemma_columns_cover_bands(width: int, band_count: int, column: int)
    requires
        width > 0,
        band_count > 0,
        0 <= column,
        column + 1 < width,
    ensures
        column_start(0, width, band_count) == 0,
        column_end(width - 1, width, band_count) == band_count,
        column_start(column, width, band_count) <= column_start(column + 1, width, band_count),
        column_start(column + 1, width, band_count) <= column_end(column, width, band_count),
{
    assert(0 * band_count == 0);
    lemma_div_multiples_vanish_fancy(band_count, width - 1, width);
    assert((width - 1 + 1) * band_count == width * band_count) by (nonlinear_arith);
    lemma_mul_strict_inequality(width - 1, width, band_count);
    lemma_mul_inequality(0, width - 1, band_count);
    lemma_multiply_divide_lt((width - 1) * band_count, width, band_count);
    lemma_mul_inequality(column, column + 1, band_count);
    lemma_div_is_ordered(column * band_count, (column + 1) * band_count, width);
    lemma_div_is_ordered((column + 1) * band_count, (column + 1) * band_count + (width - 1), width);
    lemma_mul_strict_inequality(column + 1, width, band_count);
    lemma_mul_inequality(0, column + 1, band_count);
    lemma_multiply_divide_lt((column + 1) * band_count, width, band_count);
}

} // verus!
