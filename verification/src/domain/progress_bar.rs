//! The progress bar of a report row: a fixed number of columns, each showing
//! one glyph of a gradation from empty to full.
//!
//! A bar of `width` columns drawn with `markers + 1` glyphs has
//! `width * markers` fill units. A share of the whole lights the nearest
//! number of units, from the left: full columns first, then at most one
//! column that is partly filled, then empty columns.

use crate::domain::entity::waka_time_metrics_entity::FULL_SHARE;
use crate::text::repeated;
use vstd::arithmetic::div_mod::{
    lemma_div_is_ordered, lemma_div_multiples_vanish_fancy, lemma_fundamental_div_mod,
    lemma_fundamental_div_mod_converse,
};
use vstd::prelude::*;

verus! {

/// The number of fill units that `percent` (in hundredths of a percent)
/// lights in a bar of `width` columns with `markers` units each: the share of
/// all units, rounded to the nearest unit, halves upwards.
pub open spec fn fill_units(percent: nat, width: nat, markers: nat) -> nat {
    ((2 * percent * width * markers + 10_000) / 20_000) as nat
}

/// The fill level of one column of the bar, from `0` (empty) to `markers`
/// (full).
pub open spec fn glyph_level(percent: nat, width: nat, markers: nat, column: int) -> nat {
    if markers == 0 {
        0
    } else {
        let units = fill_units(percent, width, markers);
        if column < units / markers {
            markers
        } else if column == units / markers {
            units % markers
        } else {
            0
        }
    }
}

/// The bar that shows `percent` in `width` columns with the glyphs `glyphs`,
/// which run from empty to full.
pub open spec fn progress_bar(glyphs: Seq<char>, width: nat, percent: nat) -> Seq<char> {
    Seq::new(
        width,
        |column: int| glyphs[glyph_level(percent, width, (glyphs.len() - 1) as nat, column) as int],
    )
}

/// A larger share never lights fewer units.
pub proof fn lemma_fill_units_monotonic(lower: nat, higher: nat, width: nat, markers: nat)
    requires
        lower <= higher,
    ensures
        fill_units(lower, width, markers) <= fill_units(higher, width, markers),
{
    assert(2 * lower * width * markers <= 2 * higher * width * markers) by (nonlinear_arith)
        requires
            lower <= higher,
    ;
    lemma_div_is_ordered(
        (2 * lower * width * markers + 10_000) as int,
        (2 * higher * width * markers + 10_000) as int,
        20_000,
    );
}

/// No share lights more units than the bar has, and the whole lights all.
pub proof fn lemma_fill_units_bounds(percent: nat, width: nat, markers: nat)
    requires
        percent <= FULL_SHARE,
    ensures
        fill_units(percent, width, markers) <= width * markers,
        fill_units(0, width, markers) == 0,
        fill_units(FULL_SHARE as nat, width, markers) == width * markers,
{
    let cells: int = (width * markers) as int;
    assert(0 <= cells) by (nonlinear_arith)
        requires
            cells == width * markers,
    ;
    assert(2 * (FULL_SHARE as nat) * width * markers + 10_000 == 20_000 * cells + 10_000)
        by (nonlinear_arith)
        requires
            cells == width * markers,
            FULL_SHARE == 10_000,
    ;
    lemma_div_multiples_vanish_fancy(cells, 10_000, 20_000);
    lemma_fill_units_monotonic(percent, FULL_SHARE as nat, width, markers);
    assert(2 * 0 * width * markers + 10_000 == 10_000) by (nonlinear_arith);
}

/// Every column shows a level for which there is a glyph.
pub proof fn lemma_glyph_level_bound(percent: nat, width: nat, markers: nat, column: int)
    ensures
        glyph_level(percent, width, markers, column) <= markers,
{
}

/// The bar has exactly `width` columns.
pub proof fn lemma_progress_bar_width(glyphs: Seq<char>, width: nat, percent: nat)
    ensures
        progress_bar(glyphs, width, percent).len() == width,
{
}

/// A share of nothing draws the empty glyph in every column, and the whole
/// draws the full glyph in every column.
pub proof fn lemma_progress_bar_ends(glyphs: Seq<char>, width: nat)
    requires
        glyphs.len() >= 1,
    ensures
        progress_bar(glyphs, width, 0) == repeated(glyphs[0], width),
        progress_bar(glyphs, width, FULL_SHARE as nat) == repeated(glyphs.last(), width),
{
    let markers = (glyphs.len() - 1) as nat;
    lemma_fill_units_bounds(0, width, markers);
    if markers > 0 {
        assert(0int / (markers as int) == 0 && 0int % (markers as int) == 0) by {
            lemma_fundamental_div_mod_converse(0, markers as int, 0, 0);
        }
        let all = fill_units(FULL_SHARE as nat, width, markers);
        assert(all / markers == width && all % markers == 0) by {
            assert(all == width * markers);
            assert(width * markers == width * markers + 0);
            lemma_fundamental_div_mod_converse(all as int, markers as int, width as int, 0);
        }
    }
    assert(progress_bar(glyphs, width, 0) =~= repeated(glyphs[0], width));
    assert(progress_bar(glyphs, width, FULL_SHARE as nat) =~= repeated(glyphs.last(), width));
}

/// A larger share never lowers the level of any column: the fill of the bar
/// grows monotonically with the share.
pub proof fn lemma_progress_bar_monotonic(
    lower: nat,
    higher: nat,
    width: nat,
    markers: nat,
    column: int,
)
    requires
        lower <= higher,
    ensures
        glyph_level(lower, width, markers, column) <= glyph_level(
            higher,
            width,
            markers,
            column,
        ),
{
    if markers > 0 {
        let low = fill_units(lower, width, markers) as int;
        let high = fill_units(higher, width, markers) as int;
        let m = markers as int;
        lemma_fill_units_monotonic(lower, higher, width, markers);
        lemma_div_is_ordered(low, high, m);
        lemma_fundamental_div_mod(low, m);
        lemma_fundamental_div_mod(high, m);
        if low / m == high / m {
            assert(low % m <= high % m);
        }
    }
}

/// A larger share never draws fewer full columns.
pub proof fn lemma_full_columns_monotonic(lower: nat, higher: nat, width: nat, markers: nat)
    requires
        lower <= higher,
        markers > 0,
    ensures
        fill_units(lower, width, markers) / markers <= fill_units(higher, width, markers)
            / markers,
{
    lemma_fill_units_monotonic(lower, higher, width, markers);
    lemma_div_is_ordered(
        fill_units(lower, width, markers) as int,
        fill_units(higher, width, markers) as int,
        markers as int,
    );
}

/// The number of fill units lit by `percent`, computed without overflow.
fn count_units(percent: u32, width: usize, markers: usize) -> (units: u128)
    requires
        percent <= FULL_SHARE,
    ensures
        units == fill_units(percent as nat, width as nat, markers as nat),
        units <= width * markers,
{
    assert(0 <= width * markers <= 0xFFFF_FFFF_FFFF_FFFF * 0xFFFF_FFFF_FFFF_FFFF)
        by (nonlinear_arith)
        requires
            0 <= width <= 0xFFFF_FFFF_FFFF_FFFF,
            0 <= markers <= 0xFFFF_FFFF_FFFF_FFFF,
    ;
    let cells: u128 = (width as u128) * (markers as u128);
    let whole: u128 = cells / 10_000;
    let rest: u128 = cells % 10_000;
    let share: u128 = percent as u128;
    assert(share * whole <= cells && 0 <= share * rest <= 10_000 * 10_000) by (nonlinear_arith)
        requires
            0 <= share <= 10_000,
            cells == 10_000 * whole + rest,
            0 <= rest < 10_000,
            0 <= whole,
    ;
    let tail: u128 = (2 * (share * rest) + 10_000) / 20_000;
    let units: u128 = share * whole + tail;
    proof {
        let numerator: int = 2 * (share * rest) + 10_000;
        lemma_fundamental_div_mod(numerator, 20_000);
        assert(2 * (percent as nat) * (width as nat) * (markers as nat) + 10_000 == (share * whole
            + tail) * 20_000 + numerator % 20_000) by (nonlinear_arith)
            requires
                cells == width * markers,
                cells == 10_000 * whole + rest,
                share == percent,
                numerator == 2 * (share * rest) + 10_000,
                numerator == 20_000 * (numerator / 20_000) + numerator % 20_000,
                tail == numerator / 20_000,
        ;
        lemma_fundamental_div_mod_converse(
            (2 * (percent as nat) * (width as nat) * (markers as nat) + 10_000) as int,
            20_000,
            (share * whole + tail) as int,
            numerator % 20_000,
        );
        lemma_fill_units_bounds(percent as nat, width as nat, markers as nat);
    }
    units
}

/// Draws the bar that shows `percent` in `width` columns with the glyphs of
/// `block_style`.
pub fn draw_progress_bar(block_style: &str, width: usize, percent: u32) -> (bar: String)
    requires
        block_style@.len() >= 1,
        percent <= FULL_SHARE,
    ensures
        bar@ == progress_bar(block_style@, width as nat, percent as nat),
        bar@.len() == width,
{
    let markers: usize = block_style.unicode_len() - 1;
    let empty = block_style.substring_char(0, 1);
    let mut bar = String::from_str("");
    proof {
        reveal_strlit("");
    }
    if markers == 0 {
        crate::text::push_repeated(&mut bar, empty, width);
        assert(bar@ =~= progress_bar(block_style@, width as nat, percent as nat));
        return bar;
    }
    let units: u128 = count_units(percent, width, markers);
    let full_columns: u128 = units / (markers as u128);
    let part: u128 = units % (markers as u128);
    proof {
        lemma_fundamental_div_mod(units as int, markers as int);
        assert(full_columns <= width && (part > 0 ==> full_columns < width)) by (nonlinear_arith)
            requires
                units == markers * full_columns + part,
                units <= width * markers,
                0 <= part < markers,
                0 <= full_columns,
                0 <= width,
        ;
    }
    let full = block_style.substring_char(markers, markers + 1);
    crate::text::push_repeated(&mut bar, full, full_columns as usize);
    let mut drawn: usize = full_columns as usize;
    if part > 0 {
        let level: usize = part as usize;
        bar.append(block_style.substring_char(level, level + 1));
        drawn = drawn + 1;
    }
    crate::text::push_repeated(&mut bar, empty, width - drawn);
    assert(bar@ =~= progress_bar(block_style@, width as nat, percent as nat));
    bar
}

} // verus!
