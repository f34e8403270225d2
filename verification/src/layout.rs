//! Row layout: how many bytes fit on one row of the viewport, and how
//! many rows the whole file takes at that width.

use vstd::prelude::*;

verus! {

/// Columns reserved on the left of every row for the address label.
pub const GUTTER_WIDTH: u16 = 20;

/// How many bytes fit on one row: each byte takes two hex digit columns
/// plus one separator column, and `gutter` columns are reserved for the
/// address label. A viewport no wider than the gutter has no renderable
/// columns at all and lays out zero bytes per row; any wider viewport
/// lays out at least one.
pub open spec fn layout_bytes_per_row(cols: int, gutter: int) -> int {
    if cols <= gutter {
        0
    } else if (cols - gutter + 1) / 3 < 1 {
        1
    } else {
        (cols - gutter + 1) / 3
    }
}

/// How many rows of `bpr` bytes hold `len` bytes: `ceil(len / bpr)`,
/// and zero for the degenerate zero-width layout.
pub open spec fn row_count(len: int, bpr: int) -> int {
    if bpr <= 0 {
        0
    } else if len % bpr == 0 {
        len / bpr
    } else {
        len / bpr + 1
    }
}

/// The largest legal row offset: the index of the last row, or zero
/// when there are no rows at all.
pub open spec fn max_row_offset(len: int, bpr: int) -> int {
    if row_count(len, bpr) == 0 {
        0
    } else {
        row_count(len, bpr) - 1
    }
}

/// Bytes per row for a viewport `viewport_cols` wide with a
/// `gutter_width`-column address gutter.
pub fn compute_layout(viewport_cols: u16, gutter_width: u16) -> (bpr: u16)
    ensures
        bpr == layout_bytes_per_row(viewport_cols as int, gutter_width as int),
{
    if viewport_cols <= gutter_width {
        0
    } else {
        let usable: u32 = (viewport_cols - gutter_width) as u32;
        let bpr: u32 = (usable + 1) / 3;
        if bpr < 1 {
            1
        } else {
            bpr as u16
        }
    }
}

/// Rows needed for `length` bytes at `bytes_per_row` bytes each.
pub fn total_rows(length: u64, bytes_per_row: u16) -> (r: u64)
    ensures
        r == row_count(length as int, bytes_per_row as int),
{
    if bytes_per_row == 0 {
        0
    } else {
        let bpr: u64 = bytes_per_row as u64;
        if length % bpr == 0 {
            length / bpr
        } else {
            proof {
                // A remainder exists only for a divisor of two or more,
                // so the quotient leaves room for the carry row.
                vstd::arithmetic::div_mod::lemma_div_is_ordered_by_denominator(
                    length as int,
                    2,
                    bpr as int,
                );
            }
            length / bpr + 1
        }
    }
}

/// The largest legal row offset for `length` bytes at `bytes_per_row`.
pub fn compute_max_row_offset(length: u64, bytes_per_row: u16) -> (r: u64)
    ensures
        r == max_row_offset(length as int, bytes_per_row as int),
{
    let total: u64 = total_rows(length, bytes_per_row);
    if total == 0 {
        0
    } else {
        total - 1
    }
}

/// Law: a viewport wider than the gutter always fits at least one byte
/// per row, and widening the viewport never shrinks the layout.
pub proof fn lemma_layout_positive_monotone(cols1: int, cols2: int, gutter: int)
    requires
        gutter < cols1 <= cols2,
    ensures
        1 <= layout_bytes_per_row(cols1, gutter),
        layout_bytes_per_row(cols1, gutter) <= layout_bytes_per_row(cols2, gutter),
{
    vstd::arithmetic::div_mod::lemma_div_is_ordered(
        cols1 - gutter + 1,
        cols2 - gutter + 1,
        3,
    );
}

/// Law: `row_count` is the exact ceiling of `len / bpr`: the rows hold
/// the whole file, and every row but possibly the last is full, so one
/// row fewer would not hold it.
pub proof fn lemma_row_count_bounds(len: int, bpr: int)
    requires
        0 <= len,
        1 <= bpr,
    ensures
        row_count(len, bpr) * bpr >= len,
        (row_count(len, bpr) - 1) * bpr < len,
{
    vstd::arithmetic::div_mod::lemma_fundamental_div_mod(len, bpr);
    vstd::arithmetic::div_mod::lemma_mod_bound(len, bpr);
    let q = len / bpr;
    let m = len % bpr;
    assert(len == bpr * q + m);
    assert(0 <= m < bpr);
    if m == 0 {
        assert(row_count(len, bpr) == q);
        assert(q * bpr >= len && (q - 1) * bpr < len) by (nonlinear_arith)
            requires
                len == bpr * q,
                1 <= bpr,
        ;
    } else {
        assert(row_count(len, bpr) == q + 1);
        assert((q + 1) * bpr >= len && q * bpr < len) by (nonlinear_arith)
            requires
                len == bpr * q + m,
                0 < m < bpr,
        ;
    }
}

} // verus!
