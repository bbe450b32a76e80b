//! The per-row styling rules: each row of the table receives exactly one of
//! five border stylings, decided by its position relative to the first row,
//! the header row and the last row.

use vstd::prelude::*;

verus! {

/// The five row stylings. All of them are center-aligned; they differ only in
/// which borders they carry.
#[derive(Clone, Copy, Debug, PartialEq, Eq, Structural)]
pub enum RowStyle {
    /// Top-medium and bottom-thin border: the first row when it is also the
    /// header row.
    TopHeader,
    /// Top-medium border only: the first row when the header row is elsewhere.
    Top,
    /// Bottom-thin border only: the header row.
    Header,
    /// Bottom-medium border only: the last row.
    Bottom,
    /// No border: any interior row.
    Plain,
}

/// The (top, bottom) border weights of a styling: 0 is no border, 1 a thin
/// border, 2 a medium border.
pub open spec fn border_weights(s: RowStyle) -> (u8, u8) {
    match s {
        RowStyle::TopHeader => (2u8, 1u8),
        RowStyle::Top => (2u8, 0u8),
        RowStyle::Header => (0u8, 1u8),
        RowStyle::Bottom => (0u8, 2u8),
        RowStyle::Plain => (0u8, 0u8),
    }
}

/// The styling a row receives, given its index, the header row's index and
/// the last row's index (all zero-based). The rules are tried in this order:
/// first row that is also the header; first row; header row; last row;
/// interior row.
pub open spec fn style_spec(row: int, header: int, last: int) -> RowStyle {
    if row == 0 && header == 0 {
        RowStyle::TopHeader
    } else if row == 0 {
        RowStyle::Top
    } else if row == header {
        RowStyle::Header
    } else if row == last {
        RowStyle::Bottom
    } else {
        RowStyle::Plain
    }
}

/// Selects the styling of one row by the fixed precedence rules.
pub fn style_for_row(row: usize, header: usize, last: usize) -> (s: RowStyle)
    ensures
        s == style_spec(row as int, header as int, last as int),
{
    if row == 0 && header == 0 {
        RowStyle::TopHeader
    } else if row == 0 {
        RowStyle::Top
    } else if row == header {
        RowStyle::Header
    } else if row == last {
        RowStyle::Bottom
    } else {
        RowStyle::Plain
    }
}

/// Law: the first row always receives a top-medium border, and it receives a
/// bottom-thin border exactly when it is itself the header row (header index
/// 0, that is, a 1-based header row number of 1).
pub proof fn lemma_first_row_border(header: int, last: int)
    ensures
        border_weights(style_spec(0, header, last)).0 == 2,
        border_weights(style_spec(0, header, last)).1 == 1 <==> header == 0,
{
}

/// Law: a header row that is not the first row receives exactly a bottom-thin
/// border and no top border, while the first row then carries no bottom
/// border. This holds even when the header row is also the last row: the
/// header rule takes precedence over the last-row rule.
pub proof fn lemma_header_row_border(header: int, last: int)
    requires
        1 <= header <= last,
    ensures
        border_weights(style_spec(header, header, last)) == (0u8, 1u8),
        border_weights(style_spec(0, header, last)).1 == 0,
{
}

/// Law: the last row receives a bottom-medium border unless it coincides with
/// the first row or with the header row, which take precedence and never
/// carry a bottom-medium border.
pub proof fn lemma_last_row_border(header: int, last: int)
    requires
        0 <= last,
    ensures
        last != 0 && last != header ==> border_weights(style_spec(last, header, last)) == (
            0u8,
            2u8,
        ),
        last == 0 || last == header ==> border_weights(style_spec(last, header, last)).1 != 2,
{
}

} // verus!
