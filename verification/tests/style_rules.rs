use xlsx_sci_tblr::style::RowStyle;
use xlsx_sci_tblr::style::style_for_row;

#[test]
fn first_row_is_combined_when_header_leads() {
    // 1-based header row 1 is header index 0.
    assert_eq!(style_for_row(0, 0, 4), RowStyle::TopHeader);
}

#[test]
fn first_row_is_top_only_when_header_is_elsewhere() {
    assert_eq!(style_for_row(0, 2, 4), RowStyle::Top);
}

#[test]
fn header_row_gets_bottom_thin() {
    assert_eq!(style_for_row(2, 2, 4), RowStyle::Header);
}

#[test]
fn header_wins_over_last_row() {
    // A header row that is also the last row keeps the header styling.
    assert_eq!(style_for_row(4, 4, 4), RowStyle::Header);
}

#[test]
fn last_row_gets_bottom_medium() {
    assert_eq!(style_for_row(4, 1, 4), RowStyle::Bottom);
}

#[test]
fn interior_rows_are_plain() {
    assert_eq!(style_for_row(3, 1, 7), RowStyle::Plain);
    assert_eq!(style_for_row(5, 1, 7), RowStyle::Plain);
}

#[test]
fn single_row_table_with_leading_header() {
    // One row that is first, header and last at once: the first-plus-header
    // rule wins.
    assert_eq!(style_for_row(0, 0, 0), RowStyle::TopHeader);
}

#[test]
fn header_beyond_the_table_matches_no_row() {
    assert_eq!(style_for_row(0, 5, 2), RowStyle::Top);
    assert_eq!(style_for_row(1, 5, 2), RowStyle::Plain);
    assert_eq!(style_for_row(2, 5, 2), RowStyle::Bottom);
}

#[test]
fn three_rows_header_two() {
    // A 3-row table with the header on the second row: top, header, bottom.
    assert_eq!(style_for_row(0, 1, 2), RowStyle::Top);
    assert_eq!(style_for_row(1, 1, 2), RowStyle::Header);
    assert_eq!(style_for_row(2, 1, 2), RowStyle::Bottom);
}
