use xlsx_sci_tblr::FormatError;
use xlsx_sci_tblr::format_table;
use xlsx_sci_tblr::table::build_table;

fn texts(v: &[&str]) -> Vec<String> {
    v.iter().map(|s| s.to_string()).collect()
}

#[test]
fn groups_row_major_texts() {
    let t = build_table(texts(&["a", "b", "c", "d", "e", "f"]), 3, 2, 2);
    assert_eq!(t.row_index, 2);
    assert_eq!(t.column_index, 1);
    assert_eq!(t.header, 1);
    assert_eq!(t.cells, vec![vec!["a", "b"], vec!["c", "d"], vec!["e", "f"]]);
}

#[test]
fn single_cell_table() {
    let t = build_table(texts(&["only"]), 1, 1, 1);
    assert_eq!(t.cells, vec![vec!["only"]]);
    assert_eq!(t.header, 0);
}

#[test]
fn unsupported_extension_is_refused() {
    // The unsupported extension is reported before any workbook is built.
    let r = format_table("foo.csv", 1, texts(&["a"]), 1, 1);
    assert!(matches!(r, Err(FormatError::UnsupportedExtension)));
}

#[test]
fn missing_extension_is_refused() {
    let r = format_table("foo", 1, texts(&["a"]), 1, 1);
    assert!(matches!(r, Err(FormatError::UnsupportedExtension)));
}

#[test]
fn oversized_cell_text_fails_the_writer() {
    // The workbook writer refuses strings over its 32767-character limit.
    let huge = "x".repeat(40000);
    let r = format_table("big.xlsx", 1, vec![huge], 1, 1);
    match r {
        Err(FormatError::WriteFailed(msg)) => assert!(!msg.is_empty()),
        _ => panic!("expected a write failure"),
    }
}

#[test]
fn cell_text_at_the_writer_limit_is_accepted() {
    // 32767 characters is the longest cell text the writer takes.
    let edge = "y".repeat(32767);
    let r = format_table("edge.xlsx", 1, vec![edge], 1, 1);
    assert!(r.is_ok());
}

#[test]
fn error_describes_itself() {
    let e = FormatError::UnsupportedExtension;
    assert_eq!(e.describe(), "unsupported file extension");
}
