use xlsx_sci_tblr::paths::is_supported_extension;
use xlsx_sci_tblr::paths::join_path;
use xlsx_sci_tblr::paths::output_file_name;
use xlsx_sci_tblr::paths::split_file_name;
use xlsx_sci_tblr::paths::str_eq;

#[test]
fn splits_stem_and_extension() {
    let (stem, ext) = split_file_name("foo.xlsx");
    assert_eq!(stem, "foo");
    assert_eq!(ext, "xlsx");
}

#[test]
fn splits_at_the_last_dot() {
    let (stem, ext) = split_file_name("archive.tar.gz");
    assert_eq!(stem, "archive.tar");
    assert_eq!(ext, "gz");
}

#[test]
fn dotless_name_has_no_extension() {
    let (stem, ext) = split_file_name("notes");
    assert_eq!(stem, "notes");
    assert_eq!(ext, "");
}

#[test]
fn leading_dot_is_not_an_extension() {
    let (stem, ext) = split_file_name(".bashrc");
    assert_eq!(stem, ".bashrc");
    assert_eq!(ext, "");
}

#[test]
fn trailing_dot_gives_empty_extension() {
    let (stem, ext) = split_file_name("foo.");
    assert_eq!(stem, "foo");
    assert_eq!(ext, "");
}

#[test]
fn accepts_the_four_spreadsheet_extensions() {
    assert!(is_supported_extension("xlsx"));
    assert!(is_supported_extension("xls"));
    assert!(is_supported_extension("xlsm"));
    assert!(is_supported_extension("ods"));
}

#[test]
fn rejects_other_extensions() {
    assert!(!is_supported_extension("csv"));
    assert!(!is_supported_extension(""));
    assert!(!is_supported_extension("XLSX"));
    assert!(!is_supported_extension("xlsxx"));
}

#[test]
fn builds_the_output_name() {
    assert_eq!(output_file_name("foo", "xlsx"), "foo_formatted.xlsx");
}

#[test]
fn output_path_in_same_directory() {
    // An input /d/foo.xlsx comes out at /d/foo_formatted.xlsx.
    let (stem, ext) = split_file_name("foo.xlsx");
    let name = output_file_name(&stem, &ext);
    assert_eq!(join_path("/d", &name), "/d/foo_formatted.xlsx");
}

#[test]
fn join_adds_no_second_separator() {
    assert_eq!(join_path("/d/", "a.xlsx"), "/d/a.xlsx");
    assert_eq!(join_path("", "a.xlsx"), "a.xlsx");
}

#[test]
fn string_equality_by_characters() {
    assert!(str_eq("abc", "abc"));
    assert!(!str_eq("abc", "abd"));
    assert!(!str_eq("abc", "ab"));
    assert!(str_eq("", ""));
}
