//! Restyles a spreadsheet table: the cell text is kept verbatim while each
//! row receives a border styling decided by its position (first row, header
//! row, last row, interior row), and the result is emitted as a new workbook
//! whose file name carries a `_formatted` suffix.

use vstd::prelude::*;
use vstd::string::StringExecFns;

pub mod paths;
pub mod sheet;
pub mod style;
pub mod table;

use crate::paths::ext_of;
use crate::paths::is_supported_extension;
use crate::paths::output_file_name;
use crate::paths::output_name_spec;
use crate::paths::split_file_name;
use crate::paths::stem_of;
use crate::paths::supported_ext_spec;
use crate::sheet::render_table;
use crate::sheet::sheet_borders;
use crate::sheet::sheet_centered;
use crate::sheet::sheet_texts;
use crate::sheet::within_sheet_limits;
use crate::style::border_weights;
use crate::style::style_spec;
use crate::table::build_table;

verus! {

/// Why a table could not be formatted.
#[derive(Debug)]
pub enum FormatError {
    /// The input file's extension is not one of the accepted spreadsheet
    /// extensions.
    UnsupportedExtension,
    /// The workbook writer refused a row, carrying its diagnostic text.
    WriteFailed(String),
}

impl FormatError {
    /// The diagnostic text of this error.
    pub open spec fn message_spec(self) -> Seq<char> {
        match self {
            FormatError::UnsupportedExtension => "unsupported file extension"@,
            FormatError::WriteFailed(s) => s@,
        }
    }

    /// Renders the error as a diagnostic text.
    pub fn describe(&self) -> (r: String)
        ensures
            r@ == self.message_spec(),
    {
        match self {
            FormatError::UnsupportedExtension => String::from_str("unsupported file extension"),
            FormatError::WriteFailed(s) => s.clone(),
        }
    }
}

/// Reformats one table read from the named file: validates the file's
/// extension, groups the flat, row-major cell texts into a table of the given
/// dimensions, and renders every row into a fresh worksheet, centered, with
/// the borders its position calls for. On success it returns the worksheet
/// together with the output file name `<stem>_formatted.<ext>`; the cell text
/// comes through verbatim. A supported file whose table is within the
/// writer's sheet limits is always formatted successfully.
pub fn format_table(file_name: &str, header_row: usize, texts: Vec<String>, rows: usize, cols: usize) -> (r:
    Result<(rust_xlsxwriter::Worksheet, String), FormatError>)
    requires
        1 <= header_row,
        1 <= rows,
        1 <= cols,
        texts@.len() == rows * cols,
    ensures
        supported_ext_spec(ext_of(file_name@)) && rows <= 1048576 && cols <= 16384 && (forall|k: int|
            0 <= k < texts@.len() ==> (#[trigger] texts@[k])@.len() <= 32767) ==> r is Ok,
        match r {
            Ok(p) => {
                &&& supported_ext_spec(ext_of(file_name@))
                &&& p.1@ == output_name_spec(stem_of(file_name@), ext_of(file_name@))
                &&& sheet_texts(p.0).dom() =~= Set::new(|k: int| 0 <= k < rows)
                &&& forall|i: int|
                    0 <= i < rows ==> (#[trigger] sheet_texts(p.0)[i]).len() == cols
                &&& forall|i: int, j: int|
                    0 <= i < rows && 0 <= j < cols ==> #[trigger] sheet_texts(p.0)[i][j]
                        == texts@[i * cols + j]@
                &&& forall|i: int|
                    0 <= i < rows ==> #[trigger] sheet_borders(p.0)[i] == border_weights(
                        style_spec(i, header_row - 1, rows - 1),
                    )
                &&& forall|i: int| 0 <= i < rows ==> #[trigger] sheet_centered(p.0)[i]
            },
            Err(e) => match e {
                FormatError::UnsupportedExtension => !supported_ext_spec(ext_of(file_name@)),
                FormatError::WriteFailed(_) => supported_ext_spec(ext_of(file_name@)),
            },
        },
{
    let (stem, ext) = split_file_name(file_name);
    if !is_supported_extension(ext.as_str()) {
        return Err(FormatError::UnsupportedExtension);
    }
    let ghost flat = texts@;
    let t = build_table(texts, rows, cols, header_row);
    proof {
        if rows <= 1048576 && cols <= 16384 && (forall|k: int|
            0 <= k < flat.len() ==> (#[trigger] flat[k])@.len() <= 32767) {
            assert forall|i: int, j: int|
                0 <= i <= t.row_index && 0 <= j <= t.column_index implies (
            #[trigger] t.cells@[i]@[j])@.len() <= 32767 by {
                assert(0 <= i * cols + j < rows * cols) by (nonlinear_arith)
                    requires
                        0 <= i < rows,
                        0 <= j < cols,
                ;
                assert(t.cells@[i]@[j] == flat[i * cols + j]);
            }
            assert(within_sheet_limits(t));
        }
    }
    let out = output_file_name(stem.as_str(), ext.as_str());
    match render_table(&t) {
        Ok(ws) => Ok((ws, out)),
        Err(e) => Err(e),
    }
}

} // verus!
