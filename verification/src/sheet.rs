//! Emitting a table into a worksheet of the workbook writer. Each row is
//! written with the format its position calls for; the worksheet's contents
//! are modelled by spec-level maps from row index to what was written, and a
//! workbook by the sequence of worksheets it holds.

use vstd::prelude::*;
use vstd::string::StringExecFns;
use crate::style::RowStyle;
use crate::style::border_weights;
use crate::style::style_for_row;
use crate::style::style_spec;
use crate::table::Table;
use crate::FormatError;

verus! {

#[verifier::external_type_specification]
#[verifier::external_body]
pub struct ExWorksheet(rust_xlsxwriter::Worksheet);

#[verifier::external_type_specification]
#[verifier::external_body]
pub struct ExWorkbook(rust_xlsxwriter::Workbook);

#[verifier::external_type_specification]
#[verifier::external_body]
pub struct ExFormat(rust_xlsxwriter::Format);

#[verifier::external_type_specification]
#[verifier::external_body]
pub struct ExXlsxError(rust_xlsxwriter::XlsxError);

/// The cell texts a worksheet holds, as a map from row index to the texts of
/// that row's cells, leftmost first.
pub uninterp spec fn sheet_texts(ws: rust_xlsxwriter::Worksheet) -> Map<int, Seq<Seq<char>>>;

/// The borders of each written row of a worksheet, as a map from row index to
/// the (top, bottom) border weight of its cells: 0 none, 1 thin, 2 medium.
pub uninterp spec fn sheet_borders(ws: rust_xlsxwriter::Worksheet) -> Map<int, (u8, u8)>;

/// Whether the cells of each written row of a worksheet carry a format that
/// is centered both ways, as a map from row index to that fact.
pub uninterp spec fn sheet_centered(ws: rust_xlsxwriter::Worksheet) -> Map<int, bool>;

/// The (top, bottom) border weights a cell format carries: 0 none, 1 thin, 2
/// medium.
pub uninterp spec fn format_borders(f: rust_xlsxwriter::Format) -> (u8, u8);

/// Whether a cell format is centered both ways: horizontal alignment Center
/// and vertical alignment VerticalCenter.
pub uninterp spec fn format_is_centered(f: rust_xlsxwriter::Format) -> bool;

/// The worksheets a workbook holds, in order.
pub uninterp spec fn workbook_sheets(wb: rust_xlsxwriter::Workbook) -> Seq<
    rust_xlsxwriter::Worksheet,
>;

/// The workbook writer accepts the whole table: its sheet holds at most
/// 1048576 rows of at most 16384 cells, and a cell text at most 32767
/// characters.
pub open spec fn within_sheet_limits(t: Table) -> bool {
    &&& t.row_index < 1048576
    &&& t.column_index < 16384
    &&& forall|i: int, j: int|
        0 <= i <= t.row_index && 0 <= j <= t.column_index ==> (#[trigger] t.cells@[i]@[j])@.len()
            <= 32767
}

/// Relies on rust_xlsxwriter::Worksheet::new: a fresh worksheet holds no
/// cells.
#[verifier::external_body]
fn new_worksheet() -> (ws: rust_xlsxwriter::Worksheet)
    ensures
        sheet_texts(ws) =~= Map::empty(),
        sheet_borders(ws) =~= Map::empty(),
        sheet_centered(ws) =~= Map::empty(),
{
    rust_xlsxwriter::Worksheet::new()
}

/// Relies on rust_xlsxwriter::Format::new: a fresh format carries no borders.
#[verifier::external_body]
fn new_format() -> (f: rust_xlsxwriter::Format)
    ensures
        format_borders(f) == (0u8, 0u8),
{
    rust_xlsxwriter::Format::new()
}

/// Relies on rust_xlsxwriter::Format::set_align: it sets the horizontal
/// alignment for Center and the vertical one for VerticalCenter, and leaves
/// the borders untouched.
#[verifier::external_body]
fn format_centered(f: rust_xlsxwriter::Format) -> (r: rust_xlsxwriter::Format)
    ensures
        format_borders(r) == format_borders(f),
        format_is_centered(r),
{
    f.set_align(rust_xlsxwriter::FormatAlign::Center).set_align(
        rust_xlsxwriter::FormatAlign::VerticalCenter,
    )
}

/// Relies on rust_xlsxwriter::Format::set_border_top: it sets the top border
/// style alone; FormatBorder::Medium is border weight 2.
#[verifier::external_body]
fn format_top_medium(f: rust_xlsxwriter::Format) -> (r: rust_xlsxwriter::Format)
    ensures
        format_borders(r) == (2u8, format_borders(f).1),
        format_is_centered(r) == format_is_centered(f),
{
    f.set_border_top(rust_xlsxwriter::FormatBorder::Medium)
}

/// Relies on rust_xlsxwriter::Format::set_border_bottom: it sets the bottom
/// border style alone; FormatBorder::Thin is border weight 1.
#[verifier::external_body]
fn format_bottom_thin(f: rust_xlsxwriter::Format) -> (r: rust_xlsxwriter::Format)
    ensures
        format_borders(r) == (format_borders(f).0, 1u8),
        format_is_centered(r) == format_is_centered(f),
{
    f.set_border_bottom(rust_xlsxwriter::FormatBorder::Thin)
}

/// Relies on rust_xlsxwriter::Format::set_border_bottom: it sets the bottom
/// border style alone; FormatBorder::Medium is border weight 2.
#[verifier::external_body]
fn format_bottom_medium(f: rust_xlsxwriter::Format) -> (r: rust_xlsxwriter::Format)
    ensures
        format_borders(r) == (format_borders(f).0, 2u8),
        format_is_centered(r) == format_is_centered(f),
{
    f.set_border_bottom(rust_xlsxwriter::FormatBorder::Medium)
}

/// Relies on rust_xlsxwriter::Worksheet::write_row_with_format: on success it
/// writes the given strings (at least one) into the still-empty row `row`,
/// starting at column 0, all of them with the given format, and leaves every
/// other row as it was; an empty text becomes a blank cell that still carries
/// the format. It fails only on a row index at or past 1048576, more than
/// 16384 cells, or a cell text over 32767 characters.
#[verifier::external_body]
fn write_row_formatted(
    ws: &mut rust_xlsxwriter::Worksheet,
    row: u32,
    cells: &Vec<String>,
    f: &rust_xlsxwriter::Format,
) -> (r: Result<(), rust_xlsxwriter::XlsxError>)
    requires
        !sheet_texts(*old(ws)).contains_key(row as int),
        cells@.len() >= 1,
    ensures
        r is Ok ==> sheet_texts(*final(ws)) == sheet_texts(*old(ws)).insert(
            row as int,
            cells.deep_view(),
        ),
        r is Ok ==> sheet_borders(*final(ws)) == sheet_borders(*old(ws)).insert(
            row as int,
            format_borders(*f),
        ),
        r is Ok ==> sheet_centered(*final(ws)) == sheet_centered(*old(ws)).insert(
            row as int,
            format_is_centered(*f),
        ),
        row < 1048576 && cells@.len() <= 16384 && (forall|j: int|
            0 <= j < cells@.len() ==> (#[trigger] cells@[j])@.len() <= 32767) ==> r is Ok,
{
    match ws.write_row_with_format(row, 0, cells, f) {
        Ok(_) => Ok(()),
        Err(e) => Err(e),
    }
}

/// Relies on the Display impl of rust_xlsxwriter::XlsxError for the wording
/// of a write failure's diagnostic text.
#[verifier::external_body]
fn xlsx_error_text(e: &rust_xlsxwriter::XlsxError) -> (s: String) {
    format!("{e}")
}

/// Relies on rust_xlsxwriter::Workbook::new: a fresh workbook holds no
/// worksheets.
#[verifier::external_body]
fn new_workbook() -> (wb: rust_xlsxwriter::Workbook)
    ensures
        workbook_sheets(wb) =~= Seq::empty(),
{
    rust_xlsxwriter::Workbook::new()
}

/// Relies on rust_xlsxwriter::Workbook::push_worksheet: it appends the sheet,
/// giving an unnamed one a fresh name; the naming touches neither the cells
/// of the appended sheet nor the sheets already there.
#[verifier::external_body]
fn push_sheet(wb: &mut rust_xlsxwriter::Workbook, ws: rust_xlsxwriter::Worksheet)
    ensures
        workbook_sheets(*final(wb)).len() == workbook_sheets(*old(wb)).len() + 1,
        forall|k: int|
            0 <= k < workbook_sheets(*old(wb)).len() ==> #[trigger] workbook_sheets(*final(wb))[k]
                == workbook_sheets(*old(wb))[k],
        sheet_texts(workbook_sheets(*final(wb)).last()) == sheet_texts(ws),
        sheet_borders(workbook_sheets(*final(wb)).last()) == sheet_borders(ws),
        sheet_centered(workbook_sheets(*final(wb)).last()) == sheet_centered(ws),
{
    wb.push_worksheet(ws);
}

/// Builds the cell format that renders a row styling: centered both ways,
/// with exactly the borders the styling calls for.
fn format_for(style: RowStyle) -> (f: rust_xlsxwriter::Format)
    ensures
        format_borders(f) == border_weights(style),
        format_is_centered(f),
{
    let base = format_centered(new_format());
    match style {
        RowStyle::TopHeader => format_bottom_thin(format_top_medium(base)),
        RowStyle::Top => format_top_medium(base),
        RowStyle::Header => format_bottom_thin(base),
        RowStyle::Bottom => format_bottom_medium(base),
        RowStyle::Plain => base,
    }
}

/// Writes every row of the table into a fresh worksheet. On success the
/// worksheet holds exactly the table's rows: row `i` carries the table's row
/// `i` verbatim, written with a centered format that carries the borders its
/// position calls for. A table within the writer's sheet limits is always
/// written successfully.
pub fn render_table(t: &Table) -> (r: Result<rust_xlsxwriter::Worksheet, FormatError>)
    requires
        t.wf(),
    ensures
        within_sheet_limits(*t) ==> r is Ok,
        match r {
            Ok(ws) => {
                &&& sheet_texts(ws).dom() =~= Set::new(|k: int| 0 <= k <= t.row_index)
                &&& forall|i: int|
                    0 <= i <= t.row_index ==> #[trigger] sheet_texts(ws)[i]
                        == t.cells@[i].deep_view()
                &&& forall|i: int|
                    0 <= i <= t.row_index ==> #[trigger] sheet_borders(ws)[i] == border_weights(
                        style_spec(i, t.header as int, t.row_index as int),
                    )
                &&& forall|i: int| 0 <= i <= t.row_index ==> #[trigger] sheet_centered(ws)[i]
            },
            Err(e) => e is WriteFailed,
        },
{
    let mut ws = new_worksheet();
    let last = t.row_index;
    let nrows = t.cells.len();
    let mut i: usize = 0;
    while i <= last
        invariant
            t.wf(),
            last == t.row_index,
            i <= last + 1,
            nrows == last + 1,
            sheet_texts(ws).dom() =~= Set::new(|k: int| 0 <= k < i),
            sheet_borders(ws).dom() =~= Set::new(|k: int| 0 <= k < i),
            forall|k: int| 0 <= k < i ==> #[trigger] sheet_texts(ws)[k] == t.cells@[k].deep_view(),
            forall|k: int|
                0 <= k < i ==> #[trigger] sheet_borders(ws)[k] == border_weights(
                    style_spec(k, t.header as int, last as int),
                ),
            forall|k: int| 0 <= k < i ==> #[trigger] sheet_centered(ws)[k],
        decreases last + 1 - i,
    {
        let style = style_for_row(i, t.header, last);
        let f = format_for(style);
        let row = match u32::try_from(i) {
            Ok(x) => x,
            Err(_) => {
                proof {
                    assert(i > u32::MAX);
                }
                return Err(
                    FormatError::WriteFailed(
                        String::from_str("row index exceeds the workbook writer's range"),
                    ),
                );
            },
        };
        match write_row_formatted(&mut ws, row, &t.cells[i], &f) {
            Ok(_) => {
                proof {
                    assert(sheet_texts(ws).dom() =~= Set::new(|k: int| 0 <= k < i + 1));
                    assert(sheet_borders(ws).dom() =~= Set::new(|k: int| 0 <= k < i + 1));
                }
            },
            Err(e) => {
                proof {
                    if within_sheet_limits(*t) {
                        assert(row as int == i as int);
                        assert(t.cells@[i as int]@.len() == t.column_index + 1);
                        assert forall|j: int| 0 <= j < t.cells@[i as int]@.len() implies (
                        #[trigger] t.cells@[i as int]@[j])@.len() <= 32767 by {
                            assert((t.cells@[i as int]@[j])@.len() <= 32767);
                        }
                        assert(false);
                    }
                }
                return Err(FormatError::WriteFailed(xlsx_error_text(&e)));
            },
        }
        i += 1;
    }
    Ok(ws)
}

/// Wraps a finished worksheet in a workbook of its own, ready to be saved:
/// the workbook holds exactly that one sheet.
pub fn into_workbook(ws: rust_xlsxwriter::Worksheet) -> (wb: rust_xlsxwriter::Workbook)
    ensures
        workbook_sheets(wb).len() == 1,
        sheet_texts(workbook_sheets(wb)[0]) == sheet_texts(ws),
        sheet_borders(workbook_sheets(wb)[0]) == sheet_borders(ws),
        sheet_centered(workbook_sheets(wb)[0]) == sheet_centered(ws),
{
    let mut wb = new_workbook();
    push_sheet(&mut wb, ws);
    wb
}

} // verus!
