//! Trusted declarations of the spreadsheet writer's types, and thin
//! wrappers around the calls the template builder makes. Each wrapper's
//! body only makes the named call and converts its arguments and result;
//! nothing about the workbook's contents is claimed — the writer is a
//! collaborator whose output this library does not model.

use vstd::prelude::*;

verus! {

#[verifier::external_type_specification]
#[verifier::external_body]
pub struct ExWorkbook(rust_xlsxwriter::Workbook);

#[verifier::external_type_specification]
#[verifier::external_body]
pub struct ExWorksheet(rust_xlsxwriter::Worksheet);

#[verifier::external_type_specification]
#[verifier::external_body]
pub struct ExFormat(rust_xlsxwriter::Format);

#[verifier::external_type_specification]
#[verifier::external_body]
pub struct ExExcelDateTime(rust_xlsxwriter::ExcelDateTime);

#[verifier::external_type_specification]
#[verifier::external_body]
pub struct ExDocProperties(rust_xlsxwriter::DocProperties);

/// Relies on `Workbook::new`: an empty in-memory workbook.
#[verifier::external_body]
pub(crate) fn wb_new() -> rust_xlsxwriter::Workbook {
    rust_xlsxwriter::Workbook::new()
}

/// Relies on `Worksheet::new`: an empty worksheet not yet in any workbook.
#[verifier::external_body]
pub(crate) fn ws_new() -> rust_xlsxwriter::Worksheet {
    rust_xlsxwriter::Worksheet::new()
}

/// Relies on `Workbook::push_worksheet`: appends the sheet to the workbook.
#[verifier::external_body]
pub(crate) fn wb_push_worksheet(wb: &mut rust_xlsxwriter::Workbook, ws: rust_xlsxwriter::Worksheet) {
    wb.push_worksheet(ws);
}

/// Relies on `Workbook::save_to_buffer`: serializes the workbook to bytes.
#[verifier::external_body]
pub(crate) fn wb_save_to_buffer(wb: &mut rust_xlsxwriter::Workbook) -> Result<Vec<u8>, String> {
    wb.save_to_buffer().map_err(|e| e.to_string())
}

/// Relies on `Workbook::set_properties`: sets the document metadata.
#[verifier::external_body]
pub(crate) fn wb_set_properties(
    wb: &mut rust_xlsxwriter::Workbook,
    properties: &rust_xlsxwriter::DocProperties,
) {
    wb.set_properties(properties);
}

/// Relies on `Worksheet::set_name`: names the sheet; the writer refuses
/// names Excel refuses.
#[verifier::external_body]
pub(crate) fn ws_set_name(ws: &mut rust_xlsxwriter::Worksheet, name: &str) -> Result<(), String> {
    ws.set_name(name).map(|_| ()).map_err(|e| e.to_string())
}

/// Relies on `Worksheet::write_string`: puts a string in one cell.
#[verifier::external_body]
pub(crate) fn ws_write_string(
    ws: &mut rust_xlsxwriter::Worksheet,
    row: u32,
    col: u16,
    value: &str,
) -> Result<(), String> {
    ws.write_string(row, col, value).map(|_| ()).map_err(|e| e.to_string())
}

/// Relies on `Worksheet::merge_range`: writes a string over a merged
/// rectangle with a format; the writer refuses single-cell or ill-ordered
/// ranges and overlaps with earlier merges.
#[verifier::external_body]
pub(crate) fn ws_merge_range(
    ws: &mut rust_xlsxwriter::Worksheet,
    first_row: u32,
    first_col: u16,
    last_row: u32,
    last_col: u16,
    value: &str,
    format: &rust_xlsxwriter::Format,
) -> Result<(), String> {
    ws.merge_range(first_row, first_col, last_row, last_col, value, format).map(|_| ()).map_err(
        |e| e.to_string(),
    )
}

/// Relies on `Worksheet::set_cell_format`: formats one cell.
#[verifier::external_body]
pub(crate) fn ws_set_cell_format(
    ws: &mut rust_xlsxwriter::Worksheet,
    row: u32,
    col: u16,
    format: &rust_xlsxwriter::Format,
) -> Result<(), String> {
    ws.set_cell_format(row, col, format).map(|_| ()).map_err(|e| e.to_string())
}

/// Relies on `Worksheet::set_column_width`, which takes the width in
/// character units; a `u16` converts losslessly into its argument.
#[verifier::external_body]
pub(crate) fn ws_set_column_width(
    ws: &mut rust_xlsxwriter::Worksheet,
    col: u16,
    width: u16,
) -> Result<(), String> {
    ws.set_column_width(col, width).map(|_| ()).map_err(|e| e.to_string())
}

/// Relies on `Worksheet::set_row_height`, which takes the height in
/// character units; a `u16` converts losslessly into its argument.
#[verifier::external_body]
pub(crate) fn ws_set_row_height(
    ws: &mut rust_xlsxwriter::Worksheet,
    row: u32,
    height: u16,
) -> Result<(), String> {
    ws.set_row_height(row, height).map(|_| ()).map_err(|e| e.to_string())
}

/// Relies on `Worksheet::set_default_row_height`, as `set_row_height`.
#[verifier::external_body]
pub(crate) fn ws_set_default_row_height(ws: &mut rust_xlsxwriter::Worksheet, height: u16) {
    ws.set_default_row_height(height);
}

/// Relies on `Worksheet::set_freeze_panes`: freezes the rows above `row`.
#[verifier::external_body]
pub(crate) fn ws_set_freeze_panes(
    ws: &mut rust_xlsxwriter::Worksheet,
    row: u32,
    col: u16,
) -> Result<(), String> {
    ws.set_freeze_panes(row, col).map(|_| ()).map_err(|e| e.to_string())
}

/// Relies on `ExcelDateTime::parse_from_str`: parses a date, time or
/// datetime string; fails on text the writer cannot parse.
#[verifier::external_body]
pub(crate) fn parse_excel_datetime(value: &str) -> Result<rust_xlsxwriter::ExcelDateTime, String> {
    rust_xlsxwriter::ExcelDateTime::parse_from_str(value).map_err(|e| e.to_string())
}

/// Relies on `DocProperties::new`: empty document metadata.
#[verifier::external_body]
pub(crate) fn dp_new() -> rust_xlsxwriter::DocProperties {
    rust_xlsxwriter::DocProperties::new()
}

/// Relies on `DocProperties::set_title`.
#[verifier::external_body]
pub(crate) fn dp_set_title(
    dp: rust_xlsxwriter::DocProperties,
    title: &str,
) -> rust_xlsxwriter::DocProperties {
    dp.set_title(title)
}

/// Relies on `DocProperties::set_author`.
#[verifier::external_body]
pub(crate) fn dp_set_author(
    dp: rust_xlsxwriter::DocProperties,
    author: &str,
) -> rust_xlsxwriter::DocProperties {
    dp.set_author(author)
}

/// Relies on `DocProperties::set_creation_datetime`.
#[verifier::external_body]
pub(crate) fn dp_set_creation_datetime(
    dp: rust_xlsxwriter::DocProperties,
    create_time: &rust_xlsxwriter::ExcelDateTime,
) -> rust_xlsxwriter::DocProperties {
    dp.set_creation_datetime(create_time)
}

/// Relies on `Format::new`: the writer's neutral cell format.
#[verifier::external_body]
pub(crate) fn fmt_new() -> rust_xlsxwriter::Format {
    rust_xlsxwriter::Format::new()
}

/// Relies on `Format::set_bold`.
#[verifier::external_body]
pub(crate) fn fmt_set_bold(f: rust_xlsxwriter::Format) -> rust_xlsxwriter::Format {
    f.set_bold()
}

/// Relies on `Format::set_italic`.
#[verifier::external_body]
pub(crate) fn fmt_set_italic(f: rust_xlsxwriter::Format) -> rust_xlsxwriter::Format {
    f.set_italic()
}

/// Relies on `Format::set_font_strikethrough`.
#[verifier::external_body]
pub(crate) fn fmt_set_strikethrough(f: rust_xlsxwriter::Format) -> rust_xlsxwriter::Format {
    f.set_font_strikethrough()
}

/// Relies on `Format::set_underline` with the single-underline style.
#[verifier::external_body]
pub(crate) fn fmt_set_underline_single(f: rust_xlsxwriter::Format) -> rust_xlsxwriter::Format {
    f.set_underline(rust_xlsxwriter::FormatUnderline::Single)
}

/// Relies on `Format::set_font_size`, which takes the size in points; a
/// `u16` converts losslessly into its argument.
#[verifier::external_body]
pub(crate) fn fmt_set_font_size(f: rust_xlsxwriter::Format, size: u16) -> rust_xlsxwriter::Format {
    f.set_font_size(size)
}

/// Relies on `Format::set_font_color` and `Color::from(&str)`, which
/// parses a hexadecimal RGB string; any other text falls back to the
/// writer's default color.
#[verifier::external_body]
pub(crate) fn fmt_set_font_color(f: rust_xlsxwriter::Format, color: &str) -> rust_xlsxwriter::Format {
    f.set_font_color(rust_xlsxwriter::Color::from(color))
}

/// Relies on `Format::set_background_color` and `Color::from(&str)`, as
/// `fmt_set_font_color`.
#[verifier::external_body]
pub(crate) fn fmt_set_background_color(
    f: rust_xlsxwriter::Format,
    color: &str,
) -> rust_xlsxwriter::Format {
    f.set_background_color(rust_xlsxwriter::Color::from(color))
}

/// Relies on `Format::set_align` with horizontal centering.
#[verifier::external_body]
pub(crate) fn fmt_align_center(f: rust_xlsxwriter::Format) -> rust_xlsxwriter::Format {
    f.set_align(rust_xlsxwriter::FormatAlign::Center)
}

/// Relies on `Format::set_align` with right alignment.
#[verifier::external_body]
pub(crate) fn fmt_align_right(f: rust_xlsxwriter::Format) -> rust_xlsxwriter::Format {
    f.set_align(rust_xlsxwriter::FormatAlign::Right)
}

/// Relies on `Format::set_align` with left alignment.
#[verifier::external_body]
pub(crate) fn fmt_align_left(f: rust_xlsxwriter::Format) -> rust_xlsxwriter::Format {
    f.set_align(rust_xlsxwriter::FormatAlign::Left)
}

/// Relies on `Format::set_align` with vertical centering.
#[verifier::external_body]
pub(crate) fn fmt_align_vertical_center(f: rust_xlsxwriter::Format) -> rust_xlsxwriter::Format {
    f.set_align(rust_xlsxwriter::FormatAlign::VerticalCenter)
}

/// Relies on `Format::set_align` with top alignment.
#[verifier::external_body]
pub(crate) fn fmt_align_top(f: rust_xlsxwriter::Format) -> rust_xlsxwriter::Format {
    f.set_align(rust_xlsxwriter::FormatAlign::Top)
}

/// Relies on `Format::set_align` with bottom alignment.
#[verifier::external_body]
pub(crate) fn fmt_align_bottom(f: rust_xlsxwriter::Format) -> rust_xlsxwriter::Format {
    f.set_align(rust_xlsxwriter::FormatAlign::Bottom)
}

/// Relies on `Format::set_num_format`: a number or date display format.
#[verifier::external_body]
pub(crate) fn fmt_set_num_format(f: rust_xlsxwriter::Format, num_format: &str) -> rust_xlsxwriter::Format {
    f.set_num_format(num_format)
}

/// Relies on `Format::set_border` with thin borders on all sides.
#[verifier::external_body]
pub(crate) fn fmt_set_border_thin(f: rust_xlsxwriter::Format) -> rust_xlsxwriter::Format {
    f.set_border(rust_xlsxwriter::FormatBorder::Thin)
}

/// Relies on `Format::set_border_color` and `Color::from(&str)`, as
/// `fmt_set_font_color`.
#[verifier::external_body]
pub(crate) fn fmt_set_border_color(f: rust_xlsxwriter::Format, color: &str) -> rust_xlsxwriter::Format {
    f.set_border_color(rust_xlsxwriter::Color::from(color))
}

/// Relies on `Format::set_text_wrap`.
#[verifier::external_body]
pub(crate) fn fmt_set_text_wrap(f: rust_xlsxwriter::Format) -> rust_xlsxwriter::Format {
    f.set_text_wrap()
}

} // verus!
