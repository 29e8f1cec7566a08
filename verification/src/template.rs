//! Template building: renders the resolved header block — title, header
//! cells with their merges, column widths, frozen panes and document
//! metadata — into the external writer's workbook, and serializes it.

use vstd::prelude::*;
use vstd::string::StrSliceExecFns;
use crate::error::CodecError;
use crate::error::ExcelError;
use crate::info::ExcelCellFormat;
use crate::info::clone_string;
use crate::info::ExcelInfo;
use crate::info::spec_columns_valid;
use crate::info::spec_first_invalid;
use crate::header::HeaderPlan;
use crate::header::header_plan;
use crate::header::spec_header_plan_ok;
use crate::xlsx::dp_new;
use crate::xlsx::dp_set_author;
use crate::xlsx::dp_set_creation_datetime;
use crate::xlsx::dp_set_title;
use crate::xlsx::fmt_align_bottom;
use crate::xlsx::fmt_align_center;
use crate::xlsx::fmt_align_left;
use crate::xlsx::fmt_align_right;
use crate::xlsx::fmt_align_top;
use crate::xlsx::fmt_align_vertical_center;
use crate::xlsx::fmt_new;
use crate::xlsx::fmt_set_background_color;
use crate::xlsx::fmt_set_bold;
use crate::xlsx::fmt_set_border_color;
use crate::xlsx::fmt_set_border_thin;
use crate::xlsx::fmt_set_font_color;
use crate::xlsx::fmt_set_font_size;
use crate::xlsx::fmt_set_italic;
use crate::xlsx::fmt_set_num_format;
use crate::xlsx::fmt_set_strikethrough;
use crate::xlsx::fmt_set_text_wrap;
use crate::xlsx::fmt_set_underline_single;
use crate::xlsx::parse_excel_datetime;
use crate::xlsx::wb_new;
use crate::xlsx::wb_push_worksheet;
use crate::xlsx::wb_save_to_buffer;
use crate::xlsx::wb_set_properties;
use crate::xlsx::ws_merge_range;
use crate::xlsx::ws_new;
use crate::xlsx::ws_set_cell_format;
use crate::xlsx::ws_set_column_width;
use crate::xlsx::ws_set_default_row_height;
use crate::xlsx::ws_set_freeze_panes;
use crate::xlsx::ws_set_name;
use crate::xlsx::ws_set_row_height;
use crate::xlsx::ws_write_string;

verus! {

/// A character with ASCII upper-case letters folded to lower case.
pub open spec fn spec_lower_char(c: char) -> char {
    if 'A' <= c <= 'Z' {
        ((c as u8) + 32) as char
    } else {
        c
    }
}

/// Character strings equal up to ASCII letter case.
pub open spec fn spec_str_ieq(a: Seq<char>, b: Seq<char>) -> bool {
    &&& a.len() == b.len()
    &&& forall|i: int| 0 <= i < a.len() ==> spec_lower_char(#[trigger] a[i]) == spec_lower_char(
        b[i],
    )
}

/// Whether two strings are equal up to ASCII letter case, character for
/// character.
pub fn ascii_eq_ignore_case(a: &str, b: &str) -> (r: bool)
    ensures
        r == spec_str_ieq(a@, b@),
{
    let la = a.unicode_len();
    let lb = b.unicode_len();
    if la != lb {
        return false;
    }
    let mut i: usize = 0;
    while i < la
        invariant
            la == a@.len(),
            lb == b@.len(),
            la == lb,
            i <= la,
            forall|k: int|
                0 <= k < i ==> spec_lower_char(#[trigger] a@[k]) == spec_lower_char(b@[k]),
        decreases la - i,
    {
        let x = a.get_char(i);
        let y = b.get_char(i);
        let xl = if 'A' <= x && x <= 'Z' {
            ((x as u8) + 32) as char
        } else {
            x
        };
        let yl = if 'A' <= y && y <= 'Z' {
            ((y as u8) + 32) as char
        } else {
            y
        };
        if xl != yl {
            return false;
        }
        i += 1;
    }
    true
}

/// The horizontal alignment a cell format's `align` text selects.
#[derive(Debug, PartialEq, Eq, Structural)]
pub enum PlannedAlign {
    Unset,
    Left,
    Center,
    Right,
}

/// The vertical alignment a cell format's `align_vertical` text selects.
#[derive(Debug, PartialEq, Eq, Structural)]
pub enum PlannedVerticalAlign {
    Unset,
    Top,
    Center,
    Bottom,
}

/// Every attribute the writer-side format of a cell format gets: what
/// [`get_cell_format`] hands to the writer, as plain values.
#[derive(Debug)]
pub struct FormatPlan {
    pub font_size: u16,
    pub font_color: String,
    pub background_color: String,
    pub bold: bool,
    pub italic: bool,
    pub strikethrough: bool,
    pub underline: bool,
    pub align: PlannedAlign,
    pub align_vertical: PlannedVerticalAlign,
    pub num_format: Option<String>,
    pub border_color: Option<String>,
}

/// The horizontal alignment selected by `align` text, matched ignoring
/// ASCII letter case; anything else leaves the writer's default.
pub open spec fn spec_planned_align(align: Seq<char>) -> PlannedAlign {
    if spec_str_ieq(align, "center"@) {
        PlannedAlign::Center
    } else if spec_str_ieq(align, "right"@) {
        PlannedAlign::Right
    } else if spec_str_ieq(align, "left"@) {
        PlannedAlign::Left
    } else {
        PlannedAlign::Unset
    }
}

/// The vertical alignment selected by `align_vertical` text, matched
/// ignoring ASCII letter case; anything else leaves the writer's default.
pub open spec fn spec_planned_vertical_align(align: Seq<char>) -> PlannedVerticalAlign {
    if spec_str_ieq(align, "center"@) {
        PlannedVerticalAlign::Center
    } else if spec_str_ieq(align, "top"@) {
        PlannedVerticalAlign::Top
    } else if spec_str_ieq(align, "bottom"@) {
        PlannedVerticalAlign::Bottom
    } else {
        PlannedVerticalAlign::Unset
    }
}

/// Resolves a cell format into the exact attributes its writer-side format
/// gets: fonts and colors always, emphasis by the flags, alignments by
/// case-insensitive match, the date format as the number format when
/// present, and a thin border of the border color when present.
pub fn format_plan(value_format: &ExcelCellFormat) -> (r: FormatPlan)
    ensures
        r.font_size == value_format.font_size,
        r.font_color == value_format.color,
        r.background_color == value_format.background_color,
        r.bold == value_format.bold,
        r.italic == value_format.italic,
        r.strikethrough == value_format.strikethrough,
        r.underline == value_format.underline,
        r.align == spec_planned_align(value_format.align@),
        r.align_vertical == spec_planned_vertical_align(value_format.align_vertical@),
        match (&r.num_format, &value_format.date_format) {
            (None, None) => true,
            (Some(n), Some(d)) => n == d,
            _ => false,
        },
        match (&r.border_color, &value_format.border_color) {
            (None, None) => true,
            (Some(n), Some(d)) => n == d,
            _ => false,
        },
{
    let align = if ascii_eq_ignore_case(value_format.align.as_str(), "center") {
        PlannedAlign::Center
    } else if ascii_eq_ignore_case(value_format.align.as_str(), "right") {
        PlannedAlign::Right
    } else if ascii_eq_ignore_case(value_format.align.as_str(), "left") {
        PlannedAlign::Left
    } else {
        PlannedAlign::Unset
    };
    let align_vertical = if ascii_eq_ignore_case(value_format.align_vertical.as_str(), "center") {
        PlannedVerticalAlign::Center
    } else if ascii_eq_ignore_case(value_format.align_vertical.as_str(), "top") {
        PlannedVerticalAlign::Top
    } else if ascii_eq_ignore_case(value_format.align_vertical.as_str(), "bottom") {
        PlannedVerticalAlign::Bottom
    } else {
        PlannedVerticalAlign::Unset
    };
    FormatPlan {
        font_size: value_format.font_size,
        font_color: clone_string(&value_format.color),
        background_color: clone_string(&value_format.background_color),
        bold: value_format.bold,
        italic: value_format.italic,
        strikethrough: value_format.strikethrough,
        underline: value_format.underline,
        align,
        align_vertical,
        num_format: match &value_format.date_format {
            None => None,
            Some(d) => Some(clone_string(d)),
        },
        border_color: match &value_format.border_color {
            None => None,
            Some(c) => Some(clone_string(c)),
        },
    }
}

/// The writer-side format for body cells: vertically centered, wrapping.
pub fn default_format() -> rust_xlsxwriter::Format {
    let f = fmt_new();
    let f = fmt_align_vertical_center(f);
    fmt_set_text_wrap(f)
}

/// The writer-side format for date cells: as the body format, displaying
/// year, month and day.
pub fn default_date_format() -> rust_xlsxwriter::Format {
    let f = fmt_new();
    let f = fmt_align_vertical_center(f);
    let f = fmt_set_num_format(f, "yyyy-mm-dd");
    fmt_set_text_wrap(f)
}

/// The writer-side format for header cells: centered both ways, bold,
/// wrapping.
pub fn default_header_format() -> rust_xlsxwriter::Format {
    let f = fmt_new();
    let f = fmt_align_vertical_center(f);
    let f = fmt_align_center(f);
    let f = fmt_set_bold(f);
    fmt_set_text_wrap(f)
}

/// Builds the writer-side format a cell format describes, by resolving its
/// [`FormatPlan`] — which the plan's contract pins exactly — and handing
/// the plan's attributes to the writer one by one, with text wrap always
/// on.
pub fn get_cell_format(value_format: &ExcelCellFormat) -> rust_xlsxwriter::Format {
    let plan = format_plan(value_format);
    let mut result = fmt_new();
    result = fmt_set_font_size(result, plan.font_size);
    result = fmt_set_background_color(result, plan.background_color.as_str());
    result = fmt_set_font_color(result, plan.font_color.as_str());
    if plan.bold {
        result = fmt_set_bold(result);
    }
    if plan.italic {
        result = fmt_set_italic(result);
    }
    if plan.strikethrough {
        result = fmt_set_strikethrough(result);
    }
    if plan.underline {
        result = fmt_set_underline_single(result);
    }
    match plan.align {
        PlannedAlign::Center => {
            result = fmt_align_center(result);
        },
        PlannedAlign::Right => {
            result = fmt_align_right(result);
        },
        PlannedAlign::Left => {
            result = fmt_align_left(result);
        },
        PlannedAlign::Unset => {},
    }
    match plan.align_vertical {
        PlannedVerticalAlign::Center => {
            result = fmt_align_vertical_center(result);
        },
        PlannedVerticalAlign::Top => {
            result = fmt_align_top(result);
        },
        PlannedVerticalAlign::Bottom => {
            result = fmt_align_bottom(result);
        },
        PlannedVerticalAlign::Unset => {},
    }
    if let Some(nf) = &plan.num_format {
        result = fmt_set_num_format(result, nf.as_str());
    }
    if let Some(border_color) = &plan.border_color {
        result = fmt_set_border_thin(result);
        result = fmt_set_border_color(result, border_color.as_str());
    }
    fmt_set_text_wrap(result)
}

/// A codec failure in the named operation.
fn codec_error(op: &str, detail: String) -> (r: ExcelError)
    ensures
        r is Codec,
{
    ExcelError::Codec(CodecError { op: String::from_str(op), detail })
}

/// Builds the template workbook for a sheet description: lays the header
/// phase out as a [`HeaderPlan`] — the title merge, one name write per
/// resolved rectangle, the leaf widths and the freeze row — then applies
/// exactly that plan's items to the writer, item by item, names the sheet
/// and sets the document metadata. Returns the workbook, not yet
/// serialized, together with the plan it applied, whose contents the
/// contract pins. Fails with a hierarchy error exactly when the declared
/// forest is invalid; writer failures surface as codec errors.
pub fn create_template_workbook(info: &ExcelInfo) -> (r: Result<
    (rust_xlsxwriter::Workbook, HeaderPlan),
    ExcelError,
>)
    requires
        info.dx as int + info.columns@.len() <= 65536,
        info.dy as int + info.columns@.len() + 1 <= u32::MAX as int,
        info.is_header_freeze ==> info.columns@.len() > 0,
    ensures
        match r {
            Ok((wb, plan)) => spec_columns_valid(info.columns@) && spec_header_plan_ok(
                *info,
                plan,
            ),
            Err(ExcelError::Hierarchy(e)) => {
                let n = spec_first_invalid(info.columns@, 0);
                &&& !spec_columns_valid(info.columns@)
                &&& 0 <= n < info.columns@.len()
                &&& e.column@ == info.columns@[n].key@
                &&& e.parent@ == info.columns@[n].parent@
            },
            Err(ExcelError::Codec(_)) => spec_columns_valid(info.columns@),
            Err(ExcelError::Value(_)) => false,
        },
{
    let plan = match header_plan(info) {
        Err(e) => {
            return Err(ExcelError::Hierarchy(e));
        },
        Ok(p) => p,
    };
    proof {
        crate::header::lemma_header_writes_len(
            info.columns@,
            plan.positions@,
            info.columns@.len() as int,
        );
    }
    let mut workbook = wb_new();
    let mut worksheet = ws_new();
    if let Some(h) = info.default_row_height {
        ws_set_default_row_height(&mut worksheet, h);
    }

    if let Some(t) = &plan.title {
        let f = match &info.title_format {
            Some(tf) => get_cell_format(tf),
            None => default_header_format(),
        };
        if let Err(d) = ws_merge_range(&mut worksheet, t.y1, t.x1, t.y2, t.x2, t.value.as_str(), &f)
            {
            return Err(codec_error("merge title range", d));
        }
        if let Some(th) = info.title_height {
            if let Err(d) = ws_set_row_height(&mut worksheet, t.y1, th) {
                return Err(codec_error("set title row height", d));
            }
        }
    }

    let mut i: usize = 0;
    while i < plan.header_writes.len()
        invariant
            plan.header_writes@.len() == info.columns@.len(),
            i <= plan.header_writes@.len(),
            spec_columns_valid(info.columns@),
        decreases plan.header_writes@.len() - i,
    {
        let w = &plan.header_writes[i];
        let c = &info.columns[i];
        let f = match &c.format {
            Some(cf) => get_cell_format(cf),
            None => default_header_format(),
        };
        if w.x1 == w.x2 && w.y1 == w.y2 {
            if let Err(d) = ws_write_string(&mut worksheet, w.y1, w.x1, w.value.as_str()) {
                return Err(codec_error("write header cell", d));
            }
            if let Err(d) = ws_set_cell_format(&mut worksheet, w.y1, w.x1, &f) {
                return Err(codec_error("format header cell", d));
            }
        } else {
            if let Err(d) = ws_merge_range(
                &mut worksheet,
                w.y1,
                w.x1,
                w.y2,
                w.x2,
                w.value.as_str(),
                &f,
            ) {
                return Err(codec_error("merge header range", d));
            }
        }
        i += 1;
    }

    let mut i: usize = 0;
    while i < plan.widths.len()
        invariant
            i <= plan.widths@.len(),
            spec_columns_valid(info.columns@),
        decreases plan.widths@.len() - i,
    {
        let cw = &plan.widths[i];
        if let Err(d) = ws_set_column_width(&mut worksheet, cw.x, cw.width) {
            return Err(codec_error("set column width", d));
        }
        i += 1;
    }

    if let Some(fr) = plan.freeze_row {
        if let Err(d) = ws_set_freeze_panes(&mut worksheet, fr, 0) {
            return Err(codec_error("freeze header rows", d));
        }
    }

    if let Err(d) = ws_set_name(&mut worksheet, info.sheet_name.as_str()) {
        return Err(codec_error("set sheet name", d));
    }
    let create_time = match parse_excel_datetime(info.create_time.as_str()) {
        Err(d) => {
            return Err(codec_error("parse creation time", d));
        },
        Ok(dt) => dt,
    };
    let properties = dp_new();
    let properties = dp_set_title(properties, info.name.as_str());
    let properties = dp_set_author(properties, info.author.as_str());
    let properties = dp_set_creation_datetime(properties, &create_time);
    wb_set_properties(&mut workbook, &properties);
    wb_push_worksheet(&mut workbook, worksheet);
    Ok((workbook, plan))
}

/// Builds the blank formatted template for a sheet description and
/// serializes it to bytes. Fails with a hierarchy error exactly when the
/// declared forest is invalid; writer failures surface as codec errors.
pub fn create_template_buffer(info: &ExcelInfo) -> (r: Result<Vec<u8>, ExcelError>)
    requires
        info.dx as int + info.columns@.len() <= 65536,
        info.dy as int + info.columns@.len() + 1 <= u32::MAX as int,
        info.is_header_freeze ==> info.columns@.len() > 0,
    ensures
        match r {
            Ok(_) => spec_columns_valid(info.columns@),
            Err(ExcelError::Hierarchy(e)) => {
                let n = spec_first_invalid(info.columns@, 0);
                &&& !spec_columns_valid(info.columns@)
                &&& 0 <= n < info.columns@.len()
                &&& e.column@ == info.columns@[n].key@
                &&& e.parent@ == info.columns@[n].parent@
            },
            Err(ExcelError::Codec(_)) => spec_columns_valid(info.columns@),
            Err(ExcelError::Value(_)) => false,
        },
{
    let (mut workbook, _plan) = match create_template_workbook(info) {
        Err(e) => {
            return Err(e);
        },
        Ok(pair) => pair,
    };
    match wb_save_to_buffer(&mut workbook) {
        Err(d) => Err(codec_error("serialize workbook", d)),
        Ok(buffer) => Ok(buffer),
    }
}

} // verus!
