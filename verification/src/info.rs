//! Column declarations, cell formats, and the sheet description, together
//! with the forest-validity check on the declared column hierarchy.

use vstd::prelude::*;
use crate::error::HierarchyError;

verus! {

/// Visual formatting for a cell or a group of cells. `rule` selects when the
/// format applies: `"default"` applies always, `"eq"` applies when the cell's
/// value equals `value`.
#[derive(Clone)]
pub struct ExcelCellFormat {
    pub rule: String,
    pub value: String,
    pub color: String,
    pub bold: bool,
    pub italic: bool,
    pub underline: bool,
    pub strikethrough: bool,
    pub font_size: u16,
    pub background_color: String,
    pub align: String,
    pub align_vertical: String,
    pub date_format: Option<String>,
    pub border_color: Option<String>,
}

/// One declared column or group header. `parent` names the key of an earlier
/// declaration, or is empty for a top-level column.
#[derive(Clone)]
pub struct ExcelColumnInfo {
    pub key: String,
    pub name: String,
    pub width: u16,
    pub note: Option<String>,
    pub data_type: String,
    pub allowed_values: Vec<String>,
    pub parent: String,
    pub format: Option<ExcelCellFormat>,
    pub value_format: Vec<ExcelCellFormat>,
    pub data_group: String,
    pub data_group_parent: String,
}

/// The full description of one sheet: its columns plus presentation choices.
#[derive(Clone)]
pub struct ExcelInfo {
    pub name: String,
    pub sheet_name: String,
    pub columns: Vec<ExcelColumnInfo>,
    pub author: String,
    pub create_time: String,
    pub title: Option<String>,
    pub title_format: Option<ExcelCellFormat>,
    pub title_height: Option<u16>,
    pub default_row_height: Option<u16>,
    pub dx: u16,
    pub dy: u32,
    pub is_header_freeze: bool,
}

impl ExcelCellFormat {
    /// The neutral format: black on white, size 11, left- and bottom-aligned.
    pub fn new() -> (r: ExcelCellFormat)
        ensures
            r.rule@ == "default"@,
            r.value@ == Seq::<char>::empty(),
            r.color@ == "black"@,
            !r.bold,
            !r.italic,
            !r.underline,
            !r.strikethrough,
            r.font_size == 11,
            r.background_color@ == "white"@,
            r.align@ == "left"@,
            r.align_vertical@ == "bottom"@,
            r.date_format is None,
            r.border_color is None,
    {
        ExcelCellFormat {
            rule: String::from_str("default"),
            value: String::new(),
            color: String::from_str("black"),
            bold: false,
            italic: false,
            underline: false,
            strikethrough: false,
            font_size: 11,
            background_color: String::from_str("white"),
            align: String::from_str("left"),
            align_vertical: String::from_str("bottom"),
            date_format: None,
            border_color: None,
        }
    }

    pub fn with_rule(self, rule: String) -> (r: Self)
        ensures
            r == (ExcelCellFormat { rule, ..self }),
    {
        ExcelCellFormat { rule, ..self }
    }

    pub fn with_value(self, value: String) -> (r: Self)
        ensures
            r == (ExcelCellFormat { value, ..self }),
    {
        ExcelCellFormat { value, ..self }
    }

    pub fn with_color(self, color: String) -> (r: Self)
        ensures
            r == (ExcelCellFormat { color, ..self }),
    {
        ExcelCellFormat { color, ..self }
    }

    pub fn with_bold(self, bold: bool) -> (r: Self)
        ensures
            r == (ExcelCellFormat { bold, ..self }),
    {
        ExcelCellFormat { bold, ..self }
    }

    pub fn with_italic(self, italic: bool) -> (r: Self)
        ensures
            r == (ExcelCellFormat { italic, ..self }),
    {
        ExcelCellFormat { italic, ..self }
    }

    pub fn with_underline(self, underline: bool) -> (r: Self)
        ensures
            r == (ExcelCellFormat { underline, ..self }),
    {
        ExcelCellFormat { underline, ..self }
    }

    pub fn with_strikethrough(self, strikethrough: bool) -> (r: Self)
        ensures
            r == (ExcelCellFormat { strikethrough, ..self }),
    {
        ExcelCellFormat { strikethrough, ..self }
    }

    pub fn with_font_size(self, font_size: u16) -> (r: Self)
        ensures
            r == (ExcelCellFormat { font_size, ..self }),
    {
        ExcelCellFormat { font_size, ..self }
    }

    pub fn with_background_color(self, background_color: String) -> (r: Self)
        ensures
            r == (ExcelCellFormat { background_color, ..self }),
    {
        ExcelCellFormat { background_color, ..self }
    }

    pub fn with_align(self, align: String) -> (r: Self)
        ensures
            r == (ExcelCellFormat { align, ..self }),
    {
        ExcelCellFormat { align, ..self }
    }

    pub fn with_align_vertical(self, align_vertical: String) -> (r: Self)
        ensures
            r == (ExcelCellFormat { align_vertical, ..self }),
    {
        ExcelCellFormat { align_vertical, ..self }
    }

    pub fn with_date_format(self, date_format: String) -> (r: Self)
        ensures
            r == (ExcelCellFormat { date_format: Some(date_format), ..self }),
    {
        ExcelCellFormat { date_format: Some(date_format), ..self }
    }

    pub fn with_border_color(self, border_color: String) -> (r: Self)
        ensures
            r == (ExcelCellFormat { border_color: Some(border_color), ..self }),
    {
        ExcelCellFormat { border_color: Some(border_color), ..self }
    }
}

impl ExcelColumnInfo {
    /// A plain text column of default width, declared at the top level.
    pub fn new(key: String, name: String) -> (r: ExcelColumnInfo)
        ensures
            r.key == key,
            r.name == name,
            r.width == 10,
            r.note is None,
            r.data_type@ == "text"@,
            r.allowed_values@ == Seq::<String>::empty(),
            r.parent@ == Seq::<char>::empty(),
            r.format is None,
            r.value_format@ == Seq::<ExcelCellFormat>::empty(),
            r.data_group@ == Seq::<char>::empty(),
            r.data_group_parent@ == Seq::<char>::empty(),
    {
        ExcelColumnInfo {
            key,
            name,
            width: 10,
            note: None,
            data_type: String::from_str("text"),
            allowed_values: Vec::new(),
            parent: String::new(),
            format: None,
            value_format: Vec::new(),
            data_group: String::new(),
            data_group_parent: String::new(),
        }
    }

    pub fn with_note(self, note: String) -> (r: Self)
        ensures
            r == (ExcelColumnInfo { note: Some(note), ..self }),
    {
        ExcelColumnInfo { note: Some(note), ..self }
    }

    pub fn with_data_type(self, data_type: String) -> (r: Self)
        ensures
            r == (ExcelColumnInfo { data_type, ..self }),
    {
        ExcelColumnInfo { data_type, ..self }
    }

    pub fn with_allowed_values(self, allowed_values: Vec<String>) -> (r: Self)
        ensures
            r == (ExcelColumnInfo { allowed_values, ..self }),
    {
        ExcelColumnInfo { allowed_values, ..self }
    }

    pub fn with_width(self, width: u16) -> (r: Self)
        ensures
            r == (ExcelColumnInfo { width, ..self }),
    {
        ExcelColumnInfo { width, ..self }
    }

    pub fn with_format(self, format: ExcelCellFormat) -> (r: Self)
        ensures
            r == (ExcelColumnInfo { format: Some(format), ..self }),
    {
        ExcelColumnInfo { format: Some(format), ..self }
    }

    pub fn with_parent(self, parent: String) -> (r: Self)
        ensures
            r == (ExcelColumnInfo { parent, ..self }),
    {
        ExcelColumnInfo { parent, ..self }
    }

    pub fn with_value_format(self, value_format: Vec<ExcelCellFormat>) -> (r: Self)
        ensures
            r == (ExcelColumnInfo { value_format, ..self }),
    {
        ExcelColumnInfo { value_format, ..self }
    }

    pub fn with_data_group(self, data_group: String) -> (r: Self)
        ensures
            r == (ExcelColumnInfo { data_group, ..self }),
    {
        ExcelColumnInfo { data_group, ..self }
    }

    pub fn with_data_group_parent(self, data_group_parent: String) -> (r: Self)
        ensures
            r == (ExcelColumnInfo { data_group_parent, ..self }),
    {
        ExcelColumnInfo { data_group_parent, ..self }
    }

    /// Whether this column heads a top-level one-to-many data group.
    pub fn is_root_group(&self) -> (r: bool)
        ensures
            r == spec_is_root_group(*self),
    {
        !self.data_group.as_str().is_empty() && self.data_group_parent.as_str().is_empty()
    }

    /// Whether this column was declared beneath a parent.
    pub fn has_parent(&self) -> (r: bool)
        ensures
            r == spec_has_parent(*self),
    {
        !self.parent.as_str().is_empty()
    }

    /// The value format that applies to `value`: scanning the list in order,
    /// an `"eq"` rule whose value equals the cell's value wins as soon as it
    /// is seen; otherwise the last `"default"` rule seen wins.
    pub fn get_value_format(&self, value: &String) -> (r: Option<&ExcelCellFormat>)
        ensures
            spec_opt_deref(r) == spec_value_format(self.value_format@, value@),
    {
        let eq_rule = String::from_str("eq");
        let default_rule = String::from_str("default");
        let mut result: Option<&ExcelCellFormat> = None;
        let mut stopped = false;
        let mut i: usize = 0;
        while i < self.value_format.len() && !stopped
            invariant
                i <= self.value_format@.len(),
                eq_rule@ == "eq"@,
                default_rule@ == "default"@,
                if stopped {
                    spec_value_format(self.value_format@, value@) == spec_opt_deref(result)
                } else {
                    spec_value_format(self.value_format@, value@) == spec_value_format_scan(
                        self.value_format@,
                        value@,
                        i as int,
                        spec_opt_deref(result),
                    )
                },
            decreases self.value_format@.len() - i + if stopped { 0int } else { 1int },
        {
            proof {
                reveal_strlit("eq");
                reveal_strlit("default");
            }
            let vf = &self.value_format[i];
            if vf.rule == eq_rule && vf.value == *value {
                result = Some(vf);
                stopped = true;
            } else {
                if vf.rule == default_rule {
                    result = Some(vf);
                }
                i += 1;
            }
        }
        result
    }
}

/// The payload of an optional reference, as an optional value.
pub open spec fn spec_opt_deref(o: Option<&ExcelCellFormat>) -> Option<ExcelCellFormat> {
    match o {
        None => None,
        Some(f) => Some(*f),
    }
}

impl ExcelInfo {
    /// A sheet description from its name, sheet name, columns, author and
    /// creation time, with no title and no offset. The declared hierarchy is
    /// checked when the columns are resolved; see
    /// [`ExcelInfo::check_columns`] to check it eagerly.
    pub fn new(
        name: String,
        sheet_name: String,
        columns: Vec<ExcelColumnInfo>,
        author: String,
        create_time: String,
    ) -> (r: ExcelInfo)
        ensures
            r.name == name,
            r.sheet_name == sheet_name,
            r.columns == columns,
            r.author == author,
            r.create_time == create_time,
            r.title is None,
            r.title_format is None,
            r.title_height is None,
            r.default_row_height is None,
            r.dx == 0,
            r.dy == 0,
            !r.is_header_freeze,
    {
        ExcelInfo {
            name,
            sheet_name,
            columns,
            author,
            create_time,
            title: None,
            title_format: None,
            title_height: None,
            default_row_height: None,
            dx: 0,
            dy: 0,
            is_header_freeze: false,
        }
    }

    pub fn with_title(self, title: String) -> (r: Self)
        ensures
            r == (ExcelInfo { title: Some(title), ..self }),
    {
        ExcelInfo { title: Some(title), ..self }
    }

    pub fn with_title_format(self, title_format: ExcelCellFormat) -> (r: Self)
        ensures
            r == (ExcelInfo { title_format: Some(title_format), ..self }),
    {
        ExcelInfo { title_format: Some(title_format), ..self }
    }

    pub fn with_title_height(self, title_height: u16) -> (r: Self)
        ensures
            r == (ExcelInfo { title_height: Some(title_height), ..self }),
    {
        ExcelInfo { title_height: Some(title_height), ..self }
    }

    pub fn with_default_row_height(self, row_height: u16) -> (r: Self)
        ensures
            r == (ExcelInfo { default_row_height: Some(row_height), ..self }),
    {
        ExcelInfo { default_row_height: Some(row_height), ..self }
    }

    pub fn with_offset(self, dx: u16, dy: u32) -> (r: Self)
        ensures
            r == (ExcelInfo { dx, dy, ..self }),
    {
        ExcelInfo { dx, dy, ..self }
    }

    pub fn with_is_header_freeze(self, is_header_freeze: bool) -> (r: Self)
        ensures
            r == (ExcelInfo { is_header_freeze, ..self }),
    {
        ExcelInfo { is_header_freeze, ..self }
    }

    /// Checks the forest validity of a column list: scanning in order with a
    /// stack of open keys, every column naming a parent must find it still
    /// open (no unrelated sibling block has closed it), popping everything
    /// above it. Returns the first violation, naming the missing parent and
    /// the offending column.
    pub fn check_columns(columns: &Vec<ExcelColumnInfo>) -> (r: Result<(), HierarchyError>)
        ensures
            r is Ok <==> spec_columns_valid(columns@),
            match r {
                Ok(()) => spec_columns_valid(columns@),
                Err(e) => {
                    let n = spec_first_invalid(columns@, 0);
                    &&& !spec_columns_valid(columns@)
                    &&& 0 <= n < columns@.len()
                    &&& e.column@ == columns@[n].key@
                    &&& e.parent@ == columns@[n].parent@
                },
            },
    {
        let ghost cs = columns@;
        let mut stack: Vec<String> = Vec::new();
        let mut i: usize = 0;
        while i < columns.len()
            invariant
                i <= cs.len(),
                cs == columns@,
                spec_stack_after(cs, i as int) == Some(stack@),
            decreases cs.len() - i,
        {
            let ghost st0 = stack@;
            let column = &columns[i];
            if column.has_parent() {
                let mut found = false;
                while stack.len() > 0 && !found
                    invariant
                        !found ==> spec_pop_to(st0, column.parent@) == spec_pop_to(
                            stack@,
                            column.parent@,
                        ),
                        found ==> spec_pop_to(st0, column.parent@) == Some(stack@),
                    decreases stack@.len() + if found { 0int } else { 1int },
                {
                    let p = stack.pop().unwrap();
                    if p == column.parent {
                        found = true;
                        stack.push(p);
                    }
                }
                if !found {
                    proof {
                        lemma_first_invalid_at(cs, i as int);
                    }
                    return Err(
                        HierarchyError {
                            parent: clone_string(&column.parent),
                            column: clone_string(&column.key),
                        },
                    );
                }
            }
            stack.push(clone_string(&column.key));
            i += 1;
        }
        Ok(())
    }
}

/// Clones a string, keeping its contents.
pub fn clone_string(s: &String) -> (r: String)
    ensures
        r == *s,
{
    s.clone()
}

/// Whether the column heads a top-level one-to-many data group.
pub open spec fn spec_is_root_group(c: ExcelColumnInfo) -> bool {
    c.data_group@.len() != 0 && c.data_group_parent@.len() == 0
}

/// Whether the column was declared beneath a parent.
pub open spec fn spec_has_parent(c: ExcelColumnInfo) -> bool {
    c.parent@.len() != 0
}

/// Pops entries until the top of the stack equals `p`; `None` when `p` is
/// nowhere on the stack.
pub open spec fn spec_pop_to(stack: Seq<String>, p: Seq<char>) -> Option<Seq<String>>
    decreases stack.len(),
{
    if stack.len() == 0 {
        None
    } else if stack.last()@ == p {
        Some(stack)
    } else {
        spec_pop_to(stack.drop_last(), p)
    }
}

/// The stack of open keys after scanning the first `n` columns, or `None`
/// when some column among them declared a parent that was not open.
pub open spec fn spec_stack_after(columns: Seq<ExcelColumnInfo>, n: int) -> Option<Seq<String>>
    decreases n,
{
    if n <= 0 {
        Some(Seq::empty())
    } else {
        match spec_stack_after(columns, n - 1) {
            None => None,
            Some(st) => {
                let c = columns[n - 1];
                if !spec_has_parent(c) {
                    Some(st.push(c.key))
                } else {
                    match spec_pop_to(st, c.parent@) {
                        None => None,
                        Some(st2) => Some(st2.push(c.key)),
                    }
                }
            },
        }
    }
}

/// Forest validity: every column's declared parent is still open when the
/// column is reached.
pub open spec fn spec_columns_valid(columns: Seq<ExcelColumnInfo>) -> bool {
    spec_stack_after(columns, columns.len() as int) is Some
}

/// The first index whose column breaks forest validity, searching from `n`.
pub open spec fn spec_first_invalid(columns: Seq<ExcelColumnInfo>, n: int) -> int
    decreases columns.len() - n,
{
    if n < 0 || n >= columns.len() {
        n
    } else if spec_stack_after(columns, n + 1) is None {
        n
    } else {
        spec_first_invalid(columns, n + 1)
    }
}

/// Keys are globally unique across a column list.
pub open spec fn spec_unique_keys(columns: Seq<ExcelColumnInfo>) -> bool {
    forall|i: int, j: int|
        0 <= i < j < columns.len() ==> columns[i].key@ != columns[j].key@
}

/// Popping to a key keeps a prefix of the stack, ending in that key.
pub proof fn lemma_pop_to_prefix(stack: Seq<String>, p: Seq<char>)
    requires
        spec_pop_to(stack, p) is Some,
    ensures
        ({
            let st2 = spec_pop_to(stack, p)->Some_0;
            &&& 1 <= st2.len() <= stack.len()
            &&& forall|k: int| 0 <= k < st2.len() ==> st2[k] == stack[k]
            &&& st2.last()@ == p
        }),
    decreases stack.len(),
{
    if stack.len() > 0 && stack.last()@ != p {
        lemma_pop_to_prefix(stack.drop_last(), p);
    }
}

/// Every key on the open-block stack was declared by an earlier column.
pub proof fn lemma_stack_keys_declared(columns: Seq<ExcelColumnInfo>, n: int)
    requires
        0 <= n,
        spec_stack_after(columns, n) is Some,
    ensures
        ({
            let st = spec_stack_after(columns, n)->Some_0;
            forall|k: int|
                0 <= k < st.len() ==> exists|m: int| 0 <= m < n && columns[m].key == #[trigger] st[k]
        }),
    decreases n,
{
    if n > 0 {
        lemma_stack_some_backward(columns, n - 1, n);
        lemma_stack_keys_declared(columns, n - 1);
        let st_prev = spec_stack_after(columns, n - 1)->Some_0;
        let st = spec_stack_after(columns, n)->Some_0;
        let c = columns[n - 1];
        if spec_has_parent(c) {
            lemma_pop_to_prefix(st_prev, c.parent@);
        }
        assert forall|k: int| 0 <= k < st.len() implies exists|m: int|
            0 <= m < n && columns[m].key == #[trigger] st[k] by {
            if k == st.len() - 1 {
                assert(0 <= n - 1 < n && columns[n - 1].key == st[k]);
            } else {
                assert(exists|m: int| 0 <= m < n - 1 && columns[m].key == st[k]);
            }
        }
    }
}

/// A prefix of a successfully scanned list scans successfully too.
pub proof fn lemma_stack_some_backward(columns: Seq<ExcelColumnInfo>, m: int, n: int)
    requires
        0 <= m <= n,
        spec_stack_after(columns, n) is Some,
    ensures
        spec_stack_after(columns, m) is Some,
{
    if spec_stack_after(columns, m) is None {
        lemma_stack_none_forward(columns, m, n);
    }
}

/// In a valid list, a column with a parent reference has a matching earlier
/// declaration of that key.
pub proof fn lemma_valid_parent_declared(columns: Seq<ExcelColumnInfo>, c: int)
    requires
        0 <= c < columns.len(),
        spec_columns_valid(columns),
        spec_has_parent(columns[c]),
    ensures
        exists|m: int| 0 <= m < c && columns[m].key@ == columns[c].parent@,
{
    lemma_stack_some_backward(columns, c + 1, columns.len() as int);
    lemma_stack_some_backward(columns, c, c + 1);
    let st = spec_stack_after(columns, c)->Some_0;
    let p = columns[c].parent@;
    lemma_pop_to_prefix(st, p);
    lemma_stack_keys_declared(columns, c);
    let st2 = spec_pop_to(st, p)->Some_0;
    let k = st2.len() - 1;
    assert(st2[k] == st[k]);
    assert(exists|m: int| 0 <= m < c && columns[m].key == st[k]);
    let m = choose|m: int| 0 <= m < c && columns[m].key == st[k];
    assert(columns[m].key@ == p);
}

/// Once the scan has failed, it stays failed.
proof fn lemma_stack_none_forward(columns: Seq<ExcelColumnInfo>, m: int, n: int)
    requires
        0 <= m <= n,
        spec_stack_after(columns, m) is None,
    ensures
        spec_stack_after(columns, n) is None,
    decreases n - m,
{
    if m < n {
        lemma_stack_none_forward(columns, m, n - 1);
    }
}

/// The search for the first invalid column, started anywhere at or before a
/// known failure point whose prefix is valid, lands on that point.
proof fn lemma_first_invalid_from(columns: Seq<ExcelColumnInfo>, n: int, i: int)
    requires
        0 <= n <= i < columns.len(),
        spec_stack_after(columns, i) is Some,
        spec_stack_after(columns, i + 1) is None,
    ensures
        spec_first_invalid(columns, n) == i,
    decreases i - n,
{
    if n < i {
        if spec_stack_after(columns, n + 1) is None {
            lemma_stack_none_forward(columns, n + 1, i);
        }
        lemma_first_invalid_from(columns, n + 1, i);
    }
}

/// A column whose parent is not open is the first invalid column, and its
/// presence refutes forest validity.
proof fn lemma_first_invalid_at(columns: Seq<ExcelColumnInfo>, i: int)
    requires
        0 <= i < columns.len(),
        spec_stack_after(columns, i) is Some,
        spec_stack_after(columns, i + 1) is None,
    ensures
        spec_first_invalid(columns, 0) == i,
        !spec_columns_valid(columns),
{
    lemma_first_invalid_from(columns, 0, i);
    lemma_stack_none_forward(columns, i + 1, columns.len() as int);
}

/// The value format chosen by scanning entries from index `i` on, with `acc`
/// the `"default"` rule in force so far: an `"eq"` match ends the scan at
/// once; a `"default"` entry replaces `acc`.
pub open spec fn spec_value_format_scan(
    vfs: Seq<ExcelCellFormat>,
    value: Seq<char>,
    i: int,
    acc: Option<ExcelCellFormat>,
) -> Option<ExcelCellFormat>
    decreases vfs.len() - i,
{
    if i < 0 || i >= vfs.len() {
        acc
    } else if vfs[i].rule@ == "eq"@ && vfs[i].value@ == value {
        Some(vfs[i])
    } else if vfs[i].rule@ == "default"@ {
        spec_value_format_scan(vfs, value, i + 1, Some(vfs[i]))
    } else {
        spec_value_format_scan(vfs, value, i + 1, acc)
    }
}

/// The value format that applies to `value` under the rule list `vfs`.
pub open spec fn spec_value_format(vfs: Seq<ExcelCellFormat>, value: Seq<char>) -> Option<
    ExcelCellFormat,
> {
    spec_value_format_scan(vfs, value, 0, None)
}

} // verus!
