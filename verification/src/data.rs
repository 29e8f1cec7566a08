//! The tree-shaped data model: a data set is a list of rows, a row is a list
//! of column nodes, and a node may carry nested child row-groups (a
//! one-to-many relationship rendered as a merged block of grid rows).

use vstd::prelude::*;

verus! {

/// One node of a data tree. `key` joins the node to a declared column, or to
/// the reserved pass-through key (see [`ExcelColumnData::new_root`]), which
/// marks a wrapper that holds nested rows without occupying a column.
pub struct ExcelColumnData {
    pub key: String,
    pub value: String,
    pub children: Vec<ExcelRowData>,
}

/// One row beneath the header: an ordered list of sibling nodes.
pub struct ExcelRowData {
    pub columns: Vec<ExcelColumnData>,
}

/// A complete data set: the ordered rows of one sheet.
pub struct ExcelData {
    pub rows: Vec<ExcelRowData>,
}

/// The reserved pass-through key: a node carrying it never produces a cell
/// write of its own; its children are laid out in its place.
pub open spec fn spec_root_data_key() -> Seq<char> {
    "root"@
}

/// The reserved pass-through key as a runtime string.
pub fn root_data_key() -> (r: String)
    ensures
        r@ == spec_root_data_key(),
{
    String::from_str("root")
}

impl ExcelColumnData {
    /// A scalar node: one value destined for one declared column.
    pub fn new(key: String, value: String) -> (r: Self)
        ensures
            r.key == key,
            r.value == value,
            r.children@ == Seq::<ExcelRowData>::empty(),
    {
        ExcelColumnData { key, value, children: Vec::new() }
    }

    /// A node that carries a value and nested child row-groups.
    pub fn new_group(group_name: String, value: String, children: Vec<ExcelRowData>) -> (r: Self)
        ensures
            r.key == group_name,
            r.value == value,
            r.children == children,
    {
        ExcelColumnData { key: group_name, value, children }
    }

    /// A node that carries nested child row-groups and no value of its own.
    pub fn new_root_group(group_name: String, children: Vec<ExcelRowData>) -> (r: Self)
        ensures
            r.key == group_name,
            r.value@ == Seq::<char>::empty(),
            r.children == children,
    {
        ExcelColumnData::new_group(group_name, String::new(), children)
    }

    /// A pass-through node: holds nested rows without occupying a column.
    pub fn new_root(children: Vec<ExcelRowData>) -> (r: Self)
        ensures
            r.key@ == spec_root_data_key(),
            r.value@ == Seq::<char>::empty(),
            r.children == children,
    {
        ExcelColumnData { key: root_data_key(), value: String::new(), children }
    }

    /// Replaces the node's children.
    pub fn with_children(self, children: Vec<ExcelRowData>) -> (r: Self)
        ensures
            r == (ExcelColumnData { children, ..self }),
    {
        ExcelColumnData { children, ..self }
    }
}

impl ExcelRowData {
    /// A row from its nodes.
    pub fn new(columns: Vec<ExcelColumnData>) -> (r: Self)
        ensures
            r.columns == columns,
    {
        ExcelRowData { columns }
    }
}

impl ExcelData {
    /// A data set from its rows.
    pub fn new(rows: Vec<ExcelRowData>) -> (r: Self)
        ensures
            r.rows == rows,
    {
        ExcelData { rows }
    }
}

} // verus!
