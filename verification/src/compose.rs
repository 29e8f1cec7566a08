//! The nested row compositor: lays a tree-shaped data row onto a contiguous
//! vertical range of grid rows.
//!
//! A scalar node occupies its column over the row's full height. A node with
//! child row-groups stacks the groups vertically beneath its own top row and
//! spans their total height; a pass-through node instead starts every group
//! at its own top row, spans the tallest, and writes nothing itself.

use vstd::prelude::*;
use crate::data::ExcelColumnData;
use crate::data::ExcelRowData;
use crate::data::root_data_key;
use crate::data::spec_root_data_key;
use crate::info::ExcelColumnInfo;
use crate::info::spec_is_root_group;
use crate::layout::ExcelColumnPosition;
use crate::info::clone_string;

verus! {

/// One cell assignment: a value at the inclusive rectangle
/// `(x1..=x2, y1..=y2)`, a single cell when the rectangle is one cell, a
/// merged range otherwise. `key` and `data_type` come from the resolved
/// column the write is destined for.
#[derive(Debug)]
pub struct CellWrite {
    pub x1: u16,
    pub x2: u16,
    pub y1: u32,
    pub y2: u32,
    pub value: String,
    pub key: String,
    pub data_type: String,
}

/// Whether a data node key is the reserved pass-through key.
pub open spec fn spec_is_sentinel(k: Seq<char>) -> bool {
    k == spec_root_data_key()
}

/// The number of grid rows a node consumes: one for a scalar; for a node
/// with child row-groups, the total of its groups' heights, stacked — except
/// that a pass-through node starts every group at its own top row and
/// consumes only the tallest.
pub open spec fn spec_node_height(c: ExcelColumnData) -> int
    decreases c, 0int,
{
    if c.children@.len() == 0 {
        1
    } else if spec_is_sentinel(c.key@) {
        proof {
            assert(decreases_to!(c => c.children@));
        }
        spec_groups_max(c.children@, c.children@.len() as int)
    } else {
        proof {
            assert(decreases_to!(c => c.children@));
        }
        spec_groups_sum(c.children@, c.children@.len() as int)
    }
}

/// The total height of the first `n` row-groups, stacked in sequence.
pub open spec fn spec_groups_sum(rows: Seq<ExcelRowData>, n: int) -> int
    decreases rows, n,
{
    if n <= 0 || n > rows.len() {
        0
    } else {
        proof {
            assert(decreases_to!(rows => rows[n - 1]));
        }
        spec_groups_sum(rows, n - 1) + spec_row_height(rows[n - 1])
    }
}

/// The height of the tallest of the first `n` row-groups, at least one row.
pub open spec fn spec_groups_max(rows: Seq<ExcelRowData>, n: int) -> int
    decreases rows, n,
{
    if n <= 0 || n > rows.len() {
        1
    } else {
        proof {
            assert(decreases_to!(rows => rows[n - 1]));
        }
        if spec_row_height(rows[n - 1]) > spec_groups_max(rows, n - 1) {
            spec_row_height(rows[n - 1])
        } else {
            spec_groups_max(rows, n - 1)
        }
    }
}

/// The number of grid rows a row consumes: the height of its tallest node,
/// at least one row.
pub open spec fn spec_row_height(r: ExcelRowData) -> int
    decreases r, 1int,
{
    proof {
        assert(decreases_to!(r => r.columns@));
    }
    spec_row_max(r.columns@, r.columns@.len() as int)
}

/// The tallest node height among the first `n` nodes, at least one row.
pub open spec fn spec_row_max(s: Seq<ExcelColumnData>, n: int) -> int
    decreases s, n,
{
    if n <= 0 || n > s.len() {
        1
    } else {
        proof {
            assert(decreases_to!(s => s[n - 1]));
        }
        if spec_node_height(s[n - 1]) > spec_row_max(s, n - 1) {
            spec_node_height(s[n - 1])
        } else {
            spec_row_max(s, n - 1)
        }
    }
}

/// Every node consumes at least one row.
pub proof fn lemma_node_height_pos(c: ExcelColumnData)
    ensures
        spec_node_height(c) >= 1,
    decreases c, 0int,
{
    if c.children@.len() > 0 {
        assert(decreases_to!(c => c.children@));
        if spec_is_sentinel(c.key@) {
            lemma_groups_max_pos(c.children@, c.children@.len() as int);
        } else {
            lemma_groups_sum_pos(c.children@, c.children@.len() as int);
        }
    }
}

/// The stacked height of `n` row-groups is at least `n`.
pub proof fn lemma_groups_sum_pos(rows: Seq<ExcelRowData>, n: int)
    requires
        n <= rows.len(),
    ensures
        spec_groups_sum(rows, n) >= if n <= 0 {
            0int
        } else {
            n
        },
    decreases rows, n,
{
    if n > 0 {
        assert(decreases_to!(rows => rows[n - 1]));
        lemma_groups_sum_pos(rows, n - 1);
        lemma_row_height_pos(rows[n - 1]);
    }
}

/// The tallest of any row-groups is at least one row.
pub proof fn lemma_groups_max_pos(rows: Seq<ExcelRowData>, n: int)
    ensures
        spec_groups_max(rows, n) >= 1,
    decreases rows, n,
{
    if n > 0 && n <= rows.len() {
        lemma_groups_max_pos(rows, n - 1);
    }
}

/// Every row consumes at least one row of the grid.
pub proof fn lemma_row_height_pos(r: ExcelRowData)
    ensures
        spec_row_height(r) >= 1,
    decreases r, 1int,
{
    assert(decreases_to!(r => r.columns@));
    lemma_row_max_pos(r.columns@, r.columns@.len() as int);
}

/// The running node-height maximum never drops below one row.
pub proof fn lemma_row_max_pos(s: Seq<ExcelColumnData>, n: int)
    ensures
        spec_row_max(s, n) >= 1,
    decreases s, n,
{
    if n > 0 && n <= s.len() {
        lemma_row_max_pos(s, n - 1);
    }
}

/// The first resolved position whose key is `k`, searching from `j`.
pub open spec fn spec_find_pos_from(ps: Seq<ExcelColumnPosition>, k: Seq<char>, j: int) -> Option<
    int,
>
    decreases ps.len() - j,
{
    if j < 0 || j >= ps.len() {
        None
    } else if ps[j].key@ == k {
        Some(j)
    } else {
        spec_find_pos_from(ps, k, j + 1)
    }
}

/// The first resolved position whose key is `k`.
pub open spec fn spec_find_pos(ps: Seq<ExcelColumnPosition>, k: Seq<char>) -> Option<int> {
    spec_find_pos_from(ps, k, 0)
}

/// The first declared column whose key is `k`, searching from `j`.
pub open spec fn spec_find_col_from(cs: Seq<ExcelColumnInfo>, k: Seq<char>, j: int) -> Option<int>
    decreases cs.len() - j,
{
    if j < 0 || j >= cs.len() {
        None
    } else if cs[j].key@ == k {
        Some(j)
    } else {
        spec_find_col_from(cs, k, j + 1)
    }
}

/// The first declared column whose key is `k`.
pub open spec fn spec_find_col(cs: Seq<ExcelColumnInfo>, k: Seq<char>) -> Option<int> {
    spec_find_col_from(cs, k, 0)
}

/// The write a node covering `h` rows from `top` makes at position `p`: a
/// single cell at the position's left column when one row is covered, else
/// a merged range over the position's column span and the covered rows.
pub open spec fn spec_block_write(
    p: ExcelColumnPosition,
    c: ExcelColumnData,
    top: int,
    h: int,
) -> CellWrite {
    CellWrite {
        x1: p.x1,
        x2: if h == 1 {
            p.x1
        } else {
            p.x2
        },
        y1: top as u32,
        y2: (top + h - 1) as u32,
        value: c.value,
        key: c.key,
        data_type: p.data_type,
    }
}

/// The write a node with child row-groups emits for itself: nothing for the
/// pass-through key, for an unresolved key, or for a column heading a
/// top-level data group; otherwise a block write over the rows its children
/// consumed.
pub open spec fn spec_node_own_write(
    c: ExcelColumnData,
    top: int,
    cols: Seq<ExcelColumnInfo>,
    ps: Seq<ExcelColumnPosition>,
) -> Seq<CellWrite> {
    if spec_is_sentinel(c.key@) {
        Seq::empty()
    } else {
        match spec_find_pos(ps, c.key@) {
            None => Seq::empty(),
            Some(m) => {
                let suppressed = match spec_find_col(cols, c.key@) {
                    None => false,
                    Some(ci) => spec_is_root_group(cols[ci]),
                };
                if suppressed {
                    Seq::empty()
                } else {
                    seq![spec_block_write(ps[m], c, top, spec_node_height(c))]
                }
            },
        }
    }
}

/// The write a scalar node emits, covering the full height `h` of its row:
/// nothing when its key resolves to no position.
pub open spec fn spec_scalar_own_write(
    c: ExcelColumnData,
    top: int,
    h: int,
    ps: Seq<ExcelColumnPosition>,
) -> Seq<CellWrite> {
    match spec_find_pos(ps, c.key@) {
        None => Seq::empty(),
        Some(m) => seq![spec_block_write(ps[m], c, top, h)],
    }
}

/// All writes a node makes: its groups' writes in order, then its own.
pub open spec fn spec_node_writes(
    c: ExcelColumnData,
    top: int,
    cols: Seq<ExcelColumnInfo>,
    ps: Seq<ExcelColumnPosition>,
) -> Seq<CellWrite>
    decreases c, 0int,
{
    if c.children@.len() == 0 {
        Seq::empty()
    } else {
        proof {
            assert(decreases_to!(c => c.children@));
        }
        let inner = if spec_is_sentinel(c.key@) {
            spec_groups_writes_overlay(c.children@, c.children@.len() as int, top, cols, ps)
        } else {
            spec_groups_writes_stacked(c.children@, c.children@.len() as int, top, cols, ps)
        };
        inner + spec_node_own_write(c, top, cols, ps)
    }
}

/// The writes of the first `n` row-groups, stacked: each group starts where
/// the previous one ended.
pub open spec fn spec_groups_writes_stacked(
    rows: Seq<ExcelRowData>,
    n: int,
    top: int,
    cols: Seq<ExcelColumnInfo>,
    ps: Seq<ExcelColumnPosition>,
) -> Seq<CellWrite>
    decreases rows, n,
{
    if n <= 0 || n > rows.len() {
        Seq::empty()
    } else {
        proof {
            assert(decreases_to!(rows => rows[n - 1]));
        }
        spec_groups_writes_stacked(rows, n - 1, top, cols, ps) + spec_row_writes(
            rows[n - 1],
            top + spec_groups_sum(rows, n - 1),
            cols,
            ps,
        )
    }
}

/// The writes of the first `n` row-groups of a pass-through node: every
/// group starts at the same top row.
pub open spec fn spec_groups_writes_overlay(
    rows: Seq<ExcelRowData>,
    n: int,
    top: int,
    cols: Seq<ExcelColumnInfo>,
    ps: Seq<ExcelColumnPosition>,
) -> Seq<CellWrite>
    decreases rows, n,
{
    if n <= 0 || n > rows.len() {
        Seq::empty()
    } else {
        proof {
            assert(decreases_to!(rows => rows[n - 1]));
        }
        spec_groups_writes_overlay(rows, n - 1, top, cols, ps) + spec_row_writes(
            rows[n - 1],
            top,
            cols,
            ps,
        )
    }
}

/// All writes a row makes from `top`: the nodes with children in order,
/// then the scalar nodes, each scalar covering the row's full height.
pub open spec fn spec_row_writes(
    r: ExcelRowData,
    top: int,
    cols: Seq<ExcelColumnInfo>,
    ps: Seq<ExcelColumnPosition>,
) -> Seq<CellWrite>
    decreases r, 1int,
{
    proof {
        assert(decreases_to!(r => r.columns@));
    }
    spec_nodes_writes(r.columns@, r.columns@.len() as int, top, cols, ps) + spec_scalar_writes(
        r.columns@,
        r.columns@.len() as int,
        top,
        spec_row_height(r),
        ps,
    )
}

/// The writes of the first `n` nodes that carry children.
pub open spec fn spec_nodes_writes(
    s: Seq<ExcelColumnData>,
    n: int,
    top: int,
    cols: Seq<ExcelColumnInfo>,
    ps: Seq<ExcelColumnPosition>,
) -> Seq<CellWrite>
    decreases s, n,
{
    if n <= 0 || n > s.len() {
        Seq::empty()
    } else {
        proof {
            assert(decreases_to!(s => s[n - 1]));
        }
        spec_nodes_writes(s, n - 1, top, cols, ps) + spec_node_writes(s[n - 1], top, cols, ps)
    }
}

/// The writes of the scalar nodes among the first `n`, each over height `h`.
pub open spec fn spec_scalar_writes(
    s: Seq<ExcelColumnData>,
    n: int,
    top: int,
    h: int,
    ps: Seq<ExcelColumnPosition>,
) -> Seq<CellWrite>
    decreases n,
{
    if n <= 0 {
        Seq::empty()
    } else {
        spec_scalar_writes(s, n - 1, top, h, ps) + if s[n - 1].children@.len() == 0 {
            spec_scalar_own_write(s[n - 1], top, h, ps)
        } else {
            Seq::empty()
        }
    }
}

/// The first resolved position whose key equals `k`, if any.
fn find_pos_ix(ps: &Vec<ExcelColumnPosition>, k: &String) -> (r: Option<usize>)
    ensures
        match r {
            None => spec_find_pos(ps@, k@) is None,
            Some(m) => m < ps@.len() && spec_find_pos(ps@, k@) == Some(m as int),
        },
{
    let mut j: usize = 0;
    while j < ps.len()
        invariant
            j <= ps@.len(),
            spec_find_pos(ps@, k@) == spec_find_pos_from(ps@, k@, j as int),
        decreases ps@.len() - j,
    {
        if ps[j].key == *k {
            return Some(j);
        }
        j += 1;
    }
    None
}

/// The first declared column whose key equals `k`, if any.
fn find_col_ix(cols: &Vec<ExcelColumnInfo>, k: &String) -> (r: Option<usize>)
    ensures
        match r {
            None => spec_find_col(cols@, k@) is None,
            Some(m) => m < cols@.len() && spec_find_col(cols@, k@) == Some(m as int),
        },
{
    let mut j: usize = 0;
    while j < cols.len()
        invariant
            j <= cols@.len(),
            spec_find_col(cols@, k@) == spec_find_col_from(cols@, k@, j as int),
        decreases cols@.len() - j,
    {
        if cols[j].key == *k {
            return Some(j);
        }
        j += 1;
    }
    None
}

/// Concatenation of write lists associates.
pub proof fn lemma_seq_assoc<T>(a: Seq<T>, b: Seq<T>, c: Seq<T>)
    ensures
        (a + b) + c == a + (b + c),
{
    assert((a + b) + c =~= a + (b + c));
}

/// An empty write list on the right changes nothing.
proof fn lemma_seq_add_empty<T>(a: Seq<T>)
    ensures
        a + Seq::<T>::empty() == a,
{
    assert(a + Seq::<T>::empty() =~= a);
}

/// Places one node from `top`: appends its writes and returns the number of
/// rows it consumed, or `None` exactly when the rows it needs run past the
/// end of the grid's row space.
pub fn place_node(
    node: &ExcelColumnData,
    top: u32,
    cols: &Vec<ExcelColumnInfo>,
    ps: &Vec<ExcelColumnPosition>,
    out: &mut Vec<CellWrite>,
) -> (r: Option<u32>)
    ensures
        match r {
            Some(h) => {
                &&& top + spec_node_height(*node) <= u32::MAX
                &&& h == spec_node_height(*node)
                &&& final(out)@ == old(out)@ + spec_node_writes(*node, top as int, cols@, ps@)
            },
            None => top + spec_node_height(*node) > u32::MAX,
        },
    decreases *node,
{
    proof {
        lemma_node_height_pos(*node);
    }
    if node.children.len() == 0 {
        if top == u32::MAX {
            return None;
        }
        proof {
            lemma_seq_add_empty(old(out)@);
        }
        return Some(1);
    }
    if top == u32::MAX {
        return None;
    }
    let root = root_data_key();
    let ghost rows = node.children@;
    if node.key == root {
        // Pass-through: every group starts at this node's top row.
        let mut h: u32 = 1;
        let mut g: usize = 0;
        while g < node.children.len()
            invariant
                g <= rows.len(),
                rows == node.children@,
                rows.len() > 0,
                spec_is_sentinel(node.key@),
                top < u32::MAX,
                h == spec_groups_max(rows, g as int),
                top + h <= u32::MAX,
                out@ == old(out)@ + spec_groups_writes_overlay(rows, g as int, top as int, cols@, ps@),
            decreases rows.len() - g,
        {
            let sub = place_row(&node.children[g], top, cols, ps, out);
            match sub {
                None => {
                    proof {
                        lemma_groups_max_bounds(rows, g as int + 1, rows.len() as int);
                    }
                    return None;
                },
                Some(next) => {
                    proof {
                        lemma_row_height_pos(rows[g as int]);
                        lemma_seq_assoc(
                            old(out)@,
                            spec_groups_writes_overlay(rows, g as int, top as int, cols@, ps@),
                            spec_row_writes(rows[g as int], top as int, cols@, ps@),
                        );
                    }
                    let hg = next - top;
                    if hg > h {
                        h = hg;
                    }
                },
            }
            g += 1;
        }
        proof {
            lemma_seq_add_empty(spec_groups_writes_overlay(rows, rows.len() as int, top as int, cols@, ps@));
            lemma_seq_assoc(
                old(out)@,
                spec_groups_writes_overlay(rows, rows.len() as int, top as int, cols@, ps@),
                Seq::<CellWrite>::empty(),
            );
        }
        Some(h)
    } else {
        // Real column: groups stack in sequence beneath the node's top row.
        let mut cur: u32 = top;
        let mut g: usize = 0;
        while g < node.children.len()
            invariant
                g <= rows.len(),
                rows == node.children@,
                rows.len() > 0,
                !spec_is_sentinel(node.key@),
                cur == top + spec_groups_sum(rows, g as int),
                cur <= u32::MAX,
                out@ == old(out)@ + spec_groups_writes_stacked(rows, g as int, top as int, cols@, ps@),
            decreases rows.len() - g,
        {
            let sub = place_row(&node.children[g], cur, cols, ps, out);
            match sub {
                None => {
                    proof {
                        lemma_groups_sum_mono(rows, g as int + 1, rows.len() as int);
                    }
                    return None;
                },
                Some(next) => {
                    proof {
                        lemma_seq_assoc(
                            old(out)@,
                            spec_groups_writes_stacked(rows, g as int, top as int, cols@, ps@),
                            spec_row_writes(
                                rows[g as int],
                                top + spec_groups_sum(rows, g as int),
                                cols@,
                                ps@,
                            ),
                        );
                    }
                    cur = next;
                },
            }
            g += 1;
        }
        proof {
            lemma_groups_sum_pos(rows, rows.len() as int);
        }
        let h = cur - top;
        let ghost inner = spec_groups_writes_stacked(rows, rows.len() as int, top as int, cols@, ps@);
        match find_pos_ix(ps, &node.key) {
            None => {
                proof {
                    lemma_seq_add_empty(inner);
                    lemma_seq_assoc(old(out)@, inner, Seq::<CellWrite>::empty());
                }
            },
            Some(m) => {
                let suppressed = match find_col_ix(cols, &node.key) {
                    None => false,
                    Some(ci) => cols[ci].is_root_group(),
                };
                if !suppressed {
                    let p = &ps[m];
                    let w = CellWrite {
                        x1: p.x1,
                        x2: if h == 1 {
                            p.x1
                        } else {
                            p.x2
                        },
                        y1: top,
                        y2: top + h - 1,
                        value: clone_string(&node.value),
                        key: clone_string(&node.key),
                        data_type: clone_string(&p.data_type),
                    };
                    out.push(w);
                    proof {
                        assert(out@ =~= old(out)@ + inner + spec_node_own_write(
                            *node,
                            top as int,
                            cols@,
                            ps@,
                        ));
                        lemma_seq_assoc(
                            old(out)@,
                            inner,
                            spec_node_own_write(*node, top as int, cols@, ps@),
                        );
                    }
                } else {
                    proof {
                        lemma_seq_add_empty(inner);
                        lemma_seq_assoc(old(out)@, inner, Seq::<CellWrite>::empty());
                    }
                }
            },
        }
        Some(h)
    }
}

/// Places one row from `top`: appends its writes and returns the first grid
/// row after the rows it consumed, or `None` exactly when the rows it needs
/// run past the end of the grid's row space.
pub fn place_row(
    row: &ExcelRowData,
    top: u32,
    cols: &Vec<ExcelColumnInfo>,
    ps: &Vec<ExcelColumnPosition>,
    out: &mut Vec<CellWrite>,
) -> (r: Option<u32>)
    ensures
        match r {
            Some(next) => {
                &&& top + spec_row_height(*row) <= u32::MAX
                &&& next == top + spec_row_height(*row)
                &&& final(out)@ == old(out)@ + spec_row_writes(*row, top as int, cols@, ps@)
            },
            None => top + spec_row_height(*row) > u32::MAX,
        },
    decreases *row,
{
    proof {
        lemma_row_height_pos(*row);
    }
    if top == u32::MAX {
        // A row always consumes at least one grid row.
        return None;
    }
    let ghost s = row.columns@;
    let mut h: u32 = 1;
    let mut i: usize = 0;
    while i < row.columns.len()
        invariant
            i <= s.len(),
            s == row.columns@,
            top < u32::MAX,
            h == spec_row_max(s, i as int),
            top + h <= u32::MAX,
            out@ == old(out)@ + spec_nodes_writes(s, i as int, top as int, cols@, ps@),
        decreases s.len() - i,
    {
        let node = &row.columns[i];
        if node.children.len() > 0 {
            match place_node(node, top, cols, ps, out) {
                None => {
                    proof {
                        lemma_row_max_bounds(s, i as int + 1, s.len() as int);
                    }
                    return None;
                },
                Some(hn) => {
                    proof {
                        lemma_seq_assoc(
                            old(out)@,
                            spec_nodes_writes(s, i as int, top as int, cols@, ps@),
                            spec_node_writes(s[i as int], top as int, cols@, ps@),
                        );
                    }
                    if hn > h {
                        h = hn;
                    }
                },
            }
        } else {
            proof {
                assert(spec_node_height(s[i as int]) == 1);
                assert(spec_node_writes(s[i as int], top as int, cols@, ps@)
                    =~= Seq::<CellWrite>::empty());
                lemma_row_max_pos(s, i as int);
                lemma_seq_add_empty(spec_nodes_writes(s, i as int, top as int, cols@, ps@));
                lemma_seq_assoc(
                    old(out)@,
                    spec_nodes_writes(s, i as int, top as int, cols@, ps@),
                    Seq::<CellWrite>::empty(),
                );
            }
        }
        i += 1;
    }
    let next = top + h;
    // Scalars cover the row's full height, now that it is known.
    let mut i: usize = 0;
    while i < row.columns.len()
        invariant
            i <= s.len(),
            s == row.columns@,
            h == spec_row_height(*row),
            h >= 1,
            top + h <= u32::MAX,
            next == top + h,
            out@ == old(out)@ + spec_nodes_writes(s, s.len() as int, top as int, cols@, ps@)
                + spec_scalar_writes(s, i as int, top as int, h as int, ps@),
        decreases s.len() - i,
    {
        let ghost done = spec_nodes_writes(s, s.len() as int, top as int, cols@, ps@)
            + spec_scalar_writes(s, i as int, top as int, h as int, ps@);
        let node = &row.columns[i];
        if node.children.len() == 0 {
            match find_pos_ix(ps, &node.key) {
                None => {
                    proof {
                        lemma_seq_add_empty(done);
                        lemma_seq_assoc(
                            old(out)@ + spec_nodes_writes(s, s.len() as int, top as int, cols@, ps@),
                            spec_scalar_writes(s, i as int, top as int, h as int, ps@),
                            Seq::<CellWrite>::empty(),
                        );
                    }
                },
                Some(m) => {
                    let p = &ps[m];
                    let w = CellWrite {
                        x1: p.x1,
                        x2: if h == 1 {
                            p.x1
                        } else {
                            p.x2
                        },
                        y1: top,
                        y2: top + h - 1,
                        value: clone_string(&node.value),
                        key: clone_string(&node.key),
                        data_type: clone_string(&p.data_type),
                    };
                    out.push(w);
                    proof {
                        assert(out@ =~= old(out)@ + done + spec_scalar_own_write(
                            s[i as int],
                            top as int,
                            h as int,
                            ps@,
                        ));
                        lemma_seq_assoc(
                            old(out)@ + spec_nodes_writes(s, s.len() as int, top as int, cols@, ps@),
                            spec_scalar_writes(s, i as int, top as int, h as int, ps@),
                            spec_scalar_own_write(s[i as int], top as int, h as int, ps@),
                        );
                    }
                },
            }
        } else {
            proof {
                lemma_seq_add_empty(done);
                lemma_seq_assoc(
                    old(out)@ + spec_nodes_writes(s, s.len() as int, top as int, cols@, ps@),
                    spec_scalar_writes(s, i as int, top as int, h as int, ps@),
                    Seq::<CellWrite>::empty(),
                );
            }
        }
        i += 1;
    }
    proof {
        lemma_seq_assoc(
            old(out)@,
            spec_nodes_writes(s, s.len() as int, top as int, cols@, ps@),
            spec_scalar_writes(s, s.len() as int, top as int, h as int, ps@),
        );
    }
    Some(next)
}


/// The stacked height of more row-groups is no less.
pub proof fn lemma_groups_sum_mono(rows: Seq<ExcelRowData>, m: int, n: int)
    requires
        0 <= m <= n <= rows.len(),
    ensures
        spec_groups_sum(rows, m) <= spec_groups_sum(rows, n),
    decreases rows, n,
{
    if m < n {
        assert(decreases_to!(rows => rows[n - 1]));
        lemma_groups_sum_mono(rows, m, n - 1);
        lemma_row_height_pos(rows[n - 1]);
    }
}

/// Any one group's height is bounded by the running maximum over a longer
/// prefix.
pub proof fn lemma_groups_max_bounds(rows: Seq<ExcelRowData>, m: int, n: int)
    requires
        1 <= m <= n <= rows.len(),
    ensures
        spec_row_height(rows[m - 1]) <= spec_groups_max(rows, n),
    decreases rows, n,
{
    if m < n {
        lemma_groups_max_bounds(rows, m, n - 1);
    }
}

/// Any one node's height is bounded by the running maximum over a longer
/// prefix.
pub proof fn lemma_row_max_bounds(s: Seq<ExcelColumnData>, m: int, n: int)
    requires
        1 <= m <= n <= s.len(),
    ensures
        spec_node_height(s[m - 1]) <= spec_row_max(s, n),
    decreases s, n,
{
    if m < n {
        lemma_row_max_bounds(s, m, n - 1);
    }
}

/// All writes lie within the covered rows: shorthand for the bounds claim.
pub open spec fn spec_writes_within(ws: Seq<CellWrite>, top: int, h: int) -> bool {
    forall|k: int|
        0 <= k < ws.len() ==> top <= #[trigger] ws[k].y1 <= ws[k].y2 < top + h
}

/// Bounds carry over concatenation of write lists.
proof fn lemma_within_concat(a: Seq<CellWrite>, b: Seq<CellWrite>, top: int, h: int)
    requires
        spec_writes_within(a, top, h),
        spec_writes_within(b, top, h),
    ensures
        spec_writes_within(a + b, top, h),
{
    assert forall|k: int| 0 <= k < (a + b).len() implies top <= #[trigger] (a + b)[k].y1
        <= (a + b)[k].y2 < top + h by {
        if k < a.len() {
            assert((a + b)[k] == a[k]);
        } else {
            assert((a + b)[k] == b[k - a.len()]);
        }
    }
}

/// A narrower row window sits inside a wider one.
proof fn lemma_within_widen(ws: Seq<CellWrite>, top: int, h: int, top2: int, h2: int)
    requires
        spec_writes_within(ws, top, h),
        top2 <= top,
        top + h <= top2 + h2,
    ensures
        spec_writes_within(ws, top2, h2),
{
}

/// A node's writes stay within the rows the node consumes.
pub proof fn lemma_node_writes_bounds(
    c: ExcelColumnData,
    top: int,
    cols: Seq<ExcelColumnInfo>,
    ps: Seq<ExcelColumnPosition>,
)
    requires
        0 <= top,
        top + spec_node_height(c) <= u32::MAX,
    ensures
        spec_writes_within(spec_node_writes(c, top, cols, ps), top, spec_node_height(c)),
    decreases c, 0int,
{
    lemma_node_height_pos(c);
    if c.children@.len() > 0 {
        assert(decreases_to!(c => c.children@));
        let h = spec_node_height(c);
        let inner = if spec_is_sentinel(c.key@) {
            lemma_overlay_bounds(c.children@, c.children@.len() as int, top, cols, ps);
            spec_groups_writes_overlay(c.children@, c.children@.len() as int, top, cols, ps)
        } else {
            lemma_stacked_bounds(c.children@, c.children@.len() as int, top, cols, ps);
            spec_groups_writes_stacked(c.children@, c.children@.len() as int, top, cols, ps)
        };
        assert(spec_writes_within(inner, top, h));
        let own = spec_node_own_write(c, top, cols, ps);
        assert(spec_writes_within(own, top, h)) by {
            if own.len() > 0 {
                assert(own[0] == spec_block_write(
                    ps[spec_find_pos(ps, c.key@)->Some_0],
                    c,
                    top,
                    h,
                ));
            }
        }
        lemma_within_concat(inner, own, top, h);
    }
}

/// Stacked row-groups' writes stay within their combined rows.
pub proof fn lemma_stacked_bounds(
    rows: Seq<ExcelRowData>,
    n: int,
    top: int,
    cols: Seq<ExcelColumnInfo>,
    ps: Seq<ExcelColumnPosition>,
)
    requires
        0 <= top,
        n <= rows.len(),
        top + spec_groups_sum(rows, n) <= u32::MAX,
    ensures
        spec_writes_within(
            spec_groups_writes_stacked(rows, n, top, cols, ps),
            top,
            if spec_groups_sum(rows, n) >= 1 {
                spec_groups_sum(rows, n)
            } else {
                1int
            },
        ),
    decreases rows, n,
{
    if n > 0 {
        assert(decreases_to!(rows => rows[n - 1]));
        lemma_groups_sum_pos(rows, n);
        lemma_groups_sum_pos(rows, n - 1);
        lemma_row_height_pos(rows[n - 1]);
        lemma_stacked_bounds(rows, n - 1, top, cols, ps);
        lemma_row_writes_bounds(rows[n - 1], top + spec_groups_sum(rows, n - 1), cols, ps);
        let prev = spec_groups_writes_stacked(rows, n - 1, top, cols, ps);
        let cur = spec_row_writes(rows[n - 1], top + spec_groups_sum(rows, n - 1), cols, ps);
        let h = spec_groups_sum(rows, n);
        lemma_within_widen(
            prev,
            top,
            if spec_groups_sum(rows, n - 1) >= 1 {
                spec_groups_sum(rows, n - 1)
            } else {
                1int
            },
            top,
            h,
        );
        lemma_within_widen(
            cur,
            top + spec_groups_sum(rows, n - 1),
            spec_row_height(rows[n - 1]),
            top,
            h,
        );
        lemma_within_concat(prev, cur, top, h);
    }
}

/// Overlaid row-groups' writes stay within the tallest group's rows.
pub proof fn lemma_overlay_bounds(
    rows: Seq<ExcelRowData>,
    n: int,
    top: int,
    cols: Seq<ExcelColumnInfo>,
    ps: Seq<ExcelColumnPosition>,
)
    requires
        0 <= top,
        n <= rows.len(),
        top + spec_groups_max(rows, n) <= u32::MAX,
    ensures
        spec_writes_within(
            spec_groups_writes_overlay(rows, n, top, cols, ps),
            top,
            spec_groups_max(rows, n),
        ),
    decreases rows, n,
{
    if n > 0 {
        assert(decreases_to!(rows => rows[n - 1]));
        lemma_overlay_bounds(rows, n - 1, top, cols, ps);
        lemma_row_writes_bounds(rows[n - 1], top, cols, ps);
        let prev = spec_groups_writes_overlay(rows, n - 1, top, cols, ps);
        let cur = spec_row_writes(rows[n - 1], top, cols, ps);
        let h = spec_groups_max(rows, n);
        lemma_within_widen(prev, top, spec_groups_max(rows, n - 1), top, h);
        lemma_within_widen(cur, top, spec_row_height(rows[n - 1]), top, h);
        lemma_within_concat(prev, cur, top, h);
    }
}

/// A row's writes stay within the rows the row consumes.
pub proof fn lemma_row_writes_bounds(
    r: ExcelRowData,
    top: int,
    cols: Seq<ExcelColumnInfo>,
    ps: Seq<ExcelColumnPosition>,
)
    requires
        0 <= top,
        top + spec_row_height(r) <= u32::MAX,
    ensures
        spec_writes_within(spec_row_writes(r, top, cols, ps), top, spec_row_height(r)),
    decreases r, 1int,
{
    assert(decreases_to!(r => r.columns@));
    lemma_row_height_pos(r);
    let s = r.columns@;
    let h = spec_row_height(r);
    lemma_nodes_writes_bounds(s, s.len() as int, top, cols, ps);
    lemma_within_widen(
        spec_nodes_writes(s, s.len() as int, top, cols, ps),
        top,
        spec_row_max(s, s.len() as int),
        top,
        h,
    );
    lemma_scalar_writes_bounds(s, s.len() as int, top, h, ps);
    lemma_within_concat(
        spec_nodes_writes(s, s.len() as int, top, cols, ps),
        spec_scalar_writes(s, s.len() as int, top, h, ps),
        top,
        h,
    );
}

/// The child-bearing nodes' writes stay within the tallest node's rows.
pub proof fn lemma_nodes_writes_bounds(
    s: Seq<ExcelColumnData>,
    n: int,
    top: int,
    cols: Seq<ExcelColumnInfo>,
    ps: Seq<ExcelColumnPosition>,
)
    requires
        0 <= top,
        n <= s.len(),
        top + spec_row_max(s, n) <= u32::MAX,
    ensures
        spec_writes_within(spec_nodes_writes(s, n, top, cols, ps), top, spec_row_max(s, n)),
    decreases s, n,
{
    if n > 0 {
        assert(decreases_to!(s => s[n - 1]));
        lemma_row_max_pos(s, n - 1);
        lemma_node_height_pos(s[n - 1]);
        lemma_nodes_writes_bounds(s, n - 1, top, cols, ps);
        lemma_node_writes_bounds(s[n - 1], top, cols, ps);
        let prev = spec_nodes_writes(s, n - 1, top, cols, ps);
        let cur = spec_node_writes(s[n - 1], top, cols, ps);
        let h = spec_row_max(s, n);
        lemma_within_widen(prev, top, spec_row_max(s, n - 1), top, h);
        lemma_within_widen(cur, top, spec_node_height(s[n - 1]), top, h);
        lemma_within_concat(prev, cur, top, h);
    }
}

/// The scalar writes stay within the row's full height.
pub proof fn lemma_scalar_writes_bounds(
    s: Seq<ExcelColumnData>,
    n: int,
    top: int,
    h: int,
    ps: Seq<ExcelColumnPosition>,
)
    requires
        0 <= top,
        1 <= h,
        top + h <= u32::MAX,
    ensures
        spec_writes_within(spec_scalar_writes(s, n, top, h, ps), top, h),
    decreases n,
{
    if n > 0 {
        lemma_scalar_writes_bounds(s, n - 1, top, h, ps);
        let prev = spec_scalar_writes(s, n - 1, top, h, ps);
        let own = if s[n - 1].children@.len() == 0 {
            spec_scalar_own_write(s[n - 1], top, h, ps)
        } else {
            Seq::<CellWrite>::empty()
        };
        assert(spec_writes_within(own, top, h)) by {
            if own.len() > 0 {
                assert(own[0] == spec_block_write(
                    ps[spec_find_pos(ps, s[n - 1].key@)->Some_0],
                    s[n - 1],
                    top,
                    h,
                ));
            }
        }
        lemma_within_concat(prev, own, top, h);
    }
}

/// Height monotonicity: a row placed at `top` always ends strictly below
/// `top`, and when a second row is placed where the first ended, none of the
/// second row's writes touches a grid row the first row's writes cover.
pub proof fn lemma_rows_placed_sequentially(
    r1: ExcelRowData,
    r2: ExcelRowData,
    top: int,
    cols: Seq<ExcelColumnInfo>,
    ps: Seq<ExcelColumnPosition>,
)
    requires
        0 <= top,
        top + spec_row_height(r1) + spec_row_height(r2) <= u32::MAX,
    ensures
        top + spec_row_height(r1) > top,
        forall|k1: int, k2: int|
            0 <= k1 < spec_row_writes(r1, top, cols, ps).len() && 0 <= k2 < spec_row_writes(
                r2,
                top + spec_row_height(r1),
                cols,
                ps,
            ).len() ==> #[trigger] spec_row_writes(r1, top, cols, ps)[k1].y2
                < #[trigger] spec_row_writes(r2, top + spec_row_height(r1), cols, ps)[k2].y1,
{
    lemma_row_height_pos(r1);
    lemma_row_height_pos(r2);
    lemma_row_writes_bounds(r1, top, cols, ps);
    lemma_row_writes_bounds(r2, top + spec_row_height(r1), cols, ps);
    let ws1 = spec_row_writes(r1, top, cols, ps);
    let ws2 = spec_row_writes(r2, top + spec_row_height(r1), cols, ps);
    assert forall|k1: int, k2: int|
        0 <= k1 < ws1.len() && 0 <= k2 < ws2.len() implies #[trigger] ws1[k1].y2
        < #[trigger] ws2[k2].y1 by {
        assert(top <= ws1[k1].y1 <= ws1[k1].y2 < top + spec_row_height(r1));
        assert(top + spec_row_height(r1) <= ws2[k2].y1);
    }
}


} // verus!
