//! The round trip between export and import for flat data: a specification
//! without groups lays every row on exactly one grid row, one single-cell
//! write per declared column, at exactly the cell the import mapping reads
//! that column from. Reading an exported sheet therefore reproduces the
//! exported key/value pairs, row for row, as far as the cell grid itself is
//! concerned — the byte codec in between is a collaborator this library
//! does not model.

use vstd::prelude::*;
use crate::compose::CellWrite;
use crate::compose::spec_block_write;
use crate::compose::spec_find_pos;
use crate::compose::spec_find_pos_from;
use crate::compose::spec_groups_sum;
use crate::compose::spec_node_height;
use crate::compose::spec_nodes_writes;
use crate::compose::spec_row_height;
use crate::compose::spec_row_max;
use crate::compose::spec_row_writes;
use crate::compose::spec_scalar_writes;
use crate::data::ExcelColumnData;
use crate::data::ExcelData;
use crate::data::ExcelRowData;

use crate::info::ExcelColumnInfo;
use crate::info::ExcelInfo;
use crate::info::spec_columns_valid;
use crate::info::spec_has_parent;
use crate::info::spec_stack_after;
use crate::info::spec_unique_keys;
use crate::layout::ExcelColumnPosition;
use crate::layout::spec_is_leaf;
use crate::layout::spec_position_ok;
use crate::layout::spec_positions_resolved;
use crate::layout::spec_rank;

verus! {

/// A flat specification: no column declares a parent.
pub open spec fn spec_flat_columns(cs: Seq<ExcelColumnInfo>) -> bool {
    forall|i: int| 0 <= i < cs.len() ==> !spec_has_parent(#[trigger] cs[i])
}

/// A flat data row shaped like the specification: one childless node per
/// declared column, in declaration order, joined by key.
pub open spec fn spec_flat_row_for(cs: Seq<ExcelColumnInfo>, r: ExcelRowData) -> bool {
    &&& r.columns@.len() == cs.len()
    &&& forall|k: int|
        0 <= k < cs.len() ==> (#[trigger] r.columns@[k]).children@.len() == 0
            && r.columns@[k].key@ == cs[k].key@
}

/// In a flat specification every column is a leaf.
pub proof fn lemma_flat_all_leaves(cs: Seq<ExcelColumnInfo>, i: int)
    requires
        spec_flat_columns(cs),
        0 <= i < cs.len(),
    ensures
        spec_is_leaf(cs, i),
{
}

/// A flat specification is always a valid forest.
pub proof fn lemma_flat_valid(cs: Seq<ExcelColumnInfo>)
    requires
        spec_flat_columns(cs),
    ensures
        spec_columns_valid(cs),
{
    lemma_flat_stack(cs, cs.len() as int);
}

/// Without parent references the open-block scan never fails.
proof fn lemma_flat_stack(cs: Seq<ExcelColumnInfo>, n: int)
    requires
        spec_flat_columns(cs),
        0 <= n <= cs.len(),
    ensures
        spec_stack_after(cs, n) is Some,
    decreases n,
{
    if n > 0 {
        lemma_flat_stack(cs, n - 1);
    }
}

/// In a flat specification the `n`th leaf is the `n`th column.
pub proof fn lemma_flat_rank(cs: Seq<ExcelColumnInfo>, n: int)
    requires
        spec_flat_columns(cs),
        0 <= n <= cs.len(),
    ensures
        spec_rank(cs, n) == n,
    decreases n,
{
    if n > 0 {
        lemma_flat_rank(cs, n - 1);
        lemma_flat_all_leaves(cs, n - 1);
    }
}

/// A row of childless nodes is one grid row tall.
pub proof fn lemma_flat_row_height(r: ExcelRowData)
    requires
        forall|k: int|
            0 <= k < r.columns@.len() ==> (#[trigger] r.columns@[k]).children@.len() == 0,
    ensures
        spec_row_height(r) == 1,
{
    lemma_flat_row_max(r.columns@, r.columns@.len() as int);
}

/// The running height maximum over childless nodes stays at one.
proof fn lemma_flat_row_max(s: Seq<ExcelColumnData>, n: int)
    requires
        forall|k: int| 0 <= k < s.len() ==> (#[trigger] s[k]).children@.len() == 0,
        n <= s.len(),
    ensures
        spec_row_max(s, n) == 1,
    decreases n,
{
    if n > 0 {
        lemma_flat_row_max(s, n - 1);
        assert(spec_node_height(s[n - 1]) == 1);
    }
}

/// The first-match search lands on a known match with no earlier match.
proof fn lemma_find_pos_lands(ps: Seq<ExcelColumnPosition>, key: Seq<char>, j: int, k: int)
    requires
        0 <= j <= k < ps.len(),
        forall|m: int| j <= m < k ==> (#[trigger] ps[m].key)@ != key,
        ps[k].key@ == key,
    ensures
        spec_find_pos_from(ps, key, j) == Some(k),
    decreases k - j,
{
    if j < k {
        lemma_find_pos_lands(ps, key, j + 1, k);
    }
}

/// With unique keys, a declared key resolves to its own column's position.
pub proof fn lemma_find_pos_exact(info: ExcelInfo, ps: Seq<ExcelColumnPosition>, k: int)
    requires
        spec_positions_resolved(info, ps),
        spec_unique_keys(info.columns@),
        0 <= k < ps.len(),
    ensures
        spec_find_pos(ps, info.columns@[k].key@) == Some(k),
{
    let cs = info.columns@;
    assert forall|m: int| 0 <= m < k implies (#[trigger] ps[m].key)@ != cs[k].key@ by {
        assert(spec_position_ok(info, m, ps[m]));
        assert(cs[m].key@ != cs[k].key@);
    }
    assert(spec_position_ok(info, k, ps[k]));
    lemma_find_pos_lands(ps, cs[k].key@, 0, k);
}

/// Childless nodes emit no child-block writes.
proof fn lemma_flat_nodes_writes(
    s: Seq<ExcelColumnData>,
    n: int,
    top: int,
    cols: Seq<ExcelColumnInfo>,
    ps: Seq<ExcelColumnPosition>,
)
    requires
        forall|k: int| 0 <= k < s.len() ==> (#[trigger] s[k]).children@.len() == 0,
        n <= s.len(),
    ensures
        spec_nodes_writes(s, n, top, cols, ps) == Seq::<CellWrite>::empty(),
    decreases n,
{
    if n > 0 {
        lemma_flat_nodes_writes(s, n - 1, top, cols, ps);
        assert(s[n - 1].children@.len() == 0);
        assert(crate::compose::spec_node_writes(s[n - 1], top, cols, ps)
            == Seq::<CellWrite>::empty());
        assert(spec_nodes_writes(s, n, top, cols, ps) =~= Seq::<CellWrite>::empty());
    }
}

/// The scalar writes of a flat row: exactly one single-cell write per
/// column, the `k`-th at the `k`-th column's position.
proof fn lemma_flat_scalar_writes(
    info: ExcelInfo,
    ps: Seq<ExcelColumnPosition>,
    r: ExcelRowData,
    n: int,
    top: int,
)
    requires
        spec_positions_resolved(info, ps),
        spec_unique_keys(info.columns@),
        spec_flat_row_for(info.columns@, r),
        0 <= n <= info.columns@.len(),
    ensures
        spec_scalar_writes(r.columns@, n, top, 1, ps).len() == n,
        forall|k: int|
            0 <= k < n ==> #[trigger] spec_scalar_writes(r.columns@, n, top, 1, ps)[k]
                == spec_block_write(ps[k], r.columns@[k], top, 1),
    decreases n,
{
    if n > 0 {
        lemma_flat_scalar_writes(info, ps, r, n - 1, top);
        lemma_find_pos_exact(info, ps, n - 1);
        let prev = spec_scalar_writes(r.columns@, n - 1, top, 1, ps);
        let own = seq![spec_block_write(ps[n - 1], r.columns@[n - 1], top, 1)];
        assert(spec_scalar_writes(r.columns@, n, top, 1, ps) == prev + own);
    }
}

/// Round trip for flat data: a flat row placed at `top` consumes exactly
/// one grid row and writes, for the `k`-th declared column, one single
/// cell at the import mapping's coordinates for that column — grid column
/// `ps[k].x1`, grid row `top` — holding the node's own value and key. Each
/// sheet row read back below the header therefore reproduces the exported
/// row's key/value pairs in declaration order.
pub proof fn lemma_flat_round_trip(
    info: ExcelInfo,
    ps: Seq<ExcelColumnPosition>,
    r: ExcelRowData,
    top: int,
)
    requires
        spec_flat_columns(info.columns@),
        spec_unique_keys(info.columns@),
        spec_positions_resolved(info, ps),
        spec_flat_row_for(info.columns@, r),
        0 <= top <= u32::MAX,
    ensures
        spec_row_height(r) == 1,
        spec_row_writes(r, top, info.columns@, ps).len() == info.columns@.len(),
        forall|k: int|
            0 <= k < info.columns@.len() ==> #[trigger] spec_row_writes(
                r,
                top,
                info.columns@,
                ps,
            )[k] == (CellWrite {
                x1: ps[k].x1,
                x2: ps[k].x1,
                y1: top as u32,
                y2: top as u32,
                value: r.columns@[k].value,
                key: r.columns@[k].key,
                data_type: ps[k].data_type,
            }),
{
    let cs = info.columns@;
    lemma_flat_row_height(r);
    lemma_flat_nodes_writes(r.columns@, r.columns@.len() as int, top, cs, ps);
    lemma_flat_scalar_writes(info, ps, r, cs.len() as int, top);
    let nw = spec_nodes_writes(r.columns@, r.columns@.len() as int, top, cs, ps);
    let sw = spec_scalar_writes(r.columns@, r.columns@.len() as int, top, 1, ps);
    assert(spec_row_writes(r, top, cs, ps) == nw + sw);
    assert(spec_row_writes(r, top, cs, ps) =~= sw);
    assert forall|k: int| 0 <= k < cs.len() implies #[trigger] spec_row_writes(r, top, cs, ps)[k]
        == (CellWrite {
        x1: ps[k].x1,
        x2: ps[k].x1,
        y1: top as u32,
        y2: top as u32,
        value: r.columns@[k].value,
        key: r.columns@[k].key,
        data_type: ps[k].data_type,
    }) by {
        assert(sw[k] == spec_block_write(ps[k], r.columns@[k], top, 1));
    }
    assert forall|k: int| 0 <= k < cs.len() implies #[trigger] ps[k].x1 == info.dx + k by {
        lemma_flat_rank(cs, k);
        assert(spec_position_ok(info, k, ps[k]));
    }
}

/// Round trip for a flat data set: placing the rows in sequence from
/// `start` puts row `r` on grid row `start + r`, and within it the `k`-th
/// declared column's value in a single cell at grid column `dx + k` — the
/// very cell the import mapping reads the `k`-th leaf from. Reading an
/// exported flat data set back therefore reproduces its key/value pairs
/// with row order preserved.
pub proof fn lemma_flat_data_round_trip(
    info: ExcelInfo,
    ps: Seq<ExcelColumnPosition>,
    data: ExcelData,
    start: int,
)
    requires
        spec_flat_columns(info.columns@),
        spec_unique_keys(info.columns@),
        spec_positions_resolved(info, ps),
        forall|r: int|
            0 <= r < data.rows@.len() ==> spec_flat_row_for(info.columns@, #[trigger] data.rows@[r]),
        0 <= start,
        start + data.rows@.len() <= u32::MAX,
    ensures
        spec_columns_valid(info.columns@),
        forall|r: int|
            0 <= r < data.rows@.len() ==> #[trigger] spec_groups_sum(data.rows@, r) == r,
        spec_groups_sum(data.rows@, data.rows@.len() as int) == data.rows@.len(),
        forall|r: int, k: int|
            0 <= r < data.rows@.len() && 0 <= k < info.columns@.len() ==> #[trigger] spec_row_writes(
                data.rows@[r],
                start + r,
                info.columns@,
                ps,
            )[k] == (CellWrite {
                x1: (info.dx + k) as u16,
                x2: (info.dx + k) as u16,
                y1: (start + r) as u32,
                y2: (start + r) as u32,
                value: data.rows@[r].columns@[k].value,
                key: data.rows@[r].columns@[k].key,
                data_type: ps[k].data_type,
            }),
{
    let cs = info.columns@;
    lemma_flat_valid(cs);
    assert forall|r: int| 0 <= r <= data.rows@.len() implies #[trigger] spec_groups_sum(
        data.rows@,
        r,
    ) == r by {
        lemma_flat_sum_prefix(cs, data.rows@, r);
    }
    assert forall|r: int, k: int|
        0 <= r < data.rows@.len() && 0 <= k < cs.len() implies #[trigger] spec_row_writes(
        data.rows@[r],
        start + r,
        cs,
        ps,
    )[k] == (CellWrite {
        x1: (info.dx + k) as u16,
        x2: (info.dx + k) as u16,
        y1: (start + r) as u32,
        y2: (start + r) as u32,
        value: data.rows@[r].columns@[k].value,
        key: data.rows@[r].columns@[k].key,
        data_type: ps[k].data_type,
    }) by {
        lemma_flat_round_trip(info, ps, data.rows@[r], start + r);
        lemma_flat_rank(cs, k);
        assert(spec_position_ok(info, k, ps[k]));
        assert(ps[k].x1 == info.dx + k);
    }
}

/// Flat rows stack one grid row per row.
proof fn lemma_flat_sum_prefix(cs: Seq<ExcelColumnInfo>, rows: Seq<ExcelRowData>, n: int)
    requires
        forall|r: int| 0 <= r < rows.len() ==> spec_flat_row_for(cs, #[trigger] rows[r]),
        0 <= n <= rows.len(),
    ensures
        spec_groups_sum(rows, n) == n,
    decreases n,
{
    if n > 0 {
        lemma_flat_sum_prefix(cs, rows, n - 1);
        lemma_flat_row_height(rows[n - 1]);
    }
}

} // verus!
