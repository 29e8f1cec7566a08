//! Header-phase planning: the exact instructions template creation hands to
//! the external writer — the title merge, one name write per resolved
//! header rectangle, one width per leaf column, and the freeze row — as a
//! plain value with a contract, so that what reaches the writer is pinned
//! the same way the export phase's write plan is.

use vstd::prelude::*;
use crate::compose::CellWrite;
use crate::error::HierarchyError;
use crate::export::spec_max_y2_upto;
use crate::info::ExcelColumnInfo;
use crate::info::ExcelInfo;
use crate::info::clone_string;
use crate::info::spec_columns_valid;
use crate::info::spec_first_invalid;
use crate::layout::ExcelColumnPosition;
use crate::layout::get_column_positions;
use crate::layout::spec_positions_resolved;

verus! {

/// One width assignment: the leaf column at grid column `x` gets `width`
/// character units.
#[derive(Debug)]
pub struct ColumnWidth {
    pub x: u16,
    pub width: u16,
}

/// Everything the template phase hands to the writer: the resolved
/// positions, the title merge (when a title is set), one header cell write
/// per column — the display name over exactly the resolved rectangle — the
/// leaf column widths, and the first scrolling row when the header block is
/// frozen.
#[derive(Debug)]
pub struct HeaderPlan {
    pub positions: Vec<ExcelColumnPosition>,
    pub title: Option<CellWrite>,
    pub header_writes: Vec<CellWrite>,
    pub widths: Vec<ColumnWidth>,
    pub freeze_row: Option<u32>,
}

/// The greatest `x2` among the first `n` resolved positions: the header
/// block's last grid column, which the title merge spans to.
pub open spec fn spec_max_x2_upto(ps: Seq<ExcelColumnPosition>, n: int) -> int
    decreases n,
{
    if n <= 0 {
        0
    } else if ps[n - 1].x2 > spec_max_x2_upto(ps, n - 1) {
        ps[n - 1].x2 as int
    } else {
        spec_max_x2_upto(ps, n - 1)
    }
}

/// The header cell write of column `i`: its display name over exactly the
/// resolved rectangle, carrying the column's key and data type.
pub open spec fn spec_header_write(
    cs: Seq<ExcelColumnInfo>,
    ps: Seq<ExcelColumnPosition>,
    i: int,
) -> CellWrite {
    CellWrite {
        x1: ps[i].x1,
        x2: ps[i].x2,
        y1: ps[i].y1,
        y2: ps[i].y2,
        value: cs[i].name,
        key: cs[i].key,
        data_type: cs[i].data_type,
    }
}

/// The header cell writes of the first `n` columns, in declaration order.
pub open spec fn spec_header_writes_upto(
    cs: Seq<ExcelColumnInfo>,
    ps: Seq<ExcelColumnPosition>,
    n: int,
) -> Seq<CellWrite>
    decreases n,
{
    if n <= 0 {
        Seq::empty()
    } else {
        spec_header_writes_upto(cs, ps, n - 1) + seq![spec_header_write(cs, ps, n - 1)]
    }
}

/// The width assignments of the first `n` columns: one per leaf, at the
/// leaf's grid column, with the declared width.
pub open spec fn spec_widths_upto(
    cs: Seq<ExcelColumnInfo>,
    ps: Seq<ExcelColumnPosition>,
    n: int,
) -> Seq<ColumnWidth>
    decreases n,
{
    if n <= 0 {
        Seq::empty()
    } else {
        spec_widths_upto(cs, ps, n - 1) + if ps[n - 1].is_leaf {
            seq![ColumnWidth { x: ps[n - 1].x1, width: cs[n - 1].width }]
        } else {
            Seq::empty()
        }
    }
}

/// Whether `t` is the title merge: the title text over the single grid row
/// `dy`, from column `dx` to the header block's last column, carrying no
/// column key.
pub open spec fn spec_title_write_matches(
    t: CellWrite,
    info: ExcelInfo,
    ps: Seq<ExcelColumnPosition>,
) -> bool {
    &&& t.x1 == info.dx
    &&& t.x2 == spec_max_x2_upto(ps, ps.len() as int)
    &&& t.y1 == info.dy
    &&& t.y2 == info.dy
    &&& info.title is Some && t.value@ == info.title->0@
    &&& t.key@ == Seq::<char>::empty()
    &&& t.data_type@ == Seq::<char>::empty()
}

/// The whole header plan a sheet description resolves to.
pub open spec fn spec_header_plan_ok(info: ExcelInfo, plan: HeaderPlan) -> bool {
    let cs = info.columns@;
    let ps = plan.positions@;
    &&& spec_positions_resolved(info, ps)
    &&& plan.header_writes@ == spec_header_writes_upto(cs, ps, cs.len() as int)
    &&& plan.widths@ == spec_widths_upto(cs, ps, cs.len() as int)
    &&& (plan.title is Some <==> info.title is Some)
    &&& (plan.title is Some ==> spec_title_write_matches(plan.title->0, info, ps))
    &&& plan.freeze_row == if info.is_header_freeze {
        Some(((spec_max_y2_upto(ps, ps.len() as int) + 1) as u32))
    } else {
        None::<u32>
    }
}

/// There is exactly one header cell write per column.
pub proof fn lemma_header_writes_len(
    cs: Seq<ExcelColumnInfo>,
    ps: Seq<ExcelColumnPosition>,
    n: int,
)
    requires
        0 <= n,
    ensures
        spec_header_writes_upto(cs, ps, n).len() == n,
    decreases n,
{
    if n > 0 {
        lemma_header_writes_len(cs, ps, n - 1);
    }
}

/// Lays the header phase out for a sheet description: resolves the columns
/// and fixes, as plain values, everything template creation hands to the
/// writer. Fails, producing no plan, exactly when the declared forest is
/// invalid, naming the first offending column.
pub fn header_plan(info: &ExcelInfo) -> (r: Result<HeaderPlan, HierarchyError>)
    requires
        info.dx as int + info.columns@.len() <= 65536,
        info.dy as int + info.columns@.len() + 1 <= u32::MAX as int,
    ensures
        match r {
            Ok(plan) => spec_columns_valid(info.columns@) && spec_header_plan_ok(*info, plan),
            Err(e) => {
                let n = spec_first_invalid(info.columns@, 0);
                &&& !spec_columns_valid(info.columns@)
                &&& 0 <= n < info.columns@.len()
                &&& e.column@ == info.columns@[n].key@
                &&& e.parent@ == info.columns@[n].parent@
            },
        },
{
    let positions = match get_column_positions(info) {
        Err(e) => {
            return Err(e);
        },
        Ok(ps) => ps,
    };
    let ghost psv = positions@;
    let ghost cs = info.columns@;

    let mut header_writes: Vec<CellWrite> = Vec::new();
    let mut widths: Vec<ColumnWidth> = Vec::new();
    let mut max_x: u16 = 0;
    let mut max_y2: u32 = 0;
    let mut i: usize = 0;
    while i < positions.len()
        invariant
            i <= psv.len(),
            psv == positions@,
            cs == info.columns@,
            psv.len() == cs.len(),
            header_writes@ == spec_header_writes_upto(cs, psv, i as int),
            widths@ == spec_widths_upto(cs, psv, i as int),
            max_x == spec_max_x2_upto(psv, i as int),
            max_y2 == spec_max_y2_upto(psv, i as int),
        decreases psv.len() - i,
    {
        let p = &positions[i];
        let c = &info.columns[i];
        let w = CellWrite {
            x1: p.x1,
            x2: p.x2,
            y1: p.y1,
            y2: p.y2,
            value: clone_string(&c.name),
            key: clone_string(&c.key),
            data_type: clone_string(&c.data_type),
        };
        header_writes.push(w);
        proof {
            assert(header_writes@ =~= spec_header_writes_upto(cs, psv, i as int + 1));
        }
        if p.is_leaf {
            widths.push(ColumnWidth { x: p.x1, width: c.width });
            proof {
                assert(widths@ =~= spec_widths_upto(cs, psv, i as int + 1));
            }
        } else {
            proof {
                assert(widths@ =~= spec_widths_upto(cs, psv, i as int + 1));
            }
        }
        if p.x2 > max_x {
            max_x = p.x2;
        }
        if p.y2 > max_y2 {
            max_y2 = p.y2;
        }
        i += 1;
    }

    let title = match &info.title {
        None => None,
        Some(t) => Some(
            CellWrite {
                x1: info.dx,
                x2: max_x,
                y1: info.dy,
                y2: info.dy,
                value: clone_string(t),
                key: String::new(),
                data_type: String::new(),
            },
        ),
    };
    let freeze_row = if info.is_header_freeze {
        proof {
            crate::export::lemma_max_y2_in_grid(*info, psv, psv.len() as int);
        }
        Some(max_y2 + 1)
    } else {
        None
    };
    Ok(HeaderPlan { positions, title, header_writes, widths, freeze_row })
}

} // verus!
