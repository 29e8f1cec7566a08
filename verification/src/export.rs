//! Export planning: placing every data row beneath the header block and
//! collecting the cell writes and validation ranges that rendering applies.

use vstd::prelude::*;
use crate::compose::CellWrite;
use crate::compose::place_row;
use crate::compose::spec_groups_sum;
use crate::compose::spec_groups_writes_stacked;
use crate::data::ExcelData;
use crate::data::ExcelRowData;
use crate::error::CodecError;
use crate::error::ExcelError;
use crate::info::ExcelColumnInfo;
use crate::info::ExcelInfo;
use crate::info::clone_string;
use crate::info::spec_columns_valid;
use crate::info::spec_first_invalid;
use crate::layout::ExcelColumnPosition;
use crate::layout::get_column_positions;
use crate::layout::spec_positions_resolved;

verus! {

/// One value-validation range: a dropdown list attached to a leaf column
/// over the rows that were written.
#[derive(Debug)]
pub struct ValidationPlan {
    pub x: u16,
    pub first_row: u32,
    pub last_row: u32,
    pub values: Vec<String>,
    pub key: String,
}

/// Everything rendering needs to put one data set on a sheet: the resolved
/// columns, the data cell writes, the row range the data covers, and the
/// validation ranges.
#[derive(Debug)]
pub struct ExportPlan {
    pub positions: Vec<ExcelColumnPosition>,
    pub writes: Vec<CellWrite>,
    pub data_start: u32,
    pub data_end: u32,
    pub validations: Vec<ValidationPlan>,
}

/// The greatest `y2` among the first `n` resolved positions: the last grid
/// row of the header block.
pub open spec fn spec_max_y2_upto(ps: Seq<ExcelColumnPosition>, n: int) -> int
    decreases n,
{
    if n <= 0 {
        0
    } else if ps[n - 1].y2 > spec_max_y2_upto(ps, n - 1) {
        ps[n - 1].y2 as int
    } else {
        spec_max_y2_upto(ps, n - 1)
    }
}

/// The grid row where data starts: one past the header block.
pub open spec fn spec_data_start(ps: Seq<ExcelColumnPosition>) -> int {
    spec_max_y2_upto(ps, ps.len() as int) + 1
}

/// The validation ranges of the first `n` columns: one per leaf column that
/// declares allowed values, spanning rows `first..=last`, the rows the data
/// actually covers.
pub open spec fn spec_validations_upto(
    cols: Seq<ExcelColumnInfo>,
    ps: Seq<ExcelColumnPosition>,
    n: int,
    first: int,
    last: int,
) -> Seq<ValidationPlan>
    decreases n,
{
    if n <= 0 {
        Seq::empty()
    } else {
        spec_validations_upto(cols, ps, n - 1, first, last) + if ps[n - 1].is_leaf && cols[n
            - 1].allowed_values@.len() > 0 {
            seq![
                ValidationPlan {
                    x: ps[n - 1].x1,
                    first_row: first as u32,
                    last_row: last as u32,
                    values: cols[n - 1].allowed_values,
                    key: cols[n - 1].key,
                },
            ]
        } else {
            Seq::empty()
        }
    }
}

/// Whether two validation ranges carry the same coordinates and contents.
pub open spec fn spec_validation_matches(a: ValidationPlan, b: ValidationPlan) -> bool {
    &&& a.x == b.x
    &&& a.first_row == b.first_row
    &&& a.last_row == b.last_row
    &&& a.values@ == b.values@
    &&& a.key@ == b.key@
}

/// Whether two validation lists agree range for range.
pub open spec fn spec_plans_match(a: Seq<ValidationPlan>, b: Seq<ValidationPlan>) -> bool {
    &&& a.len() == b.len()
    &&& forall|k: int| 0 <= k < a.len() ==> spec_validation_matches(#[trigger] a[k], b[k])
}

/// Copies a list of strings, keeping its contents.
fn clone_string_vec(v: &Vec<String>) -> (r: Vec<String>)
    ensures
        r@ == v@,
{
    let mut r: Vec<String> = Vec::new();
    let mut i: usize = 0;
    while i < v.len()
        invariant
            i <= v@.len(),
            r@.len() == i,
            forall|k: int| 0 <= k < i ==> r@[k] == v@[k],
        decreases v@.len() - i,
    {
        r.push(clone_string(&v[i]));
        i += 1;
    }
    proof {
        assert(r@ =~= v@);
    }
    r
}

/// Places the rows of a data set one beneath the other from `start`:
/// appends their writes and returns the first free row, or `None` exactly
/// when the rows needed run past the end of the grid's row space.
pub fn place_rows(
    rows: &Vec<ExcelRowData>,
    start: u32,
    cols: &Vec<ExcelColumnInfo>,
    ps: &Vec<ExcelColumnPosition>,
    out: &mut Vec<CellWrite>,
) -> (r: Option<u32>)
    ensures
        match r {
            Some(end) => {
                &&& start + spec_groups_sum(rows@, rows@.len() as int) <= u32::MAX
                &&& end == start + spec_groups_sum(rows@, rows@.len() as int)
                &&& final(out)@ == old(out)@ + spec_groups_writes_stacked(
                    rows@,
                    rows@.len() as int,
                    start as int,
                    cols@,
                    ps@,
                )
            },
            None => start + spec_groups_sum(rows@, rows@.len() as int) > u32::MAX,
        },
{
    let ghost rs = rows@;
    let mut cur: u32 = start;
    let mut g: usize = 0;
    while g < rows.len()
        invariant
            g <= rs.len(),
            rs == rows@,
            cur == start + spec_groups_sum(rs, g as int),
            cur <= u32::MAX,
            out@ == old(out)@ + spec_groups_writes_stacked(rs, g as int, start as int, cols@, ps@),
        decreases rs.len() - g,
    {
        let sub = place_row(&rows[g], cur, cols, ps, out);
        match sub {
            None => {
                proof {
                    crate::compose::lemma_groups_sum_mono(rs, g as int + 1, rs.len() as int);
                }
                return None;
            },
            Some(next) => {
                proof {
                    crate::compose::lemma_seq_assoc(
                        old(out)@,
                        spec_groups_writes_stacked(rs, g as int, start as int, cols@, ps@),
                        crate::compose::spec_row_writes(
                            rs[g as int],
                            start + spec_groups_sum(rs, g as int),
                            cols@,
                            ps@,
                        ),
                    );
                }
                cur = next;
            },
        }
        g += 1;
    }
    Some(cur)
}

/// Lays one data set out beneath the header block: resolves the columns,
/// places every row in sequence, and collects the validation ranges.
/// Fails with a hierarchy error exactly when the declared forest is
/// invalid, and with a codec error exactly when the data needs more grid
/// rows than the row space has.
pub fn export_plan(info: &ExcelInfo, data: &ExcelData) -> (r: Result<ExportPlan, ExcelError>)
    requires
        info.dx as int + info.columns@.len() <= 65536,
        info.dy as int + info.columns@.len() + 1 <= u32::MAX as int,
    ensures
        match r {
            Ok(plan) => {
                &&& spec_columns_valid(info.columns@)
                &&& spec_positions_resolved(*info, plan.positions@)
                &&& plan.data_start == spec_data_start(plan.positions@)
                &&& plan.data_start == spec_data_start_of(*info)
                &&& plan.data_start + spec_groups_sum(data.rows@, data.rows@.len() as int)
                    <= u32::MAX
                &&& plan.data_end == plan.data_start + spec_groups_sum(
                    data.rows@,
                    data.rows@.len() as int,
                )
                &&& plan.writes@ == spec_groups_writes_stacked(
                    data.rows@,
                    data.rows@.len() as int,
                    plan.data_start as int,
                    info.columns@,
                    plan.positions@,
                )
                &&& if plan.data_end > plan.data_start {
                    spec_plans_match(
                        plan.validations@,
                        spec_validations_upto(
                            info.columns@,
                            plan.positions@,
                            info.columns@.len() as int,
                            plan.data_start as int,
                            plan.data_end as int - 1,
                        ),
                    )
                } else {
                    plan.validations@ == Seq::<ValidationPlan>::empty()
                }
            },
            Err(ExcelError::Hierarchy(e)) => {
                let n = spec_first_invalid(info.columns@, 0);
                &&& !spec_columns_valid(info.columns@)
                &&& 0 <= n < info.columns@.len()
                &&& e.column@ == info.columns@[n].key@
                &&& e.parent@ == info.columns@[n].parent@
            },
            Err(ExcelError::Codec(_)) => spec_columns_valid(info.columns@)
                && spec_data_start_of(*info) + spec_groups_sum(
                data.rows@,
                data.rows@.len() as int,
            ) > u32::MAX,
            Err(ExcelError::Value(_)) => false,
        },
{
    let positions = match get_column_positions(info) {
        Err(e) => {
            return Err(ExcelError::Hierarchy(e));
        },
        Ok(ps) => ps,
    };
    let ghost psv = positions@;

    let mut max_y2: u32 = 0;
    let mut n: usize = 0;
    while n < positions.len()
        invariant
            n <= psv.len(),
            psv == positions@,
            max_y2 == spec_max_y2_upto(psv, n as int),
        decreases psv.len() - n,
    {
        if positions[n].y2 > max_y2 {
            max_y2 = positions[n].y2;
        }
        n += 1;
    }
    proof {
        lemma_max_y2_in_grid(*info, psv, psv.len() as int);
        lemma_max_y2_agrees(*info, psv, psv.len() as int);
    }
    let data_start: u32 = max_y2 + 1;

    let mut writes: Vec<CellWrite> = Vec::new();
    let data_end = match place_rows(&data.rows, data_start, &info.columns, &positions, &mut writes) {
        None => {
            return Err(
                ExcelError::Codec(
                    CodecError {
                        op: String::from_str("place rows"),
                        detail: String::from_str("the grid's row space is exhausted"),
                    },
                ),
            );
        },
        Some(end) => end,
    };

    // Validation lists span the rows the data actually covers; with no
    // data rows written, none is attached.
    let mut validations: Vec<ValidationPlan> = Vec::new();
    if data_end > data_start {
        let last_written: u32 = data_end - 1;
        let mut i: usize = 0;
        while i < positions.len()
            invariant
                i <= psv.len(),
                psv == positions@,
                psv.len() == info.columns@.len(),
                last_written == data_end - 1,
                spec_plans_match(
                    validations@,
                    spec_validations_upto(
                        info.columns@,
                        psv,
                        i as int,
                        data_start as int,
                        data_end as int - 1,
                    ),
                ),
            decreases psv.len() - i,
        {
            let p = &positions[i];
            let c = &info.columns[i];
            if p.is_leaf && c.allowed_values.len() > 0 {
                let v = ValidationPlan {
                    x: p.x1,
                    first_row: data_start,
                    last_row: last_written,
                    values: clone_string_vec(&c.allowed_values),
                    key: clone_string(&c.key),
                };
                validations.push(v);
                proof {
                    let b = spec_validations_upto(
                        info.columns@,
                        psv,
                        i as int + 1,
                        data_start as int,
                        data_end as int - 1,
                    );
                    let b0 = spec_validations_upto(
                        info.columns@,
                        psv,
                        i as int,
                        data_start as int,
                        data_end as int - 1,
                    );
                    assert(b == b0 + seq![
                        ValidationPlan {
                            x: psv[i as int].x1,
                            first_row: data_start,
                            last_row: last_written,
                            values: info.columns@[i as int].allowed_values,
                            key: info.columns@[i as int].key,
                        },
                    ]);
                    assert(spec_validation_matches(
                        validations@[b0.len() as int],
                        b[b0.len() as int],
                    ));
                }
            } else {
                proof {
                    assert(spec_validations_upto(
                        info.columns@,
                        psv,
                        i as int + 1,
                        data_start as int,
                        data_end as int - 1,
                    ) =~= spec_validations_upto(
                        info.columns@,
                        psv,
                        i as int,
                        data_start as int,
                        data_end as int - 1,
                    ));
                }
            }
            i += 1;
        }
    }

    Ok(
        ExportPlan {
            positions,
            writes,
            data_start,
            data_end,
            validations,
        },
    )
}

/// The greatest header-block `y2` over the first `n` columns, computed from
/// the sheet description alone by the resolver's coordinate formulas.
pub open spec fn spec_max_y2_of(info: ExcelInfo, n: int) -> int
    decreases n,
{
    let cs = info.columns@;
    if n <= 0 {
        0
    } else {
        let y2 = crate::layout::spec_header_dy(info) + if crate::layout::spec_is_leaf(cs, n - 1) {
            crate::layout::spec_max_level(cs)
        } else {
            crate::layout::spec_level(cs, n - 1)
        };
        if y2 > spec_max_y2_of(info, n - 1) {
            y2
        } else {
            spec_max_y2_of(info, n - 1)
        }
    }
}

/// The grid row where data starts, from the sheet description alone.
pub open spec fn spec_data_start_of(info: ExcelInfo) -> int {
    spec_max_y2_of(info, info.columns@.len() as int) + 1
}

/// Resolved positions carry exactly the formula `y2`, so the two ways of
/// taking the header block's last row agree.
proof fn lemma_max_y2_agrees(info: ExcelInfo, ps: Seq<ExcelColumnPosition>, n: int)
    requires
        spec_positions_resolved(info, ps),
        0 <= n <= ps.len(),
    ensures
        spec_max_y2_upto(ps, n) == spec_max_y2_of(info, n),
    decreases n,
{
    if n > 0 {
        lemma_max_y2_agrees(info, ps, n - 1);
    }
}

/// The header block's last row stays within the grid's row space.
pub proof fn lemma_max_y2_in_grid(info: ExcelInfo, ps: Seq<ExcelColumnPosition>, n: int)
    requires
        spec_positions_resolved(info, ps),
        info.dy as int + info.columns@.len() + 1 <= u32::MAX as int,
        0 <= n <= ps.len(),
    ensures
        spec_max_y2_upto(ps, n) < u32::MAX,
    decreases n,
{
    if n > 0 {
        lemma_max_y2_in_grid(info, ps, n - 1);
        crate::layout::lemma_level_le(info.columns@, n - 1);
        crate::layout::lemma_max_level_le(info.columns@, info.columns@.len() as int);
    }
}

} // verus!
