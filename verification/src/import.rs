//! Import mapping: which grid cells a filled-in sheet is read from. The
//! reader hands rows of raw cell text; these maps say which column of each
//! sheet row belongs to which declared key, and where data rows begin.

use vstd::prelude::*;
use crate::info::clone_string;
use crate::layout::ExcelColumnPosition;

verus! {

/// Where one leaf column's values are read from: the declared key, the
/// grid column holding the values, and the declared data type that decides
/// how raw cell contents are rendered as text.
#[derive(Debug)]
pub struct LeafCell {
    pub key: String,
    pub x: u16,
    pub data_type: String,
}

/// The leaf cells among the first `n` resolved positions, in column order.
pub open spec fn spec_leaf_cells_upto(ps: Seq<ExcelColumnPosition>, n: int) -> Seq<
    (Seq<char>, u16, Seq<char>),
>
    decreases n,
{
    if n <= 0 {
        Seq::empty()
    } else {
        spec_leaf_cells_upto(ps, n - 1) + if ps[n - 1].is_leaf {
            seq![(ps[n - 1].key@, ps[n - 1].x1, ps[n - 1].data_type@)]
        } else {
            Seq::empty()
        }
    }
}

/// The leaf cells of a resolved position list: one reader entry per leaf
/// column, in column order.
pub open spec fn spec_leaf_cells(ps: Seq<ExcelColumnPosition>) -> Seq<(Seq<char>, u16, Seq<char>)> {
    spec_leaf_cells_upto(ps, ps.len() as int)
}

/// The reader entries for a resolved position list: one per leaf column,
/// in column order, each naming the key, the grid column and the data type.
pub fn leaf_cells(ps: &Vec<ExcelColumnPosition>) -> (r: Vec<LeafCell>)
    ensures
        r@.len() == spec_leaf_cells(ps@).len(),
        forall|k: int|
            0 <= k < r@.len() ==> {
                &&& (#[trigger] r@[k]).key@ == spec_leaf_cells(ps@)[k].0
                &&& r@[k].x == spec_leaf_cells(ps@)[k].1
                &&& r@[k].data_type@ == spec_leaf_cells(ps@)[k].2
            },
{
    let ghost psv = ps@;
    let mut r: Vec<LeafCell> = Vec::new();
    let mut i: usize = 0;
    while i < ps.len()
        invariant
            i <= psv.len(),
            psv == ps@,
            r@.len() == spec_leaf_cells_upto(psv, i as int).len(),
            forall|k: int|
                0 <= k < r@.len() ==> {
                    &&& (#[trigger] r@[k]).key@ == spec_leaf_cells_upto(psv, i as int)[k].0
                    &&& r@[k].x == spec_leaf_cells_upto(psv, i as int)[k].1
                    &&& r@[k].data_type@ == spec_leaf_cells_upto(psv, i as int)[k].2
                },
        decreases psv.len() - i,
    {
        let p = &ps[i];
        if p.is_leaf {
            let cell = LeafCell {
                key: clone_string(&p.key),
                x: p.x1,
                data_type: clone_string(&p.data_type),
            };
            r.push(cell);
        }
        proof {
            let prev = spec_leaf_cells_upto(psv, i as int);
            let next = spec_leaf_cells_upto(psv, i as int + 1);
            if psv[i as int].is_leaf {
                assert(next == prev + seq![
                    (psv[i as int].key@, psv[i as int].x1, psv[i as int].data_type@),
                ]);
            } else {
                assert(next =~= prev);
            }
        }
        i += 1;
    }
    r
}

/// The first grid row beneath the header block, where data rows begin.
pub fn data_start_row(ps: &Vec<ExcelColumnPosition>) -> (r: u32)
    requires
        forall|i: int| 0 <= i < ps@.len() ==> (#[trigger] ps@[i].y2) < u32::MAX,
    ensures
        r == crate::export::spec_data_start(ps@),
{
    let ghost psv = ps@;
    let mut max_y2: u32 = 0;
    let mut n: usize = 0;
    while n < ps.len()
        invariant
            n <= psv.len(),
            psv == ps@,
            forall|i: int| 0 <= i < psv.len() ==> (#[trigger] psv[i].y2) < u32::MAX,
            max_y2 == crate::export::spec_max_y2_upto(psv, n as int),
            max_y2 < u32::MAX,
        decreases psv.len() - n,
    {
        if ps[n].y2 > max_y2 {
            max_y2 = ps[n].y2;
        }
        n += 1;
    }
    max_y2 + 1
}

} // verus!
