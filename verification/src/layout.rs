//! The header hierarchy resolver: turns a valid flat column list into one
//! grid rectangle per column, with merge spans and row depths.
//!
//! A column never referenced as a parent is a leaf and owns the next free
//! grid column; a referenced column is a group header and spans its leaf
//! descendants. A column's header row is its nesting depth; leaves stretch
//! down to the deepest header row.

use vstd::prelude::*;
use crate::error::HierarchyError;
use crate::info::ExcelCellFormat;
use crate::info::ExcelColumnInfo;
use crate::info::ExcelInfo;
use crate::info::clone_string;
use crate::info::spec_columns_valid;
use crate::info::spec_first_invalid;
use crate::info::spec_has_parent;
use crate::info::spec_unique_keys;
use crate::info::lemma_valid_parent_declared;

verus! {

/// The resolved grid rectangle of one column: column range `x1..=x2`, header
/// row range `y1..=y2`, both inclusive, plus what rendering needs to know.
#[derive(Debug)]
pub struct ExcelColumnPosition {
    pub x1: u16,
    pub y1: u32,
    pub x2: u16,
    pub y2: u32,
    pub key: String,
    pub data_type: String,
    pub is_leaf: bool,
}

impl ExcelColumnPosition {
    /// Whether the rectangle is a single cell rather than a merged range.
    pub fn is_single_cell(&self) -> (r: bool)
        ensures
            r == (self.x1 == self.x2 && self.y1 == self.y2),
    {
        self.x1 == self.x2 && self.y1 == self.y2
    }
}

/// The first index at or after `j` whose column has key `k`.
pub open spec fn spec_first_key_ix_from(cs: Seq<ExcelColumnInfo>, k: Seq<char>, j: int) -> Option<
    int,
>
    decreases cs.len() - j,
{
    if j < 0 || j >= cs.len() {
        None
    } else if cs[j].key@ == k {
        Some(j)
    } else {
        spec_first_key_ix_from(cs, k, j + 1)
    }
}

/// The first index whose column has key `k`.
pub open spec fn spec_first_key_ix(cs: Seq<ExcelColumnInfo>, k: Seq<char>) -> Option<int> {
    spec_first_key_ix_from(cs, k, 0)
}

/// The index of the column that column `i`'s parent reference resolves to:
/// the first declaration of that key, provided it stands earlier in the list.
pub open spec fn spec_parent_link(cs: Seq<ExcelColumnInfo>, i: int) -> Option<int> {
    if 0 <= i < cs.len() && spec_has_parent(cs[i]) {
        match spec_first_key_ix(cs, cs[i].parent@) {
            None => None,
            Some(j) => if j < i {
                Some(j)
            } else {
                None
            },
        }
    } else {
        None
    }
}

/// Whether column `i` is referenced as a parent by any column: a group
/// header, spanning its descendants, that carries no data of its own.
pub open spec fn spec_is_group(cs: Seq<ExcelColumnInfo>, i: int) -> bool {
    exists|j: int|
        0 <= j < cs.len() && spec_has_parent(cs[j]) && cs[j].parent@ == cs[i].key@
}

/// Whether column `i` is a leaf: never referenced as a parent.
pub open spec fn spec_is_leaf(cs: Seq<ExcelColumnInfo>, i: int) -> bool {
    !spec_is_group(cs, i)
}

/// The nesting depth of column `i`: how many declared ancestors stand above
/// it. This is the header row the column's label occupies.
pub open spec fn spec_level(cs: Seq<ExcelColumnInfo>, i: int) -> nat
    decreases i,
{
    match spec_parent_link(cs, i) {
        None => 0,
        Some(j) => if 0 <= j < i {
            1 + spec_level(cs, j)
        } else {
            0
        },
    }
}

/// The number of leaves among the first `n` columns: the next free
/// x-coordinate after scanning them.
pub open spec fn spec_rank(cs: Seq<ExcelColumnInfo>, n: int) -> nat
    decreases n,
{
    if n <= 0 {
        0
    } else {
        spec_rank(cs, n - 1) + if spec_is_leaf(cs, n - 1) {
            1nat
        } else {
            0nat
        }
    }
}

/// Whether column `g` stands on column `i`'s chain of declared ancestors.
pub open spec fn spec_in_chain(cs: Seq<ExcelColumnInfo>, g: int, i: int) -> bool
    decreases i,
{
    match spec_parent_link(cs, i) {
        None => false,
        Some(j) => if 0 <= j < i {
            j == g || spec_in_chain(cs, g, j)
        } else {
            false
        },
    }
}

/// The number of leaf descendants of column `g` among the first `n` columns.
pub open spec fn spec_leaf_desc_upto(cs: Seq<ExcelColumnInfo>, g: int, n: int) -> nat
    decreases n,
{
    if n <= 0 {
        0
    } else {
        spec_leaf_desc_upto(cs, g, n - 1) + if spec_is_leaf(cs, n - 1) && spec_in_chain(
            cs,
            g,
            n - 1,
        ) {
            1nat
        } else {
            0nat
        }
    }
}

/// The number of leaf descendants of column `g`.
pub open spec fn spec_leaf_desc(cs: Seq<ExcelColumnInfo>, g: int) -> nat {
    spec_leaf_desc_upto(cs, g, cs.len() as int)
}

/// The horizontal span of column `i` in grid-column units: 1 for a leaf, the
/// leaf-descendant count for a group (never less than 1).
pub open spec fn spec_span(cs: Seq<ExcelColumnInfo>, i: int) -> nat {
    if spec_is_leaf(cs, i) {
        1
    } else if spec_leaf_desc(cs, i) == 0 {
        1
    } else {
        spec_leaf_desc(cs, i)
    }
}

/// The greatest nesting depth among the first `n` columns.
pub open spec fn spec_max_level_upto(cs: Seq<ExcelColumnInfo>, n: int) -> nat
    decreases n,
{
    if n <= 0 {
        0
    } else if spec_level(cs, n - 1) > spec_max_level_upto(cs, n - 1) {
        spec_level(cs, n - 1)
    } else {
        spec_max_level_upto(cs, n - 1)
    }
}

/// The greatest nesting depth of the whole specification: the header block
/// occupies rows `0..=spec_max_level` (before the vertical offset).
pub open spec fn spec_max_level(cs: Seq<ExcelColumnInfo>) -> nat {
    spec_max_level_upto(cs, cs.len() as int)
}

/// The grid row where the header block starts: the declared vertical offset,
/// plus one row reserved for the title when there is one.
pub open spec fn spec_header_dy(info: ExcelInfo) -> int {
    info.dy + if info.title is Some {
        1int
    } else {
        0int
    }
}

/// The rectangle that resolving assigns to column `i`.
pub open spec fn spec_position_ok(info: ExcelInfo, i: int, p: ExcelColumnPosition) -> bool {
    let cs = info.columns@;
    &&& p.key@ == cs[i].key@
    &&& p.data_type@ == cs[i].data_type@
    &&& p.is_leaf == spec_is_leaf(cs, i)
    &&& p.x1 == info.dx + spec_rank(cs, i)
    &&& p.x2 == info.dx + spec_rank(cs, i) + spec_span(cs, i) - 1
    &&& p.y1 == spec_header_dy(info) + spec_level(cs, i)
    &&& p.y2 == spec_header_dy(info) + if spec_is_leaf(cs, i) {
        spec_max_level(cs)
    } else {
        spec_level(cs, i)
    }
}

/// The whole position list resolving assigns to a sheet description.
pub open spec fn spec_positions_resolved(info: ExcelInfo, ps: Seq<ExcelColumnPosition>) -> bool {
    &&& ps.len() == info.columns@.len()
    &&& forall|i: int| 0 <= i < ps.len() ==> spec_position_ok(info, i, ps[i])
}

/// Whether column `i` is a leaf, by scanning for a referencing column.
fn is_leaf_at(columns: &Vec<ExcelColumnInfo>, i: usize) -> (r: bool)
    requires
        i < columns@.len(),
    ensures
        r == spec_is_leaf(columns@, i as int),
{
    let mut j: usize = 0;
    while j < columns.len()
        invariant
            i < columns@.len(),
            j <= columns@.len(),
            forall|m: int|
                0 <= m < j ==> !(spec_has_parent(columns@[m]) && columns@[m].parent@
                    == columns@[i as int].key@),
        decreases columns@.len() - j,
    {
        if columns[j].has_parent() && columns[j].parent == columns[i].key {
            return false;
        }
        j += 1;
    }
    true
}

/// The first column whose key equals `k`, if any.
fn first_key_ix(columns: &Vec<ExcelColumnInfo>, k: &String) -> (r: Option<usize>)
    ensures
        match r {
            None => spec_first_key_ix(columns@, k@) is None,
            Some(j) => j < columns@.len() && spec_first_key_ix(columns@, k@) == Some(j as int),
        },
{
    let mut j: usize = 0;
    while j < columns.len()
        invariant
            j <= columns@.len(),
            spec_first_key_ix(columns@, k@) == spec_first_key_ix_from(columns@, k@, j as int),
        decreases columns@.len() - j,
    {
        if columns[j].key == *k {
            return Some(j);
        }
        j += 1;
    }
    None
}

/// The column that `i`'s parent reference resolves to, if it stands earlier.
fn parent_link_at(columns: &Vec<ExcelColumnInfo>, i: usize) -> (r: Option<usize>)
    requires
        i < columns@.len(),
    ensures
        match r {
            None => spec_parent_link(columns@, i as int) is None,
            Some(j) => j < i && spec_parent_link(columns@, i as int) == Some(j as int),
        },
{
    if !columns[i].has_parent() {
        return None;
    }
    match first_key_ix(columns, &columns[i].parent) {
        None => None,
        Some(j) => if j < i {
            Some(j)
        } else {
            None
        },
    }
}

/// The nesting depth of column `i`.
fn level_at(columns: &Vec<ExcelColumnInfo>, i: usize) -> (r: usize)
    requires
        i < columns@.len(),
    ensures
        r == spec_level(columns@, i as int),
        r <= i,
    decreases i,
{
    match parent_link_at(columns, i) {
        None => 0,
        Some(j) => 1 + level_at(columns, j),
    }
}

/// Whether column `g` is an ancestor of column `i`.
fn in_chain_at(columns: &Vec<ExcelColumnInfo>, g: usize, i: usize) -> (r: bool)
    requires
        i < columns@.len(),
    ensures
        r == spec_in_chain(columns@, g as int, i as int),
    decreases i,
{
    match parent_link_at(columns, i) {
        None => false,
        Some(j) => j == g || in_chain_at(columns, g, j),
    }
}

/// The number of leaf descendants of column `g`.
fn leaf_desc_at(columns: &Vec<ExcelColumnInfo>, g: usize) -> (r: usize)
    ensures
        r == spec_leaf_desc(columns@, g as int),
        r <= columns@.len(),
{
    let mut r: usize = 0;
    let mut l: usize = 0;
    while l < columns.len()
        invariant
            l <= columns@.len(),
            r == spec_leaf_desc_upto(columns@, g as int, l as int),
            r <= l,
        decreases columns@.len() - l,
    {
        if is_leaf_at(columns, l) && in_chain_at(columns, g, l) {
            r += 1;
        }
        l += 1;
    }
    r
}

/// An ancestor always stands strictly before its descendant.
pub proof fn lemma_in_chain_lt(cs: Seq<ExcelColumnInfo>, g: int, i: int)
    requires
        spec_in_chain(cs, g, i),
    ensures
        0 <= g < i,
    decreases i,
{
    match spec_parent_link(cs, i) {
        None => {},
        Some(j) => {
            if 0 <= j < i && j != g && spec_in_chain(cs, g, j) {
                lemma_in_chain_lt(cs, g, j);
            }
        },
    }
}

/// There are no more leaves among the first `n` columns than columns.
pub proof fn lemma_rank_le(cs: Seq<ExcelColumnInfo>, n: int)
    requires
        0 <= n,
    ensures
        spec_rank(cs, n) <= n,
    decreases n,
{
    if n > 0 {
        lemma_rank_le(cs, n - 1);
    }
}

/// The leaf count over a prefix grows with the prefix, by at most one per
/// column.
pub proof fn lemma_rank_mono(cs: Seq<ExcelColumnInfo>, m: int, n: int)
    requires
        0 <= m <= n,
    ensures
        spec_rank(cs, m) <= spec_rank(cs, n),
        spec_rank(cs, n) <= spec_rank(cs, m) + (n - m),
    decreases n - m,
{
    if m < n {
        lemma_rank_mono(cs, m, n - 1);
    }
}

/// A column has no descendants among the columns up to and including itself.
pub proof fn lemma_leaf_desc_upto_zero(cs: Seq<ExcelColumnInfo>, g: int, n: int)
    requires
        n <= g + 1,
    ensures
        spec_leaf_desc_upto(cs, g, n) == 0,
    decreases n,
{
    if n > 0 {
        lemma_leaf_desc_upto_zero(cs, g, n - 1);
        if spec_in_chain(cs, g, n - 1) {
            lemma_in_chain_lt(cs, g, n - 1);
        }
    }
}

/// Leaf descendants of `g` are leaves that come after `g`, so their count is
/// bounded by the leaves strictly between `g` and the end of the prefix.
pub proof fn lemma_leaf_desc_bound(cs: Seq<ExcelColumnInfo>, g: int, n: int)
    requires
        0 <= g,
        g + 1 <= n,
    ensures
        spec_leaf_desc_upto(cs, g, n) <= spec_rank(cs, n) - spec_rank(cs, g + 1),
    decreases n,
{
    if n == g + 1 {
        lemma_leaf_desc_upto_zero(cs, g, n);
    } else {
        lemma_leaf_desc_bound(cs, g, n - 1);
        if spec_in_chain(cs, g, n - 1) {
            lemma_in_chain_lt(cs, g, n - 1);
        }
    }
}

/// Properties of the first-declaration search: the hit matches, nothing
/// before it matches, and it comes no later than any match.
proof fn lemma_first_key_ix_from_props(cs: Seq<ExcelColumnInfo>, k: Seq<char>, j: int)
    requires
        0 <= j,
    ensures
        match spec_first_key_ix_from(cs, k, j) {
            None => forall|m: int| j <= m < cs.len() ==> cs[m].key@ != k,
            Some(m) => j <= m < cs.len() && cs[m].key@ == k && forall|m2: int|
                j <= m2 < m ==> cs[m2].key@ != k,
        },
    decreases cs.len() - j,
{
    if j < cs.len() && cs[j].key@ != k {
        lemma_first_key_ix_from_props(cs, k, j + 1);
    }
}

/// With unique keys, a parent reference that some earlier column declares
/// resolves to exactly that column.
proof fn lemma_parent_link_resolves(cs: Seq<ExcelColumnInfo>, c: int, g: int)
    requires
        0 <= g < c < cs.len(),
        spec_unique_keys(cs),
        spec_has_parent(cs[c]),
        cs[c].parent@ == cs[g].key@,
    ensures
        spec_parent_link(cs, c) == Some(g),
        spec_in_chain(cs, g, c),
{
    lemma_first_key_ix_from_props(cs, cs[c].parent@, 0);
    match spec_first_key_ix(cs, cs[c].parent@) {
        None => {
            assert(cs[g].key@ != cs[c].parent@);
        },
        Some(m) => {
            if m < g {
                assert(cs[m].key@ == cs[g].key@);
            } else if m > g {
                assert(cs[g].key@ != cs[c].parent@);
            }
        },
    }
}

/// Ancestry composes: an ancestor of an ancestor is an ancestor.
proof fn lemma_in_chain_trans(cs: Seq<ExcelColumnInfo>, g: int, c: int, l: int)
    requires
        spec_in_chain(cs, g, c),
        spec_in_chain(cs, c, l),
    ensures
        spec_in_chain(cs, g, l),
    decreases l,
{
    match spec_parent_link(cs, l) {
        None => {},
        Some(j) => {
            if 0 <= j < l && j != c && spec_in_chain(cs, c, j) {
                lemma_in_chain_trans(cs, g, c, j);
            }
        },
    }
}

/// A known leaf descendant makes the leaf-descendant count positive.
proof fn lemma_leaf_desc_witness(cs: Seq<ExcelColumnInfo>, g: int, l: int, n: int)
    requires
        0 <= l < n,
        spec_is_leaf(cs, l),
        spec_in_chain(cs, g, l),
    ensures
        spec_leaf_desc_upto(cs, g, n) >= 1,
    decreases n,
{
    if l < n - 1 {
        lemma_leaf_desc_witness(cs, g, l, n - 1);
    }
}

/// In a valid list with unique keys, every group column has a leaf
/// descendant.
pub proof fn lemma_group_has_leaf(cs: Seq<ExcelColumnInfo>, g: int)
    requires
        0 <= g < cs.len(),
        spec_columns_valid(cs),
        spec_unique_keys(cs),
        spec_is_group(cs, g),
    ensures
        exists|l: int|
            0 <= l < cs.len() && spec_is_leaf(cs, l) && #[trigger] spec_in_chain(cs, g, l),
        spec_leaf_desc(cs, g) >= 1,
    decreases cs.len() - g,
{
    let c = choose|c: int|
        0 <= c < cs.len() && spec_has_parent(cs[c]) && cs[c].parent@ == cs[g].key@;
    lemma_valid_parent_declared(cs, c);
    let m = choose|m: int| 0 <= m < c && cs[m].key@ == cs[c].parent@;
    assert(m == g || (m < g && cs[m].key@ == cs[g].key@) || (g < m && cs[g].key@ == cs[m].key@));
    assert(g < c);
    lemma_parent_link_resolves(cs, c, g);
    if spec_is_leaf(cs, c) {
        assert(spec_in_chain(cs, g, c));
        lemma_leaf_desc_witness(cs, g, c, cs.len() as int);
    } else {
        lemma_group_has_leaf(cs, c);
        let l = choose|l: int|
            0 <= l < cs.len() && spec_is_leaf(cs, l) && #[trigger] spec_in_chain(cs, c, l);
        lemma_in_chain_trans(cs, g, c, l);
        lemma_leaf_desc_witness(cs, g, l, cs.len() as int);
    }
}

/// Every x-coordinate below the leaf count is some leaf's rank.
proof fn lemma_rank_select(cs: Seq<ExcelColumnInfo>, v: int, n: int)
    requires
        0 <= v < spec_rank(cs, n),
    ensures
        exists|i: int|
            0 <= i < n && spec_is_leaf(cs, i) && #[trigger] spec_rank(cs, i) == v,
    decreases n,
{
    if n > 0 {
        if v < spec_rank(cs, n - 1) {
            lemma_rank_select(cs, v, n - 1);
        } else {
            assert(spec_is_leaf(cs, n - 1) && spec_rank(cs, n - 1) == v);
        }
    }
}

/// Whether some leaf column among the resolved positions owns x-coordinate
/// `v`.
pub open spec fn spec_leaf_at_x(ps: Seq<ExcelColumnPosition>, v: int) -> bool {
    exists|i: int| 0 <= i < ps.len() && ps[i].is_leaf && #[trigger] ps[i].x1 == v
}

/// Contiguity: the x-coordinates that resolving assigns to the leaf columns
/// are exactly the values `dx .. dx + N`, `N` the leaf count, each taken by
/// exactly one leaf and with no gaps.
pub proof fn lemma_leaf_x_contiguous(info: ExcelInfo, ps: Seq<ExcelColumnPosition>)
    requires
        spec_positions_resolved(info, ps),
    ensures
        forall|i: int|
            0 <= i < ps.len() && ps[i].is_leaf ==> info.dx <= #[trigger] ps[i].x1 < info.dx
                + spec_rank(info.columns@, info.columns@.len() as int),
        forall|i: int, j: int|
            0 <= i < j < ps.len() && ps[i].is_leaf && ps[j].is_leaf ==> ps[i].x1 != ps[j].x1,
        forall|v: int|
            info.dx <= v < info.dx + spec_rank(info.columns@, info.columns@.len() as int)
                ==> #[trigger] spec_leaf_at_x(ps, v),
{
    let cs = info.columns@;
    assert forall|i: int| 0 <= i < ps.len() && ps[i].is_leaf implies info.dx <= #[trigger] ps[i].x1
        < info.dx + spec_rank(cs, cs.len() as int) by {
        lemma_rank_mono(cs, i + 1, cs.len() as int);
    }
    assert forall|i: int, j: int|
        0 <= i < j < ps.len() && ps[i].is_leaf && ps[j].is_leaf implies ps[i].x1 != ps[j].x1 by {
        lemma_rank_mono(cs, i + 1, j);
    }
    assert forall|v: int|
        info.dx <= v < info.dx + spec_rank(cs, cs.len() as int) implies #[trigger] spec_leaf_at_x(
        ps,
        v,
    ) by {
        lemma_rank_select(cs, v - info.dx, cs.len() as int);
        let i = choose|i: int|
            0 <= i < cs.len() && spec_is_leaf(cs, i) && #[trigger] spec_rank(cs, i) == v - info.dx;
        assert(ps[i].is_leaf && ps[i].x1 == v);
    }
}

/// Span correctness: a group column's resolved width in grid-column units
/// equals its number of leaf descendants.
pub proof fn lemma_group_span(info: ExcelInfo, ps: Seq<ExcelColumnPosition>)
    requires
        spec_positions_resolved(info, ps),
        spec_columns_valid(info.columns@),
        spec_unique_keys(info.columns@),
    ensures
        forall|i: int|
            0 <= i < ps.len() && !ps[i].is_leaf ==> ps[i].x2 - ps[i].x1 + 1 == spec_leaf_desc(
                info.columns@,
                i,
            ) >= 1,
{
    let cs = info.columns@;
    assert forall|i: int| 0 <= i < ps.len() && !ps[i].is_leaf implies ps[i].x2 - ps[i].x1 + 1
        == spec_leaf_desc(cs, i) >= 1 by {
        lemma_group_has_leaf(cs, i);
    }
}

/// Header completeness: every leaf column reaches down to the deepest header
/// row, and every group column occupies exactly one header row.
pub proof fn lemma_header_completeness(info: ExcelInfo, ps: Seq<ExcelColumnPosition>)
    requires
        spec_positions_resolved(info, ps),
    ensures
        forall|i: int|
            0 <= i < ps.len() && ps[i].is_leaf ==> #[trigger] ps[i].y2 == spec_header_dy(info)
                + spec_max_level(info.columns@),
        forall|i: int| 0 <= i < ps.len() && !ps[i].is_leaf ==> #[trigger] ps[i].y1 == ps[i].y2,
{
}

/// A column's nesting depth is bounded by its index.
pub proof fn lemma_level_le(cs: Seq<ExcelColumnInfo>, i: int)
    requires
        0 <= i,
    ensures
        spec_level(cs, i) <= i,
    decreases i,
{
    match spec_parent_link(cs, i) {
        None => {},
        Some(j) => {
            if 0 <= j < i {
                lemma_level_le(cs, j);
            }
        },
    }
}

/// The deepest header row is bounded by the column count.
pub proof fn lemma_max_level_le(cs: Seq<ExcelColumnInfo>, n: int)
    requires
        0 <= n,
    ensures
        spec_max_level_upto(cs, n) <= if n == 0 {
            0int
        } else {
            n - 1
        },
    decreases n,
{
    if n > 0 {
        lemma_max_level_le(cs, n - 1);
        lemma_level_le(cs, n - 1);
    }
}

/// The header hierarchy resolver: checks forest validity, then assigns every
/// column its grid rectangle. Fails, returning no positions, exactly when
/// the declared forest is invalid, naming the first offending column.
pub fn get_column_positions(info: &ExcelInfo) -> (r: Result<
    Vec<ExcelColumnPosition>,
    HierarchyError,
>)
    requires
        info.dx as int + info.columns@.len() <= 65536,
        info.dy as int + info.columns@.len() + 1 <= u32::MAX as int,
    ensures
        match r {
            Ok(ps) => spec_columns_valid(info.columns@) && spec_positions_resolved(*info, ps@),
            Err(e) => {
                let n = spec_first_invalid(info.columns@, 0);
                &&& !spec_columns_valid(info.columns@)
                &&& 0 <= n < info.columns@.len()
                &&& e.column@ == info.columns@[n].key@
                &&& e.parent@ == info.columns@[n].parent@
            },
        },
{
    let ghost cs = info.columns@;
    if let Err(e) = ExcelInfo::check_columns(&info.columns) {
        return Err(e);
    }
    let columns = &info.columns;
    let dy0: u32 = info.dy + if info.title.is_some() {
        1
    } else {
        0
    };

    // The deepest header row over all columns.
    let mut max_level: usize = 0;
    let mut n: usize = 0;
    while n < columns.len()
        invariant
            cs == columns@,
            cs == info.columns@,
            n <= cs.len(),
            max_level == spec_max_level_upto(cs, n as int),
            n == 0 ==> max_level == 0,
            n > 0 ==> max_level <= n - 1,
        decreases cs.len() - n,
    {
        let lvl = level_at(columns, n);
        if lvl > max_level {
            max_level = lvl;
        }
        n += 1;
    }

    let mut positions: Vec<ExcelColumnPosition> = Vec::new();
    let mut x: usize = info.dx as usize;
    let mut i: usize = 0;
    while i < columns.len()
        invariant
            cs == columns@,
            cs == info.columns@,
            i <= cs.len(),
            info.dx as int + cs.len() <= 65536,
            info.dy as int + cs.len() + 1 <= u32::MAX as int,
            dy0 == spec_header_dy(*info),
            cs.len() > 0 ==> max_level == spec_max_level(cs) && max_level <= cs.len() - 1,
            cs.len() == 0 ==> max_level == 0,
            x == info.dx + spec_rank(cs, i as int),
            positions@.len() == i,
            forall|m: int| 0 <= m < i ==> spec_position_ok(*info, m, positions@[m]),
        decreases cs.len() - i,
    {
        let c = &columns[i];
        let leaf = is_leaf_at(columns, i);
        let lvl = level_at(columns, i);
        let cnt: usize = if leaf {
            1
        } else {
            let d = leaf_desc_at(columns, i);
            if d == 0 {
                1
            } else {
                d
            }
        };
        proof {
            lemma_rank_le(cs, i as int);
            lemma_rank_mono(cs, i as int, i as int + 1);
            lemma_rank_mono(cs, i as int + 1, cs.len() as int);
            lemma_rank_le(cs, cs.len() as int);
            if !spec_is_leaf(cs, i as int) {
                lemma_leaf_desc_bound(cs, i as int, cs.len() as int);
            }
        }
        let x2: usize = x + (cnt - 1);
        let y1: u32 = dy0 + lvl as u32;
        let y2: u32 = if leaf {
            dy0 + max_level as u32
        } else {
            y1
        };
        let position = ExcelColumnPosition {
            x1: x as u16,
            y1,
            x2: x2 as u16,
            y2,
            key: clone_string(&c.key),
            data_type: clone_string(&c.data_type),
            is_leaf: leaf,
        };
        proof {
            assert(spec_position_ok(*info, i as int, position));
        }
        positions.push(position);
        if leaf {
            x += 1;
        }
        i += 1;
    }
    Ok(positions)
}

/// The key/parent pairs of the first `n` columns that are themselves
/// referenced as a parent: the nested-group part of the hierarchy.
pub open spec fn spec_parent_pairs_upto(cs: Seq<ExcelColumnInfo>, n: int) -> Seq<(String, String)>
    decreases n,
{
    if n <= 0 {
        Seq::empty()
    } else {
        spec_parent_pairs_upto(cs, n - 1) + if spec_is_group(cs, n - 1) {
            seq![(cs[n - 1].key, cs[n - 1].parent)]
        } else {
            Seq::empty()
        }
    }
}

/// The indices of the leaf columns among the first `n`.
pub open spec fn spec_leaf_ixs_upto(cs: Seq<ExcelColumnInfo>, n: int) -> Seq<int>
    decreases n,
{
    if n <= 0 {
        Seq::empty()
    } else {
        spec_leaf_ixs_upto(cs, n - 1) + if spec_is_leaf(cs, n - 1) {
            seq![n - 1]
        } else {
            Seq::empty()
        }
    }
}

/// Whether two column declarations carry the same contents, comparing the
/// list-valued fields by their elements.
pub open spec fn spec_col_matches(a: ExcelColumnInfo, b: ExcelColumnInfo) -> bool {
    &&& a.key == b.key
    &&& a.name == b.name
    &&& a.width == b.width
    &&& a.note == b.note
    &&& a.data_type == b.data_type
    &&& a.allowed_values@ == b.allowed_values@
    &&& a.parent == b.parent
    &&& a.format == b.format
    &&& a.value_format@ == b.value_format@
    &&& a.data_group == b.data_group
    &&& a.data_group_parent == b.data_group_parent
}

/// Copies a list of strings, keeping its contents.
fn copy_strings(v: &Vec<String>) -> (r: Vec<String>)
    ensures
        r@ == v@,
{
    let mut r: Vec<String> = Vec::new();
    let mut i: usize = 0;
    while i < v.len()
        invariant
            i <= v@.len(),
            r@.len() == i,
            forall|k: int| 0 <= k < i ==> r@[k] == v@[k],
        decreases v@.len() - i,
    {
        r.push(clone_string(&v[i]));
        i += 1;
    }
    proof {
        assert(r@ =~= v@);
    }
    r
}

/// Copies a cell format, keeping its contents.
fn copy_cell_format(f: &ExcelCellFormat) -> (r: ExcelCellFormat)
    ensures
        r == *f,
{
    ExcelCellFormat {
        rule: clone_string(&f.rule),
        value: clone_string(&f.value),
        color: clone_string(&f.color),
        bold: f.bold,
        italic: f.italic,
        underline: f.underline,
        strikethrough: f.strikethrough,
        font_size: f.font_size,
        background_color: clone_string(&f.background_color),
        align: clone_string(&f.align),
        align_vertical: clone_string(&f.align_vertical),
        date_format: match &f.date_format {
            None => None,
            Some(d) => Some(clone_string(d)),
        },
        border_color: match &f.border_color {
            None => None,
            Some(c) => Some(clone_string(c)),
        },
    }
}

/// Copies a list of cell formats, keeping its contents.
fn copy_cell_formats(v: &Vec<ExcelCellFormat>) -> (r: Vec<ExcelCellFormat>)
    ensures
        r@ == v@,
{
    let mut r: Vec<ExcelCellFormat> = Vec::new();
    let mut i: usize = 0;
    while i < v.len()
        invariant
            i <= v@.len(),
            r@.len() == i,
            forall|k: int| 0 <= k < i ==> r@[k] == v@[k],
        decreases v@.len() - i,
    {
        r.push(copy_cell_format(&v[i]));
        i += 1;
    }
    proof {
        assert(r@ =~= v@);
    }
    r
}

/// Copies a column declaration, keeping its contents.
fn copy_column(c: &ExcelColumnInfo) -> (r: ExcelColumnInfo)
    ensures
        spec_col_matches(r, *c),
{
    ExcelColumnInfo {
        key: clone_string(&c.key),
        name: clone_string(&c.name),
        width: c.width,
        note: match &c.note {
            None => None,
            Some(n) => Some(clone_string(n)),
        },
        data_type: clone_string(&c.data_type),
        allowed_values: copy_strings(&c.allowed_values),
        parent: clone_string(&c.parent),
        format: match &c.format {
            None => None,
            Some(f) => Some(copy_cell_format(f)),
        },
        value_format: copy_cell_formats(&c.value_format),
        data_group: clone_string(&c.data_group),
        data_group_parent: clone_string(&c.data_group_parent),
    }
}

impl ExcelInfo {
    /// The key/parent pairs of the columns that are referenced as a parent
    /// by some other column: walking these links upward from any column
    /// climbs the nested-group hierarchy.
    pub fn get_parent_map(&self) -> (r: Vec<(String, String)>)
        ensures
            r@ == spec_parent_pairs_upto(self.columns@, self.columns@.len() as int),
    {
        let ghost cs = self.columns@;
        let mut r: Vec<(String, String)> = Vec::new();
        let mut i: usize = 0;
        while i < self.columns.len()
            invariant
                i <= cs.len(),
                cs == self.columns@,
                r@ == spec_parent_pairs_upto(cs, i as int),
            decreases cs.len() - i,
        {
            let c = &self.columns[i];
            if !is_leaf_at(&self.columns, i) {
                r.push((clone_string(&c.key), clone_string(&c.parent)));
                proof {
                    assert(r@ =~= spec_parent_pairs_upto(cs, i as int + 1));
                }
            } else {
                proof {
                    assert(r@ =~= spec_parent_pairs_upto(cs, i as int + 1));
                }
            }
            i += 1;
        }
        r
    }

    /// The leaf columns, in declaration order: the columns that hold data
    /// values rather than heading a group.
    pub fn get_leaf_columns(&self) -> (r: Vec<ExcelColumnInfo>)
        ensures
            r@.len() == spec_leaf_ixs_upto(self.columns@, self.columns@.len() as int).len(),
            forall|k: int|
                0 <= k < r@.len() ==> spec_col_matches(
                    #[trigger] r@[k],
                    self.columns@[spec_leaf_ixs_upto(
                        self.columns@,
                        self.columns@.len() as int,
                    )[k]],
                ),
    {
        let ghost cs = self.columns@;
        let mut r: Vec<ExcelColumnInfo> = Vec::new();
        let mut i: usize = 0;
        while i < self.columns.len()
            invariant
                i <= cs.len(),
                cs == self.columns@,
                r@.len() == spec_leaf_ixs_upto(cs, i as int).len(),
                forall|k: int|
                    0 <= k < r@.len() ==> spec_col_matches(
                        #[trigger] r@[k],
                        cs[spec_leaf_ixs_upto(cs, i as int)[k]],
                    ),
            decreases cs.len() - i,
        {
            if is_leaf_at(&self.columns, i) {
                r.push(copy_column(&self.columns[i]));
                proof {
                    let ixs = spec_leaf_ixs_upto(cs, i as int + 1);
                    assert(ixs == spec_leaf_ixs_upto(cs, i as int) + seq![i as int]);
                }
            } else {
                proof {
                    assert(spec_leaf_ixs_upto(cs, i as int + 1) =~= spec_leaf_ixs_upto(
                        cs,
                        i as int,
                    ));
                }
            }
            i += 1;
        }
        r
    }
}

} // verus!
