use imexport::compose::CellWrite;
use imexport::compose::place_node;
use imexport::compose::place_row;
use imexport::data::ExcelColumnData;
use imexport::data::ExcelRowData;
use imexport::info::ExcelColumnInfo;
use imexport::info::ExcelInfo;
use imexport::layout::ExcelColumnPosition;
use imexport::layout::get_column_positions;

fn col(key: &str, name: &str) -> ExcelColumnInfo {
    ExcelColumnInfo::new(key.to_string(), name.to_string())
}

fn scalar(key: &str, value: &str) -> ExcelColumnData {
    ExcelColumnData::new(key.to_string(), value.to_string())
}

fn flat_ab() -> ExcelInfo {
    ExcelInfo::new(
        "n".to_string(),
        "s".to_string(),
        vec![col("a", "A"), col("b", "B")],
        "au".to_string(),
        "2024-01-01".to_string(),
    )
}

fn resolve(info: &ExcelInfo) -> Vec<ExcelColumnPosition> {
    get_column_positions(info).unwrap()
}

/// A node under `key` whose children are `n` one-node rows: it spans `n`
/// grid rows when placed.
fn tower(key: &str, leaf: &str, n: usize) -> ExcelColumnData {
    let rows: Vec<ExcelRowData> = (0..n)
        .map(|i| ExcelRowData::new(vec![scalar(leaf, &i.to_string())]))
        .collect();
    ExcelColumnData::new_group(key.to_string(), "block".to_string(), rows)
}

#[test]
fn pass_through_node_spans_the_tallest_group() {
    let info = flat_ab();
    let ps = resolve(&info);
    let two = ExcelRowData::new(vec![tower("a", "b", 2)]);
    let three = ExcelRowData::new(vec![tower("a", "b", 3)]);
    let sentinel = ExcelColumnData::new_root(vec![two, three]);
    let mut out: Vec<CellWrite> = Vec::new();
    let h = place_node(&sentinel, 0, &info.columns, &ps, &mut out).unwrap();
    assert_eq!(h, 3);
    // The pass-through node itself writes nothing; only its descendants do.
    assert!(out.iter().all(|w| w.key != "root".to_string()));
    assert!(out.iter().any(|w| w.key == "a".to_string()));
}

#[test]
fn stacked_groups_add_their_heights() {
    let info = flat_ab();
    let ps = resolve(&info);
    let node = ExcelColumnData::new_group(
        "a".to_string(),
        "all".to_string(),
        vec![
            ExcelRowData::new(vec![tower("b", "b", 2)]),
            ExcelRowData::new(vec![tower("b", "b", 3)]),
        ],
    );
    let mut out: Vec<CellWrite> = Vec::new();
    let h = place_node(&node, 10, &info.columns, &ps, &mut out).unwrap();
    assert_eq!(h, 5);
    // The node's own write covers the whole stacked block.
    let own = out.iter().find(|w| w.key == "a".to_string() && w.y1 == 10).unwrap();
    assert_eq!((own.y1, own.y2, own.x1, own.x2), (10, 14, 0, 0));
    assert_eq!(own.value, "all".to_string());
}

#[test]
fn scalar_row_writes_single_cells() {
    let info = flat_ab();
    let ps = resolve(&info);
    let row = ExcelRowData::new(vec![scalar("a", "1"), scalar("b", "2")]);
    let mut out: Vec<CellWrite> = Vec::new();
    let next = place_row(&row, 1, &info.columns, &ps, &mut out).unwrap();
    assert_eq!(next, 2);
    assert_eq!(out.len(), 2);
    assert_eq!((out[0].x1, out[0].x2, out[0].y1, out[0].y2), (0, 0, 1, 1));
    assert_eq!(out[0].value, "1".to_string());
    assert_eq!((out[1].x1, out[1].x2, out[1].y1, out[1].y2), (1, 1, 1, 1));
}

#[test]
fn scalars_merge_across_a_tall_sibling() {
    let info = flat_ab();
    let ps = resolve(&info);
    let row = ExcelRowData::new(vec![scalar("a", "tall"), tower("b", "b", 3)]);
    let mut out: Vec<CellWrite> = Vec::new();
    let next = place_row(&row, 0, &info.columns, &ps, &mut out).unwrap();
    assert_eq!(next, 3);
    // The scalar stretches over the three rows its sibling consumed.
    let w = out.iter().find(|w| w.key == "a".to_string()).unwrap();
    assert_eq!((w.y1, w.y2), (0, 2));
}

#[test]
fn next_row_strictly_advances_and_rows_never_overlap() {
    let info = flat_ab();
    let ps = resolve(&info);
    let r1 = ExcelRowData::new(vec![scalar("a", "x"), tower("b", "b", 2)]);
    let r2 = ExcelRowData::new(vec![scalar("a", "y"), scalar("b", "z")]);
    let mut w1: Vec<CellWrite> = Vec::new();
    let mut w2: Vec<CellWrite> = Vec::new();
    let next1 = place_row(&r1, 5, &info.columns, &ps, &mut w1).unwrap();
    assert!(next1 > 5);
    let next2 = place_row(&r2, next1, &info.columns, &ps, &mut w2).unwrap();
    assert!(next2 > next1);
    for a in &w1 {
        for b in &w2 {
            assert!(a.y2 < b.y1);
        }
    }
}

#[test]
fn root_group_column_gets_no_write_of_its_own() {
    let columns = vec![
        col("id", "Id"),
        col("moves", "Moves").with_data_group("moves".to_string()),
        col("moves_lv", "Lv")
            .with_parent("moves".to_string())
            .with_data_group_parent("moves".to_string()),
    ];
    let info = ExcelInfo::new(
        "n".to_string(),
        "s".to_string(),
        columns,
        "au".to_string(),
        "2024-01-01".to_string(),
    );
    let ps = resolve(&info);
    let node = ExcelColumnData::new_root_group(
        "moves".to_string(),
        vec![ExcelRowData::new(vec![scalar("moves_lv", "1")])],
    );
    let mut out: Vec<CellWrite> = Vec::new();
    let h = place_node(&node, 2, &info.columns, &ps, &mut out).unwrap();
    assert_eq!(h, 1);
    assert!(out.iter().all(|w| w.key != "moves".to_string()));
    assert!(out.iter().any(|w| w.key == "moves_lv".to_string()));
}

#[test]
fn unknown_keys_consume_rows_but_write_nothing() {
    let info = flat_ab();
    let ps = resolve(&info);
    let row = ExcelRowData::new(vec![scalar("nope", "x"), tower("gone", "also_gone", 2)]);
    let mut out: Vec<CellWrite> = Vec::new();
    let next = place_row(&row, 0, &info.columns, &ps, &mut out).unwrap();
    assert_eq!(next, 2);
    assert!(out.is_empty());
}

#[test]
fn row_space_exhaustion_is_reported() {
    let info = flat_ab();
    let ps = resolve(&info);
    let row = ExcelRowData::new(vec![scalar("a", "1")]);
    let mut out: Vec<CellWrite> = Vec::new();
    assert!(place_row(&row, u32::MAX, &info.columns, &ps, &mut out).is_none());
}
