use imexport::data::ExcelColumnData;
use imexport::data::ExcelRowData;
use imexport::error::ExcelError;
use imexport::info::ExcelCellFormat;
use imexport::info::ExcelColumnInfo;
use imexport::info::ExcelInfo;
use imexport::layout::get_column_positions;

fn col(key: &str, name: &str) -> ExcelColumnInfo {
    ExcelColumnInfo::new(key.to_string(), name.to_string())
}

fn skill_columns() -> Vec<ExcelColumnInfo> {
    vec![
        col("number", "Number"),
        col("name", "Name"),
        col("moves", "Moves").with_data_group("moves".to_string()),
        col("moves_by", "By")
            .with_parent("moves".to_string())
            .with_data_group("moves_by".to_string())
            .with_data_group_parent("moves".to_string()),
        col("moves_lv", "LV/TM/HM")
            .with_parent("moves".to_string())
            .with_data_type("number".to_string())
            .with_data_group_parent("moves_by".to_string()),
        col("moves_move", "Move.")
            .with_parent("moves".to_string())
            .with_width(16)
            .with_data_group_parent("moves_by".to_string()),
        col("moves_type", "Type.")
            .with_parent("moves".to_string())
            .with_data_group_parent("moves_by".to_string()),
        col("moves_cat", "Cat.")
            .with_parent("moves".to_string())
            .with_data_group_parent("moves_by".to_string()),
        col("moves_power", "Power.")
            .with_parent("moves".to_string())
            .with_data_group_parent("moves_by".to_string()),
        col("moves_acc", "Acc.")
            .with_parent("moves".to_string())
            .with_data_group_parent("moves_by".to_string()),
    ]
}

fn skill_info() -> ExcelInfo {
    ExcelInfo::new(
        "Pokemon".to_string(),
        "FireRed Pokédex".to_string(),
        skill_columns(),
        "senlinz".to_string(),
        "2024-11-01T08:00:00".to_string(),
    )
}

#[test]
fn resolves_nested_header_grid() {
    let info = skill_info();
    let ps = get_column_positions(&info).unwrap();
    assert_eq!(ps.len(), 10);
    // The two plain leaves occupy one cell column each and stretch down to
    // the deepest header row.
    assert_eq!((ps[0].x1, ps[0].x2, ps[0].y1, ps[0].y2, ps[0].is_leaf), (0, 0, 0, 1, true));
    assert_eq!((ps[1].x1, ps[1].x2, ps[1].y1, ps[1].y2, ps[1].is_leaf), (1, 1, 0, 1, true));
    // The group spans its seven leaf descendants on one header row.
    assert_eq!((ps[2].x1, ps[2].x2, ps[2].y1, ps[2].y2, ps[2].is_leaf), (2, 8, 0, 0, false));
    // Its children take sequential cell columns on the second header row.
    for (i, x) in [(3u16, 2u16), (4, 3), (5, 4), (6, 5), (7, 6), (8, 7), (9, 8)] {
        let p = &ps[i as usize];
        assert_eq!((p.x1, p.x2, p.y1, p.y2, p.is_leaf), (x, x, 1, 1, true));
    }
    assert_eq!(ps[4].data_type, "number".to_string());
    assert_eq!(ps[0].key, "number".to_string());
}

#[test]
fn leaf_x_coordinates_are_contiguous() {
    let info = skill_info();
    let ps = get_column_positions(&info).unwrap();
    let mut xs: Vec<u16> = ps.iter().filter(|p| p.is_leaf).map(|p| p.x1).collect();
    xs.sort();
    let expected: Vec<u16> = (0..9).collect();
    assert_eq!(xs, expected);
}

#[test]
fn group_span_equals_leaf_descendants() {
    let info = skill_info();
    let ps = get_column_positions(&info).unwrap();
    let group = &ps[2];
    assert!(!group.is_leaf);
    assert_eq!(group.x2 - group.x1 + 1, 7);
}

#[test]
fn header_block_is_complete() {
    let info = skill_info();
    let ps = get_column_positions(&info).unwrap();
    let max_depth = ps.iter().map(|p| p.y2).max().unwrap();
    for p in &ps {
        if p.is_leaf {
            assert_eq!(p.y2, max_depth);
        } else {
            assert_eq!(p.y1, p.y2);
        }
    }
}

#[test]
fn offset_and_title_shift_the_grid() {
    let info = skill_info().with_offset(3, 2).with_title("Dex".to_string());
    let ps = get_column_positions(&info).unwrap();
    // One row is reserved for the title beneath the vertical offset.
    assert_eq!((ps[0].x1, ps[0].y1, ps[0].y2), (3, 3, 4));
    assert_eq!((ps[2].x1, ps[2].x2, ps[2].y1, ps[2].y2), (5, 11, 3, 3));
}

#[test]
fn flat_specification_is_single_row() {
    let info = ExcelInfo::new(
        "n".to_string(),
        "s".to_string(),
        vec![col("a", "A"), col("b", "B"), col("c", "C")],
        "au".to_string(),
        "2024-01-01".to_string(),
    );
    let ps = get_column_positions(&info).unwrap();
    for (i, p) in ps.iter().enumerate() {
        assert!(p.is_leaf);
        assert_eq!((p.x1, p.x2, p.y1, p.y2), (i as u16, i as u16, 0, 0));
        assert!(p.is_single_cell());
    }
}

#[test]
fn dangling_parent_is_rejected() {
    let columns = vec![col("a", "A"), col("b", "B").with_parent("zzz".to_string())];
    let err = ExcelInfo::check_columns(&columns).unwrap_err();
    assert_eq!(err.parent, "zzz".to_string());
    assert_eq!(err.column, "b".to_string());
    assert_eq!(err.message(), "parent column zzz not found for column b".to_string());
    let info = ExcelInfo::new(
        "n".to_string(),
        "s".to_string(),
        columns,
        "au".to_string(),
        "2024-01-01".to_string(),
    );
    assert!(get_column_positions(&info).is_err());
}

#[test]
fn parent_closed_by_sibling_block_is_rejected() {
    // `x`'s block is closed when its sibling `b` (same parent) opens, so a
    // later column can no longer declare `x` as its parent.
    let columns = vec![
        col("a", "A"),
        col("x", "X").with_parent("a".to_string()),
        col("b", "B").with_parent("a".to_string()),
        col("y", "Y").with_parent("x".to_string()),
    ];
    let err = ExcelInfo::check_columns(&columns).unwrap_err();
    assert_eq!(err.parent, "x".to_string());
    assert_eq!(err.column, "y".to_string());
}

#[test]
fn valid_hierarchy_passes_the_check() {
    assert!(ExcelInfo::check_columns(&skill_columns()).is_ok());
}

#[test]
fn parent_map_lists_referenced_columns() {
    let info = skill_info();
    let pairs = info.get_parent_map();
    assert_eq!(pairs.len(), 1);
    assert_eq!(pairs[0].0, "moves".to_string());
    assert_eq!(pairs[0].1, "".to_string());
}

#[test]
fn leaf_columns_keep_declaration_order() {
    let info = skill_info();
    let leaves = info.get_leaf_columns();
    let keys: Vec<String> = leaves.iter().map(|c| c.key.clone()).collect();
    assert_eq!(
        keys,
        vec![
            "number".to_string(),
            "name".to_string(),
            "moves_by".to_string(),
            "moves_lv".to_string(),
            "moves_move".to_string(),
            "moves_type".to_string(),
            "moves_cat".to_string(),
            "moves_power".to_string(),
            "moves_acc".to_string(),
        ]
    );
}

#[test]
fn value_format_prefers_matching_eq_rule() {
    let eq_red = ExcelCellFormat::new()
        .with_rule("eq".to_string())
        .with_value("hot".to_string())
        .with_color("red".to_string());
    let default_blue = ExcelCellFormat::new().with_color("blue".to_string());
    let column = ExcelColumnInfo::new("t".to_string(), "T".to_string()).with_value_format(vec![
        default_blue,
        eq_red,
    ]);
    let chosen = column.get_value_format(&"hot".to_string()).unwrap();
    assert_eq!(chosen.color, "red".to_string());
    let fallback = column.get_value_format(&"cold".to_string()).unwrap();
    assert_eq!(fallback.color, "blue".to_string());
}

#[test]
fn value_format_without_match_is_none() {
    let eq_red = ExcelCellFormat::new()
        .with_rule("eq".to_string())
        .with_value("hot".to_string())
        .with_color("red".to_string());
    let column =
        ExcelColumnInfo::new("t".to_string(), "T".to_string()).with_value_format(vec![eq_red]);
    assert!(column.get_value_format(&"cold".to_string()).is_none());
}

#[test]
fn builder_defaults_match_the_declared_model() {
    let c = col("k", "K");
    assert_eq!(c.width, 10);
    assert_eq!(c.data_type, "text".to_string());
    assert_eq!(c.parent, "".to_string());
    assert!(!c.has_parent());
    assert!(!c.is_root_group());
    let g = col("g", "G").with_data_group("g".to_string());
    assert!(g.is_root_group());
    let f = ExcelCellFormat::new();
    assert_eq!(f.rule, "default".to_string());
    assert_eq!(f.font_size, 11);
    assert_eq!(f.align, "left".to_string());
    assert_eq!(f.align_vertical, "bottom".to_string());
    let info = skill_info();
    assert_eq!(info.dx, 0);
    assert_eq!(info.dy, 0);
    assert!(info.title.is_none());
    assert!(!info.is_header_freeze);
}

#[test]
fn error_kinds_carry_their_context() {
    let columns = vec![col("b", "B").with_parent("a".to_string())];
    let info = ExcelInfo::new(
        "n".to_string(),
        "s".to_string(),
        columns,
        "au".to_string(),
        "2024-01-01".to_string(),
    );
    let e = get_column_positions(&info).unwrap_err();
    assert_eq!(e.parent, "a".to_string());
    assert_eq!(e.column, "b".to_string());
    let wrapped = ExcelError::Hierarchy(e);
    assert!(wrapped.message().contains("parent column a"));

    let value_error = imexport::error::ValueError {
        key: "hp".to_string(),
        raw: "tall".to_string(),
    };
    assert_eq!(
        value_error.message(),
        "value tall cannot be converted for column hp".to_string()
    );
    let codec_error = imexport::error::CodecError {
        op: "serialize workbook".to_string(),
        detail: "disk full".to_string(),
    };
    assert_eq!(
        ExcelError::Codec(codec_error).message(),
        "codec failure in serialize workbook: disk full".to_string()
    );
}

#[test]
fn data_constructors_shape_the_tree() {
    let leaf = ExcelColumnData::new("k".to_string(), "v".to_string());
    assert_eq!(leaf.key, "k".to_string());
    assert_eq!(leaf.value, "v".to_string());
    assert!(leaf.children.is_empty());
    let row = ExcelRowData::new(vec![leaf]);
    let group = ExcelColumnData::new_group("g".to_string(), "label".to_string(), vec![row]);
    assert_eq!(group.value, "label".to_string());
    assert_eq!(group.children.len(), 1);
    let root = ExcelColumnData::new_root(Vec::new());
    assert_eq!(root.key, "root".to_string());
    assert_eq!(root.value, "".to_string());
    let grown = root.with_children(vec![ExcelRowData::new(Vec::new())]);
    assert_eq!(grown.children.len(), 1);
    let named = ExcelColumnData::new_root_group("moves".to_string(), Vec::new());
    assert_eq!(named.key, "moves".to_string());
    assert_eq!(named.value, "".to_string());
}
