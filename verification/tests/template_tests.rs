use calamine::Reader;
use imexport::error::ExcelError;
use imexport::template::PlannedAlign;
use imexport::template::PlannedVerticalAlign;
use imexport::template::format_plan;
use imexport::info::ExcelCellFormat;
use imexport::info::ExcelColumnInfo;
use imexport::info::ExcelInfo;
use imexport::template::create_template_buffer;

fn col(key: &str, name: &str) -> ExcelColumnInfo {
    ExcelColumnInfo::new(key.to_string(), name.to_string())
}

fn create_excel_info() -> ExcelInfo {
    let columns = vec![
        col("number", "Number"),
        col("name", "Name"),
        col("first_type", "First"),
        col("second_type", "Second"),
        col("abilities", "Abilities"),
        col("hp", "HP").with_data_type("number".to_string()).with_data_type("number".to_string()),
        col("attack", "Attack")
            .with_data_type("number".to_string())
            .with_data_type("number".to_string()),
        col("defense", "Defense")
            .with_data_type("number".to_string())
            .with_data_type("number".to_string()),
        col("sp_attack", "Sp. Atk")
            .with_data_type("number".to_string())
            .with_data_type("number".to_string()),
        col("sp_defense", "Sp. Def")
            .with_data_type("number".to_string())
            .with_data_type("number".to_string()),
        col("speed", "Speed")
            .with_data_type("number".to_string())
            .with_data_type("number".to_string()),
        col("total", "Total").with_data_type("number".to_string()),
    ];
    ExcelInfo::new(
        "Pokemon".to_string(),
        "FireRed Pokédex".to_string(),
        columns,
        "senlinz".to_string(),
        "2024-11-01T08:00:00".to_string(),
    )
}

fn skill_info() -> ExcelInfo {
    ExcelInfo::new(
        "Pokemon".to_string(),
        "FireRed Pokédex".to_string(),
        vec![
            col("number", "Number"),
            col("name", "Name"),
            col("moves", "Moves").with_data_group("moves".to_string()),
            col("moves_by", "By")
                .with_parent("moves".to_string())
                .with_data_group("moves_by".to_string())
                .with_data_group_parent("moves".to_string()),
            col("moves_lv", "LV/TM/HM")
                .with_parent("moves".to_string())
                .with_data_type("number".to_string())
                .with_data_group_parent("moves_by".to_string()),
            col("moves_move", "Move.")
                .with_parent("moves".to_string())
                .with_width(16)
                .with_data_group_parent("moves_by".to_string()),
        ],
        "senlinz".to_string(),
        "2024-11-01T08:00:00".to_string(),
    )
}

fn read_sheet(bytes: &[u8], name: &str) -> calamine::Range<calamine::Data> {
    let cursor = std::io::Cursor::new(bytes.to_vec());
    let mut workbook: calamine::Xlsx<_> = calamine::open_workbook_from_rs(cursor).unwrap();
    workbook.worksheet_range(name).unwrap()
}

fn cell_text(range: &calamine::Range<calamine::Data>, row: u32, column: u32) -> String {
    match range.get_value((row, column)) {
        Some(calamine::Data::String(s)) => s.clone(),
        Some(calamine::Data::Empty) | None => "".to_string(),
        Some(other) => other.to_string(),
    }
}

#[test]
fn create_pokemon_template_success() {
    let info = create_excel_info();
    let result = create_template_buffer(&info);
    assert!(result.is_ok());
    let result = result.unwrap();
    assert!(!result.is_empty());
}

#[test]
fn template_headers_read_back_from_the_bytes() {
    let info = skill_info();
    let bytes = create_template_buffer(&info).unwrap();
    let range = read_sheet(&bytes, "FireRed Pokédex");
    // Plain leaves, the group anchor, and its children on the second row.
    assert_eq!(cell_text(&range, 0, 0), "Number".to_string());
    assert_eq!(cell_text(&range, 0, 1), "Name".to_string());
    assert_eq!(cell_text(&range, 0, 2), "Moves".to_string());
    assert_eq!(cell_text(&range, 1, 2), "By".to_string());
    assert_eq!(cell_text(&range, 1, 3), "LV/TM/HM".to_string());
    assert_eq!(cell_text(&range, 1, 4), "Move.".to_string());
}

#[test]
fn template_title_takes_the_first_row() {
    let info = skill_info().with_title("FireRed Pokédex".to_string()).with_title_height(50)
        .with_title_format(
            ExcelCellFormat::new()
                .with_bold(true)
                .with_color("#00FF00".to_string())
                .with_font_size(20)
                .with_align("center".to_string())
                .with_align_vertical("center".to_string())
                .with_border_color("#0000FF".to_string()),
        );
    let bytes = create_template_buffer(&info).unwrap();
    let range = read_sheet(&bytes, "FireRed Pokédex");
    assert_eq!(cell_text(&range, 0, 0), "FireRed Pokédex".to_string());
    assert_eq!(cell_text(&range, 1, 0), "Number".to_string());
    assert_eq!(cell_text(&range, 2, 2), "By".to_string());
}

#[test]
fn template_rejects_invalid_hierarchy() {
    let info = ExcelInfo::new(
        "n".to_string(),
        "s".to_string(),
        vec![col("b", "B").with_parent("a".to_string())],
        "au".to_string(),
        "2024-01-01".to_string(),
    );
    match create_template_buffer(&info) {
        Err(ExcelError::Hierarchy(e)) => {
            assert_eq!(e.parent, "a".to_string());
            assert_eq!(e.column, "b".to_string());
        },
        _ => panic!("an invalid hierarchy must surface as a hierarchy error"),
    }
}

#[test]
fn template_reports_codec_failures() {
    let info = create_excel_info();
    let bad = ExcelInfo { create_time: "not a datetime".to_string(), ..info };
    match create_template_buffer(&bad) {
        Err(ExcelError::Codec(e)) => {
            assert_eq!(e.op, "parse creation time".to_string());
        },
        _ => panic!("an unparseable creation time must surface as a codec error"),
    }
}

#[test]
fn alignment_matching_ignores_ascii_case() {
    assert!(imexport::template::ascii_eq_ignore_case("CeNtEr", "center"));
    assert!(imexport::template::ascii_eq_ignore_case("TOP", "top"));
    assert!(!imexport::template::ascii_eq_ignore_case("centre", "center"));
    assert!(!imexport::template::ascii_eq_ignore_case("center ", "center"));
}

#[test]
fn template_bytes_match_the_header_plan() {
    let info = skill_info().with_title("FireRed Pokédex".to_string());
    let plan = imexport::header::header_plan(&info).unwrap();
    let bytes = create_template_buffer(&info).unwrap();
    let range = read_sheet(&bytes, "FireRed Pokédex");
    // The title merge's anchor cell holds the title text.
    let title = plan.title.as_ref().unwrap();
    assert_eq!(cell_text(&range, title.y1, title.x1 as u32), "FireRed Pokédex".to_string());
    // Every planned header write's anchor cell holds the column's name.
    assert_eq!(plan.header_writes.len(), 6);
    for w in &plan.header_writes {
        assert_eq!(cell_text(&range, w.y1, w.x1 as u32), w.value);
    }
    // One width per leaf column.
    let leaf_xs: Vec<u16> = plan.positions.iter().filter(|p| p.is_leaf).map(|p| p.x1).collect();
    let width_xs: Vec<u16> = plan.widths.iter().map(|cw| cw.x).collect();
    assert_eq!(width_xs, leaf_xs);
    assert!(plan.freeze_row.is_none());
}

#[test]
fn frozen_header_plan_names_the_first_scrolling_row() {
    let info = skill_info().with_is_header_freeze(true);
    let plan = imexport::header::header_plan(&info).unwrap();
    // Two header rows, so scrolling begins on the third grid row.
    assert_eq!(plan.freeze_row, Some(2));
    assert!(create_template_buffer(&info).is_ok());
}

#[test]
fn format_plan_resolves_the_declared_attributes() {
    let f = ExcelCellFormat::new()
        .with_bold(true)
        .with_color("#00FF00".to_string())
        .with_font_size(20)
        .with_align("CENTER".to_string())
        .with_align_vertical("Top".to_string())
        .with_date_format("yyyy".to_string())
        .with_border_color("#0000FF".to_string());
    let plan = format_plan(&f);
    assert!(plan.bold);
    assert!(!plan.italic);
    assert_eq!(plan.font_size, 20);
    assert_eq!(plan.font_color, "#00FF00".to_string());
    assert_eq!(plan.background_color, "white".to_string());
    assert_eq!(plan.align, PlannedAlign::Center);
    assert_eq!(plan.align_vertical, PlannedVerticalAlign::Top);
    assert_eq!(plan.num_format, Some("yyyy".to_string()));
    assert_eq!(plan.border_color, Some("#0000FF".to_string()));
    let bare = format_plan(&ExcelCellFormat::new().with_align("justify".to_string()));
    assert_eq!(bare.align, PlannedAlign::Unset);
    assert_eq!(bare.align_vertical, PlannedVerticalAlign::Bottom);
    assert_eq!(bare.num_format, None);
}
