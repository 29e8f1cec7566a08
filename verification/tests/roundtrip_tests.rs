use calamine::Reader;
use imexport::data::ExcelColumnData;
use imexport::data::ExcelData;
use imexport::data::ExcelRowData;
use imexport::export::export_plan;
use imexport::import::data_start_row;
use imexport::import::leaf_cells;
use imexport::info::ExcelColumnInfo;
use imexport::info::ExcelInfo;
use imexport::template::create_template_workbook;
use imexport::template::default_format;

fn col(key: &str, name: &str) -> ExcelColumnInfo {
    ExcelColumnInfo::new(key.to_string(), name.to_string())
}

fn scalar(key: &str, value: &str) -> ExcelColumnData {
    ExcelColumnData::new(key.to_string(), value.to_string())
}

fn flat_info() -> ExcelInfo {
    ExcelInfo::new(
        "Pets".to_string(),
        "Pets".to_string(),
        vec![col("name", "Name"), col("kind", "Kind"), col("home", "Home")],
        "author".to_string(),
        "2024-11-01T08:00:00".to_string(),
    )
}

fn flat_data() -> ExcelData {
    ExcelData::new(vec![
        ExcelRowData::new(vec![scalar("name", "Tom"), scalar("kind", "cat"), scalar(
            "home", "house",
        )]),
        ExcelRowData::new(vec![scalar("name", "Jerry"), scalar("kind", "mouse"), scalar(
            "home", "wall",
        )]),
    ])
}

/// Applies a plan's writes with the real writer, as rendering does.
fn export_to_bytes(info: &ExcelInfo, data: &ExcelData) -> Vec<u8> {
    let plan = export_plan(info, data).unwrap();
    let (mut workbook, _plan) = create_template_workbook(info).unwrap();
    let worksheet = workbook.worksheet_from_name(&info.sheet_name).unwrap();
    let body = default_format();
    for w in &plan.writes {
        if w.x1 == w.x2 && w.y1 == w.y2 {
            worksheet.write_string(w.y1, w.x1, &w.value).unwrap();
            worksheet.set_cell_format(w.y1, w.x1, &body).unwrap();
        } else {
            worksheet.merge_range(w.y1, w.x1, w.y2, w.x2, &w.value, &body).unwrap();
        }
    }
    for v in &plan.validations {
        let list = rust_xlsxwriter::DataValidation::new().allow_list_strings(&v.values).unwrap();
        worksheet.add_data_validation(v.first_row, v.x, v.last_row, v.x, &list).unwrap();
    }
    workbook.save_to_buffer().unwrap()
}

/// Reads the flat rows back out of exported bytes through the library's
/// import mapping, as importing does.
fn import_rows(info: &ExcelInfo, bytes: &[u8]) -> Vec<Vec<(String, String)>> {
    let positions = imexport::layout::get_column_positions(info).unwrap();
    let readers = leaf_cells(&positions);
    let start = data_start_row(&positions);
    let cursor = std::io::Cursor::new(bytes.to_vec());
    let mut workbook: calamine::Xlsx<_> = calamine::open_workbook_from_rs(cursor).unwrap();
    let range = workbook.worksheet_range(&info.sheet_name).unwrap();
    let mut rows = Vec::new();
    for sheet_row in start..range.end().map(|(r, _)| r + 1).unwrap_or(start) {
        let mut row = Vec::new();
        for cell in &readers {
            let value = match range.get_value((sheet_row, cell.x as u32)) {
                Some(calamine::Data::String(s)) => s.clone(),
                Some(calamine::Data::Empty) | None => "".to_string(),
                Some(other) => other.to_string(),
            };
            row.push((cell.key.clone(), value));
        }
        rows.push(row);
    }
    rows
}

#[test]
fn flat_export_import_round_trip_preserves_rows() {
    let info = flat_info();
    let data = flat_data();
    let bytes = export_to_bytes(&info, &data);
    let rows = import_rows(&info, &bytes);
    assert_eq!(rows.len(), 2);
    assert_eq!(rows[0], vec![
        ("name".to_string(), "Tom".to_string()),
        ("kind".to_string(), "cat".to_string()),
        ("home".to_string(), "house".to_string()),
    ]);
    assert_eq!(rows[1], vec![
        ("name".to_string(), "Jerry".to_string()),
        ("kind".to_string(), "mouse".to_string()),
        ("home".to_string(), "wall".to_string()),
    ]);
}

#[test]
fn export_plan_places_flat_rows_one_per_grid_row() {
    let info = flat_info();
    let data = flat_data();
    let plan = export_plan(&info, &data).unwrap();
    assert_eq!(plan.data_start, 1);
    assert_eq!(plan.data_end, 3);
    assert_eq!(plan.writes.len(), 6);
    for (k, w) in plan.writes.iter().enumerate() {
        assert_eq!(w.y1, 1 + (k / 3) as u32);
        assert_eq!(w.y2, w.y1);
        assert_eq!(w.x1, (k % 3) as u16);
        assert_eq!(w.x2, w.x1);
    }
    assert_eq!(plan.writes[4].value, "mouse".to_string());
}

#[test]
fn export_plan_collects_validation_ranges() {
    let mut info = flat_info();
    info.columns[1] = col("kind", "Kind").with_allowed_values(vec![
        "cat".to_string(),
        "mouse".to_string(),
    ]);
    let data = flat_data();
    let plan = export_plan(&info, &data).unwrap();
    assert_eq!(plan.validations.len(), 1);
    let v = &plan.validations[0];
    assert_eq!(v.key, "kind".to_string());
    assert_eq!(v.x, 1);
    // The list spans exactly the two written rows, nothing beyond them.
    assert_eq!((v.first_row, v.last_row), (1, 2));
    assert_eq!(v.values, vec!["cat".to_string(), "mouse".to_string()]);
}

#[test]
fn empty_export_attaches_no_validations() {
    let mut info = flat_info();
    info.columns[1] = col("kind", "Kind").with_allowed_values(vec!["cat".to_string()]);
    let data = ExcelData::new(Vec::new());
    let plan = export_plan(&info, &data).unwrap();
    assert_eq!(plan.data_start, plan.data_end);
    assert!(plan.writes.is_empty());
    assert!(plan.validations.is_empty());
}

#[test]
fn export_pokemon_skill_success() {
    let info = ExcelInfo::new(
        "Pokemon".to_string(),
        "FireRed Pokédex".to_string(),
        vec![
            col("number", "Number"),
            col("name", "Name"),
            col("moves", "Moves").with_data_group("moves".to_string()),
            col("moves_by", "By")
                .with_parent("moves".to_string())
                .with_data_group("moves_by".to_string())
                .with_data_group_parent("moves".to_string()),
            col("moves_lv", "LV/TM/HM")
                .with_parent("moves".to_string())
                .with_data_type("number".to_string())
                .with_data_group_parent("moves_by".to_string()),
            col("moves_move", "Move.")
                .with_parent("moves".to_string())
                .with_width(16)
                .with_data_group_parent("moves_by".to_string()),
            col("moves_type", "Type.")
                .with_parent("moves".to_string())
                .with_data_group_parent("moves_by".to_string()),
            col("moves_cat", "Cat.")
                .with_parent("moves".to_string())
                .with_data_group_parent("moves_by".to_string()),
            col("moves_power", "Power.")
                .with_parent("moves".to_string())
                .with_data_group_parent("moves_by".to_string()),
            col("moves_acc", "Acc.")
                .with_parent("moves".to_string())
                .with_data_group_parent("moves_by".to_string()),
        ],
        "senlinz".to_string(),
        "2024-11-01T08:00:00".to_string(),
    );
    let level_rows = vec![
        ExcelRowData::new(vec![
            scalar("moves_lv", "1"),
            scalar("moves_move", "Tackle"),
            scalar("moves_type", "Normal"),
            scalar("moves_cat", "Physical"),
            scalar("moves_power", "40"),
            scalar("moves_acc", "100"),
        ]),
        ExcelRowData::new(vec![
            scalar("moves_lv", "4"),
            scalar("moves_move", "Growl"),
            scalar("moves_type", "Normal"),
            scalar("moves_cat", "Status"),
            scalar("moves_power", "-"),
            scalar("moves_acc", "100"),
        ]),
        ExcelRowData::new(vec![
            scalar("moves_lv", "7"),
            scalar("moves_move", "Leech Seed"),
            scalar("moves_type", "Grass"),
            scalar("moves_cat", "Status"),
            scalar("moves_power", "-"),
            scalar("moves_acc", "90"),
        ]),
        ExcelRowData::new(vec![
            scalar("moves_lv", "10"),
            scalar("moves_move", "Vine Whip"),
            scalar("moves_type", "Grass"),
            scalar("moves_cat", "Special"),
            scalar("moves_power", "35"),
            scalar("moves_acc", "100"),
        ]),
    ];
    let egg_rows = vec![
        ExcelRowData::new(vec![
            scalar("moves_move", "Curse"),
            scalar("moves_type", "Ghost"),
            scalar("moves_cat", "Status"),
            scalar("moves_power", "-"),
            scalar("moves_acc", "—"),
        ]),
        ExcelRowData::new(vec![
            scalar("moves_move", "Ingrain"),
            scalar("moves_type", "Grass"),
            scalar("moves_cat", "Status"),
            scalar("moves_power", "-"),
            scalar("moves_acc", "—"),
        ]),
        ExcelRowData::new(vec![
            scalar("moves_move", "Nature Power"),
            scalar("moves_type", "Normal"),
            scalar("moves_cat", "Status"),
            scalar("moves_power", "-"),
            scalar("moves_acc", "—"),
        ]),
    ];
    let data = ExcelData::new(vec![ExcelRowData::new(vec![
        scalar("number", "#001"),
        scalar("name", "Bulbasaur"),
        ExcelColumnData::new_root_group(
            "moves".to_string(),
            vec![
                ExcelRowData::new(vec![ExcelColumnData::new_group(
                    "moves_by".to_string(),
                    "Level".to_string(),
                    level_rows,
                )]),
                ExcelRowData::new(vec![ExcelColumnData::new_group(
                    "moves_by".to_string(),
                    "Egg".to_string(),
                    egg_rows,
                )]),
            ],
        ),
    ])]);

    let plan = export_plan(&info, &data).unwrap();
    // Headers occupy two rows; the one data row spans the seven move rows.
    assert_eq!(plan.data_start, 2);
    assert_eq!(plan.data_end, 9);
    // The group labels merge over their own blocks.
    let level = plan.writes.iter().find(|w| w.value == "Level".to_string()).unwrap();
    assert_eq!((level.x1, level.x2, level.y1, level.y2), (2, 2, 2, 5));
    let egg = plan.writes.iter().find(|w| w.value == "Egg".to_string()).unwrap();
    assert_eq!((egg.x1, egg.x2, egg.y1, egg.y2), (2, 2, 6, 8));
    // Scalars merge over the full height of the record.
    let name = plan.writes.iter().find(|w| w.key == "name".to_string()).unwrap();
    assert_eq!((name.x1, name.y1, name.y2), (1, 2, 8));
    // The root-group column itself never writes.
    assert!(plan.writes.iter().all(|w| w.key != "moves".to_string()));
    // A move cell lands at its resolved column on the right row.
    let tackle = plan.writes.iter().find(|w| w.value == "Tackle".to_string()).unwrap();
    assert_eq!((tackle.x1, tackle.y1, tackle.y2), (4, 2, 2));

    let bytes = export_to_bytes(&info, &data);
    assert!(!bytes.is_empty());
}
