use aml::error::{EntryKind, ExtractError};
use aml::table::{get_cell_value, read_table_from_sheet};
use aml::template::{
    cell_value_from_key, mapping_from_key, table_config_from_key, value_list_from_key, CellAddress, ExcelParam, Table,
    Template,
};
use aml::workbook::{read_cell_value, Sheet, Workbook};

fn s(x: &str) -> String {
    x.to_string()
}

fn row(cells: &[&str]) -> Vec<String> {
    cells.iter().map(|c| c.to_string()).collect()
}

fn template() -> Template {
    Template {
        entries: vec![
            (
                s("accounts"),
                ExcelParam::Table(Table {
                    sheet: s("Sheet1"),
                    header_row: 1,
                    columns: vec![(s("CIF"), s("A")), (s("Số tài khoản"), s("B"))],
                }),
            ),
            (s("title"), ExcelParam::Address(CellAddress { sheet: s("Sheet1"), cell: s("B2") })),
            (s("constant"), ExcelParam::Value(s("M1"))),
            (s("list"), ExcelParam::List(vec![s("A1"), s("A2")])),
        ],
    }
}

fn workbook(rows: Vec<Vec<String>>) -> Workbook {
    Workbook { sheets: vec![Sheet { name: s("Sheet1"), start: Some((0, 0)), rows }] }
}

#[test]
fn extraction_stops_at_first_blank_row() {
    let wb = workbook(vec![
        row(&["cif", " SỐ TÀI KHOẢN "]),
        row(&["C1", "001"]),
        row(&["C2", " 002 "]),
        row(&["", ""]),
        row(&["C3", "003"]),
    ]);
    let t = read_table_from_sheet(&template(), &wb, "accounts").unwrap();
    assert_eq!(t.rows.len(), 2);
    assert_eq!(t.rows[1], row(&["C2", "002"]));
    assert_eq!(t.start, (0, 0));
    assert_eq!(t.columns.len(), 2);
}

#[test]
fn header_only_table_has_no_rows() {
    let wb = workbook(vec![row(&["CIF", "Số tài khoản"])]);
    let t = read_table_from_sheet(&template(), &wb, "accounts").unwrap();
    assert!(t.rows.is_empty());
}

#[test]
fn header_mismatch_is_reported() {
    let wb = workbook(vec![row(&["CIF", "Số tài khoản ngân hàng"]), row(&["C1", "001"])]);
    match read_table_from_sheet(&template(), &wb, "accounts") {
        Err(ExtractError::HeaderMismatch { column, expected, actual }) => {
            assert_eq!(column, "B");
            assert_eq!(expected, "Số tài khoản");
            assert_eq!(actual, "Số tài khoản ngân hàng");
        }
        other => panic!("unexpected {:?}", other),
    }
    let empty = workbook(vec![row(&["CIF"]), row(&["C1", "001"])]);
    match read_table_from_sheet(&template(), &empty, "accounts") {
        Err(ExtractError::HeaderMismatch { column, actual, .. }) => {
            assert_eq!(column, "B");
            assert_eq!(actual, "");
        }
        other => panic!("unexpected {:?}", other),
    }
}

#[test]
fn configuration_faults_are_reported() {
    let wb = workbook(vec![]);
    assert!(matches!(read_table_from_sheet(&template(), &wb, "missing"), Err(ExtractError::UnknownKey { .. })));
    assert!(matches!(
        read_table_from_sheet(&template(), &wb, "title"),
        Err(ExtractError::WrongEntryKind { wanted: EntryKind::Table, .. })
    ));
    let other = Workbook { sheets: vec![] };
    assert!(matches!(read_table_from_sheet(&template(), &other, "accounts"), Err(ExtractError::MissingSheet { .. })));
}

#[test]
fn cells_are_read_by_column_name() {
    let cols = vec![(s("CIF"), s("B")), (s("Tên"), s("C")), (s("Bad"), s("1"))];
    let r = row(&["x", "C9", ""]);
    assert_eq!(get_cell_value("CIF", &cols, (0, 1), &r).unwrap(), Some(s("x")));
    assert_eq!(get_cell_value("CIF", &cols, (0, 0), &r).unwrap(), Some(s("C9")));
    assert_eq!(get_cell_value("Tên", &cols, (0, 0), &r).unwrap(), None);
    assert!(matches!(get_cell_value("Khác", &cols, (0, 0), &r), Err(ExtractError::MissingColumn { .. })));
    assert!(matches!(get_cell_value("Bad", &cols, (0, 0), &r), Err(ExtractError::MissingColumn { .. })));
}

#[test]
fn template_entries_resolve_by_kind() {
    let t = template();
    let wb = workbook(vec![row(&["a", "b"]), row(&["c", "Báo cáo"])]);
    assert_eq!(cell_value_from_key(&t, &wb, "title").unwrap(), "Báo cáo");
    assert_eq!(cell_value_from_key(&t, &wb, "constant").unwrap(), "M1");
    assert!(matches!(cell_value_from_key(&t, &wb, "list"), Err(ExtractError::WrongEntryKind { .. })));
    assert_eq!(table_config_from_key(&t, "accounts").unwrap().header_row, 1);
    assert_eq!(value_list_from_key(&t, "list").unwrap().len(), 2);
    assert!(mapping_from_key(&t, "list").is_err());
}

#[test]
fn single_cells_respect_the_used_range_origin() {
    let wb = Workbook { sheets: vec![Sheet { name: s("S"), start: Some((1, 1)), rows: vec![row(&["B2", "C2"]), row(&["B3", "C3"])] }] };
    assert_eq!(read_cell_value(&wb, "S", "C3").unwrap(), "C3");
    assert_eq!(read_cell_value(&wb, "S", "B2").unwrap(), "B2");
    assert_eq!(read_cell_value(&wb, "S", "A1").unwrap(), "");
    assert_eq!(read_cell_value(&wb, "S", "Z9").unwrap(), "");
    assert!(matches!(read_cell_value(&wb, "S", "B-2"), Err(ExtractError::InvalidAddress { .. })));
}
