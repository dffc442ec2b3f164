use aml::error::ExtractError;
use aml::report::{GeneralInfo, ReportPreparer, ResponsiblePerson};
use aml::suspicious::{Analysis, ConclusionEntry, ReportType};
use aml::tasks::{tasks_from_excel, tasks_from_sheet};
use aml::template::{CellAddress, ExcelParam, LegalBasis, Template};
use aml::workbook::{Sheet, Workbook};

fn s(x: &str) -> String {
    x.to_string()
}

fn row(cells: &[&str]) -> Vec<String> {
    cells.iter().map(|c| c.to_string()).collect()
}

fn cell(sheet: &str, c: &str) -> ExcelParam {
    ExcelParam::Address(CellAddress { sheet: s(sheet), cell: s(c) })
}

fn section_sheet() -> Sheet {
    Sheet {
        name: s("IV"),
        start: Some((0, 0)),
        rows: vec![
            row(&["a", "x", "Phân tích dòng 1"]),
            row(&["b", "", ""]),
            row(&["c", " x ", "Dòng 3"]),
            row(&["C01", "x", ""]),
            row(&["C02", "", "ghi chú"]),
            row(&["C01_desc", "", "mô tả thêm"]),
            row(&["", "x", ""]),
        ],
    }
}

fn template() -> Template {
    Template {
        entries: vec![
            (s("Phần IV: Thông tin về giao dịch đáng ngờ"), ExcelParam::Value(s("IV"))),
            (s("Dấu tick"), ExcelParam::Value(s("x"))),
            (
                s("Phần IV: Loại báo cáo giao dịch đáng ngờ"),
                ExcelParam::Mapping(vec![(s("a"), s("Khoản a")), (s("b"), s("Khoản b")), (s("c"), s("Khoản c"))]),
            ),
            (s("Phần IV: Dấu hiệu đáng ngờ"), ExcelParam::Mapping(vec![(s("b"), s("Dấu hiệu b"))])),
            (
                s("Phần IV: Nhận định về loại tội phạm có thể liên quan đến giao dịch đáng ngờ"),
                ExcelParam::Mapping(vec![(s("C01"), s("Tội 1")), (s("C02"), s("Tội 2"))]),
            ),
            (s("Phần IV: Mô tả, phân tích chi tiết"), ExcelParam::List(vec![s("C1"), s("C2"), s("C3")])),
            (
                s("Phần IV: Cơ sở hợp lý để nghi ngờ"),
                ExcelParam::LegalBasis(vec![(
                    s("M1"),
                    LegalBasis { document_number: Some(s("C1")), basis: Some(s("C2")) },
                )]),
            ),
            (s("Báo cáo này có bổ sung/thay thế báo cáo nào trước không?"), cell("I", "B1")),
            (s("Nếu có, bổ sung/thay thế cho Báo cáo"), cell("I", "B2")),
            (s("Ngày báo cáo"), cell("I", "B3")),
            (s("Phần I.1: Thông tin đối tượng báo cáo - Tên"), ExcelParam::Value(s("Ngân hàng A"))),
            (s("Phần I.1: Thông tin đối tượng báo cáo - Mã"), ExcelParam::Value(s("NHA"))),
            (s("Phần I.2: Thông tin về người lập báo cáo - Họ và tên"), cell("I", "B4")),
            (s("Phần I.2: Thông tin về người lập báo cáo - Điện thoại nơi làm việc"), cell("I", "B5")),
            (s("Phần I.2: Thông tin về người lập báo cáo - Điện thoại di động"), cell("I", "B6")),
            (s("Phần I.2: Thông tin về người lập báo cáo - Bộ phận công tác"), cell("I", "B7")),
            (s("Phần V: Công việc xử lý"), ExcelParam::Value(s("V"))),
        ],
    }
}

fn workbook() -> Workbook {
    Workbook {
        sheets: vec![
            section_sheet(),
            Sheet {
                name: s("I"),
                start: Some((0, 0)),
                rows: vec![
                    row(&["", "Bổ sung"]),
                    row(&["", "BC-01"]),
                    row(&["", "Ngày 05 tháng 03 năm 2024"]),
                    row(&["", "Lê Văn C"]),
                    row(&["", "024"]),
                    row(&["", "090"]),
                    row(&["", "Tuân thủ"]),
                ],
            },
            Sheet {
                name: s("V"),
                start: Some((0, 0)),
                rows: vec![
                    row(&["1", "x"]),
                    row(&["7", "x"]),
                    row(&["7_in_doc", "", "", "CV-1", "", "02/01/2024", "", "Bộ Công an"]),
                    row(&["7_desc", "", "Cung cấp hồ sơ"]),
                    row(&["3", ""]),
                ],
            },
        ],
    }
}

#[test]
fn ticked_clauses_and_indicators_are_selected() {
    let rt = ReportType::from_excel(&template(), &workbook()).unwrap();
    let codes: Vec<&str> = rt.clauses.iter().map(|c| c.code.as_str()).collect();
    assert_eq!(codes, vec!["a", "c"]);
    assert_eq!(rt.clauses[1].description, "Khoản c");
    assert!(rt.suspicious_indicators.is_empty());
}

#[test]
fn analysis_joins_non_empty_cells() {
    let a = Analysis::from_excel(&template(), &workbook()).unwrap();
    assert_eq!(a.detail, "Phân tích dòng 1\nDòng 3");
    assert_eq!(a.legal_bases.len(), 1);
    assert_eq!(a.legal_bases[0].report_type, "M1");
    assert_eq!(a.legal_bases[0].notice_number, Some(s("Phân tích dòng 1")));
    assert_eq!(a.legal_bases[0].basis, None);
}

#[test]
fn conclusions_take_ticked_crimes_with_descriptions() {
    let c = ConclusionEntry::from_excel(&template(), &workbook()).unwrap();
    assert_eq!(c.len(), 1);
    assert_eq!(c[0].crime_code, "C01");
    assert_eq!(c[0].description, "Tội 1");
    assert_eq!(c[0].other_content, Some(s("mô tả thêm")));
}

#[test]
fn general_info_reads_amendment_and_date() {
    let g = GeneralInfo::from_excel(&template(), &workbook()).unwrap();
    assert_eq!(g.amendment.change_type, "1");
    assert_eq!(g.amendment.report_number, "BC-01");
    assert_eq!(g.report_date, Some(s("2024-03-05")));
    assert_eq!(g.reporting_entity_name, Some(s("Ngân hàng A")));
    assert_eq!(g.report_form, Some(s("M1")));
}

#[test]
fn report_preparer_is_read_and_missing_keys_fail() {
    let p = ReportPreparer::from_excel(&template(), &workbook()).unwrap();
    assert_eq!(p.full_name, "Lê Văn C");
    assert_eq!(p.department, "Tuân thủ");
    assert!(matches!(ResponsiblePerson::from_excel(&template(), &workbook()), Err(ExtractError::UnknownKey { .. })));
}

#[test]
fn ticked_tasks_carry_their_documents() {
    let tasks = tasks_from_excel(&template(), &workbook()).unwrap();
    assert_eq!(tasks.len(), 2);
    assert_eq!(tasks[0].code, "1");
    assert!(tasks[0].documents.is_none());
    assert_eq!(tasks[1].code, "7");
    let docs = tasks[1].documents.as_ref().unwrap();
    assert_eq!(docs.len(), 1);
    assert_eq!(docs[0].doc_type, Some(s("1")));
    assert_eq!(docs[0].doc_number, Some(s("CV-1")));
    assert_eq!(docs[0].doc_date, Some(s("2024-01-02")));
    assert_eq!(docs[0].unit, Some(s("Bộ Công an")));
    assert_eq!(tasks[1].other_content, Some(s("Cung cấp hồ sơ")));
}

#[test]
fn a_bad_document_date_fails_the_tasks() {
    let sheet = Sheet { name: s("V"), start: None, rows: vec![row(&["6", "x"]), row(&["6_in_doc", "", "", "CV", "", "32/01/2024"])] };
    assert!(tasks_from_sheet(&sheet, "x").is_err());
}
