use aml::entities::{Account, Individual};
use aml::template::{ExcelParam, Table, Template};
use aml::workbook::{Sheet, Workbook};

const ACCOUNT_COLUMNS: [&str; 8] =
    ["CIF", "Số tài khoản", "Tên Ngân hàng", "Mã Ngân hàng", "Loại tiền", "Loại TK", "Ngày mở", "Trạng thái"];

const PERSON_COLUMNS: [&str; 27] = [
    "CIF",
    "Tên khách hàng",
    "Ngày tháng năm sinh (dd/mm/yyyy)",
    "Giới tính",
    "Quốc tịch",
    "Nghề nghiệp",
    "Nếu Nghề nghiệp Khác",
    "Địa chỉ đăng ký thường trú (Số nhà)",
    "Địa chỉ đăng ký thường trú (Tỉnh/TP)",
    "Địa chỉ đăng ký thường trú (Phường/Xã)",
    "Địa chỉ đăng ký thường trú (Quốc gia)",
    "Nơi ở hiện tại (Số nhà)",
    "Nơi ở hiện tại (Tỉnh/TP)",
    "Nơi ở hiện tại (Phường/Xã)",
    "Nơi ở hiện tại (Quốc gia)",
    "Loại định danh",
    "CMND/CCCD/Hộ chiếu/Định danh cá nhân",
    "Ngày cấp (dd/mm/yyyy)",
    "Cơ quan cấp",
    "Ngày hết hạn (dd/mm/yyyy)",
    "Nơi cấp",
    "Số điện thoại",
    "Email",
    "Nghề nghiệp",
    "Nghề nghiệp",
    "Nghề nghiệp",
    "Nghề nghiệp",
];

fn letters(i: usize) -> String {
    if i < 26 {
        ((b'A' + i as u8) as char).to_string()
    } else {
        format!("A{}", (b'A' + (i - 26) as u8) as char)
    }
}

fn table(sheet: &str, names: &[&str]) -> ExcelParam {
    let mut columns = Vec::new();
    for (i, n) in names.iter().enumerate() {
        if !columns.iter().any(|(k, _): &(String, String)| k == n) {
            columns.push((n.to_string(), letters(i)));
        }
    }
    ExcelParam::Table(Table { sheet: sheet.to_string(), header_row: 1, columns })
}

fn header(names: &[&str]) -> Vec<String> {
    names.iter().map(|n| n.to_string()).collect()
}

fn person(cif: &str, name: &str) -> Vec<String> {
    let mut r = vec![String::new(); 27];
    r[0] = cif.to_string();
    r[1] = name.to_string();
    r[2] = "05/03/1990".to_string();
    r[3] = "Nam".to_string();
    r[5] = "Kỹ sư".to_string();
    r[15] = "CCCD".to_string();
    r[16] = "001090000001".to_string();
    for k in 23..27 {
        r[k] = r[5].clone();
    }
    r
}

fn account(cif: &str, number: &str) -> Vec<String> {
    vec![
        cif.to_string(),
        number.to_string(),
        "Vietcombank".to_string(),
        "970436 - VCB".to_string(),
        "VND - Việt Nam Đồng".to_string(),
        "TK thanh toán".to_string(),
        "01/02/2020".to_string(),
        "Đang hoạt động".to_string(),
    ]
}

fn fixture(persons: Vec<Vec<String>>, accounts: Vec<Vec<String>>) -> (Template, Workbook) {
    let template = Template {
        entries: vec![
            ("Phần II. Tài khoản".to_string(), table("TK", &ACCOUNT_COLUMNS)),
            ("Phần II. KHCN".to_string(), table("KHCN", &PERSON_COLUMNS)),
        ],
    };
    let mut prow = vec![header(&PERSON_COLUMNS)];
    prow.extend(persons);
    let mut arow = vec![header(&ACCOUNT_COLUMNS)];
    arow.extend(accounts);
    let workbook = Workbook {
        sheets: vec![
            Sheet { name: "KHCN".to_string(), start: Some((0, 0)), rows: prow },
            Sheet { name: "TK".to_string(), start: Some((0, 0)), rows: arow },
        ],
    };
    (template, workbook)
}

#[test]
fn customers_are_joined_with_their_accounts() {
    let (t, wb) = fixture(
        vec![person("CIF1", "Nguyễn Văn A"), person("CIF9", "Trần Thị B")],
        vec![account("CIF1", "001"), account("CIF1", "002")],
    );
    let people = Individual::from_excel(&t, &wb, 2025).unwrap();
    assert_eq!(people.len(), 2);
    let first = people[0].accounts.as_ref().unwrap();
    assert_eq!(first.len(), 2);
    assert_eq!(first[0].account_number, Some("001".to_string()));
    assert_eq!(first[1].account_number, Some("002".to_string()));
    assert!(people[1].accounts.is_none());
    assert_eq!(people[0].gender, "male");
    assert_eq!(people[0].date_of_birth, Some("1990-03-05".to_string()));
    assert_eq!(people[0].age_range, Some("3".to_string()));
    assert_eq!(people[0].existing_customer, Some("1".to_string()));
    assert_eq!(people[0].identification.id_type, "100");
    assert_eq!(people[0].occupation.occupation_code, "6");
}

#[test]
fn accounts_are_read_with_codes() {
    let (t, wb) = fixture(vec![], vec![account("CIF1", "001"), account("CIF2", "002")]);
    let index = Account::from_excel(&t, &wb).unwrap();
    assert_eq!(index.groups.len(), 2);
    let a = &index.groups[0].1[0];
    assert_eq!(a.bank.bank_code, Some("970436".to_string()));
    assert_eq!(a.currency_type, Some("VND".to_string()));
    assert_eq!(a.account_type, "CURRE");
    assert_eq!(a.status, "ACTIV");
    assert_eq!(a.open_date, Some("2020-02-01".to_string()));
}

#[test]
fn a_bad_row_is_reported_with_its_number() {
    let mut bad = account("CIF2", "002");
    bad[5] = "TK không rõ".to_string();
    let (t, wb) = fixture(vec![], vec![account("CIF1", "001"), bad]);
    match Account::from_excel(&t, &wb) {
        Err(aml::error::ExtractError::Row { row, .. }) => assert_eq!(row, 2),
        Err(e) => panic!("unexpected {:?}", e),
        Ok(_) => panic!("accepted a bad row"),
    }
}

const ORG_COLUMNS: [&str; 18] = [
    "CIF",
    "Tên khách hàng",
    "Loại hình tổ chức",
    "Loại hình tổ chức nếu chọn Khác",
    "Số nhà",
    "Phường/Xã",
    "Tỉnh/TP",
    "Quốc gia",
    "Số điện thoại",
    "Giấy phép thành lập số",
    "Ngày cấp giấy phép (dd/mm/yyyy)",
    "Nơi cấp giấy phép",
    "MS doanh nghiệp/MS thuế",
    "Ngày cấp MST (dd/mm/yyyy)",
    "Quốc gia cấp MST",
    "Ngành nghề kinh doanh chính",
    "Địa chỉ trang thông tin điện tử của doanh nghiệp",
    "Tên khách hàng",
];

const PERSON_DETAIL_COLUMNS: [&str; 21] = [
    "CIF",
    "Họ và tên",
    "Ngày sinh",
    "Nghề nghiệp",
    "Nếu Nghề nghiệp Khác",
    "Chức vụ/vị trí việc làm",
    "Địa chỉ đăng ký thường trú (Số nhà)",
    "Địa chỉ đăng ký thường trú (Tỉnh/TP)",
    "Địa chỉ đăng ký thường trú (Phường/Xã)",
    "Địa chỉ đăng ký thường trú (Quốc gia)",
    "Nơi ở hiện tại (Số nhà)",
    "Nơi ở hiện tại (Tỉnh/TP)",
    "Nơi ở hiện tại (Phường/Xã)",
    "Nơi ở hiện tại (Quốc gia)",
    "Điện thoại liên lạc",
    "Quốc tịch",
    "Loại định danh",
    "CMND/CCCD/Hộ chiếu/Định danh cá nhân",
    "Ngày cấp (dd/mm/yyyy)",
    "Cơ quan cấp",
    "Nơi cấp",
];

fn org(cif: &str, name: &str, code: &str) -> Vec<String> {
    let mut r = vec![String::new(); 18];
    r[0] = cif.to_string();
    r[1] = name.to_string();
    r[2] = "Công ty cổ phần".to_string();
    r[12] = code.to_string();
    r[17] = name.to_string();
    r
}

fn detail(cif: &str, name: &str, id: &str, gender: &str) -> Vec<String> {
    let mut r = vec![String::new(); 22];
    r[0] = cif.to_string();
    r[1] = name.to_string();
    r[3] = "Kỹ sư".to_string();
    r[16] = "CCCD".to_string();
    r[17] = id.to_string();
    r[21] = gender.to_string();
    r
}

fn full_fixture() -> (Template, Workbook) {
    let (mut t, mut wb) = fixture(
        vec![person("CIF1", "Nguyễn Văn A")],
        vec![account("CIF1", "001"), account("ORG1", "009")],
    );
    let mut owner_columns: Vec<&str> = PERSON_DETAIL_COLUMNS.to_vec();
    owner_columns.push("Giới tính");
    t.entries.push(("Phần II. KHTC".to_string(), table("KHTC", &ORG_COLUMNS)));
    t.entries.push(("Phần II. Người đại diện".to_string(), table("DD", &PERSON_DETAIL_COLUMNS)));
    t.entries.push(("Phần II. CSHHL khác".to_string(), table("CSHHL", &owner_columns)));
    wb.sheets.push(Sheet { name: "KHTC".to_string(), start: Some((0, 0)), rows: vec![header(&ORG_COLUMNS), org("ORG1", "Công ty B", "0101")] });
    let mut dd = vec![header(&PERSON_DETAIL_COLUMNS)];
    dd.push(detail("ORG1", "Phạm D", "D-1", "")[..21].to_vec());
    wb.sheets.push(Sheet { name: "DD".to_string(), start: Some((0, 0)), rows: dd });
    wb.sheets.push(Sheet {
        name: "CSHHL".to_string(),
        start: Some((0, 0)),
        rows: vec![header(&owner_columns), detail("CIF1", "Hoàng E", "E-1", "Nữ"), detail("ORG1", "Vũ F", "F-1", "Nam")],
    });
    (t, wb)
}

#[test]
fn organizations_join_accounts_and_representatives() {
    let (t, wb) = full_fixture();
    let orgs = aml::entities::Organization::from_excel(&t, &wb).unwrap();
    assert_eq!(orgs.len(), 1);
    assert_eq!(orgs[0].organization_type.type_code, Some("3".to_string()));
    assert_eq!(orgs[0].accounts.as_ref().unwrap().len(), 1);
    let reps = orgs[0].representatives.as_ref().unwrap();
    assert_eq!(reps[0].details.full_name, Some("Phạm D".to_string()));
    assert_eq!(reps[0].id, Some("D-1".to_string()));
}

#[test]
fn beneficial_owners_link_every_customer() {
    let (t, wb) = full_fixture();
    let owners = aml::owners::BeneficialOwners::from_excel(&t, &wb, 2025).unwrap();
    assert_eq!(owners.other_owners.len(), 2);
    assert_eq!(owners.individual_links.len(), 1);
    let other = owners.individual_links[0].benefit_group.as_ref().unwrap().other_group.as_ref().unwrap();
    assert_eq!(other.len(), 1);
    assert_eq!(other[0].full_name, Some("Hoàng E".to_string()));
    assert_eq!(other[0].id, Some("CIF1".to_string()));
    let org_link = &owners.organization_links[0];
    assert_eq!(org_link.id_number, Some("0101".to_string()));
    let main = org_link.benefit_group.main_group.as_ref().unwrap();
    assert_eq!(main[0].id_number, Some("D-1".to_string()));
    assert_eq!(org_link.benefit_group.other_group.as_ref().unwrap()[0].full_name, Some("Vũ F".to_string()));
}

const RELATED_ACCOUNT_COLUMNS: [&str; 8] =
    ["Số giấy tờ", "Số tài khoản", "Tên Ngân hàng", "Mã Ngân hàng", "Loại tiền", "Loại TK", "Ngày mở", "Trạng thái"];

const RELATED_ORG_COLUMNS: [&str; 17] = [
    "MS doanh nghiệp/MS thuế",
    "Tên đầy đủ của tổ chức",
    "Tên tiếng nước ngoài (nếu có)",
    "Tên viết tắt (nếu có)",
    "Số nhà",
    "Phường/Xã",
    "Tỉnh/TP",
    "Quốc gia",
    "Số điện thoại",
    "Giấy phép thành lập số",
    "Ngày cấp giấy phép (dd/mm/yyyy)",
    "Nơi cấp giấy phép",
    "Ngày cấp MST (dd/mm/yyyy)",
    "Quốc gia cấp MST",
    "Ngành nghề kinh doanh chính",
    "Địa chỉ trang thông tin điện tử của doanh nghiệp",
    "Tên đầy đủ của tổ chức",
];

#[test]
fn related_parties_join_related_accounts_by_number() {
    let mut person_cols: Vec<&str> = PERSON_COLUMNS[1..23].to_vec();
    person_cols.retain(|c| *c != "Tên khách hàng" && *c != "Email");
    person_cols.insert(0, "Họ và tên");
    let template = Template {
        entries: vec![
            ("Phần III. Tài khoản liên quan".to_string(), table("TKLQ", &RELATED_ACCOUNT_COLUMNS)),
            ("Phần III. CN liên quan".to_string(), table("CNLQ", &person_cols)),
            ("Phần III. TC liên quan".to_string(), table("TCLQ", &RELATED_ORG_COLUMNS)),
            ("Phần II: Thông tin bổ sung".to_string(), ExcelParam::Value("không".to_string())),
        ],
    };
    let mut acc = account("0101", "777");
    acc[4] = "USD - United States Dollar".to_string();
    let mut person = vec![String::new(); person_cols.len()];
    person[0] = "Đỗ G".to_string();
    let id_col = person_cols.iter().position(|c| *c == "CMND/CCCD/Hộ chiếu/Định danh cá nhân").unwrap();
    person[id_col] = "G-1".to_string();
    let mut org_row = vec![String::new(); 17];
    org_row[0] = "0101".to_string();
    org_row[1] = "Công ty H".to_string();
    org_row[16] = "Công ty H".to_string();
    let workbook = Workbook {
        sheets: vec![
            Sheet { name: "TKLQ".to_string(), start: Some((0, 0)), rows: vec![header(&RELATED_ACCOUNT_COLUMNS), acc] },
            Sheet { name: "CNLQ".to_string(), start: Some((0, 0)), rows: vec![header(&person_cols), person] },
            Sheet { name: "TCLQ".to_string(), start: Some((0, 0)), rows: vec![header(&RELATED_ORG_COLUMNS), org_row] },
        ],
    };
    let s3 = aml::related::Section3::from_excel(&template, &workbook, 2025).unwrap();
    assert_eq!(s3.related_individuals.len(), 1);
    assert_eq!(s3.related_individuals[0].id, "G-1");
    assert!(s3.related_individuals[0].accounts.is_none());
    assert!(s3.related_individuals[0].existing_customer.is_none());
    let org = &s3.related_organizations[0];
    assert_eq!(org.id, "0101");
    let accounts = org.accounts.as_ref().unwrap();
    assert_eq!(accounts[0].currency_type, Some("USD".to_string()));
    assert_eq!(s3.additional_info, Some("không".to_string()));
}

const LEDGER_COLUMNS: [&str; 14] = [
    "CIF",
    "Số tài khoản",
    "Tên cá nhân/ tổ chức đối ứng",
    "Số CMND/ CCCD/ Hộ chiếu/ định danh cá nhân",
    "Số tài khoản áp dụng cho TH chuyển khoản",
    "Tên ngân hàng chuyển tiền",
    "Mã ngân hàng chuyển tiền",
    "Tổng số tiền nguyên tệ",
    "Tổng số tiền quy đổi (VND)",
    "Tổng số lượng giao dịch",
    "Giao dịch từ ngày",
    "Giao dịch đến ngày",
    "Loại tiền",
    "Tóm tắt nội dung giao dịch",
];

fn ledger(cif: &str, acc: &str, converted: &str, count: &str) -> Vec<String> {
    let mut r = vec![String::new(); 14];
    r[0] = cif.to_string();
    r[1] = acc.to_string();
    r[7] = converted.to_string();
    r[8] = converted.to_string();
    r[9] = count.to_string();
    r[10] = "01/01/2024".to_string();
    r[12] = "VND - Việt Nam Đồng".to_string();
    r
}

#[test]
fn money_flows_are_read_from_both_ledgers() {
    let (mut t, mut wb) = full_fixture();
    t.entries.push(("Phần IV. Ghi Có".to_string(), table("CO", &LEDGER_COLUMNS)));
    t.entries.push(("Phần IV. Ghi Nợ".to_string(), table("NO", &LEDGER_COLUMNS)));
    wb.sheets.push(Sheet {
        name: "CO".to_string(),
        start: Some((0, 0)),
        rows: vec![header(&LEDGER_COLUMNS), ledger("CIF1", "001", "100", "1"), ledger("CIF1", "001", "50", "2")],
    });
    wb.sheets.push(Sheet { name: "NO".to_string(), start: Some((0, 0)), rows: vec![header(&LEDGER_COLUMNS), ledger("CIF1", "001", "30", "1")] });
    let flows = aml::money_flow::MoneyFlow::from_excel(&t, &wb, 2025).unwrap();
    assert_eq!(flows.len(), 1);
    assert_eq!(flows[0].total_converted_in, 15000);
    assert_eq!(flows[0].total_converted_out, 3000);
    assert_eq!(flows[0].subject_name, "Nguyễn Văn A");
    assert_eq!(flows[0].identification, "001090000001");
    assert_eq!(flows[0].bank_code, Some("970436".to_string()));
    assert_eq!(flows[0].inflows[0].tx_from, Some("2024-01-01".to_string()));
    let amounts = aml::suspicious::currency_amounts(&flows);
    assert_eq!(amounts.len(), 1);
    assert_eq!(amounts[0].currency, "VND");
    assert_eq!(amounts[0].amount, Some(18000));
    assert_eq!(aml::suspicious::total_converted_amount(&flows), Some(18000));
}

#[test]
fn a_blank_customer_key_joins_nothing() {
    let (t, wb) = fixture(vec![person("", "Khách vãng lai")], vec![account("", "555")]);
    let people = Individual::from_excel(&t, &wb, 2025).unwrap();
    assert!(people[0].accounts.is_none());
    assert!(people[0].existing_customer.is_none());
}

#[test]
fn a_bad_customer_row_carries_its_number() {
    let mut bad = person("CIF2", "Lỗi");
    bad[3] = "X".to_string();
    let (t, wb) = fixture(vec![person("CIF1", "A"), person("CIF3", "B"), bad], vec![]);
    match Individual::from_excel(&t, &wb, 2025) {
        Err(aml::error::ExtractError::Row { row, source }) => {
            assert_eq!(row, 3);
            assert!(matches!(*source, aml::error::ExtractError::InvalidCodeValue { .. }));
        }
        Err(e) => panic!("unexpected {:?}", e),
        Ok(_) => panic!("accepted a bad row"),
    }
}
