//! The report's general information and its first section: the reporting
//! entity, the person responsible and the preparer, each read from cells the
//! template names.

use vstd::prelude::*;
use crate::codes::{translate, translation, Vocabulary};
use crate::error::ExtractError;
use crate::row::opt_view;
use crate::template::{cell_value_from_key, key_text, Template};
use crate::text::{string_of, text_eq};
use crate::workbook::Workbook;

verus! {

/// The day, month and year digits that the report-date pattern captures in
/// a text, if it matches.
pub uninterp spec fn date_captures_of(s: Seq<char>) -> Option<(Seq<char>, Seq<char>, Seq<char>)>;

/// Relies on regex's `Regex::new` and `Regex::captures` with the pattern
/// `(?ms)(\d{2}).+(\d{2}).+(\d{4})`: the first match's three groups.
#[verifier::external_body]
fn date_captures(s: &str) -> (r: Option<(String, String, String)>)
    ensures
        match r {
            Some(t) => date_captures_of(s@) == Some((t.0@, t.1@, t.2@)),
            None => date_captures_of(s@) is None,
        },
{
    match regex::Regex::new(r"(?ms)(\d{2}).+(\d{2}).+(\d{4})") {
        Ok(re) => match re.captures(s) {
            Some(c) => Some((c[1].to_string(), c[2].to_string(), c[3].to_string())),
            None => None,
        },
        Err(_) => None,
    }
}

/// The report date "yyyy-mm-dd" written from a text that holds its day,
/// month and year in that order.
pub open spec fn report_date_of(s: Seq<char>) -> Option<Seq<char>> {
    match date_captures_of(s) {
        Some((d, m, y)) => Some(y + seq!['-'] + m + seq!['-'] + d),
        None => None,
    }
}

/// Writes the report date found in a text.
pub fn report_date_from_text(s: &str) -> (r: Option<String>)
    ensures
        opt_view(r) == report_date_of(s@),
{
    match date_captures(s) {
        None => None,
        Some((d, m, y)) => {
            let mut out: Vec<char> = Vec::new();
            append(&mut out, y.as_str());
            out.push('-');
            append(&mut out, m.as_str());
            out.push('-');
            append(&mut out, d.as_str());
            assert(out@ =~= y@ + seq!['-'] + m@ + seq!['-'] + d@);
            Some(string_of(out.as_slice()))
        },
    }
}

fn append(out: &mut Vec<char>, s: &str)
    ensures
        final(out)@ == old(out)@ + s@,
{
    let v = crate::text::chars_of(s);
    let mut i: usize = 0;
    let ghost start = out@;
    while i < v.len()
        invariant
            i <= v@.len(),
            v@ == s@,
            out@ == start + v@.subrange(0, i as int),
        decreases v@.len() - i,
    {
        out.push(v[i]);
        assert(out@ =~= start + v@.subrange(0, i + 1));
        i = i + 1;
    }
    assert(v@.subrange(0, v@.len() as int) =~= v@);
}

/// An amendment: whether this report supplements or replaces another, and
/// which.
#[derive(Debug)]
pub struct AmendmentSupplement {
    pub change_type: String,
    pub report_number: String,
    pub report_date: String,
}

/// The report's general information.
#[derive(Debug)]
pub struct GeneralInfo {
    pub report_date: Option<String>,
    pub report_number: Option<String>,
    pub amendment: AmendmentSupplement,
    pub reporting_entity_name: Option<String>,
    pub reporting_entity_code: Option<String>,
    pub report_form: Option<String>,
}

/// The text the template key stands for, as the spec of a read.
pub open spec fn read_key(t: Template, w: Workbook, key: Seq<char>, r: Result<String, ExtractError>) -> bool {
    match key_text(t, w, key) {
        Some(v) => r is Ok && r->Ok_0@ == v,
        None => r is Err,
    }
}

pub open spec fn general_info_ok(t: Template, w: Workbook) -> bool {
    &&& key_text(t, w, "Báo cáo này có bổ sung/thay thế báo cáo nào trước không?"@) is Some
    &&& translation(Vocabulary::Amendment.spec_entries(), key_text(t, w, "Báo cáo này có bổ sung/thay thế báo cáo nào trước không?"@)->Some_0) is Some
    &&& translation(Vocabulary::Amendment.spec_entries(), key_text(t, w, "Báo cáo này có bổ sung/thay thế báo cáo nào trước không?"@)->Some_0)->Some_0 != seq!['0']
        ==> key_text(t, w, "Nếu có, bổ sung/thay thế cho Báo cáo"@) is Some
    &&& key_text(t, w, "Ngày báo cáo"@) is Some
    &&& key_text(t, w, "Phần I.1: Thông tin đối tượng báo cáo - Tên"@) is Some
    &&& key_text(t, w, "Phần I.1: Thông tin đối tượng báo cáo - Mã"@) is Some
}

pub open spec fn general_info_is(t: Template, w: Workbook, g: GeneralInfo) -> bool {
    let code = translation(Vocabulary::Amendment.spec_entries(), key_text(t, w, "Báo cáo này có bổ sung/thay thế báo cáo nào trước không?"@)->Some_0)->Some_0;
    &&& g.amendment.change_type@ == code
    &&& g.amendment.report_number@ == if code == seq!['0'] {
        Seq::empty()
    } else {
        key_text(t, w, "Nếu có, bổ sung/thay thế cho Báo cáo"@)->Some_0
    }
    &&& g.amendment.report_date@.len() == 0
    &&& opt_view(g.report_date) == report_date_of(key_text(t, w, "Ngày báo cáo"@)->Some_0)
    &&& g.report_number is None
    &&& opt_view(g.reporting_entity_name) == key_text(t, w, "Phần I.1: Thông tin đối tượng báo cáo - Tên"@)
    &&& opt_view(g.reporting_entity_code) == key_text(t, w, "Phần I.1: Thông tin đối tượng báo cáo - Mã"@)
    &&& opt_view(g.report_form) == Some(seq!['M', '1'])
}

/// The report form "M1".
fn form_m1() -> (r: String)
    ensures
        r@ == seq!['M', '1'],
{
    let v = vec!['M', '1'];
    assert(v@ =~= seq!['M', '1']);
    string_of(v.as_slice())
}

/// What reading the general information gives.
pub open spec fn general_info_read(t: Template, w: Workbook, r: Result<GeneralInfo, ExtractError>) -> bool {
    &&& general_info_ok(t, w) ==> r is Ok && general_info_is(t, w, r->Ok_0)
    &&& !general_info_ok(t, w) ==> r is Err
}

impl GeneralInfo {
    /// Reads the general information: the amendment (its report number only
    /// when the report supplements or replaces another), the report date and
    /// the reporting entity.
    pub fn from_excel(template: &Template, workbook: &Workbook) -> (r: Result<GeneralInfo, ExtractError>)
        ensures
            general_info_read(*template, *workbook, r),
    {
        let change_text = cell_value_from_key(template, workbook, "Báo cáo này có bổ sung/thay thế báo cáo nào trước không?")?;
        let change_type = translate(Vocabulary::Amendment, change_text.as_str())?;
        let zero = vec!['0'];
        assert(zero@ =~= seq!['0']);
        let report_number = if text_eq(change_type.as_str(), string_of(zero.as_slice()).as_str()) {
            String::new()
        } else {
            cell_value_from_key(template, workbook, "Nếu có, bổ sung/thay thế cho Báo cáo")?
        };
        let date_text = cell_value_from_key(template, workbook, "Ngày báo cáo")?;
        let report_date = report_date_from_text(date_text.as_str());
        let name = cell_value_from_key(template, workbook, "Phần I.1: Thông tin đối tượng báo cáo - Tên")?;
        let code = cell_value_from_key(template, workbook, "Phần I.1: Thông tin đối tượng báo cáo - Mã")?;
        Ok(GeneralInfo {
            report_date,
            report_number: None,
            amendment: AmendmentSupplement { change_type, report_number, report_date: String::new() },
            reporting_entity_name: Some(name),
            reporting_entity_code: Some(code),
            report_form: Some(form_m1()),
        })
    }
}

/// The internal number of the report.
pub fn internal_number(template: &Template, workbook: &Workbook) -> (r: Result<String, ExtractError>)
    ensures
        read_key(*template, *workbook, "Mã báo cáo nội bộ"@, r),
{
    cell_value_from_key(template, workbook, "Mã báo cáo nội bộ")
}

/// The reporting entity's address.
#[derive(Debug)]
pub struct EntityAddress {
    pub street_address: String,
    pub phone: String,
    pub district: String,
    pub city_province: String,
    pub country: String,
}

/// Where the suspicious transaction took place.
#[derive(Debug)]
pub struct TransactionLocation {
    pub transaction_point_name: String,
    pub street_address: String,
    pub phone: String,
    pub district: String,
    pub city_province: String,
    pub country: String,
}

/// The reporting entity.
#[derive(Debug)]
pub struct ReportingEntity {
    pub name: Option<String>,
    pub code: Option<String>,
    pub address: Option<EntityAddress>,
    pub transaction_location: TransactionLocation,
    pub email: String,
}

/// The person responsible for anti-money-laundering.
#[derive(Debug)]
pub struct ResponsiblePerson {
    pub full_name: String,
    pub work_phone: String,
    pub mobile_phone: String,
    pub position: String,
}

/// The person who prepared the report.
#[derive(Debug)]
pub struct ReportPreparer {
    pub full_name: String,
    pub work_phone: String,
    pub mobile_phone: String,
    pub department: String,
}

/// The report's first section.
#[derive(Debug)]
pub struct Section1 {
    pub reporting_entity: ReportingEntity,
    pub responsible_person: ResponsiblePerson,
    pub report_preparer: ReportPreparer,
}

/// The text of key `key`, empty when it stands for none.
pub open spec fn kt(t: Template, w: Workbook, key: Seq<char>) -> Seq<char> {
    match key_text(t, w, key) {
        Some(v) => v,
        None => Seq::empty(),
    }
}

/// Every key of the reporting entity stands for a text.
pub open spec fn reporting_entity_ok(t: Template, w: Workbook) -> bool {
    &&& key_text(t, w, "Phần I.1: Thông tin đối tượng báo cáo - Tên"@) is Some
    &&& key_text(t, w, "Phần I.1: Thông tin đối tượng báo cáo - Mã"@) is Some
    &&& key_text(t, w, "Phần I.1: Thông tin đối tượng báo cáo - Địa chỉ"@) is Some
    &&& key_text(t, w, "Phần I.1: Thông tin đối tượng báo cáo - Phường/Xã"@) is Some
    &&& key_text(t, w, "Phần I.1: Thông tin đối tượng báo cáo - Tỉnh/Thành phố"@) is Some
    &&& key_text(t, w, "Phần I.1: Thông tin đối tượng báo cáo - Quốc gia"@) is Some
    &&& key_text(t, w, "Phần I.1: Thông tin đối tượng báo cáo - Điện thoại"@) is Some
    &&& key_text(t, w, "Phần I.1: Tên điểm phát sinh giao dịch hoặc đơn vị quản lý tài khoản"@) is Some
    &&& key_text(t, w, "Phần I.1: Địa chỉ điểm phát sinh giao dịch hoặc địa chỉ đơn vị quản lý tài khoản"@) is Some
    &&& key_text(t, w, "Phần I.1: Địa chỉ điểm phát sinh giao dịch - Phường/Xã"@) is Some
    &&& key_text(t, w, "Phần I.1: Địa chỉ điểm phát sinh giao dịch - Tỉnh/Thành phố"@) is Some
    &&& key_text(t, w, "Phần I.1: Địa chỉ điểm phát sinh giao dịch - Quốc gia"@) is Some
    &&& key_text(t, w, "Phần I.1: Địa chỉ điểm phát sinh giao dịch - Điện thoại"@) is Some
    &&& key_text(t, w, "Phần I.1: Địa chỉ email của đơn vị"@) is Some
}

/// `e` holds the texts of the reporting entity's keys.
pub open spec fn reporting_entity_is(t: Template, w: Workbook, e: ReportingEntity) -> bool {
    &&& e.address is Some
    &&& opt_view(e.name) == Some(kt(t, w, "Phần I.1: Thông tin đối tượng báo cáo - Tên"@))
    &&& opt_view(e.code) == Some(kt(t, w, "Phần I.1: Thông tin đối tượng báo cáo - Mã"@))
    &&& e.address->Some_0.street_address@ == kt(t, w, "Phần I.1: Thông tin đối tượng báo cáo - Địa chỉ"@)
    &&& e.address->Some_0.district@ == kt(t, w, "Phần I.1: Thông tin đối tượng báo cáo - Phường/Xã"@)
    &&& e.address->Some_0.city_province@ == kt(t, w, "Phần I.1: Thông tin đối tượng báo cáo - Tỉnh/Thành phố"@)
    &&& e.address->Some_0.country@ == kt(t, w, "Phần I.1: Thông tin đối tượng báo cáo - Quốc gia"@)
    &&& e.address->Some_0.phone@ == kt(t, w, "Phần I.1: Thông tin đối tượng báo cáo - Điện thoại"@)
    &&& e.transaction_location.transaction_point_name@ == kt(t, w, "Phần I.1: Tên điểm phát sinh giao dịch hoặc đơn vị quản lý tài khoản"@)
    &&& e.transaction_location.street_address@ == kt(t, w, "Phần I.1: Địa chỉ điểm phát sinh giao dịch hoặc địa chỉ đơn vị quản lý tài khoản"@)
    &&& e.transaction_location.district@ == kt(t, w, "Phần I.1: Địa chỉ điểm phát sinh giao dịch - Phường/Xã"@)
    &&& e.transaction_location.city_province@ == kt(t, w, "Phần I.1: Địa chỉ điểm phát sinh giao dịch - Tỉnh/Thành phố"@)
    &&& e.transaction_location.country@ == kt(t, w, "Phần I.1: Địa chỉ điểm phát sinh giao dịch - Quốc gia"@)
    &&& e.transaction_location.phone@ == kt(t, w, "Phần I.1: Địa chỉ điểm phát sinh giao dịch - Điện thoại"@)
    &&& e.email@ == kt(t, w, "Phần I.1: Địa chỉ email của đơn vị"@)
}

/// Reads the text of a key.
fn read(template: &Template, workbook: &Workbook, key: &str) -> (r: Result<String, ExtractError>)
    ensures
        key_text(*template, *workbook, key@) is Some ==> r is Ok && r->Ok_0@ == kt(*template, *workbook, key@),
        key_text(*template, *workbook, key@) is None ==> r is Err,
{
    cell_value_from_key(template, workbook, key)
}

impl ReportingEntity {
    /// Reads the reporting entity and the place of the transaction.
    pub fn from_excel(template: &Template, workbook: &Workbook) -> (r: Result<ReportingEntity, ExtractError>)
        ensures
            reporting_entity_ok(*template, *workbook) ==> r is Ok && reporting_entity_is(*template, *workbook, r->Ok_0),
            !reporting_entity_ok(*template, *workbook) ==> r is Err,
    {
        let name = read(template, workbook, "Phần I.1: Thông tin đối tượng báo cáo - Tên")?;
        let code = read(template, workbook, "Phần I.1: Thông tin đối tượng báo cáo - Mã")?;
        let street = read(template, workbook, "Phần I.1: Thông tin đối tượng báo cáo - Địa chỉ")?;
        let district = read(template, workbook, "Phần I.1: Thông tin đối tượng báo cáo - Phường/Xã")?;
        let city = read(template, workbook, "Phần I.1: Thông tin đối tượng báo cáo - Tỉnh/Thành phố")?;
        let country = read(template, workbook, "Phần I.1: Thông tin đối tượng báo cáo - Quốc gia")?;
        let phone = read(template, workbook, "Phần I.1: Thông tin đối tượng báo cáo - Điện thoại")?;
        let point = read(template, workbook, "Phần I.1: Tên điểm phát sinh giao dịch hoặc đơn vị quản lý tài khoản")?;
        let point_street = read(template, workbook, "Phần I.1: Địa chỉ điểm phát sinh giao dịch hoặc địa chỉ đơn vị quản lý tài khoản")?;
        let point_district = read(template, workbook, "Phần I.1: Địa chỉ điểm phát sinh giao dịch - Phường/Xã")?;
        let point_city = read(template, workbook, "Phần I.1: Địa chỉ điểm phát sinh giao dịch - Tỉnh/Thành phố")?;
        let point_country = read(template, workbook, "Phần I.1: Địa chỉ điểm phát sinh giao dịch - Quốc gia")?;
        let point_phone = read(template, workbook, "Phần I.1: Địa chỉ điểm phát sinh giao dịch - Điện thoại")?;
        let email = read(template, workbook, "Phần I.1: Địa chỉ email của đơn vị")?;
        Ok(ReportingEntity {
            name: Some(name),
            code: Some(code),
            address: Some(EntityAddress { street_address: street, phone, district, city_province: city, country }),
            transaction_location: TransactionLocation {
                transaction_point_name: point,
                street_address: point_street,
                phone: point_phone,
                district: point_district,
                city_province: point_city,
                country: point_country,
            },
            email,
        })
    }
}

/// Every key of the responsible person stands for a text.
pub open spec fn responsible_person_ok(t: Template, w: Workbook) -> bool {
    &&& key_text(t, w, "Phần I.2: Thông tin về người chịu trách nhiệm về phòng, chống rửa tiền - Họ và tên"@) is Some
    &&& key_text(t, w, "Phần I.2: Thông tin về người chịu trách nhiệm về phòng, chống rửa tiền - Điện thoại nơi làm việc"@) is Some
    &&& key_text(t, w, "Phần I.2: Thông tin về người chịu trách nhiệm về phòng, chống rửa tiền - Điện thoại di động"@) is Some
    &&& key_text(t, w, "Phần I.2: Thông tin về người chịu trách nhiệm về phòng, chống rửa tiền - Chức vụ"@) is Some
}

/// `p` holds the texts of the responsible person's keys.
pub open spec fn responsible_person_is(t: Template, w: Workbook, p: ResponsiblePerson) -> bool {
    &&& p.full_name@ == kt(t, w, "Phần I.2: Thông tin về người chịu trách nhiệm về phòng, chống rửa tiền - Họ và tên"@)
    &&& p.work_phone@ == kt(t, w, "Phần I.2: Thông tin về người chịu trách nhiệm về phòng, chống rửa tiền - Điện thoại nơi làm việc"@)
    &&& p.mobile_phone@ == kt(t, w, "Phần I.2: Thông tin về người chịu trách nhiệm về phòng, chống rửa tiền - Điện thoại di động"@)
    &&& p.position@ == kt(t, w, "Phần I.2: Thông tin về người chịu trách nhiệm về phòng, chống rửa tiền - Chức vụ"@)
}

impl ResponsiblePerson {
    /// Reads the person responsible for anti-money-laundering.
    pub fn from_excel(template: &Template, workbook: &Workbook) -> (r: Result<ResponsiblePerson, ExtractError>)
        ensures
            responsible_person_ok(*template, *workbook) ==> r is Ok && responsible_person_is(*template, *workbook, r->Ok_0),
            !responsible_person_ok(*template, *workbook) ==> r is Err,
    {
        let full_name = read(template, workbook, "Phần I.2: Thông tin về người chịu trách nhiệm về phòng, chống rửa tiền - Họ và tên")?;
        let work_phone = read(template, workbook, "Phần I.2: Thông tin về người chịu trách nhiệm về phòng, chống rửa tiền - Điện thoại nơi làm việc")?;
        let mobile_phone = read(template, workbook, "Phần I.2: Thông tin về người chịu trách nhiệm về phòng, chống rửa tiền - Điện thoại di động")?;
        let position = read(template, workbook, "Phần I.2: Thông tin về người chịu trách nhiệm về phòng, chống rửa tiền - Chức vụ")?;
        Ok(ResponsiblePerson { full_name, work_phone, mobile_phone, position })
    }
}

/// Every key of the report preparer stands for a text.
pub open spec fn report_preparer_ok(t: Template, w: Workbook) -> bool {
    &&& key_text(t, w, "Phần I.2: Thông tin về người lập báo cáo - Họ và tên"@) is Some
    &&& key_text(t, w, "Phần I.2: Thông tin về người lập báo cáo - Điện thoại nơi làm việc"@) is Some
    &&& key_text(t, w, "Phần I.2: Thông tin về người lập báo cáo - Điện thoại di động"@) is Some
    &&& key_text(t, w, "Phần I.2: Thông tin về người lập báo cáo - Bộ phận công tác"@) is Some
}

/// `p` holds the texts of the report preparer's keys.
pub open spec fn report_preparer_is(t: Template, w: Workbook, p: ReportPreparer) -> bool {
    &&& p.full_name@ == kt(t, w, "Phần I.2: Thông tin về người lập báo cáo - Họ và tên"@)
    &&& p.work_phone@ == kt(t, w, "Phần I.2: Thông tin về người lập báo cáo - Điện thoại nơi làm việc"@)
    &&& p.mobile_phone@ == kt(t, w, "Phần I.2: Thông tin về người lập báo cáo - Điện thoại di động"@)
    &&& p.department@ == kt(t, w, "Phần I.2: Thông tin về người lập báo cáo - Bộ phận công tác"@)
}

impl ReportPreparer {
    /// Reads the person who prepared the report.
    pub fn from_excel(template: &Template, workbook: &Workbook) -> (r: Result<ReportPreparer, ExtractError>)
        ensures
            report_preparer_ok(*template, *workbook) ==> r is Ok && report_preparer_is(*template, *workbook, r->Ok_0),
            !report_preparer_ok(*template, *workbook) ==> r is Err,
    {
        let full_name = read(template, workbook, "Phần I.2: Thông tin về người lập báo cáo - Họ và tên")?;
        let work_phone = read(template, workbook, "Phần I.2: Thông tin về người lập báo cáo - Điện thoại nơi làm việc")?;
        let mobile_phone = read(template, workbook, "Phần I.2: Thông tin về người lập báo cáo - Điện thoại di động")?;
        let department = read(template, workbook, "Phần I.2: Thông tin về người lập báo cáo - Bộ phận công tác")?;
        Ok(ReportPreparer { full_name, work_phone, mobile_phone, department })
    }
}

/// What reading the first section gives.
pub open spec fn section1_read(t: Template, w: Workbook, r: Result<Section1, ExtractError>) -> bool {
    &&& reporting_entity_ok(t, w) && responsible_person_ok(t, w) && report_preparer_ok(t, w) ==> r is Ok && reporting_entity_is(
        t,
        w,
        r->Ok_0.reporting_entity,
    ) && responsible_person_is(t, w, r->Ok_0.responsible_person) && report_preparer_is(t, w, r->Ok_0.report_preparer)
    &&& !(reporting_entity_ok(t, w) && responsible_person_ok(t, w) && report_preparer_ok(t, w)) ==> r is Err
}

impl Section1 {
    /// Reads the reporting entity, the person responsible and the preparer.
    pub fn from_excel(template: &Template, workbook: &Workbook) -> (r: Result<Section1, ExtractError>)
        ensures
            section1_read(*template, *workbook, r),
    {
        Ok(Section1 {
            reporting_entity: ReportingEntity::from_excel(template, workbook)?,
            responsible_person: ResponsiblePerson::from_excel(template, workbook)?,
            report_preparer: ReportPreparer::from_excel(template, workbook)?,
        })
    }
}

} // verus!
