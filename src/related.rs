//! Related parties: individuals, organizations and accounts linked to the
//! suspicious transaction without being customers, joined by identification
//! or enterprise-code number.

use vstd::prelude::*;
use crate::codes::{translate, translation, Vocabulary};
use crate::datetime::age_range_code;
use crate::entities::{
    age_range_field, Account, Address, Bank, CodeDesc, EnterpriseCode, Identification, Individual, License, Occupation,
    OrgAddress, Organization,
};
use crate::error::ExtractError;
use crate::join::{joined, Duplicate, JoinIndex, JoinKey};
use crate::row::{
    failed_at_first_bad_row, row_error_at,
    code_part_of, date_field, date_of, in_row, index_rows, keyed_rows_read, opt_code_part, opt_view, row_at, KeyedRow,
    RowCtx,
};
use crate::table::{lemma_table_then, read_table_from_sheet, table_then, TableRows};
use crate::template::Template;
use crate::workbook::Workbook;

verus! {

/// An account of a related party.
#[derive(Debug)]
pub struct RelatedAccount {
    pub account: Account,
}

impl Duplicate for RelatedAccount {
    fn duplicate(&self) -> (r: Self) {
        RelatedAccount { account: self.account.duplicate() }
    }
}

impl KeyedRow<String> for RelatedAccount {
    open spec fn row_ok(c: RowCtx) -> bool {
        &&& c.readable("Số giấy tờ"@)
        &&& c.readable("Số tài khoản"@)
        &&& c.readable("Tên Ngân hàng"@)
        &&& c.readable("Mã Ngân hàng"@)
        &&& c.readable("Loại tiền"@)
        &&& translation(Vocabulary::Currency.spec_entries(), c.text("Loại tiền"@)) is Some
        &&& c.readable("Loại TK"@)
        &&& translation(Vocabulary::AccountType.spec_entries(), c.text("Loại TK"@)) is Some
        &&& c.readable("Ngày mở"@)
        &&& date_field(c.field("Ngày mở"@)) is Some
        &&& c.readable("Trạng thái"@)
        &&& translation(Vocabulary::AccountStatus.spec_entries(), c.text("Trạng thái"@)) is Some
    }

    open spec fn row_is(c: RowCtx, key: Seq<Seq<char>>, v: RelatedAccount) -> bool {
        let a = v.account;
        &&& key == seq![c.text("Số giấy tờ"@)]
        &&& opt_view(a.account_number) == c.field("Số tài khoản"@)
        &&& opt_view(a.bank.bank_name) == c.field("Tên Ngân hàng"@)
        &&& opt_view(a.bank.bank_code) == opt_code_part(c.field("Mã Ngân hàng"@))
        &&& opt_view(a.currency_type) == translation(Vocabulary::Currency.spec_entries(), c.text("Loại tiền"@))
        &&& Some(a.account_type@) == translation(Vocabulary::AccountType.spec_entries(), c.text("Loại TK"@))
        &&& Some(opt_view(a.open_date)) == date_field(c.field("Ngày mở"@))
        &&& Some(a.status@) == translation(Vocabulary::AccountStatus.spec_entries(), c.text("Trạng thái"@))
    }

    /// Reads one related account row: the owner's document number and the
    /// account.
    fn from_row(c: &RowCtx) -> (r: Result<(String, RelatedAccount), ExtractError>) {
        let owner = c.get_text("Số giấy tờ")?;
        let account_number = c.get("Số tài khoản")?;
        let bank_name = c.get("Tên Ngân hàng")?;
        let bank_code = code_part_of(&c.get("Mã Ngân hàng")?);
        let currency = translate(Vocabulary::Currency, c.get_text("Loại tiền")?.as_str())?;
        let account_type = translate(Vocabulary::AccountType, c.get_text("Loại TK")?.as_str())?;
        let open_date = date_of(&c.get("Ngày mở")?)?;
        let status = translate(Vocabulary::AccountStatus, c.get_text("Trạng thái")?.as_str())?;
        Ok((
            owner,
            RelatedAccount {
                account: Account {
                    account_number,
                    bank: Bank { bank_name, bank_code },
                    currency_type: Some(currency),
                    account_type,
                    open_date,
                    status,
                },
            },
        ))
    }
}

/// What reading the related-account table gives.
pub open spec fn related_accounts_from_excel(t: Template, w: Workbook, r: Result<JoinIndex<String, RelatedAccount>, ExtractError>) -> bool {
    table_then(t, w, "Phần III. Tài khoản liên quan"@, r, |tr: TableRows, r| keyed_rows_read::<String, RelatedAccount>(tr, r))
}

impl RelatedAccount {
    /// Reads the related-account table, grouped by the owner's document
    /// number.
    pub fn from_excel(template: &Template, workbook: &Workbook) -> (r: Result<JoinIndex<String, RelatedAccount>, ExtractError>)
        ensures
            related_accounts_from_excel(*template, *workbook, r),
    {
        let rt = read_table_from_sheet(template, workbook, "Phần III. Tài khoản liên quan");
        let ghost rt_view = rt;
        let r = match rt {
            Ok(tr) => index_rows::<String, RelatedAccount>(&tr),
            Err(e) => Err(e),
        };
        proof {
            lemma_table_then(*template, *workbook, "Phần III. Tài khoản liên quan"@, rt_view, r, |tr: TableRows, r| keyed_rows_read::<String, RelatedAccount>(tr, r));
        }
        r
    }
}

/// The accounts joined to a related party's number; an empty number joins
/// nothing.
pub open spec fn related_accounts_field(accounts: Option<Vec<Account>>, pairs: Seq<(String, RelatedAccount)>, key: Seq<char>) -> bool {
    match (if key.len() == 0 { None } else { joined(pairs, seq![key]) }) {
        Some(v) => accounts is Some && accounts->Some_0@ == v.map_values(|ra: RelatedAccount| ra.account),
        None => accounts is None,
    }
}

fn related_accounts_of(ix: &JoinIndex<String, RelatedAccount>, key: &String) -> (r: Option<Vec<Account>>)
    ensures
        forall|pairs| #[trigger] ix.represents(pairs) ==> related_accounts_field(r, pairs, key@),
{
    if key.as_str().unicode_len() == 0 {
        return None;
    }
    assert(seq![key@] == key.key_view());
    match ix.get(key) {
        None => None,
        Some(v) => {
            let mut out: Vec<Account> = Vec::new();
            let mut i: usize = 0;
            while i < v.len()
                invariant
                    i <= v@.len(),
                    out@ == v@.subrange(0, i as int).map_values(|ra: RelatedAccount| ra.account),
                decreases v@.len() - i,
            {
                out.push(v[i].account.duplicate());
                assert(out@ =~= v@.subrange(0, i + 1).map_values(|ra: RelatedAccount| ra.account));
                i = i + 1;
            }
            assert(v@.subrange(0, v@.len() as int) =~= v@);
            Some(out)
        },
    }
}

/// Every field of a related-individual row can be read and converted.
pub open spec fn related_individual_ok(c: RowCtx) -> bool {
    &&& c.readable("CMND/CCCD/Hộ chiếu/Định danh cá nhân"@)
    &&& c.readable("Họ và tên"@)
    &&& c.readable("Ngày tháng năm sinh (dd/mm/yyyy)"@)
    &&& date_field(c.field("Ngày tháng năm sinh (dd/mm/yyyy)"@)) is Some
    &&& c.readable("Giới tính"@)
    &&& translation(Vocabulary::Gender.spec_entries(), c.text("Giới tính"@)) is Some
    &&& c.readable("Quốc tịch"@)
    &&& c.readable("Nghề nghiệp"@)
    &&& translation(Vocabulary::Occupation.spec_entries(), c.text("Nghề nghiệp"@)) is Some
    &&& c.readable("Nếu Nghề nghiệp Khác"@)
    &&& c.readable("Địa chỉ đăng ký thường trú (Số nhà)"@)
    &&& c.readable("Địa chỉ đăng ký thường trú (Tỉnh/TP)"@)
    &&& c.readable("Địa chỉ đăng ký thường trú (Phường/Xã)"@)
    &&& c.readable("Địa chỉ đăng ký thường trú (Quốc gia)"@)
    &&& c.readable("Nơi ở hiện tại (Số nhà)"@)
    &&& c.readable("Nơi ở hiện tại (Tỉnh/TP)"@)
    &&& c.readable("Nơi ở hiện tại (Phường/Xã)"@)
    &&& c.readable("Nơi ở hiện tại (Quốc gia)"@)
    &&& c.readable("Loại định danh"@)
    &&& translation(Vocabulary::PersonalId.spec_entries(), c.text("Loại định danh"@)) is Some
    &&& c.readable("Ngày cấp (dd/mm/yyyy)"@)
    &&& date_field(c.field("Ngày cấp (dd/mm/yyyy)"@)) is Some
    &&& c.readable("Cơ quan cấp"@)
    &&& c.readable("Ngày hết hạn (dd/mm/yyyy)"@)
    &&& date_field(c.field("Ngày hết hạn (dd/mm/yyyy)"@)) is Some
    &&& c.readable("Nơi cấp"@)
    &&& c.readable("Số điện thoại"@)
}

/// `p` is the related individual that row `c` describes, in `year`, joined
/// with the related accounts `pairs` by identification number.
pub open spec fn related_individual_is(c: RowCtx, year: int, pairs: Seq<(String, RelatedAccount)>, p: Individual) -> bool {
    let id = c.text("CMND/CCCD/Hộ chiếu/Định danh cá nhân"@);
    &&& p.id@ == id
    &&& p.existing_customer is None
    &&& opt_view(p.full_name) == c.field("Họ và tên"@)
    &&& Some(opt_view(p.date_of_birth)) == date_field(c.field("Ngày tháng năm sinh (dd/mm/yyyy)"@))
    &&& opt_view(p.age_range) == age_range_field(c.field("Ngày tháng năm sinh (dd/mm/yyyy)"@), year)
    &&& Some(p.gender@) == translation(Vocabulary::Gender.spec_entries(), c.text("Giới tính"@))
    &&& opt_view(p.nationality) == c.field("Quốc tịch"@)
    &&& Some(p.occupation.occupation_code@) == translation(Vocabulary::Occupation.spec_entries(), c.text("Nghề nghiệp"@))
    &&& opt_view(p.occupation.description) == c.field("Nghề nghiệp"@)
    &&& opt_view(p.occupation.content) == c.field("Nếu Nghề nghiệp Khác"@)
    &&& opt_view(p.permanent_address.street_address) == c.field("Địa chỉ đăng ký thường trú (Số nhà)"@)
    &&& opt_view(p.permanent_address.city_province) == c.field("Địa chỉ đăng ký thường trú (Tỉnh/TP)"@)
    &&& opt_view(p.permanent_address.district) == c.field("Địa chỉ đăng ký thường trú (Phường/Xã)"@)
    &&& opt_view(p.permanent_address.country) == c.field("Địa chỉ đăng ký thường trú (Quốc gia)"@)
    &&& opt_view(p.current_address.street_address) == c.field("Nơi ở hiện tại (Số nhà)"@)
    &&& opt_view(p.current_address.city_province) == c.field("Nơi ở hiện tại (Tỉnh/TP)"@)
    &&& opt_view(p.current_address.district) == c.field("Nơi ở hiện tại (Phường/Xã)"@)
    &&& opt_view(p.current_address.country) == c.field("Nơi ở hiện tại (Quốc gia)"@)
    &&& Some(p.identification.id_type@) == translation(Vocabulary::PersonalId.spec_entries(), c.text("Loại định danh"@))
    &&& opt_view(p.identification.id_number) == c.field("CMND/CCCD/Hộ chiếu/Định danh cá nhân"@)
    &&& Some(opt_view(p.identification.issue_date)) == date_field(c.field("Ngày cấp (dd/mm/yyyy)"@))
    &&& opt_view(p.identification.issuing_authority) == c.field("Cơ quan cấp"@)
    &&& Some(opt_view(p.identification.expiry_date)) == date_field(c.field("Ngày hết hạn (dd/mm/yyyy)"@))
    &&& opt_view(p.identification.place_of_issue) == c.field("Nơi cấp"@)
    &&& opt_view(p.phone_number) == c.field("Số điện thoại"@)
    &&& p.email is None
    &&& related_accounts_field(p.accounts, pairs, id)
}

fn age_range_of(dob: &Option<String>, year: i32) -> (r: Option<String>)
    ensures
        opt_view(r) == age_range_field(opt_view(*dob), year as int),
{
    match dob {
        Some(s) => age_range_code(s.as_str(), year),
        None => None,
    }
}

/// Reads one related-individual row, joining the related accounts of its
/// identification number.
pub fn related_individual_from_row(c: &RowCtx, accounts: &JoinIndex<String, RelatedAccount>, current_year: i32) -> (r: Result<
    Individual,
    ExtractError,
>)
    ensures
        related_individual_ok(*c) ==> r is Ok && forall|pairs| #[trigger] accounts.represents(pairs) ==> related_individual_is(
            *c,
            current_year as int,
            pairs,
            r->Ok_0,
        ),
        !related_individual_ok(*c) ==> r is Err,
{
    let id = c.get_text("CMND/CCCD/Hộ chiếu/Định danh cá nhân")?;
    let full_name = c.get("Họ và tên")?;
    let dob = c.get("Ngày tháng năm sinh (dd/mm/yyyy)")?;
    let date_of_birth = date_of(&dob)?;
    let age_range = age_range_of(&dob, current_year);
    let gender = translate(Vocabulary::Gender, c.get_text("Giới tính")?.as_str())?;
    let nationality = c.get("Quốc tịch")?;
    let occupation_code = translate(Vocabulary::Occupation, c.get_text("Nghề nghiệp")?.as_str())?;
    let occupation = Occupation { occupation_code, description: c.get("Nghề nghiệp")?, content: c.get("Nếu Nghề nghiệp Khác")? };
    let permanent_address = Address {
        street_address: c.get("Địa chỉ đăng ký thường trú (Số nhà)")?,
        city_province: c.get("Địa chỉ đăng ký thường trú (Tỉnh/TP)")?,
        district: c.get("Địa chỉ đăng ký thường trú (Phường/Xã)")?,
        country: c.get("Địa chỉ đăng ký thường trú (Quốc gia)")?,
    };
    let current_address = Address {
        street_address: c.get("Nơi ở hiện tại (Số nhà)")?,
        city_province: c.get("Nơi ở hiện tại (Tỉnh/TP)")?,
        district: c.get("Nơi ở hiện tại (Phường/Xã)")?,
        country: c.get("Nơi ở hiện tại (Quốc gia)")?,
    };
    let id_type = translate(Vocabulary::PersonalId, c.get_text("Loại định danh")?.as_str())?;
    let id_number = c.get("CMND/CCCD/Hộ chiếu/Định danh cá nhân")?;
    let issue_date = date_of(&c.get("Ngày cấp (dd/mm/yyyy)")?)?;
    let issuing_authority = c.get("Cơ quan cấp")?;
    let expiry_date = date_of(&c.get("Ngày hết hạn (dd/mm/yyyy)")?)?;
    let place_of_issue = c.get("Nơi cấp")?;
    let phone_number = c.get("Số điện thoại")?;
    let joined_accounts = related_accounts_of(accounts, &id);
    Ok(Individual {
        id,
        existing_customer: None,
        full_name,
        date_of_birth,
        age_range,
        gender,
        nationality,
        occupation,
        permanent_address,
        current_address,
        identification: Identification { id_type, id_number, issue_date, issuing_authority, expiry_date, place_of_issue },
        phone_number,
        email: None,
        accounts: joined_accounts,
    })
}

/// Every field of a related-organization row can be read and converted.
pub open spec fn related_organization_ok(c: RowCtx) -> bool {
    &&& c.readable("MS doanh nghiệp/MS thuế"@)
    &&& c.readable("Tên đầy đủ của tổ chức"@)
    &&& c.readable("Tên tiếng nước ngoài (nếu có)"@)
    &&& c.readable("Tên viết tắt (nếu có)"@)
    &&& c.readable("Số nhà"@)
    &&& c.readable("Phường/Xã"@)
    &&& c.readable("Tỉnh/TP"@)
    &&& c.readable("Quốc gia"@)
    &&& c.readable("Số điện thoại"@)
    &&& c.readable("Giấy phép thành lập số"@)
    &&& c.readable("Ngày cấp giấy phép (dd/mm/yyyy)"@)
    &&& date_field(c.field("Ngày cấp giấy phép (dd/mm/yyyy)"@)) is Some
    &&& c.readable("Nơi cấp giấy phép"@)
    &&& c.readable("Ngày cấp MST (dd/mm/yyyy)"@)
    &&& date_field(c.field("Ngày cấp MST (dd/mm/yyyy)"@)) is Some
    &&& c.readable("Quốc gia cấp MST"@)
    &&& c.readable("Ngành nghề kinh doanh chính"@)
    &&& c.readable("Địa chỉ trang thông tin điện tử của doanh nghiệp"@)
}

/// `o` is the related organization that row `c` describes, joined with the
/// related accounts `pairs` by enterprise code.
pub open spec fn related_organization_is(c: RowCtx, pairs: Seq<(String, RelatedAccount)>, o: Organization) -> bool {
    let code = c.text("MS doanh nghiệp/MS thuế"@);
    &&& o.id@ == code
    &&& o.existing_customer is None
    &&& opt_view(o.name) == c.field("Tên đầy đủ của tổ chức"@)
    &&& opt_view(o.foreign_name) == c.field("Tên tiếng nước ngoài (nếu có)"@)
    &&& opt_view(o.short_name) == c.field("Tên viết tắt (nếu có)"@)
    &&& o.organization_type.type_code is None
    &&& o.organization_type.description is None
    &&& opt_view(o.address.street_address) == c.field("Số nhà"@)
    &&& opt_view(o.address.district) == c.field("Phường/Xã"@)
    &&& opt_view(o.address.city_province) == c.field("Tỉnh/TP"@)
    &&& opt_view(o.address.country) == c.field("Quốc gia"@)
    &&& opt_view(o.address.phone) == c.field("Số điện thoại"@)
    &&& opt_view(o.establishment_license.license_number) == c.field("Giấy phép thành lập số"@)
    &&& Some(opt_view(o.establishment_license.issue_date)) == date_field(c.field("Ngày cấp giấy phép (dd/mm/yyyy)"@))
    &&& opt_view(o.establishment_license.issue_place) == c.field("Nơi cấp giấy phép"@)
    &&& opt_view(o.enterprise_code.code) == c.field("MS doanh nghiệp/MS thuế"@)
    &&& Some(opt_view(o.enterprise_code.issue_date)) == date_field(c.field("Ngày cấp MST (dd/mm/yyyy)"@))
    &&& opt_view(o.enterprise_code.issue_place) == c.field("Quốc gia cấp MST"@)
    &&& opt_view(o.business_sector) == c.field("Ngành nghề kinh doanh chính"@)
    &&& opt_view(o.phone_number) == c.field("Số điện thoại"@)
    &&& opt_view(o.website) == c.field("Địa chỉ trang thông tin điện tử của doanh nghiệp"@)
    &&& related_accounts_field(o.accounts, pairs, code)
    &&& o.representatives is None
}

/// Reads one related-organization row, joining the related accounts of its
/// enterprise code.
pub fn related_organization_from_row(c: &RowCtx, accounts: &JoinIndex<String, RelatedAccount>) -> (r: Result<Organization, ExtractError>)
    ensures
        related_organization_ok(*c) ==> r is Ok && forall|pairs| #[trigger] accounts.represents(pairs) ==> related_organization_is(*c, pairs, r->Ok_0),
        !related_organization_ok(*c) ==> r is Err,
{
    let code = c.get_text("MS doanh nghiệp/MS thuế")?;
    let name = c.get("Tên đầy đủ của tổ chức")?;
    let foreign_name = c.get("Tên tiếng nước ngoài (nếu có)")?;
    let short_name = c.get("Tên viết tắt (nếu có)")?;
    let address = OrgAddress {
        street_address: c.get("Số nhà")?,
        district: c.get("Phường/Xã")?,
        city_province: c.get("Tỉnh/TP")?,
        country: c.get("Quốc gia")?,
        phone: c.get("Số điện thoại")?,
    };
    let license_number = c.get("Giấy phép thành lập số")?;
    let license_date = date_of(&c.get("Ngày cấp giấy phép (dd/mm/yyyy)")?)?;
    let establishment_license = License { license_number, issue_date: license_date, issue_place: c.get("Nơi cấp giấy phép")? };
    let enterprise = c.get("MS doanh nghiệp/MS thuế")?;
    let code_date = date_of(&c.get("Ngày cấp MST (dd/mm/yyyy)")?)?;
    let enterprise_code = EnterpriseCode { code: enterprise, issue_date: code_date, issue_place: c.get("Quốc gia cấp MST")? };
    let business_sector = c.get("Ngành nghề kinh doanh chính")?;
    let phone_number = c.get("Số điện thoại")?;
    let website = c.get("Địa chỉ trang thông tin điện tử của doanh nghiệp")?;
    let joined_accounts = related_accounts_of(accounts, &code);
    Ok(Organization {
        id: code,
        existing_customer: None,
        name,
        foreign_name,
        short_name,
        organization_type: CodeDesc { type_code: None, description: None },
        address,
        establishment_license,
        enterprise_code,
        business_sector,
        phone_number,
        website,
        accounts: joined_accounts,
        representatives: None,
    })
}

/// `r` holds one related individual per row of `tr`, in order, when every row
/// can be read; a failure otherwise.
pub open spec fn related_individuals_read(tr: TableRows, accounts: JoinIndex<String, RelatedAccount>, year: int, r: Result<Vec<Individual>, ExtractError>) -> bool {
    &&& (forall|i: int| 0 <= i < tr.rows@.len() ==> #[trigger] related_individual_ok(row_at(&tr, i))) ==> r is Ok && r->Ok_0@.len() == tr.rows@.len()
        && forall|pairs| #[trigger] accounts.represents(pairs) ==> forall|i: int|
            0 <= i < tr.rows@.len() ==> related_individual_is(row_at(&tr, i), year, pairs, #[trigger] r->Ok_0@[i])
    &&& !(forall|i: int| 0 <= i < tr.rows@.len() ==> #[trigger] related_individual_ok(row_at(&tr, i))) ==> failed_at_first_bad_row(
        tr.rows@.len() as int,
        |i: int| related_individual_ok(row_at(&tr, i)),
        r,
    )
}

/// Reads every row of the related-individual table; a failing row stops the
/// reading with its 1-based number.
pub fn related_individuals_from_rows(tr: &TableRows, accounts: &JoinIndex<String, RelatedAccount>, current_year: i32) -> (r: Result<Vec<Individual>, ExtractError>)
    ensures
        related_individuals_read(*tr, *accounts, current_year as int, r),
{
    let mut out: Vec<Individual> = Vec::new();
    let mut i: usize = 0;
    while i < tr.rows.len()
        invariant
            i <= tr.rows@.len(),
            out@.len() == i,
            forall|k: int| 0 <= k < i ==> #[trigger] related_individual_ok(row_at(tr, k)),
            forall|pairs| #[trigger] accounts.represents(pairs) ==> forall|k: int|
                0 <= k < i ==> related_individual_is(row_at(tr, k), current_year as int, pairs, #[trigger] out@[k]),
        decreases tr.rows@.len() - i,
    {
        let c = RowCtx { columns: &tr.columns, start: tr.start, row: &tr.rows[i] };
        assert(c == row_at(tr, i as int));
        match related_individual_from_row(&c, accounts, current_year) {
            Ok(p) => {
                let ghost before = out@;
                out.push(p);
                assert forall|pairs| #[trigger] accounts.represents(pairs) implies forall|k: int|
                    0 <= k < i + 1 ==> related_individual_is(row_at(tr, k), current_year as int, pairs, #[trigger] out@[k]) by {
                    assert forall|k: int| 0 <= k < i + 1 implies related_individual_is(row_at(tr, k), current_year as int, pairs, #[trigger] out@[k]) by {
                        if k < i {
                            assert(out@[k] == before[k]);
                        }
                    }
                }
            },
            Err(e) => {
                let r = Err(in_row(i + 1, e));
                assert(row_error_at(r, i as int));
                assert(failed_at_first_bad_row(tr.rows@.len() as int, |k: int| related_individual_ok(row_at(tr, k)), r));
                return r;
            },
        }
        i = i + 1;
    }
    Ok(out)
}

/// `r` holds one related organization per row of `tr`, in order, when every row
/// can be read; a failure otherwise.
pub open spec fn related_organizations_read(tr: TableRows, accounts: JoinIndex<String, RelatedAccount>, r: Result<Vec<Organization>, ExtractError>) -> bool {
    &&& (forall|i: int| 0 <= i < tr.rows@.len() ==> #[trigger] related_organization_ok(row_at(&tr, i))) ==> r is Ok && r->Ok_0@.len() == tr.rows@.len()
        && forall|pairs| #[trigger] accounts.represents(pairs) ==> forall|i: int|
            0 <= i < tr.rows@.len() ==> related_organization_is(row_at(&tr, i), pairs, #[trigger] r->Ok_0@[i])
    &&& !(forall|i: int| 0 <= i < tr.rows@.len() ==> #[trigger] related_organization_ok(row_at(&tr, i))) ==> failed_at_first_bad_row(
        tr.rows@.len() as int,
        |i: int| related_organization_ok(row_at(&tr, i)),
        r,
    )
}

/// Reads every row of the related-organization table; a failing row stops the
/// reading with its 1-based number.
pub fn related_organizations_from_rows(tr: &TableRows, accounts: &JoinIndex<String, RelatedAccount>) -> (r: Result<Vec<Organization>, ExtractError>)
    ensures
        related_organizations_read(*tr, *accounts, r),
{
    let mut out: Vec<Organization> = Vec::new();
    let mut i: usize = 0;
    while i < tr.rows.len()
        invariant
            i <= tr.rows@.len(),
            out@.len() == i,
            forall|k: int| 0 <= k < i ==> #[trigger] related_organization_ok(row_at(tr, k)),
            forall|pairs| #[trigger] accounts.represents(pairs) ==> forall|k: int|
                0 <= k < i ==> related_organization_is(row_at(tr, k), pairs, #[trigger] out@[k]),
        decreases tr.rows@.len() - i,
    {
        let c = RowCtx { columns: &tr.columns, start: tr.start, row: &tr.rows[i] };
        assert(c == row_at(tr, i as int));
        match related_organization_from_row(&c, accounts) {
            Ok(p) => {
                let ghost before = out@;
                out.push(p);
                assert forall|pairs| #[trigger] accounts.represents(pairs) implies forall|k: int|
                    0 <= k < i + 1 ==> related_organization_is(row_at(tr, k), pairs, #[trigger] out@[k]) by {
                    assert forall|k: int| 0 <= k < i + 1 implies related_organization_is(row_at(tr, k), pairs, #[trigger] out@[k]) by {
                        if k < i {
                            assert(out@[k] == before[k]);
                        }
                    }
                }
            },
            Err(e) => {
                let r = Err(in_row(i + 1, e));
                assert(row_error_at(r, i as int));
                assert(failed_at_first_bad_row(tr.rows@.len() as int, |k: int| related_organization_ok(row_at(tr, k)), r));
                return r;
            },
        }
        i = i + 1;
    }
    Ok(out)
}

/// The related-parties section.
#[derive(Debug)]
pub struct Section3 {
    pub related_individuals: Vec<Individual>,
    pub related_organizations: Vec<Organization>,
    pub additional_info: Option<String>,
}

/// The related-parties section once the related accounts are `accounts`:
/// both related tables are read, and the section is read exactly when both
/// tables are, every row of them can be read and the additional information
/// is named.
pub open spec fn section3_with(
    t: Template,
    w: Workbook,
    year: int,
    accounts: JoinIndex<String, RelatedAccount>,
    r: Result<Section3, ExtractError>,
) -> bool {
    exists|ti: Result<TableRows, ExtractError>, to: Result<TableRows, ExtractError>|
        read_then(t, w, "Phần III. CN liên quan"@, ti) && read_then(t, w, "Phần III. TC liên quan"@, to)
            && #[trigger] section3_rows(t, w, year, accounts, ti, to, r)
}

/// The related-parties section once the related tables are read as `ti` and
/// `to`.
pub open spec fn section3_rows(
    t: Template,
    w: Workbook,
    year: int,
    accounts: JoinIndex<String, RelatedAccount>,
    ti: Result<TableRows, ExtractError>,
    to: Result<TableRows, ExtractError>,
    r: Result<Section3, ExtractError>,
) -> bool {
    &&& r is Ok <==> (ti is Ok && to is Ok && (forall|i: int|
        0 <= i < ti->Ok_0.rows@.len() ==> #[trigger] related_individual_ok(row_at(&ti->Ok_0, i))) && (forall|i: int|
        0 <= i < to->Ok_0.rows@.len() ==> #[trigger] related_organization_ok(row_at(&to->Ok_0, i)))
        && crate::template::key_text(t, w, "Phần II: Thông tin bổ sung"@) is Some)
    &&& r is Ok ==> {
        &&& related_individuals_read(ti->Ok_0, accounts, year, Ok(r->Ok_0.related_individuals))
        &&& related_organizations_read(to->Ok_0, accounts, Ok(r->Ok_0.related_organizations))
        &&& opt_view(r->Ok_0.additional_info) == crate::template::key_text(t, w, "Phần II: Thông tin bổ sung"@)
    }
}

/// `r` is the related-parties section once the related accounts have been
/// read as `ra`.
pub open spec fn section3_after(
    t: Template,
    w: Workbook,
    year: int,
    ra: Result<JoinIndex<String, RelatedAccount>, ExtractError>,
    r: Result<Section3, ExtractError>,
) -> bool {
    match ra {
        Err(_) => r is Err,
        Ok(accounts) => section3_with(t, w, year, accounts, r),
    }
}

/// What reading the related-parties section gives.
pub open spec fn section3_read(t: Template, w: Workbook, year: int, r: Result<Section3, ExtractError>) -> bool {
    exists|ra| related_accounts_from_excel(t, w, ra) && #[trigger] section3_after(t, w, year, ra, r)
}

/// What reading the table configured under `key` gives.
pub open spec fn read_then(t: Template, w: Workbook, key: Seq<char>, rt: Result<TableRows, ExtractError>) -> bool {
    match crate::template::entry_for(t.entries@, key) {
        Some(crate::template::ExcelParam::Table(tb)) => match crate::workbook::sheet_named(w.sheets@, tb.sheet@) {
            Some(s) => crate::table::table_read(tb, s, rt),
            None => rt is Err,
        },
        _ => rt is Err,
    }
}

impl Section3 {
    /// Reads both related tables, joined with the related accounts.
    fn read(template: &Template, workbook: &Workbook, accounts: &JoinIndex<String, RelatedAccount>, current_year: i32) -> (r: Result<
        Section3,
        ExtractError,
    >)
        ensures
            section3_with(*template, *workbook, current_year as int, *accounts, r),
    {
        let ti = read_table_from_sheet(template, workbook, "Phần III. CN liên quan");
        let to = read_table_from_sheet(template, workbook, "Phần III. TC liên quan");
        let ghost (gti, gto) = (ti, to);
        assert(read_then(*template, *workbook, "Phần III. CN liên quan"@, gti));
        assert(read_then(*template, *workbook, "Phần III. TC liên quan"@, gto));
        let ri = match ti {
            Ok(tr) => related_individuals_from_rows(&tr, accounts, current_year),
            Err(e) => Err(e),
        };
        let ro = match to {
            Ok(tr) => related_organizations_from_rows(&tr, accounts),
            Err(e) => Err(e),
        };
        let extra = crate::template::cell_value_from_key(template, workbook, "Phần II: Thông tin bổ sung");
        let r: Result<Section3, ExtractError> = match (ri, ro, extra) {
            (Ok(individuals), Ok(organizations), Ok(additional_info)) => Ok(Section3 {
                related_individuals: individuals,
                related_organizations: organizations,
                additional_info: Some(additional_info),
            }),
            (Err(e), _, _) => Err(e),
            (_, Err(e), _) => Err(e),
            (_, _, Err(e)) => Err(e),
        };
        assert(section3_rows(*template, *workbook, current_year as int, *accounts, gti, gto, r));
        r
    }

    /// Reads the related accounts, then the related individuals and
    /// organizations joined with them, and the additional information.
    pub fn from_excel(template: &Template, workbook: &Workbook, current_year: i32) -> (r: Result<Section3, ExtractError>)
        ensures
            section3_read(*template, *workbook, current_year as int, r),
    {
        let ra = RelatedAccount::from_excel(template, workbook);
        let ghost gra = ra;
        let accounts = match ra {
            Ok(a) => a,
            Err(e) => {
                let r: Result<Section3, ExtractError> = Err(e);
                assert(section3_after(*template, *workbook, current_year as int, gra, r));
                return r;
            },
        };
        let r = Section3::read(template, workbook, &accounts, current_year);
        assert(section3_after(*template, *workbook, current_year as int, gra, r));
        r
    }
}

} // verus!
