//! Customer entities read from the report's tables: accounts keyed by
//! customer, and individual customers joined with their accounts.

use vstd::prelude::*;
use crate::codes::{translate, translation, Vocabulary};
use crate::error::ExtractError;
use crate::join::{joined, Duplicate, JoinIndex};
use crate::row::{failed_at_first_bad_row, row_error_at, code_part_of, date_field, date_of, in_row, index_rows, keyed_rows_read, opt_code_part, opt_view, row_at, KeyedRow, RowCtx};
use crate::table::{lemma_table_then, read_table_from_sheet, table_then, TableRows};
use crate::template::Template;
use crate::workbook::Workbook;
use crate::datetime::{age_range, age_range_code, parsed_dmy};
use crate::text::{string_of, trimmed};
use crate::join::JoinKey;

verus! {

pub fn duplicate_text(o: &Option<String>) -> (r: Option<String>)
    ensures
        r == *o,
{
    match o {
        Some(s) => Some(s.clone()),
        None => None,
    }
}

/// The bank that holds an account.
#[derive(Debug, Clone)]
pub struct Bank {
    pub bank_name: Option<String>,
    pub bank_code: Option<String>,
}

/// A customer account.
#[derive(Debug, Clone)]
pub struct Account {
    pub account_number: Option<String>,
    pub bank: Bank,
    pub currency_type: Option<String>,
    pub account_type: String,
    pub open_date: Option<String>,
    pub status: String,
}

impl Duplicate for Account {
    fn duplicate(&self) -> (r: Self) {
        Account {
            account_number: duplicate_text(&self.account_number),
            bank: Bank { bank_name: duplicate_text(&self.bank.bank_name), bank_code: duplicate_text(&self.bank.bank_code) },
            currency_type: duplicate_text(&self.currency_type),
            account_type: self.account_type.clone(),
            open_date: duplicate_text(&self.open_date),
            status: self.status.clone(),
        }
    }
}

/// Every field of an account row can be read and converted.
pub open spec fn account_row_ok(c: RowCtx) -> bool {
    &&& c.readable("CIF"@)
    &&& c.readable("Số tài khoản"@)
    &&& c.readable("Tên Ngân hàng"@)
    &&& c.readable("Mã Ngân hàng"@)
    &&& c.readable("Loại tiền"@)
    &&& c.readable("Loại TK"@)
    &&& translation(Vocabulary::AccountType.spec_entries(), c.text("Loại TK"@)) is Some
    &&& c.readable("Ngày mở"@)
    &&& date_field(c.field("Ngày mở"@)) is Some
    &&& c.readable("Trạng thái"@)
    &&& translation(Vocabulary::AccountStatus.spec_entries(), c.text("Trạng thái"@)) is Some
}

/// `key` and `a` are the customer key and the account that row `c` holds.
pub open spec fn account_row_is(c: RowCtx, key: Seq<Seq<char>>, a: Account) -> bool {
    &&& key == seq![c.text("CIF"@)]
    &&& opt_view(a.account_number) == c.field("Số tài khoản"@)
    &&& opt_view(a.bank.bank_name) == c.field("Tên Ngân hàng"@)
    &&& opt_view(a.bank.bank_code) == opt_code_part(c.field("Mã Ngân hàng"@))
    &&& opt_view(a.currency_type) == opt_code_part(c.field("Loại tiền"@))
    &&& Some(a.account_type@) == translation(Vocabulary::AccountType.spec_entries(), c.text("Loại TK"@))
    &&& Some(opt_view(a.open_date)) == date_field(c.field("Ngày mở"@))
    &&& Some(a.status@) == translation(Vocabulary::AccountStatus.spec_entries(), c.text("Trạng thái"@))
}

impl KeyedRow<String> for Account {
    open spec fn row_ok(c: RowCtx) -> bool {
        account_row_ok(c)
    }

    open spec fn row_is(c: RowCtx, key: Seq<Seq<char>>, v: Account) -> bool {
        account_row_is(c, key, v)
    }

    /// Reads one account row: its customer key and the account.
    fn from_row(c: &RowCtx) -> (r: Result<(String, Account), ExtractError>) {
        let cif = c.get_text("CIF")?;
        let account_number = c.get("Số tài khoản")?;
        let bank_name = c.get("Tên Ngân hàng")?;
        let bank_code = code_part_of(&c.get("Mã Ngân hàng")?);
        let currency_type = code_part_of(&c.get("Loại tiền")?);
        let account_type = translate(Vocabulary::AccountType, c.get_text("Loại TK")?.as_str())?;
        let open_date = date_of(&c.get("Ngày mở")?)?;
        let status = translate(Vocabulary::AccountStatus, c.get_text("Trạng thái")?.as_str())?;
        Ok((cif, Account { account_number, bank: Bank { bank_name, bank_code }, currency_type, account_type, open_date, status }))
    }
}

impl Account {
    /// Reads the account table configured under "Phần II. Tài khoản".
    pub fn from_excel(template: &Template, workbook: &Workbook) -> (r: Result<JoinIndex<String, Account>, ExtractError>)
        ensures
            accounts_from_excel(*template, *workbook, r),
    {
        let rt = read_table_from_sheet(template, workbook, "Phần II. Tài khoản");
        let ghost rt_view = rt;
        let r = match rt {
            Ok(tr) => index_rows::<String, Account>(&tr),
            Err(e) => Err(e),
        };
        proof {
            lemma_table_then(*template, *workbook, "Phần II. Tài khoản"@, rt_view, r, |tr: TableRows, r| keyed_rows_read::<String, Account>(tr, r));
        }
        r
    }
}


/// An occupation: its code and the texts that describe it.
#[derive(Debug, Clone)]
pub struct Occupation {
    pub occupation_code: String,
    pub description: Option<String>,
    pub content: Option<String>,
}

/// A postal address.
#[derive(Debug, Clone)]
pub struct Address {
    pub street_address: Option<String>,
    pub city_province: Option<String>,
    pub district: Option<String>,
    pub country: Option<String>,
}

/// An identification document.
#[derive(Debug, Clone)]
pub struct Identification {
    pub id_type: String,
    pub id_number: Option<String>,
    pub issue_date: Option<String>,
    pub issuing_authority: Option<String>,
    pub expiry_date: Option<String>,
    pub place_of_issue: Option<String>,
}

/// An individual customer with the accounts that share its customer key.
#[derive(Debug)]
pub struct Individual {
    pub id: String,
    pub existing_customer: Option<String>,
    pub full_name: Option<String>,
    pub date_of_birth: Option<String>,
    pub age_range: Option<String>,
    pub gender: String,
    pub nationality: Option<String>,
    pub occupation: Occupation,
    pub permanent_address: Address,
    pub current_address: Address,
    pub identification: Identification,
    pub phone_number: Option<String>,
    pub email: Option<String>,
    pub accounts: Option<Vec<Account>>,
}

/// Every field of an individual-customer row can be read and converted.
pub open spec fn individual_row_ok(c: RowCtx) -> bool {
    &&& c.readable("CIF"@)
    &&& c.readable("Tên khách hàng"@)
    &&& c.readable("Ngày tháng năm sinh (dd/mm/yyyy)"@)
    &&& date_field(c.field("Ngày tháng năm sinh (dd/mm/yyyy)"@)) is Some
    &&& c.readable("Giới tính"@)
    &&& translation(Vocabulary::Gender.spec_entries(), c.text("Giới tính"@)) is Some
    &&& c.readable("Quốc tịch"@)
    &&& c.readable("Nghề nghiệp"@)
    &&& translation(Vocabulary::Occupation.spec_entries(), c.text("Nghề nghiệp"@)) is Some
    &&& c.readable("Nếu Nghề nghiệp Khác"@)
    &&& c.readable("Địa chỉ đăng ký thường trú (Số nhà)"@)
    &&& c.readable("Địa chỉ đăng ký thường trú (Tỉnh/TP)"@)
    &&& c.readable("Địa chỉ đăng ký thường trú (Phường/Xã)"@)
    &&& c.readable("Địa chỉ đăng ký thường trú (Quốc gia)"@)
    &&& c.readable("Nơi ở hiện tại (Số nhà)"@)
    &&& c.readable("Nơi ở hiện tại (Tỉnh/TP)"@)
    &&& c.readable("Nơi ở hiện tại (Phường/Xã)"@)
    &&& c.readable("Nơi ở hiện tại (Quốc gia)"@)
    &&& c.readable("Loại định danh"@)
    &&& translation(Vocabulary::PersonalId.spec_entries(), c.text("Loại định danh"@)) is Some
    &&& c.readable("CMND/CCCD/Hộ chiếu/Định danh cá nhân"@)
    &&& c.readable("Ngày cấp (dd/mm/yyyy)"@)
    &&& date_field(c.field("Ngày cấp (dd/mm/yyyy)"@)) is Some
    &&& c.readable("Cơ quan cấp"@)
    &&& c.readable("Ngày hết hạn (dd/mm/yyyy)"@)
    &&& date_field(c.field("Ngày hết hạn (dd/mm/yyyy)"@)) is Some
    &&& c.readable("Nơi cấp"@)
    &&& c.readable("Số điện thoại"@)
    &&& c.readable("Email"@)
}

/// The age range of an optional birth date in `year`.
pub open spec fn age_range_field(f: Option<Seq<char>>, year: int) -> Option<Seq<char>> {
    match f {
        Some(t) => match parsed_dmy(trimmed(t)) {
            Some((y, _, _)) => age_range(y, year),
            None => None,
        },
        None => None,
    }
}

/// The accounts joined to a customer key; an empty key joins nothing.
pub open spec fn accounts_field(accounts: Option<Vec<Account>>, pairs: Seq<(String, Account)>, key: Seq<char>) -> bool {
    match (if key.len() == 0 { None } else { joined(pairs, seq![key]) }) {
        Some(v) => accounts is Some && accounts->Some_0@ == v,
        None => accounts is None,
    }
}

/// `p` is the individual that row `c` describes, in `year`, joined with the
/// accounts `pairs`.
pub open spec fn individual_row_is(c: RowCtx, year: int, pairs: Seq<(String, Account)>, p: Individual) -> bool {
    &&& p.id@ == c.text("CIF"@)
    &&& opt_view(p.existing_customer) == if c.text("CIF"@).len() == 0 {
        None
    } else {
        Some(seq!['1'])
    }
    &&& opt_view(p.full_name) == c.field("Tên khách hàng"@)
    &&& Some(opt_view(p.date_of_birth)) == date_field(c.field("Ngày tháng năm sinh (dd/mm/yyyy)"@))
    &&& opt_view(p.age_range) == age_range_field(c.field("Ngày tháng năm sinh (dd/mm/yyyy)"@), year)
    &&& Some(p.gender@) == translation(Vocabulary::Gender.spec_entries(), c.text("Giới tính"@))
    &&& opt_view(p.nationality) == c.field("Quốc tịch"@)
    &&& Some(p.occupation.occupation_code@) == translation(Vocabulary::Occupation.spec_entries(), c.text("Nghề nghiệp"@))
    &&& opt_view(p.occupation.description) == c.field("Nghề nghiệp"@)
    &&& opt_view(p.occupation.content) == c.field("Nếu Nghề nghiệp Khác"@)
    &&& opt_view(p.permanent_address.street_address) == c.field("Địa chỉ đăng ký thường trú (Số nhà)"@)
    &&& opt_view(p.permanent_address.city_province) == c.field("Địa chỉ đăng ký thường trú (Tỉnh/TP)"@)
    &&& opt_view(p.permanent_address.district) == c.field("Địa chỉ đăng ký thường trú (Phường/Xã)"@)
    &&& opt_view(p.permanent_address.country) == c.field("Địa chỉ đăng ký thường trú (Quốc gia)"@)
    &&& opt_view(p.current_address.street_address) == c.field("Nơi ở hiện tại (Số nhà)"@)
    &&& opt_view(p.current_address.city_province) == c.field("Nơi ở hiện tại (Tỉnh/TP)"@)
    &&& opt_view(p.current_address.district) == c.field("Nơi ở hiện tại (Phường/Xã)"@)
    &&& opt_view(p.current_address.country) == c.field("Nơi ở hiện tại (Quốc gia)"@)
    &&& Some(p.identification.id_type@) == translation(Vocabulary::PersonalId.spec_entries(), c.text("Loại định danh"@))
    &&& opt_view(p.identification.id_number) == c.field("CMND/CCCD/Hộ chiếu/Định danh cá nhân"@)
    &&& Some(opt_view(p.identification.issue_date)) == date_field(c.field("Ngày cấp (dd/mm/yyyy)"@))
    &&& opt_view(p.identification.issuing_authority) == c.field("Cơ quan cấp"@)
    &&& Some(opt_view(p.identification.expiry_date)) == date_field(c.field("Ngày hết hạn (dd/mm/yyyy)"@))
    &&& opt_view(p.identification.place_of_issue) == c.field("Nơi cấp"@)
    &&& opt_view(p.phone_number) == c.field("Số điện thoại"@)
    &&& opt_view(p.email) == c.field("Email"@)
    &&& accounts_field(p.accounts, pairs, c.text("CIF"@))
}

fn age_range_of(dob: &Option<String>, year: i32) -> (r: Option<String>)
    ensures
        opt_view(r) == age_range_field(opt_view(*dob), year as int),
{
    match dob {
        Some(s) => age_range_code(s.as_str(), year),
        None => None,
    }
}

impl Individual {
    /// Reads one individual-customer row, joining the accounts of its key.
    pub fn from_row(c: &RowCtx, accounts: &JoinIndex<String, Account>, current_year: i32) -> (r: Result<Individual, ExtractError>)
        ensures
            individual_row_ok(*c) ==> r is Ok && forall|pairs: Seq<(String, Account)>| #[trigger] accounts.represents(pairs)
                ==> individual_row_is(*c, current_year as int, pairs, r->Ok_0),
            !individual_row_ok(*c) ==> r is Err,
    {
        let cif = c.get_text("CIF")?;
        let existing_customer = if cif.as_str().unicode_len() == 0 {
            None
        } else {
            let v = vec!['1'];
            assert(v@ =~= seq!['1']);
            Some(string_of(v.as_slice()))
        };
        let full_name = c.get("Tên khách hàng")?;
        let dob = c.get("Ngày tháng năm sinh (dd/mm/yyyy)")?;
        let date_of_birth = date_of(&dob)?;
        let age_range = age_range_of(&dob, current_year);
        let gender = translate(Vocabulary::Gender, c.get_text("Giới tính")?.as_str())?;
        let nationality = c.get("Quốc tịch")?;
        let occupation_text = c.get_text("Nghề nghiệp")?;
        let occupation_code = translate(Vocabulary::Occupation, occupation_text.as_str())?;
        let occupation = Occupation {
            occupation_code,
            description: c.get("Nghề nghiệp")?,
            content: c.get("Nếu Nghề nghiệp Khác")?,
        };
        let permanent_address = Address {
            street_address: c.get("Địa chỉ đăng ký thường trú (Số nhà)")?,
            city_province: c.get("Địa chỉ đăng ký thường trú (Tỉnh/TP)")?,
            district: c.get("Địa chỉ đăng ký thường trú (Phường/Xã)")?,
            country: c.get("Địa chỉ đăng ký thường trú (Quốc gia)")?,
        };
        let current_address = Address {
            street_address: c.get("Nơi ở hiện tại (Số nhà)")?,
            city_province: c.get("Nơi ở hiện tại (Tỉnh/TP)")?,
            district: c.get("Nơi ở hiện tại (Phường/Xã)")?,
            country: c.get("Nơi ở hiện tại (Quốc gia)")?,
        };
        let id_type = translate(Vocabulary::PersonalId, c.get_text("Loại định danh")?.as_str())?;
        let id_number = c.get("CMND/CCCD/Hộ chiếu/Định danh cá nhân")?;
        let issue_date = date_of(&c.get("Ngày cấp (dd/mm/yyyy)")?)?;
        let issuing_authority = c.get("Cơ quan cấp")?;
        let expiry_date = date_of(&c.get("Ngày hết hạn (dd/mm/yyyy)")?)?;
        let place_of_issue = c.get("Nơi cấp")?;
        let identification = Identification { id_type, id_number, issue_date, issuing_authority, expiry_date, place_of_issue };
        let phone_number = c.get("Số điện thoại")?;
        let email = c.get("Email")?;
        let joined_accounts = if cif.as_str().unicode_len() == 0 {
            None
        } else {
            accounts.get(&cif)
        };
        assert(seq![cif@] == cif.key_view());
        Ok(Individual {
            id: cif,
            existing_customer,
            full_name,
            date_of_birth,
            age_range,
            gender,
            nationality,
            occupation,
            permanent_address,
            current_address,
            identification,
            phone_number,
            email,
            accounts: joined_accounts,
        })
    }
}


/// `r` holds one individual per row of `tr`, in order, each joined with the
/// accounts of its key, when every row can be read; a failure otherwise.
pub open spec fn individuals_read(
    tr: TableRows,
    accounts: JoinIndex<String, Account>,
    year: int,
    r: Result<Vec<Individual>, ExtractError>,
) -> bool {
    &&& (forall|i: int| 0 <= i < tr.rows@.len() ==> #[trigger] individual_row_ok(row_at(&tr, i))) ==> r is Ok
        && r->Ok_0@.len() == tr.rows@.len() && forall|pairs: Seq<(String, Account)>| #[trigger] accounts.represents(pairs)
            ==> forall|i: int| 0 <= i < tr.rows@.len() ==> individual_row_is(row_at(&tr, i), year, pairs, #[trigger] r->Ok_0@[i])
    &&& !(forall|i: int| 0 <= i < tr.rows@.len() ==> #[trigger] individual_row_ok(row_at(&tr, i))) ==> failed_at_first_bad_row(
        tr.rows@.len() as int,
        |i: int| individual_row_ok(row_at(&tr, i)),
        r,
    )
}

impl Individual {
    /// Reads every row of an individual-customer table, joining each with the
    /// accounts of its key; a failing row stops the reading with its 1-based
    /// number.
    pub fn from_rows(tr: &TableRows, accounts: &JoinIndex<String, Account>, current_year: i32) -> (r: Result<
        Vec<Individual>,
        ExtractError,
    >)
        ensures
            individuals_read(*tr, *accounts, current_year as int, r),
    {
        let mut out: Vec<Individual> = Vec::new();
        let mut i: usize = 0;
        while i < tr.rows.len()
            invariant
                i <= tr.rows@.len(),
                out@.len() == i,
                forall|k: int| 0 <= k < i ==> #[trigger] individual_row_ok(row_at(tr, k)),
                forall|pairs: Seq<(String, Account)>| #[trigger] accounts.represents(pairs)
                    ==> forall|k: int| 0 <= k < i ==> individual_row_is(row_at(tr, k), current_year as int, pairs, #[trigger] out@[k]),
            decreases tr.rows@.len() - i,
        {
            let c = RowCtx { columns: &tr.columns, start: tr.start, row: &tr.rows[i] };
            assert(c == row_at(tr, i as int));
            match Individual::from_row(&c, accounts, current_year) {
                Ok(p) => {
                    let ghost before = out@;
                    out.push(p);
                    assert forall|pairs: Seq<(String, Account)>| #[trigger] accounts.represents(pairs)
                        implies forall|k: int| 0 <= k < i + 1 ==> individual_row_is(row_at(tr, k), current_year as int, pairs, #[trigger] out@[k]) by {
                        assert forall|k: int| 0 <= k < i + 1 implies individual_row_is(row_at(tr, k), current_year as int, pairs, #[trigger] out@[k]) by {
                            if k < i {
                                assert(out@[k] == before[k]);
                            }
                        }
                    }
                },
                Err(e) => {
                    let r = Err(in_row(i + 1, e));
                    assert(row_error_at(r, i as int));
                    assert(failed_at_first_bad_row(tr.rows@.len() as int, |k: int| individual_row_ok(row_at(tr, k)), r));
                    return r;
                },
            }
            i = i + 1;
        }
        Ok(out)
    }

    /// Reads the individual-customer table configured under "Phần II. KHCN",
    /// after the account table, joining each customer with its accounts.
    pub fn from_excel(template: &Template, workbook: &Workbook, current_year: i32) -> (r: Result<Vec<Individual>, ExtractError>)
        ensures
            individuals_from_excel(*template, *workbook, current_year as int, r),
    {
        let ra = Account::from_excel(template, workbook);
        let ghost ra_view = ra;
        let accounts = match ra {
            Ok(a) => a,
            Err(e) => {
                let r: Result<Vec<Individual>, ExtractError> = Err(e);
                assert(individuals_after(*template, *workbook, current_year as int, ra_view, r));
                return r;
            },
        };
        let rt = read_table_from_sheet(template, workbook, "Phần II. KHCN");
        let ghost rt_view = rt;
        let r = match rt {
            Ok(tr) => Individual::from_rows(&tr, &accounts, current_year),
            Err(e) => Err(e),
        };
        proof {
            lemma_table_then(*template, *workbook, "Phần II. KHCN"@, rt_view, r, |tr: TableRows, r| individuals_read(tr, accounts, current_year as int, r));
            assert(individuals_after(*template, *workbook, current_year as int, ra_view, r));
        }
        r
    }
}

/// What reading the account table gives.
pub open spec fn accounts_from_excel(template: Template, workbook: Workbook, r: Result<JoinIndex<String, Account>, ExtractError>) -> bool {
    table_then(template, workbook, "Phần II. Tài khoản"@, r, |tr: TableRows, r| keyed_rows_read::<String, Account>(tr, r))
}

/// What reading the representative table gives.
pub open spec fn representatives_from_excel(
    template: Template,
    workbook: Workbook,
    r: Result<JoinIndex<String, Representative>, ExtractError>,
) -> bool {
    table_then(template, workbook, "Phần II. Người đại diện"@, r, |tr: TableRows, r| keyed_rows_read::<String, Representative>(tr, r))
}

/// What reading the table of other beneficial owners gives.
pub open spec fn other_owners_from_excel(
    template: Template,
    workbook: Workbook,
    r: Result<JoinIndex<String, OtherOwner>, ExtractError>,
) -> bool {
    table_then(template, workbook, "Phần II. CSHHL khác"@, r, |tr: TableRows, r| keyed_rows_read::<String, OtherOwner>(tr, r))
}

/// What reading the individual customers gives: the account table is read
/// first, then the customer table, each customer joined with its accounts.
pub open spec fn individuals_from_excel(template: Template, workbook: Workbook, year: int, r: Result<Vec<Individual>, ExtractError>) -> bool {
    exists|ra: Result<JoinIndex<String, Account>, ExtractError>|
        accounts_from_excel(template, workbook, ra) && #[trigger] individuals_after(template, workbook, year, ra, r)
}

/// What reading the organization customers gives: the account and
/// representative tables are read first, then the organization table.
pub open spec fn organizations_from_excel(template: Template, workbook: Workbook, r: Result<Vec<Organization>, ExtractError>) -> bool {
    exists|ra: Result<JoinIndex<String, Account>, ExtractError>, rr: Result<JoinIndex<String, Representative>, ExtractError>|
        accounts_from_excel(template, workbook, ra) && representatives_from_excel(template, workbook, rr)
            && #[trigger] organizations_after(template, workbook, ra, rr, r)
}

/// `r` is what reading the individual customers gives once the account table
/// has been read as `ra`.
pub open spec fn individuals_after(
    template: Template,
    workbook: Workbook,
    year: int,
    ra: Result<JoinIndex<String, Account>, ExtractError>,
    r: Result<Vec<Individual>, ExtractError>,
) -> bool {
    match ra {
        Err(_) => r is Err,
        Ok(accounts) => table_then(template, workbook, "Phần II. KHCN"@, r, |tr: TableRows, r| individuals_read(tr, accounts, year, r)),
    }
}

} // verus!

verus! {

/// The personal details shared by representatives and other beneficial owners.
#[derive(Debug)]
pub struct PersonDetails {
    pub full_name: Option<String>,
    pub date_of_birth: Option<String>,
    pub occupation: Occupation,
    pub position: Option<String>,
    pub permanent_address: Address,
    pub current_address: Address,
    pub phone_number: Option<String>,
    pub nationality: Option<String>,
    pub identification: Identification,
}

/// Every personal-detail field of row `c` can be read and converted.
pub open spec fn details_ok(c: RowCtx) -> bool {
    &&& c.readable("Họ và tên"@)
    &&& c.readable("Ngày sinh"@)
    &&& date_field(c.field("Ngày sinh"@)) is Some
    &&& c.readable("Nghề nghiệp"@)
    &&& translation(Vocabulary::Occupation.spec_entries(), c.text("Nghề nghiệp"@)) is Some
    &&& c.readable("Nếu Nghề nghiệp Khác"@)
    &&& c.readable("Chức vụ/vị trí việc làm"@)
    &&& c.readable("Địa chỉ đăng ký thường trú (Số nhà)"@)
    &&& c.readable("Địa chỉ đăng ký thường trú (Tỉnh/TP)"@)
    &&& c.readable("Địa chỉ đăng ký thường trú (Phường/Xã)"@)
    &&& c.readable("Địa chỉ đăng ký thường trú (Quốc gia)"@)
    &&& c.readable("Nơi ở hiện tại (Số nhà)"@)
    &&& c.readable("Nơi ở hiện tại (Tỉnh/TP)"@)
    &&& c.readable("Nơi ở hiện tại (Phường/Xã)"@)
    &&& c.readable("Nơi ở hiện tại (Quốc gia)"@)
    &&& c.readable("Điện thoại liên lạc"@)
    &&& c.readable("Quốc tịch"@)
    &&& c.readable("Loại định danh"@)
    &&& translation(Vocabulary::PersonalId.spec_entries(), c.text("Loại định danh"@)) is Some
    &&& c.readable("CMND/CCCD/Hộ chiếu/Định danh cá nhân"@)
    &&& c.readable("Ngày cấp (dd/mm/yyyy)"@)
    &&& date_field(c.field("Ngày cấp (dd/mm/yyyy)"@)) is Some
    &&& c.readable("Cơ quan cấp"@)
    &&& c.readable("Nơi cấp"@)
}

/// `d` holds the personal details of row `c`.
pub open spec fn details_is(c: RowCtx, d: PersonDetails) -> bool {
    &&& opt_view(d.full_name) == c.field("Họ và tên"@)
    &&& Some(opt_view(d.date_of_birth)) == date_field(c.field("Ngày sinh"@))
    &&& Some(d.occupation.occupation_code@) == translation(Vocabulary::Occupation.spec_entries(), c.text("Nghề nghiệp"@))
    &&& opt_view(d.occupation.description) == c.field("Nghề nghiệp"@)
    &&& opt_view(d.occupation.content) == c.field("Nếu Nghề nghiệp Khác"@)
    &&& opt_view(d.position) == c.field("Chức vụ/vị trí việc làm"@)
    &&& opt_view(d.permanent_address.street_address) == c.field("Địa chỉ đăng ký thường trú (Số nhà)"@)
    &&& opt_view(d.permanent_address.city_province) == c.field("Địa chỉ đăng ký thường trú (Tỉnh/TP)"@)
    &&& opt_view(d.permanent_address.district) == c.field("Địa chỉ đăng ký thường trú (Phường/Xã)"@)
    &&& opt_view(d.permanent_address.country) == c.field("Địa chỉ đăng ký thường trú (Quốc gia)"@)
    &&& opt_view(d.current_address.street_address) == c.field("Nơi ở hiện tại (Số nhà)"@)
    &&& opt_view(d.current_address.city_province) == c.field("Nơi ở hiện tại (Tỉnh/TP)"@)
    &&& opt_view(d.current_address.district) == c.field("Nơi ở hiện tại (Phường/Xã)"@)
    &&& opt_view(d.current_address.country) == c.field("Nơi ở hiện tại (Quốc gia)"@)
    &&& opt_view(d.phone_number) == c.field("Điện thoại liên lạc"@)
    &&& opt_view(d.nationality) == c.field("Quốc tịch"@)
    &&& Some(d.identification.id_type@) == translation(Vocabulary::PersonalId.spec_entries(), c.text("Loại định danh"@))
    &&& opt_view(d.identification.id_number) == c.field("CMND/CCCD/Hộ chiếu/Định danh cá nhân"@)
    &&& Some(opt_view(d.identification.issue_date)) == date_field(c.field("Ngày cấp (dd/mm/yyyy)"@))
    &&& opt_view(d.identification.issuing_authority) == c.field("Cơ quan cấp"@)
    &&& d.identification.expiry_date is None
    &&& opt_view(d.identification.place_of_issue) == c.field("Nơi cấp"@)
}

impl PersonDetails {
    /// Reads the personal details of a row.
    pub fn from_row(c: &RowCtx) -> (r: Result<PersonDetails, ExtractError>)
        ensures
            details_ok(*c) ==> r is Ok && details_is(*c, r->Ok_0),
            !details_ok(*c) ==> r is Err,
    {
        let full_name = c.get("Họ và tên")?;
        let date_of_birth = date_of(&c.get("Ngày sinh")?)?;
        let occupation_code = translate(Vocabulary::Occupation, c.get_text("Nghề nghiệp")?.as_str())?;
        let occupation = Occupation {
            occupation_code,
            description: c.get("Nghề nghiệp")?,
            content: c.get("Nếu Nghề nghiệp Khác")?,
        };
        let position = c.get("Chức vụ/vị trí việc làm")?;
        let permanent_address = Address {
            street_address: c.get("Địa chỉ đăng ký thường trú (Số nhà)")?,
            city_province: c.get("Địa chỉ đăng ký thường trú (Tỉnh/TP)")?,
            district: c.get("Địa chỉ đăng ký thường trú (Phường/Xã)")?,
            country: c.get("Địa chỉ đăng ký thường trú (Quốc gia)")?,
        };
        let current_address = Address {
            street_address: c.get("Nơi ở hiện tại (Số nhà)")?,
            city_province: c.get("Nơi ở hiện tại (Tỉnh/TP)")?,
            district: c.get("Nơi ở hiện tại (Phường/Xã)")?,
            country: c.get("Nơi ở hiện tại (Quốc gia)")?,
        };
        let phone_number = c.get("Điện thoại liên lạc")?;
        let nationality = c.get("Quốc tịch")?;
        let id_type = translate(Vocabulary::PersonalId, c.get_text("Loại định danh")?.as_str())?;
        let id_number = c.get("CMND/CCCD/Hộ chiếu/Định danh cá nhân")?;
        let issue_date = date_of(&c.get("Ngày cấp (dd/mm/yyyy)")?)?;
        let issuing_authority = c.get("Cơ quan cấp")?;
        let place_of_issue = c.get("Nơi cấp")?;
        Ok(PersonDetails {
            full_name,
            date_of_birth,
            occupation,
            position,
            permanent_address,
            current_address,
            phone_number,
            nationality,
            identification: Identification { id_type, id_number, issue_date, issuing_authority, expiry_date: None, place_of_issue },
        })
    }
}

/// A legal representative of an organization customer.
#[derive(Debug)]
pub struct Representative {
    pub id: Option<String>,
    pub details: PersonDetails,
}

impl KeyedRow<String> for Representative {
    open spec fn row_ok(c: RowCtx) -> bool {
        c.readable("CIF"@) && details_ok(c)
    }

    open spec fn row_is(c: RowCtx, key: Seq<Seq<char>>, v: Representative) -> bool {
        &&& key == seq![c.text("CIF"@)]
        &&& opt_view(v.id) == c.field("CMND/CCCD/Hộ chiếu/Định danh cá nhân"@)
        &&& details_is(c, v.details)
    }

    /// Reads one representative row: the organization's key and the person.
    fn from_row(c: &RowCtx) -> (r: Result<(String, Representative), ExtractError>) {
        let cif = c.get_text("CIF")?;
        let id = c.get("CMND/CCCD/Hộ chiếu/Định danh cá nhân")?;
        let details = PersonDetails::from_row(c)?;
        Ok((cif, Representative { id, details }))
    }
}

/// A beneficial owner tabulated apart from the customers.
#[derive(Debug)]
pub struct OtherOwner {
    pub id: String,
    pub gender: String,
    pub details: PersonDetails,
}

impl KeyedRow<String> for OtherOwner {
    open spec fn row_ok(c: RowCtx) -> bool {
        &&& c.readable("CIF"@)
        &&& details_ok(c)
        &&& c.readable("Giới tính"@)
        &&& translation(Vocabulary::Gender.spec_entries(), c.text("Giới tính"@)) is Some
    }

    open spec fn row_is(c: RowCtx, key: Seq<Seq<char>>, v: OtherOwner) -> bool {
        &&& key == seq![c.text("CIF"@)]
        &&& v.id@ == c.text("CIF"@)
        &&& details_is(c, v.details)
        &&& Some(v.gender@) == translation(Vocabulary::Gender.spec_entries(), c.text("Giới tính"@))
    }

    /// Reads one beneficial-owner row: the customer's key and the owner.
    fn from_row(c: &RowCtx) -> (r: Result<(String, OtherOwner), ExtractError>) {
        let cif = c.get_text("CIF")?;
        let details = PersonDetails::from_row(c)?;
        let gender = translate(Vocabulary::Gender, c.get_text("Giới tính")?.as_str())?;
        Ok((cif.clone(), OtherOwner { id: cif, gender, details }))
    }
}

impl Representative {
    /// Reads the representative table configured under "Phần II. Người đại
    /// diện", grouped by organization key.
    pub fn from_excel(template: &Template, workbook: &Workbook) -> (r: Result<JoinIndex<String, Representative>, ExtractError>)
        ensures
            representatives_from_excel(*template, *workbook, r),
    {
        let rt = read_table_from_sheet(template, workbook, "Phần II. Người đại diện");
        let ghost rt_view = rt;
        let r = match rt {
            Ok(tr) => index_rows::<String, Representative>(&tr),
            Err(e) => Err(e),
        };
        proof {
            lemma_table_then(*template, *workbook, "Phần II. Người đại diện"@, rt_view, r, |tr: TableRows, r| keyed_rows_read::<String, Representative>(tr, r));
        }
        r
    }
}

impl OtherOwner {
    /// Reads the table of other beneficial owners configured under "Phần II.
    /// CSHHL khác", grouped by customer key.
    pub fn from_excel(template: &Template, workbook: &Workbook) -> (r: Result<JoinIndex<String, OtherOwner>, ExtractError>)
        ensures
            other_owners_from_excel(*template, *workbook, r),
    {
        let rt = read_table_from_sheet(template, workbook, "Phần II. CSHHL khác");
        let ghost rt_view = rt;
        let r = match rt {
            Ok(tr) => index_rows::<String, OtherOwner>(&tr),
            Err(e) => Err(e),
        };
        proof {
            lemma_table_then(*template, *workbook, "Phần II. CSHHL khác"@, rt_view, r, |tr: TableRows, r| keyed_rows_read::<String, OtherOwner>(tr, r));
        }
        r
    }
}

} // verus!

verus! {

impl Duplicate for Occupation {
    fn duplicate(&self) -> (r: Self) {
        Occupation {
            occupation_code: self.occupation_code.clone(),
            description: duplicate_text(&self.description),
            content: duplicate_text(&self.content),
        }
    }
}

impl Duplicate for Address {
    fn duplicate(&self) -> (r: Self) {
        Address {
            street_address: duplicate_text(&self.street_address),
            city_province: duplicate_text(&self.city_province),
            district: duplicate_text(&self.district),
            country: duplicate_text(&self.country),
        }
    }
}

impl Duplicate for Identification {
    fn duplicate(&self) -> (r: Self) {
        Identification {
            id_type: self.id_type.clone(),
            id_number: duplicate_text(&self.id_number),
            issue_date: duplicate_text(&self.issue_date),
            issuing_authority: duplicate_text(&self.issuing_authority),
            expiry_date: duplicate_text(&self.expiry_date),
            place_of_issue: duplicate_text(&self.place_of_issue),
        }
    }
}

impl Duplicate for PersonDetails {
    fn duplicate(&self) -> (r: Self) {
        PersonDetails {
            full_name: duplicate_text(&self.full_name),
            date_of_birth: duplicate_text(&self.date_of_birth),
            occupation: self.occupation.duplicate(),
            position: duplicate_text(&self.position),
            permanent_address: self.permanent_address.duplicate(),
            current_address: self.current_address.duplicate(),
            phone_number: duplicate_text(&self.phone_number),
            nationality: duplicate_text(&self.nationality),
            identification: self.identification.duplicate(),
        }
    }
}

impl Duplicate for Representative {
    fn duplicate(&self) -> (r: Self) {
        Representative { id: duplicate_text(&self.id), details: self.details.duplicate() }
    }
}

impl Duplicate for OtherOwner {
    fn duplicate(&self) -> (r: Self) {
        OtherOwner { id: self.id.clone(), gender: self.gender.clone(), details: self.details.duplicate() }
    }
}

/// An organization's type: its code and, for "other", its description.
#[derive(Debug)]
pub struct CodeDesc {
    pub type_code: Option<String>,
    pub description: Option<String>,
}

/// An organization's address.
#[derive(Debug)]
pub struct OrgAddress {
    pub street_address: Option<String>,
    pub district: Option<String>,
    pub city_province: Option<String>,
    pub country: Option<String>,
    pub phone: Option<String>,
}

/// An establishment license.
#[derive(Debug)]
pub struct License {
    pub license_number: Option<String>,
    pub issue_date: Option<String>,
    pub issue_place: Option<String>,
}

/// An enterprise (tax) code.
#[derive(Debug)]
pub struct EnterpriseCode {
    pub code: Option<String>,
    pub issue_date: Option<String>,
    pub issue_place: Option<String>,
}

/// An organization customer with the accounts and representatives that
/// share its customer key.
#[derive(Debug)]
pub struct Organization {
    pub id: String,
    pub existing_customer: Option<String>,
    pub name: Option<String>,
    pub foreign_name: Option<String>,
    pub short_name: Option<String>,
    pub organization_type: CodeDesc,
    pub address: OrgAddress,
    pub establishment_license: License,
    pub enterprise_code: EnterpriseCode,
    pub business_sector: Option<String>,
    pub phone_number: Option<String>,
    pub website: Option<String>,
    pub accounts: Option<Vec<Account>>,
    pub representatives: Option<Vec<Representative>>,
}

/// Every field of an organization row can be read and converted.
pub open spec fn organization_row_ok(c: RowCtx) -> bool {
    &&& c.readable("CIF"@)
    &&& c.readable("Tên khách hàng"@)
    &&& c.readable("Loại hình tổ chức"@)
    &&& translation(Vocabulary::CorporateType.spec_entries(), c.text("Loại hình tổ chức"@)) is Some
    &&& c.readable("Loại hình tổ chức nếu chọn Khác"@)
    &&& c.readable("Số nhà"@)
    &&& c.readable("Phường/Xã"@)
    &&& c.readable("Tỉnh/TP"@)
    &&& c.readable("Quốc gia"@)
    &&& c.readable("Số điện thoại"@)
    &&& c.readable("Giấy phép thành lập số"@)
    &&& c.readable("Ngày cấp giấy phép (dd/mm/yyyy)"@)
    &&& date_field(c.field("Ngày cấp giấy phép (dd/mm/yyyy)"@)) is Some
    &&& c.readable("Nơi cấp giấy phép"@)
    &&& c.readable("MS doanh nghiệp/MS thuế"@)
    &&& c.readable("Ngày cấp MST (dd/mm/yyyy)"@)
    &&& date_field(c.field("Ngày cấp MST (dd/mm/yyyy)"@)) is Some
    &&& c.readable("Quốc gia cấp MST"@)
    &&& c.readable("Ngành nghề kinh doanh chính"@)
    &&& c.readable("Địa chỉ trang thông tin điện tử của doanh nghiệp"@)
}

/// `o` is the organization that row `c` describes, joined with the accounts
/// `ap` and the representatives `rp`.
pub open spec fn organization_row_is(
    c: RowCtx,
    ap: Seq<(String, Account)>,
    rp: Seq<(String, Representative)>,
    o: Organization,
) -> bool {
    &&& o.id@ == c.text("CIF"@)
    &&& opt_view(o.existing_customer) == if c.text("CIF"@).len() == 0 {
        None
    } else {
        Some(seq!['1'])
    }
    &&& opt_view(o.name) == c.field("Tên khách hàng"@)
    &&& o.foreign_name is None
    &&& o.short_name is None
    &&& opt_view(o.organization_type.type_code) == translation(Vocabulary::CorporateType.spec_entries(), c.text("Loại hình tổ chức"@))
    &&& opt_view(o.organization_type.description) == c.field("Loại hình tổ chức nếu chọn Khác"@)
    &&& opt_view(o.address.street_address) == c.field("Số nhà"@)
    &&& opt_view(o.address.district) == c.field("Phường/Xã"@)
    &&& opt_view(o.address.city_province) == c.field("Tỉnh/TP"@)
    &&& opt_view(o.address.country) == c.field("Quốc gia"@)
    &&& opt_view(o.address.phone) == c.field("Số điện thoại"@)
    &&& opt_view(o.establishment_license.license_number) == c.field("Giấy phép thành lập số"@)
    &&& Some(opt_view(o.establishment_license.issue_date)) == date_field(c.field("Ngày cấp giấy phép (dd/mm/yyyy)"@))
    &&& opt_view(o.establishment_license.issue_place) == c.field("Nơi cấp giấy phép"@)
    &&& opt_view(o.enterprise_code.code) == c.field("MS doanh nghiệp/MS thuế"@)
    &&& Some(opt_view(o.enterprise_code.issue_date)) == date_field(c.field("Ngày cấp MST (dd/mm/yyyy)"@))
    &&& opt_view(o.enterprise_code.issue_place) == c.field("Quốc gia cấp MST"@)
    &&& opt_view(o.business_sector) == c.field("Ngành nghề kinh doanh chính"@)
    &&& opt_view(o.phone_number) == c.field("Số điện thoại"@)
    &&& opt_view(o.website) == c.field("Địa chỉ trang thông tin điện tử của doanh nghiệp"@)
    &&& accounts_field(o.accounts, ap, c.text("CIF"@))
    &&& match (if c.text("CIF"@).len() == 0 { None } else { joined(rp, seq![c.text("CIF"@)]) }) {
        Some(v) => o.representatives is Some && o.representatives->Some_0@ == v,
        None => o.representatives is None,
    }
}

impl Organization {
    /// Reads one organization row, joining the accounts and representatives
    /// of its key.
    pub fn from_row(
        c: &RowCtx,
        accounts: &JoinIndex<String, Account>,
        representatives: &JoinIndex<String, Representative>,
    ) -> (r: Result<Organization, ExtractError>)
        ensures
            organization_row_ok(*c) ==> r is Ok && forall|ap, rp| #[trigger] accounts.represents(ap) && #[trigger] representatives.represents(rp)
                ==> organization_row_is(*c, ap, rp, r->Ok_0),
            !organization_row_ok(*c) ==> r is Err,
    {
        let cif = c.get_text("CIF")?;
        let existing_customer = if cif.as_str().unicode_len() == 0 {
            None
        } else {
            let v = vec!['1'];
            assert(v@ =~= seq!['1']);
            Some(string_of(v.as_slice()))
        };
        let name = c.get("Tên khách hàng")?;
        let type_code = translate(Vocabulary::CorporateType, c.get_text("Loại hình tổ chức")?.as_str())?;
        let organization_type = CodeDesc { type_code: Some(type_code), description: c.get("Loại hình tổ chức nếu chọn Khác")? };
        let address = OrgAddress {
            street_address: c.get("Số nhà")?,
            district: c.get("Phường/Xã")?,
            city_province: c.get("Tỉnh/TP")?,
            country: c.get("Quốc gia")?,
            phone: c.get("Số điện thoại")?,
        };
        let license_number = c.get("Giấy phép thành lập số")?;
        let license_date = date_of(&c.get("Ngày cấp giấy phép (dd/mm/yyyy)")?)?;
        let establishment_license = License {
            license_number,
            issue_date: license_date,
            issue_place: c.get("Nơi cấp giấy phép")?,
        };
        let code = c.get("MS doanh nghiệp/MS thuế")?;
        let code_date = date_of(&c.get("Ngày cấp MST (dd/mm/yyyy)")?)?;
        let enterprise_code = EnterpriseCode { code, issue_date: code_date, issue_place: c.get("Quốc gia cấp MST")? };
        let business_sector = c.get("Ngành nghề kinh doanh chính")?;
        let phone_number = c.get("Số điện thoại")?;
        let website = c.get("Địa chỉ trang thông tin điện tử của doanh nghiệp")?;
        let blank = cif.as_str().unicode_len() == 0;
        let joined_accounts = if blank {
            None
        } else {
            accounts.get(&cif)
        };
        let joined_representatives = if blank {
            None
        } else {
            representatives.get(&cif)
        };
        assert(seq![cif@] == cif.key_view());
        Ok(Organization {
            id: cif,
            existing_customer,
            name,
            foreign_name: None,
            short_name: None,
            organization_type,
            address,
            establishment_license,
            enterprise_code,
            business_sector,
            phone_number,
            website,
            accounts: joined_accounts,
            representatives: joined_representatives,
        })
    }

    /// Reads every row of an organization table; a failing row stops the
    /// reading with its 1-based number.
    pub fn from_rows(
        tr: &TableRows,
        accounts: &JoinIndex<String, Account>,
        representatives: &JoinIndex<String, Representative>,
    ) -> (r: Result<Vec<Organization>, ExtractError>)
        ensures
            organizations_read(*tr, *accounts, *representatives, r),
    {
        let mut out: Vec<Organization> = Vec::new();
        let mut i: usize = 0;
        while i < tr.rows.len()
            invariant
                i <= tr.rows@.len(),
                out@.len() == i,
                forall|k: int| 0 <= k < i ==> #[trigger] organization_row_ok(row_at(tr, k)),
                forall|ap, rp| #[trigger] accounts.represents(ap) && #[trigger] representatives.represents(rp)
                    ==> forall|k: int| 0 <= k < i ==> organization_row_is(row_at(tr, k), ap, rp, #[trigger] out@[k]),
            decreases tr.rows@.len() - i,
        {
            let c = RowCtx { columns: &tr.columns, start: tr.start, row: &tr.rows[i] };
            assert(c == row_at(tr, i as int));
            match Organization::from_row(&c, accounts, representatives) {
                Ok(o) => {
                    let ghost before = out@;
                    out.push(o);
                    assert forall|ap, rp| #[trigger] accounts.represents(ap) && #[trigger] representatives.represents(rp)
                        implies forall|k: int| 0 <= k < i + 1 ==> organization_row_is(row_at(tr, k), ap, rp, #[trigger] out@[k]) by {
                        assert forall|k: int| 0 <= k < i + 1 implies organization_row_is(row_at(tr, k), ap, rp, #[trigger] out@[k]) by {
                            if k < i {
                                assert(out@[k] == before[k]);
                            }
                        }
                    }
                },
                Err(e) => {
                    let r = Err(in_row(i + 1, e));
                    assert(row_error_at(r, i as int));
                    assert(failed_at_first_bad_row(tr.rows@.len() as int, |k: int| organization_row_ok(row_at(tr, k)), r));
                    return r;
                },
            }
            i = i + 1;
        }
        Ok(out)
    }

    /// Reads the organization table configured under "Phần II. KHTC", after
    /// the account and representative tables.
    pub fn from_excel(template: &Template, workbook: &Workbook) -> (r: Result<Vec<Organization>, ExtractError>)
        ensures
            organizations_from_excel(*template, *workbook, r),
    {
        let ra = Account::from_excel(template, workbook);
        let rr = Representative::from_excel(template, workbook);
        let ghost ra_view = ra;
        let ghost rr_view = rr;
        let (accounts, representatives) = match (ra, rr) {
            (Ok(a), Ok(p)) => (a, p),
            (Err(e), _) => {
                let r: Result<Vec<Organization>, ExtractError> = Err(e);
                assert(organizations_after(*template, *workbook, ra_view, rr_view, r));
                return r;
            },
            (_, Err(e)) => {
                let r: Result<Vec<Organization>, ExtractError> = Err(e);
                assert(organizations_after(*template, *workbook, ra_view, rr_view, r));
                return r;
            },
        };
        let rt = read_table_from_sheet(template, workbook, "Phần II. KHTC");
        let ghost rt_view = rt;
        let r = match rt {
            Ok(tr) => Organization::from_rows(&tr, &accounts, &representatives),
            Err(e) => Err(e),
        };
        proof {
            lemma_table_then(*template, *workbook, "Phần II. KHTC"@, rt_view, r, |tr: TableRows, r| organizations_read(tr, accounts, representatives, r));
            assert(organizations_after(*template, *workbook, ra_view, rr_view, r));
        }
        r
    }
}

/// `r` holds one organization per row of `tr`, in order, when every row can
/// be read; a failure otherwise.
pub open spec fn organizations_read(
    tr: TableRows,
    accounts: JoinIndex<String, Account>,
    representatives: JoinIndex<String, Representative>,
    r: Result<Vec<Organization>, ExtractError>,
) -> bool {
    &&& (forall|i: int| 0 <= i < tr.rows@.len() ==> #[trigger] organization_row_ok(row_at(&tr, i))) ==> r is Ok
        && r->Ok_0@.len() == tr.rows@.len() && forall|ap, rp| #[trigger] accounts.represents(ap) && #[trigger] representatives.represents(rp)
            ==> forall|i: int| 0 <= i < tr.rows@.len() ==> organization_row_is(row_at(&tr, i), ap, rp, #[trigger] r->Ok_0@[i])
    &&& !(forall|i: int| 0 <= i < tr.rows@.len() ==> #[trigger] organization_row_ok(row_at(&tr, i))) ==> failed_at_first_bad_row(
        tr.rows@.len() as int,
        |i: int| organization_row_ok(row_at(&tr, i)),
        r,
    )
}

/// `r` is what reading the organizations gives once the account and
/// representative tables have been read as `ra` and `rr`.
pub open spec fn organizations_after(
    template: Template,
    workbook: Workbook,
    ra: Result<JoinIndex<String, Account>, ExtractError>,
    rr: Result<JoinIndex<String, Representative>, ExtractError>,
    r: Result<Vec<Organization>, ExtractError>,
) -> bool {
    match (ra, rr) {
        (Ok(accounts), Ok(representatives)) => table_then(template, workbook, "Phần II. KHTC"@, r, |tr: TableRows, r| organizations_read(tr, accounts, representatives, r)),
        _ => r is Err,
    }
}

} // verus!
