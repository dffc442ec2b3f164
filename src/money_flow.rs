//! Money-flow aggregation: credit (inflow) and debit (outflow) ledger lines
//! grouped by customer key and account number, with their totals.

use vstd::prelude::*;
use crate::codes::{translate, translation, Vocabulary};
use crate::coord::{all_digits, digits_value};
use crate::entities::{
    accounts_from_excel, duplicate_text, individuals_from_excel, organizations_from_excel, Account, Bank, Individual,
    Organization,
};
use crate::error::ExtractError;
use crate::join::{group_by_key, joined, values_for, Duplicate, JoinIndex, JoinKey};
use crate::row::{date_field, date_of, index_rows, keyed_rows_read, opt_view, text_or_empty, KeyedRow, RowCtx};
use crate::table::{lemma_table_then, read_table_from_sheet, table_then};
use crate::template::Template;
use crate::workbook::Workbook;
use crate::table::TableRows;
use crate::text::{chars_of, is_ascii_digit};

verus! {

/// Text without its ',' thousands separators.
pub open spec fn without_commas(s: Seq<char>) -> Seq<char>
    decreases s.len(),
{
    if s.len() == 0 {
        s
    } else if s.last() == ',' {
        without_commas(s.drop_last())
    } else {
        without_commas(s.drop_last()).push(s.last())
    }
}

/// The 64-bit signed integer a text spells: an optional '+' or '-' sign
/// followed by at least one decimal digit, within the range of `i64`.
pub open spec fn parse_i64(s: Seq<char>) -> Option<int> {
    let neg = s.len() > 0 && s[0] == '-';
    let digits = if s.len() > 0 && (s[0] == '-' || s[0] == '+') {
        s.drop_first()
    } else {
        s
    };
    let v = if neg {
        -digits_value(digits)
    } else {
        digits_value(digits)
    };
    if digits.len() > 0 && all_digits(digits) && i64::MIN <= v <= i64::MAX {
        Some(v)
    } else {
        None
    }
}

/// The count an optional ledger text stands for: its integer value once the
/// separators are removed, and zero when it is absent or no integer.
pub open spec fn count(f: Option<Seq<char>>) -> int {
    match f {
        Some(t) => match parse_i64(without_commas(t)) {
            Some(v) => v,
            None => 0,
        },
        None => 0,
    }
}

/// The position of the first '.' of a text, or its length.
pub open spec fn dot_at(b: Seq<char>) -> int
    decreases b.len(),
{
    if b.len() == 0 || b[0] == '.' {
        0
    } else {
        1 + dot_at(b.drop_first())
    }
}

/// The hundredths that the first two fractional digits stand for.
pub open spec fn frac_hundredths(f: Seq<char>) -> int {
    (if f.len() > 0 {
        crate::coord::digit_value(f[0]) * 10
    } else {
        0
    }) + (if f.len() > 1 {
        crate::coord::digit_value(f[1])
    } else {
        0
    })
}

/// The amount a decimal text spells, in hundredths: an optional sign, digits,
/// then optionally '.' and more digits (at least one digit in all);
/// fractional digits past the second are dropped; the value must fit `i64`.
pub open spec fn parse_hundredths(s: Seq<char>) -> Option<int> {
    let neg = s.len() > 0 && s[0] == '-';
    let body = if s.len() > 0 && (s[0] == '-' || s[0] == '+') {
        s.drop_first()
    } else {
        s
    };
    let k = dot_at(body);
    let ip = body.subrange(0, k);
    let fp = if k < body.len() {
        body.subrange(k + 1, body.len() as int)
    } else {
        Seq::empty()
    };
    let m = digits_value(ip) * 100 + frac_hundredths(fp);
    let v = if neg {
        -m
    } else {
        m
    };
    if ip.len() + fp.len() > 0 && all_digits(ip) && all_digits(fp) && i64::MIN <= v <= i64::MAX {
        Some(v)
    } else {
        None
    }
}

/// The amount an optional ledger text stands for, in hundredths: its decimal
/// value once the separators are removed, and zero when it is absent or no
/// decimal number.
pub open spec fn amount(f: Option<Seq<char>>) -> int {
    match f {
        Some(t) => match parse_hundredths(without_commas(t)) {
            Some(v) => v,
            None => 0,
        },
        None => 0,
    }
}

/// The text without its ',' separators.
pub fn strip_commas(s: &str) -> (r: Vec<char>)
    ensures
        r@ == without_commas(s@),
{
    let v = chars_of(s);
    let mut digits: Vec<char> = Vec::new();
    let mut i: usize = 0;
    assert(v@.subrange(0, 0) =~= Seq::<char>::empty());
    while i < v.len()
        invariant
            v@ == s@,
            i <= v@.len(),
            digits@ == without_commas(v@.subrange(0, i as int)),
        decreases v@.len() - i,
    {
        assert(v@.subrange(0, i + 1).drop_last() =~= v@.subrange(0, i as int));
        if v[i] != ',' {
            digits.push(v[i]);
        }
        i = i + 1;
    }
    assert(v@.subrange(0, v@.len() as int) =~= v@);
    digits
}

/// Reads the count of an optional ledger text.
pub fn parse_count(f: &Option<String>) -> (r: i64)
    ensures
        r == count(opt_view(*f)),
{
    match f {
        None => 0,
        Some(s) => match parse_i64_text(&strip_commas(s.as_str())) {
            Some(x) => x,
            None => 0,
        },
    }
}

/// Reads the amount of an optional ledger text, in hundredths.
pub fn parse_amount(f: &Option<String>) -> (r: i64)
    ensures
        r == amount(opt_view(*f)),
{
    match f {
        None => 0,
        Some(s) => match parse_hundredths_text(&strip_commas(s.as_str())) {
            Some(x) => x,
            None => 0,
        },
    }
}

/// The characters `from..to` of a text.
fn slice_chars(v: &Vec<char>, from: usize, to: usize) -> (r: Vec<char>)
    requires
        from <= to <= v@.len(),
    ensures
        r@ == v@.subrange(from as int, to as int),
{
    let mut out: Vec<char> = Vec::new();
    let mut k: usize = from;
    while k < to
        invariant
            from <= k <= to <= v@.len(),
            out@ == v@.subrange(from as int, k as int),
        decreases to - k,
    {
        out.push(v[k]);
        assert(out@ =~= v@.subrange(from as int, k + 1));
        k = k + 1;
    }
    out
}

/// The position of the first '.' of a text, or its length.
fn dot_index(b: &Vec<char>) -> (k: usize)
    ensures
        k == dot_at(b@),
        k <= b@.len(),
{
    let mut i: usize = 0;
    assert(b@.subrange(0, b@.len() as int) =~= b@);
    while i < b.len() && b[i] != '.'
        invariant
            i <= b@.len(),
            dot_at(b@) == i + dot_at(b@.subrange(i as int, b@.len() as int)),
        decreases b@.len() - i,
    {
        assert(b@.subrange(i as int, b@.len() as int).drop_first() =~= b@.subrange(i + 1, b@.len() as int));
        i = i + 1;
    }
    i
}

/// The value of a text of digits no larger than `limit`; `None` when a
/// character is no digit or the value exceeds `limit`.
fn digits_up_to(b: &Vec<char>, limit: u64) -> (r: Option<u64>)
    requires
        limit <= 9223372036854775808u64,
    ensures
        match r {
            Some(x) => all_digits(b@) && x == digits_value(b@) && x <= limit,
            None => !all_digits(b@) || digits_value(b@) > limit,
        },
{
    let mut acc: u64 = 0;
    let mut i: usize = 0;
    assert(b@.subrange(0, 0) =~= Seq::<char>::empty());
    while i < b.len()
        invariant
            i <= b@.len(),
            limit <= 9223372036854775808u64,
            acc == digits_value(b@.subrange(0, i as int)),
            acc <= limit,
            all_digits(b@.subrange(0, i as int)),
        decreases b@.len() - i,
    {
        let c = b[i];
        let ghost pre = b@.subrange(0, i as int);
        let ghost next = b@.subrange(0, i + 1);
        assert(next.drop_last() =~= pre);
        if !('0' <= c && c <= '9') {
            assert(b@[i as int] == c);
            return None;
        }
        let d = (c as u32 - 48) as u64;
        if d > limit || acc > (limit - d) / 10 {
            proof {
                lemma_prefix_digits_bound(b@, i as int + 1);
                assert(next.last() == c);
                assert(digits_value(next) == acc * 10 + d);
                assert(acc * 10 + d > limit) by (nonlinear_arith)
                    requires
                        d > limit || acc > (limit - d) / 10,
                        d <= 9,
                        acc >= 0,
                ;
            }
            return None;
        }
        assert(acc * 10 + d <= limit) by (nonlinear_arith)
            requires
                acc <= (limit - d) / 10,
                d <= limit,
                d <= 9,
                acc >= 0,
        ;
        acc = acc * 10 + d;
        assert(all_digits(next)) by {
            assert forall|k: int| 0 <= k < next.len() implies is_ascii_digit(#[trigger] next[k]) by {
                if k < next.len() - 1 {
                    assert(next[k] == pre[k]);
                }
            }
        }
        assert(next.last() == c);
        i = i + 1;
    }
    assert(b@.subrange(0, b@.len() as int) =~= b@);
    Some(acc)
}

/// Reads an amount in hundredths from a decimal text.
pub fn parse_hundredths_text(s: &Vec<char>) -> (r: Option<i64>)
    ensures
        match r {
            Some(x) => parse_hundredths(s@) == Some(x as int),
            None => parse_hundredths(s@) is None,
        },
{
    let n = s.len();
    let neg = n > 0 && s[0] == '-';
    let from: usize = if n > 0 && (s[0] == '-' || s[0] == '+') {
        1
    } else {
        0
    };
    let body = slice_chars(s, from, n);
    assert(body@ == (if s@.len() > 0 && (s@[0] == '-' || s@[0] == '+') { s@.drop_first() } else { s@ }));
    let k = dot_index(&body);
    let ip = slice_chars(&body, 0, k);
    let fp = if k < body.len() {
        slice_chars(&body, k + 1, body.len())
    } else {
        Vec::new()
    };
    assert(fp@ == (if (k as int) < body@.len() { body@.subrange(k + 1, body@.len() as int) } else { Seq::<char>::empty() }));
    if ip.len() + fp.len() == 0 {
        return None;
    }
    let whole = match digits_up_to(&ip, 92233720368547758u64) {
        Some(x) => x,
        None => {
            proof {
                lemma_frac_nonneg(fp@);
            }
            return None;
        },
    };
    if !all_digit_chars(&fp) {
        return None;
    }
    let f0: u64 = if fp.len() > 0 {
        (fp[0] as u32 - 48) as u64 * 10
    } else {
        0
    };
    let f1: u64 = if fp.len() > 1 {
        (fp[1] as u32 - 48) as u64
    } else {
        0
    };
    assert(fp@.len() > 0 ==> is_ascii_digit(fp@[0]));
    assert(fp@.len() > 1 ==> is_ascii_digit(fp@[1]));
    let m: u64 = whole * 100 + f0 + f1;
    assert(m == digits_value(ip@) * 100 + frac_hundredths(fp@));
    if neg {
        if m > 9223372036854775808u64 {
            return None;
        }
        if m == 9223372036854775808u64 {
            Some(-9223372036854775807i64 - 1)
        } else {
            Some(-(m as i64))
        }
    } else {
        if m > 9223372036854775807u64 {
            return None;
        }
        Some(m as i64)
    }
}

/// The fractional hundredths of digits are never negative.
proof fn lemma_frac_nonneg(f: Seq<char>)
    ensures
        all_digits(f) ==> frac_hundredths(f) >= 0,
{
    if all_digits(f) {
        if f.len() > 0 {
            assert(is_ascii_digit(f[0]));
        }
        if f.len() > 1 {
            assert(is_ascii_digit(f[1]));
        }
    }
}

/// Whether every character is a decimal digit.
fn all_digit_chars(b: &Vec<char>) -> (r: bool)
    ensures
        r == all_digits(b@),
{
    let mut i: usize = 0;
    while i < b.len()
        invariant
            i <= b@.len(),
            forall|k: int| 0 <= k < i ==> is_ascii_digit(#[trigger] b@[k]),
        decreases b@.len() - i,
    {
        if !('0' <= b[i] && b[i] <= '9') {
            return false;
        }
        i = i + 1;
    }
    true
}

proof fn lemma_digits_value_nonneg(s: Seq<char>)
    ensures
        digits_value(s) >= 0,
    decreases s.len(),
{
    if s.len() > 0 {
        lemma_digits_value_nonneg(s.drop_last());
    }
}

/// Reads a signed 64-bit integer.
pub fn parse_i64_text(s: &Vec<char>) -> (r: Option<i64>)
    ensures
        match r {
            Some(x) => parse_i64(s@) == Some(x as int),
            None => parse_i64(s@) is None,
        },
{
    let n = s.len();
    let neg = n > 0 && s[0] == '-';
    let from: usize = if n > 0 && (s[0] == '-' || s[0] == '+') {
        1
    } else {
        0
    };
    let ghost digits = if n > 0 && (s@[0] == '-' || s@[0] == '+') {
        s@.drop_first()
    } else {
        s@
    };
    assert(digits =~= s@.subrange(from as int, n as int));
    if from >= n {
        return None;
    }
    let mut acc: u64 = 0;
    let mut i: usize = from;
    assert(s@.subrange(from as int, from as int) =~= Seq::<char>::empty());
    while i < n
        invariant
            n == s@.len(),
            from <= i <= n,
            digits == s@.subrange(from as int, n as int),
            neg == (n > 0 && s@[0] == '-'),
            from == (if n > 0 && (s@[0] == '-' || s@[0] == '+') { 1int } else { 0int }),
            acc == digits_value(s@.subrange(from as int, i as int)),
            acc <= 9223372036854775808u64,
            all_digits(s@.subrange(from as int, i as int)),
        decreases n - i,
    {
        let c = s[i];
        let ghost pre = s@.subrange(from as int, i as int);
        let ghost next = s@.subrange(from as int, i + 1);
        assert(next.drop_last() =~= pre);
        if !('0' <= c && c <= '9') {
            assert(!all_digits(digits)) by {
                assert(digits[i - from] == c);
            }
            return None;
        }
        let d = (c as u32 - 48) as u64;
        if acc > (9223372036854775808u64 - d) / 10 {
            proof {
                lemma_prefix_digits_bound(s@.subrange(from as int, n as int), (i - from) as int + 1);
                assert(s@.subrange(from as int, n as int).subrange(0, (i - from) as int + 1) =~= next);
                assert(next.last() == c);
                assert(digits_value(next) == acc * 10 + d);
                let m = 9223372036854775808u64;
                assert(acc * 10 + d > m) by (nonlinear_arith)
                    requires
                        acc > (m - d) / 10,
                        d <= 9,
                        m == 9223372036854775808u64,
                ;
                assert(digits_value(digits) > m);
                assert(digits == (if s@.len() > 0 && (s@[0] == '-' || s@[0] == '+') { s@.drop_first() } else { s@ }));
                let v = if neg { -digits_value(digits) } else { digits_value(digits) };
                assert(!(i64::MIN <= v <= i64::MAX));
                assert(parse_i64(s@) is None);
            }
            return None;
        }
        acc = acc * 10 + d;
        assert(all_digits(next)) by {
            assert forall|k: int| 0 <= k < next.len() implies is_ascii_digit(#[trigger] next[k]) by {
                if k < next.len() - 1 {
                    assert(next[k] == pre[k]);
                }
            }
        }
        i = i + 1;
    }
    assert(s@.subrange(from as int, n as int) == digits);
    if neg {
        if acc == 9223372036854775808u64 {
            Some(-9223372036854775807i64 - 1)
        } else {
            Some(-(acc as i64))
        }
    } else {
        if acc > 9223372036854775807u64 {
            None
        } else {
            Some(acc as i64)
        }
    }
}

/// A prefix of a digit text never has a larger value than the whole.
proof fn lemma_prefix_digits_bound(s: Seq<char>, k: int)
    requires
        0 <= k <= s.len(),
    ensures
        digits_value(s.subrange(0, k)) <= digits_value(s),
    decreases s.len() - k,
{
    if k < s.len() {
        lemma_prefix_digits_bound(s, k + 1);
        let p = s.subrange(0, k + 1);
        assert(p.drop_last() =~= s.subrange(0, k));
        lemma_digits_value_nonneg(p.drop_last());
    } else {
        assert(s.subrange(0, k) =~= s);
    }
}


/// One ledger line of a money flow, incoming or outgoing; the counterpart is
/// the source of an inflow and the destination of an outflow.
#[derive(Debug)]
pub struct FlowEntry {
    pub counterpart_name: Option<String>,
    pub counterpart_id: Option<String>,
    pub counterpart_account: Option<String>,
    pub counterpart_bank_name: Option<String>,
    pub counterpart_bank_code: Option<String>,
    pub total_amount: Option<String>,
    pub total_converted: Option<String>,
    pub total_transactions: Option<String>,
    pub tx_from: Option<String>,
    pub tx_to: Option<String>,
    pub currency: String,
    pub content: Option<String>,
}

/// An inflow (credit) ledger line.
pub type FlowEntryIn = FlowEntry;

/// An outflow (debit) ledger line.
pub type FlowEntryOut = FlowEntry;

impl Duplicate for FlowEntry {
    fn duplicate(&self) -> (r: Self) {
        FlowEntry {
            counterpart_name: duplicate_text(&self.counterpart_name),
            counterpart_id: duplicate_text(&self.counterpart_id),
            counterpart_account: duplicate_text(&self.counterpart_account),
            counterpart_bank_name: duplicate_text(&self.counterpart_bank_name),
            counterpart_bank_code: duplicate_text(&self.counterpart_bank_code),
            total_amount: duplicate_text(&self.total_amount),
            total_converted: duplicate_text(&self.total_converted),
            total_transactions: duplicate_text(&self.total_transactions),
            tx_from: duplicate_text(&self.tx_from),
            tx_to: duplicate_text(&self.tx_to),
            currency: self.currency.clone(),
            content: duplicate_text(&self.content),
        }
    }
}

impl Duplicate for Bank {
    fn duplicate(&self) -> (r: Self) {
        Bank { bank_name: duplicate_text(&self.bank_name), bank_code: duplicate_text(&self.bank_code) }
    }
}

/// The name and identification number of a customer.
#[derive(Debug)]
pub struct CustomerInfo {
    pub name: String,
    pub id_number: String,
}

impl Duplicate for CustomerInfo {
    fn duplicate(&self) -> (r: Self) {
        CustomerInfo { name: self.name.clone(), id_number: self.id_number.clone() }
    }
}

/// Every field of a ledger row can be read and converted.
pub open spec fn flow_row_ok(c: RowCtx) -> bool {
    &&& c.readable("CIF"@)
    &&& c.readable("Số tài khoản"@)
    &&& c.readable("Tên cá nhân/ tổ chức đối ứng"@)
    &&& c.readable("Số CMND/ CCCD/ Hộ chiếu/ định danh cá nhân"@)
    &&& c.readable("Số tài khoản áp dụng cho TH chuyển khoản"@)
    &&& c.readable("Tên ngân hàng chuyển tiền"@)
    &&& c.readable("Mã ngân hàng chuyển tiền"@)
    &&& c.readable("Tổng số tiền nguyên tệ"@)
    &&& c.readable("Tổng số tiền quy đổi (VND)"@)
    &&& c.readable("Tổng số lượng giao dịch"@)
    &&& c.readable("Giao dịch từ ngày"@)
    &&& date_field(c.field("Giao dịch từ ngày"@)) is Some
    &&& c.readable("Giao dịch đến ngày"@)
    &&& date_field(c.field("Giao dịch đến ngày"@)) is Some
    &&& c.readable("Loại tiền"@)
    &&& translation(Vocabulary::Currency.spec_entries(), c.text("Loại tiền"@)) is Some
    &&& c.readable("Tóm tắt nội dung giao dịch"@)
}

/// `key` and `e` are the (customer key, account number) and the ledger line
/// that row `c` holds.
pub open spec fn flow_row_is(c: RowCtx, key: Seq<Seq<char>>, e: FlowEntry) -> bool {
    &&& key == seq![c.text("CIF"@), c.text("Số tài khoản"@)]
    &&& opt_view(e.counterpart_name) == c.field("Tên cá nhân/ tổ chức đối ứng"@)
    &&& opt_view(e.counterpart_id) == c.field("Số CMND/ CCCD/ Hộ chiếu/ định danh cá nhân"@)
    &&& opt_view(e.counterpart_account) == c.field("Số tài khoản áp dụng cho TH chuyển khoản"@)
    &&& opt_view(e.counterpart_bank_name) == c.field("Tên ngân hàng chuyển tiền"@)
    &&& opt_view(e.counterpart_bank_code) == c.field("Mã ngân hàng chuyển tiền"@)
    &&& opt_view(e.total_amount) == c.field("Tổng số tiền nguyên tệ"@)
    &&& opt_view(e.total_converted) == c.field("Tổng số tiền quy đổi (VND)"@)
    &&& opt_view(e.total_transactions) == c.field("Tổng số lượng giao dịch"@)
    &&& Some(opt_view(e.tx_from)) == date_field(c.field("Giao dịch từ ngày"@))
    &&& Some(opt_view(e.tx_to)) == date_field(c.field("Giao dịch đến ngày"@))
    &&& Some(e.currency@) == translation(Vocabulary::Currency.spec_entries(), c.text("Loại tiền"@))
    &&& opt_view(e.content) == c.field("Tóm tắt nội dung giao dịch"@)
}

impl KeyedRow<(String, String)> for FlowEntry {
    open spec fn row_ok(c: RowCtx) -> bool {
        flow_row_ok(c)
    }

    open spec fn row_is(c: RowCtx, key: Seq<Seq<char>>, v: FlowEntry) -> bool {
        flow_row_is(c, key, v)
    }

    /// Reads one ledger row: its (customer key, account number) and the line.
    fn from_row(c: &RowCtx) -> (r: Result<((String, String), FlowEntry), ExtractError>) {
        let cif = c.get_text("CIF")?;
        let account = c.get_text("Số tài khoản")?;
        let counterpart_name = c.get("Tên cá nhân/ tổ chức đối ứng")?;
        let counterpart_id = c.get("Số CMND/ CCCD/ Hộ chiếu/ định danh cá nhân")?;
        let counterpart_account = c.get("Số tài khoản áp dụng cho TH chuyển khoản")?;
        let counterpart_bank_name = c.get("Tên ngân hàng chuyển tiền")?;
        let counterpart_bank_code = c.get("Mã ngân hàng chuyển tiền")?;
        let total_amount = c.get("Tổng số tiền nguyên tệ")?;
        let total_converted = c.get("Tổng số tiền quy đổi (VND)")?;
        let total_transactions = c.get("Tổng số lượng giao dịch")?;
        let tx_from = date_of(&c.get("Giao dịch từ ngày")?)?;
        let tx_to = date_of(&c.get("Giao dịch đến ngày")?)?;
        let currency = translate(Vocabulary::Currency, c.get_text("Loại tiền")?.as_str())?;
        let content = c.get("Tóm tắt nội dung giao dịch")?;
        Ok((
            (cif, account),
            FlowEntry {
                counterpart_name,
                counterpart_id,
                counterpart_account,
                counterpart_bank_name,
                counterpart_bank_code,
                total_amount,
                total_converted,
                total_transactions,
                tx_from,
                tx_to,
                currency,
                content,
            },
        ))
    }
}


/// The sum of the converted amounts of ledger lines.
pub open spec fn total_converted(es: Seq<FlowEntry>) -> int
    decreases es.len(),
{
    if es.len() == 0 {
        0
    } else {
        total_converted(es.drop_last()) + amount(opt_view(es.last().total_converted))
    }
}

/// The sum of the transaction counts of ledger lines.
pub open spec fn total_transactions(es: Seq<FlowEntry>) -> int
    decreases es.len(),
{
    if es.len() == 0 {
        0
    } else {
        total_transactions(es.drop_last()) + count(opt_view(es.last().total_transactions))
    }
}

/// Sums the converted amounts (`by_count` false) or the transaction counts
/// (`by_count` true) of ledger lines.
pub fn sum_lines(es: &Vec<FlowEntry>, by_count: bool) -> (r: i128)
    ensures
        !by_count ==> r == total_converted(es@),
        by_count ==> r == total_transactions(es@),
{
    let mut total: i128 = 0;
    let mut i: usize = 0;
    while i < es.len()
        invariant
            i <= es@.len(),
            !by_count ==> total == total_converted(es@.subrange(0, i as int)),
            by_count ==> total == total_transactions(es@.subrange(0, i as int)),
            -(i as int) * 9223372036854775808 <= total <= (i as int) * 9223372036854775807,
        decreases es@.len() - i,
    {
        let ghost next = es@.subrange(0, i + 1);
        assert(next.drop_last() =~= es@.subrange(0, i as int));
        let v = if by_count {
            parse_count(&es[i].total_transactions)
        } else {
            parse_amount(&es[i].total_converted)
        };
        total = total + v as i128;
        i = i + 1;
    }
    assert(es@.subrange(0, es@.len() as int) =~= es@);
    total
}

/// The aggregated money flow of one (customer key, account number).
#[derive(Debug)]
pub struct MoneyFlow {
    pub id: String,
    pub subject_name: String,
    pub identification: String,
    pub account_number: String,
    pub bank_name: Option<String>,
    pub bank_code: Option<String>,
    /// The converted total of the inflows, in hundredths.
    pub total_converted_in: i128,
    pub total_transactions_in: i128,
    /// The converted total of the outflows, in hundredths.
    pub total_converted_out: i128,
    pub total_transactions_out: i128,
    pub inflows: Vec<FlowEntry>,
    pub outflows: Vec<FlowEntry>,
}

/// The last value joined to a key, if any (a later entry overrides an
/// earlier one).
pub open spec fn last_joined<K: JoinKey, V>(pairs: Seq<(K, V)>, k: Seq<Seq<char>>) -> Option<V> {
    match joined(pairs, k) {
        Some(v) => Some(v.last()),
        None => None,
    }
}

impl MoneyFlow {
    pub open spec fn key_view(self) -> Seq<Seq<char>> {
        seq![self.id@, self.account_number@]
    }

    /// This flow aggregates the inflow lines `ip` and outflow lines `op` of
    /// its key, with the bank of `bp` and the customer of `cp` for that key
    /// (none for an empty customer key).
    pub open spec fn aggregates(
        self,
        ip: Seq<((String, String), FlowEntry)>,
        op: Seq<((String, String), FlowEntry)>,
        bp: Seq<((String, String), Bank)>,
        cp: Seq<(String, CustomerInfo)>,
    ) -> bool {
        let k = self.key_view();
        &&& self.inflows@ == values_for(ip, k)
        &&& self.outflows@ == values_for(op, k)
        &&& self.total_converted_in == total_converted(self.inflows@)
        &&& self.total_transactions_in == total_transactions(self.inflows@)
        &&& self.total_converted_out == total_converted(self.outflows@)
        &&& self.total_transactions_out == total_transactions(self.outflows@)
        &&& match (if self.id@.len() == 0 { None } else { last_joined(bp, k) }) {
            Some(b) => self.bank_name == b.bank_name && self.bank_code == b.bank_code,
            None => self.bank_name is None && self.bank_code is None,
        }
        &&& match (if self.id@.len() == 0 { None } else { last_joined(cp, seq![self.id@]) }) {
            Some(c) => self.subject_name@ == c.name@ && self.identification@ == c.id_number@,
            None => self.subject_name@.len() == 0 && self.identification@.len() == 0,
        }
    }
}

/// The values joined to a key, empty when there are none.
fn values_or_empty<K: JoinKey, V: Duplicate>(ix: &JoinIndex<K, V>, k: &K) -> (r: Vec<V>)
    ensures
        forall|pairs: Seq<(K, V)>| #[trigger] ix.represents(pairs) ==> r@ == values_for(pairs, k.key_view()),
{
    match ix.get(k) {
        Some(v) => v,
        None => {
            let r: Vec<V> = Vec::new();
            assert forall|pairs: Seq<(K, V)>| #[trigger] ix.represents(pairs) implies r@ == values_for(pairs, k.key_view()) by {
                assert(values_for(pairs, k.key_view()) =~= Seq::<V>::empty());
            }
            r
        },
    }
}

/// The last value joined to a key.
fn last_value<K: JoinKey, V: Duplicate>(ix: &JoinIndex<K, V>, k: &K) -> (r: Option<V>)
    ensures
        forall|pairs: Seq<(K, V)>| #[trigger] ix.represents(pairs) ==> r == last_joined(pairs, k.key_view()),
{
    match ix.get(k) {
        Some(v) => {
            let n = v.len();
            if n == 0 {
                None
            } else {
                Some(v[n - 1].duplicate())
            }
        },
        None => None,
    }
}

impl MoneyFlow {
    /// The money flow of one key from the joined lines, bank and customer.
    pub fn for_key(
        key: &(String, String),
        inflows: &JoinIndex<(String, String), FlowEntry>,
        outflows: &JoinIndex<(String, String), FlowEntry>,
        banks: &JoinIndex<(String, String), Bank>,
        customers: &JoinIndex<String, CustomerInfo>,
    ) -> (r: MoneyFlow)
        ensures
            r.key_view() == key.key_view(),
            forall|ip, op, bp, cp| #[trigger] inflows.represents(ip) && #[trigger] outflows.represents(op)
                && #[trigger] banks.represents(bp) && #[trigger] customers.represents(cp) ==> r.aggregates(ip, op, bp, cp),
    {
        let ins = values_or_empty(inflows, key);
        let outs = values_or_empty(outflows, key);
        let blank = key.0.as_str().unicode_len() == 0;
        let bank = if blank {
            None
        } else {
            last_value(banks, key)
        };
        let customer = if blank {
            None
        } else {
            last_value(customers, &key.0)
        };
        assert(seq![key.0@] == key.0.key_view());
        let (bank_name, bank_code) = match bank {
            Some(b) => (b.bank_name, b.bank_code),
            None => (None, None),
        };
        let (subject_name, identification) = match customer {
            Some(c) => (c.name, c.id_number),
            None => (String::new(), String::new()),
        };
        MoneyFlow {
            id: key.0.clone(),
            subject_name,
            identification,
            account_number: key.1.clone(),
            bank_name,
            bank_code,
            total_converted_in: sum_lines(&ins, false),
            total_transactions_in: sum_lines(&ins, true),
            total_converted_out: sum_lines(&outs, false),
            total_transactions_out: sum_lines(&outs, true),
            inflows: ins,
            outflows: outs,
        }
    }
}


/// `r` holds one money flow per key of the inflow or outflow lines, each
/// aggregating the lines, bank and customer of its key.
pub open spec fn aggregated(
    inflows: JoinIndex<(String, String), FlowEntry>,
    outflows: JoinIndex<(String, String), FlowEntry>,
    banks: JoinIndex<(String, String), Bank>,
    customers: JoinIndex<String, CustomerInfo>,
    r: Seq<MoneyFlow>,
) -> bool {
    &&& forall|ip, op, bp, cp| #[trigger] inflows.represents(ip) && #[trigger] outflows.represents(op)
                && #[trigger] banks.represents(bp) && #[trigger] customers.represents(cp) ==> forall|i: int|
                0 <= i < r.len() ==> (#[trigger] r[i]).aggregates(ip, op, bp, cp)
    &&& forall|i: int| 0 <= i < r.len() ==> inflows.has_key((#[trigger] r[i]).key_view()) || outflows.has_key(
                r[i].key_view(),
            )
    &&& forall|k: Seq<Seq<char>>| #![trigger inflows.has_key(k)] #![trigger outflows.has_key(k)] inflows.has_key(k) || outflows.has_key(k) ==> exists|i: int|
                0 <= i < r.len() && (#[trigger] r[i]).key_view() == k
    &&& forall|i: int, j: int| 0 <= i < r.len() && 0 <= j < r.len() && i != j ==> (#[trigger] r[i]).key_view()
                != (#[trigger] r[j]).key_view()
}

impl MoneyFlow {
    /// One money flow per key that appears among the inflow or outflow lines:
    /// first the keys of the inflows in order of appearance, then the keys
    /// found only among the outflows.
    pub fn aggregate(
        inflows: &JoinIndex<(String, String), FlowEntry>,
        outflows: &JoinIndex<(String, String), FlowEntry>,
        banks: &JoinIndex<(String, String), Bank>,
        customers: &JoinIndex<String, CustomerInfo>,
    ) -> (r: Vec<MoneyFlow>)
        requires
            inflows.wf(),
            outflows.wf(),
        ensures
            aggregated(*inflows, *outflows, *banks, *customers, r@),
    {
        let mut flows: Vec<MoneyFlow> = Vec::new();
        let mut i: usize = 0;
        let n_in = inflows.groups.len();
        while i < n_in
            invariant
                n_in == inflows.groups@.len(),
                i <= n_in,
                flows@.len() == i,
                forall|j: int| 0 <= j < i ==> (#[trigger] flows@[j]).key_view() == inflows.groups@[j].0.key_view(),
                forall|ip, op, bp, cp| #[trigger] inflows.represents(ip) && #[trigger] outflows.represents(op)
                    && #[trigger] banks.represents(bp) && #[trigger] customers.represents(cp) ==> forall|j: int|
                    0 <= j < flows@.len() ==> (#[trigger] flows@[j]).aggregates(ip, op, bp, cp),
                inflows.wf(),
            decreases n_in - i,
        {
            let f = MoneyFlow::for_key(&inflows.groups[i].0, inflows, outflows, banks, customers);
            flows.push(f);
            i = i + 1;
        }
        let mut j: usize = 0;
        let n_out = outflows.groups.len();
        while j < n_out
            invariant
                n_in == inflows.groups@.len(),
                n_out == outflows.groups@.len(),
                j <= n_out,
                flows@.len() >= n_in,
                forall|m: int| 0 <= m < n_in ==> (#[trigger] flows@[m]).key_view() == inflows.groups@[m].0.key_view(),
                forall|m: int| n_in <= m < flows@.len() ==> !inflows.has_key((#[trigger] flows@[m]).key_view()),
                forall|m: int| n_in <= m < flows@.len() ==> exists|g: int| 0 <= g < j && (#[trigger] outflows.groups@[g]).0.key_view()
                    == (#[trigger] flows@[m]).key_view(),
                forall|g: int| 0 <= g < j && !inflows.has_key((#[trigger] outflows.groups@[g]).0.key_view()) ==> exists|m: int|
                    0 <= m < flows@.len() && (#[trigger] flows@[m]).key_view() == outflows.groups@[g].0.key_view(),
                forall|a: int, b: int| n_in <= a < flows@.len() && n_in <= b < flows@.len() && a != b ==> (#[trigger] flows@[a]).key_view()
                    != (#[trigger] flows@[b]).key_view(),
                forall|ip, op, bp, cp| #[trigger] inflows.represents(ip) && #[trigger] outflows.represents(op)
                    && #[trigger] banks.represents(bp) && #[trigger] customers.represents(cp) ==> forall|m: int|
                    0 <= m < flows@.len() ==> (#[trigger] flows@[m]).aggregates(ip, op, bp, cp),
                inflows.wf(),
                outflows.wf(),
            decreases n_out - j,
        {
            let key = &outflows.groups[j].0;
            match inflows.position(key) {
                Some(_) => {},
                None => {
                    let ghost before = flows@;
                    let f = MoneyFlow::for_key(key, inflows, outflows, banks, customers);
                    flows.push(f);
                    assert forall|m: int| n_in <= m < flows@.len() implies exists|g: int| 0 <= g < j + 1 && (#[trigger] outflows.groups@[g]).0.key_view()
                        == (#[trigger] flows@[m]).key_view() by {
                        if m < before.len() {
                            assert(flows@[m] == before[m]);
                        } else {
                            assert(outflows.groups@[j as int].0.key_view() == flows@[m].key_view());
                        }
                    }
                    assert forall|a: int, b: int| n_in <= a < flows@.len() && n_in <= b < flows@.len() && a != b implies (#[trigger] flows@[a]).key_view()
                        != (#[trigger] flows@[b]).key_view() by {
                        if a == before.len() || b == before.len() {
                            let o = if a == before.len() { b } else { a };
                            assert(flows@[o] == before[o]);
                            let g = choose|g: int| 0 <= g < j && (#[trigger] outflows.groups@[g]).0.key_view() == (#[trigger] before[o]).key_view();
                            assert(outflows.groups@[g].0.key_view() != outflows.groups@[j as int].0.key_view());
                        } else {
                            assert(flows@[a] == before[a] && flows@[b] == before[b]);
                        }
                    }
                    assert forall|g: int| 0 <= g < j + 1 && !inflows.has_key((#[trigger] outflows.groups@[g]).0.key_view()) implies exists|m: int|
                        0 <= m < flows@.len() && (#[trigger] flows@[m]).key_view() == outflows.groups@[g].0.key_view() by {
                        if g < j {
                            let m = choose|m: int| 0 <= m < before.len() && (#[trigger] before[m]).key_view() == outflows.groups@[g].0.key_view();
                            assert(flows@[m] == before[m]);
                        } else {
                            assert(flows@[before.len() as int].key_view() == outflows.groups@[g].0.key_view());
                        }
                    }
                },
            }
            j = j + 1;
        }
        assert forall|k: Seq<Seq<char>>| #![trigger inflows.has_key(k)] #![trigger outflows.has_key(k)] inflows.has_key(k) || outflows.has_key(k) implies exists|m: int|
            0 <= m < flows@.len() && (#[trigger] flows@[m]).key_view() == k by {
            if inflows.has_key(k) {
                let g = choose|g: int| 0 <= g < inflows.groups@.len() && (#[trigger] inflows.groups@[g]).0.key_view() == k;
                assert(flows@[g].key_view() == k);
            } else {
                let g = choose|g: int| 0 <= g < outflows.groups@.len() && (#[trigger] outflows.groups@[g]).0.key_view() == k;
                assert(!inflows.has_key(outflows.groups@[g].0.key_view()));
            }
        }
        assert forall|m: int| 0 <= m < flows@.len() implies inflows.has_key((#[trigger] flows@[m]).key_view()) || outflows.has_key(
            flows@[m].key_view(),
        ) by {
            if m < n_in {
                assert(inflows.groups@[m].0.key_view() == flows@[m].key_view());
            } else {
                let g = choose|g: int| 0 <= g < n_out && (#[trigger] outflows.groups@[g]).0.key_view() == (#[trigger] flows@[m]).key_view();
                assert(outflows.groups@[g].0.key_view() == flows@[m].key_view());
            }
        }
        assert forall|a: int, b: int| 0 <= a < flows@.len() && 0 <= b < flows@.len() && a != b implies (#[trigger] flows@[a]).key_view()
            != (#[trigger] flows@[b]).key_view() by {
            if a < n_in && b < n_in {
                assert(inflows.groups@[a].0.key_view() != inflows.groups@[b].0.key_view());
            } else if a < n_in {
                assert(inflows.groups@[a].0.key_view() == flows@[a].key_view());
                assert(inflows.has_key(flows@[a].key_view()));
            } else if b < n_in {
                assert(inflows.groups@[b].0.key_view() == flows@[b].key_view());
                assert(inflows.has_key(flows@[b].key_view()));
            }
        }
        flows
    }
}


/// The (customer key, account number) and bank of every account of an
/// account index, group after group; an account without a number has the
/// empty number.
pub open spec fn bank_entries(groups: Seq<(String, Vec<Account>)>) -> Seq<(Seq<Seq<char>>, Bank)>
    decreases groups.len(),
{
    if groups.len() == 0 {
        Seq::empty()
    } else {
        bank_entries(groups.drop_last()) + groups.last().1@.map_values(
            |a: Account| (seq![groups.last().0@, text_or_empty(opt_view(a.account_number))], a.bank),
        )
    }
}

/// The key views of the pairs of an index, with their values.
pub open spec fn keyed_values<K: JoinKey, V>(pairs: Seq<(K, V)>) -> Seq<(Seq<Seq<char>>, V)> {
    pairs.map_values(|p: (K, V)| (p.0.key_view(), p.1))
}

/// The customer key, name and identification number of every individual,
/// then of every organization (an absent text is empty).
pub open spec fn customer_entries(individuals: Seq<Individual>, organizations: Seq<Organization>) -> Seq<(Seq<Seq<char>>, Seq<char>, Seq<char>)> {
    individuals.map_values(
        |p: Individual| (seq![p.id@], text_or_empty(opt_view(p.full_name)), text_or_empty(opt_view(p.identification.id_number))),
    ) + organizations.map_values(
        |o: Organization| (seq![o.id@], text_or_empty(opt_view(o.name)), text_or_empty(opt_view(o.enterprise_code.code))),
    )
}

pub open spec fn customer_views(pairs: Seq<(String, CustomerInfo)>) -> Seq<(Seq<Seq<char>>, Seq<char>, Seq<char>)> {
    pairs.map_values(|p: (String, CustomerInfo)| (p.0.key_view(), p.1.name@, p.1.id_number@))
}

fn text_or_new(o: &Option<String>) -> (r: String)
    ensures
        r@ == text_or_empty(opt_view(*o)),
{
    match o {
        Some(s) => s.clone(),
        None => String::new(),
    }
}

/// The bank of every account, keyed by (customer key, account number).
pub fn bank_index(accounts: &JoinIndex<String, Account>) -> (r: JoinIndex<(String, String), Bank>)
    ensures
        exists|bp| #[trigger] r.represents(bp) && keyed_values(bp) == bank_entries(accounts.groups@),
{
    let mut pairs: Vec<((String, String), Bank)> = Vec::new();
    let mut g: usize = 0;
    while g < accounts.groups.len()
        invariant
            g <= accounts.groups@.len(),
            keyed_values(pairs@) == bank_entries(accounts.groups@.subrange(0, g as int)),
        decreases accounts.groups@.len() - g,
    {
        let ghost before = pairs@;
        let ghost grp = accounts.groups@[g as int];
        let mut k: usize = 0;
        while k < accounts.groups[g].1.len()
            invariant
                g < accounts.groups@.len(),
                grp == accounts.groups@[g as int],
                k <= grp.1@.len(),
                keyed_values(pairs@) == keyed_values(before) + grp.1@.subrange(0, k as int).map_values(
                    |a: Account| (seq![grp.0@, text_or_empty(opt_view(a.account_number))], a.bank),
                ),
            decreases grp.1@.len() - k,
        {
            let a = &accounts.groups[g].1[k];
            let key = (accounts.groups[g].0.clone(), text_or_new(&a.account_number));
            let ghost prev = pairs@;
            let ghost f = |a: Account| (seq![grp.0@, text_or_empty(opt_view(a.account_number))], a.bank);
            pairs.push((key, a.bank.duplicate()));
            proof {
                assert(keyed_values(pairs@) =~= keyed_values(prev).push(keyed_values(pairs@).last()));
                assert(keyed_values(pairs@).last().0 =~= f(grp.1@[k as int]).0);
                assert(grp.1@.subrange(0, k + 1).map_values(f) =~= grp.1@.subrange(0, k as int).map_values(f).push(f(grp.1@[k as int])));
                assert(keyed_values(pairs@) =~= keyed_values(before) + grp.1@.subrange(0, k + 1).map_values(f));
            }
            k = k + 1;
        }
        assert(grp.1@.subrange(0, k as int) =~= grp.1@);
        assert(accounts.groups@.subrange(0, g + 1).drop_last() =~= accounts.groups@.subrange(0, g as int));
        g = g + 1;
    }
    assert(accounts.groups@.subrange(0, accounts.groups@.len() as int) =~= accounts.groups@);
    let ghost pv = pairs@;
    let r = group_by_key(pairs);
    assert(r.represents(pv));
    r
}

/// The name and identification number of every customer, keyed by customer
/// key; a later customer of the same key overrides an earlier one.
pub fn customer_index(individuals: &Vec<Individual>, organizations: &Vec<Organization>) -> (r: JoinIndex<String, CustomerInfo>)
    ensures
        exists|cp| #[trigger] r.represents(cp) && customer_views(cp) == customer_entries(individuals@, organizations@),
{
    let mut pairs: Vec<(String, CustomerInfo)> = Vec::new();
    let mut i: usize = 0;
    while i < individuals.len()
        invariant
            i <= individuals@.len(),
            customer_views(pairs@) == customer_entries(individuals@.subrange(0, i as int), Seq::empty()),
        decreases individuals@.len() - i,
    {
        let p = &individuals[i];
        let ghost prev = pairs@;
        pairs.push((p.id.clone(), CustomerInfo { name: text_or_new(&p.full_name), id_number: text_or_new(&p.identification.id_number) }));
        proof {
            let f = |p: Individual| (seq![p.id@], text_or_empty(opt_view(p.full_name)), text_or_empty(opt_view(p.identification.id_number)));
            let g = |o: Organization| (seq![o.id@], text_or_empty(opt_view(o.name)), text_or_empty(opt_view(o.enterprise_code.code)));
            assert(customer_views(pairs@) =~= customer_views(prev).push(customer_views(pairs@).last()));
            assert(customer_views(pairs@).last().0 =~= f(individuals@[i as int]).0);
            assert(individuals@.subrange(0, i + 1).map_values(f) =~= individuals@.subrange(0, i as int).map_values(f).push(f(individuals@[i as int])));
            assert(Seq::<Organization>::empty().map_values(g) =~= Seq::empty());
            assert(customer_entries(individuals@.subrange(0, i as int), Seq::empty()) =~= individuals@.subrange(0, i as int).map_values(f));
            assert(customer_entries(individuals@.subrange(0, i + 1), Seq::empty()) =~= individuals@.subrange(0, i + 1).map_values(f));
            assert(customer_views(pairs@) =~= customer_entries(individuals@.subrange(0, i + 1), Seq::empty()));
        }
        i = i + 1;
    }
    assert(individuals@.subrange(0, individuals@.len() as int) =~= individuals@);
    let mut j: usize = 0;
    while j < organizations.len()
        invariant
            j <= organizations@.len(),
            customer_views(pairs@) == customer_entries(individuals@, organizations@.subrange(0, j as int)),
        decreases organizations@.len() - j,
    {
        let o = &organizations[j];
        let ghost prev = pairs@;
        pairs.push((o.id.clone(), CustomerInfo { name: text_or_new(&o.name), id_number: text_or_new(&o.enterprise_code.code) }));
        proof {
            let f = |p: Individual| (seq![p.id@], text_or_empty(opt_view(p.full_name)), text_or_empty(opt_view(p.identification.id_number)));
            let g = |o: Organization| (seq![o.id@], text_or_empty(opt_view(o.name)), text_or_empty(opt_view(o.enterprise_code.code)));
            assert(customer_views(pairs@) =~= customer_views(prev).push(customer_views(pairs@).last()));
            assert(customer_views(pairs@).last().0 =~= g(organizations@[j as int]).0);
            assert(organizations@.subrange(0, j + 1).map_values(g) =~= organizations@.subrange(0, j as int).map_values(g).push(g(organizations@[j as int])));
            assert(customer_entries(individuals@, organizations@.subrange(0, j + 1)) =~= customer_entries(individuals@, organizations@.subrange(0, j as int)).push(g(organizations@[j as int])));
            assert(customer_views(pairs@) =~= customer_entries(individuals@, organizations@.subrange(0, j + 1)));
        }
        j = j + 1;
    }
    assert(organizations@.subrange(0, organizations@.len() as int) =~= organizations@);
    let ghost pv = pairs@;
    let r = group_by_key(pairs);
    assert(r.represents(pv));
    r
}

/// What reading the ledger table configured under `key` gives.
pub open spec fn ledger_from_excel(
    template: Template,
    workbook: Workbook,
    key: Seq<char>,
    r: Result<JoinIndex<(String, String), FlowEntry>, ExtractError>,
) -> bool {
    table_then(template, workbook, key, r, |tr: TableRows, r| keyed_rows_read::<(String, String), FlowEntry>(tr, r))
}

/// Reads the ledger table configured under `key`, grouped by (customer key,
/// account number).
pub fn ledger_from_table(template: &Template, workbook: &Workbook, key: &str) -> (r: Result<JoinIndex<(String, String), FlowEntry>, ExtractError>)
    ensures
        ledger_from_excel(*template, *workbook, key@, r),
{
    let rt = read_table_from_sheet(template, workbook, key);
    let ghost rt_view = rt;
    let r = match rt {
        Ok(tr) => index_rows::<(String, String), FlowEntry>(&tr),
        Err(e) => Err(e),
    };
    proof {
        lemma_table_then(*template, *workbook, key@, rt_view, r, |tr: TableRows, r| keyed_rows_read::<(String, String), FlowEntry>(tr, r));
    }
    r
}

/// `r` is the money flows once the accounts, customers and ledgers have been
/// read as `ra`, `ri`, `ro`, `rin` and `rout`.
pub open spec fn flows_after(
    ra: Result<JoinIndex<String, Account>, ExtractError>,
    ri: Result<Vec<Individual>, ExtractError>,
    ro: Result<Vec<Organization>, ExtractError>,
    rin: Result<JoinIndex<(String, String), FlowEntry>, ExtractError>,
    rout: Result<JoinIndex<(String, String), FlowEntry>, ExtractError>,
    r: Result<Vec<MoneyFlow>, ExtractError>,
) -> bool {
    match (ra, ri, ro, rin, rout) {
        (Ok(a), Ok(i), Ok(o), Ok(fin), Ok(fout)) => r is Ok && exists|banks: JoinIndex<(String, String), Bank>, customers: JoinIndex<String, CustomerInfo>|
            (exists|bp| #[trigger] banks.represents(bp) && keyed_values(bp) == bank_entries(a.groups@))
                && (exists|cp| #[trigger] customers.represents(cp) && customer_views(cp) == customer_entries(i@, o@))
                && #[trigger] aggregated(fin, fout, banks, customers, r->Ok_0@),
        _ => r is Err,
    }
}

/// What reading the money flows gives: the accounts, the customers and both
/// ledgers are read, then aggregated.
pub open spec fn money_flows_from_excel(template: Template, workbook: Workbook, year: int, r: Result<Vec<MoneyFlow>, ExtractError>) -> bool {
    exists|ra, ri, ro, rin, rout|
        accounts_from_excel(template, workbook, ra) && individuals_from_excel(template, workbook, year, ri)
            && organizations_from_excel(template, workbook, ro) && ledger_from_excel(template, workbook, "Phần IV. Ghi Có"@, rin)
            && ledger_from_excel(template, workbook, "Phần IV. Ghi Nợ"@, rout) && #[trigger] flows_after(ra, ri, ro, rin, rout, r)
}

impl MoneyFlow {
    /// Reads the accounts, the customers and the credit and debit ledgers
    /// ("Phần IV. Ghi Có", "Phần IV. Ghi Nợ"), then aggregates one money
    /// flow per (customer key, account number).
    pub fn from_excel(template: &Template, workbook: &Workbook, current_year: i32) -> (r: Result<Vec<MoneyFlow>, ExtractError>)
        ensures
            money_flows_from_excel(*template, *workbook, current_year as int, r),
    {
        let ra = Account::from_excel(template, workbook);
        let ri = Individual::from_excel(template, workbook, current_year);
        let ro = Organization::from_excel(template, workbook);
        let rin = ledger_from_table(template, workbook, "Phần IV. Ghi Có");
        let rout = ledger_from_table(template, workbook, "Phần IV. Ghi Nợ");
        let ghost (ga, gi, go, gin, gout) = (ra, ri, ro, rin, rout);
        let r: Result<Vec<MoneyFlow>, ExtractError> = match (ra, ri, ro, rin, rout) {
            (Ok(a), Ok(i), Ok(o), Ok(fin), Ok(fout)) => {
                let banks = bank_index(&a);
                let customers = customer_index(&i, &o);
                let flows = MoneyFlow::aggregate(&fin, &fout, &banks, &customers);
                assert(aggregated(fin, fout, banks, customers, flows@));
                assert(exists|bp| #[trigger] banks.represents(bp) && keyed_values(bp) == bank_entries(a.groups@));
                assert(exists|cp| #[trigger] customers.represents(cp) && customer_views(cp) == customer_entries(i@, o@));
                let r: Result<Vec<MoneyFlow>, ExtractError> = Ok(flows);
                assert(aggregated(fin, fout, banks, customers, r->Ok_0@));
                assert(flows_after(Ok(a), Ok(i), Ok(o), Ok(fin), Ok(fout), r));
                r
            },
            (Err(e), _, _, _, _) => Err(e),
            (_, Err(e), _, _, _) => Err(e),
            (_, _, Err(e), _, _) => Err(e),
            (_, _, _, Err(e), _) => Err(e),
            (_, _, _, _, Err(e)) => Err(e),
        };
        assert(flows_after(ga, gi, go, gin, gout, r));
        r
    }
}

} // verus!
