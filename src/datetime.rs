//! Date conversion from the dd/mm/yyyy form used in workbooks to ISO form.

use vstd::prelude::*;
use chrono::Datelike;
use std::fmt::Write;
use crate::coord::{decimal, push_decimal};
use crate::error::ExtractError;
use crate::text::{string_of, trim_text, trimmed};
use crate::codes::LabelText;

verus! {

/// The (year, month, day) that chrono reads from a text with the format
/// "%d/%m/%Y", if it reads one.
pub uninterp spec fn parsed_dmy(s: Seq<char>) -> Option<(int, int, int)>;

/// The text that chrono makes of a date read with format `from` and written
/// with format `to`, if it reads one and can write it.
pub uninterp spec fn reformatted_date(s: Seq<char>, from: Seq<char>, to: Seq<char>) -> Option<Seq<char>>;

/// Relies on chrono's `NaiveDate::parse_from_str` with format "%d/%m/%Y", and
/// on `Datelike`'s month (1..=12) and day (1..=31).
#[verifier::external_body]
fn parse_dmy(s: &str) -> (r: Option<(i32, u32, u32)>)
    ensures
        match r {
            Some(t) => parsed_dmy(s@) == Some((t.0 as int, t.1 as int, t.2 as int)) && 1 <= t.1 <= 12 && 1
                <= t.2 <= 31,
            None => parsed_dmy(s@) is None,
        },
{
    match chrono::NaiveDate::parse_from_str(s, "%d/%m/%Y") {
        Ok(d) => Some((d.year(), d.month(), d.day())),
        Err(_) => None,
    }
}

/// Relies on chrono's `NaiveDate::parse_from_str` and `NaiveDate::format`:
/// reads a date with format `from` and writes it with format `to`.
#[verifier::external_body]
fn reformat_date(s: &str, from: &str, to: &str) -> (r: Option<String>)
    ensures
        match r {
            Some(t) => reformatted_date(s@, from@, to@) == Some(t@),
            None => reformatted_date(s@, from@, to@) is None,
        },
{
    match chrono::NaiveDate::parse_from_str(s, from) {
        Ok(d) => {
            let mut out = String::new();
            match write!(out, "{}", d.format(to)) {
                Ok(()) => Some(out),
                Err(_) => None,
            }
        },
        Err(_) => None,
    }
}

/// Relies on chrono's `Utc::now` and `Datelike::year`: the current year.
#[verifier::external_body]
fn current_year() -> (r: i32) {
    chrono::Utc::now().year()
}

/// A number written with at least two digits.
pub open spec fn two_digits(n: nat) -> Seq<char> {
    if n < 10 {
        seq!['0'] + decimal(n)
    } else {
        decimal(n)
    }
}

/// The ISO form yyyy-mm-dd of a date.
pub open spec fn iso_date(y: nat, m: nat, d: nat) -> Seq<char> {
    decimal(y) + seq!['-'] + two_digits(m) + seq!['-'] + two_digits(d)
}

/// What converting a dd/mm/yyyy text gives: `Ok(iso)` for a date of the years
/// 1900..=2099, and a format failure otherwise.
pub open spec fn vn_to_iso(s: Seq<char>, r: Result<Option<String>, ExtractError>) -> bool {
    iso_from(s, parsed_dmy(trimmed(s)), r)
}

/// What a date text `s` read as `parsed` gives: its ISO form for a year in
/// 1900..=2099, otherwise a format failure naming the text.
pub open spec fn iso_from(s: Seq<char>, parsed: Option<(int, int, int)>, r: Result<Option<String>, ExtractError>) -> bool {
    match parsed {
        Some((y, m, d)) => if 1900 <= y <= 2099 {
            r is Ok && r->Ok_0 is Some && r->Ok_0->Some_0@ == iso_date(y as nat, m as nat, d as nat)
        } else {
            r matches Err(ExtractError::InvalidDateFormat { value }) && value@ == s
        },
        None => r matches Err(ExtractError::InvalidDateFormat { value }) && value@ == s,
    }
}

/// The ISO form of the date text `s`, given the (year, month, day) read from
/// it, or `None` when it holds no date.
pub fn iso_from_parts(s: &str, parsed: Option<(i32, u32, u32)>) -> (r: Result<Option<String>, ExtractError>)
    ensures
        iso_from(
            s@,
            match parsed {
                Some(t) => Some((t.0 as int, t.1 as int, t.2 as int)),
                None => None,
            },
            r,
        ),
{
    match parsed {
        None => Err(ExtractError::InvalidDateFormat { value: s.to_string() }),
        Some((y, m, d)) => {
            if y < 1900 || y > 2099 {
                return Err(ExtractError::InvalidDateFormat { value: s.to_string() });
            }
            let mut out: Vec<char> = Vec::new();
            push_decimal(y as u64, &mut out);
            out.push('-');
            push_two_digits(m, &mut out);
            out.push('-');
            push_two_digits(d, &mut out);
            assert(out@ =~= iso_date(y as nat, m as nat, d as nat));
            Ok(Some(string_of(out.as_slice())))
        },
    }
}

fn push_two_digits(n: u32, out: &mut Vec<char>)
    ensures
        final(out)@ == old(out)@ + two_digits(n as nat),
{
    if n < 10 {
        out.push('0');
    }
    let ghost mid = out@;
    push_decimal(n as u64, out);
    assert(final(out)@ =~= old(out)@ + two_digits(n as nat));
}

/// Converts a dd/mm/yyyy date to yyyy-mm-dd; surrounding white space is ignored.
pub fn convert_date_vn_to_iso(s: &str) -> (r: Result<Option<String>, ExtractError>)
    ensures
        vn_to_iso(s@, r),
{
    let t = trim_text(s);
    iso_from_parts(s, parse_dmy(t.as_str()))
}

/// Reads a date written with format `from` (white space around it ignored)
/// and writes it with format `to`.
pub fn convert_date_format(s: &str, from_format: &str, to_format: &str) -> (r: Result<
    Option<String>,
    ExtractError,
>)
    ensures
        match reformatted_date(trimmed(s@), from_format@, to_format@) {
            Some(t) => r is Ok && r->Ok_0 is Some && r->Ok_0->Some_0@ == t,
            None => r matches Err(ExtractError::InvalidDateFormat { value }) && value@ == s@,
        },
{
    let t = trim_text(s);
    match reformat_date(t.as_str(), from_format, to_format) {
        Some(v) => Ok(Some(v)),
        None => Err(ExtractError::InvalidDateFormat { value: s.to_string() }),
    }
}

/// The age-range code of someone born in `birth_year`, in `current_year`:
/// under 20 is "1", then one code per decade up to "5" from 50 on; `None`
/// for a birth year after the current one.
pub open spec fn age_range(birth_year: int, current_year: int) -> Option<Seq<char>> {
    let age = current_year - birth_year;
    if age < 0 {
        None
    } else if age < 20 {
        Some(seq!['1'])
    } else if age < 30 {
        Some(seq!['2'])
    } else if age < 40 {
        Some(seq!['3'])
    } else if age < 50 {
        Some(seq!['4'])
    } else {
        Some(seq!['5'])
    }
}

/// The age-range code of a dd/mm/yyyy birth date in the given year; `None`
/// when the text is no such date.
pub fn age_range_code(dob: &str, current_year: i32) -> (r: Option<String>)
    ensures
        match parsed_dmy(trimmed(dob@)) {
            Some((y, _, _)) => match age_range(y, current_year as int) {
                Some(c) => r is Some && r->Some_0@ == c,
                None => r is None,
            },
            None => r is None,
        },
{
    let t = trim_text(dob);
    match parse_dmy(t.as_str()) {
        None => None,
        Some((y, _, _)) => {
            let age: i64 = current_year as i64 - y as i64;
            let c = if age < 0 {
                return None;
            } else if age < 20 {
                '1'
            } else if age < 30 {
                '2'
            } else if age < 40 {
                '3'
            } else if age < 50 {
                '4'
            } else {
                '5'
            };
            let v = vec![c];
            assert(v@ =~= seq![c]);
            Some(string_of(v.as_slice()))
        },
    }
}

/// Date conversions on a text or an absent text; an absent text converts to
/// `None`.
pub trait ConvertDateFormat: LabelText {
    spec fn present(&self) -> bool;

    fn convert_date_format(&self, from_format: &str, to_format: &str) -> (r: Result<Option<String>, ExtractError>)
        ensures
            !self.present() ==> r matches Ok(None),
            self.present() ==> match reformatted_date(trimmed(self.label_view()), from_format@, to_format@) {
                Some(t) => r is Ok && r->Ok_0 is Some && r->Ok_0->Some_0@ == t,
                None => r matches Err(ExtractError::InvalidDateFormat { value }) && value@ == self.label_view(),
            },
    ;

    fn convert_date_vn_to_iso(&self) -> (r: Result<Option<String>, ExtractError>)
        ensures
            !self.present() ==> r matches Ok(None),
            self.present() ==> vn_to_iso(self.label_view(), r),
    ;
}

impl ConvertDateFormat for String {
    open spec fn present(&self) -> bool {
        true
    }

    fn convert_date_format(&self, from_format: &str, to_format: &str) -> (r: Result<Option<String>, ExtractError>) {
        convert_date_format(self.as_str(), from_format, to_format)
    }

    fn convert_date_vn_to_iso(&self) -> (r: Result<Option<String>, ExtractError>) {
        convert_date_vn_to_iso(self.as_str())
    }
}

impl ConvertDateFormat for Option<String> {
    open spec fn present(&self) -> bool {
        self is Some
    }

    fn convert_date_format(&self, from_format: &str, to_format: &str) -> (r: Result<Option<String>, ExtractError>) {
        match self {
            Some(s) => convert_date_format(s.as_str(), from_format, to_format),
            None => Ok(None),
        }
    }

    fn convert_date_vn_to_iso(&self) -> (r: Result<Option<String>, ExtractError>) {
        match self {
            Some(s) => convert_date_vn_to_iso(s.as_str()),
            None => Ok(None),
        }
    }
}

/// The age range of a birth date in the current year.
pub trait AgeRangeCode: LabelText {
    fn to_age_range_code(&self) -> (r: Option<String>)
        ensures
            parsed_dmy(trimmed(self.label_view())) is None ==> r is None,
            r is Some ==> r->Some_0@.len() == 1 && '1' <= r->Some_0@[0] <= '5',
    ;
}

impl<T: LabelText> AgeRangeCode for T {
    fn to_age_range_code(&self) -> (r: Option<String>) {
        let dob = self.label();
        age_range_code(dob, current_year())
    }
}

} // verus!
