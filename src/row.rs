//! Reading the fields of one table row, and the row and section context
//! that failures carry.

use vstd::prelude::*;
use crate::datetime::{convert_date_vn_to_iso, iso_date, parsed_dmy};
use crate::error::ExtractError;
use crate::table::{get_cell_value, spec_cell_value, TableRows};
use crate::join::{group_by_key, JoinIndex, JoinKey};
use crate::text::{trimmed, trim_text, string_of, chars_of};

verus! {

/// One data row of a table together with its column map and origin.
pub struct RowCtx<'a> {
    pub columns: &'a Vec<(String, String)>,
    pub start: (u32, u32),
    pub row: &'a Vec<String>,
}

/// The view of an optional text.
pub open spec fn opt_view(o: Option<String>) -> Option<Seq<char>> {
    match o {
        Some(s) => Some(s@),
        None => None,
    }
}

/// The text of an optional text, empty when absent.
pub open spec fn text_or_empty(o: Option<Seq<char>>) -> Seq<char> {
    match o {
        Some(s) => s,
        None => Seq::empty(),
    }
}

impl<'a> RowCtx<'a> {
    /// The named column can be read in this row.
    pub open spec fn readable(self, name: Seq<char>) -> bool {
        spec_cell_value(name, self.columns@, self.start, self.row@) is Some
    }

    /// The non-empty text of the named column, if any.
    pub open spec fn field(self, name: Seq<char>) -> Option<Seq<char>> {
        match spec_cell_value(name, self.columns@, self.start, self.row@) {
            Some(v) => v,
            None => None,
        }
    }

    /// The text of the named column, empty when the cell is.
    pub open spec fn text(self, name: Seq<char>) -> Seq<char> {
        text_or_empty(self.field(name))
    }

    /// Reads the named column.
    pub fn get(&self, name: &str) -> (r: Result<Option<String>, ExtractError>)
        ensures
            self.readable(name@) ==> r is Ok && opt_view(r->Ok_0) == self.field(name@),
            !self.readable(name@) ==> r is Err,
    {
        get_cell_value(name, self.columns, self.start, self.row)
    }

    /// Reads the named column, an empty cell as the empty text.
    pub fn get_text(&self, name: &str) -> (r: Result<String, ExtractError>)
        ensures
            self.readable(name@) ==> r is Ok && r->Ok_0@ == self.text(name@),
            !self.readable(name@) ==> r is Err,
    {
        match self.get(name)? {
            Some(s) => Ok(s),
            None => Ok(String::new()),
        }
    }
}

/// What a dd/mm/yyyy field converts to: `Some(None)` when it is empty,
/// `Some(Some(iso))` for a date of 1900..=2099, `None` when it fails.
pub open spec fn date_field(f: Option<Seq<char>>) -> Option<Option<Seq<char>>> {
    match f {
        None => Some(None),
        Some(t) => match parsed_dmy(trimmed(t)) {
            Some((y, m, d)) => if 1900 <= y <= 2099 {
                Some(Some(iso_date(y as nat, m as nat, d as nat)))
            } else {
                None
            },
            None => None,
        },
    }
}

/// Converts an optional dd/mm/yyyy field.
pub fn date_of(f: &Option<String>) -> (r: Result<Option<String>, ExtractError>)
    ensures
        match date_field(opt_view(*f)) {
            Some(v) => r is Ok && opt_view(r->Ok_0) == v,
            None => r is Err,
        },
{
    match f {
        Some(s) => convert_date_vn_to_iso(s.as_str()),
        None => Ok(None),
    }
}

/// The text before the first '-', trimmed ("970436 - Vietcombank" gives
/// "970436").
pub open spec fn code_part(s: Seq<char>) -> Seq<char> {
    trimmed(before_dash(s))
}

pub open spec fn before_dash(s: Seq<char>) -> Seq<char>
    decreases s.len(),
{
    if s.len() == 0 {
        s
    } else if s[0] == '-' {
        Seq::empty()
    } else {
        seq![s[0]] + before_dash(s.drop_first())
    }
}

pub open spec fn opt_code_part(f: Option<Seq<char>>) -> Option<Seq<char>> {
    match f {
        Some(t) => Some(code_part(t)),
        None => None,
    }
}

/// The code part of an optional "code - name" text.
pub fn code_part_of(f: &Option<String>) -> (r: Option<String>)
    ensures
        opt_view(r) == opt_code_part(opt_view(*f)),
{
    match f {
        None => None,
        Some(s) => {
            let v = chars_of(s.as_str());
            let mut out: Vec<char> = Vec::new();
            let mut i: usize = 0;
            assert(v@.subrange(0, v@.len() as int) =~= v@);
            assert(out@ + before_dash(v@) =~= before_dash(v@));
            while i < v.len() && v[i] != '-'
                invariant
                    v@ == s@,
                    i <= v@.len(),
                    out@ == v@.subrange(0, i as int),
                    forall|k: int| 0 <= k < i ==> v@[k] != '-',
                    before_dash(v@) == out@ + before_dash(v@.subrange(i as int, v@.len() as int)),
                decreases v@.len() - i,
            {
                let ghost rest = v@.subrange(i as int, v@.len() as int);
                assert(rest.drop_first() =~= v@.subrange(i + 1, v@.len() as int));
                assert(rest[0] == v@[i as int]);
                let ghost prev = out@;
                assert(before_dash(rest) == seq![rest[0]] + before_dash(rest.drop_first()));
                out.push(v[i]);
                assert(out@ + before_dash(v@.subrange(i + 1, v@.len() as int)) =~= prev + before_dash(rest));
                i = i + 1;
            }
            proof {
                let rest = v@.subrange(i as int, v@.len() as int);
                if i < v@.len() {
                    assert(rest[0] == '-');
                }
                assert(before_dash(rest) =~= Seq::<char>::empty());
                assert(before_dash(v@) =~= out@);
            }
            let p = string_of(out.as_slice());
            Some(trim_text(p.as_str()))
        },
    }
}

/// Marks a failure with the 1-based number of the data row it came from.
pub fn in_row(row: usize, e: ExtractError) -> (r: ExtractError)
    ensures
        r matches ExtractError::Row { row: n, source } && n == row && *source == e,
{
    ExtractError::Row { row, source: Box::new(e) }
}

/// Marks a failure with the name of the section it came from.
pub fn in_section(name: &str, e: ExtractError) -> (r: ExtractError)
    ensures
        r matches ExtractError::Section { name: n, source } && n@ == name@ && *source == e,
{
    ExtractError::Section { name: name.to_string(), source: Box::new(e) }
}


/// A record read from one table row together with the key it is joined on.
pub trait KeyedRow<K: JoinKey>: Sized {
    /// Every field of row `c` can be read and converted.
    spec fn row_ok(c: RowCtx) -> bool;

    /// `key` and `v` are the key and the record that row `c` holds.
    spec fn row_is(c: RowCtx, key: Seq<Seq<char>>, v: Self) -> bool;

    fn from_row(c: &RowCtx) -> (r: Result<(K, Self), ExtractError>)
        ensures
            Self::row_ok(*c) ==> r is Ok && Self::row_is(*c, r->Ok_0.0.key_view(), r->Ok_0.1),
            !Self::row_ok(*c) ==> r is Err,
    ;
}

/// `r` is a failure marked with the 1-based number `k + 1` of row `k`.
pub open spec fn row_error_at<T>(r: Result<T, ExtractError>, k: int) -> bool {
    r matches Err(ExtractError::Row { row, .. }) && row == k + 1
}

/// `r` is the failure of the first of `n` rows for which `ok` does not hold,
/// marked with that row's 1-based number.
pub open spec fn failed_at_first_bad_row<T>(n: int, ok: spec_fn(int) -> bool, r: Result<T, ExtractError>) -> bool {
    exists|k: int| 0 <= k < n && !ok(k) && (forall|j: int| 0 <= j < k ==> #[trigger] ok(j)) && #[trigger] row_error_at(r, k)
}

/// The row of a table at position `i`.
pub open spec fn row_at(tr: &TableRows, i: int) -> RowCtx {
    RowCtx { columns: &tr.columns, start: tr.start, row: &tr.rows@[i] }
}

/// `r` holds the records of every row of `tr`, grouped by key, when every row
/// can be read, and is a failure otherwise.
pub open spec fn keyed_rows_read<K: JoinKey, T: KeyedRow<K>>(tr: TableRows, r: Result<JoinIndex<K, T>, ExtractError>) -> bool {
    &&& (forall|i: int| 0 <= i < tr.rows@.len() ==> #[trigger] T::row_ok(row_at(&tr, i))) ==> r is Ok
        && exists|pairs: Seq<(K, T)>| #[trigger] r->Ok_0.represents(pairs) && pairs.len() == tr.rows@.len()
            && forall|i: int| 0 <= i < pairs.len() ==> T::row_is(row_at(&tr, i), (#[trigger] pairs[i]).0.key_view(), pairs[i].1)
    &&& !(forall|i: int| 0 <= i < tr.rows@.len() ==> #[trigger] T::row_ok(row_at(&tr, i))) ==> failed_at_first_bad_row(
        tr.rows@.len() as int,
        |i: int| T::row_ok(row_at(&tr, i)),
        r,
    )
}

/// Reads every row of a table and groups the records by key; a failing row
/// stops the reading with its 1-based number.
pub fn index_rows<K: JoinKey, T: KeyedRow<K>>(tr: &TableRows) -> (r: Result<JoinIndex<K, T>, ExtractError>)
    ensures
        keyed_rows_read(*tr, r),
{
    let mut pairs: Vec<(K, T)> = Vec::new();
    let mut i: usize = 0;
    while i < tr.rows.len()
        invariant
            i <= tr.rows@.len(),
            pairs@.len() == i,
            forall|k: int| 0 <= k < i ==> #[trigger] T::row_ok(row_at(tr, k)),
            forall|k: int| 0 <= k < i ==> T::row_is(row_at(tr, k), (#[trigger] pairs@[k]).0.key_view(), pairs@[k].1),
        decreases tr.rows@.len() - i,
    {
        let c = RowCtx { columns: &tr.columns, start: tr.start, row: &tr.rows[i] };
        assert(c == row_at(tr, i as int));
        match T::from_row(&c) {
            Ok(p) => pairs.push(p),
            Err(e) => {
                let r = Err(in_row(i + 1, e));
                assert(row_error_at(r, i as int));
                assert(failed_at_first_bad_row(tr.rows@.len() as int, |k: int| T::row_ok(row_at(tr, k)), r));
                return r;
            },
        }
        i = i + 1;
    }
    let ghost pv = pairs@;
    let index = group_by_key(pairs);
    assert(index.represents(pv) && pv.len() == tr.rows@.len() && forall|k: int|
        0 <= k < pv.len() ==> T::row_is(row_at(tr, k), (#[trigger] pv[k]).0.key_view(), pv[k].1));
    let r: Result<JoinIndex<K, T>, ExtractError> = Ok(index);
    assert(r->Ok_0.represents(pv));
    r
}

} // verus!
