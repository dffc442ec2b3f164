//! Spreadsheet addressing: "A1" notation and zero-based (row, column) pairs
//! relative to a sheet's used-range origin.

use vstd::prelude::*;
use crate::text::{
    ascii_upper, is_ascii_alpha, is_ascii_digit, chars_of, string_of, to_ascii_upper,
};

verus! {

/// The value of one column letter: 'A' (or 'a') is 1, 'Z' is 26.
pub open spec fn letter_value(c: char) -> int {
    (ascii_upper(c) as u32) as int - 64
}

/// The value of one decimal digit.
pub open spec fn digit_value(c: char) -> int {
    (c as u32) as int - 48
}

/// The base-26 value of the letters of `s` ('A' = 1); other characters are skipped.
pub open spec fn letters_value(s: Seq<char>) -> int
    decreases s.len(),
{
    if s.len() == 0 {
        0
    } else if is_ascii_alpha(s.last()) {
        letters_value(s.drop_last()) * 26 + letter_value(s.last())
    } else {
        letters_value(s.drop_last())
    }
}

/// The decimal value of the digits of `s`; other characters are skipped.
pub open spec fn digits_value(s: Seq<char>) -> int
    decreases s.len(),
{
    if s.len() == 0 {
        0
    } else if is_ascii_digit(s.last()) {
        digits_value(s.drop_last()) * 10 + digit_value(s.last())
    } else {
        digits_value(s.drop_last())
    }
}

pub open spec fn all_alphanumeric(s: Seq<char>) -> bool {
    forall|i: int| 0 <= i < s.len() ==> is_ascii_alpha(#[trigger] s[i]) || is_ascii_digit(s[i])
}

pub open spec fn all_alpha(s: Seq<char>) -> bool {
    forall|i: int| 0 <= i < s.len() ==> is_ascii_alpha(#[trigger] s[i])
}

pub open spec fn all_digits(s: Seq<char>) -> bool {
    forall|i: int| 0 <= i < s.len() ==> is_ascii_digit(#[trigger] s[i])
}

/// The (column value, row value) that an address spells, both 1-based, when
/// it is made of at least two ASCII letters and digits and both values lie in
/// 1..=u32::MAX.
pub open spec fn a1_values(s: Seq<char>) -> Option<(int, int)> {
    if s.len() >= 2 && all_alphanumeric(s) && 1 <= letters_value(s) <= u32::MAX && 1 <= digits_value(s)
        <= u32::MAX {
        Some((letters_value(s), digits_value(s)))
    } else {
        None
    }
}

/// The column letters of the 1-based column number `n` (bijective base 26).
pub open spec fn col_letters(n: nat) -> Seq<char>
    decreases n,
{
    if n <= 26 {
        seq![(((n - 1) + 65) as u8) as char]
    } else {
        col_letters(((n - 1) / 26) as nat).push((((n - 1) % 26 + 65) as u8) as char)
    }
}

/// The decimal digits of `n`, without leading zeros.
pub open spec fn decimal(n: nat) -> Seq<char>
    decreases n,
{
    if n < 10 {
        seq![((n + 48) as u8) as char]
    } else {
        decimal(n / 10).push(((n % 10 + 48) as u8) as char)
    }
}

/// A zero-based position inside a sheet, relative to the origin `base` of the
/// sheet's used range.
#[derive(Debug, Clone, Copy)]
pub struct ExcelCoord {
    pub row: u32,
    pub col: u32,
    pub base: (u32, u32),
}

/// Where an address lies relative to `base`, when it is well formed and not
/// above or left of `base`.
pub open spec fn spec_from_relative(base: (u32, u32), s: Seq<char>) -> Option<ExcelCoord> {
    match a1_values(s) {
        Some((c, r)) => if r - base.0 - 1 >= 0 && c - base.1 - 1 >= 0 {
            Some(ExcelCoord { row: (r - base.0 - 1) as u32, col: (c - base.1 - 1) as u32, base })
        } else {
            None
        },
        None => None,
    }
}

impl ExcelCoord {
    /// The absolute letter-number address of this position.
    pub open spec fn spec_to_a1(self) -> Seq<char> {
        col_letters((self.col + self.base.1 + 1) as nat) + decimal((self.row + self.base.0 + 1) as nat)
    }

    pub fn new(row: u32, col: u32) -> (r: Self)
        ensures
            r == (ExcelCoord { row, col, base: (0, 0) }),
    {
        ExcelCoord { row, col, base: (0, 0) }
    }

    /// Reads an absolute "A1" address; `None` when it is malformed.
    pub fn from_a1_style(coord: &str) -> (r: Option<Self>)
        ensures
            r == spec_from_relative((0, 0), coord@),
    {
        Self::from_relative_a1_style((0, 0), coord)
    }

    /// Reads an "A1" address as a position relative to `base`; `None` when it
    /// is malformed or lies above or left of `base`.
    pub fn from_relative_a1_style(base: (u32, u32), relative_coord: &str) -> (r: Option<Self>)
        ensures
            r == spec_from_relative(base, relative_coord@),
    {
        let s = chars_of(relative_coord);
        if s.len() < 2 {
            return None;
        }
        let mut col: u64 = 0;
        let mut row: u64 = 0;
        let mut i: usize = 0;
        while i < s.len()
            invariant
                s@ == relative_coord@,
                i <= s@.len(),
                col == letters_value(s@.subrange(0, i as int)),
                row == digits_value(s@.subrange(0, i as int)),
                col <= u32::MAX,
                row <= u32::MAX,
                all_alphanumeric(s@.subrange(0, i as int)),
            decreases s@.len() - i,
        {
            let c = s[i];
            let ghost pre = s@.subrange(0, i as int);
            let ghost next = s@.subrange(0, i + 1);
            assert(next.drop_last() =~= pre);
            assert(next.last() == c);
            proof {
                lemma_values_nonneg(pre);
            }
            if ('A' <= c && c <= 'Z') || ('a' <= c && c <= 'z') {
                let u = to_ascii_upper(c);
                let v = (u as u32 as u64) - 64;
                col = col * 26 + v;
                if col > 4294967295 {
                    proof {
                        lemma_values_monotone(s@, i as int + 1);
                    }
                    return None;
                }
            } else if '0' <= c && c <= '9' {
                row = row * 10 + ((c as u32 as u64) - 48);
                if row > 4294967295 {
                    proof {
                        lemma_values_monotone(s@, i as int + 1);
                    }
                    return None;
                }
            } else {
                assert(!all_alphanumeric(s@)) by {
                    assert(s@[i as int] == c);
                }
                return None;
            }
            assert(all_alphanumeric(next)) by {
                assert forall|k: int| 0 <= k < next.len() implies is_ascii_alpha(#[trigger] next[k])
                    || is_ascii_digit(next[k]) by {
                    if k < i {
                        assert(next[k] == pre[k]);
                    }
                }
            }
            i = i + 1;
        }
        assert(s@.subrange(0, s@.len() as int) =~= s@);
        if col < 1 || row < 1 {
            return None;
        }
        if row - 1 < base.0 as u64 || col - 1 < base.1 as u64 {
            return None;
        }
        Some(ExcelCoord { row: (row - 1 - base.0 as u64) as u32, col: (col - 1 - base.1 as u64) as u32, base })
    }

    /// The absolute "A1" address of this position.
    pub fn to_a1_style(&self) -> (r: String)
        ensures
            r@ == self.spec_to_a1(),
    {
        let mut out: Vec<char> = Vec::new();
        push_col_letters(self.col as u64 + self.base.1 as u64 + 1, &mut out);
        push_decimal(self.row as u64 + self.base.0 as u64 + 1, &mut out);
        string_of(out.as_slice())
    }

    /// The absolute "A1" address of this position taken relative to `base`
    /// (the position's own origin is not used).
    pub fn to_a1_with_base(&self, base: ExcelCoord) -> (r: String)
        ensures
            r@ == col_letters((self.col + base.col + 1) as nat) + decimal((self.row + base.row + 1) as nat),
    {
        let mut out: Vec<char> = Vec::new();
        push_col_letters(self.col as u64 + base.col as u64 + 1, &mut out);
        push_decimal(self.row as u64 + base.row as u64 + 1, &mut out);
        string_of(out.as_slice())
    }
}

/// The absolute position of a coordinate (its origin added), reduced modulo
/// 2^32 as `u32` addition wraps.
impl From<ExcelCoord> for (u32, u32) {
    fn from(coord: ExcelCoord) -> (u32, u32) {
        (
            ((coord.row as u64 + coord.base.0 as u64) % 4294967296) as u32,
            ((coord.col as u64 + coord.base.1 as u64) % 4294967296) as u32,
        )
    }
}

impl vstd::std_specs::convert::FromSpecImpl<ExcelCoord> for (u32, u32) {
    open spec fn obeys_from_spec() -> bool {
        true
    }

    open spec fn from_spec(coord: ExcelCoord) -> (u32, u32) {
        (
            ((coord.row + coord.base.0) % 4294967296) as u32,
            ((coord.col + coord.base.1) % 4294967296) as u32,
        )
    }
}

/// A position with the origin (0, 0).
impl From<(u32, u32)> for ExcelCoord {
    fn from(p: (u32, u32)) -> ExcelCoord {
        ExcelCoord { row: p.0, col: p.1, base: (0, 0) }
    }
}

impl vstd::std_specs::convert::FromSpecImpl<(u32, u32)> for ExcelCoord {
    open spec fn obeys_from_spec() -> bool {
        true
    }

    open spec fn from_spec(p: (u32, u32)) -> ExcelCoord {
        ExcelCoord { row: p.0, col: p.1, base: (0, 0) }
    }
}

/// Appends the column letters of `n` to `out`.
fn push_col_letters(n: u64, out: &mut Vec<char>)
    requires
        n >= 1,
    ensures
        final(out)@ == old(out)@ + col_letters(n as nat),
    decreases n,
{
    if n > 26 {
        push_col_letters((n - 1) / 26, out);
    }
    let k = ((n - 1) % 26) as u8;
    out.push((k + 65) as char);
    proof {
        if n > 26 {
            assert(col_letters(n as nat) == col_letters(((n - 1) / 26) as nat).push((((n - 1) % 26 + 65) as u8) as char));
        }
    }
    assert(final(out)@ =~= old(out)@ + col_letters(n as nat));
}

/// Appends the decimal digits of `n` to `out`.
pub fn push_decimal(n: u64, out: &mut Vec<char>)
    ensures
        final(out)@ == old(out)@ + decimal(n as nat),
    decreases n,
{
    if n >= 10 {
        push_decimal(n / 10, out);
    }
    let k = (n % 10) as u8;
    out.push((k + 48) as char);
    assert(final(out)@ =~= old(out)@ + decimal(n as nat));
}

proof fn lemma_values_nonneg(s: Seq<char>)
    ensures
        letters_value(s) >= 0,
        digits_value(s) >= 0,
    decreases s.len(),
{
    if s.len() > 0 {
        lemma_values_nonneg(s.drop_last());
    }
}

/// The values of a prefix never exceed those of the whole text.
proof fn lemma_values_monotone(s: Seq<char>, k: int)
    requires
        0 <= k <= s.len(),
    ensures
        letters_value(s.subrange(0, k)) <= letters_value(s),
        digits_value(s.subrange(0, k)) <= digits_value(s),
    decreases s.len() - k,
{
    if k < s.len() {
        lemma_values_monotone(s, k + 1);
        let p = s.subrange(0, k + 1);
        assert(p.drop_last() =~= s.subrange(0, k));
        lemma_values_nonneg(p.drop_last());
    } else {
        assert(s.subrange(0, k) =~= s);
    }
}

/// The index of column letters `col_name` relative to `base`; `None` when a
/// character is not an ASCII letter or the column lies left of `base`.
pub open spec fn spec_col_index(col_name: Seq<char>, base: Option<(u32, u32)>) -> Option<u32> {
    let b: int = match base {
        Some(p) => p.1 as int,
        None => 0,
    };
    if all_alpha(col_name) && letters_value(col_name) <= u32::MAX && letters_value(col_name) - b - 1 >= 0 {
        Some((letters_value(col_name) - b - 1) as u32)
    } else {
        None
    }
}

/// The zero-based index of a column given by its letters, relative to the
/// column of `base` (0 when absent).
pub fn col_name_to_index(col_name: &str, base: Option<(u32, u32)>) -> (r: Option<u32>)
    ensures
        r == spec_col_index(col_name@, base),
{
    let s = chars_of(col_name);
    let mut col: u64 = 0;
    let mut i: usize = 0;
    while i < s.len()
        invariant
            s@ == col_name@,
            i <= s@.len(),
            col == letters_value(s@.subrange(0, i as int)),
            col <= u32::MAX,
            all_alpha(s@.subrange(0, i as int)),
        decreases s@.len() - i,
    {
        let c = s[i];
        let ghost pre = s@.subrange(0, i as int);
        let ghost next = s@.subrange(0, i + 1);
        assert(next.drop_last() =~= pre);
        assert(next.last() == c);
        if ('A' <= c && c <= 'Z') || ('a' <= c && c <= 'z') {
            let u = to_ascii_upper(c);
            col = col * 26 + ((u as u32 as u64) - 64);
            if col > 4294967295 {
                proof {
                    lemma_values_monotone(s@, i as int + 1);
                }
                return None;
            }
        } else {
            assert(!all_alpha(s@)) by {
                assert(s@[i as int] == c);
            }
            return None;
        }
        assert(all_alpha(next)) by {
            assert forall|k: int| 0 <= k < next.len() implies is_ascii_alpha(#[trigger] next[k]) by {
                if k < i {
                    assert(next[k] == pre[k]);
                }
            }
        }
        i = i + 1;
    }
    assert(s@.subrange(0, s@.len() as int) =~= s@);
    let b: u64 = match base {
        Some(p) => p.1 as u64,
        None => 0,
    };
    if col < b + 1 {
        return None;
    }
    Some((col - b - 1) as u32)
}

/// The absolute (row, column) of an "A1" address read relative to `base`.
pub fn from_a1_to_coord(cell_name: &str, base: (u32, u32)) -> (r: Option<(u32, u32)>)
    ensures
        r == match spec_from_relative(base, cell_name@) {
            Some(c) => Some(((c.row + base.0) as u32, (c.col + base.1) as u32)),
            None => None,
        },
{
    match ExcelCoord::from_relative_a1_style(base, cell_name) {
        Some(c) => Some(((c.row as u64 + c.base.0 as u64) as u32, (c.col as u64 + c.base.1 as u64) as u32)),
        None => None,
    }
}


/// An address in normal form: its letters upper-cased.
pub open spec fn upper_letters(s: Seq<char>) -> Seq<char> {
    s.map_values(|c: char| ascii_upper(c))
}

proof fn lemma_col_letters(n: nat)
    requires
        n >= 1,
    ensures
        letters_value(col_letters(n)) == n,
        all_alpha(col_letters(n)),
        col_letters(n).len() >= 1,
    decreases n,
{
    if n <= 26 {
        let c = (((n - 1) + 65) as u8) as char;
        assert(col_letters(n) == seq![c]);
        assert(seq![c].drop_last() =~= Seq::<char>::empty());
        assert(c as u32 == n + 64);
        assert(is_ascii_alpha(c));
        assert(ascii_upper(c) == c);
        assert(letter_value(c) == n);
        assert(seq![c].last() == c);
        assert(letters_value(seq![c].drop_last()) == 0);
        assert(letters_value(seq![c]) == n);
        assert forall|k: int| 0 <= k < seq![c].len() implies is_ascii_alpha(#[trigger] seq![c][k]) by {
            assert(seq![c][k] == c);
        }
    } else {
        let m = ((n - 1) / 26) as nat;
        assert(m >= 1 && m < n) by (nonlinear_arith)
            requires
                m == (n - 1) / 26,
                n > 26,
        ;
        lemma_col_letters(m);
        let c = (((n - 1) % 26 + 65) as u8) as char;
        let s = col_letters(n);
        assert(s == col_letters(m).push(c));
        assert(s.drop_last() =~= col_letters(m));
        assert(m * 26 + (n - 1) % 26 + 1 == n) by (nonlinear_arith)
            requires
                m == (n - 1) / 26,
                n > 26,
        ;
        assert forall|k: int| 0 <= k < s.len() implies is_ascii_alpha(#[trigger] s[k]) by {
            if k < s.len() - 1 {
                assert(s[k] == col_letters(m)[k]);
            }
        }
    }
}

proof fn lemma_decimal(n: nat)
    ensures
        digits_value(decimal(n)) == n,
        all_digits(decimal(n)),
        decimal(n).len() >= 1,
    decreases n,
{
    if n < 10 {
        let c = ((n + 48) as u8) as char;
        assert(decimal(n) == seq![c]);
        assert(seq![c].drop_last() =~= Seq::<char>::empty());
        assert(digits_value(seq![c].drop_last()) == 0);
        assert(seq![c].last() == c);
        assert(is_ascii_digit(c));
        assert(digits_value(seq![c]) == n);
        assert forall|k: int| 0 <= k < seq![c].len() implies is_ascii_digit(#[trigger] seq![c][k]) by {
            assert(seq![c][k] == c);
        }
    } else {
        let m = n / 10;
        lemma_decimal(m);
        let c = ((n % 10 + 48) as u8) as char;
        let s = decimal(n);
        assert(s == decimal(m).push(c));
        assert(s.drop_last() =~= decimal(m));
        assert forall|k: int| 0 <= k < s.len() implies is_ascii_digit(#[trigger] s[k]) by {
            if k < s.len() - 1 {
                assert(s[k] == decimal(m)[k]);
            }
        }
    }
}

proof fn lemma_alpha_no_digits(a: Seq<char>)
    requires
        all_alpha(a),
    ensures
        digits_value(a) == 0,
    decreases a.len(),
{
    if a.len() > 0 {
        assert(all_alpha(a.drop_last())) by {
            assert forall|k: int| 0 <= k < a.drop_last().len() implies is_ascii_alpha(#[trigger] a.drop_last()[k]) by {
                assert(a.drop_last()[k] == a[k]);
            }
        }
        lemma_alpha_no_digits(a.drop_last());
        assert(is_ascii_alpha(a[a.len() - 1]));
    }
}

/// Splitting an address into its letters and its digits.
proof fn lemma_split_values(a: Seq<char>, b: Seq<char>)
    requires
        all_alpha(a),
        all_digits(b),
    ensures
        letters_value(a + b) == letters_value(a),
        digits_value(a + b) == digits_value(b),
        all_alphanumeric(a + b),
    decreases b.len(),
{
    let s = a + b;
    assert forall|k: int| 0 <= k < s.len() implies is_ascii_alpha(#[trigger] s[k]) || is_ascii_digit(s[k]) by {
        if k < a.len() {
            assert(s[k] == a[k]);
        } else {
            assert(s[k] == b[k - a.len()]);
        }
    }
    if b.len() == 0 {
        assert(s =~= a);
        lemma_alpha_no_digits(a);
    } else {
        assert(s.drop_last() =~= a + b.drop_last());
        assert(all_digits(b.drop_last())) by {
            assert forall|k: int| 0 <= k < b.drop_last().len() implies is_ascii_digit(#[trigger] b.drop_last()[k]) by {
                assert(b.drop_last()[k] == b[k]);
            }
        }
        lemma_split_values(a, b.drop_last());
        assert(s.last() == b.last());
        assert(is_ascii_digit(b[b.len() - 1]));
        assert(b.drop_last().push(b.last()) =~= b);
    }
}

proof fn lemma_letters_normalize(s: Seq<char>)
    requires
        s.len() >= 1,
        all_alpha(s),
    ensures
        letters_value(s) >= 1,
        col_letters(letters_value(s) as nat) == upper_letters(s),
    decreases s.len(),
{
    let p = s.drop_last();
    let c = s.last();
    assert(is_ascii_alpha(s[s.len() - 1]));
    let k = letter_value(c);
    assert(1 <= k <= 26);
    assert((((k - 1) + 65) as u8) as char == ascii_upper(c));
    if p.len() == 0 {
        assert(letters_value(p) == 0);
        assert(seq![ascii_upper(c)] =~= upper_letters(s));
    } else {
        assert(all_alpha(p)) by {
            assert forall|i: int| 0 <= i < p.len() implies is_ascii_alpha(#[trigger] p[i]) by {
                assert(p[i] == s[i]);
            }
        }
        lemma_letters_normalize(p);
        let lv = letters_value(p);
        let v = lv * 26 + k;
        assert((v - 1) / 26 == lv && (v - 1) % 26 == k - 1) by (nonlinear_arith)
            requires
                v == lv * 26 + k,
                1 <= k <= 26,
        ;
        assert(upper_letters(s) =~= upper_letters(p).push(ascii_upper(c)));
    }
}

proof fn lemma_digits_at_least_one(s: Seq<char>)
    requires
        s.len() >= 1,
        all_digits(s),
        s[0] != '0',
    ensures
        digits_value(s) >= 1,
    decreases s.len(),
{
    if s.len() > 1 {
        let p = s.drop_last();
        assert(all_digits(p)) by {
            assert forall|i: int| 0 <= i < p.len() implies is_ascii_digit(#[trigger] p[i]) by {
                assert(p[i] == s[i]);
            }
        }
        assert(p[0] == s[0]);
        lemma_digits_at_least_one(p);
        assert(is_ascii_digit(s[s.len() - 1]));
    } else {
        assert(s.drop_last() =~= Seq::<char>::empty());
        assert(digits_value(s.drop_last()) == 0);
        assert(is_ascii_digit(s[0]));
        assert(s.last() == s[0]);
    }
}

proof fn lemma_digits_normalize(s: Seq<char>)
    requires
        s.len() >= 1,
        all_digits(s),
        s[0] != '0' || s.len() == 1,
    ensures
        decimal(digits_value(s) as nat) == s,
    decreases s.len(),
{
    let p = s.drop_last();
    let c = s.last();
    assert(is_ascii_digit(s[s.len() - 1]));
    let d = digit_value(c);
    assert(0 <= d <= 9);
    assert(((d + 48) as u8) as char == c);
    if p.len() == 0 {
        assert(digits_value(p) == 0);
        assert(seq![c] =~= s);
    } else {
        assert(all_digits(p)) by {
            assert forall|i: int| 0 <= i < p.len() implies is_ascii_digit(#[trigger] p[i]) by {
                assert(p[i] == s[i]);
            }
        }
        assert(p[0] == s[0]);
        lemma_digits_at_least_one(p);
        lemma_digits_normalize(p);
        let dv = digits_value(p);
        let v = dv * 10 + d;
        assert(v / 10 == dv && v % 10 == d && v >= 10) by (nonlinear_arith)
            requires
                v == dv * 10 + d,
                0 <= d <= 9,
                dv >= 1,
        ;
        assert(p.push(c) =~= s);
    }
}

/// Writing a position as an address and reading that address back relative
/// to the same origin gives the position again.
pub proof fn lemma_coordinate_round_trip(c: ExcelCoord)
    requires
        c.row + c.base.0 + 1 <= u32::MAX,
        c.col + c.base.1 + 1 <= u32::MAX,
    ensures
        spec_from_relative(c.base, c.spec_to_a1()) == Some(c),
{
    let cn = (c.col + c.base.1 + 1) as nat;
    let rn = (c.row + c.base.0 + 1) as nat;
    lemma_col_letters(cn);
    lemma_decimal(rn);
    lemma_split_values(col_letters(cn), decimal(rn));
}

/// Reading a well-formed address (letters, then digits without a leading
/// zero) and writing the position back gives the address with its letters
/// upper-cased.
pub proof fn lemma_address_round_trip(letters: Seq<char>, digits: Seq<char>)
    requires
        letters.len() >= 1,
        all_alpha(letters),
        digits.len() >= 1,
        all_digits(digits),
        digits[0] != '0',
        letters_value(letters) <= u32::MAX,
        digits_value(digits) <= u32::MAX,
    ensures
        spec_from_relative((0, 0), letters + digits) is Some,
        spec_from_relative((0, 0), letters + digits)->Some_0.spec_to_a1() == upper_letters(letters) + digits,
{
    lemma_split_values(letters, digits);
    lemma_letters_normalize(letters);
    lemma_digits_at_least_one(digits);
    lemma_digits_normalize(digits);
}

} // verus!
