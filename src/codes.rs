//! Controlled vocabularies: fixed ordered lists of (code, label) pairs, and
//! the lookup that turns a free-text label into its code.

use vstd::prelude::*;
use crate::error::ExtractError;
use crate::text::{lower_of, text_eq, to_lower};

verus! {

/// The controlled vocabularies of the report.
#[derive(Clone, Copy, Debug, PartialEq, Eq, Structural)]
pub enum Vocabulary {
    Gender,
    Occupation,
    AccountType,
    AccountStatus,
    DocumentType,
    Currency,
    PersonalId,
    CorporateType,
    Amendment,
}

/// The mathematical view of a list of (code, label) pairs.
pub open spec fn pairs_view(v: Seq<(&str, &str)>) -> Seq<(Seq<char>, Seq<char>)> {
    v.map_values(|p: (&str, &str)| (p.0@, p.1@))
}

/// The code paired with the first label that equals `name` once both are
/// lower-cased, if any.
pub open spec fn lookup_code(v: Seq<(Seq<char>, Seq<char>)>, name: Seq<char>) -> Option<Seq<char>>
    decreases v.len(),
{
    if v.len() == 0 {
        None
    } else if lower_of(v[0].1) == lower_of(name) {
        Some(v[0].0)
    } else {
        lookup_code(v.drop_first(), name)
    }
}

/// No two labels of a vocabulary are equal once lower-cased.
pub open spec fn labels_distinct(v: Seq<(Seq<char>, Seq<char>)>) -> bool {
    forall|i: int, j: int|
        0 <= i < v.len() && 0 <= j < v.len() && i != j ==> lower_of(#[trigger] v[i].1) != lower_of(#[trigger] v[j].1)
}

/// What `translate` yields: the empty label gives the empty code, any other
/// label its code, and `None` stands for an invalid label.
pub open spec fn translation(v: Seq<(Seq<char>, Seq<char>)>, label: Seq<char>) -> Option<Seq<char>> {
    if label.len() == 0 {
        Some(Seq::empty())
    } else {
        lookup_code(v, label)
    }
}

impl Vocabulary {
    pub open spec fn spec_entries(self) -> Seq<(Seq<char>, Seq<char>)> {
        match self {
            Vocabulary::Gender => seq![("male"@, "Nam"@), ("female"@, "Nữ"@), ("other"@, "Khác"@)],
            Vocabulary::Occupation => seq![
                ("1"@, "Công chức/viên chức"@),
                ("2"@, "Học sinh/sinh viên"@),
                ("3"@, "Giáo viên"@),
                ("4"@, "Nội trợ"@),
                ("5"@, "Tiểu thương"@),
                ("6"@, "Kỹ sư"@),
                ("7"@, "Công nhân"@),
                ("8"@, "Nông dân"@),
                ("9"@, "Lao động tự do"@),
                ("10"@, "Nhân viên văn phòng"@),
                ("11"@, "Hưu trí"@),
                ("12"@, "Bác sĩ"@),
                ("999"@, "Khác (tự nhập)"@),
            ],
            Vocabulary::AccountType => seq![
                ("CURRE"@, "TK thanh toán"@),
                ("SAVIN"@, "TK tiết kiệm"@),
                ("TERMD"@, "Tiền gửi có kỳ hạn"@),
                ("INVES"@, "TK đầu tư"@),
                ("SECUR"@, "TK chứng khoán"@),
                ("SUSPE"@, "TK treo"@),
                ("CREDI"@, "TK thẻ tín dụng"@),
                ("LENDI"@, "TK vay"@),
                ("CHECK"@, "TK séc"@),
            ],
            Vocabulary::AccountStatus => seq![
                ("ACTIV"@, "Đang hoạt động"@),
                ("CLOSE"@, "Đã đóng"@),
                ("BLOCK"@, "Bị phong tỏa"@),
                ("IDLES"@, "Không hoạt động/ Ngủ đông"@),
                ("HOLDS"@, "Đang treo"@),
            ],
            Vocabulary::DocumentType => seq![
                ("STM"@, "Bảng kê"@),
                ("FLW"@, "Minh họa dòng tiền"@),
                ("REL"@, "Minh họa mối quan hệ khách hàng"@),
                ("TRX"@, "Chứng từ giao dịch"@),
                ("CIF"@, "Hồ sơ khách hàng"@),
                ("ACC"@, "Hồ sơ mở tài khoản"@),
                ("OTH"@, "Tài liệu khác"@),
            ],
            Vocabulary::Currency => seq![
                ("VND"@, "VND - Việt Nam Đồng"@),
                ("USD"@, "USD - United States Dollar"@),
                ("AUD"@, "AUD - Australian Dollar"@),
                ("CNY"@, "CNY - Yuan Renminbi"@),
                ("EUR"@, "EUR - Euro"@),
                ("GBP"@, "GBP - Pound Sterling (United Kingdom Pound)"@),
                ("JPY"@, "JPY - Yen"@),
                ("KRW"@, "KRW - Republic of Korean Won"@),
                ("SGD"@, "SGD - Singapore Dollar"@),
            ],
            Vocabulary::PersonalId => seq![
                ("101"@, "CMTND"@),
                ("100"@, "CCCD"@),
                ("103"@, "Hộ chiếu"@),
                ("102"@, "Định danh cá nhân"@),
                ("197"@, "Thị thực nhập cảnh"@),
                ("199"@, "Giấy tờ khác"@),
                ("104"@, "Giấy Chứng minh sỹ quan quân đội nhân dân"@),
                ("105"@, "Giấy CMND của Quân nhân chuyên nghiệp"@),
                ("106"@, "Giấy chứng minh CAND"@),
                ("198"@, "Giấy tờ có giá trị đi lại quốc tế/ thẻ cư trú"@),
                ("107"@, "Thẻ căn cước"@),
            ],
            Vocabulary::CorporateType => seq![
                ("1"@, "Công ty TNHH Một thành viên"@),
                ("2"@, "Công ty TNHH Hai thành viên trở lên"@),
                ("3"@, "Công ty cổ phần"@),
                ("4"@, "Công ty hợp danh"@),
                ("5"@, "Doanh nghiệp tư nhân"@),
                ("6"@, "Tổ chức phi lợi nhuận"@),
                ("999"@, "Khác (tự nhập)"@),
            ],
            Vocabulary::Amendment => seq![("0"@, "Không"@), ("1"@, "Bổ sung"@), ("2"@, "Thay thế"@)],
        }
    }

    /// The (code, label) pairs of this vocabulary, in declaration order.
    pub fn entries(&self) -> (r: Vec<(&'static str, &'static str)>)
        ensures
            pairs_view(r@) == self.spec_entries(),
    {
        let r = match self {
            Vocabulary::Gender => vec![("male", "Nam"), ("female", "Nữ"), ("other", "Khác")],
            Vocabulary::Occupation => vec![
                ("1", "Công chức/viên chức"),
                ("2", "Học sinh/sinh viên"),
                ("3", "Giáo viên"),
                ("4", "Nội trợ"),
                ("5", "Tiểu thương"),
                ("6", "Kỹ sư"),
                ("7", "Công nhân"),
                ("8", "Nông dân"),
                ("9", "Lao động tự do"),
                ("10", "Nhân viên văn phòng"),
                ("11", "Hưu trí"),
                ("12", "Bác sĩ"),
                ("999", "Khác (tự nhập)"),
            ],
            Vocabulary::AccountType => vec![
                ("CURRE", "TK thanh toán"),
                ("SAVIN", "TK tiết kiệm"),
                ("TERMD", "Tiền gửi có kỳ hạn"),
                ("INVES", "TK đầu tư"),
                ("SECUR", "TK chứng khoán"),
                ("SUSPE", "TK treo"),
                ("CREDI", "TK thẻ tín dụng"),
                ("LENDI", "TK vay"),
                ("CHECK", "TK séc"),
            ],
            Vocabulary::AccountStatus => vec![
                ("ACTIV", "Đang hoạt động"),
                ("CLOSE", "Đã đóng"),
                ("BLOCK", "Bị phong tỏa"),
                ("IDLES", "Không hoạt động/ Ngủ đông"),
                ("HOLDS", "Đang treo"),
            ],
            Vocabulary::DocumentType => vec![
                ("STM", "Bảng kê"),
                ("FLW", "Minh họa dòng tiền"),
                ("REL", "Minh họa mối quan hệ khách hàng"),
                ("TRX", "Chứng từ giao dịch"),
                ("CIF", "Hồ sơ khách hàng"),
                ("ACC", "Hồ sơ mở tài khoản"),
                ("OTH", "Tài liệu khác"),
            ],
            Vocabulary::Currency => vec![
                ("VND", "VND - Việt Nam Đồng"),
                ("USD", "USD - United States Dollar"),
                ("AUD", "AUD - Australian Dollar"),
                ("CNY", "CNY - Yuan Renminbi"),
                ("EUR", "EUR - Euro"),
                ("GBP", "GBP - Pound Sterling (United Kingdom Pound)"),
                ("JPY", "JPY - Yen"),
                ("KRW", "KRW - Republic of Korean Won"),
                ("SGD", "SGD - Singapore Dollar"),
            ],
            Vocabulary::PersonalId => vec![
                ("101", "CMTND"),
                ("100", "CCCD"),
                ("103", "Hộ chiếu"),
                ("102", "Định danh cá nhân"),
                ("197", "Thị thực nhập cảnh"),
                ("199", "Giấy tờ khác"),
                ("104", "Giấy Chứng minh sỹ quan quân đội nhân dân"),
                ("105", "Giấy CMND của Quân nhân chuyên nghiệp"),
                ("106", "Giấy chứng minh CAND"),
                ("198", "Giấy tờ có giá trị đi lại quốc tế/ thẻ cư trú"),
                ("107", "Thẻ căn cước"),
            ],
            Vocabulary::CorporateType => vec![
                ("1", "Công ty TNHH Một thành viên"),
                ("2", "Công ty TNHH Hai thành viên trở lên"),
                ("3", "Công ty cổ phần"),
                ("4", "Công ty hợp danh"),
                ("5", "Doanh nghiệp tư nhân"),
                ("6", "Tổ chức phi lợi nhuận"),
                ("999", "Khác (tự nhập)"),
            ],
            Vocabulary::Amendment => vec![("0", "Không"), ("1", "Bổ sung"), ("2", "Thay thế")],
        };
        assert(pairs_view(r@) =~= self.spec_entries());
        r
    }
}

/// The code paired with the first label equal to `name` once both are
/// lower-cased; the empty string when no label matches.
pub fn search_for_code(code_list: &[(&str, &str)], name: &str) -> (r: String)
    ensures
        r@ == match lookup_code(pairs_view(code_list@), name@) {
            Some(c) => c,
            None => Seq::empty(),
        },
{
    let found = find_code(code_list, name);
    match found {
        Some(c) => c.to_string(),
        None => String::new(),
    }
}

/// The code paired with the first label equal to `name`, if any.
pub fn find_code<'a>(code_list: &[(&'a str, &'a str)], name: &str) -> (r: Option<&'a str>)
    ensures
        match r {
            Some(c) => lookup_code(pairs_view(code_list@), name@) == Some(c@),
            None => lookup_code(pairs_view(code_list@), name@) is None,
        },
{
    let want = to_lower(name);
    let mut i: usize = 0;
    assert(pairs_view(code_list@).subrange(0, code_list@.len() as int) =~= pairs_view(code_list@));
    while i < code_list.len()
        invariant
            want@ == lower_of(name@),
            i <= code_list@.len(),
            lookup_code(pairs_view(code_list@), name@)
                == lookup_code(pairs_view(code_list@).subrange(i as int, code_list@.len() as int), name@),
        decreases code_list@.len() - i,
    {
        let ghost rest = pairs_view(code_list@).subrange(i as int, code_list@.len() as int);
        assert(rest[0] == (code_list@[i as int].0@, code_list@[i as int].1@));
        let (code, label) = code_list[i];
        let got = to_lower(label);
        if text_eq(got.as_str(), want.as_str()) {
            return Some(code);
        }
        assert(rest.drop_first() =~= pairs_view(code_list@).subrange(i + 1, code_list@.len() as int));
        i = i + 1;
    }
    None
}

/// `r` is what translating `label` in vocabulary `v` must give: its code, or
/// an invalid-code failure that names the vocabulary and the label.
pub open spec fn translated(v: Vocabulary, label: Seq<char>, r: Result<String, ExtractError>) -> bool {
    match translation(v.spec_entries(), label) {
        Some(c) => r is Ok && r->Ok_0@ == c,
        None => r matches Err(ExtractError::InvalidCodeValue { vocabulary, value })
            && vocabulary == v && value@ == label,
    }
}

/// Translates a label of vocabulary `v` into its code; the empty label
/// translates to the empty code, and a label outside the vocabulary fails.
pub fn translate(v: Vocabulary, label: &str) -> (r: Result<String, ExtractError>)
    ensures
        translated(v, label@, r),
{
    if label.unicode_len() == 0 {
        return Ok(String::new());
    }
    let entries = v.entries();
    match find_code(entries.as_slice(), label) {
        Some(c) => Ok(c.to_string()),
        None => Err(ExtractError::InvalidCodeValue { vocabulary: v, value: label.to_string() }),
    }
}


/// A value that stands for a vocabulary label: a text, or an absent text,
/// which stands for the empty label.
pub trait LabelText {
    spec fn label_view(&self) -> Seq<char>;

    fn label(&self) -> (r: &str)
        ensures
            r@ == self.label_view(),
    ;
}

impl LabelText for String {
    open spec fn label_view(&self) -> Seq<char> {
        self@
    }

    fn label(&self) -> (r: &str) {
        self.as_str()
    }
}

impl LabelText for Option<String> {
    open spec fn label_view(&self) -> Seq<char> {
        match self {
            Some(s) => s@,
            None => Seq::empty(),
        }
    }

    fn label(&self) -> (r: &str) {
        match self {
            Some(s) => s.as_str(),
            None => {
                proof {
                    reveal_strlit("");
                }
                ""
            },
        }
    }
}

pub trait GenderCode: LabelText {
    fn to_gender_code(&self) -> (r: Result<String, ExtractError>)
        ensures
            translated(Vocabulary::Gender, self.label_view(), r),
    ;
}

impl<T: LabelText> GenderCode for T {
    fn to_gender_code(&self) -> (r: Result<String, ExtractError>) {
        translate(Vocabulary::Gender, self.label())
    }
}

pub trait OccupationCode: LabelText {
    fn to_occupation_code(&self) -> (r: Result<String, ExtractError>)
        ensures
            translated(Vocabulary::Occupation, self.label_view(), r),
    ;
}

impl<T: LabelText> OccupationCode for T {
    fn to_occupation_code(&self) -> (r: Result<String, ExtractError>) {
        translate(Vocabulary::Occupation, self.label())
    }
}

pub trait AccountTypeCode: LabelText {
    fn to_account_type_code(&self) -> (r: Result<String, ExtractError>)
        ensures
            translated(Vocabulary::AccountType, self.label_view(), r),
    ;
}

impl<T: LabelText> AccountTypeCode for T {
    fn to_account_type_code(&self) -> (r: Result<String, ExtractError>) {
        translate(Vocabulary::AccountType, self.label())
    }
}

pub trait AccountStatusCode: LabelText {
    fn to_account_status_code(&self) -> (r: Result<String, ExtractError>)
        ensures
            translated(Vocabulary::AccountStatus, self.label_view(), r),
    ;
}

impl<T: LabelText> AccountStatusCode for T {
    fn to_account_status_code(&self) -> (r: Result<String, ExtractError>) {
        translate(Vocabulary::AccountStatus, self.label())
    }
}

pub trait CurrencyCode: LabelText {
    fn to_currency_code(&self) -> (r: Result<String, ExtractError>)
        ensures
            translated(Vocabulary::Currency, self.label_view(), r),
    ;
}

impl<T: LabelText> CurrencyCode for T {
    fn to_currency_code(&self) -> (r: Result<String, ExtractError>) {
        translate(Vocabulary::Currency, self.label())
    }
}

pub trait PersonalIdCode: LabelText {
    fn to_personal_id_code(&self) -> (r: Result<String, ExtractError>)
        ensures
            translated(Vocabulary::PersonalId, self.label_view(), r),
    ;
}

impl<T: LabelText> PersonalIdCode for T {
    fn to_personal_id_code(&self) -> (r: Result<String, ExtractError>) {
        translate(Vocabulary::PersonalId, self.label())
    }
}

pub trait CorporateTypeCode: LabelText {
    fn to_corporate_type_code(&self) -> (r: Result<String, ExtractError>)
        ensures
            translated(Vocabulary::CorporateType, self.label_view(), r),
    ;
}

impl<T: LabelText> CorporateTypeCode for T {
    fn to_corporate_type_code(&self) -> (r: Result<String, ExtractError>) {
        translate(Vocabulary::CorporateType, self.label())
    }
}

pub trait AmendmentTypeCode: LabelText {
    fn to_amendment_type_code(&self) -> (r: Result<String, ExtractError>)
        ensures
            translated(Vocabulary::Amendment, self.label_view(), r),
    ;
}

impl<T: LabelText> AmendmentTypeCode for T {
    fn to_amendment_type_code(&self) -> (r: Result<String, ExtractError>) {
        translate(Vocabulary::Amendment, self.label())
    }
}

/// `s` is one of the codes (not labels) of vocabulary `v`, compared exactly.
pub open spec fn is_listed_code(v: Vocabulary, s: Seq<char>) -> bool {
    exists|i: int| 0 <= i < v.spec_entries().len() && #[trigger] v.spec_entries()[i].0 == s
}

/// Whether `s` is exactly one of the codes of vocabulary `v`.
pub fn code_is_listed(v: Vocabulary, s: &str) -> (r: bool)
    ensures
        r == is_listed_code(v, s@),
{
    let entries = v.entries();
    let mut i: usize = 0;
    while i < entries.len()
        invariant
            i <= entries@.len(),
            pairs_view(entries@) == v.spec_entries(),
            forall|j: int| 0 <= j < i ==> v.spec_entries()[j].0 != s@,
        decreases entries@.len() - i,
    {
        let (code, _) = entries[i];
        assert(v.spec_entries()[i as int].0 == code@);
        if text_eq(code, s) {
            return true;
        }
        i = i + 1;
    }
    false
}

pub trait DocumentType: LabelText {
    /// Translates a document-type label into its code.
    fn to_document_type(&self) -> (r: Result<String, ExtractError>)
        ensures
            translated(Vocabulary::DocumentType, self.label_view(), r),
    ;

    /// Accepts a text that is exactly one of the document-type codes.
    fn validate_document_type(&self) -> (r: Result<String, ExtractError>)
        ensures
            is_listed_code(Vocabulary::DocumentType, self.label_view()) ==> r is Ok && r->Ok_0@
                == self.label_view(),
            !is_listed_code(Vocabulary::DocumentType, self.label_view()) ==> (r matches Err(
                ExtractError::InvalidCodeValue { vocabulary, value },
            ) && vocabulary == Vocabulary::DocumentType && value@ == self.label_view()),
    ;
}

impl<T: LabelText> DocumentType for T {
    fn to_document_type(&self) -> (r: Result<String, ExtractError>) {
        translate(Vocabulary::DocumentType, self.label())
    }

    fn validate_document_type(&self) -> (r: Result<String, ExtractError>) {
        let s = self.label();
        if code_is_listed(Vocabulary::DocumentType, s) {
            Ok(s.to_string())
        } else {
            Err(ExtractError::InvalidCodeValue { vocabulary: Vocabulary::DocumentType, value: s.to_string() })
        }
    }
}

/// Looking a name up fails exactly when no label equals it once lower-cased.
pub proof fn lemma_lookup_none(v: Seq<(Seq<char>, Seq<char>)>, name: Seq<char>)
    ensures
        lookup_code(v, name) is None <==> forall|i: int| 0 <= i < v.len() ==> lower_of(#[trigger] v[i].1) != lower_of(name),
    decreases v.len(),
{
    if v.len() > 0 {
        lemma_lookup_none(v.drop_first(), name);
        assert forall|i: int| 0 < i < v.len() implies #[trigger] v[i].1 == v.drop_first()[i - 1].1 by {}
        if lower_of(v[0].1) != lower_of(name) && (forall|i: int|
            0 <= i < v.drop_first().len() ==> lower_of(#[trigger] v.drop_first()[i].1) != lower_of(name)) {
            assert forall|i: int| 0 <= i < v.len() implies lower_of(#[trigger] v[i].1) != lower_of(name) by {
                if i > 0 {
                    assert(v.drop_first()[i - 1].1 == v[i].1);
                }
            }
        }
    }
}

/// With distinct labels, each label looks up the code it is paired with.
pub proof fn lemma_lookup_own_label(v: Seq<(Seq<char>, Seq<char>)>, i: int)
    requires
        labels_distinct(v),
        0 <= i < v.len(),
    ensures
        lookup_code(v, v[i].1) == Some(v[i].0),
    decreases i,
{
    if i > 0 {
        let w = v.drop_first();
        assert(lower_of(v[0].1) != lower_of(v[i].1));
        assert forall|a: int, b: int| 0 <= a < w.len() && 0 <= b < w.len() && a != b implies lower_of(#[trigger] w[a].1)
            != lower_of(#[trigger] w[b].1) by {
            assert(w[a] == v[a + 1] && w[b] == v[b + 1]);
        }
        assert(w[i - 1] == v[i]);
        lemma_lookup_own_label(w, i - 1);
    }
}

/// Every canonical label of a vocabulary whose labels are non-empty and
/// distinct once lower-cased translates to the code it is paired with, and
/// the empty label translates to the empty code.
pub proof fn lemma_translate_canonical_label(v: Seq<(Seq<char>, Seq<char>)>, i: int)
    requires
        labels_distinct(v),
        0 <= i < v.len(),
        v[i].1.len() > 0,
    ensures
        translation(v, v[i].1) == Some(v[i].0),
        translation(v, Seq::empty()) == Some(Seq::<char>::empty()),
{
    lemma_lookup_own_label(v, i);
}

/// A non-empty text that equals no label of the vocabulary once lower-cased
/// has no translation, so `translate` fails on it.
pub proof fn lemma_translate_unknown_label(v: Seq<(Seq<char>, Seq<char>)>, label: Seq<char>)
    requires
        label.len() > 0,
        forall|i: int| 0 <= i < v.len() ==> lower_of(#[trigger] v[i].1) != lower_of(label),
    ensures
        translation(v, label) is None,
{
    lemma_lookup_none(v, label);
}

/// Every vocabulary has non-empty labels.
pub proof fn lemma_vocabulary_labels_non_empty(v: Vocabulary)
    ensures
        forall|i: int| 0 <= i < v.spec_entries().len() ==> (#[trigger] v.spec_entries()[i]).1.len() > 0,
{
    reveal_strlit("Nam");
    reveal_strlit("Nữ");
    reveal_strlit("Khác");
    reveal_strlit("Công chức/viên chức");
    reveal_strlit("Học sinh/sinh viên");
    reveal_strlit("Giáo viên");
    reveal_strlit("Nội trợ");
    reveal_strlit("Tiểu thương");
    reveal_strlit("Kỹ sư");
    reveal_strlit("Công nhân");
    reveal_strlit("Nông dân");
    reveal_strlit("Lao động tự do");
    reveal_strlit("Nhân viên văn phòng");
    reveal_strlit("Hưu trí");
    reveal_strlit("Bác sĩ");
    reveal_strlit("Khác (tự nhập)");
    reveal_strlit("TK thanh toán");
    reveal_strlit("TK tiết kiệm");
    reveal_strlit("Tiền gửi có kỳ hạn");
    reveal_strlit("TK đầu tư");
    reveal_strlit("TK chứng khoán");
    reveal_strlit("TK treo");
    reveal_strlit("TK thẻ tín dụng");
    reveal_strlit("TK vay");
    reveal_strlit("TK séc");
    reveal_strlit("Đang hoạt động");
    reveal_strlit("Đã đóng");
    reveal_strlit("Bị phong tỏa");
    reveal_strlit("Không hoạt động/ Ngủ đông");
    reveal_strlit("Đang treo");
    reveal_strlit("Bảng kê");
    reveal_strlit("Minh họa dòng tiền");
    reveal_strlit("Minh họa mối quan hệ khách hàng");
    reveal_strlit("Chứng từ giao dịch");
    reveal_strlit("Hồ sơ khách hàng");
    reveal_strlit("Hồ sơ mở tài khoản");
    reveal_strlit("Tài liệu khác");
    reveal_strlit("VND - Việt Nam Đồng");
    reveal_strlit("USD - United States Dollar");
    reveal_strlit("AUD - Australian Dollar");
    reveal_strlit("CNY - Yuan Renminbi");
    reveal_strlit("EUR - Euro");
    reveal_strlit("GBP - Pound Sterling (United Kingdom Pound)");
    reveal_strlit("JPY - Yen");
    reveal_strlit("KRW - Republic of Korean Won");
    reveal_strlit("SGD - Singapore Dollar");
    reveal_strlit("CMTND");
    reveal_strlit("CCCD");
    reveal_strlit("Hộ chiếu");
    reveal_strlit("Định danh cá nhân");
    reveal_strlit("Thị thực nhập cảnh");
    reveal_strlit("Giấy tờ khác");
    reveal_strlit("Giấy Chứng minh sỹ quan quân đội nhân dân");
    reveal_strlit("Giấy CMND của Quân nhân chuyên nghiệp");
    reveal_strlit("Giấy chứng minh CAND");
    reveal_strlit("Giấy tờ có giá trị đi lại quốc tế/ thẻ cư trú");
    reveal_strlit("Thẻ căn cước");
    reveal_strlit("Công ty TNHH Một thành viên");
    reveal_strlit("Công ty TNHH Hai thành viên trở lên");
    reveal_strlit("Công ty cổ phần");
    reveal_strlit("Công ty hợp danh");
    reveal_strlit("Doanh nghiệp tư nhân");
    reveal_strlit("Tổ chức phi lợi nhuận");
    reveal_strlit("Không");
    reveal_strlit("Bổ sung");
    reveal_strlit("Thay thế");
}

/// In a vocabulary whose labels stay distinct once lower-cased, every
/// canonical label translates to the code it is paired with, and the empty
/// label to the empty code.
pub proof fn lemma_translate_vocabulary_label(v: Vocabulary, i: int)
    requires
        labels_distinct(v.spec_entries()),
        0 <= i < v.spec_entries().len(),
    ensures
        translation(v.spec_entries(), v.spec_entries()[i].1) == Some(v.spec_entries()[i].0),
        translation(v.spec_entries(), Seq::empty()) == Some(Seq::<char>::empty()),
{
    lemma_vocabulary_labels_non_empty(v);
    lemma_translate_canonical_label(v.spec_entries(), i);
}

/// Account status codes looked up without the empty-label rule: `None` for
/// a text that is no label.
pub trait BankAccountStatusCode: LabelText {
    fn to_bank_account_status_code(&self) -> (r: Option<&'static str>)
        ensures
            match r {
                Some(c) => lookup_code(Vocabulary::AccountStatus.spec_entries(), self.label_view()) == Some(c@),
                None => lookup_code(Vocabulary::AccountStatus.spec_entries(), self.label_view()) is None,
            },
    ;

    fn to_bank_account_status_code_owned(&self) -> (r: String)
        ensures
            r@ == match lookup_code(Vocabulary::AccountStatus.spec_entries(), self.label_view()) {
                Some(c) => c,
                None => Seq::empty(),
            },
    ;
}

impl<T: LabelText> BankAccountStatusCode for T {
    fn to_bank_account_status_code(&self) -> (r: Option<&'static str>) {
        let entries = Vocabulary::AccountStatus.entries();
        find_code(entries.as_slice(), self.label())
    }

    fn to_bank_account_status_code_owned(&self) -> (r: String) {
        match self.to_bank_account_status_code() {
            Some(c) => c.to_string(),
            None => String::new(),
        }
    }
}

/// Account type codes looked up without the empty-label rule: `None` for a
/// text that is no label.
pub trait BankAccountTypeCode: LabelText {
    fn to_bank_account_type_code(&self) -> (r: Option<&'static str>)
        ensures
            match r {
                Some(c) => lookup_code(Vocabulary::AccountType.spec_entries(), self.label_view()) == Some(c@),
                None => lookup_code(Vocabulary::AccountType.spec_entries(), self.label_view()) is None,
            },
    ;

    fn to_bank_account_type_code_owned(&self) -> (r: String)
        ensures
            r@ == match lookup_code(Vocabulary::AccountType.spec_entries(), self.label_view()) {
                Some(c) => c,
                None => Seq::empty(),
            },
    ;
}

impl<T: LabelText> BankAccountTypeCode for T {
    fn to_bank_account_type_code(&self) -> (r: Option<&'static str>) {
        let entries = Vocabulary::AccountType.entries();
        find_code(entries.as_slice(), self.label())
    }

    fn to_bank_account_type_code_owned(&self) -> (r: String) {
        match self.to_bank_account_type_code() {
            Some(c) => c.to_string(),
            None => String::new(),
        }
    }
}

} // verus!
