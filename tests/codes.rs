use aml::codes::{
    BankAccountStatusCode, BankAccountTypeCode,
    search_for_code, translate, AccountStatusCode, AmendmentTypeCode, CurrencyCode, DocumentType, GenderCode,
    OccupationCode, PersonalIdCode, Vocabulary,
};
use aml::error::ExtractError;

const ALL: [Vocabulary; 9] = [
    Vocabulary::Gender,
    Vocabulary::Occupation,
    Vocabulary::AccountType,
    Vocabulary::AccountStatus,
    Vocabulary::DocumentType,
    Vocabulary::Currency,
    Vocabulary::PersonalId,
    Vocabulary::CorporateType,
    Vocabulary::Amendment,
];

#[test]
fn every_canonical_label_translates_to_its_code() {
    for v in ALL {
        for (code, label) in v.entries() {
            assert_eq!(translate(v, label).unwrap(), code, "{:?} {}", v, label);
        }
        assert_eq!(translate(v, "").unwrap(), "");
    }
}

#[test]
fn unknown_labels_are_rejected() {
    for v in ALL {
        match translate(v, "không có trong danh sách") {
            Err(ExtractError::InvalidCodeValue { vocabulary, value }) => {
                assert_eq!(vocabulary, v);
                assert_eq!(value, "không có trong danh sách");
            }
            other => panic!("unexpected {:?}", other),
        }
    }
}

#[test]
fn letter_case_is_ignored() {
    assert_eq!("nam".to_string().to_gender_code().unwrap(), "male");
    assert_eq!("KHÁC".to_string().to_gender_code().unwrap(), "other");
    assert_eq!("NỮ".to_string().to_gender_code().unwrap(), "female");
    assert_eq!("khác".to_string().to_gender_code().unwrap(), "other");
    assert_eq!("tk THANH TOÁN".to_string().to_account_status_code().is_err(), true);
}

#[test]
fn absent_labels_give_empty_codes() {
    let none: Option<String> = None;
    assert_eq!(none.to_gender_code().unwrap(), "");
    assert_eq!(none.to_currency_code().unwrap(), "");
    assert_eq!(Some("USD - United States Dollar".to_string()).to_currency_code().unwrap(), "USD");
    assert_eq!(Some("Hộ chiếu".to_string()).to_personal_id_code().unwrap(), "103");
    assert_eq!("Bác sĩ".to_string().to_occupation_code().unwrap(), "12");
    assert_eq!("Thay thế".to_string().to_amendment_type_code().unwrap(), "2");
    assert!("Sửa".to_string().to_amendment_type_code().is_err());
}

#[test]
fn document_type_codes_are_validated_exactly() {
    assert_eq!("STM".to_string().validate_document_type().unwrap(), "STM");
    assert!("stm".to_string().validate_document_type().is_err());
    assert_eq!("Bảng kê".to_string().to_document_type().unwrap(), "STM");
}

#[test]
fn search_returns_empty_for_no_match() {
    let list = [("a", "Alpha"), ("b", "Beta"), ("c", "alpha")];
    assert_eq!(search_for_code(&list, "ALPHA"), "a");
    assert_eq!(search_for_code(&list, "beta"), "b");
    assert_eq!(search_for_code(&list, "gamma"), "");
}

#[test]
fn bank_account_lookups_return_none_for_unknown_labels() {
    assert_eq!("Đã đóng".to_string().to_bank_account_status_code(), Some("CLOSE"));
    assert_eq!("".to_string().to_bank_account_status_code(), None);
    assert_eq!("khác".to_string().to_bank_account_status_code_owned(), "");
    assert_eq!("tk vay".to_string().to_bank_account_type_code(), Some("LENDI"));
    assert_eq!(Some("TK séc".to_string()).to_bank_account_type_code_owned(), "CHECK");
}
