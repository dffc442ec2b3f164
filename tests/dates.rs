use aml::datetime::{age_range_code, iso_from_parts, convert_date_format, convert_date_vn_to_iso, ConvertDateFormat};
use aml::error::ExtractError;

#[test]
fn vietnamese_dates_convert_to_iso() {
    assert_eq!(convert_date_vn_to_iso("05/03/2024").unwrap(), Some("2024-03-05".to_string()));
    assert_eq!(convert_date_vn_to_iso(" 31/12/2099 ").unwrap(), Some("2099-12-31".to_string()));
    assert_eq!(convert_date_vn_to_iso("01/01/1900").unwrap(), Some("1900-01-01".to_string()));
}

#[test]
fn dates_out_of_range_fail() {
    assert!(matches!(convert_date_vn_to_iso("05/03/1850"), Err(ExtractError::InvalidDateFormat { .. })));
    assert!(matches!(convert_date_vn_to_iso("01/01/2100"), Err(ExtractError::InvalidDateFormat { .. })));
}

#[test]
fn wrong_date_formats_fail() {
    assert!(matches!(convert_date_vn_to_iso("2024-03-05"), Err(ExtractError::InvalidDateFormat { .. })));
    assert!(matches!(convert_date_vn_to_iso("31/02/2024"), Err(ExtractError::InvalidDateFormat { .. })));
    assert!(matches!(convert_date_vn_to_iso(""), Err(ExtractError::InvalidDateFormat { .. })));
}

#[test]
fn absent_dates_stay_absent() {
    let none: Option<String> = None;
    assert_eq!(none.convert_date_vn_to_iso().unwrap(), None);
    assert_eq!(Some("05/03/2024".to_string()).convert_date_vn_to_iso().unwrap(), Some("2024-03-05".to_string()));
}

#[test]
fn dates_reformat_between_formats() {
    assert_eq!(convert_date_format("2024-03-05", "%Y-%m-%d", "%d/%m/%Y").unwrap(), Some("05/03/2024".to_string()));
    assert!(convert_date_format("05/03/2024", "%Y-%m-%d", "%d/%m/%Y").is_err());
}

#[test]
fn age_ranges_follow_decades() {
    assert_eq!(age_range_code("01/01/2010", 2025), Some("1".to_string()));
    assert_eq!(age_range_code("01/01/2000", 2025), Some("2".to_string()));
    assert_eq!(age_range_code("01/01/1990", 2025), Some("3".to_string()));
    assert_eq!(age_range_code("01/01/1980", 2025), Some("4".to_string()));
    assert_eq!(age_range_code("01/01/1970", 2025), Some("5".to_string()));
    assert_eq!(age_range_code("01/01/2030", 2025), None);
    assert_eq!(age_range_code("2030", 2025), None);
}

#[test]
fn parsed_dates_are_checked_and_formatted() {
    assert_eq!(iso_from_parts("x", Some((2024, 3, 5))).unwrap(), Some("2024-03-05".to_string()));
    assert_eq!(iso_from_parts("x", Some((1999, 12, 31))).unwrap(), Some("1999-12-31".to_string()));
    assert!(matches!(iso_from_parts("x", Some((1899, 1, 1))), Err(ExtractError::InvalidDateFormat { .. })));
    assert!(matches!(iso_from_parts("x", None), Err(ExtractError::InvalidDateFormat { .. })));
}
