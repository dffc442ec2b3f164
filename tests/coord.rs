use aml::coord::{col_name_to_index, from_a1_to_coord, ExcelCoord};

#[test]
fn address_round_trip_normalizes() {
    for (input, normal) in [("A1", "A1"), ("BC23", "BC23"), ("bc23", "BC23"), ("z9", "Z9"), ("AA100", "AA100")] {
        let c = ExcelCoord::from_a1_style(input).unwrap();
        assert_eq!(c.to_a1_style(), normal);
    }
}

#[test]
fn addresses_read_as_zero_based_positions() {
    let c = ExcelCoord::from_a1_style("A1").unwrap();
    assert_eq!((c.row, c.col), (0, 0));
    let c = ExcelCoord::from_a1_style("BC23").unwrap();
    assert_eq!((c.row, c.col), (22, 54));
    let c = ExcelCoord::from_a1_style("AA1").unwrap();
    assert_eq!(c.col, 26);
}

#[test]
fn malformed_addresses_are_rejected() {
    assert!(ExcelCoord::from_a1_style("").is_none());
    assert!(ExcelCoord::from_a1_style("A").is_none());
    assert!(ExcelCoord::from_a1_style("A-1").is_none());
    assert!(ExcelCoord::from_a1_style("A0").is_none());
    assert!(ExcelCoord::from_a1_style("11").is_none());
}

#[test]
fn coordinate_round_trip_with_origin() {
    let c = ExcelCoord::from_relative_a1_style((2, 1), "C5").unwrap();
    assert_eq!((c.row, c.col), (2, 1));
    assert_eq!(c.to_a1_style(), "C5");
    assert!(ExcelCoord::from_relative_a1_style((5, 0), "A3").is_none());
    assert_eq!(from_a1_to_coord("C5", (2, 1)), Some((4, 2)));
}

#[test]
fn coordinate_to_address_with_base() {
    let c = ExcelCoord::new(0, 0);
    assert_eq!(c.to_a1_with_base(ExcelCoord::new(1, 2)), "C2");
    assert_eq!(ExcelCoord::new(9, 25).to_a1_style(), "Z10");
}

#[test]
fn column_letters_to_index() {
    assert_eq!(col_name_to_index("A", None), Some(0));
    assert_eq!(col_name_to_index("z", None), Some(25));
    assert_eq!(col_name_to_index("AB", Some((0, 1))), Some(26));
    assert_eq!(col_name_to_index("A1", None), None);
    assert_eq!(col_name_to_index("", None), None);
    assert_eq!(col_name_to_index("A", Some((0, 3))), None);
}

#[test]
fn coordinates_convert_to_and_from_pairs() {
    let c = ExcelCoord::from_relative_a1_style((2, 1), "C5").unwrap();
    let p: (u32, u32) = c.into();
    assert_eq!(p, (4, 2));
    let back: ExcelCoord = (4, 2).into();
    assert_eq!((back.row, back.col, back.base), (4, 2, (0, 0)));
}
