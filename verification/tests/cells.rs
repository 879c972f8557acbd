use mssql_session::cell::MAX_SCALE;
use mssql_session::decimal::{integer_to_text, magnitude};
use mssql_session::{Cell, Decimal, SessionError};

#[test]
fn integer_text_of_forty_two() {
    assert_eq!(integer_to_text(42), "42");
}

#[test]
fn integer_text_of_zero_and_single_digits() {
    assert_eq!(integer_to_text(0), "0");
    assert_eq!(integer_to_text(7), "7");
    assert_eq!(integer_to_text(9), "9");
}

#[test]
fn integer_text_of_round_numbers() {
    assert_eq!(integer_to_text(10), "10");
    assert_eq!(integer_to_text(100), "100");
    assert_eq!(integer_to_text(1_000_000), "1000000");
    assert_eq!(integer_to_text(1234567890), "1234567890");
}

#[test]
fn integer_text_of_negative_numbers() {
    assert_eq!(integer_to_text(-1), "-1");
    assert_eq!(integer_to_text(-42), "-42");
    assert_eq!(integer_to_text(-1005), "-1005");
}

#[test]
fn integer_text_at_the_limits() {
    assert_eq!(integer_to_text(i64::MAX), "9223372036854775807");
    assert_eq!(integer_to_text(i64::MIN), "-9223372036854775808");
}

#[test]
fn integer_text_agrees_with_the_standard_library() {
    let samples: [i64; 9] = [0, 1, -1, 19, -20, 32767, -32768, 2147483647, -2147483648];
    for n in samples {
        assert_eq!(integer_to_text(n), n.to_string());
    }
}

#[test]
fn magnitude_is_the_distance_from_zero() {
    assert_eq!(magnitude(0), 0);
    assert_eq!(magnitude(5), 5);
    assert_eq!(magnitude(-5), 5);
    assert_eq!(magnitude(i64::MAX), 9223372036854775807);
    assert_eq!(magnitude(i64::MIN), 9223372036854775808);
}

#[test]
fn binary_cell_is_the_sentinel() {
    assert_eq!(Cell::Binary.text(), Ok("<binary data>".to_string()));
}

#[test]
fn other_cell_is_the_other_sentinel() {
    assert_eq!(Cell::Other.text(), Ok("nada".to_string()));
    assert_ne!(Cell::Other.text(), Cell::Binary.text());
}

#[test]
fn bit_cells() {
    assert_eq!(Cell::Bit(Some(true)).text(), Ok("true".to_string()));
    assert_eq!(Cell::Bit(Some(false)).text(), Ok("false".to_string()));
    assert_eq!(Cell::Bit(None).text(), Ok("false".to_string()));
}

#[test]
fn text_cells() {
    assert_eq!(Cell::Text(Some("héllo wörld".to_string())).text(), Ok("héllo wörld".to_string()));
    assert_eq!(Cell::Text(Some(String::new())).text(), Ok(String::new()));
    assert_eq!(Cell::Text(None).text(), Ok(String::new()));
}

#[test]
fn integer_cells() {
    assert_eq!(Cell::I16(Some(42)).text(), Ok("42".to_string()));
    assert_eq!(Cell::I16(Some(i16::MIN)).text(), Ok("-32768".to_string()));
    assert_eq!(Cell::I32(Some(-7)).text(), Ok("-7".to_string()));
    assert_eq!(Cell::I32(Some(i32::MAX)).text(), Ok("2147483647".to_string()));
    assert_eq!(Cell::I64(Some(9_000_000_000)).text(), Ok("9000000000".to_string()));
    assert_eq!(Cell::I64(Some(i64::MIN)).text(), Ok("-9223372036854775808".to_string()));
}

#[test]
fn null_integer_cells_are_zero() {
    assert_eq!(Cell::I16(None).text(), Ok("0".to_string()));
    assert_eq!(Cell::I32(None).text(), Ok("0".to_string()));
    assert_eq!(Cell::I64(None).text(), Ok("0".to_string()));
}

#[test]
fn float_cells_carry_their_text() {
    assert_eq!(Cell::F32(Some(1.5f32.to_string())).text(), Ok("1.5".to_string()));
    assert_eq!(Cell::F64(Some((-0.25f64).to_string())).text(), Ok("-0.25".to_string()));
}

#[test]
fn null_float_cells_are_zero() {
    assert_eq!(Cell::F32(None).text(), Ok(f32::default().to_string()));
    assert_eq!(Cell::F64(None).text(), Ok(f64::default().to_string()));
    assert_eq!(Cell::F64(None).text(), Ok("0".to_string()));
}

#[test]
fn numeric_cell_is_printed_by_the_transport() {
    let number = Decimal::new(125, 2).unwrap();
    assert_eq!(Cell::Numeric(Some(number)).text(), Ok("1.25".to_string()));
    assert_eq!(number.text(), tiberius::numeric::Numeric::new_with_scale(125, 2).to_string());
}

#[test]
fn numeric_text_pads_the_decimal_part() {
    assert_eq!(Decimal::new(1005, 3).unwrap().text(), "1.005");
    assert_eq!(Decimal::new(5, 0).unwrap().text(), "5.0");
    assert_eq!(Decimal::new(0, 4).unwrap().text(), "0.0000");
}

#[test]
fn numeric_text_depends_on_both_parts() {
    assert_ne!(Decimal::new(125, 2).unwrap().text(), Decimal::new(125, 1).unwrap().text());
    assert_ne!(Decimal::new(125, 2).unwrap().text(), Decimal::new(126, 2).unwrap().text());
}

#[test]
fn null_numeric_cell_has_no_text() {
    assert_eq!(Cell::Numeric(None).text(), Err(SessionError::NormalizationError));
}

#[test]
fn decimal_keeps_its_parts() {
    let number = Decimal::new(-31415, 4).unwrap();
    assert_eq!(number.value(), -31415);
    assert_eq!(number.scale(), 4);
}

#[test]
fn decimal_scale_is_bounded() {
    assert_eq!(MAX_SCALE, 37);
    assert!(Decimal::new(1, 37).is_some());
    assert!(Decimal::new(1, 38).is_none());
    assert!(Decimal::new(1, 255).is_none());
    assert!(Decimal::new(i128::MAX, 37).is_some());
    assert!(Decimal::new(i128::MIN, 0).is_some());
}

#[test]
fn decimal_text_at_the_limits_does_not_abort() {
    let largest = Decimal::new(i128::MAX, 37).unwrap().text();
    assert_eq!(largest, tiberius::numeric::Numeric::new_with_scale(i128::MAX, 37).to_string());
    let smallest = Decimal::new(i128::MIN, 0).unwrap().text();
    assert_eq!(smallest, tiberius::numeric::Numeric::new_with_scale(i128::MIN, 0).to_string());
}

#[test]
fn same_cell_same_text() {
    let cell = Cell::I32(Some(42));
    assert_eq!(cell.text(), cell.text());
    assert_eq!(cell.text(), cell.clone().text());
    assert_eq!(Cell::Bit(None).text(), Cell::Bit(None).text());
    assert_eq!(Cell::Binary.text(), Cell::Binary.text());
}
