use bayer_dither::matrix::BayerMatrixOption;
use bayer_dither::options::BayerMatrixParseError;
use bayer_dither::options::PreserveOrder;
use bayer_dither::options::PreserveOrderParseError;

#[test]
fn preserve_order_reads_dark_and_light() {
    assert_eq!(PreserveOrder::from_str("dark"), Ok(PreserveOrder::Dark));
    assert_eq!(PreserveOrder::from_str("light"), Ok(PreserveOrder::Light));
}

#[test]
fn preserve_order_ignores_case() {
    assert_eq!(PreserveOrder::from_str("DARK"), Ok(PreserveOrder::Dark));
    assert_eq!(PreserveOrder::from_str("Light"), Ok(PreserveOrder::Light));
    assert_eq!(PreserveOrder::from_str("lIgHt"), Ok(PreserveOrder::Light));
    // The Kelvin sign has the small letter k as its lower case.
    assert_eq!(PreserveOrder::from_str("DAR\u{212A}"), Ok(PreserveOrder::Dark));
}

#[test]
fn preserve_order_rejects_other_text() {
    assert_eq!(PreserveOrder::from_str(""), Err(PreserveOrderParseError));
    assert_eq!(PreserveOrder::from_str("dark "), Err(PreserveOrderParseError));
    assert_eq!(PreserveOrder::from_str("darker"), Err(PreserveOrderParseError));
    assert_eq!(PreserveOrder::from_str("m2"), Err(PreserveOrderParseError));
}

#[test]
fn preserve_order_from_lowercase_is_exact() {
    assert_eq!(PreserveOrder::from_lowercase("dark"), Ok(PreserveOrder::Dark));
    assert_eq!(PreserveOrder::from_lowercase("light"), Ok(PreserveOrder::Light));
    assert_eq!(PreserveOrder::from_lowercase("Dark"), Err(PreserveOrderParseError));
    assert_eq!(PreserveOrder::from_lowercase("LIGHT"), Err(PreserveOrderParseError));
}

#[test]
fn preserve_order_error_message() {
    assert_eq!(
        PreserveOrderParseError.message(),
        "Invalid preserve order option. Choose from: dark, light."
    );
}

#[test]
fn matrix_option_reads_the_three_names() {
    assert_eq!(BayerMatrixOption::from_str("m2"), Ok(BayerMatrixOption::M2));
    assert_eq!(BayerMatrixOption::from_str("m4"), Ok(BayerMatrixOption::M4));
    assert_eq!(BayerMatrixOption::from_str("m8"), Ok(BayerMatrixOption::M8));
}

#[test]
fn matrix_option_ignores_case() {
    assert_eq!(BayerMatrixOption::from_str("M2"), Ok(BayerMatrixOption::M2));
    assert_eq!(BayerMatrixOption::from_str("M4"), Ok(BayerMatrixOption::M4));
    assert_eq!(BayerMatrixOption::from_str("M8"), Ok(BayerMatrixOption::M8));
}

#[test]
fn matrix_option_rejects_other_text() {
    assert_eq!(BayerMatrixOption::from_str(""), Err(BayerMatrixParseError));
    assert_eq!(BayerMatrixOption::from_str("m3"), Err(BayerMatrixParseError));
    assert_eq!(BayerMatrixOption::from_str("m16"), Err(BayerMatrixParseError));
    assert_eq!(BayerMatrixOption::from_str("2"), Err(BayerMatrixParseError));
    assert_eq!(BayerMatrixOption::from_str(" m2"), Err(BayerMatrixParseError));
}

#[test]
fn matrix_option_from_lowercase_is_exact() {
    assert_eq!(BayerMatrixOption::from_lowercase("m2"), Ok(BayerMatrixOption::M2));
    assert_eq!(BayerMatrixOption::from_lowercase("m4"), Ok(BayerMatrixOption::M4));
    assert_eq!(BayerMatrixOption::from_lowercase("m8"), Ok(BayerMatrixOption::M8));
    assert_eq!(BayerMatrixOption::from_lowercase("M8"), Err(BayerMatrixParseError));
}

#[test]
fn matrix_option_error_message() {
    assert_eq!(
        BayerMatrixParseError.message(),
        "Invalid Bayer Matrix option. Choose from: m2, m4, m8."
    );
}
