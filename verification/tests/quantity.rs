use omni::quantity::Quantity;

fn accepted(text: &str) -> bool {
    match Quantity::parse(text) {
        Some(quantity) => {
            assert_eq!(quantity.as_str(), text);
            true
        }
        None => false,
    }
}

#[test]
fn numbers_as_json_writes_them_are_quantities() {
    for text in [
        "0", "7", "10", "12345", "-0", "-7", "7.5", "0.5", "-0.25", "10.0", "1e5", "1E5", "1e+5",
        "1e-5", "2.5e10", "-2.50E-03", "0e0", "123456789012345678901234567890",
    ] {
        assert!(accepted(text), "{} is a number", text);
    }
}

#[test]
fn other_text_is_no_quantity() {
    for text in [
        "", "-", "+1", "01", "-01", "00", ".5", "5.", "1.e5", "1e", "1e+", "1e-", "e5", "1.5.2",
        "1e5e5", " 1", "1 ", "1,5", "0x10", "NaN", "inf", "null", "seven", "1\u{663}", "\u{661}",
        "7.5}", "1,\"Evil\":true",
    ] {
        assert!(!accepted(text), "{} is no number", text);
    }
}

#[test]
fn the_library_and_the_json_reader_agree_on_numbers() {
    for text in [
        "0", "-0", "1", "01", "1.0", "1.", ".1", "1e1", "1e", "1E+1", "--1", "-", "1e1.5", "9.99",
        "1_000", "0.0e-0", "- 1", "1e+-1",
    ] {
        let by_reader = serde_json::from_str::<serde_json::Value>(text)
            .map(|value| value.is_number())
            .unwrap_or(false);
        assert_eq!(accepted(text), by_reader, "on {}", text);
    }
}

#[test]
fn a_copy_of_a_quantity_is_the_same_quantity() {
    let quantity = Quantity::parse("7.5").unwrap();
    let copy = quantity.clone();
    assert_eq!(copy, quantity);
    assert_eq!(copy.as_str(), "7.5");
}

#[test]
fn what_a_float_prints_as_is_a_quantity() {
    assert!(accepted(&format!("{}", 7.5f32)));
    assert!(accepted(&format!("{}", 0.1f32)));
    assert!(accepted(&format!("{}", -3f32)));
    assert!(accepted(&serde_json::to_string(&7.5f32).unwrap()));
    assert_eq!(serde_json::to_string(&7.5f32).unwrap(), "7.5");
    assert!(!accepted(&format!("{}", f32::NAN)));
    assert!(!accepted(&format!("{}", f32::INFINITY)));
}
