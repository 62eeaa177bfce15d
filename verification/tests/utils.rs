use arbitrage_core::utils::current_timestamp;
use arbitrage_core::utils::generate_id;
use arbitrage_core::utils::parse_decimal;

#[test]
fn test_parse_decimal() {
    assert!(parse_decimal("123.45").is_ok());
    assert!(parse_decimal("invalid").is_err());
}

#[test]
fn test_generate_id() {
    let id1 = generate_id();
    let id2 = generate_id();
    assert_ne!(id1, id2);
    assert_eq!(id1.len(), 36); // UUID v4 length
}

#[test]
fn test_parse_decimal_error_is_calculation() {
    let err = parse_decimal("not a number").unwrap_err();
    assert!(err.message().contains("Invalid decimal"));
}

#[test]
fn test_current_timestamp_is_after_epoch() {
    assert!(current_timestamp() > 0);
}
