use ib_flex::version::{detect_version, FlexSchemaVersion};
use ib_flex::{detect_statement_type, StatementType};

#[test]
fn test_detect_version_v3() {
    let xml = r#"<FlexQueryResponse version="3" queryName="test">"#;
    let version = detect_version(xml).unwrap();
    assert_eq!(version, FlexSchemaVersion::V3);
}

#[test]
fn test_detect_version_no_attribute() {
    let xml = r#"<FlexQueryResponse queryName="test">"#;
    let version = detect_version(xml).unwrap();
    // Should default to V3
    assert_eq!(version, FlexSchemaVersion::V3);
}

#[test]
fn test_detect_version_unknown() {
    let xml = r#"<FlexQueryResponse version="4" queryName="test">"#;
    let version = detect_version(xml).unwrap();
    assert_eq!(version, FlexSchemaVersion::Unknown);
}

#[test]
fn test_detect_statement_type_activity() {
    let xml = r#"<?xml version="1.0" encoding="UTF-8"?>
<FlexQueryResponse queryName="test" type="AF">
    <FlexStatements />
</FlexQueryResponse>"#;
    let stmt_type = detect_statement_type(xml).unwrap();
    assert_eq!(stmt_type, StatementType::Activity);
}

#[test]
fn test_detect_statement_type_trade_confirmation() {
    let xml = r#"<?xml version="1.0" encoding="UTF-8"?>
<TradeConfirmationStatement accountId="U123">
    <Trades />
</TradeConfirmationStatement>"#;
    let stmt_type = detect_statement_type(xml).unwrap();
    assert_eq!(stmt_type, StatementType::TradeConfirmation);
}

#[test]
fn test_detect_statement_type_direct_flex_statement() {
    let xml = r#"<FlexStatement accountId="U123" fromDate="2025-01-01" toDate="2025-01-31">"#;
    let stmt_type = detect_statement_type(xml).unwrap();
    assert_eq!(stmt_type, StatementType::Activity);
}

#[test]
fn test_detect_statement_type_invalid() {
    let xml = r#"<Invalid>XML</Invalid>"#;
    let result = detect_statement_type(xml);
    assert!(result.is_err());
}
