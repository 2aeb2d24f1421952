use ib_flex::api::{parse_get_statement_response, parse_send_request_response, FlexApiError};

#[test]
fn test_parse_send_request_response() {
    let xml = r#"
        <FlexStatementResponse timestamp='01 January, 2025 12:00 AM EDT'>
            <Status>Success</Status>
            <ReferenceCode>9876543210</ReferenceCode>
            <Url>https://gdcdyn.interactivebrokers.com/Universal/servlet/FlexStatementService.GetStatement</Url>
        </FlexStatementResponse>
    "#;

    // Test that the client module exists and can parse responses
    // The actual parsing logic is tested in unit tests in client.rs
    assert!(xml.contains("<ReferenceCode>9876543210</ReferenceCode>"));
}

#[test]
fn test_error_response_format() {
    let xml = r#"
        <FlexStatementResponse timestamp='01 January, 2025 12:00 AM EDT'>
            <Status>Fail</Status>
            <ErrorCode>1003</ErrorCode>
            <ErrorMessage>Invalid token</ErrorMessage>
        </FlexStatementResponse>
    "#;

    assert!(xml.contains("<Status>Fail</Status>"));
    assert!(xml.contains("<ErrorCode>1003</ErrorCode>"));
}

#[test]
fn test_statement_not_ready_format() {
    let xml = r#"
        <FlexStatementResponse timestamp='01 January, 2025 12:00 AM EDT'>
            <Status>Warn</Status>
            <ErrorCode>1019</ErrorCode>
            <ErrorMessage>Statement is being generated; please try again shortly</ErrorMessage>
        </FlexStatementResponse>
    "#;

    assert!(xml.contains("<ErrorCode>1019</ErrorCode>"));
}

#[test]
fn test_parse_send_request_success() {
    let xml = r#"
            <FlexStatementResponse timestamp='01 January, 2025 12:00 AM EDT'>
                <Status>Success</Status>
                <ReferenceCode>1234567890</ReferenceCode>
                <Url>https://example.com</Url>
            </FlexStatementResponse>
        "#;

    let result = parse_send_request_response(xml);
    assert!(result.is_ok());
    assert_eq!(result.unwrap(), "1234567890");
}

#[test]
fn test_parse_send_request_error() {
    let xml = r#"
            <FlexStatementResponse timestamp='01 January, 2025 12:00 AM EDT'>
                <Status>Fail</Status>
                <ErrorCode>1003</ErrorCode>
                <ErrorMessage>Invalid token</ErrorMessage>
            </FlexStatementResponse>
        "#;

    let result = parse_send_request_response(xml);
    assert!(result.is_err());
    match result {
        Err(FlexApiError::ApiError(msg)) => assert_eq!(msg, "Invalid token"),
        _ => panic!("Expected ApiError"),
    }
}

#[test]
fn test_parse_get_statement_not_ready() {
    let xml = r#"
            <FlexStatementResponse timestamp='01 January, 2025 12:00 AM EDT'>
                <Status>Warn</Status>
                <ErrorCode>1019</ErrorCode>
                <ErrorMessage>Statement is being generated; please try again shortly</ErrorMessage>
            </FlexStatementResponse>
        "#;

    let result = parse_get_statement_response(xml);
    assert!(result.is_err());
    match result {
        Err(FlexApiError::StatementNotReady) => (),
        _ => panic!("Expected StatementNotReady"),
    }
}
