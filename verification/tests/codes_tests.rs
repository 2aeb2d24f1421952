use ib_flex::chars::chars_of_str;
use ib_flex::codes::{
    AssetCategory, BuySell, CashTransactionType, CorporateActionType, OpenClose, OrderType,
    PutCall, TransactionCode,
};
use ib_flex::parse_activity_flex;

#[test]
fn test_asset_category_basic() {
    // Test enum construction and comparison
    let stock = AssetCategory::Stock;
    assert_eq!(stock, AssetCategory::Stock);
    assert_ne!(stock, AssetCategory::Option);
}

#[test]
fn test_buy_sell_basic() {
    // Test enum construction and comparison
    let buy = BuySell::Buy;
    assert_eq!(buy, BuySell::Buy);
    assert_ne!(buy, BuySell::Sell);
}

#[test]
fn test_open_close_basic() {
    let open = OpenClose::Open;
    assert_eq!(open, OpenClose::Open);
    assert_ne!(open, OpenClose::Close);
}

#[test]
fn test_put_call_basic() {
    let call = PutCall::Call;
    assert_eq!(call, PutCall::Call);
    assert_ne!(call, PutCall::Put);
}

#[test]
fn test_cash_transaction_types() {
    let xml = r#"
    <FlexQueryResponse queryName="Activity" type="AF">
        <FlexStatements count="1">
            <FlexStatement accountId="U1234567" fromDate="2023-01-01" toDate="2023-01-31" whenGenerated="2023-02-01;120000">
                <CashTransactions>
                    <CashTransaction accountId="U1234567" currency="USD" fxRateToBase="1" assetCategory="CASH" symbol="USD" description="Dividend" date="2023-01-15" amount="100.0" type="Dividends" transactionID="1" />
                    <CashTransaction accountId="U1234567" currency="USD" fxRateToBase="1" assetCategory="CASH" symbol="USD" description="Deposit" date="2023-01-01" amount="1000.0" type="Deposits &amp; Withdrawals" transactionID="2" />
                    <CashTransaction accountId="U1234567" currency="USD" fxRateToBase="1" assetCategory="CASH" symbol="USD" description="Interest" date="2023-01-31" amount="5.0" type="Broker Interest Paid" transactionID="3" />
                </CashTransactions>
            </FlexStatement>
        </FlexStatements>
    </FlexQueryResponse>
    "#;

    let statement = parse_activity_flex(xml).unwrap();
    let txns = statement.cash_transactions.items;

    assert_eq!(txns.len(), 3);

    assert_eq!(txns[0].transaction_type, Some(CashTransactionType::Dividends));
    assert_eq!(
        txns[1].transaction_type,
        Some(CashTransactionType::DepositsWithdrawals)
    );
    assert_eq!(
        txns[2].transaction_type,
        Some(CashTransactionType::BrokerInterestPaid)
    );
}

#[test]
fn test_corporate_action_types() {
    let xml = r#"
    <FlexQueryResponse queryName="Activity" type="AF">
        <FlexStatements count="1">
            <FlexStatement accountId="U1234567" fromDate="2023-01-01" toDate="2023-01-31" whenGenerated="2023-02-01;120000">
                <CorporateActions>
                    <CorporateAction accountId="U1234567" conid="123" symbol="AAPL" assetCategory="STK" type="Stock Split" dateTime="2023-01-15" amount="0" currency="USD" reportDate="2023-01-15" />
                    <CorporateAction accountId="U1234567" conid="456" symbol="MSFT" assetCategory="STK" type="Cash Dividend" dateTime="2023-01-20" amount="15.0" currency="USD" reportDate="2023-01-20" />
                </CorporateActions>
            </FlexStatement>
        </FlexStatements>
    </FlexQueryResponse>
    "#;

    let statement = parse_activity_flex(xml).unwrap();
    let actions = statement.corporate_actions.items;

    assert_eq!(actions.len(), 2);

    assert_eq!(actions[0].action_type, Some(CorporateActionType::StockSplit));
    assert_eq!(actions[1].action_type, Some(CorporateActionType::CashDividend));
}

#[test]
fn unknown_token_decodes_to_unknown_member() {
    // An unrecognized token never fails a code-table decode: it maps to
    // the table's reserved member.
    let tok = chars_of_str("SOMETHING-NEW");
    assert_eq!(AssetCategory::decode(&tok), AssetCategory::Unknown);
    assert_eq!(BuySell::decode(&tok), BuySell::Unknown);
    assert_eq!(OrderType::decode(&tok), OrderType::Unknown);
    assert_eq!(TransactionCode::decode(&tok), TransactionCode::Unknown);

    let known = chars_of_str("STK");
    assert_eq!(AssetCategory::decode(&known), AssetCategory::Stock);
}

#[test]
fn unknown_enum_attribute_parses_successfully() {
    // A recognized attribute with vocabulary newer than this crate still
    // parses; the unknown value stays visible to callers.
    let xml = r#"<FlexQueryResponse>
        <FlexStatements count="1">
            <FlexStatement accountId="U1" fromDate="2025-01-15" toDate="2025-01-15" whenGenerated="g">
                <Trades>
                    <Trade accountId="U1" conid="1" symbol="S" assetCategory="NEWKIND" currency="USD" buySell="SHORTSELLEX" />
                </Trades>
            </FlexStatement>
        </FlexStatements>
    </FlexQueryResponse>"#;
    let statement = parse_activity_flex(xml).unwrap();
    assert_eq!(statement.trades.items.len(), 1);
    assert_eq!(statement.trades.items[0].asset_category, AssetCategory::Unknown);
    assert_eq!(statement.trades.items[0].buy_sell, Some(BuySell::Unknown));
}

#[test]
fn code_list_keeps_sequence_and_multiplicity() {
    let xml = r#"<FlexQueryResponse>
        <FlexStatements count="1">
            <FlexStatement accountId="U1" fromDate="2025-01-15" toDate="2025-01-15" whenGenerated="g">
                <Trades>
                    <Trade accountId="U1" conid="1" symbol="S" assetCategory="STK" currency="USD" notes="C;W;Zz;C" />
                </Trades>
            </FlexStatement>
        </FlexStatements>
    </FlexQueryResponse>"#;
    let statement = parse_activity_flex(xml).unwrap();
    let notes = statement.trades.items[0].notes.as_ref().unwrap();
    assert_eq!(
        notes,
        &vec![
            TransactionCode::Closing,
            TransactionCode::WashSale,
            TransactionCode::Unknown,
            TransactionCode::Closing,
        ]
    );
}
