// End-to-end scenarios: single-statement and multi-statement documents,
// the trade-activity classifier, and the derivative projection.

use ib_flex::codes::{AssetCategory, BuySell, PutCall};
use ib_flex::records::DerivativeInfo;
use ib_flex::{parse_activity_flex, parse_activity_flex_response};

#[test]
fn single_trade_statement_decodes_exactly() {
    let xml = r#"<?xml version="1.0" encoding="UTF-8"?>
<FlexQueryResponse queryName="Activity" type="AF">
  <FlexStatements count="1">
    <FlexStatement accountId="U1234567" fromDate="2025-01-15" toDate="2025-01-15"
                   whenGenerated="2025-01-15;150000">
      <Trades>
        <Trade accountId="U1234567" conid="265598" symbol="AAPL" assetCategory="STK"
               buySell="BUY" quantity="100" tradePrice="185.50" currency="USD" />
      </Trades>
      <OpenPositions />
      <CashTransactions />
      <CorporateActions />
    </FlexStatement>
  </FlexStatements>
</FlexQueryResponse>"#;
    let statement = parse_activity_flex(xml).unwrap();
    assert_eq!(statement.account_id, "U1234567");
    assert_eq!(statement.trades.items.len(), 1);
    let trade = &statement.trades.items[0];
    assert_eq!(trade.symbol, "AAPL");
    assert_eq!(trade.buy_sell, Some(BuySell::Buy));
    assert_eq!(trade.quantity.unwrap().to_text(), "100");
    assert_eq!(trade.trade_price.unwrap().to_text(), "185.50");
    assert_eq!(statement.positions.items.len(), 0);
    assert_eq!(statement.cash_transactions.items.len(), 0);
    assert_eq!(statement.corporate_actions.items.len(), 0);
}

#[test]
fn two_statements_decode_in_document_order() {
    let xml = r#"<FlexQueryResponse queryName="Backfill" type="AF">
  <FlexStatements count="2">
    <FlexStatement accountId="U1234567" fromDate="2025-01-14" toDate="2025-01-14"
                   whenGenerated="2025-01-14;150000">
      <Trades />
    </FlexStatement>
    <FlexStatement accountId="U1234567" fromDate="2025-01-15" toDate="2025-01-15"
                   whenGenerated="2025-01-15;150000">
      <Trades />
    </FlexStatement>
  </FlexStatements>
</FlexQueryResponse>"#;
    let resp = parse_activity_flex_response(xml).unwrap();
    assert_eq!(resp.statements.statements.len(), 2);
    assert_eq!(resp.statements.statements[0].from_date.to_text(), "2025-01-14");
    assert_eq!(resp.statements.statements[1].from_date.to_text(), "2025-01-15");
    // The single-statement entry returns the first of the two.
    let first = parse_activity_flex(xml).unwrap();
    assert_eq!(first.from_date.to_text(), "2025-01-14");
}

#[test]
fn classifier_partitions_interleaved_sections() {
    // Executions and wash sales are interleaved by symbol; each bucket
    // keeps exactly its own records in input order, and the recognized
    // summary kinds leak into neither.
    let xml = r#"<FlexQueryResponse>
  <FlexStatements count="1">
    <FlexStatement accountId="U1" fromDate="2025-01-15" toDate="2025-01-15" whenGenerated="g">
      <Trades>
        <Trade accountId="U1" conid="1" symbol="AAPL" assetCategory="STK" currency="USD" quantity="1" />
        <WashSale accountId="U1" conid="2" symbol="AAPL" assetCategory="STK" currency="USD" quantity="2" />
        <Order accountId="U1" conid="3" symbol="AAPL" assetCategory="STK" currency="USD" quantity="3" />
        <Trade accountId="U1" conid="4" symbol="MSFT" assetCategory="STK" currency="USD" quantity="4" />
        <SymbolSummary accountId="U1" conid="5" symbol="MSFT" assetCategory="STK" currency="USD" />
        <Lot accountId="U1" conid="6" symbol="MSFT" assetCategory="STK" currency="USD" />
        <WashSale accountId="U1" conid="7" symbol="MSFT" assetCategory="STK" currency="USD" quantity="7" />
        <AssetSummary accountId="U1" conid="8" symbol="MSFT" assetCategory="STK" currency="USD" />
        <Trade accountId="U1" conid="9" symbol="TSLA" assetCategory="STK" currency="USD" quantity="9" />
      </Trades>
    </FlexStatement>
  </FlexStatements>
</FlexQueryResponse>"#;
    let statement = parse_activity_flex(xml).unwrap();
    assert_eq!(statement.trades.items.len(), 3);
    assert_eq!(statement.trades.wash_sales.len(), 2);
    let conids: Vec<&str> =
        statement.trades.items.iter().map(|t| t.conid.as_str()).collect();
    assert_eq!(conids, vec!["1", "4", "9"]);
    let wash_conids: Vec<&str> =
        statement.trades.wash_sales.iter().map(|t| t.conid.as_str()).collect();
    assert_eq!(wash_conids, vec!["2", "7"]);
}

#[test]
fn classifier_rejects_unrecognized_tag() {
    let xml = r#"<FlexQueryResponse>
  <FlexStatements count="1">
    <FlexStatement accountId="U1" fromDate="2025-01-15" toDate="2025-01-15" whenGenerated="g">
      <Trades>
        <Mystery accountId="U1" conid="1" symbol="AAPL" assetCategory="STK" currency="USD" />
      </Trades>
    </FlexStatement>
  </FlexStatements>
</FlexQueryResponse>"#;
    assert!(parse_activity_flex(xml).is_err());
}

fn option_trade_xml(drop: &str) -> String {
    let mut attrs = String::new();
    for (name, value) in [
        ("strike", "180"),
        ("expiry", "2025-02-21"),
        ("putCall", "C"),
        ("underlyingSymbol", "AAPL"),
    ] {
        if name != drop {
            attrs.push_str(&format!(r#" {}="{}""#, name, value));
        }
    }
    format!(
        r#"<FlexQueryResponse>
  <FlexStatements count="1">
    <FlexStatement accountId="U1" fromDate="2025-01-15" toDate="2025-01-15" whenGenerated="g">
      <Trades>
        <Trade accountId="U1" conid="1" symbol="AAPL 250221C00180000" assetCategory="OPT"
               currency="USD" underlyingConid="265598"{} />
      </Trades>
    </FlexStatement>
  </FlexStatements>
</FlexQueryResponse>"#,
        attrs
    )
}

#[test]
fn option_derivative_projection_needs_all_four_fields() {
    // With all four of strike, expiry, put/call and underlying symbol the
    // projection is populated with exactly those values.
    let statement = parse_activity_flex(&option_trade_xml("")).unwrap();
    let trade = &statement.trades.items[0];
    assert_eq!(trade.asset_category, AssetCategory::Option);
    match trade.derivative() {
        Some(DerivativeInfo::EquityOption { strike, expiry, put_call, underlying_symbol, .. }) => {
            assert_eq!(strike.to_text(), "180");
            assert_eq!(expiry.to_text(), "2025-02-21");
            assert_eq!(put_call, PutCall::Call);
            assert_eq!(underlying_symbol, "AAPL");
        }
        other => panic!("expected a populated option projection, got {:?}", other),
    }
    // Removing any one of the four yields an absent projection, never a
    // partially filled one.
    for missing in ["strike", "expiry", "putCall", "underlyingSymbol"] {
        let statement = parse_activity_flex(&option_trade_xml(missing)).unwrap();
        let trade = &statement.trades.items[0];
        assert!(trade.derivative().is_none(), "missing {}", missing);
    }
}

#[test]
fn backwards_date_range_is_rejected() {
    let xml = r#"<FlexQueryResponse>
  <FlexStatements count="1">
    <FlexStatement accountId="U1" fromDate="2025-01-16" toDate="2025-01-15" whenGenerated="g">
      <Trades />
    </FlexStatement>
  </FlexStatements>
</FlexQueryResponse>"#;
    assert!(parse_activity_flex(xml).is_err());
}

#[test]
fn unmodeled_sections_and_attributes_are_ignored() {
    let xml = r#"<FlexQueryResponse>
  <FlexStatements count="1">
    <FlexStatement accountId="U1" fromDate="2025-01-15" toDate="2025-01-15" whenGenerated="g"
                   futureSchemaAttribute="whatever">
      <Trades>
        <Trade accountId="U1" conid="1" symbol="AAPL" assetCategory="STK" currency="USD"
               attributeFromTheFuture="ignored" />
      </Trades>
      <BrandNewSection>
        <BrandNewRecord a="1" b="2"><Nested deep="yes" /></BrandNewRecord>
      </BrandNewSection>
      <DepositsOnHold />
    </FlexStatement>
  </FlexStatements>
</FlexQueryResponse>"#;
    let statement = parse_activity_flex(xml).unwrap();
    assert_eq!(statement.trades.items.len(), 1);
}

#[test]
fn positions_and_rates_decode() {
    let xml = r#"<FlexQueryResponse>
  <FlexStatements count="1">
    <FlexStatement accountId="U1" fromDate="2025-01-15" toDate="2025-01-15" whenGenerated="g">
      <OpenPositions>
        <OpenPosition accountId="U1" conid="1" symbol="AAPL" assetCategory="STK"
                      position="-200" markPrice="185.50" positionValue="-37100.00"
                      currency="USD" reportDate="20250115" side="Short" />
      </OpenPositions>
      <ConversionRates>
        <ConversionRate reportDate="2025-01-15" fromCurrency="EUR" toCurrency="USD" rate="1.0855" />
      </ConversionRates>
    </FlexStatement>
  </FlexStatements>
</FlexQueryResponse>"#;
    let statement = parse_activity_flex(xml).unwrap();
    let pos = &statement.positions.items[0];
    assert_eq!(pos.quantity.to_text(), "-200");
    assert!(pos.quantity.negative);
    assert_eq!(pos.position_value.to_text(), "-37100.00");
    assert_eq!(pos.report_date.to_text(), "2025-01-15");
    assert_eq!(pos.side.as_deref(), Some("Short"));
    let rate = &statement.conversion_rates.items[0];
    assert_eq!(rate.from_currency, "EUR");
    assert_eq!(rate.to_currency, "USD");
    assert_eq!(rate.rate.to_text(), "1.0855");
}
