// Extended statement sections: account information, change in NAV, and
// the per-currency report sections.

use ib_flex::codes::{serialize_transaction_codes, TransactionCode};
use ib_flex::parse_activity_flex;

#[test]
fn extended_sections_decode() {
    let xml = r#"<FlexQueryResponse queryName="Extended" type="AF">
  <FlexStatements count="1">
    <FlexStatement accountId="U1234567" fromDate="2025-01-01" toDate="2025-01-31"
                   whenGenerated="2025-01-31;150000">
      <AccountInformation accountId="U1234567" accountType="INDIVIDUAL" acctAlias="Main"
                          currency="USD" name="Test Fund LP" />
      <ChangeInNAV accountId="U1234567" fromDate="2025-01-01" toDate="2025-01-31"
                   startingValue="100000.00" endingValue="102500.00" mtm="2500.00" />
      <EquitySummaryInBase>
        <EquitySummaryByReportDateInBase accountId="U1234567" reportDate="2025-01-31"
                                         cash="150000.50" stock="250000.00" />
      </EquitySummaryInBase>
      <CashReport>
        <CashReportCurrency accountId="U1234567" currency="USD" fromDate="2025-01-01"
                            toDate="2025-01-31" startingCash="145000.00" endingCash="150000.50" />
      </CashReport>
      <InterestAccruals>
        <InterestAccrualsCurrency accountId="U1234567" currency="USD" fromDate="2025-01-01"
                                  toDate="2025-01-31" startingAccrualBalance="20.25"
                                  interestAccrued="5.25" endingAccrualBalance="25.50" />
      </InterestAccruals>
      <OpenDividendAccruals>
        <OpenDividendAccrual accountId="U1234567" symbol="MSFT" exDate="2025-01-20"
                             quantity="100" grossRate="0.75" />
      </OpenDividendAccruals>
      <FxTransactions>
        <FxTransaction accountId="U1234567" fromCurrency="CAD" toCurrency="USD"
                       quantity="10000" proceeds="-7200.00" />
      </FxTransactions>
    </FlexStatement>
  </FlexStatements>
</FlexQueryResponse>"#;
    let statement = parse_activity_flex(xml).unwrap();

    let info = statement.account_information.as_ref().unwrap();
    assert_eq!(info.account_id, "U1234567");
    assert_eq!(info.account_type.as_deref(), Some("INDIVIDUAL"));
    assert_eq!(info.name.as_deref(), Some("Test Fund LP"));

    let nav = statement.change_in_nav.as_ref().unwrap();
    assert_eq!(nav.starting_value.to_text(), "100000.00");
    assert_eq!(nav.ending_value.to_text(), "102500.00");
    assert_eq!(nav.mtm.unwrap().to_text(), "2500.00");

    assert_eq!(statement.equity_summary.items.len(), 1);
    assert_eq!(statement.equity_summary.items[0].cash.unwrap().to_text(), "150000.50");

    assert_eq!(statement.cash_report.items.len(), 1);
    assert_eq!(statement.cash_report.items[0].starting_cash.to_text(), "145000.00");

    let accrual = &statement.interest_accruals.items[0];
    assert_eq!(accrual.starting_balance.to_text(), "20.25");
    assert_eq!(accrual.interest_accrued.to_text(), "5.25");
    assert_eq!(accrual.ending_balance.to_text(), "25.50");

    assert_eq!(statement.open_dividend_accruals.items[0].symbol, "MSFT");
    assert_eq!(statement.open_dividend_accruals.items[0].gross_rate.to_text(), "0.75");

    let fx = &statement.fx_transactions.items[0];
    assert_eq!(fx.from_currency, "CAD");
    assert_eq!(fx.to_currency, "USD");
    assert_eq!(fx.proceeds.to_text(), "-7200.00");
}

#[test]
fn absent_extended_sections_default_to_empty() {
    let xml = r#"<FlexQueryResponse>
  <FlexStatements count="1">
    <FlexStatement accountId="U1" fromDate="2025-01-15" toDate="2025-01-15" whenGenerated="g" />
  </FlexStatements>
</FlexQueryResponse>"#;
    let statement = parse_activity_flex(xml).unwrap();
    assert!(statement.account_information.is_none());
    assert!(statement.change_in_nav.is_none());
    assert_eq!(statement.equity_summary.items.len(), 0);
    assert_eq!(statement.cash_report.items.len(), 0);
    assert_eq!(statement.transfers.items.len(), 0);
    assert_eq!(statement.statement_of_funds.items.len(), 0);
    assert_eq!(statement.sales_tax.items.len(), 0);
}

#[test]
fn note_codes_serialize_back_to_tokens() {
    let codes = Some(vec![
        TransactionCode::Closing,
        TransactionCode::WashSale,
        TransactionCode::Opening,
    ]);
    assert_eq!(serialize_transaction_codes(&codes), "C;W;P");
    assert_eq!(serialize_transaction_codes(&None), "");
    assert_eq!(
        serialize_transaction_codes(&Some(vec![TransactionCode::Unknown])),
        "Unknown"
    );
}
