//! The remaining record kinds of the dialect.
//!
//! These sections carry no decision logic beyond the shared field rules:
//! each record declares which attribute feeds which primitive decoder and
//! whether absence is permitted.  Only the attributes this crate models
//! are decoded; all others are safely ignored.

use vstd::prelude::*;
use crate::chars::chars_of_str;
use crate::codes::{AssetCategory, BuySell, LevelOfDetail, OpenClose, OptionAction, OrderType, PutCall, SecurityIdType, SubCategory, ToFrom, TradeType, TransferType, DeliveredReceived, InOut, TransactionCode};
use crate::date::Date;
use crate::decimal::Decimal;
use crate::error::ParseError;
use crate::records::{attr_of, opt_bool, opt_bool_ok, opt_bool_of, opt_codes, opt_codes_is, opt_codes_of, opt_date, opt_date_ok, opt_date_of, opt_dec, opt_dec_ok, opt_dec_of, opt_str, opt_str_of, opt_string_is, req_date, req_date_ok, req_date_of, req_dec, req_dec_ok, req_dec_of, req_str};
use crate::xml::{Element, XElem};

verus! {

/// Account reference information.
#[derive(Debug, Clone)]
pub struct AccountInformation {
    /// The `accountId` attribute.
    pub account_id: String,
    /// The `accountType` attribute.
    pub account_type: Option<String>,
    /// The `acctAlias` attribute.
    pub acct_alias: Option<String>,
    /// The `currency` attribute.
    pub currency: Option<String>,
    /// The `name` attribute.
    pub name: Option<String>,
    /// The `masterName` attribute.
    pub master_name: Option<String>,
    /// The `customerType` attribute.
    pub customer_type: Option<String>,
    /// The `dateOpened` attribute.
    pub date_opened: Option<Date>,
    /// The `dateFunded` attribute.
    pub date_funded: Option<Date>,
}

/// Whether an element decodes as an `AccountInformation`: the mandatory
/// attributes are present and every present value decodes.
pub open spec fn account_information_wf(e: XElem) -> bool {
    &&& attr_of(e, "accountId"@) is Some
    &&& opt_date_ok(e, "dateOpened"@)
    &&& opt_date_ok(e, "dateFunded"@)
}

/// How a decoded `AccountInformation` relates to its element: every field
/// equals its attribute's decoded value.
pub open spec fn account_information_obeys(e: XElem, t: AccountInformation) -> bool {
    &&& t.account_id@ == attr_of(e, "accountId"@)->0
    &&& opt_string_is(t.account_type, opt_str_of(e, "accountType"@))
    &&& opt_string_is(t.acct_alias, opt_str_of(e, "acctAlias"@))
    &&& opt_string_is(t.currency, opt_str_of(e, "currency"@))
    &&& opt_string_is(t.name, opt_str_of(e, "name"@))
    &&& opt_string_is(t.master_name, opt_str_of(e, "masterName"@))
    &&& opt_string_is(t.customer_type, opt_str_of(e, "customerType"@))
    &&& t.date_opened == opt_date_of(e, "dateOpened"@)
    &&& t.date_funded == opt_date_of(e, "dateFunded"@)
}

/// Decodes one `AccountInformation` element.
#[verifier::rlimit(40)]
pub fn decode_account_information(e: &Element) -> (r: Result<AccountInformation, ParseError>)
    ensures
        account_information_wf(e@) ==> r is Ok && account_information_obeys(e@, r->Ok_0),
        !account_information_wf(e@) ==> r is Err,
{
    let account_id = match req_str(e, "accountId", "AccountInformation") { Ok(v) => v, Err(er) => { return Err(er); } };
    let account_type = opt_str(e, "accountType");
    let acct_alias = opt_str(e, "acctAlias");
    let currency = opt_str(e, "currency");
    let name = opt_str(e, "name");
    let master_name = opt_str(e, "masterName");
    let customer_type = opt_str(e, "customerType");
    let date_opened = match opt_date(e, "dateOpened", "AccountInformation") { Ok(v) => v, Err(er) => { return Err(er); } };
    let date_funded = match opt_date(e, "dateFunded", "AccountInformation") { Ok(v) => v, Err(er) => { return Err(er); } };
    Ok(AccountInformation { account_id, account_type, acct_alias, currency, name, master_name, customer_type, date_opened, date_funded })
}

/// Change in net asset value over the period.
#[derive(Debug, Clone)]
pub struct ChangeInNAV {
    /// The `accountId` attribute.
    pub account_id: String,
    /// The `acctAlias` attribute.
    pub acct_alias: Option<String>,
    /// The `model` attribute.
    pub model: Option<String>,
    /// The `currency` attribute.
    pub currency: Option<String>,
    /// The `fromDate` attribute.
    pub from_date: Date,
    /// The `toDate` attribute.
    pub to_date: Date,
    /// The `startingValue` attribute.
    pub starting_value: Decimal,
    /// The `endingValue` attribute.
    pub ending_value: Decimal,
    /// The `mtm` attribute.
    pub mtm: Option<Decimal>,
    /// The `realized` attribute.
    pub realized: Option<Decimal>,
    /// The `changeInUnrealized` attribute.
    pub change_in_unrealized: Option<Decimal>,
    /// The `depositsWithdrawals` attribute.
    pub deposits_withdrawals: Option<Decimal>,
    /// The `dividends` attribute.
    pub dividends: Option<Decimal>,
}

/// Whether an element decodes as a `ChangeInNAV`: the mandatory
/// attributes are present and every present value decodes.
pub open spec fn change_in_n_a_v_wf(e: XElem) -> bool {
    &&& attr_of(e, "accountId"@) is Some
    &&& req_date_ok(e, "fromDate"@)
    &&& req_date_ok(e, "toDate"@)
    &&& req_dec_ok(e, "startingValue"@)
    &&& req_dec_ok(e, "endingValue"@)
    &&& opt_dec_ok(e, "mtm"@)
    &&& opt_dec_ok(e, "realized"@)
    &&& opt_dec_ok(e, "changeInUnrealized"@)
    &&& opt_dec_ok(e, "depositsWithdrawals"@)
    &&& opt_dec_ok(e, "dividends"@)
}

/// How a decoded `ChangeInNAV` relates to its element: every field
/// equals its attribute's decoded value.
pub open spec fn change_in_n_a_v_obeys(e: XElem, t: ChangeInNAV) -> bool {
    &&& t.account_id@ == attr_of(e, "accountId"@)->0
    &&& opt_string_is(t.acct_alias, opt_str_of(e, "acctAlias"@))
    &&& opt_string_is(t.model, opt_str_of(e, "model"@))
    &&& opt_string_is(t.currency, opt_str_of(e, "currency"@))
    &&& t.from_date == req_date_of(e, "fromDate"@)
    &&& t.to_date == req_date_of(e, "toDate"@)
    &&& t.starting_value == req_dec_of(e, "startingValue"@)
    &&& t.ending_value == req_dec_of(e, "endingValue"@)
    &&& t.mtm == opt_dec_of(e, "mtm"@)
    &&& t.realized == opt_dec_of(e, "realized"@)
    &&& t.change_in_unrealized == opt_dec_of(e, "changeInUnrealized"@)
    &&& t.deposits_withdrawals == opt_dec_of(e, "depositsWithdrawals"@)
    &&& t.dividends == opt_dec_of(e, "dividends"@)
}

/// Decodes one `ChangeInNAV` element.
#[verifier::rlimit(40)]
pub fn decode_change_in_n_a_v(e: &Element) -> (r: Result<ChangeInNAV, ParseError>)
    ensures
        change_in_n_a_v_wf(e@) ==> r is Ok && change_in_n_a_v_obeys(e@, r->Ok_0),
        !change_in_n_a_v_wf(e@) ==> r is Err,
{
    let account_id = match req_str(e, "accountId", "ChangeInNAV") { Ok(v) => v, Err(er) => { return Err(er); } };
    let acct_alias = opt_str(e, "acctAlias");
    let model = opt_str(e, "model");
    let currency = opt_str(e, "currency");
    let from_date = match req_date(e, "fromDate", "ChangeInNAV") { Ok(v) => v, Err(er) => { return Err(er); } };
    let to_date = match req_date(e, "toDate", "ChangeInNAV") { Ok(v) => v, Err(er) => { return Err(er); } };
    let starting_value = match req_dec(e, "startingValue", "ChangeInNAV") { Ok(v) => v, Err(er) => { return Err(er); } };
    let ending_value = match req_dec(e, "endingValue", "ChangeInNAV") { Ok(v) => v, Err(er) => { return Err(er); } };
    let mtm = match opt_dec(e, "mtm", "ChangeInNAV") { Ok(v) => v, Err(er) => { return Err(er); } };
    let realized = match opt_dec(e, "realized", "ChangeInNAV") { Ok(v) => v, Err(er) => { return Err(er); } };
    let change_in_unrealized = match opt_dec(e, "changeInUnrealized", "ChangeInNAV") { Ok(v) => v, Err(er) => { return Err(er); } };
    let deposits_withdrawals = match opt_dec(e, "depositsWithdrawals", "ChangeInNAV") { Ok(v) => v, Err(er) => { return Err(er); } };
    let dividends = match opt_dec(e, "dividends", "ChangeInNAV") { Ok(v) => v, Err(er) => { return Err(er); } };
    Ok(ChangeInNAV { account_id, acct_alias, model, currency, from_date, to_date, starting_value, ending_value, mtm, realized, change_in_unrealized, deposits_withdrawals, dividends })
}

/// Equity summary by report date, in the base currency.
#[derive(Debug, Clone)]
pub struct EquitySummaryByReportDateInBase {
    /// The `accountId` attribute.
    pub account_id: String,
    /// The `acctAlias` attribute.
    pub acct_alias: Option<String>,
    /// The `model` attribute.
    pub model: Option<String>,
    /// The `reportDate` attribute.
    pub report_date: Date,
    /// The `cash` attribute.
    pub cash: Option<Decimal>,
    /// The `cashLong` attribute.
    pub cash_long: Option<Decimal>,
    /// The `cashShort` attribute.
    pub cash_short: Option<Decimal>,
    /// The `settledCash` attribute.
    pub settled_cash: Option<Decimal>,
    /// The `slbCashCollateral` attribute.
    pub slb_cash_collateral: Option<Decimal>,
    /// The `stock` attribute.
    pub stock: Option<Decimal>,
}

/// Whether an element decodes as an `EquitySummaryByReportDateInBase`: the mandatory
/// attributes are present and every present value decodes.
pub open spec fn equity_summary_by_report_date_in_base_wf(e: XElem) -> bool {
    &&& attr_of(e, "accountId"@) is Some
    &&& req_date_ok(e, "reportDate"@)
    &&& opt_dec_ok(e, "cash"@)
    &&& opt_dec_ok(e, "cashLong"@)
    &&& opt_dec_ok(e, "cashShort"@)
    &&& opt_dec_ok(e, "settledCash"@)
    &&& opt_dec_ok(e, "slbCashCollateral"@)
    &&& opt_dec_ok(e, "stock"@)
}

/// How a decoded `EquitySummaryByReportDateInBase` relates to its element: every field
/// equals its attribute's decoded value.
pub open spec fn equity_summary_by_report_date_in_base_obeys(e: XElem, t: EquitySummaryByReportDateInBase) -> bool {
    &&& t.account_id@ == attr_of(e, "accountId"@)->0
    &&& opt_string_is(t.acct_alias, opt_str_of(e, "acctAlias"@))
    &&& opt_string_is(t.model, opt_str_of(e, "model"@))
    &&& t.report_date == req_date_of(e, "reportDate"@)
    &&& t.cash == opt_dec_of(e, "cash"@)
    &&& t.cash_long == opt_dec_of(e, "cashLong"@)
    &&& t.cash_short == opt_dec_of(e, "cashShort"@)
    &&& t.settled_cash == opt_dec_of(e, "settledCash"@)
    &&& t.slb_cash_collateral == opt_dec_of(e, "slbCashCollateral"@)
    &&& t.stock == opt_dec_of(e, "stock"@)
}

/// Decodes one `EquitySummaryByReportDateInBase` element.
#[verifier::rlimit(40)]
pub fn decode_equity_summary_by_report_date_in_base(e: &Element) -> (r: Result<EquitySummaryByReportDateInBase, ParseError>)
    ensures
        equity_summary_by_report_date_in_base_wf(e@) ==> r is Ok && equity_summary_by_report_date_in_base_obeys(e@, r->Ok_0),
        !equity_summary_by_report_date_in_base_wf(e@) ==> r is Err,
{
    let account_id = match req_str(e, "accountId", "EquitySummaryByReportDateInBase") { Ok(v) => v, Err(er) => { return Err(er); } };
    let acct_alias = opt_str(e, "acctAlias");
    let model = opt_str(e, "model");
    let report_date = match req_date(e, "reportDate", "EquitySummaryByReportDateInBase") { Ok(v) => v, Err(er) => { return Err(er); } };
    let cash = match opt_dec(e, "cash", "EquitySummaryByReportDateInBase") { Ok(v) => v, Err(er) => { return Err(er); } };
    let cash_long = match opt_dec(e, "cashLong", "EquitySummaryByReportDateInBase") { Ok(v) => v, Err(er) => { return Err(er); } };
    let cash_short = match opt_dec(e, "cashShort", "EquitySummaryByReportDateInBase") { Ok(v) => v, Err(er) => { return Err(er); } };
    let settled_cash = match opt_dec(e, "settledCash", "EquitySummaryByReportDateInBase") { Ok(v) => v, Err(er) => { return Err(er); } };
    let slb_cash_collateral = match opt_dec(e, "slbCashCollateral", "EquitySummaryByReportDateInBase") { Ok(v) => v, Err(er) => { return Err(er); } };
    let stock = match opt_dec(e, "stock", "EquitySummaryByReportDateInBase") { Ok(v) => v, Err(er) => { return Err(er); } };
    Ok(EquitySummaryByReportDateInBase { account_id, acct_alias, model, report_date, cash, cash_long, cash_short, settled_cash, slb_cash_collateral, stock })
}

/// Cash report for one currency.
#[derive(Debug, Clone)]
pub struct CashReportCurrency {
    /// The `accountId` attribute.
    pub account_id: String,
    /// The `acctAlias` attribute.
    pub acct_alias: Option<String>,
    /// The `model` attribute.
    pub model: Option<String>,
    /// The `currency` attribute.
    pub currency: String,
    /// The `fromDate` attribute.
    pub from_date: Date,
    /// The `toDate` attribute.
    pub to_date: Date,
    /// The `startingCash` attribute.
    pub starting_cash: Decimal,
    /// The `startingCashSec` attribute.
    pub starting_cash_sec: Option<Decimal>,
    /// The `startingCashCom` attribute.
    pub starting_cash_com: Option<Decimal>,
    /// The `commissions` attribute.
    pub commissions: Option<Decimal>,
    /// The `commissionsSec` attribute.
    pub commissions_sec: Option<Decimal>,
    /// The `commissionsCom` attribute.
    pub commissions_com: Option<Decimal>,
    /// The `deposits` attribute.
    pub deposits: Option<Decimal>,
    /// The `endingCash` attribute.
    pub ending_cash: Decimal,
}

/// Whether an element decodes as a `CashReportCurrency`: the mandatory
/// attributes are present and every present value decodes.
pub open spec fn cash_report_currency_wf(e: XElem) -> bool {
    &&& attr_of(e, "accountId"@) is Some
    &&& attr_of(e, "currency"@) is Some
    &&& req_date_ok(e, "fromDate"@)
    &&& req_date_ok(e, "toDate"@)
    &&& req_dec_ok(e, "startingCash"@)
    &&& opt_dec_ok(e, "startingCashSec"@)
    &&& opt_dec_ok(e, "startingCashCom"@)
    &&& opt_dec_ok(e, "commissions"@)
    &&& opt_dec_ok(e, "commissionsSec"@)
    &&& opt_dec_ok(e, "commissionsCom"@)
    &&& opt_dec_ok(e, "deposits"@)
    &&& req_dec_ok(e, "endingCash"@)
}

/// How a decoded `CashReportCurrency` relates to its element: every field
/// equals its attribute's decoded value.
pub open spec fn cash_report_currency_obeys(e: XElem, t: CashReportCurrency) -> bool {
    &&& t.account_id@ == attr_of(e, "accountId"@)->0
    &&& opt_string_is(t.acct_alias, opt_str_of(e, "acctAlias"@))
    &&& opt_string_is(t.model, opt_str_of(e, "model"@))
    &&& t.currency@ == attr_of(e, "currency"@)->0
    &&& t.from_date == req_date_of(e, "fromDate"@)
    &&& t.to_date == req_date_of(e, "toDate"@)
    &&& t.starting_cash == req_dec_of(e, "startingCash"@)
    &&& t.starting_cash_sec == opt_dec_of(e, "startingCashSec"@)
    &&& t.starting_cash_com == opt_dec_of(e, "startingCashCom"@)
    &&& t.commissions == opt_dec_of(e, "commissions"@)
    &&& t.commissions_sec == opt_dec_of(e, "commissionsSec"@)
    &&& t.commissions_com == opt_dec_of(e, "commissionsCom"@)
    &&& t.deposits == opt_dec_of(e, "deposits"@)
    &&& t.ending_cash == req_dec_of(e, "endingCash"@)
}

/// Decodes one `CashReportCurrency` element.
#[verifier::rlimit(40)]
pub fn decode_cash_report_currency(e: &Element) -> (r: Result<CashReportCurrency, ParseError>)
    ensures
        cash_report_currency_wf(e@) ==> r is Ok && cash_report_currency_obeys(e@, r->Ok_0),
        !cash_report_currency_wf(e@) ==> r is Err,
{
    let account_id = match req_str(e, "accountId", "CashReportCurrency") { Ok(v) => v, Err(er) => { return Err(er); } };
    let acct_alias = opt_str(e, "acctAlias");
    let model = opt_str(e, "model");
    let currency = match req_str(e, "currency", "CashReportCurrency") { Ok(v) => v, Err(er) => { return Err(er); } };
    let from_date = match req_date(e, "fromDate", "CashReportCurrency") { Ok(v) => v, Err(er) => { return Err(er); } };
    let to_date = match req_date(e, "toDate", "CashReportCurrency") { Ok(v) => v, Err(er) => { return Err(er); } };
    let starting_cash = match req_dec(e, "startingCash", "CashReportCurrency") { Ok(v) => v, Err(er) => { return Err(er); } };
    let starting_cash_sec = match opt_dec(e, "startingCashSec", "CashReportCurrency") { Ok(v) => v, Err(er) => { return Err(er); } };
    let starting_cash_com = match opt_dec(e, "startingCashCom", "CashReportCurrency") { Ok(v) => v, Err(er) => { return Err(er); } };
    let commissions = match opt_dec(e, "commissions", "CashReportCurrency") { Ok(v) => v, Err(er) => { return Err(er); } };
    let commissions_sec = match opt_dec(e, "commissionsSec", "CashReportCurrency") { Ok(v) => v, Err(er) => { return Err(er); } };
    let commissions_com = match opt_dec(e, "commissionsCom", "CashReportCurrency") { Ok(v) => v, Err(er) => { return Err(er); } };
    let deposits = match opt_dec(e, "deposits", "CashReportCurrency") { Ok(v) => v, Err(er) => { return Err(er); } };
    let ending_cash = match req_dec(e, "endingCash", "CashReportCurrency") { Ok(v) => v, Err(er) => { return Err(er); } };
    Ok(CashReportCurrency { account_id, acct_alias, model, currency, from_date, to_date, starting_cash, starting_cash_sec, starting_cash_com, commissions, commissions_sec, commissions_com, deposits, ending_cash })
}

/// A real-time trade confirmation.
#[derive(Debug, Clone)]
pub struct TradeConfirm {
    /// The `accountId` attribute.
    pub account_id: String,
    /// The `acctAlias` attribute.
    pub acct_alias: Option<String>,
    /// The `model` attribute.
    pub model: Option<String>,
    /// The `execID` attribute.
    pub exec_id: String,
    /// The `transactionID` attribute.
    pub transaction_id: Option<String>,
    /// The `tradeID` attribute.
    pub trade_id: Option<String>,
    /// The `orderID` attribute.
    pub order_id: Option<String>,
    /// The `tradeDate` attribute.
    pub trade_date: Date,
    /// The `tradeTime` attribute.
    pub trade_time: Option<String>,
    /// The `dateTime` attribute.
    pub date_time: Option<String>,
    /// The `settleDate` attribute.
    pub settle_date: Option<Date>,
    /// The `symbol` attribute.
    pub symbol: String,
    /// The `assetCategory` attribute.
    pub asset_category: AssetCategory,
    /// The `quantity` attribute.
    pub quantity: Decimal,
    /// The `tradePrice` attribute.
    pub trade_price: Decimal,
}

/// Whether an element decodes as a `TradeConfirm`: the mandatory
/// attributes are present and every present value decodes.
pub open spec fn trade_confirm_wf(e: XElem) -> bool {
    &&& attr_of(e, "accountId"@) is Some
    &&& attr_of(e, "execID"@) is Some
    &&& req_date_ok(e, "tradeDate"@)
    &&& opt_date_ok(e, "settleDate"@)
    &&& attr_of(e, "symbol"@) is Some
    &&& attr_of(e, "assetCategory"@) is Some
    &&& req_dec_ok(e, "quantity"@)
    &&& req_dec_ok(e, "tradePrice"@)
}

/// How a decoded `TradeConfirm` relates to its element: every field
/// equals its attribute's decoded value.
pub open spec fn trade_confirm_obeys(e: XElem, t: TradeConfirm) -> bool {
    &&& t.account_id@ == attr_of(e, "accountId"@)->0
    &&& opt_string_is(t.acct_alias, opt_str_of(e, "acctAlias"@))
    &&& opt_string_is(t.model, opt_str_of(e, "model"@))
    &&& t.exec_id@ == attr_of(e, "execID"@)->0
    &&& opt_string_is(t.transaction_id, opt_str_of(e, "transactionID"@))
    &&& opt_string_is(t.trade_id, opt_str_of(e, "tradeID"@))
    &&& opt_string_is(t.order_id, opt_str_of(e, "orderID"@))
    &&& t.trade_date == req_date_of(e, "tradeDate"@)
    &&& opt_string_is(t.trade_time, opt_str_of(e, "tradeTime"@))
    &&& opt_string_is(t.date_time, opt_str_of(e, "dateTime"@))
    &&& t.settle_date == opt_date_of(e, "settleDate"@)
    &&& t.symbol@ == attr_of(e, "symbol"@)->0
    &&& t.asset_category == AssetCategory::spec_decode(attr_of(e, "assetCategory"@)->0)
    &&& t.quantity == req_dec_of(e, "quantity"@)
    &&& t.trade_price == req_dec_of(e, "tradePrice"@)
}

/// Decodes one `TradeConfirm` element.
#[verifier::rlimit(40)]
pub fn decode_trade_confirm(e: &Element) -> (r: Result<TradeConfirm, ParseError>)
    ensures
        trade_confirm_wf(e@) ==> r is Ok && trade_confirm_obeys(e@, r->Ok_0),
        !trade_confirm_wf(e@) ==> r is Err,
{
    let account_id = match req_str(e, "accountId", "TradeConfirm") { Ok(v) => v, Err(er) => { return Err(er); } };
    let acct_alias = opt_str(e, "acctAlias");
    let model = opt_str(e, "model");
    let exec_id = match req_str(e, "execID", "TradeConfirm") { Ok(v) => v, Err(er) => { return Err(er); } };
    let transaction_id = opt_str(e, "transactionID");
    let trade_id = opt_str(e, "tradeID");
    let order_id = opt_str(e, "orderID");
    let trade_date = match req_date(e, "tradeDate", "TradeConfirm") { Ok(v) => v, Err(er) => { return Err(er); } };
    let trade_time = opt_str(e, "tradeTime");
    let date_time = opt_str(e, "dateTime");
    let settle_date = match opt_date(e, "settleDate", "TradeConfirm") { Ok(v) => v, Err(er) => { return Err(er); } };
    let symbol = match req_str(e, "symbol", "TradeConfirm") { Ok(v) => v, Err(er) => { return Err(er); } };
    let asset_category = {
        let v = match req_str(e, "assetCategory", "TradeConfirm") { Ok(v) => v, Err(er) => { return Err(er); } };
        let cs = chars_of_str(v.as_str());
        AssetCategory::decode(&cs)
    };
    let quantity = match req_dec(e, "quantity", "TradeConfirm") { Ok(v) => v, Err(er) => { return Err(er); } };
    let trade_price = match req_dec(e, "tradePrice", "TradeConfirm") { Ok(v) => v, Err(er) => { return Err(er); } };
    Ok(TradeConfirm { account_id, acct_alias, model, exec_id, transaction_id, trade_id, order_id, trade_date, trade_time, date_time, settle_date, symbol, asset_category, quantity, trade_price })
}

/// An option exercise, assignment or expiration.
#[derive(Debug, Clone)]
pub struct OptionEAE {
    /// The `accountId` attribute.
    pub account_id: String,
    /// The `acctAlias` attribute.
    pub acct_alias: Option<String>,
    /// The `model` attribute.
    pub model: Option<String>,
    /// The `transactionID` attribute.
    pub transaction_id: Option<String>,
    /// The `actionID` attribute.
    pub action_id: Option<String>,
    /// The `type` attribute.
    pub action_type: Option<OptionAction>,
    /// The `date` attribute.
    pub date: Date,
    /// The `dateTime` attribute.
    pub date_time: Option<String>,
    /// The `conid` attribute.
    pub conid: Option<String>,
    /// The `symbol` attribute.
    pub symbol: String,
    /// The `description` attribute.
    pub description: Option<String>,
    /// The `quantity` attribute.
    pub quantity: Decimal,
}

/// Whether an element decodes as an `OptionEAE`: the mandatory
/// attributes are present and every present value decodes.
pub open spec fn option_e_a_e_wf(e: XElem) -> bool {
    &&& attr_of(e, "accountId"@) is Some
    &&& req_date_ok(e, "date"@)
    &&& attr_of(e, "symbol"@) is Some
    &&& req_dec_ok(e, "quantity"@)
}

/// How a decoded `OptionEAE` relates to its element: every field
/// equals its attribute's decoded value.
pub open spec fn option_e_a_e_obeys(e: XElem, t: OptionEAE) -> bool {
    &&& t.account_id@ == attr_of(e, "accountId"@)->0
    &&& opt_string_is(t.acct_alias, opt_str_of(e, "acctAlias"@))
    &&& opt_string_is(t.model, opt_str_of(e, "model"@))
    &&& opt_string_is(t.transaction_id, opt_str_of(e, "transactionID"@))
    &&& opt_string_is(t.action_id, opt_str_of(e, "actionID"@))
    &&& (match opt_str_of(e, "type"@) { None => t.action_type is None, Some(v) => t.action_type == Some(OptionAction::spec_decode(v)) })
    &&& t.date == req_date_of(e, "date"@)
    &&& opt_string_is(t.date_time, opt_str_of(e, "dateTime"@))
    &&& opt_string_is(t.conid, opt_str_of(e, "conid"@))
    &&& t.symbol@ == attr_of(e, "symbol"@)->0
    &&& opt_string_is(t.description, opt_str_of(e, "description"@))
    &&& t.quantity == req_dec_of(e, "quantity"@)
}

/// Decodes one `OptionEAE` element.
#[verifier::rlimit(40)]
pub fn decode_option_e_a_e(e: &Element) -> (r: Result<OptionEAE, ParseError>)
    ensures
        option_e_a_e_wf(e@) ==> r is Ok && option_e_a_e_obeys(e@, r->Ok_0),
        !option_e_a_e_wf(e@) ==> r is Err,
{
    let account_id = match req_str(e, "accountId", "OptionEAE") { Ok(v) => v, Err(er) => { return Err(er); } };
    let acct_alias = opt_str(e, "acctAlias");
    let model = opt_str(e, "model");
    let transaction_id = opt_str(e, "transactionID");
    let action_id = opt_str(e, "actionID");
    let action_type = match opt_str(e, "type") {
        None => None,
        Some(v) => {
            let cs = chars_of_str(v.as_str());
            Some(OptionAction::decode(&cs))
        },
    };
    let date = match req_date(e, "date", "OptionEAE") { Ok(v) => v, Err(er) => { return Err(er); } };
    let date_time = opt_str(e, "dateTime");
    let conid = opt_str(e, "conid");
    let symbol = match req_str(e, "symbol", "OptionEAE") { Ok(v) => v, Err(er) => { return Err(er); } };
    let description = opt_str(e, "description");
    let quantity = match req_dec(e, "quantity", "OptionEAE") { Ok(v) => v, Err(er) => { return Err(er); } };
    Ok(OptionEAE { account_id, acct_alias, model, transaction_id, action_id, action_type, date, date_time, conid, symbol, description, quantity })
}

/// A foreign-exchange transaction.
#[derive(Debug, Clone)]
pub struct FxTransaction {
    /// The `accountId` attribute.
    pub account_id: String,
    /// The `acctAlias` attribute.
    pub acct_alias: Option<String>,
    /// The `model` attribute.
    pub model: Option<String>,
    /// The `transactionID` attribute.
    pub transaction_id: Option<String>,
    /// The `actionID` attribute.
    pub action_id: Option<String>,
    /// The `reportDate` attribute.
    pub report_date: Option<Date>,
    /// The `dateTime` attribute.
    pub date_time: Option<String>,
    /// The `description` attribute.
    pub description: Option<String>,
    /// The `functionalCurrency` attribute.
    pub functional_currency: Option<String>,
    /// The `fromCurrency` attribute.
    pub from_currency: String,
    /// The `toCurrency` attribute.
    pub to_currency: String,
    /// The `quantity` attribute.
    pub quantity: Decimal,
    /// The `proceeds` attribute.
    pub proceeds: Decimal,
}

/// Whether an element decodes as a `FxTransaction`: the mandatory
/// attributes are present and every present value decodes.
pub open spec fn fx_transaction_wf(e: XElem) -> bool {
    &&& attr_of(e, "accountId"@) is Some
    &&& opt_date_ok(e, "reportDate"@)
    &&& attr_of(e, "fromCurrency"@) is Some
    &&& attr_of(e, "toCurrency"@) is Some
    &&& req_dec_ok(e, "quantity"@)
    &&& req_dec_ok(e, "proceeds"@)
}

/// How a decoded `FxTransaction` relates to its element: every field
/// equals its attribute's decoded value.
pub open spec fn fx_transaction_obeys(e: XElem, t: FxTransaction) -> bool {
    &&& t.account_id@ == attr_of(e, "accountId"@)->0
    &&& opt_string_is(t.acct_alias, opt_str_of(e, "acctAlias"@))
    &&& opt_string_is(t.model, opt_str_of(e, "model"@))
    &&& opt_string_is(t.transaction_id, opt_str_of(e, "transactionID"@))
    &&& opt_string_is(t.action_id, opt_str_of(e, "actionID"@))
    &&& t.report_date == opt_date_of(e, "reportDate"@)
    &&& opt_string_is(t.date_time, opt_str_of(e, "dateTime"@))
    &&& opt_string_is(t.description, opt_str_of(e, "description"@))
    &&& opt_string_is(t.functional_currency, opt_str_of(e, "functionalCurrency"@))
    &&& t.from_currency@ == attr_of(e, "fromCurrency"@)->0
    &&& t.to_currency@ == attr_of(e, "toCurrency"@)->0
    &&& t.quantity == req_dec_of(e, "quantity"@)
    &&& t.proceeds == req_dec_of(e, "proceeds"@)
}

/// Decodes one `FxTransaction` element.
#[verifier::rlimit(40)]
pub fn decode_fx_transaction(e: &Element) -> (r: Result<FxTransaction, ParseError>)
    ensures
        fx_transaction_wf(e@) ==> r is Ok && fx_transaction_obeys(e@, r->Ok_0),
        !fx_transaction_wf(e@) ==> r is Err,
{
    let account_id = match req_str(e, "accountId", "FxTransaction") { Ok(v) => v, Err(er) => { return Err(er); } };
    let acct_alias = opt_str(e, "acctAlias");
    let model = opt_str(e, "model");
    let transaction_id = opt_str(e, "transactionID");
    let action_id = opt_str(e, "actionID");
    let report_date = match opt_date(e, "reportDate", "FxTransaction") { Ok(v) => v, Err(er) => { return Err(er); } };
    let date_time = opt_str(e, "dateTime");
    let description = opt_str(e, "description");
    let functional_currency = opt_str(e, "functionalCurrency");
    let from_currency = match req_str(e, "fromCurrency", "FxTransaction") { Ok(v) => v, Err(er) => { return Err(er); } };
    let to_currency = match req_str(e, "toCurrency", "FxTransaction") { Ok(v) => v, Err(er) => { return Err(er); } };
    let quantity = match req_dec(e, "quantity", "FxTransaction") { Ok(v) => v, Err(er) => { return Err(er); } };
    let proceeds = match req_dec(e, "proceeds", "FxTransaction") { Ok(v) => v, Err(er) => { return Err(er); } };
    Ok(FxTransaction { account_id, acct_alias, model, transaction_id, action_id, report_date, date_time, description, functional_currency, from_currency, to_currency, quantity, proceeds })
}

/// A change in a dividend accrual.
#[derive(Debug, Clone)]
pub struct ChangeInDividendAccrual {
    /// The `accountId` attribute.
    pub account_id: String,
    /// The `acctAlias` attribute.
    pub acct_alias: Option<String>,
    /// The `model` attribute.
    pub model: Option<String>,
    /// The `currency` attribute.
    pub currency: Option<String>,
    /// The `fxRateToBase` attribute.
    pub fx_rate_to_base: Option<Decimal>,
    /// The `assetCategory` attribute.
    pub asset_category: Option<AssetCategory>,
    /// The `symbol` attribute.
    pub symbol: String,
    /// The `description` attribute.
    pub description: Option<String>,
    /// The `conid` attribute.
    pub conid: Option<String>,
    /// The `securityID` attribute.
    pub security_id: Option<String>,
    /// The `exDate` attribute.
    pub ex_date: Date,
    /// The `grossRate` attribute.
    pub gross_rate: Decimal,
    /// The `netAmount` attribute.
    pub net_amount: Decimal,
}

/// Whether an element decodes as a `ChangeInDividendAccrual`: the mandatory
/// attributes are present and every present value decodes.
pub open spec fn change_in_dividend_accrual_wf(e: XElem) -> bool {
    &&& attr_of(e, "accountId"@) is Some
    &&& opt_dec_ok(e, "fxRateToBase"@)
    &&& attr_of(e, "symbol"@) is Some
    &&& req_date_ok(e, "exDate"@)
    &&& req_dec_ok(e, "grossRate"@)
    &&& req_dec_ok(e, "netAmount"@)
}

/// How a decoded `ChangeInDividendAccrual` relates to its element: every field
/// equals its attribute's decoded value.
pub open spec fn change_in_dividend_accrual_obeys(e: XElem, t: ChangeInDividendAccrual) -> bool {
    &&& t.account_id@ == attr_of(e, "accountId"@)->0
    &&& opt_string_is(t.acct_alias, opt_str_of(e, "acctAlias"@))
    &&& opt_string_is(t.model, opt_str_of(e, "model"@))
    &&& opt_string_is(t.currency, opt_str_of(e, "currency"@))
    &&& t.fx_rate_to_base == opt_dec_of(e, "fxRateToBase"@)
    &&& (match opt_str_of(e, "assetCategory"@) { None => t.asset_category is None, Some(v) => t.asset_category == Some(AssetCategory::spec_decode(v)) })
    &&& t.symbol@ == attr_of(e, "symbol"@)->0
    &&& opt_string_is(t.description, opt_str_of(e, "description"@))
    &&& opt_string_is(t.conid, opt_str_of(e, "conid"@))
    &&& opt_string_is(t.security_id, opt_str_of(e, "securityID"@))
    &&& t.ex_date == req_date_of(e, "exDate"@)
    &&& t.gross_rate == req_dec_of(e, "grossRate"@)
    &&& t.net_amount == req_dec_of(e, "netAmount"@)
}

/// Decodes one `ChangeInDividendAccrual` element.
#[verifier::rlimit(40)]
pub fn decode_change_in_dividend_accrual(e: &Element) -> (r: Result<ChangeInDividendAccrual, ParseError>)
    ensures
        change_in_dividend_accrual_wf(e@) ==> r is Ok && change_in_dividend_accrual_obeys(e@, r->Ok_0),
        !change_in_dividend_accrual_wf(e@) ==> r is Err,
{
    let account_id = match req_str(e, "accountId", "ChangeInDividendAccrual") { Ok(v) => v, Err(er) => { return Err(er); } };
    let acct_alias = opt_str(e, "acctAlias");
    let model = opt_str(e, "model");
    let currency = opt_str(e, "currency");
    let fx_rate_to_base = match opt_dec(e, "fxRateToBase", "ChangeInDividendAccrual") { Ok(v) => v, Err(er) => { return Err(er); } };
    let asset_category = match opt_str(e, "assetCategory") {
        None => None,
        Some(v) => {
            let cs = chars_of_str(v.as_str());
            Some(AssetCategory::decode(&cs))
        },
    };
    let symbol = match req_str(e, "symbol", "ChangeInDividendAccrual") { Ok(v) => v, Err(er) => { return Err(er); } };
    let description = opt_str(e, "description");
    let conid = opt_str(e, "conid");
    let security_id = opt_str(e, "securityID");
    let ex_date = match req_date(e, "exDate", "ChangeInDividendAccrual") { Ok(v) => v, Err(er) => { return Err(er); } };
    let gross_rate = match req_dec(e, "grossRate", "ChangeInDividendAccrual") { Ok(v) => v, Err(er) => { return Err(er); } };
    let net_amount = match req_dec(e, "netAmount", "ChangeInDividendAccrual") { Ok(v) => v, Err(er) => { return Err(er); } };
    Ok(ChangeInDividendAccrual { account_id, acct_alias, model, currency, fx_rate_to_base, asset_category, symbol, description, conid, security_id, ex_date, gross_rate, net_amount })
}

/// An open dividend accrual.
#[derive(Debug, Clone)]
pub struct OpenDividendAccrual {
    /// The `accountId` attribute.
    pub account_id: String,
    /// The `acctAlias` attribute.
    pub acct_alias: Option<String>,
    /// The `model` attribute.
    pub model: Option<String>,
    /// The `currency` attribute.
    pub currency: Option<String>,
    /// The `fxRateToBase` attribute.
    pub fx_rate_to_base: Option<Decimal>,
    /// The `assetCategory` attribute.
    pub asset_category: Option<AssetCategory>,
    /// The `symbol` attribute.
    pub symbol: String,
    /// The `description` attribute.
    pub description: Option<String>,
    /// The `conid` attribute.
    pub conid: Option<String>,
    /// The `securityID` attribute.
    pub security_id: Option<String>,
    /// The `exDate` attribute.
    pub ex_date: Date,
    /// The `quantity` attribute.
    pub quantity: Decimal,
    /// The `grossRate` attribute.
    pub gross_rate: Decimal,
}

/// Whether an element decodes as an `OpenDividendAccrual`: the mandatory
/// attributes are present and every present value decodes.
pub open spec fn open_dividend_accrual_wf(e: XElem) -> bool {
    &&& attr_of(e, "accountId"@) is Some
    &&& opt_dec_ok(e, "fxRateToBase"@)
    &&& attr_of(e, "symbol"@) is Some
    &&& req_date_ok(e, "exDate"@)
    &&& req_dec_ok(e, "quantity"@)
    &&& req_dec_ok(e, "grossRate"@)
}

/// How a decoded `OpenDividendAccrual` relates to its element: every field
/// equals its attribute's decoded value.
pub open spec fn open_dividend_accrual_obeys(e: XElem, t: OpenDividendAccrual) -> bool {
    &&& t.account_id@ == attr_of(e, "accountId"@)->0
    &&& opt_string_is(t.acct_alias, opt_str_of(e, "acctAlias"@))
    &&& opt_string_is(t.model, opt_str_of(e, "model"@))
    &&& opt_string_is(t.currency, opt_str_of(e, "currency"@))
    &&& t.fx_rate_to_base == opt_dec_of(e, "fxRateToBase"@)
    &&& (match opt_str_of(e, "assetCategory"@) { None => t.asset_category is None, Some(v) => t.asset_category == Some(AssetCategory::spec_decode(v)) })
    &&& t.symbol@ == attr_of(e, "symbol"@)->0
    &&& opt_string_is(t.description, opt_str_of(e, "description"@))
    &&& opt_string_is(t.conid, opt_str_of(e, "conid"@))
    &&& opt_string_is(t.security_id, opt_str_of(e, "securityID"@))
    &&& t.ex_date == req_date_of(e, "exDate"@)
    &&& t.quantity == req_dec_of(e, "quantity"@)
    &&& t.gross_rate == req_dec_of(e, "grossRate"@)
}

/// Decodes one `OpenDividendAccrual` element.
#[verifier::rlimit(40)]
pub fn decode_open_dividend_accrual(e: &Element) -> (r: Result<OpenDividendAccrual, ParseError>)
    ensures
        open_dividend_accrual_wf(e@) ==> r is Ok && open_dividend_accrual_obeys(e@, r->Ok_0),
        !open_dividend_accrual_wf(e@) ==> r is Err,
{
    let account_id = match req_str(e, "accountId", "OpenDividendAccrual") { Ok(v) => v, Err(er) => { return Err(er); } };
    let acct_alias = opt_str(e, "acctAlias");
    let model = opt_str(e, "model");
    let currency = opt_str(e, "currency");
    let fx_rate_to_base = match opt_dec(e, "fxRateToBase", "OpenDividendAccrual") { Ok(v) => v, Err(er) => { return Err(er); } };
    let asset_category = match opt_str(e, "assetCategory") {
        None => None,
        Some(v) => {
            let cs = chars_of_str(v.as_str());
            Some(AssetCategory::decode(&cs))
        },
    };
    let symbol = match req_str(e, "symbol", "OpenDividendAccrual") { Ok(v) => v, Err(er) => { return Err(er); } };
    let description = opt_str(e, "description");
    let conid = opt_str(e, "conid");
    let security_id = opt_str(e, "securityID");
    let ex_date = match req_date(e, "exDate", "OpenDividendAccrual") { Ok(v) => v, Err(er) => { return Err(er); } };
    let quantity = match req_dec(e, "quantity", "OpenDividendAccrual") { Ok(v) => v, Err(er) => { return Err(er); } };
    let gross_rate = match req_dec(e, "grossRate", "OpenDividendAccrual") { Ok(v) => v, Err(er) => { return Err(er); } };
    Ok(OpenDividendAccrual { account_id, acct_alias, model, currency, fx_rate_to_base, asset_category, symbol, description, conid, security_id, ex_date, quantity, gross_rate })
}

/// Interest accruals for one currency.
#[derive(Debug, Clone)]
pub struct InterestAccrualsCurrency {
    /// The `accountId` attribute.
    pub account_id: String,
    /// The `currency` attribute.
    pub currency: String,
    /// The `fromDate` attribute.
    pub from_date: Date,
    /// The `toDate` attribute.
    pub to_date: Date,
    /// The `startingAccrualBalance` attribute.
    pub starting_balance: Decimal,
    /// The `interestAccrued` attribute.
    pub interest_accrued: Decimal,
    /// The `endingAccrualBalance` attribute.
    pub ending_balance: Decimal,
}

/// Whether an element decodes as an `InterestAccrualsCurrency`: the mandatory
/// attributes are present and every present value decodes.
pub open spec fn interest_accruals_currency_wf(e: XElem) -> bool {
    &&& attr_of(e, "accountId"@) is Some
    &&& attr_of(e, "currency"@) is Some
    &&& req_date_ok(e, "fromDate"@)
    &&& req_date_ok(e, "toDate"@)
    &&& req_dec_ok(e, "startingAccrualBalance"@)
    &&& req_dec_ok(e, "interestAccrued"@)
    &&& req_dec_ok(e, "endingAccrualBalance"@)
}

/// How a decoded `InterestAccrualsCurrency` relates to its element: every field
/// equals its attribute's decoded value.
pub open spec fn interest_accruals_currency_obeys(e: XElem, t: InterestAccrualsCurrency) -> bool {
    &&& t.account_id@ == attr_of(e, "accountId"@)->0
    &&& t.currency@ == attr_of(e, "currency"@)->0
    &&& t.from_date == req_date_of(e, "fromDate"@)
    &&& t.to_date == req_date_of(e, "toDate"@)
    &&& t.starting_balance == req_dec_of(e, "startingAccrualBalance"@)
    &&& t.interest_accrued == req_dec_of(e, "interestAccrued"@)
    &&& t.ending_balance == req_dec_of(e, "endingAccrualBalance"@)
}

/// Decodes one `InterestAccrualsCurrency` element.
#[verifier::rlimit(40)]
pub fn decode_interest_accruals_currency(e: &Element) -> (r: Result<InterestAccrualsCurrency, ParseError>)
    ensures
        interest_accruals_currency_wf(e@) ==> r is Ok && interest_accruals_currency_obeys(e@, r->Ok_0),
        !interest_accruals_currency_wf(e@) ==> r is Err,
{
    let account_id = match req_str(e, "accountId", "InterestAccrualsCurrency") { Ok(v) => v, Err(er) => { return Err(er); } };
    let currency = match req_str(e, "currency", "InterestAccrualsCurrency") { Ok(v) => v, Err(er) => { return Err(er); } };
    let from_date = match req_date(e, "fromDate", "InterestAccrualsCurrency") { Ok(v) => v, Err(er) => { return Err(er); } };
    let to_date = match req_date(e, "toDate", "InterestAccrualsCurrency") { Ok(v) => v, Err(er) => { return Err(er); } };
    let starting_balance = match req_dec(e, "startingAccrualBalance", "InterestAccrualsCurrency") { Ok(v) => v, Err(er) => { return Err(er); } };
    let interest_accrued = match req_dec(e, "interestAccrued", "InterestAccrualsCurrency") { Ok(v) => v, Err(er) => { return Err(er); } };
    let ending_balance = match req_dec(e, "endingAccrualBalance", "InterestAccrualsCurrency") { Ok(v) => v, Err(er) => { return Err(er); } };
    Ok(InterestAccrualsCurrency { account_id, currency, from_date, to_date, starting_balance, interest_accrued, ending_balance })
}

/// A security transfer.
#[derive(Debug, Clone)]
pub struct Transfer {
    /// The `accountId` attribute.
    pub account_id: String,
    /// The `acctAlias` attribute.
    pub acct_alias: Option<String>,
    /// The `model` attribute.
    pub model: Option<String>,
    /// The `transactionID` attribute.
    pub transaction_id: Option<String>,
    /// The `type` attribute.
    pub transfer_type: Option<TransferType>,
    /// The `conid` attribute.
    pub conid: Option<String>,
    /// The `symbol` attribute.
    pub symbol: String,
    /// The `description` attribute.
    pub description: Option<String>,
    /// The `assetCategory` attribute.
    pub asset_category: Option<AssetCategory>,
    /// The `cusip` attribute.
    pub cusip: Option<String>,
    /// The `quantity` attribute.
    pub quantity: Decimal,
    /// The `date` attribute.
    pub date: Date,
}

/// Whether an element decodes as a `Transfer`: the mandatory
/// attributes are present and every present value decodes.
pub open spec fn transfer_wf(e: XElem) -> bool {
    &&& attr_of(e, "accountId"@) is Some
    &&& attr_of(e, "symbol"@) is Some
    &&& req_dec_ok(e, "quantity"@)
    &&& req_date_ok(e, "date"@)
}

/// How a decoded `Transfer` relates to its element: every field
/// equals its attribute's decoded value.
pub open spec fn transfer_obeys(e: XElem, t: Transfer) -> bool {
    &&& t.account_id@ == attr_of(e, "accountId"@)->0
    &&& opt_string_is(t.acct_alias, opt_str_of(e, "acctAlias"@))
    &&& opt_string_is(t.model, opt_str_of(e, "model"@))
    &&& opt_string_is(t.transaction_id, opt_str_of(e, "transactionID"@))
    &&& (match opt_str_of(e, "type"@) { None => t.transfer_type is None, Some(v) => t.transfer_type == Some(TransferType::spec_decode(v)) })
    &&& opt_string_is(t.conid, opt_str_of(e, "conid"@))
    &&& t.symbol@ == attr_of(e, "symbol"@)->0
    &&& opt_string_is(t.description, opt_str_of(e, "description"@))
    &&& (match opt_str_of(e, "assetCategory"@) { None => t.asset_category is None, Some(v) => t.asset_category == Some(AssetCategory::spec_decode(v)) })
    &&& opt_string_is(t.cusip, opt_str_of(e, "cusip"@))
    &&& t.quantity == req_dec_of(e, "quantity"@)
    &&& t.date == req_date_of(e, "date"@)
}

/// Decodes one `Transfer` element.
#[verifier::rlimit(40)]
pub fn decode_transfer(e: &Element) -> (r: Result<Transfer, ParseError>)
    ensures
        transfer_wf(e@) ==> r is Ok && transfer_obeys(e@, r->Ok_0),
        !transfer_wf(e@) ==> r is Err,
{
    let account_id = match req_str(e, "accountId", "Transfer") { Ok(v) => v, Err(er) => { return Err(er); } };
    let acct_alias = opt_str(e, "acctAlias");
    let model = opt_str(e, "model");
    let transaction_id = opt_str(e, "transactionID");
    let transfer_type = match opt_str(e, "type") {
        None => None,
        Some(v) => {
            let cs = chars_of_str(v.as_str());
            Some(TransferType::decode(&cs))
        },
    };
    let conid = opt_str(e, "conid");
    let symbol = match req_str(e, "symbol", "Transfer") { Ok(v) => v, Err(er) => { return Err(er); } };
    let description = opt_str(e, "description");
    let asset_category = match opt_str(e, "assetCategory") {
        None => None,
        Some(v) => {
            let cs = chars_of_str(v.as_str());
            Some(AssetCategory::decode(&cs))
        },
    };
    let cusip = opt_str(e, "cusip");
    let quantity = match req_dec(e, "quantity", "Transfer") { Ok(v) => v, Err(er) => { return Err(er); } };
    let date = match req_date(e, "date", "Transfer") { Ok(v) => v, Err(er) => { return Err(er); } };
    Ok(Transfer { account_id, acct_alias, model, transaction_id, transfer_type, conid, symbol, description, asset_category, cusip, quantity, date })
}

/// Mark-to-market performance summary for one underlying.
#[derive(Debug, Clone)]
pub struct MTMPerformanceSummaryUnderlying {
    /// The `accountId` attribute.
    pub account_id: String,
    /// The `acctAlias` attribute.
    pub acct_alias: Option<String>,
    /// The `model` attribute.
    pub model: Option<String>,
    /// The `reportDate` attribute.
    pub report_date: Option<Date>,
    /// The `symbol` attribute.
    pub symbol: Option<String>,
    /// The `description` attribute.
    pub description: Option<String>,
    /// The `conid` attribute.
    pub conid: Option<String>,
    /// The `assetCategory` attribute.
    pub asset_category: Option<AssetCategory>,
    /// The `cusip` attribute.
    pub cusip: Option<String>,
}

/// Whether an element decodes as a `MTMPerformanceSummaryUnderlying`: the mandatory
/// attributes are present and every present value decodes.
pub open spec fn m_t_m_performance_summary_underlying_wf(e: XElem) -> bool {
    &&& attr_of(e, "accountId"@) is Some
    &&& opt_date_ok(e, "reportDate"@)
}

/// How a decoded `MTMPerformanceSummaryUnderlying` relates to its element: every field
/// equals its attribute's decoded value.
pub open spec fn m_t_m_performance_summary_underlying_obeys(e: XElem, t: MTMPerformanceSummaryUnderlying) -> bool {
    &&& t.account_id@ == attr_of(e, "accountId"@)->0
    &&& opt_string_is(t.acct_alias, opt_str_of(e, "acctAlias"@))
    &&& opt_string_is(t.model, opt_str_of(e, "model"@))
    &&& t.report_date == opt_date_of(e, "reportDate"@)
    &&& opt_string_is(t.symbol, opt_str_of(e, "symbol"@))
    &&& opt_string_is(t.description, opt_str_of(e, "description"@))
    &&& opt_string_is(t.conid, opt_str_of(e, "conid"@))
    &&& (match opt_str_of(e, "assetCategory"@) { None => t.asset_category is None, Some(v) => t.asset_category == Some(AssetCategory::spec_decode(v)) })
    &&& opt_string_is(t.cusip, opt_str_of(e, "cusip"@))
}

/// Decodes one `MTMPerformanceSummaryUnderlying` element.
#[verifier::rlimit(40)]
pub fn decode_m_t_m_performance_summary_underlying(e: &Element) -> (r: Result<MTMPerformanceSummaryUnderlying, ParseError>)
    ensures
        m_t_m_performance_summary_underlying_wf(e@) ==> r is Ok && m_t_m_performance_summary_underlying_obeys(e@, r->Ok_0),
        !m_t_m_performance_summary_underlying_wf(e@) ==> r is Err,
{
    let account_id = match req_str(e, "accountId", "MTMPerformanceSummaryUnderlying") { Ok(v) => v, Err(er) => { return Err(er); } };
    let acct_alias = opt_str(e, "acctAlias");
    let model = opt_str(e, "model");
    let report_date = match opt_date(e, "reportDate", "MTMPerformanceSummaryUnderlying") { Ok(v) => v, Err(er) => { return Err(er); } };
    let symbol = opt_str(e, "symbol");
    let description = opt_str(e, "description");
    let conid = opt_str(e, "conid");
    let asset_category = match opt_str(e, "assetCategory") {
        None => None,
        Some(v) => {
            let cs = chars_of_str(v.as_str());
            Some(AssetCategory::decode(&cs))
        },
    };
    let cusip = opt_str(e, "cusip");
    Ok(MTMPerformanceSummaryUnderlying { account_id, acct_alias, model, report_date, symbol, description, conid, asset_category, cusip })
}

/// FIFO performance summary for one underlying.
#[derive(Debug, Clone)]
pub struct FIFOPerformanceSummaryUnderlying {
    /// The `accountId` attribute.
    pub account_id: String,
    /// The `acctAlias` attribute.
    pub acct_alias: Option<String>,
    /// The `model` attribute.
    pub model: Option<String>,
    /// The `reportDate` attribute.
    pub report_date: Option<Date>,
    /// The `symbol` attribute.
    pub symbol: Option<String>,
    /// The `description` attribute.
    pub description: Option<String>,
    /// The `conid` attribute.
    pub conid: Option<String>,
    /// The `assetCategory` attribute.
    pub asset_category: Option<AssetCategory>,
    /// The `cusip` attribute.
    pub cusip: Option<String>,
}

/// Whether an element decodes as a `FIFOPerformanceSummaryUnderlying`: the mandatory
/// attributes are present and every present value decodes.
pub open spec fn f_i_f_o_performance_summary_underlying_wf(e: XElem) -> bool {
    &&& attr_of(e, "accountId"@) is Some
    &&& opt_date_ok(e, "reportDate"@)
}

/// How a decoded `FIFOPerformanceSummaryUnderlying` relates to its element: every field
/// equals its attribute's decoded value.
pub open spec fn f_i_f_o_performance_summary_underlying_obeys(e: XElem, t: FIFOPerformanceSummaryUnderlying) -> bool {
    &&& t.account_id@ == attr_of(e, "accountId"@)->0
    &&& opt_string_is(t.acct_alias, opt_str_of(e, "acctAlias"@))
    &&& opt_string_is(t.model, opt_str_of(e, "model"@))
    &&& t.report_date == opt_date_of(e, "reportDate"@)
    &&& opt_string_is(t.symbol, opt_str_of(e, "symbol"@))
    &&& opt_string_is(t.description, opt_str_of(e, "description"@))
    &&& opt_string_is(t.conid, opt_str_of(e, "conid"@))
    &&& (match opt_str_of(e, "assetCategory"@) { None => t.asset_category is None, Some(v) => t.asset_category == Some(AssetCategory::spec_decode(v)) })
    &&& opt_string_is(t.cusip, opt_str_of(e, "cusip"@))
}

/// Decodes one `FIFOPerformanceSummaryUnderlying` element.
#[verifier::rlimit(40)]
pub fn decode_f_i_f_o_performance_summary_underlying(e: &Element) -> (r: Result<FIFOPerformanceSummaryUnderlying, ParseError>)
    ensures
        f_i_f_o_performance_summary_underlying_wf(e@) ==> r is Ok && f_i_f_o_performance_summary_underlying_obeys(e@, r->Ok_0),
        !f_i_f_o_performance_summary_underlying_wf(e@) ==> r is Err,
{
    let account_id = match req_str(e, "accountId", "FIFOPerformanceSummaryUnderlying") { Ok(v) => v, Err(er) => { return Err(er); } };
    let acct_alias = opt_str(e, "acctAlias");
    let model = opt_str(e, "model");
    let report_date = match opt_date(e, "reportDate", "FIFOPerformanceSummaryUnderlying") { Ok(v) => v, Err(er) => { return Err(er); } };
    let symbol = opt_str(e, "symbol");
    let description = opt_str(e, "description");
    let conid = opt_str(e, "conid");
    let asset_category = match opt_str(e, "assetCategory") {
        None => None,
        Some(v) => {
            let cs = chars_of_str(v.as_str());
            Some(AssetCategory::decode(&cs))
        },
    };
    let cusip = opt_str(e, "cusip");
    Ok(FIFOPerformanceSummaryUnderlying { account_id, acct_alias, model, report_date, symbol, description, conid, asset_category, cusip })
}

/// Month-to-date and year-to-date performance summary.
#[derive(Debug, Clone)]
pub struct MTDYTDPerformanceSummary {
    /// The `accountId` attribute.
    pub account_id: String,
    /// The `acctAlias` attribute.
    pub acct_alias: Option<String>,
    /// The `model` attribute.
    pub model: Option<String>,
    /// The `symbol` attribute.
    pub symbol: Option<String>,
    /// The `conid` attribute.
    pub conid: Option<String>,
    /// The `assetCategory` attribute.
    pub asset_category: Option<AssetCategory>,
    /// The `mtdRealizedPnl` attribute.
    pub mtd_realized_pnl: Option<Decimal>,
    /// The `mtdUnrealizedPnl` attribute.
    pub mtd_unrealized_pnl: Option<Decimal>,
    /// The `mtdCommissions` attribute.
    pub mtd_commissions: Option<Decimal>,
}

/// Whether an element decodes as a `MTDYTDPerformanceSummary`: the mandatory
/// attributes are present and every present value decodes.
pub open spec fn m_t_d_y_t_d_performance_summary_wf(e: XElem) -> bool {
    &&& attr_of(e, "accountId"@) is Some
    &&& opt_dec_ok(e, "mtdRealizedPnl"@)
    &&& opt_dec_ok(e, "mtdUnrealizedPnl"@)
    &&& opt_dec_ok(e, "mtdCommissions"@)
}

/// How a decoded `MTDYTDPerformanceSummary` relates to its element: every field
/// equals its attribute's decoded value.
pub open spec fn m_t_d_y_t_d_performance_summary_obeys(e: XElem, t: MTDYTDPerformanceSummary) -> bool {
    &&& t.account_id@ == attr_of(e, "accountId"@)->0
    &&& opt_string_is(t.acct_alias, opt_str_of(e, "acctAlias"@))
    &&& opt_string_is(t.model, opt_str_of(e, "model"@))
    &&& opt_string_is(t.symbol, opt_str_of(e, "symbol"@))
    &&& opt_string_is(t.conid, opt_str_of(e, "conid"@))
    &&& (match opt_str_of(e, "assetCategory"@) { None => t.asset_category is None, Some(v) => t.asset_category == Some(AssetCategory::spec_decode(v)) })
    &&& t.mtd_realized_pnl == opt_dec_of(e, "mtdRealizedPnl"@)
    &&& t.mtd_unrealized_pnl == opt_dec_of(e, "mtdUnrealizedPnl"@)
    &&& t.mtd_commissions == opt_dec_of(e, "mtdCommissions"@)
}

/// Decodes one `MTDYTDPerformanceSummary` element.
#[verifier::rlimit(40)]
pub fn decode_m_t_d_y_t_d_performance_summary(e: &Element) -> (r: Result<MTDYTDPerformanceSummary, ParseError>)
    ensures
        m_t_d_y_t_d_performance_summary_wf(e@) ==> r is Ok && m_t_d_y_t_d_performance_summary_obeys(e@, r->Ok_0),
        !m_t_d_y_t_d_performance_summary_wf(e@) ==> r is Err,
{
    let account_id = match req_str(e, "accountId", "MTDYTDPerformanceSummary") { Ok(v) => v, Err(er) => { return Err(er); } };
    let acct_alias = opt_str(e, "acctAlias");
    let model = opt_str(e, "model");
    let symbol = opt_str(e, "symbol");
    let conid = opt_str(e, "conid");
    let asset_category = match opt_str(e, "assetCategory") {
        None => None,
        Some(v) => {
            let cs = chars_of_str(v.as_str());
            Some(AssetCategory::decode(&cs))
        },
    };
    let mtd_realized_pnl = match opt_dec(e, "mtdRealizedPnl", "MTDYTDPerformanceSummary") { Ok(v) => v, Err(er) => { return Err(er); } };
    let mtd_unrealized_pnl = match opt_dec(e, "mtdUnrealizedPnl", "MTDYTDPerformanceSummary") { Ok(v) => v, Err(er) => { return Err(er); } };
    let mtd_commissions = match opt_dec(e, "mtdCommissions", "MTDYTDPerformanceSummary") { Ok(v) => v, Err(er) => { return Err(er); } };
    Ok(MTDYTDPerformanceSummary { account_id, acct_alias, model, symbol, conid, asset_category, mtd_realized_pnl, mtd_unrealized_pnl, mtd_commissions })
}

/// One line of the statement of funds.
#[derive(Debug, Clone)]
pub struct StatementOfFundsLine {
    /// The `accountId` attribute.
    pub account_id: String,
    /// The `acctAlias` attribute.
    pub acct_alias: Option<String>,
    /// The `model` attribute.
    pub model: Option<String>,
    /// The `reportDate` attribute.
    pub report_date: Option<Date>,
    /// The `date` attribute.
    pub date: Option<Date>,
    /// The `currency` attribute.
    pub currency: Option<String>,
    /// The `activityCode` attribute.
    pub activity_code: Option<String>,
    /// The `activityDescription` attribute.
    pub activity_description: Option<String>,
    /// The `tradeID` attribute.
    pub trade_id: Option<String>,
}

/// Whether an element decodes as a `StatementOfFundsLine`: the mandatory
/// attributes are present and every present value decodes.
pub open spec fn statement_of_funds_line_wf(e: XElem) -> bool {
    &&& attr_of(e, "accountId"@) is Some
    &&& opt_date_ok(e, "reportDate"@)
    &&& opt_date_ok(e, "date"@)
}

/// How a decoded `StatementOfFundsLine` relates to its element: every field
/// equals its attribute's decoded value.
pub open spec fn statement_of_funds_line_obeys(e: XElem, t: StatementOfFundsLine) -> bool {
    &&& t.account_id@ == attr_of(e, "accountId"@)->0
    &&& opt_string_is(t.acct_alias, opt_str_of(e, "acctAlias"@))
    &&& opt_string_is(t.model, opt_str_of(e, "model"@))
    &&& t.report_date == opt_date_of(e, "reportDate"@)
    &&& t.date == opt_date_of(e, "date"@)
    &&& opt_string_is(t.currency, opt_str_of(e, "currency"@))
    &&& opt_string_is(t.activity_code, opt_str_of(e, "activityCode"@))
    &&& opt_string_is(t.activity_description, opt_str_of(e, "activityDescription"@))
    &&& opt_string_is(t.trade_id, opt_str_of(e, "tradeID"@))
}

/// Decodes one `StatementOfFundsLine` element.
#[verifier::rlimit(40)]
pub fn decode_statement_of_funds_line(e: &Element) -> (r: Result<StatementOfFundsLine, ParseError>)
    ensures
        statement_of_funds_line_wf(e@) ==> r is Ok && statement_of_funds_line_obeys(e@, r->Ok_0),
        !statement_of_funds_line_wf(e@) ==> r is Err,
{
    let account_id = match req_str(e, "accountId", "StatementOfFundsLine") { Ok(v) => v, Err(er) => { return Err(er); } };
    let acct_alias = opt_str(e, "acctAlias");
    let model = opt_str(e, "model");
    let report_date = match opt_date(e, "reportDate", "StatementOfFundsLine") { Ok(v) => v, Err(er) => { return Err(er); } };
    let date = match opt_date(e, "date", "StatementOfFundsLine") { Ok(v) => v, Err(er) => { return Err(er); } };
    let currency = opt_str(e, "currency");
    let activity_code = opt_str(e, "activityCode");
    let activity_description = opt_str(e, "activityDescription");
    let trade_id = opt_str(e, "tradeID");
    Ok(StatementOfFundsLine { account_id, acct_alias, model, report_date, date, currency, activity_code, activity_description, trade_id })
}

/// A change in position value.
#[derive(Debug, Clone)]
pub struct ChangeInPositionValue {
    /// The `accountId` attribute.
    pub account_id: String,
    /// The `acctAlias` attribute.
    pub acct_alias: Option<String>,
    /// The `model` attribute.
    pub model: Option<String>,
    /// The `reportDate` attribute.
    pub report_date: Option<Date>,
    /// The `symbol` attribute.
    pub symbol: Option<String>,
    /// The `conid` attribute.
    pub conid: Option<String>,
    /// The `assetCategory` attribute.
    pub asset_category: Option<AssetCategory>,
    /// The `currency` attribute.
    pub currency: Option<String>,
    /// The `priorPeriodValue` attribute.
    pub prior_period_value: Option<Decimal>,
}

/// Whether an element decodes as a `ChangeInPositionValue`: the mandatory
/// attributes are present and every present value decodes.
pub open spec fn change_in_position_value_wf(e: XElem) -> bool {
    &&& attr_of(e, "accountId"@) is Some
    &&& opt_date_ok(e, "reportDate"@)
    &&& opt_dec_ok(e, "priorPeriodValue"@)
}

/// How a decoded `ChangeInPositionValue` relates to its element: every field
/// equals its attribute's decoded value.
pub open spec fn change_in_position_value_obeys(e: XElem, t: ChangeInPositionValue) -> bool {
    &&& t.account_id@ == attr_of(e, "accountId"@)->0
    &&& opt_string_is(t.acct_alias, opt_str_of(e, "acctAlias"@))
    &&& opt_string_is(t.model, opt_str_of(e, "model"@))
    &&& t.report_date == opt_date_of(e, "reportDate"@)
    &&& opt_string_is(t.symbol, opt_str_of(e, "symbol"@))
    &&& opt_string_is(t.conid, opt_str_of(e, "conid"@))
    &&& (match opt_str_of(e, "assetCategory"@) { None => t.asset_category is None, Some(v) => t.asset_category == Some(AssetCategory::spec_decode(v)) })
    &&& opt_string_is(t.currency, opt_str_of(e, "currency"@))
    &&& t.prior_period_value == opt_dec_of(e, "priorPeriodValue"@)
}

/// Decodes one `ChangeInPositionValue` element.
#[verifier::rlimit(40)]
pub fn decode_change_in_position_value(e: &Element) -> (r: Result<ChangeInPositionValue, ParseError>)
    ensures
        change_in_position_value_wf(e@) ==> r is Ok && change_in_position_value_obeys(e@, r->Ok_0),
        !change_in_position_value_wf(e@) ==> r is Err,
{
    let account_id = match req_str(e, "accountId", "ChangeInPositionValue") { Ok(v) => v, Err(er) => { return Err(er); } };
    let acct_alias = opt_str(e, "acctAlias");
    let model = opt_str(e, "model");
    let report_date = match opt_date(e, "reportDate", "ChangeInPositionValue") { Ok(v) => v, Err(er) => { return Err(er); } };
    let symbol = opt_str(e, "symbol");
    let conid = opt_str(e, "conid");
    let asset_category = match opt_str(e, "assetCategory") {
        None => None,
        Some(v) => {
            let cs = chars_of_str(v.as_str());
            Some(AssetCategory::decode(&cs))
        },
    };
    let currency = opt_str(e, "currency");
    let prior_period_value = match opt_dec(e, "priorPeriodValue", "ChangeInPositionValue") { Ok(v) => v, Err(er) => { return Err(er); } };
    Ok(ChangeInPositionValue { account_id, acct_alias, model, report_date, symbol, conid, asset_category, currency, prior_period_value })
}

/// An unbundled commission detail line.
#[derive(Debug, Clone)]
pub struct UnbundledCommissionDetail {
    /// The `accountId` attribute.
    pub account_id: String,
    /// The `acctAlias` attribute.
    pub acct_alias: Option<String>,
    /// The `model` attribute.
    pub model: Option<String>,
    /// The `symbol` attribute.
    pub symbol: Option<String>,
    /// The `description` attribute.
    pub description: Option<String>,
    /// The `conid` attribute.
    pub conid: Option<String>,
    /// The `assetCategory` attribute.
    pub asset_category: Option<AssetCategory>,
    /// The `execID` attribute.
    pub exec_id: Option<String>,
    /// The `orderID` attribute.
    pub order_id: Option<String>,
}

/// Whether an element decodes as an `UnbundledCommissionDetail`: the mandatory
/// attributes are present and every present value decodes.
pub open spec fn unbundled_commission_detail_wf(e: XElem) -> bool {
    &&& attr_of(e, "accountId"@) is Some
}

/// How a decoded `UnbundledCommissionDetail` relates to its element: every field
/// equals its attribute's decoded value.
pub open spec fn unbundled_commission_detail_obeys(e: XElem, t: UnbundledCommissionDetail) -> bool {
    &&& t.account_id@ == attr_of(e, "accountId"@)->0
    &&& opt_string_is(t.acct_alias, opt_str_of(e, "acctAlias"@))
    &&& opt_string_is(t.model, opt_str_of(e, "model"@))
    &&& opt_string_is(t.symbol, opt_str_of(e, "symbol"@))
    &&& opt_string_is(t.description, opt_str_of(e, "description"@))
    &&& opt_string_is(t.conid, opt_str_of(e, "conid"@))
    &&& (match opt_str_of(e, "assetCategory"@) { None => t.asset_category is None, Some(v) => t.asset_category == Some(AssetCategory::spec_decode(v)) })
    &&& opt_string_is(t.exec_id, opt_str_of(e, "execID"@))
    &&& opt_string_is(t.order_id, opt_str_of(e, "orderID"@))
}

/// Decodes one `UnbundledCommissionDetail` element.
#[verifier::rlimit(40)]
pub fn decode_unbundled_commission_detail(e: &Element) -> (r: Result<UnbundledCommissionDetail, ParseError>)
    ensures
        unbundled_commission_detail_wf(e@) ==> r is Ok && unbundled_commission_detail_obeys(e@, r->Ok_0),
        !unbundled_commission_detail_wf(e@) ==> r is Err,
{
    let account_id = match req_str(e, "accountId", "UnbundledCommissionDetail") { Ok(v) => v, Err(er) => { return Err(er); } };
    let acct_alias = opt_str(e, "acctAlias");
    let model = opt_str(e, "model");
    let symbol = opt_str(e, "symbol");
    let description = opt_str(e, "description");
    let conid = opt_str(e, "conid");
    let asset_category = match opt_str(e, "assetCategory") {
        None => None,
        Some(v) => {
            let cs = chars_of_str(v.as_str());
            Some(AssetCategory::decode(&cs))
        },
    };
    let exec_id = opt_str(e, "execID");
    let order_id = opt_str(e, "orderID");
    Ok(UnbundledCommissionDetail { account_id, acct_alias, model, symbol, description, conid, asset_category, exec_id, order_id })
}

/// A client fee.
#[derive(Debug, Clone)]
pub struct ClientFee {
    /// The `accountId` attribute.
    pub account_id: String,
    /// The `acctAlias` attribute.
    pub acct_alias: Option<String>,
    /// The `model` attribute.
    pub model: Option<String>,
    /// The `date` attribute.
    pub date: Option<Date>,
    /// The `currency` attribute.
    pub currency: Option<String>,
    /// The `revenue` attribute.
    pub revenue: Option<Decimal>,
    /// The `expense` attribute.
    pub expense: Option<Decimal>,
    /// The `net` attribute.
    pub net: Option<Decimal>,
    /// The `description` attribute.
    pub description: Option<String>,
}

/// Whether an element decodes as a `ClientFee`: the mandatory
/// attributes are present and every present value decodes.
pub open spec fn client_fee_wf(e: XElem) -> bool {
    &&& attr_of(e, "accountId"@) is Some
    &&& opt_date_ok(e, "date"@)
    &&& opt_dec_ok(e, "revenue"@)
    &&& opt_dec_ok(e, "expense"@)
    &&& opt_dec_ok(e, "net"@)
}

/// How a decoded `ClientFee` relates to its element: every field
/// equals its attribute's decoded value.
pub open spec fn client_fee_obeys(e: XElem, t: ClientFee) -> bool {
    &&& t.account_id@ == attr_of(e, "accountId"@)->0
    &&& opt_string_is(t.acct_alias, opt_str_of(e, "acctAlias"@))
    &&& opt_string_is(t.model, opt_str_of(e, "model"@))
    &&& t.date == opt_date_of(e, "date"@)
    &&& opt_string_is(t.currency, opt_str_of(e, "currency"@))
    &&& t.revenue == opt_dec_of(e, "revenue"@)
    &&& t.expense == opt_dec_of(e, "expense"@)
    &&& t.net == opt_dec_of(e, "net"@)
    &&& opt_string_is(t.description, opt_str_of(e, "description"@))
}

/// Decodes one `ClientFee` element.
#[verifier::rlimit(40)]
pub fn decode_client_fee(e: &Element) -> (r: Result<ClientFee, ParseError>)
    ensures
        client_fee_wf(e@) ==> r is Ok && client_fee_obeys(e@, r->Ok_0),
        !client_fee_wf(e@) ==> r is Err,
{
    let account_id = match req_str(e, "accountId", "ClientFee") { Ok(v) => v, Err(er) => { return Err(er); } };
    let acct_alias = opt_str(e, "acctAlias");
    let model = opt_str(e, "model");
    let date = match opt_date(e, "date", "ClientFee") { Ok(v) => v, Err(er) => { return Err(er); } };
    let currency = opt_str(e, "currency");
    let revenue = match opt_dec(e, "revenue", "ClientFee") { Ok(v) => v, Err(er) => { return Err(er); } };
    let expense = match opt_dec(e, "expense", "ClientFee") { Ok(v) => v, Err(er) => { return Err(er); } };
    let net = match opt_dec(e, "net", "ClientFee") { Ok(v) => v, Err(er) => { return Err(er); } };
    let description = opt_str(e, "description");
    Ok(ClientFee { account_id, acct_alias, model, date, currency, revenue, expense, net, description })
}

/// A client fee detail line.
#[derive(Debug, Clone)]
pub struct ClientFeesDetail {
    /// The `accountId` attribute.
    pub account_id: String,
    /// The `acctAlias` attribute.
    pub acct_alias: Option<String>,
    /// The `model` attribute.
    pub model: Option<String>,
    /// The `date` attribute.
    pub date: Option<Date>,
    /// The `currency` attribute.
    pub currency: Option<String>,
    /// The `feeType` attribute.
    pub fee_type: Option<String>,
    /// The `revenue` attribute.
    pub revenue: Option<Decimal>,
    /// The `expense` attribute.
    pub expense: Option<Decimal>,
    /// The `net` attribute.
    pub net: Option<Decimal>,
}

/// Whether an element decodes as a `ClientFeesDetail`: the mandatory
/// attributes are present and every present value decodes.
pub open spec fn client_fees_detail_wf(e: XElem) -> bool {
    &&& attr_of(e, "accountId"@) is Some
    &&& opt_date_ok(e, "date"@)
    &&& opt_dec_ok(e, "revenue"@)
    &&& opt_dec_ok(e, "expense"@)
    &&& opt_dec_ok(e, "net"@)
}

/// How a decoded `ClientFeesDetail` relates to its element: every field
/// equals its attribute's decoded value.
pub open spec fn client_fees_detail_obeys(e: XElem, t: ClientFeesDetail) -> bool {
    &&& t.account_id@ == attr_of(e, "accountId"@)->0
    &&& opt_string_is(t.acct_alias, opt_str_of(e, "acctAlias"@))
    &&& opt_string_is(t.model, opt_str_of(e, "model"@))
    &&& t.date == opt_date_of(e, "date"@)
    &&& opt_string_is(t.currency, opt_str_of(e, "currency"@))
    &&& opt_string_is(t.fee_type, opt_str_of(e, "feeType"@))
    &&& t.revenue == opt_dec_of(e, "revenue"@)
    &&& t.expense == opt_dec_of(e, "expense"@)
    &&& t.net == opt_dec_of(e, "net"@)
}

/// Decodes one `ClientFeesDetail` element.
#[verifier::rlimit(40)]
pub fn decode_client_fees_detail(e: &Element) -> (r: Result<ClientFeesDetail, ParseError>)
    ensures
        client_fees_detail_wf(e@) ==> r is Ok && client_fees_detail_obeys(e@, r->Ok_0),
        !client_fees_detail_wf(e@) ==> r is Err,
{
    let account_id = match req_str(e, "accountId", "ClientFeesDetail") { Ok(v) => v, Err(er) => { return Err(er); } };
    let acct_alias = opt_str(e, "acctAlias");
    let model = opt_str(e, "model");
    let date = match opt_date(e, "date", "ClientFeesDetail") { Ok(v) => v, Err(er) => { return Err(er); } };
    let currency = opt_str(e, "currency");
    let fee_type = opt_str(e, "feeType");
    let revenue = match opt_dec(e, "revenue", "ClientFeesDetail") { Ok(v) => v, Err(er) => { return Err(er); } };
    let expense = match opt_dec(e, "expense", "ClientFeesDetail") { Ok(v) => v, Err(er) => { return Err(er); } };
    let net = match opt_dec(e, "net", "ClientFeesDetail") { Ok(v) => v, Err(er) => { return Err(er); } };
    Ok(ClientFeesDetail { account_id, acct_alias, model, date, currency, fee_type, revenue, expense, net })
}

/// A securities lending or borrowing activity.
#[derive(Debug, Clone)]
pub struct SLBActivity {
    /// The `accountId` attribute.
    pub account_id: String,
    /// The `acctAlias` attribute.
    pub acct_alias: Option<String>,
    /// The `model` attribute.
    pub model: Option<String>,
    /// The `symbol` attribute.
    pub symbol: Option<String>,
    /// The `description` attribute.
    pub description: Option<String>,
    /// The `conid` attribute.
    pub conid: Option<String>,
    /// The `assetCategory` attribute.
    pub asset_category: Option<AssetCategory>,
    /// The `date` attribute.
    pub date: Option<Date>,
    /// The `type` attribute.
    pub activity_type: Option<String>,
}

/// Whether an element decodes as a `SLBActivity`: the mandatory
/// attributes are present and every present value decodes.
pub open spec fn s_l_b_activity_wf(e: XElem) -> bool {
    &&& attr_of(e, "accountId"@) is Some
    &&& opt_date_ok(e, "date"@)
}

/// How a decoded `SLBActivity` relates to its element: every field
/// equals its attribute's decoded value.
pub open spec fn s_l_b_activity_obeys(e: XElem, t: SLBActivity) -> bool {
    &&& t.account_id@ == attr_of(e, "accountId"@)->0
    &&& opt_string_is(t.acct_alias, opt_str_of(e, "acctAlias"@))
    &&& opt_string_is(t.model, opt_str_of(e, "model"@))
    &&& opt_string_is(t.symbol, opt_str_of(e, "symbol"@))
    &&& opt_string_is(t.description, opt_str_of(e, "description"@))
    &&& opt_string_is(t.conid, opt_str_of(e, "conid"@))
    &&& (match opt_str_of(e, "assetCategory"@) { None => t.asset_category is None, Some(v) => t.asset_category == Some(AssetCategory::spec_decode(v)) })
    &&& t.date == opt_date_of(e, "date"@)
    &&& opt_string_is(t.activity_type, opt_str_of(e, "type"@))
}

/// Decodes one `SLBActivity` element.
#[verifier::rlimit(40)]
pub fn decode_s_l_b_activity(e: &Element) -> (r: Result<SLBActivity, ParseError>)
    ensures
        s_l_b_activity_wf(e@) ==> r is Ok && s_l_b_activity_obeys(e@, r->Ok_0),
        !s_l_b_activity_wf(e@) ==> r is Err,
{
    let account_id = match req_str(e, "accountId", "SLBActivity") { Ok(v) => v, Err(er) => { return Err(er); } };
    let acct_alias = opt_str(e, "acctAlias");
    let model = opt_str(e, "model");
    let symbol = opt_str(e, "symbol");
    let description = opt_str(e, "description");
    let conid = opt_str(e, "conid");
    let asset_category = match opt_str(e, "assetCategory") {
        None => None,
        Some(v) => {
            let cs = chars_of_str(v.as_str());
            Some(AssetCategory::decode(&cs))
        },
    };
    let date = match opt_date(e, "date", "SLBActivity") { Ok(v) => v, Err(er) => { return Err(er); } };
    let activity_type = opt_str(e, "type");
    Ok(SLBActivity { account_id, acct_alias, model, symbol, description, conid, asset_category, date, activity_type })
}

/// A securities lending or borrowing fee.
#[derive(Debug, Clone)]
pub struct SLBFee {
    /// The `accountId` attribute.
    pub account_id: String,
    /// The `acctAlias` attribute.
    pub acct_alias: Option<String>,
    /// The `model` attribute.
    pub model: Option<String>,
    /// The `symbol` attribute.
    pub symbol: Option<String>,
    /// The `description` attribute.
    pub description: Option<String>,
    /// The `conid` attribute.
    pub conid: Option<String>,
    /// The `assetCategory` attribute.
    pub asset_category: Option<AssetCategory>,
    /// The `valueDate` attribute.
    pub value_date: Option<Date>,
    /// The `startDate` attribute.
    pub start_date: Option<Date>,
}

/// Whether an element decodes as a `SLBFee`: the mandatory
/// attributes are present and every present value decodes.
pub open spec fn s_l_b_fee_wf(e: XElem) -> bool {
    &&& attr_of(e, "accountId"@) is Some
    &&& opt_date_ok(e, "valueDate"@)
    &&& opt_date_ok(e, "startDate"@)
}

/// How a decoded `SLBFee` relates to its element: every field
/// equals its attribute's decoded value.
pub open spec fn s_l_b_fee_obeys(e: XElem, t: SLBFee) -> bool {
    &&& t.account_id@ == attr_of(e, "accountId"@)->0
    &&& opt_string_is(t.acct_alias, opt_str_of(e, "acctAlias"@))
    &&& opt_string_is(t.model, opt_str_of(e, "model"@))
    &&& opt_string_is(t.symbol, opt_str_of(e, "symbol"@))
    &&& opt_string_is(t.description, opt_str_of(e, "description"@))
    &&& opt_string_is(t.conid, opt_str_of(e, "conid"@))
    &&& (match opt_str_of(e, "assetCategory"@) { None => t.asset_category is None, Some(v) => t.asset_category == Some(AssetCategory::spec_decode(v)) })
    &&& t.value_date == opt_date_of(e, "valueDate"@)
    &&& t.start_date == opt_date_of(e, "startDate"@)
}

/// Decodes one `SLBFee` element.
#[verifier::rlimit(40)]
pub fn decode_s_l_b_fee(e: &Element) -> (r: Result<SLBFee, ParseError>)
    ensures
        s_l_b_fee_wf(e@) ==> r is Ok && s_l_b_fee_obeys(e@, r->Ok_0),
        !s_l_b_fee_wf(e@) ==> r is Err,
{
    let account_id = match req_str(e, "accountId", "SLBFee") { Ok(v) => v, Err(er) => { return Err(er); } };
    let acct_alias = opt_str(e, "acctAlias");
    let model = opt_str(e, "model");
    let symbol = opt_str(e, "symbol");
    let description = opt_str(e, "description");
    let conid = opt_str(e, "conid");
    let asset_category = match opt_str(e, "assetCategory") {
        None => None,
        Some(v) => {
            let cs = chars_of_str(v.as_str());
            Some(AssetCategory::decode(&cs))
        },
    };
    let value_date = match opt_date(e, "valueDate", "SLBFee") { Ok(v) => v, Err(er) => { return Err(er); } };
    let start_date = match opt_date(e, "startDate", "SLBFee") { Ok(v) => v, Err(er) => { return Err(er); } };
    Ok(SLBFee { account_id, acct_alias, model, symbol, description, conid, asset_category, value_date, start_date })
}

/// A hard-to-borrow detail line.
#[derive(Debug, Clone)]
pub struct HardToBorrowDetail {
    /// The `accountId` attribute.
    pub account_id: String,
    /// The `acctAlias` attribute.
    pub acct_alias: Option<String>,
    /// The `model` attribute.
    pub model: Option<String>,
    /// The `symbol` attribute.
    pub symbol: Option<String>,
    /// The `description` attribute.
    pub description: Option<String>,
    /// The `conid` attribute.
    pub conid: Option<String>,
    /// The `assetCategory` attribute.
    pub asset_category: Option<AssetCategory>,
    /// The `valueDate` attribute.
    pub value_date: Option<Date>,
    /// The `quantity` attribute.
    pub quantity: Option<Decimal>,
}

/// Whether an element decodes as a `HardToBorrowDetail`: the mandatory
/// attributes are present and every present value decodes.
pub open spec fn hard_to_borrow_detail_wf(e: XElem) -> bool {
    &&& attr_of(e, "accountId"@) is Some
    &&& opt_date_ok(e, "valueDate"@)
    &&& opt_dec_ok(e, "quantity"@)
}

/// How a decoded `HardToBorrowDetail` relates to its element: every field
/// equals its attribute's decoded value.
pub open spec fn hard_to_borrow_detail_obeys(e: XElem, t: HardToBorrowDetail) -> bool {
    &&& t.account_id@ == attr_of(e, "accountId"@)->0
    &&& opt_string_is(t.acct_alias, opt_str_of(e, "acctAlias"@))
    &&& opt_string_is(t.model, opt_str_of(e, "model"@))
    &&& opt_string_is(t.symbol, opt_str_of(e, "symbol"@))
    &&& opt_string_is(t.description, opt_str_of(e, "description"@))
    &&& opt_string_is(t.conid, opt_str_of(e, "conid"@))
    &&& (match opt_str_of(e, "assetCategory"@) { None => t.asset_category is None, Some(v) => t.asset_category == Some(AssetCategory::spec_decode(v)) })
    &&& t.value_date == opt_date_of(e, "valueDate"@)
    &&& t.quantity == opt_dec_of(e, "quantity"@)
}

/// Decodes one `HardToBorrowDetail` element.
#[verifier::rlimit(40)]
pub fn decode_hard_to_borrow_detail(e: &Element) -> (r: Result<HardToBorrowDetail, ParseError>)
    ensures
        hard_to_borrow_detail_wf(e@) ==> r is Ok && hard_to_borrow_detail_obeys(e@, r->Ok_0),
        !hard_to_borrow_detail_wf(e@) ==> r is Err,
{
    let account_id = match req_str(e, "accountId", "HardToBorrowDetail") { Ok(v) => v, Err(er) => { return Err(er); } };
    let acct_alias = opt_str(e, "acctAlias");
    let model = opt_str(e, "model");
    let symbol = opt_str(e, "symbol");
    let description = opt_str(e, "description");
    let conid = opt_str(e, "conid");
    let asset_category = match opt_str(e, "assetCategory") {
        None => None,
        Some(v) => {
            let cs = chars_of_str(v.as_str());
            Some(AssetCategory::decode(&cs))
        },
    };
    let value_date = match opt_date(e, "valueDate", "HardToBorrowDetail") { Ok(v) => v, Err(er) => { return Err(er); } };
    let quantity = match opt_dec(e, "quantity", "HardToBorrowDetail") { Ok(v) => v, Err(er) => { return Err(er); } };
    Ok(HardToBorrowDetail { account_id, acct_alias, model, symbol, description, conid, asset_category, value_date, quantity })
}

/// An FX position lot.
#[derive(Debug, Clone)]
pub struct FxLot {
    /// The `accountId` attribute.
    pub account_id: String,
    /// The `acctAlias` attribute.
    pub acct_alias: Option<String>,
    /// The `model` attribute.
    pub model: Option<String>,
    /// The `assetCategory` attribute.
    pub asset_category: Option<String>,
    /// The `reportDate` attribute.
    pub report_date: Option<Date>,
    /// The `functionalCurrency` attribute.
    pub functional_currency: Option<String>,
    /// The `fxCurrency` attribute.
    pub fx_currency: Option<String>,
    /// The `quantity` attribute.
    pub quantity: Option<Decimal>,
    /// The `costPrice` attribute.
    pub cost_price: Option<Decimal>,
}

/// Whether an element decodes as a `FxLot`: the mandatory
/// attributes are present and every present value decodes.
pub open spec fn fx_lot_wf(e: XElem) -> bool {
    &&& attr_of(e, "accountId"@) is Some
    &&& opt_date_ok(e, "reportDate"@)
    &&& opt_dec_ok(e, "quantity"@)
    &&& opt_dec_ok(e, "costPrice"@)
}

/// How a decoded `FxLot` relates to its element: every field
/// equals its attribute's decoded value.
pub open spec fn fx_lot_obeys(e: XElem, t: FxLot) -> bool {
    &&& t.account_id@ == attr_of(e, "accountId"@)->0
    &&& opt_string_is(t.acct_alias, opt_str_of(e, "acctAlias"@))
    &&& opt_string_is(t.model, opt_str_of(e, "model"@))
    &&& opt_string_is(t.asset_category, opt_str_of(e, "assetCategory"@))
    &&& t.report_date == opt_date_of(e, "reportDate"@)
    &&& opt_string_is(t.functional_currency, opt_str_of(e, "functionalCurrency"@))
    &&& opt_string_is(t.fx_currency, opt_str_of(e, "fxCurrency"@))
    &&& t.quantity == opt_dec_of(e, "quantity"@)
    &&& t.cost_price == opt_dec_of(e, "costPrice"@)
}

/// Decodes one `FxLot` element.
#[verifier::rlimit(40)]
pub fn decode_fx_lot(e: &Element) -> (r: Result<FxLot, ParseError>)
    ensures
        fx_lot_wf(e@) ==> r is Ok && fx_lot_obeys(e@, r->Ok_0),
        !fx_lot_wf(e@) ==> r is Err,
{
    let account_id = match req_str(e, "accountId", "FxLot") { Ok(v) => v, Err(er) => { return Err(er); } };
    let acct_alias = opt_str(e, "acctAlias");
    let model = opt_str(e, "model");
    let asset_category = opt_str(e, "assetCategory");
    let report_date = match opt_date(e, "reportDate", "FxLot") { Ok(v) => v, Err(er) => { return Err(er); } };
    let functional_currency = opt_str(e, "functionalCurrency");
    let fx_currency = opt_str(e, "fxCurrency");
    let quantity = match opt_dec(e, "quantity", "FxLot") { Ok(v) => v, Err(er) => { return Err(er); } };
    let cost_price = match opt_dec(e, "costPrice", "FxLot") { Ok(v) => v, Err(er) => { return Err(er); } };
    Ok(FxLot { account_id, acct_alias, model, asset_category, report_date, functional_currency, fx_currency, quantity, cost_price })
}

/// An unsettled transfer.
#[derive(Debug, Clone)]
pub struct UnsettledTransfer {
    /// The `accountId` attribute.
    pub account_id: String,
    /// The `acctAlias` attribute.
    pub acct_alias: Option<String>,
    /// The `model` attribute.
    pub model: Option<String>,
    /// The `symbol` attribute.
    pub symbol: Option<String>,
    /// The `description` attribute.
    pub description: Option<String>,
    /// The `conid` attribute.
    pub conid: Option<String>,
    /// The `assetCategory` attribute.
    pub asset_category: Option<AssetCategory>,
    /// The `direction` attribute.
    pub direction: Option<String>,
    /// The `date` attribute.
    pub date: Option<Date>,
}

/// Whether an element decodes as an `UnsettledTransfer`: the mandatory
/// attributes are present and every present value decodes.
pub open spec fn unsettled_transfer_wf(e: XElem) -> bool {
    &&& attr_of(e, "accountId"@) is Some
    &&& opt_date_ok(e, "date"@)
}

/// How a decoded `UnsettledTransfer` relates to its element: every field
/// equals its attribute's decoded value.
pub open spec fn unsettled_transfer_obeys(e: XElem, t: UnsettledTransfer) -> bool {
    &&& t.account_id@ == attr_of(e, "accountId"@)->0
    &&& opt_string_is(t.acct_alias, opt_str_of(e, "acctAlias"@))
    &&& opt_string_is(t.model, opt_str_of(e, "model"@))
    &&& opt_string_is(t.symbol, opt_str_of(e, "symbol"@))
    &&& opt_string_is(t.description, opt_str_of(e, "description"@))
    &&& opt_string_is(t.conid, opt_str_of(e, "conid"@))
    &&& (match opt_str_of(e, "assetCategory"@) { None => t.asset_category is None, Some(v) => t.asset_category == Some(AssetCategory::spec_decode(v)) })
    &&& opt_string_is(t.direction, opt_str_of(e, "direction"@))
    &&& t.date == opt_date_of(e, "date"@)
}

/// Decodes one `UnsettledTransfer` element.
#[verifier::rlimit(40)]
pub fn decode_unsettled_transfer(e: &Element) -> (r: Result<UnsettledTransfer, ParseError>)
    ensures
        unsettled_transfer_wf(e@) ==> r is Ok && unsettled_transfer_obeys(e@, r->Ok_0),
        !unsettled_transfer_wf(e@) ==> r is Err,
{
    let account_id = match req_str(e, "accountId", "UnsettledTransfer") { Ok(v) => v, Err(er) => { return Err(er); } };
    let acct_alias = opt_str(e, "acctAlias");
    let model = opt_str(e, "model");
    let symbol = opt_str(e, "symbol");
    let description = opt_str(e, "description");
    let conid = opt_str(e, "conid");
    let asset_category = match opt_str(e, "assetCategory") {
        None => None,
        Some(v) => {
            let cs = chars_of_str(v.as_str());
            Some(AssetCategory::decode(&cs))
        },
    };
    let direction = opt_str(e, "direction");
    let date = match opt_date(e, "date", "UnsettledTransfer") { Ok(v) => v, Err(er) => { return Err(er); } };
    Ok(UnsettledTransfer { account_id, acct_alias, model, symbol, description, conid, asset_category, direction, date })
}

/// An inter-broker trade transfer.
#[derive(Debug, Clone)]
pub struct TradeTransfer {
    /// The `accountId` attribute.
    pub account_id: String,
    /// The `acctAlias` attribute.
    pub acct_alias: Option<String>,
    /// The `model` attribute.
    pub model: Option<String>,
    /// The `symbol` attribute.
    pub symbol: Option<String>,
    /// The `description` attribute.
    pub description: Option<String>,
    /// The `conid` attribute.
    pub conid: Option<String>,
    /// The `assetCategory` attribute.
    pub asset_category: Option<AssetCategory>,
    /// The `transferType` attribute.
    pub transfer_type: Option<String>,
    /// The `direction` attribute.
    pub direction: Option<String>,
}

/// Whether an element decodes as a `TradeTransfer`: the mandatory
/// attributes are present and every present value decodes.
pub open spec fn trade_transfer_wf(e: XElem) -> bool {
    &&& attr_of(e, "accountId"@) is Some
}

/// How a decoded `TradeTransfer` relates to its element: every field
/// equals its attribute's decoded value.
pub open spec fn trade_transfer_obeys(e: XElem, t: TradeTransfer) -> bool {
    &&& t.account_id@ == attr_of(e, "accountId"@)->0
    &&& opt_string_is(t.acct_alias, opt_str_of(e, "acctAlias"@))
    &&& opt_string_is(t.model, opt_str_of(e, "model"@))
    &&& opt_string_is(t.symbol, opt_str_of(e, "symbol"@))
    &&& opt_string_is(t.description, opt_str_of(e, "description"@))
    &&& opt_string_is(t.conid, opt_str_of(e, "conid"@))
    &&& (match opt_str_of(e, "assetCategory"@) { None => t.asset_category is None, Some(v) => t.asset_category == Some(AssetCategory::spec_decode(v)) })
    &&& opt_string_is(t.transfer_type, opt_str_of(e, "transferType"@))
    &&& opt_string_is(t.direction, opt_str_of(e, "direction"@))
}

/// Decodes one `TradeTransfer` element.
#[verifier::rlimit(40)]
pub fn decode_trade_transfer(e: &Element) -> (r: Result<TradeTransfer, ParseError>)
    ensures
        trade_transfer_wf(e@) ==> r is Ok && trade_transfer_obeys(e@, r->Ok_0),
        !trade_transfer_wf(e@) ==> r is Err,
{
    let account_id = match req_str(e, "accountId", "TradeTransfer") { Ok(v) => v, Err(er) => { return Err(er); } };
    let acct_alias = opt_str(e, "acctAlias");
    let model = opt_str(e, "model");
    let symbol = opt_str(e, "symbol");
    let description = opt_str(e, "description");
    let conid = opt_str(e, "conid");
    let asset_category = match opt_str(e, "assetCategory") {
        None => None,
        Some(v) => {
            let cs = chars_of_str(v.as_str());
            Some(AssetCategory::decode(&cs))
        },
    };
    let transfer_type = opt_str(e, "transferType");
    let direction = opt_str(e, "direction");
    Ok(TradeTransfer { account_id, acct_alias, model, symbol, description, conid, asset_category, transfer_type, direction })
}

/// A prior-period position.
#[derive(Debug, Clone)]
pub struct PriorPeriodPosition {
    /// The `accountId` attribute.
    pub account_id: String,
    /// The `acctAlias` attribute.
    pub acct_alias: Option<String>,
    /// The `model` attribute.
    pub model: Option<String>,
    /// The `symbol` attribute.
    pub symbol: Option<String>,
    /// The `description` attribute.
    pub description: Option<String>,
    /// The `conid` attribute.
    pub conid: Option<String>,
    /// The `assetCategory` attribute.
    pub asset_category: Option<AssetCategory>,
    /// The `priorMtmPnl` attribute.
    pub prior_mtm_pnl: Option<Decimal>,
    /// The `date` attribute.
    pub date: Option<Date>,
}

/// Whether an element decodes as a `PriorPeriodPosition`: the mandatory
/// attributes are present and every present value decodes.
pub open spec fn prior_period_position_wf(e: XElem) -> bool {
    &&& attr_of(e, "accountId"@) is Some
    &&& opt_dec_ok(e, "priorMtmPnl"@)
    &&& opt_date_ok(e, "date"@)
}

/// How a decoded `PriorPeriodPosition` relates to its element: every field
/// equals its attribute's decoded value.
pub open spec fn prior_period_position_obeys(e: XElem, t: PriorPeriodPosition) -> bool {
    &&& t.account_id@ == attr_of(e, "accountId"@)->0
    &&& opt_string_is(t.acct_alias, opt_str_of(e, "acctAlias"@))
    &&& opt_string_is(t.model, opt_str_of(e, "model"@))
    &&& opt_string_is(t.symbol, opt_str_of(e, "symbol"@))
    &&& opt_string_is(t.description, opt_str_of(e, "description"@))
    &&& opt_string_is(t.conid, opt_str_of(e, "conid"@))
    &&& (match opt_str_of(e, "assetCategory"@) { None => t.asset_category is None, Some(v) => t.asset_category == Some(AssetCategory::spec_decode(v)) })
    &&& t.prior_mtm_pnl == opt_dec_of(e, "priorMtmPnl"@)
    &&& t.date == opt_date_of(e, "date"@)
}

/// Decodes one `PriorPeriodPosition` element.
#[verifier::rlimit(40)]
pub fn decode_prior_period_position(e: &Element) -> (r: Result<PriorPeriodPosition, ParseError>)
    ensures
        prior_period_position_wf(e@) ==> r is Ok && prior_period_position_obeys(e@, r->Ok_0),
        !prior_period_position_wf(e@) ==> r is Err,
{
    let account_id = match req_str(e, "accountId", "PriorPeriodPosition") { Ok(v) => v, Err(er) => { return Err(er); } };
    let acct_alias = opt_str(e, "acctAlias");
    let model = opt_str(e, "model");
    let symbol = opt_str(e, "symbol");
    let description = opt_str(e, "description");
    let conid = opt_str(e, "conid");
    let asset_category = match opt_str(e, "assetCategory") {
        None => None,
        Some(v) => {
            let cs = chars_of_str(v.as_str());
            Some(AssetCategory::decode(&cs))
        },
    };
    let prior_mtm_pnl = match opt_dec(e, "priorMtmPnl", "PriorPeriodPosition") { Ok(v) => v, Err(er) => { return Err(er); } };
    let date = match opt_date(e, "date", "PriorPeriodPosition") { Ok(v) => v, Err(er) => { return Err(er); } };
    Ok(PriorPeriodPosition { account_id, acct_alias, model, symbol, description, conid, asset_category, prior_mtm_pnl, date })
}

/// A tier interest detail line.
#[derive(Debug, Clone)]
pub struct TierInterestDetail {
    /// The `accountId` attribute.
    pub account_id: String,
    /// The `acctAlias` attribute.
    pub acct_alias: Option<String>,
    /// The `model` attribute.
    pub model: Option<String>,
    /// The `currency` attribute.
    pub currency: Option<String>,
    /// The `fxRateToBase` attribute.
    pub fx_rate_to_base: Option<Decimal>,
    /// The `interestType` attribute.
    pub interest_type: Option<String>,
    /// The `reportDate` attribute.
    pub report_date: Option<Date>,
    /// The `valueDate` attribute.
    pub value_date: Option<Date>,
    /// The `tierBreak` attribute.
    pub tier_break: Option<String>,
}

/// Whether an element decodes as a `TierInterestDetail`: the mandatory
/// attributes are present and every present value decodes.
pub open spec fn tier_interest_detail_wf(e: XElem) -> bool {
    &&& attr_of(e, "accountId"@) is Some
    &&& opt_dec_ok(e, "fxRateToBase"@)
    &&& opt_date_ok(e, "reportDate"@)
    &&& opt_date_ok(e, "valueDate"@)
}

/// How a decoded `TierInterestDetail` relates to its element: every field
/// equals its attribute's decoded value.
pub open spec fn tier_interest_detail_obeys(e: XElem, t: TierInterestDetail) -> bool {
    &&& t.account_id@ == attr_of(e, "accountId"@)->0
    &&& opt_string_is(t.acct_alias, opt_str_of(e, "acctAlias"@))
    &&& opt_string_is(t.model, opt_str_of(e, "model"@))
    &&& opt_string_is(t.currency, opt_str_of(e, "currency"@))
    &&& t.fx_rate_to_base == opt_dec_of(e, "fxRateToBase"@)
    &&& opt_string_is(t.interest_type, opt_str_of(e, "interestType"@))
    &&& t.report_date == opt_date_of(e, "reportDate"@)
    &&& t.value_date == opt_date_of(e, "valueDate"@)
    &&& opt_string_is(t.tier_break, opt_str_of(e, "tierBreak"@))
}

/// Decodes one `TierInterestDetail` element.
#[verifier::rlimit(40)]
pub fn decode_tier_interest_detail(e: &Element) -> (r: Result<TierInterestDetail, ParseError>)
    ensures
        tier_interest_detail_wf(e@) ==> r is Ok && tier_interest_detail_obeys(e@, r->Ok_0),
        !tier_interest_detail_wf(e@) ==> r is Err,
{
    let account_id = match req_str(e, "accountId", "TierInterestDetail") { Ok(v) => v, Err(er) => { return Err(er); } };
    let acct_alias = opt_str(e, "acctAlias");
    let model = opt_str(e, "model");
    let currency = opt_str(e, "currency");
    let fx_rate_to_base = match opt_dec(e, "fxRateToBase", "TierInterestDetail") { Ok(v) => v, Err(er) => { return Err(er); } };
    let interest_type = opt_str(e, "interestType");
    let report_date = match opt_date(e, "reportDate", "TierInterestDetail") { Ok(v) => v, Err(er) => { return Err(er); } };
    let value_date = match opt_date(e, "valueDate", "TierInterestDetail") { Ok(v) => v, Err(er) => { return Err(er); } };
    let tier_break = opt_str(e, "tierBreak");
    Ok(TierInterestDetail { account_id, acct_alias, model, currency, fx_rate_to_base, interest_type, report_date, value_date, tier_break })
}

/// A debit card activity.
#[derive(Debug, Clone)]
pub struct DebitCardActivity {
    /// The `accountId` attribute.
    pub account_id: String,
    /// The `acctAlias` attribute.
    pub acct_alias: Option<String>,
    /// The `model` attribute.
    pub model: Option<String>,
    /// The `date` attribute.
    pub date: Option<Date>,
    /// The `merchant` attribute.
    pub merchant: Option<String>,
    /// The `category` attribute.
    pub category: Option<String>,
    /// The `status` attribute.
    pub status: Option<String>,
    /// The `transactionType` attribute.
    pub transaction_type: Option<String>,
    /// The `amount` attribute.
    pub amount: Option<Decimal>,
}

/// Whether an element decodes as a `DebitCardActivity`: the mandatory
/// attributes are present and every present value decodes.
pub open spec fn debit_card_activity_wf(e: XElem) -> bool {
    &&& attr_of(e, "accountId"@) is Some
    &&& opt_date_ok(e, "date"@)
    &&& opt_dec_ok(e, "amount"@)
}

/// How a decoded `DebitCardActivity` relates to its element: every field
/// equals its attribute's decoded value.
pub open spec fn debit_card_activity_obeys(e: XElem, t: DebitCardActivity) -> bool {
    &&& t.account_id@ == attr_of(e, "accountId"@)->0
    &&& opt_string_is(t.acct_alias, opt_str_of(e, "acctAlias"@))
    &&& opt_string_is(t.model, opt_str_of(e, "model"@))
    &&& t.date == opt_date_of(e, "date"@)
    &&& opt_string_is(t.merchant, opt_str_of(e, "merchant"@))
    &&& opt_string_is(t.category, opt_str_of(e, "category"@))
    &&& opt_string_is(t.status, opt_str_of(e, "status"@))
    &&& opt_string_is(t.transaction_type, opt_str_of(e, "transactionType"@))
    &&& t.amount == opt_dec_of(e, "amount"@)
}

/// Decodes one `DebitCardActivity` element.
#[verifier::rlimit(40)]
pub fn decode_debit_card_activity(e: &Element) -> (r: Result<DebitCardActivity, ParseError>)
    ensures
        debit_card_activity_wf(e@) ==> r is Ok && debit_card_activity_obeys(e@, r->Ok_0),
        !debit_card_activity_wf(e@) ==> r is Err,
{
    let account_id = match req_str(e, "accountId", "DebitCardActivity") { Ok(v) => v, Err(er) => { return Err(er); } };
    let acct_alias = opt_str(e, "acctAlias");
    let model = opt_str(e, "model");
    let date = match opt_date(e, "date", "DebitCardActivity") { Ok(v) => v, Err(er) => { return Err(er); } };
    let merchant = opt_str(e, "merchant");
    let category = opt_str(e, "category");
    let status = opt_str(e, "status");
    let transaction_type = opt_str(e, "transactionType");
    let amount = match opt_dec(e, "amount", "DebitCardActivity") { Ok(v) => v, Err(er) => { return Err(er); } };
    Ok(DebitCardActivity { account_id, acct_alias, model, date, merchant, category, status, transaction_type, amount })
}

/// A sales tax line.
#[derive(Debug, Clone)]
pub struct SalesTax {
    /// The `accountId` attribute.
    pub account_id: String,
    /// The `acctAlias` attribute.
    pub acct_alias: Option<String>,
    /// The `model` attribute.
    pub model: Option<String>,
    /// The `date` attribute.
    pub date: Option<Date>,
    /// The `symbol` attribute.
    pub symbol: Option<String>,
    /// The `description` attribute.
    pub description: Option<String>,
    /// The `conid` attribute.
    pub conid: Option<String>,
    /// The `taxType` attribute.
    pub tax_type: Option<String>,
    /// The `taxAmount` attribute.
    pub tax_amount: Option<Decimal>,
}

/// Whether an element decodes as a `SalesTax`: the mandatory
/// attributes are present and every present value decodes.
pub open spec fn sales_tax_wf(e: XElem) -> bool {
    &&& attr_of(e, "accountId"@) is Some
    &&& opt_date_ok(e, "date"@)
    &&& opt_dec_ok(e, "taxAmount"@)
}

/// How a decoded `SalesTax` relates to its element: every field
/// equals its attribute's decoded value.
pub open spec fn sales_tax_obeys(e: XElem, t: SalesTax) -> bool {
    &&& t.account_id@ == attr_of(e, "accountId"@)->0
    &&& opt_string_is(t.acct_alias, opt_str_of(e, "acctAlias"@))
    &&& opt_string_is(t.model, opt_str_of(e, "model"@))
    &&& t.date == opt_date_of(e, "date"@)
    &&& opt_string_is(t.symbol, opt_str_of(e, "symbol"@))
    &&& opt_string_is(t.description, opt_str_of(e, "description"@))
    &&& opt_string_is(t.conid, opt_str_of(e, "conid"@))
    &&& opt_string_is(t.tax_type, opt_str_of(e, "taxType"@))
    &&& t.tax_amount == opt_dec_of(e, "taxAmount"@)
}

/// Decodes one `SalesTax` element.
#[verifier::rlimit(40)]
pub fn decode_sales_tax(e: &Element) -> (r: Result<SalesTax, ParseError>)
    ensures
        sales_tax_wf(e@) ==> r is Ok && sales_tax_obeys(e@, r->Ok_0),
        !sales_tax_wf(e@) ==> r is Err,
{
    let account_id = match req_str(e, "accountId", "SalesTax") { Ok(v) => v, Err(er) => { return Err(er); } };
    let acct_alias = opt_str(e, "acctAlias");
    let model = opt_str(e, "model");
    let date = match opt_date(e, "date", "SalesTax") { Ok(v) => v, Err(er) => { return Err(er); } };
    let symbol = opt_str(e, "symbol");
    let description = opt_str(e, "description");
    let conid = opt_str(e, "conid");
    let tax_type = opt_str(e, "taxType");
    let tax_amount = match opt_dec(e, "taxAmount", "SalesTax") { Ok(v) => v, Err(er) => { return Err(er); } };
    Ok(SalesTax { account_id, acct_alias, model, date, symbol, description, conid, tax_type, tax_amount })
}

/// A per-symbol summary line of the trades section.
#[derive(Debug, Clone)]
pub struct SymbolSummary {
    /// The `accountId` attribute.
    pub account_id: String,
    /// The `acctAlias` attribute.
    pub acct_alias: Option<String>,
    /// The `model` attribute.
    pub model: Option<String>,
    /// The `symbol` attribute.
    pub symbol: Option<String>,
    /// The `description` attribute.
    pub description: Option<String>,
    /// The `conid` attribute.
    pub conid: Option<String>,
    /// The `assetCategory` attribute.
    pub asset_category: Option<AssetCategory>,
    /// The `totalBuyQuantity` attribute.
    pub total_buy_quantity: Option<Decimal>,
    /// The `totalSellQuantity` attribute.
    pub total_sell_quantity: Option<Decimal>,
}

/// Whether an element decodes as a `SymbolSummary`: the mandatory
/// attributes are present and every present value decodes.
pub open spec fn symbol_summary_wf(e: XElem) -> bool {
    &&& attr_of(e, "accountId"@) is Some
    &&& opt_dec_ok(e, "totalBuyQuantity"@)
    &&& opt_dec_ok(e, "totalSellQuantity"@)
}

/// How a decoded `SymbolSummary` relates to its element: every field
/// equals its attribute's decoded value.
pub open spec fn symbol_summary_obeys(e: XElem, t: SymbolSummary) -> bool {
    &&& t.account_id@ == attr_of(e, "accountId"@)->0
    &&& opt_string_is(t.acct_alias, opt_str_of(e, "acctAlias"@))
    &&& opt_string_is(t.model, opt_str_of(e, "model"@))
    &&& opt_string_is(t.symbol, opt_str_of(e, "symbol"@))
    &&& opt_string_is(t.description, opt_str_of(e, "description"@))
    &&& opt_string_is(t.conid, opt_str_of(e, "conid"@))
    &&& (match opt_str_of(e, "assetCategory"@) { None => t.asset_category is None, Some(v) => t.asset_category == Some(AssetCategory::spec_decode(v)) })
    &&& t.total_buy_quantity == opt_dec_of(e, "totalBuyQuantity"@)
    &&& t.total_sell_quantity == opt_dec_of(e, "totalSellQuantity"@)
}

/// Decodes one `SymbolSummary` element.
#[verifier::rlimit(40)]
pub fn decode_symbol_summary(e: &Element) -> (r: Result<SymbolSummary, ParseError>)
    ensures
        symbol_summary_wf(e@) ==> r is Ok && symbol_summary_obeys(e@, r->Ok_0),
        !symbol_summary_wf(e@) ==> r is Err,
{
    let account_id = match req_str(e, "accountId", "SymbolSummary") { Ok(v) => v, Err(er) => { return Err(er); } };
    let acct_alias = opt_str(e, "acctAlias");
    let model = opt_str(e, "model");
    let symbol = opt_str(e, "symbol");
    let description = opt_str(e, "description");
    let conid = opt_str(e, "conid");
    let asset_category = match opt_str(e, "assetCategory") {
        None => None,
        Some(v) => {
            let cs = chars_of_str(v.as_str());
            Some(AssetCategory::decode(&cs))
        },
    };
    let total_buy_quantity = match opt_dec(e, "totalBuyQuantity", "SymbolSummary") { Ok(v) => v, Err(er) => { return Err(er); } };
    let total_sell_quantity = match opt_dec(e, "totalSellQuantity", "SymbolSummary") { Ok(v) => v, Err(er) => { return Err(er); } };
    Ok(SymbolSummary { account_id, acct_alias, model, symbol, description, conid, asset_category, total_buy_quantity, total_sell_quantity })
}

/// A per-asset summary line of the trades section.
#[derive(Debug, Clone)]
pub struct AssetSummary {
    /// The `accountId` attribute.
    pub account_id: String,
    /// The `acctAlias` attribute.
    pub acct_alias: Option<String>,
    /// The `model` attribute.
    pub model: Option<String>,
    /// The `assetCategory` attribute.
    pub asset_category: Option<AssetCategory>,
    /// The `totalBuyQuantity` attribute.
    pub total_buy_quantity: Option<Decimal>,
    /// The `totalSellQuantity` attribute.
    pub total_sell_quantity: Option<Decimal>,
    /// The `totalBuyValue` attribute.
    pub total_buy_value: Option<Decimal>,
    /// The `totalSellValue` attribute.
    pub total_sell_value: Option<Decimal>,
    /// The `totalCommission` attribute.
    pub total_commission: Option<Decimal>,
}

/// Whether an element decodes as an `AssetSummary`: the mandatory
/// attributes are present and every present value decodes.
pub open spec fn asset_summary_wf(e: XElem) -> bool {
    &&& attr_of(e, "accountId"@) is Some
    &&& opt_dec_ok(e, "totalBuyQuantity"@)
    &&& opt_dec_ok(e, "totalSellQuantity"@)
    &&& opt_dec_ok(e, "totalBuyValue"@)
    &&& opt_dec_ok(e, "totalSellValue"@)
    &&& opt_dec_ok(e, "totalCommission"@)
}

/// How a decoded `AssetSummary` relates to its element: every field
/// equals its attribute's decoded value.
pub open spec fn asset_summary_obeys(e: XElem, t: AssetSummary) -> bool {
    &&& t.account_id@ == attr_of(e, "accountId"@)->0
    &&& opt_string_is(t.acct_alias, opt_str_of(e, "acctAlias"@))
    &&& opt_string_is(t.model, opt_str_of(e, "model"@))
    &&& (match opt_str_of(e, "assetCategory"@) { None => t.asset_category is None, Some(v) => t.asset_category == Some(AssetCategory::spec_decode(v)) })
    &&& t.total_buy_quantity == opt_dec_of(e, "totalBuyQuantity"@)
    &&& t.total_sell_quantity == opt_dec_of(e, "totalSellQuantity"@)
    &&& t.total_buy_value == opt_dec_of(e, "totalBuyValue"@)
    &&& t.total_sell_value == opt_dec_of(e, "totalSellValue"@)
    &&& t.total_commission == opt_dec_of(e, "totalCommission"@)
}

/// Decodes one `AssetSummary` element.
#[verifier::rlimit(40)]
pub fn decode_asset_summary(e: &Element) -> (r: Result<AssetSummary, ParseError>)
    ensures
        asset_summary_wf(e@) ==> r is Ok && asset_summary_obeys(e@, r->Ok_0),
        !asset_summary_wf(e@) ==> r is Err,
{
    let account_id = match req_str(e, "accountId", "AssetSummary") { Ok(v) => v, Err(er) => { return Err(er); } };
    let acct_alias = opt_str(e, "acctAlias");
    let model = opt_str(e, "model");
    let asset_category = match opt_str(e, "assetCategory") {
        None => None,
        Some(v) => {
            let cs = chars_of_str(v.as_str());
            Some(AssetCategory::decode(&cs))
        },
    };
    let total_buy_quantity = match opt_dec(e, "totalBuyQuantity", "AssetSummary") { Ok(v) => v, Err(er) => { return Err(er); } };
    let total_sell_quantity = match opt_dec(e, "totalSellQuantity", "AssetSummary") { Ok(v) => v, Err(er) => { return Err(er); } };
    let total_buy_value = match opt_dec(e, "totalBuyValue", "AssetSummary") { Ok(v) => v, Err(er) => { return Err(er); } };
    let total_sell_value = match opt_dec(e, "totalSellValue", "AssetSummary") { Ok(v) => v, Err(er) => { return Err(er); } };
    let total_commission = match opt_dec(e, "totalCommission", "AssetSummary") { Ok(v) => v, Err(er) => { return Err(er); } };
    Ok(AssetSummary { account_id, acct_alias, model, asset_category, total_buy_quantity, total_sell_quantity, total_buy_value, total_sell_value, total_commission })
}

/// An order summary line of the trades section.
#[derive(Debug, Clone)]
pub struct Order {
    /// The `accountId` attribute.
    pub account_id: String,
    /// The `acctAlias` attribute.
    pub acct_alias: Option<String>,
    /// The `model` attribute.
    pub model: Option<String>,
    /// The `orderID` attribute.
    pub order_id: Option<String>,
    /// The `symbol` attribute.
    pub symbol: Option<String>,
    /// The `description` attribute.
    pub description: Option<String>,
    /// The `conid` attribute.
    pub conid: Option<String>,
    /// The `assetCategory` attribute.
    pub asset_category: Option<AssetCategory>,
    /// The `orderTime` attribute.
    pub order_time: Option<String>,
}

/// Whether an element decodes as an `Order`: the mandatory
/// attributes are present and every present value decodes.
pub open spec fn order_wf(e: XElem) -> bool {
    &&& attr_of(e, "accountId"@) is Some
}

/// How a decoded `Order` relates to its element: every field
/// equals its attribute's decoded value.
pub open spec fn order_obeys(e: XElem, t: Order) -> bool {
    &&& t.account_id@ == attr_of(e, "accountId"@)->0
    &&& opt_string_is(t.acct_alias, opt_str_of(e, "acctAlias"@))
    &&& opt_string_is(t.model, opt_str_of(e, "model"@))
    &&& opt_string_is(t.order_id, opt_str_of(e, "orderID"@))
    &&& opt_string_is(t.symbol, opt_str_of(e, "symbol"@))
    &&& opt_string_is(t.description, opt_str_of(e, "description"@))
    &&& opt_string_is(t.conid, opt_str_of(e, "conid"@))
    &&& (match opt_str_of(e, "assetCategory"@) { None => t.asset_category is None, Some(v) => t.asset_category == Some(AssetCategory::spec_decode(v)) })
    &&& opt_string_is(t.order_time, opt_str_of(e, "orderTime"@))
}

/// Decodes one `Order` element.
#[verifier::rlimit(40)]
pub fn decode_order(e: &Element) -> (r: Result<Order, ParseError>)
    ensures
        order_wf(e@) ==> r is Ok && order_obeys(e@, r->Ok_0),
        !order_wf(e@) ==> r is Err,
{
    let account_id = match req_str(e, "accountId", "Order") { Ok(v) => v, Err(er) => { return Err(er); } };
    let acct_alias = opt_str(e, "acctAlias");
    let model = opt_str(e, "model");
    let order_id = opt_str(e, "orderID");
    let symbol = opt_str(e, "symbol");
    let description = opt_str(e, "description");
    let conid = opt_str(e, "conid");
    let asset_category = match opt_str(e, "assetCategory") {
        None => None,
        Some(v) => {
            let cs = chars_of_str(v.as_str());
            Some(AssetCategory::decode(&cs))
        },
    };
    let order_time = opt_str(e, "orderTime");
    Ok(Order { account_id, acct_alias, model, order_id, symbol, description, conid, asset_category, order_time })
}

} // verus!
