//! Attribute access and the field decoders shared by every record kind.
//!
//! A record is an empty element whose data lives entirely in attributes.
//! Each field decoder reads one attribute; absence is permitted for
//! optional fields, and an empty string is treated exactly like an absent
//! attribute.  A present, non-empty attribute that fails its primitive
//! decoder is a fatal value error.

use vstd::prelude::*;
use crate::chars::{chars_eq, chars_of_str, sub_vec};
use crate::codes::{AssetCategory, BuySell, CashTransactionType, CorporateActionType, LevelOfDetail, OpenClose, OrderType, PutCall, SecurityIdType, SubCategory, TradeType, TransactionCode};
use crate::date::{spec_parse_date, parse_flex_date, Date};
use crate::decimal::{spec_parse_decimal, parse_decimal, Decimal};
use crate::error::ParseError;
use crate::xml::{Element, XAttr, XElem};

verus! {

/// The value of the first attribute named `name`, if any.
pub open spec fn attr_in(attrs: Seq<XAttr>, name: Seq<char>) -> Option<Seq<char>>
    decreases attrs.len(),
{
    if attrs.len() == 0 {
        None
    } else if attrs[0].name == name {
        Some(attrs[0].value)
    } else {
        attr_in(attrs.drop_first(), name)
    }
}

/// The value of an element's attribute `name`, if present.
pub open spec fn attr_of(e: XElem, name: Seq<char>) -> Option<Seq<char>> {
    attr_in(e.attrs, name)
}

/// A name-free prefix can be dropped without changing the lookup.
proof fn lemma_attr_in_skip(attrs: Seq<XAttr>, name: Seq<char>, i: int)
    requires
        0 <= i <= attrs.len(),
        forall|k: int| 0 <= k < i ==> (#[trigger] attrs[k]).name != name,
    ensures
        attr_in(attrs, name) == attr_in(attrs.skip(i), name),
    decreases i,
{
    if i > 0 {
        lemma_attr_in_skip(attrs, name, i - 1);
        let t = attrs.skip(i - 1);
        assert(t.len() > 0);
        assert(t[0] == attrs[i - 1]);
        assert(attrs[i - 1].name != name);
        assert(attr_in(t, name) == attr_in(t.drop_first(), name));
        assert(t.drop_first() =~= attrs.skip(i));
    } else {
        assert(attrs.skip(0) =~= attrs);
    }
}

/// Looks up an attribute by name; the first match wins.
pub fn attr_lookup(e: &Element, name: &str) -> (r: Option<String>)
    ensures
        match attr_of(e@, name@) {
            Some(v) => r is Some && r->0@ == v,
            None => r is None,
        },
{
    let nv = chars_of_str(name);
    let n = e.attrs.len();
    let mut i: usize = 0;
    while i < n
        invariant
            n == e.attrs.len(),
            i <= n,
            nv@ == name@,
            forall|k: int| 0 <= k < i ==> (#[trigger] e@.attrs[k]).name != name@,
        decreases n - i,
    {
        let an = chars_of_str(e.attrs[i].name.as_str());
        proof {
            assert(e@.attrs[i as int] == e.attrs@[i as int]@);
        }
        if chars_eq(&an, &nv) {
            proof {
                lemma_attr_in_skip(e@.attrs, name@, i as int);
                let t = e@.attrs.skip(i as int);
                assert(t[0] == e@.attrs[i as int]);
            }
            return Some(e.attrs[i].value.clone());
        }
        i += 1;
    }
    proof {
        lemma_attr_in_skip(e@.attrs, name@, n as int);
        assert(e@.attrs.skip(n as int) =~= Seq::<XAttr>::empty());
    }
    None
}

/// A mandatory string field: the attribute must be present; its value may
/// be empty.
pub fn req_str(e: &Element, name: &str, ctx: &str) -> (r: Result<String, ParseError>)
    ensures
        match attr_of(e@, name@) {
            Some(v) => r is Ok && r->Ok_0@ == v,
            None => r is Err && r->Err_0 is MissingField,
        },
{
    match attr_lookup(e, name) {
        Some(v) => Ok(v),
        None => Err(
            ParseError::MissingField { field: name.to_owned(), context: ctx.to_owned() },
        ),
    }
}

/// The value of an optional field: an absent attribute and an empty string
/// both mean "no value".
pub open spec fn opt_str_of(e: XElem, name: Seq<char>) -> Option<Seq<char>> {
    match attr_of(e, name) {
        None => None,
        Some(v) => if v.len() == 0 {
            None
        } else {
            Some(v)
        },
    }
}

/// An optional string field.
pub fn opt_str(e: &Element, name: &str) -> (r: Option<String>)
    ensures
        match opt_str_of(e@, name@) {
            Some(v) => r is Some && r->0@ == v,
            None => r is None,
        },
{
    match attr_lookup(e, name) {
        None => None,
        Some(v) => {
            if v.as_str().is_empty() {
                None
            } else {
                Some(v)
            }
        },
    }
}

/// Whether an optional decimal field decodes: absent or empty passes, a
/// present value must parse.
pub open spec fn opt_dec_ok(e: XElem, name: Seq<char>) -> bool {
    match opt_str_of(e, name) {
        None => true,
        Some(v) => spec_parse_decimal(v) is Some,
    }
}

/// The value of an optional decimal field, when it decodes.
pub open spec fn opt_dec_of(e: XElem, name: Seq<char>) -> Option<Decimal> {
    match opt_str_of(e, name) {
        None => None,
        Some(v) => spec_parse_decimal(v),
    }
}

/// An optional decimal field.
pub fn opt_dec(e: &Element, name: &str, ctx: &str) -> (r: Result<Option<Decimal>, ParseError>)
    ensures
        opt_dec_ok(e@, name@) ==> r is Ok && r->Ok_0 == opt_dec_of(e@, name@),
        !opt_dec_ok(e@, name@) ==> r is Err && r->Err_0 is InvalidValue,
{
    match opt_str(e, name) {
        None => Ok(None),
        Some(v) => {
            let cs = chars_of_str(v.as_str());
            match parse_decimal(&cs) {
                Some(d) => Ok(Some(d)),
                None => Err(
                    ParseError::InvalidValue {
                        field: name.to_owned(),
                        value: v,
                        context: ctx.to_owned(),
                    },
                ),
            }
        },
    }
}

/// Whether a mandatory decimal field decodes: the attribute must be
/// present and its value must parse.
pub open spec fn req_dec_ok(e: XElem, name: Seq<char>) -> bool {
    match attr_of(e, name) {
        None => false,
        Some(v) => spec_parse_decimal(v) is Some,
    }
}

/// The value of a mandatory decimal field, when it decodes.
pub open spec fn req_dec_of(e: XElem, name: Seq<char>) -> Decimal {
    spec_parse_decimal(attr_of(e, name)->0)->0
}

/// A mandatory decimal field.
pub fn req_dec(e: &Element, name: &str, ctx: &str) -> (r: Result<Decimal, ParseError>)
    ensures
        req_dec_ok(e@, name@) ==> r is Ok && r->Ok_0 == req_dec_of(e@, name@),
        !req_dec_ok(e@, name@) ==> r is Err,
{
    match attr_lookup(e, name) {
        None => Err(
            ParseError::MissingField { field: name.to_owned(), context: ctx.to_owned() },
        ),
        Some(v) => {
            let cs = chars_of_str(v.as_str());
            match parse_decimal(&cs) {
                Some(d) => Ok(d),
                None => Err(
                    ParseError::InvalidValue {
                        field: name.to_owned(),
                        value: v,
                        context: ctx.to_owned(),
                    },
                ),
            }
        },
    }
}

/// Whether an optional date field decodes.
pub open spec fn opt_date_ok(e: XElem, name: Seq<char>) -> bool {
    match opt_str_of(e, name) {
        None => true,
        Some(v) => spec_parse_date(v) is Some,
    }
}

/// The value of an optional date field, when it decodes.
pub open spec fn opt_date_of(e: XElem, name: Seq<char>) -> Option<Date> {
    match opt_str_of(e, name) {
        None => None,
        Some(v) => spec_parse_date(v),
    }
}

/// An optional date field, in either accepted textual form.
pub fn opt_date(e: &Element, name: &str, ctx: &str) -> (r: Result<Option<Date>, ParseError>)
    ensures
        opt_date_ok(e@, name@) ==> r is Ok && r->Ok_0 == opt_date_of(e@, name@),
        !opt_date_ok(e@, name@) ==> r is Err && r->Err_0 is InvalidValue,
{
    match opt_str(e, name) {
        None => Ok(None),
        Some(v) => {
            let cs = chars_of_str(v.as_str());
            match parse_flex_date(&cs) {
                Some(d) => Ok(Some(d)),
                None => Err(
                    ParseError::InvalidValue {
                        field: name.to_owned(),
                        value: v,
                        context: ctx.to_owned(),
                    },
                ),
            }
        },
    }
}

/// Whether a mandatory date field decodes.
pub open spec fn req_date_ok(e: XElem, name: Seq<char>) -> bool {
    match attr_of(e, name) {
        None => false,
        Some(v) => spec_parse_date(v) is Some,
    }
}

/// The value of a mandatory date field, when it decodes.
pub open spec fn req_date_of(e: XElem, name: Seq<char>) -> Date {
    spec_parse_date(attr_of(e, name)->0)->0
}

/// A mandatory date field, in either accepted textual form.
pub fn req_date(e: &Element, name: &str, ctx: &str) -> (r: Result<Date, ParseError>)
    ensures
        req_date_ok(e@, name@) ==> r is Ok && r->Ok_0 == req_date_of(e@, name@),
        !req_date_ok(e@, name@) ==> r is Err,
{
    match attr_lookup(e, name) {
        None => Err(
            ParseError::MissingField { field: name.to_owned(), context: ctx.to_owned() },
        ),
        Some(v) => {
            let cs = chars_of_str(v.as_str());
            match parse_flex_date(&cs) {
                Some(d) => Ok(d),
                None => Err(
                    ParseError::InvalidValue {
                        field: name.to_owned(),
                        value: v,
                        context: ctx.to_owned(),
                    },
                ),
            }
        },
    }
}

/// The boolean a token denotes: exactly `Y`/`y` and `N`/`n` are accepted.
pub open spec fn spec_parse_bool(v: Seq<char>) -> Option<bool> {
    if v == "Y"@ || v == "y"@ {
        Some(true)
    } else if v == "N"@ || v == "n"@ {
        Some(false)
    } else {
        None
    }
}

/// Whether an optional boolean field decodes: absent or empty passes, and
/// a present token must be one of `Y`, `y`, `N`, `n`; anything else is an
/// error, never a default.
pub open spec fn opt_bool_ok(e: XElem, name: Seq<char>) -> bool {
    match opt_str_of(e, name) {
        None => true,
        Some(v) => spec_parse_bool(v) is Some,
    }
}

/// The value of an optional boolean field, when it decodes.
pub open spec fn opt_bool_of(e: XElem, name: Seq<char>) -> Option<bool> {
    match opt_str_of(e, name) {
        None => None,
        Some(v) => spec_parse_bool(v),
    }
}

/// An optional boolean field.
pub fn opt_bool(e: &Element, name: &str, ctx: &str) -> (r: Result<Option<bool>, ParseError>)
    ensures
        opt_bool_ok(e@, name@) ==> r is Ok && r->Ok_0 == opt_bool_of(e@, name@),
        !opt_bool_ok(e@, name@) ==> r is Err && r->Err_0 is InvalidValue,
{
    match opt_str(e, name) {
        None => Ok(None),
        Some(v) => {
            let cs = chars_of_str(v.as_str());
            if crate::chars::chars_eq_str(&cs, "Y") || crate::chars::chars_eq_str(&cs, "y") {
                Ok(Some(true))
            } else if crate::chars::chars_eq_str(&cs, "N") || crate::chars::chars_eq_str(
                &cs,
                "n",
            ) {
                Ok(Some(false))
            } else {
                Err(
                    ParseError::InvalidValue {
                        field: name.to_owned(),
                        value: v,
                        context: ctx.to_owned(),
                    },
                )
            }
        },
    }
}

/// First `;` at or after `i`, or the end of the text.
pub open spec fn sep_end(s: Seq<char>, i: int) -> int
    decreases s.len() - i when 0 <= i <= s.len()
{
    if i < s.len() && s[i] != ';' {
        sep_end(s, i + 1)
    } else {
        i
    }
}

/// Bounds of a separator scan.
pub proof fn lemma_sep_end(s: Seq<char>, i: int)
    requires
        0 <= i <= s.len(),
    ensures
        i <= sep_end(s, i) <= s.len(),
    decreases s.len() - i,
{
    if i < s.len() && s[i] != ';' {
        lemma_sep_end(s, i + 1);
    }
}

/// A left-to-right separator scan finds `sep_end`.
pub proof fn lemma_sep_end_is(s: Seq<char>, i: int, j: int)
    requires
        0 <= i <= j <= s.len(),
        forall|k: int| i <= k < j ==> #[trigger] s[k] != ';',
        j < s.len() ==> s[j] == ';',
    ensures
        sep_end(s, i) == j,
    decreases j - i,
{
    if i < j {
        lemma_sep_end_is(s, i + 1, j);
    }
}

/// The codes denoted by a `;`-separated token list from position `i` on:
/// empty tokens are dropped, every other token decodes through the code
/// table, so the sequence and multiplicity of recognized and unknown codes
/// alike are preserved.
pub open spec fn codes_in(s: Seq<char>, i: int) -> Seq<TransactionCode>
    decreases s.len() - i when 0 <= i <= s.len() via codes_in_decreases
{
    let e = sep_end(s, i);
    let tok = s.subrange(i, e);
    let this: Seq<TransactionCode> = if tok.len() > 0 {
        seq![TransactionCode::spec_decode(tok)]
    } else {
        Seq::empty()
    };
    if e >= s.len() {
        this
    } else {
        this + codes_in(s, e + 1)
    }
}

#[via_fn]
proof fn codes_in_decreases(s: Seq<char>, i: int) {
    lemma_sep_end(s, i);
}

/// Parses the token list that starts at `i`.
fn parse_codes_from(s: &Vec<char>, i: usize) -> (r: Vec<TransactionCode>)
    requires
        i <= s@.len(),
    ensures
        r@ == codes_in(s@, i as int),
    decreases s@.len() - i,
{
    let n = s.len();
    let mut j = i;
    while j < n && s[j] != ';'
        invariant
            i <= j <= n,
            n == s@.len(),
            forall|k: int| i <= k < j ==> #[trigger] s@[k] != ';',
        decreases n - j,
    {
        j += 1;
    }
    proof {
        lemma_sep_end_is(s@, i as int, j as int);
    }
    let tok = sub_vec(s, i, j);
    let code: Option<TransactionCode> = if tok.len() > 0 {
        Some(TransactionCode::decode(&tok))
    } else {
        None
    };
    if j >= n {
        let mut r: Vec<TransactionCode> = Vec::new();
        match code {
            Some(c) => {
                r.push(c);
                proof {
                    assert(r@ =~= codes_in(s@, i as int));
                }
            },
            None => {
                proof {
                    assert(r@ =~= codes_in(s@, i as int));
                }
            },
        }
        r
    } else {
        let mut rest = parse_codes_from(s, j + 1);
        match code {
            Some(c) => {
                rest.insert(0, c);
                proof {
                    assert(rest@ =~= codes_in(s@, i as int));
                }
            },
            None => {
                proof {
                    assert(rest@ =~= codes_in(s@, i as int));
                }
            },
        }
        rest
    }
}

/// The code list of an optional note field: absent or empty means "no
/// value"; decoding the tokens never fails.
pub open spec fn opt_codes_of(e: XElem, name: Seq<char>) -> Option<Seq<TransactionCode>> {
    match opt_str_of(e, name) {
        None => None,
        Some(v) => Some(codes_in(v, 0)),
    }
}

/// An optional `;`-separated code-list field.
pub fn opt_codes(e: &Element, name: &str) -> (r: Option<Vec<TransactionCode>>)
    ensures
        match opt_codes_of(e@, name@) {
            Some(v) => r is Some && r->0@ == v,
            None => r is None,
        },
{
    match opt_str(e, name) {
        None => None,
        Some(v) => {
            let cs = chars_of_str(v.as_str());
            Some(parse_codes_from(&cs, 0))
        },
    }
}


/// An optional string field equals its decoded attribute value.
pub open spec fn opt_string_is(x: Option<String>, v: Option<Seq<char>>) -> bool {
    match (x, v) {
        (None, None) => true,
        (Some(a), Some(b)) => a@ == b,
        _ => false,
    }
}

/// An optional code-list field equals its decoded attribute value.
pub open spec fn opt_codes_is(x: Option<Vec<TransactionCode>>, v: Option<Seq<TransactionCode>>) -> bool {
    match (x, v) {
        (None, None) => true,
        (Some(a), Some(b)) => a@ == b,
        _ => false,
    }
}

/// One trade execution, or a wash-sale adjustment record of the same shape.
#[derive(Debug, Clone)]
pub struct Trade {
    /// IB account number.
    pub account_id: String,
    /// Transaction id, the record identity where present.
    pub transaction_id: Option<String>,
    /// IB contract id.
    pub conid: String,
    /// Ticker symbol.
    pub symbol: String,
    /// Security description.
    pub description: Option<String>,
    /// Asset category.
    pub asset_category: AssetCategory,
    /// CUSIP.
    pub cusip: Option<String>,
    /// ISIN.
    pub isin: Option<String>,
    /// FIGI.
    pub figi: Option<String>,
    /// Security id.
    pub security_id: Option<String>,
    /// Security id type.
    pub security_id_type: Option<SecurityIdType>,
    /// Contract multiplier.
    pub multiplier: Option<Decimal>,
    /// Strike price, for options.
    pub strike: Option<Decimal>,
    /// Expiry date, for options and futures.
    pub expiry: Option<Date>,
    /// Put or call, for options.
    pub put_call: Option<PutCall>,
    /// Underlying contract id.
    pub underlying_conid: Option<String>,
    /// Underlying symbol.
    pub underlying_symbol: Option<String>,
    /// Trade date.
    pub trade_date: Option<Date>,
    /// Settlement date.
    pub settle_date: Option<Date>,
    /// Buy or sell.
    pub buy_sell: Option<BuySell>,
    /// Open or close indicator.
    pub open_close: Option<OpenClose>,
    /// Transaction type.
    pub transaction_type: Option<TradeType>,
    /// Quantity of shares or contracts.
    pub quantity: Option<Decimal>,
    /// Trade price per share or contract.
    pub trade_price: Option<Decimal>,
    /// Trade proceeds.
    pub proceeds: Option<Decimal>,
    /// Cost basis.
    pub cost: Option<Decimal>,
    /// Commission paid.
    pub commission: Option<Decimal>,
    /// Taxes paid.
    pub taxes: Option<Decimal>,
    /// Net cash moved.
    pub net_cash: Option<Decimal>,
    /// FIFO realized profit and loss.
    pub fifo_pnl_realized: Option<Decimal>,
    /// Mark-to-market profit and loss.
    pub mtm_pnl: Option<Decimal>,
    /// FX profit and loss.
    pub fx_pnl: Option<Decimal>,
    /// Trade currency.
    pub currency: String,
    /// FX rate to the base currency.
    pub fx_rate_to_base: Option<Decimal>,
    /// Original trade date, for lot tracking.
    pub orig_trade_date: Option<Date>,
    /// Original trade price, the cost basis of the lot.
    pub orig_trade_price: Option<Decimal>,
    /// Original trade id, linking a closing trade to its opening trade.
    pub orig_trade_id: Option<String>,
    /// Holding-period timestamp.
    pub holding_period_date_time: Option<String>,
    /// When the position was opened.
    pub open_date_time: Option<String>,
    /// When the position was reopened.
    pub when_reopened: Option<String>,
    /// Note codes; several can combine.
    pub notes: Option<Vec<TransactionCode>>,
    /// IB order id.
    pub ib_order_id: Option<String>,
    /// Execution id.
    pub exec_id: Option<String>,
    /// Trade id.
    pub trade_id: Option<String>,
    /// Trade timestamp, free text.
    pub trade_time: Option<String>,
    /// When the profit or loss was realized.
    pub when_realized: Option<String>,
    /// Order type.
    pub order_type: Option<OrderType>,
    /// Listing exchange.
    pub listing_exchange: Option<String>,
    /// Security sub-category.
    pub sub_category: Option<SubCategory>,
    /// Whether the order came through the API.
    pub is_api_order: Option<bool>,
    /// Level of detail of this line.
    pub level_of_detail: Option<LevelOfDetail>,
    /// Trade amount.
    pub amount: Option<Decimal>,
    /// Quantity times price.
    pub trade_money: Option<Decimal>,
    /// Close price.
    pub close_price: Option<Decimal>,
    /// Commission currency.
    pub commission_currency: Option<String>,
    /// Accrued interest, for bonds.
    pub accrued_int: Option<Decimal>,
    /// Report date.
    pub report_date: Option<Date>,
    /// Exchange where the trade executed.
    pub exchange: Option<String>,
    /// Model portfolio.
    pub model: Option<String>,
    /// Account alias.
    pub acct_alias: Option<String>,
}

/// Whether an element decodes as a `Trade`: the mandatory
/// attributes are present and every present value decodes.
pub open spec fn trade_wf(e: XElem) -> bool {
    &&& attr_of(e, "accountId"@) is Some
    &&& attr_of(e, "conid"@) is Some
    &&& attr_of(e, "symbol"@) is Some
    &&& attr_of(e, "assetCategory"@) is Some
    &&& opt_dec_ok(e, "multiplier"@)
    &&& opt_dec_ok(e, "strike"@)
    &&& opt_date_ok(e, "expiry"@)
    &&& opt_date_ok(e, "tradeDate"@)
    &&& opt_date_ok(e, "settleDateTarget"@)
    &&& opt_dec_ok(e, "quantity"@)
    &&& opt_dec_ok(e, "tradePrice"@)
    &&& opt_dec_ok(e, "proceeds"@)
    &&& opt_dec_ok(e, "cost"@)
    &&& opt_dec_ok(e, "ibCommission"@)
    &&& opt_dec_ok(e, "taxes"@)
    &&& opt_dec_ok(e, "netCash"@)
    &&& opt_dec_ok(e, "fifoPnlRealized"@)
    &&& opt_dec_ok(e, "mtmPnl"@)
    &&& opt_dec_ok(e, "fxPnl"@)
    &&& attr_of(e, "currency"@) is Some
    &&& opt_dec_ok(e, "fxRateToBase"@)
    &&& opt_date_ok(e, "origTradeDate"@)
    &&& opt_dec_ok(e, "origTradePrice"@)
    &&& opt_bool_ok(e, "isAPIOrder"@)
    &&& opt_dec_ok(e, "amount"@)
    &&& opt_dec_ok(e, "tradeMoney"@)
    &&& opt_dec_ok(e, "closePrice"@)
    &&& opt_dec_ok(e, "accruedInt"@)
    &&& opt_date_ok(e, "reportDate"@)
}

/// How a decoded `Trade` relates to its element: every field
/// equals its attribute's decoded value.
pub open spec fn trade_obeys(e: XElem, t: Trade) -> bool {
    &&& t.account_id@ == attr_of(e, "accountId"@)->0
    &&& opt_string_is(t.transaction_id, opt_str_of(e, "transactionID"@))
    &&& t.conid@ == attr_of(e, "conid"@)->0
    &&& t.symbol@ == attr_of(e, "symbol"@)->0
    &&& opt_string_is(t.description, opt_str_of(e, "description"@))
    &&& t.asset_category == AssetCategory::spec_decode(attr_of(e, "assetCategory"@)->0)
    &&& opt_string_is(t.cusip, opt_str_of(e, "cusip"@))
    &&& opt_string_is(t.isin, opt_str_of(e, "isin"@))
    &&& opt_string_is(t.figi, opt_str_of(e, "figi"@))
    &&& opt_string_is(t.security_id, opt_str_of(e, "securityID"@))
    &&& (match opt_str_of(e, "securityIDType"@) { None => t.security_id_type is None, Some(v) => t.security_id_type == Some(SecurityIdType::spec_decode(v)) })
    &&& t.multiplier == opt_dec_of(e, "multiplier"@)
    &&& t.strike == opt_dec_of(e, "strike"@)
    &&& t.expiry == opt_date_of(e, "expiry"@)
    &&& (match opt_str_of(e, "putCall"@) { None => t.put_call is None, Some(v) => t.put_call == Some(PutCall::spec_decode(v)) })
    &&& opt_string_is(t.underlying_conid, opt_str_of(e, "underlyingConid"@))
    &&& opt_string_is(t.underlying_symbol, opt_str_of(e, "underlyingSymbol"@))
    &&& t.trade_date == opt_date_of(e, "tradeDate"@)
    &&& t.settle_date == opt_date_of(e, "settleDateTarget"@)
    &&& (match opt_str_of(e, "buySell"@) { None => t.buy_sell is None, Some(v) => t.buy_sell == Some(BuySell::spec_decode(v)) })
    &&& (match opt_str_of(e, "openCloseIndicator"@) { None => t.open_close is None, Some(v) => t.open_close == Some(OpenClose::spec_decode(v)) })
    &&& (match opt_str_of(e, "transactionType"@) { None => t.transaction_type is None, Some(v) => t.transaction_type == Some(TradeType::spec_decode(v)) })
    &&& t.quantity == opt_dec_of(e, "quantity"@)
    &&& t.trade_price == opt_dec_of(e, "tradePrice"@)
    &&& t.proceeds == opt_dec_of(e, "proceeds"@)
    &&& t.cost == opt_dec_of(e, "cost"@)
    &&& t.commission == opt_dec_of(e, "ibCommission"@)
    &&& t.taxes == opt_dec_of(e, "taxes"@)
    &&& t.net_cash == opt_dec_of(e, "netCash"@)
    &&& t.fifo_pnl_realized == opt_dec_of(e, "fifoPnlRealized"@)
    &&& t.mtm_pnl == opt_dec_of(e, "mtmPnl"@)
    &&& t.fx_pnl == opt_dec_of(e, "fxPnl"@)
    &&& t.currency@ == attr_of(e, "currency"@)->0
    &&& t.fx_rate_to_base == opt_dec_of(e, "fxRateToBase"@)
    &&& t.orig_trade_date == opt_date_of(e, "origTradeDate"@)
    &&& t.orig_trade_price == opt_dec_of(e, "origTradePrice"@)
    &&& opt_string_is(t.orig_trade_id, opt_str_of(e, "origTradeID"@))
    &&& opt_string_is(t.holding_period_date_time, opt_str_of(e, "holdingPeriodDateTime"@))
    &&& opt_string_is(t.open_date_time, opt_str_of(e, "openDateTime"@))
    &&& opt_string_is(t.when_reopened, opt_str_of(e, "whenReopened"@))
    &&& opt_codes_is(t.notes, opt_codes_of(e, "notes"@))
    &&& opt_string_is(t.ib_order_id, opt_str_of(e, "ibOrderID"@))
    &&& opt_string_is(t.exec_id, opt_str_of(e, "execID"@))
    &&& opt_string_is(t.trade_id, opt_str_of(e, "tradeID"@))
    &&& opt_string_is(t.trade_time, opt_str_of(e, "dateTime"@))
    &&& opt_string_is(t.when_realized, opt_str_of(e, "whenRealized"@))
    &&& (match opt_str_of(e, "orderType"@) { None => t.order_type is None, Some(v) => t.order_type == Some(OrderType::spec_decode(v)) })
    &&& opt_string_is(t.listing_exchange, opt_str_of(e, "listingExchange"@))
    &&& (match opt_str_of(e, "subCategory"@) { None => t.sub_category is None, Some(v) => t.sub_category == Some(SubCategory::spec_decode(v)) })
    &&& t.is_api_order == opt_bool_of(e, "isAPIOrder"@)
    &&& (match opt_str_of(e, "levelOfDetail"@) { None => t.level_of_detail is None, Some(v) => t.level_of_detail == Some(LevelOfDetail::spec_decode(v)) })
    &&& t.amount == opt_dec_of(e, "amount"@)
    &&& t.trade_money == opt_dec_of(e, "tradeMoney"@)
    &&& t.close_price == opt_dec_of(e, "closePrice"@)
    &&& opt_string_is(t.commission_currency, opt_str_of(e, "ibCommissionCurrency"@))
    &&& t.accrued_int == opt_dec_of(e, "accruedInt"@)
    &&& t.report_date == opt_date_of(e, "reportDate"@)
    &&& opt_string_is(t.exchange, opt_str_of(e, "exchange"@))
    &&& opt_string_is(t.model, opt_str_of(e, "model"@))
    &&& opt_string_is(t.acct_alias, opt_str_of(e, "acctAlias"@))
}

/// Decodes one `Trade` element.
#[verifier::rlimit(100)]
pub fn decode_trade(e: &Element) -> (r: Result<Trade, ParseError>)
    ensures
        trade_wf(e@) ==> r is Ok && trade_obeys(e@, r->Ok_0),
        !trade_wf(e@) ==> r is Err,
{
    let account_id = match req_str(e, "accountId", "Trade") { Ok(v) => v, Err(er) => { return Err(er); } };
    let transaction_id = opt_str(e, "transactionID");
    let conid = match req_str(e, "conid", "Trade") { Ok(v) => v, Err(er) => { return Err(er); } };
    let symbol = match req_str(e, "symbol", "Trade") { Ok(v) => v, Err(er) => { return Err(er); } };
    let description = opt_str(e, "description");
    let asset_category = {
        let v = match req_str(e, "assetCategory", "Trade") { Ok(v) => v, Err(er) => { return Err(er); } };
        let cs = chars_of_str(v.as_str());
        AssetCategory::decode(&cs)
    };
    let cusip = opt_str(e, "cusip");
    let isin = opt_str(e, "isin");
    let figi = opt_str(e, "figi");
    let security_id = opt_str(e, "securityID");
    let security_id_type = match opt_str(e, "securityIDType") {
        None => None,
        Some(v) => {
            let cs = chars_of_str(v.as_str());
            Some(SecurityIdType::decode(&cs))
        },
    };
    let multiplier = match opt_dec(e, "multiplier", "Trade") { Ok(v) => v, Err(er) => { return Err(er); } };
    let strike = match opt_dec(e, "strike", "Trade") { Ok(v) => v, Err(er) => { return Err(er); } };
    let expiry = match opt_date(e, "expiry", "Trade") { Ok(v) => v, Err(er) => { return Err(er); } };
    let put_call = match opt_str(e, "putCall") {
        None => None,
        Some(v) => {
            let cs = chars_of_str(v.as_str());
            Some(PutCall::decode(&cs))
        },
    };
    let underlying_conid = opt_str(e, "underlyingConid");
    let underlying_symbol = opt_str(e, "underlyingSymbol");
    let trade_date = match opt_date(e, "tradeDate", "Trade") { Ok(v) => v, Err(er) => { return Err(er); } };
    let settle_date = match opt_date(e, "settleDateTarget", "Trade") { Ok(v) => v, Err(er) => { return Err(er); } };
    let buy_sell = match opt_str(e, "buySell") {
        None => None,
        Some(v) => {
            let cs = chars_of_str(v.as_str());
            Some(BuySell::decode(&cs))
        },
    };
    let open_close = match opt_str(e, "openCloseIndicator") {
        None => None,
        Some(v) => {
            let cs = chars_of_str(v.as_str());
            Some(OpenClose::decode(&cs))
        },
    };
    let transaction_type = match opt_str(e, "transactionType") {
        None => None,
        Some(v) => {
            let cs = chars_of_str(v.as_str());
            Some(TradeType::decode(&cs))
        },
    };
    let quantity = match opt_dec(e, "quantity", "Trade") { Ok(v) => v, Err(er) => { return Err(er); } };
    let trade_price = match opt_dec(e, "tradePrice", "Trade") { Ok(v) => v, Err(er) => { return Err(er); } };
    let proceeds = match opt_dec(e, "proceeds", "Trade") { Ok(v) => v, Err(er) => { return Err(er); } };
    let cost = match opt_dec(e, "cost", "Trade") { Ok(v) => v, Err(er) => { return Err(er); } };
    let commission = match opt_dec(e, "ibCommission", "Trade") { Ok(v) => v, Err(er) => { return Err(er); } };
    let taxes = match opt_dec(e, "taxes", "Trade") { Ok(v) => v, Err(er) => { return Err(er); } };
    let net_cash = match opt_dec(e, "netCash", "Trade") { Ok(v) => v, Err(er) => { return Err(er); } };
    let fifo_pnl_realized = match opt_dec(e, "fifoPnlRealized", "Trade") { Ok(v) => v, Err(er) => { return Err(er); } };
    let mtm_pnl = match opt_dec(e, "mtmPnl", "Trade") { Ok(v) => v, Err(er) => { return Err(er); } };
    let fx_pnl = match opt_dec(e, "fxPnl", "Trade") { Ok(v) => v, Err(er) => { return Err(er); } };
    let currency = match req_str(e, "currency", "Trade") { Ok(v) => v, Err(er) => { return Err(er); } };
    let fx_rate_to_base = match opt_dec(e, "fxRateToBase", "Trade") { Ok(v) => v, Err(er) => { return Err(er); } };
    let orig_trade_date = match opt_date(e, "origTradeDate", "Trade") { Ok(v) => v, Err(er) => { return Err(er); } };
    let orig_trade_price = match opt_dec(e, "origTradePrice", "Trade") { Ok(v) => v, Err(er) => { return Err(er); } };
    let orig_trade_id = opt_str(e, "origTradeID");
    let holding_period_date_time = opt_str(e, "holdingPeriodDateTime");
    let open_date_time = opt_str(e, "openDateTime");
    let when_reopened = opt_str(e, "whenReopened");
    let notes = opt_codes(e, "notes");
    let ib_order_id = opt_str(e, "ibOrderID");
    let exec_id = opt_str(e, "execID");
    let trade_id = opt_str(e, "tradeID");
    let trade_time = opt_str(e, "dateTime");
    let when_realized = opt_str(e, "whenRealized");
    let order_type = match opt_str(e, "orderType") {
        None => None,
        Some(v) => {
            let cs = chars_of_str(v.as_str());
            Some(OrderType::decode(&cs))
        },
    };
    let listing_exchange = opt_str(e, "listingExchange");
    let sub_category = match opt_str(e, "subCategory") {
        None => None,
        Some(v) => {
            let cs = chars_of_str(v.as_str());
            Some(SubCategory::decode(&cs))
        },
    };
    let is_api_order = match opt_bool(e, "isAPIOrder", "Trade") { Ok(v) => v, Err(er) => { return Err(er); } };
    let level_of_detail = match opt_str(e, "levelOfDetail") {
        None => None,
        Some(v) => {
            let cs = chars_of_str(v.as_str());
            Some(LevelOfDetail::decode(&cs))
        },
    };
    let amount = match opt_dec(e, "amount", "Trade") { Ok(v) => v, Err(er) => { return Err(er); } };
    let trade_money = match opt_dec(e, "tradeMoney", "Trade") { Ok(v) => v, Err(er) => { return Err(er); } };
    let close_price = match opt_dec(e, "closePrice", "Trade") { Ok(v) => v, Err(er) => { return Err(er); } };
    let commission_currency = opt_str(e, "ibCommissionCurrency");
    let accrued_int = match opt_dec(e, "accruedInt", "Trade") { Ok(v) => v, Err(er) => { return Err(er); } };
    let report_date = match opt_date(e, "reportDate", "Trade") { Ok(v) => v, Err(er) => { return Err(er); } };
    let exchange = opt_str(e, "exchange");
    let model = opt_str(e, "model");
    let acct_alias = opt_str(e, "acctAlias");
    Ok(Trade { account_id, transaction_id, conid, symbol, description, asset_category, cusip, isin, figi, security_id, security_id_type, multiplier, strike, expiry, put_call, underlying_conid, underlying_symbol, trade_date, settle_date, buy_sell, open_close, transaction_type, quantity, trade_price, proceeds, cost, commission, taxes, net_cash, fifo_pnl_realized, mtm_pnl, fx_pnl, currency, fx_rate_to_base, orig_trade_date, orig_trade_price, orig_trade_id, holding_period_date_time, open_date_time, when_reopened, notes, ib_order_id, exec_id, trade_id, trade_time, when_realized, order_type, listing_exchange, sub_category, is_api_order, level_of_detail, amount, trade_money, close_price, commission_currency, accrued_int, report_date, exchange, model, acct_alias })
}

/// An open-position snapshot as of a report date.
#[derive(Debug, Clone)]
pub struct Position {
    /// IB account number.
    pub account_id: String,
    /// IB contract id.
    pub conid: String,
    /// Ticker symbol.
    pub symbol: String,
    /// Security description.
    pub description: Option<String>,
    /// Asset category.
    pub asset_category: AssetCategory,
    /// CUSIP.
    pub cusip: Option<String>,
    /// ISIN.
    pub isin: Option<String>,
    /// FIGI.
    pub figi: Option<String>,
    /// Security id.
    pub security_id: Option<String>,
    /// Security id type.
    pub security_id_type: Option<SecurityIdType>,
    /// Contract multiplier.
    pub multiplier: Option<Decimal>,
    /// Strike price, for options.
    pub strike: Option<Decimal>,
    /// Expiry date, for options and futures.
    pub expiry: Option<Date>,
    /// Put or call, for options.
    pub put_call: Option<PutCall>,
    /// Underlying contract id.
    pub underlying_conid: Option<String>,
    /// Underlying symbol.
    pub underlying_symbol: Option<String>,
    /// Position quantity; its sign encodes long or short.
    pub quantity: Decimal,
    /// Current market price.
    pub mark_price: Decimal,
    /// Position value as supplied by the source, never recomputed.
    pub position_value: Decimal,
    /// Side, long or short.
    pub side: Option<String>,
    /// Open price.
    pub open_price: Option<Decimal>,
    /// Cost basis per share or contract.
    pub cost_basis_price: Option<Decimal>,
    /// Total cost basis.
    pub cost_basis_money: Option<Decimal>,
    /// FIFO unrealized profit and loss.
    pub fifo_pnl_unrealized: Option<Decimal>,
    /// Percent of net asset value.
    pub percent_of_nav: Option<Decimal>,
    /// Currency.
    pub currency: String,
    /// FX rate to the base currency.
    pub fx_rate_to_base: Option<Decimal>,
    /// Date of this snapshot.
    pub report_date: Date,
    /// Holding-period timestamp.
    pub holding_period_date_time: Option<String>,
    /// When the position was opened.
    pub open_date_time: Option<String>,
    /// Originating transaction id.
    pub originating_transaction_id: Option<String>,
    /// Position codes.
    pub code: Option<String>,
    /// Issuer.
    pub issuer: Option<String>,
    /// Listing exchange.
    pub listing_exchange: Option<String>,
    /// Security sub-category.
    pub sub_category: Option<SubCategory>,
    /// Accrued interest, for bonds.
    pub accrued_int: Option<Decimal>,
    /// Vesting date, for restricted stock.
    pub vesting_date: Option<Date>,
    /// Level of detail of this line.
    pub level_of_detail: Option<LevelOfDetail>,
    /// Model portfolio.
    pub model: Option<String>,
    /// Account alias.
    pub acct_alias: Option<String>,
}

/// Whether an element decodes as a `Position`: the mandatory
/// attributes are present and every present value decodes.
pub open spec fn position_wf(e: XElem) -> bool {
    &&& attr_of(e, "accountId"@) is Some
    &&& attr_of(e, "conid"@) is Some
    &&& attr_of(e, "symbol"@) is Some
    &&& attr_of(e, "assetCategory"@) is Some
    &&& opt_dec_ok(e, "multiplier"@)
    &&& opt_dec_ok(e, "strike"@)
    &&& opt_date_ok(e, "expiry"@)
    &&& req_dec_ok(e, "position"@)
    &&& req_dec_ok(e, "markPrice"@)
    &&& req_dec_ok(e, "positionValue"@)
    &&& opt_dec_ok(e, "openPrice"@)
    &&& opt_dec_ok(e, "costBasisPrice"@)
    &&& opt_dec_ok(e, "costBasisMoney"@)
    &&& opt_dec_ok(e, "fifoPnlUnrealized"@)
    &&& opt_dec_ok(e, "percentOfNAV"@)
    &&& attr_of(e, "currency"@) is Some
    &&& opt_dec_ok(e, "fxRateToBase"@)
    &&& req_date_ok(e, "reportDate"@)
    &&& opt_dec_ok(e, "accruedInt"@)
    &&& opt_date_ok(e, "vestingDate"@)
}

/// How a decoded `Position` relates to its element: every field
/// equals its attribute's decoded value.
pub open spec fn position_obeys(e: XElem, t: Position) -> bool {
    &&& t.account_id@ == attr_of(e, "accountId"@)->0
    &&& t.conid@ == attr_of(e, "conid"@)->0
    &&& t.symbol@ == attr_of(e, "symbol"@)->0
    &&& opt_string_is(t.description, opt_str_of(e, "description"@))
    &&& t.asset_category == AssetCategory::spec_decode(attr_of(e, "assetCategory"@)->0)
    &&& opt_string_is(t.cusip, opt_str_of(e, "cusip"@))
    &&& opt_string_is(t.isin, opt_str_of(e, "isin"@))
    &&& opt_string_is(t.figi, opt_str_of(e, "figi"@))
    &&& opt_string_is(t.security_id, opt_str_of(e, "securityID"@))
    &&& (match opt_str_of(e, "securityIDType"@) { None => t.security_id_type is None, Some(v) => t.security_id_type == Some(SecurityIdType::spec_decode(v)) })
    &&& t.multiplier == opt_dec_of(e, "multiplier"@)
    &&& t.strike == opt_dec_of(e, "strike"@)
    &&& t.expiry == opt_date_of(e, "expiry"@)
    &&& (match opt_str_of(e, "putCall"@) { None => t.put_call is None, Some(v) => t.put_call == Some(PutCall::spec_decode(v)) })
    &&& opt_string_is(t.underlying_conid, opt_str_of(e, "underlyingConid"@))
    &&& opt_string_is(t.underlying_symbol, opt_str_of(e, "underlyingSymbol"@))
    &&& t.quantity == req_dec_of(e, "position"@)
    &&& t.mark_price == req_dec_of(e, "markPrice"@)
    &&& t.position_value == req_dec_of(e, "positionValue"@)
    &&& opt_string_is(t.side, opt_str_of(e, "side"@))
    &&& t.open_price == opt_dec_of(e, "openPrice"@)
    &&& t.cost_basis_price == opt_dec_of(e, "costBasisPrice"@)
    &&& t.cost_basis_money == opt_dec_of(e, "costBasisMoney"@)
    &&& t.fifo_pnl_unrealized == opt_dec_of(e, "fifoPnlUnrealized"@)
    &&& t.percent_of_nav == opt_dec_of(e, "percentOfNAV"@)
    &&& t.currency@ == attr_of(e, "currency"@)->0
    &&& t.fx_rate_to_base == opt_dec_of(e, "fxRateToBase"@)
    &&& t.report_date == req_date_of(e, "reportDate"@)
    &&& opt_string_is(t.holding_period_date_time, opt_str_of(e, "holdingPeriodDateTime"@))
    &&& opt_string_is(t.open_date_time, opt_str_of(e, "openDateTime"@))
    &&& opt_string_is(t.originating_transaction_id, opt_str_of(e, "originatingTransactionID"@))
    &&& opt_string_is(t.code, opt_str_of(e, "code"@))
    &&& opt_string_is(t.issuer, opt_str_of(e, "issuer"@))
    &&& opt_string_is(t.listing_exchange, opt_str_of(e, "listingExchange"@))
    &&& (match opt_str_of(e, "subCategory"@) { None => t.sub_category is None, Some(v) => t.sub_category == Some(SubCategory::spec_decode(v)) })
    &&& t.accrued_int == opt_dec_of(e, "accruedInt"@)
    &&& t.vesting_date == opt_date_of(e, "vestingDate"@)
    &&& (match opt_str_of(e, "levelOfDetail"@) { None => t.level_of_detail is None, Some(v) => t.level_of_detail == Some(LevelOfDetail::spec_decode(v)) })
    &&& opt_string_is(t.model, opt_str_of(e, "model"@))
    &&& opt_string_is(t.acct_alias, opt_str_of(e, "acctAlias"@))
}

/// Decodes one `Position` element.
#[verifier::rlimit(80)]
pub fn decode_position(e: &Element) -> (r: Result<Position, ParseError>)
    ensures
        position_wf(e@) ==> r is Ok && position_obeys(e@, r->Ok_0),
        !position_wf(e@) ==> r is Err,
{
    let account_id = match req_str(e, "accountId", "OpenPosition") { Ok(v) => v, Err(er) => { return Err(er); } };
    let conid = match req_str(e, "conid", "OpenPosition") { Ok(v) => v, Err(er) => { return Err(er); } };
    let symbol = match req_str(e, "symbol", "OpenPosition") { Ok(v) => v, Err(er) => { return Err(er); } };
    let description = opt_str(e, "description");
    let asset_category = {
        let v = match req_str(e, "assetCategory", "OpenPosition") { Ok(v) => v, Err(er) => { return Err(er); } };
        let cs = chars_of_str(v.as_str());
        AssetCategory::decode(&cs)
    };
    let cusip = opt_str(e, "cusip");
    let isin = opt_str(e, "isin");
    let figi = opt_str(e, "figi");
    let security_id = opt_str(e, "securityID");
    let security_id_type = match opt_str(e, "securityIDType") {
        None => None,
        Some(v) => {
            let cs = chars_of_str(v.as_str());
            Some(SecurityIdType::decode(&cs))
        },
    };
    let multiplier = match opt_dec(e, "multiplier", "OpenPosition") { Ok(v) => v, Err(er) => { return Err(er); } };
    let strike = match opt_dec(e, "strike", "OpenPosition") { Ok(v) => v, Err(er) => { return Err(er); } };
    let expiry = match opt_date(e, "expiry", "OpenPosition") { Ok(v) => v, Err(er) => { return Err(er); } };
    let put_call = match opt_str(e, "putCall") {
        None => None,
        Some(v) => {
            let cs = chars_of_str(v.as_str());
            Some(PutCall::decode(&cs))
        },
    };
    let underlying_conid = opt_str(e, "underlyingConid");
    let underlying_symbol = opt_str(e, "underlyingSymbol");
    let quantity = match req_dec(e, "position", "OpenPosition") { Ok(v) => v, Err(er) => { return Err(er); } };
    let mark_price = match req_dec(e, "markPrice", "OpenPosition") { Ok(v) => v, Err(er) => { return Err(er); } };
    let position_value = match req_dec(e, "positionValue", "OpenPosition") { Ok(v) => v, Err(er) => { return Err(er); } };
    let side = opt_str(e, "side");
    let open_price = match opt_dec(e, "openPrice", "OpenPosition") { Ok(v) => v, Err(er) => { return Err(er); } };
    let cost_basis_price = match opt_dec(e, "costBasisPrice", "OpenPosition") { Ok(v) => v, Err(er) => { return Err(er); } };
    let cost_basis_money = match opt_dec(e, "costBasisMoney", "OpenPosition") { Ok(v) => v, Err(er) => { return Err(er); } };
    let fifo_pnl_unrealized = match opt_dec(e, "fifoPnlUnrealized", "OpenPosition") { Ok(v) => v, Err(er) => { return Err(er); } };
    let percent_of_nav = match opt_dec(e, "percentOfNAV", "OpenPosition") { Ok(v) => v, Err(er) => { return Err(er); } };
    let currency = match req_str(e, "currency", "OpenPosition") { Ok(v) => v, Err(er) => { return Err(er); } };
    let fx_rate_to_base = match opt_dec(e, "fxRateToBase", "OpenPosition") { Ok(v) => v, Err(er) => { return Err(er); } };
    let report_date = match req_date(e, "reportDate", "OpenPosition") { Ok(v) => v, Err(er) => { return Err(er); } };
    let holding_period_date_time = opt_str(e, "holdingPeriodDateTime");
    let open_date_time = opt_str(e, "openDateTime");
    let originating_transaction_id = opt_str(e, "originatingTransactionID");
    let code = opt_str(e, "code");
    let issuer = opt_str(e, "issuer");
    let listing_exchange = opt_str(e, "listingExchange");
    let sub_category = match opt_str(e, "subCategory") {
        None => None,
        Some(v) => {
            let cs = chars_of_str(v.as_str());
            Some(SubCategory::decode(&cs))
        },
    };
    let accrued_int = match opt_dec(e, "accruedInt", "OpenPosition") { Ok(v) => v, Err(er) => { return Err(er); } };
    let vesting_date = match opt_date(e, "vestingDate", "OpenPosition") { Ok(v) => v, Err(er) => { return Err(er); } };
    let level_of_detail = match opt_str(e, "levelOfDetail") {
        None => None,
        Some(v) => {
            let cs = chars_of_str(v.as_str());
            Some(LevelOfDetail::decode(&cs))
        },
    };
    let model = opt_str(e, "model");
    let acct_alias = opt_str(e, "acctAlias");
    Ok(Position { account_id, conid, symbol, description, asset_category, cusip, isin, figi, security_id, security_id_type, multiplier, strike, expiry, put_call, underlying_conid, underlying_symbol, quantity, mark_price, position_value, side, open_price, cost_basis_price, cost_basis_money, fifo_pnl_unrealized, percent_of_nav, currency, fx_rate_to_base, report_date, holding_period_date_time, open_date_time, originating_transaction_id, code, issuer, listing_exchange, sub_category, accrued_int, vesting_date, level_of_detail, model, acct_alias })
}

/// A dated cash movement.
#[derive(Debug, Clone)]
pub struct CashTransaction {
    /// IB account number.
    pub account_id: String,
    /// Transaction id.
    pub transaction_id: Option<String>,
    /// Transaction type.
    pub transaction_type: Option<CashTransactionType>,
    /// Description.
    pub description: Option<String>,
    /// Signed amount; positive credits, negative debits.
    pub amount: Decimal,
    /// Currency.
    pub currency: String,
    /// FX rate to the base currency.
    pub fx_rate_to_base: Option<Decimal>,
    /// Transaction date.
    pub date: Option<Date>,
    /// Settlement date.
    pub settle_date: Option<Date>,
    /// Ex-dividend date.
    pub ex_date: Option<Date>,
    /// Linked security contract id.
    pub conid: Option<String>,
    /// Linked security symbol.
    pub symbol: Option<String>,
    /// Asset category of the linked security.
    pub asset_category: Option<AssetCategory>,
    /// CUSIP.
    pub cusip: Option<String>,
    /// ISIN.
    pub isin: Option<String>,
    /// FIGI.
    pub figi: Option<String>,
    /// Security id.
    pub security_id: Option<String>,
    /// Security id type.
    pub security_id_type: Option<SecurityIdType>,
    /// Contract multiplier.
    pub multiplier: Option<Decimal>,
    /// Strike price.
    pub strike: Option<Decimal>,
    /// Expiry date.
    pub expiry: Option<Date>,
    /// Put or call.
    pub put_call: Option<PutCall>,
    /// Underlying contract id.
    pub underlying_conid: Option<String>,
    /// Underlying symbol.
    pub underlying_symbol: Option<String>,
    /// Transaction code.
    pub code: Option<String>,
    /// Transaction timestamp, free text.
    pub date_time: Option<String>,
    /// Report date.
    pub report_date: Option<Date>,
    /// Linked trade id.
    pub trade_id: Option<String>,
    /// Security sub-category.
    pub sub_category: Option<SubCategory>,
    /// Listing exchange.
    pub listing_exchange: Option<String>,
    /// Level of detail of this line.
    pub level_of_detail: Option<String>,
    /// Model portfolio.
    pub model: Option<String>,
    /// Account alias.
    pub acct_alias: Option<String>,
}

/// Whether an element decodes as a `CashTransaction`: the mandatory
/// attributes are present and every present value decodes.
pub open spec fn cash_transaction_wf(e: XElem) -> bool {
    &&& attr_of(e, "accountId"@) is Some
    &&& req_dec_ok(e, "amount"@)
    &&& attr_of(e, "currency"@) is Some
    &&& opt_dec_ok(e, "fxRateToBase"@)
    &&& opt_date_ok(e, "date"@)
    &&& opt_date_ok(e, "settleDate"@)
    &&& opt_date_ok(e, "exDate"@)
    &&& opt_dec_ok(e, "multiplier"@)
    &&& opt_dec_ok(e, "strike"@)
    &&& opt_date_ok(e, "expiry"@)
    &&& opt_date_ok(e, "reportDate"@)
}

/// How a decoded `CashTransaction` relates to its element: every field
/// equals its attribute's decoded value.
pub open spec fn cash_transaction_obeys(e: XElem, t: CashTransaction) -> bool {
    &&& t.account_id@ == attr_of(e, "accountId"@)->0
    &&& opt_string_is(t.transaction_id, opt_str_of(e, "transactionID"@))
    &&& (match opt_str_of(e, "type"@) { None => t.transaction_type is None, Some(v) => t.transaction_type == Some(CashTransactionType::spec_decode(v)) })
    &&& opt_string_is(t.description, opt_str_of(e, "description"@))
    &&& t.amount == req_dec_of(e, "amount"@)
    &&& t.currency@ == attr_of(e, "currency"@)->0
    &&& t.fx_rate_to_base == opt_dec_of(e, "fxRateToBase"@)
    &&& t.date == opt_date_of(e, "date"@)
    &&& t.settle_date == opt_date_of(e, "settleDate"@)
    &&& t.ex_date == opt_date_of(e, "exDate"@)
    &&& opt_string_is(t.conid, opt_str_of(e, "conid"@))
    &&& opt_string_is(t.symbol, opt_str_of(e, "symbol"@))
    &&& (match opt_str_of(e, "assetCategory"@) { None => t.asset_category is None, Some(v) => t.asset_category == Some(AssetCategory::spec_decode(v)) })
    &&& opt_string_is(t.cusip, opt_str_of(e, "cusip"@))
    &&& opt_string_is(t.isin, opt_str_of(e, "isin"@))
    &&& opt_string_is(t.figi, opt_str_of(e, "figi"@))
    &&& opt_string_is(t.security_id, opt_str_of(e, "securityID"@))
    &&& (match opt_str_of(e, "securityIDType"@) { None => t.security_id_type is None, Some(v) => t.security_id_type == Some(SecurityIdType::spec_decode(v)) })
    &&& t.multiplier == opt_dec_of(e, "multiplier"@)
    &&& t.strike == opt_dec_of(e, "strike"@)
    &&& t.expiry == opt_date_of(e, "expiry"@)
    &&& (match opt_str_of(e, "putCall"@) { None => t.put_call is None, Some(v) => t.put_call == Some(PutCall::spec_decode(v)) })
    &&& opt_string_is(t.underlying_conid, opt_str_of(e, "underlyingConid"@))
    &&& opt_string_is(t.underlying_symbol, opt_str_of(e, "underlyingSymbol"@))
    &&& opt_string_is(t.code, opt_str_of(e, "code"@))
    &&& opt_string_is(t.date_time, opt_str_of(e, "dateTime"@))
    &&& t.report_date == opt_date_of(e, "reportDate"@)
    &&& opt_string_is(t.trade_id, opt_str_of(e, "tradeID"@))
    &&& (match opt_str_of(e, "subCategory"@) { None => t.sub_category is None, Some(v) => t.sub_category == Some(SubCategory::spec_decode(v)) })
    &&& opt_string_is(t.listing_exchange, opt_str_of(e, "listingExchange"@))
    &&& opt_string_is(t.level_of_detail, opt_str_of(e, "levelOfDetail"@))
    &&& opt_string_is(t.model, opt_str_of(e, "model"@))
    &&& opt_string_is(t.acct_alias, opt_str_of(e, "acctAlias"@))
}

/// Decodes one `CashTransaction` element.
#[verifier::rlimit(80)]
pub fn decode_cash_transaction(e: &Element) -> (r: Result<CashTransaction, ParseError>)
    ensures
        cash_transaction_wf(e@) ==> r is Ok && cash_transaction_obeys(e@, r->Ok_0),
        !cash_transaction_wf(e@) ==> r is Err,
{
    let account_id = match req_str(e, "accountId", "CashTransaction") { Ok(v) => v, Err(er) => { return Err(er); } };
    let transaction_id = opt_str(e, "transactionID");
    let transaction_type = match opt_str(e, "type") {
        None => None,
        Some(v) => {
            let cs = chars_of_str(v.as_str());
            Some(CashTransactionType::decode(&cs))
        },
    };
    let description = opt_str(e, "description");
    let amount = match req_dec(e, "amount", "CashTransaction") { Ok(v) => v, Err(er) => { return Err(er); } };
    let currency = match req_str(e, "currency", "CashTransaction") { Ok(v) => v, Err(er) => { return Err(er); } };
    let fx_rate_to_base = match opt_dec(e, "fxRateToBase", "CashTransaction") { Ok(v) => v, Err(er) => { return Err(er); } };
    let date = match opt_date(e, "date", "CashTransaction") { Ok(v) => v, Err(er) => { return Err(er); } };
    let settle_date = match opt_date(e, "settleDate", "CashTransaction") { Ok(v) => v, Err(er) => { return Err(er); } };
    let ex_date = match opt_date(e, "exDate", "CashTransaction") { Ok(v) => v, Err(er) => { return Err(er); } };
    let conid = opt_str(e, "conid");
    let symbol = opt_str(e, "symbol");
    let asset_category = match opt_str(e, "assetCategory") {
        None => None,
        Some(v) => {
            let cs = chars_of_str(v.as_str());
            Some(AssetCategory::decode(&cs))
        },
    };
    let cusip = opt_str(e, "cusip");
    let isin = opt_str(e, "isin");
    let figi = opt_str(e, "figi");
    let security_id = opt_str(e, "securityID");
    let security_id_type = match opt_str(e, "securityIDType") {
        None => None,
        Some(v) => {
            let cs = chars_of_str(v.as_str());
            Some(SecurityIdType::decode(&cs))
        },
    };
    let multiplier = match opt_dec(e, "multiplier", "CashTransaction") { Ok(v) => v, Err(er) => { return Err(er); } };
    let strike = match opt_dec(e, "strike", "CashTransaction") { Ok(v) => v, Err(er) => { return Err(er); } };
    let expiry = match opt_date(e, "expiry", "CashTransaction") { Ok(v) => v, Err(er) => { return Err(er); } };
    let put_call = match opt_str(e, "putCall") {
        None => None,
        Some(v) => {
            let cs = chars_of_str(v.as_str());
            Some(PutCall::decode(&cs))
        },
    };
    let underlying_conid = opt_str(e, "underlyingConid");
    let underlying_symbol = opt_str(e, "underlyingSymbol");
    let code = opt_str(e, "code");
    let date_time = opt_str(e, "dateTime");
    let report_date = match opt_date(e, "reportDate", "CashTransaction") { Ok(v) => v, Err(er) => { return Err(er); } };
    let trade_id = opt_str(e, "tradeID");
    let sub_category = match opt_str(e, "subCategory") {
        None => None,
        Some(v) => {
            let cs = chars_of_str(v.as_str());
            Some(SubCategory::decode(&cs))
        },
    };
    let listing_exchange = opt_str(e, "listingExchange");
    let level_of_detail = opt_str(e, "levelOfDetail");
    let model = opt_str(e, "model");
    let acct_alias = opt_str(e, "acctAlias");
    Ok(CashTransaction { account_id, transaction_id, transaction_type, description, amount, currency, fx_rate_to_base, date, settle_date, ex_date, conid, symbol, asset_category, cusip, isin, figi, security_id, security_id_type, multiplier, strike, expiry, put_call, underlying_conid, underlying_symbol, code, date_time, report_date, trade_id, sub_category, listing_exchange, level_of_detail, model, acct_alias })
}

/// An event altering holdings.
#[derive(Debug, Clone)]
pub struct CorporateAction {
    /// IB account number.
    pub account_id: String,
    /// Transaction id.
    pub transaction_id: Option<String>,
    /// Action type.
    pub action_type: Option<CorporateActionType>,
    /// Description.
    pub description: Option<String>,
    /// Action date.
    pub action_date: Option<Date>,
    /// Report date.
    pub report_date: Date,
    /// Ex-dividend date.
    pub ex_date: Option<Date>,
    /// Pay date.
    pub pay_date: Option<Date>,
    /// Record date.
    pub record_date: Option<Date>,
    /// IB contract id.
    pub conid: String,
    /// Ticker symbol.
    pub symbol: String,
    /// Asset category.
    pub asset_category: Option<AssetCategory>,
    /// CUSIP.
    pub cusip: Option<String>,
    /// ISIN.
    pub isin: Option<String>,
    /// FIGI.
    pub figi: Option<String>,
    /// Security id.
    pub security_id: Option<String>,
    /// Security id type.
    pub security_id_type: Option<SecurityIdType>,
    /// Contract multiplier.
    pub multiplier: Option<Decimal>,
    /// Strike price.
    pub strike: Option<Decimal>,
    /// Expiry date.
    pub expiry: Option<Date>,
    /// Put or call.
    pub put_call: Option<PutCall>,
    /// Underlying contract id.
    pub underlying_conid: Option<String>,
    /// Underlying symbol.
    pub underlying_symbol: Option<String>,
    /// Quantity affected.
    pub quantity: Option<Decimal>,
    /// Amount.
    pub amount: Option<Decimal>,
    /// Proceeds.
    pub proceeds: Option<Decimal>,
    /// Value.
    pub value: Option<Decimal>,
    /// Cost.
    pub cost: Option<Decimal>,
    /// FIFO realized profit and loss.
    pub fifo_pnl_realized: Option<Decimal>,
    /// Mark-to-market profit and loss.
    pub mtm_pnl: Option<Decimal>,
    /// Currency.
    pub currency: Option<String>,
    /// FX rate to the base currency.
    pub fx_rate_to_base: Option<Decimal>,
    /// Codes.
    pub code: Option<String>,
    /// Action id.
    pub action_id: Option<String>,
    /// Action timestamp, free text.
    pub date_time: Option<String>,
    /// Security sub-category.
    pub sub_category: Option<SubCategory>,
    /// Listing exchange.
    pub listing_exchange: Option<String>,
    /// Model portfolio.
    pub model: Option<String>,
    /// Account alias.
    pub acct_alias: Option<String>,
}

/// Whether an element decodes as a `CorporateAction`: the mandatory
/// attributes are present and every present value decodes.
pub open spec fn corporate_action_wf(e: XElem) -> bool {
    &&& attr_of(e, "accountId"@) is Some
    &&& opt_date_ok(e, "date"@)
    &&& req_date_ok(e, "reportDate"@)
    &&& opt_date_ok(e, "exDate"@)
    &&& opt_date_ok(e, "payDate"@)
    &&& opt_date_ok(e, "recordDate"@)
    &&& attr_of(e, "conid"@) is Some
    &&& attr_of(e, "symbol"@) is Some
    &&& opt_dec_ok(e, "multiplier"@)
    &&& opt_dec_ok(e, "strike"@)
    &&& opt_date_ok(e, "expiry"@)
    &&& opt_dec_ok(e, "quantity"@)
    &&& opt_dec_ok(e, "amount"@)
    &&& opt_dec_ok(e, "proceeds"@)
    &&& opt_dec_ok(e, "value"@)
    &&& opt_dec_ok(e, "cost"@)
    &&& opt_dec_ok(e, "fifoPnlRealized"@)
    &&& opt_dec_ok(e, "mtmPnl"@)
    &&& opt_dec_ok(e, "fxRateToBase"@)
}

/// How a decoded `CorporateAction` relates to its element: every field
/// equals its attribute's decoded value.
pub open spec fn corporate_action_obeys(e: XElem, t: CorporateAction) -> bool {
    &&& t.account_id@ == attr_of(e, "accountId"@)->0
    &&& opt_string_is(t.transaction_id, opt_str_of(e, "transactionID"@))
    &&& (match opt_str_of(e, "type"@) { None => t.action_type is None, Some(v) => t.action_type == Some(CorporateActionType::spec_decode(v)) })
    &&& opt_string_is(t.description, opt_str_of(e, "description"@))
    &&& t.action_date == opt_date_of(e, "date"@)
    &&& t.report_date == req_date_of(e, "reportDate"@)
    &&& t.ex_date == opt_date_of(e, "exDate"@)
    &&& t.pay_date == opt_date_of(e, "payDate"@)
    &&& t.record_date == opt_date_of(e, "recordDate"@)
    &&& t.conid@ == attr_of(e, "conid"@)->0
    &&& t.symbol@ == attr_of(e, "symbol"@)->0
    &&& (match opt_str_of(e, "assetCategory"@) { None => t.asset_category is None, Some(v) => t.asset_category == Some(AssetCategory::spec_decode(v)) })
    &&& opt_string_is(t.cusip, opt_str_of(e, "cusip"@))
    &&& opt_string_is(t.isin, opt_str_of(e, "isin"@))
    &&& opt_string_is(t.figi, opt_str_of(e, "figi"@))
    &&& opt_string_is(t.security_id, opt_str_of(e, "securityID"@))
    &&& (match opt_str_of(e, "securityIDType"@) { None => t.security_id_type is None, Some(v) => t.security_id_type == Some(SecurityIdType::spec_decode(v)) })
    &&& t.multiplier == opt_dec_of(e, "multiplier"@)
    &&& t.strike == opt_dec_of(e, "strike"@)
    &&& t.expiry == opt_date_of(e, "expiry"@)
    &&& (match opt_str_of(e, "putCall"@) { None => t.put_call is None, Some(v) => t.put_call == Some(PutCall::spec_decode(v)) })
    &&& opt_string_is(t.underlying_conid, opt_str_of(e, "underlyingConid"@))
    &&& opt_string_is(t.underlying_symbol, opt_str_of(e, "underlyingSymbol"@))
    &&& t.quantity == opt_dec_of(e, "quantity"@)
    &&& t.amount == opt_dec_of(e, "amount"@)
    &&& t.proceeds == opt_dec_of(e, "proceeds"@)
    &&& t.value == opt_dec_of(e, "value"@)
    &&& t.cost == opt_dec_of(e, "cost"@)
    &&& t.fifo_pnl_realized == opt_dec_of(e, "fifoPnlRealized"@)
    &&& t.mtm_pnl == opt_dec_of(e, "mtmPnl"@)
    &&& opt_string_is(t.currency, opt_str_of(e, "currency"@))
    &&& t.fx_rate_to_base == opt_dec_of(e, "fxRateToBase"@)
    &&& opt_string_is(t.code, opt_str_of(e, "code"@))
    &&& opt_string_is(t.action_id, opt_str_of(e, "actionID"@))
    &&& opt_string_is(t.date_time, opt_str_of(e, "dateTime"@))
    &&& (match opt_str_of(e, "subCategory"@) { None => t.sub_category is None, Some(v) => t.sub_category == Some(SubCategory::spec_decode(v)) })
    &&& opt_string_is(t.listing_exchange, opt_str_of(e, "listingExchange"@))
    &&& opt_string_is(t.model, opt_str_of(e, "model"@))
    &&& opt_string_is(t.acct_alias, opt_str_of(e, "acctAlias"@))
}

/// Decodes one `CorporateAction` element.
#[verifier::rlimit(80)]
pub fn decode_corporate_action(e: &Element) -> (r: Result<CorporateAction, ParseError>)
    ensures
        corporate_action_wf(e@) ==> r is Ok && corporate_action_obeys(e@, r->Ok_0),
        !corporate_action_wf(e@) ==> r is Err,
{
    let account_id = match req_str(e, "accountId", "CorporateAction") { Ok(v) => v, Err(er) => { return Err(er); } };
    let transaction_id = opt_str(e, "transactionID");
    let action_type = match opt_str(e, "type") {
        None => None,
        Some(v) => {
            let cs = chars_of_str(v.as_str());
            Some(CorporateActionType::decode(&cs))
        },
    };
    let description = opt_str(e, "description");
    let action_date = match opt_date(e, "date", "CorporateAction") { Ok(v) => v, Err(er) => { return Err(er); } };
    let report_date = match req_date(e, "reportDate", "CorporateAction") { Ok(v) => v, Err(er) => { return Err(er); } };
    let ex_date = match opt_date(e, "exDate", "CorporateAction") { Ok(v) => v, Err(er) => { return Err(er); } };
    let pay_date = match opt_date(e, "payDate", "CorporateAction") { Ok(v) => v, Err(er) => { return Err(er); } };
    let record_date = match opt_date(e, "recordDate", "CorporateAction") { Ok(v) => v, Err(er) => { return Err(er); } };
    let conid = match req_str(e, "conid", "CorporateAction") { Ok(v) => v, Err(er) => { return Err(er); } };
    let symbol = match req_str(e, "symbol", "CorporateAction") { Ok(v) => v, Err(er) => { return Err(er); } };
    let asset_category = match opt_str(e, "assetCategory") {
        None => None,
        Some(v) => {
            let cs = chars_of_str(v.as_str());
            Some(AssetCategory::decode(&cs))
        },
    };
    let cusip = opt_str(e, "cusip");
    let isin = opt_str(e, "isin");
    let figi = opt_str(e, "figi");
    let security_id = opt_str(e, "securityID");
    let security_id_type = match opt_str(e, "securityIDType") {
        None => None,
        Some(v) => {
            let cs = chars_of_str(v.as_str());
            Some(SecurityIdType::decode(&cs))
        },
    };
    let multiplier = match opt_dec(e, "multiplier", "CorporateAction") { Ok(v) => v, Err(er) => { return Err(er); } };
    let strike = match opt_dec(e, "strike", "CorporateAction") { Ok(v) => v, Err(er) => { return Err(er); } };
    let expiry = match opt_date(e, "expiry", "CorporateAction") { Ok(v) => v, Err(er) => { return Err(er); } };
    let put_call = match opt_str(e, "putCall") {
        None => None,
        Some(v) => {
            let cs = chars_of_str(v.as_str());
            Some(PutCall::decode(&cs))
        },
    };
    let underlying_conid = opt_str(e, "underlyingConid");
    let underlying_symbol = opt_str(e, "underlyingSymbol");
    let quantity = match opt_dec(e, "quantity", "CorporateAction") { Ok(v) => v, Err(er) => { return Err(er); } };
    let amount = match opt_dec(e, "amount", "CorporateAction") { Ok(v) => v, Err(er) => { return Err(er); } };
    let proceeds = match opt_dec(e, "proceeds", "CorporateAction") { Ok(v) => v, Err(er) => { return Err(er); } };
    let value = match opt_dec(e, "value", "CorporateAction") { Ok(v) => v, Err(er) => { return Err(er); } };
    let cost = match opt_dec(e, "cost", "CorporateAction") { Ok(v) => v, Err(er) => { return Err(er); } };
    let fifo_pnl_realized = match opt_dec(e, "fifoPnlRealized", "CorporateAction") { Ok(v) => v, Err(er) => { return Err(er); } };
    let mtm_pnl = match opt_dec(e, "mtmPnl", "CorporateAction") { Ok(v) => v, Err(er) => { return Err(er); } };
    let currency = opt_str(e, "currency");
    let fx_rate_to_base = match opt_dec(e, "fxRateToBase", "CorporateAction") { Ok(v) => v, Err(er) => { return Err(er); } };
    let code = opt_str(e, "code");
    let action_id = opt_str(e, "actionID");
    let date_time = opt_str(e, "dateTime");
    let sub_category = match opt_str(e, "subCategory") {
        None => None,
        Some(v) => {
            let cs = chars_of_str(v.as_str());
            Some(SubCategory::decode(&cs))
        },
    };
    let listing_exchange = opt_str(e, "listingExchange");
    let model = opt_str(e, "model");
    let acct_alias = opt_str(e, "acctAlias");
    Ok(CorporateAction { account_id, transaction_id, action_type, description, action_date, report_date, ex_date, pay_date, record_date, conid, symbol, asset_category, cusip, isin, figi, security_id, security_id_type, multiplier, strike, expiry, put_call, underlying_conid, underlying_symbol, quantity, amount, proceeds, value, cost, fifo_pnl_realized, mtm_pnl, currency, fx_rate_to_base, code, action_id, date_time, sub_category, listing_exchange, model, acct_alias })
}

/// Static reference data for one security.
#[derive(Debug, Clone)]
pub struct SecurityInfo {
    /// Asset category.
    pub asset_category: AssetCategory,
    /// Ticker symbol.
    pub symbol: String,
    /// Security description.
    pub description: Option<String>,
    /// IB contract id.
    pub conid: String,
    /// Security id.
    pub security_id: Option<String>,
    /// Security id type.
    pub security_id_type: Option<SecurityIdType>,
    /// CUSIP.
    pub cusip: Option<String>,
    /// ISIN.
    pub isin: Option<String>,
    /// FIGI.
    pub figi: Option<String>,
    /// SEDOL.
    pub sedol: Option<String>,
    /// Contract multiplier.
    pub multiplier: Option<Decimal>,
    /// Strike price.
    pub strike: Option<Decimal>,
    /// Expiry date.
    pub expiry: Option<Date>,
    /// Put or call.
    pub put_call: Option<PutCall>,
    /// Underlying contract id.
    pub underlying_conid: Option<String>,
    /// Underlying symbol.
    pub underlying_symbol: Option<String>,
    /// Maturity date, for bonds.
    pub maturity: Option<Date>,
    /// Principal adjustment factor.
    pub principal_adjust_factor: Option<Decimal>,
    /// Currency.
    pub currency: Option<String>,
    /// Listing exchange.
    pub listing_exchange: Option<String>,
    /// Issuer.
    pub issuer: Option<String>,
    /// Security sub-category.
    pub sub_category: Option<SubCategory>,
    /// Delivery month, for futures.
    pub delivery_month: Option<String>,
    /// Codes.
    pub code: Option<String>,
}

/// Whether an element decodes as a `SecurityInfo`: the mandatory
/// attributes are present and every present value decodes.
pub open spec fn security_info_wf(e: XElem) -> bool {
    &&& attr_of(e, "assetCategory"@) is Some
    &&& attr_of(e, "symbol"@) is Some
    &&& attr_of(e, "conid"@) is Some
    &&& opt_dec_ok(e, "multiplier"@)
    &&& opt_dec_ok(e, "strike"@)
    &&& opt_date_ok(e, "expiry"@)
    &&& opt_date_ok(e, "maturity"@)
    &&& opt_dec_ok(e, "principalAdjustFactor"@)
}

/// How a decoded `SecurityInfo` relates to its element: every field
/// equals its attribute's decoded value.
pub open spec fn security_info_obeys(e: XElem, t: SecurityInfo) -> bool {
    &&& t.asset_category == AssetCategory::spec_decode(attr_of(e, "assetCategory"@)->0)
    &&& t.symbol@ == attr_of(e, "symbol"@)->0
    &&& opt_string_is(t.description, opt_str_of(e, "description"@))
    &&& t.conid@ == attr_of(e, "conid"@)->0
    &&& opt_string_is(t.security_id, opt_str_of(e, "securityID"@))
    &&& (match opt_str_of(e, "securityIDType"@) { None => t.security_id_type is None, Some(v) => t.security_id_type == Some(SecurityIdType::spec_decode(v)) })
    &&& opt_string_is(t.cusip, opt_str_of(e, "cusip"@))
    &&& opt_string_is(t.isin, opt_str_of(e, "isin"@))
    &&& opt_string_is(t.figi, opt_str_of(e, "figi"@))
    &&& opt_string_is(t.sedol, opt_str_of(e, "sedol"@))
    &&& t.multiplier == opt_dec_of(e, "multiplier"@)
    &&& t.strike == opt_dec_of(e, "strike"@)
    &&& t.expiry == opt_date_of(e, "expiry"@)
    &&& (match opt_str_of(e, "putCall"@) { None => t.put_call is None, Some(v) => t.put_call == Some(PutCall::spec_decode(v)) })
    &&& opt_string_is(t.underlying_conid, opt_str_of(e, "underlyingConid"@))
    &&& opt_string_is(t.underlying_symbol, opt_str_of(e, "underlyingSymbol"@))
    &&& t.maturity == opt_date_of(e, "maturity"@)
    &&& t.principal_adjust_factor == opt_dec_of(e, "principalAdjustFactor"@)
    &&& opt_string_is(t.currency, opt_str_of(e, "currency"@))
    &&& opt_string_is(t.listing_exchange, opt_str_of(e, "listingExchange"@))
    &&& opt_string_is(t.issuer, opt_str_of(e, "issuer"@))
    &&& (match opt_str_of(e, "subCategory"@) { None => t.sub_category is None, Some(v) => t.sub_category == Some(SubCategory::spec_decode(v)) })
    &&& opt_string_is(t.delivery_month, opt_str_of(e, "deliveryMonth"@))
    &&& opt_string_is(t.code, opt_str_of(e, "code"@))
}

/// Decodes one `SecurityInfo` element.
#[verifier::rlimit(60)]
pub fn decode_security_info(e: &Element) -> (r: Result<SecurityInfo, ParseError>)
    ensures
        security_info_wf(e@) ==> r is Ok && security_info_obeys(e@, r->Ok_0),
        !security_info_wf(e@) ==> r is Err,
{
    let asset_category = {
        let v = match req_str(e, "assetCategory", "SecurityInfo") { Ok(v) => v, Err(er) => { return Err(er); } };
        let cs = chars_of_str(v.as_str());
        AssetCategory::decode(&cs)
    };
    let symbol = match req_str(e, "symbol", "SecurityInfo") { Ok(v) => v, Err(er) => { return Err(er); } };
    let description = opt_str(e, "description");
    let conid = match req_str(e, "conid", "SecurityInfo") { Ok(v) => v, Err(er) => { return Err(er); } };
    let security_id = opt_str(e, "securityID");
    let security_id_type = match opt_str(e, "securityIDType") {
        None => None,
        Some(v) => {
            let cs = chars_of_str(v.as_str());
            Some(SecurityIdType::decode(&cs))
        },
    };
    let cusip = opt_str(e, "cusip");
    let isin = opt_str(e, "isin");
    let figi = opt_str(e, "figi");
    let sedol = opt_str(e, "sedol");
    let multiplier = match opt_dec(e, "multiplier", "SecurityInfo") { Ok(v) => v, Err(er) => { return Err(er); } };
    let strike = match opt_dec(e, "strike", "SecurityInfo") { Ok(v) => v, Err(er) => { return Err(er); } };
    let expiry = match opt_date(e, "expiry", "SecurityInfo") { Ok(v) => v, Err(er) => { return Err(er); } };
    let put_call = match opt_str(e, "putCall") {
        None => None,
        Some(v) => {
            let cs = chars_of_str(v.as_str());
            Some(PutCall::decode(&cs))
        },
    };
    let underlying_conid = opt_str(e, "underlyingConid");
    let underlying_symbol = opt_str(e, "underlyingSymbol");
    let maturity = match opt_date(e, "maturity", "SecurityInfo") { Ok(v) => v, Err(er) => { return Err(er); } };
    let principal_adjust_factor = match opt_dec(e, "principalAdjustFactor", "SecurityInfo") { Ok(v) => v, Err(er) => { return Err(er); } };
    let currency = opt_str(e, "currency");
    let listing_exchange = opt_str(e, "listingExchange");
    let issuer = opt_str(e, "issuer");
    let sub_category = match opt_str(e, "subCategory") {
        None => None,
        Some(v) => {
            let cs = chars_of_str(v.as_str());
            Some(SubCategory::decode(&cs))
        },
    };
    let delivery_month = opt_str(e, "deliveryMonth");
    let code = opt_str(e, "code");
    Ok(SecurityInfo { asset_category, symbol, description, conid, security_id, security_id_type, cusip, isin, figi, sedol, multiplier, strike, expiry, put_call, underlying_conid, underlying_symbol, maturity, principal_adjust_factor, currency, listing_exchange, issuer, sub_category, delivery_month, code })
}

/// A daily FX conversion rate.
#[derive(Debug, Clone)]
pub struct ConversionRate {
    /// Report date.
    pub report_date: Date,
    /// Source currency.
    pub from_currency: String,
    /// Target currency.
    pub to_currency: String,
    /// Exchange rate.
    pub rate: Decimal,
}

/// Whether an element decodes as a `ConversionRate`: the mandatory
/// attributes are present and every present value decodes.
pub open spec fn conversion_rate_wf(e: XElem) -> bool {
    &&& req_date_ok(e, "reportDate"@)
    &&& attr_of(e, "fromCurrency"@) is Some
    &&& attr_of(e, "toCurrency"@) is Some
    &&& req_dec_ok(e, "rate"@)
}

/// How a decoded `ConversionRate` relates to its element: every field
/// equals its attribute's decoded value.
pub open spec fn conversion_rate_obeys(e: XElem, t: ConversionRate) -> bool {
    &&& t.report_date == req_date_of(e, "reportDate"@)
    &&& t.from_currency@ == attr_of(e, "fromCurrency"@)->0
    &&& t.to_currency@ == attr_of(e, "toCurrency"@)->0
    &&& t.rate == req_dec_of(e, "rate"@)
}

/// Decodes one `ConversionRate` element.
pub fn decode_conversion_rate(e: &Element) -> (r: Result<ConversionRate, ParseError>)
    ensures
        conversion_rate_wf(e@) ==> r is Ok && conversion_rate_obeys(e@, r->Ok_0),
        !conversion_rate_wf(e@) ==> r is Err,
{
    let report_date = match req_date(e, "reportDate", "ConversionRate") { Ok(v) => v, Err(er) => { return Err(er); } };
    let from_currency = match req_str(e, "fromCurrency", "ConversionRate") { Ok(v) => v, Err(er) => { return Err(er); } };
    let to_currency = match req_str(e, "toCurrency", "ConversionRate") { Ok(v) => v, Err(er) => { return Err(er); } };
    let rate = match req_dec(e, "rate", "ConversionRate") { Ok(v) => v, Err(er) => { return Err(er); } };
    Ok(ConversionRate { report_date, from_currency, to_currency, rate })
}

/// Consolidated derivative terms of an option, future, future option or
/// warrant, derived from the flat record fields, never re-read from raw
/// text.
#[derive(Debug, Clone)]
pub enum DerivativeInfo {
    /// Option contract
    EquityOption {
        /// Strike price
        strike: Decimal,
        /// Expiration date
        expiry: Date,
        /// Put or call
        put_call: PutCall,
        /// Symbol of the underlying security
        underlying_symbol: String,
        /// Contract id of the underlying security
        underlying_conid: Option<String>,
    },
    /// Future contract
    Future {
        /// Settlement date
        expiry: Date,
        /// Symbol of the underlying asset
        underlying_symbol: String,
        /// Contract id of the underlying asset
        underlying_conid: Option<String>,
    },
    /// Option on a futures contract
    FutureOption {
        /// Strike price
        strike: Decimal,
        /// Expiration date
        expiry: Date,
        /// Put or call
        put_call: PutCall,
        /// Symbol of the underlying futures contract
        underlying_symbol: String,
        /// Contract id of the underlying futures contract
        underlying_conid: Option<String>,
    },
    /// Warrant
    Warrant {
        /// Strike price, if any
        strike: Option<Decimal>,
        /// Expiration date, if any
        expiry: Option<Date>,
        /// Symbol of the underlying security
        underlying_symbol: Option<String>,
    },
}

/// The derivative projection of a trade: populated exactly when the asset
/// category is a derivative kind and the category's required fields are
/// all present; it never fabricates defaults.
pub open spec fn spec_trade_derivative(t: Trade) -> Option<DerivativeInfo> {
    if t.asset_category == AssetCategory::Option {
        if t.strike is Some && t.expiry is Some && t.put_call is Some && t.underlying_symbol
            is Some {
            Some(
                DerivativeInfo::EquityOption {
                    strike: t.strike->0,
                    expiry: t.expiry->0,
                    put_call: t.put_call->0,
                    underlying_symbol: t.underlying_symbol->0,
                    underlying_conid: t.underlying_conid,
                },
            )
        } else {
            None
        }
    } else if t.asset_category == AssetCategory::Future {
        if t.expiry is Some && t.underlying_symbol is Some {
            Some(
                DerivativeInfo::Future {
                    expiry: t.expiry->0,
                    underlying_symbol: t.underlying_symbol->0,
                    underlying_conid: t.underlying_conid,
                },
            )
        } else {
            None
        }
    } else if t.asset_category == AssetCategory::FutureOption {
        if t.strike is Some && t.expiry is Some && t.put_call is Some && t.underlying_symbol
            is Some {
            Some(
                DerivativeInfo::FutureOption {
                    strike: t.strike->0,
                    expiry: t.expiry->0,
                    put_call: t.put_call->0,
                    underlying_symbol: t.underlying_symbol->0,
                    underlying_conid: t.underlying_conid,
                },
            )
        } else {
            None
        }
    } else if t.asset_category == AssetCategory::Warrant {
        if t.underlying_symbol is Some {
            Some(
                DerivativeInfo::Warrant {
                    strike: t.strike,
                    expiry: t.expiry,
                    underlying_symbol: Some(t.underlying_symbol->0),
                },
            )
        } else {
            None
        }
    } else {
        None
    }
}

impl Trade {
    /// The derivative projection of this trade.
    pub fn derivative(&self) -> (r: Option<DerivativeInfo>)
        ensures
            r == spec_trade_derivative(*self),
    {
        match self.asset_category {
            AssetCategory::Option => {
                if self.strike.is_some() && self.expiry.is_some() && self.put_call.is_some()
                    && self.underlying_symbol.is_some() {
                    Some(
                        DerivativeInfo::EquityOption {
                            strike: *self.strike.as_ref().unwrap(),
                            expiry: *self.expiry.as_ref().unwrap(),
                            put_call: *self.put_call.as_ref().unwrap(),
                            underlying_symbol: self.underlying_symbol.as_ref().unwrap().clone(),
                            underlying_conid: self.underlying_conid.clone(),
                        },
                    )
                } else {
                    None
                }
            },
            AssetCategory::Future => {
                if self.expiry.is_some() && self.underlying_symbol.is_some() {
                    Some(
                        DerivativeInfo::Future {
                            expiry: *self.expiry.as_ref().unwrap(),
                            underlying_symbol: self.underlying_symbol.as_ref().unwrap().clone(),
                            underlying_conid: self.underlying_conid.clone(),
                        },
                    )
                } else {
                    None
                }
            },
            AssetCategory::FutureOption => {
                if self.strike.is_some() && self.expiry.is_some() && self.put_call.is_some()
                    && self.underlying_symbol.is_some() {
                    Some(
                        DerivativeInfo::FutureOption {
                            strike: *self.strike.as_ref().unwrap(),
                            expiry: *self.expiry.as_ref().unwrap(),
                            put_call: *self.put_call.as_ref().unwrap(),
                            underlying_symbol: self.underlying_symbol.as_ref().unwrap().clone(),
                            underlying_conid: self.underlying_conid.clone(),
                        },
                    )
                } else {
                    None
                }
            },
            AssetCategory::Warrant => {
                if self.underlying_symbol.is_some() {
                    Some(
                        DerivativeInfo::Warrant {
                            strike: self.strike,
                            expiry: self.expiry,
                            underlying_symbol: Some(
                                self.underlying_symbol.as_ref().unwrap().clone(),
                            ),
                        },
                    )
                } else {
                    None
                }
            },
            _ => None,
        }
    }
}

/// The derivative projection of a position, under the same rule as for a
/// trade.
pub open spec fn spec_position_derivative(p: Position) -> Option<DerivativeInfo> {
    if p.asset_category == AssetCategory::Option {
        if p.strike is Some && p.expiry is Some && p.put_call is Some && p.underlying_symbol
            is Some {
            Some(
                DerivativeInfo::EquityOption {
                    strike: p.strike->0,
                    expiry: p.expiry->0,
                    put_call: p.put_call->0,
                    underlying_symbol: p.underlying_symbol->0,
                    underlying_conid: p.underlying_conid,
                },
            )
        } else {
            None
        }
    } else if p.asset_category == AssetCategory::Future {
        if p.expiry is Some && p.underlying_symbol is Some {
            Some(
                DerivativeInfo::Future {
                    expiry: p.expiry->0,
                    underlying_symbol: p.underlying_symbol->0,
                    underlying_conid: p.underlying_conid,
                },
            )
        } else {
            None
        }
    } else if p.asset_category == AssetCategory::FutureOption {
        if p.strike is Some && p.expiry is Some && p.put_call is Some && p.underlying_symbol
            is Some {
            Some(
                DerivativeInfo::FutureOption {
                    strike: p.strike->0,
                    expiry: p.expiry->0,
                    put_call: p.put_call->0,
                    underlying_symbol: p.underlying_symbol->0,
                    underlying_conid: p.underlying_conid,
                },
            )
        } else {
            None
        }
    } else if p.asset_category == AssetCategory::Warrant {
        if p.underlying_symbol is Some {
            Some(
                DerivativeInfo::Warrant {
                    strike: p.strike,
                    expiry: p.expiry,
                    underlying_symbol: Some(p.underlying_symbol->0),
                },
            )
        } else {
            None
        }
    } else {
        None
    }
}

impl Position {
    /// The derivative projection of this position.
    pub fn derivative(&self) -> (r: Option<DerivativeInfo>)
        ensures
            r == spec_position_derivative(*self),
    {
        match self.asset_category {
            AssetCategory::Option => {
                if self.strike.is_some() && self.expiry.is_some() && self.put_call.is_some()
                    && self.underlying_symbol.is_some() {
                    Some(
                        DerivativeInfo::EquityOption {
                            strike: *self.strike.as_ref().unwrap(),
                            expiry: *self.expiry.as_ref().unwrap(),
                            put_call: *self.put_call.as_ref().unwrap(),
                            underlying_symbol: self.underlying_symbol.as_ref().unwrap().clone(),
                            underlying_conid: self.underlying_conid.clone(),
                        },
                    )
                } else {
                    None
                }
            },
            AssetCategory::Future => {
                if self.expiry.is_some() && self.underlying_symbol.is_some() {
                    Some(
                        DerivativeInfo::Future {
                            expiry: *self.expiry.as_ref().unwrap(),
                            underlying_symbol: self.underlying_symbol.as_ref().unwrap().clone(),
                            underlying_conid: self.underlying_conid.clone(),
                        },
                    )
                } else {
                    None
                }
            },
            AssetCategory::FutureOption => {
                if self.strike.is_some() && self.expiry.is_some() && self.put_call.is_some()
                    && self.underlying_symbol.is_some() {
                    Some(
                        DerivativeInfo::FutureOption {
                            strike: *self.strike.as_ref().unwrap(),
                            expiry: *self.expiry.as_ref().unwrap(),
                            put_call: *self.put_call.as_ref().unwrap(),
                            underlying_symbol: self.underlying_symbol.as_ref().unwrap().clone(),
                            underlying_conid: self.underlying_conid.clone(),
                        },
                    )
                } else {
                    None
                }
            },
            AssetCategory::Warrant => {
                if self.underlying_symbol.is_some() {
                    Some(
                        DerivativeInfo::Warrant {
                            strike: self.strike,
                            expiry: self.expiry,
                            underlying_symbol: Some(
                                self.underlying_symbol.as_ref().unwrap().clone(),
                            ),
                        },
                    )
                } else {
                    None
                }
            },
            _ => None,
        }
    }
}

/// An option trade's derivative projection is populated exactly when all
/// four of strike, expiry, put/call and underlying symbol are present;
/// with any one of them absent it is absent, never partially filled, and
/// when populated it carries exactly those four values.
pub proof fn lemma_option_derivative_projection(t: Trade)
    requires
        t.asset_category == AssetCategory::Option,
    ensures
        spec_trade_derivative(t) is Some <==> (t.strike is Some && t.expiry is Some
            && t.put_call is Some && t.underlying_symbol is Some),
        spec_trade_derivative(t) is Some ==> spec_trade_derivative(t) == Some(
            DerivativeInfo::EquityOption {
                strike: t.strike->0,
                expiry: t.expiry->0,
                put_call: t.put_call->0,
                underlying_symbol: t.underlying_symbol->0,
                underlying_conid: t.underlying_conid,
            },
        ),
{
}


/// Empty-string and omitted-attribute forms of an optional field decode
/// identically: when one element carries the attribute with an empty
/// value and another omits it entirely, every optional field kind decodes
/// both to "no value", and neither can fail.
pub proof fn lemma_empty_equals_absent(e1: XElem, e2: XElem, name: Seq<char>)
    requires
        attr_of(e1, name) == Some(Seq::<char>::empty()),
        attr_of(e2, name) is None,
    ensures
        opt_str_of(e1, name) == opt_str_of(e2, name),
        opt_dec_of(e1, name) == opt_dec_of(e2, name),
        opt_dec_ok(e1, name) && opt_dec_ok(e2, name),
        opt_date_of(e1, name) == opt_date_of(e2, name),
        opt_date_ok(e1, name) && opt_date_ok(e2, name),
        opt_bool_of(e1, name) == opt_bool_of(e2, name),
        opt_bool_ok(e1, name) && opt_bool_ok(e2, name),
        opt_codes_of(e1, name) == opt_codes_of(e2, name),
{
}

/// The boolean decoder accepts exactly the four tokens `Y`, `y`, `N` and
/// `n` on a present value, mapping the first two to true and the others to
/// false; every other token is rejected, never defaulted.  An empty or
/// absent attribute means "no value" instead, as `lemma_empty_equals_absent`
/// states.
pub proof fn lemma_boolean_token_set(v: Seq<char>)
    ensures
        spec_parse_bool(v) is Some <==> (v == "Y"@ || v == "y"@ || v == "N"@ || v == "n"@),
        spec_parse_bool(v) == Some(true) <==> (v == "Y"@ || v == "y"@),
        spec_parse_bool(v) == Some(false) <==> (v == "N"@ || v == "n"@),
{
    reveal_strlit("Y");
    reveal_strlit("y");
    reveal_strlit("N");
    reveal_strlit("n");
    assert("Y"@ != "N"@ && "Y"@ != "n"@ && "y"@ != "N"@ && "y"@ != "n"@) by {
        assert("Y"@[0] == 'Y' && "y"@[0] == 'y' && "N"@[0] == 'N' && "n"@[0] == 'n');
    }
}
} // verus!
