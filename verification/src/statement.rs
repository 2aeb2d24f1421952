//! Sections, the trade-activity classifier, and the statement assembler.
//!
//! Most sections are homogeneous: a wrapper element holds zero or more
//! records of one kind, and other child tags inside it are ignored.  The
//! trade-activity section is not: its children share one attribute
//! dictionary but carry six distinct tag names, interleaved by symbol.
//! Every child is decoded through the shared trade-record decoder, then
//! routed by tag name: executions and wash-sale records are retained in
//! input order, the other recognized kinds are validated and discarded,
//! and an unrecognized tag is a structural error.

use vstd::prelude::*;
use vstd::string::StringExecFns;
use crate::chars::{chars_eq_str, chars_of_str};
use crate::date::{spec_date_le, Date};
use crate::error::ParseError;
use crate::records::{
    attr_of, req_date_of, req_date_ok, decode_cash_transaction, decode_conversion_rate, decode_corporate_action,
    decode_position, decode_security_info, decode_trade, cash_transaction_obeys,
    cash_transaction_wf, conversion_rate_obeys, conversion_rate_wf, corporate_action_obeys,
    corporate_action_wf, position_obeys, position_wf, security_info_obeys, security_info_wf,
    trade_obeys, trade_wf, CashTransaction, ConversionRate, CorporateAction, Position,
    SecurityInfo, Trade,
};
use crate::extended::{
    decode_account_information, decode_asset_summary, decode_cash_report_currency,
    decode_change_in_dividend_accrual, decode_change_in_n_a_v, decode_change_in_position_value,
    decode_client_fee, decode_client_fees_detail, decode_debit_card_activity,
    decode_equity_summary_by_report_date_in_base, decode_f_i_f_o_performance_summary_underlying,
    decode_fx_lot, decode_fx_transaction, decode_hard_to_borrow_detail,
    decode_interest_accruals_currency, decode_m_t_d_y_t_d_performance_summary,
    decode_m_t_m_performance_summary_underlying, decode_open_dividend_accrual, decode_option_e_a_e,
    decode_order, decode_prior_period_position, decode_s_l_b_activity, decode_s_l_b_fee,
    decode_sales_tax, decode_statement_of_funds_line, decode_symbol_summary, decode_tier_interest_detail,
    decode_trade_confirm, decode_trade_transfer, decode_transfer, decode_unbundled_commission_detail,
    decode_unsettled_transfer,
    account_information_obeys, account_information_wf, asset_summary_obeys, asset_summary_wf,
    cash_report_currency_obeys, cash_report_currency_wf, change_in_dividend_accrual_obeys,
    change_in_dividend_accrual_wf, change_in_n_a_v_obeys, change_in_n_a_v_wf,
    change_in_position_value_obeys, change_in_position_value_wf, client_fee_obeys, client_fee_wf,
    client_fees_detail_obeys, client_fees_detail_wf, debit_card_activity_obeys,
    debit_card_activity_wf, equity_summary_by_report_date_in_base_obeys,
    equity_summary_by_report_date_in_base_wf, f_i_f_o_performance_summary_underlying_obeys,
    f_i_f_o_performance_summary_underlying_wf, fx_lot_obeys, fx_lot_wf, fx_transaction_obeys,
    fx_transaction_wf, hard_to_borrow_detail_obeys, hard_to_borrow_detail_wf,
    interest_accruals_currency_obeys, interest_accruals_currency_wf,
    m_t_d_y_t_d_performance_summary_obeys, m_t_d_y_t_d_performance_summary_wf,
    m_t_m_performance_summary_underlying_obeys, m_t_m_performance_summary_underlying_wf,
    open_dividend_accrual_obeys, open_dividend_accrual_wf, option_e_a_e_obeys, option_e_a_e_wf,
    order_obeys, order_wf, prior_period_position_obeys, prior_period_position_wf,
    s_l_b_activity_obeys, s_l_b_activity_wf, s_l_b_fee_obeys, s_l_b_fee_wf, sales_tax_obeys,
    sales_tax_wf, statement_of_funds_line_obeys, statement_of_funds_line_wf, symbol_summary_obeys,
    symbol_summary_wf, tier_interest_detail_obeys, tier_interest_detail_wf, trade_confirm_obeys,
    trade_confirm_wf, trade_transfer_obeys, trade_transfer_wf, transfer_obeys, transfer_wf,
    unbundled_commission_detail_obeys, unbundled_commission_detail_wf, unsettled_transfer_obeys,
    unsettled_transfer_wf, AccountInformation, AssetSummary, CashReportCurrency,
    ChangeInDividendAccrual, ChangeInNAV, ChangeInPositionValue, ClientFee, ClientFeesDetail,
    DebitCardActivity, EquitySummaryByReportDateInBase, FIFOPerformanceSummaryUnderlying, FxLot,
    FxTransaction, HardToBorrowDetail, InterestAccrualsCurrency, MTDYTDPerformanceSummary,
    MTMPerformanceSummaryUnderlying, OpenDividendAccrual, OptionEAE, Order, PriorPeriodPosition,
    SLBActivity, SLBFee, SalesTax, StatementOfFundsLine, SymbolSummary, TierInterestDetail,
    TradeConfirm, TradeTransfer, Transfer, UnbundledCommissionDetail, UnsettledTransfer,
};
use crate::xml::{Element, XElem};

verus! {

/// The children of `cs` whose tag is `name`, in order.
pub open spec fn named_in(cs: Seq<XElem>, name: Seq<char>) -> Seq<XElem>
    decreases cs.len(),
{
    if cs.len() == 0 {
        Seq::empty()
    } else {
        let rest = named_in(cs.drop_last(), name);
        if cs.last().name == name {
            rest.push(cs.last())
        } else {
            rest
        }
    }
}

/// The scanned prefix of a child list selects a prefix of its named
/// children.
pub proof fn lemma_named_in_prefix(cs: Seq<XElem>, name: Seq<char>, j: int)
    requires
        0 <= j <= cs.len(),
    ensures
        named_in(cs.take(j), name).len() <= named_in(cs, name).len(),
        forall|k: int|
            0 <= k < named_in(cs.take(j), name).len() ==> #[trigger] named_in(cs, name)[k]
                == named_in(cs.take(j), name)[k],
    decreases cs.len() - j,
{
    if j == cs.len() {
        assert(cs.take(j) =~= cs);
    } else {
        lemma_named_in_prefix(cs, name, j + 1);
        assert(cs.take(j + 1).drop_last() =~= cs.take(j));
        assert(cs.take(j + 1).last() == cs[j]);
    }
}

/// The first child of `cs` whose tag is `name`, if any.
pub open spec fn child_named(cs: Seq<XElem>, name: Seq<char>) -> Option<XElem>
    decreases cs.len(),
{
    if cs.len() == 0 {
        None
    } else if cs[0].name == name {
        Some(cs[0])
    } else {
        child_named(cs.drop_first(), name)
    }
}

/// A name-free prefix can be dropped without changing the first-child
/// lookup.
proof fn lemma_child_named_skip(cs: Seq<XElem>, name: Seq<char>, i: int)
    requires
        0 <= i <= cs.len(),
        forall|k: int| 0 <= k < i ==> (#[trigger] cs[k]).name != name,
    ensures
        child_named(cs, name) == child_named(cs.skip(i), name),
    decreases i,
{
    if i > 0 {
        lemma_child_named_skip(cs, name, i - 1);
        let t = cs.skip(i - 1);
        assert(t.len() > 0);
        assert(t[0] == cs[i - 1]);
        assert(cs[i - 1].name != name);
        assert(child_named(t, name) == child_named(t.drop_first(), name));
        assert(t.drop_first() =~= cs.skip(i));
    } else {
        assert(cs.skip(0) =~= cs);
    }
}

/// Finds the first child element with the given tag name.
pub fn find_child(e: &Element, name: &str) -> (r: Option<usize>)
    ensures
        match child_named(e@.children, name@) {
            Some(c) => {
                &&& r is Some
                &&& r->0 < e.children@.len()
                &&& crate::xml::elem_view(e.children@[r->0 as int]) == c
            },
            None => r is None,
        },
{
    proof {
        crate::xml::lemma_elems_view_index(e.children@);
    }
    let n = e.children.len();
    let mut i: usize = 0;
    while i < n
        invariant
            n == e.children.len(),
            e@.children.len() == n,
            forall|k: int|
                0 <= k < n ==> #[trigger] e@.children[k] == crate::xml::elem_view(
                    e.children@[k],
                ),
            i <= n,
            forall|k: int| 0 <= k < i ==> (#[trigger] e@.children[k]).name != name@,
        decreases n - i,
    {
        let cn = chars_of_str(e.children[i].name.as_str());
        proof {
            assert(e@.children[i as int] == crate::xml::elem_view(e.children@[i as int]));
        }
        if chars_eq_str(&cn, name) {
            proof {
                lemma_child_named_skip(e@.children, name@, i as int);
                let t = e@.children.skip(i as int);
                assert(t[0] == e@.children[i as int]);
            }
            return Some(i);
        }
        i += 1;
    }
    proof {
        lemma_child_named_skip(e@.children, name@, n as int);
        assert(e@.children.skip(n as int) =~= Seq::<XElem>::empty());
    }
    None
}

/// The tag names that may appear inside the trade-activity section.
pub open spec fn known_trades_tag(name: Seq<char>) -> bool {
    ||| name == "Trade"@
    ||| name == "Order"@
    ||| name == "SymbolSummary"@
    ||| name == "AssetSummary"@
    ||| name == "WashSale"@
    ||| name == "Lot"@
}

/// Whether the trade-activity section decodes: every child carries one of
/// the six recognized tags and decodes through the shared trade-record
/// decoder.
pub open spec fn trades_section_wf(e: XElem) -> bool {
    forall|k: int|
        0 <= k < e.children.len() ==> known_trades_tag((#[trigger] e.children[k]).name)
            && trade_wf(e.children[k])
}

/// How the classified buckets relate to the section: the executions are
/// exactly the `Trade`-tagged children, the wash sales exactly the
/// `WashSale`-tagged children, each decoded in input order; the other
/// recognized kinds are discarded.
pub open spec fn trades_section_obeys(e: XElem, w: TradesWrapper) -> bool {
    let ts = named_in(e.children, "Trade"@);
    let ws = named_in(e.children, "WashSale"@);
    &&& w.items@.len() == ts.len()
    &&& forall|k: int| 0 <= k < ts.len() ==> trade_obeys(ts[k], #[trigger] w.items@[k])
    &&& w.wash_sales@.len() == ws.len()
    &&& forall|k: int| 0 <= k < ws.len() ==> trade_obeys(ws[k], #[trigger] w.wash_sales@[k])
}

/// The classified trade-activity section.
#[derive(Debug, Clone)]
pub struct TradesWrapper {
    /// Trade executions, in input order.
    pub items: Vec<Trade>,
    /// Wash-sale adjustment records, in input order.
    pub wash_sales: Vec<Trade>,
}

impl TradesWrapper {
    /// An empty section.
    pub fn empty() -> (r: TradesWrapper)
        ensures
            r.items@.len() == 0,
            r.wash_sales@.len() == 0,
    {
        TradesWrapper { items: Vec::new(), wash_sales: Vec::new() }
    }
}

/// Classifies and decodes the trade-activity section.
///
/// The children are interleaved by symbol, not grouped by tag, so every
/// child is decoded through the shared trade-record decoder and routed by
/// its tag name alone; order summaries, per-symbol and per-asset summaries
/// and tax lots are legitimate content that is validated and discarded.
pub fn decode_trades_section(e: &Element) -> (r: Result<TradesWrapper, ParseError>)
    ensures
        trades_section_wf(e@) ==> r is Ok && trades_section_obeys(e@, r->Ok_0),
        !trades_section_wf(e@) ==> r is Err,
{
    proof {
        crate::xml::lemma_elems_view_index(e.children@);
    }
    let mut items: Vec<Trade> = Vec::new();
    let mut wash_sales: Vec<Trade> = Vec::new();
    let n = e.children.len();
    let mut i: usize = 0;
    while i < n
        invariant
            n == e.children.len(),
            e@.children.len() == n,
            forall|k: int|
                0 <= k < n ==> #[trigger] e@.children[k] == crate::xml::elem_view(
                    e.children@[k],
                ),
            i <= n,
            forall|k: int|
                0 <= k < i ==> known_trades_tag((#[trigger] e@.children[k]).name) && trade_wf(
                    e@.children[k],
                ),
            items@.len() == named_in(e@.children.take(i as int), "Trade"@).len(),
            forall|k: int|
                0 <= k < items@.len() ==> trade_obeys(
                    named_in(e@.children.take(i as int), "Trade"@)[k],
                    #[trigger] items@[k],
                ),
            wash_sales@.len() == named_in(e@.children.take(i as int), "WashSale"@).len(),
            forall|k: int|
                0 <= k < wash_sales@.len() ==> trade_obeys(
                    named_in(e@.children.take(i as int), "WashSale"@)[k],
                    #[trigger] wash_sales@[k],
                ),
        decreases n - i,
    {
        let child = &e.children[i];
        let ghost gc = e@.children[i as int];
        proof {
            reveal_strlit("Trade");
            reveal_strlit("Order");
            reveal_strlit("SymbolSummary");
            reveal_strlit("AssetSummary");
            reveal_strlit("WashSale");
            reveal_strlit("Lot");
            assert(gc == crate::xml::elem_view(e.children@[i as int]));
            assert(e@.children.take(i + 1).drop_last() =~= e@.children.take(i as int));
            assert(e@.children.take(i + 1).last() == gc);
        }
        let cn = chars_of_str(child.name.as_str());
        let is_trade = chars_eq_str(&cn, "Trade");
        let is_wash = chars_eq_str(&cn, "WashSale");
        let is_other = chars_eq_str(&cn, "Order") || chars_eq_str(&cn, "SymbolSummary")
            || chars_eq_str(&cn, "AssetSummary") || chars_eq_str(&cn, "Lot");
        if !(is_trade || is_wash || is_other) {
            proof {
                assert(!known_trades_tag(gc.name));
                assert(!trades_section_wf(e@));
            }
            return Err(
                ParseError::XmlError {
                    message: "unrecognized element in the trades section: ".to_owned().concat(
                        child.name.as_str(),
                    ),
                    location: None,
                },
            );
        }
        let t = match decode_trade(child) {
            Ok(t) => t,
            Err(er) => {
                proof {
                    assert(!trade_wf(gc));
                    assert(!trades_section_wf(e@));
                }
                return Err(er);
            },
        };
        if is_trade {
            items.push(t);
            proof {
                assert(gc.name == "Trade"@);
                assert(gc.name != "WashSale"@);
                assert(named_in(e@.children.take(i + 1), "Trade"@) == named_in(
                    e@.children.take(i as int),
                    "Trade"@,
                ).push(gc));
                assert(named_in(e@.children.take(i + 1), "WashSale"@) == named_in(
                    e@.children.take(i as int),
                    "WashSale"@,
                ));
            }
        } else if is_wash {
            wash_sales.push(t);
            proof {
                assert(gc.name == "WashSale"@);
                assert(gc.name != "Trade"@);
                assert(named_in(e@.children.take(i + 1), "WashSale"@) == named_in(
                    e@.children.take(i as int),
                    "WashSale"@,
                ).push(gc));
                assert(named_in(e@.children.take(i + 1), "Trade"@) == named_in(
                    e@.children.take(i as int),
                    "Trade"@,
                ));
            }
        } else {
            proof {
                assert(gc.name != "Trade"@);
                assert(gc.name != "WashSale"@);
                assert(named_in(e@.children.take(i + 1), "Trade"@) == named_in(
                    e@.children.take(i as int),
                    "Trade"@,
                ));
                assert(named_in(e@.children.take(i + 1), "WashSale"@) == named_in(
                    e@.children.take(i as int),
                    "WashSale"@,
                ));
            }
        }
        i += 1;
    }
    proof {
        assert(e@.children.take(n as int) =~= e@.children);
    }
    Ok(TradesWrapper { items, wash_sales })
}


/// The `OpenPositions` section.
#[derive(Debug, Clone)]
pub struct PositionsWrapper {
    /// Records of the section, in input order.
    pub items: Vec<Position>,
}

/// Whether the section decodes: every `OpenPosition` child decodes; children
/// with other tags are ignored.
pub open spec fn positions_wrapper_wf(e: XElem) -> bool {
    forall|k: int|
        0 <= k < named_in(e.children, "OpenPosition"@).len() ==> position_wf(
            #[trigger] named_in(e.children, "OpenPosition"@)[k],
        )
}

/// The decoded items are exactly the section's `OpenPosition` children, in
/// input order.
pub open spec fn positions_wrapper_obeys(e: XElem, w: PositionsWrapper) -> bool {
    let cs = named_in(e.children, "OpenPosition"@);
    &&& w.items@.len() == cs.len()
    &&& forall|k: int| 0 <= k < cs.len() ==> position_obeys(cs[k], #[trigger] w.items@[k])
}

/// Decodes one `OpenPositions` section element.
pub fn decode_positions_wrapper(e: &Element) -> (r: Result<PositionsWrapper, ParseError>)
    ensures
        positions_wrapper_wf(e@) ==> r is Ok && positions_wrapper_obeys(e@, r->Ok_0),
        !positions_wrapper_wf(e@) ==> r is Err,
{
    proof {
        crate::xml::lemma_elems_view_index(e.children@);
    }
    let mut items: Vec<Position> = Vec::new();
    let n = e.children.len();
    let mut i: usize = 0;
    while i < n
        invariant
            n == e.children.len(),
            e@.children.len() == n,
            forall|k: int|
                0 <= k < n ==> #[trigger] e@.children[k] == crate::xml::elem_view(
                    e.children@[k],
                ),
            i <= n,
            items@.len() == named_in(e@.children.take(i as int), "OpenPosition"@).len(),
            forall|k: int|
                0 <= k < items@.len() ==> position_obeys(
                    named_in(e@.children.take(i as int), "OpenPosition"@)[k],
                    #[trigger] items@[k],
                ),
            forall|k: int|
                0 <= k < items@.len() ==> position_wf(
                    #[trigger] named_in(e@.children.take(i as int), "OpenPosition"@)[k],
                ),
        decreases n - i,
    {
        let child = &e.children[i];
        let ghost gc = e@.children[i as int];
        proof {
            assert(e@.children.take(i + 1).drop_last() =~= e@.children.take(i as int));
            assert(e@.children.take(i + 1).last() == gc);
        }
        let cn = chars_of_str(child.name.as_str());
        if chars_eq_str(&cn, "OpenPosition") {
            let t = match decode_position(child) {
                Ok(t) => t,
                Err(er) => {
                    proof {
                        lemma_named_in_prefix(e@.children, "OpenPosition"@, i + 1);
                        let pre = named_in(e@.children.take(i as int), "OpenPosition"@);
                        assert(named_in(e@.children.take(i + 1), "OpenPosition"@) == pre.push(gc));
                        assert(named_in(e@.children, "OpenPosition"@)[pre.len() as int] == gc);
                        assert(!positions_wrapper_wf(e@));
                    }
                    return Err(er);
                },
            };
            items.push(t);
        }
        i += 1;
    }
    proof {
        assert(e@.children.take(n as int) =~= e@.children);
    }
    Ok(PositionsWrapper { items })
}


/// The `CashTransactions` section.
#[derive(Debug, Clone)]
pub struct CashTransactionsWrapper {
    /// Records of the section, in input order.
    pub items: Vec<CashTransaction>,
}

/// Whether the section decodes: every `CashTransaction` child decodes; children
/// with other tags are ignored.
pub open spec fn cash_transactions_wrapper_wf(e: XElem) -> bool {
    forall|k: int|
        0 <= k < named_in(e.children, "CashTransaction"@).len() ==> cash_transaction_wf(
            #[trigger] named_in(e.children, "CashTransaction"@)[k],
        )
}

/// The decoded items are exactly the section's `CashTransaction` children, in
/// input order.
pub open spec fn cash_transactions_wrapper_obeys(e: XElem, w: CashTransactionsWrapper) -> bool {
    let cs = named_in(e.children, "CashTransaction"@);
    &&& w.items@.len() == cs.len()
    &&& forall|k: int| 0 <= k < cs.len() ==> cash_transaction_obeys(cs[k], #[trigger] w.items@[k])
}

/// Decodes one `CashTransactions` section element.
pub fn decode_cash_transactions_wrapper(e: &Element) -> (r: Result<CashTransactionsWrapper, ParseError>)
    ensures
        cash_transactions_wrapper_wf(e@) ==> r is Ok && cash_transactions_wrapper_obeys(e@, r->Ok_0),
        !cash_transactions_wrapper_wf(e@) ==> r is Err,
{
    proof {
        crate::xml::lemma_elems_view_index(e.children@);
    }
    let mut items: Vec<CashTransaction> = Vec::new();
    let n = e.children.len();
    let mut i: usize = 0;
    while i < n
        invariant
            n == e.children.len(),
            e@.children.len() == n,
            forall|k: int|
                0 <= k < n ==> #[trigger] e@.children[k] == crate::xml::elem_view(
                    e.children@[k],
                ),
            i <= n,
            items@.len() == named_in(e@.children.take(i as int), "CashTransaction"@).len(),
            forall|k: int|
                0 <= k < items@.len() ==> cash_transaction_obeys(
                    named_in(e@.children.take(i as int), "CashTransaction"@)[k],
                    #[trigger] items@[k],
                ),
            forall|k: int|
                0 <= k < items@.len() ==> cash_transaction_wf(
                    #[trigger] named_in(e@.children.take(i as int), "CashTransaction"@)[k],
                ),
        decreases n - i,
    {
        let child = &e.children[i];
        let ghost gc = e@.children[i as int];
        proof {
            assert(e@.children.take(i + 1).drop_last() =~= e@.children.take(i as int));
            assert(e@.children.take(i + 1).last() == gc);
        }
        let cn = chars_of_str(child.name.as_str());
        if chars_eq_str(&cn, "CashTransaction") {
            let t = match decode_cash_transaction(child) {
                Ok(t) => t,
                Err(er) => {
                    proof {
                        lemma_named_in_prefix(e@.children, "CashTransaction"@, i + 1);
                        let pre = named_in(e@.children.take(i as int), "CashTransaction"@);
                        assert(named_in(e@.children.take(i + 1), "CashTransaction"@) == pre.push(gc));
                        assert(named_in(e@.children, "CashTransaction"@)[pre.len() as int] == gc);
                        assert(!cash_transactions_wrapper_wf(e@));
                    }
                    return Err(er);
                },
            };
            items.push(t);
        }
        i += 1;
    }
    proof {
        assert(e@.children.take(n as int) =~= e@.children);
    }
    Ok(CashTransactionsWrapper { items })
}


/// The `CorporateActions` section.
#[derive(Debug, Clone)]
pub struct CorporateActionsWrapper {
    /// Records of the section, in input order.
    pub items: Vec<CorporateAction>,
}

/// Whether the section decodes: every `CorporateAction` child decodes; children
/// with other tags are ignored.
pub open spec fn corporate_actions_wrapper_wf(e: XElem) -> bool {
    forall|k: int|
        0 <= k < named_in(e.children, "CorporateAction"@).len() ==> corporate_action_wf(
            #[trigger] named_in(e.children, "CorporateAction"@)[k],
        )
}

/// The decoded items are exactly the section's `CorporateAction` children, in
/// input order.
pub open spec fn corporate_actions_wrapper_obeys(e: XElem, w: CorporateActionsWrapper) -> bool {
    let cs = named_in(e.children, "CorporateAction"@);
    &&& w.items@.len() == cs.len()
    &&& forall|k: int| 0 <= k < cs.len() ==> corporate_action_obeys(cs[k], #[trigger] w.items@[k])
}

/// Decodes one `CorporateActions` section element.
pub fn decode_corporate_actions_wrapper(e: &Element) -> (r: Result<CorporateActionsWrapper, ParseError>)
    ensures
        corporate_actions_wrapper_wf(e@) ==> r is Ok && corporate_actions_wrapper_obeys(e@, r->Ok_0),
        !corporate_actions_wrapper_wf(e@) ==> r is Err,
{
    proof {
        crate::xml::lemma_elems_view_index(e.children@);
    }
    let mut items: Vec<CorporateAction> = Vec::new();
    let n = e.children.len();
    let mut i: usize = 0;
    while i < n
        invariant
            n == e.children.len(),
            e@.children.len() == n,
            forall|k: int|
                0 <= k < n ==> #[trigger] e@.children[k] == crate::xml::elem_view(
                    e.children@[k],
                ),
            i <= n,
            items@.len() == named_in(e@.children.take(i as int), "CorporateAction"@).len(),
            forall|k: int|
                0 <= k < items@.len() ==> corporate_action_obeys(
                    named_in(e@.children.take(i as int), "CorporateAction"@)[k],
                    #[trigger] items@[k],
                ),
            forall|k: int|
                0 <= k < items@.len() ==> corporate_action_wf(
                    #[trigger] named_in(e@.children.take(i as int), "CorporateAction"@)[k],
                ),
        decreases n - i,
    {
        let child = &e.children[i];
        let ghost gc = e@.children[i as int];
        proof {
            assert(e@.children.take(i + 1).drop_last() =~= e@.children.take(i as int));
            assert(e@.children.take(i + 1).last() == gc);
        }
        let cn = chars_of_str(child.name.as_str());
        if chars_eq_str(&cn, "CorporateAction") {
            let t = match decode_corporate_action(child) {
                Ok(t) => t,
                Err(er) => {
                    proof {
                        lemma_named_in_prefix(e@.children, "CorporateAction"@, i + 1);
                        let pre = named_in(e@.children.take(i as int), "CorporateAction"@);
                        assert(named_in(e@.children.take(i + 1), "CorporateAction"@) == pre.push(gc));
                        assert(named_in(e@.children, "CorporateAction"@)[pre.len() as int] == gc);
                        assert(!corporate_actions_wrapper_wf(e@));
                    }
                    return Err(er);
                },
            };
            items.push(t);
        }
        i += 1;
    }
    proof {
        assert(e@.children.take(n as int) =~= e@.children);
    }
    Ok(CorporateActionsWrapper { items })
}


/// The `SecuritiesInfo` section.
#[derive(Debug, Clone)]
pub struct SecuritiesInfoWrapper {
    /// Records of the section, in input order.
    pub items: Vec<SecurityInfo>,
}

/// Whether the section decodes: every `SecurityInfo` child decodes; children
/// with other tags are ignored.
pub open spec fn securities_info_wrapper_wf(e: XElem) -> bool {
    forall|k: int|
        0 <= k < named_in(e.children, "SecurityInfo"@).len() ==> security_info_wf(
            #[trigger] named_in(e.children, "SecurityInfo"@)[k],
        )
}

/// The decoded items are exactly the section's `SecurityInfo` children, in
/// input order.
pub open spec fn securities_info_wrapper_obeys(e: XElem, w: SecuritiesInfoWrapper) -> bool {
    let cs = named_in(e.children, "SecurityInfo"@);
    &&& w.items@.len() == cs.len()
    &&& forall|k: int| 0 <= k < cs.len() ==> security_info_obeys(cs[k], #[trigger] w.items@[k])
}

/// Decodes one `SecuritiesInfo` section element.
pub fn decode_securities_info_wrapper(e: &Element) -> (r: Result<SecuritiesInfoWrapper, ParseError>)
    ensures
        securities_info_wrapper_wf(e@) ==> r is Ok && securities_info_wrapper_obeys(e@, r->Ok_0),
        !securities_info_wrapper_wf(e@) ==> r is Err,
{
    proof {
        crate::xml::lemma_elems_view_index(e.children@);
    }
    let mut items: Vec<SecurityInfo> = Vec::new();
    let n = e.children.len();
    let mut i: usize = 0;
    while i < n
        invariant
            n == e.children.len(),
            e@.children.len() == n,
            forall|k: int|
                0 <= k < n ==> #[trigger] e@.children[k] == crate::xml::elem_view(
                    e.children@[k],
                ),
            i <= n,
            items@.len() == named_in(e@.children.take(i as int), "SecurityInfo"@).len(),
            forall|k: int|
                0 <= k < items@.len() ==> security_info_obeys(
                    named_in(e@.children.take(i as int), "SecurityInfo"@)[k],
                    #[trigger] items@[k],
                ),
            forall|k: int|
                0 <= k < items@.len() ==> security_info_wf(
                    #[trigger] named_in(e@.children.take(i as int), "SecurityInfo"@)[k],
                ),
        decreases n - i,
    {
        let child = &e.children[i];
        let ghost gc = e@.children[i as int];
        proof {
            assert(e@.children.take(i + 1).drop_last() =~= e@.children.take(i as int));
            assert(e@.children.take(i + 1).last() == gc);
        }
        let cn = chars_of_str(child.name.as_str());
        if chars_eq_str(&cn, "SecurityInfo") {
            let t = match decode_security_info(child) {
                Ok(t) => t,
                Err(er) => {
                    proof {
                        lemma_named_in_prefix(e@.children, "SecurityInfo"@, i + 1);
                        let pre = named_in(e@.children.take(i as int), "SecurityInfo"@);
                        assert(named_in(e@.children.take(i + 1), "SecurityInfo"@) == pre.push(gc));
                        assert(named_in(e@.children, "SecurityInfo"@)[pre.len() as int] == gc);
                        assert(!securities_info_wrapper_wf(e@));
                    }
                    return Err(er);
                },
            };
            items.push(t);
        }
        i += 1;
    }
    proof {
        assert(e@.children.take(n as int) =~= e@.children);
    }
    Ok(SecuritiesInfoWrapper { items })
}


/// The `ConversionRates` section.
#[derive(Debug, Clone)]
pub struct ConversionRatesWrapper {
    /// Records of the section, in input order.
    pub items: Vec<ConversionRate>,
}

/// Whether the section decodes: every `ConversionRate` child decodes; children
/// with other tags are ignored.
pub open spec fn conversion_rates_wrapper_wf(e: XElem) -> bool {
    forall|k: int|
        0 <= k < named_in(e.children, "ConversionRate"@).len() ==> conversion_rate_wf(
            #[trigger] named_in(e.children, "ConversionRate"@)[k],
        )
}

/// The decoded items are exactly the section's `ConversionRate` children, in
/// input order.
pub open spec fn conversion_rates_wrapper_obeys(e: XElem, w: ConversionRatesWrapper) -> bool {
    let cs = named_in(e.children, "ConversionRate"@);
    &&& w.items@.len() == cs.len()
    &&& forall|k: int| 0 <= k < cs.len() ==> conversion_rate_obeys(cs[k], #[trigger] w.items@[k])
}

/// Decodes one `ConversionRates` section element.
pub fn decode_conversion_rates_wrapper(e: &Element) -> (r: Result<ConversionRatesWrapper, ParseError>)
    ensures
        conversion_rates_wrapper_wf(e@) ==> r is Ok && conversion_rates_wrapper_obeys(e@, r->Ok_0),
        !conversion_rates_wrapper_wf(e@) ==> r is Err,
{
    proof {
        crate::xml::lemma_elems_view_index(e.children@);
    }
    let mut items: Vec<ConversionRate> = Vec::new();
    let n = e.children.len();
    let mut i: usize = 0;
    while i < n
        invariant
            n == e.children.len(),
            e@.children.len() == n,
            forall|k: int|
                0 <= k < n ==> #[trigger] e@.children[k] == crate::xml::elem_view(
                    e.children@[k],
                ),
            i <= n,
            items@.len() == named_in(e@.children.take(i as int), "ConversionRate"@).len(),
            forall|k: int|
                0 <= k < items@.len() ==> conversion_rate_obeys(
                    named_in(e@.children.take(i as int), "ConversionRate"@)[k],
                    #[trigger] items@[k],
                ),
            forall|k: int|
                0 <= k < items@.len() ==> conversion_rate_wf(
                    #[trigger] named_in(e@.children.take(i as int), "ConversionRate"@)[k],
                ),
        decreases n - i,
    {
        let child = &e.children[i];
        let ghost gc = e@.children[i as int];
        proof {
            assert(e@.children.take(i + 1).drop_last() =~= e@.children.take(i as int));
            assert(e@.children.take(i + 1).last() == gc);
        }
        let cn = chars_of_str(child.name.as_str());
        if chars_eq_str(&cn, "ConversionRate") {
            let t = match decode_conversion_rate(child) {
                Ok(t) => t,
                Err(er) => {
                    proof {
                        lemma_named_in_prefix(e@.children, "ConversionRate"@, i + 1);
                        let pre = named_in(e@.children.take(i as int), "ConversionRate"@);
                        assert(named_in(e@.children.take(i + 1), "ConversionRate"@) == pre.push(gc));
                        assert(named_in(e@.children, "ConversionRate"@)[pre.len() as int] == gc);
                        assert(!conversion_rates_wrapper_wf(e@));
                    }
                    return Err(er);
                },
            };
            items.push(t);
        }
        i += 1;
    }
    proof {
        assert(e@.children.take(n as int) =~= e@.children);
    }
    Ok(ConversionRatesWrapper { items })
}


/// The `EquitySummaryInBase` section.
#[derive(Debug, Clone)]
pub struct EquitySummaryWrapper {
    /// Records of the section, in input order.
    pub items: Vec<EquitySummaryByReportDateInBase>,
}

/// Whether the section decodes: every `EquitySummaryByReportDateInBase` child decodes; children
/// with other tags are ignored.
pub open spec fn equity_summary_wrapper_wf(e: XElem) -> bool {
    forall|k: int|
        0 <= k < named_in(e.children, "EquitySummaryByReportDateInBase"@).len() ==> equity_summary_by_report_date_in_base_wf(
            #[trigger] named_in(e.children, "EquitySummaryByReportDateInBase"@)[k],
        )
}

/// The decoded items are exactly the section's `EquitySummaryByReportDateInBase` children, in
/// input order.
pub open spec fn equity_summary_wrapper_obeys(e: XElem, w: EquitySummaryWrapper) -> bool {
    let cs = named_in(e.children, "EquitySummaryByReportDateInBase"@);
    &&& w.items@.len() == cs.len()
    &&& forall|k: int| 0 <= k < cs.len() ==> equity_summary_by_report_date_in_base_obeys(cs[k], #[trigger] w.items@[k])
}

/// Decodes one `EquitySummaryInBase` section element.
pub fn decode_equity_summary_wrapper(e: &Element) -> (r: Result<EquitySummaryWrapper, ParseError>)
    ensures
        equity_summary_wrapper_wf(e@) ==> r is Ok && equity_summary_wrapper_obeys(e@, r->Ok_0),
        !equity_summary_wrapper_wf(e@) ==> r is Err,
{
    proof {
        crate::xml::lemma_elems_view_index(e.children@);
    }
    let mut items: Vec<EquitySummaryByReportDateInBase> = Vec::new();
    let n = e.children.len();
    let mut i: usize = 0;
    while i < n
        invariant
            n == e.children.len(),
            e@.children.len() == n,
            forall|k: int|
                0 <= k < n ==> #[trigger] e@.children[k] == crate::xml::elem_view(
                    e.children@[k],
                ),
            i <= n,
            items@.len() == named_in(e@.children.take(i as int), "EquitySummaryByReportDateInBase"@).len(),
            forall|k: int|
                0 <= k < items@.len() ==> equity_summary_by_report_date_in_base_obeys(
                    named_in(e@.children.take(i as int), "EquitySummaryByReportDateInBase"@)[k],
                    #[trigger] items@[k],
                ),
            forall|k: int|
                0 <= k < items@.len() ==> equity_summary_by_report_date_in_base_wf(
                    #[trigger] named_in(e@.children.take(i as int), "EquitySummaryByReportDateInBase"@)[k],
                ),
        decreases n - i,
    {
        let child = &e.children[i];
        let ghost gc = e@.children[i as int];
        proof {
            assert(e@.children.take(i + 1).drop_last() =~= e@.children.take(i as int));
            assert(e@.children.take(i + 1).last() == gc);
        }
        let cn = chars_of_str(child.name.as_str());
        if chars_eq_str(&cn, "EquitySummaryByReportDateInBase") {
            let t = match decode_equity_summary_by_report_date_in_base(child) {
                Ok(t) => t,
                Err(er) => {
                    proof {
                        lemma_named_in_prefix(e@.children, "EquitySummaryByReportDateInBase"@, i + 1);
                        let pre = named_in(e@.children.take(i as int), "EquitySummaryByReportDateInBase"@);
                        assert(named_in(e@.children.take(i + 1), "EquitySummaryByReportDateInBase"@) == pre.push(gc));
                        assert(named_in(e@.children, "EquitySummaryByReportDateInBase"@)[pre.len() as int] == gc);
                        assert(!equity_summary_wrapper_wf(e@));
                    }
                    return Err(er);
                },
            };
            items.push(t);
        }
        i += 1;
    }
    proof {
        assert(e@.children.take(n as int) =~= e@.children);
    }
    Ok(EquitySummaryWrapper { items })
}


/// The `CashReport` section.
#[derive(Debug, Clone)]
pub struct CashReportWrapper {
    /// Records of the section, in input order.
    pub items: Vec<CashReportCurrency>,
}

/// Whether the section decodes: every `CashReportCurrency` child decodes; children
/// with other tags are ignored.
pub open spec fn cash_report_wrapper_wf(e: XElem) -> bool {
    forall|k: int|
        0 <= k < named_in(e.children, "CashReportCurrency"@).len() ==> cash_report_currency_wf(
            #[trigger] named_in(e.children, "CashReportCurrency"@)[k],
        )
}

/// The decoded items are exactly the section's `CashReportCurrency` children, in
/// input order.
pub open spec fn cash_report_wrapper_obeys(e: XElem, w: CashReportWrapper) -> bool {
    let cs = named_in(e.children, "CashReportCurrency"@);
    &&& w.items@.len() == cs.len()
    &&& forall|k: int| 0 <= k < cs.len() ==> cash_report_currency_obeys(cs[k], #[trigger] w.items@[k])
}

/// Decodes one `CashReport` section element.
pub fn decode_cash_report_wrapper(e: &Element) -> (r: Result<CashReportWrapper, ParseError>)
    ensures
        cash_report_wrapper_wf(e@) ==> r is Ok && cash_report_wrapper_obeys(e@, r->Ok_0),
        !cash_report_wrapper_wf(e@) ==> r is Err,
{
    proof {
        crate::xml::lemma_elems_view_index(e.children@);
    }
    let mut items: Vec<CashReportCurrency> = Vec::new();
    let n = e.children.len();
    let mut i: usize = 0;
    while i < n
        invariant
            n == e.children.len(),
            e@.children.len() == n,
            forall|k: int|
                0 <= k < n ==> #[trigger] e@.children[k] == crate::xml::elem_view(
                    e.children@[k],
                ),
            i <= n,
            items@.len() == named_in(e@.children.take(i as int), "CashReportCurrency"@).len(),
            forall|k: int|
                0 <= k < items@.len() ==> cash_report_currency_obeys(
                    named_in(e@.children.take(i as int), "CashReportCurrency"@)[k],
                    #[trigger] items@[k],
                ),
            forall|k: int|
                0 <= k < items@.len() ==> cash_report_currency_wf(
                    #[trigger] named_in(e@.children.take(i as int), "CashReportCurrency"@)[k],
                ),
        decreases n - i,
    {
        let child = &e.children[i];
        let ghost gc = e@.children[i as int];
        proof {
            assert(e@.children.take(i + 1).drop_last() =~= e@.children.take(i as int));
            assert(e@.children.take(i + 1).last() == gc);
        }
        let cn = chars_of_str(child.name.as_str());
        if chars_eq_str(&cn, "CashReportCurrency") {
            let t = match decode_cash_report_currency(child) {
                Ok(t) => t,
                Err(er) => {
                    proof {
                        lemma_named_in_prefix(e@.children, "CashReportCurrency"@, i + 1);
                        let pre = named_in(e@.children.take(i as int), "CashReportCurrency"@);
                        assert(named_in(e@.children.take(i + 1), "CashReportCurrency"@) == pre.push(gc));
                        assert(named_in(e@.children, "CashReportCurrency"@)[pre.len() as int] == gc);
                        assert(!cash_report_wrapper_wf(e@));
                    }
                    return Err(er);
                },
            };
            items.push(t);
        }
        i += 1;
    }
    proof {
        assert(e@.children.take(n as int) =~= e@.children);
    }
    Ok(CashReportWrapper { items })
}


/// The `TradeConfirms` section.
#[derive(Debug, Clone)]
pub struct TradeConfirmsWrapper {
    /// Records of the section, in input order.
    pub items: Vec<TradeConfirm>,
}

/// Whether the section decodes: every `TradeConfirm` child decodes; children
/// with other tags are ignored.
pub open spec fn trade_confirms_wrapper_wf(e: XElem) -> bool {
    forall|k: int|
        0 <= k < named_in(e.children, "TradeConfirm"@).len() ==> trade_confirm_wf(
            #[trigger] named_in(e.children, "TradeConfirm"@)[k],
        )
}

/// The decoded items are exactly the section's `TradeConfirm` children, in
/// input order.
pub open spec fn trade_confirms_wrapper_obeys(e: XElem, w: TradeConfirmsWrapper) -> bool {
    let cs = named_in(e.children, "TradeConfirm"@);
    &&& w.items@.len() == cs.len()
    &&& forall|k: int| 0 <= k < cs.len() ==> trade_confirm_obeys(cs[k], #[trigger] w.items@[k])
}

/// Decodes one `TradeConfirms` section element.
pub fn decode_trade_confirms_wrapper(e: &Element) -> (r: Result<TradeConfirmsWrapper, ParseError>)
    ensures
        trade_confirms_wrapper_wf(e@) ==> r is Ok && trade_confirms_wrapper_obeys(e@, r->Ok_0),
        !trade_confirms_wrapper_wf(e@) ==> r is Err,
{
    proof {
        crate::xml::lemma_elems_view_index(e.children@);
    }
    let mut items: Vec<TradeConfirm> = Vec::new();
    let n = e.children.len();
    let mut i: usize = 0;
    while i < n
        invariant
            n == e.children.len(),
            e@.children.len() == n,
            forall|k: int|
                0 <= k < n ==> #[trigger] e@.children[k] == crate::xml::elem_view(
                    e.children@[k],
                ),
            i <= n,
            items@.len() == named_in(e@.children.take(i as int), "TradeConfirm"@).len(),
            forall|k: int|
                0 <= k < items@.len() ==> trade_confirm_obeys(
                    named_in(e@.children.take(i as int), "TradeConfirm"@)[k],
                    #[trigger] items@[k],
                ),
            forall|k: int|
                0 <= k < items@.len() ==> trade_confirm_wf(
                    #[trigger] named_in(e@.children.take(i as int), "TradeConfirm"@)[k],
                ),
        decreases n - i,
    {
        let child = &e.children[i];
        let ghost gc = e@.children[i as int];
        proof {
            assert(e@.children.take(i + 1).drop_last() =~= e@.children.take(i as int));
            assert(e@.children.take(i + 1).last() == gc);
        }
        let cn = chars_of_str(child.name.as_str());
        if chars_eq_str(&cn, "TradeConfirm") {
            let t = match decode_trade_confirm(child) {
                Ok(t) => t,
                Err(er) => {
                    proof {
                        lemma_named_in_prefix(e@.children, "TradeConfirm"@, i + 1);
                        let pre = named_in(e@.children.take(i as int), "TradeConfirm"@);
                        assert(named_in(e@.children.take(i + 1), "TradeConfirm"@) == pre.push(gc));
                        assert(named_in(e@.children, "TradeConfirm"@)[pre.len() as int] == gc);
                        assert(!trade_confirms_wrapper_wf(e@));
                    }
                    return Err(er);
                },
            };
            items.push(t);
        }
        i += 1;
    }
    proof {
        assert(e@.children.take(n as int) =~= e@.children);
    }
    Ok(TradeConfirmsWrapper { items })
}


/// The `OptionEAE` section.
#[derive(Debug, Clone)]
pub struct OptionEAEWrapper {
    /// Records of the section, in input order.
    pub items: Vec<OptionEAE>,
}

/// Whether the section decodes: every `OptionEAE` child decodes; children
/// with other tags are ignored.
pub open spec fn option_eaewrapper_wf(e: XElem) -> bool {
    forall|k: int|
        0 <= k < named_in(e.children, "OptionEAE"@).len() ==> option_e_a_e_wf(
            #[trigger] named_in(e.children, "OptionEAE"@)[k],
        )
}

/// The decoded items are exactly the section's `OptionEAE` children, in
/// input order.
pub open spec fn option_eaewrapper_obeys(e: XElem, w: OptionEAEWrapper) -> bool {
    let cs = named_in(e.children, "OptionEAE"@);
    &&& w.items@.len() == cs.len()
    &&& forall|k: int| 0 <= k < cs.len() ==> option_e_a_e_obeys(cs[k], #[trigger] w.items@[k])
}

/// Decodes one `OptionEAE` section element.
pub fn decode_option_eaewrapper(e: &Element) -> (r: Result<OptionEAEWrapper, ParseError>)
    ensures
        option_eaewrapper_wf(e@) ==> r is Ok && option_eaewrapper_obeys(e@, r->Ok_0),
        !option_eaewrapper_wf(e@) ==> r is Err,
{
    proof {
        crate::xml::lemma_elems_view_index(e.children@);
    }
    let mut items: Vec<OptionEAE> = Vec::new();
    let n = e.children.len();
    let mut i: usize = 0;
    while i < n
        invariant
            n == e.children.len(),
            e@.children.len() == n,
            forall|k: int|
                0 <= k < n ==> #[trigger] e@.children[k] == crate::xml::elem_view(
                    e.children@[k],
                ),
            i <= n,
            items@.len() == named_in(e@.children.take(i as int), "OptionEAE"@).len(),
            forall|k: int|
                0 <= k < items@.len() ==> option_e_a_e_obeys(
                    named_in(e@.children.take(i as int), "OptionEAE"@)[k],
                    #[trigger] items@[k],
                ),
            forall|k: int|
                0 <= k < items@.len() ==> option_e_a_e_wf(
                    #[trigger] named_in(e@.children.take(i as int), "OptionEAE"@)[k],
                ),
        decreases n - i,
    {
        let child = &e.children[i];
        let ghost gc = e@.children[i as int];
        proof {
            assert(e@.children.take(i + 1).drop_last() =~= e@.children.take(i as int));
            assert(e@.children.take(i + 1).last() == gc);
        }
        let cn = chars_of_str(child.name.as_str());
        if chars_eq_str(&cn, "OptionEAE") {
            let t = match decode_option_e_a_e(child) {
                Ok(t) => t,
                Err(er) => {
                    proof {
                        lemma_named_in_prefix(e@.children, "OptionEAE"@, i + 1);
                        let pre = named_in(e@.children.take(i as int), "OptionEAE"@);
                        assert(named_in(e@.children.take(i + 1), "OptionEAE"@) == pre.push(gc));
                        assert(named_in(e@.children, "OptionEAE"@)[pre.len() as int] == gc);
                        assert(!option_eaewrapper_wf(e@));
                    }
                    return Err(er);
                },
            };
            items.push(t);
        }
        i += 1;
    }
    proof {
        assert(e@.children.take(n as int) =~= e@.children);
    }
    Ok(OptionEAEWrapper { items })
}


/// The `FxTransactions` section.
#[derive(Debug, Clone)]
pub struct FxTransactionsWrapper {
    /// Records of the section, in input order.
    pub items: Vec<FxTransaction>,
}

/// Whether the section decodes: every `FxTransaction` child decodes; children
/// with other tags are ignored.
pub open spec fn fx_transactions_wrapper_wf(e: XElem) -> bool {
    forall|k: int|
        0 <= k < named_in(e.children, "FxTransaction"@).len() ==> fx_transaction_wf(
            #[trigger] named_in(e.children, "FxTransaction"@)[k],
        )
}

/// The decoded items are exactly the section's `FxTransaction` children, in
/// input order.
pub open spec fn fx_transactions_wrapper_obeys(e: XElem, w: FxTransactionsWrapper) -> bool {
    let cs = named_in(e.children, "FxTransaction"@);
    &&& w.items@.len() == cs.len()
    &&& forall|k: int| 0 <= k < cs.len() ==> fx_transaction_obeys(cs[k], #[trigger] w.items@[k])
}

/// Decodes one `FxTransactions` section element.
pub fn decode_fx_transactions_wrapper(e: &Element) -> (r: Result<FxTransactionsWrapper, ParseError>)
    ensures
        fx_transactions_wrapper_wf(e@) ==> r is Ok && fx_transactions_wrapper_obeys(e@, r->Ok_0),
        !fx_transactions_wrapper_wf(e@) ==> r is Err,
{
    proof {
        crate::xml::lemma_elems_view_index(e.children@);
    }
    let mut items: Vec<FxTransaction> = Vec::new();
    let n = e.children.len();
    let mut i: usize = 0;
    while i < n
        invariant
            n == e.children.len(),
            e@.children.len() == n,
            forall|k: int|
                0 <= k < n ==> #[trigger] e@.children[k] == crate::xml::elem_view(
                    e.children@[k],
                ),
            i <= n,
            items@.len() == named_in(e@.children.take(i as int), "FxTransaction"@).len(),
            forall|k: int|
                0 <= k < items@.len() ==> fx_transaction_obeys(
                    named_in(e@.children.take(i as int), "FxTransaction"@)[k],
                    #[trigger] items@[k],
                ),
            forall|k: int|
                0 <= k < items@.len() ==> fx_transaction_wf(
                    #[trigger] named_in(e@.children.take(i as int), "FxTransaction"@)[k],
                ),
        decreases n - i,
    {
        let child = &e.children[i];
        let ghost gc = e@.children[i as int];
        proof {
            assert(e@.children.take(i + 1).drop_last() =~= e@.children.take(i as int));
            assert(e@.children.take(i + 1).last() == gc);
        }
        let cn = chars_of_str(child.name.as_str());
        if chars_eq_str(&cn, "FxTransaction") {
            let t = match decode_fx_transaction(child) {
                Ok(t) => t,
                Err(er) => {
                    proof {
                        lemma_named_in_prefix(e@.children, "FxTransaction"@, i + 1);
                        let pre = named_in(e@.children.take(i as int), "FxTransaction"@);
                        assert(named_in(e@.children.take(i + 1), "FxTransaction"@) == pre.push(gc));
                        assert(named_in(e@.children, "FxTransaction"@)[pre.len() as int] == gc);
                        assert(!fx_transactions_wrapper_wf(e@));
                    }
                    return Err(er);
                },
            };
            items.push(t);
        }
        i += 1;
    }
    proof {
        assert(e@.children.take(n as int) =~= e@.children);
    }
    Ok(FxTransactionsWrapper { items })
}


/// The `ChangeInDividendAccruals` section.
#[derive(Debug, Clone)]
pub struct ChangeInDividendAccrualsWrapper {
    /// Records of the section, in input order.
    pub items: Vec<ChangeInDividendAccrual>,
}

/// Whether the section decodes: every `ChangeInDividendAccrual` child decodes; children
/// with other tags are ignored.
pub open spec fn change_in_dividend_accruals_wrapper_wf(e: XElem) -> bool {
    forall|k: int|
        0 <= k < named_in(e.children, "ChangeInDividendAccrual"@).len() ==> change_in_dividend_accrual_wf(
            #[trigger] named_in(e.children, "ChangeInDividendAccrual"@)[k],
        )
}

/// The decoded items are exactly the section's `ChangeInDividendAccrual` children, in
/// input order.
pub open spec fn change_in_dividend_accruals_wrapper_obeys(e: XElem, w: ChangeInDividendAccrualsWrapper) -> bool {
    let cs = named_in(e.children, "ChangeInDividendAccrual"@);
    &&& w.items@.len() == cs.len()
    &&& forall|k: int| 0 <= k < cs.len() ==> change_in_dividend_accrual_obeys(cs[k], #[trigger] w.items@[k])
}

/// Decodes one `ChangeInDividendAccruals` section element.
pub fn decode_change_in_dividend_accruals_wrapper(e: &Element) -> (r: Result<ChangeInDividendAccrualsWrapper, ParseError>)
    ensures
        change_in_dividend_accruals_wrapper_wf(e@) ==> r is Ok && change_in_dividend_accruals_wrapper_obeys(e@, r->Ok_0),
        !change_in_dividend_accruals_wrapper_wf(e@) ==> r is Err,
{
    proof {
        crate::xml::lemma_elems_view_index(e.children@);
    }
    let mut items: Vec<ChangeInDividendAccrual> = Vec::new();
    let n = e.children.len();
    let mut i: usize = 0;
    while i < n
        invariant
            n == e.children.len(),
            e@.children.len() == n,
            forall|k: int|
                0 <= k < n ==> #[trigger] e@.children[k] == crate::xml::elem_view(
                    e.children@[k],
                ),
            i <= n,
            items@.len() == named_in(e@.children.take(i as int), "ChangeInDividendAccrual"@).len(),
            forall|k: int|
                0 <= k < items@.len() ==> change_in_dividend_accrual_obeys(
                    named_in(e@.children.take(i as int), "ChangeInDividendAccrual"@)[k],
                    #[trigger] items@[k],
                ),
            forall|k: int|
                0 <= k < items@.len() ==> change_in_dividend_accrual_wf(
                    #[trigger] named_in(e@.children.take(i as int), "ChangeInDividendAccrual"@)[k],
                ),
        decreases n - i,
    {
        let child = &e.children[i];
        let ghost gc = e@.children[i as int];
        proof {
            assert(e@.children.take(i + 1).drop_last() =~= e@.children.take(i as int));
            assert(e@.children.take(i + 1).last() == gc);
        }
        let cn = chars_of_str(child.name.as_str());
        if chars_eq_str(&cn, "ChangeInDividendAccrual") {
            let t = match decode_change_in_dividend_accrual(child) {
                Ok(t) => t,
                Err(er) => {
                    proof {
                        lemma_named_in_prefix(e@.children, "ChangeInDividendAccrual"@, i + 1);
                        let pre = named_in(e@.children.take(i as int), "ChangeInDividendAccrual"@);
                        assert(named_in(e@.children.take(i + 1), "ChangeInDividendAccrual"@) == pre.push(gc));
                        assert(named_in(e@.children, "ChangeInDividendAccrual"@)[pre.len() as int] == gc);
                        assert(!change_in_dividend_accruals_wrapper_wf(e@));
                    }
                    return Err(er);
                },
            };
            items.push(t);
        }
        i += 1;
    }
    proof {
        assert(e@.children.take(n as int) =~= e@.children);
    }
    Ok(ChangeInDividendAccrualsWrapper { items })
}


/// The `OpenDividendAccruals` section.
#[derive(Debug, Clone)]
pub struct OpenDividendAccrualsWrapper {
    /// Records of the section, in input order.
    pub items: Vec<OpenDividendAccrual>,
}

/// Whether the section decodes: every `OpenDividendAccrual` child decodes; children
/// with other tags are ignored.
pub open spec fn open_dividend_accruals_wrapper_wf(e: XElem) -> bool {
    forall|k: int|
        0 <= k < named_in(e.children, "OpenDividendAccrual"@).len() ==> open_dividend_accrual_wf(
            #[trigger] named_in(e.children, "OpenDividendAccrual"@)[k],
        )
}

/// The decoded items are exactly the section's `OpenDividendAccrual` children, in
/// input order.
pub open spec fn open_dividend_accruals_wrapper_obeys(e: XElem, w: OpenDividendAccrualsWrapper) -> bool {
    let cs = named_in(e.children, "OpenDividendAccrual"@);
    &&& w.items@.len() == cs.len()
    &&& forall|k: int| 0 <= k < cs.len() ==> open_dividend_accrual_obeys(cs[k], #[trigger] w.items@[k])
}

/// Decodes one `OpenDividendAccruals` section element.
pub fn decode_open_dividend_accruals_wrapper(e: &Element) -> (r: Result<OpenDividendAccrualsWrapper, ParseError>)
    ensures
        open_dividend_accruals_wrapper_wf(e@) ==> r is Ok && open_dividend_accruals_wrapper_obeys(e@, r->Ok_0),
        !open_dividend_accruals_wrapper_wf(e@) ==> r is Err,
{
    proof {
        crate::xml::lemma_elems_view_index(e.children@);
    }
    let mut items: Vec<OpenDividendAccrual> = Vec::new();
    let n = e.children.len();
    let mut i: usize = 0;
    while i < n
        invariant
            n == e.children.len(),
            e@.children.len() == n,
            forall|k: int|
                0 <= k < n ==> #[trigger] e@.children[k] == crate::xml::elem_view(
                    e.children@[k],
                ),
            i <= n,
            items@.len() == named_in(e@.children.take(i as int), "OpenDividendAccrual"@).len(),
            forall|k: int|
                0 <= k < items@.len() ==> open_dividend_accrual_obeys(
                    named_in(e@.children.take(i as int), "OpenDividendAccrual"@)[k],
                    #[trigger] items@[k],
                ),
            forall|k: int|
                0 <= k < items@.len() ==> open_dividend_accrual_wf(
                    #[trigger] named_in(e@.children.take(i as int), "OpenDividendAccrual"@)[k],
                ),
        decreases n - i,
    {
        let child = &e.children[i];
        let ghost gc = e@.children[i as int];
        proof {
            assert(e@.children.take(i + 1).drop_last() =~= e@.children.take(i as int));
            assert(e@.children.take(i + 1).last() == gc);
        }
        let cn = chars_of_str(child.name.as_str());
        if chars_eq_str(&cn, "OpenDividendAccrual") {
            let t = match decode_open_dividend_accrual(child) {
                Ok(t) => t,
                Err(er) => {
                    proof {
                        lemma_named_in_prefix(e@.children, "OpenDividendAccrual"@, i + 1);
                        let pre = named_in(e@.children.take(i as int), "OpenDividendAccrual"@);
                        assert(named_in(e@.children.take(i + 1), "OpenDividendAccrual"@) == pre.push(gc));
                        assert(named_in(e@.children, "OpenDividendAccrual"@)[pre.len() as int] == gc);
                        assert(!open_dividend_accruals_wrapper_wf(e@));
                    }
                    return Err(er);
                },
            };
            items.push(t);
        }
        i += 1;
    }
    proof {
        assert(e@.children.take(n as int) =~= e@.children);
    }
    Ok(OpenDividendAccrualsWrapper { items })
}


/// The `InterestAccruals` section.
#[derive(Debug, Clone)]
pub struct InterestAccrualsWrapper {
    /// Records of the section, in input order.
    pub items: Vec<InterestAccrualsCurrency>,
}

/// Whether the section decodes: every `InterestAccrualsCurrency` child decodes; children
/// with other tags are ignored.
pub open spec fn interest_accruals_wrapper_wf(e: XElem) -> bool {
    forall|k: int|
        0 <= k < named_in(e.children, "InterestAccrualsCurrency"@).len() ==> interest_accruals_currency_wf(
            #[trigger] named_in(e.children, "InterestAccrualsCurrency"@)[k],
        )
}

/// The decoded items are exactly the section's `InterestAccrualsCurrency` children, in
/// input order.
pub open spec fn interest_accruals_wrapper_obeys(e: XElem, w: InterestAccrualsWrapper) -> bool {
    let cs = named_in(e.children, "InterestAccrualsCurrency"@);
    &&& w.items@.len() == cs.len()
    &&& forall|k: int| 0 <= k < cs.len() ==> interest_accruals_currency_obeys(cs[k], #[trigger] w.items@[k])
}

/// Decodes one `InterestAccruals` section element.
pub fn decode_interest_accruals_wrapper(e: &Element) -> (r: Result<InterestAccrualsWrapper, ParseError>)
    ensures
        interest_accruals_wrapper_wf(e@) ==> r is Ok && interest_accruals_wrapper_obeys(e@, r->Ok_0),
        !interest_accruals_wrapper_wf(e@) ==> r is Err,
{
    proof {
        crate::xml::lemma_elems_view_index(e.children@);
    }
    let mut items: Vec<InterestAccrualsCurrency> = Vec::new();
    let n = e.children.len();
    let mut i: usize = 0;
    while i < n
        invariant
            n == e.children.len(),
            e@.children.len() == n,
            forall|k: int|
                0 <= k < n ==> #[trigger] e@.children[k] == crate::xml::elem_view(
                    e.children@[k],
                ),
            i <= n,
            items@.len() == named_in(e@.children.take(i as int), "InterestAccrualsCurrency"@).len(),
            forall|k: int|
                0 <= k < items@.len() ==> interest_accruals_currency_obeys(
                    named_in(e@.children.take(i as int), "InterestAccrualsCurrency"@)[k],
                    #[trigger] items@[k],
                ),
            forall|k: int|
                0 <= k < items@.len() ==> interest_accruals_currency_wf(
                    #[trigger] named_in(e@.children.take(i as int), "InterestAccrualsCurrency"@)[k],
                ),
        decreases n - i,
    {
        let child = &e.children[i];
        let ghost gc = e@.children[i as int];
        proof {
            assert(e@.children.take(i + 1).drop_last() =~= e@.children.take(i as int));
            assert(e@.children.take(i + 1).last() == gc);
        }
        let cn = chars_of_str(child.name.as_str());
        if chars_eq_str(&cn, "InterestAccrualsCurrency") {
            let t = match decode_interest_accruals_currency(child) {
                Ok(t) => t,
                Err(er) => {
                    proof {
                        lemma_named_in_prefix(e@.children, "InterestAccrualsCurrency"@, i + 1);
                        let pre = named_in(e@.children.take(i as int), "InterestAccrualsCurrency"@);
                        assert(named_in(e@.children.take(i + 1), "InterestAccrualsCurrency"@) == pre.push(gc));
                        assert(named_in(e@.children, "InterestAccrualsCurrency"@)[pre.len() as int] == gc);
                        assert(!interest_accruals_wrapper_wf(e@));
                    }
                    return Err(er);
                },
            };
            items.push(t);
        }
        i += 1;
    }
    proof {
        assert(e@.children.take(n as int) =~= e@.children);
    }
    Ok(InterestAccrualsWrapper { items })
}


/// The `Transfers` section.
#[derive(Debug, Clone)]
pub struct TransfersWrapper {
    /// Records of the section, in input order.
    pub items: Vec<Transfer>,
}

/// Whether the section decodes: every `Transfer` child decodes; children
/// with other tags are ignored.
pub open spec fn transfers_wrapper_wf(e: XElem) -> bool {
    forall|k: int|
        0 <= k < named_in(e.children, "Transfer"@).len() ==> transfer_wf(
            #[trigger] named_in(e.children, "Transfer"@)[k],
        )
}

/// The decoded items are exactly the section's `Transfer` children, in
/// input order.
pub open spec fn transfers_wrapper_obeys(e: XElem, w: TransfersWrapper) -> bool {
    let cs = named_in(e.children, "Transfer"@);
    &&& w.items@.len() == cs.len()
    &&& forall|k: int| 0 <= k < cs.len() ==> transfer_obeys(cs[k], #[trigger] w.items@[k])
}

/// Decodes one `Transfers` section element.
pub fn decode_transfers_wrapper(e: &Element) -> (r: Result<TransfersWrapper, ParseError>)
    ensures
        transfers_wrapper_wf(e@) ==> r is Ok && transfers_wrapper_obeys(e@, r->Ok_0),
        !transfers_wrapper_wf(e@) ==> r is Err,
{
    proof {
        crate::xml::lemma_elems_view_index(e.children@);
    }
    let mut items: Vec<Transfer> = Vec::new();
    let n = e.children.len();
    let mut i: usize = 0;
    while i < n
        invariant
            n == e.children.len(),
            e@.children.len() == n,
            forall|k: int|
                0 <= k < n ==> #[trigger] e@.children[k] == crate::xml::elem_view(
                    e.children@[k],
                ),
            i <= n,
            items@.len() == named_in(e@.children.take(i as int), "Transfer"@).len(),
            forall|k: int|
                0 <= k < items@.len() ==> transfer_obeys(
                    named_in(e@.children.take(i as int), "Transfer"@)[k],
                    #[trigger] items@[k],
                ),
            forall|k: int|
                0 <= k < items@.len() ==> transfer_wf(
                    #[trigger] named_in(e@.children.take(i as int), "Transfer"@)[k],
                ),
        decreases n - i,
    {
        let child = &e.children[i];
        let ghost gc = e@.children[i as int];
        proof {
            assert(e@.children.take(i + 1).drop_last() =~= e@.children.take(i as int));
            assert(e@.children.take(i + 1).last() == gc);
        }
        let cn = chars_of_str(child.name.as_str());
        if chars_eq_str(&cn, "Transfer") {
            let t = match decode_transfer(child) {
                Ok(t) => t,
                Err(er) => {
                    proof {
                        lemma_named_in_prefix(e@.children, "Transfer"@, i + 1);
                        let pre = named_in(e@.children.take(i as int), "Transfer"@);
                        assert(named_in(e@.children.take(i + 1), "Transfer"@) == pre.push(gc));
                        assert(named_in(e@.children, "Transfer"@)[pre.len() as int] == gc);
                        assert(!transfers_wrapper_wf(e@));
                    }
                    return Err(er);
                },
            };
            items.push(t);
        }
        i += 1;
    }
    proof {
        assert(e@.children.take(n as int) =~= e@.children);
    }
    Ok(TransfersWrapper { items })
}


/// The `MTMPerformanceSummaryInBase` section.
#[derive(Debug, Clone)]
pub struct MTMPerformanceSummaryWrapper {
    /// Records of the section, in input order.
    pub items: Vec<MTMPerformanceSummaryUnderlying>,
}

/// Whether the section decodes: every `MTMPerformanceSummaryUnderlying` child decodes; children
/// with other tags are ignored.
pub open spec fn mtmperformance_summary_wrapper_wf(e: XElem) -> bool {
    forall|k: int|
        0 <= k < named_in(e.children, "MTMPerformanceSummaryUnderlying"@).len() ==> m_t_m_performance_summary_underlying_wf(
            #[trigger] named_in(e.children, "MTMPerformanceSummaryUnderlying"@)[k],
        )
}

/// The decoded items are exactly the section's `MTMPerformanceSummaryUnderlying` children, in
/// input order.
pub open spec fn mtmperformance_summary_wrapper_obeys(e: XElem, w: MTMPerformanceSummaryWrapper) -> bool {
    let cs = named_in(e.children, "MTMPerformanceSummaryUnderlying"@);
    &&& w.items@.len() == cs.len()
    &&& forall|k: int| 0 <= k < cs.len() ==> m_t_m_performance_summary_underlying_obeys(cs[k], #[trigger] w.items@[k])
}

/// Decodes one `MTMPerformanceSummaryInBase` section element.
pub fn decode_mtmperformance_summary_wrapper(e: &Element) -> (r: Result<MTMPerformanceSummaryWrapper, ParseError>)
    ensures
        mtmperformance_summary_wrapper_wf(e@) ==> r is Ok && mtmperformance_summary_wrapper_obeys(e@, r->Ok_0),
        !mtmperformance_summary_wrapper_wf(e@) ==> r is Err,
{
    proof {
        crate::xml::lemma_elems_view_index(e.children@);
    }
    let mut items: Vec<MTMPerformanceSummaryUnderlying> = Vec::new();
    let n = e.children.len();
    let mut i: usize = 0;
    while i < n
        invariant
            n == e.children.len(),
            e@.children.len() == n,
            forall|k: int|
                0 <= k < n ==> #[trigger] e@.children[k] == crate::xml::elem_view(
                    e.children@[k],
                ),
            i <= n,
            items@.len() == named_in(e@.children.take(i as int), "MTMPerformanceSummaryUnderlying"@).len(),
            forall|k: int|
                0 <= k < items@.len() ==> m_t_m_performance_summary_underlying_obeys(
                    named_in(e@.children.take(i as int), "MTMPerformanceSummaryUnderlying"@)[k],
                    #[trigger] items@[k],
                ),
            forall|k: int|
                0 <= k < items@.len() ==> m_t_m_performance_summary_underlying_wf(
                    #[trigger] named_in(e@.children.take(i as int), "MTMPerformanceSummaryUnderlying"@)[k],
                ),
        decreases n - i,
    {
        let child = &e.children[i];
        let ghost gc = e@.children[i as int];
        proof {
            assert(e@.children.take(i + 1).drop_last() =~= e@.children.take(i as int));
            assert(e@.children.take(i + 1).last() == gc);
        }
        let cn = chars_of_str(child.name.as_str());
        if chars_eq_str(&cn, "MTMPerformanceSummaryUnderlying") {
            let t = match decode_m_t_m_performance_summary_underlying(child) {
                Ok(t) => t,
                Err(er) => {
                    proof {
                        lemma_named_in_prefix(e@.children, "MTMPerformanceSummaryUnderlying"@, i + 1);
                        let pre = named_in(e@.children.take(i as int), "MTMPerformanceSummaryUnderlying"@);
                        assert(named_in(e@.children.take(i + 1), "MTMPerformanceSummaryUnderlying"@) == pre.push(gc));
                        assert(named_in(e@.children, "MTMPerformanceSummaryUnderlying"@)[pre.len() as int] == gc);
                        assert(!mtmperformance_summary_wrapper_wf(e@));
                    }
                    return Err(er);
                },
            };
            items.push(t);
        }
        i += 1;
    }
    proof {
        assert(e@.children.take(n as int) =~= e@.children);
    }
    Ok(MTMPerformanceSummaryWrapper { items })
}


/// The `FIFOPerformanceSummaryInBase` section.
#[derive(Debug, Clone)]
pub struct FIFOPerformanceSummaryWrapper {
    /// Records of the section, in input order.
    pub items: Vec<FIFOPerformanceSummaryUnderlying>,
}

/// Whether the section decodes: every `FIFOPerformanceSummaryUnderlying` child decodes; children
/// with other tags are ignored.
pub open spec fn fifoperformance_summary_wrapper_wf(e: XElem) -> bool {
    forall|k: int|
        0 <= k < named_in(e.children, "FIFOPerformanceSummaryUnderlying"@).len() ==> f_i_f_o_performance_summary_underlying_wf(
            #[trigger] named_in(e.children, "FIFOPerformanceSummaryUnderlying"@)[k],
        )
}

/// The decoded items are exactly the section's `FIFOPerformanceSummaryUnderlying` children, in
/// input order.
pub open spec fn fifoperformance_summary_wrapper_obeys(e: XElem, w: FIFOPerformanceSummaryWrapper) -> bool {
    let cs = named_in(e.children, "FIFOPerformanceSummaryUnderlying"@);
    &&& w.items@.len() == cs.len()
    &&& forall|k: int| 0 <= k < cs.len() ==> f_i_f_o_performance_summary_underlying_obeys(cs[k], #[trigger] w.items@[k])
}

/// Decodes one `FIFOPerformanceSummaryInBase` section element.
pub fn decode_fifoperformance_summary_wrapper(e: &Element) -> (r: Result<FIFOPerformanceSummaryWrapper, ParseError>)
    ensures
        fifoperformance_summary_wrapper_wf(e@) ==> r is Ok && fifoperformance_summary_wrapper_obeys(e@, r->Ok_0),
        !fifoperformance_summary_wrapper_wf(e@) ==> r is Err,
{
    proof {
        crate::xml::lemma_elems_view_index(e.children@);
    }
    let mut items: Vec<FIFOPerformanceSummaryUnderlying> = Vec::new();
    let n = e.children.len();
    let mut i: usize = 0;
    while i < n
        invariant
            n == e.children.len(),
            e@.children.len() == n,
            forall|k: int|
                0 <= k < n ==> #[trigger] e@.children[k] == crate::xml::elem_view(
                    e.children@[k],
                ),
            i <= n,
            items@.len() == named_in(e@.children.take(i as int), "FIFOPerformanceSummaryUnderlying"@).len(),
            forall|k: int|
                0 <= k < items@.len() ==> f_i_f_o_performance_summary_underlying_obeys(
                    named_in(e@.children.take(i as int), "FIFOPerformanceSummaryUnderlying"@)[k],
                    #[trigger] items@[k],
                ),
            forall|k: int|
                0 <= k < items@.len() ==> f_i_f_o_performance_summary_underlying_wf(
                    #[trigger] named_in(e@.children.take(i as int), "FIFOPerformanceSummaryUnderlying"@)[k],
                ),
        decreases n - i,
    {
        let child = &e.children[i];
        let ghost gc = e@.children[i as int];
        proof {
            assert(e@.children.take(i + 1).drop_last() =~= e@.children.take(i as int));
            assert(e@.children.take(i + 1).last() == gc);
        }
        let cn = chars_of_str(child.name.as_str());
        if chars_eq_str(&cn, "FIFOPerformanceSummaryUnderlying") {
            let t = match decode_f_i_f_o_performance_summary_underlying(child) {
                Ok(t) => t,
                Err(er) => {
                    proof {
                        lemma_named_in_prefix(e@.children, "FIFOPerformanceSummaryUnderlying"@, i + 1);
                        let pre = named_in(e@.children.take(i as int), "FIFOPerformanceSummaryUnderlying"@);
                        assert(named_in(e@.children.take(i + 1), "FIFOPerformanceSummaryUnderlying"@) == pre.push(gc));
                        assert(named_in(e@.children, "FIFOPerformanceSummaryUnderlying"@)[pre.len() as int] == gc);
                        assert(!fifoperformance_summary_wrapper_wf(e@));
                    }
                    return Err(er);
                },
            };
            items.push(t);
        }
        i += 1;
    }
    proof {
        assert(e@.children.take(n as int) =~= e@.children);
    }
    Ok(FIFOPerformanceSummaryWrapper { items })
}


/// The `MTDYTDPerformanceSummary` section.
#[derive(Debug, Clone)]
pub struct MTDYTDPerformanceSummaryWrapper {
    /// Records of the section, in input order.
    pub items: Vec<MTDYTDPerformanceSummary>,
}

/// Whether the section decodes: every `MTDYTDPerformanceSummaryUnderlying` child decodes; children
/// with other tags are ignored.
pub open spec fn mtdytdperformance_summary_wrapper_wf(e: XElem) -> bool {
    forall|k: int|
        0 <= k < named_in(e.children, "MTDYTDPerformanceSummaryUnderlying"@).len() ==> m_t_d_y_t_d_performance_summary_wf(
            #[trigger] named_in(e.children, "MTDYTDPerformanceSummaryUnderlying"@)[k],
        )
}

/// The decoded items are exactly the section's `MTDYTDPerformanceSummaryUnderlying` children, in
/// input order.
pub open spec fn mtdytdperformance_summary_wrapper_obeys(e: XElem, w: MTDYTDPerformanceSummaryWrapper) -> bool {
    let cs = named_in(e.children, "MTDYTDPerformanceSummaryUnderlying"@);
    &&& w.items@.len() == cs.len()
    &&& forall|k: int| 0 <= k < cs.len() ==> m_t_d_y_t_d_performance_summary_obeys(cs[k], #[trigger] w.items@[k])
}

/// Decodes one `MTDYTDPerformanceSummary` section element.
pub fn decode_mtdytdperformance_summary_wrapper(e: &Element) -> (r: Result<MTDYTDPerformanceSummaryWrapper, ParseError>)
    ensures
        mtdytdperformance_summary_wrapper_wf(e@) ==> r is Ok && mtdytdperformance_summary_wrapper_obeys(e@, r->Ok_0),
        !mtdytdperformance_summary_wrapper_wf(e@) ==> r is Err,
{
    proof {
        crate::xml::lemma_elems_view_index(e.children@);
    }
    let mut items: Vec<MTDYTDPerformanceSummary> = Vec::new();
    let n = e.children.len();
    let mut i: usize = 0;
    while i < n
        invariant
            n == e.children.len(),
            e@.children.len() == n,
            forall|k: int|
                0 <= k < n ==> #[trigger] e@.children[k] == crate::xml::elem_view(
                    e.children@[k],
                ),
            i <= n,
            items@.len() == named_in(e@.children.take(i as int), "MTDYTDPerformanceSummaryUnderlying"@).len(),
            forall|k: int|
                0 <= k < items@.len() ==> m_t_d_y_t_d_performance_summary_obeys(
                    named_in(e@.children.take(i as int), "MTDYTDPerformanceSummaryUnderlying"@)[k],
                    #[trigger] items@[k],
                ),
            forall|k: int|
                0 <= k < items@.len() ==> m_t_d_y_t_d_performance_summary_wf(
                    #[trigger] named_in(e@.children.take(i as int), "MTDYTDPerformanceSummaryUnderlying"@)[k],
                ),
        decreases n - i,
    {
        let child = &e.children[i];
        let ghost gc = e@.children[i as int];
        proof {
            assert(e@.children.take(i + 1).drop_last() =~= e@.children.take(i as int));
            assert(e@.children.take(i + 1).last() == gc);
        }
        let cn = chars_of_str(child.name.as_str());
        if chars_eq_str(&cn, "MTDYTDPerformanceSummaryUnderlying") {
            let t = match decode_m_t_d_y_t_d_performance_summary(child) {
                Ok(t) => t,
                Err(er) => {
                    proof {
                        lemma_named_in_prefix(e@.children, "MTDYTDPerformanceSummaryUnderlying"@, i + 1);
                        let pre = named_in(e@.children.take(i as int), "MTDYTDPerformanceSummaryUnderlying"@);
                        assert(named_in(e@.children.take(i + 1), "MTDYTDPerformanceSummaryUnderlying"@) == pre.push(gc));
                        assert(named_in(e@.children, "MTDYTDPerformanceSummaryUnderlying"@)[pre.len() as int] == gc);
                        assert(!mtdytdperformance_summary_wrapper_wf(e@));
                    }
                    return Err(er);
                },
            };
            items.push(t);
        }
        i += 1;
    }
    proof {
        assert(e@.children.take(n as int) =~= e@.children);
    }
    Ok(MTDYTDPerformanceSummaryWrapper { items })
}


/// The `StmtFunds` section.
#[derive(Debug, Clone)]
pub struct StatementOfFundsWrapper {
    /// Records of the section, in input order.
    pub items: Vec<StatementOfFundsLine>,
}

/// Whether the section decodes: every `StatementOfFundsLine` child decodes; children
/// with other tags are ignored.
pub open spec fn statement_of_funds_wrapper_wf(e: XElem) -> bool {
    forall|k: int|
        0 <= k < named_in(e.children, "StatementOfFundsLine"@).len() ==> statement_of_funds_line_wf(
            #[trigger] named_in(e.children, "StatementOfFundsLine"@)[k],
        )
}

/// The decoded items are exactly the section's `StatementOfFundsLine` children, in
/// input order.
pub open spec fn statement_of_funds_wrapper_obeys(e: XElem, w: StatementOfFundsWrapper) -> bool {
    let cs = named_in(e.children, "StatementOfFundsLine"@);
    &&& w.items@.len() == cs.len()
    &&& forall|k: int| 0 <= k < cs.len() ==> statement_of_funds_line_obeys(cs[k], #[trigger] w.items@[k])
}

/// Decodes one `StmtFunds` section element.
pub fn decode_statement_of_funds_wrapper(e: &Element) -> (r: Result<StatementOfFundsWrapper, ParseError>)
    ensures
        statement_of_funds_wrapper_wf(e@) ==> r is Ok && statement_of_funds_wrapper_obeys(e@, r->Ok_0),
        !statement_of_funds_wrapper_wf(e@) ==> r is Err,
{
    proof {
        crate::xml::lemma_elems_view_index(e.children@);
    }
    let mut items: Vec<StatementOfFundsLine> = Vec::new();
    let n = e.children.len();
    let mut i: usize = 0;
    while i < n
        invariant
            n == e.children.len(),
            e@.children.len() == n,
            forall|k: int|
                0 <= k < n ==> #[trigger] e@.children[k] == crate::xml::elem_view(
                    e.children@[k],
                ),
            i <= n,
            items@.len() == named_in(e@.children.take(i as int), "StatementOfFundsLine"@).len(),
            forall|k: int|
                0 <= k < items@.len() ==> statement_of_funds_line_obeys(
                    named_in(e@.children.take(i as int), "StatementOfFundsLine"@)[k],
                    #[trigger] items@[k],
                ),
            forall|k: int|
                0 <= k < items@.len() ==> statement_of_funds_line_wf(
                    #[trigger] named_in(e@.children.take(i as int), "StatementOfFundsLine"@)[k],
                ),
        decreases n - i,
    {
        let child = &e.children[i];
        let ghost gc = e@.children[i as int];
        proof {
            assert(e@.children.take(i + 1).drop_last() =~= e@.children.take(i as int));
            assert(e@.children.take(i + 1).last() == gc);
        }
        let cn = chars_of_str(child.name.as_str());
        if chars_eq_str(&cn, "StatementOfFundsLine") {
            let t = match decode_statement_of_funds_line(child) {
                Ok(t) => t,
                Err(er) => {
                    proof {
                        lemma_named_in_prefix(e@.children, "StatementOfFundsLine"@, i + 1);
                        let pre = named_in(e@.children.take(i as int), "StatementOfFundsLine"@);
                        assert(named_in(e@.children.take(i + 1), "StatementOfFundsLine"@) == pre.push(gc));
                        assert(named_in(e@.children, "StatementOfFundsLine"@)[pre.len() as int] == gc);
                        assert(!statement_of_funds_wrapper_wf(e@));
                    }
                    return Err(er);
                },
            };
            items.push(t);
        }
        i += 1;
    }
    proof {
        assert(e@.children.take(n as int) =~= e@.children);
    }
    Ok(StatementOfFundsWrapper { items })
}


/// The `ChangeInPositionValues` section.
#[derive(Debug, Clone)]
pub struct ChangeInPositionValueWrapper {
    /// Records of the section, in input order.
    pub items: Vec<ChangeInPositionValue>,
}

/// Whether the section decodes: every `ChangeInPositionValue` child decodes; children
/// with other tags are ignored.
pub open spec fn change_in_position_value_wrapper_wf(e: XElem) -> bool {
    forall|k: int|
        0 <= k < named_in(e.children, "ChangeInPositionValue"@).len() ==> change_in_position_value_wf(
            #[trigger] named_in(e.children, "ChangeInPositionValue"@)[k],
        )
}

/// The decoded items are exactly the section's `ChangeInPositionValue` children, in
/// input order.
pub open spec fn change_in_position_value_wrapper_obeys(e: XElem, w: ChangeInPositionValueWrapper) -> bool {
    let cs = named_in(e.children, "ChangeInPositionValue"@);
    &&& w.items@.len() == cs.len()
    &&& forall|k: int| 0 <= k < cs.len() ==> change_in_position_value_obeys(cs[k], #[trigger] w.items@[k])
}

/// Decodes one `ChangeInPositionValues` section element.
pub fn decode_change_in_position_value_wrapper(e: &Element) -> (r: Result<ChangeInPositionValueWrapper, ParseError>)
    ensures
        change_in_position_value_wrapper_wf(e@) ==> r is Ok && change_in_position_value_wrapper_obeys(e@, r->Ok_0),
        !change_in_position_value_wrapper_wf(e@) ==> r is Err,
{
    proof {
        crate::xml::lemma_elems_view_index(e.children@);
    }
    let mut items: Vec<ChangeInPositionValue> = Vec::new();
    let n = e.children.len();
    let mut i: usize = 0;
    while i < n
        invariant
            n == e.children.len(),
            e@.children.len() == n,
            forall|k: int|
                0 <= k < n ==> #[trigger] e@.children[k] == crate::xml::elem_view(
                    e.children@[k],
                ),
            i <= n,
            items@.len() == named_in(e@.children.take(i as int), "ChangeInPositionValue"@).len(),
            forall|k: int|
                0 <= k < items@.len() ==> change_in_position_value_obeys(
                    named_in(e@.children.take(i as int), "ChangeInPositionValue"@)[k],
                    #[trigger] items@[k],
                ),
            forall|k: int|
                0 <= k < items@.len() ==> change_in_position_value_wf(
                    #[trigger] named_in(e@.children.take(i as int), "ChangeInPositionValue"@)[k],
                ),
        decreases n - i,
    {
        let child = &e.children[i];
        let ghost gc = e@.children[i as int];
        proof {
            assert(e@.children.take(i + 1).drop_last() =~= e@.children.take(i as int));
            assert(e@.children.take(i + 1).last() == gc);
        }
        let cn = chars_of_str(child.name.as_str());
        if chars_eq_str(&cn, "ChangeInPositionValue") {
            let t = match decode_change_in_position_value(child) {
                Ok(t) => t,
                Err(er) => {
                    proof {
                        lemma_named_in_prefix(e@.children, "ChangeInPositionValue"@, i + 1);
                        let pre = named_in(e@.children.take(i as int), "ChangeInPositionValue"@);
                        assert(named_in(e@.children.take(i + 1), "ChangeInPositionValue"@) == pre.push(gc));
                        assert(named_in(e@.children, "ChangeInPositionValue"@)[pre.len() as int] == gc);
                        assert(!change_in_position_value_wrapper_wf(e@));
                    }
                    return Err(er);
                },
            };
            items.push(t);
        }
        i += 1;
    }
    proof {
        assert(e@.children.take(n as int) =~= e@.children);
    }
    Ok(ChangeInPositionValueWrapper { items })
}


/// The `UnbundledCommissionDetails` section.
#[derive(Debug, Clone)]
pub struct UnbundledCommissionDetailWrapper {
    /// Records of the section, in input order.
    pub items: Vec<UnbundledCommissionDetail>,
}

/// Whether the section decodes: every `UnbundledCommissionDetail` child decodes; children
/// with other tags are ignored.
pub open spec fn unbundled_commission_detail_wrapper_wf(e: XElem) -> bool {
    forall|k: int|
        0 <= k < named_in(e.children, "UnbundledCommissionDetail"@).len() ==> unbundled_commission_detail_wf(
            #[trigger] named_in(e.children, "UnbundledCommissionDetail"@)[k],
        )
}

/// The decoded items are exactly the section's `UnbundledCommissionDetail` children, in
/// input order.
pub open spec fn unbundled_commission_detail_wrapper_obeys(e: XElem, w: UnbundledCommissionDetailWrapper) -> bool {
    let cs = named_in(e.children, "UnbundledCommissionDetail"@);
    &&& w.items@.len() == cs.len()
    &&& forall|k: int| 0 <= k < cs.len() ==> unbundled_commission_detail_obeys(cs[k], #[trigger] w.items@[k])
}

/// Decodes one `UnbundledCommissionDetails` section element.
pub fn decode_unbundled_commission_detail_wrapper(e: &Element) -> (r: Result<UnbundledCommissionDetailWrapper, ParseError>)
    ensures
        unbundled_commission_detail_wrapper_wf(e@) ==> r is Ok && unbundled_commission_detail_wrapper_obeys(e@, r->Ok_0),
        !unbundled_commission_detail_wrapper_wf(e@) ==> r is Err,
{
    proof {
        crate::xml::lemma_elems_view_index(e.children@);
    }
    let mut items: Vec<UnbundledCommissionDetail> = Vec::new();
    let n = e.children.len();
    let mut i: usize = 0;
    while i < n
        invariant
            n == e.children.len(),
            e@.children.len() == n,
            forall|k: int|
                0 <= k < n ==> #[trigger] e@.children[k] == crate::xml::elem_view(
                    e.children@[k],
                ),
            i <= n,
            items@.len() == named_in(e@.children.take(i as int), "UnbundledCommissionDetail"@).len(),
            forall|k: int|
                0 <= k < items@.len() ==> unbundled_commission_detail_obeys(
                    named_in(e@.children.take(i as int), "UnbundledCommissionDetail"@)[k],
                    #[trigger] items@[k],
                ),
            forall|k: int|
                0 <= k < items@.len() ==> unbundled_commission_detail_wf(
                    #[trigger] named_in(e@.children.take(i as int), "UnbundledCommissionDetail"@)[k],
                ),
        decreases n - i,
    {
        let child = &e.children[i];
        let ghost gc = e@.children[i as int];
        proof {
            assert(e@.children.take(i + 1).drop_last() =~= e@.children.take(i as int));
            assert(e@.children.take(i + 1).last() == gc);
        }
        let cn = chars_of_str(child.name.as_str());
        if chars_eq_str(&cn, "UnbundledCommissionDetail") {
            let t = match decode_unbundled_commission_detail(child) {
                Ok(t) => t,
                Err(er) => {
                    proof {
                        lemma_named_in_prefix(e@.children, "UnbundledCommissionDetail"@, i + 1);
                        let pre = named_in(e@.children.take(i as int), "UnbundledCommissionDetail"@);
                        assert(named_in(e@.children.take(i + 1), "UnbundledCommissionDetail"@) == pre.push(gc));
                        assert(named_in(e@.children, "UnbundledCommissionDetail"@)[pre.len() as int] == gc);
                        assert(!unbundled_commission_detail_wrapper_wf(e@));
                    }
                    return Err(er);
                },
            };
            items.push(t);
        }
        i += 1;
    }
    proof {
        assert(e@.children.take(n as int) =~= e@.children);
    }
    Ok(UnbundledCommissionDetailWrapper { items })
}


/// The `ClientFees` section.
#[derive(Debug, Clone)]
pub struct ClientFeesWrapper {
    /// Records of the section, in input order.
    pub items: Vec<ClientFee>,
}

/// Whether the section decodes: every `ClientFee` child decodes; children
/// with other tags are ignored.
pub open spec fn client_fees_wrapper_wf(e: XElem) -> bool {
    forall|k: int|
        0 <= k < named_in(e.children, "ClientFee"@).len() ==> client_fee_wf(
            #[trigger] named_in(e.children, "ClientFee"@)[k],
        )
}

/// The decoded items are exactly the section's `ClientFee` children, in
/// input order.
pub open spec fn client_fees_wrapper_obeys(e: XElem, w: ClientFeesWrapper) -> bool {
    let cs = named_in(e.children, "ClientFee"@);
    &&& w.items@.len() == cs.len()
    &&& forall|k: int| 0 <= k < cs.len() ==> client_fee_obeys(cs[k], #[trigger] w.items@[k])
}

/// Decodes one `ClientFees` section element.
pub fn decode_client_fees_wrapper(e: &Element) -> (r: Result<ClientFeesWrapper, ParseError>)
    ensures
        client_fees_wrapper_wf(e@) ==> r is Ok && client_fees_wrapper_obeys(e@, r->Ok_0),
        !client_fees_wrapper_wf(e@) ==> r is Err,
{
    proof {
        crate::xml::lemma_elems_view_index(e.children@);
    }
    let mut items: Vec<ClientFee> = Vec::new();
    let n = e.children.len();
    let mut i: usize = 0;
    while i < n
        invariant
            n == e.children.len(),
            e@.children.len() == n,
            forall|k: int|
                0 <= k < n ==> #[trigger] e@.children[k] == crate::xml::elem_view(
                    e.children@[k],
                ),
            i <= n,
            items@.len() == named_in(e@.children.take(i as int), "ClientFee"@).len(),
            forall|k: int|
                0 <= k < items@.len() ==> client_fee_obeys(
                    named_in(e@.children.take(i as int), "ClientFee"@)[k],
                    #[trigger] items@[k],
                ),
            forall|k: int|
                0 <= k < items@.len() ==> client_fee_wf(
                    #[trigger] named_in(e@.children.take(i as int), "ClientFee"@)[k],
                ),
        decreases n - i,
    {
        let child = &e.children[i];
        let ghost gc = e@.children[i as int];
        proof {
            assert(e@.children.take(i + 1).drop_last() =~= e@.children.take(i as int));
            assert(e@.children.take(i + 1).last() == gc);
        }
        let cn = chars_of_str(child.name.as_str());
        if chars_eq_str(&cn, "ClientFee") {
            let t = match decode_client_fee(child) {
                Ok(t) => t,
                Err(er) => {
                    proof {
                        lemma_named_in_prefix(e@.children, "ClientFee"@, i + 1);
                        let pre = named_in(e@.children.take(i as int), "ClientFee"@);
                        assert(named_in(e@.children.take(i + 1), "ClientFee"@) == pre.push(gc));
                        assert(named_in(e@.children, "ClientFee"@)[pre.len() as int] == gc);
                        assert(!client_fees_wrapper_wf(e@));
                    }
                    return Err(er);
                },
            };
            items.push(t);
        }
        i += 1;
    }
    proof {
        assert(e@.children.take(n as int) =~= e@.children);
    }
    Ok(ClientFeesWrapper { items })
}


/// The `ClientFeesDetails` section.
#[derive(Debug, Clone)]
pub struct ClientFeesDetailWrapper {
    /// Records of the section, in input order.
    pub items: Vec<ClientFeesDetail>,
}

/// Whether the section decodes: every `ClientFeesDetail` child decodes; children
/// with other tags are ignored.
pub open spec fn client_fees_detail_wrapper_wf(e: XElem) -> bool {
    forall|k: int|
        0 <= k < named_in(e.children, "ClientFeesDetail"@).len() ==> client_fees_detail_wf(
            #[trigger] named_in(e.children, "ClientFeesDetail"@)[k],
        )
}

/// The decoded items are exactly the section's `ClientFeesDetail` children, in
/// input order.
pub open spec fn client_fees_detail_wrapper_obeys(e: XElem, w: ClientFeesDetailWrapper) -> bool {
    let cs = named_in(e.children, "ClientFeesDetail"@);
    &&& w.items@.len() == cs.len()
    &&& forall|k: int| 0 <= k < cs.len() ==> client_fees_detail_obeys(cs[k], #[trigger] w.items@[k])
}

/// Decodes one `ClientFeesDetails` section element.
pub fn decode_client_fees_detail_wrapper(e: &Element) -> (r: Result<ClientFeesDetailWrapper, ParseError>)
    ensures
        client_fees_detail_wrapper_wf(e@) ==> r is Ok && client_fees_detail_wrapper_obeys(e@, r->Ok_0),
        !client_fees_detail_wrapper_wf(e@) ==> r is Err,
{
    proof {
        crate::xml::lemma_elems_view_index(e.children@);
    }
    let mut items: Vec<ClientFeesDetail> = Vec::new();
    let n = e.children.len();
    let mut i: usize = 0;
    while i < n
        invariant
            n == e.children.len(),
            e@.children.len() == n,
            forall|k: int|
                0 <= k < n ==> #[trigger] e@.children[k] == crate::xml::elem_view(
                    e.children@[k],
                ),
            i <= n,
            items@.len() == named_in(e@.children.take(i as int), "ClientFeesDetail"@).len(),
            forall|k: int|
                0 <= k < items@.len() ==> client_fees_detail_obeys(
                    named_in(e@.children.take(i as int), "ClientFeesDetail"@)[k],
                    #[trigger] items@[k],
                ),
            forall|k: int|
                0 <= k < items@.len() ==> client_fees_detail_wf(
                    #[trigger] named_in(e@.children.take(i as int), "ClientFeesDetail"@)[k],
                ),
        decreases n - i,
    {
        let child = &e.children[i];
        let ghost gc = e@.children[i as int];
        proof {
            assert(e@.children.take(i + 1).drop_last() =~= e@.children.take(i as int));
            assert(e@.children.take(i + 1).last() == gc);
        }
        let cn = chars_of_str(child.name.as_str());
        if chars_eq_str(&cn, "ClientFeesDetail") {
            let t = match decode_client_fees_detail(child) {
                Ok(t) => t,
                Err(er) => {
                    proof {
                        lemma_named_in_prefix(e@.children, "ClientFeesDetail"@, i + 1);
                        let pre = named_in(e@.children.take(i as int), "ClientFeesDetail"@);
                        assert(named_in(e@.children.take(i + 1), "ClientFeesDetail"@) == pre.push(gc));
                        assert(named_in(e@.children, "ClientFeesDetail"@)[pre.len() as int] == gc);
                        assert(!client_fees_detail_wrapper_wf(e@));
                    }
                    return Err(er);
                },
            };
            items.push(t);
        }
        i += 1;
    }
    proof {
        assert(e@.children.take(n as int) =~= e@.children);
    }
    Ok(ClientFeesDetailWrapper { items })
}


/// The `SLBActivities` section.
#[derive(Debug, Clone)]
pub struct SLBActivitiesWrapper {
    /// Records of the section, in input order.
    pub items: Vec<SLBActivity>,
}

/// Whether the section decodes: every `SLBActivity` child decodes; children
/// with other tags are ignored.
pub open spec fn slbactivities_wrapper_wf(e: XElem) -> bool {
    forall|k: int|
        0 <= k < named_in(e.children, "SLBActivity"@).len() ==> s_l_b_activity_wf(
            #[trigger] named_in(e.children, "SLBActivity"@)[k],
        )
}

/// The decoded items are exactly the section's `SLBActivity` children, in
/// input order.
pub open spec fn slbactivities_wrapper_obeys(e: XElem, w: SLBActivitiesWrapper) -> bool {
    let cs = named_in(e.children, "SLBActivity"@);
    &&& w.items@.len() == cs.len()
    &&& forall|k: int| 0 <= k < cs.len() ==> s_l_b_activity_obeys(cs[k], #[trigger] w.items@[k])
}

/// Decodes one `SLBActivities` section element.
pub fn decode_slbactivities_wrapper(e: &Element) -> (r: Result<SLBActivitiesWrapper, ParseError>)
    ensures
        slbactivities_wrapper_wf(e@) ==> r is Ok && slbactivities_wrapper_obeys(e@, r->Ok_0),
        !slbactivities_wrapper_wf(e@) ==> r is Err,
{
    proof {
        crate::xml::lemma_elems_view_index(e.children@);
    }
    let mut items: Vec<SLBActivity> = Vec::new();
    let n = e.children.len();
    let mut i: usize = 0;
    while i < n
        invariant
            n == e.children.len(),
            e@.children.len() == n,
            forall|k: int|
                0 <= k < n ==> #[trigger] e@.children[k] == crate::xml::elem_view(
                    e.children@[k],
                ),
            i <= n,
            items@.len() == named_in(e@.children.take(i as int), "SLBActivity"@).len(),
            forall|k: int|
                0 <= k < items@.len() ==> s_l_b_activity_obeys(
                    named_in(e@.children.take(i as int), "SLBActivity"@)[k],
                    #[trigger] items@[k],
                ),
            forall|k: int|
                0 <= k < items@.len() ==> s_l_b_activity_wf(
                    #[trigger] named_in(e@.children.take(i as int), "SLBActivity"@)[k],
                ),
        decreases n - i,
    {
        let child = &e.children[i];
        let ghost gc = e@.children[i as int];
        proof {
            assert(e@.children.take(i + 1).drop_last() =~= e@.children.take(i as int));
            assert(e@.children.take(i + 1).last() == gc);
        }
        let cn = chars_of_str(child.name.as_str());
        if chars_eq_str(&cn, "SLBActivity") {
            let t = match decode_s_l_b_activity(child) {
                Ok(t) => t,
                Err(er) => {
                    proof {
                        lemma_named_in_prefix(e@.children, "SLBActivity"@, i + 1);
                        let pre = named_in(e@.children.take(i as int), "SLBActivity"@);
                        assert(named_in(e@.children.take(i + 1), "SLBActivity"@) == pre.push(gc));
                        assert(named_in(e@.children, "SLBActivity"@)[pre.len() as int] == gc);
                        assert(!slbactivities_wrapper_wf(e@));
                    }
                    return Err(er);
                },
            };
            items.push(t);
        }
        i += 1;
    }
    proof {
        assert(e@.children.take(n as int) =~= e@.children);
    }
    Ok(SLBActivitiesWrapper { items })
}


/// The `SLBFees` section.
#[derive(Debug, Clone)]
pub struct SLBFeesWrapper {
    /// Records of the section, in input order.
    pub items: Vec<SLBFee>,
}

/// Whether the section decodes: every `SLBFee` child decodes; children
/// with other tags are ignored.
pub open spec fn slbfees_wrapper_wf(e: XElem) -> bool {
    forall|k: int|
        0 <= k < named_in(e.children, "SLBFee"@).len() ==> s_l_b_fee_wf(
            #[trigger] named_in(e.children, "SLBFee"@)[k],
        )
}

/// The decoded items are exactly the section's `SLBFee` children, in
/// input order.
pub open spec fn slbfees_wrapper_obeys(e: XElem, w: SLBFeesWrapper) -> bool {
    let cs = named_in(e.children, "SLBFee"@);
    &&& w.items@.len() == cs.len()
    &&& forall|k: int| 0 <= k < cs.len() ==> s_l_b_fee_obeys(cs[k], #[trigger] w.items@[k])
}

/// Decodes one `SLBFees` section element.
pub fn decode_slbfees_wrapper(e: &Element) -> (r: Result<SLBFeesWrapper, ParseError>)
    ensures
        slbfees_wrapper_wf(e@) ==> r is Ok && slbfees_wrapper_obeys(e@, r->Ok_0),
        !slbfees_wrapper_wf(e@) ==> r is Err,
{
    proof {
        crate::xml::lemma_elems_view_index(e.children@);
    }
    let mut items: Vec<SLBFee> = Vec::new();
    let n = e.children.len();
    let mut i: usize = 0;
    while i < n
        invariant
            n == e.children.len(),
            e@.children.len() == n,
            forall|k: int|
                0 <= k < n ==> #[trigger] e@.children[k] == crate::xml::elem_view(
                    e.children@[k],
                ),
            i <= n,
            items@.len() == named_in(e@.children.take(i as int), "SLBFee"@).len(),
            forall|k: int|
                0 <= k < items@.len() ==> s_l_b_fee_obeys(
                    named_in(e@.children.take(i as int), "SLBFee"@)[k],
                    #[trigger] items@[k],
                ),
            forall|k: int|
                0 <= k < items@.len() ==> s_l_b_fee_wf(
                    #[trigger] named_in(e@.children.take(i as int), "SLBFee"@)[k],
                ),
        decreases n - i,
    {
        let child = &e.children[i];
        let ghost gc = e@.children[i as int];
        proof {
            assert(e@.children.take(i + 1).drop_last() =~= e@.children.take(i as int));
            assert(e@.children.take(i + 1).last() == gc);
        }
        let cn = chars_of_str(child.name.as_str());
        if chars_eq_str(&cn, "SLBFee") {
            let t = match decode_s_l_b_fee(child) {
                Ok(t) => t,
                Err(er) => {
                    proof {
                        lemma_named_in_prefix(e@.children, "SLBFee"@, i + 1);
                        let pre = named_in(e@.children.take(i as int), "SLBFee"@);
                        assert(named_in(e@.children.take(i + 1), "SLBFee"@) == pre.push(gc));
                        assert(named_in(e@.children, "SLBFee"@)[pre.len() as int] == gc);
                        assert(!slbfees_wrapper_wf(e@));
                    }
                    return Err(er);
                },
            };
            items.push(t);
        }
        i += 1;
    }
    proof {
        assert(e@.children.take(n as int) =~= e@.children);
    }
    Ok(SLBFeesWrapper { items })
}


/// The `HardToBorrowDetails` section.
#[derive(Debug, Clone)]
pub struct HardToBorrowDetailsWrapper {
    /// Records of the section, in input order.
    pub items: Vec<HardToBorrowDetail>,
}

/// Whether the section decodes: every `HardToBorrowDetail` child decodes; children
/// with other tags are ignored.
pub open spec fn hard_to_borrow_details_wrapper_wf(e: XElem) -> bool {
    forall|k: int|
        0 <= k < named_in(e.children, "HardToBorrowDetail"@).len() ==> hard_to_borrow_detail_wf(
            #[trigger] named_in(e.children, "HardToBorrowDetail"@)[k],
        )
}

/// The decoded items are exactly the section's `HardToBorrowDetail` children, in
/// input order.
pub open spec fn hard_to_borrow_details_wrapper_obeys(e: XElem, w: HardToBorrowDetailsWrapper) -> bool {
    let cs = named_in(e.children, "HardToBorrowDetail"@);
    &&& w.items@.len() == cs.len()
    &&& forall|k: int| 0 <= k < cs.len() ==> hard_to_borrow_detail_obeys(cs[k], #[trigger] w.items@[k])
}

/// Decodes one `HardToBorrowDetails` section element.
pub fn decode_hard_to_borrow_details_wrapper(e: &Element) -> (r: Result<HardToBorrowDetailsWrapper, ParseError>)
    ensures
        hard_to_borrow_details_wrapper_wf(e@) ==> r is Ok && hard_to_borrow_details_wrapper_obeys(e@, r->Ok_0),
        !hard_to_borrow_details_wrapper_wf(e@) ==> r is Err,
{
    proof {
        crate::xml::lemma_elems_view_index(e.children@);
    }
    let mut items: Vec<HardToBorrowDetail> = Vec::new();
    let n = e.children.len();
    let mut i: usize = 0;
    while i < n
        invariant
            n == e.children.len(),
            e@.children.len() == n,
            forall|k: int|
                0 <= k < n ==> #[trigger] e@.children[k] == crate::xml::elem_view(
                    e.children@[k],
                ),
            i <= n,
            items@.len() == named_in(e@.children.take(i as int), "HardToBorrowDetail"@).len(),
            forall|k: int|
                0 <= k < items@.len() ==> hard_to_borrow_detail_obeys(
                    named_in(e@.children.take(i as int), "HardToBorrowDetail"@)[k],
                    #[trigger] items@[k],
                ),
            forall|k: int|
                0 <= k < items@.len() ==> hard_to_borrow_detail_wf(
                    #[trigger] named_in(e@.children.take(i as int), "HardToBorrowDetail"@)[k],
                ),
        decreases n - i,
    {
        let child = &e.children[i];
        let ghost gc = e@.children[i as int];
        proof {
            assert(e@.children.take(i + 1).drop_last() =~= e@.children.take(i as int));
            assert(e@.children.take(i + 1).last() == gc);
        }
        let cn = chars_of_str(child.name.as_str());
        if chars_eq_str(&cn, "HardToBorrowDetail") {
            let t = match decode_hard_to_borrow_detail(child) {
                Ok(t) => t,
                Err(er) => {
                    proof {
                        lemma_named_in_prefix(e@.children, "HardToBorrowDetail"@, i + 1);
                        let pre = named_in(e@.children.take(i as int), "HardToBorrowDetail"@);
                        assert(named_in(e@.children.take(i + 1), "HardToBorrowDetail"@) == pre.push(gc));
                        assert(named_in(e@.children, "HardToBorrowDetail"@)[pre.len() as int] == gc);
                        assert(!hard_to_borrow_details_wrapper_wf(e@));
                    }
                    return Err(er);
                },
            };
            items.push(t);
        }
        i += 1;
    }
    proof {
        assert(e@.children.take(n as int) =~= e@.children);
    }
    Ok(HardToBorrowDetailsWrapper { items })
}


/// The `FxLots` section.
#[derive(Debug, Clone)]
pub struct FxLotsWrapper {
    /// Records of the section, in input order.
    pub items: Vec<FxLot>,
}

/// Whether the section decodes: every `FxLot` child decodes; children
/// with other tags are ignored.
pub open spec fn fx_lots_wrapper_wf(e: XElem) -> bool {
    forall|k: int|
        0 <= k < named_in(e.children, "FxLot"@).len() ==> fx_lot_wf(
            #[trigger] named_in(e.children, "FxLot"@)[k],
        )
}

/// The decoded items are exactly the section's `FxLot` children, in
/// input order.
pub open spec fn fx_lots_wrapper_obeys(e: XElem, w: FxLotsWrapper) -> bool {
    let cs = named_in(e.children, "FxLot"@);
    &&& w.items@.len() == cs.len()
    &&& forall|k: int| 0 <= k < cs.len() ==> fx_lot_obeys(cs[k], #[trigger] w.items@[k])
}

/// Decodes one `FxLots` section element.
pub fn decode_fx_lots_wrapper(e: &Element) -> (r: Result<FxLotsWrapper, ParseError>)
    ensures
        fx_lots_wrapper_wf(e@) ==> r is Ok && fx_lots_wrapper_obeys(e@, r->Ok_0),
        !fx_lots_wrapper_wf(e@) ==> r is Err,
{
    proof {
        crate::xml::lemma_elems_view_index(e.children@);
    }
    let mut items: Vec<FxLot> = Vec::new();
    let n = e.children.len();
    let mut i: usize = 0;
    while i < n
        invariant
            n == e.children.len(),
            e@.children.len() == n,
            forall|k: int|
                0 <= k < n ==> #[trigger] e@.children[k] == crate::xml::elem_view(
                    e.children@[k],
                ),
            i <= n,
            items@.len() == named_in(e@.children.take(i as int), "FxLot"@).len(),
            forall|k: int|
                0 <= k < items@.len() ==> fx_lot_obeys(
                    named_in(e@.children.take(i as int), "FxLot"@)[k],
                    #[trigger] items@[k],
                ),
            forall|k: int|
                0 <= k < items@.len() ==> fx_lot_wf(
                    #[trigger] named_in(e@.children.take(i as int), "FxLot"@)[k],
                ),
        decreases n - i,
    {
        let child = &e.children[i];
        let ghost gc = e@.children[i as int];
        proof {
            assert(e@.children.take(i + 1).drop_last() =~= e@.children.take(i as int));
            assert(e@.children.take(i + 1).last() == gc);
        }
        let cn = chars_of_str(child.name.as_str());
        if chars_eq_str(&cn, "FxLot") {
            let t = match decode_fx_lot(child) {
                Ok(t) => t,
                Err(er) => {
                    proof {
                        lemma_named_in_prefix(e@.children, "FxLot"@, i + 1);
                        let pre = named_in(e@.children.take(i as int), "FxLot"@);
                        assert(named_in(e@.children.take(i + 1), "FxLot"@) == pre.push(gc));
                        assert(named_in(e@.children, "FxLot"@)[pre.len() as int] == gc);
                        assert(!fx_lots_wrapper_wf(e@));
                    }
                    return Err(er);
                },
            };
            items.push(t);
        }
        i += 1;
    }
    proof {
        assert(e@.children.take(n as int) =~= e@.children);
    }
    Ok(FxLotsWrapper { items })
}


/// The `UnsettledTransfers` section.
#[derive(Debug, Clone)]
pub struct UnsettledTransfersWrapper {
    /// Records of the section, in input order.
    pub items: Vec<UnsettledTransfer>,
}

/// Whether the section decodes: every `UnsettledTransfer` child decodes; children
/// with other tags are ignored.
pub open spec fn unsettled_transfers_wrapper_wf(e: XElem) -> bool {
    forall|k: int|
        0 <= k < named_in(e.children, "UnsettledTransfer"@).len() ==> unsettled_transfer_wf(
            #[trigger] named_in(e.children, "UnsettledTransfer"@)[k],
        )
}

/// The decoded items are exactly the section's `UnsettledTransfer` children, in
/// input order.
pub open spec fn unsettled_transfers_wrapper_obeys(e: XElem, w: UnsettledTransfersWrapper) -> bool {
    let cs = named_in(e.children, "UnsettledTransfer"@);
    &&& w.items@.len() == cs.len()
    &&& forall|k: int| 0 <= k < cs.len() ==> unsettled_transfer_obeys(cs[k], #[trigger] w.items@[k])
}

/// Decodes one `UnsettledTransfers` section element.
pub fn decode_unsettled_transfers_wrapper(e: &Element) -> (r: Result<UnsettledTransfersWrapper, ParseError>)
    ensures
        unsettled_transfers_wrapper_wf(e@) ==> r is Ok && unsettled_transfers_wrapper_obeys(e@, r->Ok_0),
        !unsettled_transfers_wrapper_wf(e@) ==> r is Err,
{
    proof {
        crate::xml::lemma_elems_view_index(e.children@);
    }
    let mut items: Vec<UnsettledTransfer> = Vec::new();
    let n = e.children.len();
    let mut i: usize = 0;
    while i < n
        invariant
            n == e.children.len(),
            e@.children.len() == n,
            forall|k: int|
                0 <= k < n ==> #[trigger] e@.children[k] == crate::xml::elem_view(
                    e.children@[k],
                ),
            i <= n,
            items@.len() == named_in(e@.children.take(i as int), "UnsettledTransfer"@).len(),
            forall|k: int|
                0 <= k < items@.len() ==> unsettled_transfer_obeys(
                    named_in(e@.children.take(i as int), "UnsettledTransfer"@)[k],
                    #[trigger] items@[k],
                ),
            forall|k: int|
                0 <= k < items@.len() ==> unsettled_transfer_wf(
                    #[trigger] named_in(e@.children.take(i as int), "UnsettledTransfer"@)[k],
                ),
        decreases n - i,
    {
        let child = &e.children[i];
        let ghost gc = e@.children[i as int];
        proof {
            assert(e@.children.take(i + 1).drop_last() =~= e@.children.take(i as int));
            assert(e@.children.take(i + 1).last() == gc);
        }
        let cn = chars_of_str(child.name.as_str());
        if chars_eq_str(&cn, "UnsettledTransfer") {
            let t = match decode_unsettled_transfer(child) {
                Ok(t) => t,
                Err(er) => {
                    proof {
                        lemma_named_in_prefix(e@.children, "UnsettledTransfer"@, i + 1);
                        let pre = named_in(e@.children.take(i as int), "UnsettledTransfer"@);
                        assert(named_in(e@.children.take(i + 1), "UnsettledTransfer"@) == pre.push(gc));
                        assert(named_in(e@.children, "UnsettledTransfer"@)[pre.len() as int] == gc);
                        assert(!unsettled_transfers_wrapper_wf(e@));
                    }
                    return Err(er);
                },
            };
            items.push(t);
        }
        i += 1;
    }
    proof {
        assert(e@.children.take(n as int) =~= e@.children);
    }
    Ok(UnsettledTransfersWrapper { items })
}


/// The `TradeTransfers` section.
#[derive(Debug, Clone)]
pub struct TradeTransfersWrapper {
    /// Records of the section, in input order.
    pub items: Vec<TradeTransfer>,
}

/// Whether the section decodes: every `TradeTransfer` child decodes; children
/// with other tags are ignored.
pub open spec fn trade_transfers_wrapper_wf(e: XElem) -> bool {
    forall|k: int|
        0 <= k < named_in(e.children, "TradeTransfer"@).len() ==> trade_transfer_wf(
            #[trigger] named_in(e.children, "TradeTransfer"@)[k],
        )
}

/// The decoded items are exactly the section's `TradeTransfer` children, in
/// input order.
pub open spec fn trade_transfers_wrapper_obeys(e: XElem, w: TradeTransfersWrapper) -> bool {
    let cs = named_in(e.children, "TradeTransfer"@);
    &&& w.items@.len() == cs.len()
    &&& forall|k: int| 0 <= k < cs.len() ==> trade_transfer_obeys(cs[k], #[trigger] w.items@[k])
}

/// Decodes one `TradeTransfers` section element.
pub fn decode_trade_transfers_wrapper(e: &Element) -> (r: Result<TradeTransfersWrapper, ParseError>)
    ensures
        trade_transfers_wrapper_wf(e@) ==> r is Ok && trade_transfers_wrapper_obeys(e@, r->Ok_0),
        !trade_transfers_wrapper_wf(e@) ==> r is Err,
{
    proof {
        crate::xml::lemma_elems_view_index(e.children@);
    }
    let mut items: Vec<TradeTransfer> = Vec::new();
    let n = e.children.len();
    let mut i: usize = 0;
    while i < n
        invariant
            n == e.children.len(),
            e@.children.len() == n,
            forall|k: int|
                0 <= k < n ==> #[trigger] e@.children[k] == crate::xml::elem_view(
                    e.children@[k],
                ),
            i <= n,
            items@.len() == named_in(e@.children.take(i as int), "TradeTransfer"@).len(),
            forall|k: int|
                0 <= k < items@.len() ==> trade_transfer_obeys(
                    named_in(e@.children.take(i as int), "TradeTransfer"@)[k],
                    #[trigger] items@[k],
                ),
            forall|k: int|
                0 <= k < items@.len() ==> trade_transfer_wf(
                    #[trigger] named_in(e@.children.take(i as int), "TradeTransfer"@)[k],
                ),
        decreases n - i,
    {
        let child = &e.children[i];
        let ghost gc = e@.children[i as int];
        proof {
            assert(e@.children.take(i + 1).drop_last() =~= e@.children.take(i as int));
            assert(e@.children.take(i + 1).last() == gc);
        }
        let cn = chars_of_str(child.name.as_str());
        if chars_eq_str(&cn, "TradeTransfer") {
            let t = match decode_trade_transfer(child) {
                Ok(t) => t,
                Err(er) => {
                    proof {
                        lemma_named_in_prefix(e@.children, "TradeTransfer"@, i + 1);
                        let pre = named_in(e@.children.take(i as int), "TradeTransfer"@);
                        assert(named_in(e@.children.take(i + 1), "TradeTransfer"@) == pre.push(gc));
                        assert(named_in(e@.children, "TradeTransfer"@)[pre.len() as int] == gc);
                        assert(!trade_transfers_wrapper_wf(e@));
                    }
                    return Err(er);
                },
            };
            items.push(t);
        }
        i += 1;
    }
    proof {
        assert(e@.children.take(n as int) =~= e@.children);
    }
    Ok(TradeTransfersWrapper { items })
}


/// The `PriorPeriodPositions` section.
#[derive(Debug, Clone)]
pub struct PriorPeriodPositionsWrapper {
    /// Records of the section, in input order.
    pub items: Vec<PriorPeriodPosition>,
}

/// Whether the section decodes: every `PriorPeriodPosition` child decodes; children
/// with other tags are ignored.
pub open spec fn prior_period_positions_wrapper_wf(e: XElem) -> bool {
    forall|k: int|
        0 <= k < named_in(e.children, "PriorPeriodPosition"@).len() ==> prior_period_position_wf(
            #[trigger] named_in(e.children, "PriorPeriodPosition"@)[k],
        )
}

/// The decoded items are exactly the section's `PriorPeriodPosition` children, in
/// input order.
pub open spec fn prior_period_positions_wrapper_obeys(e: XElem, w: PriorPeriodPositionsWrapper) -> bool {
    let cs = named_in(e.children, "PriorPeriodPosition"@);
    &&& w.items@.len() == cs.len()
    &&& forall|k: int| 0 <= k < cs.len() ==> prior_period_position_obeys(cs[k], #[trigger] w.items@[k])
}

/// Decodes one `PriorPeriodPositions` section element.
pub fn decode_prior_period_positions_wrapper(e: &Element) -> (r: Result<PriorPeriodPositionsWrapper, ParseError>)
    ensures
        prior_period_positions_wrapper_wf(e@) ==> r is Ok && prior_period_positions_wrapper_obeys(e@, r->Ok_0),
        !prior_period_positions_wrapper_wf(e@) ==> r is Err,
{
    proof {
        crate::xml::lemma_elems_view_index(e.children@);
    }
    let mut items: Vec<PriorPeriodPosition> = Vec::new();
    let n = e.children.len();
    let mut i: usize = 0;
    while i < n
        invariant
            n == e.children.len(),
            e@.children.len() == n,
            forall|k: int|
                0 <= k < n ==> #[trigger] e@.children[k] == crate::xml::elem_view(
                    e.children@[k],
                ),
            i <= n,
            items@.len() == named_in(e@.children.take(i as int), "PriorPeriodPosition"@).len(),
            forall|k: int|
                0 <= k < items@.len() ==> prior_period_position_obeys(
                    named_in(e@.children.take(i as int), "PriorPeriodPosition"@)[k],
                    #[trigger] items@[k],
                ),
            forall|k: int|
                0 <= k < items@.len() ==> prior_period_position_wf(
                    #[trigger] named_in(e@.children.take(i as int), "PriorPeriodPosition"@)[k],
                ),
        decreases n - i,
    {
        let child = &e.children[i];
        let ghost gc = e@.children[i as int];
        proof {
            assert(e@.children.take(i + 1).drop_last() =~= e@.children.take(i as int));
            assert(e@.children.take(i + 1).last() == gc);
        }
        let cn = chars_of_str(child.name.as_str());
        if chars_eq_str(&cn, "PriorPeriodPosition") {
            let t = match decode_prior_period_position(child) {
                Ok(t) => t,
                Err(er) => {
                    proof {
                        lemma_named_in_prefix(e@.children, "PriorPeriodPosition"@, i + 1);
                        let pre = named_in(e@.children.take(i as int), "PriorPeriodPosition"@);
                        assert(named_in(e@.children.take(i + 1), "PriorPeriodPosition"@) == pre.push(gc));
                        assert(named_in(e@.children, "PriorPeriodPosition"@)[pre.len() as int] == gc);
                        assert(!prior_period_positions_wrapper_wf(e@));
                    }
                    return Err(er);
                },
            };
            items.push(t);
        }
        i += 1;
    }
    proof {
        assert(e@.children.take(n as int) =~= e@.children);
    }
    Ok(PriorPeriodPositionsWrapper { items })
}


/// The `TierInterestDetails` section.
#[derive(Debug, Clone)]
pub struct TierInterestDetailsWrapper {
    /// Records of the section, in input order.
    pub items: Vec<TierInterestDetail>,
}

/// Whether the section decodes: every `TierInterestDetail` child decodes; children
/// with other tags are ignored.
pub open spec fn tier_interest_details_wrapper_wf(e: XElem) -> bool {
    forall|k: int|
        0 <= k < named_in(e.children, "TierInterestDetail"@).len() ==> tier_interest_detail_wf(
            #[trigger] named_in(e.children, "TierInterestDetail"@)[k],
        )
}

/// The decoded items are exactly the section's `TierInterestDetail` children, in
/// input order.
pub open spec fn tier_interest_details_wrapper_obeys(e: XElem, w: TierInterestDetailsWrapper) -> bool {
    let cs = named_in(e.children, "TierInterestDetail"@);
    &&& w.items@.len() == cs.len()
    &&& forall|k: int| 0 <= k < cs.len() ==> tier_interest_detail_obeys(cs[k], #[trigger] w.items@[k])
}

/// Decodes one `TierInterestDetails` section element.
pub fn decode_tier_interest_details_wrapper(e: &Element) -> (r: Result<TierInterestDetailsWrapper, ParseError>)
    ensures
        tier_interest_details_wrapper_wf(e@) ==> r is Ok && tier_interest_details_wrapper_obeys(e@, r->Ok_0),
        !tier_interest_details_wrapper_wf(e@) ==> r is Err,
{
    proof {
        crate::xml::lemma_elems_view_index(e.children@);
    }
    let mut items: Vec<TierInterestDetail> = Vec::new();
    let n = e.children.len();
    let mut i: usize = 0;
    while i < n
        invariant
            n == e.children.len(),
            e@.children.len() == n,
            forall|k: int|
                0 <= k < n ==> #[trigger] e@.children[k] == crate::xml::elem_view(
                    e.children@[k],
                ),
            i <= n,
            items@.len() == named_in(e@.children.take(i as int), "TierInterestDetail"@).len(),
            forall|k: int|
                0 <= k < items@.len() ==> tier_interest_detail_obeys(
                    named_in(e@.children.take(i as int), "TierInterestDetail"@)[k],
                    #[trigger] items@[k],
                ),
            forall|k: int|
                0 <= k < items@.len() ==> tier_interest_detail_wf(
                    #[trigger] named_in(e@.children.take(i as int), "TierInterestDetail"@)[k],
                ),
        decreases n - i,
    {
        let child = &e.children[i];
        let ghost gc = e@.children[i as int];
        proof {
            assert(e@.children.take(i + 1).drop_last() =~= e@.children.take(i as int));
            assert(e@.children.take(i + 1).last() == gc);
        }
        let cn = chars_of_str(child.name.as_str());
        if chars_eq_str(&cn, "TierInterestDetail") {
            let t = match decode_tier_interest_detail(child) {
                Ok(t) => t,
                Err(er) => {
                    proof {
                        lemma_named_in_prefix(e@.children, "TierInterestDetail"@, i + 1);
                        let pre = named_in(e@.children.take(i as int), "TierInterestDetail"@);
                        assert(named_in(e@.children.take(i + 1), "TierInterestDetail"@) == pre.push(gc));
                        assert(named_in(e@.children, "TierInterestDetail"@)[pre.len() as int] == gc);
                        assert(!tier_interest_details_wrapper_wf(e@));
                    }
                    return Err(er);
                },
            };
            items.push(t);
        }
        i += 1;
    }
    proof {
        assert(e@.children.take(n as int) =~= e@.children);
    }
    Ok(TierInterestDetailsWrapper { items })
}


/// The `DebitCardActivities` section.
#[derive(Debug, Clone)]
pub struct DebitCardActivitiesWrapper {
    /// Records of the section, in input order.
    pub items: Vec<DebitCardActivity>,
}

/// Whether the section decodes: every `DebitCardActivity` child decodes; children
/// with other tags are ignored.
pub open spec fn debit_card_activities_wrapper_wf(e: XElem) -> bool {
    forall|k: int|
        0 <= k < named_in(e.children, "DebitCardActivity"@).len() ==> debit_card_activity_wf(
            #[trigger] named_in(e.children, "DebitCardActivity"@)[k],
        )
}

/// The decoded items are exactly the section's `DebitCardActivity` children, in
/// input order.
pub open spec fn debit_card_activities_wrapper_obeys(e: XElem, w: DebitCardActivitiesWrapper) -> bool {
    let cs = named_in(e.children, "DebitCardActivity"@);
    &&& w.items@.len() == cs.len()
    &&& forall|k: int| 0 <= k < cs.len() ==> debit_card_activity_obeys(cs[k], #[trigger] w.items@[k])
}

/// Decodes one `DebitCardActivities` section element.
pub fn decode_debit_card_activities_wrapper(e: &Element) -> (r: Result<DebitCardActivitiesWrapper, ParseError>)
    ensures
        debit_card_activities_wrapper_wf(e@) ==> r is Ok && debit_card_activities_wrapper_obeys(e@, r->Ok_0),
        !debit_card_activities_wrapper_wf(e@) ==> r is Err,
{
    proof {
        crate::xml::lemma_elems_view_index(e.children@);
    }
    let mut items: Vec<DebitCardActivity> = Vec::new();
    let n = e.children.len();
    let mut i: usize = 0;
    while i < n
        invariant
            n == e.children.len(),
            e@.children.len() == n,
            forall|k: int|
                0 <= k < n ==> #[trigger] e@.children[k] == crate::xml::elem_view(
                    e.children@[k],
                ),
            i <= n,
            items@.len() == named_in(e@.children.take(i as int), "DebitCardActivity"@).len(),
            forall|k: int|
                0 <= k < items@.len() ==> debit_card_activity_obeys(
                    named_in(e@.children.take(i as int), "DebitCardActivity"@)[k],
                    #[trigger] items@[k],
                ),
            forall|k: int|
                0 <= k < items@.len() ==> debit_card_activity_wf(
                    #[trigger] named_in(e@.children.take(i as int), "DebitCardActivity"@)[k],
                ),
        decreases n - i,
    {
        let child = &e.children[i];
        let ghost gc = e@.children[i as int];
        proof {
            assert(e@.children.take(i + 1).drop_last() =~= e@.children.take(i as int));
            assert(e@.children.take(i + 1).last() == gc);
        }
        let cn = chars_of_str(child.name.as_str());
        if chars_eq_str(&cn, "DebitCardActivity") {
            let t = match decode_debit_card_activity(child) {
                Ok(t) => t,
                Err(er) => {
                    proof {
                        lemma_named_in_prefix(e@.children, "DebitCardActivity"@, i + 1);
                        let pre = named_in(e@.children.take(i as int), "DebitCardActivity"@);
                        assert(named_in(e@.children.take(i + 1), "DebitCardActivity"@) == pre.push(gc));
                        assert(named_in(e@.children, "DebitCardActivity"@)[pre.len() as int] == gc);
                        assert(!debit_card_activities_wrapper_wf(e@));
                    }
                    return Err(er);
                },
            };
            items.push(t);
        }
        i += 1;
    }
    proof {
        assert(e@.children.take(n as int) =~= e@.children);
    }
    Ok(DebitCardActivitiesWrapper { items })
}


/// The `SalesTaxes` section.
#[derive(Debug, Clone)]
pub struct SalesTaxWrapper {
    /// Records of the section, in input order.
    pub items: Vec<SalesTax>,
}

/// Whether the section decodes: every `SalesTax` child decodes; children
/// with other tags are ignored.
pub open spec fn sales_tax_wrapper_wf(e: XElem) -> bool {
    forall|k: int|
        0 <= k < named_in(e.children, "SalesTax"@).len() ==> sales_tax_wf(
            #[trigger] named_in(e.children, "SalesTax"@)[k],
        )
}

/// The decoded items are exactly the section's `SalesTax` children, in
/// input order.
pub open spec fn sales_tax_wrapper_obeys(e: XElem, w: SalesTaxWrapper) -> bool {
    let cs = named_in(e.children, "SalesTax"@);
    &&& w.items@.len() == cs.len()
    &&& forall|k: int| 0 <= k < cs.len() ==> sales_tax_obeys(cs[k], #[trigger] w.items@[k])
}

/// Decodes one `SalesTaxes` section element.
pub fn decode_sales_tax_wrapper(e: &Element) -> (r: Result<SalesTaxWrapper, ParseError>)
    ensures
        sales_tax_wrapper_wf(e@) ==> r is Ok && sales_tax_wrapper_obeys(e@, r->Ok_0),
        !sales_tax_wrapper_wf(e@) ==> r is Err,
{
    proof {
        crate::xml::lemma_elems_view_index(e.children@);
    }
    let mut items: Vec<SalesTax> = Vec::new();
    let n = e.children.len();
    let mut i: usize = 0;
    while i < n
        invariant
            n == e.children.len(),
            e@.children.len() == n,
            forall|k: int|
                0 <= k < n ==> #[trigger] e@.children[k] == crate::xml::elem_view(
                    e.children@[k],
                ),
            i <= n,
            items@.len() == named_in(e@.children.take(i as int), "SalesTax"@).len(),
            forall|k: int|
                0 <= k < items@.len() ==> sales_tax_obeys(
                    named_in(e@.children.take(i as int), "SalesTax"@)[k],
                    #[trigger] items@[k],
                ),
            forall|k: int|
                0 <= k < items@.len() ==> sales_tax_wf(
                    #[trigger] named_in(e@.children.take(i as int), "SalesTax"@)[k],
                ),
        decreases n - i,
    {
        let child = &e.children[i];
        let ghost gc = e@.children[i as int];
        proof {
            assert(e@.children.take(i + 1).drop_last() =~= e@.children.take(i as int));
            assert(e@.children.take(i + 1).last() == gc);
        }
        let cn = chars_of_str(child.name.as_str());
        if chars_eq_str(&cn, "SalesTax") {
            let t = match decode_sales_tax(child) {
                Ok(t) => t,
                Err(er) => {
                    proof {
                        lemma_named_in_prefix(e@.children, "SalesTax"@, i + 1);
                        let pre = named_in(e@.children.take(i as int), "SalesTax"@);
                        assert(named_in(e@.children.take(i + 1), "SalesTax"@) == pre.push(gc));
                        assert(named_in(e@.children, "SalesTax"@)[pre.len() as int] == gc);
                        assert(!sales_tax_wrapper_wf(e@));
                    }
                    return Err(er);
                },
            };
            items.push(t);
        }
        i += 1;
    }
    proof {
        assert(e@.children.take(n as int) =~= e@.children);
    }
    Ok(SalesTaxWrapper { items })
}


/// The `SymbolSummaries` section.
#[derive(Debug, Clone)]
pub struct SymbolSummaryWrapper {
    /// Records of the section, in input order.
    pub items: Vec<SymbolSummary>,
}

/// Whether the section decodes: every `SymbolSummary` child decodes; children
/// with other tags are ignored.
pub open spec fn symbol_summary_wrapper_wf(e: XElem) -> bool {
    forall|k: int|
        0 <= k < named_in(e.children, "SymbolSummary"@).len() ==> symbol_summary_wf(
            #[trigger] named_in(e.children, "SymbolSummary"@)[k],
        )
}

/// The decoded items are exactly the section's `SymbolSummary` children, in
/// input order.
pub open spec fn symbol_summary_wrapper_obeys(e: XElem, w: SymbolSummaryWrapper) -> bool {
    let cs = named_in(e.children, "SymbolSummary"@);
    &&& w.items@.len() == cs.len()
    &&& forall|k: int| 0 <= k < cs.len() ==> symbol_summary_obeys(cs[k], #[trigger] w.items@[k])
}

/// Decodes one `SymbolSummaries` section element.
pub fn decode_symbol_summary_wrapper(e: &Element) -> (r: Result<SymbolSummaryWrapper, ParseError>)
    ensures
        symbol_summary_wrapper_wf(e@) ==> r is Ok && symbol_summary_wrapper_obeys(e@, r->Ok_0),
        !symbol_summary_wrapper_wf(e@) ==> r is Err,
{
    proof {
        crate::xml::lemma_elems_view_index(e.children@);
    }
    let mut items: Vec<SymbolSummary> = Vec::new();
    let n = e.children.len();
    let mut i: usize = 0;
    while i < n
        invariant
            n == e.children.len(),
            e@.children.len() == n,
            forall|k: int|
                0 <= k < n ==> #[trigger] e@.children[k] == crate::xml::elem_view(
                    e.children@[k],
                ),
            i <= n,
            items@.len() == named_in(e@.children.take(i as int), "SymbolSummary"@).len(),
            forall|k: int|
                0 <= k < items@.len() ==> symbol_summary_obeys(
                    named_in(e@.children.take(i as int), "SymbolSummary"@)[k],
                    #[trigger] items@[k],
                ),
            forall|k: int|
                0 <= k < items@.len() ==> symbol_summary_wf(
                    #[trigger] named_in(e@.children.take(i as int), "SymbolSummary"@)[k],
                ),
        decreases n - i,
    {
        let child = &e.children[i];
        let ghost gc = e@.children[i as int];
        proof {
            assert(e@.children.take(i + 1).drop_last() =~= e@.children.take(i as int));
            assert(e@.children.take(i + 1).last() == gc);
        }
        let cn = chars_of_str(child.name.as_str());
        if chars_eq_str(&cn, "SymbolSummary") {
            let t = match decode_symbol_summary(child) {
                Ok(t) => t,
                Err(er) => {
                    proof {
                        lemma_named_in_prefix(e@.children, "SymbolSummary"@, i + 1);
                        let pre = named_in(e@.children.take(i as int), "SymbolSummary"@);
                        assert(named_in(e@.children.take(i + 1), "SymbolSummary"@) == pre.push(gc));
                        assert(named_in(e@.children, "SymbolSummary"@)[pre.len() as int] == gc);
                        assert(!symbol_summary_wrapper_wf(e@));
                    }
                    return Err(er);
                },
            };
            items.push(t);
        }
        i += 1;
    }
    proof {
        assert(e@.children.take(n as int) =~= e@.children);
    }
    Ok(SymbolSummaryWrapper { items })
}


/// The `AssetSummaries` section.
#[derive(Debug, Clone)]
pub struct AssetSummaryWrapper {
    /// Records of the section, in input order.
    pub items: Vec<AssetSummary>,
}

/// Whether the section decodes: every `AssetSummary` child decodes; children
/// with other tags are ignored.
pub open spec fn asset_summary_wrapper_wf(e: XElem) -> bool {
    forall|k: int|
        0 <= k < named_in(e.children, "AssetSummary"@).len() ==> asset_summary_wf(
            #[trigger] named_in(e.children, "AssetSummary"@)[k],
        )
}

/// The decoded items are exactly the section's `AssetSummary` children, in
/// input order.
pub open spec fn asset_summary_wrapper_obeys(e: XElem, w: AssetSummaryWrapper) -> bool {
    let cs = named_in(e.children, "AssetSummary"@);
    &&& w.items@.len() == cs.len()
    &&& forall|k: int| 0 <= k < cs.len() ==> asset_summary_obeys(cs[k], #[trigger] w.items@[k])
}

/// Decodes one `AssetSummaries` section element.
pub fn decode_asset_summary_wrapper(e: &Element) -> (r: Result<AssetSummaryWrapper, ParseError>)
    ensures
        asset_summary_wrapper_wf(e@) ==> r is Ok && asset_summary_wrapper_obeys(e@, r->Ok_0),
        !asset_summary_wrapper_wf(e@) ==> r is Err,
{
    proof {
        crate::xml::lemma_elems_view_index(e.children@);
    }
    let mut items: Vec<AssetSummary> = Vec::new();
    let n = e.children.len();
    let mut i: usize = 0;
    while i < n
        invariant
            n == e.children.len(),
            e@.children.len() == n,
            forall|k: int|
                0 <= k < n ==> #[trigger] e@.children[k] == crate::xml::elem_view(
                    e.children@[k],
                ),
            i <= n,
            items@.len() == named_in(e@.children.take(i as int), "AssetSummary"@).len(),
            forall|k: int|
                0 <= k < items@.len() ==> asset_summary_obeys(
                    named_in(e@.children.take(i as int), "AssetSummary"@)[k],
                    #[trigger] items@[k],
                ),
            forall|k: int|
                0 <= k < items@.len() ==> asset_summary_wf(
                    #[trigger] named_in(e@.children.take(i as int), "AssetSummary"@)[k],
                ),
        decreases n - i,
    {
        let child = &e.children[i];
        let ghost gc = e@.children[i as int];
        proof {
            assert(e@.children.take(i + 1).drop_last() =~= e@.children.take(i as int));
            assert(e@.children.take(i + 1).last() == gc);
        }
        let cn = chars_of_str(child.name.as_str());
        if chars_eq_str(&cn, "AssetSummary") {
            let t = match decode_asset_summary(child) {
                Ok(t) => t,
                Err(er) => {
                    proof {
                        lemma_named_in_prefix(e@.children, "AssetSummary"@, i + 1);
                        let pre = named_in(e@.children.take(i as int), "AssetSummary"@);
                        assert(named_in(e@.children.take(i + 1), "AssetSummary"@) == pre.push(gc));
                        assert(named_in(e@.children, "AssetSummary"@)[pre.len() as int] == gc);
                        assert(!asset_summary_wrapper_wf(e@));
                    }
                    return Err(er);
                },
            };
            items.push(t);
        }
        i += 1;
    }
    proof {
        assert(e@.children.take(n as int) =~= e@.children);
    }
    Ok(AssetSummaryWrapper { items })
}


/// The `Orders` section.
#[derive(Debug, Clone)]
pub struct OrdersWrapper {
    /// Records of the section, in input order.
    pub items: Vec<Order>,
}

/// Whether the section decodes: every `Order` child decodes; children
/// with other tags are ignored.
pub open spec fn orders_wrapper_wf(e: XElem) -> bool {
    forall|k: int|
        0 <= k < named_in(e.children, "Order"@).len() ==> order_wf(
            #[trigger] named_in(e.children, "Order"@)[k],
        )
}

/// The decoded items are exactly the section's `Order` children, in
/// input order.
pub open spec fn orders_wrapper_obeys(e: XElem, w: OrdersWrapper) -> bool {
    let cs = named_in(e.children, "Order"@);
    &&& w.items@.len() == cs.len()
    &&& forall|k: int| 0 <= k < cs.len() ==> order_obeys(cs[k], #[trigger] w.items@[k])
}

/// Decodes one `Orders` section element.
pub fn decode_orders_wrapper(e: &Element) -> (r: Result<OrdersWrapper, ParseError>)
    ensures
        orders_wrapper_wf(e@) ==> r is Ok && orders_wrapper_obeys(e@, r->Ok_0),
        !orders_wrapper_wf(e@) ==> r is Err,
{
    proof {
        crate::xml::lemma_elems_view_index(e.children@);
    }
    let mut items: Vec<Order> = Vec::new();
    let n = e.children.len();
    let mut i: usize = 0;
    while i < n
        invariant
            n == e.children.len(),
            e@.children.len() == n,
            forall|k: int|
                0 <= k < n ==> #[trigger] e@.children[k] == crate::xml::elem_view(
                    e.children@[k],
                ),
            i <= n,
            items@.len() == named_in(e@.children.take(i as int), "Order"@).len(),
            forall|k: int|
                0 <= k < items@.len() ==> order_obeys(
                    named_in(e@.children.take(i as int), "Order"@)[k],
                    #[trigger] items@[k],
                ),
            forall|k: int|
                0 <= k < items@.len() ==> order_wf(
                    #[trigger] named_in(e@.children.take(i as int), "Order"@)[k],
                ),
        decreases n - i,
    {
        let child = &e.children[i];
        let ghost gc = e@.children[i as int];
        proof {
            assert(e@.children.take(i + 1).drop_last() =~= e@.children.take(i as int));
            assert(e@.children.take(i + 1).last() == gc);
        }
        let cn = chars_of_str(child.name.as_str());
        if chars_eq_str(&cn, "Order") {
            let t = match decode_order(child) {
                Ok(t) => t,
                Err(er) => {
                    proof {
                        lemma_named_in_prefix(e@.children, "Order"@, i + 1);
                        let pre = named_in(e@.children.take(i as int), "Order"@);
                        assert(named_in(e@.children.take(i + 1), "Order"@) == pre.push(gc));
                        assert(named_in(e@.children, "Order"@)[pre.len() as int] == gc);
                        assert(!orders_wrapper_wf(e@));
                    }
                    return Err(er);
                },
            };
            items.push(t);
        }
        i += 1;
    }
    proof {
        assert(e@.children.take(n as int) =~= e@.children);
    }
    Ok(OrdersWrapper { items })
}


/// Whether the statement's `OpenPositions` section decodes; an absent section
/// is treated identically to a present-but-empty one.
pub open spec fn positions_field_ok(e: XElem) -> bool {
    match child_named(e.children, "OpenPositions"@) {
        None => true,
        Some(c) => positions_wrapper_wf(c),
    }
}

/// How the statement's `positions` field relates to the element.
pub open spec fn positions_field_obeys(e: XElem, w: PositionsWrapper) -> bool {
    match child_named(e.children, "OpenPositions"@) {
        None => w.items@.len() == 0,
        Some(c) => positions_wrapper_obeys(c, w),
    }
}

/// Decodes the statement's `OpenPositions` section, absent meaning empty.
fn positions_field(e: &Element) -> (r: Result<PositionsWrapper, ParseError>)
    ensures
        positions_field_ok(e@) ==> r is Ok && positions_field_obeys(e@, r->Ok_0),
        !positions_field_ok(e@) ==> r is Err,
{
    match find_child(e, "OpenPositions") {
        None => Ok(PositionsWrapper { items: Vec::new() }),
        Some(idx) => decode_positions_wrapper(&e.children[idx]),
    }
}


/// Whether the statement's `CashTransactions` section decodes; an absent section
/// is treated identically to a present-but-empty one.
pub open spec fn cash_transactions_field_ok(e: XElem) -> bool {
    match child_named(e.children, "CashTransactions"@) {
        None => true,
        Some(c) => cash_transactions_wrapper_wf(c),
    }
}

/// How the statement's `cash_transactions` field relates to the element.
pub open spec fn cash_transactions_field_obeys(e: XElem, w: CashTransactionsWrapper) -> bool {
    match child_named(e.children, "CashTransactions"@) {
        None => w.items@.len() == 0,
        Some(c) => cash_transactions_wrapper_obeys(c, w),
    }
}

/// Decodes the statement's `CashTransactions` section, absent meaning empty.
fn cash_transactions_field(e: &Element) -> (r: Result<CashTransactionsWrapper, ParseError>)
    ensures
        cash_transactions_field_ok(e@) ==> r is Ok && cash_transactions_field_obeys(e@, r->Ok_0),
        !cash_transactions_field_ok(e@) ==> r is Err,
{
    match find_child(e, "CashTransactions") {
        None => Ok(CashTransactionsWrapper { items: Vec::new() }),
        Some(idx) => decode_cash_transactions_wrapper(&e.children[idx]),
    }
}


/// Whether the statement's `CorporateActions` section decodes; an absent section
/// is treated identically to a present-but-empty one.
pub open spec fn corporate_actions_field_ok(e: XElem) -> bool {
    match child_named(e.children, "CorporateActions"@) {
        None => true,
        Some(c) => corporate_actions_wrapper_wf(c),
    }
}

/// How the statement's `corporate_actions` field relates to the element.
pub open spec fn corporate_actions_field_obeys(e: XElem, w: CorporateActionsWrapper) -> bool {
    match child_named(e.children, "CorporateActions"@) {
        None => w.items@.len() == 0,
        Some(c) => corporate_actions_wrapper_obeys(c, w),
    }
}

/// Decodes the statement's `CorporateActions` section, absent meaning empty.
fn corporate_actions_field(e: &Element) -> (r: Result<CorporateActionsWrapper, ParseError>)
    ensures
        corporate_actions_field_ok(e@) ==> r is Ok && corporate_actions_field_obeys(e@, r->Ok_0),
        !corporate_actions_field_ok(e@) ==> r is Err,
{
    match find_child(e, "CorporateActions") {
        None => Ok(CorporateActionsWrapper { items: Vec::new() }),
        Some(idx) => decode_corporate_actions_wrapper(&e.children[idx]),
    }
}


/// Whether the statement's `SecuritiesInfo` section decodes; an absent section
/// is treated identically to a present-but-empty one.
pub open spec fn securities_info_field_ok(e: XElem) -> bool {
    match child_named(e.children, "SecuritiesInfo"@) {
        None => true,
        Some(c) => securities_info_wrapper_wf(c),
    }
}

/// How the statement's `securities_info` field relates to the element.
pub open spec fn securities_info_field_obeys(e: XElem, w: SecuritiesInfoWrapper) -> bool {
    match child_named(e.children, "SecuritiesInfo"@) {
        None => w.items@.len() == 0,
        Some(c) => securities_info_wrapper_obeys(c, w),
    }
}

/// Decodes the statement's `SecuritiesInfo` section, absent meaning empty.
fn securities_info_field(e: &Element) -> (r: Result<SecuritiesInfoWrapper, ParseError>)
    ensures
        securities_info_field_ok(e@) ==> r is Ok && securities_info_field_obeys(e@, r->Ok_0),
        !securities_info_field_ok(e@) ==> r is Err,
{
    match find_child(e, "SecuritiesInfo") {
        None => Ok(SecuritiesInfoWrapper { items: Vec::new() }),
        Some(idx) => decode_securities_info_wrapper(&e.children[idx]),
    }
}


/// Whether the statement's `ConversionRates` section decodes; an absent section
/// is treated identically to a present-but-empty one.
pub open spec fn conversion_rates_field_ok(e: XElem) -> bool {
    match child_named(e.children, "ConversionRates"@) {
        None => true,
        Some(c) => conversion_rates_wrapper_wf(c),
    }
}

/// How the statement's `conversion_rates` field relates to the element.
pub open spec fn conversion_rates_field_obeys(e: XElem, w: ConversionRatesWrapper) -> bool {
    match child_named(e.children, "ConversionRates"@) {
        None => w.items@.len() == 0,
        Some(c) => conversion_rates_wrapper_obeys(c, w),
    }
}

/// Decodes the statement's `ConversionRates` section, absent meaning empty.
fn conversion_rates_field(e: &Element) -> (r: Result<ConversionRatesWrapper, ParseError>)
    ensures
        conversion_rates_field_ok(e@) ==> r is Ok && conversion_rates_field_obeys(e@, r->Ok_0),
        !conversion_rates_field_ok(e@) ==> r is Err,
{
    match find_child(e, "ConversionRates") {
        None => Ok(ConversionRatesWrapper { items: Vec::new() }),
        Some(idx) => decode_conversion_rates_wrapper(&e.children[idx]),
    }
}


/// Whether the statement's `EquitySummaryInBase` section decodes; an absent section
/// is treated identically to a present-but-empty one.
pub open spec fn equity_summary_field_ok(e: XElem) -> bool {
    match child_named(e.children, "EquitySummaryInBase"@) {
        None => true,
        Some(c) => equity_summary_wrapper_wf(c),
    }
}

/// How the statement's `equity_summary` field relates to the element.
pub open spec fn equity_summary_field_obeys(e: XElem, w: EquitySummaryWrapper) -> bool {
    match child_named(e.children, "EquitySummaryInBase"@) {
        None => w.items@.len() == 0,
        Some(c) => equity_summary_wrapper_obeys(c, w),
    }
}

/// Decodes the statement's `EquitySummaryInBase` section, absent meaning empty.
fn equity_summary_field(e: &Element) -> (r: Result<EquitySummaryWrapper, ParseError>)
    ensures
        equity_summary_field_ok(e@) ==> r is Ok && equity_summary_field_obeys(e@, r->Ok_0),
        !equity_summary_field_ok(e@) ==> r is Err,
{
    match find_child(e, "EquitySummaryInBase") {
        None => Ok(EquitySummaryWrapper { items: Vec::new() }),
        Some(idx) => decode_equity_summary_wrapper(&e.children[idx]),
    }
}


/// Whether the statement's `CashReport` section decodes; an absent section
/// is treated identically to a present-but-empty one.
pub open spec fn cash_report_field_ok(e: XElem) -> bool {
    match child_named(e.children, "CashReport"@) {
        None => true,
        Some(c) => cash_report_wrapper_wf(c),
    }
}

/// How the statement's `cash_report` field relates to the element.
pub open spec fn cash_report_field_obeys(e: XElem, w: CashReportWrapper) -> bool {
    match child_named(e.children, "CashReport"@) {
        None => w.items@.len() == 0,
        Some(c) => cash_report_wrapper_obeys(c, w),
    }
}

/// Decodes the statement's `CashReport` section, absent meaning empty.
fn cash_report_field(e: &Element) -> (r: Result<CashReportWrapper, ParseError>)
    ensures
        cash_report_field_ok(e@) ==> r is Ok && cash_report_field_obeys(e@, r->Ok_0),
        !cash_report_field_ok(e@) ==> r is Err,
{
    match find_child(e, "CashReport") {
        None => Ok(CashReportWrapper { items: Vec::new() }),
        Some(idx) => decode_cash_report_wrapper(&e.children[idx]),
    }
}


/// Whether the statement's `TradeConfirms` section decodes; an absent section
/// is treated identically to a present-but-empty one.
pub open spec fn trade_confirms_field_ok(e: XElem) -> bool {
    match child_named(e.children, "TradeConfirms"@) {
        None => true,
        Some(c) => trade_confirms_wrapper_wf(c),
    }
}

/// How the statement's `trade_confirms` field relates to the element.
pub open spec fn trade_confirms_field_obeys(e: XElem, w: TradeConfirmsWrapper) -> bool {
    match child_named(e.children, "TradeConfirms"@) {
        None => w.items@.len() == 0,
        Some(c) => trade_confirms_wrapper_obeys(c, w),
    }
}

/// Decodes the statement's `TradeConfirms` section, absent meaning empty.
fn trade_confirms_field(e: &Element) -> (r: Result<TradeConfirmsWrapper, ParseError>)
    ensures
        trade_confirms_field_ok(e@) ==> r is Ok && trade_confirms_field_obeys(e@, r->Ok_0),
        !trade_confirms_field_ok(e@) ==> r is Err,
{
    match find_child(e, "TradeConfirms") {
        None => Ok(TradeConfirmsWrapper { items: Vec::new() }),
        Some(idx) => decode_trade_confirms_wrapper(&e.children[idx]),
    }
}


/// Whether the statement's `OptionEAE` section decodes; an absent section
/// is treated identically to a present-but-empty one.
pub open spec fn option_eae_field_ok(e: XElem) -> bool {
    match child_named(e.children, "OptionEAE"@) {
        None => true,
        Some(c) => option_eaewrapper_wf(c),
    }
}

/// How the statement's `option_eae` field relates to the element.
pub open spec fn option_eae_field_obeys(e: XElem, w: OptionEAEWrapper) -> bool {
    match child_named(e.children, "OptionEAE"@) {
        None => w.items@.len() == 0,
        Some(c) => option_eaewrapper_obeys(c, w),
    }
}

/// Decodes the statement's `OptionEAE` section, absent meaning empty.
fn option_eae_field(e: &Element) -> (r: Result<OptionEAEWrapper, ParseError>)
    ensures
        option_eae_field_ok(e@) ==> r is Ok && option_eae_field_obeys(e@, r->Ok_0),
        !option_eae_field_ok(e@) ==> r is Err,
{
    match find_child(e, "OptionEAE") {
        None => Ok(OptionEAEWrapper { items: Vec::new() }),
        Some(idx) => decode_option_eaewrapper(&e.children[idx]),
    }
}


/// Whether the statement's `FxTransactions` section decodes; an absent section
/// is treated identically to a present-but-empty one.
pub open spec fn fx_transactions_field_ok(e: XElem) -> bool {
    match child_named(e.children, "FxTransactions"@) {
        None => true,
        Some(c) => fx_transactions_wrapper_wf(c),
    }
}

/// How the statement's `fx_transactions` field relates to the element.
pub open spec fn fx_transactions_field_obeys(e: XElem, w: FxTransactionsWrapper) -> bool {
    match child_named(e.children, "FxTransactions"@) {
        None => w.items@.len() == 0,
        Some(c) => fx_transactions_wrapper_obeys(c, w),
    }
}

/// Decodes the statement's `FxTransactions` section, absent meaning empty.
fn fx_transactions_field(e: &Element) -> (r: Result<FxTransactionsWrapper, ParseError>)
    ensures
        fx_transactions_field_ok(e@) ==> r is Ok && fx_transactions_field_obeys(e@, r->Ok_0),
        !fx_transactions_field_ok(e@) ==> r is Err,
{
    match find_child(e, "FxTransactions") {
        None => Ok(FxTransactionsWrapper { items: Vec::new() }),
        Some(idx) => decode_fx_transactions_wrapper(&e.children[idx]),
    }
}


/// Whether the statement's `ChangeInDividendAccruals` section decodes; an absent section
/// is treated identically to a present-but-empty one.
pub open spec fn change_in_dividend_accruals_field_ok(e: XElem) -> bool {
    match child_named(e.children, "ChangeInDividendAccruals"@) {
        None => true,
        Some(c) => change_in_dividend_accruals_wrapper_wf(c),
    }
}

/// How the statement's `change_in_dividend_accruals` field relates to the element.
pub open spec fn change_in_dividend_accruals_field_obeys(e: XElem, w: ChangeInDividendAccrualsWrapper) -> bool {
    match child_named(e.children, "ChangeInDividendAccruals"@) {
        None => w.items@.len() == 0,
        Some(c) => change_in_dividend_accruals_wrapper_obeys(c, w),
    }
}

/// Decodes the statement's `ChangeInDividendAccruals` section, absent meaning empty.
fn change_in_dividend_accruals_field(e: &Element) -> (r: Result<ChangeInDividendAccrualsWrapper, ParseError>)
    ensures
        change_in_dividend_accruals_field_ok(e@) ==> r is Ok && change_in_dividend_accruals_field_obeys(e@, r->Ok_0),
        !change_in_dividend_accruals_field_ok(e@) ==> r is Err,
{
    match find_child(e, "ChangeInDividendAccruals") {
        None => Ok(ChangeInDividendAccrualsWrapper { items: Vec::new() }),
        Some(idx) => decode_change_in_dividend_accruals_wrapper(&e.children[idx]),
    }
}


/// Whether the statement's `OpenDividendAccruals` section decodes; an absent section
/// is treated identically to a present-but-empty one.
pub open spec fn open_dividend_accruals_field_ok(e: XElem) -> bool {
    match child_named(e.children, "OpenDividendAccruals"@) {
        None => true,
        Some(c) => open_dividend_accruals_wrapper_wf(c),
    }
}

/// How the statement's `open_dividend_accruals` field relates to the element.
pub open spec fn open_dividend_accruals_field_obeys(e: XElem, w: OpenDividendAccrualsWrapper) -> bool {
    match child_named(e.children, "OpenDividendAccruals"@) {
        None => w.items@.len() == 0,
        Some(c) => open_dividend_accruals_wrapper_obeys(c, w),
    }
}

/// Decodes the statement's `OpenDividendAccruals` section, absent meaning empty.
fn open_dividend_accruals_field(e: &Element) -> (r: Result<OpenDividendAccrualsWrapper, ParseError>)
    ensures
        open_dividend_accruals_field_ok(e@) ==> r is Ok && open_dividend_accruals_field_obeys(e@, r->Ok_0),
        !open_dividend_accruals_field_ok(e@) ==> r is Err,
{
    match find_child(e, "OpenDividendAccruals") {
        None => Ok(OpenDividendAccrualsWrapper { items: Vec::new() }),
        Some(idx) => decode_open_dividend_accruals_wrapper(&e.children[idx]),
    }
}


/// Whether the statement's `InterestAccruals` section decodes; an absent section
/// is treated identically to a present-but-empty one.
pub open spec fn interest_accruals_field_ok(e: XElem) -> bool {
    match child_named(e.children, "InterestAccruals"@) {
        None => true,
        Some(c) => interest_accruals_wrapper_wf(c),
    }
}

/// How the statement's `interest_accruals` field relates to the element.
pub open spec fn interest_accruals_field_obeys(e: XElem, w: InterestAccrualsWrapper) -> bool {
    match child_named(e.children, "InterestAccruals"@) {
        None => w.items@.len() == 0,
        Some(c) => interest_accruals_wrapper_obeys(c, w),
    }
}

/// Decodes the statement's `InterestAccruals` section, absent meaning empty.
fn interest_accruals_field(e: &Element) -> (r: Result<InterestAccrualsWrapper, ParseError>)
    ensures
        interest_accruals_field_ok(e@) ==> r is Ok && interest_accruals_field_obeys(e@, r->Ok_0),
        !interest_accruals_field_ok(e@) ==> r is Err,
{
    match find_child(e, "InterestAccruals") {
        None => Ok(InterestAccrualsWrapper { items: Vec::new() }),
        Some(idx) => decode_interest_accruals_wrapper(&e.children[idx]),
    }
}


/// Whether the statement's `Transfers` section decodes; an absent section
/// is treated identically to a present-but-empty one.
pub open spec fn transfers_field_ok(e: XElem) -> bool {
    match child_named(e.children, "Transfers"@) {
        None => true,
        Some(c) => transfers_wrapper_wf(c),
    }
}

/// How the statement's `transfers` field relates to the element.
pub open spec fn transfers_field_obeys(e: XElem, w: TransfersWrapper) -> bool {
    match child_named(e.children, "Transfers"@) {
        None => w.items@.len() == 0,
        Some(c) => transfers_wrapper_obeys(c, w),
    }
}

/// Decodes the statement's `Transfers` section, absent meaning empty.
fn transfers_field(e: &Element) -> (r: Result<TransfersWrapper, ParseError>)
    ensures
        transfers_field_ok(e@) ==> r is Ok && transfers_field_obeys(e@, r->Ok_0),
        !transfers_field_ok(e@) ==> r is Err,
{
    match find_child(e, "Transfers") {
        None => Ok(TransfersWrapper { items: Vec::new() }),
        Some(idx) => decode_transfers_wrapper(&e.children[idx]),
    }
}


/// Whether the statement's `MTMPerformanceSummaryInBase` section decodes; an absent section
/// is treated identically to a present-but-empty one.
pub open spec fn mtm_performance_summary_field_ok(e: XElem) -> bool {
    match child_named(e.children, "MTMPerformanceSummaryInBase"@) {
        None => true,
        Some(c) => mtmperformance_summary_wrapper_wf(c),
    }
}

/// How the statement's `mtm_performance_summary` field relates to the element.
pub open spec fn mtm_performance_summary_field_obeys(e: XElem, w: MTMPerformanceSummaryWrapper) -> bool {
    match child_named(e.children, "MTMPerformanceSummaryInBase"@) {
        None => w.items@.len() == 0,
        Some(c) => mtmperformance_summary_wrapper_obeys(c, w),
    }
}

/// Decodes the statement's `MTMPerformanceSummaryInBase` section, absent meaning empty.
fn mtm_performance_summary_field(e: &Element) -> (r: Result<MTMPerformanceSummaryWrapper, ParseError>)
    ensures
        mtm_performance_summary_field_ok(e@) ==> r is Ok && mtm_performance_summary_field_obeys(e@, r->Ok_0),
        !mtm_performance_summary_field_ok(e@) ==> r is Err,
{
    match find_child(e, "MTMPerformanceSummaryInBase") {
        None => Ok(MTMPerformanceSummaryWrapper { items: Vec::new() }),
        Some(idx) => decode_mtmperformance_summary_wrapper(&e.children[idx]),
    }
}


/// Whether the statement's `FIFOPerformanceSummaryInBase` section decodes; an absent section
/// is treated identically to a present-but-empty one.
pub open spec fn fifo_performance_summary_field_ok(e: XElem) -> bool {
    match child_named(e.children, "FIFOPerformanceSummaryInBase"@) {
        None => true,
        Some(c) => fifoperformance_summary_wrapper_wf(c),
    }
}

/// How the statement's `fifo_performance_summary` field relates to the element.
pub open spec fn fifo_performance_summary_field_obeys(e: XElem, w: FIFOPerformanceSummaryWrapper) -> bool {
    match child_named(e.children, "FIFOPerformanceSummaryInBase"@) {
        None => w.items@.len() == 0,
        Some(c) => fifoperformance_summary_wrapper_obeys(c, w),
    }
}

/// Decodes the statement's `FIFOPerformanceSummaryInBase` section, absent meaning empty.
fn fifo_performance_summary_field(e: &Element) -> (r: Result<FIFOPerformanceSummaryWrapper, ParseError>)
    ensures
        fifo_performance_summary_field_ok(e@) ==> r is Ok && fifo_performance_summary_field_obeys(e@, r->Ok_0),
        !fifo_performance_summary_field_ok(e@) ==> r is Err,
{
    match find_child(e, "FIFOPerformanceSummaryInBase") {
        None => Ok(FIFOPerformanceSummaryWrapper { items: Vec::new() }),
        Some(idx) => decode_fifoperformance_summary_wrapper(&e.children[idx]),
    }
}


/// Whether the statement's `MTDYTDPerformanceSummary` section decodes; an absent section
/// is treated identically to a present-but-empty one.
pub open spec fn mtd_ytd_performance_summary_field_ok(e: XElem) -> bool {
    match child_named(e.children, "MTDYTDPerformanceSummary"@) {
        None => true,
        Some(c) => mtdytdperformance_summary_wrapper_wf(c),
    }
}

/// How the statement's `mtd_ytd_performance_summary` field relates to the element.
pub open spec fn mtd_ytd_performance_summary_field_obeys(e: XElem, w: MTDYTDPerformanceSummaryWrapper) -> bool {
    match child_named(e.children, "MTDYTDPerformanceSummary"@) {
        None => w.items@.len() == 0,
        Some(c) => mtdytdperformance_summary_wrapper_obeys(c, w),
    }
}

/// Decodes the statement's `MTDYTDPerformanceSummary` section, absent meaning empty.
fn mtd_ytd_performance_summary_field(e: &Element) -> (r: Result<MTDYTDPerformanceSummaryWrapper, ParseError>)
    ensures
        mtd_ytd_performance_summary_field_ok(e@) ==> r is Ok && mtd_ytd_performance_summary_field_obeys(e@, r->Ok_0),
        !mtd_ytd_performance_summary_field_ok(e@) ==> r is Err,
{
    match find_child(e, "MTDYTDPerformanceSummary") {
        None => Ok(MTDYTDPerformanceSummaryWrapper { items: Vec::new() }),
        Some(idx) => decode_mtdytdperformance_summary_wrapper(&e.children[idx]),
    }
}


/// Whether the statement's `StmtFunds` section decodes; an absent section
/// is treated identically to a present-but-empty one.
pub open spec fn statement_of_funds_field_ok(e: XElem) -> bool {
    match child_named(e.children, "StmtFunds"@) {
        None => true,
        Some(c) => statement_of_funds_wrapper_wf(c),
    }
}

/// How the statement's `statement_of_funds` field relates to the element.
pub open spec fn statement_of_funds_field_obeys(e: XElem, w: StatementOfFundsWrapper) -> bool {
    match child_named(e.children, "StmtFunds"@) {
        None => w.items@.len() == 0,
        Some(c) => statement_of_funds_wrapper_obeys(c, w),
    }
}

/// Decodes the statement's `StmtFunds` section, absent meaning empty.
fn statement_of_funds_field(e: &Element) -> (r: Result<StatementOfFundsWrapper, ParseError>)
    ensures
        statement_of_funds_field_ok(e@) ==> r is Ok && statement_of_funds_field_obeys(e@, r->Ok_0),
        !statement_of_funds_field_ok(e@) ==> r is Err,
{
    match find_child(e, "StmtFunds") {
        None => Ok(StatementOfFundsWrapper { items: Vec::new() }),
        Some(idx) => decode_statement_of_funds_wrapper(&e.children[idx]),
    }
}


/// Whether the statement's `ChangeInPositionValues` section decodes; an absent section
/// is treated identically to a present-but-empty one.
pub open spec fn change_in_position_values_field_ok(e: XElem) -> bool {
    match child_named(e.children, "ChangeInPositionValues"@) {
        None => true,
        Some(c) => change_in_position_value_wrapper_wf(c),
    }
}

/// How the statement's `change_in_position_values` field relates to the element.
pub open spec fn change_in_position_values_field_obeys(e: XElem, w: ChangeInPositionValueWrapper) -> bool {
    match child_named(e.children, "ChangeInPositionValues"@) {
        None => w.items@.len() == 0,
        Some(c) => change_in_position_value_wrapper_obeys(c, w),
    }
}

/// Decodes the statement's `ChangeInPositionValues` section, absent meaning empty.
fn change_in_position_values_field(e: &Element) -> (r: Result<ChangeInPositionValueWrapper, ParseError>)
    ensures
        change_in_position_values_field_ok(e@) ==> r is Ok && change_in_position_values_field_obeys(e@, r->Ok_0),
        !change_in_position_values_field_ok(e@) ==> r is Err,
{
    match find_child(e, "ChangeInPositionValues") {
        None => Ok(ChangeInPositionValueWrapper { items: Vec::new() }),
        Some(idx) => decode_change_in_position_value_wrapper(&e.children[idx]),
    }
}


/// Whether the statement's `UnbundledCommissionDetails` section decodes; an absent section
/// is treated identically to a present-but-empty one.
pub open spec fn unbundled_commission_details_field_ok(e: XElem) -> bool {
    match child_named(e.children, "UnbundledCommissionDetails"@) {
        None => true,
        Some(c) => unbundled_commission_detail_wrapper_wf(c),
    }
}

/// How the statement's `unbundled_commission_details` field relates to the element.
pub open spec fn unbundled_commission_details_field_obeys(e: XElem, w: UnbundledCommissionDetailWrapper) -> bool {
    match child_named(e.children, "UnbundledCommissionDetails"@) {
        None => w.items@.len() == 0,
        Some(c) => unbundled_commission_detail_wrapper_obeys(c, w),
    }
}

/// Decodes the statement's `UnbundledCommissionDetails` section, absent meaning empty.
fn unbundled_commission_details_field(e: &Element) -> (r: Result<UnbundledCommissionDetailWrapper, ParseError>)
    ensures
        unbundled_commission_details_field_ok(e@) ==> r is Ok && unbundled_commission_details_field_obeys(e@, r->Ok_0),
        !unbundled_commission_details_field_ok(e@) ==> r is Err,
{
    match find_child(e, "UnbundledCommissionDetails") {
        None => Ok(UnbundledCommissionDetailWrapper { items: Vec::new() }),
        Some(idx) => decode_unbundled_commission_detail_wrapper(&e.children[idx]),
    }
}


/// Whether the statement's `ClientFees` section decodes; an absent section
/// is treated identically to a present-but-empty one.
pub open spec fn client_fees_field_ok(e: XElem) -> bool {
    match child_named(e.children, "ClientFees"@) {
        None => true,
        Some(c) => client_fees_wrapper_wf(c),
    }
}

/// How the statement's `client_fees` field relates to the element.
pub open spec fn client_fees_field_obeys(e: XElem, w: ClientFeesWrapper) -> bool {
    match child_named(e.children, "ClientFees"@) {
        None => w.items@.len() == 0,
        Some(c) => client_fees_wrapper_obeys(c, w),
    }
}

/// Decodes the statement's `ClientFees` section, absent meaning empty.
fn client_fees_field(e: &Element) -> (r: Result<ClientFeesWrapper, ParseError>)
    ensures
        client_fees_field_ok(e@) ==> r is Ok && client_fees_field_obeys(e@, r->Ok_0),
        !client_fees_field_ok(e@) ==> r is Err,
{
    match find_child(e, "ClientFees") {
        None => Ok(ClientFeesWrapper { items: Vec::new() }),
        Some(idx) => decode_client_fees_wrapper(&e.children[idx]),
    }
}


/// Whether the statement's `ClientFeesDetails` section decodes; an absent section
/// is treated identically to a present-but-empty one.
pub open spec fn client_fees_detail_field_ok(e: XElem) -> bool {
    match child_named(e.children, "ClientFeesDetails"@) {
        None => true,
        Some(c) => client_fees_detail_wrapper_wf(c),
    }
}

/// How the statement's `client_fees_detail` field relates to the element.
pub open spec fn client_fees_detail_field_obeys(e: XElem, w: ClientFeesDetailWrapper) -> bool {
    match child_named(e.children, "ClientFeesDetails"@) {
        None => w.items@.len() == 0,
        Some(c) => client_fees_detail_wrapper_obeys(c, w),
    }
}

/// Decodes the statement's `ClientFeesDetails` section, absent meaning empty.
fn client_fees_detail_field(e: &Element) -> (r: Result<ClientFeesDetailWrapper, ParseError>)
    ensures
        client_fees_detail_field_ok(e@) ==> r is Ok && client_fees_detail_field_obeys(e@, r->Ok_0),
        !client_fees_detail_field_ok(e@) ==> r is Err,
{
    match find_child(e, "ClientFeesDetails") {
        None => Ok(ClientFeesDetailWrapper { items: Vec::new() }),
        Some(idx) => decode_client_fees_detail_wrapper(&e.children[idx]),
    }
}


/// Whether the statement's `SLBActivities` section decodes; an absent section
/// is treated identically to a present-but-empty one.
pub open spec fn slb_activities_field_ok(e: XElem) -> bool {
    match child_named(e.children, "SLBActivities"@) {
        None => true,
        Some(c) => slbactivities_wrapper_wf(c),
    }
}

/// How the statement's `slb_activities` field relates to the element.
pub open spec fn slb_activities_field_obeys(e: XElem, w: SLBActivitiesWrapper) -> bool {
    match child_named(e.children, "SLBActivities"@) {
        None => w.items@.len() == 0,
        Some(c) => slbactivities_wrapper_obeys(c, w),
    }
}

/// Decodes the statement's `SLBActivities` section, absent meaning empty.
fn slb_activities_field(e: &Element) -> (r: Result<SLBActivitiesWrapper, ParseError>)
    ensures
        slb_activities_field_ok(e@) ==> r is Ok && slb_activities_field_obeys(e@, r->Ok_0),
        !slb_activities_field_ok(e@) ==> r is Err,
{
    match find_child(e, "SLBActivities") {
        None => Ok(SLBActivitiesWrapper { items: Vec::new() }),
        Some(idx) => decode_slbactivities_wrapper(&e.children[idx]),
    }
}


/// Whether the statement's `SLBFees` section decodes; an absent section
/// is treated identically to a present-but-empty one.
pub open spec fn slb_fees_field_ok(e: XElem) -> bool {
    match child_named(e.children, "SLBFees"@) {
        None => true,
        Some(c) => slbfees_wrapper_wf(c),
    }
}

/// How the statement's `slb_fees` field relates to the element.
pub open spec fn slb_fees_field_obeys(e: XElem, w: SLBFeesWrapper) -> bool {
    match child_named(e.children, "SLBFees"@) {
        None => w.items@.len() == 0,
        Some(c) => slbfees_wrapper_obeys(c, w),
    }
}

/// Decodes the statement's `SLBFees` section, absent meaning empty.
fn slb_fees_field(e: &Element) -> (r: Result<SLBFeesWrapper, ParseError>)
    ensures
        slb_fees_field_ok(e@) ==> r is Ok && slb_fees_field_obeys(e@, r->Ok_0),
        !slb_fees_field_ok(e@) ==> r is Err,
{
    match find_child(e, "SLBFees") {
        None => Ok(SLBFeesWrapper { items: Vec::new() }),
        Some(idx) => decode_slbfees_wrapper(&e.children[idx]),
    }
}


/// Whether the statement's `HardToBorrowDetails` section decodes; an absent section
/// is treated identically to a present-but-empty one.
pub open spec fn hard_to_borrow_details_field_ok(e: XElem) -> bool {
    match child_named(e.children, "HardToBorrowDetails"@) {
        None => true,
        Some(c) => hard_to_borrow_details_wrapper_wf(c),
    }
}

/// How the statement's `hard_to_borrow_details` field relates to the element.
pub open spec fn hard_to_borrow_details_field_obeys(e: XElem, w: HardToBorrowDetailsWrapper) -> bool {
    match child_named(e.children, "HardToBorrowDetails"@) {
        None => w.items@.len() == 0,
        Some(c) => hard_to_borrow_details_wrapper_obeys(c, w),
    }
}

/// Decodes the statement's `HardToBorrowDetails` section, absent meaning empty.
fn hard_to_borrow_details_field(e: &Element) -> (r: Result<HardToBorrowDetailsWrapper, ParseError>)
    ensures
        hard_to_borrow_details_field_ok(e@) ==> r is Ok && hard_to_borrow_details_field_obeys(e@, r->Ok_0),
        !hard_to_borrow_details_field_ok(e@) ==> r is Err,
{
    match find_child(e, "HardToBorrowDetails") {
        None => Ok(HardToBorrowDetailsWrapper { items: Vec::new() }),
        Some(idx) => decode_hard_to_borrow_details_wrapper(&e.children[idx]),
    }
}


/// Whether the statement's `FxLots` section decodes; an absent section
/// is treated identically to a present-but-empty one.
pub open spec fn fx_lots_field_ok(e: XElem) -> bool {
    match child_named(e.children, "FxLots"@) {
        None => true,
        Some(c) => fx_lots_wrapper_wf(c),
    }
}

/// How the statement's `fx_lots` field relates to the element.
pub open spec fn fx_lots_field_obeys(e: XElem, w: FxLotsWrapper) -> bool {
    match child_named(e.children, "FxLots"@) {
        None => w.items@.len() == 0,
        Some(c) => fx_lots_wrapper_obeys(c, w),
    }
}

/// Decodes the statement's `FxLots` section, absent meaning empty.
fn fx_lots_field(e: &Element) -> (r: Result<FxLotsWrapper, ParseError>)
    ensures
        fx_lots_field_ok(e@) ==> r is Ok && fx_lots_field_obeys(e@, r->Ok_0),
        !fx_lots_field_ok(e@) ==> r is Err,
{
    match find_child(e, "FxLots") {
        None => Ok(FxLotsWrapper { items: Vec::new() }),
        Some(idx) => decode_fx_lots_wrapper(&e.children[idx]),
    }
}


/// Whether the statement's `UnsettledTransfers` section decodes; an absent section
/// is treated identically to a present-but-empty one.
pub open spec fn unsettled_transfers_field_ok(e: XElem) -> bool {
    match child_named(e.children, "UnsettledTransfers"@) {
        None => true,
        Some(c) => unsettled_transfers_wrapper_wf(c),
    }
}

/// How the statement's `unsettled_transfers` field relates to the element.
pub open spec fn unsettled_transfers_field_obeys(e: XElem, w: UnsettledTransfersWrapper) -> bool {
    match child_named(e.children, "UnsettledTransfers"@) {
        None => w.items@.len() == 0,
        Some(c) => unsettled_transfers_wrapper_obeys(c, w),
    }
}

/// Decodes the statement's `UnsettledTransfers` section, absent meaning empty.
fn unsettled_transfers_field(e: &Element) -> (r: Result<UnsettledTransfersWrapper, ParseError>)
    ensures
        unsettled_transfers_field_ok(e@) ==> r is Ok && unsettled_transfers_field_obeys(e@, r->Ok_0),
        !unsettled_transfers_field_ok(e@) ==> r is Err,
{
    match find_child(e, "UnsettledTransfers") {
        None => Ok(UnsettledTransfersWrapper { items: Vec::new() }),
        Some(idx) => decode_unsettled_transfers_wrapper(&e.children[idx]),
    }
}


/// Whether the statement's `TradeTransfers` section decodes; an absent section
/// is treated identically to a present-but-empty one.
pub open spec fn trade_transfers_field_ok(e: XElem) -> bool {
    match child_named(e.children, "TradeTransfers"@) {
        None => true,
        Some(c) => trade_transfers_wrapper_wf(c),
    }
}

/// How the statement's `trade_transfers` field relates to the element.
pub open spec fn trade_transfers_field_obeys(e: XElem, w: TradeTransfersWrapper) -> bool {
    match child_named(e.children, "TradeTransfers"@) {
        None => w.items@.len() == 0,
        Some(c) => trade_transfers_wrapper_obeys(c, w),
    }
}

/// Decodes the statement's `TradeTransfers` section, absent meaning empty.
fn trade_transfers_field(e: &Element) -> (r: Result<TradeTransfersWrapper, ParseError>)
    ensures
        trade_transfers_field_ok(e@) ==> r is Ok && trade_transfers_field_obeys(e@, r->Ok_0),
        !trade_transfers_field_ok(e@) ==> r is Err,
{
    match find_child(e, "TradeTransfers") {
        None => Ok(TradeTransfersWrapper { items: Vec::new() }),
        Some(idx) => decode_trade_transfers_wrapper(&e.children[idx]),
    }
}


/// Whether the statement's `PriorPeriodPositions` section decodes; an absent section
/// is treated identically to a present-but-empty one.
pub open spec fn prior_period_positions_field_ok(e: XElem) -> bool {
    match child_named(e.children, "PriorPeriodPositions"@) {
        None => true,
        Some(c) => prior_period_positions_wrapper_wf(c),
    }
}

/// How the statement's `prior_period_positions` field relates to the element.
pub open spec fn prior_period_positions_field_obeys(e: XElem, w: PriorPeriodPositionsWrapper) -> bool {
    match child_named(e.children, "PriorPeriodPositions"@) {
        None => w.items@.len() == 0,
        Some(c) => prior_period_positions_wrapper_obeys(c, w),
    }
}

/// Decodes the statement's `PriorPeriodPositions` section, absent meaning empty.
fn prior_period_positions_field(e: &Element) -> (r: Result<PriorPeriodPositionsWrapper, ParseError>)
    ensures
        prior_period_positions_field_ok(e@) ==> r is Ok && prior_period_positions_field_obeys(e@, r->Ok_0),
        !prior_period_positions_field_ok(e@) ==> r is Err,
{
    match find_child(e, "PriorPeriodPositions") {
        None => Ok(PriorPeriodPositionsWrapper { items: Vec::new() }),
        Some(idx) => decode_prior_period_positions_wrapper(&e.children[idx]),
    }
}


/// Whether the statement's `TierInterestDetails` section decodes; an absent section
/// is treated identically to a present-but-empty one.
pub open spec fn tier_interest_details_field_ok(e: XElem) -> bool {
    match child_named(e.children, "TierInterestDetails"@) {
        None => true,
        Some(c) => tier_interest_details_wrapper_wf(c),
    }
}

/// How the statement's `tier_interest_details` field relates to the element.
pub open spec fn tier_interest_details_field_obeys(e: XElem, w: TierInterestDetailsWrapper) -> bool {
    match child_named(e.children, "TierInterestDetails"@) {
        None => w.items@.len() == 0,
        Some(c) => tier_interest_details_wrapper_obeys(c, w),
    }
}

/// Decodes the statement's `TierInterestDetails` section, absent meaning empty.
fn tier_interest_details_field(e: &Element) -> (r: Result<TierInterestDetailsWrapper, ParseError>)
    ensures
        tier_interest_details_field_ok(e@) ==> r is Ok && tier_interest_details_field_obeys(e@, r->Ok_0),
        !tier_interest_details_field_ok(e@) ==> r is Err,
{
    match find_child(e, "TierInterestDetails") {
        None => Ok(TierInterestDetailsWrapper { items: Vec::new() }),
        Some(idx) => decode_tier_interest_details_wrapper(&e.children[idx]),
    }
}


/// Whether the statement's `DebitCardActivities` section decodes; an absent section
/// is treated identically to a present-but-empty one.
pub open spec fn debit_card_activities_field_ok(e: XElem) -> bool {
    match child_named(e.children, "DebitCardActivities"@) {
        None => true,
        Some(c) => debit_card_activities_wrapper_wf(c),
    }
}

/// How the statement's `debit_card_activities` field relates to the element.
pub open spec fn debit_card_activities_field_obeys(e: XElem, w: DebitCardActivitiesWrapper) -> bool {
    match child_named(e.children, "DebitCardActivities"@) {
        None => w.items@.len() == 0,
        Some(c) => debit_card_activities_wrapper_obeys(c, w),
    }
}

/// Decodes the statement's `DebitCardActivities` section, absent meaning empty.
fn debit_card_activities_field(e: &Element) -> (r: Result<DebitCardActivitiesWrapper, ParseError>)
    ensures
        debit_card_activities_field_ok(e@) ==> r is Ok && debit_card_activities_field_obeys(e@, r->Ok_0),
        !debit_card_activities_field_ok(e@) ==> r is Err,
{
    match find_child(e, "DebitCardActivities") {
        None => Ok(DebitCardActivitiesWrapper { items: Vec::new() }),
        Some(idx) => decode_debit_card_activities_wrapper(&e.children[idx]),
    }
}


/// Whether the statement's `SalesTaxes` section decodes; an absent section
/// is treated identically to a present-but-empty one.
pub open spec fn sales_tax_field_ok(e: XElem) -> bool {
    match child_named(e.children, "SalesTaxes"@) {
        None => true,
        Some(c) => sales_tax_wrapper_wf(c),
    }
}

/// How the statement's `sales_tax` field relates to the element.
pub open spec fn sales_tax_field_obeys(e: XElem, w: SalesTaxWrapper) -> bool {
    match child_named(e.children, "SalesTaxes"@) {
        None => w.items@.len() == 0,
        Some(c) => sales_tax_wrapper_obeys(c, w),
    }
}

/// Decodes the statement's `SalesTaxes` section, absent meaning empty.
fn sales_tax_field(e: &Element) -> (r: Result<SalesTaxWrapper, ParseError>)
    ensures
        sales_tax_field_ok(e@) ==> r is Ok && sales_tax_field_obeys(e@, r->Ok_0),
        !sales_tax_field_ok(e@) ==> r is Err,
{
    match find_child(e, "SalesTaxes") {
        None => Ok(SalesTaxWrapper { items: Vec::new() }),
        Some(idx) => decode_sales_tax_wrapper(&e.children[idx]),
    }
}


/// Whether the statement's trade-activity section decodes; an absent
/// section is treated identically to a present-but-empty one.
pub open spec fn trades_field_ok(e: XElem) -> bool {
    match child_named(e.children, "Trades"@) {
        None => true,
        Some(c) => trades_section_wf(c),
    }
}

/// How the statement's `trades` field relates to the element.
pub open spec fn trades_field_obeys(e: XElem, w: TradesWrapper) -> bool {
    match child_named(e.children, "Trades"@) {
        None => w.items@.len() == 0 && w.wash_sales@.len() == 0,
        Some(c) => trades_section_obeys(c, w),
    }
}

/// Decodes the statement's `Trades` section, absent meaning empty.
fn trades_field(e: &Element) -> (r: Result<TradesWrapper, ParseError>)
    ensures
        trades_field_ok(e@) ==> r is Ok && trades_field_obeys(e@, r->Ok_0),
        !trades_field_ok(e@) ==> r is Err,
{
    match find_child(e, "Trades") {
        None => Ok(TradesWrapper::empty()),
        Some(idx) => decode_trades_section(&e.children[idx]),
    }
}

/// Whether the statement's account-information element decodes.
pub open spec fn account_information_field_ok(e: XElem) -> bool {
    match child_named(e.children, "AccountInformation"@) {
        None => true,
        Some(c) => account_information_wf(c),
    }
}

/// How the statement's `account_information` field relates to the element.
pub open spec fn account_information_field_obeys(e: XElem, w: Option<AccountInformation>) -> bool {
    match child_named(e.children, "AccountInformation"@) {
        None => w is None,
        Some(c) => w is Some && account_information_obeys(c, w->0),
    }
}

/// Decodes the statement's optional account-information element.
fn account_information_field(e: &Element) -> (r: Result<Option<AccountInformation>, ParseError>)
    ensures
        account_information_field_ok(e@) ==> r is Ok && account_information_field_obeys(
            e@,
            r->Ok_0,
        ),
        !account_information_field_ok(e@) ==> r is Err,
{
    match find_child(e, "AccountInformation") {
        None => Ok(None),
        Some(idx) => match decode_account_information(&e.children[idx]) {
            Ok(v) => Ok(Some(v)),
            Err(er) => Err(er),
        },
    }
}

/// Whether the statement's change-in-NAV element decodes.
pub open spec fn change_in_nav_field_ok(e: XElem) -> bool {
    match child_named(e.children, "ChangeInNAV"@) {
        None => true,
        Some(c) => change_in_n_a_v_wf(c),
    }
}

/// How the statement's `change_in_nav` field relates to the element.
pub open spec fn change_in_nav_field_obeys(e: XElem, w: Option<ChangeInNAV>) -> bool {
    match child_named(e.children, "ChangeInNAV"@) {
        None => w is None,
        Some(c) => w is Some && change_in_n_a_v_obeys(c, w->0),
    }
}

/// Decodes the statement's optional change-in-NAV element.
fn change_in_nav_field(e: &Element) -> (r: Result<Option<ChangeInNAV>, ParseError>)
    ensures
        change_in_nav_field_ok(e@) ==> r is Ok && change_in_nav_field_obeys(e@, r->Ok_0),
        !change_in_nav_field_ok(e@) ==> r is Err,
{
    match find_child(e, "ChangeInNAV") {
        None => Ok(None),
        Some(idx) => match decode_change_in_n_a_v(&e.children[idx]) {
            Ok(v) => Ok(Some(v)),
            Err(er) => Err(er),
        },
    }
}


/// One assembled per-day statement: account identity, inclusive date
/// range, generation timestamp, and one collection per record kind.
/// Section tags the dialect may add over time are consumed by the grammar
/// and ignored here, so forward-compatible additions cannot break parsing.
#[derive(Debug, Clone)]
pub struct ActivityFlexStatement {
    /// IB account number.
    pub account_id: String,
    /// Start of the statement's date range.
    pub from_date: Date,
    /// End of the statement's date range; never before the start.
    pub to_date: Date,
    /// When the report was generated; free text, not parsed further.
    pub when_generated: String,
    /// The classified trade-activity section.
    pub trades: TradesWrapper,
    /// The `positions` section.
    pub positions: PositionsWrapper,
    /// The `cash_transactions` section.
    pub cash_transactions: CashTransactionsWrapper,
    /// The `corporate_actions` section.
    pub corporate_actions: CorporateActionsWrapper,
    /// The `securities_info` section.
    pub securities_info: SecuritiesInfoWrapper,
    /// The `conversion_rates` section.
    pub conversion_rates: ConversionRatesWrapper,
    /// The `equity_summary` section.
    pub equity_summary: EquitySummaryWrapper,
    /// The `cash_report` section.
    pub cash_report: CashReportWrapper,
    /// The `trade_confirms` section.
    pub trade_confirms: TradeConfirmsWrapper,
    /// The `option_eae` section.
    pub option_eae: OptionEAEWrapper,
    /// The `fx_transactions` section.
    pub fx_transactions: FxTransactionsWrapper,
    /// The `change_in_dividend_accruals` section.
    pub change_in_dividend_accruals: ChangeInDividendAccrualsWrapper,
    /// The `open_dividend_accruals` section.
    pub open_dividend_accruals: OpenDividendAccrualsWrapper,
    /// The `interest_accruals` section.
    pub interest_accruals: InterestAccrualsWrapper,
    /// The `transfers` section.
    pub transfers: TransfersWrapper,
    /// The `mtm_performance_summary` section.
    pub mtm_performance_summary: MTMPerformanceSummaryWrapper,
    /// The `fifo_performance_summary` section.
    pub fifo_performance_summary: FIFOPerformanceSummaryWrapper,
    /// The `mtd_ytd_performance_summary` section.
    pub mtd_ytd_performance_summary: MTDYTDPerformanceSummaryWrapper,
    /// The `statement_of_funds` section.
    pub statement_of_funds: StatementOfFundsWrapper,
    /// The `change_in_position_values` section.
    pub change_in_position_values: ChangeInPositionValueWrapper,
    /// The `unbundled_commission_details` section.
    pub unbundled_commission_details: UnbundledCommissionDetailWrapper,
    /// The `client_fees` section.
    pub client_fees: ClientFeesWrapper,
    /// The `client_fees_detail` section.
    pub client_fees_detail: ClientFeesDetailWrapper,
    /// The `slb_activities` section.
    pub slb_activities: SLBActivitiesWrapper,
    /// The `slb_fees` section.
    pub slb_fees: SLBFeesWrapper,
    /// The `hard_to_borrow_details` section.
    pub hard_to_borrow_details: HardToBorrowDetailsWrapper,
    /// The `fx_lots` section.
    pub fx_lots: FxLotsWrapper,
    /// The `unsettled_transfers` section.
    pub unsettled_transfers: UnsettledTransfersWrapper,
    /// The `trade_transfers` section.
    pub trade_transfers: TradeTransfersWrapper,
    /// The `prior_period_positions` section.
    pub prior_period_positions: PriorPeriodPositionsWrapper,
    /// The `tier_interest_details` section.
    pub tier_interest_details: TierInterestDetailsWrapper,
    /// The `debit_card_activities` section.
    pub debit_card_activities: DebitCardActivitiesWrapper,
    /// The `sales_tax` section.
    pub sales_tax: SalesTaxWrapper,
    /// Account reference information, when present.
    pub account_information: Option<AccountInformation>,
    /// Change in net asset value, when present.
    pub change_in_nav: Option<ChangeInNAV>,
}

/// Whether a statement element decodes: the mandatory statement attributes
/// are present, the date range runs forward, and every modeled section
/// decodes.
pub open spec fn statement_wf(e: XElem) -> bool {
    &&& attr_of(e, "accountId"@) is Some
    &&& req_date_ok(e, "fromDate"@)
    &&& req_date_ok(e, "toDate"@)
    &&& attr_of(e, "whenGenerated"@) is Some
    &&& spec_date_le(req_date_of(e, "fromDate"@), req_date_of(e, "toDate"@))
    &&& trades_field_ok(e)
    &&& positions_field_ok(e)
    &&& cash_transactions_field_ok(e)
    &&& corporate_actions_field_ok(e)
    &&& securities_info_field_ok(e)
    &&& conversion_rates_field_ok(e)
    &&& equity_summary_field_ok(e)
    &&& cash_report_field_ok(e)
    &&& trade_confirms_field_ok(e)
    &&& option_eae_field_ok(e)
    &&& fx_transactions_field_ok(e)
    &&& change_in_dividend_accruals_field_ok(e)
    &&& open_dividend_accruals_field_ok(e)
    &&& interest_accruals_field_ok(e)
    &&& transfers_field_ok(e)
    &&& mtm_performance_summary_field_ok(e)
    &&& fifo_performance_summary_field_ok(e)
    &&& mtd_ytd_performance_summary_field_ok(e)
    &&& statement_of_funds_field_ok(e)
    &&& change_in_position_values_field_ok(e)
    &&& unbundled_commission_details_field_ok(e)
    &&& client_fees_field_ok(e)
    &&& client_fees_detail_field_ok(e)
    &&& slb_activities_field_ok(e)
    &&& slb_fees_field_ok(e)
    &&& hard_to_borrow_details_field_ok(e)
    &&& fx_lots_field_ok(e)
    &&& unsettled_transfers_field_ok(e)
    &&& trade_transfers_field_ok(e)
    &&& prior_period_positions_field_ok(e)
    &&& tier_interest_details_field_ok(e)
    &&& debit_card_activities_field_ok(e)
    &&& sales_tax_field_ok(e)
    &&& account_information_field_ok(e)
    &&& change_in_nav_field_ok(e)
}

/// How a decoded statement relates to its element.
pub open spec fn statement_obeys(e: XElem, st: ActivityFlexStatement) -> bool {
    &&& st.account_id@ == attr_of(e, "accountId"@)->0
    &&& st.from_date == req_date_of(e, "fromDate"@)
    &&& st.to_date == req_date_of(e, "toDate"@)
    &&& st.when_generated@ == attr_of(e, "whenGenerated"@)->0
    &&& trades_field_obeys(e, st.trades)
    &&& positions_field_obeys(e, st.positions)
    &&& cash_transactions_field_obeys(e, st.cash_transactions)
    &&& corporate_actions_field_obeys(e, st.corporate_actions)
    &&& securities_info_field_obeys(e, st.securities_info)
    &&& conversion_rates_field_obeys(e, st.conversion_rates)
    &&& equity_summary_field_obeys(e, st.equity_summary)
    &&& cash_report_field_obeys(e, st.cash_report)
    &&& trade_confirms_field_obeys(e, st.trade_confirms)
    &&& option_eae_field_obeys(e, st.option_eae)
    &&& fx_transactions_field_obeys(e, st.fx_transactions)
    &&& change_in_dividend_accruals_field_obeys(e, st.change_in_dividend_accruals)
    &&& open_dividend_accruals_field_obeys(e, st.open_dividend_accruals)
    &&& interest_accruals_field_obeys(e, st.interest_accruals)
    &&& transfers_field_obeys(e, st.transfers)
    &&& mtm_performance_summary_field_obeys(e, st.mtm_performance_summary)
    &&& fifo_performance_summary_field_obeys(e, st.fifo_performance_summary)
    &&& mtd_ytd_performance_summary_field_obeys(e, st.mtd_ytd_performance_summary)
    &&& statement_of_funds_field_obeys(e, st.statement_of_funds)
    &&& change_in_position_values_field_obeys(e, st.change_in_position_values)
    &&& unbundled_commission_details_field_obeys(e, st.unbundled_commission_details)
    &&& client_fees_field_obeys(e, st.client_fees)
    &&& client_fees_detail_field_obeys(e, st.client_fees_detail)
    &&& slb_activities_field_obeys(e, st.slb_activities)
    &&& slb_fees_field_obeys(e, st.slb_fees)
    &&& hard_to_borrow_details_field_obeys(e, st.hard_to_borrow_details)
    &&& fx_lots_field_obeys(e, st.fx_lots)
    &&& unsettled_transfers_field_obeys(e, st.unsettled_transfers)
    &&& trade_transfers_field_obeys(e, st.trade_transfers)
    &&& prior_period_positions_field_obeys(e, st.prior_period_positions)
    &&& tier_interest_details_field_obeys(e, st.tier_interest_details)
    &&& debit_card_activities_field_obeys(e, st.debit_card_activities)
    &&& sales_tax_field_obeys(e, st.sales_tax)
    &&& account_information_field_obeys(e, st.account_information)
    &&& change_in_nav_field_obeys(e, st.change_in_nav)
}

/// Assembles one per-day statement from its element.
#[verifier::rlimit(100)]
pub fn decode_statement(e: &Element) -> (r: Result<ActivityFlexStatement, ParseError>)
    ensures
        statement_wf(e@) ==> r is Ok && statement_obeys(e@, r->Ok_0),
        !statement_wf(e@) ==> r is Err,
{
    let account_id = match crate::records::req_str(e, "accountId", "FlexStatement") {
        Ok(v) => v,
        Err(er) => { return Err(er); }
    };
    let from_date = match crate::records::req_date(e, "fromDate", "FlexStatement") {
        Ok(v) => v,
        Err(er) => { return Err(er); }
    };
    let to_date = match crate::records::req_date(e, "toDate", "FlexStatement") {
        Ok(v) => v,
        Err(er) => { return Err(er); }
    };
    let when_generated = match crate::records::req_str(e, "whenGenerated", "FlexStatement") {
        Ok(v) => v,
        Err(er) => { return Err(er); }
    };
    if !from_date.le(&to_date) {
        return Err(ParseError::InvalidDateRange);
    }
    let trades = match trades_field(e) { Ok(v) => v, Err(er) => { return Err(er); } };
    let positions = match positions_field(e) { Ok(v) => v, Err(er) => { return Err(er); } };
    let cash_transactions = match cash_transactions_field(e) { Ok(v) => v, Err(er) => { return Err(er); } };
    let corporate_actions = match corporate_actions_field(e) { Ok(v) => v, Err(er) => { return Err(er); } };
    let securities_info = match securities_info_field(e) { Ok(v) => v, Err(er) => { return Err(er); } };
    let conversion_rates = match conversion_rates_field(e) { Ok(v) => v, Err(er) => { return Err(er); } };
    let equity_summary = match equity_summary_field(e) { Ok(v) => v, Err(er) => { return Err(er); } };
    let cash_report = match cash_report_field(e) { Ok(v) => v, Err(er) => { return Err(er); } };
    let trade_confirms = match trade_confirms_field(e) { Ok(v) => v, Err(er) => { return Err(er); } };
    let option_eae = match option_eae_field(e) { Ok(v) => v, Err(er) => { return Err(er); } };
    let fx_transactions = match fx_transactions_field(e) { Ok(v) => v, Err(er) => { return Err(er); } };
    let change_in_dividend_accruals = match change_in_dividend_accruals_field(e) { Ok(v) => v, Err(er) => { return Err(er); } };
    let open_dividend_accruals = match open_dividend_accruals_field(e) { Ok(v) => v, Err(er) => { return Err(er); } };
    let interest_accruals = match interest_accruals_field(e) { Ok(v) => v, Err(er) => { return Err(er); } };
    let transfers = match transfers_field(e) { Ok(v) => v, Err(er) => { return Err(er); } };
    let mtm_performance_summary = match mtm_performance_summary_field(e) { Ok(v) => v, Err(er) => { return Err(er); } };
    let fifo_performance_summary = match fifo_performance_summary_field(e) { Ok(v) => v, Err(er) => { return Err(er); } };
    let mtd_ytd_performance_summary = match mtd_ytd_performance_summary_field(e) { Ok(v) => v, Err(er) => { return Err(er); } };
    let statement_of_funds = match statement_of_funds_field(e) { Ok(v) => v, Err(er) => { return Err(er); } };
    let change_in_position_values = match change_in_position_values_field(e) { Ok(v) => v, Err(er) => { return Err(er); } };
    let unbundled_commission_details = match unbundled_commission_details_field(e) { Ok(v) => v, Err(er) => { return Err(er); } };
    let client_fees = match client_fees_field(e) { Ok(v) => v, Err(er) => { return Err(er); } };
    let client_fees_detail = match client_fees_detail_field(e) { Ok(v) => v, Err(er) => { return Err(er); } };
    let slb_activities = match slb_activities_field(e) { Ok(v) => v, Err(er) => { return Err(er); } };
    let slb_fees = match slb_fees_field(e) { Ok(v) => v, Err(er) => { return Err(er); } };
    let hard_to_borrow_details = match hard_to_borrow_details_field(e) { Ok(v) => v, Err(er) => { return Err(er); } };
    let fx_lots = match fx_lots_field(e) { Ok(v) => v, Err(er) => { return Err(er); } };
    let unsettled_transfers = match unsettled_transfers_field(e) { Ok(v) => v, Err(er) => { return Err(er); } };
    let trade_transfers = match trade_transfers_field(e) { Ok(v) => v, Err(er) => { return Err(er); } };
    let prior_period_positions = match prior_period_positions_field(e) { Ok(v) => v, Err(er) => { return Err(er); } };
    let tier_interest_details = match tier_interest_details_field(e) { Ok(v) => v, Err(er) => { return Err(er); } };
    let debit_card_activities = match debit_card_activities_field(e) { Ok(v) => v, Err(er) => { return Err(er); } };
    let sales_tax = match sales_tax_field(e) { Ok(v) => v, Err(er) => { return Err(er); } };
    let account_information = match account_information_field(e) {
        Ok(v) => v,
        Err(er) => { return Err(er); }
    };
    let change_in_nav = match change_in_nav_field(e) {
        Ok(v) => v,
        Err(er) => { return Err(er); }
    };
    Ok(
        ActivityFlexStatement {
            account_id,
            from_date,
            to_date,
            when_generated,
            trades,
            positions, cash_transactions, corporate_actions, securities_info, conversion_rates, equity_summary, cash_report, trade_confirms, option_eae, fx_transactions, change_in_dividend_accruals, open_dividend_accruals, interest_accruals, transfers, mtm_performance_summary, fifo_performance_summary, mtd_ytd_performance_summary, statement_of_funds, change_in_position_values, unbundled_commission_details, client_fees, client_fees_detail, slb_activities, slb_fees, hard_to_borrow_details, fx_lots, unsettled_transfers, trade_transfers, prior_period_positions, tier_interest_details, debit_card_activities, sales_tax,
            account_information,
            change_in_nav,
        },
    )
}

/// The per-day statements of a response wrapper, in document order.
#[derive(Debug, Clone)]
pub struct FlexStatementsWrapper {
    /// The declared statement count, as raw text.
    pub count: Option<String>,
    /// The statements, in document order.
    pub statements: Vec<ActivityFlexStatement>,
}

/// The top-level response of the day-end activity shape: one wrapper
/// element holding one or more per-day statements.
#[derive(Debug, Clone)]
pub struct FlexQueryResponse {
    /// Query name, when given.
    pub query_name: Option<String>,
    /// Query type, when given.
    pub query_type: Option<String>,
    /// The wrapped statements.
    pub statements: FlexStatementsWrapper,
}

/// Whether a response element decodes: it holds a statements wrapper with
/// at least one statement, each of which decodes.
pub open spec fn response_wf(root: XElem) -> bool {
    &&& child_named(root.children, "FlexStatements"@) is Some
    &&& named_in(child_named(root.children, "FlexStatements"@)->0.children, "FlexStatement"@).len()
        >= 1
    &&& forall|k: int|
        0 <= k < named_in(
            child_named(root.children, "FlexStatements"@)->0.children,
            "FlexStatement"@,
        ).len() ==> statement_wf(
            #[trigger] named_in(
                child_named(root.children, "FlexStatements"@)->0.children,
                "FlexStatement"@,
            )[k],
        )
}

/// How a decoded response relates to its root element.
pub open spec fn response_obeys(root: XElem, resp: FlexQueryResponse) -> bool {
    let w = child_named(root.children, "FlexStatements"@)->0;
    let cs = named_in(w.children, "FlexStatement"@);
    &&& crate::records::opt_string_is(resp.query_name, crate::records::opt_str_of(root, "queryName"@))
    &&& crate::records::opt_string_is(resp.query_type, crate::records::opt_str_of(root, "type"@))
    &&& crate::records::opt_string_is(resp.statements.count, crate::records::opt_str_of(w, "count"@))
    &&& resp.statements.statements@.len() == cs.len()
    &&& forall|k: int|
        0 <= k < cs.len() ==> statement_obeys(cs[k], #[trigger] resp.statements.statements@[k])
}

/// Decodes the whole day-end response: every wrapped statement, in
/// document order.
pub fn decode_response(root: &Element) -> (r: Result<FlexQueryResponse, ParseError>)
    ensures
        response_wf(root@) ==> r is Ok && response_obeys(root@, r->Ok_0),
        !response_wf(root@) ==> r is Err,
{
    let query_name = crate::records::opt_str(root, "queryName");
    let query_type = crate::records::opt_str(root, "type");
    let widx = match find_child(root, "FlexStatements") {
        Some(i) => i,
        None => {
            return Err(
                ParseError::MissingField {
                    field: "FlexStatements".to_owned(),
                    context: "FlexQueryResponse".to_owned(),
                },
            );
        },
    };
    let w = &root.children[widx];
    let count = crate::records::opt_str(w, "count");
    proof {
        crate::xml::lemma_elems_view_index(w.children@);
    }
    let mut statements: Vec<ActivityFlexStatement> = Vec::new();
    let n = w.children.len();
    let mut i: usize = 0;
    while i < n
        invariant
            child_named(root@.children, "FlexStatements"@) == Some(w@),
            n == w.children.len(),
            w@.children.len() == n,
            forall|k: int|
                0 <= k < n ==> #[trigger] w@.children[k] == crate::xml::elem_view(
                    w.children@[k],
                ),
            i <= n,
            statements@.len() == named_in(w@.children.take(i as int), "FlexStatement"@).len(),
            forall|k: int|
                0 <= k < statements@.len() ==> statement_obeys(
                    named_in(w@.children.take(i as int), "FlexStatement"@)[k],
                    #[trigger] statements@[k],
                ),
            forall|k: int|
                0 <= k < statements@.len() ==> statement_wf(
                    #[trigger] named_in(w@.children.take(i as int), "FlexStatement"@)[k],
                ),
        decreases n - i,
    {
        let child = &w.children[i];
        let ghost gc = w@.children[i as int];
        proof {
            assert(w@.children.take(i + 1).drop_last() =~= w@.children.take(i as int));
            assert(w@.children.take(i + 1).last() == gc);
        }
        let cn = chars_of_str(child.name.as_str());
        if chars_eq_str(&cn, "FlexStatement") {
            let st = match decode_statement(child) {
                Ok(t) => t,
                Err(er) => {
                    proof {
                        lemma_named_in_prefix(w@.children, "FlexStatement"@, i + 1);
                        let pre = named_in(w@.children.take(i as int), "FlexStatement"@);
                        assert(named_in(w@.children.take(i + 1), "FlexStatement"@) == pre.push(
                            gc,
                        ));
                        assert(named_in(w@.children, "FlexStatement"@)[pre.len() as int] == gc);
                        assert(!response_wf(root@));
                    }
                    return Err(er);
                },
            };
            statements.push(st);
        }
        i += 1;
    }
    proof {
        assert(w@.children.take(n as int) =~= w@.children);
    }
    if statements.len() == 0 {
        return Err(
            ParseError::MissingField {
                field: "FlexStatement".to_owned(),
                context: "FlexQueryResponse".to_owned(),
            },
        );
    }
    Ok(
        FlexQueryResponse {
            query_name,
            query_type,
            statements: FlexStatementsWrapper { count, statements },
        },
    )
}

/// The real-time trade-confirmation statement shape: an account id and a
/// trades section with the shared record dictionary.
#[derive(Debug, Clone)]
pub struct TradeConfirmationStatement {
    /// IB account number.
    pub account_id: String,
    /// Trade executions.
    pub trades: TradesWrapper,
}

/// Whether a trade-confirmation root decodes.
pub open spec fn trade_confirmation_wf(root: XElem) -> bool {
    &&& attr_of(root, "accountId"@) is Some
    &&& trades_field_ok(root)
}

/// How a decoded trade-confirmation statement relates to its root.
pub open spec fn trade_confirmation_obeys(root: XElem, st: TradeConfirmationStatement) -> bool {
    &&& st.account_id@ == attr_of(root, "accountId"@)->0
    &&& trades_field_obeys(root, st.trades)
}

/// Assembles a trade-confirmation statement from the document root.
pub fn decode_trade_confirmation(root: &Element) -> (r: Result<
    TradeConfirmationStatement,
    ParseError,
>)
    ensures
        trade_confirmation_wf(root@) ==> r is Ok && trade_confirmation_obeys(root@, r->Ok_0),
        !trade_confirmation_wf(root@) ==> r is Err,
{
    let account_id = match crate::records::req_str(root, "accountId", "TradeConfirmationStatement")
        {
        Ok(v) => v,
        Err(er) => { return Err(er); }
    };
    let trades = match trades_field(root) { Ok(v) => v, Err(er) => { return Err(er); } };
    Ok(TradeConfirmationStatement { account_id, trades })
}

} // verus!
