//! The closed code tables of the dialect.
//!
//! Every table carries a reserved `Unknown` member: decoding a token is
//! total and never fails, so statements holding codes newer than this
//! vocabulary still parse completely, with the unknown values visible to
//! callers.  Lookups are exact-match, as the dialect documents them.

use vstd::prelude::*;
use crate::chars::chars_eq_str;

verus! {

/// Asset category (security type) of a record.
#[derive(Debug, Clone, Copy, PartialEq, Eq, Hash, Structural)]
pub enum AssetCategory {
    /// Stock
    Stock,
    /// Option
    Option,
    /// Future
    Future,
    /// Future option
    FutureOption,
    /// Cash / forex
    Cash,
    /// Bond
    Bond,
    /// Treasury bill
    Bill,
    /// Commodity
    Commodity,
    /// Contract for difference
    Cfd,
    /// Forex CFD
    ForexCfd,
    /// Warrant
    Warrant,
    /// Mutual fund
    Fund,
    /// Structured product / dutch warrant / indexed option
    StructuredProduct,
    /// Combination / basket order
    Bag,
    /// Cryptocurrency
    Cryptocurrency,
    /// Physical metals
    Metal,
    /// Exchange for physical
    ExchangeForPhysical,
    /// Event contract
    EventContract,
    /// Index
    Index,
    /// Reserved member for any unrecognized token
    Unknown,
}

impl AssetCategory {
    /// The member a token denotes; any unrecognized token denotes
    /// `Unknown`.
    pub open spec fn spec_decode(s: Seq<char>) -> AssetCategory {
        if s == "STK"@ {
            AssetCategory::Stock
        } else if s == "OPT"@ {
            AssetCategory::Option
        } else if s == "FUT"@ {
            AssetCategory::Future
        } else if s == "FOP"@ {
            AssetCategory::FutureOption
        } else if s == "CASH"@ {
            AssetCategory::Cash
        } else if s == "BOND"@ {
            AssetCategory::Bond
        } else if s == "BILL"@ {
            AssetCategory::Bill
        } else if s == "CMDTY"@ {
            AssetCategory::Commodity
        } else if s == "CFD"@ {
            AssetCategory::Cfd
        } else if s == "FXCFD"@ {
            AssetCategory::ForexCfd
        } else if s == "WAR"@ {
            AssetCategory::Warrant
        } else if s == "FUND"@ {
            AssetCategory::Fund
        } else if s == "IOPT"@ {
            AssetCategory::StructuredProduct
        } else if s == "BAG"@ {
            AssetCategory::Bag
        } else if s == "CRYPTO"@ {
            AssetCategory::Cryptocurrency
        } else if s == "METAL"@ {
            AssetCategory::Metal
        } else if s == "EFP"@ {
            AssetCategory::ExchangeForPhysical
        } else if s == "EC"@ {
            AssetCategory::EventContract
        } else if s == "IND"@ {
            AssetCategory::Index
        } else {
            AssetCategory::Unknown
        }
    }

    /// Decodes a token; total, with `Unknown` as the fallback.
    pub fn decode(s: &Vec<char>) -> (r: AssetCategory)
        ensures
            r == AssetCategory::spec_decode(s@),
    {
        if chars_eq_str(s, "STK") {
            AssetCategory::Stock
        } else if chars_eq_str(s, "OPT") {
            AssetCategory::Option
        } else if chars_eq_str(s, "FUT") {
            AssetCategory::Future
        } else if chars_eq_str(s, "FOP") {
            AssetCategory::FutureOption
        } else if chars_eq_str(s, "CASH") {
            AssetCategory::Cash
        } else if chars_eq_str(s, "BOND") {
            AssetCategory::Bond
        } else if chars_eq_str(s, "BILL") {
            AssetCategory::Bill
        } else if chars_eq_str(s, "CMDTY") {
            AssetCategory::Commodity
        } else if chars_eq_str(s, "CFD") {
            AssetCategory::Cfd
        } else if chars_eq_str(s, "FXCFD") {
            AssetCategory::ForexCfd
        } else if chars_eq_str(s, "WAR") {
            AssetCategory::Warrant
        } else if chars_eq_str(s, "FUND") {
            AssetCategory::Fund
        } else if chars_eq_str(s, "IOPT") {
            AssetCategory::StructuredProduct
        } else if chars_eq_str(s, "BAG") {
            AssetCategory::Bag
        } else if chars_eq_str(s, "CRYPTO") {
            AssetCategory::Cryptocurrency
        } else if chars_eq_str(s, "METAL") {
            AssetCategory::Metal
        } else if chars_eq_str(s, "EFP") {
            AssetCategory::ExchangeForPhysical
        } else if chars_eq_str(s, "EC") {
            AssetCategory::EventContract
        } else if chars_eq_str(s, "IND") {
            AssetCategory::Index
        } else {
            AssetCategory::Unknown
        }
    }
}

/// Buy or sell side of a trade.
#[derive(Debug, Clone, Copy, PartialEq, Eq, Hash, Structural)]
pub enum BuySell {
    /// Buy
    Buy,
    /// Sell
    Sell,
    /// Cancelled buy
    CancelBuy,
    /// Cancelled sell
    CancelSell,
    /// Reserved member for any unrecognized token
    Unknown,
}

impl BuySell {
    /// The member a token denotes; any unrecognized token denotes
    /// `Unknown`.
    pub open spec fn spec_decode(s: Seq<char>) -> BuySell {
        if s == "BUY"@ {
            BuySell::Buy
        } else if s == "SELL"@ {
            BuySell::Sell
        } else if s == "BUY (Ca.)"@ {
            BuySell::CancelBuy
        } else if s == "SELL (Ca.)"@ {
            BuySell::CancelSell
        } else {
            BuySell::Unknown
        }
    }

    /// Decodes a token; total, with `Unknown` as the fallback.
    pub fn decode(s: &Vec<char>) -> (r: BuySell)
        ensures
            r == BuySell::spec_decode(s@),
    {
        if chars_eq_str(s, "BUY") {
            BuySell::Buy
        } else if chars_eq_str(s, "SELL") {
            BuySell::Sell
        } else if chars_eq_str(s, "BUY (Ca.)") {
            BuySell::CancelBuy
        } else if chars_eq_str(s, "SELL (Ca.)") {
            BuySell::CancelSell
        } else {
            BuySell::Unknown
        }
    }
}

/// Open or close indicator for options and futures.
#[derive(Debug, Clone, Copy, PartialEq, Eq, Hash, Structural)]
pub enum OpenClose {
    /// Opening trade
    Open,
    /// Closing trade
    Close,
    /// Close and open, same-day round trip
    CloseOpen,
    /// Reserved member for any unrecognized token
    Unknown,
}

impl OpenClose {
    /// The member a token denotes; any unrecognized token denotes
    /// `Unknown`.
    pub open spec fn spec_decode(s: Seq<char>) -> OpenClose {
        if s == "O"@ {
            OpenClose::Open
        } else if s == "C"@ {
            OpenClose::Close
        } else if s == "C;O"@ {
            OpenClose::CloseOpen
        } else {
            OpenClose::Unknown
        }
    }

    /// Decodes a token; total, with `Unknown` as the fallback.
    pub fn decode(s: &Vec<char>) -> (r: OpenClose)
        ensures
            r == OpenClose::spec_decode(s@),
    {
        if chars_eq_str(s, "O") {
            OpenClose::Open
        } else if chars_eq_str(s, "C") {
            OpenClose::Close
        } else if chars_eq_str(s, "C;O") {
            OpenClose::CloseOpen
        } else {
            OpenClose::Unknown
        }
    }
}

/// Order type of an execution.
#[derive(Debug, Clone, Copy, PartialEq, Eq, Hash, Structural)]
pub enum OrderType {
    /// Market order
    Market,
    /// Limit order
    Limit,
    /// Stop order
    Stop,
    /// Stop limit order
    StopLimit,
    /// Market on close
    MarketOnClose,
    /// Limit on close
    LimitOnClose,
    /// Market if touched
    MarketIfTouched,
    /// Limit if touched
    LimitIfTouched,
    /// Trailing stop
    TrailingStop,
    /// Trailing limit
    TrailingLimit,
    /// Mid-price order
    MidPrice,
    /// Relative order
    Relative,
    /// Multiple order types
    Multiple,
    /// Reserved member for any unrecognized token
    Unknown,
}

impl OrderType {
    /// The member a token denotes; any unrecognized token denotes
    /// `Unknown`.
    pub open spec fn spec_decode(s: Seq<char>) -> OrderType {
        if s == "MKT"@ {
            OrderType::Market
        } else if s == "LMT"@ {
            OrderType::Limit
        } else if s == "STP"@ {
            OrderType::Stop
        } else if s == "STP LMT"@ {
            OrderType::StopLimit
        } else if s == "MOC"@ {
            OrderType::MarketOnClose
        } else if s == "LOC"@ {
            OrderType::LimitOnClose
        } else if s == "MIT"@ {
            OrderType::MarketIfTouched
        } else if s == "LIT"@ {
            OrderType::LimitIfTouched
        } else if s == "TRAIL"@ {
            OrderType::TrailingStop
        } else if s == "TRAIL LMT"@ {
            OrderType::TrailingLimit
        } else if s == "MIDPX"@ {
            OrderType::MidPrice
        } else if s == "REL"@ {
            OrderType::Relative
        } else if s == "MULTIPLE"@ {
            OrderType::Multiple
        } else {
            OrderType::Unknown
        }
    }

    /// Decodes a token; total, with `Unknown` as the fallback.
    pub fn decode(s: &Vec<char>) -> (r: OrderType)
        ensures
            r == OrderType::spec_decode(s@),
    {
        if chars_eq_str(s, "MKT") {
            OrderType::Market
        } else if chars_eq_str(s, "LMT") {
            OrderType::Limit
        } else if chars_eq_str(s, "STP") {
            OrderType::Stop
        } else if chars_eq_str(s, "STP LMT") {
            OrderType::StopLimit
        } else if chars_eq_str(s, "MOC") {
            OrderType::MarketOnClose
        } else if chars_eq_str(s, "LOC") {
            OrderType::LimitOnClose
        } else if chars_eq_str(s, "MIT") {
            OrderType::MarketIfTouched
        } else if chars_eq_str(s, "LIT") {
            OrderType::LimitIfTouched
        } else if chars_eq_str(s, "TRAIL") {
            OrderType::TrailingStop
        } else if chars_eq_str(s, "TRAIL LMT") {
            OrderType::TrailingLimit
        } else if chars_eq_str(s, "MIDPX") {
            OrderType::MidPrice
        } else if chars_eq_str(s, "REL") {
            OrderType::Relative
        } else if chars_eq_str(s, "MULTIPLE") {
            OrderType::Multiple
        } else {
            OrderType::Unknown
        }
    }
}

/// Put or call, for options.
#[derive(Debug, Clone, Copy, PartialEq, Eq, Hash, Structural)]
pub enum PutCall {
    /// Put option
    Put,
    /// Call option
    Call,
    /// Reserved member for any unrecognized token
    Unknown,
}

impl PutCall {
    /// The member a token denotes; any unrecognized token denotes
    /// `Unknown`.
    pub open spec fn spec_decode(s: Seq<char>) -> PutCall {
        if s == "P"@ {
            PutCall::Put
        } else if s == "C"@ {
            PutCall::Call
        } else {
            PutCall::Unknown
        }
    }

    /// Decodes a token; total, with `Unknown` as the fallback.
    pub fn decode(s: &Vec<char>) -> (r: PutCall)
        ensures
            r == PutCall::spec_decode(s@),
    {
        if chars_eq_str(s, "P") {
            PutCall::Put
        } else if chars_eq_str(s, "C") {
            PutCall::Call
        } else {
            PutCall::Unknown
        }
    }
}

/// Long or short position side.
#[derive(Debug, Clone, Copy, PartialEq, Eq, Hash, Structural)]
pub enum LongShort {
    /// Long position
    Long,
    /// Short position
    Short,
    /// Reserved member for any unrecognized token
    Unknown,
}

impl LongShort {
    /// The member a token denotes; any unrecognized token denotes
    /// `Unknown`.
    pub open spec fn spec_decode(s: Seq<char>) -> LongShort {
        if s == "Long"@ {
            LongShort::Long
        } else if s == "Short"@ {
            LongShort::Short
        } else {
            LongShort::Unknown
        }
    }

    /// Decodes a token; total, with `Unknown` as the fallback.
    pub fn decode(s: &Vec<char>) -> (r: LongShort)
        ensures
            r == LongShort::spec_decode(s@),
    {
        if chars_eq_str(s, "Long") {
            LongShort::Long
        } else if chars_eq_str(s, "Short") {
            LongShort::Short
        } else {
            LongShort::Unknown
        }
    }
}

/// Transaction type of a trade.
#[derive(Debug, Clone, Copy, PartialEq, Eq, Hash, Structural)]
pub enum TradeType {
    /// Exchange trade
    ExchTrade,
    /// Book trade
    BookTrade,
    /// Delivery-versus-payment trade
    DvpTrade,
    /// Fractional share trade
    FracShare,
    /// Fractional share cancellation
    FracShareCancel,
    /// Manual adjustment
    Adjustment,
    /// Trade correction
    TradeCorrect,
    /// Trade cancellation
    TradeCancel,
    /// IBKR trade
    IBKRTrade,
    /// Reserved member for any unrecognized token
    Unknown,
}

impl TradeType {
    /// The member a token denotes; any unrecognized token denotes
    /// `Unknown`.
    pub open spec fn spec_decode(s: Seq<char>) -> TradeType {
        if s == "ExchTrade"@ {
            TradeType::ExchTrade
        } else if s == "BookTrade"@ {
            TradeType::BookTrade
        } else if s == "DvpTrade"@ {
            TradeType::DvpTrade
        } else if s == "FracShare"@ {
            TradeType::FracShare
        } else if s == "FracShareCancel"@ {
            TradeType::FracShareCancel
        } else if s == "Adjustment"@ {
            TradeType::Adjustment
        } else if s == "TradeCorrect"@ {
            TradeType::TradeCorrect
        } else if s == "TradeCancel"@ {
            TradeType::TradeCancel
        } else if s == "IBKRTrade"@ {
            TradeType::IBKRTrade
        } else {
            TradeType::Unknown
        }
    }

    /// Decodes a token; total, with `Unknown` as the fallback.
    pub fn decode(s: &Vec<char>) -> (r: TradeType)
        ensures
            r == TradeType::spec_decode(s@),
    {
        if chars_eq_str(s, "ExchTrade") {
            TradeType::ExchTrade
        } else if chars_eq_str(s, "BookTrade") {
            TradeType::BookTrade
        } else if chars_eq_str(s, "DvpTrade") {
            TradeType::DvpTrade
        } else if chars_eq_str(s, "FracShare") {
            TradeType::FracShare
        } else if chars_eq_str(s, "FracShareCancel") {
            TradeType::FracShareCancel
        } else if chars_eq_str(s, "Adjustment") {
            TradeType::Adjustment
        } else if chars_eq_str(s, "TradeCorrect") {
            TradeType::TradeCorrect
        } else if chars_eq_str(s, "TradeCancel") {
            TradeType::TradeCancel
        } else if chars_eq_str(s, "IBKRTrade") {
            TradeType::IBKRTrade
        } else {
            TradeType::Unknown
        }
    }
}

/// Cash transaction action type.
#[derive(Debug, Clone, Copy, PartialEq, Eq, Hash, Structural)]
pub enum CashTransactionType {
    /// Deposits and withdrawals
    DepositsWithdrawals,
    /// Dividend payments
    Dividends,
    /// Withholding tax
    WithholdingTax,
    /// Broker interest paid
    BrokerInterestPaid,
    /// Broker interest received
    BrokerInterestReceived,
    /// Bond interest received
    BondInterestReceived,
    /// Bond interest paid
    BondInterestPaid,
    /// Bond interest
    BondInterest,
    /// Payment in lieu of dividends
    PaymentInLieuOfDividends,
    /// Other fees
    OtherFees,
    /// Commission adjustments
    CommissionAdjustments,
    /// Advisor fees
    AdvisorFees,
    /// Cash receipts
    CashReceipts,
    /// Fees
    Fees,
    /// Reserved member for any unrecognized token
    Unknown,
}

impl CashTransactionType {
    /// The member a token denotes; any unrecognized token denotes
    /// `Unknown`.
    pub open spec fn spec_decode(s: Seq<char>) -> CashTransactionType {
        if s == "Deposits & Withdrawals"@ {
            CashTransactionType::DepositsWithdrawals
        } else if s == "Dividends"@ {
            CashTransactionType::Dividends
        } else if s == "WithholdingTax"@ {
            CashTransactionType::WithholdingTax
        } else if s == "Broker Interest Paid"@ {
            CashTransactionType::BrokerInterestPaid
        } else if s == "Broker Interest Received"@ {
            CashTransactionType::BrokerInterestReceived
        } else if s == "Bond Interest Received"@ {
            CashTransactionType::BondInterestReceived
        } else if s == "Bond Interest Paid"@ {
            CashTransactionType::BondInterestPaid
        } else if s == "Bond Interest"@ {
            CashTransactionType::BondInterest
        } else if s == "Payment In Lieu Of Dividends"@ {
            CashTransactionType::PaymentInLieuOfDividends
        } else if s == "Other Fees"@ {
            CashTransactionType::OtherFees
        } else if s == "Commission Adjustments"@ {
            CashTransactionType::CommissionAdjustments
        } else if s == "Advisor Fees"@ {
            CashTransactionType::AdvisorFees
        } else if s == "Cash Receipts"@ {
            CashTransactionType::CashReceipts
        } else if s == "Fees"@ {
            CashTransactionType::Fees
        } else {
            CashTransactionType::Unknown
        }
    }

    /// Decodes a token; total, with `Unknown` as the fallback.
    pub fn decode(s: &Vec<char>) -> (r: CashTransactionType)
        ensures
            r == CashTransactionType::spec_decode(s@),
    {
        if chars_eq_str(s, "Deposits & Withdrawals") {
            CashTransactionType::DepositsWithdrawals
        } else if chars_eq_str(s, "Dividends") {
            CashTransactionType::Dividends
        } else if chars_eq_str(s, "WithholdingTax") {
            CashTransactionType::WithholdingTax
        } else if chars_eq_str(s, "Broker Interest Paid") {
            CashTransactionType::BrokerInterestPaid
        } else if chars_eq_str(s, "Broker Interest Received") {
            CashTransactionType::BrokerInterestReceived
        } else if chars_eq_str(s, "Bond Interest Received") {
            CashTransactionType::BondInterestReceived
        } else if chars_eq_str(s, "Bond Interest Paid") {
            CashTransactionType::BondInterestPaid
        } else if chars_eq_str(s, "Bond Interest") {
            CashTransactionType::BondInterest
        } else if chars_eq_str(s, "Payment In Lieu Of Dividends") {
            CashTransactionType::PaymentInLieuOfDividends
        } else if chars_eq_str(s, "Other Fees") {
            CashTransactionType::OtherFees
        } else if chars_eq_str(s, "Commission Adjustments") {
            CashTransactionType::CommissionAdjustments
        } else if chars_eq_str(s, "Advisor Fees") {
            CashTransactionType::AdvisorFees
        } else if chars_eq_str(s, "Cash Receipts") {
            CashTransactionType::CashReceipts
        } else if chars_eq_str(s, "Fees") {
            CashTransactionType::Fees
        } else {
            CashTransactionType::Unknown
        }
    }
}

/// Corporate action reorganization type.
#[derive(Debug, Clone, Copy, PartialEq, Eq, Hash, Structural)]
pub enum CorporateActionType {
    /// Stock split
    StockSplit,
    /// Forward split, issue leg
    ForwardSplitIssue,
    /// Forward split
    ForwardSplit,
    /// Reverse split
    ReverseSplit,
    /// Merger
    Merger,
    /// Spinoff
    Spinoff,
    /// Contract spinoff
    ContractSpinoff,
    /// Stock dividend
    StockDividend,
    /// Cash dividend
    CashDividend,
    /// Choice dividend
    ChoiceDividend,
    /// Choice dividend, delivery leg
    ChoiceDivDelivery,
    /// Choice dividend, issue leg
    ChoiceDivIssue,
    /// Dividend rights issue
    DivRightsIssue,
    /// Expired dividend right
    ExpiredDivRight,
    /// Delisted
    Delisted,
    /// Delisted as worthless
    DelistWorthless,
    /// Name change
    NameChange,
    /// Symbol change
    SymbolChange,
    /// Issue change
    IssueChange,
    /// Bond conversion
    BondConversion,
    /// Bond maturity
    BondMaturity,
    /// T-bill maturity
    TBillMaturity,
    /// Convertible issue
    ConvertibleIssue,
    /// Coupon payment
    CouponPayment,
    /// Contract consolidation
    ContractConsolidation,
    /// Contract split
    ContractSplit,
    /// CFD termination
    CfdTermination,
    /// Fee allocation
    FeeAllocation,
    /// Rights issue
    RightsIssue,
    /// Subscribe rights
    SubscribeRights,
    /// Tender
    Tender,
    /// Tender, issue leg
    TenderIssue,
    /// Proxy vote
    ProxyVote,
    /// Generic voluntary action
    GenericVoluntary,
    /// Asset purchase
    AssetPurchase,
    /// Purchase, issue leg
    PurchaseIssue,
    /// Reserved member for any unrecognized token
    Unknown,
}

impl CorporateActionType {
    /// The member a token denotes; any unrecognized token denotes
    /// `Unknown`.
    pub open spec fn spec_decode(s: Seq<char>) -> CorporateActionType {
        if s == "Stock Split"@ {
            CorporateActionType::StockSplit
        } else if s == "Forward Split (Issue)"@ {
            CorporateActionType::ForwardSplitIssue
        } else if s == "Forward Split"@ {
            CorporateActionType::ForwardSplit
        } else if s == "Reverse Split"@ {
            CorporateActionType::ReverseSplit
        } else if s == "Merger"@ {
            CorporateActionType::Merger
        } else if s == "Spinoff"@ {
            CorporateActionType::Spinoff
        } else if s == "Contract Spinoff"@ {
            CorporateActionType::ContractSpinoff
        } else if s == "Stock Dividend"@ {
            CorporateActionType::StockDividend
        } else if s == "Cash Dividend"@ {
            CorporateActionType::CashDividend
        } else if s == "Choice Dividend"@ {
            CorporateActionType::ChoiceDividend
        } else if s == "Choice Dividend (Delivery)"@ {
            CorporateActionType::ChoiceDivDelivery
        } else if s == "Choice Dividend (Issue)"@ {
            CorporateActionType::ChoiceDivIssue
        } else if s == "Dividend Rights Issue"@ {
            CorporateActionType::DivRightsIssue
        } else if s == "Expired Dividend Right"@ {
            CorporateActionType::ExpiredDivRight
        } else if s == "Delisted"@ {
            CorporateActionType::Delisted
        } else if s == "Delist (Worthless)"@ {
            CorporateActionType::DelistWorthless
        } else if s == "Name Change"@ {
            CorporateActionType::NameChange
        } else if s == "Symbol Change"@ {
            CorporateActionType::SymbolChange
        } else if s == "Issue Change"@ {
            CorporateActionType::IssueChange
        } else if s == "Bond Conversion"@ {
            CorporateActionType::BondConversion
        } else if s == "Bond Maturity"@ {
            CorporateActionType::BondMaturity
        } else if s == "T-Bill Maturity"@ {
            CorporateActionType::TBillMaturity
        } else if s == "Convertible Issue"@ {
            CorporateActionType::ConvertibleIssue
        } else if s == "Coupon Payment"@ {
            CorporateActionType::CouponPayment
        } else if s == "Contract Consolidation"@ {
            CorporateActionType::ContractConsolidation
        } else if s == "Contract Split"@ {
            CorporateActionType::ContractSplit
        } else if s == "CFD Termination"@ {
            CorporateActionType::CfdTermination
        } else if s == "Fee Allocation"@ {
            CorporateActionType::FeeAllocation
        } else if s == "Rights Issue"@ {
            CorporateActionType::RightsIssue
        } else if s == "Subscribe Rights"@ {
            CorporateActionType::SubscribeRights
        } else if s == "Tender"@ {
            CorporateActionType::Tender
        } else if s == "Tender (Issue)"@ {
            CorporateActionType::TenderIssue
        } else if s == "Proxy Vote"@ {
            CorporateActionType::ProxyVote
        } else if s == "Generic Voluntary"@ {
            CorporateActionType::GenericVoluntary
        } else if s == "Asset Purchase"@ {
            CorporateActionType::AssetPurchase
        } else if s == "Purchase (Issue)"@ {
            CorporateActionType::PurchaseIssue
        } else {
            CorporateActionType::Unknown
        }
    }

    /// Decodes a token; total, with `Unknown` as the fallback.
    pub fn decode(s: &Vec<char>) -> (r: CorporateActionType)
        ensures
            r == CorporateActionType::spec_decode(s@),
    {
        if chars_eq_str(s, "Stock Split") {
            CorporateActionType::StockSplit
        } else if chars_eq_str(s, "Forward Split (Issue)") {
            CorporateActionType::ForwardSplitIssue
        } else if chars_eq_str(s, "Forward Split") {
            CorporateActionType::ForwardSplit
        } else if chars_eq_str(s, "Reverse Split") {
            CorporateActionType::ReverseSplit
        } else if chars_eq_str(s, "Merger") {
            CorporateActionType::Merger
        } else if chars_eq_str(s, "Spinoff") {
            CorporateActionType::Spinoff
        } else if chars_eq_str(s, "Contract Spinoff") {
            CorporateActionType::ContractSpinoff
        } else if chars_eq_str(s, "Stock Dividend") {
            CorporateActionType::StockDividend
        } else if chars_eq_str(s, "Cash Dividend") {
            CorporateActionType::CashDividend
        } else if chars_eq_str(s, "Choice Dividend") {
            CorporateActionType::ChoiceDividend
        } else if chars_eq_str(s, "Choice Dividend (Delivery)") {
            CorporateActionType::ChoiceDivDelivery
        } else if chars_eq_str(s, "Choice Dividend (Issue)") {
            CorporateActionType::ChoiceDivIssue
        } else if chars_eq_str(s, "Dividend Rights Issue") {
            CorporateActionType::DivRightsIssue
        } else if chars_eq_str(s, "Expired Dividend Right") {
            CorporateActionType::ExpiredDivRight
        } else if chars_eq_str(s, "Delisted") {
            CorporateActionType::Delisted
        } else if chars_eq_str(s, "Delist (Worthless)") {
            CorporateActionType::DelistWorthless
        } else if chars_eq_str(s, "Name Change") {
            CorporateActionType::NameChange
        } else if chars_eq_str(s, "Symbol Change") {
            CorporateActionType::SymbolChange
        } else if chars_eq_str(s, "Issue Change") {
            CorporateActionType::IssueChange
        } else if chars_eq_str(s, "Bond Conversion") {
            CorporateActionType::BondConversion
        } else if chars_eq_str(s, "Bond Maturity") {
            CorporateActionType::BondMaturity
        } else if chars_eq_str(s, "T-Bill Maturity") {
            CorporateActionType::TBillMaturity
        } else if chars_eq_str(s, "Convertible Issue") {
            CorporateActionType::ConvertibleIssue
        } else if chars_eq_str(s, "Coupon Payment") {
            CorporateActionType::CouponPayment
        } else if chars_eq_str(s, "Contract Consolidation") {
            CorporateActionType::ContractConsolidation
        } else if chars_eq_str(s, "Contract Split") {
            CorporateActionType::ContractSplit
        } else if chars_eq_str(s, "CFD Termination") {
            CorporateActionType::CfdTermination
        } else if chars_eq_str(s, "Fee Allocation") {
            CorporateActionType::FeeAllocation
        } else if chars_eq_str(s, "Rights Issue") {
            CorporateActionType::RightsIssue
        } else if chars_eq_str(s, "Subscribe Rights") {
            CorporateActionType::SubscribeRights
        } else if chars_eq_str(s, "Tender") {
            CorporateActionType::Tender
        } else if chars_eq_str(s, "Tender (Issue)") {
            CorporateActionType::TenderIssue
        } else if chars_eq_str(s, "Proxy Vote") {
            CorporateActionType::ProxyVote
        } else if chars_eq_str(s, "Generic Voluntary") {
            CorporateActionType::GenericVoluntary
        } else if chars_eq_str(s, "Asset Purchase") {
            CorporateActionType::AssetPurchase
        } else if chars_eq_str(s, "Purchase (Issue)") {
            CorporateActionType::PurchaseIssue
        } else {
            CorporateActionType::Unknown
        }
    }
}

/// Option action type.
#[derive(Debug, Clone, Copy, PartialEq, Eq, Hash, Structural)]
pub enum OptionAction {
    /// Assignment
    Assignment,
    /// Exercise
    Exercise,
    /// Expiration
    Expiration,
    /// Expiration, alternate form
    Expire,
    /// Cash settlement
    CashSettlement,
    /// Buy to open or close
    Buy,
    /// Sell to open or close
    Sell,
    /// Reserved member for any unrecognized token
    Unknown,
}

impl OptionAction {
    /// The member a token denotes; any unrecognized token denotes
    /// `Unknown`.
    pub open spec fn spec_decode(s: Seq<char>) -> OptionAction {
        if s == "Assignment"@ {
            OptionAction::Assignment
        } else if s == "Exercise"@ {
            OptionAction::Exercise
        } else if s == "Expiration"@ {
            OptionAction::Expiration
        } else if s == "Expire"@ {
            OptionAction::Expire
        } else if s == "Cash Settlement"@ {
            OptionAction::CashSettlement
        } else if s == "Buy"@ {
            OptionAction::Buy
        } else if s == "Sell"@ {
            OptionAction::Sell
        } else {
            OptionAction::Unknown
        }
    }

    /// Decodes a token; total, with `Unknown` as the fallback.
    pub fn decode(s: &Vec<char>) -> (r: OptionAction)
        ensures
            r == OptionAction::spec_decode(s@),
    {
        if chars_eq_str(s, "Assignment") {
            OptionAction::Assignment
        } else if chars_eq_str(s, "Exercise") {
            OptionAction::Exercise
        } else if chars_eq_str(s, "Expiration") {
            OptionAction::Expiration
        } else if chars_eq_str(s, "Expire") {
            OptionAction::Expire
        } else if chars_eq_str(s, "Cash Settlement") {
            OptionAction::CashSettlement
        } else if chars_eq_str(s, "Buy") {
            OptionAction::Buy
        } else if chars_eq_str(s, "Sell") {
            OptionAction::Sell
        } else {
            OptionAction::Unknown
        }
    }
}

/// Transfer type.
#[derive(Debug, Clone, Copy, PartialEq, Eq, Hash, Structural)]
pub enum TransferType {
    /// ACATS transfer
    ACATS,
    /// ATON transfer
    ATON,
    /// Free of payment
    FOP,
    /// Internal transfer
    INTERNAL,
    /// Delivery versus payment
    DVP,
    /// Direct registration
    DRS,
    /// Reserved member for any unrecognized token
    Unknown,
}

impl TransferType {
    /// The member a token denotes; any unrecognized token denotes
    /// `Unknown`.
    pub open spec fn spec_decode(s: Seq<char>) -> TransferType {
        if s == "ACATS"@ {
            TransferType::ACATS
        } else if s == "ATON"@ {
            TransferType::ATON
        } else if s == "FOP"@ {
            TransferType::FOP
        } else if s == "INTERNAL"@ {
            TransferType::INTERNAL
        } else if s == "DVP"@ {
            TransferType::DVP
        } else if s == "DRS"@ {
            TransferType::DRS
        } else {
            TransferType::Unknown
        }
    }

    /// Decodes a token; total, with `Unknown` as the fallback.
    pub fn decode(s: &Vec<char>) -> (r: TransferType)
        ensures
            r == TransferType::spec_decode(s@),
    {
        if chars_eq_str(s, "ACATS") {
            TransferType::ACATS
        } else if chars_eq_str(s, "ATON") {
            TransferType::ATON
        } else if chars_eq_str(s, "FOP") {
            TransferType::FOP
        } else if chars_eq_str(s, "INTERNAL") {
            TransferType::INTERNAL
        } else if chars_eq_str(s, "DVP") {
            TransferType::DVP
        } else if chars_eq_str(s, "DRS") {
            TransferType::DRS
        } else {
            TransferType::Unknown
        }
    }
}

/// Direction, to or from.
#[derive(Debug, Clone, Copy, PartialEq, Eq, Hash, Structural)]
pub enum ToFrom {
    /// To
    To,
    /// From
    From,
    /// Reserved member for any unrecognized token
    Unknown,
}

impl ToFrom {
    /// The member a token denotes; any unrecognized token denotes
    /// `Unknown`.
    pub open spec fn spec_decode(s: Seq<char>) -> ToFrom {
        if s == "To"@ {
            ToFrom::To
        } else if s == "From"@ {
            ToFrom::From
        } else {
            ToFrom::Unknown
        }
    }

    /// Decodes a token; total, with `Unknown` as the fallback.
    pub fn decode(s: &Vec<char>) -> (r: ToFrom)
        ensures
            r == ToFrom::spec_decode(s@),
    {
        if chars_eq_str(s, "To") {
            ToFrom::To
        } else if chars_eq_str(s, "From") {
            ToFrom::From
        } else {
            ToFrom::Unknown
        }
    }
}

/// Direction, incoming or outgoing.
#[derive(Debug, Clone, Copy, PartialEq, Eq, Hash, Structural)]
pub enum InOut {
    /// Incoming
    IN,
    /// Outgoing
    OUT,
    /// Reserved member for any unrecognized token
    Unknown,
}

impl InOut {
    /// The member a token denotes; any unrecognized token denotes
    /// `Unknown`.
    pub open spec fn spec_decode(s: Seq<char>) -> InOut {
        if s == "IN"@ {
            InOut::IN
        } else if s == "OUT"@ {
            InOut::OUT
        } else {
            InOut::Unknown
        }
    }

    /// Decodes a token; total, with `Unknown` as the fallback.
    pub fn decode(s: &Vec<char>) -> (r: InOut)
        ensures
            r == InOut::spec_decode(s@),
    {
        if chars_eq_str(s, "IN") {
            InOut::IN
        } else if chars_eq_str(s, "OUT") {
            InOut::OUT
        } else {
            InOut::Unknown
        }
    }
}

/// Delivered or received.
#[derive(Debug, Clone, Copy, PartialEq, Eq, Hash, Structural)]
pub enum DeliveredReceived {
    /// Delivered
    Delivered,
    /// Received
    Received,
    /// Reserved member for any unrecognized token
    Unknown,
}

impl DeliveredReceived {
    /// The member a token denotes; any unrecognized token denotes
    /// `Unknown`.
    pub open spec fn spec_decode(s: Seq<char>) -> DeliveredReceived {
        if s == "Delivered"@ {
            DeliveredReceived::Delivered
        } else if s == "Received"@ {
            DeliveredReceived::Received
        } else {
            DeliveredReceived::Unknown
        }
    }

    /// Decodes a token; total, with `Unknown` as the fallback.
    pub fn decode(s: &Vec<char>) -> (r: DeliveredReceived)
        ensures
            r == DeliveredReceived::spec_decode(s@),
    {
        if chars_eq_str(s, "Delivered") {
            DeliveredReceived::Delivered
        } else if chars_eq_str(s, "Received") {
            DeliveredReceived::Received
        } else {
            DeliveredReceived::Unknown
        }
    }
}

/// Granularity of data in a report line.
#[derive(Debug, Clone, Copy, PartialEq, Eq, Hash, Structural)]
pub enum LevelOfDetail {
    /// Summary level
    Summary,
    /// Detail level
    Detail,
    /// Execution level
    Execution,
    /// Tax-lot level
    Lot,
    /// Reserved member for any unrecognized token
    Unknown,
}

impl LevelOfDetail {
    /// The member a token denotes; any unrecognized token denotes
    /// `Unknown`.
    pub open spec fn spec_decode(s: Seq<char>) -> LevelOfDetail {
        if s == "Summary"@ {
            LevelOfDetail::Summary
        } else if s == "Detail"@ {
            LevelOfDetail::Detail
        } else if s == "Execution"@ {
            LevelOfDetail::Execution
        } else if s == "Lot"@ {
            LevelOfDetail::Lot
        } else {
            LevelOfDetail::Unknown
        }
    }

    /// Decodes a token; total, with `Unknown` as the fallback.
    pub fn decode(s: &Vec<char>) -> (r: LevelOfDetail)
        ensures
            r == LevelOfDetail::spec_decode(s@),
    {
        if chars_eq_str(s, "Summary") {
            LevelOfDetail::Summary
        } else if chars_eq_str(s, "Detail") {
            LevelOfDetail::Detail
        } else if chars_eq_str(s, "Execution") {
            LevelOfDetail::Execution
        } else if chars_eq_str(s, "Lot") {
            LevelOfDetail::Lot
        } else {
            LevelOfDetail::Unknown
        }
    }
}

/// Kind of security identifier.
#[derive(Debug, Clone, Copy, PartialEq, Eq, Hash, Structural)]
pub enum SecurityIdType {
    /// CUSIP identifier
    Cusip,
    /// ISIN identifier
    Isin,
    /// FIGI identifier
    Figi,
    /// SEDOL identifier
    Sedol,
    /// Reserved member for any unrecognized token
    Unknown,
}

impl SecurityIdType {
    /// The member a token denotes; any unrecognized token denotes
    /// `Unknown`.
    pub open spec fn spec_decode(s: Seq<char>) -> SecurityIdType {
        if s == "CUSIP"@ {
            SecurityIdType::Cusip
        } else if s == "ISIN"@ {
            SecurityIdType::Isin
        } else if s == "FIGI"@ {
            SecurityIdType::Figi
        } else if s == "SEDOL"@ {
            SecurityIdType::Sedol
        } else {
            SecurityIdType::Unknown
        }
    }

    /// Decodes a token; total, with `Unknown` as the fallback.
    pub fn decode(s: &Vec<char>) -> (r: SecurityIdType)
        ensures
            r == SecurityIdType::spec_decode(s@),
    {
        if chars_eq_str(s, "CUSIP") {
            SecurityIdType::Cusip
        } else if chars_eq_str(s, "ISIN") {
            SecurityIdType::Isin
        } else if chars_eq_str(s, "FIGI") {
            SecurityIdType::Figi
        } else if chars_eq_str(s, "SEDOL") {
            SecurityIdType::Sedol
        } else {
            SecurityIdType::Unknown
        }
    }
}

/// Security sub-category beyond the asset category.
#[derive(Debug, Clone, Copy, PartialEq, Eq, Hash, Structural)]
pub enum SubCategory {
    /// Exchange-traded fund
    Etf,
    /// American depositary receipt
    Adr,
    /// Real estate investment trust
    Reit,
    /// Preferred stock
    Preferred,
    /// Common stock
    Common,
    /// Depositary receipt
    DepositaryReceipt,
    /// Global depositary receipt
    Gdr,
    /// Limited partnership
    LimitedPartnership,
    /// Master limited partnership
    MasterLimitedPartnership,
    /// Subscription right
    Right,
    /// Unit of combined securities
    Unit,
    /// When-issued security
    WhenIssued,
    /// Tracking stock
    Tracking,
    /// Closed-end fund
    ClosedEndFund,
    /// Reserved member for any unrecognized token
    Unknown,
}

impl SubCategory {
    /// The member a token denotes; any unrecognized token denotes
    /// `Unknown`.
    pub open spec fn spec_decode(s: Seq<char>) -> SubCategory {
        if s == "ETF"@ {
            SubCategory::Etf
        } else if s == "ADR"@ {
            SubCategory::Adr
        } else if s == "REIT"@ {
            SubCategory::Reit
        } else if s == "Preferred"@ {
            SubCategory::Preferred
        } else if s == "Common"@ {
            SubCategory::Common
        } else if s == "DR"@ {
            SubCategory::DepositaryReceipt
        } else if s == "GDR"@ {
            SubCategory::Gdr
        } else if s == "LP"@ {
            SubCategory::LimitedPartnership
        } else if s == "MLP"@ {
            SubCategory::MasterLimitedPartnership
        } else if s == "Right"@ {
            SubCategory::Right
        } else if s == "Unit"@ {
            SubCategory::Unit
        } else if s == "WI"@ {
            SubCategory::WhenIssued
        } else if s == "Tracking"@ {
            SubCategory::Tracking
        } else if s == "CEF"@ {
            SubCategory::ClosedEndFund
        } else {
            SubCategory::Unknown
        }
    }

    /// Decodes a token; total, with `Unknown` as the fallback.
    pub fn decode(s: &Vec<char>) -> (r: SubCategory)
        ensures
            r == SubCategory::spec_decode(s@),
    {
        if chars_eq_str(s, "ETF") {
            SubCategory::Etf
        } else if chars_eq_str(s, "ADR") {
            SubCategory::Adr
        } else if chars_eq_str(s, "REIT") {
            SubCategory::Reit
        } else if chars_eq_str(s, "Preferred") {
            SubCategory::Preferred
        } else if chars_eq_str(s, "Common") {
            SubCategory::Common
        } else if chars_eq_str(s, "DR") {
            SubCategory::DepositaryReceipt
        } else if chars_eq_str(s, "GDR") {
            SubCategory::Gdr
        } else if chars_eq_str(s, "LP") {
            SubCategory::LimitedPartnership
        } else if chars_eq_str(s, "MLP") {
            SubCategory::MasterLimitedPartnership
        } else if chars_eq_str(s, "Right") {
            SubCategory::Right
        } else if chars_eq_str(s, "Unit") {
            SubCategory::Unit
        } else if chars_eq_str(s, "WI") {
            SubCategory::WhenIssued
        } else if chars_eq_str(s, "Tracking") {
            SubCategory::Tracking
        } else if chars_eq_str(s, "CEF") {
            SubCategory::ClosedEndFund
        } else {
            SubCategory::Unknown
        }
    }
}

/// Trade classification code; codes combine in `;`-separated note fields.
#[derive(Debug, Clone, Copy, PartialEq, Eq, Hash, Structural)]
pub enum TransactionCode {
    /// Option assignment
    Assignment,
    /// Manual adjustment to cost basis
    Adjustment,
    /// Trade allocation to sub-account
    Allocation,
    /// Automatic exercise before ex-dividend
    AutoExercise,
    /// AutoFX conversion for settlement
    AutoFx,
    /// Trade executed away from the broker
    AwayTrade,
    /// Forced purchase to cover failed delivery
    BuyIn,
    /// Securities borrowing fee
    BorrowFee,
    /// Trade cancelled or busted
    Cancelled,
    /// Closing trade
    Closing,
    /// Cash delivery on exercise
    CashDelivery,
    /// Complex or combination position
    ComplexPosition,
    /// Trade correction
    Correction,
    /// Internal cross
    Crossing,
    /// Dual agent capacity
    DualAgent,
    /// ETF creation or redemption
    Etf,
    /// From an expired position
    Expired,
    /// Option exercise
    Exercise,
    /// Guaranteed account segment
    Guaranteed,
    /// Highest-cost tax lot
    HighestCost,
    /// Hedge fund investment
    HfInvestment,
    /// Hedge fund redemption
    HfRedemption,
    /// Internal transfer
    InternalTransfer,
    /// Affiliate execution
    Affiliate,
    /// Investment from investor
    Investor,
    /// Liquidation due to margin
    MarginLiquidation,
    /// LIFO tax lot
    Lifo,
    /// Securities lending income
    Loan,
    /// Long-term gain or loss
    LongTermGain,
    /// Manual entry
    ManualEntry,
    /// Maximize losses
    MaxLoss,
    /// Minimize long-term gain
    MinLongTermGain,
    /// Maximize short-term gain
    MaxShortTermGain,
    /// Minimize short-term gain
    MinShortTermGain,
    /// Manual exercise
    ManualExercise,
    /// Opening trade
    Opening,
    /// Partial execution
    Partial,
    /// Fractional riskless principal
    FracRiskless,
    /// Fractional principal
    FracPrincipal,
    /// Price improvement
    PriceImprovement,
    /// Accrual posting
    PostAccrual,
    /// Principal execution
    Principal,
    /// Dividend reinvestment
    Reinvestment,
    /// Capital distribution
    Redemption,
    /// Position reopened
    Reopen,
    /// Accrual reversal
    Reverse,
    /// Fee refund
    Reimbursement,
    /// Broker-solicited order
    SolicitedIb,
    /// Specific tax lot
    SpecificLot,
    /// Third-party solicited
    SolicitedOther,
    /// Accelerated settlement
    ShortSettlement,
    /// Short-term gain or loss
    ShortTermGain,
    /// Stock-yield eligible
    StockYield,
    /// Position transfer
    Transfer,
    /// Wash sale, loss disallowed
    WashSale,
    /// Reserved member for any unrecognized token
    Unknown,
}

impl TransactionCode {
    /// The member a token denotes; any unrecognized token denotes
    /// `Unknown`.
    pub open spec fn spec_decode(s: Seq<char>) -> TransactionCode {
        if s == "A"@ {
            TransactionCode::Assignment
        } else if s == "Adj"@ {
            TransactionCode::Adjustment
        } else if s == "Al"@ {
            TransactionCode::Allocation
        } else if s == "Ae"@ {
            TransactionCode::AutoExercise
        } else if s == "Af"@ {
            TransactionCode::AutoFx
        } else if s == "Aw"@ {
            TransactionCode::AwayTrade
        } else if s == "B"@ {
            TransactionCode::BuyIn
        } else if s == "Bo"@ {
            TransactionCode::BorrowFee
        } else if s == "Ca"@ {
            TransactionCode::Cancelled
        } else if s == "C"@ {
            TransactionCode::Closing
        } else if s == "Cd"@ {
            TransactionCode::CashDelivery
        } else if s == "Cp"@ {
            TransactionCode::ComplexPosition
        } else if s == "Cr"@ {
            TransactionCode::Correction
        } else if s == "Cs"@ {
            TransactionCode::Crossing
        } else if s == "D"@ {
            TransactionCode::DualAgent
        } else if s == "Et"@ {
            TransactionCode::Etf
        } else if s == "Ex"@ {
            TransactionCode::Expired
        } else if s == "O"@ {
            TransactionCode::Exercise
        } else if s == "G"@ {
            TransactionCode::Guaranteed
        } else if s == "Hc"@ {
            TransactionCode::HighestCost
        } else if s == "Hi"@ {
            TransactionCode::HfInvestment
        } else if s == "Hr"@ {
            TransactionCode::HfRedemption
        } else if s == "I"@ {
            TransactionCode::InternalTransfer
        } else if s == "Ia"@ {
            TransactionCode::Affiliate
        } else if s == "Iv"@ {
            TransactionCode::Investor
        } else if s == "L"@ {
            TransactionCode::MarginLiquidation
        } else if s == "Li"@ {
            TransactionCode::Lifo
        } else if s == "Ln"@ {
            TransactionCode::Loan
        } else if s == "Lt"@ {
            TransactionCode::LongTermGain
        } else if s == "M"@ {
            TransactionCode::ManualEntry
        } else if s == "Ml"@ {
            TransactionCode::MaxLoss
        } else if s == "Mn"@ {
            TransactionCode::MinLongTermGain
        } else if s == "Ms"@ {
            TransactionCode::MaxShortTermGain
        } else if s == "Mi"@ {
            TransactionCode::MinShortTermGain
        } else if s == "Mx"@ {
            TransactionCode::ManualExercise
        } else if s == "P"@ {
            TransactionCode::Opening
        } else if s == "Pt"@ {
            TransactionCode::Partial
        } else if s == "Fr"@ {
            TransactionCode::FracRiskless
        } else if s == "Fp"@ {
            TransactionCode::FracPrincipal
        } else if s == "Pi"@ {
            TransactionCode::PriceImprovement
        } else if s == "Pa"@ {
            TransactionCode::PostAccrual
        } else if s == "Pr"@ {
            TransactionCode::Principal
        } else if s == "Re"@ {
            TransactionCode::Reinvestment
        } else if s == "Rd"@ {
            TransactionCode::Redemption
        } else if s == "R"@ {
            TransactionCode::Reopen
        } else if s == "Rv"@ {
            TransactionCode::Reverse
        } else if s == "Ri"@ {
            TransactionCode::Reimbursement
        } else if s == "Si"@ {
            TransactionCode::SolicitedIb
        } else if s == "Sp"@ {
            TransactionCode::SpecificLot
        } else if s == "So"@ {
            TransactionCode::SolicitedOther
        } else if s == "Ss"@ {
            TransactionCode::ShortSettlement
        } else if s == "St"@ {
            TransactionCode::ShortTermGain
        } else if s == "Sy"@ {
            TransactionCode::StockYield
        } else if s == "T"@ {
            TransactionCode::Transfer
        } else if s == "W"@ {
            TransactionCode::WashSale
        } else {
            TransactionCode::Unknown
        }
    }

    /// Decodes a token; total, with `Unknown` as the fallback.
    pub fn decode(s: &Vec<char>) -> (r: TransactionCode)
        ensures
            r == TransactionCode::spec_decode(s@),
    {
        if chars_eq_str(s, "A") {
            TransactionCode::Assignment
        } else if chars_eq_str(s, "Adj") {
            TransactionCode::Adjustment
        } else if chars_eq_str(s, "Al") {
            TransactionCode::Allocation
        } else if chars_eq_str(s, "Ae") {
            TransactionCode::AutoExercise
        } else if chars_eq_str(s, "Af") {
            TransactionCode::AutoFx
        } else if chars_eq_str(s, "Aw") {
            TransactionCode::AwayTrade
        } else if chars_eq_str(s, "B") {
            TransactionCode::BuyIn
        } else if chars_eq_str(s, "Bo") {
            TransactionCode::BorrowFee
        } else if chars_eq_str(s, "Ca") {
            TransactionCode::Cancelled
        } else if chars_eq_str(s, "C") {
            TransactionCode::Closing
        } else if chars_eq_str(s, "Cd") {
            TransactionCode::CashDelivery
        } else if chars_eq_str(s, "Cp") {
            TransactionCode::ComplexPosition
        } else if chars_eq_str(s, "Cr") {
            TransactionCode::Correction
        } else if chars_eq_str(s, "Cs") {
            TransactionCode::Crossing
        } else if chars_eq_str(s, "D") {
            TransactionCode::DualAgent
        } else if chars_eq_str(s, "Et") {
            TransactionCode::Etf
        } else if chars_eq_str(s, "Ex") {
            TransactionCode::Expired
        } else if chars_eq_str(s, "O") {
            TransactionCode::Exercise
        } else if chars_eq_str(s, "G") {
            TransactionCode::Guaranteed
        } else if chars_eq_str(s, "Hc") {
            TransactionCode::HighestCost
        } else if chars_eq_str(s, "Hi") {
            TransactionCode::HfInvestment
        } else if chars_eq_str(s, "Hr") {
            TransactionCode::HfRedemption
        } else if chars_eq_str(s, "I") {
            TransactionCode::InternalTransfer
        } else if chars_eq_str(s, "Ia") {
            TransactionCode::Affiliate
        } else if chars_eq_str(s, "Iv") {
            TransactionCode::Investor
        } else if chars_eq_str(s, "L") {
            TransactionCode::MarginLiquidation
        } else if chars_eq_str(s, "Li") {
            TransactionCode::Lifo
        } else if chars_eq_str(s, "Ln") {
            TransactionCode::Loan
        } else if chars_eq_str(s, "Lt") {
            TransactionCode::LongTermGain
        } else if chars_eq_str(s, "M") {
            TransactionCode::ManualEntry
        } else if chars_eq_str(s, "Ml") {
            TransactionCode::MaxLoss
        } else if chars_eq_str(s, "Mn") {
            TransactionCode::MinLongTermGain
        } else if chars_eq_str(s, "Ms") {
            TransactionCode::MaxShortTermGain
        } else if chars_eq_str(s, "Mi") {
            TransactionCode::MinShortTermGain
        } else if chars_eq_str(s, "Mx") {
            TransactionCode::ManualExercise
        } else if chars_eq_str(s, "P") {
            TransactionCode::Opening
        } else if chars_eq_str(s, "Pt") {
            TransactionCode::Partial
        } else if chars_eq_str(s, "Fr") {
            TransactionCode::FracRiskless
        } else if chars_eq_str(s, "Fp") {
            TransactionCode::FracPrincipal
        } else if chars_eq_str(s, "Pi") {
            TransactionCode::PriceImprovement
        } else if chars_eq_str(s, "Pa") {
            TransactionCode::PostAccrual
        } else if chars_eq_str(s, "Pr") {
            TransactionCode::Principal
        } else if chars_eq_str(s, "Re") {
            TransactionCode::Reinvestment
        } else if chars_eq_str(s, "Rd") {
            TransactionCode::Redemption
        } else if chars_eq_str(s, "R") {
            TransactionCode::Reopen
        } else if chars_eq_str(s, "Rv") {
            TransactionCode::Reverse
        } else if chars_eq_str(s, "Ri") {
            TransactionCode::Reimbursement
        } else if chars_eq_str(s, "Si") {
            TransactionCode::SolicitedIb
        } else if chars_eq_str(s, "Sp") {
            TransactionCode::SpecificLot
        } else if chars_eq_str(s, "So") {
            TransactionCode::SolicitedOther
        } else if chars_eq_str(s, "Ss") {
            TransactionCode::ShortSettlement
        } else if chars_eq_str(s, "St") {
            TransactionCode::ShortTermGain
        } else if chars_eq_str(s, "Sy") {
            TransactionCode::StockYield
        } else if chars_eq_str(s, "T") {
            TransactionCode::Transfer
        } else if chars_eq_str(s, "W") {
            TransactionCode::WashSale
        } else {
            TransactionCode::Unknown
        }
    }
}


/// The token a code is written as in a note field.
pub open spec fn token_of(c: TransactionCode) -> Seq<char> {
    match c {
        TransactionCode::Assignment => "A"@,
        TransactionCode::Adjustment => "Adj"@,
        TransactionCode::Allocation => "Al"@,
        TransactionCode::AutoExercise => "Ae"@,
        TransactionCode::AutoFx => "Af"@,
        TransactionCode::AwayTrade => "Aw"@,
        TransactionCode::BuyIn => "B"@,
        TransactionCode::BorrowFee => "Bo"@,
        TransactionCode::Cancelled => "Ca"@,
        TransactionCode::Closing => "C"@,
        TransactionCode::CashDelivery => "Cd"@,
        TransactionCode::ComplexPosition => "Cp"@,
        TransactionCode::Correction => "Cr"@,
        TransactionCode::Crossing => "Cs"@,
        TransactionCode::DualAgent => "D"@,
        TransactionCode::Etf => "Et"@,
        TransactionCode::Expired => "Ex"@,
        TransactionCode::Exercise => "O"@,
        TransactionCode::Guaranteed => "G"@,
        TransactionCode::HighestCost => "Hc"@,
        TransactionCode::HfInvestment => "Hi"@,
        TransactionCode::HfRedemption => "Hr"@,
        TransactionCode::InternalTransfer => "I"@,
        TransactionCode::Affiliate => "Ia"@,
        TransactionCode::Investor => "Iv"@,
        TransactionCode::MarginLiquidation => "L"@,
        TransactionCode::Lifo => "Li"@,
        TransactionCode::Loan => "Ln"@,
        TransactionCode::LongTermGain => "Lt"@,
        TransactionCode::ManualEntry => "M"@,
        TransactionCode::MaxLoss => "Ml"@,
        TransactionCode::MinLongTermGain => "Mn"@,
        TransactionCode::MaxShortTermGain => "Ms"@,
        TransactionCode::MinShortTermGain => "Mi"@,
        TransactionCode::ManualExercise => "Mx"@,
        TransactionCode::Opening => "P"@,
        TransactionCode::Partial => "Pt"@,
        TransactionCode::FracRiskless => "Fr"@,
        TransactionCode::FracPrincipal => "Fp"@,
        TransactionCode::PriceImprovement => "Pi"@,
        TransactionCode::PostAccrual => "Pa"@,
        TransactionCode::Principal => "Pr"@,
        TransactionCode::Reinvestment => "Re"@,
        TransactionCode::Redemption => "Rd"@,
        TransactionCode::Reopen => "R"@,
        TransactionCode::Reverse => "Rv"@,
        TransactionCode::Reimbursement => "Ri"@,
        TransactionCode::SolicitedIb => "Si"@,
        TransactionCode::SpecificLot => "Sp"@,
        TransactionCode::SolicitedOther => "So"@,
        TransactionCode::ShortSettlement => "Ss"@,
        TransactionCode::ShortTermGain => "St"@,
        TransactionCode::StockYield => "Sy"@,
        TransactionCode::Transfer => "T"@,
        TransactionCode::WashSale => "W"@,
        TransactionCode::Unknown => "Unknown"@,
    }
}

impl TransactionCode {
    /// The token this code is written as.
    pub fn token(&self) -> (r: String)
        ensures
            r@ == token_of(*self),
    {
        match self {
            TransactionCode::Assignment => "A".to_owned(),
            TransactionCode::Adjustment => "Adj".to_owned(),
            TransactionCode::Allocation => "Al".to_owned(),
            TransactionCode::AutoExercise => "Ae".to_owned(),
            TransactionCode::AutoFx => "Af".to_owned(),
            TransactionCode::AwayTrade => "Aw".to_owned(),
            TransactionCode::BuyIn => "B".to_owned(),
            TransactionCode::BorrowFee => "Bo".to_owned(),
            TransactionCode::Cancelled => "Ca".to_owned(),
            TransactionCode::Closing => "C".to_owned(),
            TransactionCode::CashDelivery => "Cd".to_owned(),
            TransactionCode::ComplexPosition => "Cp".to_owned(),
            TransactionCode::Correction => "Cr".to_owned(),
            TransactionCode::Crossing => "Cs".to_owned(),
            TransactionCode::DualAgent => "D".to_owned(),
            TransactionCode::Etf => "Et".to_owned(),
            TransactionCode::Expired => "Ex".to_owned(),
            TransactionCode::Exercise => "O".to_owned(),
            TransactionCode::Guaranteed => "G".to_owned(),
            TransactionCode::HighestCost => "Hc".to_owned(),
            TransactionCode::HfInvestment => "Hi".to_owned(),
            TransactionCode::HfRedemption => "Hr".to_owned(),
            TransactionCode::InternalTransfer => "I".to_owned(),
            TransactionCode::Affiliate => "Ia".to_owned(),
            TransactionCode::Investor => "Iv".to_owned(),
            TransactionCode::MarginLiquidation => "L".to_owned(),
            TransactionCode::Lifo => "Li".to_owned(),
            TransactionCode::Loan => "Ln".to_owned(),
            TransactionCode::LongTermGain => "Lt".to_owned(),
            TransactionCode::ManualEntry => "M".to_owned(),
            TransactionCode::MaxLoss => "Ml".to_owned(),
            TransactionCode::MinLongTermGain => "Mn".to_owned(),
            TransactionCode::MaxShortTermGain => "Ms".to_owned(),
            TransactionCode::MinShortTermGain => "Mi".to_owned(),
            TransactionCode::ManualExercise => "Mx".to_owned(),
            TransactionCode::Opening => "P".to_owned(),
            TransactionCode::Partial => "Pt".to_owned(),
            TransactionCode::FracRiskless => "Fr".to_owned(),
            TransactionCode::FracPrincipal => "Fp".to_owned(),
            TransactionCode::PriceImprovement => "Pi".to_owned(),
            TransactionCode::PostAccrual => "Pa".to_owned(),
            TransactionCode::Principal => "Pr".to_owned(),
            TransactionCode::Reinvestment => "Re".to_owned(),
            TransactionCode::Redemption => "Rd".to_owned(),
            TransactionCode::Reopen => "R".to_owned(),
            TransactionCode::Reverse => "Rv".to_owned(),
            TransactionCode::Reimbursement => "Ri".to_owned(),
            TransactionCode::SolicitedIb => "Si".to_owned(),
            TransactionCode::SpecificLot => "Sp".to_owned(),
            TransactionCode::SolicitedOther => "So".to_owned(),
            TransactionCode::ShortSettlement => "Ss".to_owned(),
            TransactionCode::ShortTermGain => "St".to_owned(),
            TransactionCode::StockYield => "Sy".to_owned(),
            TransactionCode::Transfer => "T".to_owned(),
            TransactionCode::WashSale => "W".to_owned(),
            TransactionCode::Unknown => "Unknown".to_owned(),
        }
    }
}

/// The text of a code list: the tokens joined by `;`.
pub open spec fn codes_text(cs: Seq<TransactionCode>) -> Seq<char>
    decreases cs.len(),
{
    if cs.len() == 0 {
        Seq::empty()
    } else if cs.len() == 1 {
        token_of(cs[0])
    } else {
        codes_text(cs.drop_last()) + seq![';'] + token_of(cs.last())
    }
}

/// Writes a note field back as a `;`-separated token list; "no value"
/// becomes the empty text.
pub fn serialize_transaction_codes(codes: &Option<Vec<TransactionCode>>) -> (r: String)
    ensures
        match codes {
            None => r@ == Seq::<char>::empty(),
            Some(v) => r@ == codes_text(v@),
        },
{
    let v = match codes {
        None => {
            let empty: Vec<char> = Vec::new();
            proof {
                assert(empty@ =~= Seq::<char>::empty());
            }
            return crate::chars::string_from_chars(&empty);
        },
        Some(v) => v,
    };
    let mut out: Vec<char> = Vec::new();
    let n = v.len();
    let mut i: usize = 0;
    while i < n
        invariant
            n == v.len(),
            i <= n,
            out@ == codes_text(v@.take(i as int)),
        decreases n - i,
    {
        proof {
            assert(v@.take(i + 1).drop_last() =~= v@.take(i as int));
            assert(v@.take(i + 1).last() == v@[i as int]);
        }
        if i > 0 {
            out.push(';');
        }
        let t = v[i].token();
        let mut tc = crate::chars::chars_of_str(t.as_str());
        out.append(&mut tc);
        proof {
            if i == 0 {
                assert(out@ =~= codes_text(v@.take(1)));
            } else {
                assert(out@ =~= codes_text(v@.take(i + 1)));
            }
        }
        i += 1;
    }
    proof {
        assert(v@.take(n as int) =~= v@);
    }
    crate::chars::string_from_chars(&out)
}

} // verus!