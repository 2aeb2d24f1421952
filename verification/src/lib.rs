//! Parser for Interactive Brokers FLEX XML statements.
//!
//! A FLEX statement is an attribute-heavy XML export: every record is an
//! empty element whose data lives entirely in attributes.  This crate turns
//! such a document into a strongly typed, validated record set.  The whole
//! pipeline is verified: the XML grammar, the primitive decoders (dates,
//! decimals, booleans, code lists), the closed code tables, the record
//! decoders, the trade-section classifier and the statement assembler all
//! carry contracts that pin their results down.

use vstd::prelude::*;

pub mod api;
pub mod chars;
pub mod codes;
pub mod date;
pub mod decimal;
pub mod error;
pub mod extended;
pub mod records;
pub mod statement;
pub mod version;
pub mod xml;

pub use crate::codes::{AssetCategory, BuySell, OpenClose, OrderType, PutCall};
pub use crate::error::ParseError;
pub use crate::records::{CashTransaction, CorporateAction, Position, Trade};
pub use crate::statement::{ActivityFlexStatement, TradeConfirmationStatement};

verus! {

/// FLEX statement type
#[derive(Debug, Clone, Copy, PartialEq, Eq, Structural)]
pub enum StatementType {
    /// Activity FLEX statement (daily end-of-day export)
    Activity,
    /// Trade Confirmation FLEX statement (real-time)
    TradeConfirmation,
}


/// The first statement element of a response root, in document order.
pub open spec fn first_statement_of(root: crate::xml::XElem) -> crate::xml::XElem {
    crate::statement::named_in(
        crate::statement::child_named(root.children, "FlexStatements"@)->0.children,
        "FlexStatement"@,
    )[0]
}

/// Parses a day-end activity FLEX document and returns its first
/// statement.
///
/// The whole text is decoded in one call: malformed XML, a missing
/// mandatory attribute or element, or a present value that fails its
/// primitive decoder all fail the call, and no partial statement is
/// returned.
pub fn parse_activity_flex(xml: &str) -> (r: crate::error::Result<
    crate::statement::ActivityFlexStatement,
>)
    ensures
        match crate::xml::spec_document(xml@) {
            None => r is Err,
            Some(root) => {
                if crate::statement::response_wf(root) {
                    r is Ok && crate::statement::statement_obeys(
                        first_statement_of(root),
                        r->Ok_0,
                    )
                } else {
                    r is Err
                }
            },
        },
{
    let cs = crate::chars::chars_of_str(xml);
    let doc = match crate::xml::parse_document(&cs) {
        Ok(d) => d,
        Err(er) => {
            return Err(er);
        },
    };
    let resp = match crate::statement::decode_response(&doc) {
        Ok(v) => v,
        Err(er) => {
            return Err(er);
        },
    };
    let mut statements = resp.statements.statements;
    let st = statements.remove(0);
    Ok(st)
}

/// Parses a day-end activity FLEX document and returns the whole
/// response, with every wrapped per-day statement in document order.
pub fn parse_activity_flex_response(xml: &str) -> (r: crate::error::Result<
    crate::statement::FlexQueryResponse,
>)
    ensures
        match crate::xml::spec_document(xml@) {
            None => r is Err,
            Some(root) => {
                if crate::statement::response_wf(root) {
                    r is Ok && crate::statement::response_obeys(root, r->Ok_0)
                } else {
                    r is Err
                }
            },
        },
{
    let cs = crate::chars::chars_of_str(xml);
    let doc = match crate::xml::parse_document(&cs) {
        Ok(d) => d,
        Err(er) => {
            return Err(er);
        },
    };
    crate::statement::decode_response(&doc)
}

/// Parses a real-time trade-confirmation FLEX document.
pub fn parse_trade_confirmation(xml: &str) -> (r: crate::error::Result<
    crate::statement::TradeConfirmationStatement,
>)
    ensures
        match crate::xml::spec_document(xml@) {
            None => r is Err,
            Some(root) => {
                if crate::statement::trade_confirmation_wf(root) {
                    r is Ok && crate::statement::trade_confirmation_obeys(root, r->Ok_0)
                } else {
                    r is Err
                }
            },
        },
{
    let cs = crate::chars::chars_of_str(xml);
    let doc = match crate::xml::parse_document(&cs) {
        Ok(d) => d,
        Err(er) => {
            return Err(er);
        },
    };
    crate::statement::decode_trade_confirmation(&doc)
}

/// Detects the FLEX statement shape of a text from its root element name.
pub fn detect_statement_type(xml: &str) -> (r: crate::error::Result<StatementType>)
    ensures
        match crate::version::spec_detect_type(xml@) {
            Some(t) => r is Ok && r->Ok_0 == t,
            None => r is Err,
        },
{
    crate::version::detect_statement_type(xml)
}

} // verus!
