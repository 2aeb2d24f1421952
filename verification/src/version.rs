//! Schema-version and statement-shape detection.
//!
//! The root dispatcher inspects the first significant element name after
//! any XML prolog: the day-end activity shape starts with a query-response
//! wrapper or a bare statement element, the real-time shape with a
//! trade-confirmation element.  Any other root is a decode error.

use vstd::prelude::*;
use crate::chars::{check_prefix_at, chars_of_str, find_from, first_occurrence, occurs_from,
    starts_with_at, sub_vec};
use crate::error::ParseError;
use crate::xml::{text_end, ws_end};
use crate::StatementType;

verus! {

/// FLEX schema versions this crate recognizes.
#[derive(Debug, Clone, Copy, PartialEq, Eq, Structural)]
pub enum FlexSchemaVersion {
    /// Schema version 3, the current one.
    V3,
    /// Unknown or unspecified version, treated as version 3.
    Unknown,
}

/// Position after any run of `<?xml` prolog markers starting at `i`.
pub open spec fn decls_end(s: Seq<char>, i: int) -> int
    decreases s.len() - i when 0 <= i <= s.len()
{
    if starts_with_at(s, "<?xml"@, i) && "<?xml"@.len() == 5 {
        decls_end(s, i + 5)
    } else {
        i
    }
}

/// The position where the root element's `<` is looked for: leading
/// whitespace, then any `<?xml` markers, then whitespace, then everything
/// up to the first `<`.
pub open spec fn root_probe(s: Seq<char>) -> int {
    text_end(s, ws_end(s, decls_end(s, ws_end(s, 0))))
}

/// The statement shape a text announces, judged by its root element name.
pub open spec fn spec_detect_type(s: Seq<char>) -> Option<StatementType> {
    let i = root_probe(s);
    if starts_with_at(s, "<FlexQueryResponse"@, i) {
        Some(StatementType::Activity)
    } else if starts_with_at(s, "<TradeConfirmationStatement"@, i) {
        Some(StatementType::TradeConfirmation)
    } else if starts_with_at(s, "<FlexStatement"@, i) {
        Some(StatementType::Activity)
    } else {
        None
    }
}

/// Scans past whitespace.
fn ws_scan_v(s: &Vec<char>, i: usize) -> (r: usize)
    requires
        i <= s@.len(),
    ensures
        r == ws_end(s@, i as int),
        i <= r <= s@.len(),
{
    let mut j = i;
    while j < s.len() && (s[j] == ' ' || s[j] == '\t' || s[j] == '\n' || s[j] == '\r')
        invariant
            i <= j <= s@.len(),
            forall|k: int| i <= k < j ==> crate::xml::is_ws(#[trigger] s@[k]),
        decreases s@.len() - j,
    {
        j += 1;
    }
    proof {
        crate::xml::lemma_ws_end_is(s@, i as int, j as int);
    }
    j
}

/// Detects the statement shape of a FLEX text.
///
/// An unrecognized root element is a decode error; the two accepted
/// activity roots are the query-response wrapper and a bare statement
/// element.
pub fn detect_statement_type(xml: &str) -> (r: Result<StatementType, ParseError>)
    ensures
        match spec_detect_type(xml@) {
            Some(t) => r is Ok && r->Ok_0 == t,
            None => r is Err,
        },
{
    let s = chars_of_str(xml);
    let n = s.len();
    proof {
        reveal_strlit("<?xml");
        reveal_strlit("<FlexQueryResponse");
        reveal_strlit("<TradeConfirmationStatement");
        reveal_strlit("<FlexStatement");
    }
    let decl = chars_of_str("<?xml");
    let mut i = ws_scan_v(&s, 0);
    while check_prefix_at(&s, &decl, i)
        invariant
            i <= s@.len(),
            s@.len() == n,
            decl@ == "<?xml"@,
            "<?xml"@.len() == 5,
            decls_end(s@, ws_end(s@, 0)) == decls_end(s@, i as int),
        decreases s@.len() - i,
    {
        i += 5;
    }
    proof {
        assert(decls_end(s@, i as int) == i);
    }
    let mut j = ws_scan_v(&s, i);
    while j < s.len() && s[j] != '<'
        invariant
            i <= s@.len(),
            ws_end(s@, decls_end(s@, ws_end(s@, 0))) <= j <= s@.len(),
            forall|k: int|
                ws_end(s@, decls_end(s@, ws_end(s@, 0))) <= k < j ==> #[trigger] s@[k] != '<',
        decreases s@.len() - j,
    {
        j += 1;
    }
    proof {
        crate::xml::lemma_text_end_is(s@, ws_end(s@, decls_end(s@, ws_end(s@, 0))), j as int);
        assert(j == root_probe(s@));
    }
    let fqr = chars_of_str("<FlexQueryResponse");
    let tcs = chars_of_str("<TradeConfirmationStatement");
    let fs = chars_of_str("<FlexStatement");
    if check_prefix_at(&s, &fqr, j) {
        Ok(StatementType::Activity)
    } else if check_prefix_at(&s, &tcs, j) {
        Ok(StatementType::TradeConfirmation)
    } else if check_prefix_at(&s, &fs, j) {
        Ok(StatementType::Activity)
    } else {
        Err(
            ParseError::XmlError {
                message: "cannot detect statement type from the root element".to_owned(),
                location: Some(j),
            },
        )
    }
}

/// The schema version a text announces: the text between the first
/// `version="` marker and the next quote, when both exist; texts that name
/// no version are taken as version 3.
pub open spec fn spec_detect_version(s: Seq<char>) -> FlexSchemaVersion {
    if occurs_from(s, "version=\""@, 0) {
        let p = first_occurrence(s, "version=\""@, 0);
        let start = p + 9;
        if occurs_from(s, "\""@, start) {
            let e = first_occurrence(s, "\""@, start);
            if s.subrange(start, e) == "3"@ {
                FlexSchemaVersion::V3
            } else {
                FlexSchemaVersion::Unknown
            }
        } else {
            FlexSchemaVersion::V3
        }
    } else {
        FlexSchemaVersion::V3
    }
}

/// Detects the FLEX schema version named in a text, defaulting to version
/// 3 when none is named.
pub fn detect_version(xml: &str) -> (r: Result<FlexSchemaVersion, ParseError>)
    ensures
        r is Ok && r->Ok_0 == spec_detect_version(xml@),
{
    let s = chars_of_str(xml);
    // The length call bounds every position the checks below compute.
    let n = s.len();
    proof {
        reveal_strlit("version=\"");
        reveal_strlit("\"");
        reveal_strlit("3");
    }
    let marker = chars_of_str("version=\"");
    let quote = chars_of_str("\"");
    match find_from(&s, &marker, 0) {
        None => Ok(FlexSchemaVersion::V3),
        Some(p) => {
            let start = p + 9;
            match find_from(&s, &quote, start) {
                None => Ok(FlexSchemaVersion::V3),
                Some(e) => {
                    let v = sub_vec(&s, start, e);
                    if crate::chars::chars_eq_str(&v, "3") {
                        Ok(FlexSchemaVersion::V3)
                    } else {
                        Ok(FlexSchemaVersion::Unknown)
                    }
                },
            }
        },
    }
}

} // verus!
