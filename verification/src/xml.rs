//! The attribute-XML grammar and its parser.

use vstd::prelude::*;
use crate::error::ParseError;

verus! {

/// One attribute of an element.
pub struct Attr {
    /// Attribute name.
    pub name: String,
    /// Attribute value, with character and entity references resolved.
    pub value: String,
}

/// One element of the document tree.
pub struct Element {
    /// Tag name.
    pub name: String,
    /// Attributes, in document order.
    pub attrs: Vec<Attr>,
    /// Child elements, in document order; text content is discarded.
    pub children: Vec<Element>,
}

/// Mathematical model of an attribute.
pub ghost struct XAttr {
    /// Attribute name.
    pub name: Seq<char>,
    /// Attribute value.
    pub value: Seq<char>,
}

/// Mathematical model of an element.
pub ghost struct XElem {
    /// Tag name.
    pub name: Seq<char>,
    /// Attributes, in document order.
    pub attrs: Seq<XAttr>,
    /// Child elements, in document order.
    pub children: Seq<XElem>,
}

impl View for Attr {
    type V = XAttr;

    open spec fn view(&self) -> XAttr {
        XAttr { name: self.name@, value: self.value@ }
    }
}

/// The model of an element: names and values as character sequences, the
/// tree shape kept.
pub open spec fn elem_view(e: Element) -> XElem
    decreases e,
    via elem_view_decreases
{
    XElem {
        name: e.name@,
        attrs: Seq::new(e.attrs@.len(), |i: int| e.attrs@[i]@),
        children: elems_view(e.children@),
    }
}

/// The models of a sequence of elements, in order.
pub open spec fn elems_view(s: Seq<Element>) -> Seq<XElem>
    decreases s, s.len(),
    via elems_view_decreases
{
    if s.len() == 0 {
        Seq::empty()
    } else {
        seq![elem_view(s[0])] + elems_view(s.drop_first())
    }
}

#[via_fn]
proof fn elem_view_decreases(e: Element) {
    broadcast use vstd::std_specs::vec::group_vec_axioms;

    assert(decreases_to!(e => e.children));
}

#[via_fn]
proof fn elems_view_decreases(s: Seq<Element>) {
    broadcast use vstd::seq::group_seq_axioms;

    if s.len() > 0 {
        vstd::seq::axiom_seq_index_decreases(s, 0);
        vstd::seq::axiom_seq_subrange_decreases(s, 1, s.len() as int);
    }
}

impl View for Element {
    type V = XElem;

    open spec fn view(&self) -> XElem {
        elem_view(*self)
    }
}

/// Length and pointwise shape of `elems_view`.
pub proof fn lemma_elems_view_index(s: Seq<Element>)
    ensures
        elems_view(s).len() == s.len(),
        forall|i: int| 0 <= i < s.len() ==> elems_view(s)[i] == elem_view(#[trigger] s[i]),
    decreases s.len(),
{
    if s.len() > 0 {
        lemma_elems_view_index(s.drop_first());
        assert forall|i: int| 0 <= i < s.len() implies elems_view(s)[i] == elem_view(
            #[trigger] s[i],
        ) by {
            if i > 0 {
                assert(s.drop_first()[i - 1] == s[i]);
                assert(elems_view(s)[i] == elems_view(s.drop_first())[i - 1]);
            }
        }
    }
}



/// Whitespace accepted between tokens.
pub open spec fn is_ws(c: char) -> bool {
    c == ' ' || c == '\t' || c == '\n' || c == '\r'
}

/// Characters that may start a name.
pub open spec fn is_name_start(c: char) -> bool {
    ('a' <= c && c <= 'z') || ('A' <= c && c <= 'Z') || c == '_' || c == ':'
}

/// Characters that may continue a name.
pub open spec fn is_name_char(c: char) -> bool {
    is_name_start(c) || ('0' <= c && c <= '9') || c == '-' || c == '.'
}

/// End of the whitespace run that starts at `i`.
pub open spec fn ws_end(s: Seq<char>, i: int) -> int
    decreases s.len() - i when 0 <= i <= s.len()
{
    if i < s.len() && is_ws(s[i]) {
        ws_end(s, i + 1)
    } else {
        i
    }
}

/// End of the name-character run that starts at `i`.
pub open spec fn name_end(s: Seq<char>, i: int) -> int
    decreases s.len() - i when 0 <= i <= s.len()
{
    if i < s.len() && is_name_char(s[i]) {
        name_end(s, i + 1)
    } else {
        i
    }
}

/// First position at or after `i` that holds `<`, or the end of the text.
pub open spec fn text_end(s: Seq<char>, i: int) -> int
    decreases s.len() - i when 0 <= i <= s.len()
{
    if i < s.len() && s[i] != '<' {
        text_end(s, i + 1)
    } else {
        i
    }
}

/// Bounds of a whitespace run.
pub proof fn lemma_ws_end(s: Seq<char>, i: int)
    requires
        0 <= i <= s.len(),
    ensures
        i <= ws_end(s, i) <= s.len(),
    decreases s.len() - i,
{
    if i < s.len() && is_ws(s[i]) {
        lemma_ws_end(s, i + 1);
    }
}

/// A left-to-right whitespace scan finds `ws_end`.
pub proof fn lemma_ws_end_is(s: Seq<char>, i: int, j: int)
    requires
        0 <= i <= j <= s.len(),
        forall|k: int| i <= k < j ==> is_ws(#[trigger] s[k]),
        j < s.len() ==> !is_ws(s[j]),
    ensures
        ws_end(s, i) == j,
    decreases j - i,
{
    if i < j {
        lemma_ws_end_is(s, i + 1, j);
    }
}

/// Bounds of a name run.
pub proof fn lemma_name_end(s: Seq<char>, i: int)
    requires
        0 <= i <= s.len(),
    ensures
        i <= name_end(s, i) <= s.len(),
    decreases s.len() - i,
{
    if i < s.len() && is_name_char(s[i]) {
        lemma_name_end(s, i + 1);
    }
}

/// A left-to-right name scan finds `name_end`.
pub proof fn lemma_name_end_is(s: Seq<char>, i: int, j: int)
    requires
        0 <= i <= j <= s.len(),
        forall|k: int| i <= k < j ==> is_name_char(#[trigger] s[k]),
        j < s.len() ==> !is_name_char(s[j]),
    ensures
        name_end(s, i) == j,
    decreases j - i,
{
    if i < j {
        lemma_name_end_is(s, i + 1, j);
    }
}

/// Bounds of a text run.
pub proof fn lemma_text_end(s: Seq<char>, i: int)
    requires
        0 <= i <= s.len(),
    ensures
        i <= text_end(s, i) <= s.len(),
    decreases s.len() - i,
{
    if i < s.len() && s[i] != '<' {
        lemma_text_end(s, i + 1);
    }
}

/// A left-to-right text scan finds `text_end`.
pub proof fn lemma_text_end_is(s: Seq<char>, i: int, j: int)
    requires
        0 <= i <= j <= s.len(),
        forall|k: int| i <= k < j ==> #[trigger] s[k] != '<',
        j < s.len() ==> s[j] == '<',
    ensures
        text_end(s, i) == j,
    decreases j - i,
{
    if i < j {
        lemma_text_end_is(s, i + 1, j);
    }
}

/// The entity reference starting at `i` (which holds `&`): the character it
/// denotes and the position after its closing `;`.  Only the five named
/// references of XML are recognized; anything else, a bare ampersand
/// included, is malformed.
pub open spec fn entity_at(s: Seq<char>, i: int) -> Option<(char, int)> {
    if crate::chars::starts_with_at(s, "&amp;"@, i) {
        Some(('&', i + 5))
    } else if crate::chars::starts_with_at(s, "&lt;"@, i) {
        Some(('<', i + 4))
    } else if crate::chars::starts_with_at(s, "&gt;"@, i) {
        Some(('>', i + 4))
    } else if crate::chars::starts_with_at(s, "&quot;"@, i) {
        Some(('"', i + 6))
    } else if crate::chars::starts_with_at(s, "&apos;"@, i) {
        Some(('\'', i + 6))
    } else {
        None
    }
}

/// The attribute value that starts at `i` and runs to the next quote `q`,
/// with entity references resolved: the value's characters and the
/// position after the closing quote.  A `<`, a malformed entity, or the
/// end of the text is malformed.
pub open spec fn spec_attvalue(s: Seq<char>, i: int, q: char, fuel: nat) -> Option<
    (Seq<char>, int),
>
    decreases fuel,
{
    if fuel == 0 {
        None
    } else if !(0 <= i < s.len()) {
        None
    } else if s[i] == q {
        Some((Seq::empty(), i + 1))
    } else if s[i] == '<' {
        None
    } else if s[i] == '&' {
        match entity_at(s, i) {
            None => None,
            Some((c, j)) => match spec_attvalue(s, j, q, (fuel - 1) as nat) {
                None => None,
                Some((rest, k)) => Some((seq![c] + rest, k)),
            },
        }
    } else {
        match spec_attvalue(s, i + 1, q, (fuel - 1) as nat) {
            None => None,
            Some((rest, k)) => Some((seq![s[i]] + rest, k)),
        }
    }
}

/// The attribute list that starts at `i`: leading whitespace, then
/// `name = "value"` groups, stopping before the first non-whitespace
/// character that cannot start a name.  Returns the attributes and the
/// stop position.
pub open spec fn spec_attrs(s: Seq<char>, i: int, fuel: nat) -> Option<(Seq<XAttr>, int)>
    decreases fuel,
{
    if fuel == 0 {
        None
    } else if !(0 <= i <= s.len()) {
        None
    } else {
        let w = ws_end(s, i);
        if w < s.len() && is_name_start(s[w]) {
            let ne = name_end(s, w);
            let name = s.subrange(w, ne);
            let eq = ws_end(s, ne);
            if eq < s.len() && s[eq] == '=' {
                let vq = ws_end(s, eq + 1);
                if vq < s.len() && (s[vq] == '"' || s[vq] == '\'') {
                    match spec_attvalue(s, vq + 1, s[vq], (fuel - 1) as nat) {
                        None => None,
                        Some((value, j)) => match spec_attrs(s, j, (fuel - 1) as nat) {
                            None => None,
                            Some((rest, k)) => Some(
                                (seq![XAttr { name, value }] + rest, k),
                            ),
                        },
                    }
                } else {
                    None
                }
            } else {
                None
            }
        } else {
            Some((Seq::empty(), w))
        }
    }
}

/// The element whose `<` sits just before `i`: tag name, attributes, and
/// either `/>` or `>` children `</` name `>`.  Returns the element and the
/// position after it.
pub open spec fn spec_element(s: Seq<char>, i: int, fuel: nat) -> Option<(XElem, int)>
    decreases fuel,
{
    if fuel == 0 {
        None
    } else if !(0 <= i <= s.len()) {
        None
    } else {
        let ne = name_end(s, i);
        if ne == i {
            None
        } else {
            let name = s.subrange(i, ne);
            match spec_attrs(s, ne, (fuel - 1) as nat) {
                None => None,
                Some((attrs, j)) => {
                    if j < s.len() && s[j] == '/' && j + 1 < s.len() && s[j + 1] == '>' {
                        Some((XElem { name, attrs, children: Seq::empty() }, j + 2))
                    } else if j < s.len() && s[j] == '>' {
                        match spec_content(s, j + 1, name, (fuel - 1) as nat) {
                            None => None,
                            Some((children, k)) => Some((XElem { name, attrs, children }, k)),
                        }
                    } else {
                        None
                    }
                },
            }
        }
    }
}

/// The content of an open element up to and including its matching close
/// tag `</close>`: child elements in order, text runs and comments and
/// processing instructions discarded.  Returns the children and the
/// position after the close tag.
pub open spec fn spec_content(s: Seq<char>, i: int, close: Seq<char>, fuel: nat) -> Option<
    (Seq<XElem>, int),
>
    decreases fuel,
{
    if fuel == 0 {
        None
    } else if !(0 <= i <= s.len()) {
        None
    } else {
        let t = text_end(s, i);
        if t == s.len() {
            // The close tag never came.
            None
        } else if t > i {
            match spec_content(s, t, close, (fuel - 1) as nat) {
                None => None,
                Some(r) => Some(r),
            }
        } else if crate::chars::starts_with_at(s, "</"@, i) {
            let ne = name_end(s, i + 2);
            if s.subrange(i + 2, ne) == close {
                let w = ws_end(s, ne);
                if w < s.len() && s[w] == '>' {
                    Some((Seq::empty(), w + 1))
                } else {
                    None
                }
            } else {
                None
            }
        } else if crate::chars::starts_with_at(s, "<!--"@, i) {
            if crate::chars::occurs_from(s, "-->"@, i + 4) {
                let e = crate::chars::first_occurrence(s, "-->"@, i + 4);
                match spec_content(s, e + 3, close, (fuel - 1) as nat) {
                    None => None,
                    Some(r) => Some(r),
                }
            } else {
                None
            }
        } else if crate::chars::starts_with_at(s, "<?"@, i) {
            if crate::chars::occurs_from(s, "?>"@, i + 2) {
                let e = crate::chars::first_occurrence(s, "?>"@, i + 2);
                match spec_content(s, e + 2, close, (fuel - 1) as nat) {
                    None => None,
                    Some(r) => Some(r),
                }
            } else {
                None
            }
        } else {
            match spec_element(s, i + 1, (fuel - 1) as nat) {
                None => None,
                Some((child, j)) => match spec_content(s, j, close, (fuel - 1) as nat) {
                    None => None,
                    Some((rest, k)) => Some((seq![child] + rest, k)),
                },
            }
        }
    }
}

/// Position of the first markup that is not whitespace, a comment, or a
/// processing instruction, starting at `i`.  An unterminated comment or
/// instruction is malformed.
pub open spec fn spec_skip_misc(s: Seq<char>, i: int, fuel: nat) -> Option<int>
    decreases fuel,
{
    if fuel == 0 {
        None
    } else if !(0 <= i <= s.len()) {
        None
    } else {
        let w = ws_end(s, i);
        if crate::chars::starts_with_at(s, "<!--"@, w) {
            if crate::chars::occurs_from(s, "-->"@, w + 4) {
                spec_skip_misc(s, crate::chars::first_occurrence(s, "-->"@, w + 4) + 3, (fuel
                    - 1) as nat)
            } else {
                None
            }
        } else if crate::chars::starts_with_at(s, "<?"@, w) {
            if crate::chars::occurs_from(s, "?>"@, w + 2) {
                spec_skip_misc(s, crate::chars::first_occurrence(s, "?>"@, w + 2) + 2, (fuel
                    - 1) as nat)
            } else {
                None
            }
        } else {
            Some(w)
        }
    }
}

/// The fuel that suffices for any document of this length: every layer of
/// the grammar advances its position, so the recursion can never nest
/// deeper than the text is long.
pub open spec fn doc_fuel(s: Seq<char>) -> nat {
    s.len() + 2
}

/// The document tree a text denotes: an optional prolog of whitespace,
/// comments and processing instructions, one root element, and nothing but
/// such prolog material after it.
pub open spec fn spec_document(s: Seq<char>) -> Option<XElem> {
    match spec_skip_misc(s, 0, doc_fuel(s)) {
        None => None,
        Some(i) => {
            if i < s.len() && s[i] == '<' {
                match spec_element(s, i + 1, doc_fuel(s)) {
                    None => None,
                    Some((root, j)) => match spec_skip_misc(s, j, doc_fuel(s)) {
                        None => None,
                        Some(k) => if k == s.len() {
                            Some(root)
                        } else {
                            None
                        },
                    },
                }
            } else {
                None
            }
        },
    }
}


/// `elems_view` distributes over cons.
pub proof fn lemma_elems_view_cons(e: Element, s: Seq<Element>)
    ensures
        elems_view(seq![e] + s) == seq![elem_view(e)] + elems_view(s),
{
    let w = seq![e] + s;
    assert(w.len() == s.len() + 1);
    assert(w[0] == e);
    assert(w.drop_first() =~= s);
    assert(elems_view(w) == seq![elem_view(w[0])] + elems_view(w.drop_first()));
}

/// The attribute models of a sequence of attributes, in order.
pub open spec fn attrs_view(s: Seq<Attr>) -> Seq<XAttr> {
    Seq::new(s.len(), |i: int| s[i]@)
}

/// `attrs_view` distributes over cons.
pub proof fn lemma_attrs_view_cons(a: Attr, s: Seq<Attr>)
    ensures
        attrs_view(seq![a] + s) == seq![a@] + attrs_view(s),
{
    assert(attrs_view(seq![a] + s) =~= seq![a@] + attrs_view(s));
}

/// A new whitespace-test on a character.
fn ws(c: char) -> (r: bool)
    ensures
        r == is_ws(c),
{
    c == ' ' || c == '\t' || c == '\n' || c == '\r'
}

/// Name-start test on a character.
fn name_start(c: char) -> (r: bool)
    ensures
        r == is_name_start(c),
{
    ('a' <= c && c <= 'z') || ('A' <= c && c <= 'Z') || c == '_' || c == ':'
}

/// Name-character test.
fn name_char(c: char) -> (r: bool)
    ensures
        r == is_name_char(c),
{
    name_start(c) || ('0' <= c && c <= '9') || c == '-' || c == '.'
}

/// Scans past whitespace.
fn ws_scan(s: &Vec<char>, i: usize) -> (r: usize)
    requires
        i <= s@.len(),
    ensures
        r == ws_end(s@, i as int),
        i <= r <= s@.len(),
{
    let mut j = i;
    while j < s.len() && ws(s[j])
        invariant
            i <= j <= s@.len(),
            forall|k: int| i <= k < j ==> is_ws(#[trigger] s@[k]),
        decreases s@.len() - j,
    {
        j += 1;
    }
    proof {
        lemma_ws_end_is(s@, i as int, j as int);
    }
    j
}

/// Scans past name characters.
fn name_scan(s: &Vec<char>, i: usize) -> (r: usize)
    requires
        i <= s@.len(),
    ensures
        r == name_end(s@, i as int),
        i <= r <= s@.len(),
{
    let mut j = i;
    while j < s.len() && name_char(s[j])
        invariant
            i <= j <= s@.len(),
            forall|k: int| i <= k < j ==> is_name_char(#[trigger] s@[k]),
        decreases s@.len() - j,
    {
        j += 1;
    }
    proof {
        lemma_name_end_is(s@, i as int, j as int);
    }
    j
}

/// Scans past text to the next `<`.
fn text_scan(s: &Vec<char>, i: usize) -> (r: usize)
    requires
        i <= s@.len(),
    ensures
        r == text_end(s@, i as int),
        i <= r <= s@.len(),
{
    let mut j = i;
    while j < s.len() && s[j] != '<'
        invariant
            i <= j <= s@.len(),
            forall|k: int| i <= k < j ==> #[trigger] s@[k] != '<',
        decreases s@.len() - j,
    {
        j += 1;
    }
    proof {
        lemma_text_end_is(s@, i as int, j as int);
    }
    j
}

/// Builds a grammar error at a position.
fn xml_err(msg: &str, loc: usize) -> (r: ParseError)
    ensures
        r is XmlError,
{
    ParseError::XmlError { message: msg.to_owned(), location: Some(loc) }
}

/// Matches an entity reference at `i`.
fn p_entity(s: &Vec<char>, i: usize) -> (r: Option<(char, usize)>)
    requires
        i <= s@.len(),
    ensures
        match entity_at(s@, i as int) {
            Some(p) => r == Some((p.0, p.1 as usize)) && i < p.1 <= s@.len(),
            None => r is None,
        },
{
    // The length call bounds every position the checks below compute.
    let n = s.len();
    proof {
        reveal_strlit("&amp;");
        reveal_strlit("&lt;");
        reveal_strlit("&gt;");
        reveal_strlit("&quot;");
        reveal_strlit("&apos;");
    }
    let amp = crate::chars::chars_of_str("&amp;");
    let lt = crate::chars::chars_of_str("&lt;");
    let gt = crate::chars::chars_of_str("&gt;");
    let quot = crate::chars::chars_of_str("&quot;");
    let apos = crate::chars::chars_of_str("&apos;");
    proof {
        assert(amp@.len() == 5);
        assert(lt@.len() == 4);
        assert(gt@.len() == 4);
        assert(quot@.len() == 6);
        assert(apos@.len() == 6);
    }
    if crate::chars::check_prefix_at(s, &amp, i) {
        Some(('&', i + 5))
    } else if crate::chars::check_prefix_at(s, &lt, i) {
        Some(('<', i + 4))
    } else if crate::chars::check_prefix_at(s, &gt, i) {
        Some(('>', i + 4))
    } else if crate::chars::check_prefix_at(s, &quot, i) {
        Some(('"', i + 6))
    } else if crate::chars::check_prefix_at(s, &apos, i) {
        Some(('\'', i + 6))
    } else {
        None
    }
}

/// Parses an attribute value up to the closing quote `q`.
fn p_attvalue(s: &Vec<char>, i: usize, q: char, fuel: u128) -> (r: Result<
    (Vec<char>, usize),
    ParseError,
>)
    requires
        i <= s@.len(),
    ensures
        match spec_attvalue(s@, i as int, q, fuel as nat) {
            Some(p) => {
                &&& r is Ok
                &&& r->Ok_0.0@ == p.0
                &&& r->Ok_0.1 == p.1
                &&& i < p.1 <= s@.len()
            },
            None => r is Err && r->Err_0 is XmlError,
        },
    decreases fuel,
{
    if fuel == 0 {
        return Err(xml_err("attribute value nested too deeply", i));
    }
    if i >= s.len() {
        return Err(xml_err("unterminated attribute value", i));
    }
    let c = s[i];
    if c == q {
        let empty: Vec<char> = Vec::new();
        proof {
            assert(empty@ =~= Seq::<char>::empty());
        }
        return Ok((empty, i + 1));
    }
    if c == '<' {
        return Err(xml_err("'<' inside an attribute value", i));
    }
    if c == '&' {
        match p_entity(s, i) {
            None => Err(xml_err("malformed entity reference", i)),
            Some((ec, j)) => {
                match p_attvalue(s, j, q, fuel - 1) {
                    Err(e) => Err(e),
                    Ok((mut rest, k)) => {
                        rest.insert(0, ec);
                        proof {
                            let sp = spec_attvalue(s@, i as int, q, fuel as nat);
                            assert(rest@ =~= seq![ec] + (spec_attvalue(
                                s@,
                                j as int,
                                q,
                                (fuel - 1) as nat,
                            )->0).0);
                        }
                        Ok((rest, k))
                    },
                }
            },
        }
    } else {
        match p_attvalue(s, i + 1, q, fuel - 1) {
            Err(e) => Err(e),
            Ok((mut rest, k)) => {
                rest.insert(0, c);
                proof {
                    assert(rest@ =~= seq![c] + (spec_attvalue(
                        s@,
                        i + 1 as int,
                        q,
                        (fuel - 1) as nat,
                    )->0).0);
                }
                Ok((rest, k))
            },
        }
    }
}

/// Parses the attribute list that starts at `i`.
fn p_attrs(s: &Vec<char>, i: usize, fuel: u128) -> (r: Result<(Vec<Attr>, usize), ParseError>)
    requires
        i <= s@.len(),
    ensures
        match spec_attrs(s@, i as int, fuel as nat) {
            Some(p) => {
                &&& r is Ok
                &&& attrs_view(r->Ok_0.0@) == p.0
                &&& r->Ok_0.1 == p.1
                &&& i <= p.1 <= s@.len()
            },
            None => r is Err && r->Err_0 is XmlError,
        },
    decreases fuel,
{
    if fuel == 0 {
        return Err(xml_err("attribute list nested too deeply", i));
    }
    let w = ws_scan(s, i);
    if w < s.len() && name_start(s[w]) {
        let ne = name_scan(s, w);
        let name_chars = crate::chars::sub_vec(s, w, ne);
        let eq = ws_scan(s, ne);
        if eq < s.len() && s[eq] == '=' {
            let vq = ws_scan(s, eq + 1);
            if vq < s.len() && (s[vq] == '"' || s[vq] == '\'') {
                match p_attvalue(s, vq + 1, s[vq], fuel - 1) {
                    Err(e) => Err(e),
                    Ok((value_chars, j)) => {
                        match p_attrs(s, j, fuel - 1) {
                            Err(e) => Err(e),
                            Ok((mut rest, k)) => {
                                let a = Attr {
                                    name: crate::chars::string_from_chars(&name_chars),
                                    value: crate::chars::string_from_chars(&value_chars),
                                };
                                proof {
                                    let sp = spec_attrs(s@, i as int, fuel as nat);
                                    let ga = XAttr {
                                        name: s@.subrange(w as int, ne as int),
                                        value: (spec_attvalue(
                                            s@,
                                            vq + 1 as int,
                                            s@[vq as int],
                                            (fuel - 1) as nat,
                                        )->0).0,
                                    };
                                    assert(a@ == ga);
                                    lemma_attrs_view_cons(a, rest@);
                                    assert(rest@.insert(0, a) =~= seq![a] + rest@);
                                }
                                rest.insert(0, a);
                                Ok((rest, k))
                            },
                        }
                    },
                }
            } else {
                Err(xml_err("expected a quoted attribute value", vq))
            }
        } else {
            Err(xml_err("expected '=' after an attribute name", eq))
        }
    } else {
        let empty: Vec<Attr> = Vec::new();
        proof {
            assert(attrs_view(empty@) =~= Seq::<XAttr>::empty());
        }
        Ok((empty, w))
    }
}

/// Parses the element whose `<` sits just before `i`.
fn p_element(s: &Vec<char>, i: usize, fuel: u128) -> (r: Result<(Element, usize), ParseError>)
    requires
        i <= s@.len(),
    ensures
        match spec_element(s@, i as int, fuel as nat) {
            Some(p) => {
                &&& r is Ok
                &&& elem_view(r->Ok_0.0) == p.0
                &&& r->Ok_0.1 == p.1
                &&& i <= p.1 <= s@.len()
            },
            None => r is Err && r->Err_0 is XmlError,
        },
    decreases fuel, 1int,
{
    if fuel == 0 {
        return Err(xml_err("markup nested too deeply", i));
    }
    let ne = name_scan(s, i);
    if ne == i {
        return Err(xml_err("expected an element name", i));
    }
    let name_chars = crate::chars::sub_vec(s, i, ne);
    match p_attrs(s, ne, fuel - 1) {
        Err(e) => Err(e),
        Ok((attrs, j)) => {
            if j < s.len() && s[j] == '/' && j + 1 < s.len() && s[j + 1] == '>' {
                let e = Element {
                    name: crate::chars::string_from_chars(&name_chars),
                    attrs,
                    children: Vec::new(),
                };
                proof {
                    let sp = spec_element(s@, i as int, fuel as nat);
                    assert(elems_view(e.children@) =~= Seq::<XElem>::empty());
                    assert(elem_view(e) == (sp->0).0);
                }
                Ok((e, j + 2))
            } else if j < s.len() && s[j] == '>' {
                match p_content(s, j + 1, &name_chars, fuel - 1) {
                    Err(e) => Err(e),
                    Ok((children, k)) => {
                        let e = Element {
                            name: crate::chars::string_from_chars(&name_chars),
                            attrs,
                            children,
                        };
                        proof {
                            let sp = spec_element(s@, i as int, fuel as nat);
                            assert(elem_view(e) == (sp->0).0);
                        }
                        Ok((e, k))
                    },
                }
            } else {
                Err(xml_err("expected '>' or '/>' after the attributes", j))
            }
        },
    }
}

/// Parses element content up to and including the close tag.
fn p_content(s: &Vec<char>, i: usize, close: &Vec<char>, fuel: u128) -> (r: Result<
    (Vec<Element>, usize),
    ParseError,
>)
    requires
        i <= s@.len(),
    ensures
        match spec_content(s@, i as int, close@, fuel as nat) {
            Some(p) => {
                &&& r is Ok
                &&& elems_view(r->Ok_0.0@) == p.0
                &&& r->Ok_0.1 == p.1
                &&& i <= p.1 <= s@.len()
            },
            None => r is Err && r->Err_0 is XmlError,
        },
    decreases fuel, 0int,
{
    if fuel == 0 {
        return Err(xml_err("content nested too deeply", i));
    }
    let t = text_scan(s, i);
    if t == s.len() {
        return Err(xml_err("missing close tag", i));
    }
    if t > i {
        return p_content(s, t, close, fuel - 1);
    }
    // s[i] == '<'
    proof {
        reveal_strlit("</");
        reveal_strlit("<!--");
        reveal_strlit("-->");
        reveal_strlit("<?");
        reveal_strlit("?>");
    }
    let lt_slash = crate::chars::chars_of_str("</");
    let comment_open = crate::chars::chars_of_str("<!--");
    let comment_close = crate::chars::chars_of_str("-->");
    let pi_open = crate::chars::chars_of_str("<?");
    let pi_close = crate::chars::chars_of_str("?>");
    if crate::chars::check_prefix_at(s, &lt_slash, i) {
        let ne = name_scan(s, i + 2);
        let cname = crate::chars::sub_vec(s, i + 2, ne);
        if crate::chars::chars_eq(&cname, close) {
            let w = ws_scan(s, ne);
            if w < s.len() && s[w] == '>' {
                let empty: Vec<Element> = Vec::new();
                proof {
                    assert(elems_view(empty@) =~= Seq::<XElem>::empty());
                }
                Ok((empty, w + 1))
            } else {
                Err(xml_err("malformed close tag", w))
            }
        } else {
            Err(xml_err("mismatched close tag", i))
        }
    } else if crate::chars::check_prefix_at(s, &comment_open, i) {
        match crate::chars::find_from(s, &comment_close, i + 4) {
            None => Err(xml_err("unterminated comment", i)),
            Some(e) => p_content(s, e + 3, close, fuel - 1),
        }
    } else if crate::chars::check_prefix_at(s, &pi_open, i) {
        match crate::chars::find_from(s, &pi_close, i + 2) {
            None => Err(xml_err("unterminated processing instruction", i)),
            Some(e) => p_content(s, e + 2, close, fuel - 1),
        }
    } else {
        match p_element(s, i + 1, fuel - 1) {
            Err(e) => Err(e),
            Ok((child, j)) => {
                match p_content(s, j, close, fuel - 1) {
                    Err(e) => Err(e),
                    Ok((mut rest, k)) => {
                        proof {
                            lemma_elems_view_cons(child, rest@);
                            assert(rest@.insert(0, child) =~= seq![child] + rest@);
                        }
                        rest.insert(0, child);
                        Ok((rest, k))
                    },
                }
            },
        }
    }
}

/// Scans past whitespace, comments and processing instructions.
fn p_skip_misc(s: &Vec<char>, i: usize, fuel: u128) -> (r: Result<usize, ParseError>)
    requires
        i <= s@.len(),
    ensures
        match spec_skip_misc(s@, i as int, fuel as nat) {
            Some(p) => r is Ok && r->Ok_0 == p && i <= p <= s@.len(),
            None => r is Err && r->Err_0 is XmlError,
        },
    decreases fuel,
{
    if fuel == 0 {
        return Err(xml_err("prolog nested too deeply", i));
    }
    // The length call bounds every position the checks below compute.
    let n = s.len();
    let w = ws_scan(s, i);
    proof {
        reveal_strlit("<!--");
        reveal_strlit("-->");
        reveal_strlit("<?");
        reveal_strlit("?>");
    }
    let comment_open = crate::chars::chars_of_str("<!--");
    let comment_close = crate::chars::chars_of_str("-->");
    let pi_open = crate::chars::chars_of_str("<?");
    let pi_close = crate::chars::chars_of_str("?>");
    proof {
        assert(comment_open@.len() == 4);
        assert(comment_close@.len() == 3);
        assert(pi_open@.len() == 2);
        assert(pi_close@.len() == 2);
    }
    if crate::chars::check_prefix_at(s, &comment_open, w) {
        match crate::chars::find_from(s, &comment_close, w + 4) {
            None => Err(xml_err("unterminated comment", w)),
            Some(e) => p_skip_misc(s, e + 3, fuel - 1),
        }
    } else if crate::chars::check_prefix_at(s, &pi_open, w) {
        match crate::chars::find_from(s, &pi_close, w + 2) {
            None => Err(xml_err("unterminated processing instruction", w)),
            Some(e) => p_skip_misc(s, e + 2, fuel - 1),
        }
    } else {
        Ok(w)
    }
}

/// Parses a whole document: optional prolog, one root element, optional
/// trailing whitespace, comments and instructions, nothing else.
pub fn parse_document(s: &Vec<char>) -> (r: Result<Element, ParseError>)
    ensures
        match spec_document(s@) {
            Some(x) => r is Ok && elem_view(r->Ok_0) == x,
            None => r is Err && r->Err_0 is XmlError,
        },
{
    let fuel: u128 = (s.len() as u128) + 2;
    proof {
        assert(fuel as nat == doc_fuel(s@));
    }
    let i = match p_skip_misc(s, 0, fuel) {
        Err(e) => {
            return Err(e);
        },
        Ok(i) => i,
    };
    if !(i < s.len() && s[i] == '<') {
        return Err(xml_err("expected a root element", i));
    }
    match p_element(s, i + 1, fuel) {
        Err(e) => Err(e),
        Ok((root, j)) => {
            match p_skip_misc(s, j, fuel) {
                Err(e) => Err(e),
                Ok(k) => {
                    if k == s.len() {
                        Ok(root)
                    } else {
                        Err(xml_err("content after the root element", k))
                    }
                },
            }
        },
    }
}

} // verus!
