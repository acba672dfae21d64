//! XML documents as `roxmltree` reads them, and the error shape every
//! GlobalProtect endpoint shares.
//!
//! A parsed document is kept as the list of its nodes in document order, each
//! with its depth, so that "descendants" and "children" are ranges of that
//! list.
use vstd::prelude::*;

use crate::error::{Error, ErrorView};
use crate::text::{chars_of, has_prefix, same, starts_with, string_of, trim, trim_chars, trimmed};

verus! {

/// One node of a parsed document.
pub struct XmlNode {
    /// How many nodes lie on the path from the document root to this node,
    /// itself included: 1 for the root, 2 for the root element.
    pub depth: usize,
    pub element: bool,
    /// The local tag name of an element; empty for other nodes.
    pub name: String,
    /// `roxmltree`'s `Node::text`: an element's leading text child, or a text
    /// node's own text.
    pub text: Option<String>,
    /// Local names and values, in document order.
    pub attributes: Vec<(String, String)>,
}

/// An `XmlNode` as plain values.
pub struct XmlNodeView {
    pub depth: nat,
    pub element: bool,
    pub name: Seq<char>,
    pub text: Option<Seq<char>>,
    pub attributes: Seq<(Seq<char>, Seq<char>)>,
}

impl View for XmlNode {
    type V = XmlNodeView;

    open spec fn view(&self) -> XmlNodeView {
        XmlNodeView {
            depth: self.depth as nat,
            element: self.element,
            name: self.name@,
            text: match self.text {
                Some(t) => Some(t@),
                None => None,
            },
            attributes: self.attributes@.map_values(|a: (String, String)| (a.0@, a.1@)),
        }
    }
}

/// A parsed document: its nodes in document order, the document root first.
pub struct Document {
    pub nodes: Vec<XmlNode>,
}

impl View for Document {
    type V = Seq<XmlNodeView>;

    open spec fn view(&self) -> Seq<XmlNodeView> {
        self.nodes@.map_values(|n: XmlNode| n@)
    }
}

/// What `roxmltree::Document::parse` makes of a text: its nodes in document
/// order, or the parser's error message.
pub uninterp spec fn xml_document(body: Seq<char>) -> Result<Seq<XmlNodeView>, Seq<char>>;

/// Calls `roxmltree::Document::parse` and lists `descendants()` of the
/// document, converting each node one for one; on failure, the error's
/// message. The contract names the result: parsing depends on the text alone.
#[verifier::external_body]
fn parse_document(body: &str) -> (r: Result<Document, String>)
    ensures
        match r {
            Ok(d) => xml_document(body@) == Ok::<Seq<XmlNodeView>, Seq<char>>(d@),
            Err(m) => xml_document(body@) == Err::<Seq<XmlNodeView>, Seq<char>>(m@),
        },
{
    match roxmltree::Document::parse(body) {
        Ok(document) => Ok(Document {
            nodes: document.descendants().map(|node| XmlNode {
                depth: node.ancestors().count(),
                element: node.is_element(),
                name: node.tag_name().name().to_string(),
                text: node.text().map(|text| text.to_string()),
                attributes: node.attributes().map(|a| (a.name().to_string(), a.value().to_string())).collect(),
            }).collect(),
        }),
        Err(error) => Err(error.to_string()),
    }
}

/// A parse failure is reported as a `Parse` error with the parser's message.
pub open spec fn parsed(body: Seq<char>) -> Result<Seq<XmlNodeView>, ErrorView> {
    match xml_document(body) {
        Ok(d) => Ok(d),
        Err(m) => Err(ErrorView::Parse(m)),
    }
}

/// Parses a reply body.
pub fn parse(body: &str) -> (r: Result<Document, Error>)
    ensures
        match r {
            Ok(d) => parsed(body@) == Ok::<Seq<XmlNodeView>, ErrorView>(d@),
            Err(e) => parsed(body@) == Err::<Seq<XmlNodeView>, ErrorView>(e@),
        },
{
    match parse_document(body) {
        Ok(d) => Ok(d),
        Err(m) => Err(Error::Parse(m)),
    }
}

/// The first node in `from..to` that satisfies `p`.
pub open spec fn first_where(
    n: Seq<XmlNodeView>,
    from: int,
    to: int,
    p: spec_fn(XmlNodeView) -> bool,
) -> Option<int>
    decreases to - from,
{
    if from >= to || from < 0 || from >= n.len() {
        None
    } else if p(n[from]) {
        Some(from)
    } else {
        first_where(n, from + 1, to, p)
    }
}

/// A result of `first_where` lies in range, satisfies `p`, and nothing before
/// it does.
pub proof fn lemma_first_where(n: Seq<XmlNodeView>, from: int, to: int, p: spec_fn(XmlNodeView) -> bool)
    requires
        0 <= from,
        to <= n.len(),
    ensures
        first_where(n, from, to, p) matches Some(j) ==> from <= j < to && p(n[j]) && forall|k: int|
            from <= k < j ==> !p(#[trigger] n[k]),
        first_where(n, from, to, p) is None ==> forall|k: int| from <= k < to ==> !p(#[trigger] n[k]),
    decreases to - from,
{
    if from < to && !p(n[from]) {
        lemma_first_where(n, from + 1, to, p);
    }
}

/// The end of the subtree of node `i`, searching from `j`: the first later
/// node no deeper than `i`, or the end of the document.
pub open spec fn end_from(n: Seq<XmlNodeView>, i: int, j: int) -> int
    decreases n.len() - j,
{
    if j >= n.len() || j < 0 || n[j].depth <= n[i].depth {
        j
    } else {
        end_from(n, i, j + 1)
    }
}

/// Node `i` and its descendants occupy `i..subtree_end(n, i)`.
pub open spec fn subtree_end(n: Seq<XmlNodeView>, i: int) -> int {
    end_from(n, i, i + 1)
}

/// An element with this tag name.
pub open spec fn tagged(tag: Seq<char>) -> spec_fn(XmlNodeView) -> bool {
    |x: XmlNodeView| x.element && x.name == tag
}

/// A direct child of a node at depth `d` with this tag name.
pub open spec fn child_tagged(d: nat, tag: Seq<char>) -> spec_fn(XmlNodeView) -> bool {
    |x: XmlNodeView| x.element && x.name == tag && x.depth == d + 1
}

/// The root element: the element directly below the document root.
pub open spec fn root_of(n: Seq<XmlNodeView>) -> Option<int> {
    first_where(n, 0, n.len() as int, root_pred())
}

/// An element directly below the document root.
pub open spec fn root_pred() -> spec_fn(XmlNodeView) -> bool {
    |x: XmlNodeView| x.element && x.depth == 2
}

/// `xml::find`: node `i`, or its first descendant, with this tag name.
pub open spec fn find_of(n: Seq<XmlNodeView>, i: int, tag: Seq<char>) -> Option<int> {
    first_where(n, i, subtree_end(n, i), tagged(tag))
}

/// A node's text trimmed, unless nothing is left.
pub open spec fn node_text(x: XmlNodeView) -> Option<Seq<char>> {
    match x.text {
        Some(t) => if trim(t).len() > 0 {
            Some(trim(t))
        } else {
            None
        },
        None => None,
    }
}

/// `xml::text`: the text of the first of node `i` and its descendants with this
/// tag name.
pub open spec fn text_of(n: Seq<XmlNodeView>, i: int, tag: Seq<char>) -> Option<Seq<char>> {
    match find_of(n, i, tag) {
        Some(j) => node_text(n[j]),
        None => None,
    }
}

/// `xml::child_text`: the text of the first direct child of node `i` with this
/// tag name.
pub open spec fn child_text_of(n: Seq<XmlNodeView>, i: int, tag: Seq<char>) -> Option<Seq<char>> {
    match first_where(n, i + 1, subtree_end(n, i), child_tagged(n[i].depth, tag)) {
        Some(j) => node_text(n[j]),
        None => None,
    }
}

/// The first attribute with this name.
pub open spec fn attribute_in(a: Seq<(Seq<char>, Seq<char>)>, name: Seq<char>) -> Option<Seq<char>>
    decreases a.len(),
{
    if a.len() == 0 {
        None
    } else if a[0].0 == name {
        Some(a[0].1)
    } else {
        attribute_in(a.drop_first(), name)
    }
}

/// Whether node `i` is an element with this tag name.
pub open spec fn is_tagged(n: Seq<XmlNodeView>, i: int, tag: Seq<char>) -> bool {
    0 <= i < n.len() && n[i].element && n[i].name == tag
}

impl Document {
    /// The root element, the one element directly below the document root.
    pub fn root_element(&self) -> (r: Option<usize>)
        ensures
            match r {
                Some(i) => root_of(self@) == Some(i as int) && i < self@.len(),
                None => root_of(self@) is None,
            },
    {
        let ghost n = self@;
        let mut j: usize = 0;
        while j < self.nodes.len()
            invariant
                n == self@,
                j <= n.len(),
                first_where(n, 0, n.len() as int, root_pred()) == first_where(
                    n,
                    j as int,
                    n.len() as int,
                    root_pred(),
                ),
            decreases n.len() - j,
        {
            assert(n[j as int] == self.nodes@[j as int]@);
            if self.nodes[j].element && self.nodes[j].depth == 2 {
                return Some(j);
            }
            j = j + 1;
        }
        None
    }

    /// Where the subtree of node `i` ends.
    pub fn subtree_end(&self, i: usize) -> (r: usize)
        requires
            i < self@.len(),
        ensures
            r as int == subtree_end(self@, i as int),
            i < r <= self@.len(),
    {
        let ghost n = self@;
        let len = self.nodes.len();
        let mut j: usize = i + 1;
        while j < len && self.nodes[j].depth > self.nodes[i].depth
            invariant
                len == self.nodes@.len(),
                n == self@,
                i < j <= n.len(),
                i < n.len(),
                subtree_end(n, i as int) == end_from(n, i as int, j as int),
            decreases n.len() - j,
        {
            j = j + 1;
        }
        j
    }

    /// Whether node `j` is an element with this tag name.
    pub fn has_tag_name(&self, j: usize, tag: &[char]) -> (r: bool)
        requires
            j < self@.len(),
        ensures
            r == is_tagged(self@, j as int, tag@),
    {
        self.nodes[j].element && same(&chars_of(self.nodes[j].name.as_str()), tag)
    }

    /// The first node in `from..to` that is an element with this tag name and,
    /// when `depth` is given, lies at that depth.
    fn first_tagged(&self, from: usize, to: usize, tag: &[char], depth: Option<usize>) -> (r: Option<
        usize,
    >)
        requires
            from <= to <= self@.len(),
        ensures
            ({
                let p = match depth {
                    Some(d) => child_tagged((d - 1) as nat, tag@),
                    None => tagged(tag@),
                };
                &&& depth matches Some(d) ==> d >= 1
                    ==> first_where(self@, from as int, to as int, p) == match r {
                    Some(j) => Some(j as int),
                    None => None::<int>,
                }
                &&& depth is None ==> first_where(self@, from as int, to as int, p) == match r {
                    Some(j) => Some(j as int),
                    None => None::<int>,
                }
            }),
            r matches Some(j) ==> from <= j < to,
    {
        let ghost n = self@;
        let mut j: usize = from;
        while j < to
            invariant
                n == self@,
                from <= j <= to <= n.len(),
                depth matches Some(d) ==> d >= 1 ==> first_where(
                    n,
                    from as int,
                    to as int,
                    child_tagged((d - 1) as nat, tag@),
                ) == first_where(n, j as int, to as int, child_tagged((d - 1) as nat, tag@)),
                depth is None ==> first_where(n, from as int, to as int, tagged(tag@)) == first_where(
                    n,
                    j as int,
                    to as int,
                    tagged(tag@),
                ),
            decreases to - j,
        {
            let depth_ok = match depth {
                Some(d) => self.nodes[j].depth == d,
                None => true,
            };
            if depth_ok && self.has_tag_name(j, tag) {
                return Some(j);
            }
            j = j + 1;
        }
        None
    }

    /// `xml::find`: node `i`, or its first descendant, with this tag name.
    pub fn find(&self, i: usize, tag: &str) -> (r: Option<usize>)
        requires
            i < self@.len(),
        ensures
            match r {
                Some(j) => find_of(self@, i as int, tag@) == Some(j as int) && j < self@.len(),
                None => find_of(self@, i as int, tag@) is None,
            },
    {
        let end = self.subtree_end(i);
        self.first_tagged(i, end, &chars_of(tag), None)
    }

    /// A node's text trimmed, unless nothing is left.
    fn node_text(&self, j: usize) -> (r: Option<String>)
        requires
            j < self@.len(),
        ensures
            match r {
                Some(t) => node_text(self@[j as int]) == Some(t@),
                None => node_text(self@[j as int]) is None,
            },
    {
        match &self.nodes[j].text {
            Some(t) => {
                let v = trimmed(t.as_str());
                if v.len() > 0 {
                    Some(string_of(&v))
                } else {
                    None
                }
            },
            None => None,
        }
    }

    /// Text of the first of node `i` and its descendants with this tag name.
    pub fn text(&self, i: usize, tag: &str) -> (r: Option<String>)
        requires
            i < self@.len(),
        ensures
            match r {
                Some(t) => text_of(self@, i as int, tag@) == Some(t@),
                None => text_of(self@, i as int, tag@) is None,
            },
    {
        match self.find(i, tag) {
            Some(j) => self.node_text(j),
            None => None,
        }
    }

    /// Direct-child variant, for documents that repeat a tag at several depths.
    pub fn child_text(&self, i: usize, tag: &str) -> (r: Option<String>)
        requires
            i < self@.len(),
        ensures
            match r {
                Some(t) => child_text_of(self@, i as int, tag@) == Some(t@),
                None => child_text_of(self@, i as int, tag@) is None,
            },
    {
        let end = self.subtree_end(i);
        let d = self.nodes[i].depth;
        if d == usize::MAX {
            assert(first_where(self@, i + 1, end as int, child_tagged(self@[i as int].depth, tag@))
                is None) by {
                lemma_first_where(self@, i + 1, end as int, child_tagged(self@[i as int].depth, tag@));
            }
            return None;
        }
        match self.first_tagged(i + 1, end, &chars_of(tag), Some(d + 1)) {
            Some(j) => self.node_text(j),
            None => None,
        }
    }

    /// The first attribute of node `j` with this name.
    pub fn attribute(&self, j: usize, name: &str) -> (r: Option<String>)
        requires
            j < self@.len(),
        ensures
            match r {
                Some(v) => attribute_in(self@[j as int].attributes, name@) == Some(v@),
                None => attribute_in(self@[j as int].attributes, name@) is None,
            },
    {
        let attributes = &self.nodes[j].attributes;
        let ghost a = self@[j as int].attributes;
        let key = chars_of(name);
        let mut k: usize = 0;
        assert(a.skip(0) == a);
        while k < attributes.len()
            invariant
                j < self@.len(),
                a == self@[j as int].attributes,
                attributes == &self.nodes@[j as int].attributes,
                a == attributes@.map_values(|x: (String, String)| (x.0@, x.1@)),
                key@ == name@,
                k <= a.len(),
                attribute_in(a, name@) == attribute_in(a.skip(k as int), name@),
            decreases a.len() - k,
        {
            assert(a.skip(k as int)[0] == a[k as int]);
            assert(a[k as int] == (attributes@[k as int].0@, attributes@[k as int].1@));
            if same(&chars_of(attributes[k].0.as_str()), &key) {
                return Some(attributes[k].1.clone());
            }
            assert(a.skip(k as int).drop_first() == a.skip(k + 1));
            k = k + 1;
        }
        None
    }
}

/// The reply GlobalProtect sends in a 200 to say a request failed, given what
/// the parser made of the trimmed body.
pub open spec fn document_error(n: Seq<XmlNodeView>) -> Option<ErrorView> {
    match root_of(n) {
        None => None,
        Some(root) => if is_tagged(n, root, "response"@) && attribute_in(n[root].attributes, "status"@)
            == Some("error"@) {
            Some(
                ErrorView::Auth(
                    match text_of(n, root, "error"@) {
                        Some(m) => m,
                        None => "the server rejected the request"@,
                    },
                ),
            )
        } else {
            match text_of(n, root, "msg"@) {
                Some(m) if is_tagged(n, root, "error"@) => Some(ErrorView::Auth(m)),
                _ => None,
            }
        },
    }
}

/// The failure a reply body reports, if any.
pub open spec fn body_error(body: Seq<char>) -> Option<ErrorView> {
    let t = trim(body);
    if t.len() == 0 {
        Some(ErrorView::Parse("the server sent an empty response"@))
    } else if t[0] != '<' {
        Some(ErrorView::Auth(t))
    } else {
        match xml_document(t) {
            Err(_) => None,
            Ok(n) => document_error(n),
        }
    }
}

/// `Result<(), Error>` as plain values.
pub open spec fn unit_view(r: Result<(), Error>) -> Option<ErrorView> {
    match r {
        Ok(()) => None,
        Err(e) => Some(e@),
    }
}

/// The failure a parsed document reports, if any.
pub fn document_check(doc: &Document) -> (r: Result<(), Error>)
    ensures
        unit_view(r) == document_error(doc@),
{
    let root = match doc.root_element() {
        Some(root) => root,
        None => {
            return Ok(());
        },
    };
    if doc.has_tag_name(root, &chars_of("response")) {
        match doc.attribute(root, "status") {
            Some(status) => {
                if same(&chars_of(status.as_str()), &chars_of("error")) {
                    let message = match doc.text(root, "error") {
                        Some(m) => m,
                        None => String::from_str("the server rejected the request"),
                    };
                    return Err(Error::Auth(message));
                }
            },
            None => {},
        }
    }
    match doc.text(root, "msg") {
        Some(m) => {
            if doc.has_tag_name(root, &chars_of("error")) {
                return Err(Error::Auth(m));
            }
        },
        None => {},
    }
    Ok(())
}

/// GlobalProtect signals failure inside a 200 response as often as it does with
/// an HTTP status, so every parsed body goes through this first.
pub fn check_for_error(body: &str) -> (r: Result<(), Error>)
    ensures
        unit_view(r) == body_error(body@),
{
    let t = trimmed(body);
    if t.len() == 0 {
        return Err(Error::Parse(String::from_str("the server sent an empty response")));
    }
    if t[0] != '<' {
        return Err(Error::Auth(string_of(&t)));
    }
    let text = string_of(&t);
    match parse_document(text.as_str()) {
        Ok(doc) => document_check(&doc),
        Err(_) => Ok(()),
    }
}

/// An empty body is a parse failure, and a body that is not markup is the
/// server's own words of refusal.
pub proof fn law_bare_replies(body: Seq<char>)
    ensures
        trim(body).len() == 0 ==> body_error(body) == Some(ErrorView::Parse("the server sent an empty response"@)),
        trim(body).len() > 0 && trim(body)[0] != '<' ==> body_error(body) == Some(
            ErrorView::Auth(trim(body)),
        ),
{
}

/// What a parsed reply whose root element is node `r` reports:
/// - an `<error>` root carrying a `<msg>` is a refusal with that message;
/// - a `<response status="error">` root is a refusal with its `<error>` text,
///   or a generic one;
/// - any other root reports nothing, and the reply is read as an answer.
pub proof fn law_reported_failures(n: Seq<XmlNodeView>, r: int)
    requires
        root_of(n) == Some(r),
    ensures
        n[r].element && n[r].name == "error"@ && text_of(n, r, "msg"@) is Some ==> document_error(n)
            == Some(ErrorView::Auth(text_of(n, r, "msg"@)->0)),
        n[r].element && n[r].name == "response"@ && attribute_in(n[r].attributes, "status"@) == Some(
            "error"@,
        ) ==> document_error(n) == Some(
            ErrorView::Auth(
                match text_of(n, r, "error"@) {
                    Some(m) => m,
                    None => "the server rejected the request"@,
                },
            ),
        ),
        !(n[r].element && n[r].name == "error"@) && !(n[r].element && n[r].name == "response"@
            && attribute_in(n[r].attributes, "status"@) == Some("error"@)) ==> document_error(n)
            is None,
{
    lemma_first_where(n, 0, n.len() as int, root_pred());
    reveal_strlit("error");
    reveal_strlit("response");
    assert("error"@ != "response"@) by {
        assert("error"@.len() != "response"@.len());
    }
}

/// A reply body that is markup is read as its parsed document says: an
/// `<error><msg>` reply is a refusal with that message.
pub proof fn law_error_reply(body: Seq<char>, n: Seq<XmlNodeView>, r: int)
    requires
        trim(body).len() > 0,
        trim(body)[0] == '<',
        xml_document(trim(body)) == Ok::<Seq<XmlNodeView>, Seq<char>>(n),
        root_of(n) == Some(r),
        n[r].element,
        n[r].name == "error"@,
        text_of(n, r, "msg"@) is Some,
    ensures
        body_error(body) == Some(ErrorView::Auth(text_of(n, r, "msg"@)->0)),
{
    law_reported_failures(n, r);
}

} // verus!
