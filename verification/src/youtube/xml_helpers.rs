//! A plain model of a parsed XML document and the lookups the feed reader makes in it.
//!
//! The document is held as the list of the nodes below (and including) the root
//! element, in document order.  Every node records how many nodes its subtree spans
//! in that list, itself included, so the descendants of node `i` are the nodes
//! `i .. i + subtree_len`.
use vstd::prelude::*;

use crate::youtube::{YouTubeError, YouTubeErrorView, YouTubeResult};

verus! {

/// One node of a parsed document.
#[derive(Debug, Clone, PartialEq, Eq)]
pub struct XmlNode {
    /// Whether the node is an element (and not text, a comment, ...).
    pub is_element: bool,
    /// The local name of the element (no namespace prefix).
    pub name: String,
    /// The text of the node: for an element, that of its first child when that child is text.
    pub text: Option<String>,
    /// The attributes of the element, as (local name, value), in document order.
    pub attributes: Vec<(String, String)>,
    /// The number of nodes in the subtree of this node, the node itself included.
    pub subtree_len: usize,
}

/// The mathematical view of an [`XmlNode`].
pub struct XmlNodeView {
    pub is_element: bool,
    pub name: Seq<char>,
    pub text: Option<Seq<char>>,
    pub attributes: Seq<(Seq<char>, Seq<char>)>,
    pub subtree_len: nat,
}

pub open spec fn option_string_view(o: Option<String>) -> Option<Seq<char>> {
    match o {
        Some(s) => Some(s@),
        None => None,
    }
}

pub open spec fn attribute_pair_view(a: (String, String)) -> (Seq<char>, Seq<char>) {
    (a.0@, a.1@)
}

impl View for XmlNode {
    type V = XmlNodeView;

    open spec fn view(&self) -> XmlNodeView {
        XmlNodeView {
            is_element: self.is_element,
            name: self.name@,
            text: option_string_view(self.text),
            attributes: self.attributes@.map_values(|a: (String, String)| attribute_pair_view(a)),
            subtree_len: self.subtree_len as nat,
        }
    }
}

pub open spec fn node_views(nodes: Seq<XmlNode>) -> Seq<XmlNodeView> {
    nodes.map_values(|n: XmlNode| n@)
}

/// A parsed document: the root element and all its descendants, in document order.
#[derive(Debug, Clone, PartialEq, Eq)]
pub struct XmlDocument {
    pub nodes: Vec<XmlNode>,
}

impl View for XmlDocument {
    type V = Seq<XmlNodeView>;

    open spec fn view(&self) -> Seq<XmlNodeView> {
        node_views(self.nodes@)
    }
}

/// What the XML parser makes of `text`: the nodes it reads, in the form described by
/// [`XmlDocument`], or, when `text` is not well-formed XML, the text of its error.
pub uninterp spec fn xml_document(text: Seq<char>) -> Result<Seq<XmlNodeView>, Seq<char>>;

/// Calls `roxmltree::Document::parse` and lists the root element and its descendants
/// (`Node::descendants`, the contiguous run of nodes from the node itself to the end of
/// its subtree, in document order), each converted one for one; a parse error is
/// rendered with its `Display`.  Trusted: the outcome equals `xml_document(text)`, and
/// the list is never empty, since `descendants` starts with the root element itself.
#[verifier::external_body]
fn parse_xml_nodes(text: &str) -> (res: Result<Vec<XmlNode>, String>)
    ensures
        match res {
            Ok(nodes) => xml_document(text@) == Ok::<Seq<XmlNodeView>, Seq<char>>(
                node_views(nodes@),
            ) && nodes@.len() > 0,
            Err(m) => xml_document(text@) == Err::<Seq<XmlNodeView>, Seq<char>>(m@),
        },
{
    match roxmltree::Document::parse(text) {
        Ok(doc) => Ok(doc.root_element().descendants().map(|n| XmlNode {
            is_element: n.is_element(),
            name: n.tag_name().name().into(),
            text: n.text().map(String::from),
            attributes: n.attributes().map(|a| (a.name().into(), a.value().into())).collect(),
            subtree_len: n.descendants().count(),
        }).collect()),
        Err(e) => Err(e.to_string()),
    }
}

impl XmlDocument {
    /// Parses `text` as XML.  A document that is not well-formed gives a
    /// [`YouTubeError::SyntaxError`] that carries the parser's message.
    pub fn parse(text: &str) -> (res: YouTubeResult<XmlDocument>)
        ensures
            match res {
                Ok(doc) => xml_document(text@) == Ok::<Seq<XmlNodeView>, Seq<char>>(doc@)
                    && doc@.len() > 0,
                Err(e) => xml_document(text@) matches Err(m) && e@ == YouTubeErrorView::SyntaxError(m),
            },
    {
        match parse_xml_nodes(text) {
            Ok(nodes) => Ok(XmlDocument { nodes }),
            Err(m) => Err(YouTubeError::SyntaxError(m)),
        }
    }
}

/// The index one past the last node of the subtree of node `i` (clamped to the list).
pub open spec fn subtree_end(nodes: Seq<XmlNodeView>, i: int) -> int {
    if i + nodes[i].subtree_len <= nodes.len() {
        i + nodes[i].subtree_len
    } else {
        nodes.len() as int
    }
}

/// Whether `n` is an element with local name `name`.
pub open spec fn has_tag_name(n: XmlNodeView, name: Seq<char>) -> bool {
    n.is_element && n.name == name
}

/// The first index in `lo .. hi` whose node is an element named `name`.
pub open spec fn first_match(nodes: Seq<XmlNodeView>, lo: int, hi: int, name: Seq<char>) -> Option<int>
    decreases hi - lo,
{
    if lo >= hi {
        None
    } else if has_tag_name(nodes[lo], name) {
        Some(lo)
    } else {
        first_match(nodes, lo + 1, hi, name)
    }
}

/// All indices in `lo .. hi` whose node is an element named `name`, in order.
pub open spec fn all_matches(nodes: Seq<XmlNodeView>, lo: int, hi: int, name: Seq<char>) -> Seq<int>
    decreases hi - lo,
{
    if hi <= lo {
        seq![]
    } else {
        all_matches(nodes, lo, hi - 1, name) + if has_tag_name(nodes[hi - 1], name) {
            seq![hi - 1]
        } else {
            seq![]
        }
    }
}

/// The first descendant of `node` (the node itself included) named `name`.
pub open spec fn child_by_name(nodes: Seq<XmlNodeView>, node: int, name: Seq<char>) -> Option<int> {
    first_match(nodes, node, subtree_end(nodes, node), name)
}

/// All descendants of `node` (the node itself included) named `name`, in document order.
pub open spec fn children_by_name(nodes: Seq<XmlNodeView>, node: int, name: Seq<char>) -> Seq<int> {
    all_matches(nodes, node, subtree_end(nodes, node), name)
}

pub open spec fn missing_tag_error(name: Seq<char>) -> YouTubeErrorView {
    YouTubeErrorView::ParserError("missing tag "@ + name)
}

pub open spec fn missing_content_error() -> YouTubeErrorView {
    YouTubeErrorView::ParserError("missing tag content for {name}"@)
}

/// The text of the first descendant of `node` named `name`.
pub open spec fn child_text_by_name(nodes: Seq<XmlNodeView>, node: int, name: Seq<char>) -> Result<
    Seq<char>,
    YouTubeErrorView,
> {
    match child_by_name(nodes, node, name) {
        None => Err(missing_tag_error(name)),
        Some(j) => match nodes[j].text {
            Some(t) => Ok(t),
            None => Err(missing_content_error()),
        },
    }
}

/// The value of the first attribute whose local name is `key`.
pub open spec fn attribute_value(attrs: Seq<(Seq<char>, Seq<char>)>, key: Seq<char>) -> Option<Seq<char>>
    decreases attrs.len(),
{
    if attrs.len() == 0 {
        None
    } else if attrs[0].0 == key {
        Some(attrs[0].1)
    } else {
        attribute_value(attrs.drop_first(), key)
    }
}

proof fn lemma_first_match_extend(nodes: Seq<XmlNodeView>, lo: int, hi: int, name: Seq<char>)
    requires
        lo < hi,
    ensures
        first_match(nodes, lo, hi, name) == match first_match(nodes, lo, hi - 1, name) {
            Some(j) => Some(j),
            None => if has_tag_name(nodes[hi - 1], name) {
                Some(hi - 1)
            } else {
                None
            },
        },
    decreases hi - lo,
{
    if lo < hi - 1 {
        lemma_first_match_extend(nodes, lo + 1, hi, name);
    } else {
        assert(first_match(nodes, lo + 1, hi, name) is None);
        assert(first_match(nodes, lo, hi - 1, name) is None);
    }
}

proof fn lemma_first_is_head_of_all(nodes: Seq<XmlNodeView>, lo: int, hi: int, name: Seq<char>)
    ensures
        match first_match(nodes, lo, hi, name) {
            None => all_matches(nodes, lo, hi, name).len() == 0,
            Some(j) => all_matches(nodes, lo, hi, name).len() > 0 && all_matches(
                nodes,
                lo,
                hi,
                name,
            )[0] == j,
        },
    decreases hi - lo,
{
    if lo < hi {
        lemma_first_is_head_of_all(nodes, lo, hi - 1, name);
        lemma_first_match_extend(nodes, lo, hi, name);
    }
}

/// The tag that `get_child_by_name` finds is the first of those that
/// `get_children_by_name` lists, and it finds none exactly when that list is empty.
pub proof fn lemma_child_is_first_of_children(nodes: Seq<XmlNodeView>, node: int, name: Seq<char>)
    requires
        0 <= node < nodes.len(),
    ensures
        match child_by_name(nodes, node, name) {
            None => children_by_name(nodes, node, name).len() == 0,
            Some(j) => children_by_name(nodes, node, name).len() > 0 && children_by_name(
                nodes,
                node,
                name,
            )[0] == j,
        },
{
    lemma_first_is_head_of_all(nodes, node, subtree_end(nodes, node), name);
}

fn subtree_end_of(doc: &XmlDocument, node: usize) -> (end: usize)
    requires
        node < doc@.len(),
    ensures
        end == subtree_end(doc@, node as int),
        node <= end <= doc@.len(),
{
    let len = doc.nodes[node].subtree_len;
    if len <= doc.nodes.len() - node {
        node + len
    } else {
        doc.nodes.len()
    }
}

/// Finds the first descendant of `node` (the node itself included) that is an element
/// named `name`; fails with "missing tag {name}" when there is none.
pub fn get_child_by_name(doc: &XmlDocument, node: usize, name: &str) -> (res: YouTubeResult<usize>)
    requires
        node < doc@.len(),
    ensures
        match res {
            Ok(j) => child_by_name(doc@, node as int, name@) == Some(j as int) && node <= j
                < doc@.len(),
            Err(e) => child_by_name(doc@, node as int, name@) is None && e@ == missing_tag_error(
                name@,
            ),
        },
{
    let end = subtree_end_of(doc, node);
    let key = name.to_owned();
    let mut j = node;
    while j < end
        invariant
            node <= j <= end,
            end == subtree_end(doc@, node as int),
            end <= doc@.len(),
            key@ == name@,
            first_match(doc@, node as int, end as int, name@) == first_match(
                doc@,
                j as int,
                end as int,
                name@,
            ),
        decreases end - j,
    {
        if doc.nodes[j].is_element && doc.nodes[j].name == key {
            return Ok(j);
        }
        j += 1;
    }
    let mut msg = "missing tag ".to_owned();
    msg.append(name);
    Err(YouTubeError::ParserError(msg))
}

/// The text of the first descendant of `node` named `name`.
pub fn get_child_text_by_name(doc: &XmlDocument, node: usize, name: &str) -> (res: YouTubeResult<String>)
    requires
        node < doc@.len(),
    ensures
        match res {
            Ok(t) => child_text_by_name(doc@, node as int, name@) == Ok::<Seq<char>, YouTubeErrorView>(t@),
            Err(e) => child_text_by_name(doc@, node as int, name@) == Err::<Seq<char>, YouTubeErrorView>(e@),
        },
{
    let child = get_child_by_name(doc, node, name)?;
    match &doc.nodes[child].text {
        Some(t) => Ok(t.clone()),
        None => Err(YouTubeError::ParserError("missing tag content for {name}".to_owned())),
    }
}

/// All descendants of `node` (the node itself included) that are elements named `name`.
pub fn get_children_by_name(doc: &XmlDocument, node: usize, name: &str) -> (res: Vec<usize>)
    requires
        node < doc@.len(),
    ensures
        res@.map_values(|j: usize| j as int) == children_by_name(doc@, node as int, name@),
        forall|k: int| 0 <= k < res@.len() ==> node <= #[trigger] res@[k] < doc@.len(),
{
    let end = subtree_end_of(doc, node);
    let key = name.to_owned();
    let mut res: Vec<usize> = Vec::new();
    let mut j = node;
    while j < end
        invariant
            node <= j <= end,
            end <= doc@.len(),
            key@ == name@,
            res@.map_values(|j: usize| j as int) == all_matches(doc@, node as int, j as int, name@),
            forall|k: int| 0 <= k < res@.len() ==> node <= #[trigger] res@[k] < j,
        decreases end - j,
    {
        if doc.nodes[j].is_element && doc.nodes[j].name == key {
            res.push(j);
        }
        j += 1;
    }
    res
}

/// The value of the first attribute named `key` of node `node`.
pub fn get_attribute(doc: &XmlDocument, node: usize, key: &str) -> (res: Option<String>)
    requires
        node < doc@.len(),
    ensures
        option_string_view(res) == attribute_value(doc@[node as int].attributes, key@),
{
    let attrs = &doc.nodes[node].attributes;
    let ghost s = doc@[node as int].attributes;
    let k = key.to_owned();
    let mut i: usize = 0;
    assert(s.skip(0) =~= s);
    while i < attrs.len()
        invariant
            i <= attrs@.len(),
            k@ == key@,
            s == doc@[node as int].attributes,
            s == attrs@.map_values(|a: (String, String)| attribute_pair_view(a)),
            attribute_value(s, key@) == attribute_value(s.skip(i as int), key@),
        decreases attrs.len() - i,
    {
        assert(s.skip(i as int)[0] == s[i as int]);
        assert(s[i as int] == attribute_pair_view(attrs@[i as int]));
        if attrs[i].0 == k {
            assert(s.skip(i as int).len() > 0);
            return Some(attrs[i].1.clone());
        }
        assert(s.skip(i as int).drop_first() =~= s.skip(i + 1));
        i += 1;
    }
    None
}

} // verus!
