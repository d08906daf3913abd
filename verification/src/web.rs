//! URL resolution and HTML documents in plain values.

use html5ever::tendril::TendrilSink;
use markup5ever_rcdom::{Handle, NodeData, RcDom};
use vstd::prelude::*;

verus! {

/// What `reference` resolves to against `base` (both parsed as URLs), in its
/// serialised form, or the text of the URL parse error.
pub uninterp spec fn joined_url(base: Seq<char>, reference: Seq<char>) -> Result<Seq<char>, Seq<char>>;

/// Resolves `reference` against `base`: `url::Url::parse(base)` then
/// `Url::join`, serialised with `to_string`. The contract claims only that
/// the result is [`joined_url`] of the two, the error being the parse
/// error's text.
#[verifier::external_body]
pub(crate) fn join_url(base: &str, reference: &str) -> (r: Result<String, String>)
    ensures
        match r {
            Ok(u) => joined_url(base@, reference@) == Ok::<Seq<char>, Seq<char>>(u@),
            Err(e) => joined_url(base@, reference@) == Err::<Seq<char>, Seq<char>>(e@),
        },
{
    url::Url::parse(base).and_then(|b| b.join(reference)).map(|u| u.to_string()).map_err(|e| e.to_string())
}

/// A node of a parsed HTML document.
#[derive(Debug)]
pub enum HtmlNode {
    /// An element: its local name, its attributes (local name and value) in
    /// source order, and its children.
    Element { name: String, attrs: Vec<(String, String)>, children: Vec<HtmlNode> },
    /// A text node.
    Text(String),
    /// The document itself, a comment, a doctype or a processing
    /// instruction, with its children.
    Other(Vec<HtmlNode>),
}

/// The tree that an HTML5 parser builds for a text.
pub uninterp spec fn html_document(html: Seq<char>) -> HtmlNode;

/// A node of an rcdom tree, carried to its conversion.
#[verifier::external_type_specification]
#[verifier::external_body]
pub struct ExDomNode(markup5ever_rcdom::Node);

/// Parses an HTML document with `html5ever::parse_document` into an rcdom
/// tree, converted to plain values. The contract claims only that the tree
/// is [`html_document`] of the text.
#[verifier::external_body]
pub(crate) fn parse_html(html: &str) -> (doc: HtmlNode)
    ensures
        doc == html_document(html@),
{
    let dom = html5ever::parse_document(RcDom::default(), Default::default()).one(html.to_string());
    html_node(&dom.document)
}

/// Conversion step of [`parse_html`]: one rcdom node and its subtree.
#[verifier::external_body]
fn html_node(node: &Handle) -> HtmlNode {
    let children = node.children.borrow().iter().map(html_node).collect();
    match &node.data {
        NodeData::Text { contents } => HtmlNode::Text(contents.borrow().to_string()),
        NodeData::Element { name, attrs, .. } => HtmlNode::Element {
            name: name.local.to_string(),
            attrs: attrs.borrow().iter().map(|a| (a.name.local.to_string(), a.value.to_string())).collect(),
            children,
        },
        _ => HtmlNode::Other(children),
    }
}

/// The text that `String::from_utf8_lossy` decodes from bytes.
pub uninterp spec fn utf8_lossy(bytes: Seq<u8>) -> Seq<char>;

/// `String::from_utf8_lossy`: UTF-8 with each invalid sequence replaced by
/// U+FFFD. The contract claims only that the text is [`utf8_lossy`] of the
/// bytes.
#[verifier::external_body]
pub(crate) fn decode_lossy(bytes: &[u8]) -> (s: String)
    ensures
        s@ == utf8_lossy(bytes@),
{
    String::from_utf8_lossy(bytes).into_owned()
}

} // verus!
