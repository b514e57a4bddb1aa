//! Reading a document into an element tree. The XML grammar is the parser's
//! business: this module calls `elementtree` and copies what it built.

use crate::xml::{XmlNode, XmlTree};
use vstd::prelude::*;

verus! {

/// `elementtree::Element`, an element as the parser built it. Nothing inside it
/// is visible to the proofs.
#[verifier::external_type_specification]
#[verifier::external_body]
pub struct ExElement(elementtree::Element);

/// The root element that `elementtree::Element::from_reader` builds from the
/// UTF-8 bytes of `text`, or `None` where it reports an error. Parsing reads
/// nothing but those bytes, so one text always gives one result.
pub uninterp spec fn xml_document(text: Seq<char>) -> Option<XmlTree>;

/// What `element` holds: its local name, its attributes by local name in the
/// order in which `Element::attrs` walks them, its text, and the same of each
/// child in the order of `Element::children`.
pub uninterp spec fn element_tree(element: elementtree::Element) -> XmlTree;

/// Calls `elementtree::Element::from_reader` on the bytes of `text`.
///
/// Trusted: the call returns for every text, and what it returns depends on
/// the text alone. Every error of the parser, whatever its kind, gives `None`.
#[verifier::external_body]
fn read_root(text: &str) -> (root: Option<elementtree::Element>)
    ensures
        match root {
            Some(element) => xml_document(text@) == Some(element_tree(element)),
            None => xml_document(text@) is None,
        },
{
    match elementtree::Element::from_reader(text.as_bytes()) {
        Ok(root) => Some(root),
        Err(_) => None,
    }
}

/// Copies `element` and everything below it, through `Element::tag` and
/// `QName::name`, `Element::attrs`, `Element::text` and `Element::children`.
///
/// Trusted: the copy holds what the element holds, part for part.
#[verifier::external_body]
fn node_of(element: &elementtree::Element) -> (node: XmlNode)
    ensures
        node@ == element_tree(*element),
{
    XmlNode {
        name: element.tag().name().to_string(),
        attrs: element.attrs().map(|(key, value)| (key.name().to_string(), value.to_string())).collect(),
        text: element.text().to_string(),
        children: element.children().map(node_of).collect(),
    }
}

/// Parses `text` as an XML document and returns its root element, or `None`
/// where the text is not well-formed XML.
pub fn parse_document(text: &str) -> (parsed: Option<XmlNode>)
    ensures
        match parsed {
            Some(root) => xml_document(text@) == Some(root@),
            None => xml_document(text@) is None,
        },
{
    match read_root(text) {
        Some(element) => Some(node_of(&element)),
        None => None,
    }
}

} // verus!
