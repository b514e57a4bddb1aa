//! The element tree of an XML document, and the ways to walk it.
//!
//! Names are local names: the namespace of an element or of an attribute plays
//! no part in finding it.

use vstd::prelude::*;
use vstd::string::*;

verus! {

/// What an element holds, as mathematical values.
pub struct XmlTree {
    /// The local name of the element.
    pub name: Seq<char>,
    /// The attributes, each a local name and a value, in the order in which the
    /// element lists them.
    pub attrs: Seq<(Seq<char>, Seq<char>)>,
    /// The text between the start tag and the first child, untrimmed.
    pub text: Seq<char>,
    /// The child elements, in document order.
    pub children: Seq<XmlTree>,
}

/// An element of a parsed document, with everything below it.
#[derive(Debug, PartialEq, Eq)]
pub struct XmlNode {
    /// The local name of the element.
    pub name: String,
    /// The attributes, each a local name and a value.
    pub attrs: Vec<(String, String)>,
    /// The text between the start tag and the first child, untrimmed.
    pub text: String,
    /// The child elements, in document order.
    pub children: Vec<XmlNode>,
}

/// The attribute pair `p` as mathematical values.
pub open spec fn attr_view(p: (String, String)) -> (Seq<char>, Seq<char>) {
    (p.0@, p.1@)
}

/// What `node` holds, as mathematical values.
pub open spec fn tree_of(node: XmlNode) -> XmlTree
    decreases node,
{
    XmlTree {
        name: node.name@,
        attrs: node.attrs@.map_values(|p: (String, String)| attr_view(p)),
        text: node.text@,
        children: forest_of(node.children@),
    }
}

/// What each of `nodes` holds, in the same order.
pub open spec fn forest_of(nodes: Seq<XmlNode>) -> Seq<XmlTree>
    decreases nodes,
{
    if nodes.len() == 0 {
        Seq::empty()
    } else {
        forest_of(nodes.drop_last()).push(tree_of(nodes.last()))
    }
}

impl View for XmlNode {
    type V = XmlTree;

    open spec fn view(&self) -> XmlTree {
        tree_of(*self)
    }
}

/// What each of the borrowed `nodes` holds, in the same order.
pub open spec fn trees_of(nodes: Seq<&XmlNode>) -> Seq<XmlTree> {
    nodes.map_values(|node: &XmlNode| node@)
}

/// A forest has one tree for each node, at the node's place.
pub proof fn lemma_forest(nodes: Seq<XmlNode>)
    ensures
        forest_of(nodes).len() == nodes.len(),
        forall|i: int| 0 <= i < nodes.len() ==> #[trigger] forest_of(nodes)[i] == nodes[i]@,
    decreases nodes.len(),
{
    if nodes.len() > 0 {
        lemma_forest(nodes.drop_last());
    }
}

impl XmlTree {
    /// The children of this element that are named `name`, in document order.
    pub open spec fn children_named(self, name: Seq<char>) -> Seq<XmlTree> {
        self.children.filter(|c: XmlTree| c.name == name)
    }

    /// The first child of this element that is named `name`, if there is one.
    pub open spec fn child_named(self, name: Seq<char>) -> Option<XmlTree> {
        let found = self.children_named(name);
        if found.len() > 0 {
            Some(found[0])
        } else {
            None
        }
    }

    /// The value of the first attribute named `name`, if there is one.
    pub open spec fn attr(self, name: Seq<char>) -> Option<Seq<char>> {
        let found = self.attrs.filter(|p: (Seq<char>, Seq<char>)| p.0 == name);
        if found.len() > 0 {
            Some(found[0].1)
        } else {
            None
        }
    }
}

/// The view of a node is made of the views of its parts.
pub proof fn lemma_view(node: &XmlNode)
    ensures
        node@.name == node.name@,
        node@.text == node.text@,
        node@.attrs == node.attrs@.map_values(|p: (String, String)| attr_view(p)),
        node@.children.len() == node.children@.len(),
        forall|i: int|
            0 <= i < node.children@.len() ==> #[trigger] node@.children[i] == node.children@[i]@,
{
    lemma_forest(node.children@);
}

impl XmlNode {
    /// The first child named `name`, if there is one.
    pub fn find(&self, name: &str) -> (found: Option<&XmlNode>)
        ensures
            match found {
                Some(node) => self@.child_named(name@) == Some(node@),
                None => self@.child_named(name@) is None,
            },
    {
        let wanted = String::from_str(name);
        let ghost pred = |c: XmlTree| c.name == name@;
        proof {
            lemma_view(self);
        }
        let mut i: usize = 0;
        while i < self.children.len()
            invariant
                i <= self.children.len(),
                self@.children.len() == self.children@.len(),
                forall|j: int|
                    0 <= j < self.children@.len() ==> #[trigger] self@.children[j]
                        == self.children@[j]@,
                wanted@ == name@,
                pred == (|c: XmlTree| c.name == name@),
                self@.children.take(i as int).filter(pred).len() == 0,
            decreases self.children.len() - i,
        {
            let child = &self.children[i];
            proof {
                let before = self@.children.take(i as int);
                let upto = self@.children.take(i + 1);
                assert(upto.drop_last() =~= before);
                assert(upto.last() == child@);
                reveal(Seq::filter);
                if child.name@ == name@ {
                    assert(upto.filter(pred) =~= seq![child@]);
                    let rest = self@.children.skip(i + 1);
                    assert(self@.children =~= upto + rest);
                    Seq::filter_distributes_over_add(upto, rest, pred);
                    assert(self@.children.filter(pred)[0] == child@);
                }
            }
            if child.name == wanted {
                return Some(child);
            }
            i += 1;
        }
        proof {
            assert(self@.children.take(i as int) =~= self@.children);
        }
        None
    }

    /// All children named `name`, in document order.
    pub fn find_all(&self, name: &str) -> (found: Vec<&XmlNode>)
        ensures
            trees_of(found@) == self@.children_named(name@),
    {
        let wanted = String::from_str(name);
        let ghost pred = |c: XmlTree| c.name == name@;
        proof {
            lemma_view(self);
        }
        let mut found: Vec<&XmlNode> = Vec::new();
        let mut i: usize = 0;
        while i < self.children.len()
            invariant
                i <= self.children.len(),
                self@.children.len() == self.children@.len(),
                forall|j: int|
                    0 <= j < self.children@.len() ==> #[trigger] self@.children[j]
                        == self.children@[j]@,
                wanted@ == name@,
                pred == (|c: XmlTree| c.name == name@),
                trees_of(found@) == self@.children.take(i as int).filter(pred),
            decreases self.children.len() - i,
        {
            let child = &self.children[i];
            proof {
                let upto = self@.children.take(i + 1);
                assert(upto.drop_last() =~= self@.children.take(i as int));
                assert(upto.last() == child@);
                reveal(Seq::filter);
                if child.name@ == name@ {
                    assert(trees_of(found@.push(child)) =~= trees_of(found@).push(child@));
                }
            }
            if child.name == wanted {
                found.push(child);
            }
            i += 1;
        }
        proof {
            assert(self@.children.take(i as int) =~= self@.children);
        }
        found
    }

    /// The value of the first attribute named `name`, if there is one.
    pub fn get_attr(&self, name: &str) -> (found: Option<&str>)
        ensures
            match found {
                Some(value) => self@.attr(name@) == Some(value@),
                None => self@.attr(name@) is None,
            },
    {
        let wanted = String::from_str(name);
        let ghost pred = |p: (Seq<char>, Seq<char>)| p.0 == name@;
        proof {
            lemma_view(self);
        }
        let mut i: usize = 0;
        while i < self.attrs.len()
            invariant
                i <= self.attrs.len(),
                self@.attrs == self.attrs@.map_values(|p: (String, String)| attr_view(p)),
                wanted@ == name@,
                pred == (|p: (Seq<char>, Seq<char>)| p.0 == name@),
                self@.attrs.take(i as int).filter(pred).len() == 0,
            decreases self.attrs.len() - i,
        {
            let pair = &self.attrs[i];
            proof {
                let upto = self@.attrs.take(i + 1);
                assert(upto.drop_last() =~= self@.attrs.take(i as int));
                assert(upto.last() == attr_view(*pair));
                reveal(Seq::filter);
                if pair.0@ == name@ {
                    assert(upto.filter(pred) =~= seq![attr_view(*pair)]);
                    let rest = self@.attrs.skip(i + 1);
                    assert(self@.attrs =~= upto + rest);
                    Seq::filter_distributes_over_add(upto, rest, pred);
                    assert(self@.attrs.filter(pred)[0] == attr_view(*pair));
                }
            }
            if pair.0 == wanted {
                return Some(pair.1.as_str());
            }
            i += 1;
        }
        proof {
            assert(self@.attrs.take(i as int) =~= self@.attrs);
        }
        None
    }

    /// The text of this element, untrimmed.
    pub fn text(&self) -> (text: &str)
        ensures
            text@ == self@.text,
    {
        self.text.as_str()
    }
}

} // verus!
