//! XML documents as trees, for the one provider that answers in XML.
use vstd::prelude::*;
use crate::text::str_eq;
use crate::xml_bound::{
    has_doctype, holds_doctype, nesting, nesting_bound, xml_fits, MAX_XML_DEPTH,
};

verus! {

/// What stands inside an element.
#[derive(Debug)]
pub enum XmlNode {
    Element(XmlElement),
    Text(String),
    CData(String),
    /// A comment or a processing instruction.
    Other,
}

/// An element: its local name, its attributes and what stands inside it, in
/// document order.
#[derive(Debug)]
pub struct XmlElement {
    pub name: String,
    pub attributes: Vec<(String, String)>,
    pub children: Vec<XmlNode>,
}

/// The first element with the given name among the nodes.
pub open spec fn first_child(nodes: Seq<XmlNode>, name: Seq<char>) -> Option<XmlElement>
    decreases nodes.len(),
{
    if nodes.len() == 0 {
        None
    } else {
        match nodes[0] {
            XmlNode::Element(e) => if e.name@ == name {
                Some(e)
            } else {
                first_child(nodes.skip(1), name)
            },
            _ => first_child(nodes.skip(1), name),
        }
    }
}

/// The text and character data among the nodes, put together in order;
/// `None` where there is none.
pub open spec fn inner_text(nodes: Seq<XmlNode>) -> Option<Seq<char>>
    decreases nodes.len(),
{
    if nodes.len() == 0 {
        None
    } else {
        let before = inner_text(nodes.drop_last());
        let so_far = match before {
            Some(t) => t,
            None => Seq::<char>::empty(),
        };
        match nodes.last() {
            XmlNode::Text(t) => Some(so_far + t@),
            XmlNode::CData(t) => Some(so_far + t@),
            _ => before,
        }
    }
}

/// The value of the attribute with the given name: that of the last one,
/// where several have it.
pub open spec fn attribute_value(attributes: Seq<(String, String)>, name: Seq<char>) -> Option<
    Seq<char>,
>
    decreases attributes.len(),
{
    if attributes.len() == 0 {
        None
    } else if attributes.last().0@ == name {
        Some(attributes.last().1@)
    } else {
        attribute_value(attributes.drop_last(), name)
    }
}

impl XmlElement {
    /// The first child element with the given name.
    pub fn child(&self, name: &str) -> (r: Option<&XmlElement>)
        ensures
            match first_child(self.children@, name@) {
                Some(e) => r == Some(&e),
                None => r is None,
            },
    {
        let mut i: usize = 0;
        proof {
            assert(self.children@.skip(0) =~= self.children@);
        }
        while i < self.children.len()
            invariant
                i <= self.children.len(),
                first_child(self.children@, name@) == first_child(
                    self.children@.skip(i as int),
                    name@,
                ),
            decreases self.children.len() - i,
        {
            proof {
                assert(self.children@.skip(i as int).skip(1) =~= self.children@.skip(i + 1));
            }
            match &self.children[i] {
                XmlNode::Element(e) => {
                    if str_eq(e.name.as_str(), name) {
                        return Some(e);
                    }
                },
                _ => {},
            }
            i += 1;
        }
        None
    }

    /// The text inside this element: its text and character data children
    /// put together; `None` where it has none.
    pub fn text(&self) -> (r: Option<String>)
        ensures
            crate::text::opt_text(r) == inner_text(self.children@),
    {
        let mut out: Option<String> = None;
        let mut i: usize = 0;
        while i < self.children.len()
            invariant
                i <= self.children.len(),
                crate::text::opt_text(out) == inner_text(self.children@.take(i as int)),
            decreases self.children.len() - i,
        {
            proof {
                let now = self.children@.take(i + 1);
                assert(now.drop_last() =~= self.children@.take(i as int));
            }
            match &self.children[i] {
                XmlNode::Text(t) => {
                    let mut s = match out {
                        Some(s) => s,
                        None => String::new(),
                    };
                    s.append(t.as_str());
                    out = Some(s);
                },
                XmlNode::CData(t) => {
                    let mut s = match out {
                        Some(s) => s,
                        None => String::new(),
                    };
                    s.append(t.as_str());
                    out = Some(s);
                },
                _ => {},
            }
            i += 1;
        }
        proof {
            assert(self.children@.take(self.children@.len() as int) =~= self.children@);
        }
        out
    }

    /// The value of the attribute with the given name.
    pub fn attribute(&self, name: &str) -> (r: Option<&String>)
        ensures
            match attribute_value(self.attributes@, name@) {
                Some(v) => r matches Some(s) && s@ == v,
                None => r is None,
            },
    {
        let mut i: usize = self.attributes.len();
        proof {
            assert(self.attributes@.take(i as int) =~= self.attributes@);
        }
        while i > 0
            invariant
                i <= self.attributes.len(),
                attribute_value(self.attributes@, name@) == attribute_value(
                    self.attributes@.take(i as int),
                    name@,
                ),
            decreases i,
        {
            proof {
                assert(self.attributes@.take(i as int).drop_last() =~= self.attributes@.take(
                    i - 1,
                ));
            }
            if str_eq(self.attributes[i - 1].0.as_str(), name) {
                return Some(&self.attributes[i - 1].1);
            }
            i -= 1;
        }
        None
    }
}

/// The outside type that a parsed XML element is read from.
#[verifier::external_type_specification]
#[verifier::external_body]
pub struct ExElement(xmltree::Element);

/// The outside type that a parsed XML node is read from.
#[verifier::external_type_specification]
#[verifier::external_body]
pub struct ExNode(xmltree::XMLNode);

/// An `xmltree::XMLNode` written as an `XmlNode`, variant by variant. Only
/// `read_xml` calls it, on trees that nest no deeper than its bound.
#[verifier::external_body]
fn node_from(n: &xmltree::XMLNode) -> XmlNode {
    match n {
        xmltree::XMLNode::Element(e) => XmlNode::Element(element_from(e)),
        xmltree::XMLNode::Text(t) => XmlNode::Text(t.clone()),
        xmltree::XMLNode::CData(t) => XmlNode::CData(t.clone()),
        xmltree::XMLNode::Comment(_) => XmlNode::Other,
        xmltree::XMLNode::ProcessingInstruction(..) => XmlNode::Other,
    }
}

/// An `xmltree::Element` written as an `XmlElement`, field by field. The
/// attributes come in the order in which the crate's map walks them, which
/// is the order of their names. Only `read_xml` calls it, on trees that
/// nest no deeper than its bound.
#[verifier::external_body]
fn element_from(e: &xmltree::Element) -> XmlElement {
    XmlElement {
        name: e.name.clone(),
        attributes: e.attributes.iter().map(|(k, v)| (k.clone(), v.clone())).collect(),
        children: e.children.iter().map(node_from).collect(),
    }
}

/// The root element that `xmltree::Element::parse` reads from the bytes of
/// a document; `None` where it refuses them.
pub uninterp spec fn xml_of_bytes(bytes: Seq<u8>) -> Option<XmlElement>;

/// `xmltree::Element::parse` on the bytes of a document. The crate builds
/// the tree by calling itself once for each level of nesting, and so does
/// the writing of the tree as an `XmlElement`; neither limits the nesting.
/// Hence the bound. It holds of the parser for these reasons: an element is
/// opened only by a `<` that the lexer reads; the lexer reads a `<` only
/// from the bytes or from the text of an entity; entities are defined only
/// inside a document type declaration, which begins with `<!D`; and an
/// element is counted as closed only at the `>` of an end tag or of `/>`
/// that was reached through text and tags without a `<` inside them, where
/// the parser either reports the end of the element or an error. Claimed
/// besides: the answer depends on the bytes alone.
#[verifier::external_body]
fn read_xml(bytes: &[u8]) -> (r: Option<XmlElement>)
    requires
        xml_fits(bytes@),
    ensures
        r == xml_of_bytes(bytes@),
{
    match xmltree::Element::parse(bytes) {
        Ok(e) => Some(element_from(&e)),
        Err(_) => None,
    }
}

/// Why a document was not read.
#[derive(Debug, Clone, Copy, PartialEq, Eq, Structural)]
pub enum XmlRefusal {
    /// It holds a document type declaration.
    Doctype,
    /// Its elements may nest deeper than `MAX_XML_DEPTH`.
    TooDeep,
    /// The parser refused it.
    Malformed,
}

/// The root element of a document, or why the document is not read: a
/// document type declaration first, then the nesting, then the parser's
/// own refusal.
pub open spec fn xml_document(bytes: Seq<u8>) -> Result<XmlElement, XmlRefusal> {
    if holds_doctype(bytes) {
        Err(XmlRefusal::Doctype)
    } else if nesting_bound(bytes) > MAX_XML_DEPTH {
        Err(XmlRefusal::TooDeep)
    } else {
        match xml_of_bytes(bytes) {
            Some(root) => Ok(root),
            None => Err(XmlRefusal::Malformed),
        }
    }
}

/// Reads an XML document and gives its root element.
pub fn parse_xml(bytes: &[u8]) -> (r: Result<XmlElement, XmlRefusal>)
    ensures
        r == xml_document(bytes@),
{
    if has_doctype(bytes) {
        Err(XmlRefusal::Doctype)
    } else if nesting(bytes) > MAX_XML_DEPTH {
        Err(XmlRefusal::TooDeep)
    } else {
        match read_xml(bytes) {
            Some(root) => Ok(root),
            None => Err(XmlRefusal::Malformed),
        }
    }
}

} // verus!
