use crate::text::optional_text;
use vstd::prelude::*;

verus! {

/// What the parser reports about one node of a parsed document: its kind, its
/// tag name and namespace, its attributes and its child nodes in document
/// order, and its own direct text.
pub ghost struct MarkupNode {
    pub is_element: bool,
    pub name: Seq<char>,
    pub namespace: Option<Seq<char>>,
    pub attributes: Seq<(Seq<char>, Seq<char>)>,
    pub children: Seq<MarkupNode>,
    pub text: Option<Seq<char>>,
}

/// The characters of borrowed key and value pairs, in the same order.
pub open spec fn pair_texts(pairs: Seq<(&str, &str)>) -> Seq<(Seq<char>, Seq<char>)> {
    pairs.map_values(|p: (&str, &str)| (p.0@, p.1@))
}

/// `roxmltree::Document`, a parsed document. The verifier sees nothing
/// inside it.
#[verifier::external_type_specification]
#[verifier::external_body]
pub struct ExDocument<'input>(roxmltree::Document<'input>);

/// `roxmltree::Node`, a copyable handle to one node of a parsed document.
/// The verifier sees nothing inside it.
#[verifier::external_type_specification]
#[verifier::external_body]
pub struct ExNode<'a, 'input: 'a>(roxmltree::Node<'a, 'input>);

/// `roxmltree::Error`, the reason the parser gives when it refuses a text.
/// The verifier sees nothing inside it.
#[verifier::external_type_specification]
#[verifier::external_body]
pub struct ExError(roxmltree::Error);

/// The root element that `roxmltree::Document::parse` finds in a text, or
/// `None` where it refuses the text. The parser works on the text alone,
/// with fixed options, so the same text always gives the same answer.
pub uninterp spec fn parsed_root(text: Seq<char>) -> Option<MarkupNode>;

/// The root element that a parsed document holds.
pub uninterp spec fn document_root(doc: roxmltree::Document<'_>) -> MarkupNode;

/// What a parsed document holds at and below one of its nodes.
pub uninterp spec fn node_markup(node: roxmltree::Node<'_, '_>) -> MarkupNode;

/// Calls `roxmltree::Document::parse`.
///
/// Not proved: whether the parser accepts the text, and the root element of
/// the document it gives, are what `parsed_root` names for that text.
#[verifier::external_body]
pub(crate) fn parse_document<'input>(text: &'input str) -> (parsed: Result<
    roxmltree::Document<'input>,
    roxmltree::Error,
>)
    ensures
        match parsed {
            Ok(doc) => parsed_root(text@) == Some(document_root(doc)),
            Err(_) => parsed_root(text@) is None,
        },
{
    roxmltree::Document::parse(text)
}

/// Calls `roxmltree::Document::root_element`, which gives the first element
/// node under the document's root; every parsed document has one.
///
/// Not proved: the node holds what `document_root` names for the document.
#[verifier::external_body]
pub(crate) fn document_root_element<'a, 'input>(doc: &'a roxmltree::Document<'input>) -> (root:
    roxmltree::Node<'a, 'input>)
    ensures
        node_markup(root) == document_root(*doc),
{
    doc.root_element()
}

/// Calls `roxmltree::Node::is_element`.
///
/// Not proved: the answer is the kind that `node_markup` names for the node.
#[verifier::external_body]
pub(crate) fn node_is_element(node: roxmltree::Node<'_, '_>) -> (answer: bool)
    ensures
        answer == node_markup(node).is_element,
{
    node.is_element()
}

/// Calls `roxmltree::Node::tag_name` and takes the expanded name apart: the
/// namespace, if the tag has one, and the local name.
///
/// Not proved: the two are the namespace and the name that `node_markup`
/// names for the node.
#[verifier::external_body]
pub(crate) fn node_tag_name<'a, 'input>(node: roxmltree::Node<'a, 'input>) -> (tag: (
    Option<&'a str>,
    &'input str,
))
    ensures
        optional_text(tag.0) == node_markup(node).namespace,
        tag.1@ == node_markup(node).name,
{
    let tag = node.tag_name();
    (tag.namespace(), tag.name())
}

/// Calls `roxmltree::Node::attributes` and walks the iterator once, from
/// first to last, taking the local name and the value of each attribute.
///
/// Not proved: the pairs are the attributes that `node_markup` names for the
/// node, in the same order.
#[verifier::external_body]
pub(crate) fn node_attributes<'a, 'input>(node: roxmltree::Node<'a, 'input>) -> (pairs: Vec<
    (&'input str, &'a str),
>)
    ensures
        pair_texts(pairs@) == node_markup(node).attributes,
{
    node.attributes().map(|a| (a.name(), a.value())).collect()
}

/// Calls `roxmltree::Node::children` and walks the iterator once, from first
/// to last, keeping the child nodes of every kind.
///
/// Not proved: there are as many handles as `node_markup` names children for
/// the node, and each handle holds the child at its place.
#[verifier::external_body]
pub(crate) fn node_children<'a, 'input>(node: roxmltree::Node<'a, 'input>) -> (children: Vec<
    roxmltree::Node<'a, 'input>,
>)
    ensures
        children@.len() == node_markup(node).children.len(),
        forall|i: int|
            0 <= i < children@.len() ==> node_markup(#[trigger] children@[i]) == node_markup(
                node,
            ).children[i],
{
    node.children().collect()
}

/// Calls `roxmltree::Node::text`, which for an element gives the text of its
/// first child if that child is a text node.
///
/// Not proved: the text, or its absence, is what `node_markup` names for the
/// node.
#[verifier::external_body]
pub(crate) fn node_text<'a, 'input>(node: roxmltree::Node<'a, 'input>) -> (text: Option<&'a str>)
    ensures
        optional_text(text) == node_markup(node).text,
{
    node.text()
}

} // verus!
