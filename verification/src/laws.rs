use crate::boundary::build_outcome;
use crate::builder::{element_of, elements_among};
use crate::element::{child_models, element_count_among, ElementModel, XamlElement};
use crate::markup::{parsed_root, MarkupNode};
use crate::status::BuildError;
use crate::text::decoded;
use vstd::prelude::*;

verus! {

/// The number of element nodes that the parser reports at and below an
/// element node, through element nodes only.
pub open spec fn element_nodes(m: MarkupNode) -> nat
    decreases m,
{
    1 + element_nodes_among(m.children)
}

/// The number of element nodes at and below the element nodes of a sequence.
pub open spec fn element_nodes_among(nodes: Seq<MarkupNode>) -> nat
    decreases nodes,
{
    if nodes.len() == 0 {
        0
    } else if nodes.last().is_element {
        element_nodes_among(nodes.drop_last()) + element_nodes(nodes.last())
    } else {
        element_nodes_among(nodes.drop_last())
    }
}

/// The element nodes of a sequence, each as its tree, in the order in which
/// the sequence holds them.
pub open spec fn elements_in_document_order(nodes: Seq<MarkupNode>) -> Seq<ElementModel> {
    nodes.filter(|n: MarkupNode| n.is_element).map_values(|n: MarkupNode| element_of(n))
}

/// The built tree has one element for each element node that the parser
/// reports at and below the root element, no more and no fewer.
pub proof fn lemma_every_element_is_built_once(m: MarkupNode)
    ensures
        element_of(m).element_count() == element_nodes(m),
    decreases m,
{
    lemma_every_element_among_is_built_once(m.children);
}

/// The same for the trees of a sequence of nodes.
pub proof fn lemma_every_element_among_is_built_once(nodes: Seq<MarkupNode>)
    ensures
        element_count_among(elements_among(nodes)) == element_nodes_among(nodes),
    decreases nodes,
{
    if nodes.len() > 0 {
        lemma_every_element_among_is_built_once(nodes.drop_last());
        if nodes.last().is_element {
            lemma_every_element_is_built_once(nodes.last());
            let before = elements_among(nodes.drop_last());
            let built = element_of(nodes.last());
            assert(before.push(built).drop_last() == before);
            assert(before.push(built).last() == built);
        }
    }
}

/// The children of a built element are the element nodes among the parsed
/// node's children, each as its tree, in document order; comments,
/// processing instructions and text nodes leave no entry.
pub proof fn lemma_children_keep_document_order(nodes: Seq<MarkupNode>)
    ensures
        elements_among(nodes) == elements_in_document_order(nodes),
    decreases nodes.len(),
{
    reveal(Seq::filter);
    if nodes.len() > 0 {
        lemma_children_keep_document_order(nodes.drop_last());
        assert(elements_among(nodes) =~= elements_in_document_order(nodes));
    } else {
        assert(elements_among(nodes) =~= elements_in_document_order(nodes));
    }
}

/// The attributes of a built element are the parsed node's attributes, pair
/// for pair, in document order.
pub proof fn lemma_attributes_keep_document_order(m: MarkupNode)
    ensures
        element_of(m).attributes == m.attributes,
        element_of(m).children == elements_in_document_order(m.children),
{
    lemma_children_keep_document_order(m.children);
}

/// In a well-formed tree each length is the number of entries that a walk of
/// its array reaches, and a length is zero exactly where the array is absent.
pub proof fn lemma_lengths_count_the_entries(element: XamlElement)
    requires
        element.well_formed(),
    ensures
        element.attributes_len == element@.attributes.len(),
        element.children_len == element@.children.len(),
        element.attributes is None <==> element.attributes_len == 0,
        element.children is None <==> element.children_len == 0,
        match element.attributes {
            Some(array) => array@.len() == element.attributes_len,
            None => true,
        },
        match element.children {
            Some(array) => array@.len() == element.children_len,
            None => true,
        },
{
}

/// Every string of a well-formed tree is representable.
pub proof fn lemma_well_formed_is_representable(element: XamlElement)
    requires
        element.well_formed(),
    ensures
        element@.all_representable(),
    decreases element,
{
    match element.children {
        Some(handles) => {
            assert forall|i: int| 0 <= i < element@.children.len() implies (
            #[trigger] element@.children[i]).all_representable() by {
                assert(handles@[i].well_formed());
                lemma_well_formed_is_representable(*handles@[i]);
                assert(child_models(handles@)[i] == handles@[i].model());
            }
        },
        None => {},
    }
}

/// An absent input is an invalid argument, and nothing else is.
pub proof fn lemma_absent_input_is_invalid_argument(xml: Option<Seq<u8>>)
    ensures
        build_outcome(xml) == Err::<ElementModel, BuildError>(BuildError::InvalidArgument)
            <==> xml is None,
{
}

/// Text that the parser refuses is a parse error, and nothing else is.
pub proof fn lemma_refused_text_is_a_parse_error(xml: Option<Seq<u8>>)
    ensures
        build_outcome(xml) == Err::<ElementModel, BuildError>(BuildError::ParseError) <==> (
        decoded(xml) matches Ok(text) && parsed_root(text) is None),
{
}

/// Bytes that are not UTF-8 text are an encoding error, and nothing else is.
pub proof fn lemma_undecodable_input_is_an_encoding_error(xml: Option<Seq<u8>>)
    ensures
        build_outcome(xml) == Err::<ElementModel, BuildError>(BuildError::EncodingError) <==> (
        xml matches Some(bytes) && !vstd::utf8::valid_utf8(bytes)),
{
}

/// A tree with a string that no terminated buffer can carry is
/// unrepresentable content, and nothing else is.
pub proof fn lemma_unrepresentable_tree_is_refused(xml: Option<Seq<u8>>)
    ensures
        build_outcome(xml) == Err::<ElementModel, BuildError>(
            BuildError::UnrepresentableContent,
        ) <==> (decoded(xml) matches Ok(text) && parsed_root(text) matches Some(root)
            && !element_of(root).all_representable()),
{
}

/// A build succeeds exactly when the input is present, is UTF-8 text, is
/// accepted by the parser, and holds only representable strings in the tree
/// of its root element.
pub proof fn lemma_build_succeeds_exactly_when(xml: Option<Seq<u8>>)
    ensures
        build_outcome(xml) is Ok <==> (decoded(xml) matches Ok(text) && parsed_root(text) matches Some(
            root,
        ) && element_of(root).all_representable()),
{
}

/// Two builds of the same input give trees with the same content: the same
/// names, namespaces, attributes, children and text, in the same order.
pub proof fn lemma_build_is_deterministic(
    xml: Option<Seq<u8>>,
    first: XamlElement,
    second: XamlElement,
)
    ensures
        build_outcome(xml) == Ok::<ElementModel, BuildError>(first@) && build_outcome(xml) == Ok::<
            ElementModel,
            BuildError,
        >(second@) ==> first@ == second@,
{
}

} // verus!
