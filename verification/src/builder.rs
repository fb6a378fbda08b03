use crate::element::{
    attribute_models, pairs_representable, ElementModel, XamlAttribute, XamlElement,
};
use crate::markup::{
    node_attributes, node_children, node_is_element, node_markup, node_tag_name, node_text,
    pair_texts, MarkupNode,
};
use crate::status::BuildError;
use crate::text::{capture_optional, capture_string, representable};
use vstd::prelude::*;

verus! {

/// The element tree that stands for a parsed node: its own name, namespace,
/// attributes and text as the parser reports them, and below it the trees of
/// those of its child nodes that are elements.
pub open spec fn element_of(m: MarkupNode) -> ElementModel
    decreases m,
{
    ElementModel {
        name: m.name,
        namespace: m.namespace,
        attributes: m.attributes,
        children: elements_among(m.children),
        text: m.text,
    }
}

/// The trees of the element nodes among a sequence of nodes, in the order of
/// the sequence; nodes of any other kind leave no trace.
pub open spec fn elements_among(nodes: Seq<MarkupNode>) -> Seq<ElementModel>
    decreases nodes,
{
    if nodes.len() == 0 {
        Seq::empty()
    } else if nodes.last().is_element {
        elements_among(nodes.drop_last()).push(element_of(nodes.last()))
    } else {
        elements_among(nodes.drop_last())
    }
}

/// Taking one more node into account appends its tree if it is an element and
/// changes nothing otherwise.
pub proof fn lemma_elements_among_step(nodes: Seq<MarkupNode>, i: int)
    requires
        0 <= i < nodes.len(),
    ensures
        elements_among(nodes.take(i + 1)) == if nodes[i].is_element {
            elements_among(nodes.take(i)).push(element_of(nodes[i]))
        } else {
            elements_among(nodes.take(i))
        },
{
    assert(nodes.take(i + 1).drop_last() == nodes.take(i));
    assert(nodes.take(i + 1).last() == nodes[i]);
}

/// The trees of the first `k` nodes are the first trees of all the nodes.
pub proof fn lemma_elements_among_prefix(nodes: Seq<MarkupNode>, k: int)
    requires
        0 <= k <= nodes.len(),
    ensures
        elements_among(nodes.take(k)).is_prefix_of(elements_among(nodes)),
    decreases nodes.len(),
{
    if k == nodes.len() {
        assert(nodes.take(k) == nodes);
    } else {
        lemma_elements_among_prefix(nodes.drop_last(), k);
        assert(nodes.drop_last().take(k) == nodes.take(k));
    }
}

/// Copies the attributes of one element into owned pairs, in their order.
/// The array is sized by the one count that is taken of the pairs, and the
/// first string that is not representable ends the work with nothing kept.
pub fn capture_attributes(pairs: &Vec<(&str, &str)>) -> (captured: Result<
    Vec<XamlAttribute>,
    BuildError,
>)
    ensures
        match captured {
            Ok(attributes) => pairs_representable(pair_texts(pairs@)) && attribute_models(
                attributes@,
            ) == pair_texts(pairs@),
            Err(e) => !pairs_representable(pair_texts(pairs@)) && e
                == BuildError::UnrepresentableContent,
        },
{
    let count: usize = pairs.len();
    let mut attributes: Vec<XamlAttribute> = Vec::with_capacity(count);
    let mut i: usize = 0;
    while i < count
        invariant
            count == pairs@.len(),
            i <= count,
            attributes@.len() == i,
            forall|j: int| 0 <= j < i ==> (#[trigger] attributes@[j])@ == pair_texts(pairs@)[j],
            forall|j: int|
                0 <= j < i ==> representable((#[trigger] pair_texts(pairs@)[j]).0) && representable(
                    pair_texts(pairs@)[j].1,
                ),
        decreases count - i,
    {
        let (key_text, value_text) = pairs[i];
        assert(pair_texts(pairs@)[i as int] == (key_text@, value_text@));
        let key = match capture_string(key_text) {
            Ok(owned) => owned,
            Err(e) => {
                return Err(e);
            },
        };
        let value = match capture_string(value_text) {
            Ok(owned) => owned,
            Err(e) => {
                return Err(e);
            },
        };
        attributes.push(XamlAttribute { key, value });
        i += 1;
    }
    assert(attribute_models(attributes@) =~= pair_texts(pairs@));
    Ok(attributes)
}

/// Builds the owned tree of one parsed node and of the elements below it,
/// depth first. The tree holds exactly what `element_of` says, laid out by
/// the layout rules, unless one of its strings is not representable: then
/// nothing is built.
pub fn convert_node_to_xaml_element(node: roxmltree::Node<'_, '_>) -> (built: Result<
    XamlElement,
    BuildError,
>)
    ensures
        match built {
            Ok(element) => element.well_formed() && element@ == element_of(node_markup(node))
                && element@.all_representable(),
            Err(e) => e == BuildError::UnrepresentableContent && !element_of(
                node_markup(node),
            ).all_representable(),
        },
    decreases node_markup(node),
{
    let ghost m = node_markup(node);
    let (namespace_text, name_text) = node_tag_name(node);
    let name = match capture_string(name_text) {
        Ok(owned) => owned,
        Err(e) => {
            return Err(e);
        },
    };
    let namespace = match capture_optional(namespace_text) {
        Ok(owned) => owned,
        Err(e) => {
            return Err(e);
        },
    };
    let pairs = node_attributes(node);
    let attributes = match capture_attributes(&pairs) {
        Ok(owned) => owned,
        Err(e) => {
            return Err(e);
        },
    };
    let nodes = node_children(node);
    let mut children: Vec<Box<XamlElement>> = Vec::new();
    let mut i: usize = 0;
    while i < nodes.len()
        invariant
            m == node_markup(node),
            i <= nodes@.len(),
            nodes@.len() == m.children.len(),
            forall|j: int|
                0 <= j < nodes@.len() ==> node_markup(#[trigger] nodes@[j]) == m.children[j],
            children@.len() == elements_among(m.children.take(i as int)).len(),
            forall|j: int|
                0 <= j < children@.len() ==> (#[trigger] children@[j]).well_formed()
                    && children@[j]@ == elements_among(m.children.take(i as int))[j]
                    && children@[j]@.all_representable(),
        decreases nodes@.len() - i,
    {
        let child = nodes[i];
        proof {
            lemma_elements_among_step(m.children, i as int);
        }
        if node_is_element(child) {
            match convert_node_to_xaml_element(child) {
                Ok(element) => {
                    children.push(Box::new(element));
                },
                Err(e) => {
                    proof {
                        lemma_elements_among_prefix(m.children, i + 1);
                        let before = elements_among(m.children.take(i as int));
                        let through = elements_among(m.children.take(i + 1));
                        let at = before.len() as int;
                        assert(m.children[i as int].is_element);
                        assert(through == before.push(element_of(m.children[i as int])));
                        assert(through[at] == element_of(m.children[i as int]));
                        assert(through =~= elements_among(m.children).subrange(
                            0,
                            through.len() as int,
                        ));
                        assert(element_of(m).children[at] == through[at]);
                    }
                    return Err(e);
                },
            }
        }
        i += 1;
    }
    assert(m.children.take(i as int) == m.children);
    let text_content = match capture_optional(node_text(node)) {
        Ok(owned) => owned,
        Err(e) => {
            return Err(e);
        },
    };
    let element = XamlElement::assemble(name, namespace, attributes, children, text_content);
    proof {
        assert(element@.children =~= elements_among(m.children));
        assert(element@.attributes =~= m.attributes);
    }
    Ok(element)
}

} // verus!
