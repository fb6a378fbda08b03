use crate::text::{optional_string, representable, representable_or_absent};
use vstd::prelude::*;

verus! {

/// The mathematical content of an element tree: what a caller finds when it
/// walks the tree, with every string as its characters and every array as a
/// sequence in document order.
pub ghost struct ElementModel {
    pub name: Seq<char>,
    pub namespace: Option<Seq<char>>,
    pub attributes: Seq<(Seq<char>, Seq<char>)>,
    pub children: Seq<ElementModel>,
    pub text: Option<Seq<char>>,
}

/// Every key and every value of the pairs is representable.
pub open spec fn pairs_representable(pairs: Seq<(Seq<char>, Seq<char>)>) -> bool {
    forall|i: int|
        0 <= i < pairs.len() ==> representable((#[trigger] pairs[i]).0) && representable(
            pairs[i].1,
        )
}

/// 1 for a string that is present, 0 for an absent one.
pub open spec fn presence(s: Option<Seq<char>>) -> nat {
    match s {
        Some(_) => 1,
        None => 0,
    }
}

impl ElementModel {
    /// Every string of the tree is representable.
    pub open spec fn all_representable(self) -> bool
        decreases self,
    {
        &&& representable(self.name)
        &&& representable_or_absent(self.namespace)
        &&& pairs_representable(self.attributes)
        &&& representable_or_absent(self.text)
        &&& forall|i: int|
            0 <= i < self.children.len() ==> (#[trigger] self.children[i]).all_representable()
    }

    /// The number of element nodes in the tree, this one included.
    pub open spec fn element_count(self) -> nat
        decreases self,
    {
        1 + element_count_among(self.children)
    }

    /// The number of separately owned buffers that carry the tree: one for
    /// the node, one for each string that is present, one for each array that
    /// is not empty, and what the children take.
    pub open spec fn allocation_count(self) -> nat
        decreases self,
    {
        2 + presence(self.namespace) + presence(self.text) + (if self.attributes.len() > 0 {
            1 + 2 * self.attributes.len()
        } else {
            0
        }) + (if self.children.len() > 0 {
            1 + allocation_count_among(self.children)
        } else {
            0
        })
    }
}

/// The number of element nodes in a sequence of trees.
pub open spec fn element_count_among(elements: Seq<ElementModel>) -> nat
    decreases elements,
{
    if elements.len() == 0 {
        0
    } else {
        element_count_among(elements.drop_last()) + elements.last().element_count()
    }
}

/// The number of buffers that carry a sequence of trees.
pub open spec fn allocation_count_among(elements: Seq<ElementModel>) -> nat
    decreases elements,
{
    if elements.len() == 0 {
        0
    } else {
        allocation_count_among(elements.drop_last()) + elements.last().allocation_count()
    }
}

/// One attribute of an element: a key and its value, each an owned string.
#[derive(Debug, Clone, PartialEq, Eq)]
pub struct XamlAttribute {
    pub key: String,
    pub value: String,
}

impl View for XamlAttribute {
    type V = (Seq<char>, Seq<char>);

    open spec fn view(&self) -> (Seq<char>, Seq<char>) {
        (self.key@, self.value@)
    }
}

/// The pairs that a sequence of attributes stands for, in the same order.
pub open spec fn attribute_models(attributes: Seq<XamlAttribute>) -> Seq<(Seq<char>, Seq<char>)> {
    attributes.map_values(|a: XamlAttribute| a@)
}

/// One element of the tree, laid out as the caller reads it: each array is an
/// optional buffer beside its length, each optional string is absent or owned.
#[derive(Debug, PartialEq, Eq)]
pub struct XamlElement {
    pub name: String,
    pub namespace: Option<String>,
    pub attributes: Option<Vec<XamlAttribute>>,
    pub attributes_len: usize,
    pub children: Option<Vec<Box<XamlElement>>>,
    pub children_len: usize,
    pub text_content: Option<String>,
}

impl XamlElement {
    /// The content of the tree rooted at this element.
    pub open spec fn model(&self) -> ElementModel
        decreases self,
    {
        ElementModel {
            name: self.name@,
            namespace: optional_string(self.namespace),
            attributes: match self.attributes {
                Some(v) => attribute_models(v@),
                None => Seq::empty(),
            },
            children: match self.children {
                Some(v) => child_models(v@),
                None => Seq::empty(),
            },
            text: optional_string(self.text_content),
        }
    }

    /// The layout rules of the tree, at every level: a length equals the
    /// number of entries of its array, an empty array is an absent buffer with
    /// length zero and never a buffer without entries, and every string is
    /// representable.
    pub open spec fn well_formed(&self) -> bool
        decreases self,
    {
        &&& representable(self.name@)
        &&& representable_or_absent(optional_string(self.namespace))
        &&& representable_or_absent(optional_string(self.text_content))
        &&& match self.attributes {
            None => self.attributes_len == 0,
            Some(v) => v@.len() == self.attributes_len && v@.len() > 0 && pairs_representable(
                attribute_models(v@),
            ),
        }
        &&& match self.children {
            None => self.children_len == 0,
            Some(v) => v@.len() == self.children_len && v@.len() > 0 && forall|i: int|
                0 <= i < v@.len() ==> (#[trigger] v@[i]).well_formed(),
        }
    }

    /// Puts an element together from its parts. Each length is taken once,
    /// from the sequence that becomes the array, and an empty sequence becomes
    /// an absent buffer.
    pub fn assemble(
        name: String,
        namespace: Option<String>,
        attributes: Vec<XamlAttribute>,
        children: Vec<Box<XamlElement>>,
        text_content: Option<String>,
    ) -> (element: XamlElement)
        ensures
            element.name == name,
            element.namespace == namespace,
            element.text_content == text_content,
            element.attributes_len == attributes@.len(),
            element.children_len == children@.len(),
            element.attributes == if attributes@.len() == 0 {
                None
            } else {
                Some(attributes)
            },
            element.children == if children@.len() == 0 {
                None
            } else {
                Some(children)
            },
    {
        let attributes_len: usize = attributes.len();
        let children_len: usize = children.len();
        XamlElement {
            name,
            namespace,
            attributes: if attributes_len == 0 {
                None
            } else {
                Some(attributes)
            },
            attributes_len,
            children: if children_len == 0 {
                None
            } else {
                Some(children)
            },
            children_len,
            text_content,
        }
    }
}

/// The contents of the trees that a sequence of child handles owns, in the
/// same order.
pub open spec fn child_models(children: Seq<Box<XamlElement>>) -> Seq<ElementModel>
    decreases children,
{
    Seq::new(
        children.len(),
        |i: int|
            if 0 <= i < children.len() {
                children[i].model()
            } else {
                arbitrary()
            },
    )
}

impl View for XamlElement {
    type V = ElementModel;

    open spec fn view(&self) -> ElementModel {
        self.model()
    }
}

} // verus!
