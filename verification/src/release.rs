use crate::element::{allocation_count_among, child_models, presence, XamlAttribute, XamlElement};
use crate::status::STATUS_SUCCESS;
use crate::text::optional_string;
use vstd::prelude::*;

verus! {

/// A count, as far as a `usize` can hold it.
pub open spec fn saturated(count: nat) -> usize {
    if count <= usize::MAX {
        count as usize
    } else {
        usize::MAX
    }
}

/// The number of buffers that carry the attributes of one element: none for
/// an empty sequence, else the array and two strings for each pair.
pub open spec fn attribute_buffers(pairs: nat) -> nat {
    if pairs > 0 {
        1 + 2 * pairs
    } else {
        0
    }
}

/// Gives back the buffer of one string.
fn release_string(buffer: String) -> (released: usize)
    ensures
        released == 1,
{
    1
}

/// Gives back the buffer of a string that may be absent.
fn release_optional_string(buffer: Option<String>) -> (released: usize)
    ensures
        released == presence(optional_string(buffer)),
{
    match buffer {
        Some(text) => release_string(text),
        None => 0,
    }
}

/// Gives back the key and the value of each pair, then the array itself.
fn release_attributes(attributes: Vec<XamlAttribute>) -> (released: usize)
    ensures
        released == saturated(attribute_buffers(attributes@.len())),
{
    let mut attributes = attributes;
    let count: usize = attributes.len();
    let mut released: usize = 0;
    while attributes.len() > 0
        invariant
            attributes@.len() <= count,
            released == saturated((2 * (count - attributes@.len())) as nat),
        decreases attributes@.len(),
    {
        match attributes.pop() {
            Some(attribute) => {
                let XamlAttribute { key, value } = attribute;
                released = released.saturating_add(release_string(key));
                released = released.saturating_add(release_string(value));
            },
            None => {},
        }
    }
    if count > 0 {
        released = released.saturating_add(1);
    }
    released
}

/// Releases a tree: every buffer that carries it is given back once, the
/// children before the node that owns them, and the count of the buffers
/// given back is returned.
pub fn free_xaml_element_internal(element: Box<XamlElement>) -> (released: usize)
    ensures
        released == saturated(element@.allocation_count()),
    decreases element@,
{
    let ghost model = element@;
    let XamlElement {
        name,
        namespace,
        attributes,
        attributes_len: _,
        children,
        children_len: _,
        text_content,
    } = *element;
    let mut released: usize = 0;
    if let Some(pairs) = attributes {
        released = released.saturating_add(release_attributes(pairs));
    }
    let ghost above: nat = attribute_buffers(model.attributes.len());
    assert(released == saturated(above));
    let ghost mut below: nat = 0;
    if let Some(handles) = children {
        let mut handles = handles;
        let ghost all = handles@;
        let count: usize = handles.len();
        while handles.len() > 0
            invariant
                model == element@,
                handles@.len() <= all.len(),
                handles@ == all.take(handles@.len() as int),
                child_models(all) == model.children,
                allocation_count_among(child_models(all)) == allocation_count_among(
                    child_models(handles@),
                ) + below,
                released == saturated(above + below),
            decreases handles@.len(),
        {
            let ghost before = handles@;
            match handles.pop() {
                Some(child) => {
                    let ghost child_model = child@;
                    proof {
                        let at = before.len() - 1;
                        assert(model.children[at] == child_model);
                        assert(child_models(before).drop_last() =~= child_models(handles@));
                        assert(child_models(before).last() == child_model);
                    }
                    let freed = free_xaml_element_internal(child);
                    released = released.saturating_add(freed);
                    proof {
                        below = below + child_model.allocation_count();
                    }
                },
                None => {},
            }
        }
        if count > 0 {
            released = released.saturating_add(1);
            proof {
                below = below + 1;
            }
        }
    }
    released = released.saturating_add(release_string(name));
    released = released.saturating_add(release_optional_string(namespace));
    released = released.saturating_add(release_optional_string(text_content));
    released.saturating_add(1)
}

/// Releases the tree behind a handle. An absent handle is a no-op, and the
/// status is success either way.
pub fn free_xaml_element(element: Option<Box<XamlElement>>) -> (status: i32)
    ensures
        status == STATUS_SUCCESS,
{
    match element {
        None => STATUS_SUCCESS,
        Some(root) => {
            let _ = free_xaml_element_internal(root);
            STATUS_SUCCESS
        },
    }
}

} // verus!
