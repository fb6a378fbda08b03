use crate::builder::{convert_node_to_xaml_element, element_of};
use crate::element::{ElementModel, XamlElement};
use crate::markup::{document_root_element, parse_document, parsed_root};
use crate::status::{BuildError, STATUS_SUCCESS};
use crate::text::{decode_input, decoded, optional_bytes};
use vstd::prelude::*;

verus! {

/// What a build makes of an input: the tree of the root element that the
/// parser finds in the decoded text, or the first reason there is none. The
/// input is decoded, then parsed, then checked for strings that no
/// terminated buffer can carry.
pub open spec fn build_outcome(xml: Option<Seq<u8>>) -> Result<ElementModel, BuildError> {
    match decoded(xml) {
        Err(e) => Err(e),
        Ok(text) => match parsed_root(text) {
            None => Err(BuildError::ParseError),
            Some(root) => if element_of(root).all_representable() {
                Ok(element_of(root))
            } else {
                Err(BuildError::UnrepresentableContent)
            },
        },
    }
}

/// Builds the owned tree of a document, all of it or nothing.
pub fn build_tree(xml: Option<&[u8]>) -> (built: Result<XamlElement, BuildError>)
    ensures
        match built {
            Ok(tree) => tree.well_formed() && build_outcome(optional_bytes(xml)) == Ok::<
                ElementModel,
                BuildError,
            >(tree@),
            Err(e) => build_outcome(optional_bytes(xml)) == Err::<ElementModel, BuildError>(e),
        },
{
    let text = match decode_input(xml) {
        Ok(text) => text,
        Err(e) => {
            return Err(e);
        },
    };
    let document = match parse_document(text) {
        Ok(document) => document,
        Err(_) => {
            return Err(BuildError::ParseError);
        },
    };
    convert_node_to_xaml_element(document_root_element(&document))
}

/// Hands the outcome of a build over the boundary. On success the root
/// handle is written to the caller's slot, once, and the status is success;
/// on failure the slot keeps what it held and the status is the error's code.
pub fn deliver(built: Result<XamlElement, BuildError>, result: &mut Option<Box<XamlElement>>) -> (status:
    i32)
    ensures
        match built {
            Ok(tree) => status == STATUS_SUCCESS && *final(result) == Some(Box::new(tree)),
            Err(e) => status == e.status() && *final(result) == *old(result),
        },
{
    match built {
        Ok(tree) => {
            *result = Some(Box::new(tree));
            STATUS_SUCCESS
        },
        Err(e) => e.code(),
    }
}

/// Builds the tree of a document and hands its root to the caller. The
/// status is success exactly when a tree was built; the slot then holds its
/// root, well formed, and is left untouched otherwise.
pub fn parse_xaml(xml: Option<&[u8]>, result: &mut Option<Box<XamlElement>>) -> (status: i32)
    ensures
        match build_outcome(optional_bytes(xml)) {
            Ok(tree) => status == STATUS_SUCCESS && match *final(result) {
                Some(root) => root.well_formed() && root@ == tree,
                None => false,
            },
            Err(e) => status == e.status() && *final(result) == *old(result),
        },
{
    deliver(build_tree(xml), result)
}

} // verus!
