//! Element trees built from markup, for a caller across a boundary.
//!
//! A build decodes the input, has it parsed, and turns the root element and
//! the elements below it into an owned tree whose root is handed to the
//! caller; a release takes the root back and gives every buffer of the tree
//! back once. The contracts are stated over the content of a tree
//! (`element::ElementModel`) and over what the parser reports
//! (`markup::MarkupNode`).

pub mod boundary;
pub mod builder;
pub mod element;
pub mod laws;
pub mod markup;
pub mod release;
pub mod status;
pub mod text;

pub use boundary::{build_tree, deliver, parse_xaml};
pub use builder::convert_node_to_xaml_element;
pub use element::{XamlAttribute, XamlElement};
pub use release::{free_xaml_element, free_xaml_element_internal};
pub use status::{BuildError, STATUS_SUCCESS};
