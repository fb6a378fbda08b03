use xaml_parser_native::builder::capture_attributes;
use xaml_parser_native::text::{
    capture_optional, capture_string, decode_input, has_embedded_terminator,
};
use xaml_parser_native::{
    build_tree, convert_node_to_xaml_element, BuildError, XamlAttribute, XamlElement,
};

fn built(xml: &str) -> XamlElement {
    build_tree(Some(xml.as_bytes())).expect("well-formed markup builds")
}

fn count_elements(element: &XamlElement) -> usize {
    let below = element.children.as_ref().map_or(0, |children| {
        children.iter().map(|child| count_elements(child)).sum::<usize>()
    });
    1 + below
}

fn check_layout(element: &XamlElement) {
    match &element.attributes {
        Some(array) => {
            assert!(!array.is_empty());
            assert_eq!(array.iter().count(), element.attributes_len);
        }
        None => assert_eq!(element.attributes_len, 0),
    }
    match &element.children {
        Some(array) => {
            assert!(!array.is_empty());
            assert_eq!(array.iter().count(), element.children_len);
            for child in array {
                check_layout(child);
            }
        }
        None => assert_eq!(element.children_len, 0),
    }
}

fn child_names(element: &XamlElement) -> Vec<String> {
    element
        .children
        .as_ref()
        .map_or(Vec::new(), |children| children.iter().map(|c| c.name.clone()).collect())
}

#[test]
fn one_element_is_built_for_each_start_tag() {
    assert_eq!(count_elements(&built("<a/>")), 1);
    assert_eq!(count_elements(&built("<a><b/><c><d/><e/></c><f>t</f></a>")), 6);
    assert_eq!(count_elements(&built("<a><!-- <x/> --><b/>text<?p <y/>?></a>")), 2);
}

#[test]
fn lengths_equal_the_entries_that_a_walk_reaches() {
    check_layout(&built("<a/>"));
    check_layout(&built("<a x='1' y='2' z='3'><b p='q'/><c/><d><e/></d></a>"));
    check_layout(&built("<a>only text</a>"));
}

#[test]
fn attributes_keep_document_order() {
    let root = built("<e b='2' a='1' c='3'/>");
    let attributes = root.attributes.expect("three attributes");
    let pairs: Vec<(&str, &str)> =
        attributes.iter().map(|a| (a.key.as_str(), a.value.as_str())).collect();
    assert_eq!(pairs, vec![("b", "2"), ("a", "1"), ("c", "3")]);
    assert_eq!(root.attributes_len, 3);
}

#[test]
fn children_keep_document_order() {
    let root = built("<r><z/><a/><m><q/></m><a/></r>");
    assert_eq!(child_names(&root), vec!["z", "a", "m", "a"]);
    let children = root.children.as_ref().expect("four children");
    assert_eq!(child_names(&children[2]), vec!["q"]);
}

#[test]
fn only_element_nodes_become_children() {
    let root = built("<r><!-- note --><a/>between<?target data?><b/><![CDATA[raw]]></r>");
    assert_eq!(child_names(&root), vec!["a", "b"]);
    assert_eq!(root.children_len, 2);
    let none = built("<r><!-- note -->text<?target data?></r>");
    assert_eq!(none.children, None);
    assert_eq!(none.children_len, 0);
}

#[test]
fn text_is_the_direct_text_of_the_element_alone() {
    assert_eq!(built("<p>hello<b>deep</b>world</p>").text_content.as_deref(), Some("hello"));
    assert_eq!(built("<p><b>deep</b></p>").text_content, None);
    assert_eq!(built("<p></p>").text_content, None);
    assert_eq!(built("<p> </p>").text_content.as_deref(), Some(" "));
    assert_eq!(built("<p>a &amp; b</p>").text_content.as_deref(), Some("a & b"));
}

#[test]
fn namespace_is_absent_or_the_uri() {
    assert_eq!(built("<e/>").namespace, None);
    let root = built("<e xmlns='http://www.w3.org' xmlns:n='urn:n'><n:f/></e>");
    assert_eq!(root.namespace.as_deref(), Some("http://www.w3.org"));
    assert_eq!(root.name, "e");
    assert_eq!(root.attributes, None);
    let children = root.children.expect("one child");
    assert_eq!(children[0].name, "f");
    assert_eq!(children[0].namespace.as_deref(), Some("urn:n"));
}

#[test]
fn a_parsed_node_converts_to_its_tree() {
    let document = roxmltree::Document::parse("<a k='v'><b/>tail</a>").expect("well formed");
    let tree = convert_node_to_xaml_element(document.root_element()).expect("representable");
    assert_eq!(tree.name, "a");
    assert_eq!(
        tree.attributes,
        Some(vec![XamlAttribute { key: String::from("k"), value: String::from("v") }])
    );
    assert_eq!(child_names(&tree), vec!["b"]);
    assert_eq!(tree.text_content, None);
    let inner = document.root_element().first_element_child().expect("b");
    let subtree = convert_node_to_xaml_element(inner).expect("representable");
    assert_eq!(subtree.name, "b");
    assert_eq!(subtree.children, None);
}

#[test]
fn a_zero_byte_in_an_attribute_value_is_unrepresentable() {
    let pairs = vec![("id", "1"), ("title", "a\0b")];
    assert_eq!(capture_attributes(&pairs), Err(BuildError::UnrepresentableContent));
    let keys = vec![("i\0d", "1")];
    assert_eq!(capture_attributes(&keys), Err(BuildError::UnrepresentableContent));
}

#[test]
fn attributes_are_captured_pair_for_pair() {
    let pairs = vec![("b", "2"), ("a", ""), ("b", "3")];
    let captured = capture_attributes(&pairs).expect("representable");
    assert_eq!(
        captured,
        vec![
            XamlAttribute { key: String::from("b"), value: String::from("2") },
            XamlAttribute { key: String::from("a"), value: String::from("") },
            XamlAttribute { key: String::from("b"), value: String::from("3") },
        ]
    );
    assert_eq!(capture_attributes(&Vec::new()), Ok(Vec::new()));
}

#[test]
fn strings_are_captured_unless_they_hold_a_zero_byte() {
    assert_eq!(capture_string("Root"), Ok(String::from("Root")));
    assert_eq!(capture_string(""), Ok(String::new()));
    assert_eq!(capture_string("h\u{e9}llo \u{1f600}"), Ok(String::from("h\u{e9}llo \u{1f600}")));
    assert_eq!(capture_string("a\0b"), Err(BuildError::UnrepresentableContent));
    assert_eq!(capture_string("\0"), Err(BuildError::UnrepresentableContent));
    assert_eq!(capture_string("tail\0"), Err(BuildError::UnrepresentableContent));
}

#[test]
fn an_absent_string_is_not_an_empty_string() {
    assert_eq!(capture_optional(None), Ok(None));
    assert_eq!(capture_optional(Some("")), Ok(Some(String::new())));
    assert_eq!(capture_optional(Some("x")), Ok(Some(String::from("x"))));
    assert_eq!(capture_optional(Some("x\0")), Err(BuildError::UnrepresentableContent));
}

#[test]
fn embedded_terminators_are_found() {
    assert!(!has_embedded_terminator(""));
    assert!(!has_embedded_terminator("plain"));
    assert!(!has_embedded_terminator("\u{100}\u{800}\u{10000}"));
    assert!(has_embedded_terminator("\0"));
    assert!(has_embedded_terminator("ab\0cd"));
}

#[test]
fn input_is_decoded_or_refused() {
    assert_eq!(decode_input(None), Err(BuildError::InvalidArgument));
    assert_eq!(decode_input(Some(b"<a/>")), Ok("<a/>"));
    assert_eq!(decode_input(Some(b"")), Ok(""));
    assert_eq!(decode_input(Some("h\u{e9}".as_bytes())), Ok("h\u{e9}"));
    assert_eq!(decode_input(Some(&[0x80])), Err(BuildError::EncodingError));
    assert_eq!(decode_input(Some(&[0xed, 0xa0, 0x80])), Err(BuildError::EncodingError));
}

#[test]
fn empty_sequences_become_absent_arrays() {
    let bare = XamlElement::assemble(String::from("e"), None, Vec::new(), Vec::new(), None);
    assert_eq!(bare.attributes, None);
    assert_eq!(bare.attributes_len, 0);
    assert_eq!(bare.children, None);
    assert_eq!(bare.children_len, 0);
    assert_eq!(bare.namespace, None);
    assert_eq!(bare.text_content, None);

    let attribute = XamlAttribute { key: String::from("k"), value: String::from("v") };
    let child = Box::new(XamlElement::assemble(
        String::from("c"),
        Some(String::new()),
        Vec::new(),
        Vec::new(),
        Some(String::new()),
    ));
    assert_eq!(child.namespace, Some(String::new()));
    assert_eq!(child.text_content, Some(String::new()));
    let full = XamlElement::assemble(
        String::from("e"),
        Some(String::from("urn:e")),
        vec![attribute.clone(), attribute.clone()],
        vec![child],
        Some(String::from("t")),
    );
    assert_eq!(full.name, "e");
    assert_eq!(full.namespace.as_deref(), Some("urn:e"));
    assert_eq!(full.attributes, Some(vec![attribute.clone(), attribute]));
    assert_eq!(full.attributes_len, 2);
    assert_eq!(full.children_len, 1);
    assert_eq!(full.children.as_ref().map(|c| c.len()), Some(1));
    assert_eq!(full.text_content.as_deref(), Some("t"));
}
