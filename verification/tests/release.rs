use xaml_parser_native::{
    build_tree, free_xaml_element, free_xaml_element_internal, XamlAttribute, XamlElement,
};

fn built(xml: &str) -> Box<XamlElement> {
    Box::new(build_tree(Some(xml.as_bytes())).expect("well-formed markup builds"))
}

#[test]
fn a_bare_element_is_a_node_and_a_name() {
    assert_eq!(free_xaml_element_internal(built("<a/>")), 2);
}

#[test]
fn each_string_and_each_array_is_one_buffer() {
    // node, name, text
    assert_eq!(free_xaml_element_internal(built("<a>t</a>")), 3);
    // node, name, namespace
    assert_eq!(free_xaml_element_internal(built("<a xmlns='urn:a'/>")), 3);
    // node, name, the array, and a key and a value for each of two pairs
    assert_eq!(free_xaml_element_internal(built("<a x='1' y='2'/>")), 7);
    // node, name, the array, and two buffers for each of three bare children
    assert_eq!(free_xaml_element_internal(built("<a><b/><c/><d/></a>")), 9);
}

#[test]
fn the_buffers_of_a_tree_add_up() {
    assert_eq!(
        free_xaml_element_internal(built("<Root id=\"1\"><Child>Hi</Child></Root>")),
        9
    );
    assert_eq!(
        free_xaml_element_internal(built("<a k='v'>t<b><c x='1'/></b><!-- n --><d/></a>")),
        17
    );
}

#[test]
fn an_array_without_entries_is_no_buffer() {
    let odd = Box::new(XamlElement {
        name: String::from("odd"),
        namespace: None,
        attributes: Some(Vec::<XamlAttribute>::new()),
        attributes_len: 0,
        children: Some(Vec::new()),
        children_len: 0,
        text_content: Some(String::new()),
    });
    assert_eq!(free_xaml_element_internal(odd), 3);
}

#[test]
fn release_reports_success_for_every_handle() {
    assert_eq!(free_xaml_element(None), 0);
    assert_eq!(free_xaml_element(Some(built("<a/>"))), 0);
    assert_eq!(free_xaml_element(Some(built("<a k='v'><b>t</b><c/></a>"))), 0);
}
