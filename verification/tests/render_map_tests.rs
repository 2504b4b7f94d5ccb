use vdom_el::attrs::AttrValue;
use vdom_el::el::{El, Node};
use vdom_el::el_key;
use vdom_el::events::EventHandler;
use vdom_el::ingest::ingest_converted;
use vdom_el::markdown::markdown_to_html;
use vdom_el::tag::{Namespace, Tag};
use vdom_el::transform::els_map_msg;

#[test]
fn serializing_a_void_element_emits_no_closing_tag() {
    let mut img: El<u32> = El::empty(Tag::Std("img".to_string()));
    img.add_attr("src".to_string(), AttrValue::Val("x.png".to_string()));
    assert_eq!(img.to_markup(), "<img src=\"x.png\">");
}

#[test]
fn serializing_an_empty_div_emits_a_closing_tag() {
    let div: El<u32> = El::empty(Tag::Std("div".to_string()));
    assert_eq!(div.to_markup(), "<div></div>");
}

#[test]
fn void_tag_match_is_case_insensitive() {
    let e: El<u32> = El::empty(Tag::Custom("IMG".to_string()));
    assert_eq!(e.to_markup(), "<IMG>");
    let e2: El<u32> = El::empty(Tag::Custom("Div".to_string()));
    assert_eq!(e2.to_markup(), "<Div></Div>");
}

#[test]
fn serialization_renders_children_in_order() {
    let mut e: El<u32> = El::empty(Tag::Std("p".to_string()));
    e.add_text("a".to_string());
    let mut inner: El<u32> = El::empty(Tag::Std("b".to_string()));
    inner.add_text("hi".to_string());
    e.add_child(Node::Element(inner));
    e.add_text("c".to_string());
    assert_eq!(e.to_markup(), "<p>a<b>hi</b>c</p>");
}

#[test]
fn serialization_synthesizes_style_and_namespace_attributes() {
    let mut e: El<u32> = El::empty_svg(Tag::Std("svg".to_string()));
    e.add_attr("id".to_string(), AttrValue::Val("v".to_string()));
    e.add_style("display".to_string(), "block".to_string());
    e.add_style("height".to_string(), "1px".to_string());
    assert_eq!(
        e.to_markup(),
        "<svg id=\"v\" style=\"display:block;height:1px\" xmlns=\"http://www.w3.org/2000/svg\"></svg>"
    );
}

#[test]
fn serialization_renders_bare_attributes_without_a_value() {
    let mut e: El<u32> = El::empty(Tag::Std("input".to_string()));
    e.add_attr("disabled".to_string(), AttrValue::Flag);
    assert_eq!(e.to_markup(), "<input disabled>");
}

#[test]
fn custom_namespace_renders_its_string() {
    let mut e: El<u32> = El::empty(Tag::Std("math".to_string()));
    e.namespace = Some(Namespace::Custom("ns-x".to_string()));
    assert_eq!(e.to_markup(), "<math xmlns=\"ns-x\"></math>");
}

#[test]
fn map_msg_preserves_key_tag_and_children_at_every_depth() {
    let mut e: El<u32> = El::empty(Tag::Std("div".to_string()));
    e.key = Some(el_key("k"));
    let mut inner: El<u32> = El::empty(Tag::Std("span".to_string()));
    inner.add_text("t".to_string());
    inner.add_event_handler(EventHandler {
        trigger: "click".to_string(),
        msg: 10u32,
    });
    e.add_child(Node::Element(inner));
    e.add_text("tail".to_string());
    e.add_event_handler(EventHandler {
        trigger: "input".to_string(),
        msg: 3u32,
    });
    let f = |m: u32| (m as u64) * 2;
    let mapped: El<u64> = e.map_msg(&f);
    assert_eq!(mapped.key, Some(el_key("k")));
    assert_eq!(mapped.tag.name(), "div");
    assert_eq!(mapped.children.len(), 2);
    assert_eq!(mapped.event_handler_manager.handlers.len(), 1);
    assert_eq!(mapped.event_handler_manager.handlers[0].trigger, "input");
    assert_eq!(mapped.event_handler_manager.handlers[0].msg, 6u64);
    match &mapped.children[0] {
        Node::Element(el) => {
            assert_eq!(el.tag.name(), "span");
            assert_eq!(el.children.len(), 1);
            assert_eq!(el.event_handler_manager.handlers[0].msg, 20u64);
        }
        _ => panic!("expected an element child"),
    }
    match &mapped.children[1] {
        Node::Text(t) => assert_eq!(t.text, "tail"),
        _ => panic!("expected a text child"),
    }
}

#[test]
fn map_msg_discards_insert_callbacks() {
    let mut e: El<u32> = El::empty(Tag::Std("div".to_string()));
    e.insert_handlers.push(vdom_el::events::on_insert(Some(1u32)));
    let f = |m: u32| m + 1;
    let mapped: El<u32> = e.map_msg(&f);
    assert!(mapped.insert_handlers.is_empty());
}

#[test]
fn map_msg_over_a_list_keeps_order() {
    let mut a: El<u32> = El::empty(Tag::Std("a".to_string()));
    a.key = Some(el_key("first"));
    let b: El<u32> = El::empty(Tag::Std("b".to_string()));
    let f = |m: u32| m as i64;
    let mapped = els_map_msg(vec![a, b], &f);
    assert_eq!(mapped.len(), 2);
    assert_eq!(mapped[0].tag.name(), "a");
    assert_eq!(mapped[0].key, Some(el_key("first")));
    assert_eq!(mapped[1].tag.name(), "b");
}

#[test]
fn map_msg_over_nodes_keeps_text_and_elements() {
    let nodes: Vec<Node<u32>> = vec![
        Node::new_text("t".to_string()),
        Node::Element(El::empty(Tag::Std("div".to_string()))),
    ];
    let f = |m: u32| m > 0;
    let mapped = vdom_el::transform::nodes_map_msg(nodes, &f);
    assert_eq!(mapped.len(), 2);
    assert!(mapped[0].is_text());
    assert!(!mapped[1].is_text());
}

#[test]
fn empty_with_namespace_carries_the_namespace() {
    let e: El<u32> = El::empty_with_namespace(
        Tag::Std("math".to_string()),
        Namespace::Custom("ns-m".to_string()),
    );
    assert_eq!(e.to_markup(), "<math xmlns=\"ns-m\"></math>");
}

#[test]
fn ingestion_keeps_represented_nodes_in_order() {
    let mut b: El<u32> = El::empty(Tag::Std("b".to_string()));
    b.add_text("hi".to_string());
    let items: Vec<Option<Node<u32>>> = vec![
        Some(Node::Element(b)),
        None,
        Some(Node::new_text("x".to_string())),
    ];
    let nodes = ingest_converted(items);
    assert_eq!(nodes.len(), 2);
    match &nodes[0] {
        Node::Element(el) => {
            assert_eq!(el.tag.name(), "b");
            assert_eq!(el.get_text(), "hi");
        }
        _ => panic!("expected the element first"),
    }
    match &nodes[1] {
        Node::Text(t) => assert_eq!(t.text, "x"),
        _ => panic!("expected the text second"),
    }
}

#[test]
fn ingesting_one_converted_element_yields_that_element() {
    let mut b: El<u32> = El::empty(Tag::Std("b".to_string()));
    b.add_text("hi".to_string());
    let nodes = ingest_converted(vec![Some(Node::Element(b))]);
    assert_eq!(nodes.len(), 1);
    match &nodes[0] {
        Node::Element(el) => {
            assert_eq!(el.tag.name(), "b");
            assert_eq!(el.children.len(), 1);
            assert_eq!(el.get_text(), "hi");
        }
        _ => panic!("expected an element"),
    }
}

#[test]
fn markdown_renders_through_the_real_renderer() {
    assert_eq!(markdown_to_html("hello"), "<p>hello</p>\n");
    assert_eq!(markdown_to_html("**hi**"), "<p><strong>hi</strong></p>\n");
    assert_eq!(markdown_to_html(""), "");
}
