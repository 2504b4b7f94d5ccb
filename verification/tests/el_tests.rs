use vdom_el::attrs::AttrValue;
use vdom_el::el::{El, NativeHandle, NativeRef, Node, Text};
use vdom_el::el_key;
use vdom_el::events::{on_insert, EventHandler};
use vdom_el::tag::{Namespace, Tag};

fn div() -> El<u32> {
    El::empty(Tag::Std("div".to_string()))
}

fn span_node() -> Node<u32> {
    Node::Element(El::empty(Tag::Std("span".to_string())))
}

#[test]
fn el_key_wraps_the_string() {
    let k = el_key("row-7");
    assert_eq!(k.0, "row-7");
}

#[test]
fn distinct_keys_compare_as_distinct() {
    assert_ne!(el_key("a"), el_key("b"));
    assert_eq!(el_key("a"), el_key("a"));
    assert!(el_key("a") < el_key("b"));
}

#[test]
fn empty_has_nothing_but_the_tag() {
    let e = div();
    assert_eq!(e.tag.name(), "div");
    assert!(e.attrs.entries.is_empty());
    assert!(e.style.entries.is_empty());
    assert!(e.children.is_empty());
    assert!(e.namespace.is_none());
    assert!(e.node_ws.is_none());
    assert!(e.refs.is_empty());
    assert!(e.key.is_none());
    assert!(e.insert_handlers.is_empty());
    assert!(e.event_handler_manager.handlers.is_empty());
}

#[test]
fn empty_svg_sets_the_namespace() {
    let e: El<u32> = El::empty_svg(Tag::Std("circle".to_string()));
    assert!(matches!(e.namespace, Some(Namespace::Svg)));
}

#[test]
fn is_custom_distinguishes_custom_tags() {
    let e = div();
    assert!(!e.is_custom());
    let c: El<u32> = El::empty(Tag::Custom("my-widget".to_string()));
    assert!(c.is_custom());
}

#[test]
fn clone_preserves_children_structurally() {
    let mut e = div();
    e.add_text("hi".to_string());
    let mut child: El<u32> = El::empty(Tag::Std("span".to_string()));
    child.add_attr("id".to_string(), AttrValue::Val("s".to_string()));
    e.add_child(Node::Element(child));
    let c = e.clone();
    assert_eq!(c.children.len(), 2);
    match &c.children[0] {
        Node::Text(t) => assert_eq!(t.text, "hi"),
        _ => panic!("expected a text child"),
    }
    match &c.children[1] {
        Node::Element(el) => {
            assert_eq!(el.tag.name(), "span");
            assert_eq!(el.attrs.entries.len(), 1);
            assert_eq!(el.attrs.entries[0].0, "id");
        }
        _ => panic!("expected an element child"),
    }
}

#[test]
fn clone_resets_callbacks_and_event_handlers() {
    let mut e = div();
    e.insert_handlers.push(on_insert(Some(7u32)));
    e.add_event_handler(EventHandler {
        trigger: "click".to_string(),
        msg: 1u32,
    });
    let mut child: El<u32> = El::empty(Tag::Std("span".to_string()));
    child.add_event_handler(EventHandler {
        trigger: "input".to_string(),
        msg: 2u32,
    });
    e.add_child(Node::Element(child));
    let c = e.clone();
    assert!(c.insert_handlers.is_empty());
    assert!(c.event_handler_manager.handlers.is_empty());
    match &c.children[0] {
        Node::Element(el) => assert!(el.event_handler_manager.handlers.is_empty()),
        _ => panic!("expected an element child"),
    }
}

#[test]
fn clone_carries_key_and_native_handle() {
    let mut e = div();
    e.key = Some(el_key("k1"));
    e.node_ws = Some(NativeHandle(9));
    e.refs.push(NativeRef(4));
    let c = e.clone();
    assert_eq!(c.key, Some(el_key("k1")));
    assert_eq!(c.node_ws, Some(NativeHandle(9)));
    assert_eq!(c.refs, vec![NativeRef(4)]);
}

#[test]
fn add_class_accumulates_with_single_spaces() {
    let mut e = div();
    e.add_class("b");
    e.add_class("c");
    assert_eq!(e.attrs.entries.len(), 1);
    assert_eq!(e.attrs.entries[0].0, "class");
    match &e.attrs.entries[0].1 {
        AttrValue::Val(v) => assert_eq!(v, "b c"),
        AttrValue::Flag => panic!("expected a value"),
    }
}

#[test]
fn add_class_does_not_deduplicate() {
    let mut e = div();
    e.add_class("b");
    e.add_class("b");
    match &e.attrs.entries[0].1 {
        AttrValue::Val(v) => assert_eq!(v, "b b"),
        AttrValue::Flag => panic!("expected a value"),
    }
}

#[test]
fn add_class_on_flag_or_empty_value_sets_the_name() {
    let mut e = div();
    e.add_attr("class".to_string(), AttrValue::Flag);
    e.add_class("b");
    match &e.attrs.entries[0].1 {
        AttrValue::Val(v) => assert_eq!(v, "b"),
        AttrValue::Flag => panic!("expected a value"),
    }
    let mut e2 = div();
    e2.add_attr("class".to_string(), AttrValue::Val(String::new()));
    e2.add_class("c");
    match &e2.attrs.entries[0].1 {
        AttrValue::Val(v) => assert_eq!(v, "c"),
        AttrValue::Flag => panic!("expected a value"),
    }
}

#[test]
fn add_class_appends_to_a_value_set_by_add_attr() {
    let mut e = div();
    e.add_attr("class".to_string(), AttrValue::Val("x".to_string()));
    e.add_class("y");
    match &e.attrs.entries[0].1 {
        AttrValue::Val(v) => assert_eq!(v, "x y"),
        AttrValue::Flag => panic!("expected a value"),
    }
}

#[test]
fn clone_copies_grandchildren() {
    let mut grandchild: El<u32> = El::empty(Tag::Std("i".to_string()));
    grandchild.add_text("deep".to_string());
    let mut child: El<u32> = El::empty(Tag::Std("span".to_string()));
    child.add_child(Node::Element(grandchild));
    let mut e = div();
    e.add_child(Node::Element(child));
    let c = e.clone();
    match &c.children[0] {
        Node::Element(ch) => match &ch.children[0] {
            Node::Element(gc) => {
                assert_eq!(gc.tag.name(), "i");
                assert_eq!(gc.get_text(), "deep");
            }
            _ => panic!("expected the grandchild element"),
        },
        _ => panic!("expected the child element"),
    }
}

#[test]
fn add_attr_overwrites_in_place() {
    let mut e = div();
    e.add_attr("id".to_string(), AttrValue::Val("a".to_string()));
    e.add_attr("href".to_string(), AttrValue::Val("h".to_string()));
    e.add_attr("id".to_string(), AttrValue::Val("b".to_string()));
    assert_eq!(e.attrs.entries.len(), 2);
    assert_eq!(e.attrs.entries[0].0, "id");
    match &e.attrs.entries[0].1 {
        AttrValue::Val(v) => assert_eq!(v, "b"),
        AttrValue::Flag => panic!("expected a value"),
    }
    assert_eq!(e.attrs.entries[1].0, "href");
}

#[test]
fn add_style_overwrites_in_place() {
    let mut e = div();
    e.add_style("color".to_string(), "red".to_string());
    e.add_style("display".to_string(), "block".to_string());
    e.add_style("color".to_string(), "blue".to_string());
    assert_eq!(e.style.entries.len(), 2);
    assert_eq!(e.style.entries[0], ("color".to_string(), "blue".to_string()));
    assert_eq!(
        e.style.entries[1],
        ("display".to_string(), "block".to_string())
    );
}

#[test]
fn add_text_appends_without_removing() {
    let mut e = div();
    e.add_text("a".to_string());
    e.add_text("b".to_string());
    assert_eq!(e.children.len(), 2);
    assert_eq!(e.get_text(), "ab");
}

#[test]
fn replace_text_keeps_non_text_children_in_order() {
    let mut e = div();
    e.add_text("a".to_string());
    e.add_child(span_node());
    e.add_text("b".to_string());
    e.replace_text("x".to_string());
    assert_eq!(e.children.len(), 2);
    match &e.children[0] {
        Node::Element(el) => assert_eq!(el.tag.name(), "span"),
        _ => panic!("expected the span first"),
    }
    match &e.children[1] {
        Node::Text(t) => assert_eq!(t.text, "x"),
        _ => panic!("expected the new text last"),
    }
}

#[test]
fn get_text_ignores_nested_text() {
    let mut e = div();
    e.add_text("a".to_string());
    let mut inner: El<u32> = El::empty(Tag::Std("span".to_string()));
    inner.add_text("ignored".to_string());
    e.add_child(Node::Element(inner));
    e.add_text("b".to_string());
    assert_eq!(e.get_text(), "ab");
}

#[test]
fn warn_about_script_tags_finds_nested_scripts() {
    let mut e = div();
    assert!(!e.warn_about_script_tags());
    e.add_child(Node::Element(El::empty(Tag::Std("script".to_string()))));
    assert!(e.warn_about_script_tags());
    let c: El<u32> = El::empty(Tag::Custom("script".to_string()));
    assert!(c.warn_about_script_tags());
}

#[test]
fn strip_removes_native_handles_everywhere() {
    let mut e = div();
    e.node_ws = Some(NativeHandle(1));
    let mut child: El<u32> = El::empty(Tag::Std("span".to_string()));
    child.node_ws = Some(NativeHandle(2));
    e.add_child(Node::Element(child));
    e.strip_ws_nodes_from_self_and_children();
    assert!(e.node_ws.is_none());
    match &e.children[0] {
        Node::Element(el) => assert!(el.node_ws.is_none()),
        _ => panic!("expected an element child"),
    }
}

#[test]
fn on_insert_holds_the_message() {
    let h = on_insert(Some(5u32));
    assert_eq!(h.msg, Some(5));
    let none: vdom_el::events::InsertEventHandler<u32> = on_insert(None);
    assert!(none.msg.is_none());
}

#[test]
fn text_node_constructors_agree() {
    let n: Node<u32> = Node::new_text("t".to_string());
    assert!(n.is_text());
    match n {
        Node::Text(t) => assert_eq!(t.text, Text::new("t".to_string()).text),
        _ => panic!("expected a text node"),
    }
}
