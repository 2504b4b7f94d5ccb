use vstd::prelude::*;
use vstd::string::StringExecFns;
use crate::strutil::str_eq;
use crate::attrs::{
    Attrs, AttrValue, Style, attrs_view, attr_value_view, style_view, insert_entry,
    insert_style_entry, add_class_entries,
};
use crate::events::{EventHandler, EventHandlerManager, InsertEventHandler};
use crate::tag::{Tag, Namespace, tag_name, ns_name};
use crate::ElKey;

verus! {

/// An opaque reference to the real rendered-tree node an element currently
/// denotes. It is only ever written by the external reconciler; this core
/// reads it, carries it, or drops it, and never allocates or frees one.
#[derive(Clone, Copy, PartialEq, Eq, Structural, Debug)]
pub struct NativeHandle(pub u64);

/// A weak observer registration through which external code watches the
/// native handle once it is bound: an observer, never an owner.
#[derive(Clone, Copy, PartialEq, Eq, Structural, Debug)]
pub struct NativeRef(pub u64);

/// A leaf node holding literal text content.
pub struct Text {
    pub text: String,
}

impl Text {
    pub fn new(text: String) -> (r: Text)
        ensures
            r == (Text { text: text }),
    {
        Text { text }
    }
}

impl Clone for Text {
    fn clone(&self) -> (r: Self)
        ensures
            r.text@ == self.text@,
    {
        Text { text: self.text.clone() }
    }
}

/// The polymorphic node container consumed by children lists and by the
/// external reconciler.
pub enum Node<Ms> {
    Element(El<Ms>),
    Text(Text),
}

/// One element of the virtual tree: tag, attributes, style, event bindings,
/// ordered children, optional namespace, the optional attached native
/// handle, observer back-references, optional identity key, and the pending
/// post-insertion callbacks.
pub struct El<Ms> {
    pub tag: Tag,
    pub attrs: Attrs,
    pub style: Style,
    pub event_handler_manager: EventHandlerManager<Ms>,
    pub children: Vec<Node<Ms>>,
    pub namespace: Option<Namespace>,
    pub node_ws: Option<NativeHandle>,
    pub refs: Vec<NativeRef>,
    pub key: Option<ElKey>,
    pub insert_handlers: Vec<InsertEventHandler<Ms>>,
}

/// The identity key of an element, by content.
pub open spec fn key_view(k: Option<ElKey>) -> Option<Seq<char>> {
    match k {
        Option::Some(kk) => Option::Some(kk@),
        Option::None => Option::None,
    }
}

/// The namespace of an element, by its rendered string.
pub open spec fn ns_view(n: Option<Namespace>) -> Option<Seq<char>> {
    match n {
        Option::Some(ns) => Option::Some(ns_name(ns)),
        Option::None => Option::None,
    }
}

/// Two tags carry the same identity: same rendered name, and both custom or
/// both standard.
pub open spec fn tag_eq(a: Tag, b: Tag) -> bool {
    tag_name(a) == tag_name(b) && (a is Custom <==> b is Custom)
}

/// The event bindings of an element, as (event name, message) pairs in order.
pub open spec fn handlers_view<Ms>(m: EventHandlerManager<Ms>) -> Seq<(Seq<char>, Ms)> {
    m.handlers@.map(|i: int, h: EventHandler<Ms>| (h.trigger@, h.msg))
}

/// Structural equality of two elements, possibly of different message
/// types: tag, attributes, style, namespace, native handle, observer
/// references, key, and children (recursively, in order) agree. Event
/// bindings and post-insertion callbacks are resources tied to one native
/// attachment, not structure, so they are not compared.
pub open spec fn el_struct_eq<A, B>(a: El<A>, b: El<B>) -> bool
    decreases a,
{
    &&& tag_eq(a.tag, b.tag)
    &&& attrs_view(b.attrs) == attrs_view(a.attrs)
    &&& style_view(b.style) == style_view(a.style)
    &&& ns_view(b.namespace) == ns_view(a.namespace)
    &&& b.node_ws == a.node_ws
    &&& b.refs@ == a.refs@
    &&& key_view(b.key) == key_view(a.key)
    &&& b.children@.len() == a.children@.len()
    &&& forall|i: int|
        0 <= i < a.children@.len() ==> node_struct_eq(a.children@[i], b.children@[i])
}

/// Structural equality of two nodes (see `el_struct_eq`).
pub open spec fn node_struct_eq<A, B>(a: Node<A>, b: Node<B>) -> bool
    decreases a,
{
    match a {
        Node::Element(x) => match b {
            Node::Element(y) => el_struct_eq(x, y),
            Node::Text(_) => false,
        },
        Node::Text(x) => match b {
            Node::Text(y) => x.text@ == y.text@,
            Node::Element(_) => false,
        },
    }
}

/// No live attachment resources anywhere in the subtree: every event
/// binding set and every post-insertion callback list is empty.
pub open spec fn el_resources_cleared<Ms>(e: El<Ms>) -> bool
    decreases e,
{
    &&& e.event_handler_manager.handlers@.len() == 0
    &&& e.insert_handlers@.len() == 0
    &&& forall|i: int| 0 <= i < e.children@.len() ==> node_resources_cleared(e.children@[i])
}

pub open spec fn node_resources_cleared<Ms>(n: Node<Ms>) -> bool
    decreases n,
{
    match n {
        Node::Element(x) => el_resources_cleared(x),
        Node::Text(_) => true,
    }
}

/// All fields of two elements agree except possibly the children list.
pub open spec fn same_but_children<Ms>(a: El<Ms>, b: El<Ms>) -> bool {
    &&& b.tag == a.tag
    &&& b.attrs == a.attrs
    &&& b.style == a.style
    &&& b.event_handler_manager == a.event_handler_manager
    &&& b.namespace == a.namespace
    &&& b.node_ws == a.node_ws
    &&& b.refs == a.refs
    &&& b.key == a.key
    &&& b.insert_handlers == a.insert_handlers
}

/// All fields of two elements agree except possibly the attributes.
pub open spec fn same_but_attrs<Ms>(a: El<Ms>, b: El<Ms>) -> bool {
    &&& b.tag == a.tag
    &&& b.style == a.style
    &&& b.event_handler_manager == a.event_handler_manager
    &&& b.children == a.children
    &&& b.namespace == a.namespace
    &&& b.node_ws == a.node_ws
    &&& b.refs == a.refs
    &&& b.key == a.key
    &&& b.insert_handlers == a.insert_handlers
}

/// All fields of two elements agree except possibly the style.
pub open spec fn same_but_style<Ms>(a: El<Ms>, b: El<Ms>) -> bool {
    &&& b.tag == a.tag
    &&& b.attrs == a.attrs
    &&& b.event_handler_manager == a.event_handler_manager
    &&& b.children == a.children
    &&& b.namespace == a.namespace
    &&& b.node_ws == a.node_ws
    &&& b.refs == a.refs
    &&& b.key == a.key
    &&& b.insert_handlers == a.insert_handlers
}

/// All fields of two elements agree except possibly the event bindings.
pub open spec fn same_but_handlers<Ms>(a: El<Ms>, b: El<Ms>) -> bool {
    &&& b.tag == a.tag
    &&& b.attrs == a.attrs
    &&& b.style == a.style
    &&& b.children == a.children
    &&& b.namespace == a.namespace
    &&& b.node_ws == a.node_ws
    &&& b.refs == a.refs
    &&& b.key == a.key
    &&& b.insert_handlers == a.insert_handlers
}

/// Whether a node is a text leaf.
pub open spec fn is_text_node<Ms>(n: Node<Ms>) -> bool {
    n is Text
}

/// The non-text children, in their original relative order.
pub open spec fn keep_non_text<Ms>(s: Seq<Node<Ms>>) -> Seq<Node<Ms>>
    decreases s.len(),
{
    if s.len() == 0 {
        Seq::empty()
    } else if is_text_node(s.last()) {
        keep_non_text(s.drop_last())
    } else {
        keep_non_text(s.drop_last()).push(s.last())
    }
}

/// The concatenated content of the direct text children, in child order,
/// with no separator; other children contribute nothing.
pub open spec fn texts_concat<Ms>(s: Seq<Node<Ms>>) -> Seq<char>
    decreases s.len(),
{
    if s.len() == 0 {
        Seq::empty()
    } else {
        texts_concat(s.drop_last()) + (match s.last() {
            Node::Text(t) => t.text@,
            Node::Element(_) => Seq::empty(),
        })
    }
}

/// Whether the tag names a script element.
pub open spec fn is_script_tag(t: Tag) -> bool {
    tag_name(t) == "script"@
}

/// A script tag occurs on the element itself or somewhere below it.
pub open spec fn el_has_script<Ms>(e: El<Ms>) -> bool
    decreases e,
{
    is_script_tag(e.tag) || exists|i: int|
        0 <= i < e.children@.len() && node_has_script(e.children@[i])
}

pub open spec fn node_has_script<Ms>(n: Node<Ms>) -> bool
    decreases n,
{
    match n {
        Node::Element(x) => el_has_script(x),
        Node::Text(_) => false,
    }
}

/// Elements whose identity keys differ stay distinct for the reconciler's
/// key correspondence, across any operations that preserve structure — in
/// particular across cloning and re-typing, whose contracts give structural
/// equality with the original.
pub proof fn lemma_key_distinction_preserved<A, B, C, D>(a: El<A>, b: El<B>, a2: El<C>, b2: El<D>)
    requires
        el_struct_eq(a, a2),
        el_struct_eq(b, b2),
        key_view(a.key) != key_view(b.key),
    ensures
        key_view(a2.key) != key_view(b2.key),
{
}

impl<Ms> Node<Ms> {
    /// Does a script tag occur anywhere in this node?
    pub fn warn_about_script_tags(&self) -> (r: bool)
        ensures
            r == node_has_script(*self),
        decreases *self,
    {
        match self {
            Node::Element(e) => e.warn_about_script_tags(),
            Node::Text(_) => false,
        }
    }

    pub fn new_text(text: String) -> (r: Node<Ms>)
        ensures
            r == (Node::<Ms>::Text(Text { text: text })),
    {
        Node::Text(Text::new(text))
    }

    pub fn is_text(&self) -> (r: bool)
        ensures
            r == is_text_node(*self),
    {
        match self {
            Node::Text(_) => true,
            Node::Element(_) => false,
        }
    }
}

impl<Ms> El<Ms> {
    /// An element with only its tag: no attributes, no style, no children,
    /// no key, no callbacks, no namespace, and no native attachment.
    pub fn empty(tag: Tag) -> (r: El<Ms>)
        ensures
            r.tag == tag,
            attrs_view(r.attrs).len() == 0,
            style_view(r.style).len() == 0,
            r.event_handler_manager.handlers@.len() == 0,
            r.children@.len() == 0,
            r.namespace is None,
            r.node_ws is None,
            r.refs@.len() == 0,
            r.key is None,
            r.insert_handlers@.len() == 0,
    {
        El {
            tag,
            attrs: Attrs::empty(),
            style: Style::empty(),
            event_handler_manager: EventHandlerManager::new(),
            children: Vec::new(),
            namespace: Option::None,
            node_ws: Option::None,
            refs: Vec::new(),
            key: Option::None,
            insert_handlers: Vec::new(),
        }
    }

    /// An empty element with the given namespace.
    pub fn empty_with_namespace(tag: Tag, ns: Namespace) -> (r: El<Ms>)
        ensures
            r.tag == tag,
            attrs_view(r.attrs).len() == 0,
            style_view(r.style).len() == 0,
            r.event_handler_manager.handlers@.len() == 0,
            r.children@.len() == 0,
            r.namespace == Option::Some(ns),
            r.node_ws is None,
            r.refs@.len() == 0,
            r.key is None,
            r.insert_handlers@.len() == 0,
    {
        let mut el = El::empty(tag);
        el.namespace = Option::Some(ns);
        el
    }

    /// An empty element in the SVG namespace.
    pub fn empty_svg(tag: Tag) -> (r: El<Ms>)
        ensures
            r.tag == tag,
            attrs_view(r.attrs).len() == 0,
            style_view(r.style).len() == 0,
            r.event_handler_manager.handlers@.len() == 0,
            r.children@.len() == 0,
            r.namespace == Option::Some(Namespace::Svg),
            r.node_ws is None,
            r.refs@.len() == 0,
            r.key is None,
            r.insert_handlers@.len() == 0,
    {
        El::empty_with_namespace(tag, Namespace::Svg)
    }

    /// Append a child node at the end of the children list.
    pub fn add_child(&mut self, element: Node<Ms>)
        ensures
            final(self).children@ == old(self).children@.push(element),
            same_but_children(*old(self), *final(self)),
    {
        self.children.push(element);
    }

    /// Insert or overwrite the attribute under `key`; the last write wins.
    pub fn add_attr(&mut self, key: String, val: AttrValue)
        ensures
            attrs_view(final(self).attrs) == insert_entry(
                attrs_view(old(self).attrs),
                key@,
                attr_value_view(val),
            ),
            same_but_attrs(*old(self), *final(self)),
    {
        self.attrs.insert(key, val);
    }

    /// Merge a class name into the `class` attribute (see
    /// `Attrs::add_class`).
    pub fn add_class(&mut self, name: &str)
        ensures
            attrs_view(final(self).attrs) == add_class_entries(
                attrs_view(old(self).attrs),
                name@,
            ),
            same_but_attrs(*old(self), *final(self)),
    {
        self.attrs.add_class(name);
    }

    /// Insert or overwrite the style value under `key`; the last write wins.
    pub fn add_style(&mut self, key: String, val: String)
        ensures
            style_view(final(self).style) == insert_style_entry(
                style_view(old(self).style),
                key@,
                val@,
            ),
            same_but_style(*old(self), *final(self)),
    {
        self.style.insert(key, val);
    }

    /// Append one event binding after the ones already held.
    pub fn add_event_handler(&mut self, event_handler: EventHandler<Ms>)
        ensures
            final(self).event_handler_manager.handlers@ == old(
                self,
            ).event_handler_manager.handlers@.push(event_handler),
            same_but_handlers(*old(self), *final(self)),
    {
        let mut one = Vec::new();
        one.push(event_handler);
        self.event_handler_manager.add_event_handlers(one);
        proof {
            assert(self.event_handler_manager.handlers@ =~= old(
                self,
            ).event_handler_manager.handlers@.push(event_handler));
        }
    }

    /// Append a new text child at the end of the children list; existing
    /// text children stay where they are.
    pub fn add_text(&mut self, text: String)
        ensures
            final(self).children@ == old(self).children@.push((Node::Text(Text { text: text }))),
            same_but_children(*old(self), *final(self)),
    {
        self.children.push(Node::Text(Text::new(text)));
    }

    /// Remove every text child (keeping the relative order of the others),
    /// then append one new text child at the end.
    pub fn replace_text(&mut self, text: String)
        ensures
            final(self).children@ == keep_non_text(old(self).children@).push(
                (Node::Text(Text { text: text })),
            ),
            same_but_children(*old(self), *final(self)),
    {
        let ghost orig = self.children@;
        let n = self.children.len();
        let mut out: Vec<Node<Ms>> = Vec::new();
        let mut j: usize = 0;
        while j < n
            invariant
                j <= n,
                n == orig.len(),
                self.children@ == orig.skip(j as int),
                out@ == keep_non_text(orig.take(j as int)),
                same_but_children(*old(self), *self),
            decreases n - j,
        {
            let c = self.children.remove(0);
            proof {
                assert(c == orig[j as int]);
                assert(orig.take(j + 1).drop_last() =~= orig.take(j as int));
                assert(orig.take(j + 1).last() == orig[j as int]);
                assert(self.children@ =~= orig.skip(j + 1));
            }
            if !c.is_text() {
                out.push(c);
            }
            j = j + 1;
        }
        out.push(Node::Text(Text::new(text)));
        self.children = out;
        proof {
            assert(orig.take(n as int) =~= orig);
        }
    }

    /// The concatenated content of the direct text children, in order.
    pub fn get_text(&self) -> (r: String)
        ensures
            r@ == texts_concat(self.children@),
    {
        let mut out = String::new();
        let n = self.children.len();
        let mut j: usize = 0;
        while j < n
            invariant
                j <= n,
                n == self.children@.len(),
                out@ == texts_concat(self.children@.take(j as int)),
            decreases n - j,
        {
            match &self.children[j] {
                Node::Text(t) => {
                    out.append(t.text.as_str());
                },
                Node::Element(_) => {
                },
            }
            j = j + 1;
            proof {
                assert(self.children@.take(j as int).drop_last() =~= self.children@.take(j - 1));
                assert(self.children@.take(j as int).last() == self.children@[j - 1]);
            }
        }
        proof {
            assert(self.children@.take(n as int) =~= self.children@);
        }
        out
    }

    /// Does a script tag occur on this element or anywhere below it?
    /// Mounting over script tags is a known hazard, so callers surface a
    /// warning when this holds.
    pub fn warn_about_script_tags(&self) -> (r: bool)
        ensures
            r == el_has_script(*self),
        decreases *self,
    {
        let name = self.tag.name();
        let mut found = str_eq(name.as_str(), "script");
        let n = self.children.len();
        let mut i: usize = 0;
        while i < n
            invariant
                i <= n,
                n == self.children@.len(),
                found == (is_script_tag(self.tag) || exists|j: int|
                    0 <= j < i && node_has_script(self.children@[j])),
            decreases n - i,
        {
            proof {
                assert(decreases_to!(*self => self.children));
                assert(decreases_to!(self.children => self.children@[i as int]));
            }
            let child_found = self.children[i].warn_about_script_tags();
            proof {
                if child_found {
                    assert(node_has_script(self.children@[i as int]));
                }
            }
            if child_found {
                found = true;
            }
            i = i + 1;
        }
        found
    }

    /// Is the element's tag a custom one?
    pub fn is_custom(&self) -> (r: bool)
        ensures
            r == (self.tag is Custom),
    {
        match &self.tag {
            Tag::Custom(_) => true,
            Tag::Std(_) => false,
        }
    }
}

} // verus!
