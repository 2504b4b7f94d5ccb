use vstd::prelude::*;
use crate::el::{
    El, Node, Text, el_struct_eq, node_struct_eq, el_resources_cleared, node_resources_cleared,
    key_view, ns_view,
};
use crate::events::{EventHandler, EventHandlerManager};
use crate::tag::Namespace;
use crate::ElKey;

verus! {

fn clone_opt_namespace(n: &Option<Namespace>) -> (r: Option<Namespace>)
    ensures
        ns_view(r) == ns_view(*n),
{
    match n {
        Option::Some(ns) => Option::Some(ns.clone()),
        Option::None => Option::None,
    }
}

fn clone_opt_key(k: &Option<ElKey>) -> (r: Option<ElKey>)
    ensures
        key_view(r) == key_view(*k),
{
    match k {
        Option::Some(kk) => Option::Some(kk.clone()),
        Option::None => Option::None,
    }
}

fn clone_refs(v: &Vec<crate::el::NativeRef>) -> (r: Vec<crate::el::NativeRef>)
    ensures
        r@ == v@,
{
    let n = v.len();
    let mut out: Vec<crate::el::NativeRef> = Vec::new();
    let mut i: usize = 0;
    while i < n
        invariant
            i <= n,
            n == v@.len(),
            out@ == v@.take(i as int),
        decreases n - i,
    {
        out.push(v[i]);
        i = i + 1;
        proof {
            assert(v@.take(i as int) =~= v@.take(i - 1).push(v@[i - 1]));
        }
    }
    proof {
        assert(v@.take(n as int) =~= v@);
    }
    out
}

fn clone_node<Ms>(n: &Node<Ms>) -> (r: Node<Ms>)
    ensures
        node_struct_eq(*n, r),
        node_resources_cleared(r),
    decreases *n,
{
    match n {
        Node::Element(e) => Node::Element(clone_el(e)),
        Node::Text(t) => Node::Text(t.clone()),
    }
}

fn clone_el<Ms>(e: &El<Ms>) -> (r: El<Ms>)
    ensures
        el_struct_eq(*e, r),
        el_resources_cleared(r),
    decreases *e,
{
    let n = e.children.len();
    let mut children: Vec<Node<Ms>> = Vec::new();
    let mut i: usize = 0;
    while i < n
        invariant
            i <= n,
            n == e.children@.len(),
            children@.len() == i,
            forall|j: int|
                0 <= j < i ==> node_struct_eq(e.children@[j], children@[j])
                    && node_resources_cleared(children@[j]),
        decreases n - i,
    {
        let c = clone_node(&e.children[i]);
        children.push(c);
        i = i + 1;
    }
    El {
        tag: e.tag.clone(),
        attrs: e.attrs.clone(),
        style: e.style.clone(),
        event_handler_manager: EventHandlerManager::new(),
        children,
        namespace: clone_opt_namespace(&e.namespace),
        node_ws: e.node_ws,
        refs: clone_refs(&e.refs),
        key: clone_opt_key(&e.key),
        insert_handlers: Vec::new(),
    }
}

impl<Ms> Clone for El<Ms> {
    /// A deep structural copy. The clone denotes the same native entity (the
    /// handle reference is carried over), but event bindings and
    /// post-insertion callbacks are resources of one physical attachment, so
    /// the clone starts with none anywhere in the copied subtree.
    fn clone(&self) -> (r: Self)
        ensures
            el_struct_eq(*self, r),
            el_resources_cleared(r),
    {
        clone_el(self)
    }
}

impl<Ms> Clone for Node<Ms> {
    /// A deep structural copy (see the element clone).
    fn clone(&self) -> (r: Self)
        ensures
            node_struct_eq(*self, r),
            node_resources_cleared(r),
    {
        clone_node(self)
    }
}

/// The result of re-typing an element with the conversion function `f`:
/// tag, attributes, style, namespace, native handle, observer references and
/// key are carried over unchanged; every event binding keeps its event name
/// and has its message rewritten through `f`; post-insertion callbacks are
/// discarded; children are re-typed by the same rule, depth-first and
/// order-preserving.
pub open spec fn el_mapped_by<A, B, F: Fn(A) -> B>(a: El<A>, b: El<B>, f: F) -> bool
    decreases a,
{
    &&& b.tag == a.tag
    &&& b.attrs == a.attrs
    &&& b.style == a.style
    &&& b.namespace == a.namespace
    &&& b.node_ws == a.node_ws
    &&& b.refs == a.refs
    &&& b.key == a.key
    &&& b.insert_handlers@.len() == 0
    &&& b.event_handler_manager.handlers@.len() == a.event_handler_manager.handlers@.len()
    &&& forall|i: int|
        0 <= i < a.event_handler_manager.handlers@.len() ==> {
            &&& b.event_handler_manager.handlers@[i].trigger@
                == a.event_handler_manager.handlers@[i].trigger@
            &&& call_ensures(
                f,
                (a.event_handler_manager.handlers@[i].msg,),
                b.event_handler_manager.handlers@[i].msg,
            )
        }
    &&& b.children@.len() == a.children@.len()
    &&& forall|i: int|
        0 <= i < a.children@.len() ==> node_mapped_by(a.children@[i], b.children@[i], f)
}

/// The result of re-typing a node (see `el_mapped_by`); text leaves are
/// carried over unchanged.
pub open spec fn node_mapped_by<A, B, F: Fn(A) -> B>(a: Node<A>, b: Node<B>, f: F) -> bool
    decreases a,
{
    match a {
        Node::Element(x) => match b {
            Node::Element(y) => el_mapped_by(x, y, f),
            Node::Text(_) => false,
        },
        Node::Text(x) => match b {
            Node::Text(y) => y == x,
            Node::Element(_) => false,
        },
    }
}

fn map_node<A, B, F: Fn(A) -> B>(n: Node<A>, f: &F) -> (r: Node<B>)
    requires
        forall|m: A| call_requires(f, (m,)),
    ensures
        node_mapped_by(n, r, f),
    decreases n,
{
    match n {
        Node::Element(el) => Node::Element(map_el(el, f)),
        Node::Text(t) => Node::Text(t),
    }
}

fn map_el<A, B, F: Fn(A) -> B>(e: El<A>, f: &F) -> (r: El<B>)
    requires
        forall|m: A| call_requires(f, (m,)),
    ensures
        el_mapped_by(e, r, f),
    decreases e,
{
    let ghost orig = e;
    let El {
        tag,
        attrs,
        style,
        event_handler_manager,
        children,
        namespace,
        node_ws,
        refs,
        key,
        insert_handlers,
    } = e;
    let mut hs = event_handler_manager.handlers;
    let ghost orig_hs = hs@;
    let mut new_hs: Vec<EventHandler<B>> = Vec::new();
    while hs.len() > 0
        invariant
            forall|m: A| call_requires(f, (m,)),
            new_hs@.len() + hs@.len() == orig_hs.len(),
            hs@ == orig_hs.skip(new_hs@.len() as int),
            forall|i: int|
                0 <= i < new_hs@.len() ==> new_hs@[i].trigger@ == orig_hs[i].trigger@
                    && call_ensures(f, (orig_hs[i].msg,), new_hs@[i].msg),
        decreases hs@.len(),
    {
        let ghost k = new_hs@.len() as int;
        let h = hs.remove(0);
        proof {
            assert(h == orig_hs[k]);
            assert(hs@ =~= orig_hs.skip(k + 1));
        }
        let EventHandler { trigger, msg } = h;
        let m2 = f(msg);
        new_hs.push(EventHandler { trigger, msg: m2 });
    }
    let mut cs = children;
    let ghost orig_cs = cs@;
    let mut new_cs: Vec<Node<B>> = Vec::new();
    while cs.len() > 0
        invariant
            forall|m: A| call_requires(f, (m,)),
            new_cs@.len() + cs@.len() == orig_cs.len(),
            cs@ == orig_cs.skip(new_cs@.len() as int),
            orig == e,
            orig_cs == orig.children@,
            forall|i: int| 0 <= i < new_cs@.len() ==> node_mapped_by(orig_cs[i], new_cs@[i], f),
        decreases cs@.len(),
    {
        let ghost k = new_cs@.len() as int;
        let c = cs.remove(0);
        proof {
            assert(c == orig_cs[k]);
            assert(cs@ =~= orig_cs.skip(k + 1));
            assert(decreases_to!(orig => orig.children));
            assert(decreases_to!(orig.children => orig.children@[k]));
            assert(decreases_to!(orig => c));
        }
        let nc = map_node(c, f);
        new_cs.push(nc);
    }
    El {
        tag,
        attrs,
        style,
        event_handler_manager: EventHandlerManager { handlers: new_hs },
        children: new_cs,
        namespace,
        node_ws,
        refs,
        key,
        insert_handlers: Vec::new(),
    }
}

impl<Ms> El<Ms> {
    /// Re-type an element from message type `Ms` to `OtherMs` by rewriting
    /// every message-producing binding through `f`, which must be callable
    /// on any message, any number of times. Structure, key and carried
    /// fields are preserved at every depth; post-insertion callbacks are
    /// intentionally discarded, since a one-shot callback cannot be safely
    /// re-typed (re-register after mapping when needed).
    pub fn map_msg<OtherMs, F: Fn(Ms) -> OtherMs>(self, f: &F) -> (r: El<OtherMs>)
        requires
            forall|m: Ms| call_requires(f, (m,)),
        ensures
            el_mapped_by(self, r, f),
    {
        map_el(self, f)
    }
}

impl<Ms> Node<Ms> {
    /// Re-type a node (see the element `map_msg`).
    pub fn map_msg<OtherMs, F: Fn(Ms) -> OtherMs>(self, f: &F) -> (r: Node<OtherMs>)
        requires
            forall|m: Ms| call_requires(f, (m,)),
        ensures
            node_mapped_by(self, r, f),
    {
        map_node(self, f)
    }
}

/// Re-type a list of elements, in order (see the element `map_msg`).
pub fn els_map_msg<Ms, OtherMs, F: Fn(Ms) -> OtherMs>(els: Vec<El<Ms>>, f: &F) -> (r: Vec<
    El<OtherMs>,
>)
    requires
        forall|m: Ms| call_requires(f, (m,)),
    ensures
        r@.len() == els@.len(),
        forall|i: int| 0 <= i < els@.len() ==> el_mapped_by(els@[i], r@[i], f),
{
    let ghost orig = els@;
    let mut input = els;
    let mut out: Vec<El<OtherMs>> = Vec::new();
    while input.len() > 0
        invariant
            forall|m: Ms| call_requires(f, (m,)),
            out@.len() + input@.len() == orig.len(),
            input@ == orig.skip(out@.len() as int),
            forall|i: int| 0 <= i < out@.len() ==> el_mapped_by(orig[i], out@[i], f),
        decreases input@.len(),
    {
        let ghost k = out@.len() as int;
        let e = input.remove(0);
        proof {
            assert(e == orig[k]);
            assert(input@ =~= orig.skip(k + 1));
        }
        let ne = e.map_msg(f);
        out.push(ne);
    }
    out
}

/// The result of dropping every native-handle reference in a subtree:
/// `node_ws` is cleared at every depth and everything else is untouched.
pub open spec fn el_stripped<Ms>(a: El<Ms>, b: El<Ms>) -> bool
    decreases a,
{
    &&& b.node_ws is None
    &&& b.tag == a.tag
    &&& b.attrs == a.attrs
    &&& b.style == a.style
    &&& b.event_handler_manager == a.event_handler_manager
    &&& b.namespace == a.namespace
    &&& b.refs == a.refs
    &&& b.key == a.key
    &&& b.insert_handlers == a.insert_handlers
    &&& b.children@.len() == a.children@.len()
    &&& forall|i: int| 0 <= i < a.children@.len() ==> node_stripped(a.children@[i], b.children@[i])
}

pub open spec fn node_stripped<Ms>(a: Node<Ms>, b: Node<Ms>) -> bool
    decreases a,
{
    match a {
        Node::Element(x) => match b {
            Node::Element(y) => el_stripped(x, y),
            Node::Text(_) => false,
        },
        Node::Text(x) => match b {
            Node::Text(y) => y == x,
            Node::Element(_) => false,
        },
    }
}

fn strip_node<Ms>(n: Node<Ms>) -> (r: Node<Ms>)
    ensures
        node_stripped(n, r),
    decreases n,
{
    match n {
        Node::Element(e) => Node::Element(strip_el(e)),
        Node::Text(t) => Node::Text(t),
    }
}

fn strip_el<Ms>(e: El<Ms>) -> (r: El<Ms>)
    ensures
        el_stripped(e, r),
    decreases e,
{
    let ghost orig = e;
    let El {
        tag,
        attrs,
        style,
        event_handler_manager,
        children,
        namespace,
        node_ws,
        refs,
        key,
        insert_handlers,
    } = e;
    let mut cs = children;
    let ghost orig_cs = cs@;
    let mut new_cs: Vec<Node<Ms>> = Vec::new();
    while cs.len() > 0
        invariant
            new_cs@.len() + cs@.len() == orig_cs.len(),
            cs@ == orig_cs.skip(new_cs@.len() as int),
            orig == e,
            orig_cs == orig.children@,
            forall|i: int| 0 <= i < new_cs@.len() ==> node_stripped(orig_cs[i], new_cs@[i]),
        decreases cs@.len(),
    {
        let ghost k = new_cs@.len() as int;
        let c = cs.remove(0);
        proof {
            assert(c == orig_cs[k]);
            assert(cs@ =~= orig_cs.skip(k + 1));
            assert(decreases_to!(orig => orig.children));
            assert(decreases_to!(orig.children => orig.children@[k]));
            assert(decreases_to!(orig => c));
        }
        let nc = strip_node(c);
        new_cs.push(nc);
    }
    El {
        tag,
        attrs,
        style,
        event_handler_manager,
        children: new_cs,
        namespace,
        node_ws: Option::None,
        refs,
        key,
        insert_handlers,
    }
}

impl<Ms> El<Ms> {
    /// Drop the native-handle reference held by this element and by every
    /// element below it; nothing else changes.
    pub fn strip_ws_nodes_from_self_and_children(&mut self)
        ensures
            el_stripped(*old(self), *final(self)),
    {
        let mut tmp = El::empty(crate::tag::Tag::Std(String::new()));
        core::mem::swap(self, &mut tmp);
        let stripped = strip_el(tmp);
        *self = stripped;
    }
}

impl<Ms> Node<Ms> {
    /// Drop the native-handle references in this node's subtree (see the
    /// element method).
    pub fn strip_ws_nodes_from_self_and_children(&mut self)
        ensures
            node_stripped(*old(self), *final(self)),
    {
        let mut tmp = Node::Text(Text::new(String::new()));
        core::mem::swap(self, &mut tmp);
        let stripped = strip_node(tmp);
        *self = stripped;
    }
}

/// Re-type a list of nodes, in order (see the element `map_msg`).
pub fn nodes_map_msg<Ms, OtherMs, F: Fn(Ms) -> OtherMs>(nodes: Vec<Node<Ms>>, f: &F) -> (r: Vec<
    Node<OtherMs>,
>)
    requires
        forall|m: Ms| call_requires(f, (m,)),
    ensures
        r@.len() == nodes@.len(),
        forall|i: int| 0 <= i < nodes@.len() ==> node_mapped_by(nodes@[i], r@[i], f),
{
    let ghost orig = nodes@;
    let mut input = nodes;
    let mut out: Vec<Node<OtherMs>> = Vec::new();
    while input.len() > 0
        invariant
            forall|m: Ms| call_requires(f, (m,)),
            out@.len() + input@.len() == orig.len(),
            input@ == orig.skip(out@.len() as int),
            forall|i: int| 0 <= i < out@.len() ==> node_mapped_by(orig[i], out@[i], f),
        decreases input@.len(),
    {
        let ghost k = out@.len() as int;
        let n = input.remove(0);
        proof {
            assert(n == orig[k]);
            assert(input@ =~= orig.skip(k + 1));
        }
        let nn = n.map_msg(f);
        out.push(nn);
    }
    out
}

/// Re-typing preserves structure: an element and its re-typed image are
/// structurally equal — same tag, attributes, style, namespace, native
/// handle, references and key, and children preserved in count and order at
/// every depth.
pub proof fn lemma_mapped_preserves_structure<A, B, F: Fn(A) -> B>(a: El<A>, b: El<B>, f: F)
    requires
        el_mapped_by(a, b, f),
    ensures
        el_struct_eq(a, b),
    decreases a,
{
    assert forall|i: int| 0 <= i < a.children@.len() implies node_struct_eq(
        a.children@[i],
        b.children@[i],
    ) by {
        lemma_node_mapped_preserves_structure(a.children@[i], b.children@[i], f);
    }
}

/// Re-typing preserves structure, node form (see the element lemma).
pub proof fn lemma_node_mapped_preserves_structure<A, B, F: Fn(A) -> B>(
    a: Node<A>,
    b: Node<B>,
    f: F,
)
    requires
        node_mapped_by(a, b, f),
    ensures
        node_struct_eq(a, b),
    decreases a,
{
    match a {
        Node::Element(x) => match b {
            Node::Element(y) => lemma_mapped_preserves_structure(x, y, f),
            Node::Text(_) => (),
        },
        Node::Text(x) => (),
    }
}

} // verus!
