use vstd::prelude::*;
use vstd::string::StringExecFns;
use crate::attrs::{AttrValue, Style, attrs_view, attr_value_view, style_view};
use crate::el::{El, Node};
use crate::tag::{tag_name, ns_name, is_void_tag, tag_is_void};

verus! {

/// One attribute as rendered in an opening tag: `name="value"`, or the bare
/// name when the attribute carries no value.
pub open spec fn render_attr_pair(p: (Seq<char>, Option<Seq<char>>)) -> Seq<char> {
    match p.1 {
        Option::Some(v) => p.0 + "=\""@ + v + "\""@,
        Option::None => p.0,
    }
}

/// Attributes rendered in order, separated by single spaces.
pub open spec fn render_attr_list(s: Seq<(Seq<char>, Option<Seq<char>>)>) -> Seq<char>
    decreases s.len(),
{
    if s.len() == 0 {
        Seq::empty()
    } else if s.len() == 1 {
        render_attr_pair(s[0])
    } else {
        render_attr_list(s.drop_last()) + " "@ + render_attr_pair(s.last())
    }
}

/// One style entry as rendered inside the synthesized `style` attribute.
pub open spec fn render_style_pair(p: (Seq<char>, Seq<char>)) -> Seq<char> {
    p.0 + ":"@ + p.1
}

/// Style entries rendered in order, separated by semicolons.
pub open spec fn render_style_list(s: Seq<(Seq<char>, Seq<char>)>) -> Seq<char>
    decreases s.len(),
{
    if s.len() == 0 {
        Seq::empty()
    } else if s.len() == 1 {
        render_style_pair(s[0])
    } else {
        render_style_list(s.drop_last()) + ";"@ + render_style_pair(s.last())
    }
}

/// Everything the opening tag carries, in order: the explicit attributes as
/// stored, then a synthesized `style` attribute when the style is non-empty,
/// then a synthesized `xmlns` attribute when a namespace is set.
pub open spec fn full_attr_entries<Ms>(e: El<Ms>) -> Seq<(Seq<char>, Option<Seq<char>>)> {
    let base = attrs_view(e.attrs);
    let with_style = if style_view(e.style).len() > 0 {
        base.push(("style"@, Option::Some(render_style_list(style_view(e.style)))))
    } else {
        base
    };
    match e.namespace {
        Option::Some(ns) => with_style.push(("xmlns"@, Option::Some(ns_name(ns)))),
        Option::None => with_style,
    }
}

/// The markup of an element: the opening tag with its attributes (preceded
/// by one space when any render), the children in order, and — unless the
/// tag is a void tag — the closing tag. A pure projection of the virtual
/// tree; the native handle plays no part in it.
pub open spec fn render_el<Ms>(e: El<Ms>) -> Seq<char>
    decreases e,
{
    let attrs_str = render_attr_list(full_attr_entries(e));
    let open = "<"@ + tag_name(e.tag) + (if attrs_str.len() == 0 {
        Seq::<char>::empty()
    } else {
        " "@ + attrs_str
    }) + ">"@;
    let close = if is_void_tag(e.tag) {
        Seq::<char>::empty()
    } else {
        "</"@ + tag_name(e.tag) + ">"@
    };
    open + render_nodes(e.children@) + close
}

/// The markup of one node: an element renders as markup, a text leaf as its
/// literal content.
pub open spec fn render_node<Ms>(n: Node<Ms>) -> Seq<char>
    decreases n,
{
    match n {
        Node::Element(e) => render_el(e),
        Node::Text(t) => t.text@,
    }
}

/// The markup of a children list, concatenated in order.
pub open spec fn render_nodes<Ms>(s: Seq<Node<Ms>>) -> Seq<char>
    decreases s,
{
    if s.len() == 0 {
        Seq::empty()
    } else {
        render_nodes(s.subrange(0, s.len() - 1)) + render_node(s[s.len() - 1])
    }
}

/// The view of an optional owned attribute value.
pub open spec fn opt_string_view(o: Option<String>) -> Option<Seq<char>> {
    match o {
        Option::Some(s) => Option::Some(s@),
        Option::None => Option::None,
    }
}

/// Owned (name, optional value) pairs, seen as their views.
pub open spec fn pairs_view(s: Seq<(String, Option<String>)>) -> Seq<
    (Seq<char>, Option<Seq<char>>),
> {
    s.map(|i: int, p: (String, Option<String>)| (p.0@, opt_string_view(p.1)))
}

fn push_attr_pair(out: &mut String, k: &String, v: &Option<String>)
    ensures
        final(out)@ == old(out)@ + render_attr_pair((k@, opt_string_view(*v))),
{
    match v {
        Option::Some(val) => {
            out.append(k.as_str());
            out.append("=\"");
            out.append(val.as_str());
            out.append("\"");
        },
        Option::None => {
            out.append(k.as_str());
        },
    }
}

fn render_pairs(v: &Vec<(String, Option<String>)>) -> (r: String)
    ensures
        r@ == render_attr_list(pairs_view(v@)),
{
    let mut out = String::new();
    let n = v.len();
    let mut i: usize = 0;
    while i < n
        invariant
            i <= n,
            n == v@.len(),
            out@ == render_attr_list(pairs_view(v@).take(i as int)),
        decreases n - i,
    {
        if i > 0 {
            out.append(" ");
        }
        push_attr_pair(&mut out, &v[i].0, &v[i].1);
        i = i + 1;
        proof {
            assert(pairs_view(v@).take(i as int).drop_last() =~= pairs_view(v@).take(i - 1));
            assert(pairs_view(v@).take(i as int).last() == pairs_view(v@)[i - 1]);
        }
    }
    proof {
        assert(pairs_view(v@).take(n as int) =~= pairs_view(v@));
    }
    out
}

/// Render the style entries as the single synthesized `style` attribute
/// value.
pub fn render_style(style: &Style) -> (r: String)
    ensures
        r@ == render_style_list(style_view(*style)),
{
    let mut out = String::new();
    let n = style.entries.len();
    let mut i: usize = 0;
    while i < n
        invariant
            i <= n,
            n == style.entries@.len(),
            out@ == render_style_list(style_view(*style).take(i as int)),
        decreases n - i,
    {
        if i > 0 {
            out.append(";");
        }
        out.append(style.entries[i].0.as_str());
        out.append(":");
        out.append(style.entries[i].1.as_str());
        i = i + 1;
        proof {
            assert(style_view(*style).take(i as int).drop_last() =~= style_view(*style).take(
                i - 1,
            ));
            assert(style_view(*style).take(i as int).last() == style_view(*style)[i - 1]);
        }
    }
    proof {
        assert(style_view(*style).take(n as int) =~= style_view(*style));
    }
    out
}

impl<Ms> El<Ms> {
    /// Serialize the element and, recursively, its children to markup.
    pub fn to_markup(&self) -> (r: String)
        ensures
            r@ == render_el(*self),
        decreases *self,
    {
        let mut pairs: Vec<(String, Option<String>)> = Vec::new();
        let na = self.attrs.entries.len();
        let mut i: usize = 0;
        while i < na
            invariant
                i <= na,
                na == self.attrs.entries@.len(),
                pairs@.len() == i,
                forall|j: int|
                    0 <= j < i ==> pairs@[j].0@ == self.attrs.entries@[j].0@ && opt_string_view(
                        pairs@[j].1,
                    ) == attr_value_view(self.attrs.entries@[j].1),
            decreases na - i,
        {
            let k = self.attrs.entries[i].0.clone();
            let v: Option<String> = match &self.attrs.entries[i].1 {
                AttrValue::Val(s) => Option::Some(s.clone()),
                AttrValue::Flag => Option::None,
            };
            pairs.push((k, v));
            i = i + 1;
        }
        proof {
            assert(pairs_view(pairs@) =~= attrs_view(self.attrs));
        }
        if !self.style.entries.is_empty() {
            let style_str = render_style(&self.style);
            pairs.push(("style".to_owned(), Option::Some(style_str)));
        }
        match &self.namespace {
            Option::Some(ns) => {
                pairs.push(("xmlns".to_owned(), Option::Some(ns.as_string())));
            },
            Option::None => {},
        }
        proof {
            assert(pairs_view(pairs@) =~= full_attr_entries(*self));
        }
        let attrs_str = render_pairs(&pairs);
        let mut out = "<".to_owned();
        let name = self.tag.name();
        out.append(name.as_str());
        if !attrs_str.as_str().is_empty() {
            out.append(" ");
            out.append(attrs_str.as_str());
        }
        out.append(">");
        let nc = self.children.len();
        let mut j: usize = 0;
        while j < nc
            invariant
                j <= nc,
                nc == self.children@.len(),
                out@ == "<"@ + tag_name(self.tag) + (if render_attr_list(
                    full_attr_entries(*self),
                ).len() == 0 {
                    Seq::<char>::empty()
                } else {
                    " "@ + render_attr_list(full_attr_entries(*self))
                }) + ">"@ + render_nodes(self.children@.take(j as int)),
            decreases nc - j,
        {
            proof {
                assert(decreases_to!(*self => self.children));
                assert(decreases_to!(self.children => self.children@[j as int]));
            }
            let child_str = self.children[j].to_markup();
            out.append(child_str.as_str());
            j = j + 1;
            proof {
                assert(self.children@.take(j as int).drop_last() =~= self.children@.take(j - 1));
                assert(self.children@.take(j as int).last() == self.children@[j - 1]);
            }
        }
        proof {
            assert(self.children@.take(nc as int) =~= self.children@);
        }
        if !tag_is_void(&self.tag) {
            out.append("</");
            out.append(name.as_str());
            out.append(">");
        }
        out
    }
}

impl<Ms> Node<Ms> {
    /// Serialize one node to markup (see the element `to_markup`).
    pub fn to_markup(&self) -> (r: String)
        ensures
            r@ == render_node(*self),
        decreases *self,
    {
        match self {
            Node::Element(e) => e.to_markup(),
            Node::Text(t) => t.text.clone(),
        }
    }
}

} // verus!
