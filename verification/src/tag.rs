use vstd::prelude::*;
use crate::strutil::{ascii_lowercase, lower_seq, str_eq};

verus! {

/// The tag identity of an element: a standard markup tag name, or a custom
/// (non-standard) name that the author chose.
pub enum Tag {
    Std(String),
    Custom(String),
}

/// The rendered name of a tag, as it appears in markup.
pub open spec fn tag_name(t: Tag) -> Seq<char> {
    match t {
        Tag::Std(s) => s@,
        Tag::Custom(s) => s@,
    }
}

impl Tag {
    /// Is it a custom element tag?
    pub open spec fn spec_is_custom(&self) -> bool {
        self is Custom
    }

    pub fn name(&self) -> (r: String)
        ensures
            r@ == tag_name(*self),
    {
        match self {
            Tag::Std(s) => s.clone(),
            Tag::Custom(s) => s.clone(),
        }
    }
}

impl Clone for Tag {
    fn clone(&self) -> (r: Self)
        ensures
            tag_name(r) == tag_name(*self),
            r is Custom <==> *self is Custom,
    {
        match self {
            Tag::Std(s) => Tag::Std(s.clone()),
            Tag::Custom(s) => Tag::Custom(s.clone()),
        }
    }
}

/// A tag namespace; a namespaced element renders an `xmlns` attribute and
/// parses under that namespace.
pub enum Namespace {
    Svg,
    Custom(String),
}

/// The namespace string, as rendered in the synthesized `xmlns` attribute.
pub open spec fn ns_name(n: Namespace) -> Seq<char> {
    match n {
        Namespace::Svg => "http://www.w3.org/2000/svg"@,
        Namespace::Custom(s) => s@,
    }
}

impl Namespace {
    pub fn as_string(&self) -> (r: String)
        ensures
            r@ == ns_name(*self),
    {
        match self {
            Namespace::Svg => "http://www.w3.org/2000/svg".to_owned(),
            Namespace::Custom(s) => s.clone(),
        }
    }
}

impl Clone for Namespace {
    fn clone(&self) -> (r: Self)
        ensures
            ns_name(r) == ns_name(*self),
    {
        match self {
            Namespace::Svg => Namespace::Svg,
            Namespace::Custom(s) => Namespace::Custom(s.clone()),
        }
    }
}

/// The fixed set of void (self-closing) tag names: serialization emits no
/// closing tag for them. The match is on the lower-cased rendered name.
pub open spec fn is_void_name(s: Seq<char>) -> bool {
    ||| s == "area"@
    ||| s == "base"@
    ||| s == "br"@
    ||| s == "col"@
    ||| s == "embed"@
    ||| s == "hr"@
    ||| s == "img"@
    ||| s == "input"@
    ||| s == "link"@
    ||| s == "meta"@
    ||| s == "param"@
    ||| s == "source"@
    ||| s == "track"@
    ||| s == "wbr"@
}

/// Whether an element with this tag is a void element (case-insensitive match
/// of the rendered tag name against the fixed list).
pub open spec fn is_void_tag(t: Tag) -> bool {
    is_void_name(lower_seq(tag_name(t)))
}

pub fn tag_is_void(t: &Tag) -> (r: bool)
    ensures
        r == is_void_tag(*t),
{
    let name = t.name();
    let lower = ascii_lowercase(name.as_str());
    let l = lower.as_str();
    str_eq(l, "area") || str_eq(l, "base") || str_eq(l, "br") || str_eq(l, "col") || str_eq(
        l,
        "embed",
    ) || str_eq(l, "hr") || str_eq(l, "img") || str_eq(l, "input") || str_eq(l, "link") || str_eq(
        l,
        "meta",
    ) || str_eq(l, "param") || str_eq(l, "source") || str_eq(l, "track") || str_eq(l, "wbr")
}

} // verus!
