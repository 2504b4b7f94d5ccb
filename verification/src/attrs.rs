use vstd::prelude::*;
use vstd::string::StringExecFns;
use crate::strutil::str_eq;

verus! {

/// The stored value of an attribute: an explicit string value, or a bare
/// presence marker (a boolean attribute carries no value but is still set).
pub enum AttrValue {
    Val(String),
    Flag,
}

/// What an attribute value is, at the specification level.
pub open spec fn attr_value_view(v: AttrValue) -> Option<Seq<char>> {
    match v {
        AttrValue::Val(s) => Option::Some(s@),
        AttrValue::Flag => Option::None,
    }
}

impl Clone for AttrValue {
    fn clone(&self) -> (r: Self)
        ensures
            attr_value_view(r) == attr_value_view(*self),
    {
        match self {
            AttrValue::Val(s) => AttrValue::Val(s.clone()),
            AttrValue::Flag => AttrValue::Flag,
        }
    }
}

/// An ordered mapping from attribute name to attribute value. Insertion
/// order is kept; overwriting a name keeps its position.
pub struct Attrs {
    pub entries: Vec<(String, AttrValue)>,
}

/// The entries of an attribute map, as (name, optional value) pairs in
/// storage order.
pub open spec fn attrs_view(a: Attrs) -> Seq<(Seq<char>, Option<Seq<char>>)> {
    a.entries@.map(|i: int, p: (String, AttrValue)| (p.0@, attr_value_view(p.1)))
}

/// Insert-or-overwrite on an ordered attribute list: the first entry under
/// the same name is replaced in place; a new name is appended at the end.
pub open spec fn insert_entry(
    s: Seq<(Seq<char>, Option<Seq<char>>)>,
    k: Seq<char>,
    v: Option<Seq<char>>,
) -> Seq<(Seq<char>, Option<Seq<char>>)>
    decreases s.len(),
{
    if s.len() == 0 {
        seq![(k, v)]
    } else if s[0].0 == k {
        seq![(k, v)] + s.drop_first()
    } else {
        seq![s[0]] + insert_entry(s.drop_first(), k, v)
    }
}

impl Attrs {
    pub fn empty() -> (r: Attrs)
        ensures
            attrs_view(r) == Seq::<(Seq<char>, Option<Seq<char>>)>::empty(),
    {
        let r = Attrs { entries: Vec::new() };
        proof {
            assert(attrs_view(r) =~= Seq::<(Seq<char>, Option<Seq<char>>)>::empty());
        }
        r
    }

    /// Insert or overwrite the attribute stored under `key`; the last write
    /// wins and an overwritten entry keeps its position.
    pub fn insert(&mut self, key: String, value: AttrValue)
        ensures
            attrs_view(*final(self)) == insert_entry(
                attrs_view(*old(self)),
                key@,
                attr_value_view(value),
            ),
    {
        let n = self.entries.len();
        let mut i: usize = 0;
        while i < n
            invariant
                i <= n,
                n == self.entries@.len(),
                *self == *old(self),
                forall|j: int| 0 <= j < i ==> attrs_view(*self)[j].0 != key@,
            decreases n - i,
        {
            if self.entries[i].0 == key {
                self.entries[i] = (key, value);
                proof {
                    lemma_insert_entry_at(attrs_view(*old(self)), key@, attr_value_view(
                        self.entries@[i as int].1,
                    ), i as int);
                    assert(attrs_view(*self) =~= attrs_view(*old(self)).update(
                        i as int,
                        (key@, attr_value_view(self.entries@[i as int].1)),
                    ));
                }
                return ;
            }
            i = i + 1;
        }
        self.entries.push((key, value));
        proof {
            lemma_insert_entry_append(attrs_view(*old(self)), key@, attr_value_view(
                self.entries@[n as int].1,
            ));
            assert(attrs_view(*self) =~= attrs_view(*old(self)).push(
                (key@, attr_value_view(self.entries@[n as int].1)),
            ));
        }
    }
}

/// How one `add_class` call changes the value of the `class` attribute: a
/// non-empty existing value gets a single separating space and the new name
/// appended; otherwise the value becomes the new name alone.
pub open spec fn class_merge(v: Option<Seq<char>>, name: Seq<char>) -> Seq<char> {
    match v {
        Option::Some(s) => if s.len() > 0 {
            s + " "@ + name
        } else {
            name
        },
        Option::None => name,
    }
}

/// How one `add_class` call changes the attribute list: the first `class`
/// entry is merged in place, or a fresh one is appended at the end.
pub open spec fn add_class_entries(
    s: Seq<(Seq<char>, Option<Seq<char>>)>,
    name: Seq<char>,
) -> Seq<(Seq<char>, Option<Seq<char>>)>
    decreases s.len(),
{
    if s.len() == 0 {
        seq![("class"@, Option::Some(name))]
    } else if s[0].0 == "class"@ {
        seq![("class"@, Option::Some(class_merge(s[0].1, name)))] + s.drop_first()
    } else {
        seq![s[0]] + add_class_entries(s.drop_first(), name)
    }
}

impl Attrs {
    /// Merge `name` into the `class` attribute: append after a single space
    /// when a non-empty value exists, else set it to `name`. Repeated names
    /// accumulate verbatim; nothing is deduplicated or normalized.
    pub fn add_class(&mut self, name: &str)
        ensures
            attrs_view(*final(self)) == add_class_entries(attrs_view(*old(self)), name@),
    {
        let n = self.entries.len();
        let mut i: usize = 0;
        while i < n
            invariant
                i <= n,
                n == self.entries@.len(),
                *self == *old(self),
                forall|j: int| 0 <= j < i ==> attrs_view(*self)[j].0 != "class"@,
            decreases n - i,
        {
            if str_eq(self.entries[i].0.as_str(), "class") {
                let merged = match &self.entries[i].1 {
                    AttrValue::Val(v) => {
                        if v.as_str().is_empty() {
                            AttrValue::Val(name.to_owned())
                        } else {
                            AttrValue::Val(v.clone().concat(" ").concat(name))
                        }
                    },
                    AttrValue::Flag => AttrValue::Val(name.to_owned()),
                };
                proof {
                    assert(attr_value_view(merged) == Option::Some(
                        class_merge(attrs_view(*self)[i as int].1, name@),
                    ));
                }
                self.entries[i] = ("class".to_owned(), merged);
                proof {
                    lemma_add_class_at(attrs_view(*old(self)), name@, i as int);
                    assert(attrs_view(*self) =~= attrs_view(*old(self)).update(
                        i as int,
                        ("class"@, Option::Some(class_merge(attrs_view(*old(self))[i as int].1, name@))),
                    ));
                }
                return ;
            }
            i = i + 1;
        }
        self.entries.push(("class".to_owned(), AttrValue::Val(name.to_owned())));
        proof {
            lemma_add_class_append(attrs_view(*old(self)), name@);
            assert(attrs_view(*self) =~= attrs_view(*old(self)).push(
                ("class"@, Option::Some(name@)),
            ));
        }
    }
}

/// When no entry is named `class`, `add_class` appends a fresh entry.
proof fn lemma_add_class_append(s: Seq<(Seq<char>, Option<Seq<char>>)>, name: Seq<char>)
    requires
        forall|j: int| 0 <= j < s.len() ==> s[j].0 != "class"@,
    ensures
        add_class_entries(s, name) == s.push(("class"@, Option::Some(name))),
    decreases s.len(),
{
    if s.len() == 0 {
        assert(add_class_entries(s, name) =~= s.push(("class"@, Option::Some(name))));
    } else {
        lemma_add_class_append(s.drop_first(), name);
        assert(add_class_entries(s, name) =~= s.push(("class"@, Option::Some(name))));
    }
}

/// When the first `class` entry stands at position `i`, `add_class` merges
/// into that position and keeps the rest.
proof fn lemma_add_class_at(s: Seq<(Seq<char>, Option<Seq<char>>)>, name: Seq<char>, i: int)
    requires
        0 <= i < s.len(),
        s[i].0 == "class"@,
        forall|j: int| 0 <= j < i ==> s[j].0 != "class"@,
    ensures
        add_class_entries(s, name) == s.update(
            i,
            ("class"@, Option::Some(class_merge(s[i].1, name))),
        ),
    decreases s.len(),
{
    if i == 0 {
        assert(add_class_entries(s, name) =~= s.update(
            0,
            ("class"@, Option::Some(class_merge(s[0].1, name))),
        ));
    } else {
        lemma_add_class_at(s.drop_first(), name, i - 1);
        assert(add_class_entries(s, name) =~= s.update(
            i,
            ("class"@, Option::Some(class_merge(s[i].1, name))),
        ));
    }
}

/// When no entry carries the key, insert-or-overwrite appends at the end.
proof fn lemma_insert_entry_append(
    s: Seq<(Seq<char>, Option<Seq<char>>)>,
    k: Seq<char>,
    v: Option<Seq<char>>,
)
    requires
        forall|j: int| 0 <= j < s.len() ==> s[j].0 != k,
    ensures
        insert_entry(s, k, v) == s.push((k, v)),
    decreases s.len(),
{
    if s.len() == 0 {
        assert(insert_entry(s, k, v) =~= s.push((k, v)));
    } else {
        lemma_insert_entry_append(s.drop_first(), k, v);
        assert(insert_entry(s, k, v) =~= s.push((k, v)));
    }
}

/// When the first entry under the key stands at position `i`,
/// insert-or-overwrite replaces that position and keeps the rest.
proof fn lemma_insert_entry_at(
    s: Seq<(Seq<char>, Option<Seq<char>>)>,
    k: Seq<char>,
    v: Option<Seq<char>>,
    i: int,
)
    requires
        0 <= i < s.len(),
        s[i].0 == k,
        forall|j: int| 0 <= j < i ==> s[j].0 != k,
    ensures
        insert_entry(s, k, v) == s.update(i, (k, v)),
    decreases s.len(),
{
    if i == 0 {
        assert(insert_entry(s, k, v) =~= s.update(0, (k, v)));
    } else {
        lemma_insert_entry_at(s.drop_first(), k, v, i - 1);
        assert(insert_entry(s, k, v) =~= s.update(i, (k, v)));
    }
}

impl Clone for Attrs {
    fn clone(&self) -> (r: Self)
        ensures
            attrs_view(r) == attrs_view(*self),
    {
        let n = self.entries.len();
        let mut out: Vec<(String, AttrValue)> = Vec::new();
        let mut i: usize = 0;
        while i < n
            invariant
                i <= n,
                n == self.entries@.len(),
                out@.len() == i,
                forall|j: int|
                    0 <= j < i ==> out@[j].0@ == self.entries@[j].0@ && attr_value_view(out@[j].1)
                        == attr_value_view(self.entries@[j].1),
            decreases n - i,
        {
            let k = self.entries[i].0.clone();
            let v = self.entries[i].1.clone();
            out.push((k, v));
            i = i + 1;
        }
        let r = Attrs { entries: out };
        proof {
            assert(attrs_view(r) =~= attrs_view(*self));
        }
        r
    }
}

/// An ordered mapping from style property to value, rendered as one
/// synthesized `style` attribute.
pub struct Style {
    pub entries: Vec<(String, String)>,
}

/// The entries of a style map, as (property, value) pairs in storage order.
pub open spec fn style_view(s: Style) -> Seq<(Seq<char>, Seq<char>)> {
    s.entries@.map(|i: int, p: (String, String)| (p.0@, p.1@))
}

/// Insert-or-overwrite for style entries, like `insert_entry`.
pub open spec fn insert_style_entry(
    s: Seq<(Seq<char>, Seq<char>)>,
    k: Seq<char>,
    v: Seq<char>,
) -> Seq<(Seq<char>, Seq<char>)>
    decreases s.len(),
{
    if s.len() == 0 {
        seq![(k, v)]
    } else if s[0].0 == k {
        seq![(k, v)] + s.drop_first()
    } else {
        seq![s[0]] + insert_style_entry(s.drop_first(), k, v)
    }
}

impl Style {
    pub fn empty() -> (r: Style)
        ensures
            style_view(r) == Seq::<(Seq<char>, Seq<char>)>::empty(),
    {
        let r = Style { entries: Vec::new() };
        proof {
            assert(style_view(r) =~= Seq::<(Seq<char>, Seq<char>)>::empty());
        }
        r
    }

    /// Insert or overwrite the style value stored under `key`; the last
    /// write wins and an overwritten entry keeps its position.
    pub fn insert(&mut self, key: String, value: String)
        ensures
            style_view(*final(self)) == insert_style_entry(style_view(*old(self)), key@, value@),
    {
        let n = self.entries.len();
        let mut i: usize = 0;
        while i < n
            invariant
                i <= n,
                n == self.entries@.len(),
                *self == *old(self),
                forall|j: int| 0 <= j < i ==> style_view(*self)[j].0 != key@,
            decreases n - i,
        {
            if self.entries[i].0 == key {
                self.entries[i] = (key, value);
                proof {
                    lemma_insert_style_at(style_view(*old(self)), key@, self.entries@[
                        i as int
                    ].1@, i as int);
                    assert(style_view(*self) =~= style_view(*old(self)).update(
                        i as int,
                        (key@, self.entries@[i as int].1@),
                    ));
                }
                return ;
            }
            i = i + 1;
        }
        self.entries.push((key, value));
        proof {
            lemma_insert_style_append(style_view(*old(self)), key@, self.entries@[n as int].1@);
            assert(style_view(*self) =~= style_view(*old(self)).push(
                (key@, self.entries@[n as int].1@),
            ));
        }
    }
}

impl Clone for Style {
    fn clone(&self) -> (r: Self)
        ensures
            style_view(r) == style_view(*self),
    {
        let n = self.entries.len();
        let mut out: Vec<(String, String)> = Vec::new();
        let mut i: usize = 0;
        while i < n
            invariant
                i <= n,
                n == self.entries@.len(),
                out@.len() == i,
                forall|j: int|
                    0 <= j < i ==> out@[j].0@ == self.entries@[j].0@ && out@[j].1@
                        == self.entries@[j].1@,
            decreases n - i,
        {
            let k = self.entries[i].0.clone();
            let v = self.entries[i].1.clone();
            out.push((k, v));
            i = i + 1;
        }
        let r = Style { entries: out };
        proof {
            assert(style_view(r) =~= style_view(*self));
        }
        r
    }
}

proof fn lemma_insert_style_append(s: Seq<(Seq<char>, Seq<char>)>, k: Seq<char>, v: Seq<char>)
    requires
        forall|j: int| 0 <= j < s.len() ==> s[j].0 != k,
    ensures
        insert_style_entry(s, k, v) == s.push((k, v)),
    decreases s.len(),
{
    if s.len() == 0 {
        assert(insert_style_entry(s, k, v) =~= s.push((k, v)));
    } else {
        lemma_insert_style_append(s.drop_first(), k, v);
        assert(insert_style_entry(s, k, v) =~= s.push((k, v)));
    }
}

proof fn lemma_insert_style_at(s: Seq<(Seq<char>, Seq<char>)>, k: Seq<char>, v: Seq<char>, i: int)
    requires
        0 <= i < s.len(),
        s[i].0 == k,
        forall|j: int| 0 <= j < i ==> s[j].0 != k,
    ensures
        insert_style_entry(s, k, v) == s.update(i, (k, v)),
    decreases s.len(),
{
    if i == 0 {
        assert(insert_style_entry(s, k, v) =~= s.update(0, (k, v)));
    } else {
        lemma_insert_style_at(s.drop_first(), k, v, i - 1);
        assert(insert_style_entry(s, k, v) =~= s.update(i, (k, v)));
    }
}

} // verus!
