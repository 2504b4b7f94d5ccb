pub mod attrs;
pub mod el;
pub mod events;
pub mod ingest;
pub mod markdown;
pub mod render;
pub mod strutil;
pub mod tag;
pub mod transform;

use vstd::prelude::*;

verus! {

/// An author-supplied identity token giving a node stable identity across
/// tree versions; the reconciler uses it to match old and new children.
#[derive(Debug, PartialEq, Eq, PartialOrd, Ord, Hash)]
pub struct ElKey(pub String);

impl Clone for ElKey {
    fn clone(&self) -> (r: Self)
        ensures
            r@ == self@,
    {
        ElKey(self.0.clone())
    }
}

impl View for ElKey {
    type V = Seq<char>;

    open spec fn view(&self) -> Seq<char> {
        self.0@
    }
}

/// Wrap a rendered string as an identity key for an element.
pub fn el_key(key: &str) -> (r: ElKey)
    ensures
        r@ == key@,
{
    ElKey(key.to_owned())
}

} // verus!
