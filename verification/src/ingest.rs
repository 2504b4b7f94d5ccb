use vstd::prelude::*;
use crate::el::Node;

verus! {

/// The nodes the bridge could represent, in native child order; children it
/// could not represent contribute nothing.
pub open spec fn present_nodes<Ms>(s: Seq<Option<Node<Ms>>>) -> Seq<Node<Ms>>
    decreases s.len(),
{
    if s.len() == 0 {
        Seq::empty()
    } else {
        present_nodes(s.drop_last()) + (match s.last() {
            Option::Some(n) => seq![n],
            Option::None => Seq::empty(),
        })
    }
}

/// The ingestion step this core owns: given the bridge's result for each
/// native child of the parsed fragment, in native child order, keep the
/// represented nodes in that order and silently omit the rest.
pub fn ingest_converted<Ms>(items: Vec<Option<Node<Ms>>>) -> (r: Vec<Node<Ms>>)
    ensures
        r@ == present_nodes(items@),
{
    let ghost orig = items@;
    let mut input = items;
    let mut out: Vec<Node<Ms>> = Vec::new();
    let ghost mut seen: int = 0;
    while input.len() > 0
        invariant
            0 <= seen <= orig.len(),
            input@.len() + seen == orig.len(),
            input@ == orig.skip(seen),
            out@ == present_nodes(orig.take(seen)),
        decreases input@.len(),
    {
        let c = input.remove(0);
        proof {
            assert(c == orig[seen]);
            assert(input@ =~= orig.skip(seen + 1));
            assert(orig.take(seen + 1).drop_last() =~= orig.take(seen));
            assert(orig.take(seen + 1).last() == orig[seen]);
        }
        match c {
            Option::Some(n) => {
                out.push(n);
            },
            Option::None => {},
        }
        proof {
            seen = seen + 1;
            assert(out@ =~= present_nodes(orig.take(seen)));
        }
    }
    proof {
        assert(orig.take(orig.len() as int) =~= orig);
    }
    out
}

} // verus!
