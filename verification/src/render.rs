//! The result formatter: renders each match record as a single
//! separator-joined string, preserving the matcher's order.

use vstd::prelude::*;
use vstd::string::StringExecFns;

use crate::ast::{found_views, Found, FoundV};

verus! {

/// The rendered form of one record: the callee name, a slash, the
/// export name.
pub open spec fn spec_line(fo: FoundV) -> Seq<char> {
    fo.callee + seq!['/'] + fo.export
}

/// The rendered form of a record sequence, in the same order.
pub open spec fn spec_render(fos: Seq<FoundV>) -> Seq<Seq<char>> {
    fos.map_values(|fo: FoundV| spec_line(fo))
}

/// The character sequences of a sequence of strings.
pub open spec fn string_views(s: Seq<String>) -> Seq<Seq<char>> {
    s.map_values(|x: String| x@)
}

impl Found {
    /// Renders this record as `"<callee>/<export>"`. No escaping is
    /// performed: both names come from identifiers, which cannot hold a
    /// slash.
    pub fn to_string(&self) -> (r: String)
        ensures
            r@ == spec_line(self@),
    {
        let mut r = self.callee.clone();
        r.append("/");
        r.append(self.export.as_str());
        proof {
            reveal_strlit("/");
            assert(r@ =~= spec_line(self@));
        }
        r
    }
}

/// Renders the records in order, one string per record.
pub fn render(found: &Vec<Found>) -> (r: Vec<String>)
    ensures
        string_views(r@) == spec_render(found_views(found@)),
{
    let mut r: Vec<String> = Vec::new();
    let mut i: usize = 0;
    while i < found.len()
        invariant
            i <= found@.len(),
            r@.len() == i,
            forall|j: int| 0 <= j < i ==> r@[j]@ == spec_line(found@[j]@),
        decreases found@.len() - i,
    {
        r.push(found[i].to_string());
        i += 1;
    }
    proof {
        assert(string_views(r@) =~= spec_render(found_views(found@)));
    }
    r
}

} // verus!
