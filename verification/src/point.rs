//! The projected point handed to the spatial index.

use vstd::prelude::*;
use vstd::string::StringExecFns;

verus! {

/// An immutable pair of coordinates in the service's projected coordinate
/// reference system. Each coordinate is carried as the decimal text the
/// caller rendered it to, which is the only form the pipeline reads: the
/// point is consumed once, formatted into the index query's geometry
/// parameter.
#[derive(Debug, Clone, PartialEq, Eq)]
pub struct GeoPoint {
    pub x: String,
    pub y: String,
}

/// The index query's geometry parameter: the two coordinates joined by a
/// comma.
pub open spec fn geometry_text(p: GeoPoint) -> Seq<char> {
    p.x@ + ","@ + p.y@
}

/// Renders the geometry parameter for `p`.
pub fn geometry_param(p: &GeoPoint) -> (s: String)
    ensures
        s@ == geometry_text(*p),
{
    let mut s = p.x.clone();
    s.append(",");
    s.append(p.y.as_str());
    proof {
        assert(s@ =~= geometry_text(*p));
    }
    s
}

} // verus!
