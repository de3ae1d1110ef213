//! The spatial index resolver: picks the tile identifier out of the index
//! endpoint's reply.

use vstd::prelude::*;
use crate::errors::PipelineError;
use crate::point::{GeoPoint, geometry_param, geometry_text};

verus! {

/// The service-assigned identifier of one tile record. Opaque to the
/// pipeline; valid only within the invocation that resolved it.
#[derive(Clone, Copy, Debug, PartialEq, Eq, Structural)]
pub struct ObjectId(pub i64);

/// The index endpoint's reply, reduced to the one field the pipeline
/// reads: `objectIds`, an ordered sequence of identifiers. `None` stands
/// for a reply in which that field was absent or did not hold a sequence
/// of integers.
#[derive(Debug, Clone, PartialEq, Eq)]
pub struct IndexResponse {
    pub object_ids: Option<Vec<i64>>,
}

/// The identifier the pipeline resolves from an index reply: the first of
/// the sequence, or `NotFound` when the sequence is absent or empty.
pub open spec fn spec_first_object_id(r: IndexResponse) -> Result<ObjectId, PipelineError> {
    match r.object_ids {
        Option::Some(ids) => if ids@.len() > 0 {
            Result::Ok(ObjectId(ids@[0]))
        } else {
            Result::Err(PipelineError::NotFound)
        },
        Option::None => Result::Err(PipelineError::NotFound),
    }
}

/// Picks the tile identifier from an index reply. Policy: the *first*
/// identifier in the sequence, with no tie-break among multiple
/// overlapping tiles; an absent or empty sequence means no tile covers
/// the point, reported as `NotFound`.
pub fn first_object_id(r: &IndexResponse) -> (res: Result<ObjectId, PipelineError>)
    ensures
        res == spec_first_object_id(*r),
{
    match &r.object_ids {
        Option::Some(ids) => {
            if ids.len() > 0 {
                Result::Ok(ObjectId(ids[0]))
            } else {
                Result::Err(PipelineError::NotFound)
            }
        },
        Option::None => Result::Err(PipelineError::NotFound),
    }
}

/// The URL of the spatial index query endpoint.
pub fn index_endpoint() -> (s: String)
    ensures
        s@ == "https://geonb.snb.ca/arcgis/rest/services/GeoNB_SNB_LidarIndex/MapServer/1/query"@,
{
    "https://geonb.snb.ca/arcgis/rest/services/GeoNB_SNB_LidarIndex/MapServer/1/query".to_owned()
}

/// The query parameters of the index lookup for `p`: JSON format, point
/// geometry, the point's coordinates, and identifiers only (no geometry
/// payload in the reply, minimizing transfer size).
pub fn index_query_params(p: &GeoPoint) -> (q: Vec<(String, String)>)
    ensures
        q@.len() == 4,
        q@[0].0@ == "f"@ && q@[0].1@ == "json"@,
        q@[1].0@ == "geometryType"@ && q@[1].1@ == "esriGeometryPoint"@,
        q@[2].0@ == "geometry"@ && q@[2].1@ == geometry_text(*p),
        q@[3].0@ == "returnIdsOnly"@ && q@[3].1@ == "true"@,
{
    let mut q: Vec<(String, String)> = Vec::new();
    q.push(("f".to_owned(), "json".to_owned()));
    q.push(("geometryType".to_owned(), "esriGeometryPoint".to_owned()));
    q.push(("geometry".to_owned(), geometry_param(p)));
    q.push(("returnIdsOnly".to_owned(), "true".to_owned()));
    q
}

} // verus!
