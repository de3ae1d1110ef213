//! The tile metadata resolver: extracts the tile's download URL from the
//! per-object metadata reply.

use vstd::prelude::*;
use crate::decimal::{push_signed_decimal, signed_decimal_digits};
use crate::errors::{Malformation, PipelineError};
use crate::index::ObjectId;

verus! {

/// The string locator of the tile's binary payload. Derived from the
/// resolved identifier; used exactly once to open the streaming request.
#[derive(Debug, Clone, PartialEq, Eq)]
pub struct TileUrl(pub String);

/// The state of the "FILE_URL" field inside the metadata reply's
/// attributes: absent, present but not a string, or a string.
#[derive(Debug, Clone, PartialEq, Eq)]
pub enum FileUrlField {
    Missing,
    NotAString,
    Url(String),
}

/// The "attributes" object of a metadata reply, reduced to the one field
/// the pipeline reads.
#[derive(Debug, Clone, PartialEq, Eq)]
pub struct TileAttributes {
    pub file_url: FileUrlField,
}

/// The "feature" object of a metadata reply; `attributes` is `None` when
/// that object was absent.
#[derive(Debug, Clone, PartialEq, Eq)]
pub struct TileFeature {
    pub attributes: Option<TileAttributes>,
}

/// A metadata reply, reduced to the fixed JSON path the pipeline
/// navigates: "feature", then "attributes", then "FILE_URL". `feature` is
/// `None` when the top-level object was absent.
#[derive(Debug, Clone, PartialEq, Eq)]
pub struct MetadataResponse {
    pub feature: Option<TileFeature>,
}

/// What the pipeline extracts from a metadata reply: the file URL when
/// the full path is present and a string, else a `MalformedResponse`
/// naming the first path segment at fault.
pub open spec fn spec_extract_file_url(m: MetadataResponse) -> Result<TileUrl, PipelineError> {
    match m.feature {
        Option::None => Result::Err(
            PipelineError::MalformedResponse(Malformation::MissingFeature),
        ),
        Option::Some(f) => match f.attributes {
            Option::None => Result::Err(
                PipelineError::MalformedResponse(Malformation::MissingAttributes),
            ),
            Option::Some(a) => match a.file_url {
                FileUrlField::Missing => Result::Err(
                    PipelineError::MalformedResponse(Malformation::MissingFileUrl),
                ),
                FileUrlField::NotAString => Result::Err(
                    PipelineError::MalformedResponse(Malformation::FileUrlNotAString),
                ),
                FileUrlField::Url(s) => Result::Ok(TileUrl(s)),
            },
        },
    }
}

/// Navigates the fixed path "feature" → "attributes" → "FILE_URL" of a
/// metadata reply and returns the tile's file URL, or the
/// `MalformedResponse` naming the first segment that was absent or
/// mistyped.
pub fn extract_file_url(m: MetadataResponse) -> (res: Result<TileUrl, PipelineError>)
    ensures
        res == spec_extract_file_url(m),
{
    match m.feature {
        Option::None => Result::Err(
            PipelineError::MalformedResponse(Malformation::MissingFeature),
        ),
        Option::Some(f) => match f.attributes {
            Option::None => Result::Err(
                PipelineError::MalformedResponse(Malformation::MissingAttributes),
            ),
            Option::Some(a) => match a.file_url {
                FileUrlField::Missing => Result::Err(
                    PipelineError::MalformedResponse(Malformation::MissingFileUrl),
                ),
                FileUrlField::NotAString => Result::Err(
                    PipelineError::MalformedResponse(Malformation::FileUrlNotAString),
                ),
                FileUrlField::Url(s) => Result::Ok(TileUrl(s)),
            },
        },
    }
}

/// The metadata endpoint's URL for one object: the per-object path ending
/// in the identifier's decimal form.
pub open spec fn metadata_endpoint_text(id: ObjectId) -> Seq<char> {
    "https://geonb.snb.ca/arcgis/rest/services/GeoNB_SNB_LidarIndex/MapServer/1/"@
        + signed_decimal_digits(id.0 as int)
}

/// Renders the metadata endpoint URL for `id`.
pub fn metadata_endpoint(id: ObjectId) -> (s: String)
    ensures
        s@ == metadata_endpoint_text(id),
{
    let mut s =
        "https://geonb.snb.ca/arcgis/rest/services/GeoNB_SNB_LidarIndex/MapServer/1/".to_owned();
    push_signed_decimal(&mut s, id.0);
    s
}

/// The query parameters of the metadata lookup: JSON format only.
pub fn metadata_query_params() -> (q: Vec<(String, String)>)
    ensures
        q@.len() == 1,
        q@[0].0@ == "f"@ && q@[0].1@ == "json"@,
{
    let mut q: Vec<(String, String)> = Vec::new();
    q.push(("f".to_owned(), "json".to_owned()));
    q
}

} // verus!
