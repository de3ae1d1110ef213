use geonb::errors::{Malformation, PipelineError};
use geonb::index::{IndexResponse, ObjectId, first_object_id};
use geonb::metadata::{
    FileUrlField, MetadataResponse, TileAttributes, TileFeature, TileUrl, extract_file_url,
};
use geonb::pipeline::{FetchAction, FetchEvent, FetchState, start_fetch, step_fetch};
use geonb::point::GeoPoint;
use geonb::Error;

fn metadata_with_url(url: &str) -> MetadataResponse {
    MetadataResponse {
        feature: Some(TileFeature {
            attributes: Some(TileAttributes { file_url: FileUrlField::Url(url.to_string()) }),
        }),
    }
}

#[test]
fn resolve_not_found_on_empty_ids() {
    let r = IndexResponse { object_ids: Some(vec![]) };
    assert_eq!(first_object_id(&r), Err(PipelineError::NotFound));
    let (state, action) = step_fetch(FetchState::AwaitingIndex, FetchEvent::IndexArrived(r));
    assert_eq!(state, FetchState::Failed(PipelineError::NotFound));
    assert_eq!(action, FetchAction::Fail(PipelineError::NotFound));
}

#[test]
fn resolve_not_found_on_missing_ids() {
    let r = IndexResponse { object_ids: None };
    assert_eq!(first_object_id(&r), Err(PipelineError::NotFound));
}

#[test]
fn resolve_takes_first_of_many() {
    let r = IndexResponse { object_ids: Some(vec![14601, 99]) };
    assert_eq!(first_object_id(&r), Ok(ObjectId(14601)));
}

#[test]
fn metadata_missing_feature() {
    let m = MetadataResponse { feature: None };
    assert_eq!(
        extract_file_url(m),
        Err(PipelineError::MalformedResponse(Malformation::MissingFeature))
    );
}

#[test]
fn metadata_missing_attributes() {
    let m = MetadataResponse { feature: Some(TileFeature { attributes: None }) };
    assert_eq!(
        extract_file_url(m),
        Err(PipelineError::MalformedResponse(Malformation::MissingAttributes))
    );
}

#[test]
fn metadata_missing_file_url() {
    let m = MetadataResponse {
        feature: Some(TileFeature {
            attributes: Some(TileAttributes { file_url: FileUrlField::Missing }),
        }),
    };
    assert_eq!(
        extract_file_url(m),
        Err(PipelineError::MalformedResponse(Malformation::MissingFileUrl))
    );
}

#[test]
fn metadata_file_url_not_a_string() {
    let m = MetadataResponse {
        feature: Some(TileFeature {
            attributes: Some(TileAttributes { file_url: FileUrlField::NotAString }),
        }),
    };
    assert_eq!(
        extract_file_url(m),
        Err(PipelineError::MalformedResponse(Malformation::FileUrlNotAString))
    );
}

#[test]
fn metadata_extracts_url() {
    let m = metadata_with_url("https://example/tile.laz");
    assert_eq!(extract_file_url(m), Ok(TileUrl("https://example/tile.laz".to_string())));
}

#[test]
fn round_trip_resolves_first_id_and_opens_stream() {
    let point = GeoPoint { x: "2470000".to_string(), y: "7443000".to_string() };
    let (state, action) = start_fetch(&point);
    assert_eq!(state, FetchState::AwaitingIndex);
    assert_eq!(
        action,
        FetchAction::QueryIndex(vec![
            ("f".to_string(), "json".to_string()),
            ("geometryType".to_string(), "esriGeometryPoint".to_string()),
            ("geometry".to_string(), "2470000,7443000".to_string()),
            ("returnIdsOnly".to_string(), "true".to_string()),
        ])
    );

    let index = IndexResponse { object_ids: Some(vec![14601, 99]) };
    let (state, action) = step_fetch(state, FetchEvent::IndexArrived(index));
    assert_eq!(state, FetchState::AwaitingMetadata(ObjectId(14601)));
    assert_eq!(action, FetchAction::QueryMetadata(ObjectId(14601)));

    let metadata = metadata_with_url("https://example/tile.laz");
    let (state, action) = step_fetch(state, FetchEvent::MetadataArrived(metadata));
    assert_eq!(state, FetchState::AwaitingStream);
    assert_eq!(action, FetchAction::OpenStream(TileUrl("https://example/tile.laz".to_string())));

    let (state, action) = step_fetch(state, FetchEvent::StreamOpened);
    assert_eq!(state, FetchState::Done);
    assert_eq!(action, FetchAction::Deliver);
}

#[test]
fn transport_failure_halts_each_stage() {
    let (state, action) = step_fetch(FetchState::AwaitingIndex, FetchEvent::TransportFailed);
    assert_eq!(state, FetchState::Failed(PipelineError::Transport));
    assert_eq!(action, FetchAction::Fail(PipelineError::Transport));

    let (state, action) =
        step_fetch(FetchState::AwaitingMetadata(ObjectId(7)), FetchEvent::TransportFailed);
    assert_eq!(state, FetchState::Failed(PipelineError::Transport));
    assert_eq!(action, FetchAction::Fail(PipelineError::Transport));

    let (state, action) = step_fetch(FetchState::AwaitingStream, FetchEvent::TransportFailed);
    assert_eq!(state, FetchState::Failed(PipelineError::Transport));
    assert_eq!(action, FetchAction::Fail(PipelineError::Transport));
}

#[test]
fn orchestrator_runs_are_idempotent() {
    let run = || {
        let point = GeoPoint { x: "2470000".to_string(), y: "7443000".to_string() };
        let (s0, a0) = start_fetch(&point);
        let index = IndexResponse { object_ids: Some(vec![14601, 99]) };
        let (s1, a1) = step_fetch(s0, FetchEvent::IndexArrived(index));
        let metadata = metadata_with_url("https://example/tile.laz");
        let (s2, a2) = step_fetch(s1, FetchEvent::MetadataArrived(metadata));
        let (s3, a3) = step_fetch(s2, FetchEvent::StreamOpened);
        (a0, a1, a2, a3, s3)
    };
    let first = run();
    let second = run();
    assert_eq!(first, second);
}

#[test]
fn error_messages_name_the_failure() {
    assert_eq!(
        PipelineError::NotFound.describe().message,
        "Could not find \"objectId\" in response."
    );
    assert_eq!(
        PipelineError::MalformedResponse(Malformation::MissingFeature).describe().message,
        "Could not find \"feature\" in response."
    );
    assert_eq!(
        PipelineError::MalformedResponse(Malformation::MissingAttributes).describe().message,
        "Could not find \"attributes\" in response."
    );
    assert_eq!(
        PipelineError::MalformedResponse(Malformation::MissingFileUrl).describe().message,
        "Could not find \"FILE_URL\" in response."
    );
    assert_eq!(
        PipelineError::MalformedResponse(Malformation::FileUrlNotAString).describe().message,
        "Expected \"FILE_URL\" to be a string but it was not."
    );
    assert_eq!(
        PipelineError::Transport.describe().message,
        "The network request failed before a response arrived."
    );
    assert_eq!(
        PipelineError::StreamFault.describe().message,
        "The tile stream was cut short by a transport fault."
    );
}

#[test]
fn error_new_keeps_message() {
    let e = Error::new("something went wrong");
    assert_eq!(e.message, "something went wrong");
}
