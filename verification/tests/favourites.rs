use stream_config::database::favourite_streams::{
    FavouriteStore, FavouriteStreamsModel, SavedFavouriteStreamsModel, StreamSource,
};
use stream_config::favourite_streams::{
    get_favourite_streams, post_favourite_stream, FavouriteStreamResponse,
    FavouriteStreamsRequest,
};
use stream_config::Status;

fn request(identifier: &str, source: StreamSource) -> FavouriteStreamsRequest {
    FavouriteStreamsRequest { identifier: String::from(identifier), source }
}

#[test]
fn registering_twice_yields_created_then_conflict() {
    let mut store = FavouriteStore::new();
    let first = post_favourite_stream(
        &mut store,
        request("streamerA", StreamSource::Twitch),
        7,
        true,
        true,
    );
    assert_eq!(first, Ok(Status::Created));
    let second = post_favourite_stream(
        &mut store,
        request("streamerA", StreamSource::Twitch),
        7,
        true,
        true,
    );
    assert_eq!(second, Err(Status::Conflict));
    assert_eq!(store.rows.len(), 1);
}

#[test]
fn distinct_tuples_both_yield_created() {
    let mut store = FavouriteStore::new();
    let a = post_favourite_stream(&mut store, request("streamerA", StreamSource::Twitch), 7, true, true);
    let b = post_favourite_stream(&mut store, request("streamerB", StreamSource::Twitch), 7, true, true);
    let c = post_favourite_stream(&mut store, request("streamerA", StreamSource::Youtube), 7, true, true);
    let d = post_favourite_stream(&mut store, request("streamerA", StreamSource::Twitch), 8, true, true);
    assert_eq!(a, Ok(Status::Created));
    assert_eq!(b, Ok(Status::Created));
    assert_eq!(c, Ok(Status::Created));
    assert_eq!(d, Ok(Status::Created));
    assert_eq!(store.rows.len(), 4);
}

#[test]
fn failed_duplicate_check_aborts_without_insert() {
    let mut store = FavouriteStore::new();
    let r = post_favourite_stream(&mut store, request("streamerA", StreamSource::Twitch), 7, false, true);
    assert_eq!(r, Err(Status::InternalServerError));
    assert!(store.rows.is_empty());
}

#[test]
fn failed_insert_surfaces_a_storage_error() {
    let mut store = FavouriteStore::new();
    let r = post_favourite_stream(&mut store, request("streamerA", StreamSource::Twitch), 7, true, false);
    assert_eq!(r, Err(Status::InternalServerError));
    assert!(store.rows.is_empty());
}

#[test]
fn listing_returns_exactly_the_owners_favourites() {
    let mut store = FavouriteStore::new();
    post_favourite_stream(&mut store, request("streamerA", StreamSource::Twitch), 7, true, true).unwrap();
    post_favourite_stream(&mut store, request("streamerB", StreamSource::Youtube), 7, true, true).unwrap();
    post_favourite_stream(&mut store, request("streamerC", StreamSource::Twitch), 9, true, true).unwrap();
    let mine = get_favourite_streams(&store, 7);
    assert_eq!(mine.len(), 2);
    assert_eq!(mine[0].identifier, "streamerA");
    assert_eq!(mine[0].source, "Twitch");
    assert_eq!(mine[1].identifier, "streamerB");
    assert_eq!(mine[1].source, "Toutube");
    let theirs = get_favourite_streams(&store, 9);
    assert_eq!(theirs.len(), 1);
    assert_eq!(theirs[0].identifier, "streamerC");
    let nobody = get_favourite_streams(&store, 4);
    assert!(nobody.is_empty());
}

#[test]
fn source_names_as_stored() {
    assert_eq!(StreamSource::from(StreamSource::Twitch), "Twitch");
    assert_eq!(StreamSource::from(StreamSource::Youtube), "Toutube");
}

#[test]
fn insertion_model_carries_the_request() {
    let model = FavouriteStreamsModel::from(request("streamerA", StreamSource::Twitch), 3);
    assert_eq!(model.associated_user, 3);
    assert_eq!(model.identifier, "streamerA");
    assert_eq!(model.source, "Twitch");
}

#[test]
fn response_carries_the_stored_row() {
    let saved = SavedFavouriteStreamsModel {
        id: 1,
        associated_user: 3,
        identifier: String::from("streamerA"),
        source: String::from("Twitch"),
    };
    let response = FavouriteStreamResponse::from(saved);
    assert_eq!(response.identifier, "streamerA");
    assert_eq!(response.source, "Twitch");
}
