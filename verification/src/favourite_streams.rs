//! The favourite registry: at most one favourite per (owner, identifier,
//! source) triple.
//!
//! Registration is a check followed by an insert, two separate storage
//! calls.  The two storage dispositions passed in stand for the outcome of
//! each call; a failed call aborts the request and maps to
//! `InternalServerError`, leaving the table untouched.

use vstd::prelude::*;

use crate::Status;
use crate::database::favourite_streams::{
    FavouriteStore, FavouriteStreamsModel, SavedFavouriteStreamsModel, spec_match_count,
    spec_matches, spec_rows_for, spec_source_name,
};
use crate::database::favourite_streams::StreamSource;

verus! {

/// An inbound registration request.
#[derive(Debug)]
pub struct FavouriteStreamsRequest {
    pub identifier: String,
    pub source: StreamSource,
}

/// One favourite as reported back to the caller.
#[derive(Debug)]
pub struct FavouriteStreamResponse {
    pub identifier: String,
    pub source: String,
}

impl FavouriteStreamResponse {
    pub fn from(saved_favourited_streamer: SavedFavouriteStreamsModel) -> (response: Self)
        ensures
            response.identifier == saved_favourited_streamer.identifier,
            response.source == saved_favourited_streamer.source,
    {
        FavouriteStreamResponse {
            identifier: saved_favourited_streamer.identifier,
            source: saved_favourited_streamer.source,
        }
    }
}

/// A request conflicts with the stored rows when some row already matches
/// its (owner, identifier, source) triple.
pub open spec fn spec_has_conflict(
    rows: Seq<SavedFavouriteStreamsModel>,
    user: i32,
    request: FavouriteStreamsRequest,
) -> bool {
    spec_match_count(rows, user, request.identifier@, spec_source_name(request.source)) > 0
}

/// Registers a favourite: queries for the exact triple first, then inserts
/// only when nothing matched.  `find_ok` and `insert_ok` are the
/// dispositions of the two storage calls; a failed call aborts with
/// `InternalServerError` and leaves the table unchanged.
pub fn post_favourite_stream(
    store: &mut FavouriteStore,
    favourite_streams_request: FavouriteStreamsRequest,
    profile_id: i32,
    find_ok: bool,
    insert_ok: bool,
) -> (outcome: Result<Status, Status>)
    requires
        old(store).next_id < i32::MAX,
    ensures
        match outcome {
            Ok(created) => {
                &&& created == Status::Created
                &&& find_ok
                &&& insert_ok
                &&& !spec_has_conflict(old(store).rows@, profile_id, favourite_streams_request)
                &&& final(store).rows@ == old(store).rows@.push(final(store).rows@.last())
                &&& final(store).rows@.last().id == old(store).next_id
                &&& final(store).rows@.last().associated_user == profile_id
                &&& final(store).rows@.last().identifier == favourite_streams_request.identifier
                &&& final(store).rows@.last().source@ == spec_source_name(
                    favourite_streams_request.source,
                )
                &&& final(store).next_id == old(store).next_id + 1
            },
            Err(e) => {
                &&& *final(store) == *old(store)
                &&& match e {
                    Status::Conflict => find_ok && spec_has_conflict(
                        old(store).rows@,
                        profile_id,
                        favourite_streams_request,
                    ),
                    Status::InternalServerError => !find_ok || (!spec_has_conflict(
                        old(store).rows@,
                        profile_id,
                        favourite_streams_request,
                    ) && !insert_ok),
                    _ => false,
                }
            },
        },
{
    if !find_ok {
        return Err(Status::InternalServerError);
    }
    let source_name = StreamSource::from(favourite_streams_request.source);
    let has_found_conflict = store.find_favourite_streamer(
        profile_id,
        &favourite_streams_request.identifier,
        &source_name,
    );
    if has_found_conflict > 0 {
        Err(Status::Conflict)
    } else {
        if !insert_ok {
            return Err(Status::InternalServerError);
        }
        store.insert_favourite_streamer(
            FavouriteStreamsModel::from(favourite_streams_request, profile_id),
        );
        Ok(Status::Created)
    }
}

/// Lists the owner's favourites, one response per stored row, in storage
/// order.
pub fn get_favourite_streams(store: &FavouriteStore, profile_id: i32) -> (response: Vec<
    FavouriteStreamResponse,
>)
    ensures
        ({
            let rows = spec_rows_for(store.rows@, profile_id);
            &&& response@.len() == rows.len()
            &&& forall|i: int|
                0 <= i < rows.len() ==> response@[i].identifier == rows[i].identifier
                    && response@[i].source == rows[i].source
        }),
{
    let all_favourited_streams = store.find_all_favourited_streamers(profile_id);
    let mut response: Vec<FavouriteStreamResponse> = Vec::new();
    let mut i: usize = 0;
    let n = all_favourited_streams.len();
    while i < n
        invariant
            i <= n,
            n == all_favourited_streams@.len(),
            response@.len() == i,
            forall|j: int|
                0 <= j < i ==> response@[j].identifier == all_favourited_streams@[j].identifier
                    && response@[j].source == all_favourited_streams@[j].source,
        decreases n - i,
    {
        let row = all_favourited_streams[i].clone_row();
        response.push(FavouriteStreamResponse::from(row));
        i = i + 1;
    }
    response
}

/// Registering the same triple again always conflicts: once a matching row
/// is stored, the duplicate check counts it.  With the registry's contract
/// this says that a second registration of a just-created favourite yields
/// `Conflict`, never `Created`.
pub proof fn lemma_duplicate_registration_conflicts(
    rows: Seq<SavedFavouriteStreamsModel>,
    row: SavedFavouriteStreamsModel,
    user: i32,
    request: FavouriteStreamsRequest,
)
    requires
        spec_matches(row, user, request.identifier@, spec_source_name(request.source)),
    ensures
        spec_has_conflict(rows.push(row), user, request),
{
    assert(rows.push(row).drop_last() =~= rows);
    assert(rows.push(row).last() == row);
}

/// Registering a different triple never creates a conflict for this one:
/// the duplicate count is unchanged by rows that do not match.  With the
/// registry's contract this says that two registrations of distinct triples
/// both yield `Created`.
pub proof fn lemma_distinct_registration_no_conflict(
    rows: Seq<SavedFavouriteStreamsModel>,
    row: SavedFavouriteStreamsModel,
    user: i32,
    request: FavouriteStreamsRequest,
)
    requires
        !spec_matches(row, user, request.identifier@, spec_source_name(request.source)),
    ensures
        spec_has_conflict(rows.push(row), user, request) == spec_has_conflict(
            rows,
            user,
            request,
        ),
{
    assert(rows.push(row).drop_last() =~= rows);
    assert(rows.push(row).last() == row);
}

/// Every row in an owner's listing belongs to that owner: a listing never
/// shows another owner's favourites.
pub proof fn lemma_listing_owner_only(rows: Seq<SavedFavouriteStreamsModel>, user: i32)
    ensures
        forall|i: int|
            0 <= i < spec_rows_for(rows, user).len() ==> #[trigger] spec_rows_for(
                rows,
                user,
            )[i].associated_user == user,
    decreases rows.len(),
{
    if rows.len() > 0 {
        lemma_listing_owner_only(rows.drop_last(), user);
        let sub = spec_rows_for(rows.drop_last(), user);
        assert forall|i: int|
            0 <= i < spec_rows_for(rows, user).len() implies #[trigger] spec_rows_for(
            rows,
            user,
        )[i].associated_user == user by {
            if i < sub.len() {
                assert(spec_rows_for(rows, user)[i] == sub[i]);
            }
        }
    }
}

/// A row created for an owner is appended to exactly that owner's listing;
/// every other owner's listing is unchanged.  Together with the registry's
/// contract this says a listing holds exactly the triples created for its
/// owner.
pub proof fn lemma_listing_after_insert(
    rows: Seq<SavedFavouriteStreamsModel>,
    row: SavedFavouriteStreamsModel,
    user: i32,
)
    ensures
        row.associated_user == user ==> spec_rows_for(rows.push(row), user) == spec_rows_for(
            rows,
            user,
        ).push(row),
        row.associated_user != user ==> spec_rows_for(rows.push(row), user) == spec_rows_for(
            rows,
            user,
        ),
{
    assert(rows.push(row).drop_last() =~= rows);
    assert(rows.push(row).last() == row);
}

} // verus!
