//! Favourite-stream rows and the table they are kept in.
//!
//! The table enforces nothing by itself; the duplicate check lives in the
//! registry logic (`crate::favourite_streams`).  Lookups are specified
//! exactly, so the registry's decisions can be proved against them.

use vstd::prelude::*;
use vstd::string::StringExecFns;

use crate::favourite_streams::FavouriteStreamsRequest;

verus! {

/// The platforms a favourited channel can come from.
#[derive(Clone, Copy, Debug, PartialEq, Eq, Structural)]
pub enum StreamSource {
    Twitch,
    Youtube,
}

/// The stored name of each source platform.
pub open spec fn spec_source_name(source: StreamSource) -> Seq<char> {
    match source {
        StreamSource::Twitch => "Twitch"@,
        StreamSource::Youtube => "Toutube"@,
    }
}

impl StreamSource {
    /// The name a source is stored under.
    pub fn from(source: StreamSource) -> (name: String)
        ensures
            name@ == spec_source_name(source),
    {
        match source {
            StreamSource::Twitch => String::from_str("Twitch"),
            StreamSource::Youtube => String::from_str("Toutube"),
        }
    }
}

/// A favourite row as handed to the store for insertion.
#[derive(Debug)]
pub struct FavouriteStreamsModel {
    pub associated_user: i32,
    pub identifier: String,
    pub source: String,
}

impl FavouriteStreamsModel {
    pub fn from(streamer: FavouriteStreamsRequest, user: i32) -> (model: Self)
        ensures
            model.associated_user == user,
            model.identifier == streamer.identifier,
            model.source@ == spec_source_name(streamer.source),
    {
        FavouriteStreamsModel {
            associated_user: user,
            identifier: streamer.identifier,
            source: StreamSource::from(streamer.source),
        }
    }
}

/// A favourite row as stored, with its assigned id.
#[derive(Debug)]
pub struct SavedFavouriteStreamsModel {
    pub id: i32,
    pub associated_user: i32,
    pub identifier: String,
    pub source: String,
}

impl SavedFavouriteStreamsModel {
    /// A field-for-field copy of the row.
    pub fn clone_row(&self) -> (row: Self)
        ensures
            row == *self,
    {
        SavedFavouriteStreamsModel {
            id: self.id,
            associated_user: self.associated_user,
            identifier: self.identifier.clone(),
            source: self.source.clone(),
        }
    }
}

/// A stored row matches a (user, identifier, source) triple when all three
/// fields agree.
pub open spec fn spec_matches(
    row: SavedFavouriteStreamsModel,
    user: i32,
    identifier: Seq<char>,
    source: Seq<char>,
) -> bool {
    row.associated_user == user && row.identifier@ == identifier && row.source@ == source
}

/// How many stored rows match the triple.
pub open spec fn spec_match_count(
    rows: Seq<SavedFavouriteStreamsModel>,
    user: i32,
    identifier: Seq<char>,
    source: Seq<char>,
) -> nat
    decreases rows.len(),
{
    if rows.len() == 0 {
        0
    } else {
        spec_match_count(rows.drop_last(), user, identifier, source) + (if spec_matches(
            rows.last(),
            user,
            identifier,
            source,
        ) {
            1nat
        } else {
            0nat
        })
    }
}

/// The rows belonging to one owner, in storage order.
pub open spec fn spec_rows_for(
    rows: Seq<SavedFavouriteStreamsModel>,
    user: i32,
) -> Seq<SavedFavouriteStreamsModel>
    decreases rows.len(),
{
    if rows.len() == 0 {
        Seq::empty()
    } else if rows.last().associated_user == user {
        spec_rows_for(rows.drop_last(), user).push(rows.last())
    } else {
        spec_rows_for(rows.drop_last(), user)
    }
}

/// The favourite-streams table: rows plus the id the next insert gets.
pub struct FavouriteStore {
    pub rows: Vec<SavedFavouriteStreamsModel>,
    pub next_id: i32,
}

impl FavouriteStore {
    /// An empty table whose first assigned id is 1.
    pub fn new() -> (store: Self)
        ensures
            store.rows@ =~= Seq::<SavedFavouriteStreamsModel>::empty(),
            store.next_id == 1,
    {
        FavouriteStore { rows: Vec::new(), next_id: 1 }
    }

    /// Inserts the row, assigning it the next id; reports one affected row.
    pub fn insert_favourite_streamer(&mut self, streamer: FavouriteStreamsModel) -> (inserted:
        usize)
        requires
            old(self).next_id < i32::MAX,
        ensures
            inserted == 1,
            final(self).rows@ == old(self).rows@.push(
                (SavedFavouriteStreamsModel {
                    id: old(self).next_id,
                    associated_user: streamer.associated_user,
                    identifier: streamer.identifier,
                    source: streamer.source,
                }),
            ),
            final(self).next_id == old(self).next_id + 1,
    {
        let id = self.next_id;
        self.next_id = self.next_id + 1;
        self.rows.push(
            SavedFavouriteStreamsModel {
                id,
                associated_user: streamer.associated_user,
                identifier: streamer.identifier,
                source: streamer.source,
            },
        );
        1
    }

    /// Counts the rows matching the exact (user, identifier, source) triple.
    pub fn find_favourite_streamer(
        &self,
        associated_user: i32,
        streamer: &String,
        source: &String,
    ) -> (count: usize)
        ensures
            count as nat == spec_match_count(self.rows@, associated_user, streamer@, source@),
    {
        let mut count: usize = 0;
        let mut i: usize = 0;
        let n = self.rows.len();
        while i < n
            invariant
                i <= n,
                n == self.rows@.len(),
                count <= i,
                count as nat == spec_match_count(
                    self.rows@.take(i as int),
                    associated_user,
                    streamer@,
                    source@,
                ),
            decreases n - i,
        {
            let row = &self.rows[i];
            proof {
                let t = self.rows@.take(i + 1);
                assert(t.drop_last() =~= self.rows@.take(i as int));
                assert(t.last() == self.rows@[i as int]);
            }
            if row.associated_user == associated_user && row.identifier.eq(streamer)
                && row.source.eq(source) {
                count = count + 1;
            }
            i = i + 1;
        }
        proof {
            assert(self.rows@.take(n as int) =~= self.rows@);
        }
        count
    }

    /// Returns copies of all rows belonging to the owner, in storage order.
    pub fn find_all_favourited_streamers(&self, associated_user: i32) -> (rows: Vec<
        SavedFavouriteStreamsModel,
    >)
        ensures
            rows@ == spec_rows_for(self.rows@, associated_user),
    {
        let mut out: Vec<SavedFavouriteStreamsModel> = Vec::new();
        let mut i: usize = 0;
        let n = self.rows.len();
        while i < n
            invariant
                i <= n,
                n == self.rows@.len(),
                out@ == spec_rows_for(self.rows@.take(i as int), associated_user),
            decreases n - i,
        {
            proof {
                let t = self.rows@.take(i + 1);
                assert(t.drop_last() =~= self.rows@.take(i as int));
                assert(t.last() == self.rows@[i as int]);
            }
            let row = &self.rows[i];
            if row.associated_user == associated_user {
                out.push(row.clone_row());
            }
            i = i + 1;
        }
        proof {
            assert(self.rows@.take(n as int) =~= self.rows@);
        }
        out
    }
}

} // verus!
