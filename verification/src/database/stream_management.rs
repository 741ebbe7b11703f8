//! Preset rows: one title row per saved preset, many tag rows referencing
//! it.

use vstd::prelude::*;

use crate::Status;
use crate::stream_management::{StreamTag, StreamTitle};

verus! {

/// A title row as handed to the store for insertion.
#[derive(Debug)]
pub struct StreamTitleModel {
    pub associated_user: String,
    pub title: String,
}

impl StreamTitleModel {
    pub fn from(stream_title_request: &StreamTitle, user_id: String) -> (model: Self)
        ensures
            model.associated_user == user_id,
            model.title == stream_title_request.title,
    {
        StreamTitleModel { associated_user: user_id, title: stream_title_request.title.clone() }
    }
}

/// A tag row as handed to the store for insertion.
#[derive(Debug)]
pub struct StreamTagModel {
    pub associated_title: i32,
    pub source_id: String,
    pub name: String,
}

impl StreamTagModel {
    pub fn from(stream_tag_request: &StreamTag, title_id: i32) -> (model: Self)
        ensures
            model.associated_title == title_id,
            model.source_id == stream_tag_request.id,
            model.name == stream_tag_request.name,
    {
        StreamTagModel {
            associated_title: title_id,
            source_id: stream_tag_request.id.clone(),
            name: stream_tag_request.name.clone(),
        }
    }
}

/// A title row as stored, with its assigned id.
#[derive(Debug)]
pub struct SavedTitleModel {
    pub id: i32,
    pub associated_user: String,
    pub title: String,
}

impl SavedTitleModel {
    /// A field-for-field copy of the row.
    pub fn clone_row(&self) -> (row: Self)
        ensures
            row == *self,
    {
        SavedTitleModel {
            id: self.id,
            associated_user: self.associated_user.clone(),
            title: self.title.clone(),
        }
    }
}

/// A tag row as stored, with its assigned id.
#[derive(Debug)]
pub struct SavedTagModel {
    pub id: i32,
    pub associated_title: i32,
    pub source_id: String,
    pub name: String,
}

impl SavedTagModel {
    /// A field-for-field copy of the row.
    pub fn clone_row(&self) -> (row: Self)
        ensures
            row == *self,
    {
        SavedTagModel {
            id: self.id,
            associated_title: self.associated_title,
            source_id: self.source_id.clone(),
            name: self.name.clone(),
        }
    }
}

/// The first title row carrying the id, scanning in storage order.
pub open spec fn spec_find_title(titles: Seq<SavedTitleModel>, id: i32) -> Option<SavedTitleModel>
    decreases titles.len(),
{
    if titles.len() == 0 {
        None
    } else if titles[0].id == id {
        Some(titles[0])
    } else {
        spec_find_title(titles.drop_first(), id)
    }
}

/// The title rows belonging to one owner, in storage order.
pub open spec fn spec_titles_for(titles: Seq<SavedTitleModel>, user: Seq<char>) -> Seq<
    SavedTitleModel,
>
    decreases titles.len(),
{
    if titles.len() == 0 {
        Seq::empty()
    } else if titles.last().associated_user@ == user {
        spec_titles_for(titles.drop_last(), user).push(titles.last())
    } else {
        spec_titles_for(titles.drop_last(), user)
    }
}

/// The tag rows referencing one title, in storage order.
pub open spec fn spec_tags_for(tags: Seq<SavedTagModel>, title_id: i32) -> Seq<SavedTagModel>
    decreases tags.len(),
{
    if tags.len() == 0 {
        Seq::empty()
    } else if tags.last().associated_title == title_id {
        spec_tags_for(tags.drop_last(), title_id).push(tags.last())
    } else {
        spec_tags_for(tags.drop_last(), title_id)
    }
}

/// The preset tables: title rows, tag rows, and the ids the next inserts
/// get.
pub struct StreamStore {
    pub titles: Vec<SavedTitleModel>,
    pub tags: Vec<SavedTagModel>,
    pub next_title_id: i32,
    pub next_tag_id: i32,
}

impl StreamStore {
    /// Assigned ids stay below the id counters, and every tag references a
    /// title id that has already been assigned.
    pub open spec fn wf(self) -> bool {
        &&& forall|i: int|
            0 <= i < self.titles@.len() ==> #[trigger] self.titles@[i].id < self.next_title_id
        &&& forall|i: int|
            0 <= i < self.tags@.len() ==> #[trigger] self.tags@[i].associated_title
                < self.next_title_id
    }

    /// An empty pair of tables whose first assigned ids are 1.
    pub fn new() -> (store: Self)
        ensures
            store.titles@ =~= Seq::<SavedTitleModel>::empty(),
            store.tags@ =~= Seq::<SavedTagModel>::empty(),
            store.next_title_id == 1,
            store.next_tag_id == 1,
            store.wf(),
    {
        StreamStore { titles: Vec::new(), tags: Vec::new(), next_title_id: 1, next_tag_id: 1 }
    }

    /// Inserts the title row, assigning it the next title id, and returns
    /// the stored row.
    pub fn insert_stream_title(&mut self, stream_title: StreamTitleModel) -> (saved:
        SavedTitleModel)
        requires
            old(self).next_title_id < i32::MAX,
        ensures
            saved == (SavedTitleModel {
                id: old(self).next_title_id,
                associated_user: stream_title.associated_user,
                title: stream_title.title,
            }),
            final(self).titles@ == old(self).titles@.push(saved),
            final(self).next_title_id == old(self).next_title_id + 1,
            final(self).tags == old(self).tags,
            final(self).next_tag_id == old(self).next_tag_id,
            old(self).wf() ==> final(self).wf(),
    {
        let saved = SavedTitleModel {
            id: self.next_title_id,
            associated_user: stream_title.associated_user,
            title: stream_title.title,
        };
        self.next_title_id = self.next_title_id + 1;
        let copy = saved.clone_row();
        self.titles.push(saved);
        copy
    }

    /// Inserts the tag row, assigning it the next tag id; reports one
    /// affected row.  The referenced title id must already be assigned.
    pub fn insert_stream_tag(&mut self, stream_tag: StreamTagModel) -> (inserted: usize)
        requires
            old(self).next_tag_id < i32::MAX,
            stream_tag.associated_title < old(self).next_title_id,
        ensures
            inserted == 1,
            final(self).tags@ == old(self).tags@.push(
                (SavedTagModel {
                    id: old(self).next_tag_id,
                    associated_title: stream_tag.associated_title,
                    source_id: stream_tag.source_id,
                    name: stream_tag.name,
                }),
            ),
            final(self).next_tag_id == old(self).next_tag_id + 1,
            final(self).titles == old(self).titles,
            final(self).next_title_id == old(self).next_title_id,
            old(self).wf() ==> final(self).wf(),
    {
        let id = self.next_tag_id;
        self.next_tag_id = self.next_tag_id + 1;
        self.tags.push(
            SavedTagModel {
                id,
                associated_title: stream_tag.associated_title,
                source_id: stream_tag.source_id,
                name: stream_tag.name,
            },
        );
        1
    }

    /// Returns copies of the owner's title rows, in storage order.
    pub fn find_stream_titles(&self, id: &String) -> (titles: Vec<SavedTitleModel>)
        ensures
            titles@ == spec_titles_for(self.titles@, id@),
    {
        let mut out: Vec<SavedTitleModel> = Vec::new();
        let mut i: usize = 0;
        let n = self.titles.len();
        while i < n
            invariant
                i <= n,
                n == self.titles@.len(),
                out@ == spec_titles_for(self.titles@.take(i as int), id@),
            decreases n - i,
        {
            proof {
                let t = self.titles@.take(i + 1);
                assert(t.drop_last() =~= self.titles@.take(i as int));
                assert(t.last() == self.titles@[i as int]);
            }
            let row = &self.titles[i];
            if row.associated_user.eq(id) {
                out.push(row.clone_row());
            }
            i = i + 1;
        }
        proof {
            assert(self.titles@.take(n as int) =~= self.titles@);
        }
        out
    }

    /// Looks a title row up by id: a copy of the first row carrying the id,
    /// or `NotFound` when no row does.
    pub fn find_stream_title(&self, id: i32) -> (found: Result<SavedTitleModel, Status>)
        ensures
            match found {
                Ok(title) => spec_find_title(self.titles@, id) == Some(title) && title.id == id,
                Err(e) => spec_find_title(self.titles@, id) is None && e == Status::NotFound,
            },
    {
        let mut i: usize = 0;
        let n = self.titles.len();
        proof {
            assert(self.titles@.skip(0) =~= self.titles@);
        }
        while i < n
            invariant
                i <= n,
                n == self.titles@.len(),
                spec_find_title(self.titles@, id) == spec_find_title(
                    self.titles@.skip(i as int),
                    id,
                ),
            decreases n - i,
        {
            proof {
                let s = self.titles@.skip(i as int);
                assert(s[0] == self.titles@[i as int]);
                assert(s.drop_first() =~= self.titles@.skip(i + 1));
            }
            let row = &self.titles[i];
            if row.id == id {
                return Ok(row.clone_row());
            }
            i = i + 1;
        }
        proof {
            assert(self.titles@.skip(n as int) =~= Seq::<SavedTitleModel>::empty());
        }
        Err(Status::NotFound)
    }

    /// Returns copies of the tag rows referencing the title, in storage
    /// order.
    pub fn find_stream_tag(&self, title_id: i32) -> (tags: Vec<SavedTagModel>)
        ensures
            tags@ == spec_tags_for(self.tags@, title_id),
    {
        let mut out: Vec<SavedTagModel> = Vec::new();
        let mut i: usize = 0;
        let n = self.tags.len();
        while i < n
            invariant
                i <= n,
                n == self.tags@.len(),
                out@ == spec_tags_for(self.tags@.take(i as int), title_id),
            decreases n - i,
        {
            proof {
                let t = self.tags@.take(i + 1);
                assert(t.drop_last() =~= self.tags@.take(i as int));
                assert(t.last() == self.tags@[i as int]);
            }
            let row = &self.tags[i];
            if row.associated_title == title_id {
                out.push(row.clone_row());
            }
            i = i + 1;
        }
        proof {
            assert(self.tags@.take(n as int) =~= self.tags@);
        }
        out
    }
}

} // verus!
