//! Preset management and the activation workflow.
//!
//! Saving a preset inserts one title row and then its tag rows; the tag
//! inserts are independent siblings, all attempted, and the save succeeds
//! only when every one of them does — a failed tag insert leaves the title
//! row in place, a documented inconsistency that is reproduced here, not
//! repaired.  Activation is a staged workflow: resolve the caller, load the
//! preset, probe the remote channel, then dispatch the channel update and
//! the tag replacement as one concurrent fan-out and aggregate both
//! results.

use vstd::pervasive::unreached;
use vstd::prelude::*;
use vstd::string::{StrSliceExecFns, StringExecFns};

use crate::Status;
use crate::database::stream_management::{
    SavedTagModel, SavedTitleModel, StreamStore, StreamTagModel, StreamTitleModel,
    spec_find_title, spec_tags_for, spec_titles_for,
};
use crate::service::{
    ModifyChannelRequest, ReplaceTagsRequest, TwitchChannelInformation, TwitchUser,
};
use crate::text::range_eq;

verus! {

/// An inbound save request: a title and the tags to attach to it.
#[derive(Debug)]
pub struct StreamManagementRequest {
    pub title: StreamTitle,
    pub tags: Vec<StreamTag>,
}

/// The title part of a save request.
#[derive(Debug)]
pub struct StreamTitle {
    pub title: String,
}

/// One tag of a save request: the platform's tag id and a display name.
#[derive(Debug)]
pub struct StreamTag {
    pub id: String,
    pub name: String,
}

/// A stored preset as reported back to the caller: the title row joined
/// with the tag rows referencing it.
#[derive(Debug)]
pub struct StreamPreset {
    pub id: i32,
    pub title: String,
    pub tags: Vec<SavedTagModel>,
}

/// `s` with every occurrence of `Bearer ` replaced by `OAuth `, scanning
/// left to right.
pub open spec fn spec_replace_bearer(s: Seq<char>) -> Seq<char>
    decreases s.len(),
{
    if s.len() >= 7 && s.subrange(0, 7) == "Bearer "@ {
        "OAuth "@ + spec_replace_bearer(s.skip(7))
    } else if s.len() > 0 {
        seq![s[0]] + spec_replace_bearer(s.skip(1))
    } else {
        Seq::empty()
    }
}

/// Turns the inbound bearer header into the scheme the platform expects:
/// every `Bearer ` becomes `OAuth `.
pub fn get_access_token(token: &str) -> (parsed: String)
    ensures
        parsed@ == spec_replace_bearer(token@),
{
    let n = token.unicode_len();
    let mut parsed = String::new();
    let mut i: usize = 0;
    proof {
        assert(token@.skip(0) =~= token@);
        assert(parsed@ + spec_replace_bearer(token@) =~= spec_replace_bearer(token@));
    }
    while i < n
        invariant
            i <= n,
            n == token@.len(),
            spec_replace_bearer(token@) == parsed@ + spec_replace_bearer(token@.skip(i as int)),
        decreases n - i,
    {
        proof {
            reveal_strlit("Bearer ");
            reveal_strlit("OAuth ");
        }
        let ghost rest = token@.skip(i as int);
        if n >= 7 && i <= n - 7 && range_eq(token, i, "Bearer ", 7) {
            proof {
                assert(rest.subrange(0, 7) =~= token@.subrange(i as int, i + 7));
                assert("Bearer "@.subrange(0, 7) =~= "Bearer "@);
                assert(rest.skip(7) =~= token@.skip(i + 7));
                assert((parsed@ + "OAuth "@) + spec_replace_bearer(token@.skip(i + 7)) =~= parsed@
                    + ("OAuth "@ + spec_replace_bearer(token@.skip(i + 7))));
            }
            parsed.append("OAuth ");
            i = i + 7;
        } else {
            proof {
                if i + 7 <= n {
                    assert(rest.subrange(0, 7) =~= token@.subrange(i as int, i + 7));
                    assert("Bearer "@.subrange(0, 7) =~= "Bearer "@);
                }
                assert(rest[0] == token@[i as int]);
                assert(rest.skip(1) =~= token@.skip(i + 1));
                assert(token@.subrange(i as int, i + 1) =~= seq![token@[i as int]]);
                assert((parsed@ + seq![token@[i as int]]) + spec_replace_bearer(
                    token@.skip(i + 1),
                ) =~= parsed@ + (seq![token@[i as int]] + spec_replace_bearer(
                    token@.skip(i + 1),
                )));
            }
            let c = token.substring_char(i, i + 1);
            parsed.append(c);
            i = i + 1;
        }
    }
    proof {
        assert(token@.skip(n as int) =~= Seq::<char>::empty());
        assert(parsed@ + Seq::<char>::empty() =~= parsed@);
    }
    parsed
}

/// How many of the dispositions are successes.
pub open spec fn spec_count_true(ok: Seq<bool>) -> nat
    decreases ok.len(),
{
    if ok.len() == 0 {
        0
    } else {
        spec_count_true(ok.drop_last()) + (if ok.last() {
            1nat
        } else {
            0nat
        })
    }
}

/// The tag rows a save stores, given the requested tags, the disposition of
/// each tag insert, the new title id, and the first tag id to assign.
pub open spec fn spec_saved_tags(
    tags: Seq<StreamTag>,
    ok: Seq<bool>,
    title_id: i32,
    next_tag_id: int,
) -> Seq<SavedTagModel>
    recommends
        ok.len() == tags.len(),
    decreases tags.len(),
{
    if tags.len() == 0 || ok.len() != tags.len() {
        Seq::empty()
    } else {
        let prefix = spec_saved_tags(tags.drop_last(), ok.drop_last(), title_id, next_tag_id);
        if ok.last() {
            prefix.push(
                SavedTagModel {
                    id: (next_tag_id + spec_count_true(ok.drop_last())) as i32,
                    associated_title: title_id,
                    source_id: tags.last().id,
                    name: tags.last().name,
                },
            )
        } else {
            prefix
        }
    }
}

/// At most every disposition is a success.
proof fn lemma_count_true_le_len(ok: Seq<bool>)
    ensures
        spec_count_true(ok) <= ok.len(),
    decreases ok.len(),
{
    if ok.len() > 0 {
        lemma_count_true_le_len(ok.drop_last());
    }
}

/// Saves a preset: inserts the title row first, then one tag row per
/// requested tag, each referencing the new title id.  `title_ok` and
/// `tag_ok` are the dispositions of the storage inserts; every tag insert
/// is attempted regardless of its siblings, and the save reports success
/// only when the title and every tag went in.  A failed tag insert leaves
/// the title row (and the sibling tag rows that succeeded) in place.
pub fn post_stream_management(
    store: &mut StreamStore,
    stream_management_request: StreamManagementRequest,
    user_id: String,
    title_ok: bool,
    tag_ok: &Vec<bool>,
) -> (outcome: Result<Status, Status>)
    requires
        tag_ok@.len() == stream_management_request.tags@.len(),
        old(store).next_title_id < i32::MAX,
        old(store).next_tag_id + stream_management_request.tags@.len() < i32::MAX,
    ensures
        !title_ok ==> *final(store) == *old(store) && outcome == Err::<Status, Status>(
            Status::InternalServerError,
        ),
        title_ok ==> ({
            let new_title = final(store).titles@.last();
            &&& final(store).titles@ == old(store).titles@.push(new_title)
            &&& new_title.id == old(store).next_title_id
            &&& new_title.associated_user == user_id
            &&& new_title.title == stream_management_request.title.title
            &&& final(store).next_title_id == old(store).next_title_id + 1
            &&& final(store).tags@ == old(store).tags@ + spec_saved_tags(
                stream_management_request.tags@,
                tag_ok@,
                old(store).next_title_id,
                old(store).next_tag_id as int,
            )
            &&& final(store).next_tag_id == old(store).next_tag_id + spec_count_true(tag_ok@)
            &&& (old(store).wf() ==> final(store).wf())
            &&& ((forall|k: int| 0 <= k < tag_ok@.len() ==> tag_ok@[k]) ==> outcome == Ok::<
                Status,
                Status,
            >(Status::Okay))
            &&& (!(forall|k: int| 0 <= k < tag_ok@.len() ==> tag_ok@[k]) ==> outcome == Err::<
                Status,
                Status,
            >(Status::InternalServerError))
        }),
{
    if !title_ok {
        return Err(Status::InternalServerError);
    }
    let stream_title_model = StreamTitleModel::from(&stream_management_request.title, user_id);
    let stream_title = store.insert_stream_title(stream_title_model);
    let title_id = stream_title.id;
    let ghost first_tag_id = old(store).next_tag_id as int;
    let mut all_ok = true;
    let mut i: usize = 0;
    let n = stream_management_request.tags.len();
    proof {
        assert(stream_management_request.tags@.take(0) =~= Seq::<StreamTag>::empty());
        assert(tag_ok@.take(0) =~= Seq::<bool>::empty());
        assert(store.tags@ + Seq::<SavedTagModel>::empty() =~= store.tags@);
    }
    while i < n
        invariant
            i <= n,
            n == stream_management_request.tags@.len(),
            tag_ok@.len() == n,
            title_id == old(store).next_title_id,
            store.titles@ == old(store).titles@.push(store.titles@.last()),
            store.titles@.len() == old(store).titles@.len() + 1,
            store.titles@.last().id == old(store).next_title_id,
            store.titles@.last().associated_user == user_id,
            store.titles@.last().title == stream_management_request.title.title,
            store.next_title_id == old(store).next_title_id + 1,
            store.tags@ == old(store).tags@ + spec_saved_tags(
                stream_management_request.tags@.take(i as int),
                tag_ok@.take(i as int),
                title_id,
                first_tag_id,
            ),
            store.next_tag_id == first_tag_id + spec_count_true(tag_ok@.take(i as int)),
            first_tag_id + n < i32::MAX,
            all_ok == (forall|k: int| 0 <= k < i ==> tag_ok@[k]),
            old(store).wf() ==> store.wf(),
        decreases n - i,
    {
        proof {
            lemma_count_true_le_len(tag_ok@.take(i as int));
            let tk = stream_management_request.tags@.take(i + 1);
            let okk = tag_ok@.take(i + 1);
            assert(tk.drop_last() =~= stream_management_request.tags@.take(i as int));
            assert(okk.drop_last() =~= tag_ok@.take(i as int));
            assert(tk.last() == stream_management_request.tags@[i as int]);
            assert(okk.last() == tag_ok@[i as int]);
        }
        if tag_ok[i] {
            let stream_tag_model = StreamTagModel::from(&stream_management_request.tags[i], title_id);
            let ghost before = store.tags@;
            store.insert_stream_tag(stream_tag_model);
            proof {
                let appended = spec_saved_tags(
                    stream_management_request.tags@.take(i + 1),
                    tag_ok@.take(i + 1),
                    title_id,
                    first_tag_id,
                );
                assert(store.tags@ =~= old(store).tags@ + appended);
            }
        } else {
            all_ok = false;
        }
        i = i + 1;
    }
    proof {
        assert(stream_management_request.tags@.take(n as int) =~= stream_management_request.tags@);
        assert(tag_ok@.take(n as int) =~= tag_ok@);
    }
    if all_ok {
        Ok(Status::Okay)
    } else {
        Err(Status::InternalServerError)
    }
}

/// Lists the owner's presets: each of their title rows joined with the tag
/// rows referencing it, in storage order.
pub fn get_stream_management(store: &StreamStore, user_id: &String) -> (stream_preset_response:
    Vec<StreamPreset>)
    ensures
        ({
            let titles = spec_titles_for(store.titles@, user_id@);
            &&& stream_preset_response@.len() == titles.len()
            &&& forall|i: int|
                0 <= i < titles.len() ==> {
                    &&& #[trigger] stream_preset_response@[i].id == titles[i].id
                    &&& stream_preset_response@[i].title == titles[i].title
                    &&& stream_preset_response@[i].tags@ == spec_tags_for(
                        store.tags@,
                        titles[i].id,
                    )
                }
        }),
{
    let titles = store.find_stream_titles(user_id);
    let mut stream_preset_response: Vec<StreamPreset> = Vec::new();
    let mut i: usize = 0;
    let n = titles.len();
    while i < n
        invariant
            i <= n,
            n == titles@.len(),
            titles@ == spec_titles_for(store.titles@, user_id@),
            stream_preset_response@.len() == i,
            forall|j: int|
                0 <= j < i ==> {
                    &&& #[trigger] stream_preset_response@[j].id == titles@[j].id
                    &&& stream_preset_response@[j].title == titles@[j].title
                    &&& stream_preset_response@[j].tags@ == spec_tags_for(
                        store.tags@,
                        titles@[j].id,
                    )
                },
        decreases n - i,
    {
        let title = titles[i].clone_row();
        let tags = store.find_stream_tag(title.id);
        stream_preset_response.push(StreamPreset { id: title.id, title: title.title, tags });
        i = i + 1;
    }
    stream_preset_response
}

/// Loads one preset by title id: the title row joined with the tag rows
/// referencing it, or `NotFound` when no title row carries the id.
pub fn load_stream_preset(store: &StreamStore, preset_id: i32) -> (loaded: Result<
    StreamPreset,
    Status,
>)
    ensures
        match loaded {
            Ok(preset) => {
                &&& spec_find_title(store.titles@, preset_id) matches Some(t) && preset.title
                    == t.title
                &&& preset.id == preset_id
                &&& preset.tags@ == spec_tags_for(store.tags@, preset_id)
            },
            Err(e) => spec_find_title(store.titles@, preset_id) is None && e == Status::NotFound,
        },
{
    let title = match store.find_stream_title(preset_id) {
        Ok(title) => title,
        Err(e) => {
            return Err(e);
        },
    };
    let tags = store.find_stream_tag(title.id);
    Ok(StreamPreset { id: title.id, title: title.title, tags })
}

/// The staged activation workflow.  Each stage consumes the result of the
/// outside call the previous stage asked for; a failed stage finishes the
/// workflow at once, so no later call is ever asked for.
#[derive(Debug)]
pub enum ActivationState {
    /// Resolve the caller's identity from their token.
    Identifying { preset_id: i32 },
    /// Load the requested preset from storage.
    LoadingPreset { preset_id: i32, user: TwitchUser },
    /// Read the current remote channel state.
    ProbingChannel { user: TwitchUser, preset: StreamPreset },
    /// Send the channel update and the tag replacement, concurrently.
    Dispatching { user: TwitchUser, modify: ModifyChannelRequest, replace: ReplaceTagsRequest },
    /// Report the aggregated outcome.
    Finished { result: Result<Status, Status> },
}

/// Begins an activation for one stored preset.
pub fn start_activation(preset_id: i32) -> (state: ActivationState)
    ensures
        state == (ActivationState::Identifying { preset_id }),
{
    ActivationState::Identifying { preset_id }
}

/// Consumes the identity-resolution outcome: on success the preset is
/// loaded next; on failure the workflow finishes with that error.
pub fn on_identity_resolved(state: ActivationState, outcome: Result<TwitchUser, Status>) -> (next:
    ActivationState)
    requires
        state is Identifying,
    ensures
        match outcome {
            Ok(user) => next == (ActivationState::LoadingPreset {
                preset_id: state->Identifying_preset_id,
                user,
            }),
            Err(e) => next == (ActivationState::Finished { result: Err(e) }),
        },
{
    match state {
        ActivationState::Identifying { preset_id } => match outcome {
            Ok(user) => ActivationState::LoadingPreset { preset_id, user },
            Err(e) => ActivationState::Finished { result: Err(e) },
        },
        _ => unreached(),
    }
}

/// Consumes the preset-load outcome: on success the remote channel is
/// probed next; on failure the workflow finishes with that error.
pub fn on_preset_loaded(state: ActivationState, outcome: Result<StreamPreset, Status>) -> (next:
    ActivationState)
    requires
        state is LoadingPreset,
    ensures
        match outcome {
            Ok(preset) => next == (ActivationState::ProbingChannel {
                user: state->LoadingPreset_user,
                preset,
            }),
            Err(e) => next == (ActivationState::Finished { result: Err(e) }),
        },
{
    match state {
        ActivationState::LoadingPreset { preset_id: _, user } => match outcome {
            Ok(preset) => ActivationState::ProbingChannel { user, preset },
            Err(e) => ActivationState::Finished { result: Err(e) },
        },
        _ => unreached(),
    }
}

/// Consumes the channel-probe outcome.  On success the two updates are
/// built: the channel update carries the preset's title and preserves the
/// remote game id and language; the tag replacement deliberately carries no
/// tag ids — the loaded tag identifiers are not forwarded, so activation
/// always clears the remote tags, reproducing the observed behaviour.  On
/// failure the workflow finishes at once: nothing is ever dispatched, so
/// neither write is attempted.
pub fn on_channel_probed(
    state: ActivationState,
    outcome: Result<TwitchChannelInformation, Status>,
) -> (next: ActivationState)
    requires
        state is ProbingChannel,
    ensures
        match outcome {
            Ok(channel_info) => {
                &&& next matches ActivationState::Dispatching { user, modify, replace }
                &&& next->Dispatching_user == state->ProbingChannel_user
                &&& next->Dispatching_modify.title == state->ProbingChannel_preset.title
                &&& next->Dispatching_modify.game_id == channel_info.game_id
                &&& next->Dispatching_modify.broadcaster_language
                    == channel_info.broadcaster_language
                &&& next->Dispatching_replace.tag_ids@.len() == 0
            },
            Err(e) => next == (ActivationState::Finished { result: Err(e) }) && !(next
                is Dispatching),
        },
{
    match state {
        ActivationState::ProbingChannel { user, preset } => match outcome {
            Ok(channel_info) => {
                let channel_modify_request = ModifyChannelRequest {
                    game_id: channel_info.game_id,
                    broadcaster_language: channel_info.broadcaster_language,
                    title: preset.title,
                };
                let replace_tags_request = ReplaceTagsRequest { tag_ids: Vec::new() };
                ActivationState::Dispatching {
                    user,
                    modify: channel_modify_request,
                    replace: replace_tags_request,
                }
            },
            Err(e) => ActivationState::Finished { result: Err(e) },
        },
        _ => unreached(),
    }
}

/// The aggregate of the two concurrent updates: success (no content) only
/// when both succeeded; otherwise the failure of the tag replacement when
/// it failed, else the failure of the channel update.  Neither side is
/// rolled back on the other's failure.
pub open spec fn spec_aggregate_outcome(
    channel_modify: Result<Status, Status>,
    replace_tags: Result<Status, Status>,
) -> Result<Status, Status> {
    if channel_modify is Ok && replace_tags is Ok {
        Ok(Status::NoContent)
    } else if replace_tags is Err {
        Err(replace_tags->Err_0)
    } else {
        Err(channel_modify->Err_0)
    }
}

/// Consumes both dispatch outcomes at once — the workflow only moves on
/// after the channel update and the tag replacement have both returned —
/// and finishes with their aggregate.
pub fn on_dispatch_completed(
    state: ActivationState,
    channel_modify: Result<Status, Status>,
    replace_tags: Result<Status, Status>,
) -> (next: ActivationState)
    requires
        state is Dispatching,
    ensures
        next == (ActivationState::Finished {
            result: spec_aggregate_outcome(channel_modify, replace_tags),
        }),
{
    let result = if channel_modify.is_ok() && replace_tags.is_ok() {
        Ok(Status::NoContent)
    } else if let Err(e) = replace_tags {
        Err(e)
    } else if let Err(e) = channel_modify {
        Err(e)
    } else {
        unreached()
    };
    ActivationState::Finished { result }
}

/// Loading the id a save assigned finds the title row it stored: assigned
/// ids are fresh, so no earlier row shadows it.
proof fn lemma_find_fresh_title(titles: Seq<SavedTitleModel>, row: SavedTitleModel)
    requires
        forall|i: int| 0 <= i < titles.len() ==> #[trigger] titles[i].id != row.id,
    ensures
        spec_find_title(titles.push(row), row.id) == Some(row),
    decreases titles.len(),
{
    if titles.len() == 0 {
        assert(titles.push(row)[0] == row);
    } else {
        assert(titles.push(row)[0] == titles[0]);
        assert(titles.push(row).drop_first() =~= titles.drop_first().push(row));
        assert(forall|i: int|
            0 <= i < titles.drop_first().len() ==> #[trigger] titles.drop_first()[i].id
                != row.id);
        lemma_find_fresh_title(titles.drop_first(), row);
    }
}

/// Selecting a title's tags distributes over appending rows.
proof fn lemma_tags_for_append(a: Seq<SavedTagModel>, b: Seq<SavedTagModel>, title_id: i32)
    ensures
        spec_tags_for(a + b, title_id) == spec_tags_for(a, title_id) + spec_tags_for(b, title_id),
    decreases b.len(),
{
    if b.len() == 0 {
        assert(a + b =~= a);
        assert(spec_tags_for(a, title_id) + spec_tags_for(b, title_id) =~= spec_tags_for(
            a,
            title_id,
        ));
    } else {
        assert((a + b).drop_last() =~= a + b.drop_last());
        assert((a + b).last() == b.last());
        lemma_tags_for_append(a, b.drop_last(), title_id);
        if b.last().associated_title == title_id {
            assert((spec_tags_for(a, title_id) + spec_tags_for(b.drop_last(), title_id)).push(
                b.last(),
            ) =~= spec_tags_for(a, title_id) + spec_tags_for(b.drop_last(), title_id).push(
                b.last(),
            ));
        }
    }
}

/// Rows that reference other titles contribute nothing to a title's tags.
proof fn lemma_tags_for_none(tags: Seq<SavedTagModel>, title_id: i32)
    requires
        forall|i: int| 0 <= i < tags.len() ==> #[trigger] tags[i].associated_title != title_id,
    ensures
        spec_tags_for(tags, title_id) == Seq::<SavedTagModel>::empty(),
    decreases tags.len(),
{
    if tags.len() > 0 {
        lemma_tags_for_none(tags.drop_last(), title_id);
    }
}

/// Rows that all reference the title are returned whole, in order.
proof fn lemma_tags_for_all(tags: Seq<SavedTagModel>, title_id: i32)
    requires
        forall|i: int| 0 <= i < tags.len() ==> #[trigger] tags[i].associated_title == title_id,
    ensures
        spec_tags_for(tags, title_id) == tags,
    decreases tags.len(),
{
    if tags.len() > 0 {
        lemma_tags_for_all(tags.drop_last(), title_id);
        assert(spec_tags_for(tags, title_id) =~= tags);
    } else {
        assert(spec_tags_for(tags, title_id) =~= tags);
    }
}

/// The shape of the rows a save stores: one per successful disposition,
/// each referencing the new title; with every insert succeeding they carry
/// the requested tags in order, under consecutive ids.
proof fn lemma_saved_tags_shape(tags: Seq<StreamTag>, ok: Seq<bool>, title_id: i32, next_tag_id: int)
    requires
        ok.len() == tags.len(),
        i32::MIN <= next_tag_id,
        next_tag_id + tags.len() <= i32::MAX,
    ensures
        spec_saved_tags(tags, ok, title_id, next_tag_id).len() == spec_count_true(ok),
        forall|i: int|
            0 <= i < spec_saved_tags(tags, ok, title_id, next_tag_id).len()
                ==> #[trigger] spec_saved_tags(tags, ok, title_id, next_tag_id)[i].associated_title
                == title_id,
        (forall|k: int| 0 <= k < ok.len() ==> ok[k]) ==> {
            &&& spec_count_true(ok) == ok.len()
            &&& forall|i: int|
                0 <= i < tags.len() ==> {
                    &&& #[trigger] spec_saved_tags(tags, ok, title_id, next_tag_id)[i].source_id
                        == tags[i].id
                    &&& spec_saved_tags(tags, ok, title_id, next_tag_id)[i].name == tags[i].name
                    &&& spec_saved_tags(tags, ok, title_id, next_tag_id)[i].id == next_tag_id + i
                }
        },
    decreases tags.len(),
{
    if tags.len() > 0 {
        lemma_saved_tags_shape(tags.drop_last(), ok.drop_last(), title_id, next_tag_id);
        lemma_count_true_le_len(ok.drop_last());
        let prefix = spec_saved_tags(tags.drop_last(), ok.drop_last(), title_id, next_tag_id);
        let whole = spec_saved_tags(tags, ok, title_id, next_tag_id);
        assert forall|i: int| 0 <= i < whole.len() implies #[trigger] whole[i].associated_title
            == title_id by {
            if i < prefix.len() {
                assert(whole[i] == prefix[i]);
            }
        }
        if forall|k: int| 0 <= k < ok.len() ==> ok[k] {
            assert(forall|k: int| 0 <= k < ok.drop_last().len() ==> ok.drop_last()[k]);
            assert(ok.last());
            assert(spec_count_true(ok.drop_last()) == ok.len() - 1);
            assert forall|i: int| 0 <= i < tags.len() implies {
                &&& #[trigger] whole[i].source_id == tags[i].id
                &&& whole[i].name == tags[i].name
                &&& whole[i].id == next_tag_id + i
            } by {
                if i < tags.len() - 1 {
                    assert(whole[i] == prefix[i]);
                    assert(tags.drop_last()[i] == tags[i]);
                } else {
                    assert(whole[i] == whole.last());
                    assert(whole.last().id == (next_tag_id + (ok.len() - 1)) as i32);
                }
            }
        }
    }
}

/// Saving a preset with N tags, every insert succeeding, stores exactly one
/// new title row and N new tag rows, each referencing the new title id;
/// loading that id afterwards returns the same title row and exactly those
/// tags, carrying the requested tag ids and names in order.
pub proof fn lemma_save_then_load(
    store: StreamStore,
    title_row: SavedTitleModel,
    tags: Seq<StreamTag>,
    ok: Seq<bool>,
)
    requires
        store.wf(),
        title_row.id == store.next_title_id,
        ok.len() == tags.len(),
        store.next_tag_id + tags.len() <= i32::MAX,
        forall|k: int| 0 <= k < ok.len() ==> ok[k],
    ensures
        ({
            let new_tags = spec_saved_tags(tags, ok, store.next_title_id, store.next_tag_id as int);
            &&& spec_find_title(store.titles@.push(title_row), title_row.id) == Some(title_row)
            &&& new_tags.len() == tags.len()
            &&& spec_tags_for(store.tags@ + new_tags, title_row.id) == new_tags
            &&& forall|i: int|
                0 <= i < tags.len() ==> {
                    &&& #[trigger] new_tags[i].associated_title == title_row.id
                    &&& new_tags[i].source_id == tags[i].id
                    &&& new_tags[i].name == tags[i].name
                }
        }),
{
    let new_tags = spec_saved_tags(tags, ok, store.next_title_id, store.next_tag_id as int);
    lemma_find_fresh_title(store.titles@, title_row);
    lemma_saved_tags_shape(tags, ok, store.next_title_id, store.next_tag_id as int);
    lemma_tags_for_append(store.tags@, new_tags, title_row.id);
    lemma_tags_for_none(store.tags@, title_row.id);
    lemma_tags_for_all(new_tags, title_row.id);
    assert(Seq::<SavedTagModel>::empty() + new_tags =~= new_tags);
}

/// Even when tag inserts fail during a save, the stored title row persists:
/// loading the id the save assigned still finds it.  The documented
/// inconsistency — a title without its full tag set — is reproduced, not
/// repaired.
pub proof fn lemma_title_persists_after_partial_save(store: StreamStore, title_row: SavedTitleModel)
    requires
        store.wf(),
        title_row.id == store.next_title_id,
    ensures
        spec_find_title(store.titles@.push(title_row), title_row.id) == Some(title_row),
{
    lemma_find_fresh_title(store.titles@, title_row);
}

} // verus!
