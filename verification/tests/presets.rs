use stream_config::database::stream_management::{StreamStore, StreamTagModel, StreamTitleModel};
use stream_config::stream_management::{
    get_access_token, get_stream_management, load_stream_preset, post_stream_management,
    StreamManagementRequest, StreamTag, StreamTitle,
};
use stream_config::Status;

fn preset_request(title: &str, tags: &[(&str, &str)]) -> StreamManagementRequest {
    StreamManagementRequest {
        title: StreamTitle { title: String::from(title) },
        tags: tags
            .iter()
            .map(|(id, name)| StreamTag { id: String::from(*id), name: String::from(*name) })
            .collect(),
    }
}

#[test]
fn bearer_header_becomes_oauth() {
    assert_eq!(get_access_token("Bearer abc123"), "OAuth abc123");
}

#[test]
fn replacement_applies_to_every_occurrence() {
    assert_eq!(get_access_token("Bearer Bearer x"), "OAuth OAuth x");
}

#[test]
fn other_headers_pass_through_unchanged() {
    assert_eq!(get_access_token("Token abc"), "Token abc");
    assert_eq!(get_access_token(""), "");
    assert_eq!(get_access_token("Bearer"), "Bearer");
}

#[test]
fn saving_stores_one_title_row_and_all_tag_rows() {
    let mut store = StreamStore::new();
    let r = post_stream_management(
        &mut store,
        preset_request("Ranked Grind", &[("1", "fps"), ("2", "chill"), ("3", "duo")]),
        String::from("u1"),
        true,
        &vec![true, true, true],
    );
    assert_eq!(r, Ok(Status::Okay));
    assert_eq!(store.titles.len(), 1);
    assert_eq!(store.tags.len(), 3);
    let title_id = store.titles[0].id;
    for tag in &store.tags {
        assert_eq!(tag.associated_title, title_id);
    }
    let loaded = load_stream_preset(&store, title_id).unwrap();
    assert_eq!(loaded.title, "Ranked Grind");
    let mut names: Vec<String> = loaded.tags.iter().map(|t| t.name.clone()).collect();
    names.sort();
    assert_eq!(names, vec![String::from("chill"), String::from("duo"), String::from("fps")]);
    let mut ids: Vec<String> = loaded.tags.iter().map(|t| t.source_id.clone()).collect();
    ids.sort();
    assert_eq!(ids, vec![String::from("1"), String::from("2"), String::from("3")]);
}

#[test]
fn resaving_creates_a_second_preset() {
    let mut store = StreamStore::new();
    post_stream_management(&mut store, preset_request("A", &[]), String::from("u1"), true, &vec![])
        .unwrap();
    post_stream_management(&mut store, preset_request("A", &[]), String::from("u1"), true, &vec![])
        .unwrap();
    assert_eq!(store.titles.len(), 2);
    assert_ne!(store.titles[0].id, store.titles[1].id);
}

#[test]
fn failed_tag_insert_leaves_the_title_row() {
    let mut store = StreamStore::new();
    let r = post_stream_management(
        &mut store,
        preset_request("Partial", &[("1", "a"), ("2", "b"), ("3", "c")]),
        String::from("u1"),
        true,
        &vec![true, false, true],
    );
    assert_eq!(r, Err(Status::InternalServerError));
    assert_eq!(store.titles.len(), 1);
    let title_id = store.titles[0].id;
    let loaded = load_stream_preset(&store, title_id).unwrap();
    assert_eq!(loaded.title, "Partial");
    assert_eq!(loaded.tags.len(), 2);
    assert_eq!(loaded.tags[0].name, "a");
    assert_eq!(loaded.tags[1].name, "c");
}

#[test]
fn failed_title_insert_stores_nothing() {
    let mut store = StreamStore::new();
    let r = post_stream_management(
        &mut store,
        preset_request("None", &[("1", "a")]),
        String::from("u1"),
        false,
        &vec![true],
    );
    assert_eq!(r, Err(Status::InternalServerError));
    assert!(store.titles.is_empty());
    assert!(store.tags.is_empty());
}

#[test]
fn listing_joins_titles_with_their_tags() {
    let mut store = StreamStore::new();
    post_stream_management(
        &mut store,
        preset_request("One", &[("1", "a")]),
        String::from("u1"),
        true,
        &vec![true],
    )
    .unwrap();
    post_stream_management(
        &mut store,
        preset_request("Two", &[("2", "b"), ("3", "c")]),
        String::from("u1"),
        true,
        &vec![true, true],
    )
    .unwrap();
    post_stream_management(&mut store, preset_request("Other", &[]), String::from("u2"), true, &vec![])
        .unwrap();
    let presets = get_stream_management(&store, &String::from("u1"));
    assert_eq!(presets.len(), 2);
    assert_eq!(presets[0].title, "One");
    assert_eq!(presets[0].tags.len(), 1);
    assert_eq!(presets[0].tags[0].name, "a");
    assert_eq!(presets[1].title, "Two");
    assert_eq!(presets[1].tags.len(), 2);
}

#[test]
fn loading_an_unknown_preset_is_not_found() {
    let store = StreamStore::new();
    assert!(matches!(load_stream_preset(&store, 42), Err(Status::NotFound)));
}

#[test]
fn title_model_carries_the_request() {
    let model = StreamTitleModel::from(&StreamTitle { title: String::from("T") }, String::from("u9"));
    assert_eq!(model.associated_user, "u9");
    assert_eq!(model.title, "T");
}

#[test]
fn tag_model_references_its_title() {
    let model =
        StreamTagModel::from(&StreamTag { id: String::from("5"), name: String::from("n") }, 11);
    assert_eq!(model.associated_title, 11);
    assert_eq!(model.source_id, "5");
    assert_eq!(model.name, "n");
}
