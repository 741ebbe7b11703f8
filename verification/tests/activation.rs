use stream_config::service::{
    channel_information_url, first_channel, platform_call_outcome, profile_call_outcome,
    stream_tags_url, token_validation_url, ChannelInformationResponse, ModifyChannelRequest,
    ReplaceTagsRequest, TwitchChannelInformation, TwitchUser,
};
use stream_config::stream_management::{
    on_channel_probed, on_dispatch_completed, on_identity_resolved, on_preset_loaded,
    start_activation, ActivationState, StreamPreset,
};
use stream_config::Status;

fn user(id: &str) -> TwitchUser {
    TwitchUser {
        client_id: String::from("client1"),
        login: String::from("login"),
        scopes: Vec::new(),
        user_id: String::from(id),
        expires_in: 3600,
    }
}

fn channel(game_id: Option<&str>, language: Option<&str>) -> TwitchChannelInformation {
    TwitchChannelInformation {
        broadcaster_id: String::from("b1"),
        broadcaster_name: String::from("name"),
        broadcaster_language: language.map(String::from),
        game_id: game_id.map(String::from),
        game_name: None,
    }
}

#[test]
fn activation_preserves_game_and_title_and_clears_tags() {
    let state = start_activation(5);
    assert!(matches!(state, ActivationState::Identifying { preset_id: 5 }));
    let state = on_identity_resolved(state, Ok(user("u1")));
    assert!(matches!(state, ActivationState::LoadingPreset { .. }));
    let preset = StreamPreset { id: 5, title: String::from("Ranked Grind"), tags: Vec::new() };
    let state = on_preset_loaded(state, Ok(preset));
    assert!(matches!(state, ActivationState::ProbingChannel { .. }));
    let state = on_channel_probed(state, Ok(channel(Some("509658"), Some("en"))));
    match &state {
        ActivationState::Dispatching { modify, replace, .. } => {
            assert_eq!(modify.title, "Ranked Grind");
            assert_eq!(modify.game_id.as_deref(), Some("509658"));
            assert_eq!(modify.broadcaster_language.as_deref(), Some("en"));
            assert!(replace.tag_ids.is_empty());
        }
        other => panic!("expected a dispatch, got {:?}", other),
    }
    let state = on_dispatch_completed(state, Ok(Status::NoContent), Ok(Status::NoContent));
    assert!(matches!(state, ActivationState::Finished { result: Ok(Status::NoContent) }));
}

#[test]
fn failed_probe_aborts_before_any_write() {
    let state = start_activation(1);
    let state = on_identity_resolved(state, Ok(user("u1")));
    let preset = StreamPreset { id: 1, title: String::from("T"), tags: Vec::new() };
    let state = on_preset_loaded(state, Ok(preset));
    let state = on_channel_probed(state, Err(Status::NotFound));
    assert!(matches!(state, ActivationState::Finished { result: Err(Status::NotFound) }));
}

#[test]
fn failed_identity_resolution_aborts_activation() {
    let state = start_activation(1);
    let state = on_identity_resolved(state, Err(Status::Unauthorized));
    assert!(matches!(state, ActivationState::Finished { result: Err(Status::Unauthorized) }));
}

#[test]
fn missing_preset_aborts_activation() {
    let state = start_activation(1);
    let state = on_identity_resolved(state, Ok(user("u1")));
    let state = on_preset_loaded(state, Err(Status::NotFound));
    assert!(matches!(state, ActivationState::Finished { result: Err(Status::NotFound) }));
}

fn dispatching() -> ActivationState {
    ActivationState::Dispatching {
        user: user("u1"),
        modify: ModifyChannelRequest {
            game_id: None,
            broadcaster_language: None,
            title: String::from("t"),
        },
        replace: ReplaceTagsRequest { tag_ids: Vec::new() },
    }
}

#[test]
fn either_failed_update_fails_the_aggregate() {
    let done = on_dispatch_completed(dispatching(), Err(Status::NotFound), Ok(Status::NoContent));
    assert!(matches!(done, ActivationState::Finished { result: Err(Status::NotFound) }));
    let done = on_dispatch_completed(dispatching(), Ok(Status::NoContent), Err(Status::NotFound));
    assert!(matches!(done, ActivationState::Finished { result: Err(Status::NotFound) }));
    let done = on_dispatch_completed(dispatching(), Err(Status::NotFound), Err(Status::NotFound));
    assert!(matches!(done, ActivationState::Finished { result: Err(Status::NotFound) }));
}

#[test]
fn platform_statuses_map_coarsely_to_not_found() {
    assert_eq!(platform_call_outcome(200), Ok(()));
    assert_eq!(platform_call_outcome(204), Ok(()));
    assert_eq!(platform_call_outcome(404), Err(Status::NotFound));
    assert_eq!(platform_call_outcome(429), Err(Status::NotFound));
    assert_eq!(platform_call_outcome(500), Err(Status::NotFound));
}

#[test]
fn identity_rejection_maps_to_unauthorized() {
    assert_eq!(profile_call_outcome(200), Ok(()));
    assert_eq!(profile_call_outcome(401), Err(Status::Unauthorized));
    assert_eq!(profile_call_outcome(404), Err(Status::NotFound));
    assert_eq!(profile_call_outcome(500), Err(Status::NotFound));
}

#[test]
fn request_urls_carry_the_broadcaster_id() {
    assert_eq!(
        channel_information_url("123"),
        "https://api.twitch.tv/helix/channels?broadcaster_id=123"
    );
    assert_eq!(
        stream_tags_url("123"),
        "https://api.twitch.tv/helix/streams/tags?broadcaster_id=123"
    );
    assert_eq!(token_validation_url(), "https://id.twitch.tv/oauth2/validate");
}

#[test]
fn first_channel_takes_the_first_record() {
    let response = ChannelInformationResponse {
        data: vec![channel(Some("1"), None), channel(Some("2"), None)],
    };
    let c = first_channel(response);
    assert_eq!(c.game_id.as_deref(), Some("1"));
}
