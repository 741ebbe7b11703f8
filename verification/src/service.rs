//! Platform client: the data carried to and from the external streaming
//! platform, the request targets, and the mapping from response statuses to
//! outcomes.
//!
//! The network transport lives outside the library; callers hand in the
//! numeric response status (and the decoded body, where there is one) and
//! get the decision back.

use vstd::prelude::*;
use vstd::string::StringExecFns;

use crate::Status;

verus! {

/// The caller's profile at the configured auth endpoint.
#[derive(Debug)]
pub struct Profile {
    pub id: i32,
}

/// The identity the platform reports for a validated token.
#[derive(Debug)]
pub struct TwitchUser {
    pub client_id: String,
    pub login: String,
    pub scopes: Vec<String>,
    pub user_id: String,
    pub expires_in: i32,
}

/// Current state of a live channel, as the platform reports it.
#[derive(Debug)]
pub struct TwitchChannelInformation {
    pub broadcaster_id: String,
    pub broadcaster_name: String,
    pub broadcaster_language: Option<String>,
    pub game_id: Option<String>,
    pub game_name: Option<String>,
}

/// The envelope the channel-info endpoint answers with.
#[derive(Debug)]
pub struct ChannelInformationResponse {
    pub data: Vec<TwitchChannelInformation>,
}

/// A channel update: the new title, keeping language and game as given.
#[derive(Debug)]
pub struct ModifyChannelRequest {
    pub game_id: Option<String>,
    pub broadcaster_language: Option<String>,
    pub title: String,
}

/// A tag replacement; an empty list clears all tags.
#[derive(Debug)]
pub struct ReplaceTagsRequest {
    pub tag_ids: Vec<String>,
}

/// A successful platform response.
pub open spec fn spec_is_success(status: u16) -> bool {
    200 <= status < 300
}

/// The single coarse mapping for platform channel operations: any
/// unsuccessful response status is reported as `NotFound`, deliberately
/// without distinguishing its cause.
pub fn platform_call_outcome(status: u16) -> (outcome: Result<(), Status>)
    ensures
        outcome is Ok <==> spec_is_success(status),
        !spec_is_success(status) ==> outcome == Err::<(), Status>(Status::NotFound),
{
    if 200 <= status && status < 300 {
        Ok(())
    } else {
        Err(Status::NotFound)
    }
}

/// Identity resolution: a 401 means the token was rejected; any other
/// unsuccessful status is reported as `NotFound`.
pub fn profile_call_outcome(status: u16) -> (outcome: Result<(), Status>)
    ensures
        outcome is Ok <==> spec_is_success(status),
        status == 401 ==> outcome == Err::<(), Status>(Status::Unauthorized),
        !spec_is_success(status) && status != 401 ==> outcome == Err::<(), Status>(
            Status::NotFound,
        ),
{
    if 200 <= status && status < 300 {
        Ok(())
    } else if status == 401 {
        Err(Status::Unauthorized)
    } else {
        Err(Status::NotFound)
    }
}

/// The first channel record of a channel-info response; the platform
/// reports the requested broadcaster first.
pub fn first_channel(response: ChannelInformationResponse) -> (channel: TwitchChannelInformation)
    requires
        response.data@.len() > 0,
    ensures
        channel == response.data@[0],
{
    let mut data = response.data;
    data.remove(0)
}

/// The token-validation endpoint.
pub fn token_validation_url() -> (url: String)
    ensures
        url@ == "https://id.twitch.tv/oauth2/validate"@,
{
    String::from_str("https://id.twitch.tv/oauth2/validate")
}

/// The channel-info endpoint (read and modify) for one broadcaster.
pub fn channel_information_url(broadcaster_id: &str) -> (url: String)
    ensures
        url@ == "https://api.twitch.tv/helix/channels?broadcaster_id="@ + broadcaster_id@,
{
    let mut url = String::from_str("https://api.twitch.tv/helix/channels?broadcaster_id=");
    url.append(broadcaster_id);
    url
}

/// The tag-replacement endpoint for one broadcaster.
pub fn stream_tags_url(broadcaster_id: &str) -> (url: String)
    ensures
        url@ == "https://api.twitch.tv/helix/streams/tags?broadcaster_id="@ + broadcaster_id@,
{
    let mut url = String::from_str("https://api.twitch.tv/helix/streams/tags?broadcaster_id=");
    url.append(broadcaster_id);
    url
}

} // verus!
