//! The test heartbeat that is sent once the plugins are installed: what is
//! sent where, and what the answer means.
use crate::config::verdict_view;
use crate::probe::{is_success, status_is_success};
use vstd::prelude::*;
use vstd::string::*;

verus! {

/// One tracked event.
#[derive(Clone, Debug, PartialEq, Eq)]
pub struct Heartbeat {
    /// What kind of thing was worked on; sent under the name `type`.
    pub kind: String,
    /// When, in seconds since the Unix epoch.
    pub time: u64,
    pub entity: String,
    pub language: String,
}

/// A request that posts heartbeats: the body is the list `heartbeats`, as
/// JSON, and `token` is the bearer token that authorises it.
#[derive(Clone, Debug, PartialEq, Eq)]
pub struct HeartbeatRequest {
    pub url: String,
    pub token: String,
    pub heartbeats: Vec<Heartbeat>,
}

/// Where heartbeats are posted, under the API at `api_url`.
pub open spec fn heartbeats_url(api_url: Seq<char>) -> Seq<char> {
    api_url + "/users/current/heartbeats"@
}

/// Whether `heartbeat` is the test event for the time `time`.
pub open spec fn is_test_heartbeat(heartbeat: Heartbeat, time: u64) -> bool {
    &&& heartbeat.kind@ == "file"@
    &&& heartbeat.time == time
    &&& heartbeat.entity@ == "test.txt"@
    &&& heartbeat.language@ == "Text"@
}

/// What a response to the test heartbeat means: a status of success is
/// all that is asked for, and every other status fails with a text that
/// holds the status and the body of the response.
pub open spec fn response_verdict(status: u16, status_line: Seq<char>, body: Seq<char>) -> Result<
    (),
    Seq<char>,
> {
    if is_success(status) {
        Ok(())
    } else {
        Err("Test heartbeat failed ("@ + status_line + "): "@ + body)
    }
}

/// The request that sends one synthetic event, made at `now`, to the API
/// at `api_url` with the key `api_key`.
pub fn send_test_heartbeat(api_key: &str, api_url: &str, now: u64) -> (r: HeartbeatRequest)
    ensures
        r.url@ == heartbeats_url(api_url@),
        r.token@ == api_key@,
        r.heartbeats@.len() == 1,
        is_test_heartbeat(r.heartbeats@[0], now),
{
    let heartbeat = Heartbeat {
        kind: String::from_str("file"),
        time: now,
        entity: String::from_str("test.txt"),
        language: String::from_str("Text"),
    };
    let mut url = String::from_str(api_url);
    url.append("/users/current/heartbeats");
    let mut heartbeats: Vec<Heartbeat> = Vec::new();
    heartbeats.push(heartbeat);
    HeartbeatRequest { url, token: String::from_str(api_key), heartbeats }
}

/// Judges the response to the test heartbeat. `status_line` is the status
/// as text, `body` what the response held.
pub fn heartbeat_outcome(status: u16, status_line: &str, body: &str) -> (r: Result<(), String>)
    ensures
        verdict_view(r) == response_verdict(status, status_line@, body@),
{
    if status_is_success(status) {
        Ok(())
    } else {
        let mut message = String::from_str("Test heartbeat failed (");
        message.append(status_line);
        message.append("): ");
        message.append(body);
        Err(message)
    }
}

} // verus!
