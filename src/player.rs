//! The playback command surface and the deep-link dispatcher.
//!
//! Playback is forwarded to the frontend player: the play command reports
//! that native playback is disabled, and a deep link becomes a request that
//! the host hands to the frontend.

use vstd::prelude::*;
use crate::protocol::{parse_protocol_url, protocol_params, PlayParams, Seconds};

verus! {

/// The message of the play command while native playback is disabled.
pub const NATIVE_DISABLED: &'static str = "Native playback disabled. Please use frontend player.";

/// The error of a deep link that is no play request.
pub const INVALID_LINK: &'static str = "Invalid protocol URL";

/// Outcome of a playback operation.
#[derive(Debug)]
pub struct PlaybackResult {
    pub success: bool,
    pub error: Option<String>,
}

impl PlaybackResult {
    /// `error` is present exactly when the operation failed.
    pub open spec fn wf(&self) -> bool {
        self.error is Some <==> !self.success
    }
}

/// Whether the host is the desktop shell: always so for this library.
pub fn is_tauri_app() -> (r: bool)
    ensures
        r,
{
    true
}

/// The play command. Native playback is disabled: it always fails with a
/// fixed message, and the frontend player plays the request instead.
pub fn play_video(params: PlayParams) -> (r: PlaybackResult)
    ensures
        r.wf(),
        !r.success,
        r.error matches Some(e) && e@ == NATIVE_DISABLED@,
{
    PlaybackResult { success: false, error: Some(String::from_str(NATIVE_DISABLED)) }
}

/// The stop command: no session is tracked, so it always succeeds.
pub fn stop_video() -> (r: PlaybackResult)
    ensures
        r.wf(),
        r.success,
{
    PlaybackResult { success: true, error: None }
}

/// Whether a native player can be started: never, native playback is disabled.
pub fn check_mpv_available() -> (r: bool)
    ensures
        !r,
{
    false
}

/// The relative seek (`+<seconds>`) that starts a native player at `start`.
pub fn start_option(start: &Seconds) -> (r: String)
    ensures
        r@ == "+"@ + start.whole@ + "."@ + start.fraction@,
{
    let r = String::from_str("+").concat(start.whole.as_str());
    let r = r.concat(".");
    r.concat(start.fraction.as_str())
}

/// `r` is what handling the deep link `s` yields.
pub open spec fn link_outcome(s: Seq<char>, r: Result<PlayParams, String>) -> bool {
    match r {
        Ok(p) => protocol_params(s) == Some(p@),
        Err(e) => protocol_params(s) is None && e@ == INVALID_LINK@,
    }
}

/// Resolves a deep link into the play request that the host forwards to
/// the frontend, or the error that the host logs.
pub fn handle_protocol_url(url_str: &str) -> (r: Result<PlayParams, String>)
    ensures
        link_outcome(url_str@, r),
{
    match parse_protocol_url(url_str) {
        Some(p) => Ok(p),
        None => Err(String::from_str(INVALID_LINK)),
    }
}

/// Resolves each link of a batch on its own: one that fails leaves the
/// others standing.
pub fn handle_deep_links(urls: &Vec<String>) -> (r: Vec<Result<PlayParams, String>>)
    ensures
        r@.len() == urls@.len(),
        forall|i: int| 0 <= i < urls@.len() ==> link_outcome(#[trigger] urls@[i]@, r@[i]),
{
    let mut r: Vec<Result<PlayParams, String>> = Vec::new();
    let mut i: usize = 0;
    while i < urls.len()
        invariant
            i <= urls@.len(),
            r@.len() == i,
            forall|j: int| 0 <= j < i ==> link_outcome(#[trigger] urls@[j]@, r@[j]),
        decreases urls.len() - i,
    {
        r.push(handle_protocol_url(urls[i].as_str()));
        i = i + 1;
    }
    r
}

} // verus!
