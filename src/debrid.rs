//! The Real-Debrid client: one request per operation, each sent with a bearer
//! token, and one uniform way of reading what came back.
//!
//! Each operation is a request that the host sends (built here) and a reply
//! that the host hands back (read here). The host decodes a successful body
//! into the response type of the operation.

use vstd::prelude::*;
use crate::reply::{is_success, is_success_status, status_line, status_text, HttpReply};
use crate::text::{contains, decimal, join, join_text};

verus! {

/// The service's base endpoint.
pub const RD_BASE_URL: &'static str = "https://api.real-debrid.com/rest/1.0";

/// Account snapshot of the token's owner, as the service reports it.
#[derive(Debug)]
pub struct RDUser {
    pub id: i64,
    pub username: String,
    pub email: String,
    pub points: i64,
    pub locale: String,
    pub avatar: String,
    pub account_type: String,
    pub premium: i64,
    pub expiration: String,
}

/// Outcome of a token check.
#[derive(Debug)]
pub struct RDValidationResult {
    pub valid: bool,
    pub user: Option<RDUser>,
    pub error: Option<String>,
}

impl RDValidationResult {
    /// A user exactly when valid, an error exactly when not.
    pub open spec fn wf(&self) -> bool {
        &&& (self.user is Some <==> self.valid)
        &&& (self.error is Some <==> !self.valid)
    }
}

/// A torrent added from a magnet link.
#[derive(Debug)]
pub struct RDAddMagnetResponse {
    pub id: String,
    pub uri: String,
}

/// The state of a torrent.
#[derive(Debug)]
pub struct RDTorrentInfo {
    pub id: String,
    pub filename: String,
    pub links: Vec<String>,
    pub status: String,
}

/// A link turned into a direct download.
#[derive(Debug)]
pub struct RDUnrestrictResponse {
    pub id: String,
    pub filename: String,
    pub download: String,
}

#[derive(PartialEq, Eq, Structural, Clone, Copy, Debug)]
pub enum HttpMethod {
    Get,
    Post,
}

/// One outbound request: method, full URL, `Authorization` header value, and
/// the single form field of a POST.
#[derive(Debug)]
pub struct RdRequest {
    pub method: HttpMethod,
    pub url: String,
    pub authorization: String,
    pub form: Option<(String, String)>,
}

/// How an operation failed.
#[derive(Debug)]
pub enum RdError {
    /// No response was obtained.
    Transport(String),
    /// The service answered with a status that is no success.
    Status { code: u16, phrase: Option<String> },
    /// The body of a successful response did not have the expected shape.
    Decode(String),
}

pub open spec fn endpoint(path: Seq<char>) -> Seq<char> {
    RD_BASE_URL@ + path
}

pub open spec fn bearer(token: Seq<char>) -> Seq<char> {
    "Bearer "@ + token
}

/// `r` is a request with the given method, URL and token, and no form.
pub open spec fn plain_request(r: RdRequest, method: HttpMethod, url: Seq<char>, token: Seq<char>) -> bool {
    &&& r.method == method
    &&& r.url@ == url
    &&& r.authorization@ == bearer(token)
    &&& r.form is None
}

/// `r` is a POST to `url` with the one form field `key=value`.
pub open spec fn form_request(
    r: RdRequest,
    url: Seq<char>,
    token: Seq<char>,
    key: Seq<char>,
    value: Seq<char>,
) -> bool {
    &&& r.method == HttpMethod::Post
    &&& r.url@ == url
    &&& r.authorization@ == bearer(token)
    &&& r.form matches Some(f) && f.0@ == key && f.1@ == value
}

/// What a reply means: the body of a successful response, or the failure.
pub open spec fn reply_result(reply: HttpReply) -> Result<String, RdError> {
    match reply {
        HttpReply::Unreached(t) => Err(RdError::Transport(t)),
        HttpReply::Answered { status, phrase, body } => if is_success(status) {
            Ok(body)
        } else {
            Err(RdError::Status { code: status, phrase })
        },
    }
}

/// The message of a failed operation.
pub open spec fn error_text(e: RdError) -> Seq<char> {
    match e {
        RdError::Transport(t) => t@,
        RdError::Status { code, phrase } => "API error: "@ + status_text(code, phrase),
        RdError::Decode(t) => t@,
    }
}

/// The message of a failed token check.
pub open spec fn validation_error_text(e: RdError) -> Seq<char> {
    match e {
        RdError::Transport(t) => "Request failed: "@ + t@,
        RdError::Status { code, phrase } => "API error: "@ + status_text(code, phrase),
        RdError::Decode(t) => "Failed to parse response: "@ + t@,
    }
}

/// `r` is the outcome of a token check that came to `outcome`.
pub open spec fn validation_outcome(outcome: Result<RDUser, RdError>, r: RDValidationResult) -> bool {
    match outcome {
        Ok(u) => r.valid && r.user == Some(u) && r.error is None,
        Err(e) => !r.valid && r.user is None && (r.error matches Some(m) && m@ == validation_error_text(e)),
    }
}

/// `r` is `outcome` with its error given as a message.
pub open spec fn message_outcome<T>(outcome: Result<T, RdError>, r: Result<T, String>) -> bool {
    match outcome {
        Ok(v) => r == Ok::<T, String>(v),
        Err(e) => r matches Err(m) && m@ == error_text(e),
    }
}

impl RdError {
    /// The message of this failure.
    pub fn message(&self) -> (r: String)
        ensures
            r@ == error_text(*self),
    {
        match self {
            RdError::Transport(t) => t.clone(),
            RdError::Status { code, phrase } => {
                let line = status_line(*code, phrase);
                String::from_str("API error: ").concat(line.as_str())
            },
            RdError::Decode(t) => t.clone(),
        }
    }
}

fn endpoint_text(path: &str) -> (r: String)
    ensures
        r@ == endpoint(path@),
{
    String::from_str(RD_BASE_URL).concat(path)
}

fn bearer_text(token: &str) -> (r: String)
    ensures
        r@ == bearer(token@),
{
    String::from_str("Bearer ").concat(token)
}

/// The request that fetches the token owner's account.
pub fn user_request(token: &str) -> (r: RdRequest)
    ensures
        plain_request(r, HttpMethod::Get, endpoint("/user"@), token@),
{
    RdRequest {
        method: HttpMethod::Get,
        url: endpoint_text("/user"),
        authorization: bearer_text(token),
        form: None,
    }
}

/// The request that asks whether the torrents of `hashes` are cached; the
/// hashes stand in one path segment, in the order given, joined by `/`.
pub fn instant_availability_request(token: &str, hashes: &Vec<String>) -> (r: RdRequest)
    ensures
        plain_request(
            r,
            HttpMethod::Get,
            endpoint("/torrents/instantAvailability/"@ + join(hashes@.map_values(|h: String| h@), "/"@)),
            token@,
        ),
{
    let joined = join_text(hashes, "/");
    let url = endpoint_text("/torrents/instantAvailability/").concat(joined.as_str());
    assert(url@ =~= endpoint("/torrents/instantAvailability/"@ + joined@));
    RdRequest { method: HttpMethod::Get, url, authorization: bearer_text(token), form: None }
}

/// The request that adds the torrent of a magnet link.
pub fn add_magnet_request(token: &str, magnet: &str) -> (r: RdRequest)
    ensures
        form_request(r, endpoint("/torrents/addMagnet"@), token@, "magnet"@, magnet@),
{
    RdRequest {
        method: HttpMethod::Post,
        url: endpoint_text("/torrents/addMagnet"),
        authorization: bearer_text(token),
        form: Some((String::from_str("magnet"), String::from_str(magnet))),
    }
}

/// The request that selects the files of torrent `id`.
pub fn select_files_request(token: &str, id: &str, files: &str) -> (r: RdRequest)
    ensures
        form_request(r, endpoint("/torrents/selectFiles/"@ + id@), token@, "files"@, files@),
{
    let url = endpoint_text("/torrents/selectFiles/").concat(id);
    assert(url@ =~= endpoint("/torrents/selectFiles/"@ + id@));
    RdRequest {
        method: HttpMethod::Post,
        url,
        authorization: bearer_text(token),
        form: Some((String::from_str("files"), String::from_str(files))),
    }
}

/// The request that fetches the state of torrent `id`.
pub fn torrent_info_request(token: &str, id: &str) -> (r: RdRequest)
    ensures
        plain_request(r, HttpMethod::Get, endpoint("/torrents/info/"@ + id@), token@),
{
    let url = endpoint_text("/torrents/info/").concat(id);
    assert(url@ =~= endpoint("/torrents/info/"@ + id@));
    RdRequest {
        method: HttpMethod::Get,
        url,
        authorization: bearer_text(token),
        form: None,
    }
}

/// The request that turns a hosted link into a direct download.
pub fn unrestrict_link_request(token: &str, link: &str) -> (r: RdRequest)
    ensures
        form_request(r, endpoint("/unrestrict/link"@), token@, "link"@, link@),
{
    RdRequest {
        method: HttpMethod::Post,
        url: endpoint_text("/unrestrict/link"),
        authorization: bearer_text(token),
        form: Some((String::from_str("link"), String::from_str(link))),
    }
}

/// Reads a reply: the body of a successful response, else the failure.
pub fn check_reply(reply: HttpReply) -> (r: Result<String, RdError>)
    ensures
        r == reply_result(reply),
{
    match reply {
        HttpReply::Unreached(t) => Err(RdError::Transport(t)),
        HttpReply::Answered { status, phrase, body } => {
            if is_success_status(status) {
                Ok(body)
            } else {
                Err(RdError::Status { code: status, phrase })
            }
        },
    }
}

/// An operation's outcome with its failure given as a message.
pub fn with_message<T>(outcome: Result<T, RdError>) -> (r: Result<T, String>)
    ensures
        message_outcome(outcome, r),
{
    match outcome {
        Ok(v) => Ok(v),
        Err(e) => Err(e.message()),
    }
}

/// The outcome of file selection, which has no body to read.
pub fn select_files_result(reply: HttpReply) -> (r: Result<(), String>)
    ensures
        message_outcome(
            match reply_result(reply) {
                Ok(_) => Ok::<(), RdError>(()),
                Err(e) => Err::<(), RdError>(e),
            },
            r,
        ),
{
    match check_reply(reply) {
        Ok(_) => Ok(()),
        Err(e) => Err(e.message()),
    }
}

/// The result of a token check. An invalid token is an outcome like any
/// other: the check never fails.
pub fn validation_result(outcome: Result<RDUser, RdError>) -> (r: RDValidationResult)
    ensures
        r.wf(),
        validation_outcome(outcome, r),
{
    match outcome {
        Ok(u) => RDValidationResult { valid: true, user: Some(u), error: None },
        Err(e) => {
            let m = match e {
                RdError::Transport(t) => String::from_str("Request failed: ").concat(t.as_str()),
                RdError::Status { code, phrase } => {
                    let line = status_line(code, &phrase);
                    String::from_str("API error: ").concat(line.as_str())
                },
                RdError::Decode(t) => String::from_str("Failed to parse response: ").concat(t.as_str()),
            };
            RDValidationResult { valid: false, user: None, error: Some(m) }
        },
    }
}

/// A status that is no success fails the operation with that status, and
/// both the operation's message and the token check's message hold its code.
/// A reply that never came fails as a transport failure carrying the
/// transport's own text, apart from the status failures.
pub proof fn lemma_failures_reported(reply: HttpReply)
    ensures
        match reply {
            HttpReply::Answered { status, phrase, body } => !is_success(status) ==> {
                &&& reply_result(reply) == Err::<String, RdError>(RdError::Status { code: status, phrase })
                &&& contains(error_text(RdError::Status { code: status, phrase }), decimal(status as nat))
                &&& contains(
                    validation_error_text(RdError::Status { code: status, phrase }),
                    decimal(status as nat),
                )
            },
            HttpReply::Unreached(t) => {
                &&& reply_result(reply) == Err::<String, RdError>(RdError::Transport(t))
                &&& error_text(RdError::Transport(t)) == t@
            },
        },
{
    if let HttpReply::Answered { status, phrase, body } = reply {
        let e = RdError::Status { code: status, phrase };
        let d = decimal(status as nat);
        let k = ("API error: "@).len() as int;
        assert(error_text(e).subrange(k, k + d.len()) =~= d);
        assert(validation_error_text(e).subrange(k, k + d.len()) =~= d);
    }
}

/// A token that the service refuses gives an invalid result that carries an
/// error and no user.
pub proof fn lemma_refused_token(reply: HttpReply, r: RDValidationResult)
    requires
        reply matches HttpReply::Answered { status, .. } && !is_success(status),
        validation_outcome(Err(reply_result(reply)->Err_0), r),
    ensures
        !r.valid,
        r.user is None,
        r.error is Some,
{
}

} // verus!
