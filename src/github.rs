use vstd::prelude::*;

use crate::archive::{file_views, get_files_from_gzip, normalized, tar_gz_entries, ProjectFile};
use crate::error::{error_text, pretty_duration_text, resets_in, PluginError};
use crate::json::{get_text, json_document, parse_json, text_field, Json};
use crate::reference::{resolution_of, resolve_reference, url_host_and_path, RepositoryReference};
use crate::text::{integer_value, owned, parse_i64};

verus! {

/// A GET request to the hosting service.
#[derive(Debug)]
pub struct HttpRequest {
    pub url: String,
    /// The `User-Agent` header.
    pub user_agent: String,
    /// Whether to send `Accept: application/json`.
    pub accept_json: bool,
}

/// What the hosting service answered.
#[derive(Debug)]
pub struct HttpResponse {
    pub status: u16,
    /// The `X-RateLimit-Reset` header, where it is present and is text.
    pub rate_limit_reset: Option<String>,
    pub body: Vec<u8>,
}

/// The client's `User-Agent`: the product and the given version.
pub open spec fn user_agent_text(version: Seq<char>) -> Seq<char> {
    "Chatterino Plugin Manager "@ + version
}

/// The API address of a repository's metadata.
pub open spec fn repository_api_url(owner: Seq<char>, name: Seq<char>) -> Seq<char> {
    "https://api.github.com/repos/"@ + owner + "/"@ + name
}

/// The API address of a snapshot of a repository's branch.
pub open spec fn tarball_api_url(owner: Seq<char>, name: Seq<char>, branch: Seq<char>) -> Seq<char> {
    repository_api_url(owner, name) + "/tarball/"@ + branch
}

fn user_agent(version: &str) -> (r: String)
    ensures
        r@ == user_agent_text(version@),
{
    let mut r = owned("Chatterino Plugin Manager ");
    r.append(version);
    r
}

fn repository_url(reference: &RepositoryReference) -> (r: String)
    ensures
        r@ == repository_api_url(reference.owner@, reference.name@),
{
    let mut r = owned("https://api.github.com/repos/");
    r.append(reference.owner.as_str());
    r.append("/");
    r.append(reference.name.as_str());
    r
}

/// The request for a repository's metadata, sent by client `version`.
pub fn repository_info_request(reference: &RepositoryReference, version: &str) -> (r: HttpRequest)
    ensures
        r.url@ == repository_api_url(reference.owner@, reference.name@),
        r.user_agent@ == user_agent_text(version@),
        r.accept_json,
{
    HttpRequest { url: repository_url(reference), user_agent: user_agent(version), accept_json: true }
}

/// The request for the snapshot of `branch`, sent by client `version`.
pub fn tarball_request(reference: &RepositoryReference, branch: &str, version: &str) -> (r:
    HttpRequest)
    ensures
        r.url@ == tarball_api_url(reference.owner@, reference.name@, branch@),
        r.user_agent@ == user_agent_text(version@),
        !r.accept_json,
{
    let mut url = repository_url(reference);
    url.append("/tarball/");
    url.append(branch);
    HttpRequest { url, user_agent: user_agent(version), accept_json: false }
}

/// The reset time a rate-limit header gives, where it is an integer that
/// fits in `i64`.
pub open spec fn reset_epoch(header: Option<Seq<char>>) -> Option<i64> {
    match header {
        Some(h) => match integer_value(h) {
            Some(v) => if i64::MIN <= v <= i64::MAX {
                Some(v as i64)
            } else {
                None
            },
            None => None,
        },
        None => None,
    }
}

/// How a response status is judged: 403 and 429 are the rate limit, a
/// 2xx status is success, and any other is unexpected.
pub open spec fn status_verdict(
    status: u16,
    reset_header: Option<Seq<char>>,
    now: i64,
    r: Result<(), PluginError>,
) -> bool {
    if status == 403 || status == 429 {
        r matches Err(PluginError::RateLimited { reset_at, checked_at }) && reset_at == reset_epoch(
            reset_header,
        ) && checked_at == now
    } else if 200 <= status <= 299 {
        r is Ok
    } else {
        r matches Err(PluginError::UnexpectedStatus { code }) && code == status
    }
}

/// Judges the status of a response read at `now` (epoch seconds), with
/// the `X-RateLimit-Reset` header where the response has it.
pub fn handle_github_rate_limit(status: u16, reset_header: Option<&str>, now: i64) -> (r: Result<
    (),
    PluginError,
>)
    ensures
        status_verdict(
            status,
            match reset_header {
                Some(h) => Some(h@),
                None => None,
            },
            now,
            r,
        ),
{
    if status == 403 || status == 429 {
        let reset_at = match reset_header {
            Some(h) => parse_i64(h),
            None => None,
        };
        Err(PluginError::RateLimited { reset_at, checked_at: now })
    } else if 200 <= status && status <= 299 {
        Ok(())
    } else {
        Err(PluginError::UnexpectedStatus { code: status })
    }
}

/// A rate-limited response reports the rate limit; the message gives the
/// time left until the reset only where the response carries a reset
/// header that reads as an integer, and then gives exactly that time.
pub proof fn lemma_rate_limit_report(
    status: u16,
    reset_header: Option<Seq<char>>,
    now: i64,
    r: Result<(), PluginError>,
)
    requires
        status == 403 || status == 429,
        status_verdict(status, reset_header, now, r),
    ensures
        r is Err,
        reset_epoch(reset_header) is None ==> error_text(r->Err_0)
            == "GitHub API rate limit reached!"@,
        reset_epoch(reset_header) matches Some(t) ==> error_text(r->Err_0)
            == "GitHub API rate limit reached!"@ + " Resets in "@ + pretty_duration_text(
            resets_in(t, now),
        ),
{
    let e = r->Err_0;
    assert("GitHub API rate limit reached!"@ + Seq::<char>::empty()
        =~= "GitHub API rate limit reached!"@);
    if let Some(t) = reset_epoch(reset_header) {
        assert("GitHub API rate limit reached!"@ + (" Resets in "@ + pretty_duration_text(
            resets_in(t, now),
        )) =~= "GitHub API rate limit reached!"@ + " Resets in "@ + pretty_duration_text(
            resets_in(t, now),
        ));
    }
}

fn reset_header_of(response: &HttpResponse) -> (r: Option<&str>)
    ensures
        match r {
            Some(h) => response.rate_limit_reset matches Some(s) && h@ == s@,
            None => response.rate_limit_reset is None,
        },
{
    match &response.rate_limit_reset {
        Some(s) => Some(s.as_str()),
        None => None,
    }
}

/// The reset header of a response, as text.
pub open spec fn reset_header_text(response: HttpResponse) -> Option<Seq<char>> {
    match response.rate_limit_reset {
        Some(s) => Some(s@),
        None => None,
    }
}

/// The default branch that repository metadata names.
pub fn default_branch_from_json(doc: &Json) -> (r: Result<String, PluginError>)
    ensures
        match text_field(*doc, "default_branch"@) {
            Some(b) => r matches Ok(s) && s@ == b,
            None => r matches Err(e) && e is BadRepositoryMetadata,
        },
{
    match get_text(doc, "default_branch") {
        Some(b) => Ok(b),
        None => Err(PluginError::BadRepositoryMetadata),
    }
}

/// The default branch named by the body of a metadata response.
pub open spec fn default_branch_of(body: Seq<u8>) -> Option<Seq<char>> {
    match json_document(body) {
        Some(doc) => text_field(doc, "default_branch"@),
        None => None,
    }
}

/// The default branch, from the answer to the metadata request read at
/// `now`: the status is judged first, then the body must be JSON with a
/// `default_branch` string.
pub fn handle_repository_info(response: &HttpResponse, now: i64) -> (r: Result<
    String,
    PluginError,
>)
    ensures
        status_verdict(
            response.status,
            reset_header_text(*response),
            now,
            match r {
                Err(e) if !(e is BadRepositoryMetadata) => Err(e),
                _ => Ok(()),
            },
        ),
        status_verdict(response.status, reset_header_text(*response), now, Ok(())) ==> match default_branch_of(
            response.body@,
        ) {
            Some(b) => r matches Ok(s) && s@ == b,
            None => r matches Err(e) && e is BadRepositoryMetadata,
        },
{
    handle_github_rate_limit(response.status, reset_header_of(response), now)?;
    match parse_json(response.body.as_slice()) {
        Some(doc) => default_branch_from_json(&doc),
        None => Err(PluginError::BadRepositoryMetadata),
    }
}

/// The normalised entries of the snapshot, from the answer to the tarball
/// request read at `now`: the status is judged first, then the body must
/// be a readable tar+gzip stream.
pub fn handle_tarball(response: &HttpResponse, now: i64) -> (r: Result<
    Vec<ProjectFile>,
    PluginError,
>)
    ensures
        status_verdict(
            response.status,
            reset_header_text(*response),
            now,
            match r {
                Err(e) if !(e is ArchiveReadFailure) => Err(e),
                _ => Ok(()),
            },
        ),
        status_verdict(response.status, reset_header_text(*response), now, Ok(())) ==> match tar_gz_entries(
            response.body@,
        ) {
            Some(entries) => r matches Ok(files) && file_views(files@) == normalized(entries),
            None => r matches Err(e) && e is ArchiveReadFailure,
        },
{
    handle_github_rate_limit(response.status, reset_header_of(response), now)?;
    get_files_from_gzip(&response.body)
}

/// The repository that a plugin argument names; only repository plugins
/// can be installed.
pub fn resolve_plugin_source(plugin: &str, is_repo: bool) -> (r: Result<
    RepositoryReference,
    PluginError,
>)
    ensures
        !is_repo ==> (r matches Err(e) && e is NonRepositoryPlugin),
        is_repo ==> match url_host_and_path(plugin@) {
            None => r matches Err(e) && e is InvalidUrl,
            Some((host, path)) => resolution_of(host, path, r),
        },
{
    if !is_repo {
        return Err(PluginError::NonRepositoryPlugin);
    }
    resolve_reference(plugin)
}

} // verus!
