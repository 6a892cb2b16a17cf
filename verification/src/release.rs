//! Releases: creating one, and attaching a file to it.

use crate::api::{
    accept_header, agent_header, github_api_create_new_release, release_request, version_header,
    SendToGitHubApi,
};
use crate::error::GitHubError;
use crate::json::{json_as_str, json_get, json_text, json_to_text, json_tree, member, JsonTree};
use crate::request::{
    header, header_views, BodyView, Header, HeaderView, Method, OutboundRequestDescriptor,
    RequestBody, RequestView,
};
use crate::text::join;
use vstd::prelude::*;
use vstd::string::StringExecFns;
use vstd::string::StringSliceAdditionalSpecFns;

verus! {

/// The most bytes of an address, and of a query, that are joined.
pub const MAX_URL_BYTES: usize = 0x1000_0000;

/// The digit that stands for a number below ten.
pub open spec fn digit(n: nat) -> char {
    if n == 0 {
        '0'
    } else if n == 1 {
        '1'
    } else if n == 2 {
        '2'
    } else if n == 3 {
        '3'
    } else if n == 4 {
        '4'
    } else if n == 5 {
        '5'
    } else if n == 6 {
        '6'
    } else if n == 7 {
        '7'
    } else if n == 8 {
        '8'
    } else {
        '9'
    }
}

/// A number written in decimal digits.
pub open spec fn decimal(n: nat) -> Seq<char>
    decreases n,
{
    if n < 10 {
        seq![digit(n)]
    } else {
        decimal(n / 10).push(digit(n % 10))
    }
}

/// The digit that stands for a number below ten, as a text.
fn digit_text(n: u64) -> (text: &'static str)
    requires
        n < 10,
    ensures
        text@ == seq![digit(n as nat)],
{
    proof {
        reveal_strlit("0");
        reveal_strlit("1");
        reveal_strlit("2");
        reveal_strlit("3");
        reveal_strlit("4");
        reveal_strlit("5");
        reveal_strlit("6");
        reveal_strlit("7");
        reveal_strlit("8");
        reveal_strlit("9");
    }
    let text = if n == 0 {
        "0"
    } else if n == 1 {
        "1"
    } else if n == 2 {
        "2"
    } else if n == 3 {
        "3"
    } else if n == 4 {
        "4"
    } else if n == 5 {
        "5"
    } else if n == 6 {
        "6"
    } else if n == 7 {
        "7"
    } else if n == 8 {
        "8"
    } else {
        "9"
    };
    proof {
        assert(text@ =~= seq![digit(n as nat)]);
    }
    text
}

/// A number written in decimal digits.
pub fn decimal_text(n: u64) -> (text: String)
    ensures
        text@ == decimal(n as nat),
    decreases n,
{
    if n < 10 {
        digit_text(n).to_owned()
    } else {
        let mut text = decimal_text(n / 10);
        text.append(digit_text(n % 10));
        proof {
            assert(text@ =~= decimal((n / 10) as nat).push(digit((n % 10) as nat)));
        }
        text
    }
}

/// Whether `name` is a part of `path` that is not empty.
pub open spec fn part_of(name: Seq<char>, path: Seq<char>) -> bool {
    &&& name.len() > 0
    &&& exists|from: int|
        0 <= from && from + name.len() <= path.len() && #[trigger] path.subrange(
            from,
            from + name.len(),
        ) == name
}

/// Calls `camino::Utf8Path::file_name`: the last component of a path, if it
/// has one. How a path falls into components depends on the platform, so all
/// that is claimed is that a component is a part of the path and not empty.
#[verifier::external_body]
fn path_file_name(path: &str) -> (name: Option<String>)
    ensures
        name is Some ==> part_of(name->0@, path@),
{
    camino::Utf8Path::new(path).file_name().map(str::to_owned)
}

/// What the `url` crate makes of an address that is given a query: the
/// address with the query in its place, where the address is an absolute URL.
pub uninterp spec fn url_with_query(address: Seq<char>, query: Seq<char>) -> Option<Seq<char>>;

/// Calls `url::Url::parse`, then `set_query` and `as_str` on the URL it
/// gives. Nothing comes back where the address does not parse; else what
/// comes back is `url_with_query` of the address and the query.
#[verifier::external_body]
fn with_query(address: &str, query: &str) -> (joined: Option<String>)
    requires
        address.spec_bytes().len() <= MAX_URL_BYTES,
        query.spec_bytes().len() <= MAX_URL_BYTES,
    ensures
        joined is Some <==> url_with_query(address@, query@) is Some,
        joined is Some ==> joined->0@ == url_with_query(address@, query@)->0,
{
    match url::Url::parse(address) {
        Ok(mut parsed) => {
            parsed.set_query(Some(query));
            Some(parsed.as_str().to_owned())
        },
        Err(_) => None,
    }
}

/// The address to which the files of a release are sent, before the query
/// that names the file.
pub open spec fn assets_url(owner: Seq<char>, repo: Seq<char>, release_id: Seq<char>) -> Seq<char> {
    "https://uploads.github.com/repos/"@ + owner + "/"@ + repo + "/releases/"@ + release_id
        + "/assets"@
}

/// The query that names the file.
pub open spec fn name_query(file_name: Seq<char>) -> Seq<char> {
    "name="@ + file_name
}

/// The headers of an upload of `file_size` bytes.
pub open spec fn upload_headers(file_size: u64) -> Seq<HeaderView> {
    seq![
        accept_header(),
        version_header(),
        agent_header(),
        HeaderView { name: "Content-Type"@, value: "application/octet-stream"@ },
        HeaderView { name: "Content-Length"@, value: decimal(file_size as nat) },
    ]
}

/// Whether the parts of an upload address are short enough to be joined.
pub open spec fn joinable(address: Seq<char>, query: Seq<char>) -> bool {
    vstd::utf8::encode_utf8(address).len() <= MAX_URL_BYTES && vstd::utf8::encode_utf8(query).len()
        <= MAX_URL_BYTES
}

/// The request that attaches the file at `path_to_file`, under `file_name`,
/// to a release, if there is one: the address has to be a URL, and short
/// enough.
pub open spec fn upload_request(
    owner: Seq<char>,
    repo: Seq<char>,
    release_id: Seq<char>,
    file_name: Seq<char>,
    path_to_file: Seq<char>,
    file_size: u64,
) -> Option<RequestView> {
    let address = assets_url(owner, repo, release_id);
    let query = name_query(file_name);
    if !joinable(address, query) {
        None
    } else {
        match url_with_query(address, query) {
            None => None,
            Some(url) => Some(
                RequestView {
                    method: Method::Post,
                    url,
                    headers: upload_headers(file_size),
                    body: BodyView::File(path_to_file),
                },
            ),
        }
    }
}

/// A request that may be missing, as plain values.
pub open spec fn request_view(req: Option<OutboundRequestDescriptor>) -> Option<RequestView> {
    match req {
        Some(req) => Some(req@),
        None => None,
    }
}

/// Describes the upload of a file to a release: a `POST` to the upload host,
/// with the file named in the query, its size in `Content-Length`, and its
/// content as the body.
pub fn github_api_upload_request(
    owner: &str,
    repo: &str,
    release_id: &str,
    file_name: &str,
    path_to_file: &str,
    file_size: u64,
) -> (req: Option<OutboundRequestDescriptor>)
    ensures
        request_view(req) == upload_request(
            owner@,
            repo@,
            release_id@,
            file_name@,
            path_to_file@,
            file_size,
        ),
{
    let mut address = String::from_str("https://uploads.github.com/repos/");
    address.append(owner);
    address.append("/");
    address.append(repo);
    address.append("/releases/");
    address.append(release_id);
    address.append("/assets");
    let query = join("name=", file_name);
    if address.as_str().as_bytes().len() > MAX_URL_BYTES || query.as_str().as_bytes().len()
        > MAX_URL_BYTES {
        return None;
    }
    let url = match with_query(address.as_str(), query.as_str()) {
        Some(url) => url,
        None => {
            return None;
        },
    };
    let mut headers: Vec<Header> = Vec::new();
    headers.push(header("Accept", "application/vnd.github+json"));
    headers.push(header("X-GitHub-Api-Version", "2022-11-28"));
    headers.push(header("User-Agent", "cargo_auto_lib"));
    headers.push(header("Content-Type", "application/octet-stream"));
    headers.push(header("Content-Length", decimal_text(file_size).as_str()));
    proof {
        assert(header_views(headers@) =~= upload_headers(file_size));
    }
    Some(
        OutboundRequestDescriptor {
            method: Method::Post,
            url,
            headers,
            body: RequestBody::File(path_to_file.to_owned()),
        },
    )
}

/// A name that may be missing, as characters.
pub open spec fn name_view(file_name: Option<String>) -> Option<Seq<char>> {
    match file_name {
        Some(name) => Some(name@),
        None => None,
    }
}

/// Whether `response` is what attaching the file under `file_name` returns:
/// `MalformedInput` where there is no name, or no request can be made for
/// it; else an answer of the client to the upload that
/// `github_api_upload_request` describes.
pub open spec fn attached_as<C: SendToGitHubApi>(
    github_client: &C,
    owner: Seq<char>,
    repo: Seq<char>,
    release_id: Seq<char>,
    file_name: Option<Seq<char>>,
    path_to_file: Seq<char>,
    file_size: u64,
    response: Result<serde_json::Value, GitHubError>,
) -> bool {
    match file_name {
        None => response is Err && response->Err_0 == GitHubError::MalformedInput,
        Some(name) => match upload_request(
            owner,
            repo,
            release_id,
            name,
            path_to_file,
            file_size,
        ) {
            None => response is Err && response->Err_0 == GitHubError::MalformedInput,
            Some(req) => github_client.uploaded(req, response),
        },
    }
}

/// Attaches the file at `path_to_file` to a release under the name that was
/// read off its path, if one was.
///
/// `MalformedInput` comes back, and nothing is sent, where there is no name
/// or the address of the upload is no URL. Else the upload is handed to the
/// client, and what the client answers comes back.
pub fn upload_asset_named<C: SendToGitHubApi>(
    github_client: &C,
    owner: &str,
    repo: &str,
    release_id: &str,
    file_name: Option<String>,
    path_to_file: &str,
    file_size: u64,
) -> (response: Result<serde_json::Value, GitHubError>)
    ensures
        attached_as(
            github_client,
            owner@,
            repo@,
            release_id@,
            name_view(file_name),
            path_to_file@,
            file_size,
            response,
        ),
{
    let file_name = match file_name {
        Some(file_name) => file_name,
        None => {
            return Err(GitHubError::MalformedInput);
        },
    };
    match github_api_upload_request(
        owner,
        repo,
        release_id,
        file_name.as_str(),
        path_to_file,
        file_size,
    ) {
        Some(req) => github_client.upload_to_github(req),
        None => Err(GitHubError::MalformedInput),
    }
}

/// Attaches the file at `path_to_file`, of `file_size` bytes, to a release.
///
/// The name of the file is read off its path; which part of the path that
/// is depends on the platform. What comes back is what `upload_asset_named`
/// returns for that name.
pub fn github_api_upload_asset_to_release<C: SendToGitHubApi>(
    github_client: &C,
    owner: &str,
    repo: &str,
    release_id: &str,
    path_to_file: &str,
    file_size: u64,
) -> (response: Result<serde_json::Value, GitHubError>)
    ensures
        exists|file_name: Option<Seq<char>>|
            (file_name is Some ==> part_of(file_name->0, path_to_file@)) && #[trigger] attached_as(
                github_client,
                owner@,
                repo@,
                release_id@,
                file_name,
                path_to_file@,
                file_size,
                response,
            ),
{
    let file_name = path_file_name(path_to_file);
    let ghost read = name_view(file_name);
    let response = upload_asset_named(
        github_client,
        owner,
        repo,
        release_id,
        file_name,
        path_to_file,
        file_size,
    );
    proof {
        assert(attached_as(
            github_client,
            owner@,
            repo@,
            release_id@,
            read,
            path_to_file@,
            file_size,
            response,
        ));
    }
    response
}

/// The identifier of the release that a response tells of, as text: a string
/// as it is, anything else as GitHub wrote it, and `null` where the response
/// holds none.
pub open spec fn release_id(response: JsonTree) -> Seq<char> {
    match member(response, "id"@) {
        None => "null"@,
        Some(JsonTree::Text(text)) => text,
        Some(other) => json_text(other),
    }
}

/// The identifier of the release that a response tells of.
pub fn release_id_text(response: &serde_json::Value) -> (id: String)
    ensures
        id@ == release_id(json_tree(*response)),
{
    match json_get(response, "id") {
        None => String::from_str("null"),
        Some(found) => match json_as_str(found) {
            Some(text) => text.to_owned(),
            None => json_to_text(found),
        },
    }
}

/// Whether `id` is what an answer to the creation of a release is read as:
/// the identifier in the response, or the failure as it came.
pub open spec fn names_release(
    answer: Result<serde_json::Value, GitHubError>,
    id: Result<String, GitHubError>,
) -> bool {
    match answer {
        Ok(response) => id is Ok && id->Ok_0@ == release_id(json_tree(response)),
        Err(error) => id is Err && id->Err_0 == error,
    }
}

/// Creates a release and returns its identifier: the request that
/// `github_api_create_new_release` describes is handed to the client, and
/// what the client answers is read as `names_release` says.
pub fn auto_github_create_new_release<C: SendToGitHubApi>(
    github_client: &C,
    owner: &str,
    repo: &str,
    tag_name_version: &str,
    name: &str,
    branch: &str,
    body_md_text: &str,
) -> (new_release_id: Result<String, GitHubError>)
    ensures
        exists|answer: Result<serde_json::Value, GitHubError>|
            github_client.answered(
                release_request(owner@, repo@, tag_name_version@, name@, branch@, body_md_text@),
                answer,
            ) && #[trigger] names_release(answer, new_release_id),
{
    let answer = github_client.send_to_github_api(
        github_api_create_new_release(owner, repo, tag_name_version, name, branch, body_md_text),
    );
    let ghost answered = answer;
    let new_release_id = match answer {
        Ok(response) => Ok(release_id_text(&response)),
        Err(error) => Err(error),
    };
    proof {
        assert(names_release(answered, new_release_id));
    }
    new_release_id
}

/// Whether `done` tells how `response` went: well, or with its failure.
pub open spec fn tells_of(
    response: Result<serde_json::Value, GitHubError>,
    done: Result<(), GitHubError>,
) -> bool {
    match response {
        Ok(_) => done is Ok,
        Err(error) => done is Err && done->Err_0 == error,
    }
}

/// Attaches a file to a release as `github_api_upload_asset_to_release` does,
/// and tells only whether that went well.
pub fn auto_github_upload_asset_to_release<C: SendToGitHubApi>(
    github_client: &C,
    owner: &str,
    repo: &str,
    release_id: &str,
    path_to_file: &str,
    file_size: u64,
) -> (done: Result<(), GitHubError>)
    ensures
        exists|file_name: Option<Seq<char>>, response: Result<serde_json::Value, GitHubError>|
            (file_name is Some ==> part_of(file_name->0, path_to_file@)) && #[trigger] attached_as(
                github_client,
                owner@,
                repo@,
                release_id@,
                file_name,
                path_to_file@,
                file_size,
                response,
            ) && tells_of(response, done),
{
    let response = github_api_upload_asset_to_release(
        github_client,
        owner,
        repo,
        release_id,
        path_to_file,
        file_size,
    );
    let ghost attached_response = response;
    let done = match response {
        Ok(_) => Ok(()),
        Err(error) => Err(error),
    };
    proof {
        assert(tells_of(attached_response, done));
    }
    done
}

} // verus!
