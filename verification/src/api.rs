//! The requests of the GitHub REST API that the helpers make, each described
//! without its authorization, and the interface through which they are sent.

use crate::error::GitHubError;
use crate::json::{
    json_array, json_bool, json_insert, json_object, json_string, json_text, json_to_text,
    json_tree, json_trees, JsonTree,
};
use crate::request::{
    header, header_views, BodyView, Header, HeaderView, Method, OutboundRequestDescriptor,
    RequestBody, RequestView,
};
use crate::text::string_views;
use vstd::prelude::*;
use vstd::string::StringExecFns;

verus! {

/// What sends a request to GitHub without revealing the token to the code
/// that built the request: the one capability that this code is given.
pub trait SendToGitHubApi {
    /// Whether `result` is an answer of this sender to `req`, sent to the API
    /// host. An implementation says here what its answers are; left as it
    /// is, every result counts as one.
    open spec fn answered(
        &self,
        req: RequestView,
        result: Result<serde_json::Value, GitHubError>,
    ) -> bool {
        true
    }

    /// Whether `result` is an answer of this sender to `req`, sent to the
    /// upload host.
    open spec fn uploaded(
        &self,
        req: RequestView,
        result: Result<serde_json::Value, GitHubError>,
    ) -> bool {
        true
    }

    /// Sends a request to the API host and returns the parsed response.
    fn send_to_github_api(&self, req: OutboundRequestDescriptor) -> (result: Result<
        serde_json::Value,
        GitHubError,
    >)
        ensures
            self.answered(req@, result),
    ;

    /// Sends a request to the upload host and returns the parsed response.
    fn upload_to_github(&self, req: OutboundRequestDescriptor) -> (result: Result<
        serde_json::Value,
        GitHubError,
    >)
        ensures
            self.uploaded(req@, result),
    ;
}

/// The address of a repository in the API.
pub open spec fn repository_url(owner: Seq<char>, repo_name: Seq<char>) -> Seq<char> {
    "https://api.github.com/repos/"@ + owner + "/"@ + repo_name
}

/// The header by which a request asks for GitHub's JSON.
pub open spec fn accept_header() -> HeaderView {
    HeaderView { name: "Accept"@, value: "application/vnd.github+json"@ }
}

/// The header by which a request says that its body is GitHub's JSON.
pub open spec fn content_type_header() -> HeaderView {
    HeaderView { name: "Content-Type"@, value: "application/vnd.github+json"@ }
}

/// The header that pins the version of the API.
pub open spec fn version_header() -> HeaderView {
    HeaderView { name: "X-GitHub-Api-Version"@, value: "2022-11-28"@ }
}

/// The header that names the calling tool.
pub open spec fn agent_header() -> HeaderView {
    HeaderView { name: "User-Agent"@, value: "cargo_auto_lib"@ }
}

/// The headers of a call on a repository.
pub open spec fn api_headers() -> Seq<HeaderView> {
    seq![accept_header(), version_header(), agent_header()]
}

/// The headers of the call that creates a release: those of every call, and
/// the kind of its body.
pub open spec fn release_headers() -> Seq<HeaderView> {
    seq![accept_header(), content_type_header(), version_header(), agent_header()]
}

/// The address of a repository in the API.
pub fn repository_address(owner: &str, repo_name: &str) -> (address: String)
    ensures
        address@ == repository_url(owner@, repo_name@),
{
    let mut address = String::from_str("https://api.github.com/repos/");
    address.append(owner);
    address.append("/");
    address.append(repo_name);
    address
}

/// The headers of a request: the first as given, then the version of the API
/// and the name of the tool.
fn headers_after(first: Header) -> (headers: Vec<Header>)
    ensures
        header_views(headers@) == seq![first@, version_header(), agent_header()],
{
    let mut headers: Vec<Header> = Vec::new();
    headers.push(first);
    headers.push(header("X-GitHub-Api-Version", "2022-11-28"));
    headers.push(header("User-Agent", "cargo_auto_lib"));
    proof {
        assert(header_views(headers@) =~= seq![first@, version_header(), agent_header()]);
    }
    headers
}

/// The request that reads a repository, as plain values.
pub open spec fn repository_request(owner: Seq<char>, repo_name: Seq<char>) -> RequestView {
    RequestView {
        method: Method::Get,
        url: repository_url(owner, repo_name),
        headers: api_headers(),
        body: BodyView::Empty,
    }
}

/// The request that reads a repository.
pub fn github_api_get_repository(owner: &str, repo_name: &str) -> (req: OutboundRequestDescriptor)
    ensures
        req@ == repository_request(owner@, repo_name@),
{
    OutboundRequestDescriptor {
        method: Method::Get,
        url: repository_address(owner, repo_name),
        headers: headers_after(header("Accept", "application/vnd.github+json")),
        body: RequestBody::Empty,
    }
}

/// The address at which a repository is shown as a site.
pub open spec fn homepage_url(owner: Seq<char>, name: Seq<char>) -> Seq<char> {
    "https://"@ + owner + ".github.io/"@ + name
}

/// The body of the request that creates a repository.
pub open spec fn repository_new_tree(
    owner: Seq<char>,
    name: Seq<char>,
    description: Seq<char>,
) -> JsonTree {
    JsonTree::Object(
        Map::empty().insert("name"@, JsonTree::Text(name)).insert(
            "description"@,
            JsonTree::Text(description),
        ).insert("homepage"@, JsonTree::Text(homepage_url(owner, name))).insert(
            "private"@,
            JsonTree::Bool(false),
        ).insert("has_issues"@, JsonTree::Bool(true)).insert(
            "has_projects"@,
            JsonTree::Bool(false),
        ).insert("has_wiki"@, JsonTree::Bool(false)).insert(
            "has_discussions"@,
            JsonTree::Bool(true),
        ),
    )
}

/// The request that creates a repository, as plain values.
pub open spec fn repository_new_request(
    owner: Seq<char>,
    name: Seq<char>,
    description: Seq<char>,
) -> RequestView {
    RequestView {
        method: Method::Post,
        url: "https://api.github.com/user/repos"@,
        headers: api_headers(),
        body: BodyView::Text(json_text(repository_new_tree(owner, name, description))),
    }
}

/// The request that creates a repository for the authenticated user, public,
/// with issues and discussions and without projects and wiki.
pub fn github_api_repository_new(owner: &str, name: &str, description: &str) -> (req:
    OutboundRequestDescriptor)
    ensures
        req@ == repository_new_request(owner@, name@, description@),
{
    let mut homepage = String::from_str("https://");
    homepage.append(owner);
    homepage.append(".github.io/");
    homepage.append(name);
    let mut body = json_object();
    json_insert(&mut body, "name", json_string(name));
    json_insert(&mut body, "description", json_string(description));
    json_insert(&mut body, "homepage", json_string(homepage.as_str()));
    json_insert(&mut body, "private", json_bool(false));
    json_insert(&mut body, "has_issues", json_bool(true));
    json_insert(&mut body, "has_projects", json_bool(false));
    json_insert(&mut body, "has_wiki", json_bool(false));
    json_insert(&mut body, "has_discussions", json_bool(true));
    OutboundRequestDescriptor {
        method: Method::Post,
        url: String::from_str("https://api.github.com/user/repos"),
        headers: headers_after(header("Accept", "application/vnd.github+json")),
        body: RequestBody::Text(json_to_text(&body)),
    }
}

/// The body of the request that sets the description of a repository.
pub open spec fn description_tree(description: Seq<char>) -> JsonTree {
    JsonTree::Object(Map::empty().insert("description"@, JsonTree::Text(description)))
}

/// The request that sets the description of a repository, as plain values.
pub open spec fn description_request(
    owner: Seq<char>,
    repo_name: Seq<char>,
    description: Seq<char>,
) -> RequestView {
    RequestView {
        method: Method::Patch,
        url: repository_url(owner, repo_name),
        headers: api_headers(),
        body: BodyView::Text(json_text(description_tree(description))),
    }
}

/// The request that sets the description of a repository.
pub fn github_api_update_description(owner: &str, repo_name: &str, description: &str) -> (req:
    OutboundRequestDescriptor)
    ensures
        req@ == description_request(owner@, repo_name@, description@),
{
    let mut body = json_object();
    json_insert(&mut body, "description", json_string(description));
    OutboundRequestDescriptor {
        method: Method::Patch,
        url: repository_address(owner, repo_name),
        headers: headers_after(header("Accept", "application/vnd.github+json")),
        body: RequestBody::Text(json_to_text(&body)),
    }
}

/// The array of the strings of a list.
pub open spec fn text_array(texts: Seq<Seq<char>>) -> JsonTree {
    JsonTree::Array(texts.map_values(|text: Seq<char>| JsonTree::Text(text)))
}

/// The JSON array of the strings of a list, in their order.
pub fn json_text_array(texts: &Vec<String>) -> (array: serde_json::Value)
    ensures
        json_tree(array) == text_array(string_views(texts@)),
{
    let mut items: Vec<serde_json::Value> = Vec::new();
    let mut at: usize = 0;
    while at < texts.len()
        invariant
            at <= texts.len(),
            items@.len() == at,
            forall|k: int| 0 <= k < at ==> json_tree(#[trigger] items@[k]) == JsonTree::Text(texts@[k]@),
        decreases texts.len() - at,
    {
        items.push(json_string(texts[at].as_str()));
        at = at + 1;
    }
    proof {
        assert(json_trees(items@) =~= string_views(texts@).map_values(
            |text: Seq<char>| JsonTree::Text(text),
        ));
    }
    json_array(items)
}

/// The body of the request that replaces the topics of a repository.
pub open spec fn topics_tree(topics: Seq<Seq<char>>) -> JsonTree {
    JsonTree::Object(Map::empty().insert("names"@, text_array(topics)))
}

/// The request that replaces all the topics of a repository, as plain values.
pub open spec fn topics_request(
    owner: Seq<char>,
    repo_name: Seq<char>,
    topics: Seq<Seq<char>>,
) -> RequestView {
    RequestView {
        method: Method::Put,
        url: repository_url(owner, repo_name) + "/topics"@,
        headers: api_headers(),
        body: BodyView::Text(json_text(topics_tree(topics))),
    }
}

/// The request that replaces all the topics of a repository.
pub fn github_api_replace_all_topics(owner: &str, repo_name: &str, topics: &Vec<String>) -> (req:
    OutboundRequestDescriptor)
    ensures
        req@ == topics_request(owner@, repo_name@, string_views(topics@)),
{
    let mut address = repository_address(owner, repo_name);
    address.append("/topics");
    let mut body = json_object();
    json_insert(&mut body, "names", json_text_array(topics));
    OutboundRequestDescriptor {
        method: Method::Put,
        url: address,
        headers: headers_after(header("Accept", "application/vnd.github+json")),
        body: RequestBody::Text(json_to_text(&body)),
    }
}

/// The body of the request that creates the site of a repository: built by a
/// workflow, from `/docs` on `main`.
pub open spec fn pages_tree() -> JsonTree {
    JsonTree::Object(
        Map::empty().insert("build_type"@, JsonTree::Text("workflow"@)).insert(
            "source"@,
            JsonTree::Object(
                Map::empty().insert("branch"@, JsonTree::Text("main"@)).insert(
                    "path"@,
                    JsonTree::Text("/docs"@),
                ),
            ),
        ),
    )
}

/// The request that creates the site of a repository, as plain values.
pub open spec fn pages_request(owner: Seq<char>, repo_name: Seq<char>) -> RequestView {
    RequestView {
        method: Method::Post,
        url: repository_url(owner, repo_name) + "/pages"@,
        headers: api_headers(),
        body: BodyView::Text(json_text(pages_tree())),
    }
}

/// The request that creates the GitHub Pages site of a repository.
pub fn github_api_create_a_github_pages_site(owner: &str, repo_name: &str) -> (req:
    OutboundRequestDescriptor)
    ensures
        req@ == pages_request(owner@, repo_name@),
{
    let mut address = repository_address(owner, repo_name);
    address.append("/pages");
    let mut source = json_object();
    json_insert(&mut source, "branch", json_string("main"));
    json_insert(&mut source, "path", json_string("/docs"));
    let mut body = json_object();
    json_insert(&mut body, "build_type", json_string("workflow"));
    json_insert(&mut body, "source", source);
    OutboundRequestDescriptor {
        method: Method::Post,
        url: address,
        headers: headers_after(header("Accept", "application/vnd.github+json")),
        body: RequestBody::Text(json_to_text(&body)),
    }
}

/// The body of the request that creates a release: published at once, with
/// the given notes and none generated.
pub open spec fn release_tree(
    tag_name_version: Seq<char>,
    name: Seq<char>,
    branch: Seq<char>,
    body_md_text: Seq<char>,
) -> JsonTree {
    JsonTree::Object(
        Map::empty().insert("tag_name"@, JsonTree::Text(tag_name_version)).insert(
            "target_commitish"@,
            JsonTree::Text(branch),
        ).insert("name"@, JsonTree::Text(name)).insert("body"@, JsonTree::Text(body_md_text)).insert(
            "draft"@,
            JsonTree::Bool(false),
        ).insert("prerelease"@, JsonTree::Bool(false)).insert(
            "generate_release_notes"@,
            JsonTree::Bool(false),
        ),
    )
}

/// The request that creates a release of a repository, as plain values.
pub open spec fn release_request(
    owner: Seq<char>,
    repo: Seq<char>,
    tag_name_version: Seq<char>,
    name: Seq<char>,
    branch: Seq<char>,
    body_md_text: Seq<char>,
) -> RequestView {
    RequestView {
        method: Method::Post,
        url: repository_url(owner, repo) + "/releases"@,
        headers: release_headers(),
        body: BodyView::Text(json_text(release_tree(tag_name_version, name, branch, body_md_text))),
    }
}

/// The request that creates a release of a repository.
pub fn github_api_create_new_release(
    owner: &str,
    repo: &str,
    tag_name_version: &str,
    name: &str,
    branch: &str,
    body_md_text: &str,
) -> (req: OutboundRequestDescriptor)
    ensures
        req@ == release_request(
            owner@,
            repo@,
            tag_name_version@,
            name@,
            branch@,
            body_md_text@,
        ),
{
    let mut address = repository_address(owner, repo);
    address.append("/releases");
    let mut body = json_object();
    json_insert(&mut body, "tag_name", json_string(tag_name_version));
    json_insert(&mut body, "target_commitish", json_string(branch));
    json_insert(&mut body, "name", json_string(name));
    json_insert(&mut body, "body", json_string(body_md_text));
    json_insert(&mut body, "draft", json_bool(false));
    json_insert(&mut body, "prerelease", json_bool(false));
    json_insert(&mut body, "generate_release_notes", json_bool(false));
    let mut headers: Vec<Header> = Vec::new();
    headers.push(header("Accept", "application/vnd.github+json"));
    headers.push(header("Content-Type", "application/vnd.github+json"));
    headers.push(header("X-GitHub-Api-Version", "2022-11-28"));
    headers.push(header("User-Agent", "cargo_auto_lib"));
    proof {
        assert(header_views(headers@) =~= release_headers());
    }
    OutboundRequestDescriptor {
        method: Method::Post,
        url: address,
        headers,
        body: RequestBody::Text(json_to_text(&body)),
    }
}

} // verus!
