use cargo_auto_github_lib::api::SendToGitHubApi;
use cargo_auto_github_lib::client::{interpret_reply, AuthorizedRequest, GitHubClient, Transport};
use cargo_auto_github_lib::destination::ApiHost;
use cargo_auto_github_lib::error::GitHubError;
use cargo_auto_github_lib::request::{Header, Method, OutboundRequestDescriptor, RequestBody};
use cargo_auto_github_lib::secret::SecretText;
use std::cell::{Cell, RefCell};

fn secret(text: &str) -> SecretText {
    SecretText::new(text.to_string())
}

struct FakeTransport {
    reply: Option<String>,
    calls: Cell<u32>,
    seen: RefCell<Vec<(String, String)>>,
    lines: RefCell<Vec<String>>,
}

impl FakeTransport {
    fn replying(reply: &str) -> FakeTransport {
        FakeTransport {
            reply: Some(reply.to_string()),
            calls: Cell::new(0),
            seen: RefCell::new(Vec::new()),
            lines: RefCell::new(Vec::new()),
        }
    }
}

impl Transport for &FakeTransport {
    fn execute(&self, request: &AuthorizedRequest) -> Option<String> {
        self.calls.set(self.calls.get() + 1);
        for header in request.headers() {
            self.seen.borrow_mut().push((header.name.clone(), header.value.clone()));
        }
        self.lines.borrow_mut().push(format!(
            "{:?} {} {:?} {:?}",
            request.method(),
            request.url(),
            request.host(),
            request.body()
        ));
        self.reply.clone()
    }
}

fn get(url: &str) -> OutboundRequestDescriptor {
    OutboundRequestDescriptor {
        method: Method::Get,
        url: url.to_string(),
        headers: vec![Header { name: "Accept".to_string(), value: "application/vnd.github+json".to_string() }],
        body: RequestBody::Empty,
    }
}

#[test]
fn send_rejects_untrusted_host_without_calling_the_transport() {
    let transport = FakeTransport::replying("{}");
    let client = GitHubClient::new(secret("tkn_abc123"), &transport).unwrap();
    let result = client.send(get("https://evil.example.com/repos/o/r"), ApiHost::Api);
    assert_eq!(result, Err(GitHubError::UntrustedDestination));
    assert_eq!(transport.calls.get(), 0);
}

#[test]
fn send_rejects_plain_transport_without_sending() {
    let transport = FakeTransport::replying("{}");
    let client = GitHubClient::new(secret("tkn_abc123"), &transport).unwrap();
    let result = client.send(get("http://api.github.com/repos/o/r"), ApiHost::Api);
    assert_eq!(result, Err(GitHubError::InsecureTransport));
    assert_eq!(transport.calls.get(), 0);
}

#[test]
fn send_reports_bad_credentials_without_the_token() {
    let transport = FakeTransport::replying("{\"message\": \"Bad credentials\"}");
    let client = GitHubClient::new(secret("tkn_abc123"), &transport).unwrap();
    let result = client.send(get("https://api.github.com/repos/o/r"), ApiHost::Api);
    assert_eq!(result, Err(GitHubError::AuthenticationFailure));
    assert!(!format!("{:?}", result).contains("tkn_abc123"));
    assert_eq!(transport.calls.get(), 1);
}

#[test]
fn send_returns_the_parsed_response() {
    let transport = FakeTransport::replying("{\"id\": 42, \"name\": \"repo\"}");
    let client = GitHubClient::new(secret("tkn_abc123"), &transport).unwrap();
    let response = client.send(get("https://api.github.com/repos/o/repo"), ApiHost::Api).unwrap();
    assert_eq!(response.get("id").and_then(|id| id.as_u64()), Some(42));
    assert_eq!(response.get("name").and_then(|name| name.as_str()), Some("repo"));
    assert_eq!(transport.calls.get(), 1);
    let seen = transport.seen.borrow();
    assert_eq!(
        seen.as_slice(),
        &[
            ("Accept".to_string(), "application/vnd.github+json".to_string()),
            ("Authorization".to_string(), "Bearer tkn_abc123".to_string()),
        ]
    );
}

#[test]
fn hosts_are_not_interchanged() {
    let transport = FakeTransport::replying("{}");
    let client = GitHubClient::new(secret("tkn_abc123"), &transport).unwrap();
    assert_eq!(
        client.send(get("https://uploads.github.com/repos/o/r"), ApiHost::Api),
        Err(GitHubError::UntrustedDestination)
    );
    assert_eq!(
        client.send(get("https://api.github.com/repos/o/r"), ApiHost::Uploads),
        Err(GitHubError::UntrustedDestination)
    );
    assert_eq!(transport.calls.get(), 0);
    assert!(client.send(get("https://uploads.github.com/repos/o/r"), ApiHost::Uploads).is_ok());
    assert_eq!(transport.calls.get(), 1);
}

#[test]
fn address_that_is_no_url_is_untrusted() {
    let transport = FakeTransport::replying("{}");
    let client = GitHubClient::new(secret("tkn_abc123"), &transport).unwrap();
    assert_eq!(client.send(get("api.github.com/repos"), ApiHost::Api), Err(GitHubError::UntrustedDestination));
    assert_eq!(client.send(get("mailto:someone@api.github.com"), ApiHost::Api), Err(GitHubError::UntrustedDestination));
    assert_eq!(
        client.send(get("https://api.github.com.evil.example.com/"), ApiHost::Api),
        Err(GitHubError::UntrustedDestination)
    );
    assert_eq!(
        client.send(get("https://api.github.com@evil.example.com/"), ApiHost::Api),
        Err(GitHubError::UntrustedDestination)
    );
    assert_eq!(transport.calls.get(), 0);
}

#[test]
fn wrong_host_counts_before_wrong_scheme() {
    let transport = FakeTransport::replying("{}");
    let client = GitHubClient::new(secret("tkn_abc123"), &transport).unwrap();
    assert_eq!(
        client.send(get("http://evil.example.com/"), ApiHost::Api),
        Err(GitHubError::UntrustedDestination)
    );
}

#[test]
fn transport_is_handed_the_request_as_it_was_described() {
    let transport = FakeTransport::replying("{}");
    let client = GitHubClient::new(secret("tkn_abc123"), &transport).unwrap();
    let req = OutboundRequestDescriptor {
        method: Method::Patch,
        url: "https://api.github.com/repos/o/r".to_string(),
        headers: Vec::new(),
        body: RequestBody::Text("{\"description\":\"d\"}".to_string()),
    };
    assert!(client.send(req, ApiHost::Api).is_ok());
    assert_eq!(
        transport.lines.borrow().as_slice(),
        &["Patch https://api.github.com/repos/o/r Api Text(\"{\\\"description\\\":\\\"d\\\"}\")".to_string()]
    );
    assert_eq!(
        transport.seen.borrow().as_slice(),
        &[("Authorization".to_string(), "Bearer tkn_abc123".to_string())]
    );
}

#[test]
fn capability_sends_to_its_own_host() {
    let transport = FakeTransport::replying("{\"ok\": true}");
    let client = GitHubClient::new(secret("tkn_abc123"), &transport).unwrap();
    assert!(client.send_to_github_api(get("https://api.github.com/repos/o/r")).is_ok());
    assert!(client.upload_to_github(get("https://uploads.github.com/repos/o/r")).is_ok());
    assert_eq!(
        client.send_to_github_api(get("https://uploads.github.com/repos/o/r")),
        Err(GitHubError::UntrustedDestination)
    );
    assert_eq!(
        client.upload_to_github(get("https://api.github.com/repos/o/r")),
        Err(GitHubError::UntrustedDestination)
    );
    assert_eq!(client.upload_to_github(get("http://uploads.github.com/x")), Err(GitHubError::InsecureTransport));
    assert_eq!(transport.calls.get(), 2);
}

#[test]
fn reply_that_is_no_json_is_malformed() {
    assert_eq!(interpret_reply(Some("<html>".to_string())), Err(GitHubError::MalformedInput));
    assert_eq!(interpret_reply(Some("".to_string())), Err(GitHubError::MalformedInput));
}

#[test]
fn missing_reply_is_an_api_error() {
    assert_eq!(interpret_reply(None), Err(GitHubError::ApiError("no response from GitHub".to_string())));
}

#[test]
fn other_messages_are_passed_on() {
    let response = interpret_reply(Some("{\"message\": \"Not Found\"}".to_string())).unwrap();
    assert_eq!(response.get("message").and_then(|m| m.as_str()), Some("Not Found"));
    let response = interpret_reply(Some("{\"message\": [\"Bad credentials\"]}".to_string())).unwrap();
    assert!(response.get("message").unwrap().is_array());
    assert!(interpret_reply(Some("[\"Bad credentials\"]".to_string())).is_ok());
}

#[test]
fn client_without_entropy_is_not_made() {
    let transport = FakeTransport::replying("{}");
    assert!(matches!(
        GitHubClient::from_entropy(secret("t"), &transport, None, Some(vec![0; 12])),
        Err(GitHubError::EntropySourceUnavailable)
    ));
    assert!(matches!(
        GitHubClient::from_entropy(secret("t"), &transport, Some(vec![0; 32]), None),
        Err(GitHubError::EntropySourceUnavailable)
    ));
    assert!(matches!(
        GitHubClient::from_entropy(secret("t"), &transport, Some(vec![0; 32]), Some(vec![0; 11])),
        Err(GitHubError::EntropySourceUnavailable)
    ));
    assert!(GitHubClient::from_entropy(secret("t"), &transport, Some(vec![0; 32]), Some(vec![0; 12])).is_ok());
}

#[test]
fn upload_returns_the_parsed_response_of_one_request() {
    let transport = FakeTransport::replying("{\"id\": 7, \"state\": \"uploaded\"}");
    let client = GitHubClient::new(secret("tkn_abc123"), &transport).unwrap();
    let req = OutboundRequestDescriptor {
        method: Method::Post,
        url: "https://uploads.github.com/repos/o/r/releases/1/assets?name=a.txt".to_string(),
        headers: vec![Header { name: "Content-Type".to_string(), value: "application/octet-stream".to_string() }],
        body: RequestBody::File("a.txt".to_string()),
    };
    let response = client.upload_to_github(req).unwrap();
    assert_eq!(response.get("id").and_then(|id| id.as_u64()), Some(7));
    assert_eq!(transport.calls.get(), 1);
    assert_eq!(
        transport.lines.borrow().as_slice(),
        &["Post https://uploads.github.com/repos/o/r/releases/1/assets?name=a.txt Uploads File(\"a.txt\")"
            .to_string()]
    );
    assert_eq!(
        transport.seen.borrow().as_slice(),
        &[
            ("Content-Type".to_string(), "application/octet-stream".to_string()),
            ("Authorization".to_string(), "Bearer tkn_abc123".to_string()),
        ]
    );
}

#[test]
fn request_of_the_builder_reaches_the_transport_with_the_token() {
    let transport = FakeTransport::replying("{}");
    let client = GitHubClient::new(secret("tkn_abc123"), &transport).unwrap();
    assert!(client
        .send_to_github_api(cargo_auto_github_lib::api::github_api_get_repository("o", "r"))
        .is_ok());
    assert_eq!(transport.lines.borrow().as_slice(), &["Get https://api.github.com/repos/o/r Api Empty".to_string()]);
    assert_eq!(
        transport.seen.borrow().as_slice(),
        &[
            ("Accept".to_string(), "application/vnd.github+json".to_string()),
            ("X-GitHub-Api-Version".to_string(), "2022-11-28".to_string()),
            ("User-Agent".to_string(), "cargo_auto_lib".to_string()),
            ("Authorization".to_string(), "Bearer tkn_abc123".to_string()),
        ]
    );
}
