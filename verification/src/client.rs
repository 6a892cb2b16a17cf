//! The client that keeps the token: it holds the token encrypted under the key
//! of the session, decrypts it only to authorize one request, and sends a
//! request only where it goes to the expected host over HTTPS.

use crate::api::SendToGitHubApi;
use crate::cipher::{
    decrypt, encrypt_with_entropy, encryptable, os_random_bytes, sealed_credential,
    CredentialBytes, EncryptedCredential, SessionKey, KEY_LENGTH, NONCE_LENGTH,
};
use crate::destination::{
    check_destination, destination_fault, trusted_destination, url_parts, ApiHost,
};
use crate::error::GitHubError;
use crate::json::{json_as_str, json_get, json_parsed, json_tree, member, parse_json, JsonTree};
use crate::request::{
    header, header_views, Header, HeaderView, Method, OutboundRequestDescriptor, RequestBody,
    RequestView,
};
use crate::secret::SecretText;
use crate::text::{is_yes, join, means_yes, str_eq};
use vstd::prelude::*;

verus! {

/// The name of the header that carries the token.
pub open spec fn authorization_name() -> Seq<char> {
    "Authorization"@
}

/// The value of the header that carries `token`.
pub open spec fn bearer(token: Seq<char>) -> Seq<char> {
    "Bearer "@ + token
}

/// `request` with the header that carries `token` added behind its own.
pub open spec fn authorized(request: RequestView, token: Seq<char>) -> RequestView {
    RequestView {
        method: request.method,
        url: request.url,
        headers: request.headers.push(
            HeaderView { name: authorization_name(), value: bearer(token) },
        ),
        body: request.body,
    }
}

/// Whether the last of some headers carries a bearer token.
pub open spec fn carries_bearer(headers: Seq<HeaderView>) -> bool {
    &&& headers.len() > 0
    &&& headers.last().name == authorization_name()
    &&& "Bearer "@.is_prefix_of(headers.last().value)
}

/// A request with its authorization: what a transport is handed to send. One
/// exists only for a destination that may see the token.
pub struct AuthorizedRequest {
    method: Method,
    url: String,
    headers: Vec<Header>,
    body: RequestBody,
    host: ApiHost,
}

impl AuthorizedRequest {
    /// What holds of every authorized request: it goes to the host it was
    /// authorized for, over HTTPS, and its last header carries the token.
    #[verifier::type_invariant]
    pub closed spec fn well_formed(&self) -> bool {
        &&& trusted_destination(self.url@, self.host)
        &&& carries_bearer(header_views(self.headers@))
    }

    /// The request as plain values, authorization included.
    pub closed spec fn view(&self) -> RequestView {
        RequestView {
            method: self.method,
            url: self.url@,
            headers: header_views(self.headers@),
            body: self.body@,
        }
    }

    /// The host that the request was authorized for.
    pub closed spec fn destination(&self) -> ApiHost {
        self.host
    }

    /// The method of the request.
    pub fn method(&self) -> (method: Method)
        ensures
            method == self@.method,
    {
        self.method
    }

    /// The address of the request. It names the host that the request was
    /// authorized for, over HTTPS.
    pub fn url(&self) -> (url: &str)
        ensures
            url@ == self@.url,
            trusted_destination(url@, self.destination()),
    {
        proof {
            use_type_invariant(self);
        }
        self.url.as_str()
    }

    /// The headers of the request, the authorization last.
    pub fn headers(&self) -> (headers: &Vec<Header>)
        ensures
            header_views(headers@) == self@.headers,
            carries_bearer(header_views(headers@)),
    {
        proof {
            use_type_invariant(self);
        }
        &self.headers
    }

    /// The body of the request.
    pub fn body(&self) -> (body: &RequestBody)
        ensures
            body@ == self@.body,
    {
        &self.body
    }

    /// The host that the request was authorized for.
    pub fn host(&self) -> (host: ApiHost)
        ensures
            host == self.destination(),
    {
        self.host
    }
}

/// What sends an authorized request and brings back the body of the response,
/// or nothing where no response came.
pub trait Transport {
    /// Whether `reply` is what this transport brought back for `request`,
    /// which was authorized for `host`. An implementation says here what it
    /// brings back; left as it is, every reply counts.
    open spec fn replied(&self, request: RequestView, host: ApiHost, reply: Option<Seq<char>>) -> bool {
        true
    }

    /// Sends `request` and returns the body of the response.
    fn execute(&self, request: &AuthorizedRequest) -> (reply: Option<String>)
        ensures
            self.replied(request@, request.destination(), reply_view(reply)),
    ;
}

/// What became of the wish to keep the token in storage between sessions.
/// Storing is not offered yet: whatever the state, the operator enters the
/// token.
#[derive(Debug, Clone, Copy, PartialEq, Eq, Structural)]
pub enum StoredToken {
    /// Nothing is stored, and the operator does not want it stored.
    Declined,
    /// Nothing is stored, and the operator wants it stored.
    Wanted,
    /// An encrypted token is in storage.
    Present,
}

/// The state of storage, from whether an encrypted token is there and what
/// the operator answered when asked whether to store one.
pub open spec fn storage_state(artifact_exists: bool, answer: Seq<char>) -> StoredToken {
    if artifact_exists {
        StoredToken::Present
    } else if means_yes(answer) {
        StoredToken::Wanted
    } else {
        StoredToken::Declined
    }
}

/// The state of storage. The answer counts only where nothing is stored.
pub fn stored_token_state(artifact_exists: bool, answer: &str) -> (state: StoredToken)
    ensures
        state == storage_state(artifact_exists, answer@),
{
    if artifact_exists {
        StoredToken::Present
    } else if is_yes(answer) {
        StoredToken::Wanted
    } else {
        StoredToken::Declined
    }
}

/// The client that speaks to GitHub: the key of the session, the encrypted
/// token, and the transport that requests leave by. The token is set once,
/// when the client is made, and no operation gives out the key, the encrypted
/// token or the token.
pub struct GitHubClient<T: Transport> {
    session_passcode: SessionKey,
    encrypted_token: EncryptedCredential,
    transport: T,
    token: Ghost<Seq<char>>,
}

/// The member that tells of a refused token, and what it then holds.
pub open spec fn refusal_key() -> Seq<char> {
    "message"@
}

/// The text by which GitHub refuses a token.
pub open spec fn refusal_text() -> Seq<char> {
    "Bad credentials"@
}

/// Whether a response says that GitHub refused the token.
pub open spec fn bad_credentials(tree: JsonTree) -> bool {
    member(tree, refusal_key()) == Some(JsonTree::Text(refusal_text()))
}

/// What a response body is read as: its tree, or the reason why it counts as
/// a failure.
pub open spec fn response_reading(body: Seq<char>) -> Result<JsonTree, GitHubError> {
    match json_parsed(body) {
        None => Err(GitHubError::MalformedInput),
        Some(tree) => if bad_credentials(tree) {
            Err(GitHubError::AuthenticationFailure)
        } else {
            Ok(tree)
        },
    }
}

/// The message of the failure that stands for a request without a response.
pub open spec fn unanswered_message() -> Seq<char> {
    "no response from GitHub"@
}

/// Whether `result` is what a reply (a body, or none) is read as.
pub open spec fn reads_reply(
    result: Result<serde_json::Value, GitHubError>,
    reply: Option<Seq<char>>,
) -> bool {
    match reply {
        None => result is Err && result->Err_0 is ApiError && result->Err_0->ApiError_0@
            == unanswered_message(),
        Some(body) => match response_reading(body) {
            Ok(tree) => result is Ok && json_tree(result->Ok_0) == tree,
            Err(error) => result is Err && result->Err_0 == error,
        },
    }
}

/// What a transport brought back, as characters.
pub open spec fn reply_view(reply: Option<String>) -> Option<Seq<char>> {
    match reply {
        Some(body) => Some(body@),
        None => None,
    }
}

/// Whether a parsed response says that GitHub refused the token.
pub fn is_bad_credentials(response: &serde_json::Value) -> (refused: bool)
    ensures
        refused == bad_credentials(json_tree(*response)),
{
    match json_get(response, "message") {
        Some(message) => match json_as_str(message) {
            Some(text) => str_eq(text, "Bad credentials"),
            None => false,
        },
        None => false,
    }
}

/// Reads what a transport brought back: the parsed response, `MalformedInput`
/// where the body is not JSON, `AuthenticationFailure` where GitHub refused
/// the token, and an `ApiError` where there was no response.
pub fn interpret_reply(reply: Option<String>) -> (result: Result<serde_json::Value, GitHubError>)
    ensures
        reads_reply(result, reply_view(reply)),
{
    match reply {
        None => Err(GitHubError::ApiError("no response from GitHub".to_owned())),
        Some(body) => match parse_json(body.as_str()) {
            Err(_) => Err(GitHubError::MalformedInput),
            Ok(response) => {
                if is_bad_credentials(&response) {
                    Err(GitHubError::AuthenticationFailure)
                } else {
                    Ok(response)
                }
            },
        },
    }
}

impl<T: Transport> GitHubClient<T> {
    /// What holds of every client: its encrypted token is the encryption of
    /// one token under its own key.
    #[verifier::type_invariant]
    pub closed spec fn well_formed(&self) -> bool {
        &&& self.encrypted_token@.nonce.len() == NONCE_LENGTH
        &&& encryptable(self.token@)
        &&& self.encrypted_token@ == sealed_credential(
            self.token@,
            self.session_passcode@,
            self.encrypted_token@.nonce,
        )
    }

    /// The token that the client keeps.
    pub closed spec fn token(&self) -> Seq<char> {
        self.token@
    }

    /// The key of the session.
    pub closed spec fn key(&self) -> Seq<u8> {
        self.session_passcode@
    }

    /// The transport that requests leave by.
    pub closed spec fn transport(&self) -> T {
        self.transport
    }

    /// Whether `result` is what sending `req`, meant for `host`, returns: the
    /// fault of the destination where it has one; else what a reply is read
    /// as that the transport brought back for `req` with the token added.
    pub open spec fn sent(
        &self,
        req: RequestView,
        host: ApiHost,
        result: Result<serde_json::Value, GitHubError>,
    ) -> bool {
        match destination_fault(url_parts(req.url), host) {
            Some(fault) => result is Err && result->Err_0 == fault,
            None => exists|reply: Option<Seq<char>>|
                self.transport().replied(authorized(req, self.token()), host, reply)
                    && #[trigger] reads_reply(result, reply),
        }
    }

    /// The encrypted token as the client holds it.
    pub closed spec fn credential(&self) -> CredentialBytes {
        self.encrypted_token@
    }

    /// The client for a token, made with what the random source gave for the
    /// key and for the nonce. It fails with `EntropySourceUnavailable` where
    /// either is missing or of the wrong length, else with `MalformedInput`
    /// where the token is longer than the cipher takes.
    pub fn from_entropy(
        token_is_a_secret: SecretText,
        transport: T,
        key_entropy: Option<Vec<u8>>,
        nonce_entropy: Option<Vec<u8>>,
    ) -> (client: Result<Self, GitHubError>)
        ensures
            client is Ok <==> key_entropy is Some && key_entropy->0@.len() == KEY_LENGTH
                && nonce_entropy is Some && nonce_entropy->0@.len() == NONCE_LENGTH && encryptable(
                token_is_a_secret@,
            ),
            client is Ok ==> client->Ok_0.token() == token_is_a_secret@ && client->Ok_0.key()
                == key_entropy->0@ && client->Ok_0.credential() == sealed_credential(
                token_is_a_secret@,
                key_entropy->0@,
                nonce_entropy->0@,
            ) && client->Ok_0.transport() == transport,
            client is Err ==> client->Err_0 == (if key_entropy is Some && key_entropy->0@.len()
                == KEY_LENGTH && nonce_entropy is Some && nonce_entropy->0@.len() == NONCE_LENGTH {
                GitHubError::MalformedInput
            } else {
                GitHubError::EntropySourceUnavailable
            }),
    {
        let session_passcode = match SessionKey::from_entropy(key_entropy) {
            Ok(key) => key,
            Err(error) => {
                return Err(error);
            },
        };
        let nonce = match nonce_entropy {
            Some(nonce) => nonce,
            None => {
                return Err(GitHubError::EntropySourceUnavailable);
            },
        };
        if nonce.len() != NONCE_LENGTH {
            return Err(GitHubError::EntropySourceUnavailable);
        }
        match encrypt_with_entropy(
            token_is_a_secret.expose_secret(),
            &session_passcode,
            Some(nonce),
        ) {
            Ok(encrypted_token) => Ok(
                GitHubClient {
                    session_passcode,
                    encrypted_token,
                    transport,
                    token: Ghost(token_is_a_secret@),
                },
            ),
            Err(error) => Err(error),
        }
    }

    /// The client for a token that the operator has just entered: a fresh key
    /// for the session, and the token encrypted under it. The token that was
    /// handed in is wiped before this returns. It fails only where the random
    /// source does or the token is longer than the cipher takes.
    pub fn new(token_is_a_secret: SecretText, transport: T) -> (client: Result<Self, GitHubError>)
        ensures
            client is Ok ==> client->Ok_0.token() == token_is_a_secret@ && client->Ok_0.credential()
                == sealed_credential(
                token_is_a_secret@,
                client->Ok_0.key(),
                client->Ok_0.credential().nonce,
            ),
            client is Ok ==> client->Ok_0.key().len() == KEY_LENGTH
                && client->Ok_0.credential().nonce.len() == NONCE_LENGTH
                && client->Ok_0.transport() == transport,
            client is Err ==> client->Err_0 == GitHubError::EntropySourceUnavailable || (
            client->Err_0 == GitHubError::MalformedInput && !encryptable(token_is_a_secret@)),
    {
        let key_entropy = os_random_bytes(KEY_LENGTH);
        let nonce_entropy = os_random_bytes(NONCE_LENGTH);
        Self::from_entropy(token_is_a_secret, transport, key_entropy, nonce_entropy)
    }

    /// The client for a session that may use a stored token. Storing is not
    /// offered yet, so the client is made of the token that the operator has
    /// entered, as `new` makes it; the state of storage comes back with it.
    pub fn new_with_stored_token(
        token_is_a_secret: SecretText,
        transport: T,
        artifact_exists: bool,
        answer: &str,
    ) -> (client: Result<(Self, StoredToken), GitHubError>)
        ensures
            client is Ok ==> client->Ok_0.0.token() == token_is_a_secret@ && client->Ok_0.0.credential()
                == sealed_credential(
                token_is_a_secret@,
                client->Ok_0.0.key(),
                client->Ok_0.0.credential().nonce,
            ) && client->Ok_0.1 == storage_state(artifact_exists, answer@),
            client is Ok ==> client->Ok_0.0.key().len() == KEY_LENGTH
                && client->Ok_0.0.credential().nonce.len() == NONCE_LENGTH
                && client->Ok_0.0.transport() == transport,
            client is Err ==> client->Err_0 == GitHubError::EntropySourceUnavailable || (
            client->Err_0 == GitHubError::MalformedInput && !encryptable(token_is_a_secret@)),
    {
        let state = stored_token_state(artifact_exists, answer);
        match Self::new(token_is_a_secret, transport) {
            Ok(client) => Ok((client, state)),
            Err(error) => Err(error),
        }
    }

    /// Decrypts the token in memory. Only the sending of a request calls this.
    pub(crate) fn decrypt_token_in_memory(&self) -> (token: Result<SecretText, GitHubError>)
        ensures
            token is Ok,
            token->Ok_0@ == self.token(),
    {
        proof {
            use_type_invariant(self);
        }
        decrypt(&self.encrypted_token, &self.session_passcode)
    }

    /// Authorizes a request that is meant for `host`: decrypts the token, adds
    /// it as the last header, and lets the request pass only where its address
    /// names that host (else `UntrustedDestination`) over HTTPS (else
    /// `InsecureTransport`). Only the sending of a request calls this: what it
    /// returns holds the token.
    pub(crate) fn authorize(&self, req: OutboundRequestDescriptor, host: ApiHost) -> (request: Result<
        AuthorizedRequest,
        GitHubError,
    >)
        ensures
            match destination_fault(url_parts(req@.url), host) {
                Some(fault) => request is Err && request->Err_0 == fault,
                None => request is Ok && request->Ok_0@ == authorized(req@, self.token())
                    && request->Ok_0.destination() == host,
            },
    {
        let token = match self.decrypt_token_in_memory() {
            Ok(token) => token,
            Err(error) => {
                return Err(error);
            },
        };
        let OutboundRequestDescriptor { method, url, headers, body } = req;
        let mut headers = headers;
        let ghost before = headers@;
        headers.push(header("Authorization", join("Bearer ", token.expose_secret()).as_str()));
        proof {
            assert(header_views(headers@) =~= header_views(before).push(
                HeaderView { name: authorization_name(), value: bearer(self.token()) },
            ));
        }
        match check_destination(url.as_str(), host) {
            Some(fault) => Err(fault),
            None => Ok(AuthorizedRequest { method, url, headers, body, host }),
        }
    }

    /// Sends a request that is meant for `host`. A request to another host, or
    /// not over HTTPS, is refused before the transport sees anything; else the
    /// transport is handed the authorized request, and what it brings back is
    /// read as `interpret_reply` reads it.
    pub fn send(&self, req: OutboundRequestDescriptor, host: ApiHost) -> (result: Result<
        serde_json::Value,
        GitHubError,
    >)
        ensures
            self.sent(req@, host, result),
    {
        match self.authorize(req, host) {
            Err(fault) => Err(fault),
            Ok(request) => {
                let reply = self.transport.execute(&request);
                let ghost heard = reply_view(reply);
                let result = interpret_reply(reply);
                proof {
                    assert(self.transport().replied(authorized(req@, self.token()), host, heard));
                    assert(reads_reply(result, heard));
                }
                result
            },
        }
    }
}

impl<T: Transport> SendToGitHubApi for GitHubClient<T> {
    /// The answers of the client are what `send` returns for `api.github.com`.
    open spec fn answered(
        &self,
        req: RequestView,
        result: Result<serde_json::Value, GitHubError>,
    ) -> bool {
        self.sent(req, ApiHost::Api, result)
    }

    /// The answers of the client to an upload are what `send` returns for
    /// `uploads.github.com`.
    open spec fn uploaded(
        &self,
        req: RequestView,
        result: Result<serde_json::Value, GitHubError>,
    ) -> bool {
        self.sent(req, ApiHost::Uploads, result)
    }

    /// Sends a request that is meant for `api.github.com`.
    fn send_to_github_api(&self, req: OutboundRequestDescriptor) -> (result: Result<
        serde_json::Value,
        GitHubError,
    >) {
        self.send(req, ApiHost::Api)
    }

    /// Sends a request that is meant for `uploads.github.com`.
    fn upload_to_github(&self, req: OutboundRequestDescriptor) -> (result: Result<
        serde_json::Value,
        GitHubError,
    >) {
        self.send(req, ApiHost::Uploads)
    }
}

} // verus!
