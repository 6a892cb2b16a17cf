//! The ways in which a credential operation or an API call can fail.

use crate::text::join;
use vstd::prelude::*;

verus! {

/// Why an operation on the credential or a call to the API failed.
#[derive(Debug, PartialEq, Eq)]
pub enum GitHubError {
    /// The operating system gave no random bytes: no session key, no nonce.
    EntropySourceUnavailable,
    /// The authentication tag did not verify, or GitHub refused the token.
    AuthenticationFailure,
    /// The request does not go to the host that this kind of call is for.
    UntrustedDestination,
    /// The request does not use HTTPS.
    InsecureTransport,
    /// An encrypted credential or a response body is not of the expected form.
    MalformedInput,
    /// Any other failure that came from upstream, with its message.
    ApiError(String),
}

/// What the operator is told of a failure. Only an `ApiError` says more than
/// a fixed text, and what it adds is the message that came from upstream.
pub open spec fn failure_text(error: GitHubError) -> Seq<char> {
    match error {
        GitHubError::EntropySourceUnavailable => "the random source of the system is unavailable"@,
        GitHubError::AuthenticationFailure => "the token is not valid"@,
        GitHubError::UntrustedDestination => "the request goes to another host than expected"@,
        GitHubError::InsecureTransport => "the request does not use https"@,
        GitHubError::MalformedInput => "the data has not the expected form"@,
        GitHubError::ApiError(message) => "GitHub API error: "@ + message@,
    }
}

impl GitHubError {
    /// What the operator is told of the failure.
    pub fn message(&self) -> (text: String)
        ensures
            text@ == failure_text(*self),
    {
        match self {
            GitHubError::EntropySourceUnavailable => "the random source of the system is unavailable".to_owned(),
            GitHubError::AuthenticationFailure => "the token is not valid".to_owned(),
            GitHubError::UntrustedDestination => "the request goes to another host than expected".to_owned(),
            GitHubError::InsecureTransport => "the request does not use https".to_owned(),
            GitHubError::MalformedInput => "the data has not the expected form".to_owned(),
            GitHubError::ApiError(message) => join("GitHub API error: ", message.as_str()),
        }
    }
}

} // verus!
