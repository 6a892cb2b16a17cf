//! Where an authorized request may go: one of two hosts, over HTTPS only.

use crate::error::GitHubError;
use crate::text::str_eq;
use vstd::prelude::*;

verus! {

/// The two hosts that a request with the token may be sent to. They are never
/// interchanged: each kind of call has its own.
#[derive(Debug, Clone, Copy, PartialEq, Eq, Structural)]
pub enum ApiHost {
    /// `api.github.com`, for calls on repositories, metadata and releases.
    Api,
    /// `uploads.github.com`, for attaching a file to a release.
    Uploads,
}

/// The name of a host.
pub open spec fn host_name(host: ApiHost) -> Seq<char> {
    match host {
        ApiHost::Api => "api.github.com"@,
        ApiHost::Uploads => "uploads.github.com"@,
    }
}

/// The scheme of the encrypted transport.
pub open spec fn secure_scheme() -> Seq<char> {
    "https"@
}

/// The scheme and the host that an address names.
pub struct UrlParts {
    pub scheme: String,
    pub host: Option<String>,
}

/// The scheme and the host of an address, as characters.
pub struct UrlPartsView {
    pub scheme: Seq<char>,
    pub host: Option<Seq<char>>,
}

impl View for UrlParts {
    type V = UrlPartsView;

    open spec fn view(&self) -> UrlPartsView {
        UrlPartsView {
            scheme: self.scheme@,
            host: match self.host {
                Some(host) => Some(host@),
                None => None,
            },
        }
    }
}

/// What the `url` crate reads from an address: its scheme and its host, where
/// the address is an absolute URL.
pub uninterp spec fn url_parts(address: Seq<char>) -> Option<UrlPartsView>;

/// Calls `url::Url::parse` and, on the URL it gives, `scheme` and `host_str`.
/// Nothing comes back where the address does not parse; else what comes back
/// is `url_parts` of the address.
#[verifier::external_body]
pub(crate) fn split_url(address: &str) -> (parts: Option<UrlParts>)
    ensures
        parts is Some <==> url_parts(address@) is Some,
        parts is Some ==> parts->0@ == url_parts(address@)->0,
{
    match url::Url::parse(address) {
        Ok(parsed) => Some(
            UrlParts {
                scheme: parsed.scheme().to_owned(),
                host: parsed.host_str().map(str::to_owned),
            },
        ),
        Err(_) => None,
    }
}

/// The scheme and the host that an address names, if it is an absolute URL.
pub fn split_url_parts(address: &str) -> (parts: Option<UrlParts>)
    ensures
        parts is Some <==> url_parts(address@) is Some,
        parts is Some ==> parts->0@ == url_parts(address@)->0,
{
    split_url(address)
}

/// Why a request to what an address names may not carry the token, if it may
/// not: the host is not the expected one (or the address names none), or the
/// host is right and the scheme is not HTTPS.
pub open spec fn destination_fault(parts: Option<UrlPartsView>, host: ApiHost) -> Option<
    GitHubError,
> {
    match parts {
        None => Some(GitHubError::UntrustedDestination),
        Some(parts) => if parts.host != Some(host_name(host)) {
            Some(GitHubError::UntrustedDestination)
        } else if parts.scheme != secure_scheme() {
            Some(GitHubError::InsecureTransport)
        } else {
            None
        },
    }
}

/// Whether a request to `address` may carry the token when it is meant for
/// `host`.
pub open spec fn trusted_destination(address: Seq<char>, host: ApiHost) -> bool {
    destination_fault(url_parts(address), host) is None
}

/// The name of `host`, for comparing and for messages.
pub fn host_name_of(host: ApiHost) -> (name: &'static str)
    ensures
        name@ == host_name(host),
{
    match host {
        ApiHost::Api => "api.github.com",
        ApiHost::Uploads => "uploads.github.com",
    }
}

/// Judges the parts of an address against the host that a call is meant for.
pub fn check_parts(parts: &Option<UrlParts>, host: ApiHost) -> (fault: Option<GitHubError>)
    ensures
        fault == destination_fault(
            match *parts {
                Some(parts) => Some(parts@),
                None => None,
            },
            host,
        ),
{
    match parts {
        None => Some(GitHubError::UntrustedDestination),
        Some(parts) => {
            let host_matches = match &parts.host {
                Some(named) => str_eq(named.as_str(), host_name_of(host)),
                None => false,
            };
            if !host_matches {
                Some(GitHubError::UntrustedDestination)
            } else if !str_eq(parts.scheme.as_str(), "https") {
                Some(GitHubError::InsecureTransport)
            } else {
                None
            }
        },
    }
}

/// Judges an address against the host that a call is meant for.
pub fn check_destination(address: &str, host: ApiHost) -> (fault: Option<GitHubError>)
    ensures
        fault == destination_fault(url_parts(address@), host),
        fault is None <==> trusted_destination(address@, host),
{
    let parts = split_url_parts(address);
    check_parts(&parts, host)
}

} // verus!
