//! Helpers for build-automation scripts that talk to the GitHub REST API
//! without handing the access token to the code that builds the requests.
//!
//! The token is kept by a [`GitHubClient`], encrypted under a key that lives
//! for one session. Code that builds requests describes them as
//! [`OutboundRequestDescriptor`]s and is given nothing but the capability
//! [`SendToGitHubApi`]; the client adds the token and sends a request only to
//! the host it is meant for, over HTTPS.

pub mod api;
pub mod cipher;
pub mod client;
pub mod destination;
pub mod error;
pub mod json;
pub mod metadata;
pub mod project;
pub mod release;
pub mod remote;
pub mod request;
pub mod secret;
pub mod text;

pub use api::github_api_create_a_github_pages_site;
pub use api::github_api_create_new_release;
pub use api::github_api_get_repository;
pub use api::github_api_replace_all_topics;
pub use api::github_api_repository_new;
pub use api::github_api_update_description;
pub use api::SendToGitHubApi;
pub use client::GitHubClient;
pub use client::Transport;
pub use error::GitHubError;
pub use metadata::description_and_topics_to_github;
pub use project::github_owner;
pub use release::auto_github_create_new_release;
pub use release::auto_github_upload_asset_to_release;
pub use release::github_api_upload_asset_to_release;
pub use remote::git_has_remote;
pub use remote::git_has_upstream;
pub use remote::new_remote_github_repository;
pub use request::OutboundRequestDescriptor;
