//! Giving a project that has none a remote repository on GitHub.
//!
//! The work alternates between questions to git and to the operator, calls to
//! GitHub, and decisions. The decisions are here, as one step from where the
//! work stands and what has just been learnt to where it stands next and what
//! to do now; the caller does what the step says and comes back with the
//! answer.

use crate::api::{
    github_api_create_a_github_pages_site, github_api_repository_new, pages_request,
    repository_new_request,
};
use crate::json::{
    json_as_array, json_get, json_text, json_to_text, json_tree, json_trees, member, member_text,
    text_member, JsonTree,
};
use crate::request::{OutboundRequestDescriptor, RequestView};
use crate::text::{
    chars_of, find_char, is_yes, lemma_first_index, means_yes, str_eq, string_views,
};
use vstd::prelude::*;

verus! {

/// Whether the project has a remote, judged by what `git remote` printed: it
/// printed something.
pub fn git_has_remote(remotes: &str) -> (has_remote: bool)
    ensures
        has_remote == (remotes@.len() > 0),
{
    proof {
        reveal_strlit("");
        assert(remotes@.len() == 0 ==> remotes@ =~= ""@);
    }
    !str_eq(remotes, "")
}

/// Whether the branch has an upstream, judged by what `git branch -vv`
/// printed: it shows one between square brackets.
pub fn git_has_upstream(branches: &str) -> (has_upstream: bool)
    ensures
        has_upstream == branches@.contains('['),
{
    let chars = chars_of(branches);
    let at = find_char(&chars, 0, '[');
    proof {
        assert(chars@.skip(0) =~= chars@);
        lemma_first_index(chars@, '[');
    }
    at < chars.len()
}

/// What the manifest of the project says.
pub struct Project {
    pub github_owner: Option<String>,
    pub name: String,
    pub description: Option<String>,
}

/// The manifest values as characters.
pub struct ProjectView {
    pub github_owner: Option<Seq<char>>,
    pub name: Seq<char>,
    pub description: Option<Seq<char>>,
}

/// A string that may be missing, as characters.
pub open spec fn text_view(text: Option<String>) -> Option<Seq<char>> {
    match text {
        Some(text) => Some(text@),
        None => None,
    }
}

impl View for Project {
    type V = ProjectView;

    open spec fn view(&self) -> ProjectView {
        ProjectView {
            github_owner: text_view(self.github_owner),
            name: self.name@,
            description: text_view(self.description),
        }
    }
}

/// Where the work stands: what the caller has been told to do and has not
/// answered yet.
#[derive(Debug, Clone, Copy, PartialEq, Eq, Structural)]
pub enum RemoteStep {
    /// Nothing has been done.
    Start,
    /// Git is asked whether the project has a remote.
    CheckingRemote,
    /// The operator is asked whether to create the repository.
    Asking,
    /// GitHub is asked to create the repository.
    Creating,
    /// The new repository is added as the remote `origin`.
    AddingRemote,
    /// Git is asked whether the branch has an upstream.
    CheckingUpstream,
    /// The branch is pushed.
    Pushing,
    /// GitHub is asked to create the site.
    CreatingPages,
    /// The work has ended.
    Finished,
}

/// What the caller has just learnt.
pub enum RemoteEvent {
    /// The work begins.
    Begin,
    /// Whether the project has a remote.
    HasRemote(bool),
    /// What the operator answered.
    Answer(String),
    /// What GitHub answered.
    Response(serde_json::Value),
    /// The command has run.
    CommandDone,
    /// Whether the branch has an upstream.
    HasUpstream(bool),
}

/// An event as plain values.
pub enum RemoteEventView {
    Begin,
    HasRemote(bool),
    Answer(Seq<char>),
    Response(JsonTree),
    CommandDone,
    HasUpstream(bool),
}

impl View for RemoteEvent {
    type V = RemoteEventView;

    open spec fn view(&self) -> RemoteEventView {
        match self {
            RemoteEvent::Begin => RemoteEventView::Begin,
            RemoteEvent::HasRemote(has) => RemoteEventView::HasRemote(*has),
            RemoteEvent::Answer(answer) => RemoteEventView::Answer(answer@),
            RemoteEvent::Response(response) => RemoteEventView::Response(json_tree(*response)),
            RemoteEvent::CommandDone => RemoteEventView::CommandDone,
            RemoteEvent::HasUpstream(has) => RemoteEventView::HasUpstream(*has),
        }
    }
}

/// Why the work ended without a remote.
#[derive(Debug, PartialEq, Eq)]
pub enum RemoteFailure {
    /// The manifest names no repository owner.
    MissingOwner,
    /// The manifest still holds the placeholder `github_owner`.
    PlaceholderOwner,
    /// The manifest holds no description.
    MissingDescription,
    /// GitHub refused to create the repository, with these messages.
    Refused(Vec<String>),
    /// GitHub's answer lacks the name, the description or the address.
    UnreadableResponse,
    /// The event does not answer what the caller was told to do.
    UnexpectedEvent,
}

/// A failure as plain values.
pub enum RemoteFailureView {
    MissingOwner,
    PlaceholderOwner,
    MissingDescription,
    Refused(Seq<Seq<char>>),
    UnreadableResponse,
    UnexpectedEvent,
}

impl View for RemoteFailure {
    type V = RemoteFailureView;

    open spec fn view(&self) -> RemoteFailureView {
        match self {
            RemoteFailure::MissingOwner => RemoteFailureView::MissingOwner,
            RemoteFailure::PlaceholderOwner => RemoteFailureView::PlaceholderOwner,
            RemoteFailure::MissingDescription => RemoteFailureView::MissingDescription,
            RemoteFailure::Refused(lines) => RemoteFailureView::Refused(string_views(lines@)),
            RemoteFailure::UnreadableResponse => RemoteFailureView::UnreadableResponse,
            RemoteFailure::UnexpectedEvent => RemoteFailureView::UnexpectedEvent,
        }
    }
}

/// The repository that GitHub has created.
#[derive(Debug, PartialEq, Eq)]
pub struct CreatedRepository {
    pub name: String,
    pub description: String,
    pub html_url: String,
}

/// A created repository as characters.
pub struct CreatedRepositoryView {
    pub name: Seq<char>,
    pub description: Seq<char>,
    pub html_url: Seq<char>,
}

impl View for CreatedRepository {
    type V = CreatedRepositoryView;

    open spec fn view(&self) -> CreatedRepositoryView {
        CreatedRepositoryView {
            name: self.name@,
            description: self.description@,
            html_url: self.html_url@,
        }
    }
}

/// What the caller is to do now.
#[derive(Debug, PartialEq, Eq)]
pub enum RemoteAction {
    /// Ask git whether the project has a remote; answer with `HasRemote`.
    CheckRemote,
    /// Ask the operator whether to create a repository; answer with `Answer`.
    Ask,
    /// Send the request through the client; answer with `Response`.
    Send(OutboundRequestDescriptor),
    /// Tell the operator of the new repository and add it as the remote
    /// `origin`; answer with `CommandDone`.
    AddRemote(CreatedRepository),
    /// Ask git whether the branch has an upstream; answer with `HasUpstream`.
    CheckUpstream,
    /// Push the branch and set its upstream; answer with `CommandDone`.
    Push,
    /// Stop: the operator declined.
    Decline,
    /// Stop: the project has its remote.
    Complete,
    /// Stop: the work cannot go on.
    Fail(RemoteFailure),
}

/// An action as plain values.
pub enum RemoteActionView {
    CheckRemote,
    Ask,
    Send(RequestView),
    AddRemote(CreatedRepositoryView),
    CheckUpstream,
    Push,
    Decline,
    Complete,
    Fail(RemoteFailureView),
}

impl View for RemoteAction {
    type V = RemoteActionView;

    open spec fn view(&self) -> RemoteActionView {
        match self {
            RemoteAction::CheckRemote => RemoteActionView::CheckRemote,
            RemoteAction::Ask => RemoteActionView::Ask,
            RemoteAction::Send(req) => RemoteActionView::Send(req@),
            RemoteAction::AddRemote(created) => RemoteActionView::AddRemote(created@),
            RemoteAction::CheckUpstream => RemoteActionView::CheckUpstream,
            RemoteAction::Push => RemoteActionView::Push,
            RemoteAction::Decline => RemoteActionView::Decline,
            RemoteAction::Complete => RemoteActionView::Complete,
            RemoteAction::Fail(failure) => RemoteActionView::Fail(failure@),
        }
    }
}

/// The placeholder that a new manifest holds in place of the owner.
pub open spec fn owner_placeholder() -> Seq<char> {
    "github_owner"@
}

/// The messages of the items of GitHub's list of errors, each as GitHub wrote
/// it; an item without a message gives none.
pub open spec fn error_lines(errors: Seq<JsonTree>) -> Seq<Seq<char>>
    decreases errors.len(),
{
    if errors.len() == 0 {
        Seq::empty()
    } else {
        let before = error_lines(errors.drop_last());
        match member(errors.last(), "message"@) {
            Some(message) => before.push(json_text(message)),
            None => before,
        }
    }
}

/// The messages by which a response refuses, if it does: its own message,
/// then those of its list of errors.
pub open spec fn refusal_lines(response: JsonTree) -> Option<Seq<Seq<char>>> {
    match member(response, "message"@) {
        None => None,
        Some(message) => Some(
            seq![json_text(message)] + (match member(response, "errors"@) {
                Some(JsonTree::Array(errors)) => error_lines(errors),
                _ => Seq::empty(),
            }),
        ),
    }
}

/// The repository that a response tells of, if it names one with its
/// description and its address.
pub open spec fn created_repository(response: JsonTree) -> Option<CreatedRepositoryView> {
    match (
        member_text(response, "name"@),
        member_text(response, "description"@),
        member_text(response, "html_url"@),
    ) {
        (Some(name), Some(description), Some(html_url)) => Some(
            CreatedRepositoryView { name, description, html_url },
        ),
        _ => None,
    }
}

/// The step that ends the work with `action`.
pub open spec fn ending(action: RemoteActionView) -> (RemoteStep, RemoteActionView) {
    (RemoteStep::Finished, action)
}

/// The step of the work: from where it stands and what was learnt to where it
/// stands next and what to do now.
pub open spec fn remote_step(project: ProjectView, step: RemoteStep, event: RemoteEventView) -> (
    RemoteStep,
    RemoteActionView,
) {
    match project.github_owner {
        None => ending(RemoteActionView::Fail(RemoteFailureView::MissingOwner)),
        Some(owner) => if owner == owner_placeholder() {
            ending(RemoteActionView::Fail(RemoteFailureView::PlaceholderOwner))
        } else {
            match (step, event) {
                (RemoteStep::Start, RemoteEventView::Begin) => (
                    RemoteStep::CheckingRemote,
                    RemoteActionView::CheckRemote,
                ),
                (RemoteStep::CheckingRemote, RemoteEventView::HasRemote(has_remote)) => if has_remote {
                    (RemoteStep::CheckingUpstream, RemoteActionView::CheckUpstream)
                } else if project.description is None {
                    ending(RemoteActionView::Fail(RemoteFailureView::MissingDescription))
                } else {
                    (RemoteStep::Asking, RemoteActionView::Ask)
                },
                (RemoteStep::Asking, RemoteEventView::Answer(answer)) => if !means_yes(answer) {
                    ending(RemoteActionView::Decline)
                } else {
                    match project.description {
                        None => ending(
                            RemoteActionView::Fail(RemoteFailureView::MissingDescription),
                        ),
                        Some(description) => (
                            RemoteStep::Creating,
                            RemoteActionView::Send(
                                repository_new_request(owner, project.name, description),
                            ),
                        ),
                    }
                },
                (RemoteStep::Creating, RemoteEventView::Response(response)) => match refusal_lines(
                    response,
                ) {
                    Some(lines) => ending(
                        RemoteActionView::Fail(RemoteFailureView::Refused(lines)),
                    ),
                    None => match created_repository(response) {
                        Some(created) => (
                            RemoteStep::AddingRemote,
                            RemoteActionView::AddRemote(created),
                        ),
                        None => ending(
                            RemoteActionView::Fail(RemoteFailureView::UnreadableResponse),
                        ),
                    },
                },
                (RemoteStep::AddingRemote, RemoteEventView::CommandDone) => (
                    RemoteStep::CheckingUpstream,
                    RemoteActionView::CheckUpstream,
                ),
                (RemoteStep::CheckingUpstream, RemoteEventView::HasUpstream(has_upstream)) => if has_upstream {
                    ending(RemoteActionView::Complete)
                } else {
                    (RemoteStep::Pushing, RemoteActionView::Push)
                },
                (RemoteStep::Pushing, RemoteEventView::CommandDone) => (
                    RemoteStep::CreatingPages,
                    RemoteActionView::Send(pages_request(owner, project.name)),
                ),
                (RemoteStep::CreatingPages, RemoteEventView::Response(_)) => ending(
                    RemoteActionView::Complete,
                ),
                _ => ending(RemoteActionView::Fail(RemoteFailureView::UnexpectedEvent)),
            }
        },
    }
}

/// Whether an action ends the work.
pub open spec fn stops(action: RemoteActionView) -> bool {
    action is Decline || action is Complete || action is Fail
}

/// The work is finished exactly when the action is one that ends it.
pub proof fn lemma_finished_when_stopped(project: ProjectView, step: RemoteStep, event: RemoteEventView)
    ensures
        (remote_step(project, step, event).0 == RemoteStep::Finished) == stops(
            remote_step(project, step, event).1,
        ),
{
}

/// A request goes to GitHub only at two places: to create the repository,
/// after the operator has answered yes, and to create the site, after the
/// branch was pushed.
pub proof fn lemma_requests_need_consent_or_push(
    project: ProjectView,
    step: RemoteStep,
    event: RemoteEventView,
)
    requires
        remote_step(project, step, event).1 is Send,
    ensures
        project.github_owner is Some,
        (step == RemoteStep::Asking && event is Answer && means_yes(event->Answer_0)
            && project.description is Some && remote_step(project, step, event)
            == (
            RemoteStep::Creating,
            RemoteActionView::Send(
                repository_new_request(
                    project.github_owner->0,
                    project.name,
                    project.description->0,
                ),
            ),
        )) || (step == RemoteStep::Pushing && event is CommandDone && remote_step(
            project,
            step,
            event,
        ) == (
            RemoteStep::CreatingPages,
            RemoteActionView::Send(pages_request(project.github_owner->0, project.name)),
        )),
{
}

/// The messages of the items of GitHub's list of errors.
pub fn error_messages(errors: &Vec<serde_json::Value>) -> (lines: Vec<String>)
    ensures
        string_views(lines@) == error_lines(json_trees(errors@)),
{
    let mut lines: Vec<String> = Vec::new();
    let mut at: usize = 0;
    proof {
        assert(json_trees(errors@).take(0) =~= Seq::empty());
        assert(string_views(lines@) =~= Seq::empty());
    }
    while at < errors.len()
        invariant
            at <= errors.len(),
            string_views(lines@) == error_lines(json_trees(errors@).take(at as int)),
        decreases errors.len() - at,
    {
        let ghost before = string_views(lines@);
        proof {
            let upto = json_trees(errors@).take(at + 1);
            assert(upto.drop_last() =~= json_trees(errors@).take(at as int));
            assert(upto.last() == json_tree(errors@[at as int]));
        }
        match json_get(&errors[at], "message") {
            Some(message) => {
                lines.push(json_to_text(message));
                proof {
                    assert(string_views(lines@) =~= before.push(json_text(json_tree(*message))));
                }
            },
            None => {},
        }
        at = at + 1;
    }
    proof {
        assert(json_trees(errors@).take(at as int) =~= json_trees(errors@));
    }
    lines
}

/// The messages by which a response refuses, if it does.
pub fn refusal(response: &serde_json::Value) -> (lines: Option<Vec<String>>)
    ensures
        text_lines_view(lines) == refusal_lines(json_tree(*response)),
{
    match json_get(response, "message") {
        None => None,
        Some(message) => {
            let mut lines: Vec<String> = Vec::new();
            lines.push(json_to_text(message));
            let mut more = match json_get(response, "errors") {
                Some(errors) => match json_as_array(errors) {
                    Some(errors) => error_messages(errors),
                    None => Vec::new(),
                },
                None => Vec::new(),
            };
            let ghost first = string_views(lines@);
            let ghost rest = string_views(more@);
            lines.append(&mut more);
            proof {
                assert(first =~= seq![json_text(json_tree(*message))]);
                assert(string_views(lines@) =~= first + rest);
            }
            Some(lines)
        },
    }
}

/// Lines that may be missing, as characters.
pub open spec fn text_lines_view(lines: Option<Vec<String>>) -> Option<Seq<Seq<char>>> {
    match lines {
        Some(lines) => Some(string_views(lines@)),
        None => None,
    }
}

/// A created repository that may be missing, as characters.
pub open spec fn created_view(created: Option<CreatedRepository>) -> Option<CreatedRepositoryView> {
    match created {
        Some(created) => Some(created@),
        None => None,
    }
}

/// The repository that a response tells of.
pub fn created(response: &serde_json::Value) -> (repository: Option<CreatedRepository>)
    ensures
        created_view(repository) == created_repository(json_tree(*response)),
{
    let name = text_member(response, "name");
    let description = text_member(response, "description");
    let html_url = text_member(response, "html_url");
    match (name, description, html_url) {
        (Some(name), Some(description), Some(html_url)) => Some(
            CreatedRepository { name, description, html_url },
        ),
        _ => None,
    }
}

/// One step of giving the project a remote repository on GitHub.
///
/// The caller begins with `Start` and `Begin`, does what the action says,
/// and calls again with the step that came back and the answer, until the
/// step is `Finished`. A repository is created only after the operator has
/// answered yes; the site is created only after the branch was pushed.
pub fn new_remote_github_repository(project: &Project, step: RemoteStep, event: RemoteEvent) -> (next:
    (RemoteStep, RemoteAction))
    ensures
        (next.0, next.1@) == remote_step(project@, step, event@),
{
    let owner = match &project.github_owner {
        None => {
            return (RemoteStep::Finished, RemoteAction::Fail(RemoteFailure::MissingOwner));
        },
        Some(owner) => owner,
    };
    if str_eq(owner.as_str(), "github_owner") {
        return (RemoteStep::Finished, RemoteAction::Fail(RemoteFailure::PlaceholderOwner));
    }
    match (step, event) {
        (RemoteStep::Start, RemoteEvent::Begin) => (
            RemoteStep::CheckingRemote,
            RemoteAction::CheckRemote,
        ),
        (RemoteStep::CheckingRemote, RemoteEvent::HasRemote(has_remote)) => {
            if has_remote {
                (RemoteStep::CheckingUpstream, RemoteAction::CheckUpstream)
            } else if project.description.is_none() {
                (RemoteStep::Finished, RemoteAction::Fail(RemoteFailure::MissingDescription))
            } else {
                (RemoteStep::Asking, RemoteAction::Ask)
            }
        },
        (RemoteStep::Asking, RemoteEvent::Answer(answer)) => {
            if !is_yes(answer.as_str()) {
                (RemoteStep::Finished, RemoteAction::Decline)
            } else {
                match &project.description {
                    None => (
                        RemoteStep::Finished,
                        RemoteAction::Fail(RemoteFailure::MissingDescription),
                    ),
                    Some(description) => (
                        RemoteStep::Creating,
                        RemoteAction::Send(
                            github_api_repository_new(
                                owner.as_str(),
                                project.name.as_str(),
                                description.as_str(),
                            ),
                        ),
                    ),
                }
            }
        },
        (RemoteStep::Creating, RemoteEvent::Response(response)) => {
            match refusal(&response) {
                Some(lines) => (
                    RemoteStep::Finished,
                    RemoteAction::Fail(RemoteFailure::Refused(lines)),
                ),
                None => match created(&response) {
                    Some(repository) => (
                        RemoteStep::AddingRemote,
                        RemoteAction::AddRemote(repository),
                    ),
                    None => (
                        RemoteStep::Finished,
                        RemoteAction::Fail(RemoteFailure::UnreadableResponse),
                    ),
                },
            }
        },
        (RemoteStep::AddingRemote, RemoteEvent::CommandDone) => (
            RemoteStep::CheckingUpstream,
            RemoteAction::CheckUpstream,
        ),
        (RemoteStep::CheckingUpstream, RemoteEvent::HasUpstream(has_upstream)) => {
            if has_upstream {
                (RemoteStep::Finished, RemoteAction::Complete)
            } else {
                (RemoteStep::Pushing, RemoteAction::Push)
            }
        },
        (RemoteStep::Pushing, RemoteEvent::CommandDone) => (
            RemoteStep::CreatingPages,
            RemoteAction::Send(
                github_api_create_a_github_pages_site(owner.as_str(), project.name.as_str()),
            ),
        ),
        (RemoteStep::CreatingPages, RemoteEvent::Response(_)) => (
            RemoteStep::Finished,
            RemoteAction::Complete,
        ),
        _ => (RemoteStep::Finished, RemoteAction::Fail(RemoteFailure::UnexpectedEvent)),
    }
}

} // verus!
