//! Keeping the description and the topics of the repository on GitHub equal to
//! the description and the keywords of the manifest.
//!
//! What was last sent is recorded in a small JSON document that the caller
//! keeps in a file, so that GitHub is asked only when the manifest has changed.

use crate::api::{
    description_request, github_api_get_repository, github_api_replace_all_topics,
    github_api_update_description, json_text_array, repository_request, text_array,
    topics_request, SendToGitHubApi,
};
use crate::error::GitHubError;
use crate::json::{
    json_insert, json_object, json_parsed, json_pretty_text, json_string, json_to_pretty_text,
    json_tree, member_text, member_texts, parse_json, text_member, texts_member, JsonTree,
};
use crate::text::{str_eq, string_views};
use vstd::prelude::*;

verus! {

/// Whether a list holds a text.
pub fn holds_text(texts: &Vec<String>, text: &str) -> (found: bool)
    ensures
        found == string_views(texts@).contains(text@),
{
    let mut at: usize = 0;
    while at < texts.len()
        invariant
            at <= texts.len(),
            forall|k: int| 0 <= k < at ==> string_views(texts@)[k] != text@,
        decreases texts.len() - at,
    {
        if str_eq(texts[at].as_str(), text) {
            proof {
                assert(string_views(texts@)[at as int] == text@);
            }
            return true;
        }
        at = at + 1;
    }
    false
}

/// Whether two lists hold the same texts in the same order.
pub fn same_texts(first: &Vec<String>, second: &Vec<String>) -> (same: bool)
    ensures
        same == (string_views(first@) == string_views(second@)),
{
    if first.len() != second.len() {
        proof {
            assert(string_views(first@).len() != string_views(second@).len());
        }
        return false;
    }
    let mut at: usize = 0;
    while at < first.len()
        invariant
            first.len() == second.len(),
            at <= first.len(),
            forall|k: int| 0 <= k < at ==> string_views(first@)[k] == string_views(second@)[k],
        decreases first.len() - at,
    {
        if !str_eq(first[at].as_str(), second[at].as_str()) {
            proof {
                assert(string_views(first@)[at as int] != string_views(second@)[at as int]);
            }
            return false;
        }
        at = at + 1;
    }
    proof {
        assert(string_views(first@) =~= string_views(second@));
    }
    true
}

/// Whether the topics on GitHub count as equal to the keywords: there are as
/// many, and each topic is among the keywords, in whatever order.
pub open spec fn topics_agree(gh_topics: Seq<Seq<char>>, keywords: Seq<Seq<char>>) -> bool {
    &&& gh_topics.len() == keywords.len()
    &&& forall|k: int| 0 <= k < gh_topics.len() ==> keywords.contains(#[trigger] gh_topics[k])
}

/// Whether the topics on GitHub count as equal to the keywords.
pub fn same_topics(gh_topics: &Vec<String>, keywords: &Vec<String>) -> (equal: bool)
    ensures
        equal == topics_agree(string_views(gh_topics@), string_views(keywords@)),
{
    if gh_topics.len() != keywords.len() {
        return false;
    }
    let mut at: usize = 0;
    while at < gh_topics.len()
        invariant
            gh_topics.len() == keywords.len(),
            at <= gh_topics.len(),
            forall|k: int|
                0 <= k < at ==> string_views(keywords@).contains(
                    #[trigger] string_views(gh_topics@)[k],
                ),
        decreases gh_topics.len() - at,
    {
        if !holds_text(keywords, gh_topics[at].as_str()) {
            proof {
                assert(!string_views(keywords@).contains(string_views(gh_topics@)[at as int]));
            }
            return false;
        }
        at = at + 1;
    }
    true
}

/// The document that records what was last sent.
pub open spec fn record_tree(description: Seq<char>, keywords: Seq<Seq<char>>) -> JsonTree {
    JsonTree::Object(
        Map::empty().insert("old_description"@, JsonTree::Text(description)).insert(
            "old_keywords"@,
            text_array(keywords),
        ),
    )
}

/// Whether a record says that this description and these keywords were the
/// last sent: it is a JSON object that holds exactly them. No record, or one
/// that cannot be read, says nothing.
pub open spec fn record_matches(
    old_metadata: Option<Seq<char>>,
    description: Seq<char>,
    keywords: Seq<Seq<char>>,
) -> bool {
    match old_metadata {
        None => false,
        Some(text) => match json_parsed(text) {
            None => false,
            Some(tree) => member_text(tree, "old_description"@) == Some(description)
                && member_texts(tree, "old_keywords"@) == Some(keywords),
        },
    }
}

/// Whether the record says that nothing has changed since the last sending.
pub fn metadata_is_current(old_metadata: Option<&str>, description: &str, keywords: &Vec<String>) -> (current:
    bool)
    ensures
        current == record_matches(
            match old_metadata {
                Some(text) => Some(text@),
                None => None,
            },
            description@,
            string_views(keywords@),
        ),
{
    match old_metadata {
        None => false,
        Some(text) => match parse_json(text) {
            Err(_) => false,
            Ok(record) => {
                let same_description = match text_member(&record, "old_description") {
                    Some(old_description) => str_eq(old_description.as_str(), description),
                    None => false,
                };
                let same_keywords = match texts_member(&record, "old_keywords") {
                    Some(old_keywords) => same_texts(&old_keywords, keywords),
                    None => false,
                };
                same_description && same_keywords
            },
        },
    }
}

/// The text of the record of what is now sent: the indented JSON of the
/// description and the keywords.
pub fn metadata_record(description: &str, keywords: &Vec<String>) -> (record: String)
    ensures
        record@ == json_pretty_text(record_tree(description@, string_views(keywords@))),
{
    let mut record = json_object();
    json_insert(&mut record, "old_description", json_string(description));
    json_insert(&mut record, "old_keywords", json_text_array(keywords));
    json_to_pretty_text(&record)
}

/// What has to be sent once GitHub has told of the repository.
#[derive(Debug, Clone, Copy, PartialEq, Eq, Structural)]
pub struct MetadataPlan {
    /// The description on GitHub is not that of the manifest.
    pub update_description: bool,
    /// The topics on GitHub do not count as equal to the keywords.
    pub replace_topics: bool,
}

/// What a response on a repository asks for, or `MalformedInput` where it
/// holds no description or no list of topics.
pub open spec fn planned(repository: JsonTree, description: Seq<char>, keywords: Seq<Seq<char>>) -> Result<
    MetadataPlan,
    GitHubError,
> {
    match (member_text(repository, "description"@), member_texts(repository, "topics"@)) {
        (Some(gh_description), Some(gh_topics)) => Ok(
            MetadataPlan {
                update_description: gh_description != description,
                replace_topics: !topics_agree(gh_topics, keywords),
            },
        ),
        _ => Err(GitHubError::MalformedInput),
    }
}

/// Decides from the response on a repository what has to be sent.
pub fn metadata_plan(repository: &serde_json::Value, description: &str, keywords: &Vec<String>) -> (plan:
    Result<MetadataPlan, GitHubError>)
    ensures
        plan == planned(json_tree(*repository), description@, string_views(keywords@)),
{
    let gh_description = match text_member(repository, "description") {
        Some(gh_description) => gh_description,
        None => {
            return Err(GitHubError::MalformedInput);
        },
    };
    let gh_topics = match texts_member(repository, "topics") {
        Some(gh_topics) => gh_topics,
        None => {
            return Err(GitHubError::MalformedInput);
        },
    };
    Ok(
        MetadataPlan {
            update_description: !str_eq(gh_description.as_str(), description),
            replace_topics: !same_topics(&gh_topics, keywords),
        },
    )
}

/// Whether `record` is what carrying out `plan` returns: the text of the new
/// record where the topics were replaced, and nothing where they were not.
pub open spec fn follows_plan(
    record: Option<String>,
    plan: MetadataPlan,
    description: Seq<char>,
    keywords: Seq<Seq<char>>,
) -> bool {
    if plan.replace_topics {
        record is Some && record->0@ == json_pretty_text(record_tree(description, keywords))
    } else {
        record is None
    }
}

/// Whether `record` is what carrying out `plan` returns when the client
/// answers the new description with `described` and the new topics with
/// `replaced`: the first failure among the calls that the plan asks for, else
/// what follows the plan.
pub open spec fn plan_outcome(
    plan: MetadataPlan,
    described: Result<serde_json::Value, GitHubError>,
    replaced: Result<serde_json::Value, GitHubError>,
    description: Seq<char>,
    keywords: Seq<Seq<char>>,
    record: Result<Option<String>, GitHubError>,
) -> bool {
    if plan.update_description && described is Err {
        record is Err && record->Err_0 == described->Err_0
    } else if plan.replace_topics && replaced is Err {
        record is Err && record->Err_0 == replaced->Err_0
    } else {
        record is Ok && follows_plan(record->Ok_0, plan, description, keywords)
    }
}

/// Whether `record` is what sending what differs returns, once GitHub has
/// answered `repository`.
///
/// A response that cannot be planned gives its failure. Else the description
/// is handed to the client where the plan asks for it, the topics are handed
/// to it where the plan asks for them and the description has not failed, and
/// the record is the outcome of the plan with the client's answers.
pub open spec fn differs_sent<C: SendToGitHubApi>(
    github_client: &C,
    repository: JsonTree,
    owner: Seq<char>,
    repo_name: Seq<char>,
    description: Seq<char>,
    keywords: Seq<Seq<char>>,
    record: Result<Option<String>, GitHubError>,
) -> bool {
    match planned(repository, description, keywords) {
        Err(error) => record is Err && record->Err_0 == error,
        Ok(plan) => exists|
            described: Result<serde_json::Value, GitHubError>,
            replaced: Result<serde_json::Value, GitHubError>,
        |
            {
                &&& plan.update_description ==> github_client.answered(
                    description_request(owner, repo_name, description),
                    described,
                )
                &&& plan.replace_topics && !(plan.update_description && described is Err)
                    ==> github_client.answered(
                    topics_request(owner, repo_name, keywords),
                    replaced,
                )
                &&& #[trigger] plan_outcome(
                    plan,
                    described,
                    replaced,
                    description,
                    keywords,
                    record,
                )
            },
    }
}

/// Sends what differs, once GitHub has told of the repository.
///
/// A response that holds no description or no list of topics is
/// `MalformedInput`, and then nothing is sent; nor is anything sent where
/// GitHub has the description and the topics of the manifest. Else the
/// description is sent if it differs, then the topics are replaced if they
/// differ, and the failure of either call ends the work. What comes back
/// otherwise is the new text of the record where the topics were replaced.
pub fn send_what_differs<C: SendToGitHubApi>(
    github_client: &C,
    repository: &serde_json::Value,
    owner: &str,
    repo_name: &str,
    description: &str,
    keywords: &Vec<String>,
) -> (record: Result<Option<String>, GitHubError>)
    ensures
        differs_sent(
            github_client,
            json_tree(*repository),
            owner@,
            repo_name@,
            description@,
            string_views(keywords@),
            record,
        ),
        planned(json_tree(*repository), description@, string_views(keywords@)) matches Ok(plan)
            && !plan.update_description && !plan.replace_topics ==> record is Ok,
{
    let plan = match metadata_plan(repository, description, keywords) {
        Ok(plan) => plan,
        Err(error) => {
            return Err(error);
        },
    };
    let ghost not_asked: Result<serde_json::Value, GitHubError> = Err(GitHubError::MalformedInput);
    let ghost mut described = not_asked;
    let ghost mut replaced = not_asked;
    if plan.update_description {
        let answer = github_client.send_to_github_api(
            github_api_update_description(owner, repo_name, description),
        );
        proof {
            described = answer;
        }
        match answer {
            Ok(_) => {},
            Err(error) => {
                let record = Err(error);
                proof {
                    assert(plan_outcome(
                        plan,
                        described,
                        replaced,
                        description@,
                        string_views(keywords@),
                        record,
                    ));
                }
                return record;
            },
        }
    }
    if plan.replace_topics {
        let answer = github_client.send_to_github_api(
            github_api_replace_all_topics(owner, repo_name, keywords),
        );
        proof {
            replaced = answer;
        }
        let record = match answer {
            Ok(_) => Ok(Some(metadata_record(description, keywords))),
            Err(error) => Err(error),
        };
        proof {
            assert(plan_outcome(
                plan,
                described,
                replaced,
                description@,
                string_views(keywords@),
                record,
            ));
        }
        return record;
    }
    let record = Ok(None);
    proof {
        assert(plan_outcome(
            plan,
            described,
            replaced,
            description@,
            string_views(keywords@),
            record,
        ));
    }
    record
}

/// A text that may be missing, as characters.
pub open spec fn record_view(old_metadata: Option<&str>) -> Option<Seq<char>> {
    match old_metadata {
        Some(text) => Some(text@),
        None => None,
    }
}

/// Whether `record` is what bringing GitHub in line with the manifest
/// returns.
///
/// Where the old record matches, nothing is asked and nothing comes back.
/// Else the repository is asked of the client: a failure comes back as it
/// is, and an answer is followed by sending what differs.
pub open spec fn in_line<C: SendToGitHubApi>(
    github_client: &C,
    owner: Seq<char>,
    repo_name: Seq<char>,
    description: Seq<char>,
    keywords: Seq<Seq<char>>,
    old_metadata: Option<Seq<char>>,
    record: Result<Option<String>, GitHubError>,
) -> bool {
    if record_matches(old_metadata, description, keywords) {
        record is Ok && record->Ok_0 is None
    } else {
        exists|read: Result<serde_json::Value, GitHubError>|
            #[trigger] github_client.answered(repository_request(owner, repo_name), read)
                && match read {
                Err(error) => record is Err && record->Err_0 == error,
                Ok(repository) => differs_sent(
                    github_client,
                    json_tree(repository),
                    owner,
                    repo_name,
                    description,
                    keywords,
                    record,
                ),
            }
    }
}

/// Brings the description and the topics on GitHub in line with the manifest.
///
/// Where the record says that nothing has changed, nothing is sent. Else the
/// repository is read, and what differs is sent as `send_what_differs` sends
/// it. What comes back is the new text of the record, for the caller to keep,
/// where the topics were replaced; any failure of a call ends the work.
pub fn description_and_topics_to_github<C: SendToGitHubApi>(
    github_client: &C,
    owner: &str,
    repo_name: &str,
    description: &str,
    keywords: &Vec<String>,
    old_metadata: Option<&str>,
) -> (record: Result<Option<String>, GitHubError>)
    ensures
        in_line(
            github_client,
            owner@,
            repo_name@,
            description@,
            string_views(keywords@),
            record_view(old_metadata),
            record,
        ),
        record is Ok && record->Ok_0 is Some ==> record->Ok_0->0@ == json_pretty_text(
            record_tree(description@, string_views(keywords@)),
        ) && !record_matches(record_view(old_metadata), description@, string_views(keywords@)),
{
    if metadata_is_current(old_metadata, description, keywords) {
        return Ok(None);
    }
    let read = github_client.send_to_github_api(github_api_get_repository(owner, repo_name));
    let ghost asked = read;
    let record = match read {
        Ok(repository) => send_what_differs(
            github_client,
            &repository,
            owner,
            repo_name,
            description,
            keywords,
        ),
        Err(error) => Err(error),
    };
    proof {
        assert(github_client.answered(repository_request(owner@, repo_name@), asked));
    }
    record
}

} // verus!
