use cargo_auto_github_lib::api::SendToGitHubApi;
use cargo_auto_github_lib::error::GitHubError;
use cargo_auto_github_lib::metadata::{
    description_and_topics_to_github, holds_text, metadata_is_current, metadata_plan,
    metadata_record, same_texts, same_topics, send_what_differs, MetadataPlan,
};
use cargo_auto_github_lib::request::{Method, OutboundRequestDescriptor, RequestBody};
use std::cell::RefCell;

fn texts(items: &[&str]) -> Vec<String> {
    items.iter().map(|item| item.to_string()).collect()
}

fn parsed(text: &str) -> serde_json::Value {
    serde_json::from_str(text).unwrap()
}

struct Scripted {
    replies: RefCell<Vec<Result<serde_json::Value, GitHubError>>>,
    sent: RefCell<Vec<OutboundRequestDescriptor>>,
}

impl Scripted {
    fn with(replies: Vec<Result<serde_json::Value, GitHubError>>) -> Scripted {
        let mut replies = replies;
        replies.reverse();
        Scripted { replies: RefCell::new(replies), sent: RefCell::new(Vec::new()) }
    }

    fn summary(&self) -> Vec<(Method, String)> {
        self.sent.borrow().iter().map(|req| (req.method, req.url.clone())).collect()
    }
}

impl SendToGitHubApi for Scripted {
    fn send_to_github_api(&self, req: OutboundRequestDescriptor) -> Result<serde_json::Value, GitHubError> {
        self.sent.borrow_mut().push(req);
        self.replies.borrow_mut().pop().unwrap()
    }

    fn upload_to_github(&self, req: OutboundRequestDescriptor) -> Result<serde_json::Value, GitHubError> {
        self.send_to_github_api(req)
    }
}

#[test]
fn holds_text_finds_only_whole_texts() {
    let list = texts(&["rust", "cli"]);
    assert!(holds_text(&list, "cli"));
    assert!(!holds_text(&list, "cl"));
    assert!(!holds_text(&Vec::new(), ""));
}

#[test]
fn same_texts_minds_the_order() {
    assert!(same_texts(&texts(&["a", "b"]), &texts(&["a", "b"])));
    assert!(!same_texts(&texts(&["a", "b"]), &texts(&["b", "a"])));
    assert!(!same_texts(&texts(&["a"]), &texts(&["a", "a"])));
    assert!(same_texts(&Vec::new(), &Vec::new()));
}

#[test]
fn same_topics_ignores_the_order() {
    assert!(same_topics(&texts(&["a", "b"]), &texts(&["b", "a"])));
    assert!(same_topics(&Vec::new(), &Vec::new()));
    assert!(!same_topics(&texts(&["a", "c"]), &texts(&["b", "a"])));
    assert!(!same_topics(&texts(&["a"]), &texts(&["a", "b"])));
}

#[test]
fn same_topics_asks_only_that_each_topic_is_a_keyword() {
    assert!(same_topics(&texts(&["a", "a"]), &texts(&["a", "b"])));
    assert!(!same_topics(&texts(&["a", "b"]), &texts(&["a", "a"])));
}

#[test]
fn record_is_indented_json() {
    assert_eq!(
        metadata_record("A tool", &texts(&["rust", "cli"])),
        "{\n  \"old_description\": \"A tool\",\n  \"old_keywords\": [\n    \"rust\",\n    \"cli\"\n  ]\n}"
    );
    assert_eq!(metadata_record("", &Vec::new()), "{\n  \"old_description\": \"\",\n  \"old_keywords\": []\n}");
}

#[test]
fn record_that_was_written_is_current() {
    let keywords = texts(&["rust", "cli"]);
    let record = metadata_record("A tool", &keywords);
    assert!(metadata_is_current(Some(&record), "A tool", &keywords));
    assert!(!metadata_is_current(Some(&record), "Another tool", &keywords));
    assert!(!metadata_is_current(Some(&record), "A tool", &texts(&["cli", "rust"])));
    assert!(!metadata_is_current(Some(&record), "A tool", &texts(&["rust"])));
}

#[test]
fn missing_or_unreadable_record_is_not_current() {
    let keywords = texts(&["rust"]);
    assert!(!metadata_is_current(None, "A tool", &keywords));
    assert!(!metadata_is_current(Some(""), "A tool", &keywords));
    assert!(!metadata_is_current(Some("not json"), "A tool", &keywords));
    assert!(!metadata_is_current(Some("{\"old_description\": \"A tool\"}"), "A tool", &keywords));
    assert!(!metadata_is_current(
        Some("{\"old_description\": \"A tool\", \"old_keywords\": [\"rust\", 1]}"),
        "A tool",
        &keywords
    ));
    assert!(!metadata_is_current(
        Some("{\"old_description\": null, \"old_keywords\": [\"rust\"]}"),
        "A tool",
        &keywords
    ));
}

#[test]
fn plan_compares_description_and_topics() {
    let repository = parsed("{\"description\": \"A tool\", \"topics\": [\"cli\", \"rust\"]}");
    assert_eq!(
        metadata_plan(&repository, "A tool", &texts(&["rust", "cli"])),
        Ok(MetadataPlan { update_description: false, replace_topics: false })
    );
    assert_eq!(
        metadata_plan(&repository, "A better tool", &texts(&["rust", "cli"])),
        Ok(MetadataPlan { update_description: true, replace_topics: false })
    );
    assert_eq!(
        metadata_plan(&repository, "A tool", &texts(&["rust"])),
        Ok(MetadataPlan { update_description: false, replace_topics: true })
    );
    assert_eq!(
        metadata_plan(&repository, "", &Vec::new()),
        Ok(MetadataPlan { update_description: true, replace_topics: true })
    );
}

#[test]
fn plan_needs_description_and_topics() {
    let keywords = texts(&["rust"]);
    for text in [
        "{\"topics\": []}",
        "{\"description\": \"x\"}",
        "{\"description\": null, \"topics\": []}",
        "{\"description\": \"x\", \"topics\": [1]}",
        "{\"description\": \"x\", \"topics\": \"rust\"}",
        "[]",
    ] {
        assert_eq!(metadata_plan(&parsed(text), "x", &keywords), Err(GitHubError::MalformedInput));
    }
}

#[test]
fn nothing_is_sent_when_the_record_is_current() {
    let keywords = texts(&["rust", "cli"]);
    let record = metadata_record("A tool", &keywords);
    let client = Scripted::with(Vec::new());
    assert_eq!(
        description_and_topics_to_github(&client, "o", "r", "A tool", &keywords, Some(&record)),
        Ok(None)
    );
    assert!(client.sent.borrow().is_empty());
}

#[test]
fn only_the_repository_is_read_when_github_agrees() {
    let keywords = texts(&["rust", "cli"]);
    let client = Scripted::with(vec![Ok(parsed("{\"description\": \"A tool\", \"topics\": [\"cli\", \"rust\"]}"))]);
    assert_eq!(description_and_topics_to_github(&client, "o", "r", "A tool", &keywords, None), Ok(None));
    assert_eq!(client.summary(), vec![(Method::Get, "https://api.github.com/repos/o/r".to_string())]);
}

#[test]
fn description_and_topics_are_sent_when_they_differ() {
    let keywords = texts(&["rust", "cli"]);
    let client = Scripted::with(vec![
        Ok(parsed("{\"description\": \"Old\", \"topics\": [\"cli\"]}")),
        Ok(parsed("{}")),
        Ok(parsed("{}")),
    ]);
    let record = description_and_topics_to_github(&client, "o", "r", "A tool", &keywords, Some("{}"));
    assert_eq!(record, Ok(Some(metadata_record("A tool", &keywords))));
    assert_eq!(
        client.summary(),
        vec![
            (Method::Get, "https://api.github.com/repos/o/r".to_string()),
            (Method::Patch, "https://api.github.com/repos/o/r".to_string()),
            (Method::Put, "https://api.github.com/repos/o/r/topics".to_string()),
        ]
    );
    let sent = client.sent.borrow();
    assert_eq!(sent[1].body, RequestBody::Text("{\"description\":\"A tool\"}".to_string()));
    assert_eq!(sent[2].body, RequestBody::Text("{\"names\":[\"rust\",\"cli\"]}".to_string()));
}

#[test]
fn record_is_kept_only_when_topics_were_replaced() {
    let keywords = texts(&["rust"]);
    let client = Scripted::with(vec![
        Ok(parsed("{\"description\": \"Old\", \"topics\": [\"rust\"]}")),
        Ok(parsed("{}")),
    ]);
    assert_eq!(description_and_topics_to_github(&client, "o", "r", "A tool", &keywords, None), Ok(None));
    assert_eq!(client.sent.borrow().len(), 2);
}

#[test]
fn failure_of_a_call_ends_the_work() {
    let keywords = texts(&["rust"]);
    let client = Scripted::with(vec![Err(GitHubError::AuthenticationFailure)]);
    assert_eq!(
        description_and_topics_to_github(&client, "o", "r", "A tool", &keywords, None),
        Err(GitHubError::AuthenticationFailure)
    );
    let client = Scripted::with(vec![
        Ok(parsed("{\"description\": \"Old\", \"topics\": []}")),
        Err(GitHubError::ApiError("down".to_string())),
    ]);
    assert_eq!(
        description_and_topics_to_github(&client, "o", "r", "A tool", &keywords, None),
        Err(GitHubError::ApiError("down".to_string()))
    );
    assert_eq!(client.sent.borrow().len(), 2);
    let client = Scripted::with(vec![Ok(parsed("{\"message\": \"Not Found\"}"))]);
    assert_eq!(
        description_and_topics_to_github(&client, "o", "r", "A tool", &keywords, None),
        Err(GitHubError::MalformedInput)
    );
}

#[test]
fn nothing_is_sent_when_github_agrees() {
    let keywords = texts(&["rust", "cli"]);
    let client = Scripted::with(Vec::new());
    let repository = parsed("{\"description\": \"A tool\", \"topics\": [\"cli\", \"rust\"]}");
    assert_eq!(send_what_differs(&client, &repository, "o", "r", "A tool", &keywords), Ok(None));
    assert!(client.sent.borrow().is_empty());
}

#[test]
fn nothing_is_sent_for_a_response_that_cannot_be_read() {
    let keywords = texts(&["rust"]);
    let client = Scripted::with(Vec::new());
    for text in ["{\"message\": \"Not Found\"}", "{\"description\": null, \"topics\": []}", "7"] {
        assert_eq!(
            send_what_differs(&client, &parsed(text), "o", "r", "A tool", &keywords),
            Err(GitHubError::MalformedInput)
        );
    }
    assert!(client.sent.borrow().is_empty());
}

#[test]
fn only_the_description_is_sent_when_the_topics_agree() {
    let keywords = texts(&["rust"]);
    let client = Scripted::with(vec![Ok(parsed("{}"))]);
    let repository = parsed("{\"description\": \"Old\", \"topics\": [\"rust\"]}");
    assert_eq!(send_what_differs(&client, &repository, "o", "r", "A tool", &keywords), Ok(None));
    assert_eq!(client.summary(), vec![(Method::Patch, "https://api.github.com/repos/o/r".to_string())]);
}

#[test]
fn replaced_topics_give_the_new_record() {
    let keywords = texts(&["rust", "cli"]);
    let client = Scripted::with(vec![Ok(parsed("{}"))]);
    let repository = parsed("{\"description\": \"A tool\", \"topics\": []}");
    assert_eq!(
        send_what_differs(&client, &repository, "o", "r", "A tool", &keywords),
        Ok(Some(metadata_record("A tool", &keywords)))
    );
    assert_eq!(client.summary(), vec![(Method::Put, "https://api.github.com/repos/o/r/topics".to_string())]);
}

#[test]
fn failed_replacement_gives_no_record() {
    let keywords = texts(&["rust"]);
    let client = Scripted::with(vec![Ok(parsed("{}")), Err(GitHubError::ApiError("down".to_string()))]);
    let repository = parsed("{\"description\": \"Old\", \"topics\": []}");
    assert_eq!(
        send_what_differs(&client, &repository, "o", "r", "A tool", &keywords),
        Err(GitHubError::ApiError("down".to_string()))
    );
    assert_eq!(client.sent.borrow().len(), 2);
}
