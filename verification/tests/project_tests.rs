use cargo_auto_github_lib::project::github_owner;

#[test]
fn github_owner_of_https_address() {
    assert_eq!(github_owner(Some("https://github.com/bestia-dev/cargo_auto_github_lib")), "bestia-dev");
}

#[test]
fn github_owner_without_repository() {
    assert_eq!(github_owner(None), "");
}

#[test]
fn github_owner_passes_over_repeated_prefix() {
    assert_eq!(github_owner(Some("https://https://github.com/owner")), "owner");
}

#[test]
fn github_owner_without_prefix() {
    assert_eq!(github_owner(Some("github.com/someone/project/")), "someone");
}

#[test]
fn github_owner_may_be_empty() {
    assert_eq!(github_owner(Some("github.com//project")), "");
}
