use hookshot::git::GitRepo;
use hookshot::message::{GitHubMessage, RefType, SimpleMessage};

#[test]
fn test_simple_message() {
    let json = r#"
    {
      "prefix": "brian",
      "repo_name": "stuff",
      "refstring": "v1.0.3-beta",
      "reftype": "tag",
      "remote": "the internet",
      "sha": "HEAD"
    }
    "#;

    let msg = match SimpleMessage::from_str(json) {
        Err(_) => panic!("expected to be able to decode message"),
        Ok(msg) => msg,
    };

    assert_eq!(msg.prefix, Some("brian".to_owned()));
    assert_eq!(msg.refstring, "v1.0.3-beta");
    assert_eq!(msg.reftype, RefType::tag);
    assert_eq!(msg.remote, "the internet");
    assert_eq!(msg.sha, "HEAD");
    assert_eq!(msg.repo_name, "stuff");
}

#[test]
fn test_simple_message_rejects_bad_payloads() {
    assert!(SimpleMessage::from_str("not json").is_err());
    assert!(SimpleMessage::from_str("{}").is_err());
    let missing_remote = r#"{"repo_name":"r","refstring":"b","reftype":"branch","sha":"HEAD"}"#;
    assert!(SimpleMessage::from_str(missing_remote).is_err());
    let bad_reftype =
        r#"{"repo_name":"r","refstring":"b","reftype":"twig","remote":"x","sha":"HEAD"}"#;
    assert!(SimpleMessage::from_str(bad_reftype).is_err());
}

#[test]
fn test_github_message() {
    let json = r#"{
      "ref": "refs/heads/test-branch",
      "after": "452e649d25993d81f107649689916df749bb3e27",
      "repository": {
        "name": "test-repo",
        "ssh_url": "git@github.com:test-owner/test-repo.git",
        "owner": {
          "name": "test-owner"
        }
      }
    }"#;
    let msg = GitHubMessage::from_str(json).unwrap();
    assert_eq!(msg.reftype, RefType::branch);
    assert_eq!(msg.refstring, "test-branch");
    assert_eq!(msg.repo_name, "test-repo");
    assert_eq!(msg.owner, "test-owner");
    assert_eq!(msg.git_url, "git@github.com:test-owner/test-repo.git");
    assert_eq!(msg.sha, "452e649d25993d81f107649689916df749bb3e27");
}

#[test]
fn test_github_message_errors() {
    assert_eq!(GitHubMessage::from_str("nope").unwrap_err(), "could not parse json");
    assert_eq!(GitHubMessage::from_str("{}").unwrap_err(), "missing required field `ref`");
    let bad_ref = r#"{"ref": "not-a-real-ref"}"#;
    assert_eq!(GitHubMessage::from_str(bad_ref).unwrap_err(), "could not unpack `ref`");
}

#[test]
fn test_dialect_independence() {
    // The same push, carried once in each dialect, lands on the same
    // descriptor.
    let native = r#"{
      "prefix": "alice",
      "repo_name": "proj",
      "refstring": "main",
      "reftype": "branch",
      "remote": "git@example.org:alice/proj.git",
      "sha": "abc123"
    }"#;
    let github = r#"{
      "ref": "refs/heads/main",
      "after": "abc123",
      "repository": {
        "name": "proj",
        "ssh_url": "git@example.org:alice/proj.git",
        "owner": { "name": "alice" }
      }
    }"#;
    let from_native = GitRepo::from(SimpleMessage::from_str(native).unwrap(), "/tmp/checkouts");
    let from_github = GitRepo::from(GitHubMessage::from_str(github).unwrap(), "/tmp/checkouts");
    assert_eq!(from_native.owner, from_github.owner);
    assert_eq!(from_native.name, from_github.name);
    assert_eq!(from_native.refstring, from_github.refstring);
    assert_eq!(from_native.reftype, from_github.reftype);
    assert_eq!(from_native.sha, from_github.sha);
    assert_eq!(from_native.remote_path, from_github.remote_path);
    assert_eq!(from_native.local_path, from_github.local_path);
}

#[test]
fn test_local_path_sanitized() {
    let msg = SimpleMessage {
        prefix: Some("a.b".to_owned()),
        reftype: RefType::branch,
        refstring: "feature/x\\y".to_owned(),
        remote: "remote".to_owned(),
        sha: "HEAD".to_owned(),
        repo_name: "repo/name".to_owned(),
    };
    let repo = GitRepo::from(msg, "/srv/checkouts");
    assert_eq!(repo.owner, "a!b");
    assert_eq!(repo.local_path, "/srv/checkouts/a!b.repo!name.feature!x!y");
    let component = &repo.local_path["/srv/checkouts/".len()..];
    assert!(!component.contains('/'));
    assert!(!component.contains('\\'));
}

#[test]
fn test_fully_qualified_branch_from_message() {
    let msg = SimpleMessage {
        prefix: None,
        reftype: RefType::branch,
        refstring: "main".to_owned(),
        remote: "remote".to_owned(),
        sha: "HEAD".to_owned(),
        repo_name: "proj".to_owned(),
    };
    let repo = GitRepo::from(msg, "/tmp");
    assert_eq!(repo.owner, "$");
    assert_eq!(repo.fully_qualified_branch(), "$.proj.main");
}
