use hookshot::git::GitRepo;
use hookshot::message::RefType;

fn test_repo() -> GitRepo {
    GitRepo {
        owner: String::from("owner"),
        name: String::from("name"),
        refstring: String::from("branch"),
        reftype: RefType::branch,
        sha: String::from("HEAD"),
        remote_path: String::from("doesn't matter"),
        local_path: String::from("irrelevant"),
    }
}

#[test]
fn test_git_fully_qualified_branch() {
    let git = test_repo();
    assert_eq!(git.fully_qualified_branch(), "owner.name.branch");
}

#[test]
fn test_git_clone_args() {
    let git = test_repo();
    let expected = vec![
        "clone",
        "--depth=1",
        "--single-branch",
        "-b",
        "branch",
        "doesn't matter",
        "irrelevant",
    ];
    let args: Vec<String> = git.clone_args();
    let got: Vec<&str> = args.iter().map(|a| a.as_str()).collect();
    assert_eq!(got, expected);
}

#[test]
fn test_git_fetch_and_reset_args() {
    let git = test_repo();
    let fetch: Vec<String> = git.fetch_args();
    let fetch_got: Vec<&str> = fetch.iter().map(|a| a.as_str()).collect();
    assert_eq!(fetch_got, vec!["fetch", "--tags"]);
    let reset: Vec<String> = git.reset_args();
    let reset_got: Vec<&str> = reset.iter().map(|a| a.as_str()).collect();
    assert_eq!(reset_got, vec!["reset", "--hard", "HEAD"]);
}
