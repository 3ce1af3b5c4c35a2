use hookshot::webhook_message::{Error, ErrorCode, Message};

#[test]
fn test_constructor() {
    let raw_message = r#"{
      "ref": "refs/heads/test-branch",
      "after": "452e649d25993d81f107649689916df749bb3e27",
      "repository": {
        "name": "test-repo",
        "git_url": "git://github.com/test-owner/test-repo.git",
        "owner": {
          "name": "test-owner"
        }
      }
    }"#;

    let msg = Message::from_string(raw_message.to_string()).unwrap();
    assert_eq!(msg.git_url, "git://github.com/test-owner/test-repo.git");
    assert_eq!(msg.branch, Some("test-branch".to_string()));
    assert_eq!(msg.tag, None);
    assert_eq!(msg.owner, "test-owner");
    assert_eq!(msg.head_sha, "452e649d25993d81f107649689916df749bb3e27");
}

#[test]
fn test_bad_json() {
    let raw_message = r"this is not good json :(";
    match Message::from_string(raw_message.to_string()) {
        Err(Error { code: ErrorCode::InvalidJson, .. }) => assert!(true),
        _ => panic!("wrong error code"),
    }
}

#[test]
fn test_bad_ref() {
    let raw_message = r#"{
      "ref": "this is a terrible ref",
      "after": "452e649d25993d81f107649689916df749bb3e27",
      "repository": {
        "name": "test-repo",
        "git_url": "git://github.com/test-owner/test-repo.git",
        "owner": {
          "name": "test-owner"
        }
      }
    }"#;

    let msg = Message::from_string(raw_message.to_string());
    match msg {
        Err(Error { code: ErrorCode::InvalidRef, .. }) => assert!(true),
        _ => panic!("wrong error code"),
    }
}

#[test]
fn test_missing_ref() {
    let raw_message = r#"{
      "after": "452e649d25993d81f107649689916df749bb3e27",
      "repository": {
        "name": "test-repo",
        "git_url": "git://github.com/test-owner/test-repo.git",
        "owner": {
          "name": "test-owner"
        }
      }
    }"#;

    let msg = Message::from_string(raw_message.to_string());
    match msg {
        Err(Error { code: ErrorCode::MissingRef, .. }) => assert!(true),
        _ => {
            println!("{:?}", msg);
            panic!("wrong error code");
        },
    }
}

#[test]
fn test_missing_sha() {
    let raw_message = r#"{
      "ref": "refs/heads/test-branch",
      "repository": {
        "name": "test-repo",
        "git_url": "git://github.com/test-owner/test-repo.git",
        "owner": {
          "name": "test-owner"
        }
      }
    }"#;

    let msg = Message::from_string(raw_message.to_string());
    match msg {
        Err(Error { code: ErrorCode::MissingSha, .. }) => assert!(true),
        _ => {
            println!("{:?}", msg);
            panic!("wrong error code");
        },
    }
}

#[test]
fn test_bad_sha() {
    let raw_message = r#"{
      "after": [],
      "ref": "refs/heads/test-branch",
      "repository": {
        "name": "test-repo",
        "git_url": "git://github.com/test-owner/test-repo.git",
        "owner": {
          "name": "test-owner"
        }
      }
    }"#;

    let msg = Message::from_string(raw_message.to_string());
    match msg {
        Err(Error { code: ErrorCode::InvalidSha, .. }) => assert!(true),
        _ => {
            println!("{:?}", msg);
            panic!("wrong error code");
        },
    }
}

#[test]
fn test_missing_repo_name() {
    let raw_message = r#"{
      "after": "abc",
      "ref": "refs/heads/test-branch",
      "repository": {
        "git_url": "git://github.com/test-owner/test-repo.git",
        "owner": {
          "name": "test-owner"
        }
      }
    }"#;

    let msg = Message::from_string(raw_message.to_string());
    match msg {
        Err(Error { code: ErrorCode::MissingRepoName, .. }) => assert!(true),
        _ => {
            println!("{:?}", msg);
            panic!("wrong error code");
        },
    }
}

#[test]
fn test_invalid_repo_name() {
    let raw_message = r#"{
      "after": "abc",
      "ref": "refs/heads/test-branch",
      "repository": {
        "name" : [],
        "git_url": "git://github.com/test-owner/test-repo.git",
        "owner": {
          "name": "test-owner"
        }
      }
    }"#;

    let msg = Message::from_string(raw_message.to_string());
    match msg {
        Err(Error { code: ErrorCode::InvalidRepoName, .. }) => assert!(true),
        _ => {
            println!("{:?}", msg);
            panic!("wrong error code");
        },
    }
}

#[test]
fn test_missing_repo_owner() {
    let raw_message = r#"{
      "after": "abc",
      "ref": "refs/heads/test-branch",
      "repository": {
        "name": "whatever",
        "git_url": "git://github.com/test-owner/test-repo.git",
        "owner": {
        }
      }
    }"#;

    let msg = Message::from_string(raw_message.to_string());
    match msg {
        Err(Error { code: ErrorCode::MissingRepoOwner, .. }) => assert!(true),
        _ => {
            println!("{:?}", msg);
            panic!("wrong error code");
        },
    }
}

#[test]
fn test_invalid_repo_owner() {
    let raw_message = r#"{
      "after": "abc",
      "ref": "refs/heads/test-branch",
      "repository": {
        "name": "whatever",
        "git_url": "git://github.com/test-owner/test-repo.git",
        "owner": {
          "name": []
        }
      }
    }"#;

    let msg = Message::from_string(raw_message.to_string());
    match msg {
        Err(Error { code: ErrorCode::InvalidRepoOwner, .. }) => assert!(true),
        _ => {
            println!("{:?}", msg);
            panic!("wrong error code");
        },
    }
}

#[test]
fn test_missing_git_url() {
    let raw_message = r#"{
      "after": "abc",
      "ref": "refs/heads/test-branch",
      "repository": {
        "name": "whatever",
        "owner": {
          "name": "test-owner"
        }
      }
    }"#;

    let msg = Message::from_string(raw_message.to_string());
    match msg {
        Err(Error { code: ErrorCode::MissingGitUrl, .. }) => assert!(true),
        _ => {
            println!("{:?}", msg);
            panic!("wrong error code");
        },
    }
}

#[test]
fn test_invalid_git_url() {
    let raw_message = r#"{
      "after": "abc",
      "ref": "refs/heads/test-branch",
      "repository": {
        "name": "whatever",
        "git_url": [],
        "owner": {
          "name": "test-owner"
        }
      }
    }"#;

    let msg = Message::from_string(raw_message.to_string());
    match msg {
        Err(Error { code: ErrorCode::InvalidGitUrl, .. }) => assert!(true),
        _ => {
            println!("{:?}", msg);
            panic!("wrong error code");
        },
    }
}
