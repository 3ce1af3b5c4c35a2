use hookshot::ansible_task::AnsibleTask;
use hookshot::deploy_task::{
    DeployTask, cancel_message, format_duration, format_environment, logfile_path, run_outcome,
};
use hookshot::error::{CmdOutput, CommandError};
use hookshot::git::GitRepo;
use hookshot::ingress::{IngressDecision, ingress_decide, skip_signature_check};
use hookshot::message::RefType;
use hookshot::notifier::{TaskState, build_notification_body, get_notifiers};
use hookshot::repo_config::RepoConfig;
use hookshot::signature::{HashType, Signature};

fn sample_task() -> DeployTask {
    DeployTask {
        repo: GitRepo {
            owner: String::from("o"),
            name: String::from("r"),
            refstring: String::from("main"),
            reftype: RefType::branch,
            sha: String::from("abc"),
            remote_path: String::from("git@example.org:o/r.git"),
            local_path: String::from("/srv/checkouts/o.r.main"),
        },
        id: String::from("id1"),
        env: Vec::new(),
        logdir: String::from("/logs"),
        host: String::from("h:1469"),
        secret: String::from("secret"),
    }
}

#[test]
fn test_format_duration_values() {
    assert_eq!(format_duration(0), "0 seconds");
    assert_eq!(format_duration(1), "1 second");
    assert_eq!(format_duration(59), "59 seconds");
    assert_eq!(format_duration(60), "1 minute");
    assert_eq!(format_duration(61), "1 minute, 1 second");
    assert_eq!(format_duration(62), "1 minute, 2 seconds");
    assert_eq!(format_duration(125), "2 minutes, 5 seconds");
}

#[test]
fn test_format_environment_lines() {
    let env = vec![
        (String::from("a"), String::from("1")),
        (String::from("b"), String::from("2")),
    ];
    assert_eq!(format_environment(&env), "a: 1\nb: 2\n");
    assert_eq!(format_environment(&Vec::new()), "");
}

#[test]
fn test_logfile_path_shape() {
    assert_eq!(logfile_path("/logs", "id1"), "/logs/id1.log");
    assert_eq!(cancel_message(), "task cancelled");
}

#[test]
fn test_augment_env_injects_provenance() {
    let mut task = sample_task();
    task.env.push((String::from("X"), String::from("1")));
    task.augment_env();
    let expected = vec![
        ("X", "1"),
        ("hookshot_checkout_path", "/srv/checkouts/o.r.main"),
        ("git_ref", "main"),
        ("git_ref_type", "branch"),
        ("git_commit_sha", "abc"),
        ("git_repo_name", "r"),
        ("git_repo_owner", "o"),
    ];
    let got: Vec<(&str, &str)> =
        task.env.iter().map(|(k, v)| (k.as_str(), v.as_str())).collect();
    assert_eq!(got, expected);
}

#[test]
fn test_ansible_env_quoting() {
    // Every -e value arrives JSON-quoted so the shell cannot read into it.
    let ansible = AnsibleTask::new(
        String::from("playbook.yml"),
        String::from("inventory"),
        String::from("/proj"),
    );
    let env = vec![
        (String::from("X"), String::from("1")),
        (String::from("Y"), String::from("two")),
    ];
    let args: Vec<String> = ansible.command_args(&env);
    let got: Vec<&str> = args.iter().map(|a| a.as_str()).collect();
    assert_eq!(
        got,
        vec!["-e", "X=\"1\"", "-e", "Y=\"two\"", "-i", "inventory", "playbook.yml"]
    );
}

#[test]
fn test_run_outcome() {
    let ok = CmdOutput { success: true, code: Some(0), stdout: Vec::new(), stderr: Vec::new() };
    let bad = CmdOutput { success: false, code: Some(2), stdout: Vec::new(), stderr: Vec::new() };
    assert_eq!(run_outcome(&Ok(ok)), TaskState::Success);
    assert_eq!(run_outcome(&Ok(bad)), TaskState::Failed);
    let spawn_failure: Result<CmdOutput, CommandError> = Err(CommandError {
        desc: "failed to execute process, see detail",
        output: None,
        detail: Some(String::from("no such file")),
    });
    assert_eq!(run_outcome(&spawn_failure), TaskState::Failed);
}

#[test]
fn test_notification_body_wire_format() {
    let task = sample_task();
    let body = build_notification_body(&task, TaskState::Started);
    assert_eq!(
        body,
        "{\"status\":\"started\",\"failed\":false,\"task_id\":\"id1\",\
         \"task_url\":\"http://h:1469/tasks/id1\",\"owner\":\"o\",\"repo\":\"r\",\
         \"reftype\":\"branch\",\"refstring\":\"main\",\"sha\":\"abc\"}"
    );
    let failed = build_notification_body(&task, TaskState::Failed);
    assert!(failed.contains("\"status\":\"failed\""));
    assert!(failed.contains("\"failed\":true"));
}

#[test]
fn test_get_notifiers_resolves_ref() {
    let toml = r#"
        [default]
        method = "make"
        task = "build"

        [branch."main"]
        notifiers = ["http://example.org/hook"]

        [branch."*"]
    "#;
    let pending = RepoConfig::from_str(toml, "/proj").unwrap();
    let answers = vec![true; pending.checks.len()];
    let config = pending.finish(&answers).unwrap();
    let task = sample_task();
    let urls = get_notifiers(&task, &config).unwrap();
    assert_eq!(urls, &vec![String::from("http://example.org/hook")]);

    let mut other = sample_task();
    other.repo.refstring = String::from("feature");
    assert!(get_notifiers(&other, &config).is_none());
}

#[test]
fn test_skip_signature_check_reads_value() {
    assert!(skip_signature_check(Some(&String::from("true"))));
    assert!(skip_signature_check(Some(&String::from("t"))));
    assert!(skip_signature_check(Some(&String::from("1"))));
    assert!(!skip_signature_check(Some(&String::from("yes"))));
    assert!(!skip_signature_check(Some(&String::from("0"))));
    assert!(!skip_signature_check(None));
}

#[test]
fn test_signature_mismatch_scenario() {
    // POST body with a wrong sha1 signature: refused, nothing enqueued.
    let payload = r#"{"sha":"abc","repo_name":"r","refstring":"main","reftype":"branch","remote":"x"}"#;
    let header = String::from("sha1=0000000000000000000000000000000000000000");
    let decision = ingress_decide(Some(&header), None, payload, "secret", false, "/tmp");
    match decision {
        IngressDecision::Unauthorized(msg) => assert_eq!(msg, "signature doesn't match"),
        _ => panic!("expected an unauthorized decision"),
    }
}

#[test]
fn test_ingress_header_rules() {
    let payload = "{}";
    match ingress_decide(None, None, payload, "s", false, "/tmp") {
        IngressDecision::Unauthorized(msg) => assert_eq!(msg, "missing signature"),
        _ => panic!("expected an unauthorized decision"),
    }
    let h = String::from("sha1=0000000000000000000000000000000000000000");
    match ingress_decide(Some(&h), Some(&h), payload, "s", false, "/tmp") {
        IngressDecision::Unauthorized(msg) => assert_eq!(msg, "too many signatures"),
        _ => panic!("expected an unauthorized decision"),
    }
    let bad = String::from("garbage");
    match ingress_decide(Some(&bad), None, payload, "s", false, "/tmp") {
        IngressDecision::Unauthorized(msg) => assert_eq!(msg, "could not parse signature"),
        _ => panic!("expected an unauthorized decision"),
    }
}

#[test]
fn test_ingress_accepts_signed_payload() {
    let payload = r#"{"prefix":"alice","repo_name":"proj","refstring":"main","reftype":"branch","remote":"git@x:a/p.git","sha":"abc"}"#;
    let secret = "it's a secret to everyone";
    let header = Signature::create(HashType::SHA256, payload, secret).to_string();
    match ingress_decide(Some(&header), None, payload, secret, false, "/srv") {
        IngressDecision::Accept(repo) => {
            assert_eq!(repo.owner, "alice");
            assert_eq!(repo.name, "proj");
            assert_eq!(repo.local_path, "/srv/alice.proj.main");
        },
        _ => panic!("expected the request to be accepted"),
    }
}

#[test]
fn test_ingress_rejects_bad_payload() {
    match ingress_decide(None, None, "not json", "s", true, "/tmp") {
        IngressDecision::BadRequest(msg) => assert_eq!(msg, "could not parse message"),
        _ => panic!("expected a bad request decision"),
    }
}
