use hookshot::make_task::MakeTask;
use hookshot::repo_config::{Config, DeployMethod, Error, RepoConfig, sort_by_specificity};

fn branch_config_pattern(pattern: &'static str) -> Config {
    Config {
        pattern: String::from(pattern),
        method: DeployMethod::Makefile,
        make_task: None,
        ansible_task: None,
        notifiers: None,
    }
}

#[test]
fn test_branch_sorting() {
    let branches = vec![
        branch_config_pattern("branch-one"),
        branch_config_pattern("*"),
        branch_config_pattern("*-one-*"),
        branch_config_pattern("branch-one-two"),
        branch_config_pattern("branch-*"),
        branch_config_pattern("branch*"),
    ];

    let branches = sort_by_specificity(branches);

    let patterns: Vec<&str> = branches.iter().map(|b| b.pattern.as_str()).collect();

    let expected_patterns = vec![
        "branch-one",
        "branch-one-two",
        "branch-*",
        "branch*",
        "*-one-*",
        "*",
    ];

    assert_eq!(expected_patterns, patterns);
}

#[test]
fn test_valid_configuration() {
    let toml = r#"
        [default]
        method = "ansible"
        playbook = "ansible/deploy.yml"

        [branch.production]
        playbook = "ansible/production.yml"
        inventory = "ansible/inventory/production"

        [branch.staging]
        inventory = "ansible/inventory/staging"
        notifiers = ["http://example.org"]

        [branch.brian-test-branch]
        method = "makefile"
        task = "deploy"
    "#;
    let pending = RepoConfig::from_str(toml, "./src/test/repo_config").unwrap();
    let answers = vec![true; pending.checks.len()];
    let config = pending.finish(&answers).unwrap();

    // production config
    {
        let config = config.lookup_branch("production").unwrap();
        let ansible_task = config.ansible_task().unwrap();
        assert_eq!(ansible_task.playbook, "ansible/production.yml");
        assert_eq!(ansible_task.inventory, "ansible/inventory/production");
        assert_eq!(config.method, DeployMethod::Ansible);
        assert!(config.make_task.is_none());
        assert!(config.notifiers.is_none());
    }
    // staging config
    {
        let config = config.lookup_branch("staging").unwrap();
        let notifiers = config.notifiers.clone().unwrap();
        let ansible_task = config.ansible_task().unwrap();
        assert_eq!(ansible_task.inventory, "ansible/inventory/staging");
        assert_eq!(ansible_task.playbook, "ansible/deploy.yml");
        assert_eq!(config.method, DeployMethod::Ansible);
        assert!(config.make_task.is_none());
        assert_eq!(notifiers, vec!["http://example.org".to_string()]);
    }
    // brian-test-branch config
    {
        let config = config.lookup_branch("brian-test-branch").unwrap();
        let method = config.method;
        assert!(config.ansible_task.is_none());
        assert_eq!(method.to_string(), "makefile");
        assert!(config.notifiers.is_none());
    }
}

#[test]
fn test_lookup_branch() {
    let toml = r#"
        [default]
        method = "make"

        [branch."*"]
        task = "build"

        [branch."prod-*"]
        task = "build"

        [branch."*-web-*"]
        task = "build"

        [branch.prod-web]
        task = "build"
    "#;
    let pending = match RepoConfig::from_str(toml, "./src/test/repo_config") {
        Err(error) => {
            println!("{}", error.description());
            panic!("should be a valid config");
        },
        Ok(pending) => pending,
    };
    let answers = vec![true; pending.checks.len()];
    let config = pending.finish(&answers).unwrap();

    assert_eq!("prod-web", config.lookup_branch("prod-web").unwrap().pattern);
    assert_eq!("prod-*", config.lookup_branch("prod-db").unwrap().pattern);
    assert_eq!("prod-*", config.lookup_branch("prod-cats").unwrap().pattern);
    assert_eq!("*-web-*", config.lookup_branch("spider-web-lol").unwrap().pattern);
    assert_eq!("*", config.lookup_branch("catch all branch").unwrap().pattern);
}

#[test]
fn test_lookup_tag() {
    let toml = r#"
        [default]
        method = "make"

        [tag."*"]
        task = "build"

        [tag."*-beta"]
        task = "build"

        [tag."v1*"]
        task = "build"

        [tag."v2*"]
        task = "build"
    "#;
    let pending = match RepoConfig::from_str(toml, "./src/test/repo_config") {
        Err(error) => {
            println!("{}", error.description());
            panic!("should be a valid config");
        },
        Ok(pending) => pending,
    };
    let answers = vec![true; pending.checks.len()];
    let config = pending.finish(&answers).unwrap();

    assert_eq!("*-beta", config.lookup_tag("next-beta").unwrap().pattern);
    assert_eq!("*", config.lookup_tag("v3.1.2").unwrap().pattern);
    assert_eq!("v2*", config.lookup_tag("v2.1.5").unwrap().pattern);
    assert_eq!("v1*", config.lookup_tag("v1.4.5").unwrap().pattern);
    assert_eq!("*", config.lookup_tag("v901.4.5").unwrap().pattern);
}

#[test]
fn test_pattern_priority_scenario() {
    let toml = r#"
        [default]
        method = "make"
        task = "build"

        [branch."prod-web"]

        [branch."prod-*"]

        [branch."*"]
    "#;
    let pending = RepoConfig::from_str(toml, "/proj").unwrap();
    let answers = vec![true; pending.checks.len()];
    let config = pending.finish(&answers).unwrap();
    assert_eq!("prod-web", config.lookup_branch("prod-web").unwrap().pattern);
    assert_eq!("prod-*", config.lookup_branch("prod-db").unwrap().pattern);
    assert_eq!("*", config.lookup_branch("feature-x").unwrap().pattern);
}

#[test]
fn test_make_happy_path_resolution() {
    // `[default] method = "make"` with an `echo` target on master.
    let toml = r#"
        [default]
        method = "make"

        [branch."master"]
        task = "echo"
    "#;
    let pending = RepoConfig::from_str(toml, "/proj").unwrap();
    let answers = vec![true; pending.checks.len()];
    let config = pending.finish(&answers).unwrap();
    let entry = config.lookup_branch("master").unwrap();
    assert_eq!(entry.method, DeployMethod::Makefile);
    let task = entry.make_task().unwrap();
    assert_eq!(task.to_string(), "echo");
    assert_eq!(task.path, "/proj");
    assert_eq!(task.command_args(), vec!["echo".to_string()]);
    assert!(config.lookup_tag("master").is_none());
}

#[test]
fn test_parse_errors() {
    assert_eq!(RepoConfig::from_str("not toml [", "/p").unwrap_err(), Error::Parse);
    assert_eq!(RepoConfig::from_str("", "/p").unwrap_err(), Error::MissingConfiguration);
    assert_eq!(
        RepoConfig::from_str("[default]\nmethod = 5\n[branch.x]\n", "/p").unwrap_err(),
        Error::InvalidDefaultMethod
    );
    assert_eq!(
        RepoConfig::from_str("[branch.x]\nmethod = \"bogus\"\n", "/p").unwrap_err(),
        Error::InvalidMethod("x".to_string())
    );
    assert_eq!(
        RepoConfig::from_str("[branch.x]\ntask = \"build\"\n", "/p").unwrap_err(),
        Error::MissingMethod("x".to_string())
    );
    assert_eq!(
        RepoConfig::from_str("[branch.x]\nmethod = \"ansible\"\n", "/p").unwrap_err(),
        Error::InvalidAnsibleConfig
    );
    assert_eq!(
        RepoConfig::from_str("branch = 5\n", "/p").unwrap_err(),
        Error::InvalidConfigGroup
    );
    assert_eq!(
        RepoConfig::from_str("[branch.x]\nmethod = \"make\"\n", "/p").unwrap_err(),
        Error::InvalidMakeTaskConfig
    );
}

#[test]
fn test_failed_file_check_raises_that_error() {
    let pending = RepoConfig::from_str("[branch.x]\nmethod = \"make\"\ntask = \"build\"\n", "/p")
        .unwrap();
    assert_eq!(pending.checks.len(), 1);
    let err = pending.finish(&vec![false]).unwrap_err();
    assert_eq!(err, Error::InvalidMakeTask("x".to_string()));
}

#[test]
fn test_related_branch() {
    assert_eq!(Error::MissingMethod("b".to_string()).related_branch(), Some("b"));
    assert_eq!(Error::InvalidPlaybook("p".to_string()).related_branch(), Some("p"));
    assert_eq!(Error::Parse.related_branch(), None);
    assert_eq!(Error::InvalidAnsibleConfig.related_branch(), None);
}

#[test]
fn test_makefile_target_detection() {
    let makefile = "all: build\n\nbuild:\n\tcc main.c\n";
    assert!(MakeTask::new("/proj", "build", makefile).is_ok());
    assert!(MakeTask::new("/proj", "all", makefile).is_ok());
    assert!(MakeTask::new("/proj", "cc", makefile).is_err());
    assert!(MakeTask::new("/proj", "buil", makefile).is_err());
    let task = MakeTask::new("/proj", "build", makefile).unwrap();
    assert_eq!(task.to_string(), "build");
    assert_eq!(task.command_args(), vec!["build".to_string()]);
}
