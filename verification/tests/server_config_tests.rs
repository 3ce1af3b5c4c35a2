use hookshot::server_config::{
    Error, ServerConfig, get_default_checkout_dir, get_default_log_dir, get_xdg_data_home,
};

fn env_value(env: &Vec<(String, String)>, key: &str) -> String {
    for (k, v) in env.iter() {
        if k == key {
            return v.clone();
        }
    }
    panic!("key not found");
}

#[test]
fn test_valid_config() {
    let toml = r#"
        [config]
        secret = "it's a secret to everyone"
        port = 5712
        hostname = "127.0.0.1"
        checkout_root = "/tmp"
        log_root = "/tmp"
    "#;
    let config = ServerConfig::from(&toml, None, None).unwrap().finish(true, true).unwrap();
    assert_eq!(config.secret, "it's a secret to everyone");
    assert_eq!(config.port, 5712u16);
    assert_eq!(config.checkout_root.path(), "/tmp");
}

#[test]
fn test_invalid_config_missing_hostname() {
    let toml = r#"
        [config]
        secret = "it's a secret to everyone"
        port = 5712
        checkout_root = "/tmp"
        log_root = "/tmp"
    "#;
    assert_eq!(ServerConfig::from(&toml, None, None).err().unwrap(), Error::MissingHostname);
}

#[test]
fn test_invalid_config_invalid_hostname() {
    let toml = r#"
        [config]
        secret = "it's a secret to everyone"
        port = 5712
        hostname = []
        checkout_root = "/tmp"
        log_root = "/tmp"
    "#;
    assert_eq!(ServerConfig::from(&toml, None, None).err().unwrap(), Error::InvalidHostname);
}

#[test]
fn test_invalid_config_bad_checkout_root() {
    let toml = r#"
        [config]
        secret = "it's a secret to everyone"
        port = 5712
        hostname = "127.0.0.1"
        log_root = "/tmp"
        checkout_root = "/this/does/not/exist/"
    "#;
    let pending = ServerConfig::from(&toml, None, None).unwrap();
    assert_eq!(pending.finish(false, true).err().unwrap(), Error::InvalidCheckoutRoot);
}

#[test]
fn test_invalid_config_bad_secret() {
    let toml = r#"
        [config]
        secret = {}
        port = 5712
        hostname = "127.0.0.1"
        checkout_root = "/tmp"
        log_root = "/tmp"
    "#;
    assert_eq!(ServerConfig::from(&toml, None, None).err().unwrap(), Error::InvalidSecret);
}

#[test]
fn test_invalid_config_missing_secret() {
    let toml = r#"
        [config]
        port = 5712
        hostname = "127.0.0.1"
        checkout_root = "/tmp"
        log_root = "/tmp"
    "#;
    assert_eq!(ServerConfig::from(&toml, None, None).err().unwrap(), Error::MissingSecret);
}

#[test]
fn test_config_default_checkout_root() {
    let toml = r#"
        [config]
        secret = "it's a secret to everyone"
        port = 5712
        hostname = "127.0.0.1"
        log_root = "/tmp"
    "#;
    let data_home = get_xdg_data_home(Some("/home/u".to_string()), Some("tmp".to_string()));
    let default_checkout = get_default_checkout_dir(data_home);
    let config = ServerConfig::from(&toml, default_checkout, None)
        .unwrap()
        .finish(true, true)
        .unwrap();
    assert_eq!(config.checkout_root.path(), "tmp/hookshot/checkouts");
}

#[test]
fn test_config_default_log_root() {
    let toml = r#"
        [config]
        port = 5712
        hostname = "127.0.0.1"
        secret = "shh"
        checkout_root = "/tmp"
    "#;
    let data_home = get_xdg_data_home(Some("/home/u".to_string()), Some("tmp".to_string()));
    let default_log = get_default_log_dir(data_home);
    let config = ServerConfig::from(&toml, None, default_log).unwrap().finish(true, true).unwrap();
    assert_eq!(config.log_root.path(), "tmp/hookshot/logs");
}

#[test]
fn test_xdg_data_home_fallbacks() {
    assert_eq!(
        get_xdg_data_home(Some("/home/u".to_string()), None),
        Some("/home/u/.local/share".to_string())
    );
    assert_eq!(
        get_xdg_data_home(Some("/home/u".to_string()), Some("".to_string())),
        Some("/home/u".to_string())
    );
    assert_eq!(get_xdg_data_home(None, Some("/xdg".to_string())), None);
}

#[test]
fn test_invalid_config_invalid_log_root() {
    let toml = r#"
        [config]
        port = 5712
        hostname = "127.0.0.1"
        secret = "shh"
        checkout_root = "/tmp"
        log_root = "/path/does/not/exist"
    "#;
    let pending = ServerConfig::from(&toml, None, None).unwrap();
    assert_eq!(pending.finish(true, false).err().unwrap(), Error::InvalidLogRoot);
}

#[test]
fn test_invalid_config_invalid_port() {
    let toml = r#"
        [config]
        secret = "it's a secret to everyone"
        port = "ham sandwiches"
        hostname = "127.0.0.1"
        checkout_root = "/tmp"
        log_root = "/tmp"
    "#;
    assert_eq!(ServerConfig::from(&toml, None, None).err().unwrap(), Error::InvalidPort);
}

#[test]
fn test_config_default_port() {
    let toml = r#"
        [config]
        secret = "it's a secret to everyone"
        hostname = "127.0.0.1"
        checkout_root = "/tmp"
        log_root = "/tmp"
    "#;
    let config = ServerConfig::from(&toml, None, None).unwrap();
    assert_eq!(config.port, 1469);
}

#[test]
fn test_config_queue_limit() {
    let toml = r#"
        [config]
        secret = "it's a secret to everyone"
        hostname = "127.0.0.1"
        checkout_root = "/tmp"
        log_root = "/tmp"
        queue_limit = 10
    "#;
    let config = ServerConfig::from(&toml, None, None).unwrap();
    assert_eq!(config.queue_limit, Some(10));
}

#[test]
fn test_config_default_queue_limit() {
    let toml = r#"
        [config]
        secret = "it's a secret to everyone"
        hostname = "127.0.0.1"
        checkout_root = "/tmp"
        log_root = "/tmp"
    "#;
    let config = ServerConfig::from(&toml, None, None).unwrap();
    assert_eq!(config.queue_limit, None);
}

#[test]
fn test_config_invalid_queue_limit() {
    let toml = r#"
        [config]
        secret = "it's a secret to everyone"
        hostname = "127.0.0.1"
        checkout_root = "/tmp"
        log_root = "/tmp"
        queue_limit = "not an integer"
    "#;
    assert_eq!(ServerConfig::from(&toml, None, None).err().unwrap(), Error::InvalidQueueLimit);
}

#[test]
fn test_port_bounds() {
    let base = |port: &str| {
        format!(
            "[config]\nsecret = \"s\"\nhostname = \"h\"\ncheckout_root = \"/tmp\"\n\
             log_root = \"/tmp\"\nport = {}\n",
            port
        )
    };
    assert_eq!(ServerConfig::from(&base("65534"), None, None).unwrap().port, 65534);
    assert_eq!(ServerConfig::from(&base("65535"), None, None).err().unwrap(), Error::InvalidPort);
    assert_eq!(ServerConfig::from(&base("-1"), None, None).err().unwrap(), Error::InvalidPort);
}

#[test]
fn test_queue_limit_bounds() {
    let base = |limit: &str| {
        format!(
            "[config]\nsecret = \"s\"\nhostname = \"h\"\ncheckout_root = \"/tmp\"\n\
             log_root = \"/tmp\"\nqueue_limit = {}\n",
            limit
        )
    };
    assert_eq!(ServerConfig::from(&base("2"), None, None).unwrap().queue_limit, Some(2));
    assert_eq!(
        ServerConfig::from(&base("1"), None, None).err().unwrap(),
        Error::InvalidQueueLimit
    );
    assert_eq!(
        ServerConfig::from(&base("0"), None, None).err().unwrap(),
        Error::InvalidQueueLimit
    );
}

#[test]
fn test_environments() {
    // The queue limit reads 2 here: the configuration schema wants an
    // integer strictly greater than one.
    let toml = r#"
        [config]
        port = 1212
        secret = "it's a secret to everyone"
        checkout_root = "/tmp"
        log_root = "/tmp"
        hostname = "127.0.0.1"
        queue_limit = 2

        [env.brianloveswords.hookshot.master]
        username = "brianloveswords"
        repository = "hookshot"
        branch = "master"

        [env.brianloveswords."d.o.t.s".overrides]
        username = "not-brianloveswords"
        repository = "not-hookshot"
        branch = "overrides"
    "#;
    let config = ServerConfig::from(&toml, None, None).unwrap().finish(true, true).unwrap();

    let env1 = config.environment_for("brianloveswords", "hookshot", "master").unwrap();
    assert_eq!(env_value(&env1, "username"), "brianloveswords");
    assert_eq!(env_value(&env1, "repository"), "hookshot");
    assert_eq!(env_value(&env1, "branch"), "master");

    let env2 = config.environment_for("brianloveswords", "d.o.t.s", "overrides").unwrap();
    assert_eq!(env_value(&env2, "username"), "not-brianloveswords");
    assert_eq!(env_value(&env2, "repository"), "not-hookshot");
    assert_eq!(env_value(&env2, "branch"), "overrides");

    let empty = config.environment_for("alice", "proj", "main").unwrap();
    assert!(empty.is_empty());
}
