pub mod ansible_task;
pub mod deploy_task;
pub mod error;
pub mod make_task;
pub mod tomldoc;
pub mod verified_path;
pub mod git;
pub mod ingress;
pub mod jsondoc;
pub mod message;
pub mod notifier;
pub mod pattern;
pub mod repo_config;
pub mod server_config;
pub mod signature;
pub mod strutil;
pub mod task_manager;
pub mod webhook_message;
