use dploy::cli::{
    Command, DeployCommand, DeployLogsService, DevCommand, DevLogsService, RunCommand,
    RunLogsService,
};
use dploy::config::OverrideRuleCommand;
use dploy::services::ServiceKind;

fn deploy(command: Option<DeployCommand>, watch: bool) -> Command {
    Command::Deploy {
        host: "example.org".to_string(),
        port: 22,
        username: "root".to_string(),
        keyfile: None,
        command,
        watch,
    }
}

#[test]
fn stop_is_read_from_the_sub_operation() {
    assert!(deploy(Some(DeployCommand::Stop), false).stop());
    assert!(Command::Run { command: Some(RunCommand::Stop), watch: false }.stop());
    assert!(Command::Dev { command: Some(DevCommand::Stop) }.stop());

    assert!(!deploy(None, false).stop());
    assert!(!Command::Run { command: None, watch: true }.stop());
    assert!(!Command::Dev { command: None }.stop());
    assert!(!deploy(
        Some(DeployCommand::Logs { tail: Some(20), service: DeployLogsService::Proxy }),
        false
    )
    .stop());
    assert!(!Command::Run {
        command: Some(RunCommand::Exec { command: "sh".to_string(), service: RunLogsService::App }),
        watch: false
    }
    .stop());
    assert!(!Command::Dev {
        command: Some(DevCommand::Logs { tail: None, service: DevLogsService::Postgres })
    }
    .stop());
}

#[test]
fn watch_means_something_for_run_only() {
    assert!(Command::Run { command: None, watch: true }.watch());
    assert!(!Command::Run { command: None, watch: false }.watch());
    assert!(!deploy(None, true).watch());
    assert!(!deploy(None, false).watch());
    assert!(!Command::Dev { command: None }.watch());
}

#[test]
fn command_kind_keys_the_override_rules() {
    assert_eq!(OverrideRuleCommand::from(&deploy(None, false)), OverrideRuleCommand::Deploy);
    assert_eq!(
        OverrideRuleCommand::from(&Command::Run { command: None, watch: false }),
        OverrideRuleCommand::Run
    );
    assert_eq!(
        OverrideRuleCommand::from(&Command::Dev { command: None }),
        OverrideRuleCommand::Dev
    );
}

#[test]
fn log_services_name_their_kind() {
    assert_eq!(ServiceKind::from(DevLogsService::Postgres), ServiceKind::Postgres);
    assert_eq!(ServiceKind::from(RunLogsService::App), ServiceKind::App);
    assert_eq!(ServiceKind::from(RunLogsService::Postgres), ServiceKind::Postgres);
    assert_eq!(ServiceKind::from(DeployLogsService::App), ServiceKind::App);
    assert_eq!(ServiceKind::from(DeployLogsService::Postgres), ServiceKind::Postgres);
    assert_eq!(ServiceKind::from(DeployLogsService::Proxy), ServiceKind::Proxy);
}
