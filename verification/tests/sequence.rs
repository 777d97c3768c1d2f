use dploy::cli::{Args, Command};
use dploy::commands::deploy::{deploy, deploy_plan, DeployStatus, DeployStep};
use dploy::config::{AppConfig, OverrideContext, OverrideRuleCommand};
use dploy::context::Context;
use dploy::services::ServiceKind;

fn context(command: Command) -> Context {
    let kind = OverrideRuleCommand::from(&command);
    Context::new(
        Args { config: "dploy.toml".to_string(), namespace: "dev".to_string(), command },
        AppConfig {
            name: "demo".to_string(),
            dockerfile: "Dockerfile".to_string(),
            env_file: ".env".to_string(),
            env: vec![],
            watch: vec![],
        },
        OverrideContext::new(kind),
    )
}

fn dev() -> Context {
    context(Command::Dev { command: None })
}

fn run() -> Context {
    context(Command::Run { command: None, watch: false })
}

fn remote() -> Context {
    context(Command::Deploy {
        host: "example.org".to_string(),
        port: 22,
        username: "root".to_string(),
        keyfile: None,
        command: None,
        watch: false,
    })
}

fn both() -> Vec<ServiceKind> {
    vec![ServiceKind::Postgres, ServiceKind::Keydb]
}

#[test]
fn local_full_stack_takes_every_step() {
    assert_eq!(
        deploy_plan(&run(), &both()),
        vec![
            DeployStep::LoadEnvFile,
            DeployStep::GenerateEnvFile,
            DeployStep::CreateNetwork,
            DeployStep::ReconcileDependency(ServiceKind::Postgres),
            DeployStep::ReconcileDependency(ServiceKind::Keydb),
            DeployStep::ReconcileApp,
            DeployStep::RunPostUp,
            DeployStep::PrintConnectionInfo,
        ]
    );
}

#[test]
fn local_dependencies_only_leaves_the_application_out() {
    assert_eq!(
        deploy_plan(&dev(), &vec![ServiceKind::Keydb]),
        vec![
            DeployStep::LoadEnvFile,
            DeployStep::GenerateEnvFile,
            DeployStep::CreateNetwork,
            DeployStep::ReconcileDependency(ServiceKind::Keydb),
            DeployStep::RunPostUp,
            DeployStep::PrintConnectionInfo,
        ]
    );
}

#[test]
fn remote_deployment_generates_and_prints_nothing() {
    assert_eq!(
        deploy_plan(&remote(), &vec![ServiceKind::Keydb, ServiceKind::Postgres]),
        vec![
            DeployStep::LoadEnvFile,
            DeployStep::ReconcileDependency(ServiceKind::Keydb),
            DeployStep::ReconcileDependency(ServiceKind::Postgres),
            DeployStep::ReconcileDependency(ServiceKind::Proxy),
            DeployStep::ReconcileApp,
            DeployStep::RunPostUp,
        ]
    );
    assert_eq!(
        deploy_plan(&remote(), &vec![]),
        vec![
            DeployStep::LoadEnvFile,
            DeployStep::ReconcileDependency(ServiceKind::Proxy),
            DeployStep::ReconcileApp,
            DeployStep::RunPostUp,
        ]
    );
    assert_eq!(
        deploy_plan(&dev(), &vec![]),
        vec![
            DeployStep::LoadEnvFile,
            DeployStep::GenerateEnvFile,
            DeployStep::CreateNetwork,
            DeployStep::RunPostUp,
            DeployStep::PrintConnectionInfo,
        ]
    );
}

#[test]
fn deployment_walks_its_plan_to_the_end() {
    let context = run();
    let plan = deploy_plan(&context, &both());
    let mut deployment = deploy(&context, &both());
    let mut taken = vec![];
    while let Some(step) = deployment.current() {
        assert_eq!(deployment.status(), DeployStatus::InProgress);
        taken.push(step);
        deployment.complete(true);
    }
    assert_eq!(taken, plan);
    assert_eq!(deployment.status(), DeployStatus::Finished);
    deployment.complete(false);
    assert_eq!(deployment.status(), DeployStatus::Finished);
    assert_eq!(deployment.current(), None);
}

#[test]
fn env_file_that_does_not_load_is_no_failure() {
    let context = dev();
    let mut deployment = deploy(&context, &vec![]);
    assert_eq!(deployment.current(), Some(DeployStep::LoadEnvFile));
    assert!(!DeployStep::LoadEnvFile.is_fatal());
    deployment.complete(false);
    assert_eq!(deployment.status(), DeployStatus::InProgress);
    assert_eq!(deployment.current(), Some(DeployStep::GenerateEnvFile));
}

#[test]
fn first_failure_aborts_the_deployment() {
    let context = run();
    let plan = deploy_plan(&context, &both());
    for failing in 1..plan.len() {
        assert!(plan[failing].is_fatal());
        let mut deployment = deploy(&context, &both());
        let mut taken = vec![];
        while let Some(step) = deployment.current() {
            taken.push(step);
            deployment.complete(taken.len() - 1 != failing);
        }
        assert_eq!(taken, plan[..=failing].to_vec());
        assert_eq!(deployment.status(), DeployStatus::Aborted);
        deployment.complete(true);
        assert_eq!(deployment.status(), DeployStatus::Aborted);
        assert_eq!(deployment.current(), None);
    }
}

#[test]
fn failed_dependency_keeps_the_application_from_starting() {
    let context = remote();
    let mut deployment = deploy(&context, &both());
    deployment.complete(true);
    assert_eq!(deployment.current(), Some(DeployStep::ReconcileDependency(ServiceKind::Postgres)));
    deployment.complete(true);
    assert_eq!(deployment.current(), Some(DeployStep::ReconcileDependency(ServiceKind::Keydb)));
    deployment.complete(false);
    assert_eq!(deployment.current(), None);
    assert_eq!(deployment.status(), DeployStatus::Aborted);
}
