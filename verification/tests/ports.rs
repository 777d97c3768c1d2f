use dploy::cli::Command;
use dploy::config::{AppConfig, OverrideContext, OverrideRuleCommand};
use dploy::cli::Args;
use dploy::context::{Context, HostPortBinding};
use dploy::services::ServiceKind;

fn dev() -> Command {
    Command::Dev { command: None }
}

fn run() -> Command {
    Command::Run { command: None, watch: false }
}

fn remote() -> Command {
    Command::Deploy {
        host: "example.org".to_string(),
        port: 22,
        username: "root".to_string(),
        keyfile: None,
        command: None,
        watch: false,
    }
}

#[test]
fn local_full_stack_exposes_and_talks_inside() {
    let binding = HostPortBinding::new("demo_postgres_dev", 5432, &run(), 40123);
    assert_eq!(binding.host_port(), Some(40123));
    assert_eq!(binding.host_host(), "127.0.0.1");
    assert_eq!(binding.inner_host(), "demo_postgres_dev");
    assert_eq!(binding.inner_port(), 5432);
    assert_eq!(binding.internal_port(), 5432);
}

#[test]
fn remote_exposes_nothing() {
    let binding = HostPortBinding::new("demo_postgres_dev", 5432, &remote(), 40123);
    assert_eq!(binding.host_port(), None);
    assert_eq!(binding.inner_host(), "demo_postgres_dev");
    assert_eq!(binding.inner_port(), 5432);
    assert_eq!(binding.internal_port(), 5432);
    assert_eq!(binding.host_host(), "127.0.0.1");
}

#[test]
fn local_dependencies_only_talks_through_the_host() {
    let binding = HostPortBinding::new("demo_postgres_dev", 5432, &dev(), 40123);
    assert_eq!(binding.host_port(), Some(40123));
    assert_eq!(binding.inner_host(), "127.0.0.1");
    assert_eq!(Some(binding.inner_port()), binding.host_port());
    assert_eq!(binding.inner_port(), 40123);
    assert_eq!(binding.internal_port(), 5432);
}

#[test]
fn context_binds_under_the_container_name() {
    let context = Context::new(
        Args { config: "dploy.toml".to_string(), namespace: "dev".to_string(), command: run() },
        AppConfig {
            name: "demo".to_string(),
            dockerfile: "Dockerfile".to_string(),
            env_file: ".env".to_string(),
            env: vec![],
            watch: vec![],
        },
        OverrideContext::new(OverrideRuleCommand::Run),
    );
    let binding = context.host_port_binding_of(ServiceKind::Keydb, 6379, 50001);
    assert_eq!(binding.inner_host(), "demo_keydb_dev");
    assert_eq!(binding.inner_port(), 6379);
    assert_eq!(binding.host_port(), Some(50001));
    assert_eq!(binding.internal_port(), 6379);
}

#[test]
fn manual_binding_keeps_what_it_is_given() {
    let binding = HostPortBinding::manual(443, "0.0.0.0", 8443, "proxy");
    assert_eq!(binding.host_port(), Some(443));
    assert_eq!(binding.host_host(), "0.0.0.0");
    assert_eq!(binding.inner_port(), 8443);
    assert_eq!(binding.inner_host(), "proxy");
    assert_eq!(binding.internal_port(), 8443);
}

#[test]
fn exposed_binding_is_published_under_its_tcp_key() {
    let binding = HostPortBinding::new("demo_postgres_dev", 5432, &run(), 40123);
    let published = binding.to_port_binding();
    assert_eq!(published.len(), 1);
    assert_eq!(published[0].0, "5432/tcp");
    assert_eq!(published[0].1.host_ip, "127.0.0.1");
    assert_eq!(published[0].1.host_port, "40123");
}

#[test]
fn unexposed_binding_publishes_nothing() {
    let binding = HostPortBinding::new("demo_postgres_dev", 5432, &remote(), 40123);
    assert!(binding.to_port_binding().is_empty());
    let exposed = HostPortBinding::manual(80, "0.0.0.0", 80, "proxy");
    let published = HostPortBinding::to_port_bindings(&[&binding, &exposed, &binding]);
    assert_eq!(published.len(), 1);
    assert_eq!(published[0].0, "80/tcp");
    assert_eq!(published[0].1.host_ip, "0.0.0.0");
    assert_eq!(published[0].1.host_port, "80");
}

#[test]
fn no_bindings_publish_nothing() {
    assert!(HostPortBinding::to_port_bindings(&[]).is_empty());
}

#[test]
fn last_binding_of_a_port_wins_and_keeps_its_place() {
    let first = HostPortBinding::manual(8080, "127.0.0.1", 80, "web");
    let other = HostPortBinding::manual(8443, "127.0.0.1", 443, "web");
    let again = HostPortBinding::manual(9090, "0.0.0.0", 80, "web");
    let published = HostPortBinding::to_port_bindings(&[&first, &other, &again]);
    assert_eq!(published.len(), 2);
    assert_eq!(published[0].0, "80/tcp");
    assert_eq!(published[0].1.host_ip, "0.0.0.0");
    assert_eq!(published[0].1.host_port, "9090");
    assert_eq!(published[1].0, "443/tcp");
    assert_eq!(published[1].1.host_ip, "127.0.0.1");
    assert_eq!(published[1].1.host_port, "8443");
}

#[test]
fn published_keys_are_distinct() {
    let bindings: Vec<HostPortBinding> = [80u16, 443, 80, 5432, 443, 80]
        .iter()
        .enumerate()
        .map(|(i, port)| HostPortBinding::manual(10000 + i as u16, "127.0.0.1", *port, "x"))
        .collect();
    let borrowed: Vec<&HostPortBinding> = bindings.iter().collect();
    let published = HostPortBinding::to_port_bindings(&borrowed);
    let keys: Vec<&str> = published.iter().map(|entry| entry.0.as_str()).collect();
    assert_eq!(keys, vec!["80/tcp", "443/tcp", "5432/tcp"]);
    assert_eq!(published[0].1.host_port, "10005");
    assert_eq!(published[1].1.host_port, "10004");
    assert_eq!(published[2].1.host_port, "10003");
}

#[test]
fn connection_vars_show_the_application_side() {
    let local = HostPortBinding::new("demo_postgres_dev", 5432, &dev(), 40123);
    assert_eq!(
        local.connection_vars("POSTGRES"),
        vec![
            ("POSTGRES_HOST".to_string(), "127.0.0.1".to_string()),
            ("POSTGRES_PORT".to_string(), "40123".to_string()),
        ]
    );
    let full = HostPortBinding::new("demo_postgres_dev", 5432, &run(), 40123);
    assert_eq!(
        full.connection_vars("POSTGRES"),
        vec![
            ("POSTGRES_HOST".to_string(), "demo_postgres_dev".to_string()),
            ("POSTGRES_PORT".to_string(), "5432".to_string()),
        ]
    );
}

#[test]
fn connection_info_shows_the_host_side() {
    let local = HostPortBinding::new("demo_postgres_dev", 5432, &run(), 40123);
    assert_eq!(local.connection_info(), Some(("127.0.0.1".to_string(), 40123)));
    let hidden = HostPortBinding::new("demo_postgres_dev", 5432, &remote(), 40123);
    assert_eq!(hidden.connection_info(), None);
}
