use container_fixtures::container::ProvisionAction;
use container_fixtures::container::ReadyStrategy;
use container_fixtures::postgresql;
use container_fixtures::GenericContainer;

#[test]
fn env_last_write_wins() {
    let b = GenericContainer::from_image("postgres:latest")
        .add_env("KEY", "first")
        .add_env("KEY", "second");
    assert_eq!(
        b.environment_variables,
        vec![("KEY".to_string(), "second".to_string())]
    );
}

#[test]
fn env_keeps_distinct_keys() {
    let b = GenericContainer::from_image("postgres:latest")
        .add_env("A", "1")
        .add_env("B", "2")
        .add_env("A", "3");
    assert_eq!(
        b.environment_variables,
        vec![
            ("B".to_string(), "2".to_string()),
            ("A".to_string(), "3".to_string())
        ]
    );
}

#[test]
fn env_strings_join_name_and_value() {
    let b = GenericContainer::from_image("postgres:latest")
        .add_env("POSTGRES_DB", "test")
        .add_env("POSTGRES_USER", "alice");
    assert_eq!(
        b.env_strings(),
        vec!["POSTGRES_DB=test".to_string(), "POSTGRES_USER=alice".to_string()]
    );
}

#[test]
fn exposed_tcp_port_renders_port_spec() {
    let b = GenericContainer::from_image("postgres:latest").add_exposed_tcp_port(5432);
    assert_eq!(b.exposed_ports, vec![("5432/tcp".to_string(), None)]);
    let b = b.add_fixed_exposed_tcp_port(8080, 80);
    assert_eq!(
        b.exposed_ports,
        vec![
            ("5432/tcp".to_string(), None),
            ("80/tcp".to_string(), Some(8080))
        ]
    );
}

#[test]
fn volumes_stay_distinct() {
    let b = GenericContainer::from_image("postgres:latest")
        .add_volume("/data")
        .add_volume("/logs")
        .add_volume("/data");
    assert_eq!(b.volumes, vec!["/data".to_string(), "/logs".to_string()]);
}

#[test]
fn labels_behave_like_a_map() {
    let b = GenericContainer::from_image("postgres:latest")
        .add_label("team", "core")
        .add_label("team", "db");
    assert_eq!(b.labels, vec![("team".to_string(), "db".to_string())]);
}

#[test]
fn command_is_copied_in_order() {
    let b =
        GenericContainer::from_image("postgres:latest").with_command(&["postgres", "-c", "fsync=off"]);
    assert_eq!(
        b.command,
        Some(vec![
            "postgres".to_string(),
            "-c".to_string(),
            "fsync=off".to_string()
        ])
    );
}

#[test]
fn start_timeout_parses_duration_expressions() {
    let b = GenericContainer::from_image("postgres:latest");
    assert_eq!(b.start_timeout_millis, 30000);
    let b = b.try_with_start_timeout("2s").unwrap();
    assert_eq!(b.start_timeout_millis, 2000);
    let b = b.try_with_start_timeout("1m 30s").unwrap();
    assert_eq!(b.start_timeout_millis, 90000);
}

#[test]
fn invalid_timeout_expression_is_rejected() {
    let b = GenericContainer::from_image("postgres:latest");
    assert_eq!(
        b.try_with_start_timeout("soon"),
        Err("a parseable duration but it was soon".to_string())
    );
}

#[test]
fn invalid_log_pattern_is_rejected() {
    let b = GenericContainer::from_image("postgres:latest");
    assert_eq!(
        b.try_wait_for_log_on_startup("(unclosed"),
        Err("a valid regular expression but it was (unclosed".to_string())
    );
}

#[test]
fn valid_log_pattern_is_attached() {
    let b = GenericContainer::from_image("postgres:latest")
        .try_wait_for_log_on_startup("ready.*now")
        .unwrap();
    assert_eq!(
        b.wait_strategy_on_startup,
        ReadyStrategy::LogMessageRegExp("ready.*now".to_string())
    );
}

#[test]
fn provisioning_prefers_build_then_local_then_pull() {
    let b = GenericContainer::from_image("postgres:latest");
    assert_eq!(b.provisioning(true), ProvisionAction::UseLocal);
    assert_eq!(b.provisioning(false), ProvisionAction::Pull);
    let mut built = GenericContainer::from_image("postgres:latest");
    built.image.build_instructions = Some("./docker".to_string());
    assert_eq!(built.provisioning(true), ProvisionAction::Build);
    assert_eq!(built.provisioning(false), ProvisionAction::Build);
}

#[test]
fn postgresql_spec_is_complete() {
    let b = postgresql();
    assert_eq!(b.image.get_full_name(), "postgres:latest".to_string());
    assert_eq!(b.image.repository, "postgres".to_string());
    assert_eq!(
        b.environment_variables,
        vec![
            ("POSTGRES_DB".to_string(), "test".to_string()),
            ("POSTGRES_USER".to_string(), "test".to_string()),
            ("POSTGRES_PASSWORD".to_string(), "test".to_string())
        ]
    );
    assert_eq!(b.exposed_ports, vec![("5432/tcp".to_string(), None)]);
    assert_eq!(
        b.command,
        Some(vec![
            "postgres".to_string(),
            "-c".to_string(),
            "fsync=off".to_string()
        ])
    );
    assert_eq!(
        b.wait_strategy_on_startup,
        ReadyStrategy::LogMessageRegExp(
            ".*database system is ready to accept connections.*\\s".to_string()
        )
    );
    assert_eq!(b.start_timeout_millis, 30000);
}
