use container_fixtures::container::Observation;
use container_fixtures::container::ReadyStrategy;
use container_fixtures::container::WaitDecision;
use container_fixtures::container::poll_step;
use container_fixtures::inspect::extract_port_mapping;
use container_fixtures::inspect::InspectData;
use container_fixtures::inspect::NetworkSettingsData;
use container_fixtures::inspect::PortBindingData;
use container_fixtures::GenericContainer;

fn binding(ip: &str, port: &str) -> PortBindingData {
    PortBindingData {
        host_ip: Some(ip.to_string()),
        host_port: Some(port.to_string()),
    }
}

#[test]
fn only_wildcard_bindings_resolve() {
    let settings = Some(NetworkSettingsData {
        ports: Some(vec![
            (
                "5432/tcp".to_string(),
                Some(vec![binding("0.0.0.0", "55000")]),
            ),
            (
                "9000/tcp".to_string(),
                Some(vec![binding("127.0.0.1", "55001")]),
            ),
        ]),
    });
    let resolved = extract_port_mapping(&settings).unwrap();
    assert_eq!(resolved, vec![("5432/tcp".to_string(), 55000)]);
}

#[test]
fn malformed_bindings_are_dropped() {
    let settings = Some(NetworkSettingsData {
        ports: Some(vec![(
            "80/tcp".to_string(),
            Some(vec![
                PortBindingData {
                    host_ip: None,
                    host_port: Some("1".to_string()),
                },
                PortBindingData {
                    host_ip: Some("0.0.0.0".to_string()),
                    host_port: None,
                },
                binding("0.0.0.0", "not-a-port"),
                binding("0.0.0.0", "8080"),
            ]),
        )]),
    });
    let resolved = extract_port_mapping(&settings).unwrap();
    assert_eq!(resolved, vec![("80/tcp".to_string(), 8080)]);
}

#[test]
fn absent_settings_resolve_to_nothing() {
    assert!(extract_port_mapping(&None).is_none());
    let settings = Some(NetworkSettingsData { ports: None });
    assert!(extract_port_mapping(&settings).is_none());
}

#[test]
fn log_pattern_readiness() {
    let strategy = ReadyStrategy::LogMessageRegExp("system is ready".to_string());
    let matching = Observation::Logs("... database system is ready to go ...".to_string());
    let silent = Observation::Logs("still starting up".to_string());
    assert_eq!(poll_step(&strategy, &matching, 0, 30000), WaitDecision::Ready);
    assert_eq!(poll_step(&strategy, &matching, 99999, 30000), WaitDecision::Ready);
    assert_eq!(poll_step(&strategy, &silent, 0, 30000), WaitDecision::Retry);
    assert_eq!(poll_step(&strategy, &silent, 30000, 30000), WaitDecision::Retry);
    assert_eq!(
        poll_step(&strategy, &silent, 30001, 30000),
        WaitDecision::TimedOut
    );
}

#[test]
fn health_readiness_takes_any_reported_status() {
    let strategy = ReadyStrategy::StateHealthy;
    let healthy = Observation::Health(Some("healthy".to_string()));
    let unhealthy = Observation::Health(Some("unhealthy".to_string()));
    let empty = Observation::Health(Some("".to_string()));
    let missing = Observation::Health(None);
    assert_eq!(poll_step(&strategy, &healthy, 0, 1000), WaitDecision::Ready);
    assert_eq!(poll_step(&strategy, &unhealthy, 0, 1000), WaitDecision::Ready);
    assert_eq!(poll_step(&strategy, &empty, 0, 1000), WaitDecision::Retry);
    assert_eq!(poll_step(&strategy, &missing, 2000, 1000), WaitDecision::TimedOut);
}

#[test]
fn no_wait_is_always_ready() {
    let strategy = ReadyStrategy::NoWait;
    let silent = Observation::Logs("".to_string());
    assert_eq!(poll_step(&strategy, &silent, 0, 0), WaitDecision::Ready);
    assert_eq!(poll_step(&strategy, &silent, 99999, 0), WaitDecision::Ready);
}

fn ready_inspection() -> InspectData {
    InspectData {
        id: Some("0123abcd".to_string()),
        name: Some("/pg-fixture".to_string()),
        health_status: None,
        network_settings: Some(NetworkSettingsData {
            ports: Some(vec![(
                "5432/tcp".to_string(),
                Some(vec![binding("0.0.0.0", "55000")]),
            )]),
        }),
    }
}

#[test]
fn started_handle_answers_resolved_ports() {
    let builder = GenericContainer::from_image("postgres:latest").add_exposed_tcp_port(5432);
    let mut handle = builder.into_created("0123abcd".to_string());
    assert_eq!(handle.get_host_port("5432/tcp"), None);
    handle.start(&ready_inspection());
    assert_eq!(handle.get_host_port("5432/tcp"), Some(55000));
    assert_eq!(handle.get_host_port("9000/tcp"), None);
    handle.stop();
    assert_eq!(handle.get_host_port("5432/tcp"), None);
}

#[test]
fn kill_clears_state_like_stop() {
    let builder = GenericContainer::from_image("postgres:latest");
    let mut handle = builder.into_created("feedbeef".to_string());
    handle.start(&ready_inspection());
    assert_eq!(handle.get_host_port("5432/tcp"), Some(55000));
    handle.kill();
    assert_eq!(handle.get_host_port("5432/tcp"), None);
}

#[test]
fn database_fixture_end_to_end() {
    let builder = container_fixtures::postgresql();
    let strategy = builder.wait_strategy_on_startup.clone();
    let mut handle = builder.into_created("0123abcd".to_string());

    let early_logs = Observation::Logs("starting postgres ...".to_string());
    assert_eq!(poll_step(&strategy, &early_logs, 0, 30000), WaitDecision::Retry);
    let ready_logs = Observation::Logs(
        "LOG:  database system is ready to accept connections\n".to_string(),
    );
    assert_eq!(poll_step(&strategy, &ready_logs, 100, 30000), WaitDecision::Ready);

    handle.start(&ready_inspection());
    assert_eq!(handle.get_host_port("5432/tcp"), Some(55000));
    handle.stop();
    assert_eq!(handle.get_host_port("5432/tcp"), None);
}
