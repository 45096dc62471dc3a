use mpc_containers::docker::{
    DockerClient, Inspection, LogEvent, NetworkError, NetworkSettings, Networks,
};

fn inspection(entries: Vec<(&str, Option<&str>)>) -> Inspection {
    let mut networks = Networks::new();
    for (name, ip_address) in entries {
        networks.insert(name.to_string(), ip_address.map(|ip| ip.to_string()));
    }
    Inspection {
        network_settings: Some(NetworkSettings {
            networks: Some(networks),
        }),
    }
}

fn names(list: &[Option<&str>]) -> Vec<Option<String>> {
    list.iter().map(|n| n.map(|n| n.to_string())).collect()
}

#[test]
fn address_of_the_wanted_network_is_returned() {
    let docker = DockerClient::default();
    let report = inspection(vec![
        ("bridge", Some("172.17.0.2")),
        ("mpc", Some("172.18.0.5")),
        ("idle", None),
    ]);
    assert_eq!(
        docker.get_network_ip_address("c1", &report, "mpc"),
        Ok("172.18.0.5".to_string())
    );
    assert_eq!(
        docker.get_network_ip_address("c1", &report, "bridge"),
        Ok("172.17.0.2".to_string())
    );
}

#[test]
fn later_entry_of_a_network_replaces_the_earlier_one() {
    let docker = DockerClient::default();
    let report = inspection(vec![("mpc", None), ("mpc", Some("10.0.0.1"))]);
    assert_eq!(
        docker.get_network_ip_address("c1", &report, "mpc"),
        Ok("10.0.0.1".to_string())
    );
}

#[test]
fn empty_address_is_an_address() {
    let docker = DockerClient::default();
    let report = inspection(vec![("mpc", Some(""))]);
    assert_eq!(
        docker.get_network_ip_address("c1", &report, "mpc"),
        Ok(String::new())
    );
}

#[test]
fn missing_settings() {
    let docker = DockerClient::default();
    let report = Inspection {
        network_settings: None,
    };
    let error = docker
        .get_network_ip_address("c1", &report, "mpc")
        .unwrap_err();
    assert_eq!(
        error,
        NetworkError::MissingSettings {
            container: "c1".to_string()
        }
    );
    assert_eq!(
        error.message(),
        "missing NetworkSettings on container 'c1'"
    );
}

#[test]
fn missing_networks() {
    let docker = DockerClient::default();
    let report = Inspection {
        network_settings: Some(NetworkSettings { networks: None }),
    };
    let error = docker
        .get_network_ip_address("c1", &report, "mpc")
        .unwrap_err();
    assert_eq!(
        error,
        NetworkError::MissingNetworks {
            container: "c1".to_string()
        }
    );
    assert_eq!(
        error.message(),
        "missing NetworkSettings.Networks on container 'c1'"
    );
}

#[test]
fn not_a_part_of_the_network() {
    let docker = DockerClient::default();
    let report = inspection(vec![("bridge", Some("172.17.0.2"))]);
    let error = docker
        .get_network_ip_address("c1", &report, "mpc")
        .unwrap_err();
    assert_eq!(
        error,
        NetworkError::NotAttached {
            container: "c1".to_string(),
            network: "mpc".to_string()
        }
    );
    assert_eq!(
        error.message(),
        "container 'c1' is not a part of network 'mpc'"
    );
}

#[test]
fn no_address_in_the_network() {
    let docker = DockerClient::default();
    let report = inspection(vec![("mpc", None)]);
    let error = docker
        .get_network_ip_address("c1", &report, "mpc")
        .unwrap_err();
    assert_eq!(
        error,
        NetworkError::NoAddress {
            container: "c1".to_string(),
            network: "mpc".to_string()
        }
    );
    assert_eq!(
        error.message(),
        "container 'c1' belongs to network 'mpc', but is not assigned an IP address"
    );
}

#[test]
fn local_daemon_is_the_default() {
    let docker = DockerClient::default();
    assert_eq!(docker.address, "unix:///var/run/docker.sock");
    assert_eq!(docker.timeout, 600);
}

#[test]
fn network_is_created_once() {
    let docker = DockerClient::default();
    let mut list = names(&[Some("bridge"), None, Some("host")]);
    let request = docker.create_network("mpc", &list, false).unwrap();
    assert_eq!(request.name, "mpc");
    assert!(request.check_duplicate);
    assert_eq!(request.driver, "bridge");
    list.insert(1, Some(request.name));
    assert!(docker.create_network("mpc", &list, false).is_none());
}

#[test]
fn network_driver_on_windows() {
    let docker = DockerClient::default();
    let request = docker.create_network("mpc", &names(&[]), true).unwrap();
    assert_eq!(request.driver, "transparent");
}

#[test]
fn networks_of_other_names_do_not_count() {
    let docker = DockerClient::default();
    let list = names(&[Some("mpc2"), Some("mp"), None, Some("MPC")]);
    assert!(docker.create_network("mpc", &list, false).is_some());
}

#[test]
fn logs_are_printed_up_to_the_end() {
    let docker = DockerClient::default();
    let mut printer = docker.continuously_print_logs("c1");
    assert_eq!(printer.request.container, "c1");
    assert!(printer.request.follow && printer.request.stdout && printer.request.stderr);
    assert_eq!(
        printer.next(LogEvent::Output(b"one\n".to_vec())),
        Some(b"one\n".to_vec())
    );
    assert_eq!(printer.next(LogEvent::Output(Vec::new())), Some(Vec::new()));
    assert_eq!(
        printer.next(LogEvent::Output(vec![0xff, 0])),
        Some(vec![0xff, 0])
    );
    assert_eq!(printer.next(LogEvent::Closed), None);
    assert!(!printer.open);
}

#[test]
fn nothing_is_printed_after_a_failure() {
    let docker = DockerClient::default();
    let mut printer = docker.continuously_print_logs("c1");
    assert_eq!(
        printer.next(LogEvent::Output(b"a".to_vec())),
        Some(b"a".to_vec())
    );
    assert_eq!(printer.next(LogEvent::Failed), None);
    assert_eq!(printer.next(LogEvent::Output(b"b".to_vec())), None);
    assert!(!printer.open);
}

#[test]
fn what_is_written_event_by_event_is_the_output_up_to_the_failure() {
    let docker = DockerClient::default();
    let mut printer = docker.continuously_print_logs("c1");
    let events = vec![
        LogEvent::Output(b"ab".to_vec()),
        LogEvent::Output(b"c".to_vec()),
        LogEvent::Failed,
        LogEvent::Output(b"d".to_vec()),
        LogEvent::Closed,
    ];
    let mut written = Vec::new();
    for event in events {
        if let Some(bytes) = printer.next(event) {
            written.extend(bytes);
        }
    }
    assert_eq!(written, b"abc".to_vec());
}
