use mpc_containers::datastore::Datastore;
use mpc_containers::docker::{
    DockerClient, Inspection, NetworkError, NetworkSettings, Networks,
};
use mpc_containers::lake_indexer::LakeIndexer;
use mpc_containers::launch::{AddressFamily, WaitFor};
use mpc_containers::localstack::{LocalStack, Platform};
use mpc_containers::text::{decimal_text, http_url_text};

fn attached_to(network: &str, ip_address: &str) -> Inspection {
    let mut networks = Networks::new();
    networks.insert(network.to_string(), Some(ip_address.to_string()));
    Inspection {
        network_settings: Some(NetworkSettings {
            networks: Some(networks),
        }),
    }
}

fn pairs(list: &[(&str, &str)]) -> Vec<(String, String)> {
    list.iter()
        .map(|(k, v)| (k.to_string(), v.to_string()))
        .collect()
}

#[test]
fn ports_are_written_in_base_ten() {
    assert_eq!(decimal_text(0), "0");
    assert_eq!(decimal_text(9), "9");
    assert_eq!(decimal_text(10), "10");
    assert_eq!(decimal_text(4566), "4566");
    assert_eq!(decimal_text(60708), "60708");
    assert_eq!(decimal_text(65535), "65535");
    for n in 0..=u16::MAX {
        assert_eq!(decimal_text(n), n.to_string());
    }
}

#[test]
fn addresses_tell_host_and_port_apart() {
    assert_eq!(http_url_text("10.0.0.2", 80), "http://10.0.0.2:80");
    assert_ne!(http_url_text("::1", 2), http_url_text("::", 12));
    assert_ne!(http_url_text("a", 1), http_url_text("a", 10));
}

#[test]
fn localstack_launch() {
    let docker = DockerClient::default();
    let starting = LocalStack::run(
        "mpc",
        "blocks".to_string(),
        "us-east-1".to_string(),
        Platform::X86_64,
    );
    let image = &starting.plan.image;
    assert_eq!(image.name, "localstack/localstack");
    assert_eq!(image.tag, "3.0.0");
    assert_eq!(
        image.wait_for,
        vec![WaitFor::StdOutMessage {
            message: "Running on".to_string()
        }]
    );
    assert!(image.exposed_ports.is_empty());
    assert!(image.env_vars.is_empty());
    assert_eq!(image.entrypoint, None);
    assert!(starting.plan.args.is_empty());
    assert_eq!(starting.plan.network, "mpc");

    let attaching = starting.started("c1");
    assert_eq!(attaching.container_id, "c1");
    let attached = attaching
        .inspected(&docker, &attached_to("mpc", "172.18.0.2"))
        .ok()
        .unwrap();
    let exec = attached.bucket_exec();
    assert_eq!(exec.container_id, "c1");
    assert!(exec.attach_stdout && exec.attach_stderr);
    assert_eq!(
        exec.cmd,
        vec![
            "awslocal",
            "s3api",
            "create-bucket",
            "--bucket",
            "blocks",
            "--region",
            "us-east-1"
        ]
    );
    let command = attached.exec_created("e7");
    assert_eq!(command.exec_id, "e7");
    let started = command.exec_started();
    let request = started.port_request();
    assert_eq!(request.family, AddressFamily::Ipv6);
    assert_eq!(request.container_port, 4566);
    let localstack = started.mapped(32768);
    assert_eq!(
        localstack,
        LocalStack {
            container_id: "c1".to_string(),
            address: "172.18.0.2".to_string(),
            s3_address: "http://172.18.0.2:4566".to_string(),
            s3_host_address: "http://[::1]:32768".to_string(),
            s3_bucket: "blocks".to_string(),
            s3_region: "us-east-1".to_string(),
        }
    );
}

#[test]
fn localstack_on_macos() {
    let docker = DockerClient::default();
    let started = LocalStack::run(
        "mpc",
        "blocks".to_string(),
        "us-east-1".to_string(),
        Platform::MacosAarch64,
    )
    .started("c1")
    .inspected(&docker, &attached_to("mpc", "172.18.0.2"))
    .ok()
    .unwrap()
    .exec_created("e7")
    .exec_started();
    assert_eq!(started.port_request().family, AddressFamily::Ipv4);
    assert_eq!(
        started.mapped(1).s3_host_address,
        "http://127.0.0.1:1"
    );
}

#[test]
fn launch_ends_where_the_network_was_not_joined() {
    let docker = DockerClient::default();
    let attaching = LakeIndexer::run("mpc", "http://s3", "b".to_string(), "r".to_string())
        .started("c9");
    let error = attaching
        .inspected(&docker, &attached_to("other", "172.18.0.2"))
        .err()
        .unwrap();
    assert_eq!(
        error,
        NetworkError::NotAttached {
            container: "c9".to_string(),
            network: "mpc".to_string()
        }
    );
}

#[test]
fn lake_indexer_launch() {
    let docker = DockerClient::default();
    let starting = LakeIndexer::run(
        "mpc",
        "http://172.18.0.2:4566",
        "blocks".to_string(),
        "us-east-1".to_string(),
    );
    let image = &starting.plan.image;
    assert_eq!(image.name, "ghcr.io/near/near-lake-indexer");
    assert_eq!(image.tag, "node-1.38");
    assert_eq!(
        image.wait_for,
        vec![WaitFor::StdErrMessage {
            message: "Starting Streamer".to_string()
        }]
    );
    assert_eq!(image.exposed_ports, vec![3030]);
    assert_eq!(
        image.env_vars,
        pairs(&[
            ("AWS_ACCESS_KEY_ID", "FAKE_LOCALSTACK_KEY_ID"),
            ("AWS_SECRET_ACCESS_KEY", "FAKE_LOCALSTACK_ACCESS_KEY"),
        ])
    );
    assert_eq!(image.entrypoint, None);
    assert_eq!(
        starting.plan.args,
        vec![
            "--endpoint",
            "http://172.18.0.2:4566",
            "--bucket",
            "blocks",
            "--region",
            "us-east-1",
            "--stream-while-syncing",
            "sync-from-latest"
        ]
    );
    assert_eq!(starting.plan.network, "mpc");

    let exposed = image.exposed_ports.clone();
    let attached = starting
        .started("c2")
        .inspected(&docker, &attached_to("mpc", "172.18.0.3"))
        .ok()
        .unwrap();
    let request = attached.port_request();
    assert_eq!(request.family, AddressFamily::Ipv4);
    assert!(exposed.contains(&request.container_port));
    assert_eq!(
        attached.mapped(49153),
        LakeIndexer {
            container_id: "c2".to_string(),
            bucket_name: "blocks".to_string(),
            region: "us-east-1".to_string(),
            rpc_address: "http://172.18.0.3:3030".to_string(),
            rpc_host_address: "http://127.0.0.1:49153".to_string(),
        }
    );
}

#[test]
fn datastore_launch() {
    let docker = DockerClient::default();
    let starting = Datastore::run("mpc", "multichain-integration");
    let image = &starting.plan.image;
    assert_eq!(
        image.name,
        "gcr.io/google.com/cloudsdktool/google-cloud-cli"
    );
    assert_eq!(image.tag, "464.0.0-emulators");
    assert_eq!(
        image.wait_for,
        vec![WaitFor::StdErrMessage {
            message: "Dev App Server is now running.".to_string()
        }]
    );
    assert_eq!(image.exposed_ports, vec![3000]);
    assert_eq!(
        image.env_vars,
        pairs(&[
            ("DATASTORE_EMULATOR_HOST", "0.0.0.0:3000"),
            ("DATASTORE_PROJECT_ID", "multichain-integration"),
        ])
    );
    assert_eq!(image.entrypoint, Some("gcloud".to_string()));
    assert_eq!(
        starting.plan.args,
        vec![
            "beta",
            "emulators",
            "datastore",
            "start",
            "--project=multichain-integration",
            "--host-port",
            "0.0.0.0:3000",
            "--no-store-on-disk",
            "--consistency=1.0"
        ]
    );
    let exposed = image.exposed_ports.clone();
    let attached = starting
        .started("c3")
        .inspected(&docker, &attached_to("mpc", "172.18.0.4"))
        .ok()
        .unwrap();
    let request = attached.port_request();
    assert_eq!(request.family, AddressFamily::Ipv4);
    assert!(exposed.contains(&request.container_port));
    assert_eq!(
        attached.mapped(49154),
        Datastore {
            container_id: "c3".to_string(),
            address: "http://172.18.0.4:3000/".to_string(),
            local_address: "http://127.0.0.1:49154/".to_string(),
        }
    );
}
