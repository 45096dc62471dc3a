use mpc_containers::config::{
    Context, MultichainConfig, NodeConfig, PresignatureConfig, TripleConfig,
};
use mpc_containers::docker::{DockerClient, Inspection, NetworkSettings, Networks};
use mpc_containers::keys::KeyError;
use mpc_containers::lake_indexer::LakeIndexer;
use mpc_containers::launch::{AddressFamily, Attached, WaitFor};
use mpc_containers::localstack::LocalStack;
use mpc_containers::node::{Node, NodeCheck, NodeSetup, NodeStart, SignKey};
use mpc_containers::start_args::{IndexerOptions, StartArgs};

const ACCOUNT_SK: &str = "ed25519:3KyUuch8pYP47krBq4DosFEVBMR5wDTMQ8AThzM8kAEcBQEpsPdYTZ2FPX5ZnSoLrerjwg66hwwJaW1wHzprd5k3";
const ACCOUNT_PK: &str = "ed25519:DcA2MzgpJbrUATQLLceocVckhhAqrkingax4oJ9kZ847";

fn sign_sk() -> near_crypto::SecretKey {
    near_crypto::SecretKey::from_seed(near_crypto::KeyType::ED25519, "integration-test")
}

fn cfg() -> MultichainConfig {
    MultichainConfig {
        triple_cfg: TripleConfig {
            min_triples: 8,
            max_triples: 80,
            max_concurrent_introduction: 4,
            max_concurrent_generation: 24,
        },
        presig_cfg: PresignatureConfig {
            min_presignatures: 2,
            max_presignatures: 20,
        },
    }
}

fn ctx() -> Context<String> {
    Context {
        docker_network: "mpc".to_string(),
        mpc_contract_id: "mpc.test.near".to_string(),
        localstack: LocalStack {
            container_id: "c1".to_string(),
            address: "172.18.0.2".to_string(),
            s3_address: "http://172.18.0.2:4566".to_string(),
            s3_host_address: "http://[::1]:32768".to_string(),
            s3_bucket: "blocks".to_string(),
            s3_region: "us-east-1".to_string(),
        },
        lake_indexer: LakeIndexer {
            container_id: "c2".to_string(),
            bucket_name: "blocks".to_string(),
            region: "us-east-1".to_string(),
            rpc_address: "http://172.18.0.3:3030".to_string(),
            rpc_host_address: "http://127.0.0.1:49153".to_string(),
        },
        storage_options: "storage".to_string(),
    }
}

fn start() -> NodeStart<String> {
    Node::run(
        &ctx(),
        "node0.test.near",
        ACCOUNT_SK,
        &cfg(),
        vec![1, 2, 3, 15, 16],
        vec![0xfe, 0xdc, 0],
    )
    .ok()
    .unwrap()
}

fn expected_args() -> StartArgs<String> {
    StartArgs {
        near_rpc: "http://127.0.0.1:49153".to_string(),
        mpc_contract_id: "mpc.test.near".to_string(),
        account_id: "node0.test.near".to_string(),
        account_sk: ACCOUNT_SK.to_string(),
        web_port: 3000,
        cipher_pk: "0102030f10".to_string(),
        cipher_sk: "fedc00".to_string(),
        sign_sk: Some(sign_sk().to_string()),
        indexer_options: IndexerOptions {
            s3_bucket: "blocks".to_string(),
            s3_region: "us-east-1".to_string(),
            s3_url: Some("http://[::1]:32768".to_string()),
            start_block_height: 0,
        },
        my_address: None,
        storage_options: "storage".to_string(),
        min_triples: 8,
        max_triples: 80,
        max_concurrent_introduction: 4,
        max_concurrent_generation: 24,
        min_presignatures: 2,
        max_presignatures: 20,
    }
}

fn launch(start: NodeStart<String>, container: &str, ip_address: &str, port: u16) -> Node {
    let mut networks = Networks::new();
    networks.insert("mpc".to_string(), Some(ip_address.to_string()));
    let inspection = Inspection {
        network_settings: Some(NetworkSettings {
            networks: Some(networks),
        }),
    };
    let attached = start
        .arguments(vec!["start".to_string()])
        .started(container)
        .inspected(&DockerClient::default(), &inspection)
        .ok()
        .unwrap();
    let request = attached.port_request();
    assert_eq!(request.family, AddressFamily::Ipv4);
    assert_eq!(request.container_port, 3000);
    attached.mapped(port).ready().unwrap()
}

fn check(sign_key: SignKey) -> NodeCheck {
    NodeCheck {
        attached: Attached {
            container_id: "c5".to_string(),
            ip_address: "172.18.0.9".to_string(),
            service: NodeSetup {
                account_id: "a".to_string(),
                account_sk: ACCOUNT_SK.to_string(),
                cipher_pk: vec![1],
                cipher_sk: vec![2],
                sign_key,
                cfg: cfg(),
            },
        },
        host_port: 7,
    }
}

fn run_error(account_sk: &str) -> KeyError {
    Node::run(&ctx(), "a", account_sk, &cfg(), vec![], vec![])
        .err()
        .unwrap()
}

#[test]
fn first_run_of_a_node() {
    let start = start();
    assert_eq!(start.start, expected_args());
    let image = &start.image;
    assert_eq!(image.name, "near/mpc-recovery-node");
    assert_eq!(image.tag, "latest");
    assert_eq!(image.wait_for, vec![WaitFor::Nothing]);
    assert_eq!(image.exposed_ports, vec![3000]);
    assert_eq!(
        image.env_vars,
        vec![
            ("RUST_LOG".to_string(), "mpc_recovery_node=DEBUG".to_string()),
            ("RUST_BACKTRACE".to_string(), "1".to_string()),
        ]
    );
    assert_eq!(image.entrypoint, None);
    assert_eq!(start.network, "mpc");

    let starting = start.arguments(vec!["start".to_string(), "--x".to_string()]);
    assert_eq!(starting.plan.args, vec!["start", "--x"]);
    assert_eq!(starting.plan.network, "mpc");
    assert_eq!(starting.plan.image.name, "near/mpc-recovery-node");
}

#[test]
fn record_of_a_first_run() {
    let node = launch(start(), "c4", "172.18.0.6", 49155);
    assert_eq!(
        node,
        Node {
            container_id: "c4".to_string(),
            address: "http://172.18.0.6:3000".to_string(),
            account_id: "node0.test.near".to_string(),
            account_sk: ACCOUNT_SK.to_string(),
            local_address: "http://localhost:49155".to_string(),
            cipher_pk: vec![1, 2, 3, 15, 16],
            cipher_sk: vec![0xfe, 0xdc, 0],
            sign_pk: sign_sk().public_key().to_string(),
            cfg: cfg(),
        }
    );
}

#[test]
fn killed_node_starts_again_with_the_same_arguments() {
    let node = launch(start(), "c4", "172.18.0.6", 49155);
    let config = node.kill();
    assert_eq!(
        config,
        NodeConfig {
            web_port: 3000,
            account_id: "node0.test.near".to_string(),
            account_sk: ACCOUNT_SK.to_string(),
            cipher_pk: vec![1, 2, 3, 15, 16],
            cipher_sk: vec![0xfe, 0xdc, 0],
            cfg: cfg(),
        }
    );
    let again = Node::restart(&ctx(), config).ok().unwrap();
    assert_eq!(again.start, expected_args());
    assert_eq!(again.network, "mpc");
    assert_eq!(again.image, start().image);

    let restarted = launch(again, "c6", "172.18.0.7", 49156);
    assert_eq!(
        restarted,
        Node {
            container_id: "c6".to_string(),
            address: "http://172.18.0.7:3000".to_string(),
            local_address: "http://localhost:49156".to_string(),
            sign_pk: ACCOUNT_PK.to_string(),
            ..launch(start(), "c4", "172.18.0.6", 49155)
        }
    );
    assert_eq!(restarted.kill(), node.kill());
}

#[test]
fn nodes_of_one_network_have_their_own_addresses() {
    let a = launch(start(), "c4", "172.18.0.6", 49155);
    let b = launch(start(), "c5", "172.18.0.7", 49156);
    assert_ne!(a.address, b.address);
    assert_ne!(a.local_address, b.local_address);
}

#[test]
fn account_key_is_written_with_its_curve() {
    let bare = &ACCOUNT_SK["ed25519:".len()..];
    let start = Node::run(&ctx(), "a", bare, &cfg(), vec![], vec![])
        .ok()
        .unwrap();
    assert_eq!(start.start.account_sk, ACCOUNT_SK);
    assert_eq!(start.setup.account_sk, bare);
    assert_eq!(start.start.cipher_pk, "");
}

#[test]
fn account_key_of_an_unknown_curve() {
    assert_eq!(
        run_error("RSA:abc"),
        KeyError::UnknownKeyType {
            unknown_key_type: "rsa".to_string()
        }
    );
}

#[test]
fn account_key_of_the_wrong_length() {
    assert_eq!(
        run_error("ed25519:2g"),
        KeyError::InvalidLength {
            expected_length: 64,
            received_length: 1
        }
    );
}

#[test]
fn account_key_that_is_not_base58() {
    assert!(matches!(
        run_error("ed25519:0OIl"),
        KeyError::InvalidData { .. }
    ));
    let config = NodeConfig {
        web_port: 3000,
        account_id: "a".to_string(),
        account_sk: "ed25519:0OIl".to_string(),
        cipher_pk: vec![],
        cipher_sk: vec![],
        cfg: cfg(),
    };
    assert!(matches!(
        Node::restart(&ctx(), config).err().unwrap(),
        KeyError::InvalidData { .. }
    ));
}

#[test]
fn readiness_is_polled_inside_the_container() {
    let exec = check(SignKey::Account {
        public_key: ACCOUNT_PK.to_string(),
    })
    .exec();
    assert_eq!(
        exec.cmd,
        "bash -c 'while [[ \"$(curl -s -o /dev/null -w ''%{http_code}'' localhost:3000)\" != \"200\" ]]; do sleep 1; done'"
    );
    assert_eq!(
        exec.cmd,
        format!("bash -c 'while [[ \"$(curl -s -o /dev/null -w ''%{{http_code}}'' localhost:{})\" != \"200\" ]]; do sleep 1; done'", 3000)
    );
    assert_eq!(
        exec.ready_conditions,
        vec![WaitFor::StdOutMessage {
            message: "node is ready to accept connections".to_string()
        }]
    );
}

#[test]
fn signing_key_is_read_as_a_key_of_an_account() {
    let bare = &ACCOUNT_PK["ed25519:".len()..];
    let node = check(SignKey::Signer {
        public_key: bare.to_string(),
    })
    .ready()
    .unwrap();
    assert_eq!(node.sign_pk, ACCOUNT_PK);
    let node = check(SignKey::Account {
        public_key: bare.to_string(),
    })
    .ready()
    .unwrap();
    assert_eq!(node.sign_pk, bare);
}

#[test]
fn signing_key_that_is_no_key() {
    let error = check(SignKey::Signer {
        public_key: "ed25519:zz".to_string(),
    })
    .ready()
    .unwrap_err();
    assert_eq!(error.public_key, "ed25519:zz");
    let error = check(SignKey::Account {
        public_key: "k".to_string(),
    })
    .ready_under(None)
    .unwrap_err();
    assert_eq!(error.public_key, "k");
}

#[test]
fn arguments_of_given_keys() {
    let args = StartArgs::new(
        &ctx(),
        "acc",
        "secret".to_string(),
        "signer".to_string(),
        &vec![0xab],
        &vec![0xcd, 0xef],
        &cfg(),
    );
    assert_eq!(
        args,
        StartArgs {
            account_id: "acc".to_string(),
            account_sk: "secret".to_string(),
            sign_sk: Some("signer".to_string()),
            cipher_pk: "ab".to_string(),
            cipher_sk: "cdef".to_string(),
            ..expected_args()
        }
    );
}

#[test]
fn different_cipher_keys_have_different_texts() {
    let texts: Vec<String> = (0u8..=255)
        .map(|b| {
            Node::run(&ctx(), "a", ACCOUNT_SK, &cfg(), vec![b], vec![])
                .ok()
                .unwrap()
                .start
                .cipher_pk
        })
        .collect();
    for (i, text) in texts.iter().enumerate() {
        assert_eq!(text, &format!("{:02x}", i));
    }
}

#[test]
fn start_of_a_node_whose_keys_are_at_hand() {
    let setup = check(SignKey::Account {
        public_key: "p".to_string(),
    })
    .attached
    .service;
    let start = NodeStart::new(&ctx(), setup, "secret".to_string(), "signer".to_string());
    assert_eq!(
        start.start,
        StartArgs {
            account_id: "a".to_string(),
            account_sk: "secret".to_string(),
            sign_sk: Some("signer".to_string()),
            cipher_pk: "01".to_string(),
            cipher_sk: "02".to_string(),
            ..expected_args()
        }
    );
    assert_eq!(start.network, "mpc");
    assert_eq!(start.setup.account_sk, ACCOUNT_SK);
}

#[test]
fn any_config_is_kept_with_the_port_that_nodes_serve() {
    let config = NodeConfig {
        web_port: 8080,
        account_id: "b".to_string(),
        account_sk: ACCOUNT_SK.to_string(),
        cipher_pk: vec![4],
        cipher_sk: vec![5, 6],
        cfg: cfg(),
    };
    let start = Node::restart(&ctx(), config).ok().unwrap();
    assert_eq!(start.start.web_port, 3000);
    let kept = launch(start, "c7", "172.18.0.8", 5).kill();
    assert_eq!(
        kept,
        NodeConfig {
            web_port: 3000,
            account_id: "b".to_string(),
            account_sk: ACCOUNT_SK.to_string(),
            cipher_pk: vec![4],
            cipher_sk: vec![5, 6],
            cfg: cfg(),
        }
    );
}
