//! A node of the signing network.

use crate::config::{Context, MultichainConfig, NodeConfig, NodeConfigView};
use crate::docker::{network_ip_address, Inspection, NetworkError, NetworkErrorView};
use crate::keys::{
    account_public_key, derive_account_public_key, derive_ed25519_key, derive_public_key,
    ed25519_key_from_seed, hex_text, parse_account_public_key, parse_secret_key, public_key,
    secret_key, KeyError, KeyErrorView,
};
use crate::launch::{
    AddressFamily, Attached, Attaching, ContainerPlan, Image, ImageView, PortRequest, Starting,
    WaitFor, WaitForView,
};
use crate::start_args::{start_args, StartArgs, StartArgsView};
use crate::text::{
    decimal, decimal_text, http_url, http_url_text, join, law_address_names_one_endpoint,
    law_addresses_of_container_ports,
};
use vstd::prelude::*;

verus! {

/// A running node.
#[derive(Debug, PartialEq, Eq)]
pub struct Node {
    pub container_id: String,
    /// Where containers of the network reach the node.
    pub address: String,
    pub account_id: String,
    pub account_sk: String,
    /// Where the host reaches the node.
    pub local_address: String,
    pub cipher_pk: Vec<u8>,
    pub cipher_sk: Vec<u8>,
    pub sign_pk: String,
    pub cfg: MultichainConfig,
}

/// A [`Node`] with its texts and keys as sequences.
#[verifier::ext_equal]
pub struct NodeView {
    pub container_id: Seq<char>,
    pub address: Seq<char>,
    pub account_id: Seq<char>,
    pub account_sk: Seq<char>,
    pub local_address: Seq<char>,
    pub cipher_pk: Seq<u8>,
    pub cipher_sk: Seq<u8>,
    pub sign_pk: Seq<char>,
    pub cfg: MultichainConfig,
}

impl View for Node {
    type V = NodeView;

    open spec fn view(&self) -> NodeView {
        NodeView {
            container_id: self.container_id@,
            address: self.address@,
            account_id: self.account_id@,
            account_sk: self.account_sk@,
            local_address: self.local_address@,
            cipher_pk: self.cipher_pk@,
            cipher_sk: self.cipher_sk@,
            sign_pk: self.sign_pk@,
            cfg: self.cfg,
        }
    }
}

/// The public key that a node will sign under.
pub enum SignKey {
    /// The one of the signing key, still to be read as a key of an account.
    Signer { public_key: String },
    /// The one of the node's account.
    Account { public_key: String },
}

/// A [`SignKey`] with its text as a sequence.
pub enum SignKeyView {
    Signer { public_key: Seq<char> },
    Account { public_key: Seq<char> },
}

impl View for SignKey {
    type V = SignKeyView;

    open spec fn view(&self) -> SignKeyView {
        match *self {
            SignKey::Signer { public_key } => SignKeyView::Signer { public_key: public_key@ },
            SignKey::Account { public_key } => SignKeyView::Account { public_key: public_key@ },
        }
    }
}

/// What a launch of a node keeps in mind.
pub struct NodeSetup {
    pub account_id: String,
    pub account_sk: String,
    pub cipher_pk: Vec<u8>,
    pub cipher_sk: Vec<u8>,
    pub sign_key: SignKey,
    pub cfg: MultichainConfig,
}

/// A [`NodeSetup`] with its texts and keys as sequences.
#[verifier::ext_equal]
pub struct NodeSetupView {
    pub account_id: Seq<char>,
    pub account_sk: Seq<char>,
    pub cipher_pk: Seq<u8>,
    pub cipher_sk: Seq<u8>,
    pub sign_key: SignKeyView,
    pub cfg: MultichainConfig,
}

impl View for NodeSetup {
    type V = NodeSetupView;

    open spec fn view(&self) -> NodeSetupView {
        NodeSetupView {
            account_id: self.account_id@,
            account_sk: self.account_sk@,
            cipher_pk: self.cipher_pk@,
            cipher_sk: self.cipher_sk@,
            sign_key: self.sign_key@,
            cfg: self.cfg,
        }
    }
}

/// A node is to be started: its arguments are to be written out as a command line.
pub struct NodeStart<O> {
    pub image: Image,
    pub network: String,
    pub start: StartArgs<O>,
    pub setup: NodeSetup,
}

/// The image that a node is run from.
pub open spec fn node_image() -> ImageView {
    ImageView {
        name: "near/mpc-recovery-node"@,
        tag: "latest"@,
        wait_for: seq![WaitForView::Nothing],
        exposed_ports: seq![Node::CONTAINER_PORT],
        env_vars: seq![
            ("RUST_LOG"@, "mpc_recovery_node=DEBUG"@),
            ("RUST_BACKTRACE"@, "1"@),
        ],
        entrypoint: None,
    }
}

/// The secret key that all nodes sign with.
pub open spec fn signing_key() -> Seq<char> {
    ed25519_key_from_seed("integration-test"@)
}

/// The arguments of a node with the given account and keys. There are none if the account's
/// key is not one.
pub open spec fn node_start_args<O>(
    ctx: Context<O>,
    account_id: Seq<char>,
    account_sk: Seq<char>,
    cipher_pk: Seq<u8>,
    cipher_sk: Seq<u8>,
    cfg: MultichainConfig,
) -> Result<StartArgsView, KeyErrorView> {
    match secret_key(account_sk) {
        Ok(account_key) => Ok(
            start_args(ctx, account_id, account_key, signing_key(), cipher_pk, cipher_sk, cfg),
        ),
        Err(error) => Err(error),
    }
}

/// What a node started for the first time keeps in mind: it signs under the signing key.
pub open spec fn first_setup(
    account_id: Seq<char>,
    account_sk: Seq<char>,
    cipher_pk: Seq<u8>,
    cipher_sk: Seq<u8>,
    cfg: MultichainConfig,
) -> NodeSetupView {
    NodeSetupView {
        account_id,
        account_sk,
        cipher_pk,
        cipher_sk,
        sign_key: SignKeyView::Signer { public_key: public_key(signing_key()) },
        cfg,
    }
}

/// What a node started again keeps in mind: it signs under the key of its account.
pub open spec fn restart_setup(config: NodeConfigView) -> NodeSetupView {
    NodeSetupView {
        account_id: config.account_id,
        account_sk: config.account_sk,
        cipher_pk: config.cipher_pk,
        cipher_sk: config.cipher_sk,
        sign_key: SignKeyView::Account { public_key: public_key(config.account_sk) },
        cfg: config.cfg,
    }
}

/// What is known of a node once it has an address and a port on the host.
pub open spec fn node_record(
    container_id: Seq<char>,
    ip_address: Seq<char>,
    setup: NodeSetupView,
    host_port: u16,
    sign_pk: Seq<char>,
) -> NodeView {
    NodeView {
        container_id,
        address: http_url(ip_address, Node::CONTAINER_PORT),
        account_id: setup.account_id,
        account_sk: setup.account_sk,
        local_address: http_url("localhost"@, host_port),
        cipher_pk: setup.cipher_pk,
        cipher_sk: setup.cipher_sk,
        sign_pk,
        cfg: setup.cfg,
    }
}

/// What is kept of a node that is stopped.
pub open spec fn kill_config(node: NodeView) -> NodeConfigView {
    NodeConfigView {
        web_port: Node::CONTAINER_PORT,
        account_id: node.account_id,
        account_sk: node.account_sk,
        cipher_pk: node.cipher_pk,
        cipher_sk: node.cipher_sk,
        cfg: node.cfg,
    }
}

fn copy_bytes(bytes: &Vec<u8>) -> (r: Vec<u8>)
    ensures
        r@ == bytes@,
{
    let r = bytes.clone();
    assert(r@ =~= bytes@);
    r
}

fn image() -> (r: Image)
    ensures
        r@ == node_image(),
        r.name@ == "near/mpc-recovery-node"@,
        r.tag@ == "latest"@,
        r.wait_for@ == seq![WaitFor::Nothing],
        r.exposed_ports@ == seq![3000u16],
        r.env_vars@.len() == 2,
        r.env_vars@[0].0@ == "RUST_LOG"@,
        r.env_vars@[0].1@ == "mpc_recovery_node=DEBUG"@,
        r.env_vars@[1].0@ == "RUST_BACKTRACE"@,
        r.env_vars@[1].1@ == "1"@,
        r.entrypoint is None,
{
    let r = Image {
        name: "near/mpc-recovery-node".to_string(),
        tag: "latest".to_string(),
        wait_for: vec![WaitFor::Nothing],
        exposed_ports: vec![Node::CONTAINER_PORT],
        env_vars: vec![
            ("RUST_LOG".to_string(), "mpc_recovery_node=DEBUG".to_string()),
            ("RUST_BACKTRACE".to_string(), "1".to_string()),
        ],
        entrypoint: None,
    };
    assert(r@ =~~= node_image());
    r
}

impl Node {
    /// The node's port inside the docker network; it does not have to be unique.
    pub const CONTAINER_PORT: u16 = 3000;

    /// Begins the launch of a new node for an account, with a fresh pair of cipher keys. The
    /// node signs under the public key of the signing key.
    pub fn run<O: Clone>(
        ctx: &Context<O>,
        account_id: &str,
        account_sk: &str,
        cfg: &MultichainConfig,
        cipher_pk: Vec<u8>,
        cipher_sk: Vec<u8>,
    ) -> (r: Result<NodeStart<O>, KeyError>)
        ensures
            match r {
                Ok(next) => {
                    &&& node_start_args(
                        *ctx,
                        account_id@,
                        account_sk@,
                        cipher_pk@,
                        cipher_sk@,
                        *cfg,
                    ) == Ok::<StartArgsView, KeyErrorView>(next.start@)
                    &&& cloned(ctx.storage_options, next.start.storage_options)
                    &&& next.image@ == node_image()
                    &&& next.network@ == ctx.docker_network@
                    &&& next.setup@ == first_setup(
                        account_id@,
                        account_sk@,
                        cipher_pk@,
                        cipher_sk@,
                        *cfg,
                    )
                    &&& sign_pk(next.setup@.sign_key) == Some(public_key(signing_key()))
                },
                Err(error) => secret_key(account_sk@) == Err::<Seq<char>, KeyErrorView>(error@),
            },
            r is Ok <==> secret_key(account_sk@) is Ok,
            r matches Ok(next) ==> {
                &&& next.start.near_rpc@ == ctx.lake_indexer.rpc_host_address@
                &&& next.start.mpc_contract_id@ == ctx.mpc_contract_id@
                &&& next.start.account_id@ == account_id@
                &&& next.start.account_sk@ == secret_key(account_sk@)->Ok_0
                &&& next.start.web_port == 3000
                &&& next.start.cipher_pk@ == hex_text(cipher_pk@)
                &&& next.start.cipher_sk@ == hex_text(cipher_sk@)
                &&& next.start.sign_sk is Some
                &&& next.start.sign_sk->0@ == ed25519_key_from_seed("integration-test"@)
                &&& next.start.indexer_options.s3_bucket@ == ctx.localstack.s3_bucket@
                &&& next.start.indexer_options.s3_region@ == ctx.localstack.s3_region@
                &&& next.start.indexer_options.s3_url is Some
                &&& next.start.indexer_options.s3_url->0@ == ctx.localstack.s3_host_address@
                &&& next.start.indexer_options.start_block_height == 0
                &&& next.start.my_address is None
                &&& next.start.min_triples == cfg.triple_cfg.min_triples
                &&& next.start.max_triples == cfg.triple_cfg.max_triples
                &&& next.start.max_concurrent_introduction
                    == cfg.triple_cfg.max_concurrent_introduction
                &&& next.start.max_concurrent_generation
                    == cfg.triple_cfg.max_concurrent_generation
                &&& next.start.min_presignatures == cfg.presig_cfg.min_presignatures
                &&& next.start.max_presignatures == cfg.presig_cfg.max_presignatures
                &&& next.setup.account_id@ == account_id@
                &&& next.setup.account_sk@ == account_sk@
                &&& next.setup.cipher_pk@ == cipher_pk@
                &&& next.setup.cipher_sk@ == cipher_sk@
                &&& next.setup.cfg == *cfg
                &&& next.setup.sign_key is Signer
                &&& next.setup.sign_key->Signer_public_key@ == public_key(
                    ed25519_key_from_seed("integration-test"@),
                )
                &&& next.network@ == ctx.docker_network@
                &&& next.image.name@ == "near/mpc-recovery-node"@
                &&& next.image.tag@ == "latest"@
                &&& next.image.wait_for@ == seq![WaitFor::Nothing]
                &&& next.image.exposed_ports@ == seq![3000u16]
                &&& next.image.env_vars@.len() == 2
                &&& next.image.env_vars@[0].0@ == "RUST_LOG"@
                &&& next.image.env_vars@[0].1@ == "mpc_recovery_node=DEBUG"@
                &&& next.image.env_vars@[1].0@ == "RUST_BACKTRACE"@
                &&& next.image.env_vars@[1].1@ == "1"@
                &&& next.image.entrypoint is None
            },
    {
        let sign_sk = derive_ed25519_key("integration-test");
        let sign_pk = derive_public_key(sign_sk.as_str());
        let account_key = match parse_secret_key(account_sk) {
            Ok(account_key) => account_key,
            Err(error) => {
                return Err(error);
            },
        };
        let setup = NodeSetup {
            account_id: account_id.to_string(),
            account_sk: account_sk.to_string(),
            cipher_pk,
            cipher_sk,
            sign_key: SignKey::Signer { public_key: sign_pk },
            cfg: *cfg,
        };
        Ok(NodeStart::new(ctx, setup, account_key, sign_sk))
    }

    /// What is kept of the node when its container is stopped.
    pub fn kill(&self) -> (r: NodeConfig)
        ensures
            r@ == kill_config(self@),
            r.web_port == 3000,
            r.account_id@ == self.account_id@,
            r.account_sk@ == self.account_sk@,
            r.cipher_pk@ == self.cipher_pk@,
            r.cipher_sk@ == self.cipher_sk@,
            r.cfg == self.cfg,
    {
        NodeConfig {
            web_port: Node::CONTAINER_PORT,
            account_id: self.account_id.clone(),
            account_sk: self.account_sk.clone(),
            cipher_pk: copy_bytes(&self.cipher_pk),
            cipher_sk: copy_bytes(&self.cipher_sk),
            cfg: self.cfg,
        }
    }

    /// Begins the launch of a node from what was kept of an earlier one.
    pub fn restart<O: Clone>(ctx: &Context<O>, config: NodeConfig) -> (r: Result<
        NodeStart<O>,
        KeyError,
    >)
        ensures
            match r {
                Ok(next) => {
                    &&& node_start_args(
                        *ctx,
                        config.account_id@,
                        config.account_sk@,
                        config.cipher_pk@,
                        config.cipher_sk@,
                        config.cfg,
                    ) == Ok::<StartArgsView, KeyErrorView>(next.start@)
                    &&& cloned(ctx.storage_options, next.start.storage_options)
                    &&& next.image@ == node_image()
                    &&& next.network@ == ctx.docker_network@
                    &&& next.setup@ == restart_setup(config@)
                },
                Err(error) => secret_key(config.account_sk@) == Err::<Seq<char>, KeyErrorView>(
                    error@,
                ),
            },
            r is Ok <==> secret_key(config.account_sk@) is Ok,
            r matches Ok(next) ==> {
                &&& next.start.near_rpc@ == ctx.lake_indexer.rpc_host_address@
                &&& next.start.mpc_contract_id@ == ctx.mpc_contract_id@
                &&& next.start.account_id@ == config.account_id@
                &&& next.start.account_sk@ == secret_key(config.account_sk@)->Ok_0
                &&& next.start.web_port == 3000
                &&& next.start.cipher_pk@ == hex_text(config.cipher_pk@)
                &&& next.start.cipher_sk@ == hex_text(config.cipher_sk@)
                &&& next.start.sign_sk is Some
                &&& next.start.sign_sk->0@ == ed25519_key_from_seed("integration-test"@)
                &&& next.start.indexer_options.s3_bucket@ == ctx.localstack.s3_bucket@
                &&& next.start.indexer_options.s3_region@ == ctx.localstack.s3_region@
                &&& next.start.indexer_options.s3_url is Some
                &&& next.start.indexer_options.s3_url->0@ == ctx.localstack.s3_host_address@
                &&& next.start.indexer_options.start_block_height == 0
                &&& next.start.my_address is None
                &&& next.start.min_triples == config.cfg.triple_cfg.min_triples
                &&& next.start.max_triples == config.cfg.triple_cfg.max_triples
                &&& next.start.max_concurrent_introduction
                    == config.cfg.triple_cfg.max_concurrent_introduction
                &&& next.start.max_concurrent_generation
                    == config.cfg.triple_cfg.max_concurrent_generation
                &&& next.start.min_presignatures == config.cfg.presig_cfg.min_presignatures
                &&& next.start.max_presignatures == config.cfg.presig_cfg.max_presignatures
                &&& next.setup.account_id@ == config.account_id@
                &&& next.setup.account_sk@ == config.account_sk@
                &&& next.setup.cipher_pk@ == config.cipher_pk@
                &&& next.setup.cipher_sk@ == config.cipher_sk@
                &&& next.setup.cfg == config.cfg
                &&& next.setup.sign_key is Account
                &&& next.setup.sign_key->Account_public_key@ == public_key(config.account_sk@)
                &&& next.network@ == ctx.docker_network@
                &&& next.image.name@ == "near/mpc-recovery-node"@
                &&& next.image.tag@ == "latest"@
                &&& next.image.wait_for@ == seq![WaitFor::Nothing]
                &&& next.image.exposed_ports@ == seq![3000u16]
                &&& next.image.env_vars@.len() == 2
                &&& next.image.env_vars@[0].0@ == "RUST_LOG"@
                &&& next.image.env_vars@[0].1@ == "mpc_recovery_node=DEBUG"@
                &&& next.image.env_vars@[1].0@ == "RUST_BACKTRACE"@
                &&& next.image.env_vars@[1].1@ == "1"@
                &&& next.image.entrypoint is None
            },
    {
        let sign_sk = derive_ed25519_key("integration-test");
        let account_key = match parse_secret_key(config.account_sk.as_str()) {
            Ok(account_key) => account_key,
            Err(error) => {
                return Err(error);
            },
        };
        let account_pk = derive_account_public_key(config.account_sk.as_str());
        let setup = NodeSetup {
            account_id: config.account_id,
            account_sk: config.account_sk,
            cipher_pk: config.cipher_pk,
            cipher_sk: config.cipher_sk,
            sign_key: SignKey::Account { public_key: account_pk },
            cfg: config.cfg,
        };
        Ok(NodeStart::new(ctx, setup, account_key, sign_sk))
    }
}

impl<O: Clone> NodeStart<O> {
    /// Begins the launch of a node whose keys are at hand: the secret key of its account and
    /// the one that it signs with, as texts.
    pub fn new(
        ctx: &Context<O>,
        setup: NodeSetup,
        account_key: String,
        sign_key: String,
    ) -> (r: NodeStart<O>)
        ensures
            r.start@ == start_args(
                *ctx,
                setup@.account_id,
                account_key@,
                sign_key@,
                setup@.cipher_pk,
                setup@.cipher_sk,
                setup@.cfg,
            ),
            cloned(ctx.storage_options, r.start.storage_options),
            r.image@ == node_image(),
            r.network@ == ctx.docker_network@,
            r.setup == setup,
            r.start.near_rpc@ == ctx.lake_indexer.rpc_host_address@,
            r.start.mpc_contract_id@ == ctx.mpc_contract_id@,
            r.start.account_id@ == setup.account_id@,
            r.start.account_sk@ == account_key@,
            r.start.web_port == 3000,
            r.start.cipher_pk@ == hex_text(setup.cipher_pk@),
            r.start.cipher_sk@ == hex_text(setup.cipher_sk@),
            r.start.sign_sk is Some,
            r.start.sign_sk->0@ == sign_key@,
            r.start.indexer_options.s3_bucket@ == ctx.localstack.s3_bucket@,
            r.start.indexer_options.s3_region@ == ctx.localstack.s3_region@,
            r.start.indexer_options.s3_url is Some,
            r.start.indexer_options.s3_url->0@ == ctx.localstack.s3_host_address@,
            r.start.indexer_options.start_block_height == 0,
            r.start.my_address is None,
            r.start.min_triples == setup.cfg.triple_cfg.min_triples,
            r.start.max_triples == setup.cfg.triple_cfg.max_triples,
            r.start.max_concurrent_introduction == setup.cfg.triple_cfg.max_concurrent_introduction,
            r.start.max_concurrent_generation == setup.cfg.triple_cfg.max_concurrent_generation,
            r.start.min_presignatures == setup.cfg.presig_cfg.min_presignatures,
            r.start.max_presignatures == setup.cfg.presig_cfg.max_presignatures,
            r.image.name@ == "near/mpc-recovery-node"@,
            r.image.tag@ == "latest"@,
            r.image.wait_for@ == seq![WaitFor::Nothing],
            r.image.exposed_ports@ == seq![3000u16],
            r.image.env_vars@.len() == 2,
            r.image.env_vars@[0].0@ == "RUST_LOG"@,
            r.image.env_vars@[0].1@ == "mpc_recovery_node=DEBUG"@,
            r.image.env_vars@[1].0@ == "RUST_BACKTRACE"@,
            r.image.env_vars@[1].1@ == "1"@,
            r.image.entrypoint is None,
    {
        let start = StartArgs::new(
            ctx,
            setup.account_id.as_str(),
            account_key,
            sign_key,
            &setup.cipher_pk,
            &setup.cipher_sk,
            &setup.cfg,
        );
        NodeStart { image: image(), network: ctx.docker_network.clone(), start, setup }
    }
}

impl<O> NodeStart<O> {
    /// The stage after the arguments were written out.
    pub open spec fn leads_to(self, args: Seq<Seq<char>>, next: Starting<NodeSetup>) -> bool {
        &&& next.plan.image@ == self.image@
        &&& next.plan.args.deep_view() == args
        &&& next.plan.network@ == self.network@
        &&& next.service@ == self.setup@
    }

    /// Takes the node's arguments, written out as a command line.
    pub fn arguments(self, args: Vec<String>) -> (r: Starting<NodeSetup>)
        ensures
            self.leads_to(args.deep_view(), r),
            r.plan.image == self.image,
            r.plan.args == args,
            r.plan.network == self.network,
            r.service == self.setup,
    {
        Starting {
            plan: ContainerPlan { image: self.image, args, network: self.network },
            service: self.setup,
        }
    }
}

/// A command that is run in a container and waited for.
#[derive(Debug, PartialEq, Eq)]
pub struct ExecCommand {
    pub cmd: String,
    pub ready_conditions: Vec<WaitFor>,
}

/// The command that ends when the node answers requests on the given port.
pub open spec fn ready_command(port: u16) -> Seq<char> {
    "bash -c 'while [[ \"$(curl -s -o /dev/null -w ''%{http_code}'' localhost:"@
        + decimal(port as nat)
        + ")\" != \"200\" ]]; do sleep 1; done'"@
}

/// The node runs under a port of the host, and is waited for until it is ready.
pub struct NodeCheck {
    pub attached: Attached<NodeSetup>,
    pub host_port: u16,
}

/// The text that is no public key of an account.
#[derive(Debug, PartialEq, Eq)]
pub struct SignKeyError {
    pub public_key: String,
}

/// The public key that a node signs under, if it is one.
pub open spec fn sign_pk(sign_key: SignKeyView) -> Option<Seq<char>> {
    match sign_key {
        SignKeyView::Signer { public_key } => account_public_key(public_key),
        SignKeyView::Account { public_key } => Some(public_key),
    }
}

/// The text of a public key, whether or not it was read as one.
pub open spec fn sign_key_text(sign_key: SignKeyView) -> Seq<char> {
    match sign_key {
        SignKeyView::Signer { public_key } => public_key,
        SignKeyView::Account { public_key } => public_key,
    }
}

impl Attached<NodeSetup> {
    /// The port to look up.
    pub fn port_request(&self) -> (r: PortRequest)
        ensures
            r.family == AddressFamily::Ipv4,
            r.container_port == Node::CONTAINER_PORT,
            r.container_port == 3000,
    {
        PortRequest { family: AddressFamily::Ipv4, container_port: Node::CONTAINER_PORT }
    }

    /// Takes the port on the host.
    pub fn mapped(self, host_port: u16) -> (r: NodeCheck)
        ensures
            r.attached == self,
            r.host_port == host_port,
    {
        NodeCheck { attached: self, host_port }
    }
}

impl NodeCheck {
    /// The record of the node, if it signs under the given public key.
    pub open spec fn record(self, sign_pk: Seq<char>) -> NodeView {
        node_record(
            self.attached.container_id@,
            self.attached.ip_address@,
            self.attached.service@,
            self.host_port,
            sign_pk,
        )
    }

    /// The command to run in the container and to wait for.
    pub fn exec(&self) -> (r: ExecCommand)
        ensures
            r.cmd@ == ready_command(Node::CONTAINER_PORT),
            r.cmd@
                == "bash -c 'while [[ \"$(curl -s -o /dev/null -w ''%{http_code}'' localhost:"@
                + "3000"@ + ")\" != \"200\" ]]; do sleep 1; done'"@,
            r.ready_conditions.deep_view() == seq![
                WaitForView::StdOutMessage { message: "node is ready to accept connections"@ },
            ],
            r.ready_conditions@.len() == 1,
            r.ready_conditions@[0] matches WaitFor::StdOutMessage { message } && message@
                == "node is ready to accept connections"@,
    {
        proof {
            law_addresses_of_container_ports(Seq::empty());
        }
        let port = decimal_text(Node::CONTAINER_PORT);
        let mut cmd = join(
            "bash -c 'while [[ \"$(curl -s -o /dev/null -w ''%{http_code}'' localhost:",
            port.as_str(),
        );
        cmd.append(")\" != \"200\" ]]; do sleep 1; done'");
        let ready_conditions = vec![
            WaitFor::StdOutMessage { message: "node is ready to accept connections".to_string() },
        ];
        assert(ready_conditions.deep_view() =~= seq![
            WaitForView::StdOutMessage { message: "node is ready to accept connections"@ },
        ]);
        ExecCommand { cmd, ready_conditions }
    }

    /// Ends the launch when the command has ended.
    pub fn ready(self) -> (r: Result<Node, SignKeyError>)
        ensures
            match r {
                Ok(node) => {
                    &&& sign_pk(self.attached.service@.sign_key) == Some(node@.sign_pk)
                    &&& node@ == self.record(node@.sign_pk)
                },
                Err(error) => {
                    &&& sign_pk(self.attached.service@.sign_key) is None
                    &&& error.public_key@ == sign_key_text(self.attached.service@.sign_key)
                },
            },
            match self.attached.service.sign_key {
                SignKey::Account { public_key: text } => r is Ok && r->Ok_0.sign_pk@ == text@,
                SignKey::Signer { public_key: text } => match account_public_key(text@) {
                    Some(key) => r is Ok && r->Ok_0.sign_pk@ == key,
                    None => r is Err && r->Err_0.public_key@ == text@,
                },
            },
            r matches Ok(node) ==> {
                &&& node.container_id@ == self.attached.container_id@
                &&& node.address@ == "http://"@ + self.attached.ip_address@ + ":3000"@
                &&& node.account_id@ == self.attached.service.account_id@
                &&& node.account_sk@ == self.attached.service.account_sk@
                &&& node.local_address@ == "http://"@ + "localhost"@ + ":"@ + decimal(
                    self.host_port as nat,
                )
                &&& node.cipher_pk@ == self.attached.service.cipher_pk@
                &&& node.cipher_sk@ == self.attached.service.cipher_sk@
                &&& node.cfg == self.attached.service.cfg
            },
    {
        let sign_pk = match &self.attached.service.sign_key {
            SignKey::Signer { public_key } => parse_account_public_key(public_key.as_str()),
            SignKey::Account { public_key } => Some(public_key.clone()),
        };
        self.ready_under(sign_pk)
    }

    /// Ends the launch with the public key that the node signs under, if it has one.
    pub fn ready_under(self, sign_pk: Option<String>) -> (r: Result<Node, SignKeyError>)
        ensures
            match sign_pk {
                Some(sign_pk) => r is Ok && r->Ok_0@ == self.record(sign_pk@),
                None => r is Err && r->Err_0.public_key@ == sign_key_text(
                    self.attached.service@.sign_key,
                ),
            },
            r is Ok <==> sign_pk is Some,
            r matches Ok(node) ==> {
                &&& node.sign_pk@ == sign_pk->0@
                &&& node.container_id@ == self.attached.container_id@
                &&& node.address@ == "http://"@ + self.attached.ip_address@ + ":3000"@
                &&& node.account_id@ == self.attached.service.account_id@
                &&& node.account_sk@ == self.attached.service.account_sk@
                &&& node.local_address@ == "http://"@ + "localhost"@ + ":"@ + decimal(
                    self.host_port as nat,
                )
                &&& node.cipher_pk@ == self.attached.service.cipher_pk@
                &&& node.cipher_sk@ == self.attached.service.cipher_sk@
                &&& node.cfg == self.attached.service.cfg
            },
            r matches Err(error) ==> match self.attached.service.sign_key {
                SignKey::Signer { public_key: text } => error.public_key@ == text@,
                SignKey::Account { public_key: text } => error.public_key@ == text@,
            },
    {
        proof {
            law_addresses_of_container_ports(self.attached.ip_address@);
        }
        let setup = self.attached.service;
        match sign_pk {
            Some(sign_pk) => Ok(
                Node {
                    address: http_url_text(
                        self.attached.ip_address.as_str(),
                        Node::CONTAINER_PORT,
                    ),
                    container_id: self.attached.container_id,
                    account_id: setup.account_id,
                    account_sk: setup.account_sk,
                    local_address: http_url_text("localhost", self.host_port),
                    cipher_pk: setup.cipher_pk,
                    cipher_sk: setup.cipher_sk,
                    sign_pk,
                    cfg: setup.cfg,
                },
            ),
            None => match setup.sign_key {
                SignKey::Signer { public_key } => Err(SignKeyError { public_key }),
                SignKey::Account { public_key } => Err(SignKeyError { public_key }),
            },
        }
    }
}

/// A launch of a node ends with a record of the container that was run: its address is made
/// from the one Docker reported for the network of the launch, and the account, the cipher
/// keys and the settings are those that the launch began with.
pub proof fn law_node_launch<O>(
    first: NodeStart<O>,
    args: Seq<Seq<char>>,
    starting: Starting<NodeSetup>,
    container_id: Seq<char>,
    attaching: Attaching<NodeSetup>,
    inspection: Inspection,
    attached: Attached<NodeSetup>,
    host_port: u16,
    sign_pk: Seq<char>,
    ip_address: Seq<char>,
)
    requires
        first.leads_to(args, starting),
        starting.leads_to(container_id, attaching),
        attaching.leads_to(inspection, Ok::<Attached<NodeSetup>, NetworkError>(attached)),
        network_ip_address(container_id, inspection@, first.network@) == Ok::<
            Seq<char>,
            NetworkErrorView,
        >(ip_address),
    ensures
        (NodeCheck { attached, host_port }).record(sign_pk) == node_record(
            container_id,
            ip_address,
            first.setup@,
            host_port,
            sign_pk,
        ),
        ({
            let node = (NodeCheck { attached, host_port }).record(sign_pk);
            &&& node.container_id == container_id
            &&& node.address == "http://"@ + ip_address + ":3000"@
            &&& node.local_address == "http://"@ + "localhost"@ + ":"@ + decimal(host_port as nat)
            &&& node.account_id == first.setup.account_id@
            &&& node.account_sk == first.setup.account_sk@
            &&& node.cipher_pk == first.setup.cipher_pk@
            &&& node.cipher_sk == first.setup.cipher_sk@
            &&& node.sign_pk == sign_pk
            &&& node.cfg == first.setup.cfg
        }),
{
    law_addresses_of_container_ports(ip_address);
}

/// A launch that began with a first run ends with a record of what that run was given, each
/// thing under its own name.
pub proof fn law_first_launch_records_what_it_was_given<O>(
    account_id: Seq<char>,
    account_sk: Seq<char>,
    cipher_pk: Seq<u8>,
    cipher_sk: Seq<u8>,
    cfg: MultichainConfig,
    first: NodeStart<O>,
    args: Seq<Seq<char>>,
    starting: Starting<NodeSetup>,
    container_id: Seq<char>,
    attaching: Attaching<NodeSetup>,
    inspection: Inspection,
    attached: Attached<NodeSetup>,
    host_port: u16,
    sign_pk: Seq<char>,
)
    requires
        first.setup@ == first_setup(account_id, account_sk, cipher_pk, cipher_sk, cfg),
        first.leads_to(args, starting),
        starting.leads_to(container_id, attaching),
        attaching.leads_to(inspection, Ok::<Attached<NodeSetup>, NetworkError>(attached)),
    ensures
        ({
            let node = (NodeCheck { attached, host_port }).record(sign_pk);
            &&& node.account_id == account_id
            &&& node.account_sk == account_sk
            &&& node.cipher_pk == cipher_pk
            &&& node.cipher_sk == cipher_sk
            &&& node.cfg == cfg
        }),
{
}

/// A launch that began with a restart ends with a record of what the config held, each thing
/// under its own name.
pub proof fn law_second_launch_records_what_was_kept<O>(
    config: NodeConfig,
    first: NodeStart<O>,
    args: Seq<Seq<char>>,
    starting: Starting<NodeSetup>,
    container_id: Seq<char>,
    attaching: Attaching<NodeSetup>,
    inspection: Inspection,
    attached: Attached<NodeSetup>,
    host_port: u16,
    sign_pk: Seq<char>,
)
    requires
        first.setup@ == restart_setup(config@),
        first.leads_to(args, starting),
        starting.leads_to(container_id, attaching),
        attaching.leads_to(inspection, Ok::<Attached<NodeSetup>, NetworkError>(attached)),
    ensures
        ({
            let node = (NodeCheck { attached, host_port }).record(sign_pk);
            &&& node.account_id == config.account_id@
            &&& node.account_sk == config.account_sk@
            &&& node.cipher_pk == config.cipher_pk@
            &&& node.cipher_sk == config.cipher_sk@
            &&& node.cfg == config.cfg
        }),
{
}

/// A node that is killed and started again in the same context is given the same arguments
/// as when it was first run: its account, its cipher keys and its settings survive.
pub proof fn law_restart_gives_the_same_arguments<O>(
    ctx: Context<O>,
    account_id: Seq<char>,
    account_sk: Seq<char>,
    cipher_pk: Seq<u8>,
    cipher_sk: Seq<u8>,
    cfg: MultichainConfig,
    container_id: Seq<char>,
    ip_address: Seq<char>,
    host_port: u16,
    sign_pk: Seq<char>,
)
    ensures
        ({
            let node = node_record(
                container_id,
                ip_address,
                first_setup(account_id, account_sk, cipher_pk, cipher_sk, cfg),
                host_port,
                sign_pk,
            );
            let config = kill_config(node);
            node_start_args(
                ctx,
                config.account_id,
                config.account_sk,
                config.cipher_pk,
                config.cipher_sk,
                config.cfg,
            ) == node_start_args(ctx, account_id, account_sk, cipher_pk, cipher_sk, cfg)
        }),
{
}

/// A node that is killed and started again differs from the one before in where it runs and
/// in the key it signs under, which is now the one of its account, and in nothing else.
pub proof fn law_restart_keeps_the_node(
    node: NodeView,
    container_id: Seq<char>,
    ip_address: Seq<char>,
    host_port: u16,
)
    ensures
        ({
            let setup = restart_setup(kill_config(node));
            &&& sign_pk(setup.sign_key) == Some(public_key(node.account_sk))
            &&& node_record(
                container_id,
                ip_address,
                setup,
                host_port,
                public_key(node.account_sk),
            ) == (NodeView {
                container_id,
                address: http_url(ip_address, Node::CONTAINER_PORT),
                local_address: http_url("localhost"@, host_port),
                sign_pk: public_key(node.account_sk),
                ..node
            })
        }),
{
}

/// Killing a node that was started from a config keeps that config, wherever the node ran,
/// with the port that nodes serve.
pub proof fn law_kill_after_restart_keeps_the_config(
    config: NodeConfigView,
    container_id: Seq<char>,
    ip_address: Seq<char>,
    host_port: u16,
    sign_pk: Seq<char>,
)
    ensures
        kill_config(
            node_record(
                container_id,
                ip_address,
                restart_setup(config),
                host_port,
                sign_pk,
            ),
        ) == (NodeConfigView { web_port: Node::CONTAINER_PORT, ..config }),
{
}

/// Nodes have addresses of their own: two nodes share one only if Docker gave their
/// containers the same address, and one on the host only if they have the same port there.
pub proof fn law_nodes_have_their_own_addresses(
    container_a: Seq<char>,
    ip_a: Seq<char>,
    setup_a: NodeSetupView,
    host_port_a: u16,
    sign_pk_a: Seq<char>,
    container_b: Seq<char>,
    ip_b: Seq<char>,
    setup_b: NodeSetupView,
    host_port_b: u16,
    sign_pk_b: Seq<char>,
)
    ensures
        ({
            let a = node_record(container_a, ip_a, setup_a, host_port_a, sign_pk_a);
            let b = node_record(container_b, ip_b, setup_b, host_port_b, sign_pk_b);
            &&& a.address == b.address <==> ip_a == ip_b
            &&& a.local_address == b.local_address <==> host_port_a == host_port_b
        }),
{
    let port = Node::CONTAINER_PORT;
    if http_url(ip_a, port) == http_url(ip_b, port) {
        law_address_names_one_endpoint(ip_a, port, ip_b, port);
    }
    let local = "localhost"@;
    if http_url(local, host_port_a) == http_url(local, host_port_b) {
        law_address_names_one_endpoint(local, host_port_a, local, host_port_b);
    }
}

/// The port of a node that is looked up on the host is one that its container exposes.
pub proof fn law_node_port_is_exposed(request: PortRequest)
    requires
        request.container_port == Node::CONTAINER_PORT,
    ensures
        node_image().exposed_ports.contains(request.container_port),
{
    assert(node_image().exposed_ports[0] == Node::CONTAINER_PORT);
}

/// What is kept of a killed node is what the node had, each thing under its own name: the
/// public cipher key stays the public one and the secret one the secret one.
pub proof fn law_kill_keeps_everything_under_its_own_name(node: NodeView)
    ensures
        kill_config(node).cipher_pk == node.cipher_pk,
        kill_config(node).cipher_sk == node.cipher_sk,
        kill_config(node).account_id == node.account_id,
        kill_config(node).account_sk == node.account_sk,
        kill_config(node).cfg == node.cfg,
        kill_config(node).web_port == 3000,
{
}

/// Where a node ran and what it signed under has no say in what is kept of it.
pub proof fn law_kill_forgets_where_the_node_ran(a: NodeView, b: NodeView)
    requires
        a.account_id == b.account_id,
        a.account_sk == b.account_sk,
        a.cipher_pk == b.cipher_pk,
        a.cipher_sk == b.cipher_sk,
        a.cfg == b.cfg,
    ensures
        kill_config(a) == kill_config(b),
{
}

/// The record of a launched node holds what the launch kept in mind, each thing under its
/// own name, next to where the node is reached: inside the network at the address that
/// Docker reported under the port of all nodes, and from the host at the port looked up.
pub proof fn law_record_holds_everything_under_its_own_name(
    container_id: Seq<char>,
    ip_address: Seq<char>,
    setup: NodeSetupView,
    host_port: u16,
    sign_pk: Seq<char>,
)
    ensures
        ({
            let node = node_record(container_id, ip_address, setup, host_port, sign_pk);
            &&& node.container_id == container_id
            &&& node.address == "http://"@ + ip_address + ":3000"@
            &&& node.account_id == setup.account_id
            &&& node.account_sk == setup.account_sk
            &&& node.local_address == "http://"@ + "localhost"@ + ":"@ + decimal(host_port as nat)
            &&& node.cipher_pk == setup.cipher_pk
            &&& node.cipher_sk == setup.cipher_sk
            &&& node.sign_pk == sign_pk
            &&& node.cfg == setup.cfg
        }),
{
    law_addresses_of_container_ports(ip_address);
}

/// A first run keeps in mind what it was given, each thing under its own name.
pub proof fn law_first_run_keeps_what_it_was_given(
    account_id: Seq<char>,
    account_sk: Seq<char>,
    cipher_pk: Seq<u8>,
    cipher_sk: Seq<u8>,
    cfg: MultichainConfig,
)
    ensures
        ({
            let setup = first_setup(account_id, account_sk, cipher_pk, cipher_sk, cfg);
            &&& setup.account_id == account_id
            &&& setup.account_sk == account_sk
            &&& setup.cipher_pk == cipher_pk
            &&& setup.cipher_sk == cipher_sk
            &&& setup.cfg == cfg
            &&& sign_key_text(setup.sign_key) == public_key(
                ed25519_key_from_seed("integration-test"@),
            )
            &&& setup.sign_key is Signer
        }),
{
}

/// A restart keeps in mind what was kept of the earlier node, each thing under its own name.
/// The port in the config has no say in it.
pub proof fn law_restart_keeps_what_was_kept(config: NodeConfigView, web_port: u16)
    ensures
        ({
            let setup = restart_setup(config);
            &&& setup.account_id == config.account_id
            &&& setup.account_sk == config.account_sk
            &&& setup.cipher_pk == config.cipher_pk
            &&& setup.cipher_sk == config.cipher_sk
            &&& setup.cfg == config.cfg
            &&& sign_pk(setup.sign_key) == Some(public_key(config.account_sk))
            &&& restart_setup(NodeConfigView { web_port, ..config }) == setup
        }),
{
}

/// From a first run over its death to a second one: the cipher keys, the account and the
/// settings that the first run was given are those of every record and config on the way.
pub proof fn law_keys_survive_kill_and_restart(
    account_id: Seq<char>,
    account_sk: Seq<char>,
    cipher_pk: Seq<u8>,
    cipher_sk: Seq<u8>,
    cfg: MultichainConfig,
    container_a: Seq<char>,
    ip_a: Seq<char>,
    host_port_a: u16,
    sign_pk_a: Seq<char>,
    container_b: Seq<char>,
    ip_b: Seq<char>,
    host_port_b: u16,
    sign_pk_b: Seq<char>,
)
    ensures
        ({
            let setup = first_setup(account_id, account_sk, cipher_pk, cipher_sk, cfg);
            let a = node_record(container_a, ip_a, setup, host_port_a, sign_pk_a);
            let config = kill_config(a);
            let b = node_record(
                container_b,
                ip_b,
                restart_setup(config),
                host_port_b,
                sign_pk_b,
            );
            &&& a.cipher_pk == cipher_pk && a.cipher_sk == cipher_sk
            &&& config.cipher_pk == cipher_pk && config.cipher_sk == cipher_sk
            &&& b.cipher_pk == cipher_pk && b.cipher_sk == cipher_sk
            &&& a.account_id == account_id && a.account_sk == account_sk && a.cfg == cfg
            &&& config.account_id == account_id && config.account_sk == account_sk
            &&& config.cfg == cfg
            &&& b.account_id == account_id && b.account_sk == account_sk && b.cfg == cfg
        }),
{
}

/// A node gets arguments if and only if the key of its account is one, and then they carry
/// that key as it is printed, the signing key of all nodes, every setting under its own
/// name, and where the node finds the chain and the contract.
pub proof fn law_arguments_follow_from_account_keys_and_settings<O>(
    ctx: Context<O>,
    account_id: Seq<char>,
    account_sk: Seq<char>,
    cipher_pk: Seq<u8>,
    cipher_sk: Seq<u8>,
    cfg: MultichainConfig,
)
    ensures
        ({
            let r = node_start_args(ctx, account_id, account_sk, cipher_pk, cipher_sk, cfg);
            &&& r is Ok <==> secret_key(account_sk) is Ok
            &&& r matches Err(error) ==> secret_key(account_sk) == Err::<
                Seq<char>,
                KeyErrorView,
            >(error)
            &&& r matches Ok(args) ==> {
                &&& args.account_id == account_id
                &&& secret_key(account_sk) == Ok::<Seq<char>, KeyErrorView>(args.account_sk)
                &&& args.sign_sk == Some(ed25519_key_from_seed("integration-test"@))
                &&& args.cipher_pk == hex_text(cipher_pk)
                &&& args.cipher_sk == hex_text(cipher_sk)
                &&& args.min_triples == cfg.triple_cfg.min_triples
                &&& args.max_triples == cfg.triple_cfg.max_triples
                &&& args.max_concurrent_introduction
                    == cfg.triple_cfg.max_concurrent_introduction
                &&& args.max_concurrent_generation == cfg.triple_cfg.max_concurrent_generation
                &&& args.min_presignatures == cfg.presig_cfg.min_presignatures
                &&& args.max_presignatures == cfg.presig_cfg.max_presignatures
                &&& args.near_rpc == ctx.lake_indexer.rpc_host_address@
                &&& args.mpc_contract_id == ctx.mpc_contract_id@
                &&& args.indexer_options.s3_bucket == ctx.localstack.s3_bucket@
                &&& args.indexer_options.s3_region == ctx.localstack.s3_region@
                &&& args.indexer_options.s3_url == Some(ctx.localstack.s3_host_address@)
                &&& args.indexer_options.start_block_height == 0
                &&& args.web_port == 3000
                &&& args.my_address is None
            }
        }),
{
}

/// A node that signs under the key of its account signs under that very key; one that signs
/// under the signing key signs under what the signing key's text is read as.
pub proof fn law_node_signs_under_its_key(text: Seq<char>)
    ensures
        sign_pk(SignKeyView::Account { public_key: text }) == Some(text),
        sign_pk(SignKeyView::Signer { public_key: text }) == account_public_key(text),
        sign_key_text(SignKeyView::Account { public_key: text }) == text,
        sign_key_text(SignKeyView::Signer { public_key: text }) == text,
{
}

/// The image of a node, its arguments as they were written out, its network and what it kept
/// in mind are what the launch goes on with.
pub proof fn law_arguments_are_run_as_written<O>(
    first: NodeStart<O>,
    args: Seq<Seq<char>>,
    next: Starting<NodeSetup>,
)
    requires
        first.leads_to(args, next),
    ensures
        next.plan.args.deep_view() == args,
        next.plan.image@ == first.image@,
        next.plan.network@ == first.network@,
        next.service@ == first.setup@,
{
}

/// A node, what a launch keeps in mind and what is kept of a node are seen as they are, each
/// thing under its own name.
pub proof fn law_nodes_are_seen_as_they_are(node: Node, setup: NodeSetup, config: NodeConfig)
    ensures
        node@.container_id == node.container_id@,
        node@.address == node.address@,
        node@.account_id == node.account_id@,
        node@.account_sk == node.account_sk@,
        node@.local_address == node.local_address@,
        node@.cipher_pk == node.cipher_pk@,
        node@.cipher_sk == node.cipher_sk@,
        node@.sign_pk == node.sign_pk@,
        node@.cfg == node.cfg,
        setup@.account_id == setup.account_id@,
        setup@.account_sk == setup.account_sk@,
        setup@.cipher_pk == setup.cipher_pk@,
        setup@.cipher_sk == setup.cipher_sk@,
        setup@.cfg == setup.cfg,
        setup.sign_key is Signer <==> setup@.sign_key is Signer,
        setup.sign_key matches SignKey::Signer { public_key: text } ==> sign_key_text(
            setup@.sign_key,
        ) == text@,
        setup.sign_key matches SignKey::Account { public_key: text } ==> sign_key_text(
            setup@.sign_key,
        ) == text@,
        config@.web_port == config.web_port,
        config@.account_id == config.account_id@,
        config@.account_sk == config.account_sk@,
        config@.cipher_pk == config.cipher_pk@,
        config@.cipher_sk == config.cipher_sk@,
        config@.cfg == config.cfg,
{
}

} // verus!
