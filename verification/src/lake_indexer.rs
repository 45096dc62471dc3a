//! The NEAR Lake Indexer: a node that writes its blocks to an object store.

use crate::docker::{network_ip_address, Inspection, NetworkError, NetworkErrorView};
use crate::launch::{
    AddressFamily, Attached, Attaching, ContainerPlan, ContainerPlanView, Image, ImageView,
    PortRequest, Starting, WaitFor, WaitForView,
};
use crate::text::{decimal, http_url, http_url_text, law_addresses_of_container_ports};
use vstd::prelude::*;

verus! {

/// A running indexer container.
#[derive(Debug, PartialEq, Eq)]
pub struct LakeIndexer {
    pub container_id: String,
    pub bucket_name: String,
    pub region: String,
    /// Where containers of the network reach the node's RPC server.
    pub rpc_address: String,
    /// Where the host reaches the node's RPC server.
    pub rpc_host_address: String,
}

/// A [`LakeIndexer`] with its texts as sequences.
#[verifier::ext_equal]
pub struct LakeIndexerView {
    pub container_id: Seq<char>,
    pub bucket_name: Seq<char>,
    pub region: Seq<char>,
    pub rpc_address: Seq<char>,
    pub rpc_host_address: Seq<char>,
}

impl View for LakeIndexer {
    type V = LakeIndexerView;

    open spec fn view(&self) -> LakeIndexerView {
        LakeIndexerView {
            container_id: self.container_id@,
            bucket_name: self.bucket_name@,
            region: self.region@,
            rpc_address: self.rpc_address@,
            rpc_host_address: self.rpc_host_address@,
        }
    }
}

/// What a launch of the indexer keeps in mind.
pub struct LakeIndexerSetup {
    pub bucket_name: String,
    pub region: String,
}

/// The container that is run for the indexer.
pub open spec fn lake_indexer_plan(
    network: Seq<char>,
    s3_address: Seq<char>,
    bucket_name: Seq<char>,
    region: Seq<char>,
) -> ContainerPlanView {
    ContainerPlanView {
        image: ImageView {
            name: "ghcr.io/near/near-lake-indexer"@,
            tag: "node-1.38"@,
            wait_for: seq![WaitForView::StdErrMessage { message: "Starting Streamer"@ }],
            exposed_ports: seq![LakeIndexer::CONTAINER_RPC_PORT],
            env_vars: seq![
                ("AWS_ACCESS_KEY_ID"@, "FAKE_LOCALSTACK_KEY_ID"@),
                ("AWS_SECRET_ACCESS_KEY"@, "FAKE_LOCALSTACK_ACCESS_KEY"@),
            ],
            entrypoint: None,
        },
        args: seq![
            "--endpoint"@,
            s3_address,
            "--bucket"@,
            bucket_name,
            "--region"@,
            region,
            "--stream-while-syncing"@,
            "sync-from-latest"@,
        ],
        network,
    }
}

/// What is known of the indexer once it has an address and a port on the host.
pub open spec fn lake_indexer_record(
    container_id: Seq<char>,
    ip_address: Seq<char>,
    setup: LakeIndexerSetup,
    host_port: u16,
) -> LakeIndexerView {
    LakeIndexerView {
        container_id,
        bucket_name: setup.bucket_name@,
        region: setup.region@,
        rpc_address: http_url(ip_address, LakeIndexer::CONTAINER_RPC_PORT),
        rpc_host_address: http_url("127.0.0.1"@, host_port),
    }
}

impl LakeIndexer {
    pub const CONTAINER_RPC_PORT: u16 = 3030;

    /// Begins the launch of an indexer that writes to the store at `s3_address`.
    pub fn run(
        network: &str,
        s3_address: &str,
        bucket_name: String,
        region: String,
    ) -> (r: Starting<LakeIndexerSetup>)
        ensures
            r.plan@ == lake_indexer_plan(network@, s3_address@, bucket_name@, region@),
            r.plan.image.name@ == "ghcr.io/near/near-lake-indexer"@,
            r.plan.image.tag@ == "node-1.38"@,
            r.plan.image.wait_for@.len() == 1,
            r.plan.image.wait_for@[0] matches WaitFor::StdErrMessage { message } && message@
                == "Starting Streamer"@,
            r.plan.image.exposed_ports@ == seq![3030u16],
            r.plan.image.env_vars@.len() == 2,
            r.plan.image.env_vars@[0].0@ == "AWS_ACCESS_KEY_ID"@,
            r.plan.image.env_vars@[0].1@ == "FAKE_LOCALSTACK_KEY_ID"@,
            r.plan.image.env_vars@[1].0@ == "AWS_SECRET_ACCESS_KEY"@,
            r.plan.image.env_vars@[1].1@ == "FAKE_LOCALSTACK_ACCESS_KEY"@,
            r.plan.image.entrypoint is None,
            r.plan.args@.len() == 8,
            r.plan.args@[0]@ == "--endpoint"@,
            r.plan.args@[1]@ == s3_address@,
            r.plan.args@[2]@ == "--bucket"@,
            r.plan.args@[3]@ == bucket_name@,
            r.plan.args@[4]@ == "--region"@,
            r.plan.args@[5]@ == region@,
            r.plan.args@[6]@ == "--stream-while-syncing"@,
            r.plan.args@[7]@ == "sync-from-latest"@,
            r.plan.network@ == network@,
            r.service.bucket_name@ == bucket_name@,
            r.service.region@ == region@,
    {
        let image = Image {
            name: "ghcr.io/near/near-lake-indexer".to_string(),
            tag: "node-1.38".to_string(),
            wait_for: vec![WaitFor::StdErrMessage { message: "Starting Streamer".to_string() }],
            exposed_ports: vec![LakeIndexer::CONTAINER_RPC_PORT],
            env_vars: vec![
                ("AWS_ACCESS_KEY_ID".to_string(), "FAKE_LOCALSTACK_KEY_ID".to_string()),
                ("AWS_SECRET_ACCESS_KEY".to_string(), "FAKE_LOCALSTACK_ACCESS_KEY".to_string()),
            ],
            entrypoint: None,
        };
        let args = vec![
            "--endpoint".to_string(),
            s3_address.to_string(),
            "--bucket".to_string(),
            bucket_name.clone(),
            "--region".to_string(),
            region.clone(),
            "--stream-while-syncing".to_string(),
            "sync-from-latest".to_string(),
        ];
        let plan = ContainerPlan { image, args, network: network.to_string() };
        assert(plan@ =~~= lake_indexer_plan(network@, s3_address@, bucket_name@, region@));
        Starting { plan, service: LakeIndexerSetup { bucket_name, region } }
    }
}

impl Attached<LakeIndexerSetup> {
    /// The port to look up.
    pub fn port_request(&self) -> (r: PortRequest)
        ensures
            r.family == AddressFamily::Ipv4,
            r.container_port == LakeIndexer::CONTAINER_RPC_PORT,
            r.container_port == 3030,
    {
        PortRequest {
            family: AddressFamily::Ipv4,
            container_port: LakeIndexer::CONTAINER_RPC_PORT,
        }
    }

    /// Takes the port on the host and ends the launch.
    pub fn mapped(self, host_port: u16) -> (r: LakeIndexer)
        ensures
            r@ == lake_indexer_record(
                self.container_id@,
                self.ip_address@,
                self.service,
                host_port,
            ),
            r.container_id@ == self.container_id@,
            r.bucket_name@ == self.service.bucket_name@,
            r.region@ == self.service.region@,
            r.rpc_address@ == "http://"@ + self.ip_address@ + ":3030"@,
            r.rpc_host_address@ == "http://"@ + "127.0.0.1"@ + ":"@ + decimal(host_port as nat),
    {
        proof {
            law_addresses_of_container_ports(self.ip_address@);
        }
        LakeIndexer {
            rpc_address: http_url_text(
                self.ip_address.as_str(),
                LakeIndexer::CONTAINER_RPC_PORT,
            ),
            rpc_host_address: http_url_text("127.0.0.1", host_port),
            container_id: self.container_id,
            bucket_name: self.service.bucket_name,
            region: self.service.region,
        }
    }
}

/// A launch of the indexer ends with a record of the container that was run: its RPC server
/// is reached at the address Docker reported for the network of the launch, and the bucket
/// and the region are those that were asked for.
pub proof fn law_lake_indexer_launch(
    starting: Starting<LakeIndexerSetup>,
    container_id: Seq<char>,
    attaching: Attaching<LakeIndexerSetup>,
    inspection: Inspection,
    attached: Attached<LakeIndexerSetup>,
    host_port: u16,
    ip_address: Seq<char>,
)
    requires
        starting.leads_to(container_id, attaching),
        attaching.leads_to(inspection, Ok::<Attached<LakeIndexerSetup>, NetworkError>(attached)),
        network_ip_address(container_id, inspection@, starting.plan.network@) == Ok::<
            Seq<char>,
            NetworkErrorView,
        >(ip_address),
    ensures
        lake_indexer_record(
            attached.container_id@,
            attached.ip_address@,
            attached.service,
            host_port,
        ) == lake_indexer_record(container_id, ip_address, starting.service, host_port),
{
}

/// The port of the indexer that is looked up on the host is one that its container exposes.
pub proof fn law_lake_indexer_port_is_exposed(
    request: PortRequest,
    network: Seq<char>,
    s3_address: Seq<char>,
    bucket_name: Seq<char>,
    region: Seq<char>,
)
    requires
        request.container_port == LakeIndexer::CONTAINER_RPC_PORT,
    ensures
        lake_indexer_plan(network, s3_address, bucket_name, region).image.exposed_ports.contains(
            request.container_port,
        ),
{
    assert(lake_indexer_plan(network, s3_address, bucket_name, region).image.exposed_ports[0]
        == LakeIndexer::CONTAINER_RPC_PORT);
}

/// Containers reach the indexer at the address that Docker reported under its RPC port, and
/// the host reaches it at its loopback address under the port that was looked up. The record
/// names the container, the bucket and the region as they are.
pub proof fn law_indexer_is_reached_inside_and_outside(
    container_id: Seq<char>,
    ip_address: Seq<char>,
    setup: LakeIndexerSetup,
    host_port: u16,
)
    ensures
        ({
            let record = lake_indexer_record(container_id, ip_address, setup, host_port);
            &&& record.container_id == container_id
            &&& record.bucket_name == setup.bucket_name@
            &&& record.region == setup.region@
            &&& record.rpc_address == "http://"@ + ip_address + ":3030"@
            &&& record.rpc_host_address == "http://"@ + "127.0.0.1"@ + ":"@ + decimal(
                host_port as nat,
            )
        }),
{
    law_addresses_of_container_ports(ip_address);
}

/// The indexer is pointed at the store, the bucket and the region by its arguments alone,
/// each behind its own flag; everything else is the same for every indexer.
pub proof fn law_arguments_point_the_indexer_at_the_store(
    network_a: Seq<char>,
    s3_address_a: Seq<char>,
    bucket_a: Seq<char>,
    region_a: Seq<char>,
    network_b: Seq<char>,
    s3_address_b: Seq<char>,
    bucket_b: Seq<char>,
    region_b: Seq<char>,
)
    ensures
        ({
            let a = lake_indexer_plan(network_a, s3_address_a, bucket_a, region_a);
            let b = lake_indexer_plan(network_b, s3_address_b, bucket_b, region_b);
            &&& a.network == network_a
            &&& a.image == b.image
            &&& a.args.len() == 8
            &&& a.args[0] == "--endpoint"@ && a.args[1] == s3_address_a
            &&& a.args[2] == "--bucket"@ && a.args[3] == bucket_a
            &&& a.args[4] == "--region"@ && a.args[5] == region_a
            &&& a.args[6] == "--stream-while-syncing"@
            &&& a.args[7] == "sync-from-latest"@
        }),
{
}

} // verus!
