//! LocalStack: a local object store with one bucket.

use crate::docker::{network_ip_address, Inspection, NetworkError, NetworkErrorView};
use crate::launch::{
    AddressFamily, Attached, Attaching, ContainerPlan, ContainerPlanView, Image, ImageView,
    PortRequest, Starting, WaitFor, WaitForView,
};
use crate::text::{decimal, http_url, http_url_text, law_addresses_of_container_ports};
use vstd::prelude::*;

verus! {

/// The platforms on which containers are run.
#[derive(Clone, Copy, Debug, PartialEq, Eq, Structural)]
pub enum Platform {
    MacosAarch64,
    X86_64,
}

/// The address family under which a platform reaches published ports.
pub open spec fn host_family(platform: Platform) -> AddressFamily {
    match platform {
        Platform::MacosAarch64 => AddressFamily::Ipv4,
        Platform::X86_64 => AddressFamily::Ipv6,
    }
}

/// The loopback address under which a platform reaches published ports.
pub open spec fn loopback(platform: Platform) -> Seq<char> {
    match platform {
        Platform::MacosAarch64 => "127.0.0.1"@,
        Platform::X86_64 => "[::1]"@,
    }
}

/// A running LocalStack container.
#[derive(Debug, PartialEq, Eq)]
pub struct LocalStack {
    pub container_id: String,
    /// The container's address in the network.
    pub address: String,
    /// Where containers of the network reach the store.
    pub s3_address: String,
    /// Where the host reaches the store.
    pub s3_host_address: String,
    pub s3_bucket: String,
    pub s3_region: String,
}

/// A [`LocalStack`] with its texts as sequences.
#[verifier::ext_equal]
pub struct LocalStackView {
    pub container_id: Seq<char>,
    pub address: Seq<char>,
    pub s3_address: Seq<char>,
    pub s3_host_address: Seq<char>,
    pub s3_bucket: Seq<char>,
    pub s3_region: Seq<char>,
}

impl View for LocalStack {
    type V = LocalStackView;

    open spec fn view(&self) -> LocalStackView {
        LocalStackView {
            container_id: self.container_id@,
            address: self.address@,
            s3_address: self.s3_address@,
            s3_host_address: self.s3_host_address@,
            s3_bucket: self.s3_bucket@,
            s3_region: self.s3_region@,
        }
    }
}

/// What a launch of LocalStack keeps in mind.
pub struct LocalStackSetup {
    pub s3_bucket: String,
    pub s3_region: String,
    pub platform: Platform,
}

/// The container that is run for LocalStack.
pub open spec fn localstack_plan(network: Seq<char>) -> ContainerPlanView {
    ContainerPlanView {
        image: ImageView {
            name: "localstack/localstack"@,
            tag: "3.0.0"@,
            wait_for: seq![WaitForView::StdOutMessage { message: "Running on"@ }],
            exposed_ports: Seq::empty(),
            env_vars: Seq::empty(),
            entrypoint: None,
        },
        args: Seq::empty(),
        network,
    }
}

/// The command that creates the bucket.
pub open spec fn bucket_command(s3_bucket: Seq<char>, s3_region: Seq<char>) -> Seq<Seq<char>> {
    seq![
        "awslocal"@,
        "s3api"@,
        "create-bucket"@,
        "--bucket"@,
        s3_bucket,
        "--region"@,
        s3_region,
    ]
}

/// What is known of LocalStack once it has an address and a port on the host.
pub open spec fn localstack_record(
    container_id: Seq<char>,
    ip_address: Seq<char>,
    setup: LocalStackSetup,
    host_port: u16,
) -> LocalStackView {
    LocalStackView {
        container_id,
        address: ip_address,
        s3_address: http_url(ip_address, LocalStack::S3_CONTAINER_PORT),
        s3_host_address: http_url(loopback(setup.platform), host_port),
        s3_bucket: setup.s3_bucket@,
        s3_region: setup.s3_region@,
    }
}

impl LocalStack {
    pub const S3_CONTAINER_PORT: u16 = 4566;

    /// Begins the launch of LocalStack in a network.
    pub fn run(
        network: &str,
        s3_bucket: String,
        s3_region: String,
        platform: Platform,
    ) -> (r: Starting<LocalStackSetup>)
        ensures
            r.plan@ == localstack_plan(network@),
            r.plan.image.name@ == "localstack/localstack"@,
            r.plan.image.tag@ == "3.0.0"@,
            r.plan.image.wait_for@.len() == 1,
            r.plan.image.wait_for@[0] matches WaitFor::StdOutMessage { message } && message@
                == "Running on"@,
            r.plan.image.exposed_ports@.len() == 0,
            r.plan.image.env_vars@.len() == 0,
            r.plan.image.entrypoint is None,
            r.plan.args@.len() == 0,
            r.plan.network@ == network@,
            r.service.s3_bucket@ == s3_bucket@,
            r.service.s3_region@ == s3_region@,
            r.service.platform == platform,
    {
        let image = Image {
            name: "localstack/localstack".to_string(),
            tag: "3.0.0".to_string(),
            wait_for: vec![WaitFor::StdOutMessage { message: "Running on".to_string() }],
            exposed_ports: Vec::new(),
            env_vars: Vec::new(),
            entrypoint: None,
        };
        let plan = ContainerPlan { image, args: Vec::new(), network: network.to_string() };
        assert(plan@ =~~= localstack_plan(network@));
        Starting { plan, service: LocalStackSetup { s3_bucket, s3_region, platform } }
    }
}

/// A command to run in a container. What is not named here keeps its default.
#[derive(Debug, PartialEq, Eq)]
pub struct ExecOptions {
    pub container_id: String,
    pub attach_stdout: bool,
    pub attach_stderr: bool,
    pub cmd: Vec<String>,
}

/// The command that creates the bucket is set up and is to be started.
pub struct BucketCommand {
    pub exec_id: String,
    pub attached: Attached<LocalStackSetup>,
}

/// The bucket has been asked for; the port on the host is to be looked up.
pub struct BucketStarted {
    pub attached: Attached<LocalStackSetup>,
}

impl Attached<LocalStackSetup> {
    /// The command to set up in the container.
    pub fn bucket_exec(&self) -> (r: ExecOptions)
        ensures
            r.container_id@ == self.container_id@,
            r.attach_stdout,
            r.attach_stderr,
            r.cmd.deep_view() == bucket_command(self.service.s3_bucket@, self.service.s3_region@),
            r.cmd@.len() == 7,
            r.cmd@[0]@ == "awslocal"@,
            r.cmd@[1]@ == "s3api"@,
            r.cmd@[2]@ == "create-bucket"@,
            r.cmd@[3]@ == "--bucket"@,
            r.cmd@[4]@ == self.service.s3_bucket@,
            r.cmd@[5]@ == "--region"@,
            r.cmd@[6]@ == self.service.s3_region@,
    {
        let cmd = vec![
            "awslocal".to_string(),
            "s3api".to_string(),
            "create-bucket".to_string(),
            "--bucket".to_string(),
            self.service.s3_bucket.clone(),
            "--region".to_string(),
            self.service.s3_region.clone(),
        ];
        assert(cmd.deep_view() =~= bucket_command(
            self.service.s3_bucket@,
            self.service.s3_region@,
        ));
        ExecOptions {
            container_id: self.container_id.clone(),
            attach_stdout: true,
            attach_stderr: true,
            cmd,
        }
    }

    /// Takes the name under which the command was set up.
    pub fn exec_created(self, exec_id: &str) -> (r: BucketCommand)
        ensures
            r.exec_id@ == exec_id@,
            r.attached == self,
    {
        BucketCommand { exec_id: exec_id.to_string(), attached: self }
    }
}

impl BucketCommand {
    /// Goes on after the command was started.
    pub fn exec_started(self) -> (r: BucketStarted)
        ensures
            r.attached == self.attached,
    {
        BucketStarted { attached: self.attached }
    }
}

impl BucketStarted {
    /// The port to look up.
    pub fn port_request(&self) -> (r: PortRequest)
        ensures
            r.family == host_family(self.attached.service.platform),
            r.container_port == LocalStack::S3_CONTAINER_PORT,
            r.container_port == 4566,
            r.family == AddressFamily::Ipv4 <==> self.attached.service.platform
                == Platform::MacosAarch64,
    {
        let family = match self.attached.service.platform {
            Platform::MacosAarch64 => AddressFamily::Ipv4,
            Platform::X86_64 => AddressFamily::Ipv6,
        };
        PortRequest { family, container_port: LocalStack::S3_CONTAINER_PORT }
    }

    /// Takes the port on the host and ends the launch.
    pub fn mapped(self, host_port: u16) -> (r: LocalStack)
        ensures
            r@ == localstack_record(
                self.attached.container_id@,
                self.attached.ip_address@,
                self.attached.service,
                host_port,
            ),
            r.container_id@ == self.attached.container_id@,
            r.address@ == self.attached.ip_address@,
            r.s3_address@ == "http://"@ + self.attached.ip_address@ + ":4566"@,
            match self.attached.service.platform {
                Platform::MacosAarch64 => r.s3_host_address@ == "http://"@ + "127.0.0.1"@ + ":"@
                    + decimal(host_port as nat),
                Platform::X86_64 => r.s3_host_address@ == "http://"@ + "[::1]"@ + ":"@ + decimal(
                    host_port as nat,
                ),
            },
            r.s3_bucket@ == self.attached.service.s3_bucket@,
            r.s3_region@ == self.attached.service.s3_region@,
    {
        proof {
            law_addresses_of_container_ports(self.attached.ip_address@);
        }
        let host = match self.attached.service.platform {
            Platform::MacosAarch64 => "127.0.0.1",
            Platform::X86_64 => "[::1]",
        };
        let s3_address = http_url_text(
            self.attached.ip_address.as_str(),
            LocalStack::S3_CONTAINER_PORT,
        );
        LocalStack {
            container_id: self.attached.container_id,
            address: self.attached.ip_address,
            s3_address,
            s3_host_address: http_url_text(host, host_port),
            s3_bucket: self.attached.service.s3_bucket,
            s3_region: self.attached.service.s3_region,
        }
    }
}

/// A launch of LocalStack ends with a record of the container that was run: its address is
/// the one Docker reported for the network of the launch, and the bucket and the region are
/// those that were asked for.
pub proof fn law_localstack_launch(
    starting: Starting<LocalStackSetup>,
    container_id: Seq<char>,
    attaching: Attaching<LocalStackSetup>,
    inspection: Inspection,
    attached: Attached<LocalStackSetup>,
    host_port: u16,
    ip_address: Seq<char>,
)
    requires
        starting.leads_to(container_id, attaching),
        attaching.leads_to(inspection, Ok::<Attached<LocalStackSetup>, NetworkError>(attached)),
        network_ip_address(container_id, inspection@, starting.plan.network@) == Ok::<
            Seq<char>,
            NetworkErrorView,
        >(ip_address),
    ensures
        localstack_record(
            attached.container_id@,
            attached.ip_address@,
            attached.service,
            host_port,
        ) == localstack_record(container_id, ip_address, starting.service, host_port),
{
}

/// Containers reach the store at the address that Docker reported, under the store's own
/// port, on every platform and whatever the port on the host is.
pub proof fn law_containers_reach_the_store_in_the_network(
    container_id: Seq<char>,
    ip_address: Seq<char>,
    setup: LocalStackSetup,
    host_port: u16,
)
    ensures
        ({
            let record = localstack_record(container_id, ip_address, setup, host_port);
            &&& record.s3_address == "http://"@ + ip_address + ":4566"@
            &&& record.address == ip_address
            &&& record.container_id == container_id
        }),
{
    law_addresses_of_container_ports(ip_address);
}

/// Neither the platform nor the port on the host has a say in where containers reach the
/// store, and the address that Docker reported has none in where the host reaches it.
pub proof fn law_inner_and_outer_addresses_are_independent(
    container_id: Seq<char>,
    ip_a: Seq<char>,
    setup_a: LocalStackSetup,
    host_port_a: u16,
    ip_b: Seq<char>,
    setup_b: LocalStackSetup,
    host_port_b: u16,
)
    ensures
        localstack_record(container_id, ip_a, setup_a, host_port_a).s3_address
            == localstack_record(container_id, ip_a, setup_b, host_port_b).s3_address,
        setup_a.platform == setup_b.platform ==> localstack_record(
            container_id,
            ip_a,
            setup_a,
            host_port_a,
        ).s3_host_address == localstack_record(
            container_id,
            ip_b,
            setup_b,
            host_port_a,
        ).s3_host_address,
{
}

/// The host reaches the store at its loopback address, of the family that its platform
/// publishes ports under, and at the port that was looked up.
pub proof fn law_host_reaches_the_store_at_its_loopback(
    container_id: Seq<char>,
    ip_address: Seq<char>,
    setup: LocalStackSetup,
    host_port: u16,
)
    ensures
        ({
            let url = localstack_record(
                container_id,
                ip_address,
                setup,
                host_port,
            ).s3_host_address;
            match setup.platform {
                Platform::MacosAarch64 => url == "http://"@ + "127.0.0.1"@ + ":"@ + decimal(
                    host_port as nat,
                ),
                Platform::X86_64 => url == "http://"@ + "[::1]"@ + ":"@ + decimal(
                    host_port as nat,
                ),
            }
        }),
        host_family(Platform::MacosAarch64) == AddressFamily::Ipv4,
        host_family(Platform::X86_64) == AddressFamily::Ipv6,
        loopback(Platform::MacosAarch64) == "127.0.0.1"@,
        loopback(Platform::X86_64) == "[::1]"@,
{
}

/// The record names the bucket and the region that were asked for.
pub proof fn law_record_names_bucket_and_region(
    container_id: Seq<char>,
    ip_address: Seq<char>,
    setup: LocalStackSetup,
    host_port: u16,
)
    ensures
        localstack_record(container_id, ip_address, setup, host_port).s3_bucket
            == setup.s3_bucket@,
        localstack_record(container_id, ip_address, setup, host_port).s3_region
            == setup.s3_region@,
{
}

/// The command names the bucket behind `--bucket` and the region behind `--region`, and
/// nothing else in it depends on them.
pub proof fn law_command_names_bucket_and_region(
    bucket_a: Seq<char>,
    region_a: Seq<char>,
    bucket_b: Seq<char>,
    region_b: Seq<char>,
)
    ensures
        ({
            let a = bucket_command(bucket_a, region_a);
            &&& a.len() == 7
            &&& a.take(4) == seq!["awslocal"@, "s3api"@, "create-bucket"@, "--bucket"@]
            &&& a[4] == bucket_a
            &&& a[5] == "--region"@
            &&& a[6] == region_a
            &&& bucket_command(bucket_b, region_b) == a.update(4, bucket_b).update(6, region_b)
        }),
{
    let a = bucket_command(bucket_a, region_a);
    assert(a.take(4) =~= seq!["awslocal"@, "s3api"@, "create-bucket"@, "--bucket"@]);
    assert(bucket_command(bucket_b, region_b) =~= a.update(4, bucket_b).update(6, region_b));
}

/// LocalStack is run in the network that was asked for, and is otherwise the same everywhere.
pub proof fn law_localstack_joins_the_network(network_a: Seq<char>, network_b: Seq<char>)
    ensures
        localstack_plan(network_a).network == network_a,
        localstack_plan(network_a) == (ContainerPlanView {
            network: network_a,
            ..localstack_plan(network_b)
        }),
        localstack_plan(network_a).args.len() == 0,
        localstack_plan(network_a).image.name == "localstack/localstack"@,
        localstack_plan(network_a).image.tag == "3.0.0"@,
{
}

} // verus!
