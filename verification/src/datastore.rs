//! The emulator of Google's Cloud Datastore.

use crate::docker::{network_ip_address, Inspection, NetworkError, NetworkErrorView};
use crate::launch::{
    AddressFamily, Attached, Attaching, ContainerPlan, ContainerPlanView, Image, ImageView,
    PortRequest, Starting, WaitFor, WaitForView,
};
use crate::text::{
    decimal, decimal_text, http_url, http_url_text, join, law_addresses_of_container_ports,
};
use vstd::prelude::*;

verus! {

/// A running emulator container.
#[derive(Debug, PartialEq, Eq)]
pub struct Datastore {
    pub container_id: String,
    /// Where containers of the network reach the emulator.
    pub address: String,
    /// Where the host reaches the emulator.
    pub local_address: String,
}

/// A [`Datastore`] with its texts as sequences.
#[verifier::ext_equal]
pub struct DatastoreView {
    pub container_id: Seq<char>,
    pub address: Seq<char>,
    pub local_address: Seq<char>,
}

impl View for Datastore {
    type V = DatastoreView;

    open spec fn view(&self) -> DatastoreView {
        DatastoreView {
            container_id: self.container_id@,
            address: self.address@,
            local_address: self.local_address@,
        }
    }
}

/// A launch of the emulator keeps nothing in mind.
pub struct DatastoreSetup {}

/// The address that the emulator listens on inside its container.
pub open spec fn datastore_host_port() -> Seq<char> {
    "0.0.0.0:"@ + decimal(Datastore::CONTAINER_PORT as nat)
}

/// The container that is run for the emulator.
pub open spec fn datastore_plan(network: Seq<char>, project_id: Seq<char>) -> ContainerPlanView {
    ContainerPlanView {
        image: ImageView {
            name: "gcr.io/google.com/cloudsdktool/google-cloud-cli"@,
            tag: "464.0.0-emulators"@,
            wait_for: seq![
                WaitForView::StdErrMessage { message: "Dev App Server is now running."@ },
            ],
            exposed_ports: seq![Datastore::CONTAINER_PORT],
            env_vars: seq![
                ("DATASTORE_EMULATOR_HOST"@, datastore_host_port()),
                ("DATASTORE_PROJECT_ID"@, project_id),
            ],
            entrypoint: Some("gcloud"@),
        },
        args: seq![
            "beta"@,
            "emulators"@,
            "datastore"@,
            "start"@,
            "--project="@ + project_id,
            "--host-port"@,
            datastore_host_port(),
            "--no-store-on-disk"@,
            "--consistency=1.0"@,
        ],
        network,
    }
}

/// What is known of the emulator once it has an address and a port on the host.
pub open spec fn datastore_record(
    container_id: Seq<char>,
    ip_address: Seq<char>,
    host_port: u16,
) -> DatastoreView {
    DatastoreView {
        container_id,
        address: http_url(ip_address, Datastore::CONTAINER_PORT) + "/"@,
        local_address: http_url("127.0.0.1"@, host_port) + "/"@,
    }
}

proof fn lemma_host_port_text()
    ensures
        datastore_host_port() == "0.0.0.0:3000"@,
{
    reveal_strlit("0.0.0.0:");
    reveal_strlit("0.0.0.0:3000");
    reveal_strlit("3000");
    law_addresses_of_container_ports(Seq::empty());
    assert(datastore_host_port() =~= "0.0.0.0:3000"@);
}

impl Datastore {
    pub const CONTAINER_PORT: u16 = 3000;

    /// Begins the launch of an emulator for a project.
    pub fn run(network: &str, project_id: &str) -> (r: Starting<DatastoreSetup>)
        ensures
            r.plan@ == datastore_plan(network@, project_id@),
            r.plan.image.name@ == "gcr.io/google.com/cloudsdktool/google-cloud-cli"@,
            r.plan.image.tag@ == "464.0.0-emulators"@,
            r.plan.image.wait_for@.len() == 1,
            r.plan.image.wait_for@[0] matches WaitFor::StdErrMessage { message } && message@
                == "Dev App Server is now running."@,
            r.plan.image.exposed_ports@ == seq![3000u16],
            r.plan.image.env_vars@.len() == 2,
            r.plan.image.env_vars@[0].0@ == "DATASTORE_EMULATOR_HOST"@,
            r.plan.image.env_vars@[0].1@ == "0.0.0.0:3000"@,
            r.plan.image.env_vars@[1].0@ == "DATASTORE_PROJECT_ID"@,
            r.plan.image.env_vars@[1].1@ == project_id@,
            r.plan.image.entrypoint matches Some(entrypoint) && entrypoint@ == "gcloud"@,
            r.plan.args@.len() == 9,
            r.plan.args@[0]@ == "beta"@,
            r.plan.args@[1]@ == "emulators"@,
            r.plan.args@[2]@ == "datastore"@,
            r.plan.args@[3]@ == "start"@,
            r.plan.args@[4]@ == "--project="@ + project_id@,
            r.plan.args@[5]@ == "--host-port"@,
            r.plan.args@[6]@ == "0.0.0.0:3000"@,
            r.plan.args@[7]@ == "--no-store-on-disk"@,
            r.plan.args@[8]@ == "--consistency=1.0"@,
            r.plan.network@ == network@,
    {
        proof {
            lemma_host_port_text();
        }
        let port = decimal_text(Datastore::CONTAINER_PORT);
        let host_port = join("0.0.0.0:", port.as_str());
        let image = Image {
            name: "gcr.io/google.com/cloudsdktool/google-cloud-cli".to_string(),
            tag: "464.0.0-emulators".to_string(),
            wait_for: vec![
                WaitFor::StdErrMessage { message: "Dev App Server is now running.".to_string() },
            ],
            exposed_ports: vec![Datastore::CONTAINER_PORT],
            env_vars: vec![
                ("DATASTORE_EMULATOR_HOST".to_string(), host_port.clone()),
                ("DATASTORE_PROJECT_ID".to_string(), project_id.to_string()),
            ],
            entrypoint: Some("gcloud".to_string()),
        };
        let args = vec![
            "beta".to_string(),
            "emulators".to_string(),
            "datastore".to_string(),
            "start".to_string(),
            join("--project=", project_id),
            "--host-port".to_string(),
            host_port,
            "--no-store-on-disk".to_string(),
            "--consistency=1.0".to_string(),
        ];
        let plan = ContainerPlan { image, args, network: network.to_string() };
        assert(plan@ =~~= datastore_plan(network@, project_id@));
        Starting { plan, service: DatastoreSetup {  } }
    }
}

impl Attached<DatastoreSetup> {
    /// The port to look up.
    pub fn port_request(&self) -> (r: PortRequest)
        ensures
            r.family == AddressFamily::Ipv4,
            r.container_port == Datastore::CONTAINER_PORT,
            r.container_port == 3000,
    {
        PortRequest { family: AddressFamily::Ipv4, container_port: Datastore::CONTAINER_PORT }
    }

    /// Takes the port on the host and ends the launch.
    pub fn mapped(self, host_port: u16) -> (r: Datastore)
        ensures
            r@ == datastore_record(self.container_id@, self.ip_address@, host_port),
            r.container_id@ == self.container_id@,
            r.address@ == "http://"@ + self.ip_address@ + ":3000"@ + "/"@,
            r.local_address@ == "http://"@ + "127.0.0.1"@ + ":"@ + decimal(host_port as nat)
                + "/"@,
    {
        proof {
            law_addresses_of_container_ports(self.ip_address@);
        }
        let mut address = http_url_text(self.ip_address.as_str(), Datastore::CONTAINER_PORT);
        address.append("/");
        let mut local_address = http_url_text("127.0.0.1", host_port);
        local_address.append("/");
        Datastore { container_id: self.container_id, address, local_address }
    }
}

/// A launch of the emulator ends with a record of the container that was run: its address is
/// made from the one Docker reported for the network of the launch.
pub proof fn law_datastore_launch(
    starting: Starting<DatastoreSetup>,
    container_id: Seq<char>,
    attaching: Attaching<DatastoreSetup>,
    inspection: Inspection,
    attached: Attached<DatastoreSetup>,
    host_port: u16,
    ip_address: Seq<char>,
)
    requires
        starting.leads_to(container_id, attaching),
        attaching.leads_to(inspection, Ok::<Attached<DatastoreSetup>, NetworkError>(attached)),
        network_ip_address(container_id, inspection@, starting.plan.network@) == Ok::<
            Seq<char>,
            NetworkErrorView,
        >(ip_address),
    ensures
        datastore_record(attached.container_id@, attached.ip_address@, host_port)
            == datastore_record(container_id, ip_address, host_port),
{
}

/// The port of the emulator that is looked up on the host is one that its container exposes.
pub proof fn law_datastore_port_is_exposed(
    request: PortRequest,
    network: Seq<char>,
    project_id: Seq<char>,
)
    requires
        request.container_port == Datastore::CONTAINER_PORT,
    ensures
        datastore_plan(network, project_id).image.exposed_ports.contains(
            request.container_port,
        ),
{
    assert(datastore_plan(network, project_id).image.exposed_ports[0]
        == Datastore::CONTAINER_PORT);
}

/// The emulator is told the same address by its environment and by its command line.
pub proof fn law_datastore_listens_where_its_environment_says(
    network: Seq<char>,
    project_id: Seq<char>,
)
    ensures
        ({
            let plan = datastore_plan(network, project_id);
            &&& plan.image.env_vars[0].0 == "DATASTORE_EMULATOR_HOST"@
            &&& plan.args[5] == "--host-port"@
            &&& plan.image.env_vars[0].1 == plan.args[6]
        }),
{
}

/// Containers reach the emulator at the address that Docker reported under its own port, and
/// the host reaches it at its loopback address under the port that was looked up.
pub proof fn law_emulator_is_reached_inside_and_outside(
    container_id: Seq<char>,
    ip_address: Seq<char>,
    host_port: u16,
)
    ensures
        ({
            let record = datastore_record(container_id, ip_address, host_port);
            &&& record.container_id == container_id
            &&& record.address == "http://"@ + ip_address + ":3000"@ + "/"@
            &&& record.local_address == "http://"@ + "127.0.0.1"@ + ":"@ + decimal(
                host_port as nat,
            ) + "/"@
        }),
{
    law_addresses_of_container_ports(ip_address);
}

/// The project is named by one variable and by one argument; everything else, but for the
/// network, is the same for every emulator.
pub proof fn law_emulator_serves_the_project(
    network_a: Seq<char>,
    project_a: Seq<char>,
    network_b: Seq<char>,
    project_b: Seq<char>,
)
    ensures
        ({
            let a = datastore_plan(network_a, project_a);
            let b = datastore_plan(network_b, project_b);
            &&& a.network == network_a
            &&& a.image.env_vars.len() == 2
            &&& a.image.env_vars[0] == ("DATASTORE_EMULATOR_HOST"@, "0.0.0.0:3000"@)
            &&& a.image.env_vars[1] == ("DATASTORE_PROJECT_ID"@, project_a)
            &&& a.args.len() == 9
            &&& a.args[4] == "--project="@ + project_a
            &&& a.args == b.args.update(4, "--project="@ + project_a)
            &&& a.image == (ImageView { env_vars: a.image.env_vars, ..b.image })
        }),
{
    lemma_host_port_text();
    let a = datastore_plan(network_a, project_a);
    let b = datastore_plan(network_b, project_b);
    assert(a.args =~= b.args.update(4, "--project="@ + project_a));
}

} // verus!
