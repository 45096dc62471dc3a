//! The stages that every launch goes through: a container is run, Docker is asked what it
//! knows of it, and its address in the network is read from the reply.
//!
//! The methods that lead from one stage to the next consume the stage they are called on.

use crate::docker::{
    network_ip_address, text_view, DockerClient, Inspection, NetworkError, NetworkErrorView,
};
use vstd::prelude::*;

verus! {

/// What is waited for before a container or a command counts as ready.
#[derive(Debug, PartialEq, Eq)]
pub enum WaitFor {
    Nothing,
    StdOutMessage { message: String },
    StdErrMessage { message: String },
}

/// A [`WaitFor`] with its text as a sequence.
pub enum WaitForView {
    Nothing,
    StdOutMessage { message: Seq<char> },
    StdErrMessage { message: Seq<char> },
}

impl View for WaitFor {
    type V = WaitForView;

    open spec fn view(&self) -> WaitForView {
        match *self {
            WaitFor::Nothing => WaitForView::Nothing,
            WaitFor::StdOutMessage { message } => WaitForView::StdOutMessage {
                message: message@,
            },
            WaitFor::StdErrMessage { message } => WaitForView::StdErrMessage {
                message: message@,
            },
        }
    }
}

impl DeepView for WaitFor {
    type V = WaitForView;

    open spec fn deep_view(&self) -> WaitForView {
        self@
    }
}

/// An image and how a container of it is set up.
#[derive(Debug, PartialEq, Eq)]
pub struct Image {
    pub name: String,
    pub tag: String,
    pub wait_for: Vec<WaitFor>,
    pub exposed_ports: Vec<u16>,
    /// Environment variables, in the order in which they are set.
    pub env_vars: Vec<(String, String)>,
    pub entrypoint: Option<String>,
}

/// An [`Image`] with its texts and lists as sequences.
#[verifier::ext_equal]
pub struct ImageView {
    pub name: Seq<char>,
    pub tag: Seq<char>,
    pub wait_for: Seq<WaitForView>,
    pub exposed_ports: Seq<u16>,
    pub env_vars: Seq<(Seq<char>, Seq<char>)>,
    pub entrypoint: Option<Seq<char>>,
}

impl View for Image {
    type V = ImageView;

    open spec fn view(&self) -> ImageView {
        ImageView {
            name: self.name@,
            tag: self.tag@,
            wait_for: self.wait_for.deep_view(),
            exposed_ports: self.exposed_ports@,
            env_vars: self.env_vars.deep_view(),
            entrypoint: text_view(self.entrypoint),
        }
    }
}

/// A container to run: an image, the arguments of its command and the network it joins.
#[derive(Debug, PartialEq, Eq)]
pub struct ContainerPlan {
    pub image: Image,
    pub args: Vec<String>,
    pub network: String,
}

/// A [`ContainerPlan`] with its texts and lists as sequences.
#[verifier::ext_equal]
pub struct ContainerPlanView {
    pub image: ImageView,
    pub args: Seq<Seq<char>>,
    pub network: Seq<char>,
}

impl View for ContainerPlan {
    type V = ContainerPlanView;

    open spec fn view(&self) -> ContainerPlanView {
        ContainerPlanView {
            image: self.image@,
            args: self.args.deep_view(),
            network: self.network@,
        }
    }
}

/// The address family under which a port is published on the host.
#[derive(Clone, Copy, Debug, PartialEq, Eq, Structural)]
pub enum AddressFamily {
    Ipv4,
    Ipv6,
}

/// A port of a container whose port on the host is asked for.
#[derive(Clone, Copy, Debug, PartialEq, Eq, Structural)]
pub struct PortRequest {
    pub family: AddressFamily,
    pub container_port: u16,
}

/// The container of `plan` is to be run.
pub struct Starting<S> {
    pub plan: ContainerPlan,
    pub service: S,
}

/// The container runs, and is to be inspected.
pub struct Attaching<S> {
    pub container_id: String,
    pub network: String,
    pub service: S,
}

/// The container runs and has an address in its network.
pub struct Attached<S> {
    pub container_id: String,
    pub ip_address: String,
    pub service: S,
}

impl<S> Starting<S> {
    /// The stage after the container was run under the given name.
    pub open spec fn leads_to(self, container_id: Seq<char>, next: Attaching<S>) -> bool {
        &&& next.container_id@ == container_id
        &&& next.network@ == self.plan.network@
        &&& next.service == self.service
    }

    /// Takes the name of the container that was run.
    pub fn started(self, container_id: &str) -> (r: Attaching<S>)
        ensures
            self.leads_to(container_id@, r),
            r.container_id@ == container_id@,
            r.network@ == self.plan.network@,
            r.service == self.service,
    {
        Attaching {
            container_id: container_id.to_string(),
            network: self.plan.network,
            service: self.service,
        }
    }
}

impl<S> Attaching<S> {
    /// The stage after Docker reported on the container, or why there is none.
    pub open spec fn leads_to(
        self,
        inspection: Inspection,
        next: Result<Attached<S>, NetworkError>,
    ) -> bool {
        match next {
            Ok(attached) => {
                &&& network_ip_address(self.container_id@, inspection@, self.network@) == Ok::<
                    Seq<char>,
                    NetworkErrorView,
                >(attached.ip_address@)
                &&& attached.container_id@ == self.container_id@
                &&& attached.service == self.service
            },
            Err(error) => network_ip_address(self.container_id@, inspection@, self.network@)
                == Err::<Seq<char>, NetworkErrorView>(error@),
        }
    }

    /// Takes what Docker reports of the container. The launch goes on if the container has
    /// an address in its network, and ends otherwise.
    pub fn inspected(self, docker: &DockerClient, inspection: &Inspection) -> (r: Result<
        Attached<S>,
        NetworkError,
    >)
        ensures
            self.leads_to(*inspection, r),
            r is Ok <==> {
                &&& inspection.network_settings matches Some(settings)
                &&& settings.networks matches Some(networks)
                &&& networks@.contains_key(self.network@)
                &&& networks@[self.network@] is Some
            },
            r matches Ok(attached) ==> {
                &&& attached.ip_address@
                    == inspection.network_settings->0.networks->0@[self.network@]->0
                &&& attached.container_id@ == self.container_id@
                &&& attached.service == self.service
            },
            r matches Err(NetworkError::MissingSettings { container }) ==> {
                &&& inspection.network_settings is None
                &&& container@ == self.container_id@
            },
            r matches Err(NetworkError::MissingNetworks { container }) ==> {
                &&& inspection.network_settings is Some
                &&& inspection.network_settings->0.networks is None
                &&& container@ == self.container_id@
            },
            r matches Err(NetworkError::NotAttached { container, network }) ==> {
                &&& inspection.network_settings is Some
                &&& inspection.network_settings->0.networks is Some
                &&& !inspection.network_settings->0.networks->0@.contains_key(self.network@)
                &&& container@ == self.container_id@
                &&& network@ == self.network@
            },
            r matches Err(NetworkError::NoAddress { container, network }) ==> {
                &&& inspection.network_settings is Some
                &&& inspection.network_settings->0.networks is Some
                &&& inspection.network_settings->0.networks->0@.contains_key(self.network@)
                &&& container@ == self.container_id@
                &&& network@ == self.network@
            },
    {
        match docker.get_network_ip_address(
            self.container_id.as_str(),
            inspection,
            self.network.as_str(),
        ) {
            Ok(ip_address) => Ok(
                Attached { container_id: self.container_id, ip_address, service: self.service },
            ),
            Err(error) => Err(error),
        }
    }
}

/// From running a container to its address: the launch goes on with the container that was
/// run, with the address that was reported for the network of the plan, and with what it
/// kept in mind.
pub proof fn law_launch_goes_on_with_the_reported_address<S>(
    starting: Starting<S>,
    container_id: Seq<char>,
    attaching: Attaching<S>,
    inspection: Inspection,
    attached: Attached<S>,
    networks: Map<Seq<char>, Option<Seq<char>>>,
    ip_address: Seq<char>,
)
    requires
        starting.leads_to(container_id, attaching),
        attaching.leads_to(inspection, Ok::<Attached<S>, NetworkError>(attached)),
        inspection@ == Some(Some(networks)),
        networks.contains_key(starting.plan.network@),
        networks[starting.plan.network@] == Some(ip_address),
    ensures
        attaching.container_id@ == container_id,
        attaching.network@ == starting.plan.network@,
        attaching.service == starting.service,
        attached.container_id@ == container_id,
        attached.ip_address@ == ip_address,
        attached.service == starting.service,
{
}

/// A launch ends where no address is reported for its network, and nowhere else.
pub proof fn law_launch_ends_without_an_address<S>(
    attaching: Attaching<S>,
    inspection: Inspection,
    next: Result<Attached<S>, NetworkError>,
)
    requires
        attaching.leads_to(inspection, next),
    ensures
        next is Ok <==> {
            &&& inspection@ matches Some(Some(networks))
            &&& networks.contains_key(attaching.network@)
            &&& networks[attaching.network@] is Some
        },
{
}

} // verus!
