//! What is asked of Docker and what its replies mean.

use crate::text::join;
use vstd::hash_map::StringHashMap;
use vstd::prelude::*;

verus! {

/// An optional text as an optional sequence.
pub open spec fn text_view(text: Option<String>) -> Option<Seq<char>> {
    match text {
        Some(t) => Some(t@),
        None => None,
    }
}

/// An optional text is seen as it is: there or not, and with its characters.
pub proof fn law_optional_text_is_seen_as_it_is(text: Option<String>)
    ensures
        text matches Some(t) ==> text_view(text) == Some(t@),
        text is None ==> text_view(text) == None::<Seq<char>>,
{
}

/// The networks of a container by name, each with the address assigned there, if any.
pub struct Networks {
    addresses: StringHashMap<Option<String>>,
}

impl View for Networks {
    type V = Map<Seq<char>, Option<Seq<char>>>;

    closed spec fn view(&self) -> Map<Seq<char>, Option<Seq<char>>> {
        self.addresses@.map_values(|ip_address: Option<String>| text_view(ip_address))
    }
}

impl Networks {
    /// No network at all.
    pub fn new() -> (r: Networks)
        ensures
            r@ == Map::<Seq<char>, Option<Seq<char>>>::empty(),
    {
        let r = Networks { addresses: StringHashMap::new() };
        assert(r@ =~= Map::<Seq<char>, Option<Seq<char>>>::empty());
        r
    }

    /// Adds a network, in place of an earlier one of the same name.
    pub fn insert(&mut self, name: String, ip_address: Option<String>)
        ensures
            final(self)@ == old(self)@.insert(name@, text_view(ip_address)),
            final(self)@.contains_key(name@),
            ip_address matches Some(text) ==> final(self)@[name@] == Some(text@),
            ip_address is None ==> final(self)@[name@] == None::<Seq<char>>,
    {
        self.addresses.insert(name, ip_address);
        assert(self@ =~= old(self)@.insert(name@, text_view(ip_address)));
    }

    /// The entry of a network: whether it is there, and the address assigned in it.
    pub fn get(&self, name: &str) -> (r: Option<Option<String>>)
        ensures
            match r {
                Some(ip_address) => self@.contains_key(name@)
                    && self@[name@] == text_view(ip_address),
                None => !self@.contains_key(name@),
            },
            r matches Some(Some(text)) ==> self@[name@] == Some(text@),
            r matches Some(None) ==> self@[name@] == None::<Seq<char>>,
    {
        match self.addresses.get(name) {
            Some(ip_address) => match ip_address {
                Some(text) => Some(Some(text.clone())),
                None => Some(None),
            },
            None => None,
        }
    }
}

/// The network part of what Docker reports of a container.
pub struct NetworkSettings {
    pub networks: Option<Networks>,
}

/// What Docker reports of a container, as far as it is read here.
pub struct Inspection {
    pub network_settings: Option<NetworkSettings>,
}

impl View for Inspection {
    type V = Option<Option<Map<Seq<char>, Option<Seq<char>>>>>;

    open spec fn view(&self) -> Option<Option<Map<Seq<char>, Option<Seq<char>>>>> {
        match self.network_settings {
            None => None,
            Some(settings) => Some(
                match settings.networks {
                    None => None,
                    Some(networks) => Some(networks@),
                },
            ),
        }
    }
}

/// Why a container has no address in a network.
#[derive(Debug, PartialEq, Eq)]
pub enum NetworkError {
    MissingSettings { container: String },
    MissingNetworks { container: String },
    NotAttached { container: String, network: String },
    NoAddress { container: String, network: String },
}

/// A [`NetworkError`] with its texts as sequences.
pub enum NetworkErrorView {
    MissingSettings { container: Seq<char> },
    MissingNetworks { container: Seq<char> },
    NotAttached { container: Seq<char>, network: Seq<char> },
    NoAddress { container: Seq<char>, network: Seq<char> },
}

impl View for NetworkError {
    type V = NetworkErrorView;

    open spec fn view(&self) -> NetworkErrorView {
        match *self {
            NetworkError::MissingSettings { container } => NetworkErrorView::MissingSettings {
                container: container@,
            },
            NetworkError::MissingNetworks { container } => NetworkErrorView::MissingNetworks {
                container: container@,
            },
            NetworkError::NotAttached { container, network } => NetworkErrorView::NotAttached {
                container: container@,
                network: network@,
            },
            NetworkError::NoAddress { container, network } => NetworkErrorView::NoAddress {
                container: container@,
                network: network@,
            },
        }
    }
}

impl NetworkErrorView {
    /// The sentence that tells a user what is missing.
    pub open spec fn message(self) -> Seq<char> {
        match self {
            NetworkErrorView::MissingSettings { container } => {
                "missing NetworkSettings on container '"@ + container + "'"@
            },
            NetworkErrorView::MissingNetworks { container } => {
                "missing NetworkSettings.Networks on container '"@ + container + "'"@
            },
            NetworkErrorView::NotAttached { container, network } => {
                "container '"@ + container + "' is not a part of network '"@ + network + "'"@
            },
            NetworkErrorView::NoAddress { container, network } => {
                "container '"@ + container + "' belongs to network '"@ + network
                    + "', but is not assigned an IP address"@
            },
        }
    }
}

impl NetworkError {
    /// The sentence that tells a user what is missing.
    pub fn message(&self) -> (r: String)
        ensures
            r@ == self@.message(),
            match *self {
                NetworkError::MissingSettings { container } => r@
                    == "missing NetworkSettings on container '"@ + container@ + "'"@,
                NetworkError::MissingNetworks { container } => r@
                    == "missing NetworkSettings.Networks on container '"@ + container@ + "'"@,
                NetworkError::NotAttached { container, network } => r@ == "container '"@
                    + container@ + "' is not a part of network '"@ + network@ + "'"@,
                NetworkError::NoAddress { container, network } => r@ == "container '"@
                    + container@ + "' belongs to network '"@ + network@
                    + "', but is not assigned an IP address"@,
            },
    {
        match self {
            NetworkError::MissingSettings { container } => {
                let mut r = join("missing NetworkSettings on container '", container.as_str());
                r.append("'");
                r
            },
            NetworkError::MissingNetworks { container } => {
                let mut r = join(
                    "missing NetworkSettings.Networks on container '",
                    container.as_str(),
                );
                r.append("'");
                r
            },
            NetworkError::NotAttached { container, network } => {
                let mut r = join("container '", container.as_str());
                r.append("' is not a part of network '");
                r.append(network.as_str());
                r.append("'");
                r
            },
            NetworkError::NoAddress { container, network } => {
                let mut r = join("container '", container.as_str());
                r.append("' belongs to network '");
                r.append(network.as_str());
                r.append("', but is not assigned an IP address");
                r
            },
        }
    }
}

/// The address of a container in a network, or the first thing that is missing on the
/// way to it.
pub open spec fn network_ip_address(
    container: Seq<char>,
    inspection: Option<Option<Map<Seq<char>, Option<Seq<char>>>>>,
    network: Seq<char>,
) -> Result<Seq<char>, NetworkErrorView> {
    match inspection {
        None => Err(NetworkErrorView::MissingSettings { container }),
        Some(None) => Err(NetworkErrorView::MissingNetworks { container }),
        Some(Some(networks)) => if !networks.contains_key(network) {
            Err(NetworkErrorView::NotAttached { container, network })
        } else {
            match networks[network] {
                None => Err(NetworkErrorView::NoAddress { container, network }),
                Some(ip_address) => Ok(ip_address),
            }
        },
    }
}

/// A network that Docker is asked to create. What is not named here keeps its default.
pub struct NetworkRequest {
    pub name: String,
    pub check_duplicate: bool,
    pub driver: String,
}

/// The driver for networks of the host's operating system.
pub open spec fn network_driver(windows: bool) -> Seq<char> {
    if windows { "transparent"@ } else { "bridge"@ }
}

/// A network of the given name is among those that Docker lists.
pub open spec fn is_listed(existing: Seq<Option<Seq<char>>>, network: Seq<char>) -> bool {
    existing.contains(Some(network))
}

/// The names of a list of networks.
pub open spec fn network_names(existing: Seq<Option<String>>) -> Seq<Option<Seq<char>>> {
    existing.map_values(|name: Option<String>| text_view(name))
}

/// How Docker is reached.
pub struct DockerClient {
    /// The socket of the Docker daemon.
    pub address: String,
    /// The timeout of a request, in seconds.
    pub timeout: u64,
}

impl Default for DockerClient {
    /// The local daemon. The timeout is ten minutes, for the case that many tests run in
    /// parallel.
    fn default() -> (r: DockerClient)
        ensures
            r.address@ == "unix:///var/run/docker.sock"@,
            r.timeout == 600,
    {
        DockerClient { address: "unix:///var/run/docker.sock".to_string(), timeout: 600 }
    }
}

impl DockerClient {
    /// Reads the address of a container in a network from what Docker reports of it.
    pub fn get_network_ip_address(
        &self,
        container: &str,
        inspection: &Inspection,
        network: &str,
    ) -> (r: Result<String, NetworkError>)
        ensures
            match r {
                Ok(ip_address) => network_ip_address(container@, inspection@, network@)
                    == Ok::<Seq<char>, NetworkErrorView>(ip_address@),
                Err(error) => network_ip_address(container@, inspection@, network@)
                    == Err::<Seq<char>, NetworkErrorView>(error@),
            },
            match inspection.network_settings {
                None => {
                    &&& r matches Err(NetworkError::MissingSettings { container: c })
                    &&& c@ == container@
                },
                Some(settings) => match settings.networks {
                    None => {
                        &&& r matches Err(NetworkError::MissingNetworks { container: c })
                        &&& c@ == container@
                    },
                    Some(networks) => {
                        &&& !networks@.contains_key(network@) ==> {
                            &&& r matches Err(
                                NetworkError::NotAttached { container: c, network: n },
                            )
                            &&& c@ == container@
                            &&& n@ == network@
                        }
                        &&& networks@.contains_key(network@) ==> match networks@[network@] {
                            None => {
                                &&& r matches Err(
                                    NetworkError::NoAddress { container: c, network: n },
                                )
                                &&& c@ == container@
                                &&& n@ == network@
                            },
                            Some(ip_address) => {
                                &&& r matches Ok(text)
                                &&& text@ == ip_address
                            },
                        }
                    },
                },
            },
    {
        let settings = match &inspection.network_settings {
            Some(settings) => settings,
            None => {
                return Err(NetworkError::MissingSettings { container: container.to_string() });
            },
        };
        let networks = match &settings.networks {
            Some(networks) => networks,
            None => {
                return Err(NetworkError::MissingNetworks { container: container.to_string() });
            },
        };
        match networks.get(network) {
            None => Err(
                NetworkError::NotAttached {
                    container: container.to_string(),
                    network: network.to_string(),
                },
            ),
            Some(None) => Err(
                NetworkError::NoAddress {
                    container: container.to_string(),
                    network: network.to_string(),
                },
            ),
            Some(Some(ip_address)) => Ok(ip_address),
        }
    }

    /// Decides whether a network has to be created, from the names of those that exist:
    /// nothing is asked for if one of them is the network's.
    pub fn create_network(
        &self,
        network: &str,
        existing: &Vec<Option<String>>,
        windows: bool,
    ) -> (r: Option<NetworkRequest>)
        ensures
            match r {
                None => is_listed(network_names(existing@), network@),
                Some(request) => {
                    &&& !is_listed(network_names(existing@), network@)
                    &&& request.name@ == network@
                    &&& request.check_duplicate
                    &&& request.driver@ == network_driver(windows)
                },
            },
            r is None <==> exists|i: int|
                0 <= i < existing@.len() && (#[trigger] existing@[i]) is Some
                    && existing@[i]->0@ == network@,
            r matches Some(request) ==> {
                &&& windows ==> request.driver@ == "transparent"@
                &&& !windows ==> request.driver@ == "bridge"@
            },
    {
        let wanted = network.to_string();
        let ghost names = network_names(existing@);
        let mut i: usize = 0;
        while i < existing.len()
            invariant
                i <= existing.len(),
                wanted@ == network@,
                names == network_names(existing@),
                forall|j: int| 0 <= j < i ==> #[trigger] names[j] != Some(network@),
                forall|j: int|
                    0 <= j < i ==> !((#[trigger] existing@[j]) is Some && existing@[j]->0@
                        == network@),
            decreases existing.len() - i,
        {
            if let Some(name) = &existing[i] {
                if *name == wanted {
                    assert(names[i as int] == Some(network@));
                    assert(existing@[i as int] is Some && existing@[i as int]->0@ == network@);
                    return None;
                }
            }
            i += 1;
        }
        let driver = if windows { "transparent" } else { "bridge" };
        Some(NetworkRequest { name: wanted, check_duplicate: true, driver: driver.to_string() })
    }

    /// Starts to print the logs of a container: what is printed up to the end of the
    /// stream is decided by the printer that is returned.
    pub fn continuously_print_logs(&self, id: &str) -> (r: LogPrinter)
        ensures
            r.request.container@ == id@,
            r.request.follow,
            r.request.stdout,
            r.request.stderr,
            r.open,
    {
        LogPrinter {
            request: LogsRequest {
                container: id.to_string(),
                follow: true,
                stdout: true,
                stderr: true,
            },
            open: true,
        }
    }
}

/// Creating a network twice creates it once: where its name has been added to the list,
/// wherever it stands there, nothing more is asked for.
pub proof fn law_created_network_is_listed(
    before: Seq<Option<Seq<char>>>,
    after: Seq<Option<Seq<char>>>,
    network: Seq<char>,
)
    ensures
        is_listed(before.push(Some(network)) + after, network),
{
    let list = before.push(Some(network)) + after;
    assert(list[before.len() as int] == Some(network));
}

/// Networks without a name, or with another one, do not count.
pub proof fn law_other_networks_do_not_count(
    existing: Seq<Option<Seq<char>>>,
    other: Option<Seq<char>>,
    network: Seq<char>,
)
    requires
        other != Some(network),
    ensures
        is_listed(existing.push(other), network) == is_listed(existing, network),
{
    let longer = existing.push(other);
    if is_listed(existing, network) {
        let i = choose|i: int| 0 <= i < existing.len() && existing[i] == Some(network);
        assert(longer[i] == Some(network));
    }
}

/// The logs that Docker is asked for.
pub struct LogsRequest {
    pub container: String,
    pub follow: bool,
    pub stdout: bool,
    pub stderr: bool,
}

/// What comes next in a stream of logs.
pub enum LogEvent {
    /// A piece of output.
    Output(Vec<u8>),
    /// Reading failed.
    Failed,
    /// The container's output was closed.
    Closed,
}

/// A [`LogEvent`] with its bytes as a sequence.
pub enum LogEventView {
    Output(Seq<u8>),
    Failed,
    Closed,
}

impl View for LogEvent {
    type V = LogEventView;

    open spec fn view(&self) -> LogEventView {
        match *self {
            LogEvent::Output(bytes) => LogEventView::Output(bytes@),
            LogEvent::Failed => LogEventView::Failed,
            LogEvent::Closed => LogEventView::Closed,
        }
    }
}

/// Copies a stream of logs piece by piece, up to its end or its first failure.
pub struct LogPrinter {
    pub request: LogsRequest,
    /// The stream is still read.
    pub open: bool,
}

/// What a printer writes for an event; nothing once it has stopped.
pub open spec fn log_output(open: bool, event: LogEventView) -> Option<Seq<u8>> {
    match event {
        LogEventView::Output(bytes) => if open { Some(bytes) } else { None },
        _ => None,
    }
}

/// All that a printer writes for a sequence of events.
pub open spec fn printed(open: bool, events: Seq<LogEventView>) -> Seq<u8>
    decreases events.len(),
{
    if events.len() == 0 {
        Seq::empty()
    } else {
        match log_output(open, events.first()) {
            Some(bytes) => bytes + printed(true, events.drop_first()),
            None => printed(false, events.drop_first()),
        }
    }
}

impl LogPrinter {
    /// Takes the next event and gives the bytes to write and flush; nothing, now and from
    /// then on, when the stream is over.
    pub fn next(&mut self, event: LogEvent) -> (r: Option<Vec<u8>>)
        ensures
            match r {
                Some(bytes) => log_output(old(self).open, event@) == Some(bytes@),
                None => log_output(old(self).open, event@) is None,
            },
            final(self).open == (r is Some),
            final(self).request == old(self).request,
            match event {
                LogEvent::Output(bytes) => old(self).open ==> r == Some(bytes),
                _ => r is None,
            },
            !old(self).open ==> r is None,
    {
        if !self.open {
            return None;
        }
        match event {
            LogEvent::Output(bytes) => Some(bytes),
            _ => {
                self.open = false;
                None
            },
        }
    }
}

/// What is printed of a stream is what the printer writes for its first event, followed by
/// what is printed of the rest. The printer reads on only if it wrote something.
pub proof fn law_events_are_printed_one_by_one(
    open: bool,
    event: LogEventView,
    rest: Seq<LogEventView>,
)
    ensures
        printed(open, seq![event] + rest) == match log_output(open, event) {
            Some(bytes) => bytes + printed(true, rest),
            None => printed(false, rest),
        },
{
    let events = seq![event] + rest;
    assert(events.first() == event);
    assert(events.drop_first() =~= rest);
}

/// A stopped printer writes nothing.
proof fn lemma_stopped_printer(events: Seq<LogEventView>)
    ensures
        printed(false, events) == Seq::<u8>::empty(),
    decreases events.len(),
{
    if events.len() > 0 {
        lemma_stopped_printer(events.drop_first());
    }
}

/// The bytes of a piece of output.
pub open spec fn output_bytes(event: LogEventView) -> Seq<u8> {
    match event {
        LogEventView::Output(bytes) => bytes,
        _ => Seq::empty(),
    }
}

/// What is printed of a stream is its output up to the first event that is no output, in
/// order and without gaps; what follows that event is not printed.
pub proof fn law_logs_are_printed_up_to_the_first_failure(events: Seq<LogEventView>, n: int)
    requires
        0 <= n <= events.len(),
        forall|i: int| 0 <= i < n ==> #[trigger] events[i] is Output,
        n < events.len() ==> !(events[n] is Output),
    ensures
        printed(true, events) == events.take(n).map_values(
            |event: LogEventView| output_bytes(event),
        ).flatten(),
    decreases n,
{
    let bytes = |event: LogEventView| output_bytes(event);
    let prefix = events.take(n).map_values(bytes);
    if n == 0 {
        if events.len() > 0 {
            lemma_stopped_printer(events.drop_first());
        }
        assert(prefix =~= Seq::empty());
    } else {
        let rest = events.drop_first();
        assert forall|i: int| 0 <= i < n - 1 implies #[trigger] rest[i] is Output by {
            assert(rest[i] == events[i + 1]);
        }
        law_logs_are_printed_up_to_the_first_failure(rest, n - 1);
        assert(prefix.drop_first() =~= rest.take(n - 1).map_values(bytes));
        assert(prefix.first() == output_bytes(events[0]));
        assert(events[0] is Output);
    }
}

/// Where the report holds an address for the network, the result is that very address,
/// whatever the container is called and whatever else the report holds.
pub proof fn law_reported_address_is_returned(
    container: Seq<char>,
    networks: Map<Seq<char>, Option<Seq<char>>>,
    network: Seq<char>,
    ip_address: Seq<char>,
)
    requires
        networks.contains_key(network),
        networks[network] == Some(ip_address),
    ensures
        network_ip_address(container, Some(Some(networks)), network) == Ok::<
            Seq<char>,
            NetworkErrorView,
        >(ip_address),
{
}

/// Each thing that can be missing has its own error, which comes if and only if that thing
/// is the first one missing, and which names the container and the network.
pub proof fn law_first_missing_thing_is_reported(
    container: Seq<char>,
    inspection: Option<Option<Map<Seq<char>, Option<Seq<char>>>>>,
    network: Seq<char>,
)
    ensures
        ({
            let r = network_ip_address(container, inspection, network);
            let networks = inspection->0->0;
            let listed = inspection is Some && inspection->0 is Some;
            &&& r is Ok <==> listed && networks.contains_key(network) && networks[network] is Some
            &&& r == Err::<Seq<char>, NetworkErrorView>(
                NetworkErrorView::MissingSettings { container },
            ) <==> inspection is None
            &&& r == Err::<Seq<char>, NetworkErrorView>(
                NetworkErrorView::MissingNetworks { container },
            ) <==> inspection is Some && inspection->0 is None
            &&& r == Err::<Seq<char>, NetworkErrorView>(
                NetworkErrorView::NotAttached { container, network },
            ) <==> listed && !networks.contains_key(network)
            &&& r == Err::<Seq<char>, NetworkErrorView>(
                NetworkErrorView::NoAddress { container, network },
            ) <==> listed && networks.contains_key(network) && networks[network] is None
        }),
{
}

/// The entry of another network makes no difference.
pub proof fn law_other_entries_make_no_difference(
    container: Seq<char>,
    networks: Map<Seq<char>, Option<Seq<char>>>,
    network: Seq<char>,
    other: Seq<char>,
    entry: Option<Seq<char>>,
)
    requires
        other != network,
    ensures
        network_ip_address(container, Some(Some(networks.insert(other, entry))), network)
            == network_ip_address(container, Some(Some(networks)), network),
{
}

/// What was reported last for a network is what is read: its address, or that it has none.
pub proof fn law_entry_is_read_as_it_was_written(
    container: Seq<char>,
    networks: Map<Seq<char>, Option<Seq<char>>>,
    network: Seq<char>,
    entry: Option<Seq<char>>,
)
    ensures
        network_ip_address(container, Some(Some(networks.insert(network, entry))), network)
            == match entry {
            Some(ip_address) => Ok::<Seq<char>, NetworkErrorView>(ip_address),
            None => Err::<Seq<char>, NetworkErrorView>(
                NetworkErrorView::NoAddress { container, network },
            ),
        },
{
}

/// A network counts as existing if and only if its name stands somewhere in the list; with
/// an empty list none does.
pub proof fn law_network_exists_only_where_it_is_listed(
    existing: Seq<Option<Seq<char>>>,
    network: Seq<char>,
)
    ensures
        is_listed(existing, network) <==> exists|i: int|
            0 <= i < existing.len() && #[trigger] existing[i] == Some(network),
        !is_listed(Seq::empty(), network),
{
}

/// The names of a list of networks are those of its entries, each in its place.
pub proof fn law_names_are_those_of_the_entries(existing: Seq<Option<String>>, i: int)
    requires
        0 <= i < existing.len(),
    ensures
        network_names(existing).len() == existing.len(),
        existing[i] matches Some(name) ==> network_names(existing)[i] == Some(name@),
        existing[i] is None ==> network_names(existing)[i] == None::<Seq<char>>,
{
}

/// The driver follows the operating system.
pub proof fn law_driver_follows_the_system(windows: bool)
    ensures
        windows ==> network_driver(windows) == "transparent"@,
        !windows ==> network_driver(windows) == "bridge"@,
{
}

/// A message says what is missing and quotes the container, and the network where one is
/// concerned, as they are.
pub proof fn law_messages_quote_their_subject(container: Seq<char>, network: Seq<char>)
    ensures
        (NetworkErrorView::MissingSettings { container }).message()
            == "missing NetworkSettings on container '"@ + container + "'"@,
        (NetworkErrorView::MissingNetworks { container }).message()
            == "missing NetworkSettings.Networks on container '"@ + container + "'"@,
        (NetworkErrorView::NotAttached { container, network }).message() == "container '"@
            + container + "' is not a part of network '"@ + network + "'"@,
        (NetworkErrorView::NoAddress { container, network }).message() == "container '"@
            + container + "' belongs to network '"@ + network
            + "', but is not assigned an IP address"@,
{
}

/// A printer writes something if and only if it is open and the event is output, and then it
/// writes the bytes of that output, all of them and no others.
pub proof fn law_output_is_written_as_it_is(open: bool, event: LogEventView, bytes: Seq<u8>)
    ensures
        log_output(open, event) == Some(bytes) <==> open && event == LogEventView::Output(bytes),
        log_output(open, event) is None <==> !open || !(event is Output),
{
}

/// What is printed of a stream that begins with the given pieces of output, followed by
/// nothing or by an event that is no output, are these pieces, one after the other.
pub proof fn law_pieces_are_printed_in_order(pieces: Seq<Seq<u8>>, rest: Seq<LogEventView>)
    requires
        rest.len() > 0 ==> !(rest[0] is Output),
    ensures
        printed(
            true,
            pieces.map_values(|bytes: Seq<u8>| LogEventView::Output(bytes)) + rest,
        ) == pieces.flatten(),
{
    let output = |bytes: Seq<u8>| LogEventView::Output(bytes);
    let events = pieces.map_values(output) + rest;
    let n = pieces.len() as int;
    assert forall|i: int| 0 <= i < n implies #[trigger] events[i] is Output by {
        assert(events[i] == output(pieces[i]));
    }
    law_logs_are_printed_up_to_the_first_failure(events, n);
    let back = |event: LogEventView| output_bytes(event);
    assert(events.take(n).map_values(back) =~= pieces);
}

} // verus!
