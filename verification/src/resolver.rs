//! The endpoint resolver: from the cluster service that a connection names
//! to the endpoint that its calls are routed to, according to how the
//! service is exposed.
//!
//! | Exposure      | Address                                         |
//! |---------------|-------------------------------------------------|
//! | ExternalName  | the service's external name                     |
//! | NodePort      | an address of the first node that can be reached |
//! | LoadBalancer  | the service's load-balancer IP                  |
//! | ClusterIP     | none: not reachable from outside the cluster    |
//! | anything else | none: unsupported                               |
//!
//! Only the first port of a service is considered. Resolution is a state
//! machine: its owner answers the query that [`Resolution::pending_query`]
//! names through [`Resolution::on_reply`], until the state is `Resolved`. A
//! lookup that fails resolves to no endpoint; it is never an error.

use vstd::prelude::*;
use crate::connection::{Inbound, InboundView};
use crate::decimal::signed_decimal;
use crate::sip_uri::{build_sip_uri, sip_scheme, sip_uri, ServicePort, ServicePortView};

verus! {

/// The exposure type `ExternalName`.
pub open spec fn external_name_type() -> Seq<char> {
    seq!['E', 'x', 't', 'e', 'r', 'n', 'a', 'l', 'N', 'a', 'm', 'e']
}

/// The exposure type `NodePort`.
pub open spec fn node_port_type() -> Seq<char> {
    seq!['N', 'o', 'd', 'e', 'P', 'o', 'r', 't']
}

/// The exposure type `LoadBalancer`.
pub open spec fn load_balancer_type() -> Seq<char> {
    seq!['L', 'o', 'a', 'd', 'B', 'a', 'l', 'a', 'n', 'c', 'e', 'r']
}

/// The exposure type `ClusterIP`.
pub open spec fn cluster_ip_type() -> Seq<char> {
    seq!['C', 'l', 'u', 's', 't', 'e', 'r', 'I', 'P']
}

/// The node address type `Hostname`.
pub open spec fn hostname_type() -> Seq<char> {
    seq!['H', 'o', 's', 't', 'n', 'a', 'm', 'e']
}

/// The node address type `ExternalIP`.
pub open spec fn external_ip_type() -> Seq<char> {
    seq!['E', 'x', 't', 'e', 'r', 'n', 'a', 'l', 'I', 'P']
}

/// What resolution reads of a cluster service: how it is exposed, the
/// address material of each exposure type, and its ports.
#[derive(Clone, Debug, PartialEq, Eq)]
pub struct ServiceSpec {
    pub type_: Option<String>,
    pub external_name: Option<String>,
    pub load_balancer_ip: Option<String>,
    pub ports: Option<Vec<ServicePort>>,
}

/// Mathematical model of [`ServiceSpec`].
pub struct ServiceSpecView {
    pub type_: Option<Seq<char>>,
    pub external_name: Option<Seq<char>>,
    pub load_balancer_ip: Option<Seq<char>>,
    pub ports: Option<Seq<ServicePortView>>,
}

impl ServiceSpecView {
    /// The first port that the service declares, if it declares any.
    pub open spec fn first_port(self) -> Option<ServicePortView> {
        match self.ports {
            Some(ports) => if ports.len() > 0 {
                Some(ports[0])
            } else {
                None
            },
            None => None,
        }
    }
}

impl View for ServiceSpec {
    type V = ServiceSpecView;

    open spec fn view(&self) -> ServiceSpecView {
        ServiceSpecView {
            type_: self.type_.deep_view(),
            external_name: self.external_name.deep_view(),
            load_balancer_ip: self.load_balancer_ip.deep_view(),
            ports: self.ports.deep_view(),
        }
    }
}

impl DeepView for ServiceSpec {
    type V = ServiceSpecView;

    open spec fn deep_view(&self) -> ServiceSpecView {
        self@
    }
}

/// One address of a cluster node, with the type it is listed under.
#[derive(Clone, Debug, PartialEq, Eq)]
pub struct NodeAddress {
    pub type_: String,
    pub address: String,
}

/// Mathematical model of [`NodeAddress`].
pub struct NodeAddressView {
    pub type_: Seq<char>,
    pub address: Seq<char>,
}

impl View for NodeAddress {
    type V = NodeAddressView;

    open spec fn view(&self) -> NodeAddressView {
        NodeAddressView { type_: self.type_@, address: self.address@ }
    }
}

impl DeepView for NodeAddress {
    type V = NodeAddressView;

    open spec fn deep_view(&self) -> NodeAddressView {
        self@
    }
}

/// What resolution reads of a cluster node: the addresses that its status
/// lists, if it has a status that lists any.
#[derive(Clone, Debug, PartialEq, Eq)]
pub struct Node {
    pub addresses: Option<Vec<NodeAddress>>,
}

/// Mathematical model of [`Node`].
pub struct NodeView {
    pub addresses: Option<Seq<NodeAddressView>>,
}

impl View for Node {
    type V = NodeView;

    open spec fn view(&self) -> NodeView {
        NodeView { addresses: self.addresses.deep_view() }
    }
}

impl DeepView for Node {
    type V = NodeView;

    open spec fn deep_view(&self) -> NodeView {
        self@
    }
}

/// The address of the first entry, from place `from` on, that is listed
/// under the given type.
pub open spec fn first_of_type_from(
    addresses: Seq<NodeAddressView>,
    type_: Seq<char>,
    from: int,
) -> Option<Seq<char>>
    decreases addresses.len() - from,
{
    if from < 0 || from >= addresses.len() {
        None
    } else if addresses[from].type_ == type_ {
        Some(addresses[from].address)
    } else {
        first_of_type_from(addresses, type_, from + 1)
    }
}

/// The address of the first entry that is listed under the given type.
pub open spec fn first_of_type(addresses: Seq<NodeAddressView>, type_: Seq<char>) -> Option<
    Seq<char>,
> {
    first_of_type_from(addresses, type_, 0)
}

impl NodeView {
    /// The address that the node can be reached at from outside the cluster:
    /// its first hostname or, where it has no hostname, its first external
    /// IP.
    pub open spec fn routable_address(self) -> Option<Seq<char>> {
        match self.addresses {
            Some(addresses) => match first_of_type(addresses, hostname_type()) {
                Some(address) => Some(address),
                None => first_of_type(addresses, external_ip_type()),
            },
            None => None,
        }
    }
}

/// The routable address of the first node, from place `from` on, that has
/// one.
pub open spec fn first_routable_from(nodes: Seq<NodeView>, from: int) -> Option<Seq<char>>
    decreases nodes.len() - from,
{
    if from < 0 || from >= nodes.len() {
        None
    } else if nodes[from].routable_address() is Some {
        nodes[from].routable_address()
    } else {
        first_routable_from(nodes, from + 1)
    }
}

/// The routable address of the first node that has one.
pub open spec fn first_routable(nodes: Seq<NodeView>) -> Option<Seq<char>> {
    first_routable_from(nodes, 0)
}

/// A lookup in the cluster that resolution asks its owner to make.
#[derive(Clone, Debug, PartialEq, Eq)]
pub enum ClusterQuery {
    /// Get the service of this name in the connection's namespace.
    GetService { name: String },
    /// List the nodes of the cluster.
    ListNodes,
}

/// Mathematical model of [`ClusterQuery`].
pub enum ClusterQueryView {
    GetService { name: Seq<char> },
    ListNodes,
}

impl View for ClusterQuery {
    type V = ClusterQueryView;

    open spec fn view(&self) -> ClusterQueryView {
        match self {
            ClusterQuery::GetService { name } => ClusterQueryView::GetService { name: name@ },
            ClusterQuery::ListNodes => ClusterQueryView::ListNodes,
        }
    }
}

impl DeepView for ClusterQuery {
    type V = ClusterQueryView;

    open spec fn deep_view(&self) -> ClusterQueryView {
        self@
    }
}

/// What came back from a lookup in the cluster.
#[derive(Clone, Debug, PartialEq, Eq)]
pub enum ClusterReply {
    /// The service that was asked for.
    Service(ServiceSpec),
    /// The nodes of the cluster, in the order the cluster lists them.
    Nodes(Vec<Node>),
    /// The lookup failed.
    Unavailable,
}

/// Mathematical model of [`ClusterReply`].
pub enum ClusterReplyView {
    Service(ServiceSpecView),
    Nodes(Seq<NodeView>),
    Unavailable,
}

impl View for ClusterReply {
    type V = ClusterReplyView;

    open spec fn view(&self) -> ClusterReplyView {
        match self {
            ClusterReply::Service(service) => ClusterReplyView::Service(service@),
            ClusterReply::Nodes(nodes) => ClusterReplyView::Nodes(nodes.deep_view()),
            ClusterReply::Unavailable => ClusterReplyView::Unavailable,
        }
    }
}

impl DeepView for ClusterReply {
    type V = ClusterReplyView;

    open spec fn deep_view(&self) -> ClusterReplyView {
        self@
    }
}

/// Why resolution ended the way it did.
#[derive(Clone, Copy, Debug, PartialEq, Eq, Structural)]
pub enum Finding {
    /// The connection declares no inbound service: there is nothing to
    /// resolve.
    NoService,
    /// The service is an `ExternalName`; the endpoint is over its external
    /// name.
    ExternalName,
    /// The service is a `NodePort`; the endpoint is over a node's address.
    NodePort,
    /// The service is a `LoadBalancer`; the endpoint is over its IP.
    LoadBalancer,
    /// The service is a `ClusterIP`: not reachable from outside the cluster.
    NotRoutable,
    /// The service has another type or none, or lacks the address or the
    /// port list that its type calls for.
    Unsupported,
    /// The service is a `NodePort`, but no node has a hostname or an
    /// external IP.
    NoNodeAddress,
    /// The service could not be looked up.
    ServiceUnavailable,
    /// The nodes could not be listed.
    NodesUnavailable,
}

/// Where the resolution of an endpoint stands.
#[derive(Clone, Debug, PartialEq, Eq)]
pub enum Resolution {
    /// Waiting for the service to be looked up.
    AwaitingService { service: String },
    /// The service is a `NodePort` with this first port; waiting for the
    /// nodes to be listed.
    AwaitingNodes { port: Option<ServicePort> },
    /// Resolution is over, with an endpoint or without one.
    Resolved { endpoint: Option<String>, finding: Finding },
}

/// Mathematical model of [`Resolution`].
pub enum ResolutionView {
    AwaitingService { service: Seq<char> },
    AwaitingNodes { port: Option<ServicePortView> },
    Resolved { endpoint: Option<Seq<char>>, finding: Finding },
}

impl View for Resolution {
    type V = ResolutionView;

    open spec fn view(&self) -> ResolutionView {
        match self {
            Resolution::AwaitingService { service } => ResolutionView::AwaitingService {
                service: service@,
            },
            Resolution::AwaitingNodes { port } => ResolutionView::AwaitingNodes {
                port: port.deep_view(),
            },
            Resolution::Resolved { endpoint, finding } => ResolutionView::Resolved {
                endpoint: endpoint.deep_view(),
                finding: *finding,
            },
        }
    }
}

impl DeepView for Resolution {
    type V = ResolutionView;

    open spec fn deep_view(&self) -> ResolutionView {
        self@
    }
}

impl ResolutionView {
    /// Resolution over without an endpoint.
    pub open spec fn unresolved(finding: Finding) -> ResolutionView {
        ResolutionView::Resolved { endpoint: None, finding }
    }

    /// Resolution as it starts for a connection: over at once where no
    /// inbound service is declared, else waiting for that service.
    pub open spec fn begin(inbound: Option<InboundView>) -> ResolutionView {
        match inbound {
            Some(inbound) => ResolutionView::AwaitingService { service: inbound.service },
            None => ResolutionView::unresolved(Finding::NoService),
        }
    }

    /// What a service resolves to, by its exposure type.
    ///
    /// An `ExternalName` and a `LoadBalancer` resolve at once, to the
    /// endpoint over their address and first port, provided they carry the
    /// address and a port list. A `NodePort` with a port list needs the
    /// nodes. Everything else resolves to no endpoint.
    pub open spec fn of_service(service: ServiceSpecView) -> ResolutionView {
        if service.type_ == Some(external_name_type()) && service.external_name is Some
            && service.ports is Some {
            ResolutionView::Resolved {
                endpoint: Some(sip_uri(service.external_name->0, service.first_port())),
                finding: Finding::ExternalName,
            }
        } else if service.type_ == Some(node_port_type()) && service.ports is Some {
            ResolutionView::AwaitingNodes { port: service.first_port() }
        } else if service.type_ == Some(load_balancer_type()) && service.load_balancer_ip is Some
            && service.ports is Some {
            ResolutionView::Resolved {
                endpoint: Some(sip_uri(service.load_balancer_ip->0, service.first_port())),
                finding: Finding::LoadBalancer,
            }
        } else if service.type_ == Some(cluster_ip_type()) {
            ResolutionView::unresolved(Finding::NotRoutable)
        } else {
            ResolutionView::unresolved(Finding::Unsupported)
        }
    }

    /// What a `NodePort` service with the given first port resolves to, once
    /// the nodes are known: the endpoint over the routable address of the
    /// first node that has one, or no endpoint where no node has one.
    pub open spec fn of_nodes(
        port: Option<ServicePortView>,
        nodes: Seq<NodeView>,
    ) -> ResolutionView {
        match first_routable(nodes) {
            Some(address) => ResolutionView::Resolved {
                endpoint: Some(sip_uri(address, port)),
                finding: Finding::NodePort,
            },
            None => ResolutionView::unresolved(Finding::NoNodeAddress),
        }
    }

    /// The lookup whose answer resolution waits for; none once it is over.
    pub open spec fn pending_query(self) -> Option<ClusterQueryView> {
        match self {
            ResolutionView::AwaitingService { service } => Some(
                ClusterQueryView::GetService { name: service },
            ),
            ResolutionView::AwaitingNodes { .. } => Some(ClusterQueryView::ListNodes),
            ResolutionView::Resolved { .. } => None,
        }
    }

    /// The endpoint, once resolution is over and has found one.
    pub open spec fn endpoint(self) -> Option<Seq<char>> {
        match self {
            ResolutionView::Resolved { endpoint, .. } => endpoint,
            _ => None,
        }
    }

    /// The state after `reply` has come back for the pending lookup.
    ///
    /// Anything but the answer that the lookup asks for counts as the
    /// lookup having failed, and resolves to no endpoint. A resolution that
    /// is over stays as it is.
    pub open spec fn on_reply(self, reply: ClusterReplyView) -> ResolutionView {
        match self {
            ResolutionView::AwaitingService { .. } => match reply {
                ClusterReplyView::Service(service) => ResolutionView::of_service(service),
                _ => ResolutionView::unresolved(Finding::ServiceUnavailable),
            },
            ResolutionView::AwaitingNodes { port } => match reply {
                ClusterReplyView::Nodes(nodes) => ResolutionView::of_nodes(port, nodes),
                _ => ResolutionView::unresolved(Finding::NodesUnavailable),
            },
            ResolutionView::Resolved { endpoint, finding } => ResolutionView::Resolved {
                endpoint,
                finding,
            },
        }
    }

    /// The state after the replies have come back one after the other.
    pub open spec fn run(self, replies: Seq<ClusterReplyView>) -> ResolutionView
        decreases replies.len(),
    {
        if replies.len() == 0 {
            self
        } else {
            self.on_reply(replies[0]).run(replies.drop_first())
        }
    }
}

/// Whether an optional text is present and reads as `literal`.
fn reads_as(text: &Option<String>, literal: &str) -> (same: bool)
    ensures
        same == (text.deep_view() == Some(literal@)),
{
    match text {
        Some(text) => {
            let other = String::from_str(literal);
            *text == other
        },
        None => false,
    }
}

/// The first port of a port list, if it has any.
fn first_port(ports: &Vec<ServicePort>) -> (port: Option<&ServicePort>)
    ensures
        port.deep_view() == if ports.len() > 0 {
            Some(ports.deep_view()[0])
        } else {
            None
        },
{
    if ports.len() > 0 {
        Some(&ports[0])
    } else {
        None
    }
}

/// A copy of an optional port.
fn duplicate_port(port: Option<&ServicePort>) -> (copy: Option<ServicePort>)
    ensures
        copy.deep_view() == port.deep_view(),
{
    match port {
        Some(port) => Some(
            ServicePort {
                node_port: port.node_port,
                protocol: match &port.protocol {
                    Some(protocol) => Some(protocol.clone()),
                    None => None,
                },
            },
        ),
        None => None,
    }
}

/// The address of the first entry that is listed under the given type.
fn find_address<'a>(addresses: &'a Vec<NodeAddress>, type_: &str) -> (address: Option<&'a String>)
    ensures
        address.deep_view() == first_of_type(addresses.deep_view(), type_@),
{
    let wanted = String::from_str(type_);
    let mut i: usize = 0;
    while i < addresses.len()
        invariant
            i <= addresses.len(),
            wanted@ == type_@,
            first_of_type(addresses.deep_view(), type_@) == first_of_type_from(
                addresses.deep_view(),
                type_@,
                i as int,
            ),
        decreases addresses.len() - i,
    {
        assert(addresses.deep_view()[i as int] == addresses[i as int]@);
        if addresses[i].type_ == wanted {
            return Some(&addresses[i].address);
        }
        i += 1;
    }
    None
}

impl Node {
    /// The address that the node can be reached at from outside the cluster:
    /// its first hostname or, where it has no hostname, its first external
    /// IP.
    pub fn routable_address(&self) -> (address: Option<&String>)
        ensures
            address.deep_view() == self@.routable_address(),
    {
        proof {
            reveal_strlit("Hostname");
            reveal_strlit("ExternalIP");
            assert("Hostname"@ =~= hostname_type());
            assert("ExternalIP"@ =~= external_ip_type());
        }
        match &self.addresses {
            Some(addresses) => match find_address(addresses, "Hostname") {
                Some(address) => Some(address),
                None => find_address(addresses, "ExternalIP"),
            },
            None => None,
        }
    }
}

/// The routable address of the first node that has one.
pub fn first_routable_address(nodes: &Vec<Node>) -> (address: Option<&String>)
    ensures
        address.deep_view() == first_routable(nodes.deep_view()),
{
    let mut i: usize = 0;
    while i < nodes.len()
        invariant
            i <= nodes.len(),
            first_routable(nodes.deep_view()) == first_routable_from(nodes.deep_view(), i as int),
        decreases nodes.len() - i,
    {
        assert(nodes.deep_view()[i as int] == nodes[i as int]@);
        let address = nodes[i].routable_address();
        if address.is_some() {
            return address;
        }
        i += 1;
    }
    None
}

impl Resolution {
    /// Starts resolution for a connection with the given inbound
    /// declaration.
    pub fn begin(inbound: &Option<Inbound>) -> (start: Resolution)
        ensures
            start@ == ResolutionView::begin(inbound.deep_view()),
    {
        match inbound {
            Some(inbound) => Resolution::AwaitingService { service: inbound.service.clone() },
            None => Resolution::Resolved { endpoint: None, finding: Finding::NoService },
        }
    }

    /// What a service resolves to, by its exposure type.
    pub fn of_service(service: &ServiceSpec) -> (next: Resolution)
        ensures
            next@ == ResolutionView::of_service(service@),
    {
        proof {
            reveal_strlit("ExternalName");
            reveal_strlit("NodePort");
            reveal_strlit("LoadBalancer");
            reveal_strlit("ClusterIP");
            assert("ExternalName"@ =~= external_name_type());
            assert("NodePort"@ =~= node_port_type());
            assert("LoadBalancer"@ =~= load_balancer_type());
            assert("ClusterIP"@ =~= cluster_ip_type());
        }
        if reads_as(&service.type_, "ExternalName") {
            if let (Some(external_name), Some(ports)) = (&service.external_name, &service.ports) {
                let endpoint = build_sip_uri(external_name.as_str(), first_port(ports));
                return Resolution::Resolved {
                    endpoint: Some(endpoint),
                    finding: Finding::ExternalName,
                };
            }
        }
        if reads_as(&service.type_, "NodePort") {
            if let Some(ports) = &service.ports {
                return Resolution::AwaitingNodes { port: duplicate_port(first_port(ports)) };
            }
        }
        if reads_as(&service.type_, "LoadBalancer") {
            if let (Some(load_balancer_ip), Some(ports)) = (
                &service.load_balancer_ip,
                &service.ports,
            ) {
                let endpoint = build_sip_uri(load_balancer_ip.as_str(), first_port(ports));
                return Resolution::Resolved {
                    endpoint: Some(endpoint),
                    finding: Finding::LoadBalancer,
                };
            }
        }
        if reads_as(&service.type_, "ClusterIP") {
            Resolution::Resolved { endpoint: None, finding: Finding::NotRoutable }
        } else {
            Resolution::Resolved { endpoint: None, finding: Finding::Unsupported }
        }
    }

    /// What a `NodePort` service with the given first port resolves to, once
    /// the nodes are known.
    pub fn of_nodes(port: Option<&ServicePort>, nodes: &Vec<Node>) -> (next: Resolution)
        ensures
            next@ == ResolutionView::of_nodes(port.deep_view(), nodes.deep_view()),
    {
        match first_routable_address(nodes) {
            Some(address) => Resolution::Resolved {
                endpoint: Some(build_sip_uri(address.as_str(), port)),
                finding: Finding::NodePort,
            },
            None => Resolution::Resolved { endpoint: None, finding: Finding::NoNodeAddress },
        }
    }

    /// The lookup to make next; none once resolution is over.
    pub fn pending_query(&self) -> (query: Option<ClusterQuery>)
        ensures
            query.deep_view() == self@.pending_query(),
    {
        match self {
            Resolution::AwaitingService { service } => Some(
                ClusterQuery::GetService { name: service.clone() },
            ),
            Resolution::AwaitingNodes { .. } => Some(ClusterQuery::ListNodes),
            Resolution::Resolved { .. } => None,
        }
    }

    /// Takes the cluster's answer to the pending lookup and moves on.
    pub fn on_reply(self, reply: ClusterReply) -> (next: Resolution)
        ensures
            next@ == self@.on_reply(reply@),
    {
        match self {
            Resolution::AwaitingService { .. } => match reply {
                ClusterReply::Service(service) => Resolution::of_service(&service),
                _ => Resolution::Resolved { endpoint: None, finding: Finding::ServiceUnavailable },
            },
            Resolution::AwaitingNodes { port } => match reply {
                ClusterReply::Nodes(nodes) => Resolution::of_nodes(port.as_ref(), &nodes),
                _ => Resolution::Resolved { endpoint: None, finding: Finding::NodesUnavailable },
            },
            Resolution::Resolved { endpoint, finding } => Resolution::Resolved {
                endpoint,
                finding,
            },
        }
    }
}

/// Once resolution is over, no answer changes what it resolved to.
pub proof fn resolved_is_final(
    endpoint: Option<Seq<char>>,
    finding: Finding,
    replies: Seq<ClusterReplyView>,
)
    ensures
        (ResolutionView::Resolved { endpoint, finding }).run(replies) == (ResolutionView::Resolved {
            endpoint,
            finding,
        }),
    decreases replies.len(),
{
    if replies.len() > 0 {
        resolved_is_final(endpoint, finding, replies.drop_first());
    }
}

/// The exposure types are four different texts.
pub proof fn exposure_types_differ()
    ensures
        external_name_type() != node_port_type(),
        external_name_type() != load_balancer_type(),
        external_name_type() != cluster_ip_type(),
        node_port_type() != load_balancer_type(),
        node_port_type() != cluster_ip_type(),
        load_balancer_type() != cluster_ip_type(),
{
    assert(external_name_type().len() == 12);
    assert(node_port_type().len() == 8);
    assert(load_balancer_type().len() == 12);
    assert(cluster_ip_type().len() == 9);
    assert(external_name_type()[0] == 'E');
    assert(load_balancer_type()[0] == 'L');
}

/// A service of type `ClusterIP`, and one without a type, resolves to no
/// endpoint, whatever else it carries. It does so as soon as the service is
/// known: the nodes are not asked for, and no later answer changes it.
pub proof fn cluster_ip_and_untyped_have_no_endpoint(
    name: Seq<char>,
    service: ServiceSpecView,
    later: Seq<ClusterReplyView>,
)
    requires
        service.type_ is None || service.type_ == Some(cluster_ip_type()),
    ensures
        ResolutionView::of_service(service) == ResolutionView::unresolved(
            if service.type_ is None {
                Finding::Unsupported
            } else {
                Finding::NotRoutable
            },
        ),
        (ResolutionView::AwaitingService { service: name }).on_reply(
            ClusterReplyView::Service(service),
        ).pending_query() is None,
        (ResolutionView::AwaitingService { service: name }).run(
            seq![ClusterReplyView::Service(service)] + later,
        ).endpoint() is None,
{
    exposure_types_differ();
    let start = ResolutionView::AwaitingService { service: name };
    let replies = seq![ClusterReplyView::Service(service)] + later;
    assert(replies[0] == ClusterReplyView::Service(service));
    assert(replies.drop_first() =~= later);
    let finding = if service.type_ is None {
        Finding::Unsupported
    } else {
        Finding::NotRoutable
    };
    resolved_is_final(None, finding, later);
}

/// `first_of_type_from` finds the entry with the least place, from `from`
/// on, among those listed under the type, and nothing where there is none.
pub proof fn first_of_type_is_least(addresses: Seq<NodeAddressView>, type_: Seq<char>, from: int)
    requires
        0 <= from,
    ensures
        match first_of_type_from(addresses, type_, from) {
            Some(address) => exists|i: int|
                {
                    &&& from <= i < addresses.len()
                    &&& (#[trigger] addresses[i]).type_ == type_
                    &&& addresses[i].address == address
                    &&& forall|j: int| from <= j < i ==> (#[trigger] addresses[j]).type_ != type_
                },
            None => forall|j: int|
                from <= j < addresses.len() ==> (#[trigger] addresses[j]).type_ != type_,
        },
    decreases addresses.len() - from,
{
    if from < addresses.len() {
        if addresses[from].type_ == type_ {
            assert(addresses[from].address == first_of_type_from(addresses, type_, from)->0);
        } else {
            first_of_type_is_least(addresses, type_, from + 1);
            match first_of_type_from(addresses, type_, from + 1) {
                Some(address) => {
                    let i = choose|i: int|
                        {
                            &&& from + 1 <= i < addresses.len()
                            &&& (#[trigger] addresses[i]).type_ == type_
                            &&& addresses[i].address == address
                            &&& forall|j: int|
                                from + 1 <= j < i ==> (#[trigger] addresses[j]).type_ != type_
                        };
                    assert forall|j: int| from <= j < i implies (#[trigger] addresses[j]).type_
                        != type_ by {
                        if j > from {
                        }
                    }
                    assert(addresses[i].type_ == type_);
                },
                None => {
                    assert forall|j: int| from <= j < addresses.len() implies (
                    #[trigger] addresses[j]).type_ != type_ by {
                        if j > from {
                        }
                    }
                },
            }
        }
    }
}

/// A node is reached at a hostname in preference to an external IP: at its
/// first address listed as `Hostname` where it has one, else at its first
/// address listed as `ExternalIP`, else not at all. Addresses of other types
/// are never used.
pub proof fn node_prefers_hostname(node: NodeView)
    ensures
        match node.addresses {
            Some(addresses) => {
                &&& first_of_type(addresses, hostname_type()) is Some
                    ==> node.routable_address() == first_of_type(addresses, hostname_type())
                &&& first_of_type(addresses, hostname_type()) is None
                    ==> node.routable_address() == first_of_type(addresses, external_ip_type())
                &&& node.routable_address() is None <==> forall|i: int|
                    0 <= i < addresses.len() ==> (#[trigger] addresses[i]).type_ != hostname_type()
                        && addresses[i].type_ != external_ip_type()
            },
            None => node.routable_address() is None,
        },
{
    if let Some(addresses) = node.addresses {
        first_of_type_is_least(addresses, hostname_type(), 0);
        first_of_type_is_least(addresses, external_ip_type(), 0);
    }
}

/// `first_routable_from` takes the address of the node with the least
/// place, from `from` on, among those that can be reached, and nothing
/// where no node can.
pub proof fn first_routable_is_least(nodes: Seq<NodeView>, from: int)
    requires
        0 <= from,
    ensures
        match first_routable_from(nodes, from) {
            Some(address) => exists|n: int|
                {
                    &&& from <= n < nodes.len()
                    &&& (#[trigger] nodes[n]).routable_address() == Some(address)
                    &&& forall|m: int|
                        from <= m < n ==> (#[trigger] nodes[m]).routable_address() is None
                },
            None => forall|m: int|
                from <= m < nodes.len() ==> (#[trigger] nodes[m]).routable_address() is None,
        },
    decreases nodes.len() - from,
{
    if from < nodes.len() {
        if nodes[from].routable_address() is Some {
            assert(nodes[from].routable_address() == first_routable_from(nodes, from));
        } else {
            first_routable_is_least(nodes, from + 1);
            match first_routable_from(nodes, from + 1) {
                Some(address) => {
                    let n = choose|n: int|
                        {
                            &&& from + 1 <= n < nodes.len()
                            &&& (#[trigger] nodes[n]).routable_address() == Some(address)
                            &&& forall|m: int|
                                from + 1 <= m < n ==> (
                                #[trigger] nodes[m]).routable_address() is None
                        };
                    assert forall|m: int| from <= m < n implies (
                    #[trigger] nodes[m]).routable_address() is None by {
                        if m > from {
                        }
                    }
                    assert(nodes[n].routable_address() == Some(address));
                },
                None => {
                    assert forall|m: int| from <= m < nodes.len() implies (
                    #[trigger] nodes[m]).routable_address() is None by {
                        if m > from {
                        }
                    }
                },
            }
        }
    }
}

/// A `NodePort` service with a port list resolves over a node's address.
///
/// Once the service is known the nodes are asked for. Given the nodes, the
/// endpoint is over the routable address of the first node that has one,
/// which is that node's first hostname or else its first external IP; the
/// node port of the service's first port follows the address where that
/// port has one, and then its transport protocol where it has one. Where no
/// node can be reached there is no endpoint.
pub proof fn node_port_resolves_over_first_routable_node(
    name: Seq<char>,
    service: ServiceSpecView,
    nodes: Seq<NodeView>,
)
    requires
        service.type_ == Some(node_port_type()),
        service.ports is Some,
    ensures
        (ResolutionView::AwaitingService { service: name }).on_reply(
            ClusterReplyView::Service(service),
        ) == (ResolutionView::AwaitingNodes { port: service.first_port() }),
        (ResolutionView::AwaitingNodes { port: service.first_port() }).pending_query() == Some(
            ClusterQueryView::ListNodes,
        ),
        (ResolutionView::AwaitingService { service: name }).run(
            seq![ClusterReplyView::Service(service), ClusterReplyView::Nodes(nodes)],
        ) == ResolutionView::of_nodes(service.first_port(), nodes),
        match first_routable(nodes) {
            Some(address) => {
                &&& exists|n: int|
                    {
                        &&& 0 <= n < nodes.len()
                        &&& (#[trigger] nodes[n]).routable_address() == Some(address)
                        &&& forall|m: int|
                            0 <= m < n ==> (#[trigger] nodes[m]).routable_address() is None
                    }
                &&& ResolutionView::of_nodes(service.first_port(), nodes).endpoint() == Some(
                    match service.first_port() {
                        Some(port) => sip_scheme() + address + port.port_suffix()
                            + port.transport_suffix(),
                        None => sip_scheme() + address,
                    },
                )
            },
            None => {
                &&& forall|m: int|
                    0 <= m < nodes.len() ==> (#[trigger] nodes[m]).routable_address() is None
                &&& ResolutionView::of_nodes(service.first_port(), nodes).endpoint() is None
            },
        },
        service.first_port() matches Some(port) ==> (port.node_port matches Some(number)
            ==> port.port_suffix() == seq![':'] + signed_decimal(number)),
{
    exposure_types_differ();
    first_routable_is_least(nodes, 0);
    let start = ResolutionView::AwaitingService { service: name };
    let replies = seq![ClusterReplyView::Service(service), ClusterReplyView::Nodes(nodes)];
    let rest = replies.drop_first();
    let awaiting = start.on_reply(replies[0]);
    assert(rest[0] == ClusterReplyView::Nodes(nodes));
    assert(start.run(replies) == awaiting.run(rest));
    assert(awaiting.run(rest) == awaiting.on_reply(rest[0]).run(rest.drop_first()));
}

} // verus!
