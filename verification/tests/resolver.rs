use pstn_connection::connection::Inbound;
use pstn_connection::resolver::{
    first_routable_address, ClusterQuery, ClusterReply, Finding, Node, NodeAddress, Resolution,
    ServiceSpec,
};
use pstn_connection::sip_uri::ServicePort;

fn text(s: &str) -> Option<String> {
    Some(s.to_string())
}

fn service(type_: Option<&str>) -> ServiceSpec {
    ServiceSpec {
        type_: type_.map(|t| t.to_string()),
        external_name: None,
        load_balancer_ip: None,
        ports: None,
    }
}

fn udp_port() -> ServicePort {
    ServicePort { node_port: None, protocol: text("udp") }
}

fn address(type_: &str, address: &str) -> NodeAddress {
    NodeAddress { type_: type_.to_string(), address: address.to_string() }
}

fn node(addresses: Vec<NodeAddress>) -> Node {
    Node { addresses: Some(addresses) }
}

fn resolved(endpoint: Option<&str>, finding: Finding) -> Resolution {
    Resolution::Resolved { endpoint: endpoint.map(|e| e.to_string()), finding }
}

fn awaiting(name: &str) -> Resolution {
    Resolution::AwaitingService { service: name.to_string() }
}

#[test]
fn resolution_without_inbound_is_over_at_once() {
    let start = Resolution::begin(&None);
    assert_eq!(start, resolved(None, Finding::NoService));
    assert_eq!(start.pending_query(), None);
}

#[test]
fn resolution_with_inbound_asks_for_the_service() {
    let inbound = Inbound { numbers: 3, service: "sip-proxy".to_string() };
    let start = Resolution::begin(&Some(inbound));
    assert_eq!(start, awaiting("sip-proxy"));
    assert_eq!(start.pending_query(), Some(ClusterQuery::GetService { name: "sip-proxy".to_string() }));
}

#[test]
fn load_balancer_with_udp_port_and_no_node_port() {
    let mut spec = service(Some("LoadBalancer"));
    spec.load_balancer_ip = text("10.0.0.5");
    spec.ports = Some(vec![udp_port()]);
    let next = awaiting("sip-proxy").on_reply(ClusterReply::Service(spec));
    assert_eq!(next, resolved(Some("sip:10.0.0.5;transport=udp"), Finding::LoadBalancer));
    assert_eq!(next.pending_query(), None);
}

#[test]
fn load_balancer_without_ip_or_without_ports_is_unsupported() {
    let mut no_ip = service(Some("LoadBalancer"));
    no_ip.ports = Some(vec![udp_port()]);
    assert_eq!(Resolution::of_service(&no_ip), resolved(None, Finding::Unsupported));
    let mut no_ports = service(Some("LoadBalancer"));
    no_ports.load_balancer_ip = text("10.0.0.5");
    assert_eq!(Resolution::of_service(&no_ports), resolved(None, Finding::Unsupported));
}

#[test]
fn external_name_resolves_over_the_name_and_first_port() {
    let mut spec = service(Some("ExternalName"));
    spec.external_name = text("sip.example.org");
    spec.load_balancer_ip = text("10.9.9.9");
    spec.ports = Some(vec![
        ServicePort { node_port: Some(5060), protocol: text("TCP") },
        ServicePort { node_port: Some(5061), protocol: text("UDP") },
    ]);
    assert_eq!(
        Resolution::of_service(&spec),
        resolved(Some("sip:sip.example.org:5060;transport=TCP"), Finding::ExternalName)
    );
}

#[test]
fn external_name_with_empty_port_list_has_bare_uri() {
    let mut spec = service(Some("ExternalName"));
    spec.external_name = text("sip.example.org");
    spec.ports = Some(vec![]);
    assert_eq!(Resolution::of_service(&spec), resolved(Some("sip:sip.example.org"), Finding::ExternalName));
}

#[test]
fn external_name_without_name_or_ports_is_unsupported() {
    let mut no_name = service(Some("ExternalName"));
    no_name.ports = Some(vec![udp_port()]);
    assert_eq!(Resolution::of_service(&no_name), resolved(None, Finding::Unsupported));
    let mut no_ports = service(Some("ExternalName"));
    no_ports.external_name = text("sip.example.org");
    assert_eq!(Resolution::of_service(&no_ports), resolved(None, Finding::Unsupported));
}

#[test]
fn cluster_ip_has_no_endpoint() {
    let bare = service(Some("ClusterIP"));
    assert_eq!(Resolution::of_service(&bare), resolved(None, Finding::NotRoutable));
    let mut full = service(Some("ClusterIP"));
    full.external_name = text("sip.example.org");
    full.load_balancer_ip = text("10.0.0.5");
    full.ports = Some(vec![udp_port()]);
    let next = awaiting("sip-proxy").on_reply(ClusterReply::Service(full));
    assert_eq!(next, resolved(None, Finding::NotRoutable));
    assert_eq!(next.pending_query(), None);
}

#[test]
fn untyped_service_has_no_endpoint() {
    let bare = service(None);
    assert_eq!(Resolution::of_service(&bare), resolved(None, Finding::Unsupported));
    let mut full = service(None);
    full.external_name = text("sip.example.org");
    full.load_balancer_ip = text("10.0.0.5");
    full.ports = Some(vec![udp_port()]);
    let next = awaiting("sip-proxy").on_reply(ClusterReply::Service(full));
    assert_eq!(next, resolved(None, Finding::Unsupported));
    assert_eq!(next.pending_query(), None);
}

#[test]
fn unknown_and_misspelt_types_are_unsupported() {
    for type_ in ["Headless", "", "clusterip", "NodePorts", "nodeport", "LoadBalancer ", "ExternalNam"] {
        let mut spec = service(Some(type_));
        spec.external_name = text("sip.example.org");
        spec.load_balancer_ip = text("10.0.0.5");
        spec.ports = Some(vec![udp_port()]);
        assert_eq!(Resolution::of_service(&spec), resolved(None, Finding::Unsupported));
    }
}

#[test]
fn node_port_asks_for_the_nodes() {
    let mut spec = service(Some("NodePort"));
    spec.ports = Some(vec![ServicePort { node_port: Some(30060), protocol: None }, udp_port()]);
    let next = awaiting("sip-proxy").on_reply(ClusterReply::Service(spec));
    assert_eq!(
        next,
        Resolution::AwaitingNodes { port: Some(ServicePort { node_port: Some(30060), protocol: None }) }
    );
    assert_eq!(next.pending_query(), Some(ClusterQuery::ListNodes));
}

#[test]
fn node_port_without_ports_is_unsupported() {
    assert_eq!(Resolution::of_service(&service(Some("NodePort"))), resolved(None, Finding::Unsupported));
}

#[test]
fn node_port_resolves_over_hostname_with_node_port_appended() {
    let port = ServicePort { node_port: Some(30060), protocol: None };
    let nodes = vec![node(vec![address("InternalIP", "192.168.0.4"), address("Hostname", "node-1")])];
    let next = Resolution::AwaitingNodes { port: Some(port) }.on_reply(ClusterReply::Nodes(nodes));
    assert_eq!(next, resolved(Some("sip:node-1:30060"), Finding::NodePort));
}

#[test]
fn node_port_prefers_hostname_over_earlier_external_ip() {
    let port = ServicePort { node_port: Some(30060), protocol: text("UDP") };
    let nodes = vec![node(vec![
        address("InternalIP", "192.168.0.4"),
        address("ExternalIP", "203.0.113.7"),
        address("Hostname", "node-1"),
        address("Hostname", "node-1b"),
    ])];
    assert_eq!(
        Resolution::of_nodes(Some(&port), &nodes),
        resolved(Some("sip:node-1:30060;transport=UDP"), Finding::NodePort)
    );
}

#[test]
fn node_port_falls_back_to_first_external_ip() {
    let port = ServicePort { node_port: Some(30060), protocol: None };
    let nodes = vec![node(vec![
        address("InternalIP", "192.168.0.4"),
        address("ExternalIP", "203.0.113.7"),
        address("ExternalIP", "203.0.113.8"),
    ])];
    assert_eq!(Resolution::of_nodes(Some(&port), &nodes), resolved(Some("sip:203.0.113.7:30060"), Finding::NodePort));
}

#[test]
fn node_port_takes_first_node_that_can_be_reached() {
    let nodes = vec![
        Node { addresses: None },
        node(vec![]),
        node(vec![address("InternalIP", "192.168.0.4")]),
        node(vec![address("ExternalIP", "203.0.113.7")]),
        node(vec![address("Hostname", "node-5")]),
    ];
    assert_eq!(first_routable_address(&nodes), Some(&"203.0.113.7".to_string()));
    assert_eq!(Resolution::of_nodes(None, &nodes), resolved(Some("sip:203.0.113.7"), Finding::NodePort));
}

#[test]
fn node_port_without_node_port_number_has_no_port_suffix() {
    let port = ServicePort { node_port: None, protocol: text("udp") };
    let nodes = vec![node(vec![address("Hostname", "node-1")])];
    assert_eq!(Resolution::of_nodes(Some(&port), &nodes), resolved(Some("sip:node-1;transport=udp"), Finding::NodePort));
}

#[test]
fn node_port_without_reachable_node_has_no_endpoint() {
    let port = ServicePort { node_port: Some(30060), protocol: None };
    assert_eq!(Resolution::of_nodes(Some(&port), &vec![]), resolved(None, Finding::NoNodeAddress));
    let nodes = vec![node(vec![address("InternalIP", "192.168.0.4"), address("hostname", "node-1")])];
    assert_eq!(Resolution::of_nodes(Some(&port), &nodes), resolved(None, Finding::NoNodeAddress));
    assert_eq!(first_routable_address(&nodes), None);
}

#[test]
fn node_routable_address_of_each_kind() {
    assert_eq!(Node { addresses: None }.routable_address(), None);
    assert_eq!(node(vec![address("InternalDNS", "n.internal")]).routable_address(), None);
    assert_eq!(
        node(vec![address("ExternalIP", "203.0.113.7"), address("Hostname", "node-1")]).routable_address(),
        Some(&"node-1".to_string())
    );
}

#[test]
fn failed_lookups_resolve_to_no_endpoint() {
    assert_eq!(awaiting("sip-proxy").on_reply(ClusterReply::Unavailable), resolved(None, Finding::ServiceUnavailable));
    let waiting = Resolution::AwaitingNodes { port: None };
    assert_eq!(waiting.on_reply(ClusterReply::Unavailable), resolved(None, Finding::NodesUnavailable));
}

#[test]
fn answers_to_another_lookup_count_as_failure() {
    assert_eq!(awaiting("sip-proxy").on_reply(ClusterReply::Nodes(vec![])), resolved(None, Finding::ServiceUnavailable));
    let waiting = Resolution::AwaitingNodes { port: None };
    assert_eq!(
        waiting.on_reply(ClusterReply::Service(service(Some("ClusterIP")))),
        resolved(None, Finding::NodesUnavailable)
    );
}

#[test]
fn resolved_state_ignores_further_answers() {
    let done = resolved(Some("sip:10.0.0.5"), Finding::LoadBalancer);
    let nodes = vec![node(vec![address("Hostname", "node-1")])];
    assert_eq!(done.clone().on_reply(ClusterReply::Nodes(nodes)), done);
    assert_eq!(done.clone().on_reply(ClusterReply::Unavailable), done);
}
