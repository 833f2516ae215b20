//! Routing endpoints: SIP URIs of the shape
//! `sip:host[:port][;transport=protocol]`.

use vstd::prelude::*;
use crate::decimal::{signed_decimal, signed_decimal_text};

verus! {

/// What endpoint construction reads of a port that a cluster service
/// declares: the port it is reachable at on every node, and its transport
/// protocol.
#[derive(Clone, Debug, PartialEq, Eq)]
pub struct ServicePort {
    pub node_port: Option<i32>,
    pub protocol: Option<String>,
}

/// Mathematical model of [`ServicePort`].
pub struct ServicePortView {
    pub node_port: Option<int>,
    pub protocol: Option<Seq<char>>,
}

impl View for ServicePort {
    type V = ServicePortView;

    open spec fn view(&self) -> ServicePortView {
        ServicePortView {
            node_port: match self.node_port {
                Some(port) => Some(port as int),
                None => None,
            },
            protocol: self.protocol.deep_view(),
        }
    }
}

impl DeepView for ServicePort {
    type V = ServicePortView;

    open spec fn deep_view(&self) -> ServicePortView {
        self@
    }
}

/// The scheme that every endpoint starts with: `sip:`.
pub open spec fn sip_scheme() -> Seq<char> {
    seq!['s', 'i', 'p', ':']
}

/// What introduces the transport protocol in an endpoint: `;transport=`.
pub open spec fn transport_parameter() -> Seq<char> {
    seq![';', 't', 'r', 'a', 'n', 's', 'p', 'o', 'r', 't', '=']
}

impl ServicePortView {
    /// `:` and the node port in decimal, where the port has one.
    pub open spec fn port_suffix(self) -> Seq<char> {
        match self.node_port {
            Some(port) => seq![':'] + signed_decimal(port),
            None => Seq::empty(),
        }
    }

    /// `;transport=` and the protocol, where the port has one.
    pub open spec fn transport_suffix(self) -> Seq<char> {
        match self.protocol {
            Some(protocol) => transport_parameter() + protocol,
            None => Seq::empty(),
        }
    }
}

/// The endpoint for a host and, where there is one, a port: `sip:` and the
/// host, then the port's node port, then its transport protocol, each only
/// where the port has it.
pub open spec fn sip_uri(host: Seq<char>, port: Option<ServicePortView>) -> Seq<char> {
    match port {
        Some(port) => sip_scheme() + host + port.port_suffix() + port.transport_suffix(),
        None => sip_scheme() + host,
    }
}

/// Builds the endpoint for a host and, where there is one, a port.
pub fn build_sip_uri(host: &str, port: Option<&ServicePort>) -> (uri: String)
    ensures
        uri@ == sip_uri(host@, port.deep_view()),
{
    proof {
        reveal_strlit("sip:");
        reveal_strlit(":");
        reveal_strlit(";transport=");
        assert("sip:"@ =~= sip_scheme());
        assert(":"@ =~= seq![':']);
        assert(";transport="@ =~= transport_parameter());
    }
    let mut uri = String::from_str("sip:");
    uri.append(host);
    if let Some(port) = port {
        if let Some(node_port) = port.node_port {
            let digits = signed_decimal_text(node_port);
            uri.append(":");
            uri.append(digits.as_str());
        }
        assert(uri@ =~= sip_scheme() + host@ + port@.port_suffix());
        if let Some(protocol) = &port.protocol {
            uri.append(";transport=");
            uri.append(protocol.as_str());
        }
        assert(uri@ =~= sip_scheme() + host@ + port@.port_suffix() + port@.transport_suffix());
    }
    uri
}

} // verus!
