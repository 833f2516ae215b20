use pstn_connection::connection::{
    Inbound, Provider, PstnConnection, PstnConnectionSpec, PstnConnectionStatus, Simwood, Status,
};
use pstn_connection::deprovision::{ReleaseCall, ReleaseReply};
use pstn_connection::provision::{
    AvailableNumber, NumberConfig, ProviderCall, ProviderReply, Route, RoutingEntry,
};
use pstn_connection::reconcile::{Action, Input, Reconciler, WatchEvent};
use pstn_connection::resolver::{ClusterQuery, ClusterReply, Node, NodeAddress, ServiceSpec};
use pstn_connection::sip_uri::ServicePort;

fn resource(provider: bool, service: Option<&str>, numbers: Option<Vec<&str>>) -> PstnConnection {
    let simwood = if provider {
        Some(Simwood {
            account: "930000".to_string(),
            username: "operator".to_string(),
            password: "SECRET-REDACTED".to_string(),
        })
    } else {
        None
    };
    PstnConnection {
        name: "front-desk".to_string(),
        spec: PstnConnectionSpec {
            provider: Provider { simwood },
            inbound: service.map(|s| Inbound { numbers: 1, service: s.to_string() }),
            outbound: None,
        },
        status: numbers.map(|list| PstnConnectionStatus {
            status: Some(Status::Synchronized),
            numbers: Some(list.iter().map(|n| n.to_string()).collect()),
        }),
    }
}

fn load_balancer() -> ServiceSpec {
    ServiceSpec {
        type_: Some("LoadBalancer".to_string()),
        external_name: None,
        load_balancer_ip: Some("10.0.0.5".to_string()),
        ports: Some(vec![ServicePort { node_port: None, protocol: Some("udp".to_string()) }]),
    }
}

fn candidate() -> ProviderReply {
    ProviderReply::Available(vec![AvailableNumber {
        country_code: Some("44".to_string()),
        number: Some("1234567890".to_string()),
    }])
}

fn call_of(action: &Action) -> ProviderCall {
    match action {
        Action::Call { context, call } => {
            assert_eq!(context.username, "operator");
            assert_eq!(context.password, "SECRET-REDACTED");
            assert_eq!(context.span_id.len(), 36);
            call.clone()
        }
        other => panic!("not a call: {:?}", other),
    }
}

fn write_of(status: Status, numbers: Option<Vec<&str>>) -> Action {
    Action::WriteStatus {
        name: "front-desk".to_string(),
        status: PstnConnectionStatus {
            status: Some(status),
            numbers: numbers.map(|list| list.iter().map(|n| n.to_string()).collect()),
        },
    }
}

fn routed_to(endpoint: Option<String>) -> NumberConfig {
    NumberConfig {
        enabled: true,
        routing: vec![Route {
            name: "default".to_string(),
            rules: vec![vec![RoutingEntry { endpoint }]],
        }],
    }
}

#[test]
fn loop_starts_between_events() {
    assert_eq!(Reconciler::new(), Reconciler::Idle);
}

#[test]
fn added_connection_is_resolved_provisioned_and_recorded() {
    let (state, action) = Reconciler::new().step(Input::Watch(WatchEvent::Added(resource(true, Some("sip-proxy"), None))));
    assert_eq!(action, Action::Query(ClusterQuery::GetService { name: "sip-proxy".to_string() }));
    let (state, action) = state.step(Input::Cluster(ClusterReply::Service(load_balancer())));
    assert_eq!(
        call_of(&action),
        ProviderCall::Search {
        account: "930000".to_string(),
        tier: "standard".to_string(),
        count: 1,
        pattern: None,
    }
    );
    let (state, action) = state.step(Input::Provider(candidate()));
    assert_eq!(
        call_of(&action),
        ProviderCall::Claim { account: "930000".to_string(), number: "441234567890".to_string() }
    );
    let (state, action) = state.step(Input::Provider(ProviderReply::Claimed));
    assert_eq!(
        call_of(&action),
        ProviderCall::Configure {
            account: "930000".to_string(),
            number: "441234567890".to_string(),
            config: routed_to(Some("sip:10.0.0.5;transport=udp".to_string())),
        }
    );
    let (state, action) = state.step(Input::Provider(ProviderReply::Configured));
    assert_eq!(action, write_of(Status::Synchronized, Some(vec!["441234567890"])));
    assert_eq!(state, Reconciler::Persisting { name: "front-desk".to_string() });
    let (state, action) = state.step(Input::StatusWritten(true));
    assert_eq!(action, Action::AwaitEvent);
    assert_eq!(state, Reconciler::Idle);
}

#[test]
fn added_connection_over_node_port_lists_the_nodes() {
    let (state, _) = Reconciler::new().step(Input::Watch(WatchEvent::Added(resource(true, Some("sip-proxy"), None))));
    let service = ServiceSpec {
        type_: Some("NodePort".to_string()),
        external_name: None,
        load_balancer_ip: None,
        ports: Some(vec![ServicePort { node_port: Some(30060), protocol: None }]),
    };
    let (state, action) = state.step(Input::Cluster(ClusterReply::Service(service)));
    assert_eq!(action, Action::Query(ClusterQuery::ListNodes));
    let nodes = vec![Node {
        addresses: Some(vec![
            NodeAddress { type_: "ExternalIP".to_string(), address: "203.0.113.7".to_string() },
            NodeAddress { type_: "Hostname".to_string(), address: "node-1".to_string() },
        ]),
    }];
    let (state, action) = state.step(Input::Cluster(ClusterReply::Nodes(nodes)));
    call_of(&action);
    let (state, _) = state.step(Input::Provider(candidate()));
    let (_, action) = state.step(Input::Provider(ProviderReply::Claimed));
    match call_of(&action) {
        ProviderCall::Configure { config, .. } => {
            assert_eq!(config, routed_to(Some("sip:node-1:30060".to_string())))
        }
        other => panic!("not a configuration: {:?}", other),
    }
}

#[test]
fn added_connection_without_inbound_is_provisioned_without_endpoint() {
    let (state, action) = Reconciler::new().step(Input::Watch(WatchEvent::Added(resource(true, None, None))));
    assert!(matches!(call_of(&action), ProviderCall::Search { .. }));
    let (state, _) = state.step(Input::Provider(candidate()));
    let (_, action) = state.step(Input::Provider(ProviderReply::Claimed));
    match call_of(&action) {
        ProviderCall::Configure { config, .. } => assert_eq!(config, routed_to(None)),
        other => panic!("not a configuration: {:?}", other),
    }
}

#[test]
fn failed_service_lookup_still_provisions() {
    let (state, _) = Reconciler::new().step(Input::Watch(WatchEvent::Added(resource(true, Some("sip-proxy"), None))));
    let (_, action) = state.step(Input::Cluster(ClusterReply::Unavailable));
    assert!(matches!(call_of(&action), ProviderCall::Search { .. }));
}

#[test]
fn added_connection_with_provider_unset_records_unknown_provider() {
    let (state, action) = Reconciler::new().step(Input::Watch(WatchEvent::Added(resource(false, None, None))));
    assert_eq!(action, write_of(Status::UnknownProvider, None));
    assert_eq!(state, Reconciler::Persisting { name: "front-desk".to_string() });
    let (state, action) = state.step(Input::StatusWritten(true));
    assert_eq!((state, action), (Reconciler::Idle, Action::AwaitEvent));
}

#[test]
fn added_connection_with_provider_unset_and_inbound_makes_no_provider_call() {
    let (state, action) = Reconciler::new().step(Input::Watch(WatchEvent::Added(resource(false, Some("sip-proxy"), None))));
    assert_eq!(action, Action::Query(ClusterQuery::GetService { name: "sip-proxy".to_string() }));
    let (_, action) = state.step(Input::Cluster(ClusterReply::Service(load_balancer())));
    assert_eq!(action, write_of(Status::UnknownProvider, None));
}

#[test]
fn failed_provisioning_is_recorded_as_failed() {
    let (state, _) = Reconciler::new().step(Input::Watch(WatchEvent::Added(resource(true, None, None))));
    let (state, _) = state.step(Input::Provider(candidate()));
    let (state, action) = state.step(Input::Provider(ProviderReply::NumberNotAvailable));
    assert_eq!(action, write_of(Status::Failed, None));
    assert_eq!(state, Reconciler::Persisting { name: "front-desk".to_string() });
}

#[test]
fn failed_status_write_is_not_retried() {
    let (state, _) = Reconciler::new().step(Input::Watch(WatchEvent::Added(resource(false, None, None))));
    let (state, action) = state.step(Input::StatusWritten(false));
    assert_eq!((state, action), (Reconciler::Idle, Action::AwaitEvent));
}

#[test]
fn modified_connection_is_ignored() {
    let event = WatchEvent::Modified(resource(true, Some("sip-proxy"), Some(vec!["441234567890"])));
    let (state, action) = Reconciler::new().step(Input::Watch(event));
    assert_eq!((state, action), (Reconciler::Idle, Action::AwaitEvent));
}

#[test]
fn watch_error_is_ignored() {
    let (state, action) = Reconciler::new().step(Input::Watch(WatchEvent::Error("gone".to_string())));
    assert_eq!((state, action), (Reconciler::Idle, Action::AwaitEvent));
}

#[test]
fn deleted_connection_has_its_numbers_released() {
    let event = WatchEvent::Deleted(resource(true, None, Some(vec!["441234567890", "441234567891"])));
    let (state, action) = Reconciler::new().step(Input::Watch(event));
    match &action {
        Action::Release { context, calls } => {
            assert_eq!(context.username, "operator");
            assert_eq!(context.span_id.len(), 36);
            assert_eq!(
                calls,
                &vec![
                    ReleaseCall { account: "930000".to_string(), number: "441234567890".to_string() },
                    ReleaseCall { account: "930000".to_string(), number: "441234567891".to_string() },
                ]
            );
        }
        other => panic!("not a release: {:?}", other),
    }
    let (state, action) = state.step(Input::Released(ReleaseReply::Error));
    assert_eq!(action, Action::AwaitReply);
    assert!(matches!(state, Reconciler::Releasing { .. }));
    let (state, action) = state.step(Input::Released(ReleaseReply::NumberNotAllocated));
    assert_eq!((state, action), (Reconciler::Idle, Action::AwaitEvent));
}

#[test]
fn deleted_connection_without_numbers_is_done_at_once() {
    for numbers in [None, Some(vec![])] {
        let event = WatchEvent::Deleted(resource(true, Some("sip-proxy"), numbers));
        let (state, action) = Reconciler::new().step(Input::Watch(event));
        assert_eq!((state, action), (Reconciler::Idle, Action::AwaitEvent));
    }
}

#[test]
fn deleted_connection_with_provider_unset_is_done_at_once() {
    let event = WatchEvent::Deleted(resource(false, None, Some(vec!["441234567890"])));
    let (state, action) = Reconciler::new().step(Input::Watch(event));
    assert_eq!((state, action), (Reconciler::Idle, Action::AwaitEvent));
}

#[test]
fn input_that_answers_nothing_changes_nothing() {
    let (state, _) = Reconciler::new().step(Input::Watch(WatchEvent::Added(resource(true, Some("sip-proxy"), None))));
    let before = state.clone();
    let (state, action) = state.step(Input::Provider(ProviderReply::Claimed));
    assert_eq!(action, Action::AwaitReply);
    assert_eq!(state, before);
    let (state, action) = state.step(Input::Watch(WatchEvent::Error("gone".to_string())));
    assert_eq!(action, Action::AwaitReply);
    assert_eq!(state, before);
    let (state, action) = Reconciler::new().step(Input::StatusWritten(true));
    assert_eq!((state, action), (Reconciler::Idle, Action::AwaitEvent));
}
