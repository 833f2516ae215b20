use pstn_connection::connection::{
    Provider, PstnConnection, PstnConnectionSpec, PstnConnectionStatus, Simwood, Status,
};
use pstn_connection::context::{make_simwood_context, SimwoodContext};
use pstn_connection::provision::{
    handle_pstn_connection_add, AvailableNumber, NumberConfig, ProviderCall, ProviderReply,
    Provisioning, Route, RoutingEntry,
};

fn account() -> Simwood {
    Simwood {
        account: "930000".to_string(),
        username: "operator".to_string(),
        password: "SECRET-REDACTED".to_string(),
    }
}

fn connection(provider: Option<Simwood>) -> PstnConnection {
    PstnConnection {
        name: "front-desk".to_string(),
        spec: PstnConnectionSpec { provider: Provider { simwood: provider }, inbound: None, outbound: None },
        status: None,
    }
}

fn fixed_context() -> SimwoodContext {
    SimwoodContext {
        username: "operator".to_string(),
        password: "SECRET-REDACTED".to_string(),
        span_id: "span-1".to_string(),
    }
}

fn searching(endpoint: Option<&str>) -> Provisioning {
    Provisioning::begin(&account(), fixed_context(), endpoint.map(|e| e.to_string()))
}

fn entry(country_code: Option<&str>, number: Option<&str>) -> AvailableNumber {
    AvailableNumber {
        country_code: country_code.map(|c| c.to_string()),
        number: number.map(|n| n.to_string()),
    }
}

fn offer() -> ProviderReply {
    ProviderReply::Available(vec![entry(Some("44"), Some("1234567890"))])
}

fn failed() -> Provisioning {
    Provisioning::Finished { status: PstnConnectionStatus { status: Some(Status::Failed), numbers: None } }
}

fn search_call() -> ProviderCall {
    ProviderCall::Search {
        account: "930000".to_string(),
        tier: "standard".to_string(),
        count: 1,
        pattern: None,
    }
}

fn claim_call() -> ProviderCall {
    ProviderCall::Claim { account: "930000".to_string(), number: "441234567890".to_string() }
}

/// Feeds the replies one by one and returns the calls that were pending on the way, with the
/// state reached.
fn drive(start: Provisioning, replies: Vec<ProviderReply>) -> (Vec<ProviderCall>, Provisioning) {
    let mut calls = Vec::new();
    let mut state = start;
    for reply in replies {
        match state.pending_call() {
            Some(call) => calls.push(call),
            None => break,
        }
        state = state.on_reply(reply);
    }
    if let Some(call) = state.pending_call() {
        calls.push(call);
    }
    (calls, state)
}

fn routed_to(endpoint: Option<String>) -> NumberConfig {
    NumberConfig {
        enabled: true,
        routing: vec![Route {
            name: "default".to_string(),
            rules: vec![vec![RoutingEntry { endpoint }]],
        }],
    }
}

#[test]
fn default_status_is_empty() {
    assert_eq!(PstnConnectionStatus::default(), PstnConnectionStatus { status: None, numbers: None });
}

#[test]
fn bare_status_records_no_number() {
    assert_eq!(
        PstnConnectionStatus::with_status(Status::UnknownProvider),
        PstnConnectionStatus { status: Some(Status::UnknownProvider), numbers: None }
    );
}

#[test]
fn added_connection_starts_searching() {
    let saga = handle_pstn_connection_add(connection(Some(account())), Some("sip:10.0.0.5".to_string()));
    match &saga {
        Provisioning::Searching { account, context, endpoint } => {
            assert_eq!(account, "930000");
            assert_eq!(context.username, "operator");
            assert_eq!(context.password, "SECRET-REDACTED");
            assert_eq!(endpoint.as_deref(), Some("sip:10.0.0.5"));
        }
        other => panic!("not searching: {:?}", other),
    }
    assert_eq!(saga.pending_call(), Some(search_call()));
    assert_eq!(saga.outcome(), None);
    assert!(saga.context().is_some());
}

#[test]
fn added_connection_with_provider_unset_is_unknown_provider() {
    let saga = handle_pstn_connection_add(connection(None), Some("sip:10.0.0.5".to_string()));
    assert_eq!(
        saga,
        Provisioning::Finished {
            status: PstnConnectionStatus { status: Some(Status::UnknownProvider), numbers: None }
        }
    );
    assert_eq!(saga.pending_call(), None);
    assert_eq!(saga.context(), None);
    let (calls, end) = drive(saga.clone(), vec![offer(), ProviderReply::Claimed, ProviderReply::Configured]);
    assert!(calls.is_empty());
    assert_eq!(end, saga);
}

#[test]
fn search_without_usable_entry_fails_and_claims_nothing() {
    let unusable = vec![
        ProviderReply::Available(vec![]),
        ProviderReply::Available(vec![entry(None, Some("1234567890"))]),
        ProviderReply::Available(vec![entry(Some("44"), None)]),
        ProviderReply::Available(vec![entry(None, None), entry(None, Some("1234567891"))]),
    ];
    for reply in unusable {
        let (calls, end) = drive(searching(None), vec![reply, ProviderReply::Claimed, ProviderReply::Configured]);
        assert_eq!(calls, vec![search_call()]);
        assert_eq!(end, failed());
        assert_eq!(end.outcome().unwrap().numbers, None);
    }
}

#[test]
fn search_looks_at_first_entry_only() {
    let reply = ProviderReply::Available(vec![entry(None, Some("1")), entry(Some("44"), Some("1234567890"))]);
    assert_eq!(searching(None).on_reply(reply), failed());
    let reply = ProviderReply::Available(vec![entry(Some("44"), Some("1234567890")), entry(Some("44"), Some("1234567891"))]);
    assert_eq!(searching(None).on_reply(reply).pending_call(), Some(claim_call()));
}

#[test]
fn search_error_fails() {
    let (calls, end) = drive(searching(None), vec![ProviderReply::Error]);
    assert_eq!(calls, vec![search_call()]);
    assert_eq!(end, failed());
}

#[test]
fn search_answered_out_of_turn_fails() {
    for reply in [ProviderReply::Claimed, ProviderReply::Configured, ProviderReply::NumberNotAvailable, ProviderReply::NumberNotAllocated] {
        assert_eq!(searching(None).on_reply(reply), failed());
    }
}

#[test]
fn directory_number_is_country_code_then_number() {
    let reply = ProviderReply::Available(vec![entry(Some("1"), Some("5550100"))]);
    match searching(None).on_reply(reply) {
        Provisioning::Claiming { number, account, .. } => {
            assert_eq!(number, "15550100");
            assert_eq!(account, "930000");
        }
        other => panic!("not claiming: {:?}", other),
    }
}

#[test]
fn claim_of_unavailable_number_fails_and_configures_nothing() {
    let (calls, end) = drive(
        searching(Some("sip:10.0.0.5")),
        vec![offer(), ProviderReply::NumberNotAvailable, ProviderReply::Configured],
    );
    assert_eq!(calls, vec![search_call(), claim_call()]);
    assert_eq!(end, failed());
}

#[test]
fn claim_error_fails() {
    for reply in [ProviderReply::Error, ProviderReply::Configured, ProviderReply::NumberNotAllocated, offer()] {
        let (calls, end) = drive(searching(None), vec![offer(), reply]);
        assert_eq!(calls, vec![search_call(), claim_call()]);
        assert_eq!(end, failed());
    }
}

#[test]
fn configured_number_is_synchronized() {
    let (calls, end) = drive(
        searching(Some("sip:10.0.0.5;transport=udp")),
        vec![offer(), ProviderReply::Claimed, ProviderReply::Configured],
    );
    assert_eq!(
        calls,
        vec![
            search_call(),
            claim_call(),
            ProviderCall::Configure {
                account: "930000".to_string(),
                number: "441234567890".to_string(),
                config: routed_to(Some("sip:10.0.0.5;transport=udp".to_string())),
            },
        ]
    );
    assert_eq!(
        end,
        Provisioning::Finished {
            status: PstnConnectionStatus {
                status: Some(Status::Synchronized),
                numbers: Some(vec!["441234567890".to_string()]),
            }
        }
    );
    assert_eq!(end.pending_call(), None);
    assert_eq!(end.context(), None);
}

#[test]
fn configuration_without_endpoint_has_absent_entry() {
    let configuring = searching(None).on_reply(offer()).on_reply(ProviderReply::Claimed);
    assert_eq!(
        configuring.pending_call(),
        Some(ProviderCall::Configure {
            account: "930000".to_string(),
            number: "441234567890".to_string(),
            config: routed_to(None),
        })
    );
}

#[test]
fn failed_configuration_records_no_number() {
    for reply in [ProviderReply::NumberNotAllocated, ProviderReply::Error, ProviderReply::Claimed, ProviderReply::NumberNotAvailable, offer()] {
        let (calls, end) = drive(searching(Some("sip:10.0.0.5")), vec![offer(), ProviderReply::Claimed, reply]);
        assert_eq!(calls.len(), 3);
        assert_eq!(end, failed());
        assert_eq!(end.outcome(), Some(&PstnConnectionStatus { status: Some(Status::Failed), numbers: None }));
    }
}

#[test]
fn same_context_accompanies_every_call() {
    let mut state = searching(None);
    for reply in [offer(), ProviderReply::Claimed] {
        assert_eq!(state.context(), Some(&fixed_context()));
        state = state.on_reply(reply);
    }
    assert_eq!(state.context(), Some(&fixed_context()));
}

#[test]
fn finished_workflow_stays_finished() {
    let done = searching(None)
        .on_reply(offer())
        .on_reply(ProviderReply::Claimed)
        .on_reply(ProviderReply::Configured);
    for reply in [offer(), ProviderReply::Claimed, ProviderReply::Configured, ProviderReply::Error] {
        assert_eq!(done.clone().on_reply(reply), done);
    }
    for reply in [offer(), ProviderReply::Claimed, ProviderReply::Configured, ProviderReply::Error] {
        assert_eq!(failed().on_reply(reply), failed());
    }
}

#[test]
fn context_carries_credentials_and_a_random_uuid() {
    let context = make_simwood_context(&account());
    assert_eq!(context.username, "operator");
    assert_eq!(context.password, "SECRET-REDACTED");
    let span: Vec<char> = context.span_id.chars().collect();
    assert_eq!(span.len(), 36);
    for (i, c) in span.iter().enumerate() {
        if i == 8 || i == 13 || i == 18 || i == 23 {
            assert_eq!(*c, '-');
        } else {
            assert!(c.is_ascii_digit() || ('a'..='f').contains(c));
        }
    }
    assert_eq!(span[14], '4');
    assert!(matches!(span[19], '8' | '9' | 'a' | 'b'));
}

#[test]
fn every_context_has_its_own_span() {
    let first = make_simwood_context(&account());
    let second = make_simwood_context(&account());
    assert_ne!(first.span_id, second.span_id);
    assert_ne!(first.span_id, account().username);
    assert_ne!(first.span_id, account().password);
}

#[test]
fn context_with_given_span() {
    let context = SimwoodContext::with_span(&account(), "span-1".to_string());
    assert_eq!(context, fixed_context());
    assert_eq!(context.duplicate(), fixed_context());
}

#[test]
fn routing_has_one_default_route_with_one_rule_of_one_entry() {
    let config = NumberConfig::routing_to(Some("sip:10.0.0.5".to_string()));
    assert!(config.enabled);
    assert_eq!(config.routing.len(), 1);
    assert_eq!(config.routing[0].name, "default");
    assert_eq!(config.routing[0].rules, vec![vec![RoutingEntry { endpoint: Some("sip:10.0.0.5".to_string()) }]]);
    assert_eq!(NumberConfig::routing_to(None), routed_to(None));
}
