//! The provisioning workflow: find an available number, claim it, point its
//! routing at the connection's endpoint. Three provider calls in strict order;
//! the first that does not succeed ends the workflow as failed, and nothing
//! already done is rolled back.
//!
//! The workflow is a state machine. Its owner makes the call that
//! [`Provisioning::pending_call`] names and hands the provider's answer to
//! [`Provisioning::on_reply`], until the state is `Finished`.

use vstd::prelude::*;
use crate::connection::{
    PstnConnection, PstnConnectionStatus, PstnConnectionStatusView, Simwood, SimwoodView, Status,
};
use crate::context::{is_random_uuid, make_simwood_context, SimwoodContext, SimwoodContextView};

verus! {

/// The service tier that numbers are searched in: `standard`.
pub open spec fn standard_tier() -> Seq<char> {
    seq!['s', 't', 'a', 'n', 'd', 'a', 'r', 'd']
}

/// The route that a claimed number's endpoint is filed under: `default`.
pub open spec fn default_route() -> Seq<char> {
    seq!['d', 'e', 'f', 'a', 'u', 'l', 't']
}

/// One entry of the provider's answer to a search for available numbers.
#[derive(Clone, Debug, PartialEq, Eq)]
pub struct AvailableNumber {
    pub country_code: Option<String>,
    pub number: Option<String>,
}

/// Mathematical model of [`AvailableNumber`].
pub struct AvailableNumberView {
    pub country_code: Option<Seq<char>>,
    pub number: Option<Seq<char>>,
}

impl AvailableNumberView {
    /// An entry can be claimed only if it carries both parts of the number.
    pub open spec fn usable(self) -> bool {
        self.country_code is Some && self.number is Some
    }

    /// The directory number of a usable entry: country code, then number.
    pub open spec fn directory_number(self) -> Seq<char> {
        self.country_code->0 + self.number->0
    }
}

impl View for AvailableNumber {
    type V = AvailableNumberView;

    open spec fn view(&self) -> AvailableNumberView {
        AvailableNumberView {
            country_code: self.country_code.deep_view(),
            number: self.number.deep_view(),
        }
    }
}

impl DeepView for AvailableNumber {
    type V = AvailableNumberView;

    open spec fn deep_view(&self) -> AvailableNumberView {
        self@
    }
}

/// One destination of a routing rule. Calls go to `endpoint`; an entry
/// without one leaves the destination to the provider.
#[derive(Clone, Debug, PartialEq, Eq)]
pub struct RoutingEntry {
    pub endpoint: Option<String>,
}

/// Mathematical model of [`RoutingEntry`].
pub struct RoutingEntryView {
    pub endpoint: Option<Seq<char>>,
}

impl View for RoutingEntry {
    type V = RoutingEntryView;

    open spec fn view(&self) -> RoutingEntryView {
        RoutingEntryView { endpoint: self.endpoint.deep_view() }
    }
}

impl DeepView for RoutingEntry {
    type V = RoutingEntryView;

    open spec fn deep_view(&self) -> RoutingEntryView {
        self@
    }
}

/// A named route of a number: its rules in the order they are tried, each a
/// list of entries.
#[derive(Clone, Debug, PartialEq, Eq)]
pub struct Route {
    pub name: String,
    pub rules: Vec<Vec<RoutingEntry>>,
}

/// Mathematical model of [`Route`].
pub struct RouteView {
    pub name: Seq<char>,
    pub rules: Seq<Seq<RoutingEntryView>>,
}

impl View for Route {
    type V = RouteView;

    open spec fn view(&self) -> RouteView {
        RouteView { name: self.name@, rules: self.rules.deep_view() }
    }
}

impl DeepView for Route {
    type V = RouteView;

    open spec fn deep_view(&self) -> RouteView {
        self@
    }
}

/// The configuration pushed for a claimed number: whether the number is
/// enabled, and its routes.
#[derive(Clone, Debug, PartialEq, Eq)]
pub struct NumberConfig {
    pub enabled: bool,
    pub routing: Vec<Route>,
}

/// Mathematical model of [`NumberConfig`].
pub struct NumberConfigView {
    pub enabled: bool,
    pub routing: Seq<RouteView>,
}

impl NumberConfigView {
    /// The configuration that routes a number to an endpoint: the number is
    /// enabled, and its only route is the default one, which has a single
    /// rule with a single entry, for the endpoint or for its absence.
    pub open spec fn routing_to(endpoint: Option<Seq<char>>) -> NumberConfigView {
        NumberConfigView {
            enabled: true,
            routing: seq![
                RouteView {
                    name: default_route(),
                    rules: seq![seq![RoutingEntryView { endpoint }]],
                },
            ],
        }
    }
}

impl View for NumberConfig {
    type V = NumberConfigView;

    open spec fn view(&self) -> NumberConfigView {
        NumberConfigView { enabled: self.enabled, routing: self.routing.deep_view() }
    }
}

impl DeepView for NumberConfig {
    type V = NumberConfigView;

    open spec fn deep_view(&self) -> NumberConfigView {
        self@
    }
}

impl NumberConfig {
    /// The configuration that routes a number to an endpoint, or to none.
    pub fn routing_to(endpoint: Option<String>) -> (config: NumberConfig)
        ensures
            config@ == NumberConfigView::routing_to(endpoint.deep_view()),
    {
        proof {
            reveal_strlit("default");
            assert("default"@ =~= default_route());
        }
        let entry = RoutingEntry { endpoint };
        let rule: Vec<RoutingEntry> = vec![entry];
        assert(rule.deep_view() =~= seq![entry@]);
        let rules: Vec<Vec<RoutingEntry>> = vec![rule];
        assert(rules.deep_view() =~= seq![seq![entry@]]);
        let route = Route { name: String::from_str("default"), rules };
        let routing: Vec<Route> = vec![route];
        assert(routing.deep_view() =~= seq![route@]);
        NumberConfig { enabled: true, routing }
    }
}

/// A call to the provider that the workflow asks its owner to make.
#[derive(Clone, Debug, PartialEq, Eq)]
pub enum ProviderCall {
    /// Search the account for `count` available numbers of service tier
    /// `tier`, among those that match `pattern` where one is given.
    Search { account: String, tier: String, count: u32, pattern: Option<String> },
    /// Allocate `number` to the account.
    Claim { account: String, number: String },
    /// Replace the configuration of `number`, allocated to the account.
    Configure { account: String, number: String, config: NumberConfig },
}

/// Mathematical model of [`ProviderCall`].
pub enum ProviderCallView {
    Search { account: Seq<char>, tier: Seq<char>, count: nat, pattern: Option<Seq<char>> },
    Claim { account: Seq<char>, number: Seq<char> },
    Configure { account: Seq<char>, number: Seq<char>, config: NumberConfigView },
}

impl ProviderCallView {
    /// The search that provisioning starts with: for one number of the
    /// standard tier, whatever its digits.
    pub open spec fn search_for_one(account: Seq<char>) -> ProviderCallView {
        ProviderCallView::Search { account, tier: standard_tier(), count: 1, pattern: None }
    }
}

impl View for ProviderCall {
    type V = ProviderCallView;

    open spec fn view(&self) -> ProviderCallView {
        match self {
            ProviderCall::Search { account, tier, count, pattern } => ProviderCallView::Search {
                account: account@,
                tier: tier@,
                count: *count as nat,
                pattern: pattern.deep_view(),
            },
            ProviderCall::Claim { account, number } => ProviderCallView::Claim {
                account: account@,
                number: number@,
            },
            ProviderCall::Configure { account, number, config } => ProviderCallView::Configure {
                account: account@,
                number: number@,
                config: config@,
            },
        }
    }
}

impl DeepView for ProviderCall {
    type V = ProviderCallView;

    open spec fn deep_view(&self) -> ProviderCallView {
        self@
    }
}

/// What came back from a provider call.
#[derive(Clone, Debug, PartialEq, Eq)]
pub enum ProviderReply {
    /// The search succeeded with these entries.
    Available(Vec<AvailableNumber>),
    /// The number is now allocated to the account.
    Claimed,
    /// The number was taken by someone else before the claim arrived.
    NumberNotAvailable,
    /// The number's configuration was replaced.
    Configured,
    /// The number is not, or no longer, allocated to the account.
    NumberNotAllocated,
    /// The call failed in transport, or the provider answered with an error.
    Error,
}

/// Mathematical model of [`ProviderReply`].
pub enum ProviderReplyView {
    Available(Seq<AvailableNumberView>),
    Claimed,
    NumberNotAvailable,
    Configured,
    NumberNotAllocated,
    Error,
}

impl ProviderReplyView {
    /// The number that a search answer offers for claiming: that of its first
    /// entry, if the answer is a successful search with a usable first entry.
    /// Later entries are never looked at.
    pub open spec fn candidate(self) -> Option<Seq<char>> {
        match self {
            ProviderReplyView::Available(entries) => if entries.len() > 0 && entries[0].usable() {
                Some(entries[0].directory_number())
            } else {
                None
            },
            _ => None,
        }
    }

    /// Whether any entry of a successful search can be claimed.
    pub open spec fn offers_usable(self) -> bool {
        self matches ProviderReplyView::Available(entries) && exists|i: int|
            0 <= i < entries.len() && (#[trigger] entries[i]).usable()
    }
}

impl View for ProviderReply {
    type V = ProviderReplyView;

    open spec fn view(&self) -> ProviderReplyView {
        match self {
            ProviderReply::Available(entries) => ProviderReplyView::Available(entries.deep_view()),
            ProviderReply::Claimed => ProviderReplyView::Claimed,
            ProviderReply::NumberNotAvailable => ProviderReplyView::NumberNotAvailable,
            ProviderReply::Configured => ProviderReplyView::Configured,
            ProviderReply::NumberNotAllocated => ProviderReplyView::NumberNotAllocated,
            ProviderReply::Error => ProviderReplyView::Error,
        }
    }
}

impl DeepView for ProviderReply {
    type V = ProviderReplyView;

    open spec fn deep_view(&self) -> ProviderReplyView {
        self@
    }
}

/// Where a provisioning workflow stands.
#[derive(Clone, Debug, PartialEq, Eq)]
pub enum Provisioning {
    /// Waiting for the answer to the search for an available number.
    Searching { account: String, context: SimwoodContext, endpoint: Option<String> },
    /// Waiting for the answer to the claim of `number`.
    Claiming { account: String, context: SimwoodContext, endpoint: Option<String>, number: String },
    /// Waiting for the answer to the routing configuration of `number`.
    Configuring {
        account: String,
        context: SimwoodContext,
        endpoint: Option<String>,
        number: String,
    },
    /// The workflow is over; `status` is what to record on the connection.
    Finished { status: PstnConnectionStatus },
}

/// Mathematical model of [`Provisioning`].
pub enum ProvisioningView {
    Searching { account: Seq<char>, context: SimwoodContextView, endpoint: Option<Seq<char>> },
    Claiming {
        account: Seq<char>,
        context: SimwoodContextView,
        endpoint: Option<Seq<char>>,
        number: Seq<char>,
    },
    Configuring {
        account: Seq<char>,
        context: SimwoodContextView,
        endpoint: Option<Seq<char>>,
        number: Seq<char>,
    },
    Finished { status: PstnConnectionStatusView },
}

impl View for Provisioning {
    type V = ProvisioningView;

    open spec fn view(&self) -> ProvisioningView {
        match self {
            Provisioning::Searching { account, context, endpoint } => ProvisioningView::Searching {
                account: account@,
                context: context@,
                endpoint: endpoint.deep_view(),
            },
            Provisioning::Claiming { account, context, endpoint, number } => {
                ProvisioningView::Claiming {
                    account: account@,
                    context: context@,
                    endpoint: endpoint.deep_view(),
                    number: number@,
                }
            },
            Provisioning::Configuring { account, context, endpoint, number } => {
                ProvisioningView::Configuring {
                    account: account@,
                    context: context@,
                    endpoint: endpoint.deep_view(),
                    number: number@,
                }
            },
            Provisioning::Finished { status } => ProvisioningView::Finished { status: status@ },
        }
    }
}

impl DeepView for Provisioning {
    type V = ProvisioningView;

    open spec fn deep_view(&self) -> ProvisioningView {
        self@
    }
}

impl ProvisioningView {
    /// The workflow as it starts for an account: searching.
    pub open spec fn begin(
        simwood: SimwoodView,
        context: SimwoodContextView,
        endpoint: Option<Seq<char>>,
    ) -> ProvisioningView {
        ProvisioningView::Searching { account: simwood.account, context, endpoint }
    }

    /// The workflow over, with the given outcome and no number recorded.
    pub open spec fn finished(status: Status) -> ProvisioningView {
        ProvisioningView::Finished { status: PstnConnectionStatusView::bare(status) }
    }

    /// The workflow over and successful: `number` is recorded as claimed.
    pub open spec fn synchronized(number: Seq<char>) -> ProvisioningView {
        ProvisioningView::Finished {
            status: PstnConnectionStatusView {
                status: Some(Status::Synchronized),
                numbers: Some(seq![number]),
            },
        }
    }

    /// The context that the pending call is made under.
    pub open spec fn context(self) -> Option<SimwoodContextView> {
        match self {
            ProvisioningView::Searching { context, .. } => Some(context),
            ProvisioningView::Claiming { context, .. } => Some(context),
            ProvisioningView::Configuring { context, .. } => Some(context),
            ProvisioningView::Finished { .. } => None,
        }
    }

    /// The status to record, once the workflow is over.
    pub open spec fn outcome(self) -> Option<PstnConnectionStatusView> {
        match self {
            ProvisioningView::Finished { status } => Some(status),
            _ => None,
        }
    }

    /// The call whose answer the workflow waits for; none once it is over.
    ///
    /// The search asks for one number of the standard tier. The configuration
    /// enables the number and files the endpoint, or its absence, as the only
    /// entry of the only rule of the default route.
    pub open spec fn pending_call(self) -> Option<ProviderCallView> {
        match self {
            ProvisioningView::Searching { account, .. } => Some(
                ProviderCallView::search_for_one(account),
            ),
            ProvisioningView::Claiming { account, number, .. } => Some(
                ProviderCallView::Claim { account, number },
            ),
            ProvisioningView::Configuring { account, number, endpoint, .. } => Some(
                ProviderCallView::Configure {
                    account,
                    number,
                    config: NumberConfigView::routing_to(endpoint),
                },
            ),
            ProvisioningView::Finished { .. } => None,
        }
    }

    /// The state after `reply` has come back for the pending call.
    ///
    /// Each call has one answer that lets the workflow go on: a search whose
    /// first entry is usable, `Claimed`, `Configured`. Any other answer ends
    /// it as failed with no number recorded, also where a claim had already
    /// succeeded. A finished workflow stays as it is.
    pub open spec fn on_reply(self, reply: ProviderReplyView) -> ProvisioningView {
        match self {
            ProvisioningView::Searching { account, context, endpoint } => match reply.candidate() {
                Some(number) => ProvisioningView::Claiming { account, context, endpoint, number },
                None => ProvisioningView::finished(Status::Failed),
            },
            ProvisioningView::Claiming { account, context, endpoint, number } => match reply {
                ProviderReplyView::Claimed => ProvisioningView::Configuring {
                    account,
                    context,
                    endpoint,
                    number,
                },
                _ => ProvisioningView::finished(Status::Failed),
            },
            ProvisioningView::Configuring { number, .. } => match reply {
                ProviderReplyView::Configured => ProvisioningView::synchronized(number),
                _ => ProvisioningView::finished(Status::Failed),
            },
            ProvisioningView::Finished { status } => ProvisioningView::Finished { status },
        }
    }

    /// The state after the replies have come back one after the other.
    pub open spec fn run(self, replies: Seq<ProviderReplyView>) -> ProvisioningView
        decreases replies.len(),
    {
        if replies.len() == 0 {
            self
        } else {
            self.on_reply(replies[0]).run(replies.drop_first())
        }
    }

    /// The calls made, in order, while the replies come back one after the
    /// other: the pending call of every state passed through, the one reached
    /// at the end included.
    pub open spec fn calls(self, replies: Seq<ProviderReplyView>) -> Seq<ProviderCallView>
        decreases replies.len(),
    {
        match self.pending_call() {
            None => Seq::empty(),
            Some(call) => if replies.len() == 0 {
                seq![call]
            } else {
                seq![call] + self.on_reply(replies[0]).calls(replies.drop_first())
            },
        }
    }
}

/// The number that a search answer offers for claiming, if any.
fn first_candidate(reply: &ProviderReply) -> (number: Option<String>)
    ensures
        number.deep_view() == reply@.candidate(),
{
    match reply {
        ProviderReply::Available(entries) => {
            if entries.len() > 0 {
                let entry = &entries[0];
                assert(entries.deep_view()[0] == entry@);
                match (&entry.country_code, &entry.number) {
                    (Some(country_code), Some(number)) => {
                        let mut directory_number = country_code.clone();
                        directory_number.append(number.as_str());
                        Some(directory_number)
                    },
                    _ => None,
                }
            } else {
                None
            }
        },
        _ => None,
    }
}

/// A copy of an optional string.
fn duplicate_optional(text: &Option<String>) -> (copy: Option<String>)
    ensures
        copy.deep_view() == text.deep_view(),
{
    match text {
        Some(text) => Some(text.clone()),
        None => None,
    }
}

impl Provisioning {
    /// Starts the workflow for an account, under the given context and with
    /// the endpoint that a claimed number is to route to.
    pub fn begin(simwood: &Simwood, context: SimwoodContext, endpoint: Option<String>) -> (saga:
        Provisioning)
        ensures
            saga@ == ProvisioningView::begin(simwood@, context@, endpoint.deep_view()),
    {
        Provisioning::Searching { account: simwood.account.clone(), context, endpoint }
    }

    /// The context that the pending call is to be made under.
    pub fn context(&self) -> (context: Option<&SimwoodContext>)
        ensures
            context.deep_view() == self@.context(),
    {
        match self {
            Provisioning::Searching { context, .. } => Some(context),
            Provisioning::Claiming { context, .. } => Some(context),
            Provisioning::Configuring { context, .. } => Some(context),
            Provisioning::Finished { .. } => None,
        }
    }

    /// The status to record on the connection, once the workflow is over.
    pub fn outcome(&self) -> (status: Option<&PstnConnectionStatus>)
        ensures
            status.deep_view() == self@.outcome(),
    {
        match self {
            Provisioning::Finished { status } => Some(status),
            _ => None,
        }
    }

    /// The call to make next; none once the workflow is over.
    pub fn pending_call(&self) -> (call: Option<ProviderCall>)
        ensures
            call.deep_view() == self@.pending_call(),
    {
        match self {
            Provisioning::Searching { account, .. } => {
                proof {
                    reveal_strlit("standard");
                    assert("standard"@ =~= standard_tier());
                }
                Some(
                    ProviderCall::Search {
                        account: account.clone(),
                        tier: String::from_str("standard"),
                        count: 1,
                        pattern: None,
                    },
                )
            },
            Provisioning::Claiming { account, number, .. } => Some(
                ProviderCall::Claim { account: account.clone(), number: number.clone() },
            ),
            Provisioning::Configuring { account, number, endpoint, .. } => Some(
                ProviderCall::Configure {
                    account: account.clone(),
                    number: number.clone(),
                    config: NumberConfig::routing_to(duplicate_optional(endpoint)),
                },
            ),
            Provisioning::Finished { .. } => None,
        }
    }

    /// Takes the provider's answer to the pending call and moves on.
    pub fn on_reply(self, reply: ProviderReply) -> (next: Provisioning)
        ensures
            next@ == self@.on_reply(reply@),
    {
        match self {
            Provisioning::Searching { account, context, endpoint } => {
                match first_candidate(&reply) {
                    Some(number) => Provisioning::Claiming { account, context, endpoint, number },
                    None => Provisioning::Finished {
                        status: PstnConnectionStatus::with_status(Status::Failed),
                    },
                }
            },
            Provisioning::Claiming { account, context, endpoint, number } => match reply {
                ProviderReply::Claimed => Provisioning::Configuring {
                    account,
                    context,
                    endpoint,
                    number,
                },
                _ => Provisioning::Finished {
                    status: PstnConnectionStatus::with_status(Status::Failed),
                },
            },
            Provisioning::Configuring { number, .. } => match reply {
                ProviderReply::Configured => {
                    let numbers: Vec<String> = vec![number];
                    assert(numbers.deep_view() =~= seq![number@]);
                    Provisioning::Finished {
                        status: PstnConnectionStatus {
                            status: Some(Status::Synchronized),
                            numbers: Some(numbers),
                        },
                    }
                },
                _ => Provisioning::Finished {
                    status: PstnConnectionStatus::with_status(Status::Failed),
                },
            },
            Provisioning::Finished { status } => Provisioning::Finished { status },
        }
    }
}

/// Starts provisioning for a connection that was added, with the endpoint
/// resolved for its inbound service, if there is one.
///
/// A connection bound to a Simwood account starts searching, under a context
/// made once for the whole workflow. Any other connection is finished at once
/// as `UnknownProvider`, and no call is ever made for it.
pub fn handle_pstn_connection_add(pstn: PstnConnection, service_sip_uri: Option<String>) -> (saga:
    Provisioning)
    ensures
        match pstn@.spec.provider.simwood {
            Some(simwood) => {
                &&& saga@.context() matches Some(context)
                &&& context.username == simwood.username
                &&& context.password == simwood.password
                &&& is_random_uuid(context.span_id)
                &&& saga@ == ProvisioningView::begin(simwood, context, service_sip_uri.deep_view())
            },
            None => saga@ == ProvisioningView::finished(Status::UnknownProvider),
        },
{
    match &pstn.spec.provider.simwood {
        Some(simwood) => {
            let context = make_simwood_context(simwood);
            Provisioning::begin(simwood, context, service_sip_uri)
        },
        None => Provisioning::Finished {
            status: PstnConnectionStatus::with_status(Status::UnknownProvider),
        },
    }
}

/// Once the workflow is over, nothing that is answered changes its outcome,
/// and no further call is made.
pub proof fn finished_is_final(status: PstnConnectionStatusView, replies: Seq<ProviderReplyView>)
    ensures
        (ProvisioningView::Finished { status }).run(replies) == (ProvisioningView::Finished {
            status,
        }),
        (ProvisioningView::Finished { status }).calls(replies) == Seq::<ProviderCallView>::empty(),
    decreases replies.len(),
{
    if replies.len() > 0 {
        finished_is_final(status, replies.drop_first());
    }
}

/// A search answer without any usable entry offers no candidate.
pub proof fn no_usable_entry_no_candidate(reply: ProviderReplyView)
    requires
        !reply.offers_usable(),
    ensures
        reply.candidate() is None,
{
    if let ProviderReplyView::Available(entries) = reply {
        if entries.len() > 0 {
            assert(!entries[0].usable());
        }
    }
}

/// Where the search yields no usable number, because the call failed or
/// because no entry of the answer carries both a country code and a number,
/// the workflow ends as `Failed` with no number recorded, and the search is
/// the only call that is made: nothing is claimed and nothing configured.
pub proof fn search_without_usable_number_fails(
    simwood: SimwoodView,
    context: SimwoodContextView,
    endpoint: Option<Seq<char>>,
    replies: Seq<ProviderReplyView>,
)
    requires
        replies.len() > 0,
        !replies[0].offers_usable(),
    ensures
        ProvisioningView::begin(simwood, context, endpoint).run(replies)
            == ProvisioningView::finished(Status::Failed),
        ProvisioningView::begin(simwood, context, endpoint).run(replies).outcome()->0.recorded()
            == Seq::<Seq<char>>::empty(),
        ProvisioningView::begin(simwood, context, endpoint).calls(replies) == seq![
            ProviderCallView::search_for_one(simwood.account),
        ],
{
    no_usable_entry_no_candidate(replies[0]);
    finished_is_final(PstnConnectionStatusView::bare(Status::Failed), replies.drop_first());
}

/// Where the claim is answered with `NumberNotAvailable`, the workflow ends as
/// `Failed` with no number recorded. The search and the claim are the only
/// calls made: no other candidate is tried and nothing is configured.
pub proof fn claim_of_unavailable_number_fails(
    simwood: SimwoodView,
    context: SimwoodContextView,
    endpoint: Option<Seq<char>>,
    replies: Seq<ProviderReplyView>,
)
    requires
        replies.len() > 1,
        replies[0].candidate() is Some,
        replies[1] == ProviderReplyView::NumberNotAvailable,
    ensures
        ProvisioningView::begin(simwood, context, endpoint).run(replies)
            == ProvisioningView::finished(Status::Failed),
        ProvisioningView::begin(simwood, context, endpoint).calls(replies) == seq![
            ProviderCallView::search_for_one(simwood.account),
            ProviderCallView::Claim { account: simwood.account, number: replies[0].candidate()->0 },
        ],
{
    let start = ProvisioningView::begin(simwood, context, endpoint);
    let claiming = start.on_reply(replies[0]);
    let rest = replies.drop_first();
    assert(rest[0] == replies[1]);
    finished_is_final(PstnConnectionStatusView::bare(Status::Failed), rest.drop_first());
    assert(start.run(replies) == claiming.run(rest));
    assert(claiming.run(rest) == claiming.on_reply(rest[0]).run(rest.drop_first()));
    assert(start.calls(replies) == seq![start.pending_call()->0] + claiming.calls(rest));
    assert(claiming.calls(rest) == seq![claiming.pending_call()->0] + claiming.on_reply(
        rest[0],
    ).calls(rest.drop_first()));
}

/// Where the search offers a number, the claim succeeds and the configuration
/// succeeds, the workflow ends as `Synchronized` and records exactly the
/// claimed number. Three calls are made: the search, the claim of the offered
/// number, and the configuration of that number with the endpoint, or its
/// absence, as the only entry of the default route.
pub proof fn configured_number_is_synchronized(
    simwood: SimwoodView,
    context: SimwoodContextView,
    endpoint: Option<Seq<char>>,
    replies: Seq<ProviderReplyView>,
)
    requires
        replies.len() > 2,
        replies[0].candidate() is Some,
        replies[1] == ProviderReplyView::Claimed,
        replies[2] == ProviderReplyView::Configured,
    ensures
        ProvisioningView::begin(simwood, context, endpoint).run(replies)
            == ProvisioningView::synchronized(replies[0].candidate()->0),
        ProvisioningView::begin(simwood, context, endpoint).run(replies).outcome()->0.status
            == Some(Status::Synchronized),
        ProvisioningView::begin(simwood, context, endpoint).run(replies).outcome()->0.recorded()
            == seq![replies[0].candidate()->0],
        ProvisioningView::begin(simwood, context, endpoint).calls(replies) == seq![
            ProviderCallView::search_for_one(simwood.account),
            ProviderCallView::Claim { account: simwood.account, number: replies[0].candidate()->0 },
            ProviderCallView::Configure {
                account: simwood.account,
                number: replies[0].candidate()->0,
                config: NumberConfigView::routing_to(endpoint),
            },
        ],
{
    let number = replies[0].candidate()->0;
    let start = ProvisioningView::begin(simwood, context, endpoint);
    let claiming = start.on_reply(replies[0]);
    let rest = replies.drop_first();
    let configuring = claiming.on_reply(rest[0]);
    let tail = rest.drop_first();
    assert(rest[0] == replies[1]);
    assert(tail[0] == replies[2]);
    let status = PstnConnectionStatusView {
        status: Some(Status::Synchronized),
        numbers: Some(seq![number]),
    };
    finished_is_final(status, tail.drop_first());
    assert(start.run(replies) == claiming.run(rest));
    assert(claiming.run(rest) == configuring.run(tail));
    assert(configuring.run(tail) == configuring.on_reply(tail[0]).run(tail.drop_first()));
    assert(start.calls(replies) == seq![start.pending_call()->0] + claiming.calls(rest));
    assert(claiming.calls(rest) == seq![claiming.pending_call()->0] + configuring.calls(tail));
    assert(configuring.calls(tail) == seq![configuring.pending_call()->0] + configuring.on_reply(
        tail[0],
    ).calls(tail.drop_first()));
}

/// The outcome of the workflow as a function of the first three answers: it
/// is `Synchronized`, with the offered number as the only one recorded, if the
/// search offers a number and the claim and the configuration succeed in
/// turn; otherwise it is `Failed` with no number recorded. At most three
/// calls are ever made.
pub proof fn outcome_after_three_replies(
    simwood: SimwoodView,
    context: SimwoodContextView,
    endpoint: Option<Seq<char>>,
    replies: Seq<ProviderReplyView>,
)
    requires
        replies.len() > 2,
    ensures
        ProvisioningView::begin(simwood, context, endpoint).run(replies) == if {
            &&& replies[0].candidate() is Some
            &&& replies[1] == ProviderReplyView::Claimed
            &&& replies[2] == ProviderReplyView::Configured
        } {
            ProvisioningView::synchronized(replies[0].candidate()->0)
        } else {
            ProvisioningView::finished(Status::Failed)
        },
        ProvisioningView::begin(simwood, context, endpoint).calls(replies).len() <= 3,
{
    let start = ProvisioningView::begin(simwood, context, endpoint);
    let rest = replies.drop_first();
    let tail = rest.drop_first();
    let last = tail.drop_first();
    let first = start.on_reply(replies[0]);
    let second = first.on_reply(rest[0]);
    let third = second.on_reply(tail[0]);
    assert(rest[0] == replies[1]);
    assert(tail[0] == replies[2]);
    assert(start.run(replies) == first.run(rest));
    assert(first.run(rest) == second.run(tail));
    assert(second.run(tail) == third.run(last));
    assert(third is Finished);
    finished_is_final(third->status, last);
    assert(start.calls(replies) == seq![start.pending_call()->0] + first.calls(rest));
    if first is Finished {
        finished_is_final(first->status, rest);
    } else {
        assert(first.calls(rest) == seq![first.pending_call()->0] + second.calls(tail));
        if second is Finished {
            finished_is_final(second->status, tail);
        } else {
            assert(second.calls(tail) == seq![second.pending_call()->0] + third.calls(last));
        }
    }
}

/// What a workflow records when it ends: a number only where it ends as
/// `Synchronized`, and then exactly the number that was claimed and
/// configured. It can end so only on the answer `Configured` to the
/// configuration; on any other ending it is `Failed` and records nothing.
pub proof fn number_recorded_only_when_synchronized(
    state: ProvisioningView,
    reply: ProviderReplyView,
)
    requires
        !(state is Finished),
        state.on_reply(reply) is Finished,
    ensures
        state.on_reply(reply).outcome()->0 == if state is Configuring && reply
            == ProviderReplyView::Configured {
            PstnConnectionStatusView {
                status: Some(Status::Synchronized),
                numbers: Some(seq![state->Configuring_number]),
            }
        } else {
            PstnConnectionStatusView::bare(Status::Failed)
        },
        state.on_reply(reply).outcome()->0.status == Some(Status::Synchronized)
            <==> state.on_reply(reply).outcome()->0.recorded().len() == 1,
        state.on_reply(reply).outcome()->0.status == Some(Status::Failed)
            <==> state.on_reply(reply).outcome()->0.recorded().len() == 0,
{
}

} // verus!
