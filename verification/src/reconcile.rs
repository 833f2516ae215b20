//! The reconciliation loop: what each lifecycle event of a connection calls
//! for, one event at a time.
//!
//! * A connection that was **added** has its endpoint resolved, is
//!   provisioned with that endpoint, and has the resulting status written
//!   back. Whether or not the write succeeds, the event is then done with:
//!   nothing is retried and nothing is rolled back.
//! * A connection that was **modified** is left alone: changes to an
//!   existing connection are not followed.
//! * A connection that was **deleted** has the numbers of its last status
//!   released. Nothing is written back, for the connection is gone.
//! * An **error** of the watch changes nothing; the loop goes on.
//!
//! The loop is a state machine that never ends. Its owner starts from
//! [`Reconciler::new`], and over and over performs the action it was handed
//! and passes what came of it to [`Reconciler::step`].

use vstd::prelude::*;
use crate::connection::{
    PstnConnection, PstnConnectionStatus, PstnConnectionStatusView, PstnConnectionView,
    SimwoodView, Status,
};
use crate::context::{is_random_uuid, SimwoodContext, SimwoodContextView};
use crate::deprovision::{
    handle_pstn_connection_delete, release_calls, Deprovisioning, DeprovisioningView, ReleaseCall,
    ReleaseCallView, ReleaseReply,
};
use crate::provision::{
    handle_pstn_connection_add, ProviderCall, ProviderCallView, ProviderReply, ProviderReplyView,
    Provisioning, ProvisioningView,
};
use crate::resolver::{
    ClusterQuery, ClusterQueryView, ClusterReply, ClusterReplyView, Resolution, ResolutionView,
};

verus! {

/// A lifecycle event of a connection, as the cluster's watch delivers it.
#[derive(Clone, Debug, PartialEq, Eq)]
pub enum WatchEvent {
    Added(PstnConnection),
    Modified(PstnConnection),
    Deleted(PstnConnection),
    /// The watch itself failed, with this message.
    Error(String),
}

/// Mathematical model of [`WatchEvent`].
pub enum WatchEventView {
    Added(PstnConnectionView),
    Modified(PstnConnectionView),
    Deleted(PstnConnectionView),
    Error(Seq<char>),
}

impl View for WatchEvent {
    type V = WatchEventView;

    open spec fn view(&self) -> WatchEventView {
        match self {
            WatchEvent::Added(pstn) => WatchEventView::Added(pstn@),
            WatchEvent::Modified(pstn) => WatchEventView::Modified(pstn@),
            WatchEvent::Deleted(pstn) => WatchEventView::Deleted(pstn@),
            WatchEvent::Error(message) => WatchEventView::Error(message@),
        }
    }
}

impl DeepView for WatchEvent {
    type V = WatchEventView;

    open spec fn deep_view(&self) -> WatchEventView {
        self@
    }
}

/// What came of the action that the loop asked for last.
#[derive(Clone, Debug, PartialEq, Eq)]
pub enum Input {
    /// The next lifecycle event.
    Watch(WatchEvent),
    /// The cluster's answer to a lookup.
    Cluster(ClusterReply),
    /// The provider's answer to a call of the provisioning workflow.
    Provider(ProviderReply),
    /// The provider's answer to one release.
    Released(ReleaseReply),
    /// The status was written back (`true`), or could not be (`false`).
    StatusWritten(bool),
}

/// Mathematical model of [`Input`].
pub enum InputView {
    Watch(WatchEventView),
    Cluster(ClusterReplyView),
    Provider(ProviderReplyView),
    Released(ReleaseReply),
    StatusWritten(bool),
}

impl View for Input {
    type V = InputView;

    open spec fn view(&self) -> InputView {
        match self {
            Input::Watch(event) => InputView::Watch(event@),
            Input::Cluster(reply) => InputView::Cluster(reply@),
            Input::Provider(reply) => InputView::Provider(reply@),
            Input::Released(reply) => InputView::Released(*reply),
            Input::StatusWritten(written) => InputView::StatusWritten(*written),
        }
    }
}

impl DeepView for Input {
    type V = InputView;

    open spec fn deep_view(&self) -> InputView {
        self@
    }
}

/// What the loop asks its owner to do next.
#[derive(Clone, Debug, PartialEq, Eq)]
pub enum Action {
    /// Wait for the next lifecycle event and pass it on.
    AwaitEvent,
    /// Make this lookup in the cluster and pass the answer on.
    Query(ClusterQuery),
    /// Make this call to the provider, under this context, and pass the
    /// answer on.
    Call { context: SimwoodContext, call: ProviderCall },
    /// Make all of these releases, under this context and side by side,
    /// and pass each answer on as it arrives.
    Release { context: SimwoodContext, calls: Vec<ReleaseCall> },
    /// Nothing new: pass on the next answer that is still awaited.
    AwaitReply,
    /// Write this status to the connection of this name, and pass on
    /// whether that succeeded.
    WriteStatus { name: String, status: PstnConnectionStatus },
}

/// Mathematical model of [`Action`].
pub enum ActionView {
    AwaitEvent,
    Query(ClusterQueryView),
    Call { context: SimwoodContextView, call: ProviderCallView },
    Release { context: SimwoodContextView, calls: Seq<ReleaseCallView> },
    AwaitReply,
    WriteStatus { name: Seq<char>, status: PstnConnectionStatusView },
}

impl View for Action {
    type V = ActionView;

    open spec fn view(&self) -> ActionView {
        match self {
            Action::AwaitEvent => ActionView::AwaitEvent,
            Action::Query(query) => ActionView::Query(query@),
            Action::Call { context, call } => ActionView::Call { context: context@, call: call@ },
            Action::Release { context, calls } => ActionView::Release {
                context: context@,
                calls: calls.deep_view(),
            },
            Action::AwaitReply => ActionView::AwaitReply,
            Action::WriteStatus { name, status } => ActionView::WriteStatus {
                name: name@,
                status: status@,
            },
        }
    }
}

impl DeepView for Action {
    type V = ActionView;

    open spec fn deep_view(&self) -> ActionView {
        self@
    }
}

/// Where the loop stands.
#[derive(Clone, Debug, PartialEq, Eq)]
pub enum Reconciler {
    /// Between events.
    Idle,
    /// Resolving the endpoint of a connection that was added.
    Resolving { pstn: PstnConnection, resolution: Resolution },
    /// Provisioning the connection of this name, which was added.
    Provisioning { name: String, saga: Provisioning },
    /// Writing the status of the connection of this name.
    Persisting { name: String },
    /// Releasing the numbers of a connection that was deleted.
    Releasing { job: Deprovisioning },
}

/// Mathematical model of [`Reconciler`].
pub enum ReconcilerView {
    Idle,
    Resolving { pstn: PstnConnectionView, resolution: ResolutionView },
    Provisioning { name: Seq<char>, saga: ProvisioningView },
    Persisting { name: Seq<char> },
    Releasing { job: DeprovisioningView },
}

impl View for Reconciler {
    type V = ReconcilerView;

    open spec fn view(&self) -> ReconcilerView {
        match self {
            Reconciler::Idle => ReconcilerView::Idle,
            Reconciler::Resolving { pstn, resolution } => ReconcilerView::Resolving {
                pstn: pstn@,
                resolution: resolution@,
            },
            Reconciler::Provisioning { name, saga } => ReconcilerView::Provisioning {
                name: name@,
                saga: saga@,
            },
            Reconciler::Persisting { name } => ReconcilerView::Persisting { name: name@ },
            Reconciler::Releasing { job } => ReconcilerView::Releasing { job: job@ },
        }
    }
}

impl DeepView for Reconciler {
    type V = ReconcilerView;

    open spec fn deep_view(&self) -> ReconcilerView {
        self@
    }
}

/// The context for calls on behalf of an account under a span identifier.
pub open spec fn context_of(simwood: SimwoodView, span_id: Seq<char>) -> SimwoodContextView {
    SimwoodContextView { username: simwood.username, password: simwood.password, span_id }
}

impl ReconcilerView {
    /// Whether a workflow with the provider is under way.
    pub open spec fn in_workflow(self) -> bool {
        self is Provisioning || self is Releasing
    }

    /// The span identifier of the workflow under way; empty where none is.
    pub open spec fn span_id(self) -> Seq<char> {
        match self {
            ReconcilerView::Provisioning { saga, .. } => match saga.context() {
                Some(context) => context.span_id,
                None => Seq::empty(),
            },
            ReconcilerView::Releasing { job } => match job.context {
                Some(context) => context.span_id,
                None => Seq::empty(),
            },
            _ => Seq::empty(),
        }
    }

    /// Where the loop stands, and what it asks for, with the provisioning
    /// of the connection of this name in the given state: the next call of
    /// the workflow, or the write of its outcome once it is over.
    pub open spec fn provisioning(name: Seq<char>, saga: ProvisioningView) -> (
        ReconcilerView,
        ActionView,
    ) {
        match saga {
            ProvisioningView::Finished { status } => (
                ReconcilerView::Persisting { name },
                ActionView::WriteStatus { name, status },
            ),
            _ => (
                ReconcilerView::Provisioning { name, saga },
                ActionView::Call { context: saga.context()->0, call: saga.pending_call()->0 },
            ),
        }
    }

    /// Starts the provisioning of a connection with the endpoint resolved
    /// for it. `span_id` is the identifier drawn for the workflow's context.
    pub open spec fn provision(
        pstn: PstnConnectionView,
        endpoint: Option<Seq<char>>,
        span_id: Seq<char>,
    ) -> (ReconcilerView, ActionView) {
        ReconcilerView::provisioning(
            pstn.name,
            match pstn.spec.provider.simwood {
                Some(simwood) => ProvisioningView::begin(
                    simwood,
                    context_of(simwood, span_id),
                    endpoint,
                ),
                None => ProvisioningView::finished(Status::UnknownProvider),
            },
        )
    }

    /// Where the loop stands, and what it asks for, with the resolution of
    /// a connection's endpoint in the given state: the next lookup, or the
    /// start of provisioning once resolution is over.
    pub open spec fn resolving(
        pstn: PstnConnectionView,
        resolution: ResolutionView,
        span_id: Seq<char>,
    ) -> (ReconcilerView, ActionView) {
        match resolution {
            ResolutionView::Resolved { endpoint, .. } => ReconcilerView::provision(
                pstn,
                endpoint,
                span_id,
            ),
            _ => (
                ReconcilerView::Resolving { pstn, resolution },
                ActionView::Query(resolution.pending_query()->0),
            ),
        }
    }

    /// Starts the deprovisioning of a connection: all releases at once, or
    /// nothing at all where nothing is to be released. `span_id` is the
    /// identifier drawn for the workflow's context.
    pub open spec fn deprovision(pstn: PstnConnectionView, span_id: Seq<char>) -> (
        ReconcilerView,
        ActionView,
    ) {
        match pstn.spec.provider.simwood {
            Some(simwood) => {
                let job = DeprovisioningView::begin(
                    simwood,
                    context_of(simwood, span_id),
                    pstn.recorded_numbers(),
                );
                if job.is_complete() {
                    (ReconcilerView::Idle, ActionView::AwaitEvent)
                } else {
                    (
                        ReconcilerView::Releasing { job },
                        ActionView::Release {
                            context: context_of(simwood, span_id),
                            calls: job.calls,
                        },
                    )
                }
            },
            None => (ReconcilerView::Idle, ActionView::AwaitEvent),
        }
    }

    /// The next state and the next action, given what came of the last
    /// action. `span_id` is the identifier drawn where this step starts a
    /// workflow with the provider; no other step depends on it.
    ///
    /// An input that does not answer what the state waits for changes
    /// nothing.
    pub open spec fn step(self, input: InputView, span_id: Seq<char>) -> (
        ReconcilerView,
        ActionView,
    ) {
        match self {
            ReconcilerView::Idle => match input {
                InputView::Watch(WatchEventView::Added(pstn)) => ReconcilerView::resolving(
                    pstn,
                    ResolutionView::begin(pstn.spec.inbound),
                    span_id,
                ),
                InputView::Watch(WatchEventView::Deleted(pstn)) => ReconcilerView::deprovision(
                    pstn,
                    span_id,
                ),
                _ => (ReconcilerView::Idle, ActionView::AwaitEvent),
            },
            ReconcilerView::Resolving { pstn, resolution } => match input {
                InputView::Cluster(reply) => ReconcilerView::resolving(
                    pstn,
                    resolution.on_reply(reply),
                    span_id,
                ),
                _ => (self, ActionView::AwaitReply),
            },
            ReconcilerView::Provisioning { name, saga } => match input {
                InputView::Provider(reply) => ReconcilerView::provisioning(
                    name,
                    saga.on_reply(reply),
                ),
                _ => (self, ActionView::AwaitReply),
            },
            ReconcilerView::Persisting { .. } => match input {
                InputView::StatusWritten(_) => (ReconcilerView::Idle, ActionView::AwaitEvent),
                _ => (self, ActionView::AwaitReply),
            },
            ReconcilerView::Releasing { job } => match input {
                InputView::Released(reply) => if job.on_reply(reply).is_complete() {
                    (ReconcilerView::Idle, ActionView::AwaitEvent)
                } else {
                    (
                        ReconcilerView::Releasing { job: job.on_reply(reply) },
                        ActionView::AwaitReply,
                    )
                },
                _ => (self, ActionView::AwaitReply),
            },
        }
    }
}

/// A copy of a list of releases.
fn duplicate_calls(calls: &Vec<ReleaseCall>) -> (copy: Vec<ReleaseCall>)
    ensures
        copy.deep_view() == calls.deep_view(),
{
    let mut copy: Vec<ReleaseCall> = Vec::new();
    let mut i: usize = 0;
    while i < calls.len()
        invariant
            i <= calls.len(),
            copy.len() == i,
            forall|j: int| 0 <= j < i ==> (#[trigger] copy[j])@ == calls[j]@,
        decreases calls.len() - i,
    {
        copy.push(
            ReleaseCall { account: calls[i].account.clone(), number: calls[i].number.clone() },
        );
        i += 1;
    }
    assert(copy.deep_view() =~= calls.deep_view());
    copy
}

impl Reconciler {
    /// The loop as it starts: between events.
    pub fn new() -> (start: Reconciler)
        ensures
            start@ == ReconcilerView::Idle,
    {
        Reconciler::Idle
    }

    /// Goes on with the provisioning of the connection of this name.
    fn provisioning(name: String, saga: Provisioning) -> (out: (Reconciler, Action))
        ensures
            (out.0@, out.1@) == ReconcilerView::provisioning(name@, saga@),
    {
        match saga {
            Provisioning::Finished { status } => {
                let written = name.clone();
                (Reconciler::Persisting { name }, Action::WriteStatus { name: written, status })
            },
            saga => {
                match (saga.context(), saga.pending_call()) {
                    (Some(context), Some(call)) => {
                        let action = Action::Call { context: context.duplicate(), call };
                        (Reconciler::Provisioning { name, saga }, action)
                    },
                    _ => {
                        proof {
                            assert(false);
                        }
                        (Reconciler::Idle, Action::AwaitEvent)
                    },
                }
            },
        }
    }

    /// Starts the provisioning of a connection with the endpoint resolved
    /// for it.
    fn provision(pstn: PstnConnection, endpoint: Option<String>) -> (out: (Reconciler, Action))
        ensures
            (out.0@, out.1@) == ReconcilerView::provision(
                pstn@,
                endpoint.deep_view(),
                out.0@.span_id(),
            ),
            out.0@.in_workflow() ==> is_random_uuid(out.0@.span_id()),
    {
        let name = pstn.name.clone();
        let saga = handle_pstn_connection_add(pstn, endpoint);
        Reconciler::provisioning(name, saga)
    }

    /// Goes on with the resolution of a connection's endpoint.
    fn resolving(pstn: PstnConnection, resolution: Resolution) -> (out: (Reconciler, Action))
        ensures
            (out.0@, out.1@) == ReconcilerView::resolving(pstn@, resolution@, out.0@.span_id()),
            out.0@.in_workflow() ==> is_random_uuid(out.0@.span_id()),
    {
        match resolution {
            Resolution::Resolved { endpoint, .. } => Reconciler::provision(pstn, endpoint),
            resolution => {
                match resolution.pending_query() {
                    Some(query) => (
                        Reconciler::Resolving { pstn, resolution },
                        Action::Query(query),
                    ),
                    None => {
                        proof {
                            assert(false);
                        }
                        (Reconciler::Idle, Action::AwaitEvent)
                    },
                }
            },
        }
    }

    /// Starts the deprovisioning of a connection.
    fn deprovision(pstn: PstnConnection) -> (out: (Reconciler, Action))
        ensures
            (out.0@, out.1@) == ReconcilerView::deprovision(pstn@, out.0@.span_id()),
            out.0@.in_workflow() ==> is_random_uuid(out.0@.span_id()),
    {
        let job = handle_pstn_connection_delete(pstn);
        if job.is_complete() {
            (Reconciler::Idle, Action::AwaitEvent)
        } else {
            match &job.context {
                Some(context) => {
                    let action = Action::Release {
                        context: context.duplicate(),
                        calls: duplicate_calls(&job.calls),
                    };
                    (Reconciler::Releasing { job }, action)
                },
                None => {
                    proof {
                        assert(false);
                    }
                    (Reconciler::Idle, Action::AwaitEvent)
                },
            }
        }
    }

    /// Takes what came of the last action, and says where the loop stands
    /// now and what it asks for next.
    ///
    /// A step that starts a workflow with the provider draws a span
    /// identifier for it; the step is then as the model has it for the
    /// identifier that was drawn, which is the text of a random UUID.
    pub fn step(self, input: Input) -> (out: (Reconciler, Action))
        ensures
            (out.0@, out.1@) == self@.step(input@, out.0@.span_id()),
            !self@.in_workflow() && out.0@.in_workflow() ==> is_random_uuid(out.0@.span_id()),
    {
        match self {
            Reconciler::Idle => match input {
                Input::Watch(WatchEvent::Added(pstn)) => {
                    let resolution = Resolution::begin(&pstn.spec.inbound);
                    Reconciler::resolving(pstn, resolution)
                },
                Input::Watch(WatchEvent::Deleted(pstn)) => Reconciler::deprovision(pstn),
                _ => (Reconciler::Idle, Action::AwaitEvent),
            },
            Reconciler::Resolving { pstn, resolution } => match input {
                Input::Cluster(reply) => Reconciler::resolving(pstn, resolution.on_reply(reply)),
                _ => (Reconciler::Resolving { pstn, resolution }, Action::AwaitReply),
            },
            Reconciler::Provisioning { name, saga } => match input {
                Input::Provider(reply) => Reconciler::provisioning(name, saga.on_reply(reply)),
                _ => (Reconciler::Provisioning { name, saga }, Action::AwaitReply),
            },
            Reconciler::Persisting { name } => match input {
                Input::StatusWritten(_) => (Reconciler::Idle, Action::AwaitEvent),
                _ => (Reconciler::Persisting { name }, Action::AwaitReply),
            },
            Reconciler::Releasing { job } => match input {
                Input::Released(reply) => {
                    let job = job.on_reply(reply);
                    if job.is_complete() {
                        (Reconciler::Idle, Action::AwaitEvent)
                    } else {
                        (Reconciler::Releasing { job }, Action::AwaitReply)
                    }
                },
                _ => (Reconciler::Releasing { job }, Action::AwaitReply),
            },
        }
    }
}

/// A connection that was modified, and an error of the watch, change
/// nothing: the loop stays between events and asks for the next one.
pub proof fn unsupported_events_change_nothing(event: WatchEventView, span_id: Seq<char>)
    requires
        event is Modified || event is Error,
    ensures
        ReconcilerView::Idle.step(InputView::Watch(event), span_id) == (
            ReconcilerView::Idle,
            ActionView::AwaitEvent,
        ),
{
}

/// Only a step that starts a workflow with the provider depends on the span
/// identifier that is drawn: from any state but `Idle` and `Resolving`, the
/// step is the same under every identifier.
pub proof fn later_steps_draw_no_span(
    state: ReconcilerView,
    input: InputView,
    one: Seq<char>,
    other: Seq<char>,
)
    requires
        !(state is Idle),
        !(state is Resolving),
    ensures
        state.step(input, one) == state.step(input, other),
{
}

/// For a connection whose provider is unset, no call is ever made to a
/// provider. When it is added, each step up to the end of resolution asks
/// for a lookup in the cluster, and the step that ends resolution asks for
/// `UnknownProvider` to be written, with no number recorded. When it is
/// deleted the loop is done with it at once.
pub proof fn unknown_provider_makes_no_call(
    pstn: PstnConnectionView,
    resolution: ResolutionView,
    reply: ClusterReplyView,
    span_id: Seq<char>,
)
    requires
        pstn.spec.provider.simwood is None,
    ensures
        ReconcilerView::resolving(pstn, resolution, span_id) == if resolution is Resolved {
            (
                ReconcilerView::Persisting { name: pstn.name },
                ActionView::WriteStatus {
                    name: pstn.name,
                    status: PstnConnectionStatusView::bare(Status::UnknownProvider),
                },
            )
        } else {
            (
                ReconcilerView::Resolving { pstn, resolution },
                ActionView::Query(resolution.pending_query()->0),
            )
        },
        ReconcilerView::Idle.step(InputView::Watch(WatchEventView::Added(pstn)), span_id)
            == ReconcilerView::resolving(pstn, ResolutionView::begin(pstn.spec.inbound), span_id),
        (ReconcilerView::Resolving { pstn, resolution }).step(InputView::Cluster(reply), span_id)
            == ReconcilerView::resolving(pstn, resolution.on_reply(reply), span_id),
        ReconcilerView::Idle.step(InputView::Watch(WatchEventView::Deleted(pstn)), span_id) == (
            ReconcilerView::Idle,
            ActionView::AwaitEvent,
        ),
{
}

/// A connection that was added without an inbound service, and is bound to
/// an account, goes straight to the search for a number, with no endpoint
/// to route to.
pub proof fn added_without_inbound_starts_searching(pstn: PstnConnectionView, span_id: Seq<char>)
    requires
        pstn.spec.inbound is None,
        pstn.spec.provider.simwood is Some,
    ensures
        ReconcilerView::Idle.step(InputView::Watch(WatchEventView::Added(pstn)), span_id) == (
            ReconcilerView::Provisioning {
                name: pstn.name,
                saga: ProvisioningView::begin(
                    pstn.spec.provider.simwood->0,
                    context_of(pstn.spec.provider.simwood->0, span_id),
                    None,
                ),
            },
            ActionView::Call {
                context: context_of(pstn.spec.provider.simwood->0, span_id),
                call: ProviderCallView::search_for_one(pstn.spec.provider.simwood->0.account),
            },
        ),
{
}

/// What is written for a connection is the outcome of its provisioning: the
/// answer that ends the workflow asks for exactly the workflow's status to
/// be written to the connection, and any other answer asks for the
/// workflow's next call.
pub proof fn outcome_of_provisioning_is_written(
    name: Seq<char>,
    saga: ProvisioningView,
    reply: ProviderReplyView,
    span_id: Seq<char>,
)
    ensures
        (ReconcilerView::Provisioning { name, saga }).step(InputView::Provider(reply), span_id).1
            == match saga.on_reply(reply).outcome() {
            Some(status) => ActionView::WriteStatus { name, status },
            None => ActionView::Call {
                context: saga.on_reply(reply).context()->0,
                call: saga.on_reply(reply).pending_call()->0,
            },
        },
        saga.on_reply(reply).outcome() is Some ==> (ReconcilerView::Provisioning {
            name,
            saga,
        }).step(InputView::Provider(reply), span_id).0 == (ReconcilerView::Persisting { name }),
{
}

/// Once the write of a status has come back, the loop is between events
/// again, whether the write succeeded or not: a failed write is not
/// retried.
pub proof fn written_status_ends_the_event(name: Seq<char>, written: bool, span_id: Seq<char>)
    ensures
        (ReconcilerView::Persisting { name }).step(InputView::StatusWritten(written), span_id) == (
            ReconcilerView::Idle,
            ActionView::AwaitEvent,
        ),
{
}

/// A connection that was deleted, and is bound to an account, has every
/// number of its last status released, each exactly once and all at once;
/// where no number is recorded, nothing is asked of the provider.
pub proof fn deleted_connection_releases_recorded_numbers(
    pstn: PstnConnectionView,
    span_id: Seq<char>,
)
    requires
        pstn.spec.provider.simwood is Some,
    ensures
        ReconcilerView::Idle.step(InputView::Watch(WatchEventView::Deleted(pstn)), span_id).1
            == if pstn.recorded_numbers().len() == 0 {
            ActionView::AwaitEvent
        } else {
            ActionView::Release {
                context: context_of(pstn.spec.provider.simwood->0, span_id),
                calls: release_calls(
                    pstn.spec.provider.simwood->0.account,
                    pstn.recorded_numbers(),
                ),
            }
        },
{
}

} // verus!
