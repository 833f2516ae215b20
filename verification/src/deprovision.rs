//! The deprovisioning workflow: release every number recorded on a connection
//! that was deleted. The releases are independent of each other and may run
//! side by side; the workflow is over when each has come back, whatever it
//! came back with.
//!
//! The owner of a [`Deprovisioning`] makes every call of `calls` and hands
//! each answer to [`Deprovisioning::on_reply`], in whatever order the answers
//! arrive, until [`Deprovisioning::is_complete`].

use vstd::prelude::*;
use crate::connection::{PstnConnection, SimwoodView};
use crate::context::{is_random_uuid, make_simwood_context, SimwoodContext, SimwoodContextView};

verus! {

/// A call to the provider that gives `number` back from the account.
#[derive(Clone, Debug, PartialEq, Eq)]
pub struct ReleaseCall {
    pub account: String,
    pub number: String,
}

/// Mathematical model of [`ReleaseCall`].
pub struct ReleaseCallView {
    pub account: Seq<char>,
    pub number: Seq<char>,
}

impl View for ReleaseCall {
    type V = ReleaseCallView;

    open spec fn view(&self) -> ReleaseCallView {
        ReleaseCallView { account: self.account@, number: self.number@ }
    }
}

impl DeepView for ReleaseCall {
    type V = ReleaseCallView;

    open spec fn deep_view(&self) -> ReleaseCallView {
        self@
    }
}

/// What came back from a release.
#[derive(Clone, Copy, Debug, PartialEq, Eq, Structural)]
pub enum ReleaseReply {
    /// The number was given back.
    Released,
    /// The number was not allocated to the account in the first place.
    NumberNotAllocated,
    /// The call failed in transport, or the provider answered with an error.
    Error,
}

/// The releases that a list of recorded numbers calls for: one for each
/// number, in the order of the list.
pub open spec fn release_calls(account: Seq<char>, numbers: Seq<Seq<char>>) -> Seq<
    ReleaseCallView,
> {
    Seq::new(numbers.len(), |i: int| ReleaseCallView { account, number: numbers[i] })
}

/// Where a deprovisioning workflow stands.
#[derive(Clone, Debug, PartialEq, Eq)]
pub struct Deprovisioning {
    /// The context that the releases are made under; none where the
    /// connection names no known provider.
    pub context: Option<SimwoodContext>,
    /// Every release that the workflow calls for.
    pub calls: Vec<ReleaseCall>,
    /// How many of the releases have not come back yet.
    pub outstanding: usize,
}

/// Mathematical model of [`Deprovisioning`].
pub struct DeprovisioningView {
    pub context: Option<SimwoodContextView>,
    pub calls: Seq<ReleaseCallView>,
    pub outstanding: nat,
}

impl View for Deprovisioning {
    type V = DeprovisioningView;

    open spec fn view(&self) -> DeprovisioningView {
        DeprovisioningView {
            context: self.context.deep_view(),
            calls: self.calls.deep_view(),
            outstanding: self.outstanding as nat,
        }
    }
}

impl DeepView for Deprovisioning {
    type V = DeprovisioningView;

    open spec fn deep_view(&self) -> DeprovisioningView {
        self@
    }
}

impl DeprovisioningView {
    /// The workflow as it starts for an account and the numbers recorded for
    /// it: every release is called for and none has come back.
    pub open spec fn begin(
        simwood: SimwoodView,
        context: SimwoodContextView,
        numbers: Seq<Seq<char>>,
    ) -> DeprovisioningView {
        DeprovisioningView {
            context: Some(context),
            calls: release_calls(simwood.account, numbers),
            outstanding: numbers.len(),
        }
    }

    /// The workflow for a connection without a known provider: there is
    /// nothing to release.
    pub open spec fn nothing() -> DeprovisioningView {
        DeprovisioningView { context: None, calls: Seq::empty(), outstanding: 0 }
    }

    /// Whether every release has come back.
    pub open spec fn is_complete(self) -> bool {
        self.outstanding == 0
    }

    /// The state after one more release has come back. What it came back
    /// with makes no difference.
    pub open spec fn on_reply(self, reply: ReleaseReply) -> DeprovisioningView {
        DeprovisioningView {
            outstanding: if self.outstanding > 0 {
                (self.outstanding - 1) as nat
            } else {
                0
            },
            ..self
        }
    }

    /// The state after the replies have come back one after the other.
    pub open spec fn run(self, replies: Seq<ReleaseReply>) -> DeprovisioningView
        decreases replies.len(),
    {
        if replies.len() == 0 {
            self
        } else {
            self.on_reply(replies[0]).run(replies.drop_first())
        }
    }
}

impl Deprovisioning {
    /// Whether every release has come back.
    pub fn is_complete(&self) -> (complete: bool)
        ensures
            complete == self@.is_complete(),
    {
        self.outstanding == 0
    }

    /// Takes the answer to one of the releases.
    pub fn on_reply(self, reply: ReleaseReply) -> (next: Deprovisioning)
        ensures
            next@ == self@.on_reply(reply),
    {
        let outstanding: usize = if self.outstanding > 0 {
            self.outstanding - 1
        } else {
            0
        };
        Deprovisioning { context: self.context, calls: self.calls, outstanding }
    }
}

/// The releases, on the account, of the given numbers.
fn releases_of(account: &String, numbers: &Vec<String>) -> (calls: Vec<ReleaseCall>)
    ensures
        calls.deep_view() == release_calls(account@, numbers.deep_view()),
{
    let mut calls: Vec<ReleaseCall> = Vec::new();
    let mut i: usize = 0;
    while i < numbers.len()
        invariant
            i <= numbers.len(),
            calls.len() == i,
            forall|j: int|
                0 <= j < i ==> (#[trigger] calls[j])@ == (ReleaseCallView {
                    account: account@,
                    number: numbers[j]@,
                }),
        decreases numbers.len() - i,
    {
        calls.push(ReleaseCall { account: account.clone(), number: numbers[i].clone() });
        i += 1;
    }
    assert(calls.deep_view() =~= release_calls(account@, numbers.deep_view()));
    calls
}

/// Starts deprovisioning for a connection that was deleted.
///
/// For a connection bound to a Simwood account, every number of its last
/// recorded status is to be released, under a context made once for the whole
/// workflow; a connection without recorded numbers calls for no release. For
/// any other connection there is nothing to do.
pub fn handle_pstn_connection_delete(pstn: PstnConnection) -> (job: Deprovisioning)
    ensures
        match pstn@.spec.provider.simwood {
            Some(simwood) => {
                &&& job@.context matches Some(context)
                &&& context.username == simwood.username
                &&& context.password == simwood.password
                &&& is_random_uuid(context.span_id)
                &&& job@ == DeprovisioningView::begin(simwood, context, pstn@.recorded_numbers())
            },
            None => job@ == DeprovisioningView::nothing(),
        },
{
    match &pstn.spec.provider.simwood {
        Some(simwood) => {
            let context = make_simwood_context(simwood);
            let calls = match &pstn.status {
                Some(status) => match &status.numbers {
                    Some(numbers) => releases_of(&simwood.account, numbers),
                    None => Vec::new(),
                },
                None => Vec::new(),
            };
            assert(calls.deep_view() =~= release_calls(
                simwood@.account,
                pstn@.recorded_numbers(),
            ));
            let outstanding = calls.len();
            Deprovisioning { context: Some(context), calls, outstanding }
        },
        None => {
            let calls: Vec<ReleaseCall> = Vec::new();
            assert(calls.deep_view() =~= Seq::<ReleaseCallView>::empty());
            Deprovisioning { context: None, calls, outstanding: 0 }
        },
    }
}

/// Every recorded number is released exactly once: the releases are as many
/// as the numbers, and the one in place `i` gives back number `i` from the
/// account.
pub proof fn every_number_released_once(account: Seq<char>, numbers: Seq<Seq<char>>)
    ensures
        release_calls(account, numbers).len() == numbers.len(),
        forall|i: int|
            0 <= i < numbers.len() ==> #[trigger] release_calls(account, numbers)[i] == (
            ReleaseCallView { account, number: numbers[i] }),
        release_calls(account, numbers).map_values(|call: ReleaseCallView| call.number) == numbers,
{
    assert(release_calls(account, numbers).map_values(|call: ReleaseCallView| call.number)
        =~= numbers);
}

/// Releasing never changes which releases the workflow calls for, and the
/// releases still awaited go down by one with each answer, whatever the
/// answers are.
pub proof fn replies_only_count(job: DeprovisioningView, replies: Seq<ReleaseReply>)
    ensures
        job.run(replies).calls == job.calls,
        job.run(replies).context == job.context,
        job.run(replies).outstanding == if replies.len() <= job.outstanding {
            job.outstanding - replies.len()
        } else {
            0
        },
    decreases replies.len(),
{
    if replies.len() > 0 {
        replies_only_count(job.on_reply(replies[0]), replies.drop_first());
    }
}

/// The workflow is over exactly when as many releases have come back as there
/// are recorded numbers, and not before, whatever each came back with.
pub proof fn complete_when_all_returned(
    simwood: SimwoodView,
    context: SimwoodContextView,
    numbers: Seq<Seq<char>>,
    replies: Seq<ReleaseReply>,
)
    ensures
        DeprovisioningView::begin(simwood, context, numbers).run(replies).is_complete() <==> (
        replies.len() >= numbers.len()),
        DeprovisioningView::begin(simwood, context, numbers).run(replies).calls == release_calls(
            simwood.account,
            numbers,
        ),
{
    replies_only_count(DeprovisioningView::begin(simwood, context, numbers), replies);
}

/// With no number recorded, deprovisioning calls for no release and is over
/// as it starts.
pub proof fn nothing_recorded_nothing_released(simwood: SimwoodView, context: SimwoodContextView)
    ensures
        DeprovisioningView::begin(simwood, context, Seq::empty()).calls
            == Seq::<ReleaseCallView>::empty(),
        DeprovisioningView::begin(simwood, context, Seq::empty()).is_complete(),
{
    assert(release_calls(simwood.account, Seq::empty()) =~= Seq::<ReleaseCallView>::empty());
}

} // verus!
