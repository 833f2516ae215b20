//! The managed resource: a PSTN connection, its desired state and the status
//! that reconciliation records on it.

use vstd::prelude::*;

verus! {

/// Credentials of an account with the Simwood telephony provider.
#[derive(Clone, Debug, PartialEq, Eq)]
pub struct Simwood {
    pub account: String,
    pub username: String,
    pub password: String,
}

/// Mathematical model of [`Simwood`].
pub struct SimwoodView {
    pub account: Seq<char>,
    pub username: Seq<char>,
    pub password: Seq<char>,
}

impl View for Simwood {
    type V = SimwoodView;

    open spec fn view(&self) -> SimwoodView {
        SimwoodView {
            account: self.account@,
            username: self.username@,
            password: self.password@,
        }
    }
}

impl DeepView for Simwood {
    type V = SimwoodView;

    open spec fn deep_view(&self) -> SimwoodView {
        self@
    }
}

/// The telephony provider a connection is bound to. A connection that names
/// no provider known to the controller has every field unset.
#[derive(Clone, Debug, PartialEq, Eq)]
pub struct Provider {
    pub simwood: Option<Simwood>,
}

/// Mathematical model of [`Provider`].
pub struct ProviderView {
    pub simwood: Option<SimwoodView>,
}

impl View for Provider {
    type V = ProviderView;

    open spec fn view(&self) -> ProviderView {
        ProviderView { simwood: self.simwood.deep_view() }
    }
}

impl DeepView for Provider {
    type V = ProviderView;

    open spec fn deep_view(&self) -> ProviderView {
        self@
    }
}

/// Inbound calling: how many numbers are wanted and the cluster service,
/// named within the connection's namespace, that calls are routed to.
#[derive(Clone, Debug, PartialEq, Eq)]
pub struct Inbound {
    pub numbers: u32,
    pub service: String,
}

/// Mathematical model of [`Inbound`].
pub struct InboundView {
    pub numbers: nat,
    pub service: Seq<char>,
}

impl View for Inbound {
    type V = InboundView;

    open spec fn view(&self) -> InboundView {
        InboundView { numbers: self.numbers as nat, service: self.service@ }
    }
}

impl DeepView for Inbound {
    type V = InboundView;

    open spec fn deep_view(&self) -> InboundView {
        self@
    }
}

/// Desired state of a PSTN connection.
#[derive(Clone, Debug, PartialEq, Eq)]
pub struct PstnConnectionSpec {
    pub provider: Provider,
    pub inbound: Option<Inbound>,
    pub outbound: Option<bool>,
}

/// Mathematical model of [`PstnConnectionSpec`].
pub struct PstnConnectionSpecView {
    pub provider: ProviderView,
    pub inbound: Option<InboundView>,
    pub outbound: Option<bool>,
}

impl View for PstnConnectionSpec {
    type V = PstnConnectionSpecView;

    open spec fn view(&self) -> PstnConnectionSpecView {
        PstnConnectionSpecView {
            provider: self.provider@,
            inbound: self.inbound.deep_view(),
            outbound: self.outbound,
        }
    }
}

impl DeepView for PstnConnectionSpec {
    type V = PstnConnectionSpecView;

    open spec fn deep_view(&self) -> PstnConnectionSpecView {
        self@
    }
}

/// Outcome of reconciling one connection against its telephony provider.
#[derive(Clone, Copy, Debug, PartialEq, Eq, Structural)]
pub enum Status {
    /// A number is claimed and routes to the connection's endpoint.
    Synchronized,
    /// A provider step failed; nothing is recorded as claimed.
    Failed,
    /// The connection names no provider the controller knows.
    UnknownProvider,
}

/// What reconciliation records on a connection: the outcome and the directory
/// numbers believed to be claimed for it, in the order they were claimed.
#[derive(Clone, Debug, PartialEq, Eq)]
pub struct PstnConnectionStatus {
    pub status: Option<Status>,
    pub numbers: Option<Vec<String>>,
}

/// Mathematical model of [`PstnConnectionStatus`].
pub struct PstnConnectionStatusView {
    pub status: Option<Status>,
    pub numbers: Option<Seq<Seq<char>>>,
}

impl PstnConnectionStatusView {
    /// The recorded numbers, with an omitted list read as the empty one.
    pub open spec fn recorded(self) -> Seq<Seq<char>> {
        match self.numbers {
            Some(numbers) => numbers,
            None => Seq::empty(),
        }
    }

    /// A status with the given outcome and no number recorded.
    pub open spec fn bare(status: Status) -> PstnConnectionStatusView {
        PstnConnectionStatusView { status: Some(status), numbers: None }
    }
}

impl View for PstnConnectionStatus {
    type V = PstnConnectionStatusView;

    open spec fn view(&self) -> PstnConnectionStatusView {
        PstnConnectionStatusView { status: self.status, numbers: self.numbers.deep_view() }
    }
}

impl DeepView for PstnConnectionStatus {
    type V = PstnConnectionStatusView;

    open spec fn deep_view(&self) -> PstnConnectionStatusView {
        self@
    }
}

impl Default for PstnConnectionStatus {
    fn default() -> (status: PstnConnectionStatus)
        ensures
            status@ == (PstnConnectionStatusView { status: None, numbers: None }),
    {
        PstnConnectionStatus { status: None, numbers: None }
    }
}

impl PstnConnectionStatus {
    /// A status with the given outcome and no number recorded.
    pub fn with_status(status: Status) -> (out: PstnConnectionStatus)
        ensures
            out@ == PstnConnectionStatusView::bare(status),
    {
        PstnConnectionStatus { status: Some(status), numbers: None }
    }
}

/// A PSTN connection as the cluster holds it: its name, its desired state and
/// the status last recorded on it, if any.
#[derive(Clone, Debug, PartialEq, Eq)]
pub struct PstnConnection {
    pub name: String,
    pub spec: PstnConnectionSpec,
    pub status: Option<PstnConnectionStatus>,
}

/// Mathematical model of [`PstnConnection`].
pub struct PstnConnectionView {
    pub name: Seq<char>,
    pub spec: PstnConnectionSpecView,
    pub status: Option<PstnConnectionStatusView>,
}

impl PstnConnectionView {
    /// The numbers of the last recorded status; none where no status or no
    /// number list was recorded.
    pub open spec fn recorded_numbers(self) -> Seq<Seq<char>> {
        match self.status {
            Some(status) => status.recorded(),
            None => Seq::empty(),
        }
    }
}

impl View for PstnConnection {
    type V = PstnConnectionView;

    open spec fn view(&self) -> PstnConnectionView {
        PstnConnectionView {
            name: self.name@,
            spec: self.spec@,
            status: self.status.deep_view(),
        }
    }
}

impl DeepView for PstnConnection {
    type V = PstnConnectionView;

    open spec fn deep_view(&self) -> PstnConnectionView {
        self@
    }
}

} // verus!
