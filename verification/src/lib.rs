//! Reconciliation of PSTN connections against a telephony provider: endpoint
//! resolution over cluster services, the provisioning and deprovisioning
//! workflows, and the event loop that drives them, each as a state machine
//! whose outside work is left to the caller.

pub mod connection;
pub mod context;
pub mod provision;
pub mod deprovision;
pub mod decimal;
pub mod sip_uri;
pub mod resolver;
pub mod reconcile;
