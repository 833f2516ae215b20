//! The context that accompanies every call made to the provider on behalf of
//! one account: its basic-auth credentials and a fresh span identifier.

use vstd::prelude::*;
use crate::connection::Simwood;

verus! {

/// Whether `c` is a decimal digit or one of `a` to `f`.
pub open spec fn is_lower_hex(c: char) -> bool {
    ('0' <= c && c <= '9') || ('a' <= c && c <= 'f')
}

/// Whether `s` is the hyphenated lower-case text of a random (version 4,
/// RFC 4122 variant) UUID: 36 characters, hyphens after the 8th, 12th, 16th
/// and 20th digit, hexadecimal digits elsewhere, the 13th digit `4` and the
/// 17th one of `8`, `9`, `a`, `b`.
pub open spec fn is_random_uuid(s: Seq<char>) -> bool {
    &&& s.len() == 36
    &&& forall|i: int|
        #![trigger s[i]]
        0 <= i < 36 ==> if i == 8 || i == 13 || i == 18 || i == 23 {
            s[i] == '-'
        } else {
            is_lower_hex(s[i])
        }
    &&& s[14] == '4'
    &&& (s[19] == '8' || s[19] == '9' || s[19] == 'a' || s[19] == 'b')
}

/// Draws a fresh span identifier from `uuid::Uuid::new_v4` and renders it with
/// the UUID's `Display`.
///
/// Trusted: the result is taken to be the hyphenated lower-case text of a
/// version 4 UUID, which is what `new_v4` masks its random bits to and what
/// `Display` writes. Nothing is claimed about which UUID comes back; two calls
/// may differ. `new_v4` panics when the operating system yields no random
/// bytes.
#[verifier::external_body]
fn new_span_id() -> (id: String)
    ensures
        is_random_uuid(id@),
{
    uuid::Uuid::new_v4().to_string()
}

/// Credentials and span identifier sent along with each provider call.
#[derive(Clone, Debug, PartialEq, Eq)]
pub struct SimwoodContext {
    pub username: String,
    pub password: String,
    pub span_id: String,
}

/// Mathematical model of [`SimwoodContext`].
pub struct SimwoodContextView {
    pub username: Seq<char>,
    pub password: Seq<char>,
    pub span_id: Seq<char>,
}

impl View for SimwoodContext {
    type V = SimwoodContextView;

    open spec fn view(&self) -> SimwoodContextView {
        SimwoodContextView {
            username: self.username@,
            password: self.password@,
            span_id: self.span_id@,
        }
    }
}

impl DeepView for SimwoodContext {
    type V = SimwoodContextView;

    open spec fn deep_view(&self) -> SimwoodContextView {
        self@
    }
}

impl SimwoodContext {
    /// The context for `simwood` under the given span identifier.
    pub fn with_span(simwood: &Simwood, span_id: String) -> (context: SimwoodContext)
        ensures
            context@ == (SimwoodContextView {
                username: simwood@.username,
                password: simwood@.password,
                span_id: span_id@,
            }),
    {
        SimwoodContext {
            username: simwood.username.clone(),
            password: simwood.password.clone(),
            span_id,
        }
    }

    /// A copy of this context.
    pub fn duplicate(&self) -> (copy: SimwoodContext)
        ensures
            copy@ == self@,
    {
        SimwoodContext {
            username: self.username.clone(),
            password: self.password.clone(),
            span_id: self.span_id.clone(),
        }
    }
}

/// The context for calls on behalf of `simwood`: its username and password for
/// basic authentication, under a span identifier drawn afresh on every call.
pub fn make_simwood_context(simwood: &Simwood) -> (context: SimwoodContext)
    ensures
        context@.username == simwood@.username,
        context@.password == simwood@.password,
        is_random_uuid(context@.span_id),
{
    SimwoodContext::with_span(simwood, new_span_id())
}

} // verus!
