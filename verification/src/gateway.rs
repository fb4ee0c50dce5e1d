//! What goes back to the gateway in front of the service: a response with a
//! status and a body, or a decision on access.

use crate::claims::Claims;
use vstd::prelude::*;

verus! {

/// The outcome that a decision on access names.
#[derive(Debug, Clone, Copy, PartialEq, Eq, Structural)]
pub enum Effect {
    Allow,
    Deny,
}

/// A decision on access: what is granted or refused, to whom, and the claims
/// that the access-control layer behind the gateway will read.
#[derive(Debug)]
pub struct Policy {
    pub principal_id: String,
    pub effect: Effect,
    pub context: Claims,
}

/// A `Policy` with its texts as sequences and its claims as a mapping.
pub struct Decision {
    pub principal_id: Seq<char>,
    pub effect: Effect,
    pub context: Map<Seq<char>, Seq<char>>,
}

impl View for Policy {
    type V = Decision;

    open spec fn view(&self) -> Decision {
        Decision { principal_id: self.principal_id@, effect: self.effect, context: self.context@ }
    }
}

impl Policy {
    /// The decision that grants everything to `principal_id` and carries
    /// `context` along. It checks nothing itself.
    pub fn allow_all(principal_id: String, context: Claims) -> (r: Policy)
        ensures
            r@ == (Decision {
                principal_id: principal_id@,
                effect: Effect::Allow,
                context: context@,
            }),
    {
        Policy { principal_id, effect: Effect::Allow, context }
    }
}

/// The kind of content of a response body.
#[derive(Debug, Clone, Copy, PartialEq, Eq, Structural)]
pub enum ContentType {
    ApplicationJson,
    TextPlain,
}

/// A response: a status code and, where there is one, a body with the kind
/// of its content. The body is `Ok` for what was asked for and `Err` for a
/// report of failure.
#[derive(Debug)]
pub struct ApiGatewayResponse<T, E> {
    pub status_code: u16,
    pub body: Option<(Result<T, E>, ContentType)>,
}

/// The status code of a request that was served.
pub const STATUS_OK: u16 = 200;

/// The status code of a request that was malformed.
pub const STATUS_BAD_REQUEST: u16 = 400;

} // verus!
