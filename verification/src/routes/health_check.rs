//! The liveness probe.

use crate::response::{respond, response_to, Body, BodyView, Outcome, OutcomeView, Response};
use vstd::prelude::*;

verus! {

/// Answers that the service is up: success with an empty body.
pub fn health_check() -> (r: Response)
    ensures
        r@ == response_to(OutcomeView::Success(BodyView::Empty)),
{
    respond(Outcome::Success(Body::Empty))
}

} // verus!
