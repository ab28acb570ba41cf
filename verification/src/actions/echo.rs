//! The echo operation: it answers with the message it was given.

use vstd::prelude::*;

use crate::models::{EchoRequest, EchoResponse};

verus! {

/// Answers a request with the message it carries.
pub struct EchoAction;

impl EchoAction {
    /// The name under which the echo action is requested.
    pub fn name(&self) -> (n: &'static str)
        ensures
            n@ == "echo"@,
    {
        "echo"
    }

    /// The answer to `req`: the same message.
    pub fn echo(&self, req: &EchoRequest) -> (r: EchoResponse)
        ensures
            r.message@ == req.message@,
    {
        EchoResponse { message: req.message.clone() }
    }
}

} // verus!
