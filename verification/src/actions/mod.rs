//! The operations that the platform runs, and the interface of an action
//! that can be registered and run by name.

use vstd::prelude::*;

use crate::errors::{AppError, ErrorView};

pub mod deploy;
pub mod deploy_agent;
pub mod deploy_flow;
pub mod echo;
pub mod info;

verus! {

/// The content of what an action returns: the bytes of its answer, or its
/// error.
pub open spec fn outcome_view(r: Result<Vec<u8>, AppError>) -> Result<Seq<u8>, ErrorView> {
    match r {
        Ok(bytes) => Ok(bytes@),
        Err(e) => Err(e@),
    }
}

/// An operation that runs on a raw payload and answers with raw bytes.
pub trait Action: Send + Sync {
    /// The name under which the action is registered and requested. An
    /// action that does not state it leaves it unknown.
    open spec fn spec_name(&self) -> Seq<char> {
        arbitrary()
    }

    /// Whether `output` is an answer that the action may give to `input`.
    /// An action that does not state it allows any answer.
    open spec fn answers(&self, input: Seq<u8>, output: Result<Seq<u8>, ErrorView>) -> bool {
        true
    }

    /// The name under which the action is registered and requested.
    fn name(&self) -> (n: &'static str)
        ensures
            n@ == self.spec_name(),
    ;

    /// Runs the action on `input`.
    fn execute(&self, input: Vec<u8>) -> (r: Result<Vec<u8>, AppError>)
        ensures
            self.answers(input@, outcome_view(r)),
    ;
}

impl<T: Action + ?Sized> Action for Box<T> {
    open spec fn spec_name(&self) -> Seq<char> {
        (**self).spec_name()
    }

    open spec fn answers(&self, input: Seq<u8>, output: Result<Seq<u8>, ErrorView>) -> bool {
        (**self).answers(input, output)
    }

    fn name(&self) -> (n: &'static str) {
        (**self).name()
    }

    fn execute(&self, input: Vec<u8>) -> (r: Result<Vec<u8>, AppError>) {
        (**self).execute(input)
    }
}

} // verus!
