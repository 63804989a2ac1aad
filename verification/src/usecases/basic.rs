use vstd::prelude::*;

use crate::openais::openai::OpenAI;
use crate::usecases::{usecase_post, UsecaseError};

verus! {

/// The direct use case: ask one question and surface the response for
/// display.
pub trait BasicUsecase {
    /// Whether a run on `question` is known to succeed.
    spec fn spec_succeeds(&self, question: Seq<char>) -> bool;

    /// The response a successful run on `question` surfaces.
    spec fn spec_response(&self, question: Seq<char>) -> Seq<char>;

    /// Ask `question` and return the response to display, or the wrapped
    /// capability failure.
    fn run(&self, question: &str) -> (r: Result<String, UsecaseError>)
        ensures
            usecase_post(self.spec_succeeds(question@), self.spec_response(question@), r),
    ;
}

/// The basic use case over any completion capability: a pass-through to
/// `call_prompt`, with every capability failure wrapped as
/// `UsecaseError::Call`.
#[derive(Debug)]
pub struct BasicUsecaseImpl<C> {
    pub openai_client: C,
}

impl<C> BasicUsecaseImpl<C> {
    pub fn new(openai_client: C) -> (r: Self)
        ensures
            r.openai_client == openai_client,
    {
        BasicUsecaseImpl { openai_client }
    }
}

impl<C: OpenAI> BasicUsecase for BasicUsecaseImpl<C> {
    open spec fn spec_succeeds(&self, question: Seq<char>) -> bool {
        self.openai_client.spec_succeeds(question)
    }

    open spec fn spec_response(&self, question: Seq<char>) -> Seq<char> {
        self.openai_client.spec_response(question)
    }

    fn run(&self, question: &str) -> (r: Result<String, UsecaseError>) {
        match self.openai_client.call_prompt(question) {
            Ok(response) => Ok(response),
            Err(e) => Err(UsecaseError::Call(e)),
        }
    }
}

/// A stand-in use case: no capability behind it, and an empty response to
/// every question.
#[derive(Debug)]
pub struct DummyBasicUsecaseImpl {}

impl DummyBasicUsecaseImpl {
    pub fn new() -> (r: Self)
        ensures
            r == (DummyBasicUsecaseImpl {}),
    {
        DummyBasicUsecaseImpl {}
    }
}

impl Default for DummyBasicUsecaseImpl {
    fn default() -> (r: Self)
        ensures
            r == (DummyBasicUsecaseImpl {}),
    {
        Self::new()
    }
}

impl BasicUsecase for DummyBasicUsecaseImpl {
    open spec fn spec_succeeds(&self, question: Seq<char>) -> bool {
        true
    }

    open spec fn spec_response(&self, question: Seq<char>) -> Seq<char> {
        Seq::empty()
    }

    fn run(&self, question: &str) -> (r: Result<String, UsecaseError>) {
        Ok(String::new())
    }
}

} // verus!
