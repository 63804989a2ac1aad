use vstd::prelude::*;

use crate::openais::openai::OpenAI;
use crate::usecases::{usecase_post, UsecaseError};

verus! {

/// The zero-shot template: one direct question, no worked examples.
pub open spec fn spec_zero_shot_prompt() -> Seq<char> {
    "\n        \"What are the top 10 Python libraries for AI?\"\n        "@
}

/// The few-shot template: four labeled example sentence/emotion pairs
/// followed by one unlabeled sentence awaiting classification. The examples
/// are fixed in this version; nothing is parameterized at run time.
pub open spec fn spec_few_shot_prompt() -> Seq<char> {
    "\n        Please classify the emotion (positive or negative) of the following sentences:\n\n        Sentence: \"This movie was great!\"\n        Emotion: Positive\n\n        Sentence: \"The service was very slow and I was dissatisfied.\"\n        Emotion: Negative\n\n        Sentence: \"The quality was not good for the price.\"\n        Emotion: Negative\n\n        Sentence: \"The staff were polite and I was able to shop comfortably.\"\n        Emotion: Positive\n\n        Sentence: \"The wait time was too long and I was tired.\"\n        Emotion:\n        "@
}

/// The zero-shot template as prompt text.
pub fn zero_shot_prompt() -> (r: &'static str)
    ensures
        r@ == spec_zero_shot_prompt(),
{
    "\n        \"What are the top 10 Python libraries for AI?\"\n        "
}

/// The few-shot template as prompt text.
pub fn few_shot_prompt() -> (r: &'static str)
    ensures
        r@ == spec_few_shot_prompt(),
{
    "\n        Please classify the emotion (positive or negative) of the following sentences:\n\n        Sentence: \"This movie was great!\"\n        Emotion: Positive\n\n        Sentence: \"The service was very slow and I was dissatisfied.\"\n        Emotion: Negative\n\n        Sentence: \"The quality was not good for the price.\"\n        Emotion: Negative\n\n        Sentence: \"The staff were polite and I was able to shop comfortably.\"\n        Emotion: Positive\n\n        Sentence: \"The wait time was too long and I was tired.\"\n        Emotion:\n        "
}

/// The few-shot template carries its worked examples verbatim: the first
/// example sentence stands in the submitted text.
pub proof fn lemma_few_shot_template_has_example()
    ensures
        spec_few_shot_prompt().subrange(108, 129) == "This movie was great!"@,
{
    reveal_strlit(
        "\n        Please classify the emotion (positive or negative) of the following sentences:\n\n        Sentence: \"This movie was great!\"\n        Emotion: Positive\n\n        Sentence: \"The service was very slow and I was dissatisfied.\"\n        Emotion: Negative\n\n        Sentence: \"The quality was not good for the price.\"\n        Emotion: Negative\n\n        Sentence: \"The staff were polite and I was able to shop comfortably.\"\n        Emotion: Positive\n\n        Sentence: \"The wait time was too long and I was tired.\"\n        Emotion:\n        ",
    );
    reveal_strlit("This movie was great!");
    assert(spec_few_shot_prompt().subrange(108, 129) =~= "This movie was great!"@);
}

/// The prompt-strategy use case: exactly two named operations, each of which
/// submits its fixed template and surfaces the response.
pub trait PromptUsecase {
    /// Whether a call on `question` is known to succeed.
    spec fn spec_succeeds(&self, question: Seq<char>) -> bool;

    /// The response a successful call on `question` surfaces.
    spec fn spec_response(&self, question: Seq<char>) -> Seq<char>;

    /// Submit the zero-shot template and return the response to display, or
    /// the wrapped capability failure.
    fn zero_shot(&self) -> (r: Result<String, UsecaseError>)
        ensures
            usecase_post(
                self.spec_succeeds(spec_zero_shot_prompt()),
                self.spec_response(spec_zero_shot_prompt()),
                r,
            ),
    ;

    /// Submit the few-shot template and return the response to display, or
    /// the wrapped capability failure.
    fn few_shot(&self) -> (r: Result<String, UsecaseError>)
        ensures
            usecase_post(
                self.spec_succeeds(spec_few_shot_prompt()),
                self.spec_response(spec_few_shot_prompt()),
                r,
            ),
    ;
}

/// The prompt-strategy use case over any completion capability: each
/// operation assembles its fixed template, delegates to `call_prompt` once,
/// and wraps every capability failure as `UsecaseError::Call`.
#[derive(Debug)]
pub struct PromptUsecaseImpl<C> {
    pub openai_client: C,
}

impl<C> PromptUsecaseImpl<C> {
    pub fn new(openai_client: C) -> (r: Self)
        ensures
            r.openai_client == openai_client,
    {
        PromptUsecaseImpl { openai_client }
    }
}

impl<C: OpenAI> PromptUsecase for PromptUsecaseImpl<C> {
    open spec fn spec_succeeds(&self, question: Seq<char>) -> bool {
        self.openai_client.spec_succeeds(question)
    }

    open spec fn spec_response(&self, question: Seq<char>) -> Seq<char> {
        self.openai_client.spec_response(question)
    }

    fn zero_shot(&self) -> (r: Result<String, UsecaseError>) {
        let prompt = zero_shot_prompt();
        match self.openai_client.call_prompt(prompt) {
            Ok(response) => Ok(response),
            Err(e) => Err(UsecaseError::Call(e)),
        }
    }

    fn few_shot(&self) -> (r: Result<String, UsecaseError>) {
        let prompt = few_shot_prompt();
        match self.openai_client.call_prompt(prompt) {
            Ok(response) => Ok(response),
            Err(e) => Err(UsecaseError::Call(e)),
        }
    }
}

/// A stand-in use case: no capability behind it, and an empty response from
/// either strategy.
#[derive(Debug)]
pub struct DummyPromptUsecaseImpl {}

impl DummyPromptUsecaseImpl {
    pub fn new() -> (r: Self)
        ensures
            r == (DummyPromptUsecaseImpl {}),
    {
        DummyPromptUsecaseImpl {}
    }
}

impl Default for DummyPromptUsecaseImpl {
    fn default() -> (r: Self)
        ensures
            r == (DummyPromptUsecaseImpl {}),
    {
        Self::new()
    }
}

impl PromptUsecase for DummyPromptUsecaseImpl {
    open spec fn spec_succeeds(&self, question: Seq<char>) -> bool {
        true
    }

    open spec fn spec_response(&self, question: Seq<char>) -> Seq<char> {
        Seq::empty()
    }

    fn zero_shot(&self) -> (r: Result<String, UsecaseError>) {
        Ok(String::new())
    }

    fn few_shot(&self) -> (r: Result<String, UsecaseError>) {
        Ok(String::new())
    }
}

/// Invoking the zero-shot strategy twice against the stand-in capability is
/// idempotent: the template submitted is the same fixed text both times, so
/// both calls succeed and the two responses agree byte for byte.
pub proof fn lemma_zero_shot_idempotent(
    r1: Result<String, UsecaseError>,
    r2: Result<String, UsecaseError>,
)
    requires
        usecase_post(
            true,
            crate::openais::openai::spec_dummy_response(spec_zero_shot_prompt()),
            r1,
        ),
        usecase_post(
            true,
            crate::openais::openai::spec_dummy_response(spec_zero_shot_prompt()),
            r2,
        ),
    ensures
        r1 is Ok,
        r2 is Ok,
        r1->Ok_0@ == r2->Ok_0@,
        r1->Ok_0@ == crate::openais::openai::spec_dummy_response(spec_zero_shot_prompt()),
{
}

} // verus!
