use vstd::prelude::*;
use vstd::string::StringExecFns;

verus! {

/// A failure detected while wiring a backend, before any request is made.
#[derive(Debug, PartialEq, Eq)]
pub enum ConfigError {
    /// The tool selector is outside the known set; it carries the offending
    /// selector.
    UnsupportedTool(String),
}

/// A failure reported by a completion call. Every transport or backend
/// failure collapses into one opaque message.
#[derive(Debug, PartialEq, Eq)]
pub enum CallError {
    Backend(String),
}

/// How the backend client is to be constructed: from the process-wide
/// credential, or from a fixed base URL with a placeholder key.
#[derive(Debug, PartialEq, Eq, Clone)]
pub enum ClientConfig {
    /// The hosted backend; the credential comes from the environment and its
    /// absence surfaces as a backend-reported error on first use.
    FromEnv,
    /// A local OpenAI-compatible server at `base_url`, reached with the
    /// placeholder `api_key`.
    FromUrl { api_key: String, base_url: String },
}

/// An immutable binding of a resolved backend endpoint and a model name,
/// created once per invocation and never mutated. The handle is lazy: no
/// request is made until a prompt is submitted.
#[derive(Debug, PartialEq, Eq, Clone)]
pub struct AgentHandle {
    pub client: ClientConfig,
    pub model: String,
}

/// The selectors the factory accepts.
pub open spec fn spec_supported_tool(tool: Seq<char>) -> bool {
    ||| tool == "openai"@
    ||| tool == "ollama"@
    ||| tool == "lmstudio"@
}

/// The client configuration that `tool` resolves to.
pub open spec fn spec_config_for(tool: Seq<char>, c: ClientConfig) -> bool {
    if tool == "openai"@ {
        c is FromEnv
    } else if tool == "ollama"@ {
        c matches ClientConfig::FromUrl { api_key, base_url }
            && api_key@ == "ollama"@
            && base_url@ == "http://localhost:11434/v1"@
    } else if tool == "lmstudio"@ {
        c matches ClientConfig::FromUrl { api_key, base_url }
            && api_key@ == "lm-studio"@
            && base_url@ == "http://localhost:1234/v1"@
    } else {
        false
    }
}

/// A handle correctly built for `tool` and `model`.
pub open spec fn spec_agent_for(tool: Seq<char>, model: Seq<char>, h: AgentHandle) -> bool {
    spec_config_for(tool, h.client) && h.model@ == model
}

/// The agent factory: map a tool selector to a configured handle. An
/// unrecognized selector fails fast with `ConfigError::UnsupportedTool`, and
/// no request of any kind is made here.
pub fn get_agent(tool: &str, model: &str) -> (r: Result<AgentHandle, ConfigError>)
    ensures
        r is Ok <==> spec_supported_tool(tool@),
        (r matches Ok(h) ==> spec_agent_for(tool@, model@, h)),
        (r matches Err(e) ==> e matches ConfigError::UnsupportedTool(t) && t@ == tool@),
{
    let client = if crate::str_eq(tool, "openai") {
        ClientConfig::FromEnv
    } else if crate::str_eq(tool, "ollama") {
        ClientConfig::FromUrl {
            api_key: "ollama".to_owned(),
            base_url: "http://localhost:11434/v1".to_owned(),
        }
    } else if crate::str_eq(tool, "lmstudio") {
        ClientConfig::FromUrl {
            api_key: "lm-studio".to_owned(),
            base_url: "http://localhost:1234/v1".to_owned(),
        }
    } else {
        return Err(ConfigError::UnsupportedTool(tool.to_owned()));
    };
    Ok(AgentHandle { client, model: model.to_owned() })
}

/// What a completion capability whose model is `succeeds` and `response`
/// promises of one call: a question the model says succeeds returns `Ok`, a
/// successful reply carries exactly the modeled response, and any failure is
/// a backend report.
pub open spec fn call_prompt_post(
    succeeds: bool,
    response: Seq<char>,
    r: Result<String, CallError>,
) -> bool {
    &&& (succeeds ==> r is Ok)
    &&& (r matches Ok(resp) ==> succeeds && resp@ == response)
    &&& (r matches Err(e) ==> e is Backend)
}

/// The completion capability: submit one prompt, receive the response text or
/// a failure. Callers depend only on this interface, never on a concrete
/// backend, so a stand-in can replace the live client wherever composition is
/// exercised.
pub trait OpenAI {
    /// Whether a call on `question` is known to succeed. A live backend
    /// promises nothing; the stand-in always succeeds.
    spec fn spec_succeeds(&self, question: Seq<char>) -> bool;

    /// The response a successful call on `question` carries.
    spec fn spec_response(&self, question: Seq<char>) -> Seq<char>;

    /// Submit `question` and return the backend's reply verbatim, or the
    /// failure it reported.
    fn call_prompt(&self, question: &str) -> (r: Result<String, CallError>)
        ensures
            call_prompt_post(self.spec_succeeds(question@), self.spec_response(question@), r),
    ;
}

/// The live capability's configuration: the handle the factory built. The
/// network call itself is outside code and stands with the callers that
/// perform it; this type carries everything they need.
#[derive(Debug)]
pub struct OpenAIImpl {
    pub agent: AgentHandle,
}

impl OpenAIImpl {
    pub fn new(agent: AgentHandle) -> (r: Self)
        ensures
            r.agent == agent,
    {
        OpenAIImpl { agent }
    }
}

/// The response the stand-in gives to `question`.
pub open spec fn spec_dummy_response(question: Seq<char>) -> Seq<char> {
    "Dummy response to: "@ + question
}

/// The stand-in capability: no network, and a deterministic echo of the
/// question behind a fixed prefix.
#[derive(Debug)]
pub struct DummyOpenAIImpl {}

impl DummyOpenAIImpl {
    pub fn new() -> (r: Self)
        ensures
            r == (DummyOpenAIImpl {}),
    {
        DummyOpenAIImpl {}
    }
}

impl Default for DummyOpenAIImpl {
    fn default() -> (r: Self)
        ensures
            r == (DummyOpenAIImpl {}),
    {
        Self::new()
    }
}

impl OpenAI for DummyOpenAIImpl {
    open spec fn spec_succeeds(&self, question: Seq<char>) -> bool {
        true
    }

    open spec fn spec_response(&self, question: Seq<char>) -> Seq<char> {
        spec_dummy_response(question)
    }

    fn call_prompt(&self, question: &str) -> (r: Result<String, CallError>) {
        let prefix: String = "Dummy response to: ".to_owned();
        Ok(prefix.concat(question))
    }
}

/// The stand-in capability is pure and deterministic: every call on the same
/// question succeeds and returns exactly the prefixed echo of that question,
/// so two calls agree byte for byte.
pub proof fn lemma_dummy_call_deterministic(
    question: Seq<char>,
    r1: Result<String, CallError>,
    r2: Result<String, CallError>,
)
    requires
        call_prompt_post(true, spec_dummy_response(question), r1),
        call_prompt_post(true, spec_dummy_response(question), r2),
    ensures
        r1 is Ok,
        r2 is Ok,
        r1->Ok_0@ == spec_dummy_response(question),
        r1->Ok_0@ == r2->Ok_0@,
{
}

} // verus!
