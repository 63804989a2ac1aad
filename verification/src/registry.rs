use vstd::prelude::*;

use crate::openais::openai::{
    get_agent, spec_agent_for, spec_supported_tool, ConfigError, OpenAIImpl,
};
use crate::usecases::basic::BasicUsecaseImpl;
use crate::usecases::prompt::PromptUsecaseImpl;

verus! {

/// The registry wires tool and model selection into fully constructed use
/// cases, so the command layer never touches concrete construction. Each
/// accessor invokes the agent factory afresh and reports its own
/// `ConfigError`; nothing is cached across accessors.
pub struct Registry {
    pub tool: String,
    pub model: String,
    /// Accepted for forward compatibility; consumed by no use case in this
    /// version.
    pub embedding_model: String,
}

impl Registry {
    pub fn new(tool: String, model: String, embedding_model: String) -> (r: Registry)
        ensures
            r.tool@ == tool@,
            r.model@ == model@,
            r.embedding_model@ == embedding_model@,
    {
        Registry { tool, model, embedding_model }
    }

    /// Build the live capability's configuration for this registry's
    /// selectors: a fresh handle from the agent factory, or the factory's
    /// error for a selector outside the known set.
    pub fn build_agent(&self) -> (r: Result<OpenAIImpl, ConfigError>)
        ensures
            r is Ok <==> spec_supported_tool(self.tool@),
            (r matches Ok(c) ==> spec_agent_for(self.tool@, self.model@, c.agent)),
            (r matches Err(e) ==> e matches ConfigError::UnsupportedTool(t) && t@ == self.tool@),
    {
        match get_agent(self.tool.as_str(), self.model.as_str()) {
            Ok(agent) => Ok(OpenAIImpl::new(agent)),
            Err(e) => Err(e),
        }
    }

    /// Construct the basic use case over a freshly built live capability.
    /// Construction is eager: a selector outside the known set surfaces as
    /// `ConfigError` here, before any use.
    pub fn get_basic_usecase(&self) -> (r: Result<BasicUsecaseImpl<OpenAIImpl>, ConfigError>)
        ensures
            r is Ok <==> spec_supported_tool(self.tool@),
            (r matches Ok(u) ==> spec_agent_for(self.tool@, self.model@, u.openai_client.agent)),
            (r matches Err(e) ==> e matches ConfigError::UnsupportedTool(t) && t@ == self.tool@),
    {
        match self.build_agent() {
            Ok(openai_client) => Ok(BasicUsecaseImpl::new(openai_client)),
            Err(e) => Err(e),
        }
    }

    /// Construct the prompt-strategy use case over a freshly built live
    /// capability, independently of any other accessor: it repeats the
    /// factory's configuration check rather than reusing another handle.
    pub fn get_prompt_usecase(&self) -> (r: Result<PromptUsecaseImpl<OpenAIImpl>, ConfigError>)
        ensures
            r is Ok <==> spec_supported_tool(self.tool@),
            (r matches Ok(u) ==> spec_agent_for(self.tool@, self.model@, u.openai_client.agent)),
            (r matches Err(e) ==> e matches ConfigError::UnsupportedTool(t) && t@ == self.tool@),
    {
        match self.build_agent() {
            Ok(openai_client) => Ok(PromptUsecaseImpl::new(openai_client)),
            Err(e) => Err(e),
        }
    }
}

/// The accessors are independently constructed but agree on configuration
/// validity: each performs its own check of the same tool selector, so one
/// accessor succeeds exactly when the other does, and constructing one
/// cannot affect the other's check.
pub proof fn lemma_accessors_check_independently(
    reg: &Registry,
    rb: Result<BasicUsecaseImpl<OpenAIImpl>, ConfigError>,
    rp: Result<PromptUsecaseImpl<OpenAIImpl>, ConfigError>,
)
    requires
        rb is Ok <==> spec_supported_tool(reg.tool@),
        rp is Ok <==> spec_supported_tool(reg.tool@),
    ensures
        rb is Ok <==> rp is Ok,
{
}

} // verus!
