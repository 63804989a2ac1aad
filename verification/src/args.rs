use vstd::prelude::*;

verus! {

/// The command-line surface the core consumes: three selector strings and the
/// chosen sub-command. Parsing argv into this shape is the caller's business;
/// the core only reads the resolved values.
pub struct App {
    pub tool: String,
    pub model: String,
    pub embedding_model: String,
    pub command: SubCommand,
}

/// The two commands the harness serves: ask one question directly, or run one
/// of the named prompt strategies.
pub enum SubCommand {
    Basic { question: String },
    Prompt { mode: String },
}

/// Which prompt-construction path runs.
#[derive(Clone, Copy, Debug, PartialEq, Eq, Structural)]
pub enum UseCaseMode {
    Basic,
    ZeroShot,
    FewShot,
}

/// The strategy named `mode` selects, or `None` for a name outside the
/// recognized set.
pub open spec fn spec_parse_mode(mode: Seq<char>) -> Option<UseCaseMode> {
    if mode == "zero-shot"@ {
        Some(UseCaseMode::ZeroShot)
    } else if mode == "few-shot"@ {
        Some(UseCaseMode::FewShot)
    } else {
        None
    }
}

/// Map a strategy name from the command line to the mode it selects.
/// Unrecognized names are rejected here, before any use case runs.
pub fn parse_mode(mode: &str) -> (r: Option<UseCaseMode>)
    ensures
        r == spec_parse_mode(mode@),
{
    if crate::str_eq(mode, "zero-shot") {
        Some(UseCaseMode::ZeroShot)
    } else if crate::str_eq(mode, "few-shot") {
        Some(UseCaseMode::FewShot)
    } else {
        None
    }
}

/// The mode a sub-command runs under: `Basic` asks its question directly,
/// `Prompt` selects a strategy by name and carries `None` for an
/// unrecognized name.
pub open spec fn spec_command_mode(c: &SubCommand) -> Option<UseCaseMode> {
    match c {
        SubCommand::Basic { .. } => Some(UseCaseMode::Basic),
        SubCommand::Prompt { mode } => spec_parse_mode(mode@),
    }
}

impl SubCommand {
    /// The mode this sub-command selects, or `None` for a `Prompt` command
    /// with an unrecognized strategy name.
    pub fn use_case_mode(&self) -> (r: Option<UseCaseMode>)
        ensures
            r == spec_command_mode(self),
    {
        match self {
            SubCommand::Basic { .. } => Some(UseCaseMode::Basic),
            SubCommand::Prompt { mode } => parse_mode(mode.as_str()),
        }
    }
}

} // verus!
