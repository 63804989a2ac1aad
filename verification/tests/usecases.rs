use rig_example::args::{parse_mode, App, SubCommand, UseCaseMode};
use rig_example::openais::openai::{DummyOpenAIImpl, OpenAI};
use rig_example::usecases::agent_display_line;
use rig_example::usecases::basic::{BasicUsecase, BasicUsecaseImpl, DummyBasicUsecaseImpl};
use rig_example::usecases::prompt::{
    few_shot_prompt, zero_shot_prompt, DummyPromptUsecaseImpl, PromptUsecase, PromptUsecaseImpl,
};

#[test]
fn dummy_capability_echoes_question() {
    let capability = DummyOpenAIImpl::new();
    let response = capability.call_prompt("hello").expect("the stand-in always succeeds");
    assert_eq!(response, "Dummy response to: hello");
}

#[test]
fn dummy_capability_on_empty_question() {
    let capability = DummyOpenAIImpl::new();
    let response = capability.call_prompt("").expect("the stand-in always succeeds");
    assert_eq!(response, "Dummy response to: ");
}

#[test]
fn basic_usecase_surfaces_dummy_response() {
    let usecase = BasicUsecaseImpl::new(DummyOpenAIImpl::new());
    let response = usecase.run("Who are you?").expect("the stand-in always succeeds");
    assert_eq!(response, "Dummy response to: Who are you?");
}

#[test]
fn dummy_basic_usecase_returns_empty_response() {
    let usecase = DummyBasicUsecaseImpl::new();
    let response = usecase.run("anything").expect("the stand-in use case always succeeds");
    assert_eq!(response, "");
}

#[test]
fn zero_shot_submits_fixed_question() {
    let usecase = PromptUsecaseImpl::new(DummyOpenAIImpl::new());
    let response = usecase.zero_shot().expect("the stand-in always succeeds");
    assert!(response.starts_with("Dummy response to: "));
    assert!(response.contains("What are the top 10 Python libraries for AI?"));
}

#[test]
fn few_shot_submits_fixed_examples() {
    let usecase = PromptUsecaseImpl::new(DummyOpenAIImpl::new());
    let response = usecase.few_shot().expect("the stand-in always succeeds");
    assert!(response.starts_with("Dummy response to: "));
    assert!(response.contains("This movie was great!"));
    assert!(response.contains("The service was very slow and I was dissatisfied."));
    assert!(response.contains("The quality was not good for the price."));
    assert!(response.contains("The staff were polite and I was able to shop comfortably."));
    assert!(response.contains("The wait time was too long and I was tired."));
}

#[test]
fn zero_shot_twice_is_idempotent() {
    let usecase = PromptUsecaseImpl::new(DummyOpenAIImpl::new());
    let first = usecase.zero_shot().expect("the stand-in always succeeds");
    let second = usecase.zero_shot().expect("the stand-in always succeeds");
    assert_eq!(first, second);
}

#[test]
fn dummy_prompt_usecase_returns_empty_responses() {
    let usecase = DummyPromptUsecaseImpl::new();
    assert_eq!(usecase.zero_shot().expect("always succeeds"), "");
    assert_eq!(usecase.few_shot().expect("always succeeds"), "");
}

#[test]
fn templates_carry_their_fixed_text() {
    assert!(zero_shot_prompt().contains("What are the top 10 Python libraries for AI?"));
    let few = few_shot_prompt();
    assert!(few.contains("Please classify the emotion (positive or negative)"));
    assert!(few.contains("This movie was great!"));
    assert!(few.ends_with("Emotion:\n        "));
}

#[test]
fn display_line_frames_response() {
    assert_eq!(agent_display_line("hi"), "Agent: hi");
    assert_eq!(agent_display_line(""), "Agent: ");
}

#[test]
fn mode_names_map_to_strategies() {
    assert_eq!(parse_mode("zero-shot"), Some(UseCaseMode::ZeroShot));
    assert_eq!(parse_mode("few-shot"), Some(UseCaseMode::FewShot));
    assert_eq!(parse_mode("one-shot"), None);
    assert_eq!(parse_mode(""), None);
}

#[test]
fn app_carries_resolved_selectors() {
    let app = App {
        tool: "openai".to_string(),
        model: "gpt-4o-mini".to_string(),
        embedding_model: "text-embedding-ada-002".to_string(),
        command: SubCommand::Prompt { mode: "zero-shot".to_string() },
    };
    assert_eq!(app.command.use_case_mode(), Some(UseCaseMode::ZeroShot));
    assert_eq!(app.tool, "openai");
}

#[test]
fn subcommands_select_their_mode() {
    let basic = SubCommand::Basic { question: "Who are you?".to_string() };
    assert_eq!(basic.use_case_mode(), Some(UseCaseMode::Basic));
    let prompt = SubCommand::Prompt { mode: "few-shot".to_string() };
    assert_eq!(prompt.use_case_mode(), Some(UseCaseMode::FewShot));
    let bad = SubCommand::Prompt { mode: "chain".to_string() };
    assert_eq!(bad.use_case_mode(), None);
}
