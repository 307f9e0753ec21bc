//! Choice and configuration of the text summarization engine, and its prompts.
use vstd::prelude::*;
use vstd::string::StringExecFns;

use crate::transcript::{trim_owned, trimmed};

verus! {

/// Where a summarizer's model comes from when none is given.
pub const MODEL_PATH: &'static str = "models/phi-3-mini-4k-instruct-q4.gguf";

/// Chat-completions endpoint of a local MLX server.
pub const DEFAULT_ENDPOINT: &'static str = "http://localhost:8080/v1/chat/completions";

/// Failures of a summarizer.
pub enum SummaryError {
    ModelNotFound(String),
    InferenceFailed(String),
    ServerUnavailable(String),
}

impl SummaryError {
    /// The human-readable message of the error.
    pub fn message(&self) -> (r: String)
        ensures
            r@ == match self {
                SummaryError::ModelNotFound(d) => "Model not found: "@ + d@,
                SummaryError::InferenceFailed(d) => "Inference failed: "@ + d@,
                SummaryError::ServerUnavailable(d) => "Server unavailable: "@ + d@,
            },
    {
        match self {
            SummaryError::ModelNotFound(d) => String::from_str("Model not found: ").concat(d.as_str()),
            SummaryError::InferenceFailed(d) => String::from_str("Inference failed: ").concat(
                d.as_str(),
            ),
            SummaryError::ServerUnavailable(d) => String::from_str("Server unavailable: ").concat(
                d.as_str(),
            ),
        }
    }
}

/// A text summarization engine.
pub trait Summarizer {
    /// Summarizes the text and returns the summary.
    fn summarize(&self, text: &str) -> Result<String, SummaryError>;
}

/// The platform class that decides the summarization engine.
pub enum Platform {
    /// macOS on Apple Silicon: an MLX server over HTTP.
    AppleSilicon,
    /// Every other platform: native llama.cpp inference.
    Other,
}

/// Which engine to build, and with what.
pub enum SummarizerChoice {
    Mlx { endpoint: String },
    LlamaCpp { model_path: String },
}

/// The message of a missing model file.
pub open spec fn missing_model_message(path: Seq<char>) -> Seq<char> {
    "Model not found at '"@ + path + "'"@
}

/// Picks the engine for the platform: MLX at the default endpoint on Apple Silicon;
/// elsewhere llama.cpp with the default model, which must be present.
pub fn create_summarizer(platform: Platform, model_present: bool) -> (r: Result<
    SummarizerChoice,
    SummaryError,
>)
    ensures
        platform is AppleSilicon ==> (r matches Ok(SummarizerChoice::Mlx { endpoint })
            && endpoint@ == DEFAULT_ENDPOINT@),
        platform is Other && model_present ==> (r matches Ok(
            SummarizerChoice::LlamaCpp { model_path },
        ) && model_path@ == MODEL_PATH@),
        platform is Other && !model_present ==> (r matches Err(SummaryError::ModelNotFound(m))
            && m@ == missing_model_message(MODEL_PATH@)),
{
    match platform {
        Platform::AppleSilicon => Ok(
            SummarizerChoice::Mlx { endpoint: String::from_str(DEFAULT_ENDPOINT) },
        ),
        Platform::Other => with_model_path(MODEL_PATH, model_present),
    }
}

/// llama.cpp with the model at `model_path`, which must be present.
pub fn with_model_path(model_path: &str, model_present: bool) -> (r: Result<
    SummarizerChoice,
    SummaryError,
>)
    ensures
        model_present ==> (r matches Ok(SummarizerChoice::LlamaCpp { model_path: p }) && p@
            == model_path@),
        !model_present ==> (r matches Err(SummaryError::ModelNotFound(m)) && m@
            == missing_model_message(model_path@)),
{
    if model_present {
        Ok(SummarizerChoice::LlamaCpp { model_path: String::from_str(model_path) })
    } else {
        let m = String::from_str("Model not found at '").concat(model_path).concat("'");
        Err(SummaryError::ModelNotFound(m))
    }
}

/// MLX at the given endpoint.
pub fn with_endpoint(endpoint: &str) -> (r: SummarizerChoice)
    ensures
        r matches SummarizerChoice::Mlx { endpoint: e } && e@ == endpoint@,
{
    SummarizerChoice::Mlx { endpoint: String::from_str(endpoint) }
}

/// The error for a failed request to the MLX server: a refused connection means the server
/// is not running; anything else is an inference failure.
pub fn request_failure(is_connect: bool, detail: &str) -> (r: SummaryError)
    ensures
        is_connect ==> (r matches SummaryError::ServerUnavailable(m) && m@
            == "MLX server not running. Start with: mlx_lm.server --model mlx-community/Phi-3-mini-4k-instruct-4bit\nError: "@
            + detail@),
        !is_connect ==> (r matches SummaryError::InferenceFailed(m) && m@ == detail@),
{
    if is_connect {
        SummaryError::ServerUnavailable(
            String::from_str(
                "MLX server not running. Start with: mlx_lm.server --model mlx-community/Phi-3-mini-4k-instruct-4bit\nError: ",
            ).concat(detail),
        )
    } else {
        SummaryError::InferenceFailed(String::from_str(detail))
    }
}

/// The error for a reply whose HTTP status is not a success.
pub fn status_failure(status: &str) -> (r: SummaryError)
    ensures
        r matches SummaryError::InferenceFailed(m) && m@ == "Server returned status: "@ + status@,
{
    SummaryError::InferenceFailed(String::from_str("Server returned status: ").concat(status))
}

/// The summary in a chat reply: the first choice's content, trimmed; a reply without
/// choices is an inference failure.
pub fn first_choice(contents: &Vec<String>) -> (r: Result<String, SummaryError>)
    ensures
        contents@.len() == 0 ==> (r matches Err(SummaryError::InferenceFailed(m)) && m@
            == "Empty response from model"@),
        contents@.len() > 0 ==> (r matches Ok(s) && s@ == trimmed(contents@[0]@)),
{
    if contents.len() == 0 {
        Err(SummaryError::InferenceFailed(String::from_str("Empty response from model")))
    } else {
        Ok(trim_owned(contents[0].as_str()))
    }
}

/// Instruction that opens every summarization prompt.
pub open spec fn instruction() -> Seq<char> {
    "Ты - помощник для суммаризации текста. Создай краткое и информативное резюме следующего текста на русском языке. Выдели ключевые моменты и основные идеи.\n\nТекст:\n"@
}

/// The prompt sent to the MLX chat endpoint.
pub fn chat_prompt(text: &str) -> (r: String)
    ensures
        r@ == instruction() + text@ + "\n\nРезюме:"@,
{
    String::from_str(
        "Ты - помощник для суммаризации текста. Создай краткое и информативное резюме следующего текста на русском языке. Выдели ключевые моменты и основные идеи.\n\nТекст:\n",
    ).concat(text).concat("\n\nРезюме:")
}

/// The prompt in the chat template of the llama.cpp model.
pub fn llama_prompt(text: &str) -> (r: String)
    ensures
        r@ == "<|user|>\n"@ + instruction() + text@ + "\n\n<|assistant|>\nРезюме:\n"@,
{
    String::from_str("<|user|>\n").concat(
        "Ты - помощник для суммаризации текста. Создай краткое и информативное резюме следующего текста на русском языке. Выдели ключевые моменты и основные идеи.\n\nТекст:\n",
    ).concat(text).concat("\n\n<|assistant|>\nРезюме:\n")
}

} // verus!
