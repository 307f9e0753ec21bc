use meeting_recorder::summary::{
    chat_prompt, create_summarizer, first_choice, llama_prompt, request_failure, status_failure,
    with_endpoint, with_model_path, Platform, SummarizerChoice, SummaryError, DEFAULT_ENDPOINT,
    MODEL_PATH,
};

#[test]
fn apple_silicon_uses_mlx() {
    match create_summarizer(Platform::AppleSilicon, false) {
        Ok(SummarizerChoice::Mlx { endpoint }) => assert_eq!(endpoint, DEFAULT_ENDPOINT),
        _ => panic!("expected mlx"),
    }
}

#[test]
fn other_platforms_use_llama_with_present_model() {
    match create_summarizer(Platform::Other, true) {
        Ok(SummarizerChoice::LlamaCpp { model_path }) => assert_eq!(model_path, MODEL_PATH),
        _ => panic!("expected llama.cpp"),
    }
}

#[test]
fn missing_model_is_reported() {
    match create_summarizer(Platform::Other, false) {
        Err(e @ SummaryError::ModelNotFound(_)) => assert_eq!(
            e.message(),
            "Model not found: Model not found at 'models/phi-3-mini-4k-instruct-q4.gguf'"
        ),
        _ => panic!("expected a missing model"),
    }
    match with_model_path("m.gguf", false) {
        Err(SummaryError::ModelNotFound(m)) => assert_eq!(m, "Model not found at 'm.gguf'"),
        _ => panic!("expected a missing model"),
    }
}

#[test]
fn custom_endpoint_is_kept() {
    match with_endpoint("http://h:1/x") {
        SummarizerChoice::Mlx { endpoint } => assert_eq!(endpoint, "http://h:1/x"),
        _ => panic!("expected mlx"),
    }
}

#[test]
fn error_messages() {
    assert_eq!(SummaryError::InferenceFailed("x".into()).message(), "Inference failed: x");
    assert_eq!(SummaryError::ServerUnavailable("y".into()).message(), "Server unavailable: y");
    match request_failure(true, "refused") {
        SummaryError::ServerUnavailable(m) => {
            assert!(m.starts_with("MLX server not running."));
            assert!(m.ends_with("\nError: refused"));
        }
        _ => panic!("expected server unavailable"),
    }
    assert!(matches!(request_failure(false, "t"), SummaryError::InferenceFailed(m) if m == "t"));
    assert!(matches!(status_failure("500"),
        SummaryError::InferenceFailed(m) if m == "Server returned status: 500"));
}

#[test]
fn first_choice_is_trimmed() {
    let r = first_choice(&vec!["  Итог встречи \n".to_string(), "другое".to_string()]);
    assert!(matches!(r, Ok(s) if s == "Итог встречи"));
    assert!(matches!(first_choice(&vec![]),
        Err(SummaryError::InferenceFailed(m)) if m == "Empty response from model"));
}

#[test]
fn prompts_embed_the_text() {
    let p = chat_prompt("ТЕКСТ");
    assert!(p.starts_with("Ты - помощник"));
    assert!(p.ends_with("Текст:\nТЕКСТ\n\nРезюме:"));
    let q = llama_prompt("ТЕКСТ");
    assert!(q.starts_with("<|user|>\nТы - помощник"));
    assert!(q.ends_with("Текст:\nТЕКСТ\n\n<|assistant|>\nРезюме:\n"));
}
