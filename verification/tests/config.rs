use web_gpt::chat::{ChatRequest, CompletionOptions};
use web_gpt::config::{ProcessConfig, LISTEN_PORT, MAX_OUTPUT_TOKENS};

#[test]
fn process_starts_with_the_defaults() {
    let config = ProcessConfig::new();
    assert_eq!(
        config,
        ProcessConfig {
            api_key: String::new(),
            model: "gpt-4-1106-preview".to_string(),
            max_tokens: 512,
            port: 8000,
            demo_at_startup: false,
        }
    );
    assert_eq!(LISTEN_PORT, 8000);
    assert_eq!(MAX_OUTPUT_TOKENS, 512);
}

#[test]
fn startup_request_asks_the_fixed_question() {
    let request = ProcessConfig::new().startup_request();
    assert_eq!(
        request,
        ChatRequest {
            options: CompletionOptions { model: "gpt-4-1106-preview".to_string(), max_tokens: 512 },
            prompt: "how are you?".to_string(),
        }
    );
}

#[test]
fn chat_request_follows_the_configuration() {
    let config = ProcessConfig {
        api_key: "key".to_string(),
        model: "another-model".to_string(),
        max_tokens: 16,
        port: 8000,
        demo_at_startup: false,
    };
    let request = config.chat_request("why?");
    assert_eq!(request.options.model, "another-model");
    assert_eq!(request.options.max_tokens, 16);
    assert_eq!(request.prompt, "why?");
    assert_eq!(config.chat_request("").prompt, "");
}

#[test]
fn no_startup_turn_unless_asked_for() {
    let config = ProcessConfig::new();
    assert!(!config.demo_at_startup);
    assert_eq!(config.startup_turn(), None);
}

#[test]
fn startup_turn_when_asked_for() {
    let mut config = ProcessConfig::new();
    config.demo_at_startup = true;
    assert_eq!(config.startup_turn(), Some(config.startup_request()));
    assert_eq!(
        config.startup_turn(),
        Some(ChatRequest {
            options: CompletionOptions { model: "gpt-4-1106-preview".to_string(), max_tokens: 512 },
            prompt: "how are you?".to_string(),
        })
    );
}
