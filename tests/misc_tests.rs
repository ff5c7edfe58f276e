use ddd_tool::{
    chat_url, clone_outcome, compute_file_hash, default_key_variable, exit_code_or_default,
    looks_like_env_var, max_tokens_or_default, needs_rotation, parse_provider, resolve_api_key,
    rotation_moves, to_hex_lower, token_count, unknown_provider_message, usage_from_counts,
    Provider,
};

#[test]
fn hash_of_hello() {
    assert_eq!(
        compute_file_hash(&b"hello".to_vec()),
        "2cf24dba5fb0a30e26e83b2ac5b9e29e1b161e5c1fa7425e73043362938b9824"
    );
    assert_eq!(
        compute_file_hash(&Vec::new()),
        "e3b0c44298fc1c149afbf4c8996fb92427ae41e4649b934ca495991b7852b855"
    );
}

#[test]
fn hex_encoding() {
    assert_eq!(to_hex_lower(&vec![0x00, 0xff, 0x1a, 0x9c]), "00ff1a9c");
    assert_eq!(to_hex_lower(&Vec::new()), "");
}

#[test]
fn env_var_names() {
    assert!(looks_like_env_var("ANTHROPIC_API_KEY"));
    assert!(looks_like_env_var("K2"));
    assert!(!looks_like_env_var(""));
    assert!(!looks_like_env_var("_KEY"));
    assert!(!looks_like_env_var("2KEY"));
    assert!(!looks_like_env_var("sk-abc"));
    assert!(!looks_like_env_var("Key"));
}

#[test]
fn api_key_resolution() {
    assert_eq!(resolve_api_key("MY_KEY", Some("secret".to_string())), Ok("secret".to_string()));
    assert_eq!(
        resolve_api_key("MY_KEY", None),
        Err("API key not found. Set the MY_KEY environment variable.".to_string())
    );
    assert_eq!(resolve_api_key("sk-direct", None), Ok("sk-direct".to_string()));
    assert_eq!(resolve_api_key("", None), Err("No API key configured.".to_string()));
}

#[test]
fn providers_and_endpoints() {
    assert_eq!(parse_provider("anthropic"), Some(Provider::Anthropic));
    assert_eq!(parse_provider("openai"), Some(Provider::OpenAi));
    assert_eq!(parse_provider("ollama"), Some(Provider::Ollama));
    assert_eq!(parse_provider("openai_compatible"), Some(Provider::OpenAiCompatible));
    assert_eq!(parse_provider("gemini"), None);
    assert_eq!(unknown_provider_message("gemini"), "Unknown provider type: gemini");
    assert_eq!(chat_url(Provider::Anthropic, None), "https://api.anthropic.com/v1/messages");
    assert_eq!(chat_url(Provider::OpenAi, Some("http://x".to_string())), "https://api.openai.com/v1/chat/completions");
    assert_eq!(chat_url(Provider::OpenAiCompatible, Some("http://x".to_string())), "http://x/v1/chat/completions");
    assert_eq!(chat_url(Provider::Ollama, None), "http://localhost:11434/api/chat");
    assert_eq!(default_key_variable(Provider::Anthropic), Some("ANTHROPIC_API_KEY"));
    assert_eq!(default_key_variable(Provider::OpenAiCompatible), Some("OPENAI_API_KEY"));
    assert_eq!(default_key_variable(Provider::Ollama), None);
}

#[test]
fn token_settings() {
    assert_eq!(max_tokens_or_default(None), 4096);
    assert_eq!(max_tokens_or_default(Some(12)), 12);
    assert_eq!(token_count(Some(7)), Some(7));
    assert_eq!(token_count(Some((1u64 << 32) + 5)), Some(5));
    assert_eq!(token_count(None), None);
    let u = usage_from_counts(Some(3), None);
    assert_eq!(u.input_tokens, Some(3));
    assert_eq!(u.output_tokens, None);
}

#[test]
fn log_rotation_plan() {
    assert_eq!(rotation_moves(5), vec![(3, 4), (2, 3), (1, 2), (0, 1)]);
    assert_eq!(rotation_moves(1), Vec::<(u32, u32)>::new());
    assert_eq!(rotation_moves(0), Vec::<(u32, u32)>::new());
    assert!(needs_rotation(Some(100), 100));
    assert!(!needs_rotation(Some(99), 100));
    assert!(!needs_rotation(None, 0));
}

#[test]
fn process_outcomes() {
    assert_eq!(clone_outcome(true, "noise"), Ok(()));
    assert_eq!(clone_outcome(false, "  fatal: no repo \n"), Err("Clone failed: fatal: no repo".to_string()));
    assert_eq!(exit_code_or_default(Some(3)), 3);
    assert_eq!(exit_code_or_default(None), -1);
}

#[test]
fn clone_failure_text() {
    assert_eq!(ddd_tool::clone_failure_message("denied"), "Clone failed: denied");
    assert_eq!(ddd_tool::clone_failure_message(""), "Clone failed: ");
}
