use assistant_core::config::Config;
use assistant_core::config::ConfigError;
use assistant_core::message::Message;
use assistant_core::message::Role;
use assistant_core::transport::classify_upstream;
use assistant_core::transport::first_choice;
use assistant_core::transport::ChatError;
use assistant_core::transport::CredentialError;
use assistant_core::transport::GroqClient;
use assistant_core::transport::CHAT_MAX_TOKENS;
use assistant_core::transport::CHAT_TEMPERATURE_MILLI;

#[test]
fn missing_credential_disables_the_client() {
    match GroqClient::new(None, None) {
        Err(CredentialError::Missing) => {}
        other => panic!("unexpected outcome: {:?}", other.map(|c| c.model)),
    }
}

#[test]
fn placeholder_credential_is_rejected() {
    match GroqClient::new(Some("your_groq_api_key_here".to_string()), None) {
        Err(CredentialError::Placeholder) => {}
        other => panic!("unexpected outcome: {:?}", other.map(|c| c.model)),
    }
}

#[test]
fn absent_model_falls_back_to_the_default() {
    let client = GroqClient::new(Some("k-123".to_string()), None).expect("client");
    assert_eq!(client.api_key, "k-123");
    assert_eq!(client.model, "llama-3.3-70b-versatile");
}

#[test]
fn configured_model_is_kept() {
    let client =
        GroqClient::new(Some("k-123".to_string()), Some("other-model".to_string())).expect("client");
    assert_eq!(client.model, "other-model");
}

#[test]
fn success_statuses_pass() {
    assert_eq!(classify_upstream(200, String::new()), Ok(()));
    assert_eq!(classify_upstream(204, String::new()), Ok(()));
    assert_eq!(classify_upstream(299, String::new()), Ok(()));
}

#[test]
fn non_success_statuses_become_upstream_errors() {
    assert_eq!(
        classify_upstream(429, "rate limited".to_string()),
        Err(ChatError::Upstream { status: 429, body: "rate limited".to_string() })
    );
    assert_eq!(
        classify_upstream(500, "boom".to_string()),
        Err(ChatError::Upstream { status: 500, body: "boom".to_string() })
    );
    assert!(classify_upstream(199, String::new()).is_err());
    assert!(classify_upstream(300, String::new()).is_err());
}

#[test]
fn empty_response_is_an_error() {
    assert_eq!(first_choice(Vec::new()), Err(ChatError::EmptyResponse));
}

#[test]
fn the_first_candidate_wins() {
    let choices = vec!["first answer".to_string(), "second answer".to_string()];
    assert_eq!(first_choice(choices), Ok("first answer".to_string()));
}

#[test]
fn call_options_match_the_provider_defaults() {
    assert_eq!(CHAT_TEMPERATURE_MILLI, 700);
    assert_eq!(CHAT_MAX_TOKENS, 1024);
}

#[test]
fn missing_secret_is_a_startup_failure() {
    match Config::new(None, Some("sqlite:x.db".to_string())) {
        Err(ConfigError::MissingSecret) => {}
        Ok(c) => panic!("a missing secret must not default, got secret {:?}", c.jwt_secret),
    }
}

#[test]
fn store_location_defaults() {
    let config = Config::new(Some("s3cret".to_string()), None).expect("config");
    assert_eq!(config.jwt_secret, "s3cret");
    assert_eq!(config.database_url, "sqlite:assistant.db");
}

#[test]
fn roles_serialize_to_the_three_literals() {
    assert_eq!(Message::system("x").role_label(), "system");
    assert_eq!(Message::user("x").role_label(), "user");
    assert_eq!(Message::assistant("x").role_label(), "assistant");
    assert_eq!(Message::user("hello").content, "hello");
    assert_eq!(Message::assistant("ok").role, Role::Assistant);
}
