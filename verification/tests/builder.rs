use pywatt_sdk::app_state::{AppState, AppStateBuilder, SecretClient};
use pywatt_sdk::error::ConfigError;
use std::sync::Arc;

#[derive(Clone, Debug, PartialEq, Eq)]
struct CustomState(String);

#[test]
fn build_success_when_all_fields_set() {
    let custom_state = CustomState("state-val".to_string());
    let client = Arc::new(SecretClient::new_dummy());
    let app_state: AppState<CustomState> = AppStateBuilder::new()
        .with_module_id("mod1".to_string())
        .with_orchestrator_api("http://localhost:9900".to_string())
        .with_secret_client(client.clone())
        .with_custom(custom_state.clone())
        .build()
        .unwrap();
    assert_eq!(app_state.module_id(), "mod1");
    assert_eq!(app_state.orchestrator_api(), "http://localhost:9900");
    assert!(
        Arc::ptr_eq(app_state.secret_client(), &client),
        "SecretClient Arc should be the same instance"
    );
    assert_eq!(app_state.user_state, custom_state);
}

#[test]
fn missing_module_id_returns_error() {
    let custom_state = CustomState("state-val".to_string());
    let client = Arc::new(SecretClient::new_dummy());
    let err = AppStateBuilder::new()
        .with_orchestrator_api("http://localhost:9900".to_string())
        .with_secret_client(client.clone())
        .with_custom(custom_state.clone())
        .build()
        .unwrap_err();
    assert_eq!(err, ConfigError::MissingEnvVar("module_id".to_string()));
}

#[test]
fn missing_orchestrator_api_returns_error() {
    let custom_state = CustomState("state-val".to_string());
    let client = Arc::new(SecretClient::new_dummy());
    let err = AppStateBuilder::new()
        .with_module_id("mod1".to_string())
        .with_secret_client(client.clone())
        .with_custom(custom_state.clone())
        .build()
        .unwrap_err();
    assert_eq!(err, ConfigError::MissingEnvVar("orchestrator_api".to_string()));
}

#[test]
fn missing_secret_client_returns_error() {
    let custom_state = CustomState("state-val".to_string());
    let err = AppStateBuilder::new()
        .with_module_id("mod1".to_string())
        .with_orchestrator_api("http://localhost:9900".to_string())
        .with_custom(custom_state.clone())
        .build()
        .unwrap_err();
    assert_eq!(err, ConfigError::MissingEnvVar("secret_client".to_string()));
}

#[test]
fn missing_user_state_returns_error() {
    let client = Arc::new(SecretClient::new_dummy());
    let err = AppStateBuilder::<CustomState>::new()
        .with_module_id("mod1".to_string())
        .with_orchestrator_api("http://localhost:9900".to_string())
        .with_secret_client(client.clone())
        .build()
        .unwrap_err();
    assert_eq!(err, ConfigError::MissingEnvVar("user_state".to_string()));
}

#[test]
fn try_build_alias_behaves_like_build() {
    let custom_state = CustomState("state-val".to_string());
    let client = Arc::new(SecretClient::new_dummy());
    let result_build = AppStateBuilder::new()
        .with_module_id("mod1".to_string())
        .with_orchestrator_api("http://localhost:9900".to_string())
        .with_secret_client(client.clone())
        .with_custom(custom_state.clone())
        .build();
    let result_try = AppStateBuilder::new()
        .with_module_id("mod1".to_string())
        .with_orchestrator_api("http://localhost:9900".to_string())
        .with_secret_client(client.clone())
        .with_custom(custom_state.clone())
        .try_build();
    assert_eq!(result_build.is_ok(), result_try.is_ok());
}

#[derive(Clone)]
#[allow(dead_code)]
struct TestState {
    value: String,
}

#[test]
fn test_builder_compiles() {
    let client = Arc::new(SecretClient::new_dummy());
    let state = TestState { value: "test".to_string() };
    let _app_state = AppState::builder()
        .with_module_id("test".to_string())
        .with_orchestrator_api("http://localhost".to_string())
        .with_secret_client(client)
        .with_custom(state);
}

#[test]
fn build_reports_the_first_missing_setting() {
    let err = AppStateBuilder::<CustomState>::new().build().err().unwrap();
    assert_eq!(err, ConfigError::MissingEnvVar("module_id".to_string()));
    assert_eq!(err.message(), "missing environment variable: module_id");
    let invalid = ConfigError::Invalid("bad".to_string());
    assert_eq!(invalid.message(), "invalid configuration: bad");
}
