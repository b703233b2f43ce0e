use voxput::config::{
    apply_file_config, AudioConfig, FileConfig, GroqConfig, OutputConfig, ProvidersConfig,
    ResolvedConfig,
};
use voxput::errors::VoxputError;

fn base() -> ResolvedConfig {
    ResolvedConfig {
        api_key_env: "GROQ_API_KEY".to_string(),
        api_key: None,
        model: None,
        provider: "groq".to_string(),
        device: None,
        sample_rate: 16000,
        output_target: "stdout".to_string(),
    }
}

fn empty_file() -> FileConfig {
    FileConfig {
        provider: None,
        providers: ProvidersConfig { groq: None },
        audio: AudioConfig { device: None, sample_rate: None },
        output: OutputConfig { target: None },
    }
}

#[test]
fn default_config_has_sensible_values() {
    let cfg = ResolvedConfig {
        api_key_env: "GROQ_API_KEY".to_string(),
        api_key: None,
        model: None,
        provider: "groq".to_string(),
        device: None,
        sample_rate: 16000,
        output_target: "stdout".to_string(),
    };
    assert_eq!(cfg.provider, "groq");
    assert_eq!(cfg.sample_rate, 16000);
    assert_eq!(cfg.output_target, "stdout");
}

#[test]
fn built_in_defaults() {
    let cfg = ResolvedConfig::default();
    assert_eq!(cfg.api_key_env, "GROQ_API_KEY");
    assert_eq!(cfg.provider, "groq");
    assert_eq!(cfg.sample_rate, 16000);
    assert_eq!(cfg.output_target, "stdout");
    assert!(cfg.api_key.is_none() && cfg.model.is_none() && cfg.device.is_none());
}

#[test]
fn api_key_resolved_from_field() {
    let cfg = ResolvedConfig { api_key: Some("my-key".to_string()), ..base() };
    assert_eq!(cfg.api_key(None).unwrap(), "my-key");
}

#[test]
fn api_key_missing_returns_error() {
    // The variable is unset, so the caller passes no value for it.
    let cfg = ResolvedConfig { api_key_env: "VOXPUT_TEST_MISSING_KEY_XYZ".to_string(), ..base() };
    let err = cfg.api_key(None).expect_err("should fail on missing key");
    assert!(err.message().contains("VOXPUT_TEST_MISSING_KEY_XYZ"));
}

#[test]
fn api_key_taken_from_environment_value() {
    let cfg = base();
    assert_eq!(cfg.api_key(Some("env-key".to_string())).unwrap(), "env-key");
    let held = ResolvedConfig { api_key: Some("file-key".to_string()), ..base() };
    assert_eq!(held.api_key(Some("env-key".to_string())).unwrap(), "file-key");
}

#[test]
fn apply_file_config_overrides_defaults() {
    let mut resolved = base();
    // [providers.groq] model = "whisper-large-v3"; [audio] sample_rate = 8000
    let file = FileConfig {
        providers: ProvidersConfig {
            groq: Some(GroqConfig {
                api_key_env: None,
                api_key: None,
                model: Some("whisper-large-v3".to_string()),
            }),
        },
        audio: AudioConfig { device: None, sample_rate: Some(8000) },
        ..empty_file()
    };
    apply_file_config(&mut resolved, &file);
    assert_eq!(resolved.model.as_deref(), Some("whisper-large-v3"));
    assert_eq!(resolved.sample_rate, 8000);
}

#[test]
fn apply_file_config_ignores_empty_key_and_keeps_unset_fields() {
    let mut resolved = ResolvedConfig { api_key: Some("old".to_string()), ..base() };
    let file = FileConfig {
        provider: Some("other".to_string()),
        providers: ProvidersConfig {
            groq: Some(GroqConfig {
                api_key_env: Some("MY_KEY".to_string()),
                api_key: Some(String::new()),
                model: None,
            }),
        },
        audio: AudioConfig { device: Some("mic".to_string()), sample_rate: None },
        output: OutputConfig { target: Some("both".to_string()) },
    };
    apply_file_config(&mut resolved, &file);
    assert_eq!(resolved.provider, "other");
    assert_eq!(resolved.api_key_env, "MY_KEY");
    assert_eq!(resolved.api_key.as_deref(), Some("old"));
    assert_eq!(resolved.model, None);
    assert_eq!(resolved.device.as_deref(), Some("mic"));
    assert_eq!(resolved.sample_rate, 16000);
    assert_eq!(resolved.output_target, "both");
}

#[test]
fn empty_file_changes_nothing() {
    let mut resolved = base();
    apply_file_config(&mut resolved, &empty_file());
    assert_eq!(resolved.provider, "groq");
    assert_eq!(resolved.api_key_env, "GROQ_API_KEY");
    assert_eq!(resolved.sample_rate, 16000);
}

#[test]
fn environment_overrides_skip_empty_values() {
    let mut cfg = ResolvedConfig { model: Some("m1".to_string()), ..base() };
    cfg.apply_env_overrides(Some(String::new()), Some("m2".to_string()));
    assert_eq!(cfg.api_key, None);
    assert_eq!(cfg.model.as_deref(), Some("m2"));
    cfg.apply_env_overrides(Some("k".to_string()), Some(String::new()));
    assert_eq!(cfg.api_key.as_deref(), Some("k"));
    assert_eq!(cfg.model.as_deref(), Some("m2"));
}

#[test]
fn error_messages() {
    assert_eq!(VoxputError::Audio("x".to_string()).message(), "Audio error: x");
    assert_eq!(VoxputError::NoDevice.message(), "No audio input device available");
    assert_eq!(
        VoxputError::Provider("p".to_string()).message(),
        "Transcription provider error: p"
    );
    assert_eq!(
        VoxputError::MissingApiKey { env_var: "K".to_string() }.message(),
        "API key not found: set K or add to ~/.config/voxput/config.toml"
    );
    assert_eq!(VoxputError::Config("c".to_string()).message(), "Configuration error: c");
    assert_eq!(VoxputError::Output("o".to_string()).message(), "Output error: o");
    assert_eq!(VoxputError::Io("disk".to_string()).message(), "disk");
    assert_eq!(VoxputError::Http("net".to_string()).message(), "net");
    assert_eq!(VoxputError::Json("bad".to_string()).message(), "bad");
}
