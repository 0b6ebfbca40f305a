use codex_http_server::config::{
    apply_ollama_override, parse_approval_policy, resolve, ApprovalPolicy, ConfigError,
    EnvOverrides, FileConfig, FileLoad, ModelProvider, ResolvedConfig,
};

fn no_env() -> EnvOverrides {
    EnvOverrides {
        model: None,
        model_provider: None,
        approval_policy: None,
        ollama_base_url: None,
    }
}

fn empty_file_config() -> FileConfig {
    FileConfig {
        model: None,
        model_provider_id: None,
        approval_policy: None,
        base_url: None,
    }
}

#[test]
fn parse_approval_policy_recognizes_the_four_literals() {
    assert_eq!(parse_approval_policy("never"), Some(ApprovalPolicy::Never));
    assert_eq!(parse_approval_policy("auto-edit"), Some(ApprovalPolicy::AutoEdit));
    assert_eq!(
        parse_approval_policy("unless-allow-listed"),
        Some(ApprovalPolicy::UnlessAllowListed)
    );
    assert_eq!(parse_approval_policy("on-failure"), Some(ApprovalPolicy::OnFailure));
}

#[test]
fn parse_approval_policy_rejects_everything_else() {
    assert_eq!(parse_approval_policy("bogus"), None);
    assert_eq!(parse_approval_policy(""), None);
    assert_eq!(parse_approval_policy("Never"), None);
    assert_eq!(parse_approval_policy("on-failure "), None);
}

#[test]
fn resolve_with_no_overrides_yields_defaults_and_injected_cwd() {
    let config = resolve(FileLoad::Absent, no_env(), Some("/work".to_string())).unwrap();
    assert_eq!(config.model, "o4-mini");
    assert_eq!(config.model_provider_id, "openai");
    assert_eq!(config.approval_policy, ApprovalPolicy::OnFailure);
    assert_eq!(config.model_provider.base_url, "https://api.openai.com/v1");
    assert_eq!(config.cwd, "/work");
}

#[test]
fn env_approval_policy_on_failure_overrides_file_value() {
    let file = FileConfig {
        approval_policy: Some(ApprovalPolicy::Never),
        ..empty_file_config()
    };
    let env = EnvOverrides {
        approval_policy: Some("on-failure".to_string()),
        ..no_env()
    };
    let config = resolve(FileLoad::Parsed(file), env, Some("/".to_string())).unwrap();
    assert_eq!(config.approval_policy, ApprovalPolicy::OnFailure);
}

#[test]
fn env_approval_policy_bogus_leaves_prior_value_without_error() {
    let file = FileConfig {
        approval_policy: Some(ApprovalPolicy::AutoEdit),
        ..empty_file_config()
    };
    let env = EnvOverrides {
        approval_policy: Some("bogus".to_string()),
        ..no_env()
    };
    let config = resolve(FileLoad::Parsed(file), env, Some("/".to_string())).unwrap();
    assert_eq!(config.approval_policy, ApprovalPolicy::AutoEdit);

    // Without a file value the prior value is the built-in default.
    let env = EnvOverrides {
        approval_policy: Some("bogus".to_string()),
        ..no_env()
    };
    let config = resolve(FileLoad::Absent, env, Some("/".to_string())).unwrap();
    assert_eq!(config.approval_policy, ApprovalPolicy::OnFailure);
}

#[test]
fn env_model_and_provider_override_file_and_defaults() {
    let file = FileConfig {
        model: Some("file-model".to_string()),
        model_provider_id: Some("file-provider".to_string()),
        ..empty_file_config()
    };
    let env = EnvOverrides {
        model: Some("env-model".to_string()),
        model_provider: Some("env-provider".to_string()),
        ..no_env()
    };
    let config = resolve(FileLoad::Parsed(file), env, Some("/".to_string())).unwrap();
    assert_eq!(config.model, "env-model");
    assert_eq!(config.model_provider_id, "env-provider");

    let file = FileConfig {
        model: Some("file-model".to_string()),
        ..empty_file_config()
    };
    let config = resolve(FileLoad::Parsed(file), no_env(), Some("/".to_string())).unwrap();
    assert_eq!(config.model, "file-model");
    assert_eq!(config.model_provider_id, "openai");
}

#[test]
fn ollama_base_url_applies_only_to_ollama_provider() {
    // Resolved provider is "openai": the override must not touch the URL.
    let env = EnvOverrides {
        ollama_base_url: Some("http://elsewhere:9999".to_string()),
        ..no_env()
    };
    let config = resolve(FileLoad::Absent, env, Some("/".to_string())).unwrap();
    assert_eq!(config.model_provider_id, "openai");
    assert_eq!(config.model_provider.base_url, "https://api.openai.com/v1");

    // Resolved provider is "ollama": the override replaces the URL.
    let env = EnvOverrides {
        model_provider: Some("ollama".to_string()),
        ollama_base_url: Some("http://elsewhere:9999".to_string()),
        ..no_env()
    };
    let config = resolve(FileLoad::Absent, env, Some("/".to_string())).unwrap();
    assert_eq!(config.model_provider.base_url, "http://elsewhere:9999");

    // Without the variable, the ollama provider keeps its built-in URL.
    let env = EnvOverrides {
        model_provider: Some("ollama".to_string()),
        ..no_env()
    };
    let config = resolve(FileLoad::Absent, env, Some("/".to_string())).unwrap();
    assert_eq!(config.model_provider.base_url, "http://localhost:11434/v1");
}

#[test]
fn apply_ollama_override_constructs_new_provider_only_for_ollama() {
    let base = ResolvedConfig {
        model: "m".to_string(),
        model_provider_id: "openai".to_string(),
        model_provider: ModelProvider {
            base_url: "https://api.openai.com/v1".to_string(),
        },
        approval_policy: ApprovalPolicy::Never,
        cwd: "/".to_string(),
    };
    let out = apply_ollama_override(base, Some("http://o:1".to_string()));
    assert_eq!(out.model_provider.base_url, "https://api.openai.com/v1");

    let base = ResolvedConfig {
        model_provider_id: "ollama".to_string(),
        ..out
    };
    let out = apply_ollama_override(base, Some("http://o:1".to_string()));
    assert_eq!(out.model_provider.base_url, "http://o:1");
    assert_eq!(out.model, "m");
    assert_eq!(out.approval_policy, ApprovalPolicy::Never);
}

#[test]
fn malformed_file_is_a_config_error() {
    let r = resolve(FileLoad::Malformed, no_env(), Some("/".to_string()));
    assert_eq!(r.unwrap_err(), ConfigError::FileMalformed);
}

#[test]
fn missing_cwd_is_a_config_error() {
    let r = resolve(FileLoad::Absent, no_env(), None);
    assert_eq!(r.unwrap_err(), ConfigError::CwdUnavailable);
}

#[test]
fn file_overrides_apply_when_env_is_silent() {
    let file = FileConfig {
        model: Some("file-model".to_string()),
        model_provider_id: Some("ollama".to_string()),
        approval_policy: Some(ApprovalPolicy::UnlessAllowListed),
        base_url: Some("http://myhost:1234".to_string()),
    };
    let config = resolve(FileLoad::Parsed(file), no_env(), Some("/d".to_string())).unwrap();
    assert_eq!(config.model, "file-model");
    assert_eq!(config.model_provider_id, "ollama");
    assert_eq!(config.approval_policy, ApprovalPolicy::UnlessAllowListed);
    assert_eq!(config.model_provider.base_url, "http://myhost:1234");
    assert_eq!(config.cwd, "/d");
}
