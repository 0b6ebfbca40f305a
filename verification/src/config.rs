//! Configuration resolution: defaults, on-disk settings and environment
//! overrides are merged into one immutable configuration per request.

use vstd::prelude::*;
use crate::text::str_eq;

verus! {

/// How the agent asks for approval before acting.
#[derive(Clone, Copy, Debug, PartialEq, Eq, Structural)]
pub enum ApprovalPolicy {
    Never,
    AutoEdit,
    UnlessAllowListed,
    OnFailure,
}

/// Connection parameters of a model provider.
#[derive(Clone, Debug)]
pub struct ModelProvider {
    pub base_url: String,
}

/// Why configuration resolution failed; fatal to the request.
#[derive(Clone, Copy, Debug, PartialEq, Eq, Structural)]
pub enum ConfigError {
    /// The on-disk configuration file exists but could not be parsed.
    FileMalformed,
    /// The working directory could not be determined.
    CwdUnavailable,
}

/// Field-by-field overrides read from the on-disk configuration file.
#[derive(Clone, Debug)]
pub struct FileConfig {
    pub model: Option<String>,
    pub model_provider_id: Option<String>,
    pub approval_policy: Option<ApprovalPolicy>,
    pub base_url: Option<String>,
}

/// Outcome of loading the on-disk configuration file. A missing file is
/// not an error; a file that fails to parse is.
#[derive(Clone, Debug)]
pub enum FileLoad {
    Absent,
    Parsed(FileConfig),
    Malformed,
}

/// The raw environment-variable overrides, read once per request.
#[derive(Clone, Debug)]
pub struct EnvOverrides {
    pub model: Option<String>,
    pub model_provider: Option<String>,
    pub approval_policy: Option<String>,
    pub ollama_base_url: Option<String>,
}

/// The final, immutable runtime configuration of one request.
#[derive(Clone, Debug)]
pub struct ResolvedConfig {
    pub model: String,
    pub model_provider_id: String,
    pub model_provider: ModelProvider,
    pub approval_policy: ApprovalPolicy,
    pub cwd: String,
}

/// The built-in default model identifier.
pub open spec fn spec_default_model() -> Seq<char> {
    "o4-mini"@
}

/// The built-in default provider identifier.
pub open spec fn spec_default_provider_id() -> Seq<char> {
    "openai"@
}

/// The built-in default approval policy, in force until a file or
/// environment override replaces it.
pub open spec fn spec_default_policy() -> ApprovalPolicy {
    ApprovalPolicy::OnFailure
}

/// The built-in base URL of a provider, by its identifier.
pub open spec fn spec_builtin_base_url(provider_id: Seq<char>) -> Seq<char> {
    if provider_id == "ollama"@ {
        "http://localhost:11434/v1"@
    } else {
        "https://api.openai.com/v1"@
    }
}

pub open spec fn spec_parse_approval_policy(s: Seq<char>) -> Option<ApprovalPolicy> {
    if s == "never"@ {
        Some(ApprovalPolicy::Never)
    } else if s == "auto-edit"@ {
        Some(ApprovalPolicy::AutoEdit)
    } else if s == "unless-allow-listed"@ {
        Some(ApprovalPolicy::UnlessAllowListed)
    } else if s == "on-failure"@ {
        Some(ApprovalPolicy::OnFailure)
    } else {
        None
    }
}

/// The model after file and environment overrides.
pub open spec fn spec_resolved_model(file: FileLoad, env: EnvOverrides) -> Seq<char> {
    match env.model {
        Some(m) => m@,
        None => match file {
            FileLoad::Parsed(f) => match f.model {
                Some(m) => m@,
                None => spec_default_model(),
            },
            _ => spec_default_model(),
        },
    }
}

/// The provider identifier after file and environment overrides.
pub open spec fn spec_resolved_provider_id(file: FileLoad, env: EnvOverrides) -> Seq<char> {
    match env.model_provider {
        Some(p) => p@,
        None => match file {
            FileLoad::Parsed(f) => match f.model_provider_id {
                Some(p) => p@,
                None => spec_default_provider_id(),
            },
            _ => spec_default_provider_id(),
        },
    }
}

/// The approval policy after file and environment overrides. An environment
/// value that is not one of the four recognized literals leaves the prior
/// value in force; it is not an error.
pub open spec fn spec_resolved_policy(file: FileLoad, env: EnvOverrides) -> ApprovalPolicy {
    let prior = match file {
        FileLoad::Parsed(f) => match f.approval_policy {
            Some(p) => p,
            None => spec_default_policy(),
        },
        _ => spec_default_policy(),
    };
    match env.approval_policy {
        Some(s) => match spec_parse_approval_policy(s@) {
            Some(p) => p,
            None => prior,
        },
        None => prior,
    }
}

/// The provider base URL before the provider-specific post-pass.
pub open spec fn spec_prior_base_url(file: FileLoad, env: EnvOverrides) -> Seq<char> {
    match file {
        FileLoad::Parsed(f) => match f.base_url {
            Some(u) => u@,
            None => spec_builtin_base_url(spec_resolved_provider_id(file, env)),
        },
        _ => spec_builtin_base_url(spec_resolved_provider_id(file, env)),
    }
}

/// The provider base URL after the post-pass: the override applies if and
/// only if the resolved provider identifier is "ollama" and the override
/// variable is present.
pub open spec fn spec_resolved_base_url(file: FileLoad, env: EnvOverrides) -> Seq<char> {
    match env.ollama_base_url {
        Some(u) => if spec_resolved_provider_id(file, env) == "ollama"@ {
            u@
        } else {
            spec_prior_base_url(file, env)
        },
        None => spec_prior_base_url(file, env),
    }
}

/// Law: a recognized approval-policy override decides the resolved policy;
/// an unrecognized one leaves the prior (default or file) value unchanged
/// and raises no error, exactly as if the variable were unset.
pub proof fn lemma_approval_policy_override(file: FileLoad, env: EnvOverrides)
    ensures
        env.approval_policy matches Some(s) ==> {
            &&& spec_parse_approval_policy(s@) matches Some(p) ==> spec_resolved_policy(file, env)
                == p
            &&& spec_parse_approval_policy(s@) is None ==> spec_resolved_policy(file, env)
                == spec_resolved_policy(file, EnvOverrides { approval_policy: None, ..env })
        },
{
}

/// Law: the base-URL override applies only when the resolved provider
/// identifier is "ollama": with any other provider the base URL is what it
/// would have been without the override; with "ollama" and the variable
/// present it is the variable's value.
pub proof fn lemma_ollama_override_scoped(file: FileLoad, env: EnvOverrides)
    ensures
        spec_resolved_provider_id(file, env) != "ollama"@ ==> spec_resolved_base_url(file, env)
            == spec_prior_base_url(file, env),
        env.ollama_base_url matches Some(u) ==> (spec_resolved_provider_id(file, env) == "ollama"@
            ==> spec_resolved_base_url(file, env) == u@),
{
}

/// Recognize an approval-policy override. Exactly the four literal strings
/// are accepted; every other value yields no override.
pub fn parse_approval_policy(s: &str) -> (r: Option<ApprovalPolicy>)
    ensures
        r == spec_parse_approval_policy(s@),
{
    if str_eq(s, "never") {
        Some(ApprovalPolicy::Never)
    } else if str_eq(s, "auto-edit") {
        Some(ApprovalPolicy::AutoEdit)
    } else if str_eq(s, "unless-allow-listed") {
        Some(ApprovalPolicy::UnlessAllowListed)
    } else if str_eq(s, "on-failure") {
        Some(ApprovalPolicy::OnFailure)
    } else {
        None
    }
}

/// The built-in base URL for a provider identifier.
pub fn builtin_base_url(provider_id: &str) -> (r: String)
    ensures
        r@ == spec_builtin_base_url(provider_id@),
{
    if str_eq(provider_id, "ollama") {
        "http://localhost:11434/v1".to_owned()
    } else {
        "https://api.openai.com/v1".to_owned()
    }
}

/// The provider-specific post-pass: replace the provider's base URL if and
/// only if the resolved provider identifier is "ollama" and an override URL
/// is present. Every other provider keeps its base URL untouched. A new
/// provider value is constructed; the rest of the configuration is returned
/// unchanged.
pub fn apply_ollama_override(config: ResolvedConfig, ollama_base_url: Option<String>) -> (r: ResolvedConfig)
    ensures
        r.model == config.model,
        r.model_provider_id == config.model_provider_id,
        r.approval_policy == config.approval_policy,
        r.cwd == config.cwd,
        (config.model_provider_id@ == "ollama"@ && ollama_base_url is Some)
            ==> r.model_provider.base_url == ollama_base_url->0,
        !(config.model_provider_id@ == "ollama"@ && ollama_base_url is Some)
            ==> r.model_provider == config.model_provider,
{
    match ollama_base_url {
        Some(url) => {
            if str_eq(config.model_provider_id.as_str(), "ollama") {
                ResolvedConfig {
                    model_provider: ModelProvider { base_url: url },
                    ..config
                }
            } else {
                config
            }
        },
        None => config,
    }
}

/// Merge built-in defaults, the on-disk configuration and the environment
/// overrides into one configuration. Later sources override earlier ones,
/// field by field; the working directory is always injected. Resolution
/// fails exactly when the on-disk file is malformed or the working
/// directory is unavailable.
pub fn resolve(file: FileLoad, env: EnvOverrides, cwd: Option<String>) -> (r: Result<ResolvedConfig, ConfigError>)
    ensures
        r is Err <==> (file is Malformed || cwd is None),
        file is Malformed ==> r == Err::<ResolvedConfig, ConfigError>(ConfigError::FileMalformed),
        (!(file is Malformed) && cwd is None)
            ==> r == Err::<ResolvedConfig, ConfigError>(ConfigError::CwdUnavailable),
        r matches Ok(c) ==> {
            &&& c.model@ == spec_resolved_model(file, env)
            &&& c.model_provider_id@ == spec_resolved_provider_id(file, env)
            &&& c.approval_policy == spec_resolved_policy(file, env)
            &&& c.model_provider.base_url@ == spec_resolved_base_url(file, env)
            &&& cwd matches Some(w) && c.cwd == w
        },
{
    let file_config = match file {
        FileLoad::Absent => FileConfig {
            model: None,
            model_provider_id: None,
            approval_policy: None,
            base_url: None,
        },
        FileLoad::Parsed(f) => f,
        FileLoad::Malformed => {
            return Err(ConfigError::FileMalformed);
        },
    };
    let cwd = match cwd {
        Some(w) => w,
        None => {
            return Err(ConfigError::CwdUnavailable);
        },
    };
    let model = match env.model {
        Some(m) => m,
        None => match file_config.model {
            Some(m) => m,
            None => "o4-mini".to_owned(),
        },
    };
    let model_provider_id = match env.model_provider {
        Some(p) => p,
        None => match file_config.model_provider_id {
            Some(p) => p,
            None => "openai".to_owned(),
        },
    };
    let approval_policy = match env.approval_policy {
        Some(s) => match parse_approval_policy(s.as_str()) {
            Some(p) => p,
            None => match file_config.approval_policy {
                Some(p) => p,
                None => ApprovalPolicy::OnFailure,
            },
        },
        None => match file_config.approval_policy {
            Some(p) => p,
            None => ApprovalPolicy::OnFailure,
        },
    };
    let base_url = match file_config.base_url {
        Some(u) => u,
        None => builtin_base_url(model_provider_id.as_str()),
    };
    let config = ResolvedConfig {
        model,
        model_provider_id,
        model_provider: ModelProvider { base_url },
        approval_policy,
        cwd,
    };
    Ok(apply_ollama_override(config, env.ollama_base_url))
}

} // verus!
