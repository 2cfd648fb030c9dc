use unified_generations::config::{
    default_anthropic_version, default_plan_base_url, default_tts_resource_id, default_tts_url,
};
use unified_generations::{
    arkcli_config_path, arkcli_dir, masked_api_key, validate_api_key, AgentPlanConfig, AgentPlanEnv,
    AgentPlanError, ArkCliConfig, DEFAULT_ANTHROPIC_VERSION, DEFAULT_PLAN_BASE_URL,
    DEFAULT_TTS_RESOURCE_ID, DEFAULT_TTS_URL,
};

fn no_env() -> AgentPlanEnv {
    AgentPlanEnv {
        doubao_api_key: None,
        ark_api_key: None,
        base_url: None,
        tts_url: None,
        tts_resource_id: None,
        anthropic_version: None,
    }
}

#[test]
fn defaults_are_the_documented_endpoints() {
    assert_eq!(default_plan_base_url(), "https://ark.cn-beijing.volces.com/api/plan");
    assert_eq!(default_tts_url(), "https://openspeech.bytedance.com/api/v3/plan/tts/unidirectional");
    assert_eq!(default_tts_resource_id(), "seed-tts-2.0");
    assert_eq!(default_anthropic_version(), "2023-06-01");
    let c = ArkCliConfig::new("ark-1".to_string());
    assert_eq!(c.api_key, "ark-1");
    assert_eq!(c.plan_base_url, DEFAULT_PLAN_BASE_URL);
    assert_eq!(c.tts_url, DEFAULT_TTS_URL);
    assert_eq!(c.tts_resource_id, DEFAULT_TTS_RESOURCE_ID);
    assert_eq!(c.anthropic_version, DEFAULT_ANTHROPIC_VERSION);
    let a = AgentPlanConfig::new("k".to_string());
    assert_eq!(a.plan_base_url, DEFAULT_PLAN_BASE_URL);
    assert_eq!(a.tts_url, DEFAULT_TTS_URL);
    assert_eq!(a.tts_resource_id, DEFAULT_TTS_RESOURCE_ID);
    assert_eq!(a.anthropic_version, DEFAULT_ANTHROPIC_VERSION);
}

#[test]
fn from_env_reads_either_key_variable() {
    assert!(matches!(AgentPlanConfig::from_env(&no_env()), Err(AgentPlanError::MissingApiKey)));
    let mut env = no_env();
    env.ark_api_key = Some("ark".to_string());
    assert_eq!(AgentPlanConfig::from_env(&env).unwrap().api_key, "ark");
    env.doubao_api_key = Some("doubao".to_string());
    env.base_url = Some("http://ignored".to_string());
    let c = AgentPlanConfig::from_env(&env).unwrap();
    assert_eq!(c.api_key, "doubao");
    assert_eq!(c.plan_base_url, DEFAULT_PLAN_BASE_URL);
}

#[test]
fn from_sources_follows_precedence() {
    let mut file = ArkCliConfig::new("file-key".to_string());
    file.plan_base_url = "http://file".to_string();
    let c = AgentPlanConfig::from_sources(None, Some(file.clone()), &no_env()).unwrap();
    assert_eq!(c.api_key, "file-key");
    assert_eq!(c.plan_base_url, "http://file");
    assert_eq!(c.anthropic_version, DEFAULT_ANTHROPIC_VERSION);

    let mut env = no_env();
    env.ark_api_key = Some("env-key".to_string());
    env.anthropic_version = Some("2099-01-01".to_string());
    let c = AgentPlanConfig::from_sources(None, Some(file.clone()), &env).unwrap();
    assert_eq!(c.api_key, "env-key");
    assert_eq!(c.plan_base_url, "http://file");
    assert_eq!(c.anthropic_version, "2099-01-01");

    let c = AgentPlanConfig::from_sources(Some("cli-key".to_string()), Some(file), &env).unwrap();
    assert_eq!(c.api_key, "cli-key");

    let c = AgentPlanConfig::from_sources(Some("cli-key".to_string()), None, &no_env()).unwrap();
    assert_eq!(c.plan_base_url, DEFAULT_PLAN_BASE_URL);
}

#[test]
fn from_sources_refuses_missing_or_blank_key() {
    assert!(matches!(AgentPlanConfig::from_sources(None, None, &no_env()), Err(AgentPlanError::MissingApiKey)));
    let file = ArkCliConfig::new("   ".to_string());
    assert!(matches!(
        AgentPlanConfig::from_sources(None, Some(file), &no_env()),
        Err(AgentPlanError::MissingApiKey)
    ));
    assert!(matches!(
        AgentPlanConfig::from_sources(Some("\n".to_string()), None, &no_env()),
        Err(AgentPlanError::MissingApiKey)
    ));
}

#[test]
fn validate_api_key_refuses_blank_keys() {
    assert!(validate_api_key("ark-1").is_ok());
    assert!(matches!(validate_api_key(""), Err(AgentPlanError::MissingApiKey)));
    assert!(matches!(validate_api_key(" \u{a0}\u{2003}"), Err(AgentPlanError::MissingApiKey)));
}

#[test]
fn config_path_is_under_home() {
    assert!(matches!(arkcli_dir(None), Err(AgentPlanError::MissingHome)));
    assert!(matches!(arkcli_config_path(None), Err(AgentPlanError::MissingHome)));
    assert_eq!(arkcli_dir(Some("/home/u".to_string())).unwrap(), "/home/u/.arkcli");
    assert_eq!(
        arkcli_config_path(Some("/home/u".to_string())).unwrap(),
        "/home/u/.arkcli/config.toml"
    );
    assert_eq!(arkcli_config_path(Some("/root/".to_string())).unwrap(), "/root/.arkcli/config.toml");
}

#[test]
fn masks_api_keys() {
    assert_eq!(masked_api_key("short"), "********");
    assert_eq!(masked_api_key("  0123456789  "), "********");
    assert_eq!(masked_api_key("ark-0123456789abcd"), "ark-01...abcd");
    assert_eq!(masked_api_key(" ark-0123456789abcd\n"), "ark-01...abcd");
    assert_eq!(masked_api_key("01234567890"), "012345...7890");
}

#[test]
fn speech_settings_follow_precedence() {
    let c = AgentPlanConfig::from_sources(Some("k".to_string()), None, &no_env()).unwrap();
    assert_eq!(c.tts_url, DEFAULT_TTS_URL);
    assert_eq!(c.tts_resource_id, DEFAULT_TTS_RESOURCE_ID);

    let mut file = ArkCliConfig::new("file-key".to_string());
    file.tts_url = "http://file-tts".to_string();
    file.tts_resource_id = "file-resource".to_string();
    let c = AgentPlanConfig::from_sources(None, Some(file.clone()), &no_env()).unwrap();
    assert_eq!(c.tts_url, "http://file-tts");
    assert_eq!(c.tts_resource_id, "file-resource");

    let mut env = no_env();
    env.tts_url = Some("http://env-tts".to_string());
    let c = AgentPlanConfig::from_sources(None, Some(file.clone()), &env).unwrap();
    assert_eq!(c.tts_url, "http://env-tts");
    assert_eq!(c.tts_resource_id, "file-resource");

    env.tts_resource_id = Some("env-resource".to_string());
    let c = AgentPlanConfig::from_sources(None, Some(file), &env).unwrap();
    assert_eq!(c.tts_url, "http://env-tts");
    assert_eq!(c.tts_resource_id, "env-resource");
}

#[test]
fn from_env_keeps_default_speech_settings() {
    let mut env = no_env();
    env.ark_api_key = Some("ark".to_string());
    env.tts_url = Some("http://ignored".to_string());
    let c = AgentPlanConfig::from_env(&env).unwrap();
    assert_eq!(c.tts_url, DEFAULT_TTS_URL);
    assert_eq!(c.tts_resource_id, DEFAULT_TTS_RESOURCE_ID);
}
