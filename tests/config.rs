use esscli::config::{
    config_file_path, default_config, default_deploy_request, deployment_template_path, Config,
    DeploymentSpecificConfig, OptionalTypeConfig, TypeConfig, UserConfig,
};

fn config_with(
    serverless_override: Option<OptionalTypeConfig>,
    statefull_override: Option<OptionalTypeConfig>,
) -> Config {
    Config {
        config: UserConfig::default(),
        defaults: TypeConfig { url: "D".to_string(), base_path: "DP".to_string() },
        serverless_override,
        statefull_override,
    }
}

#[test]
fn test_resolve_stateful() {
    let cfg = Config {
        config: UserConfig::default(),
        defaults: TypeConfig { url: "default-url".to_string(), base_path: "default_pat".to_string() },
        serverless_override: None,
        statefull_override: Some(OptionalTypeConfig {
            url: Some("stateful".to_string()),
            base_path: Some("stateful_path".to_string()),
            region: Some("stateful_region".to_string()),
        }),
    };

    let res = cfg.resolve_stateful();
    assert_eq!(res.base_path, String::from("stateful_path"));
    assert_eq!(res.url, String::from("stateful"));
    assert_eq!(res.region, Some(String::from("stateful_region")));
}

#[test]
fn test_resolve_serverless() {
    let cfg = Config {
        config: UserConfig::default(),
        defaults: TypeConfig { url: "default-url".to_string(), base_path: "default_pat".to_string() },
        serverless_override: Some(OptionalTypeConfig {
            url: Some("serverless".to_string()),
            base_path: Some("serverless_path".to_string()),
            region: Some("serverless_region".to_string()),
        }),
        statefull_override: None,
    };

    let res = cfg.resolve_serverless();
    assert_eq!(res.base_path, String::from("serverless_path"));
    assert_eq!(res.url, String::from("serverless"));
    assert_eq!(res.region, Some(String::from("serverless_region")));
}

#[test]
fn override_field_falls_back_to_default() {
    let over = OptionalTypeConfig { url: Some("O".to_string()), base_path: None, region: Some("R".to_string()) };
    let cfg = config_with(Some(over.clone()), Some(over));
    for res in [cfg.resolve_serverless(), cfg.resolve_stateful()] {
        assert_eq!(res.url, "O");
        assert_eq!(res.base_path, "DP");
        assert_eq!(res.region, Some("R".to_string()));
    }
}

#[test]
fn override_without_region_leaves_region_unset() {
    let over = OptionalTypeConfig { url: None, base_path: Some("OP".to_string()), region: None };
    let cfg = config_with(Some(over), None);
    let res = cfg.resolve_serverless();
    assert_eq!(res.url, "D");
    assert_eq!(res.base_path, "OP");
    assert_eq!(res.region, None);
}

#[test]
fn no_override_gives_defaults() {
    let cfg = config_with(None, None);
    for res in [cfg.resolve_serverless(), cfg.resolve_stateful()] {
        assert_eq!(res.url, "D");
        assert_eq!(res.base_path, "DP");
        assert_eq!(res.region, None);
    }
}

#[test]
fn override_of_one_mode_leaves_the_other() {
    let over = OptionalTypeConfig { url: Some("O".to_string()), base_path: Some("OP".to_string()), region: None };
    let cfg = config_with(Some(over), None);
    let res = cfg.resolve_stateful();
    assert_eq!(res.url, "D");
    assert_eq!(res.base_path, "DP");
}

#[test]
fn type_config_converts_without_region() {
    let res = DeploymentSpecificConfig::from(TypeConfig { url: "u".to_string(), base_path: "p".to_string() });
    assert_eq!(res.url, "u");
    assert_eq!(res.base_path, "p");
    assert_eq!(res.region, None);
}

#[test]
fn default_config_values() {
    let cfg = default_config();
    assert_eq!(cfg.config.project, "observability");
    assert_eq!(cfg.config.key_path, "~/.config/ess/api_key.txt");
    assert_eq!(cfg.config.default_deployment, "~/.config/ess/deployment.json");
    assert_eq!(cfg.defaults.url, "https://console.qa.cld.elstc.co");
    assert_eq!(cfg.defaults.base_path, "/api/v1/");
    assert!(cfg.statefull_override.is_none());
    let res = cfg.resolve_serverless();
    assert_eq!(res.url, "https://global.qa.cld.elstc.co");
    assert_eq!(res.base_path, "/api/v1/serverless/");
    assert_eq!(res.region, Some("aws-eu-west-1".to_string()));
}

#[test]
fn setup_paths() {
    assert_eq!(config_file_path("/home/me/.config/ess"), "/home/me/.config/ess/esscli.toml");
    assert_eq!(deployment_template_path("/tmp/x"), "/tmp/x/deployment.json");
}

#[test]
fn default_template_names_the_deployment() {
    let t = default_deploy_request();
    assert!(t.trim_start().starts_with('{'));
    assert!(t.contains("\"name\": \"my-first-api-deployment\""));
    assert!(t.contains("\"version\": \"8.8.2\""));
}
