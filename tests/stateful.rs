use esscli::client::{ESSClient, EssError, HttpMethod, ResultFormatting};
use esscli::config::{Config, TypeConfig, UserConfig};
use esscli::create_deployment::{create_deployment_request_from_cli, DeploymentCreateRequest};
use esscli::deployments::{
    DeploymentGetResponse, DeploymentResource, DeploymentShutdownResponse, DeploymentsList, DeploymentsListingData,
};

const ID: &str = "0123456789abcdef0123456789abcdef";

fn client() -> ESSClient {
    let cfg = Config {
        statefull_override: None,
        serverless_override: None,
        config: UserConfig::default(),
        defaults: TypeConfig { url: "https://console.example.com".to_string(), base_path: "/api/v1/".to_string() },
    };
    ESSClient::new(cfg, "k").unwrap()
}

fn empty_resource() -> DeploymentResource {
    DeploymentResource {
        elasticsearch_cluster_ref_id: None,
        kind: None,
        cloud_id: None,
        secret_token: None,
        warnings: None,
        region: None,
        ref_id: None,
        credentials: None,
        id: None,
    }
}

#[test]
fn stateful_request_paths() {
    let c = client();
    let sf = c.stateful().unwrap();
    let list = sf.list().unwrap();
    assert_eq!((list.method, list.url), (HttpMethod::Get, "https://console.example.com/api/v1/deployments".to_string()));
    let get = sf.get(ID).unwrap();
    assert_eq!((get.method, get.url), (HttpMethod::Get, format!("https://console.example.com/api/v1/deployments/{}", ID)));
    let shutdown = sf.shutdown(ID).unwrap();
    assert_eq!(
        (shutdown.method, shutdown.url, shutdown.body),
        (HttpMethod::Post, format!("https://console.example.com/api/v1/deployments/{}/_shutdown", ID), None)
    );
    let create = sf.create("{}".to_string()).unwrap();
    assert_eq!(
        (create.method, create.url, create.body),
        (HttpMethod::Post, "https://console.example.com/api/v1/deployments".to_string(), Some("{}".to_string()))
    );
}

#[test]
fn stateful_refuses_names() {
    let c = client();
    let sf = c.stateful().unwrap();
    assert_eq!(sf.get("prod-cluster").unwrap_err(), EssError::InvalidId { id: "prod-cluster".to_string() });
    assert_eq!(sf.shutdown("prod-cluster").unwrap_err(), EssError::InvalidId { id: "prod-cluster".to_string() });
}

#[test]
fn deployment_compact_formats() {
    let row = |name: &str, id: &str| DeploymentsListingData {
        id: id.to_string(),
        resources: vec![],
        name: name.to_string(),
    };
    assert_eq!(row("prod", "abc").compact(), "prod, abc");
    let list = DeploymentsList { deployments: vec![row("prod", "abc"), row("dev", "def")] };
    assert_eq!(list.compact(), "prod, abc\ndev, def\n");
    let get = DeploymentGetResponse {
        name: "prod".to_string(),
        settings: None,
        healthy: false,
        alias: None,
        observability: None,
        id: "abc".to_string(),
        resources: empty_resource(),
        metadata: None,
    };
    assert_eq!(get.compact(), "prod/abc: healthy: false");
    let healthy = DeploymentGetResponse { healthy: true, ..get };
    assert_eq!(healthy.compact(), "prod/abc: healthy: true");
    let shut = DeploymentShutdownResponse { id: "abc".to_string(), orphaned: None, name: "prod".to_string() };
    assert_eq!(shut.compact(), "abc: prod");
}

#[test]
fn template_takes_cli_values() {
    let template = DeploymentCreateRequest {
        name: Some("template-name".to_string()),
        settings: None,
        region: Some("gcp-us-central1".to_string()),
        alias: Some("alias".to_string()),
        version: Some("8.8.2".to_string()),
        resources: None,
        metadata: None,
    };
    let r = create_deployment_request_from_cli(
        Some("aws-eu-west-1".to_string()),
        Some("mine".to_string()),
        None,
        template,
    );
    assert_eq!(r.name, Some("mine".to_string()));
    assert_eq!(r.region, Some("aws-eu-west-1".to_string()));
    assert_eq!(r.version, None);
    assert_eq!(r.alias, Some("alias".to_string()));
}
