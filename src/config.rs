use vstd::prelude::*;
use crate::client::opt_view;

verus! {

/// The whole configuration file: user settings, the default endpoint and
/// optional per-mode overrides.
#[derive(Clone, Debug)]
pub struct Config {
    pub config: UserConfig,
    pub defaults: TypeConfig,
    pub statefull_override: Option<OptionalTypeConfig>,
    pub serverless_override: Option<OptionalTypeConfig>,
}

/// Settings that belong to the user rather than to an endpoint.
#[derive(Clone, Debug, Default)]
pub struct UserConfig {
    /// the serverless project path segment
    pub project: String,
    /// where the API key is stored
    pub key_path: String,
    /// where the deployment request template is stored
    pub default_deployment: String,
}

/// An endpoint with every field set.
#[derive(Clone, Debug, Default)]
pub struct TypeConfig {
    pub url: String,
    pub base_path: String,
}

/// A mode-specific endpoint override; each field that is set replaces the
/// default one.
#[derive(Clone, Debug, Default)]
pub struct OptionalTypeConfig {
    pub url: Option<String>,
    pub base_path: Option<String>,
    pub region: Option<String>,
}

/// The endpoint a mode client talks to once every layer has been applied.
#[derive(Clone, Debug, Default)]
pub struct DeploymentSpecificConfig {
    pub url: String,
    pub base_path: String,
    pub region: Option<String>,
}

/// The endpoint that results from laying `over` on top of `defaults`: a field
/// set in the override wins, an unset one falls back to the default, and the
/// region comes from the override alone.
pub open spec fn resolved(defaults: TypeConfig, over: Option<OptionalTypeConfig>) -> DeploymentSpecificConfig {
    match over {
        Some(o) => DeploymentSpecificConfig {
            url: match o.url {
                Some(u) => u,
                None => defaults.url,
            },
            base_path: match o.base_path {
                Some(p) => p,
                None => defaults.base_path,
            },
            region: o.region,
        },
        None => DeploymentSpecificConfig { url: defaults.url, base_path: defaults.base_path, region: None },
    }
}

fn copy_opt(s: &Option<String>) -> (r: Option<String>)
    ensures
        r == *s,
{
    match s {
        Some(v) => Some(v.clone()),
        None => None,
    }
}

fn resolve(defaults: &TypeConfig, over: &Option<OptionalTypeConfig>) -> (r: DeploymentSpecificConfig)
    ensures
        r == resolved(*defaults, *over),
{
    match over {
        Some(o) => {
            let url = match &o.url {
                Some(u) => u.clone(),
                None => defaults.url.clone(),
            };
            let base_path = match &o.base_path {
                Some(p) => p.clone(),
                None => defaults.base_path.clone(),
            };
            DeploymentSpecificConfig { url, base_path, region: copy_opt(&o.region) }
        },
        None => DeploymentSpecificConfig::from(
            TypeConfig { url: defaults.url.clone(), base_path: defaults.base_path.clone() },
        ),
    }
}

impl From<TypeConfig> for DeploymentSpecificConfig {
    fn from(value: TypeConfig) -> (r: DeploymentSpecificConfig) {
        DeploymentSpecificConfig { url: value.url, base_path: value.base_path, region: None }
    }
}

impl vstd::std_specs::convert::FromSpecImpl<TypeConfig> for DeploymentSpecificConfig {
    open spec fn obeys_from_spec() -> bool {
        true
    }

    open spec fn from_spec(v: TypeConfig) -> DeploymentSpecificConfig {
        DeploymentSpecificConfig { url: v.url, base_path: v.base_path, region: None }
    }
}

impl Config {
    pub open spec fn serverless_endpoint(self) -> DeploymentSpecificConfig {
        resolved(self.defaults, self.serverless_override)
    }

    pub open spec fn stateful_endpoint(self) -> DeploymentSpecificConfig {
        resolved(self.defaults, self.statefull_override)
    }

    /// Resolves the serverless endpoint, taking the serverless override into account.
    pub fn resolve_serverless(&self) -> (r: DeploymentSpecificConfig)
        ensures
            r == self.serverless_endpoint(),
    {
        resolve(&self.defaults, &self.serverless_override)
    }

    /// Resolves the stateful endpoint, taking the stateful override into account.
    pub fn resolve_stateful(&self) -> (r: DeploymentSpecificConfig)
        ensures
            r == self.stateful_endpoint(),
    {
        resolve(&self.defaults, &self.statefull_override)
    }
}

/// Where a mode has an override, url and base path are each taken whole from
/// the override where it sets them and from the defaults where it does not,
/// and the region is the override's.
pub proof fn lemma_override_falls_back_per_field(cfg: Config)
    ensures
        cfg.serverless_override matches Some(o) ==> {
            let r = cfg.serverless_endpoint();
            &&& r.url == (if o.url is Some { o.url->0 } else { cfg.defaults.url })
            &&& r.base_path == (if o.base_path is Some { o.base_path->0 } else { cfg.defaults.base_path })
            &&& r.region == o.region
        },
        cfg.statefull_override matches Some(o) ==> {
            let r = cfg.stateful_endpoint();
            &&& r.url == (if o.url is Some { o.url->0 } else { cfg.defaults.url })
            &&& r.base_path == (if o.base_path is Some { o.base_path->0 } else { cfg.defaults.base_path })
            &&& r.region == o.region
        },
{
}

/// Where a mode has no override, its endpoint is exactly the defaults, with
/// no region.
pub proof fn lemma_no_override_gives_defaults(cfg: Config)
    ensures
        cfg.serverless_override is None ==> cfg.serverless_endpoint() == (DeploymentSpecificConfig {
            url: cfg.defaults.url,
            base_path: cfg.defaults.base_path,
            region: None,
        }),
        cfg.statefull_override is None ==> cfg.stateful_endpoint() == (DeploymentSpecificConfig {
            url: cfg.defaults.url,
            base_path: cfg.defaults.base_path,
            region: None,
        }),
{
}

/// The configuration that `setup` writes out.
pub fn default_config() -> (r: Config)
    ensures
        r.config.project@ == "observability"@,
        r.config.key_path@ == "~/.config/ess/api_key.txt"@,
        r.config.default_deployment@ == "~/.config/ess/deployment.json"@,
        r.defaults.url@ == "https://console.qa.cld.elstc.co"@,
        r.defaults.base_path@ == "/api/v1/"@,
        r.statefull_override is None,
        r.serverless_override matches Some(o) && opt_view(o.url) == Some("https://global.qa.cld.elstc.co"@)
            && opt_view(o.base_path) == Some("/api/v1/serverless/"@) && opt_view(o.region) == Some(
            "aws-eu-west-1"@,
        ),
{
    Config {
        config: UserConfig {
            project: String::from_str("observability"),
            key_path: String::from_str("~/.config/ess/api_key.txt"),
            default_deployment: String::from_str("~/.config/ess/deployment.json"),
        },
        defaults: TypeConfig {
            url: String::from_str("https://console.qa.cld.elstc.co"),
            base_path: String::from_str("/api/v1/"),
        },
        statefull_override: None,
        serverless_override: Some(
            OptionalTypeConfig {
                url: Some(String::from_str("https://global.qa.cld.elstc.co")),
                base_path: Some(String::from_str("/api/v1/serverless/")),
                region: Some(String::from_str("aws-eu-west-1")),
            },
        ),
    }
}

/// Where `setup` writes the configuration file inside directory `dir`.
pub fn config_file_path(dir: &str) -> (r: String)
    ensures
        r@ == dir@ + "/esscli.toml"@,
{
    let mut path = String::from_str(dir);
    path.append("/esscli.toml");
    path
}

/// Where `setup` writes the deployment request template inside directory
/// `dir`.
pub fn deployment_template_path(dir: &str) -> (r: String)
    ensures
        r@ == dir@ + "/deployment.json"@,
{
    let mut path = String::from_str(dir);
    path.append("/deployment.json");
    path
}

/// The deployment request template that `setup` writes out.
pub const DEFAULT_DEPLOYMENT_TEMPLATE: &'static str = r#"{
        "resources": {
          "elasticsearch": [
            {
              "region": "gcp-us-central1", 
              "ref_id": "main-elasticsearch",
              "plan": {
                "cluster_topology": [
                  {
                    "zone_count": 2, 
                    "elasticsearch": {
                      "node_attributes": {
                        "data": "hot"
                      }
                    },
                    "instance_configuration_id": "gcp.es.datahot.n2.68x16x45", 
                    "node_roles": [
                      "master",
                      "ingest",
                      "transform",
                      "data_hot",
                      "remote_cluster_client",
                      "data_content"
                    ],
                    "id": "hot_content",
                    "size": {
                      "value": 4096, 
                      "resource": "memory"
                    }
                  },
                  {
                    "zone_count": 2,
                    "elasticsearch": {
                      "node_attributes": {
                        "data": "warm"
                      }
                    },
                    "instance_configuration_id": "gcp.es.datawarm.n2.68x10x190",
                    "node_roles": [
                      "data_warm",
                      "remote_cluster_client"
                    ],
                    "id": "warm",
                    "size": {
                      "resource": "memory",
                      "value": 0
                    }
                  },
                  {
                    "zone_count": 1,
                    "elasticsearch": {
                      "node_attributes": {
                        "data": "cold"
                      }
                    },
                    "instance_configuration_id": "gcp.es.datacold.n2.68x10x190",
                    "node_roles": [
                      "data_cold",
                      "remote_cluster_client"
                    ],
                    "id": "cold",
                    "size": {
                      "resource": "memory",
                      "value": 0
                    }
                  },
                  {
                    "zone_count": 1,
                    "elasticsearch": {
                      "node_attributes": {
                        "data": "frozen"
                      }
                    },
                    "instance_configuration_id": "gcp.es.datafrozen.n2.68x10x95",
                    "node_roles": [
                      "data_frozen"
                    ],
                    "id": "frozen",
                    "size": {
                      "resource": "memory",
                      "value": 0
                    }
                  },
                  {
                    "zone_count": 3,
                    "instance_configuration_id": "gcp.es.master.n2.68x32x45",
                    "node_roles": [
                      "master",
                      "remote_cluster_client"
                    ],
                    "id": "master",
                    "size": {
                      "resource": "memory",
                      "value": 0
                    }
                  },
                  {
                    "zone_count": 2,
                    "instance_configuration_id": "gcp.es.coordinating.n2.68x16x45",
                    "node_roles": [
                      "ingest",
                      "remote_cluster_client"
                    ],
                    "id": "coordinating",
                    "size": {
                      "resource": "memory",
                      "value": 0
                    }
                  },
                  {
                    "zone_count": 1,
                    "instance_configuration_id": "gcp.es.ml.n2.68x32x45",
                    "node_roles": [
                      "ml",
                      "remote_cluster_client"
                    ],
                    "id": "ml",
                    "size": {
                      "resource": "memory",
                      "value": 0
                    }
                  }
                ],
                "elasticsearch": {
                  "version": "8.8.2",
                  "enabled_built_in_plugins": []
                },
                "deployment_template": {
                  "id": "gcp-general-purpose-v3" 
                }
              }
            }
          ],
          "kibana": [
            {
              "elasticsearch_cluster_ref_id": "main-elasticsearch",
              "region": "gcp-us-central1",
              "plan": {
                "cluster_topology": [
                  {
                    "instance_configuration_id": "gcp.kibana.n2.68x32x45",
                    "zone_count": 1, 
                    "size": {
                      "resource": "memory",
                      "value": 1024 
                    }
                  }
                ],
                "kibana": {
                  "version": "8.8.2"
                }
              },
              "ref_id": "main-kibana"
            }
          ],
          "integrations_server": [
            {
              "elasticsearch_cluster_ref_id": "main-elasticsearch",
              "region": "gcp-us-central1",
              "plan": {
                "cluster_topology": [
                  {
                    "instance_configuration_id": "gcp.integrationsserver.n2.68x32x45",
                    "zone_count": 1, 
                    "size": {
                      "resource": "memory",
                      "value": 1024 
                    }
                  }
                ],
                "integrations_server": {
                  "version": "8.8.2"
                }
              },
              "ref_id": "main-integrations_server"
            }
          ],
          "enterprise_search": [
            {
              "elasticsearch_cluster_ref_id": "main-elasticsearch",
              "region": "gcp-us-central1",
              "plan": {
                "cluster_topology": [
                  {
                    "node_type": {
                      "connector": true,
                      "appserver": true,
                      "worker": true
                    },
                    "instance_configuration_id": "gcp.enterprisesearch.n2.68x32x45",
                    "zone_count": 1, 
                    "size": {
                      "resource": "memory",
                      "value": 2048 
                    }
                  }
                ],
                "enterprise_search": {
                  "version": "8.8.2"
                }
              },
              "ref_id": "main-enterprise_search"
            }
          ]
        },
        "name": "my-first-api-deployment"
      }"#;

/// The text of the default deployment request template.
pub fn default_deploy_request() -> (r: String)
    ensures
        r@ == DEFAULT_DEPLOYMENT_TEMPLATE@,
{
    String::from_str(DEFAULT_DEPLOYMENT_TEMPLATE)
}

} // verus!
