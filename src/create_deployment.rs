use vstd::prelude::*;
use crate::deployments::{DeploymentMetadata, DeploymentObservabilitySettings, DeploymentResource, TrafficFilterSettings};

verus! {

/// Free-form JSON that the API passes through unchanged (plans, user
/// settings); the library never looks inside it.
#[verifier::external_type_specification]
#[verifier::external_body]
pub struct ExJsonValue(serde_json::Value);

/// Relies on `Clone` for serde_json::Value, which the records' derived
/// `Clone` calls; nothing is assumed of the copy.
pub assume_specification[ <serde_json::Value as Clone>::clone ](v: &serde_json::Value) -> serde_json::Value;

#[derive(Clone, Debug, PartialEq)]
pub struct DeploymentCreateResponse {
    /// The name of the deployment
    pub name: String,
    /// Whether or not the deployment was freshly created
    pub created: bool,
    /// A user-defined deployment alias for user-friendly resource URLs
    pub alias: Option<String>,
    pub diagnostics: Option<DeploymentDiagnostics>,
    /// The id of the deployment
    pub id: String,
    /// List of created resources.
    pub resources: Vec<DeploymentResource>,
}

#[derive(Clone, Debug, PartialEq)]
pub struct DeploymentDiagnostics {
    pub creates: Option<Creates>,
    pub updates: Option<Updates>,
}

#[derive(Clone, Debug, PartialEq)]
pub struct Updates {
    /// Diagnostics for Enterprise Search resources
    pub enterprise_search: Option<Vec<EnterpriseSearch>>,
    /// Diagnostics for Kibanas
    pub kibana: Option<Vec<Kibana>>,
    /// Diagnostics for Elasticsearch clusters
    pub elasticsearch: Option<Vec<Elasticsearch>>,
    /// Diagnostics for APMs
    pub apm: Option<Vec<Apm>>,
    /// Diagnostics for AppSearches
    pub appsearch: Option<Vec<AppSearch>>,
    /// Diagnostics for Integrations Server
    pub integrations_server: Option<Vec<IntegrationsServer>>,
}

#[derive(Clone, Debug, PartialEq)]
pub struct Creates {
    /// Diagnostics for Enterprise Search resources
    pub enterprise_search: Option<Vec<EnterpriseSearch>>,
    /// Diagnostics for Kibanas
    pub kibana: Option<Vec<Kibana>>,
    /// Diagnostics for Elasticsearch clusters
    pub elasticsearch: Option<Vec<Elasticsearch>>,
    /// Diagnostics for APMs
    pub apm: Option<Vec<Apm>>,
    /// Diagnostics for AppSearches
    pub appsearch: Option<Vec<AppSearch>>,
    /// Diagnostics for Integrations Server
    pub integrations_server: Option<Vec<IntegrationsServer>>,
}

#[derive(Clone, Debug, PartialEq)]
pub struct IntegrationsServer {
    /// The user-specified id of the Elasticsearch Cluster that this will link to
    pub elasticsearch_cluster_ref_id: String,
    /// The backend plan as JSON
    pub backend_plan: serde_json::Value,
    /// The human readable name (defaults to the generated cluster id if not specified)
    pub display_name: String,
    /// A locally-unique user-specified id
    pub ref_id: String,
}

#[derive(Clone, Debug, PartialEq)]
pub struct AppSearch {
    /// The user-specified id of the Elasticsearch Cluster that this will link to
    pub elasticsearch_cluster_ref_id: String,
    /// The backend plan as JSON
    pub backend_plan: serde_json::Value,
    /// The human readable name (defaults to the generated cluster id if not specified)
    pub display_name: String,
    /// A locally-unique user-specified id
    pub ref_id: String,
}

#[derive(Clone, Debug, PartialEq)]
pub struct Apm {
    /// The user-specified id of the Elasticsearch Cluster that this will link to
    pub elasticsearch_cluster_ref_id: String,
    /// The backend plan as JSON
    pub backend_plan: serde_json::Value,
    /// The human readable name (defaults to the generated cluster id if not specified)
    pub display_name: String,
    /// A locally-unique user-specified id
    pub ref_id: String,
}

#[derive(Clone, Debug, PartialEq)]
pub struct Elasticsearch {
    /// The backend plan as JSON
    pub backend_plan: serde_json::Value,
    /// The human readable name for the cluster (defaults to the generated cluster id if not specified)
    pub display_name: String,
    /// A locally-unique user-specified id
    pub ref_id: String,
}

#[derive(Clone, Debug, PartialEq)]
pub struct Kibana {
    /// The user-specified id of the Elasticsearch Cluster that this will link to
    pub elasticsearch_cluster_ref_id: String,
    /// The backend plan as JSON
    pub backend_plan: serde_json::Value,
    /// The human readable name (defaults to the generated cluster id if not specified)
    pub display_name: String,
    /// A locally-unique user-specified id
    pub ref_id: String,
}

#[derive(Clone, Debug, PartialEq)]
pub struct EnterpriseSearch {
    /// The user-specified id of the Elasticsearch Cluster that this will link to
    pub elasticsearch_cluster_ref_id: String,
    /// The backend plan as JSON
    pub backend_plan: serde_json::Value,
    /// The human readable name (defaults to the generated cluster id if not specified)
    pub display_name: String,
    /// A locally-unique user-specified id
    pub ref_id: String,
}

#[derive(Clone, Debug, PartialEq)]
pub struct DeploymentCreateRequest {
    /// A name for the deployment; otherwise this will be the generated deployment id
    pub name: Option<String>,
    pub settings: Option<DeploymentCreateSettings>,
    /// Identifier of the region to be used as the default for all the resources of the deployment
    pub region: Option<String>,
    /// A user-defined alias to use in place of Cluster IDs for user-friendly URLs
    pub alias: Option<String>,
    /// The version for all the resources of the deployment (must be one of the supported versions). Defaults to the latest version if not specified.
    pub version: Option<String>,
    pub resources: Option<DeploymentCreateResources>,
    pub metadata: Option<DeploymentMetadata>,
}

#[derive(Clone, Debug, PartialEq)]
pub struct DeploymentCreateSettings {
    /// Enable autoscaling for this deployment.
    pub autoscaling_enabled: Option<bool>,
    pub observability: Option<DeploymentObservabilitySettings>,
    pub traffic_filter_settings: Option<TrafficFilterSettings>,
}

#[derive(Clone, Debug, PartialEq)]
pub struct DeploymentCreateResources {
    /// A list of payloads for Enterprise Search creation.
    pub enterprise_search: Option<Vec<EnterpriseSearchPayload>>,
    /// A list of payloads for Kibana creation.
    pub kibana: Option<Vec<KibanaPayload>>,
    /// A list of payloads for Elasticsearch cluster creation.
    pub elasticsearch: Option<Vec<ElasticsearchPayload>>,
    /// A list of payloads for APM creation. WARNING: For stack versions 8.0.0 and higher the integrations_server payload should be used instead, as this field becomes deprecated.
    /// A list of payloads for AppSearch updates. AppSearch has been replaced by Enterprise Search in the Elastic Stack 7.7 and higher.
    pub appsearch: Option<Vec<AppSearchPayload>>,
    /// A list of payloads for Integrations Server creation.
    pub integrations_server: Option<Vec<IntegrationsServerPayload>>,
}

#[derive(Clone, Debug, PartialEq)]
pub struct IntegrationsServerPayload {
    /// Alias to the Elasticsearch Cluster to attach the Integrations Server to
    pub elasticsearch_cluster_ref_id: String,
    /// The human readable name for the Integrations Server cluster (default: takes the name of its Elasticsearch cluster)
    pub display_name: Option<String>,
    pub settings: Option<IntegrationsServerSettings>,
    /// The region where this resource exists
    pub region: String,
    /// A locally-unique user-specified id for the Integrations Server
    pub ref_id: String,
    pub plan: IntegrationsServerPlan,
}

#[derive(Clone, Debug, PartialEq)]
pub struct IntegrationsServerPlan {
    pub cluster_topology: Option<Vec<IntegrationsServerTopologyElement>>,
    pub transient: Option<TransientIntegrationsServerPlanConfiguration>,
    pub integrations_server: IntegrationsServerConfiguration,
}

#[derive(Clone, Debug, PartialEq)]
pub struct TransientIntegrationsServerPlanConfiguration {
    pub plan_configuration: Option<IntegrationsServerPlanControlConfiguration>,
    pub strategy: Option<PlanStrategy>,
}

#[derive(Clone, Debug, PartialEq)]
pub struct IntegrationsServerPlanControlConfiguration {
    /// Set to 'forced' to force a reboot as part of the upgrade plan
    pub cluster_reboot: Option<ClusterReboot>,
    /// If true (default false), does not clear the maintenance flag (which prevents its API from being accessed except by the constructor) on new instances added until after a snapshot has been restored, otherwise, the maintenance flag is cleared once the new instances successfully join the new cluster
    pub extended_maintenance: Option<bool>,
    /// This timeout determines how long to give a cluster after it responds to API calls before performing actual operations on it. It defaults to 5s
    pub calm_wait_time: Option<i64>,
    /// The total timeout in seconds after which the plan is cancelled even if it is not complete. Defaults to 4x the max memory capacity per node (in MB)
    pub timeout: Option<i64>,
}

#[derive(Clone, Debug, PartialEq)]
pub struct IntegrationsServerTopologyElement {
    /// The version of the Instance Configuration Id. Unset for unversioned Instance Configurations on read. If unset in creates, means most recent version. If unset in updates, means keep the same version.
    pub instance_configuration_version: Option<i32>,
    /// Controls the allocation of this topology element as well as allowed sizes and node_types. It needs to match the id of an existing instance configuration.
    pub instance_configuration_id: Option<String>,
    /// number of zones in which nodes will be placed
    pub zone_count: Option<i32>,
    pub integrations_server: Option<IntegrationsServerConfiguration>,
    pub size: Option<TopologySize>,
}

#[derive(Clone, Debug, PartialEq)]
pub struct IntegrationsServerConfiguration {
    /// An arbitrary JSON object allowing ECE admins owners to set clusters' parameters (only one of this and 'user_settings_override_yaml' is allowed), ie in addition to the documented 'system_settings'. (This field together with 'system_settings' and 'user_settings*' defines the total set of Integrations Server settings)
    pub user_settings_override_json: Option<serde_json::Value>,
    /// An arbitrary YAML object allowing (non-admin) cluster owners to set their parameters (only one of this and 'user_settings_json' is allowed), provided the parameters are on the allowlist and not on the denylist. (These field together with 'user_settings_override*' and 'system_settings' defines the total set of Integrations Server settings)
    pub user_settings_yaml: Option<String>,
    /// The version of the Integrations Server cluster (must be one of the ECE supported versions, and won't work unless it matches the Integrations Server version. Leave blank to auto-detect version.)
    pub version: Option<String>,
    /// The mode the Integrations Server is operating in.
    pub mode: Option<Mode>,
    /// An arbitrary JSON object allowing (non-admin) cluster owners to set their parameters (only one of this and 'user_settings_yaml' is allowed), provided the parameters are on the allowlist and not on the denylist. (This field together with 'user_settings_override*' and 'system_settings' defines the total set of Integrations Server settings)
    pub user_settings_json: Option<serde_json::Value>,
    pub system_settings: Option<IntegrationsServerSystemSettings>,
    /// An arbitrary YAML object allowing ECE admins owners to set clusters' parameters (only one of this and 'user_settings_override_json' is allowed), ie in addition to the documented 'system_settings'. (This field together with 'system_settings' and 'user_settings*' defines the total set of Integrations Server settings)
    pub user_settings_override_yaml: Option<String>,
    /// A docker URI that allows overriding of the default docker image specified for this version
    pub docker_image: Option<String>,
}

#[derive(Clone, Debug, PartialEq)]
pub struct IntegrationsServerSystemSettings {
    /// DEPRECATED: Scheduled for removal in a future version of the API.  Optionally override the URL to which to send data (for advanced users only, if unspecified the system selects an internal URL)
    pub elasticsearch_url: Option<String>,
    /// Optionally override the secret token within Integrations Server - defaults to the previously existing secretToken
    pub secret_token: Option<String>,
    /// Optionally override the account within Integrations Server - defaults to a system account that always exists (if specified, the username must also be specified). Note that this field is never returned from the API, it is write only.
    pub elasticsearch_password: Option<String>,
    /// Optionally enable debug mode for Integrations Server - defaults false
    pub debug_enabled: Option<bool>,
    /// DEPRECATED: Scheduled for removal in a future version of the API.  Optionally override the URL to which to send data (for advanced users only, if unspecified the system selects an internal URL)
    pub kibana_url: Option<String>,
    /// Optionally override the account within Integrations Server - defaults to a system account that always exists (if specified, the password must also be specified). Note that this field is never returned from the API, it is write only.
    pub elasticsearch_username: Option<String>,
}

/// The mode the Integrations Server is operating in.
#[derive(Clone, Copy, Debug, Eq, PartialEq, Ord, PartialOrd, Hash)]
pub enum Mode {
    Standalone,
    Managed,
}

#[derive(Clone, Debug, PartialEq)]
pub struct IntegrationsServerSettings {
    pub metadata: Option<ClusterMetadataSettings>,
}

#[derive(Clone, Debug, PartialEq)]
pub struct AppSearchPayload {
    /// Alias to the Elasticsearch Cluster to attach AppSearch to
    pub elasticsearch_cluster_ref_id: String,
    /// The human readable name for the AppSearch cluster (default: takes the name of its Elasticsearch cluster)
    pub display_name: Option<String>,
    pub settings: Option<AppSearchSettings>,
    /// The region where this resource exists
    pub region: String,
    /// A locally-unique user-specified id for AppSearch
    pub ref_id: String,
    pub plan: AppSearchPlan,
}

#[derive(Clone, Debug, PartialEq)]
pub struct AppSearchSettings {
    pub metadata: Option<ClusterMetadataSettings>,
}

#[derive(Clone, Debug, PartialEq)]
pub struct AppSearchPlan {
    pub appsearch: AppSearchConfiguration,
    pub cluster_topology: Option<Vec<AppSearchTopologyElement>>,
    pub transient: Option<TransientAppSearchPlanConfiguration>,
}
#[derive(Clone, Debug, PartialEq)]
pub struct AppSearchTopologyElement {
    /// number of zones in which nodes will be placed
    pub zone_count: Option<i32>,
    /// The version of the Instance Configuration Id. Unset for unversioned Instance Configurations on read. If unset in creates, means most recent version. If unset in updates, means keep the same version.
    pub instance_configuration_version: Option<i32>,
    pub node_type: Option<AppSearchNodeTypes>,
    pub appsearch: Option<AppSearchConfiguration>,
    /// Controls the allocation of this topology element as well as allowed sizes and node_types. It needs to match the id of an existing instance configuration.
    pub instance_configuration_id: Option<String>,
    pub size: Option<TopologySize>,
}

#[derive(Clone, Debug, PartialEq)]
pub struct AppSearchNodeTypes {
    /// Defines whether this instance should run as Application/API server
    pub appserver: bool,
    /// Defines whether this instance should run as background worker
    pub worker: bool,
}

#[derive(Clone, Debug, PartialEq)]
pub struct TransientAppSearchPlanConfiguration {
    pub plan_configuration: Option<AppSearchPlanControlConfiguration>,
    pub strategy: Option<PlanStrategy>,
}

#[derive(Clone, Debug, PartialEq)]
pub struct AppSearchPlanControlConfiguration {
    /// Set to 'forced' to force a reboot as part of the upgrade plan
    pub cluster_reboot: Option<ClusterReboot>,
    pub move_allocators: Option<Vec<AllocatorMoveRequest>>,
    /// If true (default: false) does not allow re-using any existing instances currently in the cluster, ie even unchanged instances will be re-created
    pub reallocate_instances: Option<bool>,
    /// List of allocators on which instances are placed if possible (if not possible/not specified then any available allocator with space is used)
    pub preferred_allocators: Option<Vec<String>>,
    /// This timeout determines how long to give a cluster after it responds to API calls before performing actual operations on it. It defaults to 5s
    pub calm_wait_time: Option<i64>,
    /// The total timeout in seconds after which the plan is cancelled even if it is not complete. Defaults to 4x the max memory capacity per node (in MB)
    pub timeout: Option<i64>,
    /// If true (default false), does not clear the maintenance flag (which prevents its API from being accessed except by the constructor) on new instances added until after a snapshot has been restored, otherwise, the maintenance flag is cleared once the new instances successfully join the new cluster
    pub extended_maintenance: Option<bool>,
    pub move_instances: Option<Vec<InstanceMoveRequest>>,
}

#[derive(Clone, Debug, PartialEq)]
pub struct AppSearchConfiguration {
    /// An arbitrary JSON object allowing ECE admins owners to set clusters' parameters (only one of this and 'user_settings_override_yaml' is allowed), ie in addition to the documented 'system_settings'. (This field together with 'system_settings' and 'user_settings*' defines the total set of AppSearch settings)
    pub user_settings_override_json: Option<serde_json::Value>,
    /// An arbitrary YAML object allowing (non-admin) cluster owners to set their parameters (only one of this and 'user_settings_json' is allowed), provided the parameters are on the allowlist and not on the denylist. (These field together with 'user_settings_override*' and 'system_settings' defines the total set of AppSearch settings)
    pub user_settings_yaml: Option<String>,
    /// The version of the AppSearch cluster (must be one of the ECE supported versions, and won't work unless it matches the Elasticsearch version. Leave blank to auto-detect version.)
    pub version: Option<String>,
    /// An arbitrary JSON object allowing (non-admin) cluster owners to set their parameters (only one of this and 'user_settings_yaml' is allowed), provided the parameters are on the allowlist and not on the denylist. (This field together with 'user_settings_override*' and 'system_settings' defines the total set of AppSearch settings)
    pub user_settings_json: Option<serde_json::Value>,
    pub system_settings: Option<AppSearchSystemSettings>,
    /// An arbitrary YAML object allowing ECE admins owners to set clusters' parameters (only one of this and 'user_settings_override_json' is allowed), ie in addition to the documented 'system_settings'. (This field together with 'system_settings' and 'user_settings*' defines the total set of AppSearch settings)
    pub user_settings_override_yaml: Option<String>,
    /// A docker URI that allows overriding of the default docker image specified for this version
    pub docker_image: Option<String>,
}

#[derive(Clone, Debug, PartialEq)]
pub struct AppSearchSystemSettings {
    /// Optionally override the account within App Search - defaults to a system account that always exists (if specified, the username must also be specified). Note that this field is never returned from the API, it is write only.
    pub elasticsearch_password: Option<String>,
    /// Optionally override the account within App Search - defaults to a system account that always exists (if specified, the password must also be specified). Note that this field is never returned from the API, it is write only.
    pub elasticsearch_username: Option<String>,
    /// Optionally override the secret session key within App Search - defaults to the previously existing secretSession. Note that this field is never returned from the API, it is write only.
    pub secret_session_key: Option<String>,
    /// Optionally override the URL to which to send data (for advanced users only, if unspecified the system selects an internal URL)
    pub elasticsearch_url: Option<String>,
}

#[derive(Clone, Debug, PartialEq)]
pub struct ElasticsearchPayload {
    /// The region where this resource exists
    pub region: String,
    pub settings: Option<ElasticsearchClusterSettings>,
    /// The human readable name for the cluster (defaults to the generated cluster id if not specified)
    pub display_name: Option<String>,
    pub plan: ElasticsearchClusterPlan,
    /// A locally-unique user-specified id for this Elasticsearch cluster
    pub ref_id: String,
}

#[derive(Clone, Debug, PartialEq)]
pub struct ElasticsearchClusterPlan {
    /// Enable autoscaling for this Elasticsearch cluster.
    pub autoscaling_enabled: Option<bool>,
    pub cluster_topology: Vec<ElasticsearchClusterTopologyElement>,
    pub transient: Option<TransientElasticsearchPlanConfiguration>,
    pub elasticsearch: ElasticsearchConfiguration,
    pub deployment_template: Option<DeploymentTemplateReference>,
}

#[derive(Clone, Debug, PartialEq)]
pub struct TransientElasticsearchPlanConfiguration {
    pub plan_configuration: Option<ElasticsearchPlanControlConfiguration>,
    /// If specified, contains transient settings to be applied to an Elasticsearch cluster during changes,default values shown below applied. These can be overridden by specifying them in the map (or null to unset). Additional settings can also be set. Settings will be cleared after the plan has finished. If not specified, no settings will be applied. NOTE: These settings are only explicitly cleared for 5.x+ clusters, they must be hand-reset to their defaults in 2.x- (or a cluster reboot will clear them). - indices.store.throttle.max_bytes_per_sec: 120Mb - indices.recovery.max_bytes_per_sec: 120Mb - cluster.routing.allocation.cluster_concurrent_rebalance: 5 - cluster.routing.allocation.node_initial_primaries_recoveries: 5 - cluster.routing.allocation.node_concurrent_incoming_recoveries: 5 For version 8.1 and later no defaults are provided through this mechanism, but instead hardware dependent settings are provided to each instance.
    pub cluster_settings_json: Option<serde_json::Value>,
    pub remote_clusters: Option<RemoteResources>,
    pub restore_snapshot: Option<RestoreSnapshotConfiguration>,
    pub strategy: Option<PlanStrategy>,
}

#[derive(Clone, Debug, PartialEq)]
pub struct RestoreSnapshotConfiguration {
    pub repository_config: Option<RestoreSnapshotRepoConfiguration>,
    /// If specified, contains the name of the snapshot repository - else will default to the Elastic Cloud system repo ('found-snapshots')
    pub repository_name: Option<String>,
    pub restore_payload: Option<RestoreSnapshotApiConfiguration>,
    /// The restore strategy to use. Defaults to a full restore. Partial restore will attempt to restore unavailable indices only
    pub strategy: Option<Strategy>,
    /// If specified, contains the name of the source cluster id. Do not send this if you are sending repository_config
    pub source_cluster_id: Option<String>,
    /// The name of the snapshot to restore. Use '\\_\\_latest_success\\_\\_' to get the most recent snapshot from the specified repository
    pub snapshot_name: String,
}

#[derive(Clone, Debug, PartialEq)]
pub struct RestoreSnapshotApiConfiguration {
    /// The list of indices to restore (supports +ve and -ve selection and wildcarding - see the default Elasticsearch index format documentation)
    pub indices: Option<Vec<String>>,
    /// This JSON object (merged with the 'indices' field (if present) is passed untouched into the restore command - see the Elasticsearch '_snapshot' documentation for more details on supported formats
    pub raw_settings: Option<serde_json::Value>,
}

#[derive(Clone, Debug, PartialEq)]
pub struct RestoreSnapshotRepoConfiguration {
    /// The remote snapshot settings raw JSON - see the Elasticsearch '_snapshot' documentation for more details on supported formats
    pub raw_settings: Option<serde_json::Value>,
}

/// The restore strategy to use. Defaults to a full restore. Partial restore will attempt to restore unavailable indices only
#[derive(Clone, Copy, Debug, Eq, PartialEq, Ord, PartialOrd, Hash)]
pub enum Strategy {
    Partial,
    Full,
    Recovery,
}

#[derive(Clone, Debug, PartialEq)]
pub struct RemoteResources {
    /// The remote resources
    pub resources: Vec<RemoteResourceRef>,
}

#[derive(Clone, Debug, PartialEq)]
pub struct RemoteResourceRef {
    pub info: Option<RemoteResourceInfo>,
    /// The locally-unique user-specified id of an Elasticsearch Resource
    pub elasticsearch_ref_id: String,
    /// The id of the deployment
    pub deployment_id: String,
    /// If true, skip this cluster during search if it is disconnected. Default: false
    pub skip_unavailable: Option<bool>,
    /// The alias for this remote cluster. Aliases must only contain letters, digits, dashes and underscores
    pub alias: String,
}

#[derive(Clone, Debug, PartialEq)]
pub struct RemoteResourceInfo {
    /// Whether or not the remote cluster is healthy
    pub healthy: bool,
    /// Whether or not the remote cluster version is compatible with this cluster version.
    pub compatible: bool,
    /// Whether or not there is at least one connection to the remote cluster.
    pub connected: bool,
    /// Whether or not the remote cluster is trusted by this cluster.
    pub trusted: bool,
    /// Whether or not the remote cluster trusts this cluster back.
    pub trusted_back: bool,
}

#[derive(Clone, Debug, PartialEq)]
pub struct ElasticsearchPlanControlConfiguration {
    /// Set to 'forced' to force a reboot as part of the upgrade plan. NOTES: (ie taking an existing plan and leaving it alone except for setting 'transient.plan_configuration.cluster_reboot': 'forced' will reboot the cluster)
    pub cluster_reboot: Option<ClusterReboot>,
    /// This timeout determines how long to give a cluster after it responds to API calls before performing actual operations on it. It defaults to 5s
    pub calm_wait_time: Option<i64>,
    /// If true (default: false), does not take (or require) a successful snapshot to be taken before performing any potentially destructive changes to this cluster
    pub skip_snapshot: Option<bool>,
    /// When you take a snapshot and 'skip_snapshots' is false, specifies the maximum age in seconds of the most recent snapshot before a new snapshot is created. Default is 300
    pub max_snapshot_age: Option<i64>,
    /// The total timeout in seconds after which the plan is cancelled even if it is not complete. Defaults to 4x the max memory capacity per node (in MB). NOTES: A 3 zone cluster with 2 nodes of 2048 each would have a timeout of 4*2048=8192 seconds. Timeout does not include time required to run rollback actions.
    pub timeout: Option<i64>,
    /// If true (default false), does not clear the maintenance flag (which prevents its API from being accessed except by the constructor) on new instances added until after a snapshot has been restored, otherwise, the maintenance flag is cleared once the new instances successfully join the new cluster
    pub extended_maintenance: Option<bool>,
    /// If taking a snapshot (ie unless 'skip_snapshots': true) then will retry on failure at most this number of times (default: 5)
    pub max_snapshot_attempts: Option<i32>,
}

#[derive(Clone, Debug, PartialEq)]
pub struct ElasticsearchClusterTopologyElement {
    /// An arbitrary JSON object overriding the default autoscaling policy. Don't set unless you really know what you are doing.
    pub autoscaling_policy_override_json: Option<serde_json::Value>,
    /// The default number of zones in which data nodes will be placed
    pub zone_count: Option<i32>,
    pub topology_element_control: Option<TopologyElementControl>,
    /// The version of the Instance Configuration Id. Unset for unversioned Instance Configurations on read. If unset in cluster or tier creates or if changing IC id, means most recent version. If unset in other updates, means keep the same version.
    pub instance_configuration_version: Option<i32>,
    pub autoscaling_min: Option<TopologySize>,
    pub node_type: Option<ElasticsearchNodeType>,
    pub elasticsearch: Option<ElasticsearchConfiguration>,
    pub autoscaling_max: Option<TopologySize>,
    /// Controls the allocation of this topology element as well as allowed sizes and node_types. It needs to match the id of an existing instance configuration.
    pub instance_configuration_id: Option<String>,
    /// The list of node roles for this topology element (ES version >= 7.10). Allowable values are: master, ingest, ml, data_hot, data_content, data_warm, data_cold, data_frozen, remote_cluster_client, transform
    pub node_roles: Option<Vec<NodeRoles>>,
    /// Unique identifier of this topology element
    pub id: Option<String>,
    pub size: Option<TopologySize>,
}

/// The list of node roles for this topology element (ES version >= 7.10). Allowable values are: master, ingest, ml, data_hot, data_content, data_warm, data_cold, data_frozen, remote_cluster_client, transform
#[derive(Clone, Copy, Debug, Eq, PartialEq, Ord, PartialOrd, Hash)]
pub enum NodeRoles {
    Master,
    Ingest,
    Ml,
    DataHot,
    DataContent,
    DataWarm,
    DataCold,
    DataFrozen,
    RemoteClusterClient,
    Transform,
}

#[derive(Clone, Debug, PartialEq)]
pub struct ElasticsearchNodeType {
    /// Defines whether this node can hold data (default: false)
    pub data: Option<bool>,
    /// Defines whether this node can be elected master (default: false)
    pub master: Option<bool>,
    /// Defines whether this node can run an ingest pipeline (default: false)
    pub ingest: Option<bool>,
    /// Defines whether this node can run ml jobs, valid only for versions 5.4.0 or greater (default: false)
    pub ml: Option<bool>,
}

#[derive(Clone, Debug, PartialEq)]
pub struct TopologyElementControl {
    pub min: TopologySize,
}

#[derive(Clone, Debug, PartialEq)]
pub struct TopologySize {
    /// Type of resource
    pub resource: Resource,
    /// Amount of resource
    pub value: i32,
}

#[derive(Clone, Debug, PartialEq)]
pub struct ElasticsearchConfiguration {
    /// An arbitrary JSON object allowing ECE admins owners to set clusters' parameters (only one of this and 'user_settings_override_yaml' is allowed), ie in addition to the documented 'system_settings'. NOTES: (This field together with 'system_settings' and 'user_settings*' defines the total set of Elasticsearch settings)
    pub user_settings_override_json: Option<serde_json::Value>,
    /// A list of plugin names from the Elastic-supported subset that are bundled with the version images. NOTES: (Users should consult the Elastic stack objects to see what plugins are available, this is currently only available from the UI)
    pub enabled_built_in_plugins: Option<Vec<String>>,
    /// A list of admin-uploaded plugin objects that are available for this user.
    pub user_plugins: Option<Vec<ElasticsearchUserPlugin>>,
    /// An arbitrary YAML object allowing cluster owners to set their parameters (only one of this and 'user_settings_json' is allowed), provided the parameters arey are on the allowlist and not on the denylist. NOTES: (This field together with 'user_settings_override*' and 'system_settings' defines the total set of Elasticsearch settings)
    pub user_settings_yaml: Option<String>,
    /// A list of admin-uploaded bundle objects (eg scripts, synonym files) that are available for this user.
    pub user_bundles: Option<Vec<ElasticsearchUserBundle>>,
    /// The version of the Elasticsearch cluster (must be one of the ECE supported versions). Currently cannot be different across the topology (and is generally specified in the globals). Defaults to the latest version if not specified.
    pub version: Option<String>,
    /// An arbitrary JSON object allowing cluster owners to set their parameters (only one of this and 'user_settings_yaml' is allowed), provided the parameters arey are on the allowlist and not on the denylist. NOTES: (This field together with 'user_settings_override*' and 'system_settings' defines the total set of Elasticsearch settings)
    pub user_settings_json: Option<serde_json::Value>,
    pub curation: Option<ElasticsearchCuration>,
    pub system_settings: Option<ElasticsearchSystemSettings>,
    /// An arbitrary YAML object allowing ECE admins owners to set clusters' parameters (only one of this and 'user_settings_override_json' is allowed), ie in addition to the documented 'system_settings'. NOTES: (This field together with 'system_settings' and 'user_settings*' defines the total set of Elasticsearch settings)
    pub user_settings_override_yaml: Option<String>,
    /// A docker URI that allows overriding of the default docker image specified for this version
    pub docker_image: Option<String>,
    /// Defines the Elasticsearch node attributes for the instances in the topology
    pub node_attributes: Option<std::collections::HashMap<String, String>>,
}

#[derive(Clone, Debug, PartialEq)]
pub struct ElasticsearchSystemSettings {
    /// Limits remote Elasticsearch clusters that can be used as the source for '_reindex' API commands
    pub reindex_whitelist: Option<Vec<String>>,
    /// (2.x only - to get the same result in 5.x template mappings must be used) Sets the default number of shards per index, defaulting to 1 if not specified. (Corresponds to the parameter 'index.number_of_shards' in 2.x, not supported in 5.x)
    pub default_shards_per_index: Option<i32>,
    /// The duration for which monitoring history is stored (format '(NUMBER)d' eg '3d' for 3 days). NOTES: ('Corresponds to the parameter xpack.monitoring.history.duration' in 5.x, defaults to '7d')
    pub monitoring_history_duration: Option<String>,
    /// The default interval at which monitoring information from the cluster if collected, if monitoring is enabled. NOTES: (Corresponds to the parameter 'marvel.agent.interval' in 2.x and 'xpack.monitoring.collection.interval' in 5.x)
    pub monitoring_collection_interval: Option<i32>,
    /// If true (default is false) then the index deletion API will not support wildcards or '_all'. NOTES: (Corresponds to the parameter 'action.destructive_requires_name')
    pub destructive_requires_name: Option<bool>,
    /// If true (the default), then any write operation on an index that does not currently exist will create it. NOTES: (Corresponds to the parameter 'action.auto_create_index')
    pub auto_create_index: Option<bool>,
    /// The trigger engine for Watcher, defaults to 'scheduler' - see the xpack documentation for more information. NOTES: (Corresponds to the parameter '(xpack.)watcher.trigger.schedule.engine', depending on version. Ignored from 6.x onwards.)
    pub watcher_trigger_engine: Option<String>,
    pub scripting: Option<ElasticsearchScriptingUserSettings>,
    /// Defaults to false on versions <= 7.2.0, true otherwise. If false, then the API commands to close indices are disabled. This is important because Elasticsearch does not snapshot or migrate close indices on versions under 7.2.0, therefore standard Elastic Cloud configuration operations will cause irretrievable loss of indices' data. NOTES: (Corresponds to the parameter 'cluster.indices.close.enable')
    pub enable_close_index: Option<bool>,
}

#[derive(Clone, Debug, PartialEq)]
pub struct ElasticsearchScriptingUserSettings {
    /// (5.x+ only) If enabled (the default) then the expressions scripting engine is allowed as a sandboxed language. Sandboxed languages are the only ones allowed if 'sandbox_mode' is set to true. NOTES: (Corresponds to the parameters 'script.engine.expression.[file|stored|inline]')
    pub expressions_enabled: Option<bool>,
    pub stored: Option<ElasticsearchScriptTypeSettings>,
    /// (5.x+ only) If enabled (the default) then the painless scripting engine is allowed as a sandboxed language. Sandboxed languages are the only ones allowed if 'sandbox_mode' is set to true. NOTES: (Corresponds to the parameters 'script.engine.painless.[file|stored|inline]')
    pub painless_enabled: Option<bool>,
    pub file: Option<ElasticsearchScriptTypeSettings>,
    pub inline: Option<ElasticsearchScriptTypeSettings>,
    /// (5.x+ only) If enabled (the default) then the mustache scripting engine is allowed as a sandboxed language. Sandboxed languages are the only ones allowed if 'sandbox_mode' is set to true. NOTES: (Corresponds to the parameters 'script.engine.mustache.[file|stored|inline]')
    pub mustache_enabled: Option<bool>,
}

#[derive(Clone, Debug, PartialEq)]
pub struct ElasticsearchScriptTypeSettings {
    /// If enabled (default: true) then scripts are enabled, either for sandboxing languages (by default), or for all installed languages if 'sandbox_mode' is disabled (or for 6.x). NOTES: (Corresponds to the parameter 'script.file|stored/indexed|inline')
    pub enabled: Option<bool>,
    /// If enabled (default: true) and this script type is enabled, then only the sandbox languages are allowed. By default the sandbox languages are painless, expressions and mustache, but this can be restricted via the 'painless_enabled', 'mustache_enabled' 'expression_enabled' settings.NOTES: Not supported in 6.x. (Corresponds to the parameters 'script.engine.[painless|mustache|expressions].[file|stored|inline]')
    pub sandbox_mode: Option<bool>,
}

#[derive(Clone, Debug, PartialEq)]
pub struct ElasticsearchCuration {
    /// The destination instance configuration
    pub to_instance_configuration_id: String,
    /// The source instance configuration
    pub from_instance_configuration_id: String,
}

#[derive(Clone, Debug, PartialEq)]
pub struct ElasticsearchUserBundle {
    /// The URL of the bundle, which must be accessible from the ECE infrastructure. This URL could be cached by platform, make sure to change it when updating the bundle
    pub url: String,
    /// The name of the bundle
    pub name: String,
    /// The supported Elasticsearch version (must match the version in the plan)
    pub elasticsearch_version: String,
}

#[derive(Clone, Debug, PartialEq)]
pub struct ElasticsearchUserPlugin {
    /// The URL of the plugin (must be accessible from the ECE infrastructure)
    pub url: String,
    /// The name of the plugin
    pub name: String,
    /// The supported Elasticsearch version (must match the version in the plan)
    pub elasticsearch_version: String,
}

#[derive(Clone, Debug, PartialEq)]
pub struct DeploymentTemplateReference {
    /// A version identifier to disambiguate multiple revisions of the same template
    pub version: Option<String>,
    /// The unique identifier of the deployment template
    pub id: String,
}

#[derive(Clone, Debug, PartialEq)]
pub struct ElasticsearchClusterSettings {
    pub monitoring: Option<ManagedMonitoringSettings>,
    pub curation: Option<ClusterCurationSettings>,
    pub snapshot: Option<ClusterSnapshotSettings>,
    pub traffic_filter: Option<TrafficFilterSettings>,
    pub trust: Option<ElasticsearchClusterTrustSettings>,
    /// Threshold starting from which the number of instances in the cluster results in the introduction of dedicated masters. If the cluster is downscaled to a number of nodes below this one, dedicated masters will be removed. Limit is inclusive. When provided the threshold setting is updated. A `null` value removes the field. Otherwise, the setting remains as it was set previously.
    pub dedicated_masters_threshold: Option<i32>,
    pub metadata: Option<ClusterMetadataSettings>,
}

#[derive(Clone, Debug, PartialEq)]
pub struct ManagedMonitoringSettings {
    /// The Id of the target cluster to which to send monitoring information
    pub target_cluster_id: String,
}

#[derive(Clone, Debug, PartialEq)]
pub struct ClusterCurationSettings {
    /// Specifications for curation
    pub specs: Vec<ClusterCurationSpec>,
}

#[derive(Clone, Debug, PartialEq)]
pub struct ClusterCurationSpec {
    /// Index matching pattern
    pub index_pattern: String,
    /// Number of seconds after index creation to trigger this spec
    pub trigger_interval_seconds: i32,
}

#[derive(Clone, Debug, PartialEq)]
pub struct ClusterSnapshotSettings {
    /// When set to true, the deployment will have SLM enabled. Default value is true.
    pub slm: Option<bool>,
    /// Cron expression indicating when should snapshots be taken. This can be enabled only if SLM is enabled for the deployment and 'interval' is not present
    pub cron_expression: Option<String>,
    /// Interval between snapshots, with the format 'length unit' (space is optional), where unit can be one of: d (day), h (hour), min (minute). Default is 30 minutes
    pub interval: Option<String>,
    pub retention: Option<ClusterSnapshotRetention>,
}

#[derive(Clone, Debug, PartialEq)]
pub struct ClusterSnapshotRetention {
    /// Total retention period for all snapshots, with the format 'length unit' (space is optional), where unit can be one of: d (day), h (hour), min (minute)
    pub max_age: Option<String>,
    /// Number of snapshots to retain
    pub snapshots: Option<i32>,
}

#[derive(Clone, Debug, PartialEq)]
pub struct ElasticsearchClusterTrustSettings {
    /// The list of trust relationships with different accounts
    pub accounts: Option<Vec<AccountTrustRelationship>>,
    /// The list of trust relationships with external entities
    pub external: Option<Vec<ExternalTrustRelationship>>,
    /// The list of trust relationships where the certificate is bundled with the trust setting. Allows configuring trust for clusters running outside of an Elastic Cloud managed environment or in an Elastic Cloud environment without an environment level trust established.
    pub direct: Option<Vec<DirectTrustRelationship>>,
}

#[derive(Clone, Debug, PartialEq)]
pub struct DirectTrustRelationship {
    /// Auto generated identifier for this trust, allows distinguishing between update vs remove and add.
    pub uid: Option<String>,
    /// a human readable name of the trust relationship
    pub name: String,
    /// A list of node names trusted in addition to those deducible from trust_allowlist and scope id. Allows trusting nodes that don't have a scoped name at the cost of maintaining the list. Mandatory if scope id is not defined. Wildcards are not allowed.
    pub additional_node_names: Option<Vec<String>>,
    /// A lowercase alphanumerical string of max 32 characters. Usually an organization id or an environment id, but could really be any suitable suffix for clusters using the CA certificate of this trust. Required unless trust_all is false and trust_allowlist is empty.
    pub scope_id: Option<String>,
    /// If true, scope_id is required and the `trust_allowlist` is ignored and all clusters matching the scope id will be trusted.
    pub trust_all: bool,
    /// The public ca certificate(s) to trust. Only one is required, but it is possible to specify multiple certificates in order to facilitate key rotation.
    pub certificates: Vec<TrustedCertificate>,
    /// The type can either be ESS, ECE or generic. If none is specified, then generic is assumed.
    pub trust_type: Option<Type>,
    /// The list of clusters with matching scope to trust. Only used when `trust_all` is false. Providing one or more clusters makes scope_id mandatory.
    pub trust_allowlist: Option<Vec<String>>,
}

#[derive(Clone, Debug, PartialEq)]
pub struct TrustedCertificate {
    /// The public ca certificate as string in PEM format.
    pub pem: String,
    pub metadata: Option<CertificateMetaData>,
}

#[derive(Clone, Debug, PartialEq)]
pub struct CertificateMetaData {
    /// The valid from date of the certificate in UTC
    pub valid_from: String,
    /// Other deployments also trusting this certificate
    pub also_trusted_by: Option<Vec<String>>,
    /// The expiry date of the certificate in UTC
    pub valid_to: String,
    /// The fingerprint of the certificate
    pub fingerprint: String,
}

/// The type can either be ESS, ECE or generic. If none is specified, then generic is assumed.
#[derive(Clone, Copy, Debug, Eq, PartialEq, Ord, PartialOrd, Hash)]
pub enum Type {
    Ece,
    Ess,
    Generic,
}

#[derive(Clone, Debug, PartialEq)]
pub struct ExternalTrustRelationship {
    /// The list of clusters to trust. Only used when `trust_all` is false.
    pub trust_allowlist: Option<Vec<String>>,
    /// The ID of the external trust relationship
    pub trust_relationship_id: String,
    /// The name of the external trust relationship. Retrieved from the TrustRelationship and ignored on write.
    pub name: Option<String>,
    /// If true, all clusters in this external entity will be trusted and the `trust_allowlist` is ignored.
    pub trust_all: bool,
}

#[derive(Clone, Debug, PartialEq)]
pub struct AccountTrustRelationship {
    /// If true, all clusters in this account will by default be trusted and the `trust_allowlist` is ignored.
    pub trust_all: bool,
    /// the ID of the Account
    pub account_id: String,
    /// The list of clusters to trust. Only used when `trust_all` is false.
    pub trust_allowlist: Option<Vec<String>>,
    /// A human readable name of the trust relationship
    pub name: Option<String>,
}

#[derive(Clone, Debug, PartialEq)]
pub struct EnterpriseSearchPayload {
    /// Alias to the Elasticsearch Cluster to attach Enterprise Search to
    pub elasticsearch_cluster_ref_id: String,
    /// The human readable name for the Enterprise Search cluster (default: takes the name of its Elasticsearch cluster)
    pub display_name: Option<String>,
    pub settings: Option<EnterpriseSearchSettings>,
    /// The region where this resource exists
    pub region: String,
    /// A locally-unique user-specified id for Enterprise Search
    pub ref_id: String,
    pub plan: EnterpriseSearchPlan,
}

#[derive(Clone, Debug, PartialEq)]
pub struct EnterpriseSearchSettings {
    pub metadata: Option<ClusterMetadataSettings>,
}

#[derive(Clone, Debug, PartialEq)]
pub struct TransientEnterpriseSearchPlanConfiguration {
    pub plan_configuration: Option<EnterpriseSearchPlanControlConfiguration>,
    pub strategy: Option<PlanStrategy>,
}

#[derive(Clone, Debug, PartialEq)]
pub struct EnterpriseSearchPlanControlConfiguration {
    /// Set to 'forced' to force a reboot as part of the upgrade plan
    pub cluster_reboot: Option<ClusterReboot>,
    pub move_allocators: Option<Vec<AllocatorMoveRequest>>,
    /// If true (default: false) does not allow re-using any existing instances currently in the cluster, i.e. even unchanged instances will be re-created
    pub reallocate_instances: Option<bool>,
    /// List of allocators on which instances are placed if possible (if not possible/not specified then any available allocator with space is used)
    pub preferred_allocators: Option<Vec<String>>,
    /// This timeout determines how long to give a cluster after it responds to API calls before performing actual operations on it. It defaults to 5s
    pub calm_wait_time: Option<i64>,
    /// The total timeout in seconds after which the plan is cancelled even if it is not complete. Defaults to 4x the max memory capacity per node (in MB)
    pub timeout: Option<i64>,
    /// If true (default false), does not clear the maintenance flag (which prevents its API from being accessed except by the constructor) on new instances added until after a snapshot has been restored, otherwise, the maintenance flag is cleared once the new instances successfully join the new cluster
    pub extended_maintenance: Option<bool>,
    pub move_instances: Option<Vec<InstanceMoveRequest>>,
}

#[derive(Clone, Debug, PartialEq)]
pub struct InstanceMoveRequest {
    /// An optional list of allocator ids to which the instance should be moved. If not specified then any available allocator can be used (including the current one if it is healthy)
    pub to: Option<Vec<String>>,
    /// The instance id that is going to be moved
    pub from: String,
    /// Tells the infrastructure that the instance should be considered as permanently down when deciding how to migrate data to new nodes. If left blank then the system will automatically decide (currently: will treat the instances as up)
    pub instance_down: Option<bool>,
}

#[derive(Clone, Debug, PartialEq)]
pub struct AllocatorMoveRequest {
    /// An optional list of allocator ids to which the instance(s) should be moved. If not specified then any available allocator can be used (including the current one if it is healthy)
    pub to: Option<Vec<String>>,
    /// The allocator id off which all instances in the cluster should be moved
    pub from: String,
    /// Tells the infrastructure that all instances on the allocator should be considered as permanently down when deciding how to migrate data to new nodes. If left blank then the system will auto-decide (currently: will treat the allocator as up)
    pub allocator_down: Option<bool>,
}

#[derive(Clone, Debug, PartialEq)]
pub struct EnterpriseSearchPlan {
    pub cluster_topology: Option<Vec<EnterpriseSearchTopologyElement>>,
    pub transient: Option<TransientEnterpriseSearchPlanConfiguration>,
    pub enterprise_search: EnterpriseSearchConfiguration,
}

#[derive(Clone, Debug, PartialEq)]
pub struct EnterpriseSearchTopologyElement {
    pub node_count_per_zone: Option<serde_json::Value>,
    /// number of zones in which nodes will be placed
    pub zone_count: Option<i32>,
    pub node_configuration: Option<String>,
    pub memory_per_node: Option<serde_json::Value>,
    /// The version of the Instance Configuration Id. Unset for unversioned Instance Configurations on read. If unset in creates, means most recent version. If unset in updates, means keep the same version.
    pub instance_configuration_version: Option<i32>,
    pub enterprise_search: Option<EnterpriseSearchConfiguration>,
    pub node_type: Option<EnterpriseSearchNodeTypes>,
    pub allocator_filter: Option<serde_json::Value>,
    /// Controls the allocation of this topology element as well as allowed sizes and node_types. It needs to match the id of an existing instance configuration.
    pub instance_configuration_id: Option<String>,
    pub size: Option<TopologySize>,
}

#[derive(Clone, Debug, PartialEq)]
pub struct EnterpriseSearchConfiguration {
    /// An arbitrary JSON object allowing ECE admins to set clusters' parameters (only one of this and 'user_settings_override_yaml' is allowed), i.e. in addition to the documented 'system_settings'. (This field together with 'system_settings' and 'user_settings*' defines the total set of Enterprise Search settings)
    pub user_settings_override_json: Option<serde_json::Value>,
    /// An arbitrary YAML object allowing (non-admin) cluster owners to set their parameters (only one of this and 'user_settings_json' is allowed), provided the parameters are on the allowlist and not on the denylist. (This field together with 'user_settings_override*' and 'system_settings' defines the total set of Enterprise Search settings)
    pub user_settings_yaml: Option<String>,
    /// The version of the Enterprise Search cluster (must be one of the ECE supported versions, and won't work unless it matches the Elasticsearch version. Leave blank to auto-detect version.)
    pub version: Option<String>,
    /// An arbitrary JSON object allowing (non-admin) cluster owners to set their parameters (only one of this and 'user_settings_yaml' is allowed), provided the parameters are on the allowlist and not on the denylist. (This field together with 'user_settings_override*' and 'system_settings' defines the total set of Enterprise Search settings)
    pub user_settings_json: Option<serde_json::Value>,
    pub system_settings: Option<EnterpriseSearchSystemSettings>,
    /// An arbitrary YAML object allowing ECE admins to set clusters' parameters (only one of this and 'user_settings_override_json' is allowed), i.e. in addition to the documented 'system_settings'. (This field together with 'system_settings' and 'user_settings*' defines the total set of Enterprise Search settings)
    pub user_settings_override_yaml: Option<String>,
    /// A docker URI that allows overriding of the default docker image specified for this version
    pub docker_image: Option<String>,
}

#[derive(Clone, Debug, PartialEq)]
pub struct EnterpriseSearchSystemSettings {
    /// Optionally override the account within Enterprise Search - defaults to a system account that always exists (if specified, the username must also be specified). Note that this field is never returned from the API, it is write only.
    pub elasticsearch_password: Option<String>,
    /// Optionally override the account within Enterprise Search - defaults to a system account that always exists (if specified, the password must also be specified). Note that this field is never returned from the API, it is write only.
    pub elasticsearch_username: Option<String>,
    /// Optionally override the secret session key within Enterprise Search - defaults to the previously existing secretSession. Note that this field is never returned from the API, it is write only.
    pub secret_session_key: Option<String>,
    /// DEPRECATED: Scheduled for removal in a future version of the API.  Optionally override the URL to which to send data (for advanced users only, if unspecified the system selects an internal URL)
    pub elasticsearch_url: Option<String>,
}

#[derive(Clone, Debug, PartialEq)]
pub struct EnterpriseSearchNodeTypes {
    /// Defines whether this instance should run as Connector
    pub connector: bool,
    /// Defines whether this instance should run as Application/API server
    pub appserver: bool,
    /// Defines whether this instance should run as background worker
    pub worker: bool,
}

#[derive(Clone, Debug, PartialEq)]
pub struct KibanaPayload {
    /// Alias to the Elasticsearch Cluster to attach Kibana to
    pub elasticsearch_cluster_ref_id: String,
    /// The human readable name for the Kibana cluster (default: takes the name of its Elasticsearch cluster)
    pub display_name: Option<String>,
    pub settings: Option<KibanaClusterSettings>,
    /// The region where this resource exists
    pub region: String,
    /// A locally-unique user-specified id for Kibana
    pub ref_id: String,
    pub plan: KibanaClusterPlan,
}

#[derive(Clone, Debug, PartialEq)]
pub struct KibanaClusterPlan {
    pub cluster_topology: Option<Vec<KibanaClusterTopologyElement>>,
    pub transient: Option<TransientKibanaPlanConfiguration>,
    pub kibana: KibanaConfiguration,
}

#[derive(Clone, Debug, PartialEq)]
pub struct TransientKibanaPlanConfiguration {
    pub plan_configuration: Option<KibanaPlanControlConfiguration>,
    pub strategy: Option<PlanStrategy>,
}

#[derive(Clone, Debug, PartialEq)]
pub struct KibanaPlanControlConfiguration {
    /// Set to 'forced' to force a reboot as part of the upgrade plan
    pub cluster_reboot: Option<ClusterReboot>,
    /// If true (default false), does not clear the maintenance flag (which prevents its API from being accessed except by the constructor) on new instances added until after a snapshot has been restored, otherwise, the maintenance flag is cleared once the new instances successfully join the new cluster
    pub extended_maintenance: Option<bool>,
    /// This timeout determines how long to give a cluster after it responds to API calls before performing actual operations on it. It defaults to 5s
    pub calm_wait_time: Option<i64>,
    /// The total timeout in seconds after which the plan is cancelled even if it is not complete. Defaults to 4x the max memory capacity per node (in MB)
    pub timeout: Option<i64>,
}

/// Set to 'forced' to force a reboot as part of the upgrade plan
#[derive(Clone, Copy, Debug, Eq, PartialEq, Ord, PartialOrd, Hash)]
pub enum ClusterReboot {
    Forced,
}

#[derive(Clone, Debug, PartialEq)]
pub struct PlanStrategy {
    pub rolling: Option<RollingStrategyConfig>,
}

#[derive(Clone, Debug, PartialEq)]
pub struct RollingStrategyConfig {
    /// Whether to skip attempting to do a synced flush on the filesystem of the container (default: false), which is less safe but may be required if the container is unhealthy
    pub skip_synced_flush: Option<bool>,
    /// Whether we allow changing the capacity of instances (default false). This is currently implemented by stopping, re-creating then starting the affected instance on its associated allocator when performing the changes. NOTES: This requires a round-trip through the allocation infrastructure of the active constructor, as it has to reserve the target capacity without over-committing
    pub allow_inline_resize: Option<bool>,
    /// Specifies the grouping attribute to use when rolling several instances. Instances that share the same value for the provided attribute key are rolled together as a unit. Examples that make sense to use are '\\_\\_all\\_\\_' (roll all instances as a single unit), 'logical_zone_name' (roll instances by zone), '\\_\\_name\\_\\_' (roll one instance at a time, the default if not specified). Note that '\\_\\_all\\_\\_' is required when performing a major version upgrade
    pub group_by: Option<String>,
    /// The time, in seconds, to wait for shards that show no progress of initializing before rolling the next group (default: 10 minutes)
    pub shard_init_wait_time: Option<i64>,
}

#[derive(Clone, Debug, PartialEq)]
pub struct KibanaClusterTopologyElement {
    /// The version of the Instance Configuration Id. Unset for unversioned Instance Configurations on read. If unset in creates, means most recent version. If unset in updates, means keep the same version.
    pub instance_configuration_version: Option<i32>,
    /// Controls the allocation of this topology element as well as allowed sizes and node_types. It needs to match the id of an existing instance configuration.
    pub instance_configuration_id: Option<String>,
    /// number of zones in which nodes will be placed
    pub zone_count: Option<i32>,
    pub kibana: Option<KibanaConfiguration>,
    pub size: Option<TopologySize>,
}

/// Type of resource
#[derive(Clone, Copy, Debug, Eq, PartialEq, Ord, PartialOrd, Hash)]
pub enum Resource {
    Memory,
    Storage,
}

#[derive(Clone, Debug, PartialEq)]
pub struct KibanaClusterSettings {
    pub metadata: Option<ClusterMetadataSettings>,
}

#[derive(Clone, Debug, PartialEq)]
pub struct ClusterMetadataSettings {
    /// The display name of the cluster
    pub name: Option<String>,
}

#[derive(Clone, Debug, PartialEq)]
pub struct KibanaConfiguration {
    /// An arbitrary JSON object allowing ECE admins owners to set clusters' parameters (only one of this and 'user_settings_override_yaml' is allowed), ie in addition to the documented 'system_settings'. (This field together with 'system_settings' and 'user_settings*' defines the total set of Kibana settings)
    pub user_settings_override_json: Option<serde_json::Value>,
    /// An arbitrary YAML object allowing (non-admin) cluster owners to set their parameters (only one of this and 'user_settings_json' is allowed), provided the parameters are on the allowlist and not on the denylist. (These field together with 'user_settings_override*' and 'system_settings' defines the total set of Kibana settings)
    pub user_settings_yaml: Option<String>,
    /// The version of the Kibana cluster (must be one of the ECE supported versions, and won't work unless it matches the Elasticsearch version. Leave blank to auto-detect version.)
    pub version: Option<String>,
    /// An arbitrary JSON object allowing (non-admin) cluster owners to set their parameters (only one of this and 'user_settings_yaml' is allowed), provided the parameters are on the allowlist and not on the denylist. (This field together with 'user_settings_override*' and 'system_settings' defines the total set of Kibana settings)
    pub user_settings_json: Option<serde_json::Value>,
    pub system_settings: Option<KibanaSystemSettings>,
    /// An arbitrary YAML object allowing ECE admins owners to set clusters' parameters (only one of this and 'user_settings_override_json' is allowed), ie in addition to the documented 'system_settings'. (This field together with 'system_settings' and 'user_settings*' defines the total set of Kibana settings)
    pub user_settings_override_yaml: Option<String>,
    /// A docker URI that allows overriding of the default docker image specified for this version
    pub docker_image: Option<String>,
}

#[derive(Clone, Debug, PartialEq)]
pub struct KibanaSystemSettings {
    /// Optionally override the account within Elasticsearch - defaults to a system account that always exists (if specified, the username must also be specified). Note that this field is never returned from the API, it is write only.
    pub elasticsearch_password: Option<String>,
    /// Optionally override the account within Elasticsearch - defaults to a system account that always exists (if specified, the password must also be specified). Note that this field is never returned from the API, it is write only.
    pub elasticsearch_username: Option<String>,
    /// DEPRECATED: Scheduled for removal in a future version of the API.  Optionally override the URL to which to send data (for advanced users only, if unspecified the system selects an internal URL)
    pub elasticsearch_url: Option<String>,
}

/// The deployment request template with the name, region and version the
/// command line gives put in place of the template's own.
pub fn create_deployment_request_from_cli(
    region: Option<String>,
    name: Option<String>,
    version: Option<String>,
    template: DeploymentCreateRequest,
) -> (r: DeploymentCreateRequest)
    ensures
        r == (DeploymentCreateRequest { name, region, version, ..template }),
{
    let mut rendered = template;
    rendered.name = name;
    rendered.region = region;
    rendered.version = version;
    rendered
}

} // verus!
