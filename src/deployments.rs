use vstd::prelude::*;
use crate::client::ResultFormatting;

verus! {

// Listing, fetching and shutting down deployments.

#[derive(Clone, Debug, PartialEq)]
pub struct DeploymentsList {
    /// A list of deployments
    pub deployments: Vec<DeploymentsListingData>,
}

#[derive(Clone, Debug, PartialEq)]
pub struct DeploymentsListingData {
    /// The id of this deployment
    pub id: String,
    /// List of resources in this deployment
    pub resources: Vec<DeploymentResource>,
    /// The name of this deployment
    pub name: String,
}

#[derive(Clone, Debug, PartialEq)]
pub struct DeploymentGetResponse {
    /// The name of this deployment
    pub name: String,
    pub settings: Option<DeploymentSettings>,
    /// Whether the deployment is overall healthy or not (one or more of the resource info subsections will have healthy: false)
    pub healthy: bool,
    /// A user-defined deployment alias for user-friendly resource URLs
    pub alias: Option<String>,
    pub observability: Option<DeploymentObservability>,
    /// A randomly-generated id of this Deployment
    pub id: String,
    pub resources: DeploymentResource,
    pub metadata: Option<DeploymentMetadata>,
}

#[derive(Clone, Debug, PartialEq)]
pub struct DeploymentObservability {
    /// Whether the deployment observability is healthy or not (one or more of the subsections will have healthy: false)
    pub healthy: bool,
    pub metrics: Option<DeploymentMetrics>,
    pub logging: Option<DeploymentLogging>,
    /// General observability health issues for the deployment
    pub issues: Option<Vec<ObservabilityIssue>>,
}

#[derive(Clone, Debug, PartialEq)]
pub struct DeploymentMetrics {
    /// Whether the deployment metrics are healthy or not
    pub healthy: bool,
    /// Metrics health issues for the deployment
    pub issues: Option<Vec<ObservabilityIssue>>,
    /// The URLs to view this deployment's metrics in Kibana
    pub urls: Option<std::collections::HashMap<String, String>>,
}

#[derive(Clone, Debug, PartialEq)]
pub struct DeploymentLogging {
    /// Whether the deployment logging is healthy or not
    pub healthy: bool,
    /// Logging health issues for the deployment
    pub issues: Option<Vec<ObservabilityIssue>>,
    /// The URLs to view this deployment's logs in Kibana
    pub urls: Option<std::collections::HashMap<String, String>>,
}

#[derive(Clone, Debug, PartialEq)]
pub struct ObservabilityIssue {
    /// A user-friendly description of the observability health issue
    pub description: String,
    /// Severity of the health issue
    pub severity: String,
}

#[derive(Clone, Debug, PartialEq)]
pub struct DeploymentSettings {
    /// If autoscaling is enabled for this deployment.
    pub autoscaling_enabled: Option<bool>,
    pub observability: Option<DeploymentObservabilitySettings>,
    pub traffic_filter_settings: Option<TrafficFilterSettings>,
}

#[derive(Clone, Debug, PartialEq)]
pub struct DeploymentLoggingSettings {
    pub destination: ObservabilityAbsoluteDeployment,
}

#[derive(Clone, Debug, PartialEq)]
pub struct DeploymentMetricsSettings {
    pub destination: ObservabilityAbsoluteDeployment,
}

#[derive(Clone, Debug, PartialEq)]
pub struct ObservabilityAbsoluteDeployment {
    /// The deployment to send logs and/or metrics to. Contains either the deployment's ID or 'self'.
    pub deployment_id: String,
    /// RefId of the Elasticsearch cluster to send logs and/or metrics to. If not specified, refId is resolved automatically as long as the destination deployment contains a single Elasticsearch resource.
    pub ref_id: Option<String>,
}

#[derive(Clone, Debug, PartialEq)]
pub struct DeploymentResource {
    /// The Elasticsearch cluster that this resource depends on.
    pub elasticsearch_cluster_ref_id: Option<String>,
    /// The kind of resource
    pub kind: Option<String>,
    /// An encoded string that provides other Elastic services with the necessary information to connect to this Elasticsearch and Kibana
    pub cloud_id: Option<String>,
    /// Secret token for using a created resource. Only provided on initial create and absent otherwise.
    pub secret_token: Option<String>,
    /// List of warnings generated from validating resource updates
    pub warnings: Option<Vec<ReplyWarning>>,
    /// Identifier of the region in which this resource runs.
    pub region: Option<String>,
    /// A locally-unique friendly alias for this Elasticsearch cluster
    pub ref_id: Option<String>,
    pub credentials: Option<ClusterCredentials>,
    /// A system-unique id for the created resource
    pub id: Option<String>,
}

#[derive(Clone, Debug, PartialEq)]
pub struct ClusterCredentials {
    /// The username of the newly created cluster
    pub username: String,
    /// The password of the newly created cluster
    pub password: String,
}

#[derive(Clone, Debug, PartialEq)]
pub struct ReplyWarning {
    /// A human readable message describing the warning that occurred
    pub message: Option<String>,
    /// A structured code representing the error type that occurred
    pub code: String,
}

#[derive(Clone, Debug, PartialEq)]
pub struct DeploymentShutdownResponse {
    /// The id of the deployment
    pub id: String,
    pub orphaned: Option<Orphaned>,
    /// The name of the deployment
    pub name: String,
}

#[derive(Clone, Debug, PartialEq)]
pub struct Orphaned {
    /// List of orphaned Enterprise Search resource ids
    pub enterprise_search: Vec<String>,
    /// List of orphaned Kibana resource ids
    pub kibana: Vec<String>,
    /// List of orphaned Elasticsearch resources
    pub elasticsearch: Vec<OrphanedElasticsearch>,
    /// List of orphaned APM resource ids
    pub apm: Vec<String>,
    /// List of orphaned AppSearch resource ids
    pub appsearch: Vec<String>,
    /// List of orphaned Integrations Server resource ids
    pub integrations_server: Vec<String>,
}

#[derive(Clone, Debug, PartialEq)]
pub struct OrphanedElasticsearch {
    /// List of orphaned dependent resources
    pub dependents: Vec<ElasticsearchDependant>,
    /// The id of the orphaned resource
    pub id: String,
}

#[derive(Clone, Debug, PartialEq)]
pub struct ElasticsearchDependant {
    /// The kind of resource
    pub kind: String,
    /// The id of the orphaned resource
    pub id: String,
}

// Settings shared with deployment creation.

#[derive(Clone, Debug, PartialEq)]
pub struct TrafficFilterSettings {
    /// IDs of the traffic filter rulesets
    pub rulesets: Vec<String>,
}

#[derive(Clone, Debug, PartialEq)]
pub struct DeploymentObservabilitySettings {
    pub metrics: Option<DeploymentMetricsSettings>,
    pub logging: Option<DeploymentLoggingSettings>,
}

#[derive(Clone, Debug, PartialEq)]
pub struct DeploymentMetadata {
    /// Arbitrary user-defined metadata associated with this deployment
    pub tags: Option<Vec<MetadataItem>>
}

#[derive(Clone, Debug, PartialEq)]
pub struct MetadataItem {
    /// The metadata value
    pub value: String,
    /// The metadata field name
    pub key: String,
}

/// The compact lines of a deployment listing, one per deployment.
pub open spec fn listing_lines(items: Seq<DeploymentsListingData>) -> Seq<char>
    decreases items.len(),
{
    if items.len() == 0 {
        Seq::empty()
    } else {
        listing_lines(items.drop_last()) + items.last().compact_view() + "\n"@
    }
}

/// How a flag is written out.
pub open spec fn bool_text(b: bool) -> Seq<char> {
    if b {
        "true"@
    } else {
        "false"@
    }
}

impl ResultFormatting for DeploymentsList {
    open spec fn compact_view(&self) -> Seq<char> {
        listing_lines(self.deployments@)
    }

    fn compact(&self) -> (r: String) {
        let mut acc = String::new();
        let mut i: usize = 0;
        while i < self.deployments.len()
            invariant
                i <= self.deployments@.len(),
                acc@ == listing_lines(self.deployments@.take(i as int)),
            decreases self.deployments@.len() - i,
        {
            let line = self.deployments[i].compact();
            acc.append(line.as_str());
            acc.append("\n");
            assert(self.deployments@.take(i + 1).drop_last() =~= self.deployments@.take(i as int));
            i = i + 1;
        }
        assert(self.deployments@.take(i as int) =~= self.deployments@);
        acc
    }
}

impl ResultFormatting for DeploymentsListingData {
    open spec fn compact_view(&self) -> Seq<char> {
        self.name@ + ", "@ + self.id@
    }

    fn compact(&self) -> (r: String) {
        let mut s = self.name.clone();
        s.append(", ");
        s.append(self.id.as_str());
        s
    }
}

impl ResultFormatting for DeploymentGetResponse {
    open spec fn compact_view(&self) -> Seq<char> {
        self.name@ + "/"@ + self.id@ + ": healthy: "@ + bool_text(self.healthy)
    }

    fn compact(&self) -> (r: String) {
        let mut s = self.name.clone();
        s.append("/");
        s.append(self.id.as_str());
        s.append(": healthy: ");
        if self.healthy {
            s.append("true");
        } else {
            s.append("false");
        }
        s
    }
}

impl ResultFormatting for DeploymentShutdownResponse {
    open spec fn compact_view(&self) -> Seq<char> {
        self.id@ + ": "@ + self.name@
    }

    fn compact(&self) -> (r: String) {
        let mut s = self.id.clone();
        s.append(": ");
        s.append(self.name.as_str());
        s
    }
}

} // verus!
