use vstd::prelude::*;

verus! {

/// A parsed command line.
#[derive(Debug)]
pub struct Cli {
    /// enable debug-level logging
    pub verbose: bool,
    /// the format to print the output in
    pub out: OutputType,
    pub command: Types,
}

/// How a fetched or created record is printed.
#[derive(Copy, Clone, Debug, PartialEq, Eq, PartialOrd, Ord, Structural)]
pub enum OutputType {
    /// a one-line summary
    Compact,
    /// an indented dump of every field
    Struct,
    /// pretty-printed JSON with the wire field names
    Json,
}

/// The top-level commands.
#[derive(Debug)]
pub enum Types {
    /// Create a basic config file and default deployment request template at the specified location
    Setup { path: String },
    /// Run a command against a serverless deployment or configuration
    SL(ServerlessCmd),
    /// Run a command against a traditional stateful deployment or configuration
    SF(StatefulCmd),
}

/// Commands on serverless projects.
#[derive(Debug)]
pub enum ServerlessCmd {
    /// List all deployments
    List,
    /// Get a deployment by ID
    Get { id: String },
    /// Reset the serverless credentials for a serverless instance
    ResetCreds { id: String },
    /// Get the status of a deployment
    Status { id: String },
    /// Send a raw request to ESS
    Raw(RawReq),
    /// Delete a deployment
    Delete { ids: Vec<String> },
    /// Create a deployment
    Create {
        /// Name of the project
        name: String,
        /// Region of the project; defaults to the configured one
        region: Option<String>,
        /// Wait for the project to become available before returning
        wait: bool,
        /// Reset the credentials after creating
        reset_creds: bool,
        /// Override the elasticsearch image
        es_docker_override: Option<String>,
        /// Override the kibana image
        kibana_docker_override: Option<String>,
        /// Override the fleet image
        fleet_docker_override: Option<String>,
    },
    /// List all available regions
    Regions,
}

/// Commands on stateful deployments.
#[derive(Debug)]
pub enum StatefulCmd {
    /// list all deployments
    List,
    /// Get a deployment by ID
    Get { id: String },
    /// Shutdown a deployment
    Shutdown { ids: Vec<String> },
    /// Send a raw GET/POST request to ESS
    Raw(RawReq),
    /// Create a new cluster from the template, overriding the values given
    Create { name: Option<String>, region: Option<String>, version: Option<String> },
}

/// A raw passthrough request.
#[derive(Debug)]
pub enum RawReq {
    /// Send a raw GET request
    Get { path: String },
    /// Send a raw POST request
    Post { path: String, body: Option<String> },
}

} // verus!
