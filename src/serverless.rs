use vstd::prelude::*;
use crate::client::{check_id, ESSClient, EssError, HttpMethod, HttpRequest, ResultFormatting};

verus! {

/// Client for serverless projects, normally obtained from
/// `ESSClient::serverless`. Every operation yields the request to send.
pub struct ServerlessClient<'a> {
    pub project: String,
    pub client: &'a ESSClient,
    pub base_url: String,
}

/// List of all serverless projects.
#[derive(Debug)]
pub struct ProjectsList {
    pub items: Vec<Project>,
}

/// Data on an individual serverless project.
#[derive(Debug, Clone)]
pub struct Project {
    pub alias: String,
    pub id: String,
    pub metadata: ProjectMetadata,
    pub name: String,
    pub region_id: String,
    pub cloud_id: String,
    pub endpoints: ProjectEndpoints,
    pub project_type: String,
}

/// Metadata for a serverless project.
#[derive(Debug, Clone)]
pub struct ProjectMetadata {
    pub created_at: String,
    pub created_by: String,
    pub organization_id: String,
}

/// Stack endpoints for a project.
#[derive(Debug, Clone)]
pub struct ProjectEndpoints {
    pub apm: String,
    pub elasticsearch: String,
    pub kibana: String,
}

/// User and password for a project.
#[derive(Debug)]
pub struct ProjectCredentials {
    pub username: String,
    pub password: String,
}

/// The lifecycle phase of a project.
#[derive(Debug)]
pub struct ProjectStatus {
    pub phase: String,
}

/// Data on a cloud region.
#[derive(Debug)]
pub struct Region {
    pub csp: String,
    pub csp_region: String,
    pub id: String,
    pub name: String,
}

/// Overrides for components that can be set during project creation.
#[derive(Debug, Default)]
pub struct ProjectOverrides {
    pub elasticsearch: Option<ApplicationOverride>,
    pub kibana: Option<ApplicationOverride>,
    pub fleet: Option<ApplicationOverride>,
}

/// A replacement container image for one component.
#[derive(Debug)]
pub struct ApplicationOverride {
    pub docker_image: String,
}

/// The body of a project create request.
#[derive(Debug)]
pub struct CreateProject {
    pub name: String,
    pub region_id: String,
    pub overrides: Option<ProjectOverrides>,
}

/// The compact lines of a list of projects, one per project.
pub open spec fn project_lines(items: Seq<Project>) -> Seq<char>
    decreases items.len(),
{
    if items.len() == 0 {
        Seq::empty()
    } else {
        project_lines(items.drop_last()) + items.last().compact_view() + "\n"@
    }
}

impl ResultFormatting for ProjectsList {
    open spec fn compact_view(&self) -> Seq<char> {
        project_lines(self.items@)
    }

    fn compact(&self) -> (r: String) {
        let mut acc = String::new();
        let mut i: usize = 0;
        while i < self.items.len()
            invariant
                i <= self.items@.len(),
                acc@ == project_lines(self.items@.take(i as int)),
            decreases self.items@.len() - i,
        {
            let line = self.items[i].compact();
            acc.append(line.as_str());
            acc.append("\n");
            assert(self.items@.take(i + 1).drop_last() =~= self.items@.take(i as int));
            i = i + 1;
        }
        assert(self.items@.take(i as int) =~= self.items@);
        acc
    }
}

impl ResultFormatting for Project {
    open spec fn compact_view(&self) -> Seq<char> {
        self.name@ + ", "@ + self.id@ + ", "@ + self.metadata.created_at@
    }

    fn compact(&self) -> (r: String) {
        let mut s = self.name.clone();
        s.append(", ");
        s.append(self.id.as_str());
        s.append(", ");
        s.append(self.metadata.created_at.as_str());
        s
    }
}

impl ResultFormatting for ProjectCredentials {
    open spec fn compact_view(&self) -> Seq<char> {
        self.username@ + ","@ + self.password@
    }

    fn compact(&self) -> (r: String) {
        let mut s = self.username.clone();
        s.append(",");
        s.append(self.password.as_str());
        s
    }
}

impl ResultFormatting for ProjectStatus {
    open spec fn compact_view(&self) -> Seq<char> {
        self.phase@
    }

    fn compact(&self) -> (r: String) {
        self.phase.clone()
    }
}

impl ResultFormatting for Region {
    open spec fn compact_view(&self) -> Seq<char> {
        self.id@ + ": "@ + self.name@ + " ("@ + self.csp@ + ")"@
    }

    fn compact(&self) -> (r: String) {
        let mut s = self.id.clone();
        s.append(": ");
        s.append(self.name.as_str());
        s.append(" (");
        s.append(self.csp.as_str());
        s.append(")");
        s
    }
}

/// The path of the project collection.
pub open spec fn projects_path(project: Seq<char>) -> Seq<char> {
    "projects/"@ + project
}

/// The path of one project.
pub open spec fn project_path(project: Seq<char>, id: Seq<char>) -> Seq<char> {
    "projects/"@ + project + "/"@ + id
}

/// The path that resets a project's credentials.
pub open spec fn reset_credentials_path(project: Seq<char>, id: Seq<char>) -> Seq<char> {
    project_path(project, id) + "/_reset-credentials"@
}

/// The path of a project's status.
pub open spec fn status_path(project: Seq<char>, id: Seq<char>) -> Seq<char> {
    project_path(project, id) + "/status"@
}

impl<'a> ServerlessClient<'a> {
    fn collection_path(&self) -> (r: String)
        ensures
            r@ == projects_path(self.project@),
    {
        let mut path = String::from_str("projects/");
        path.append(self.project.as_str());
        path
    }

    fn item_path(&self, id: &str) -> (r: String)
        ensures
            r@ == project_path(self.project@, id@),
    {
        let mut path = self.collection_path();
        path.append("/");
        path.append(id);
        path
    }

    /// The request that lists all projects.
    pub fn list(&self) -> (r: Result<HttpRequest, EssError>)
        ensures
            self.client.is_request_for(r, HttpMethod::Get, self.base_url@, projects_path(self.project@), None),
    {
        let path = self.collection_path();
        self.client.get(self.base_url.as_str(), path.as_str())
    }

    /// The request that fetches one project; an ID of the wrong shape is
    /// refused before any request exists.
    pub fn get(&self, id: &str) -> (r: Result<HttpRequest, EssError>)
        ensures
            !crate::client::is_valid_id(id@) ==> (r matches Err(EssError::InvalidId { id: bad }) && bad@ == id@),
            crate::client::is_valid_id(id@) ==> self.client.is_request_for(
                r,
                HttpMethod::Get,
                self.base_url@,
                project_path(self.project@, id@),
                None,
            ),
    {
        check_id(id)?;
        let path = self.item_path(id);
        self.client.get(self.base_url.as_str(), path.as_str())
    }

    /// The request that resets a project's credentials.
    pub fn reset_credentials(&self, id: &str) -> (r: Result<HttpRequest, EssError>)
        ensures
            !crate::client::is_valid_id(id@) ==> (r matches Err(EssError::InvalidId { id: bad }) && bad@ == id@),
            crate::client::is_valid_id(id@) ==> self.client.is_request_for(
                r,
                HttpMethod::Post,
                self.base_url@,
                reset_credentials_path(self.project@, id@),
                None,
            ),
    {
        check_id(id)?;
        let mut path = self.item_path(id);
        path.append("/_reset-credentials");
        self.client.post(self.base_url.as_str(), path.as_str(), None)
    }

    /// The request that fetches a project's status.
    pub fn status(&self, id: &str) -> (r: Result<HttpRequest, EssError>)
        ensures
            !crate::client::is_valid_id(id@) ==> (r matches Err(EssError::InvalidId { id: bad }) && bad@ == id@),
            crate::client::is_valid_id(id@) ==> self.client.is_request_for(
                r,
                HttpMethod::Get,
                self.base_url@,
                status_path(self.project@, id@),
                None,
            ),
    {
        check_id(id)?;
        let mut path = self.item_path(id);
        path.append("/status");
        self.client.get(self.base_url.as_str(), path.as_str())
    }

    /// The request that deletes a project.
    pub fn delete(&self, id: &str) -> (r: Result<HttpRequest, EssError>)
        ensures
            !crate::client::is_valid_id(id@) ==> (r matches Err(EssError::InvalidId { id: bad }) && bad@ == id@),
            crate::client::is_valid_id(id@) ==> self.client.is_request_for(
                r,
                HttpMethod::Delete,
                self.base_url@,
                project_path(self.project@, id@),
                None,
            ),
    {
        check_id(id)?;
        let path = self.item_path(id);
        self.client.delete(self.base_url.as_str(), path.as_str())
    }

    /// The request that creates a project, given the JSON text of its
    /// `CreateProject` body.
    pub fn create(&self, body: String) -> (r: Result<HttpRequest, EssError>)
        ensures
            self.client.is_request_for(
                r,
                HttpMethod::Post,
                self.base_url@,
                projects_path(self.project@),
                Some(body@),
            ),
    {
        let path = self.collection_path();
        self.client.post(self.base_url.as_str(), path.as_str(), Some(body))
    }

    /// The request that lists all available regions.
    pub fn regions(&self) -> (r: Result<HttpRequest, EssError>)
        ensures
            self.client.is_request_for(r, HttpMethod::Get, self.base_url@, "regions"@, None),
    {
        self.client.get(self.base_url.as_str(), "regions")
    }
}

/// An override of one component's container image, where one is given.
pub open spec fn docker_override(image: Option<String>) -> Option<ApplicationOverride> {
    match image {
        Some(d) => Some(ApplicationOverride { docker_image: d }),
        None => None,
    }
}

/// The create request for a project named `name`. The region given on the
/// command line wins over the configured one; with neither the request is
/// refused. Overrides are sent only when at least one image is given.
pub open spec fn create_project_spec(
    name: String,
    region: Option<String>,
    configured_region: Option<String>,
    es: Option<String>,
    kibana: Option<String>,
    fleet: Option<String>,
) -> Result<CreateProject, EssError> {
    if region is None && configured_region is None {
        Err(EssError::MissingRegion)
    } else {
        Ok(
            CreateProject {
                name,
                region_id: match region {
                    Some(r) => r,
                    None => configured_region->0,
                },
                overrides: if es is None && kibana is None && fleet is None {
                    None
                } else {
                    Some(
                        ProjectOverrides {
                            elasticsearch: docker_override(es),
                            kibana: docker_override(kibana),
                            fleet: docker_override(fleet),
                        },
                    )
                },
            },
        )
    }
}

fn make_override(image: Option<String>) -> (r: Option<ApplicationOverride>)
    ensures
        r == docker_override(image),
{
    match image {
        Some(d) => Some(ApplicationOverride { docker_image: d }),
        None => None,
    }
}

/// Builds the body of a project create request from what the command line
/// gives and the region the configuration resolves to.
pub fn create_project_request(
    name: String,
    region: Option<String>,
    configured_region: Option<String>,
    es_docker_override: Option<String>,
    kibana_docker_override: Option<String>,
    fleet_docker_override: Option<String>,
) -> (r: Result<CreateProject, EssError>)
    ensures
        r == create_project_spec(
            name,
            region,
            configured_region,
            es_docker_override,
            kibana_docker_override,
            fleet_docker_override,
        ),
{
    let region_id = match region {
        Some(r) => r,
        None => match configured_region {
            Some(c) => c,
            None => {
                return Err(EssError::MissingRegion);
            },
        },
    };
    let overrides = if es_docker_override.is_none() && kibana_docker_override.is_none()
        && fleet_docker_override.is_none() {
        None
    } else {
        Some(
            ProjectOverrides {
                elasticsearch: make_override(es_docker_override),
                kibana: make_override(kibana_docker_override),
                fleet: make_override(fleet_docker_override),
            },
        )
    };
    Ok(CreateProject { name, region_id, overrides })
}

} // verus!
