use vstd::prelude::*;
use crate::client::{check_id, is_valid_id, ESSClient, EssError, HttpMethod, HttpRequest};

verus! {

/// Client for stateful deployments, normally obtained from
/// `ESSClient::stateful`. Every operation yields the request to send.
pub struct StatefulClient<'a> {
    pub client: &'a ESSClient,
    pub base_url: String,
}

/// The path of one deployment.
pub open spec fn deployment_path(id: Seq<char>) -> Seq<char> {
    "deployments/"@ + id
}

/// The path that shuts a deployment down.
pub open spec fn shutdown_path(id: Seq<char>) -> Seq<char> {
    deployment_path(id) + "/_shutdown"@
}

impl<'a> StatefulClient<'a> {
    fn item_path(id: &str) -> (r: String)
        ensures
            r@ == deployment_path(id@),
    {
        let mut path = String::from_str("deployments/");
        path.append(id);
        path
    }

    /// The request that lists all deployments.
    pub fn list(&self) -> (r: Result<HttpRequest, EssError>)
        ensures
            self.client.is_request_for(r, HttpMethod::Get, self.base_url@, "deployments"@, None),
    {
        self.client.get(self.base_url.as_str(), "deployments")
    }

    /// The request that fetches one deployment; an ID of the wrong shape is
    /// refused before any request exists.
    pub fn get(&self, id: &str) -> (r: Result<HttpRequest, EssError>)
        ensures
            !is_valid_id(id@) ==> (r matches Err(EssError::InvalidId { id: bad }) && bad@ == id@),
            is_valid_id(id@) ==> self.client.is_request_for(
                r,
                HttpMethod::Get,
                self.base_url@,
                deployment_path(id@),
                None,
            ),
    {
        check_id(id)?;
        let path = Self::item_path(id);
        self.client.get(self.base_url.as_str(), path.as_str())
    }

    /// The request that shuts a deployment down.
    pub fn shutdown(&self, id: &str) -> (r: Result<HttpRequest, EssError>)
        ensures
            !is_valid_id(id@) ==> (r matches Err(EssError::InvalidId { id: bad }) && bad@ == id@),
            is_valid_id(id@) ==> self.client.is_request_for(
                r,
                HttpMethod::Post,
                self.base_url@,
                shutdown_path(id@),
                None,
            ),
    {
        check_id(id)?;
        let mut path = Self::item_path(id);
        path.append("/_shutdown");
        self.client.post(self.base_url.as_str(), path.as_str(), None)
    }

    /// The request that creates a deployment, given the JSON text of its
    /// `DeploymentCreateRequest` body.
    pub fn create(&self, body: String) -> (r: Result<HttpRequest, EssError>)
        ensures
            self.client.is_request_for(r, HttpMethod::Post, self.base_url@, "deployments"@, Some(body@)),
    {
        self.client.post(self.base_url.as_str(), "deployments", Some(body))
    }
}

} // verus!
