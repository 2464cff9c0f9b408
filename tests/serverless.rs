use esscli::client::{ESSClient, EssError, HttpMethod, ResultFormatting};
use esscli::config::{Config, TypeConfig, UserConfig};
use esscli::poller::{CreationPoller, PollAction, DEFAULT_MAX_REFETCHES, POLL_INTERVAL_MS};
use esscli::serverless::{
    create_project_request, Project, ProjectCredentials, ProjectEndpoints, ProjectMetadata, ProjectStatus,
    ProjectsList, Region,
};

const ID: &str = "a1b2c3d4e5f6a1b2c3d4e5f6a1b2c3d4";

fn client() -> ESSClient {
    let cfg = Config {
        statefull_override: None,
        serverless_override: None,
        config: UserConfig {
            default_deployment: "~/.config/ess/api_key".to_string(),
            project: "observability".to_string(),
            key_path: "~/.config/ess/api_key.txt".to_string(),
        },
        defaults: TypeConfig {
            url: "https://global.example.com".to_string(),
            base_path: "/api/v1/serverless/".to_string(),
        },
    };
    ESSClient::new(cfg, "k").unwrap()
}

fn project(name: &str, apm: &str, es: &str, kibana: &str) -> Project {
    Project {
        alias: format!("{}-alias", name),
        id: ID.to_string(),
        metadata: ProjectMetadata {
            created_at: "2023-08-01T10:00:00Z".to_string(),
            created_by: "someone".to_string(),
            organization_id: "42".to_string(),
        },
        name: name.to_string(),
        region_id: "aws-eu-west-1".to_string(),
        cloud_id: "cloud".to_string(),
        endpoints: ProjectEndpoints { apm: apm.to_string(), elasticsearch: es.to_string(), kibana: kibana.to_string() },
        project_type: "observability".to_string(),
    }
}

#[test]
fn serverless_request_paths() {
    let c = client();
    let sl = c.serverless().unwrap();
    let base = "https://global.example.com/api/v1/serverless/";
    let list = sl.list().unwrap();
    assert_eq!((list.method, list.url), (HttpMethod::Get, format!("{}projects/observability", base)));
    let get = sl.get(ID).unwrap();
    assert_eq!((get.method, get.url), (HttpMethod::Get, format!("{}projects/observability/{}", base, ID)));
    let reset = sl.reset_credentials(ID).unwrap();
    assert_eq!(
        (reset.method, reset.url),
        (HttpMethod::Post, format!("{}projects/observability/{}/_reset-credentials", base, ID))
    );
    let status = sl.status(ID).unwrap();
    assert_eq!((status.method, status.url), (HttpMethod::Get, format!("{}projects/observability/{}/status", base, ID)));
    let del = sl.delete(ID).unwrap();
    assert_eq!((del.method, del.url), (HttpMethod::Delete, format!("{}projects/observability/{}", base, ID)));
    let create = sl.create("{\"name\":\"p\"}".to_string()).unwrap();
    assert_eq!((create.method, create.url), (HttpMethod::Post, format!("{}projects/observability", base)));
    assert_eq!(create.body, Some("{\"name\":\"p\"}".to_string()));
    let regions = sl.regions().unwrap();
    assert_eq!((regions.method, regions.url), (HttpMethod::Get, format!("{}regions", base)));
}

#[test]
fn serverless_refuses_names_before_any_request() {
    let c = client();
    let sl = c.serverless().unwrap();
    let bad = EssError::InvalidId { id: "my-project-name".to_string() };
    assert_eq!(sl.get("my-project-name").unwrap_err(), bad);
    assert_eq!(sl.reset_credentials("my-project-name").unwrap_err(), bad);
    assert_eq!(sl.status("my-project-name").unwrap_err(), bad);
    assert_eq!(sl.delete("my-project-name").unwrap_err(), bad);
}

#[test]
fn create_request_region_from_cli_wins() {
    let req = create_project_request(
        "myproj".to_string(),
        Some("aws-eu-west-1".to_string()),
        Some("gcp-us-central1".to_string()),
        None,
        None,
        None,
    )
    .unwrap();
    assert_eq!(req.name, "myproj");
    assert_eq!(req.region_id, "aws-eu-west-1");
    assert!(req.overrides.is_none());
}

#[test]
fn create_request_region_from_config() {
    let req = create_project_request("p".to_string(), None, Some("gcp-us-central1".to_string()), None, None, None)
        .unwrap();
    assert_eq!(req.region_id, "gcp-us-central1");
}

#[test]
fn create_request_without_region_fails() {
    let r = create_project_request("p".to_string(), None, None, Some("img".to_string()), None, None);
    assert!(matches!(r, Err(EssError::MissingRegion)));
}

#[test]
fn create_request_overrides() {
    let req = create_project_request(
        "p".to_string(),
        Some("r".to_string()),
        None,
        None,
        Some("kibana:dev".to_string()),
        Some("fleet:dev".to_string()),
    )
    .unwrap();
    let o = req.overrides.unwrap();
    assert!(o.elasticsearch.is_none());
    assert_eq!(o.kibana.unwrap().docker_image, "kibana:dev");
    assert_eq!(o.fleet.unwrap().docker_image, "fleet:dev");
}

#[test]
fn poller_ready_immediately() {
    let mut poller = CreationPoller::new(DEFAULT_MAX_REFETCHES);
    let p = project("ready", "a", "e", "k");
    match poller.step(p) {
        Ok(PollAction::Ready(p)) => assert_eq!(p.name, "ready"),
        other => panic!("unexpected {:?}", other),
    }
    assert_eq!(poller.refetches, 0);
}

#[test]
fn poller_refetches_twice_then_ready() {
    let fetched = vec![project("myproj", "", "", ""), project("myproj", "a", "", "k"), project("myproj", "a", "e", "k")];
    let mut poller = CreationPoller::new(DEFAULT_MAX_REFETCHES);
    let mut refetches = 0;
    let mut ready = None;
    for p in fetched {
        match poller.step(p).unwrap() {
            PollAction::Refetch { id, delay_ms } => {
                assert_eq!(id, ID);
                assert_eq!(delay_ms, POLL_INTERVAL_MS);
                assert_eq!(delay_ms, 300);
                refetches += 1;
            }
            PollAction::Ready(p) => {
                ready = Some(p);
                break;
            }
        }
    }
    assert_eq!(refetches, 2);
    assert_eq!(poller.refetches, 2);
    let ready = ready.unwrap();
    assert_eq!(ready.endpoints.apm, "a");
    assert_eq!(ready.endpoints.elasticsearch, "e");
    assert_eq!(ready.endpoints.kibana, "k");
}

#[test]
fn poller_times_out() {
    let mut poller = CreationPoller::new(2);
    assert!(matches!(poller.step(project("p", "", "e", "k")), Ok(PollAction::Refetch { .. })));
    assert!(matches!(poller.step(project("p", "a", "", "k")), Ok(PollAction::Refetch { .. })));
    assert_eq!(poller.step(project("p", "a", "e", "")).unwrap_err(), EssError::PollTimeout { refetches: 2 });
}

#[test]
fn create_and_wait_scenario() {
    let req = create_project_request("myproj".to_string(), Some("aws-eu-west-1".to_string()), None, None, None, None)
        .unwrap();
    let created = project(&req.name, "", "", "");
    let mut refetched = vec![project(&req.name, "", "", ""), project(&req.name, "https://apm", "https://es", "https://kb")]
        .into_iter();
    let mut poller = CreationPoller::new(DEFAULT_MAX_REFETCHES);
    let mut current = created;
    let mut fetches = 0;
    let done = loop {
        match poller.step(current).unwrap() {
            PollAction::Ready(p) => break p,
            PollAction::Refetch { .. } => {
                fetches += 1;
                current = refetched.next().unwrap();
            }
        }
    };
    assert_eq!(fetches, 2);
    assert_eq!(done.region_id, req.region_id);
    assert_eq!(done.endpoints.apm, "https://apm");
    assert_eq!(done.endpoints.elasticsearch, "https://es");
    assert_eq!(done.endpoints.kibana, "https://kb");
}

#[test]
fn serverless_compact_formats() {
    let p = project("proj", "a", "e", "k");
    assert_eq!(p.compact(), format!("proj, {}, 2023-08-01T10:00:00Z", ID));
    let list = ProjectsList { items: vec![project("one", "", "", ""), project("two", "", "", "")] };
    assert_eq!(
        list.compact(),
        format!("one, {}, 2023-08-01T10:00:00Z\ntwo, {}, 2023-08-01T10:00:00Z\n", ID, ID)
    );
    assert_eq!(ProjectsList { items: vec![] }.compact(), "");
    let creds = ProjectCredentials { username: "elastic".to_string(), password: "pw".to_string() };
    assert_eq!(creds.compact(), "elastic,pw");
    assert_eq!(ProjectStatus { phase: "initialized".to_string() }.compact(), "initialized");
    let region = Region {
        csp: "aws".to_string(),
        csp_region: "eu-west-1".to_string(),
        id: "aws-eu-west-1".to_string(),
        name: "Ireland".to_string(),
    };
    assert_eq!(region.compact(), "aws-eu-west-1: Ireland (aws)");
}
