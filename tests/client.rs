use esscli::cli::RawReq;
use esscli::client::{check_header_value, check_id, check_response, ESSClient, EssError, HttpMethod, ID_PATTERN};
use esscli::config::{Config, DeploymentSpecificConfig, OptionalTypeConfig, TypeConfig, UserConfig};
use esscli::raw::{format_raw_response, handle_raw_request, raw_output};

const GOOD_ID: &str = "a1b2c3d4e5f6a1b2c3d4e5f6a1b2c3d4";

fn test_config(url: &str) -> Config {
    Config {
        config: UserConfig {
            project: "observability".to_string(),
            key_path: "~/.config/ess/api_key.txt".to_string(),
            default_deployment: "~/.config/ess/deployment.json".to_string(),
        },
        defaults: TypeConfig { url: url.to_string(), base_path: "/api/v1/".to_string() },
        statefull_override: None,
        serverless_override: Some(OptionalTypeConfig {
            url: None,
            base_path: Some("/api/v1/serverless/".to_string()),
            region: Some("aws-eu-west-1".to_string()),
        }),
    }
}

fn test_client() -> ESSClient {
    ESSClient::new(test_config("https://console.example.com"), "secret").unwrap()
}

#[test]
fn id_accepts_hex_like_ids() {
    assert_eq!(check_id(GOOD_ID), Ok(()));
    assert_eq!(check_id("0123456789abcdef0123456789abcdef-xyz"), Ok(()));
    assert_eq!(check_id("aaaaaaaa-bbbb-cccc-dddd-eeeeeeeeeeee"), Ok(()));
}

#[test]
fn id_rejects_names() {
    assert_eq!(check_id("my-project-name"), Err(EssError::InvalidId { id: "my-project-name".to_string() }));
}

#[test]
fn id_rejects_wrong_lengths_and_characters() {
    assert!(check_id(&"a".repeat(31)).is_err());
    assert!(check_id(&"a".repeat(32)).is_ok());
    assert!(check_id(&"a".repeat(36)).is_ok());
    assert!(check_id(&"a".repeat(37)).is_err());
    assert!(check_id("A1B2C3D4E5F6A1B2C3D4E5F6A1B2C3D4").is_err());
    assert!(check_id("a1b2c3d4e5f6a1b2c3d4e5f6a1b2c3d_").is_err());
    assert!(check_id("a1b2c3d4e5f6a1b2c3d4e5f6a1b2c3d4\n").is_err());
    assert!(check_id("").is_err());
    assert_eq!(ID_PATTERN, "^[a-z0-9-]{32,36}$");
}

#[test]
fn error_statuses_fail_without_body() {
    for status in [400u16, 401, 404, 499, 500, 503, 599] {
        assert_eq!(check_response(status, "oops".to_string()), Err(EssError::Http { status }));
    }
}

#[test]
fn other_statuses_return_body() {
    for status in [100u16, 200, 201, 204, 301, 399, 600] {
        assert_eq!(check_response(status, "{}".to_string()), Ok("{}".to_string()));
    }
}

#[test]
fn header_values() {
    assert!(check_header_value("ApiKey abc=="));
    assert!(check_header_value("a\tb"));
    assert!(!check_header_value("ApiKey abc\n"));
    assert!(!check_header_value("ApiKey \u{7f}"));
    assert!(!check_header_value("ApiKey é"));
}

#[test]
fn client_refuses_key_with_newline() {
    let r = ESSClient::new(test_config("https://console.example.com"), "secret\n");
    assert!(matches!(r, Err(EssError::InvalidHeaderValue)));
}

#[test]
fn client_fixed_headers() {
    let c = test_client();
    assert_eq!(
        c.header_pairs(),
        vec![
            ("Content-Type".to_string(), "application/json".to_string()),
            ("Authorization".to_string(), "ApiKey secret".to_string()),
        ]
    );
    assert_eq!(c.config().config.project, "observability");
}

#[test]
fn serverless_base_url_joins_base_path() {
    let c = test_client();
    let sl = c.serverless().unwrap();
    assert_eq!(sl.base_url, "https://console.example.com/api/v1/serverless/");
    assert_eq!(sl.project, "observability");
    let st = c.stateful().unwrap();
    assert_eq!(st.base_url, "https://console.example.com/api/v1/");
}

#[test]
fn mode_client_refuses_bad_url() {
    let c = ESSClient::new(test_config("not a url"), "secret").unwrap();
    assert!(matches!(
        c.serverless(),
        Err(EssError::InvalidUrl { base, relative }) if base == "not a url" && relative == "/api/v1/serverless/"
    ));
    assert!(matches!(c.stateful(), Err(EssError::InvalidUrl { .. })));
}

#[test]
fn get_post_delete_requests() {
    let c = test_client();
    let g = c.get("https://h.example.com/a/b/", "c/d").unwrap();
    assert_eq!(g.method, HttpMethod::Get);
    assert_eq!(g.url, "https://h.example.com/a/b/c/d");
    assert_eq!(g.body, None);
    assert_eq!(g.headers, c.header_pairs());
    let p = c.post("https://h.example.com/a/b/", "/x", Some("{}".to_string())).unwrap();
    assert_eq!(p.method, HttpMethod::Post);
    assert_eq!(p.url, "https://h.example.com/x");
    assert_eq!(p.body, Some("{}".to_string()));
    let d = c.delete("https://h.example.com/a/b", "c").unwrap();
    assert_eq!(d.method, HttpMethod::Delete);
    assert_eq!(d.url, "https://h.example.com/a/c");
}

#[test]
fn raw_requests_resolve_against_url() {
    let c = test_client();
    let cfg = DeploymentSpecificConfig {
        url: "https://console.example.com".to_string(),
        base_path: "/api/v1/".to_string(),
        region: None,
    };
    let g = handle_raw_request(&cfg, &RawReq::Get { path: "/api/v1/regions".to_string() }, &c).unwrap();
    assert_eq!(g.method, HttpMethod::Get);
    assert_eq!(g.url, "https://console.example.com/api/v1/regions");
    let p = handle_raw_request(
        &cfg,
        &RawReq::Post { path: "api/v1/deployments".to_string(), body: Some("{\"a\":1}".to_string()) },
        &c,
    )
    .unwrap();
    assert_eq!(p.method, HttpMethod::Post);
    assert_eq!(p.url, "https://console.example.com/api/v1/deployments");
    assert_eq!(p.body, Some("{\"a\":1}".to_string()));
}

#[test]
fn raw_response_is_pretty_printed() {
    assert_eq!(
        format_raw_response(200, "{\"a\":1,\"b\":2}".to_string()),
        Ok("{\n  \"a\": 1,\n  \"b\": 2\n}".to_string())
    );
    assert_eq!(
        format_raw_response(201, "{\"empty\":{},\"one\":[1]}".to_string()),
        Ok("{\n  \"empty\": {},\n  \"one\": [\n    1\n  ]\n}".to_string())
    );
}

#[test]
fn raw_response_error_status() {
    assert_eq!(format_raw_response(502, "{\"a\":1}".to_string()), Err(EssError::Http { status: 502 }));
}

#[test]
fn raw_output_maps_printer_result() {
    assert_eq!(raw_output(Ok("x".to_string())), Ok("x".to_string()));
    assert_eq!(raw_output(Err("bad".to_string())), Err(EssError::Schema { message: "bad".to_string() }));
}
