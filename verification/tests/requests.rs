use oxyde_cloud::chunk::ChunkDescriptor;
use oxyde_cloud::client::{resolve_base_url, Client, DEFAULT_BASE_URL};
use oxyde_cloud::config::{AppConfig, CloudConfig, EnvValue, EnvVar};
use oxyde_cloud::net::{LogRequest, NewAppRequest, NewTeamRequest, NoBody, SetTeamNameRequest};
use oxyde_cloud::request::{
    is_valid_header_value, Body, ClientBuilder, Form, Header, JsonBody, Method, Part,
};

fn header(name: &str, value: &str) -> Header {
    Header { name: name.to_string(), value: value.to_string() }
}

fn client() -> Client {
    Client::new("secret-token".to_string())
}

fn json_post(route: &str, body: &str) -> ClientBuilder {
    ClientBuilder {
        method: Method::Post,
        url: format!("https://oxyde.cloud/api/v1/{route}"),
        headers: vec![
            header("Authorization", "Bearer secret-token"),
            header("Content-Type", "application/json"),
        ],
        body: Body::Text(body.to_string()),
    }
}

#[test]
fn default_base_url_is_the_platform() {
    assert_eq!(DEFAULT_BASE_URL, "https://oxyde.cloud/api/v1/");
    assert_eq!(client().build_route("teams"), "https://oxyde.cloud/api/v1/teams");
}

#[test]
fn runtime_address_wins_over_built_in_address_and_default() {
    let runtime = || Some("http://localhost:3000/".to_string());
    let built_in = || Some("https://staging.oxyde.cloud/api/v1/".to_string());
    assert_eq!(resolve_base_url(runtime(), built_in()), "http://localhost:3000/");
    assert_eq!(resolve_base_url(runtime(), None), "http://localhost:3000/");
    assert_eq!(resolve_base_url(None, built_in()), "https://staging.oxyde.cloud/api/v1/");
    assert_eq!(resolve_base_url(None, None), "https://oxyde.cloud/api/v1/");
}

#[test]
fn routes_follow_the_base_address() {
    let local = Client::with_base_url("k".to_string(), "http://localhost:3000/".to_string());
    assert_eq!(local.build_route("apps/new"), "http://localhost:3000/apps/new");
    assert_eq!(local.post("login").url, "http://localhost:3000/login");
}

#[test]
fn every_request_carries_the_bearer_token() {
    let get = client().get("teams");
    assert_eq!(
        get,
        ClientBuilder {
            method: Method::Get,
            url: "https://oxyde.cloud/api/v1/teams".to_string(),
            headers: vec![header("Authorization", "Bearer secret-token")],
            body: Body::Empty,
        }
    );
    let post = client().post("log");
    assert_eq!(post.method, Method::Post);
    assert_eq!(post.headers, vec![header("Authorization", "Bearer secret-token")]);
    assert_eq!(post.body, Body::Empty);
}

#[test]
fn builder_adds_headers_in_order() {
    let request = ClientBuilder::new(Method::Post, "http://h/r".to_string())
        .header("X-One", "1")
        .auth_header("abc")
        .header("X-One", "2");
    assert_eq!(
        request.headers,
        vec![header("X-One", "1"), header("Authorization", "Bearer abc"), header("X-One", "2")]
    );
    assert_eq!(request.url, "http://h/r");
    assert_eq!(request.body, Body::Empty);
}

#[test]
fn builder_sets_the_body() {
    let request = ClientBuilder::new(Method::Post, "u".to_string()).header("A", "b");
    let request = request.body("{}".to_string());
    assert_eq!(request.body, Body::Text("{}".to_string()));
    assert_eq!(request.headers, vec![header("A", "b")]);
    let form = Form::new().text("k", "v".to_string());
    let request = request.multipart(form);
    assert_eq!(
        request.body,
        Body::Multipart(Form {
            parts: vec![Part::Text { name: "k".to_string(), value: "v".to_string() }]
        })
    );
    assert_eq!(request.headers, vec![header("A", "b")]);
}

#[test]
fn json_sets_the_content_type() {
    let request = ClientBuilder::new(Method::Post, "u".to_string())
        .json(&NewTeamRequest { team_slug: "team".to_string() })
        .unwrap();
    assert_eq!(request.headers, vec![header("Content-Type", "application/json")]);
    assert_eq!(request.body, Body::Text(r#"{"team_slug":"team"}"#.to_string()));
}

#[test]
fn form_keeps_its_parts_in_order() {
    let form = Form::new()
        .file_range("file", "a/b.bin", 10, 20)
        .text("n", "1".to_string())
        .part(Part::Text { name: "m".to_string(), value: "2".to_string() });
    assert_eq!(
        form.parts,
        vec![
            Part::FileRange {
                name: "file".to_string(),
                file_name: "a/b.bin".to_string(),
                offset: 10,
                length: 20
            },
            Part::Text { name: "n".to_string(), value: "1".to_string() },
            Part::Text { name: "m".to_string(), value: "2".to_string() },
        ]
    );
    assert_eq!(Form::new().parts, vec![]);
}

#[test]
fn request_bodies_are_json_objects() {
    let new_app =
        NewAppRequest { team_slug: "the-team".to_string(), app_slug: "the-app".to_string() };
    assert_eq!(new_app.to_json().unwrap(), r#"{"team_slug":"the-team","app_slug":"the-app"}"#);
    let new_team = NewTeamRequest { team_slug: "the-team".to_string() };
    assert_eq!(new_team.to_json().unwrap(), r#"{"team_slug":"the-team"}"#);
    let name =
        SetTeamNameRequest { team_slug: "the-team".to_string(), team_name: "The \"A\" Team".to_string() };
    assert_eq!(
        name.to_json().unwrap(),
        r#"{"team_slug":"the-team","team_name":"The \"A\" Team"}"#
    );
    let log = LogRequest { name: "the-app".to_string() };
    assert_eq!(log.to_json().unwrap(), r#"{"name":"the-app"}"#);
    assert_eq!(NoBody.to_json().unwrap(), "null");
}

#[test]
fn teams_request() {
    assert_eq!(
        client().teams(),
        ClientBuilder {
            method: Method::Get,
            url: "https://oxyde.cloud/api/v1/teams".to_string(),
            headers: vec![header("Authorization", "Bearer secret-token")],
            body: Body::Empty,
        }
    );
}

#[test]
fn new_app_request() {
    assert_eq!(
        client().new_app("the-app", "the-team"),
        Ok(json_post("apps/new", r#"{"team_slug":"the-team","app_slug":"the-app"}"#))
    );
}

#[test]
fn new_team_request() {
    assert_eq!(
        client().new_team("the-team"),
        Ok(json_post("teams/new", r#"{"team_slug":"the-team"}"#))
    );
}

#[test]
fn set_team_name_request() {
    assert_eq!(
        client().set_team_name("the-team", "The Team"),
        Ok(json_post("teams/name", r#"{"team_slug":"the-team","team_name":"The Team"}"#))
    );
}

#[test]
fn login_request() {
    assert_eq!(client().login(), json_post("login", "null"));
}

#[test]
fn log_request() {
    assert_eq!(client().log("the-app"), Ok(json_post("log", r#"{"name":"the-app"}"#)));
}

#[test]
fn upload_done_request_carries_the_manifest() {
    let config = CloudConfig {
        app: AppConfig { slug: "the-app".to_string(), team_id: None },
        env: vec![EnvVar { key: "A".to_string(), value: EnvValue::Text("b".to_string()) }],
    };
    assert_eq!(
        client().upload_done(&config),
        Ok(json_post(
            "apps/upload-done",
            r#"{"app":{"slug":"the-app","team_id":null},"env":{"A":"b"}}"#
        ))
    );
}

#[test]
fn upload_chunk_request() {
    let chunk = ChunkDescriptor { file: 0, index: 2, total_chunks: 3, offset: 20, length: 5 };
    let request = client().upload_chunk("the-app", "target/site/app.wasm", &chunk);
    assert_eq!(
        request,
        ClientBuilder {
            method: Method::Post,
            url: "https://oxyde.cloud/api/v1/apps/upload-file".to_string(),
            headers: vec![
                header("Authorization", "Bearer secret-token"),
                header("app-meta", "the-app"),
            ],
            body: Body::Multipart(Form {
                parts: vec![
                    Part::FileRange {
                        name: "file".to_string(),
                        file_name: "target/site/app.wasm".to_string(),
                        offset: 20,
                        length: 5,
                    },
                    Part::Text { name: "chunk_number".to_string(), value: "2".to_string() },
                    Part::Text { name: "total_chunks".to_string(), value: "3".to_string() },
                ],
            }),
        }
    );
}

#[test]
fn upload_file_has_one_request_for_each_chunk() {
    let requests = client().upload_file("the-app", "big.bin", 4, 25, 10);
    assert_eq!(requests.len(), 3);
    for (index, request) in requests.iter().enumerate() {
        let chunk = ChunkDescriptor::locate(4, 25, 10, index as u64).unwrap();
        assert_eq!(*request, client().upload_chunk("the-app", "big.bin", &chunk));
    }
    let empty = client().upload_file("the-app", "empty.txt", 0, 0, 10);
    assert_eq!(empty.len(), 1);
    assert_eq!(
        empty[0].body,
        Body::Multipart(Form {
            parts: vec![
                Part::FileRange {
                    name: "file".to_string(),
                    file_name: "empty.txt".to_string(),
                    offset: 0,
                    length: 0,
                },
                Part::Text { name: "chunk_number".to_string(), value: "0".to_string() },
                Part::Text { name: "total_chunks".to_string(), value: "1".to_string() },
            ],
        })
    );
}

#[test]
fn header_values_that_can_be_sent() {
    assert!(client().get("teams").has_valid_headers());
    assert!(ClientBuilder::new(Method::Get, "u".to_string()).has_valid_headers());
    let request = ClientBuilder::new(Method::Get, "u".to_string())
        .header("X-Tab", "a\tb")
        .header("X-Latin", "é~ ")
        .header("X-Empty", "");
    assert!(request.has_valid_headers());
}

#[test]
fn header_values_that_cannot_be_sent() {
    for value in ["line\nbreak", "carriage\rreturn", "nul\0", "delete\u{7f}", "bell\u{7}"] {
        let request = ClientBuilder::new(Method::Get, "u".to_string())
            .header("X-Fine", "fine")
            .header("X-Bad", value);
        assert!(!request.has_valid_headers(), "for {value:?}");
    }
    let client = Client::new("token\nInjected: yes".to_string());
    assert!(!client.get("teams").has_valid_headers());
    let chunk = ChunkDescriptor { file: 0, index: 0, total_chunks: 1, offset: 0, length: 0 };
    assert!(!Client::new("k".to_string()).upload_chunk("a\nb", "f", &chunk).has_valid_headers());
}

#[test]
fn duplicate_is_the_same_client() {
    let first = Client::with_base_url("k".to_string(), "http://h/".to_string());
    assert_eq!(first.duplicate().get("r"), first.get("r"));
}

#[test]
fn header_value_is_checked_byte_by_byte() {
    assert!(is_valid_header_value("Bearer abc.DEF-123_~"));
    assert!(is_valid_header_value("\t"));
    assert!(is_valid_header_value("\u{80}\u{ff}"));
    assert!(!is_valid_header_value("\u{1f}"));
    assert!(!is_valid_header_value("a\u{7f}"));
}
