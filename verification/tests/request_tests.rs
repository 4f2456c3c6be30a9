use feign::request::{accept_response, build_request};
use feign::{ArgsBundle, ClientError, HttpMethod, RequestBody};

fn pairs(src: &[(&str, &str)]) -> Vec<(String, String)> {
    src.iter().map(|(k, v)| (k.to_string(), v.to_string())).collect()
}

#[test]
fn test_bundle_body_beside_scalar_body_fails() {
    let bundle = ArgsBundle {
        path: Vec::new(),
        query: None,
        body: RequestBody::Json("from-bundle".to_string()),
        headers: None,
    };
    let r = build_request(
        HttpMethod::Post,
        "http://h".to_string(),
        "/api",
        "/op",
        &Vec::new(),
        &Vec::new(),
        RequestBody::Json("scalar".to_string()),
        &Vec::new(),
        Some(bundle),
    );
    match r {
        Err(e) => {
            assert_eq!(e, ClientError::BodyDeclaredTwice);
            assert_eq!(e.message(), "json or form can only once");
        }
        Ok(_) => panic!("a body supplied twice must fail the call"),
    }
}

#[test]
fn test_bundle_without_body_beside_scalar_body_succeeds() {
    let bundle: ArgsBundle<String> = ArgsBundle {
        path: pairs(&[("id", "9")]),
        query: Some(pairs(&[("page", "2")])),
        body: RequestBody::Empty,
        headers: Some(pairs(&[("k", "v")])),
    };
    let plan = build_request(
        HttpMethod::Post,
        "http://h".to_string(),
        "/api",
        "/op/<id>",
        &Vec::new(),
        &pairs(&[("q", "1")]),
        RequestBody::Json("scalar".to_string()),
        &pairs(&[("a", "b")]),
        Some(bundle),
    )
    .unwrap();
    assert_eq!(plan.url, "http://h/api/op/9");
    assert_eq!(plan.query, pairs(&[("q", "1"), ("page", "2")]));
    assert_eq!(plan.headers, pairs(&[("a", "b"), ("k", "v")]));
    match plan.body {
        RequestBody::Json(v) => assert_eq!(v, "scalar"),
        other => panic!("the scalar body must take effect, got {:?}", other),
    }
}

#[test]
fn test_bundle_body_taken_when_no_scalar_body() {
    let bundle = ArgsBundle {
        path: Vec::new(),
        query: None,
        body: RequestBody::Form("fields".to_string()),
        headers: None,
    };
    let plan = build_request(
        HttpMethod::Put,
        "http://h".to_string(),
        "",
        "/op",
        &Vec::new(),
        &Vec::new(),
        RequestBody::Empty,
        &Vec::new(),
        Some(bundle),
    )
    .unwrap();
    match plan.body {
        RequestBody::Form(v) => assert_eq!(v, "fields"),
        other => panic!("the bundle body must take effect, got {:?}", other),
    }
}

#[test]
fn test_scalar_parts_without_bundle() {
    let plan = build_request::<String>(
        HttpMethod::Get,
        "http://h".to_string(),
        "/base",
        "/x/<a>",
        &pairs(&[("a", "1")]),
        &pairs(&[("q", "z")]),
        RequestBody::Empty,
        &pairs(&[("h", "w")]),
        None,
    )
    .unwrap();
    assert_eq!(plan.method, HttpMethod::Get);
    assert_eq!(plan.url, "http://h/base/x/1");
    assert_eq!(plan.query, pairs(&[("q", "z")]));
    assert_eq!(plan.headers, pairs(&[("h", "w")]));
    assert!(matches!(plan.body, RequestBody::Empty));
}

#[test]
fn test_bundle_path_runs_after_scalar_path() {
    let bundle: ArgsBundle<String> = ArgsBundle {
        path: pairs(&[("b", "2")]),
        query: None,
        body: RequestBody::Empty,
        headers: None,
    };
    let plan = build_request(
        HttpMethod::Get,
        "h".to_string(),
        "",
        "/<a>/<b>",
        &pairs(&[("a", "1")]),
        &Vec::new(),
        RequestBody::Empty,
        &Vec::new(),
        Some(bundle),
    )
    .unwrap();
    assert_eq!(plan.url, "h/1/2");
}

#[test]
fn test_plan_carries_the_url_parts() {
    let plan = build_request::<String>(
        HttpMethod::Get,
        "http://h".to_string(),
        "/base",
        "/x/<a>",
        &pairs(&[("a", "1")]),
        &Vec::new(),
        RequestBody::Empty,
        &Vec::new(),
        None,
    )
    .unwrap();
    assert_eq!(plan.host, "http://h");
    assert_eq!(plan.base_path, "/base");
    assert_eq!(plan.path, "/x/1");
    assert_eq!(plan.url, format!("{}{}{}", plan.host, plan.base_path, plan.path));
}

#[test]
fn test_accept_response_success() {
    assert_eq!(accept_response(200, "body".to_string()).unwrap(), "body");
    assert_eq!(accept_response(299, "x".to_string()).unwrap(), "x");
    assert_eq!(accept_response(204, String::new()).unwrap(), "");
}

#[test]
fn test_accept_response_failure_carries_status_and_body() {
    match accept_response(404, "missing".to_string()) {
        Err(ClientError::HttpStatus { status, body }) => {
            assert_eq!(status, 404);
            assert_eq!(body, "missing");
            let e = ClientError::HttpStatus { status, body };
            assert_eq!(e.message(), "http status 404: missing");
        }
        other => panic!("a 404 must be an error, got {:?}", other),
    }
    assert!(accept_response(199, String::new()).is_err());
    assert!(accept_response(300, String::new()).is_err());
    assert!(accept_response(500, String::new()).is_err());
}
