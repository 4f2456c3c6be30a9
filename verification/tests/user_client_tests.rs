use feign::request::accept_response;
use feign::{
    ClientError, HostRound, HttpMethod, PutUserArgs, RequestBody, User, UserClient,
};

#[test]
fn test_find_by_id_builds_the_url() {
    let mut client = UserClient::new("http://h".to_string(), "/api".to_string());
    let plan = client.find_by_id(12).unwrap();
    assert_eq!(plan.method, HttpMethod::Get);
    assert_eq!(plan.url, "http://h/api/find_by_id/12");
    assert!(plan.query.is_empty());
    assert!(matches!(plan.body, RequestBody::Empty));
    assert!(plan.headers.is_empty());
}

#[test]
fn test_not_found_is_a_transport_error_with_the_status() {
    let mut client = UserClient::new("http://h".to_string(), "/api".to_string());
    let plan = client.find_by_id(12).unwrap();
    assert_eq!(plan.url, "http://h/api/find_by_id/12");
    // The transport answered 404: the call fails, carrying the status.
    match accept_response(404, "not here".to_string()) {
        Err(ClientError::HttpStatus { status, body }) => {
            assert_eq!(status, 404);
            assert_eq!(body, "not here");
        }
        other => panic!("a 404 answer must fail the call, got {:?}", other),
    }
}

#[test]
fn test_success_body_decodes_to_the_declared_struct() {
    let mut client = UserClient::new("http://h".to_string(), "/api".to_string());
    let plan = client.find_by_id(12).unwrap();
    assert_eq!(plan.url, "http://h/api/find_by_id/12");
    // The transport answered 200 with a JSON body: the text is accepted
    // and decodes, through the JSON capability, to the declared record.
    let text = accept_response(200, "{\"id\":12,\"name\":\"x\"}".to_string()).unwrap();
    let value: serde_json::Value = serde_json::from_str(&text).unwrap();
    let user = User {
        id: value.get("id").unwrap().as_i64().unwrap(),
        name: value.get("name").unwrap().as_str().unwrap().to_string(),
    };
    assert_eq!(user, User { id: 12, name: "x".to_string() });
}

#[test]
fn test_new_user_carries_the_json_body() {
    let mut client = UserClient::new("http://h".to_string(), "/user".to_string());
    let user = User { id: 123, name: "name".to_string() };
    let plan = client.new_user(&user).unwrap();
    assert_eq!(plan.method, HttpMethod::Post);
    assert_eq!(plan.url, "http://h/user/new_user");
    match plan.body {
        RequestBody::Json(u) => assert_eq!(u, user),
        other => panic!("the body must be the JSON record, got {:?}", other),
    }
}

#[test]
fn test_new_user_bare_string_builds_the_same_request() {
    let mut client = UserClient::new("http://h".to_string(), "/user".to_string());
    let user = User { id: 123, name: "name".to_string() };
    let plan = client.new_user_bare_string(&user).unwrap();
    assert_eq!(plan.method, HttpMethod::Post);
    assert_eq!(plan.url, "http://h/user/new_user");
}

#[test]
fn test_headers_operation_applies_headers_and_body() {
    let mut client = UserClient::new("http://h".to_string(), "/user".to_string());
    let headers = vec![("C".to_string(), "D".to_string())];
    let plan = client.headers(&12, headers.clone()).unwrap();
    assert_eq!(plan.method, HttpMethod::Get);
    assert_eq!(plan.url, "http://h/user/headers");
    assert_eq!(plan.headers, headers);
    match plan.body {
        RequestBody::Json(age) => assert_eq!(age, 12),
        other => panic!("the body must be the JSON age, got {:?}", other),
    }
}

#[test]
fn test_put_user_takes_everything_from_the_bundle() {
    let mut client = UserClient::new("http://h".to_string(), "/user".to_string());
    let args = PutUserArgs {
        id: 123,
        q: "q".to_string(),
        data: User { id: 456, name: "name".to_string() },
        headers: vec![("C".to_string(), "D".to_string())],
    };
    let plan = client.put_user(args).unwrap();
    assert_eq!(plan.method, HttpMethod::Put);
    assert_eq!(plan.url, "http://h/user/put_user/123");
    assert_eq!(plan.query, vec![("q".to_string(), "q".to_string())]);
    assert_eq!(plan.headers, vec![("C".to_string(), "D".to_string())]);
    match plan.body {
        RequestBody::Json(u) => assert_eq!(u, User { id: 456, name: "name".to_string() }),
        other => panic!("the body must be the bundled record, got {:?}", other),
    }
}

#[test]
fn test_builder_assembles_the_client() {
    let rotation =
        HostRound::new(vec!["http://a".to_string(), "http://b".to_string()]).unwrap();
    let client = UserClient::builder()
        .with_host_resolver(rotation)
        .with_base_path("/user".to_string())
        .with_state(41i64)
        .build();
    assert_eq!(client.state().get(), &41);
    let mut user_client = UserClient::from_client(client);
    let first = user_client.find_by_id(1).unwrap();
    let second = user_client.find_by_id(2).unwrap();
    let third = user_client.find_by_id(3).unwrap();
    assert_eq!(first.url, "http://a/user/find_by_id/1");
    assert_eq!(second.url, "http://b/user/find_by_id/2");
    assert_eq!(third.url, "http://a/user/find_by_id/3");
}

#[test]
fn test_bundle_accessors_mirror_the_fields() {
    let args = PutUserArgs {
        id: -7,
        q: "term".to_string(),
        data: User { id: 1, name: "n".to_string() },
        headers: vec![("k".to_string(), "v".to_string())],
    };
    assert_eq!(args.path(), vec![("id".to_string(), "-7".to_string())]);
    assert_eq!(args.query().unwrap(), vec![("q".to_string(), "term".to_string())]);
    match args.body() {
        RequestBody::Json(u) => assert_eq!(u.id, 1),
        other => panic!("the bundle body must be JSON, got {:?}", other),
    }
    assert_eq!(args.headers().unwrap(), vec![("k".to_string(), "v".to_string())]);
}
