use feign::params::compile_operation;
use feign::{Client, ClientBuilder, HttpMethod, ParamDecl, RequestBody, State};

#[test]
fn test_method_names_round_trip() {
    let all = [
        (HttpMethod::Get, "get"),
        (HttpMethod::Post, "post"),
        (HttpMethod::Put, "put"),
        (HttpMethod::Patch, "patch"),
        (HttpMethod::Delete, "delete"),
        (HttpMethod::Head, "head"),
    ];
    for (m, n) in all {
        assert_eq!(m.name(), n);
        assert_eq!(HttpMethod::from_name(n), Some(m));
    }
    assert_eq!(HttpMethod::from_name("options"), None);
    assert_eq!(HttpMethod::from_name(""), None);
    assert_eq!(HttpMethod::from_name("GET"), None);
}

#[test]
fn test_compiled_operation_drives_the_dispatch() {
    let decls = vec![ParamDecl { name: "id".to_string(), tag: Some("path".to_string()) }];
    let op = compile_operation(
        "find_by_id".to_string(),
        HttpMethod::Get,
        "/find_by_id/<id>".to_string(),
        &decls,
    )
    .unwrap();
    let mut client: Client<String, ()> = Client {
        host: "http://h".to_string(),
        path: "/api".to_string(),
        state: State::new(()),
    };
    let subs = vec![("id".to_string(), "12".to_string())];
    let plan = client
        .prepare_operation::<()>(&op, &subs, &Vec::new(), RequestBody::Empty, &Vec::new(), None)
        .unwrap();
    assert_eq!(plan.method, HttpMethod::Get);
    assert_eq!(plan.url, "http://h/api/find_by_id/12");
}

#[test]
fn test_builder_steps_keep_earlier_choices() {
    let client = ClientBuilder::new()
        .with_host("http://h".to_string())
        .with_base_path("/api".to_string())
        .build();
    assert_eq!(client.host, "http://h");
    assert_eq!(client.path, "/api");
}
