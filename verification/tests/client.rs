use discovery::{
    AppMap, DataCenterInfo, EurekaClient, EurekaError, Instance, Json, LeaseInfo, Method, Outcome,
    PortData, Request, StatusType,
};

const BASE: &str = "http://localhost:8761/eureka/apps";

fn get_client() -> EurekaClient {
    EurekaClient::new(BASE.to_string())
}

fn dummy() -> Instance {
    Instance {
        host_name: "127.0.0.1".into(),
        app: "myapp".into(),
        ip_addr: "127.0.0.1".into(),
        vip_address: "myapp.example.com".into(),
        secure_vip_address: Some("myapp.example.com".into()),
        status: StatusType::Up,
        port: Some(PortData::new(8787, true)),
        secure_port: PortData::new(8787, true),
        home_page_url: "http://127.0.0.1:8787/".into(),
        status_page_url: "http://127.0.0.1:8787/status".into(),
        health_check_url: "http://127.0.0.1:8787/helth".into(),
        data_center_info: DataCenterInfo::default(),
        lease_info: Some(LeaseInfo { eviction_duration_in_secs: None }),
        metadata: None,
    }
}

/// A registry that holds what was registered with it, as far as these tests ask.
fn registry(request: Request) -> Outcome {
    match request.method {
        Method::Post => Outcome::Response { status: 204, body: String::new() },
        Method::Get => Outcome::Response { status: 200, body: snapshot_with_myapp() },
    }
}

fn snapshot_with_myapp() -> String {
    r#"{"applications":{"versions__delta":"1","application":[{"name":"MYAPP","instance":[
        {"hostName":"127.0.0.1","app":"MYAPP","ipAddr":"127.0.0.1","vipAddress":"myapp.example.com",
         "secureVipAddress":"myapp.example.com","status":"UP",
         "port":{"$":8787,"@enabled":"true"},"securePort":{"$":8787,"@enabled":"true"},
         "homePageUrl":"http://127.0.0.1:8787/","statusPageUrl":"http://127.0.0.1:8787/status",
         "healthCheckUrl":"http://127.0.0.1:8787/helth",
         "dataCenterInfo":{"@class":"com.netflix.appinfo.InstanceInfo$DefaultDataCenterInfo","name":"MyOwn"},
         "leaseInfo":{"renewalIntervalInSecs":30,"durationInSecs":90}}]}]}}"#
        .to_string()
}

fn register_dummy() -> Result<(), EurekaError> {
    let c = get_client();
    c.register("myapp", &dummy(), registry)
}

#[test]
fn integration_client_register() {
    let res = register_dummy();
    assert!(res.is_ok(), "{:?}", res.err());
    // calling twice still should work
    let res = register_dummy();
    assert!(res.is_ok(), "{:?}", res.err());
}

#[test]
fn integration_get_all() {
    let c = get_client();
    register_dummy().unwrap();
    let res = c.get_all(registry);
    assert!(res.is_ok(), "{:?}", res.err());
    let res = res.unwrap();
    assert!(
        res.applications.get("MYAPP").is_some(),
        "The returned apps state doesn't have MYAPP"
    );
}

#[test]
fn integration_register_and_get() {
    register_dummy().unwrap();
    let c = get_client();
    let res = c.get("MYAPP", registry);
    assert!(res.is_ok());
    let res = res.unwrap();
    assert!(res.len() == 1);
}

#[test]
fn register_asks_with_post_under_the_encoded_name() {
    let instance = dummy();
    let request = get_client().register_request("my app#1", &instance);
    assert_eq!(request.method, Method::Post);
    assert_eq!(request.url, "http://localhost:8761/eureka/apps/my%20app%231");
    assert_eq!(request.accept, "application/json");
    assert_eq!(
        request.body,
        Some(Json::Object(vec![("instance".to_string(), instance.to_json())]))
    );
}

#[test]
fn register_hands_its_request_to_the_transport_once() {
    let mut seen: Vec<(Method, String, String, bool)> = Vec::new();
    let res = get_client().register("myapp", &dummy(), |request: Request| {
        seen.push((request.method, request.url, request.accept, request.body.is_some()));
        Outcome::Response { status: 204, body: String::new() }
    });
    assert_eq!(res, Ok(()));
    assert_eq!(
        seen,
        vec![(
            Method::Post,
            "http://localhost:8761/eureka/apps/myapp".to_string(),
            "application/json".to_string(),
            true
        )]
    );
}

#[test]
fn register_succeeds_on_204_only() {
    let verdict = |status: u16, body: &str| {
        EurekaClient::register_result(Outcome::Response { status, body: body.to_string() })
    };
    assert_eq!(verdict(204, ""), Ok(()));
    assert_eq!(verdict(204, "ignored"), Ok(()));
    assert_eq!(verdict(200, "{\"ok\":true}"), Err(EurekaError::Http(200, "{\"ok\":true}".into())));
    assert_eq!(verdict(201, ""), Err(EurekaError::Http(201, String::new())));
    assert_eq!(verdict(205, ""), Err(EurekaError::Http(205, String::new())));
    assert_eq!(verdict(404, "no"), Err(EurekaError::Http(404, "no".into())));
    assert_eq!(verdict(500, "boom"), Err(EurekaError::Http(500, "boom".into())));
}

#[test]
fn register_with_200_fails_through_the_client_too() {
    let res = get_client().register("myapp", &dummy(), |_request: Request| Outcome::Response {
        status: 200,
        body: "registered".to_string(),
    });
    assert_eq!(res, Err(EurekaError::Http(200, "registered".into())));
}

#[test]
fn transport_failure_is_a_network_error() {
    assert_eq!(
        EurekaClient::register_result(Outcome::Transport("connection refused".into())),
        Err(EurekaError::Network("connection refused".into()))
    );
    let res = get_client().get_all(|_request: Request| Outcome::Transport("timed out".into()));
    assert_eq!(res.unwrap_err(), EurekaError::Network("timed out".into()));
    let res = get_client().get("A", |_request: Request| Outcome::Transport("dns".into()));
    assert_eq!(res.unwrap_err(), EurekaError::Network("dns".into()));
}

#[test]
fn unreadable_body_is_an_io_error() {
    assert_eq!(
        EurekaClient::snapshot_result(Outcome::Unreadable("reset".into())).unwrap_err(),
        EurekaError::IOError("reset".into())
    );
    assert_eq!(
        EurekaClient::register_result(Outcome::Unreadable("reset".into())),
        Err(EurekaError::IOError("reset".into()))
    );
}

#[test]
fn snapshot_is_asked_with_get_at_the_base_url() {
    let request = get_client().snapshot_request();
    assert_eq!(request.method, Method::Get);
    assert_eq!(request.url, BASE);
    assert_eq!(request.accept, "application/json");
    assert_eq!(request.body, None);
}

#[test]
fn snapshot_is_decoded_under_any_status_of_the_200s() {
    for status in [200u16, 204, 299] {
        let res = EurekaClient::snapshot_result(Outcome::Response {
            status,
            body: snapshot_with_myapp(),
        });
        assert!(res.unwrap().applications.contains_key("MYAPP"));
    }
}

#[test]
fn snapshot_is_not_decoded_under_another_status() {
    for status in [199u16, 300, 302, 404, 503] {
        let res = EurekaClient::snapshot_result(Outcome::Response {
            status,
            body: snapshot_with_myapp(),
        });
        assert_eq!(res.unwrap_err(), EurekaError::Http(status, snapshot_with_myapp()));
    }
}

#[test]
fn malformed_body_is_a_parse_error() {
    let res = get_client()
        .get_all(|_request: Request| Outcome::Response { status: 200, body: "{not json".into() });
    match res {
        Err(EurekaError::ParseError(detail)) => {
            assert!(detail.starts_with("malformed JSON: "), "{}", detail)
        }
        other => panic!("expected a parse error, got {:?}", other),
    }
    let res = EurekaClient::snapshot_result(Outcome::Response { status: 200, body: "{}".into() });
    assert_eq!(res.unwrap_err(), EurekaError::ParseError("missing field applications".into()));
    let res = EurekaClient::snapshot_result(Outcome::Response { status: 200, body: "".into() });
    assert!(matches!(res, Err(EurekaError::ParseError(_))));
}

#[test]
fn lookup_of_an_absent_name_fails_with_the_name() {
    let res = get_client().get("NAME", registry);
    assert_eq!(res.unwrap_err(), EurekaError::NotFound("NAME".into()));
    // Names are compared letter for letter.
    let res = get_client().get("myapp", registry);
    assert_eq!(res.unwrap_err(), EurekaError::NotFound("myapp".into()));
    let res = EurekaClient::lookup_result(
        "NAME",
        Outcome::Response { status: 200, body: r#"{"applications":{"application":[]}}"#.into() },
    );
    assert_eq!(res.unwrap_err(), EurekaError::NotFound("NAME".into()));
}

#[test]
fn lookup_of_a_present_name_gives_its_instances() {
    let found = get_client().get("MYAPP", registry).unwrap();
    assert_eq!(found.len(), 1);
    assert_eq!(found[0].app, "MYAPP");
    assert_eq!(found[0].port.unwrap().value(), Some(8787));
    let empty = EurekaClient::lookup_result(
        "IDLE",
        Outcome::Response {
            status: 200,
            body: r#"{"applications":{"application":[{"name":"IDLE","instance":[]}]}}"#.into(),
        },
    );
    assert_eq!(empty, Ok(vec![]));
}

#[test]
fn lookup_passes_every_other_failure_on() {
    let res = EurekaClient::lookup_result("A", Outcome::Response { status: 500, body: "x".into() });
    assert_eq!(res.unwrap_err(), EurekaError::Http(500, "x".into()));
    let res = EurekaClient::lookup_result("A", Outcome::Response { status: 200, body: "x".into() });
    assert!(matches!(res, Err(EurekaError::ParseError(_))));
}

#[test]
fn errors_read_as_one_line() {
    assert_eq!(EurekaError::Network("refused".into()).message(), "Network error refused");
    assert_eq!(EurekaError::Http(404, "body".into()).message(), "Unexpected status code 404");
    assert_eq!(EurekaError::Http(0, String::new()).message(), "Unexpected status code 0");
    assert_eq!(EurekaError::Http(65535, String::new()).message(), "Unexpected status code 65535");
    assert_eq!(
        EurekaError::UnexpectedState("odd".into()).message(),
        "Unexpected state encountered: odd"
    );
    assert_eq!(EurekaError::ParseError("bad".into()).message(), "Parsing error bad");
    assert_eq!(EurekaError::IOError("reset".into()).message(), "IO error: reset");
    assert_eq!(EurekaError::NotFound("MYAPP".into()).message(), "App MYAPP not found in registry");
}

#[test]
fn mapping_holds_each_name_once() {
    let mut apps = AppMap::new();
    assert!(!apps.contains_key("A"));
    apps.insert("A".to_string(), vec![dummy(), dummy()]);
    apps.insert("B".to_string(), vec![]);
    assert_eq!(apps.get("A").unwrap().len(), 2);
    assert!(apps.get("B").unwrap().is_empty());
    apps.insert("A".to_string(), vec![dummy()]);
    assert_eq!(apps.get("A").unwrap().len(), 1);
    assert_eq!(apps.remove("A").unwrap().len(), 1);
    assert!(apps.get("A").is_none());
    assert!(apps.remove("A").is_none());
    assert!(apps.contains_key("B"));
}

#[test]
fn mapping_counts_and_names_its_applications() {
    let mut apps = AppMap::new();
    assert!(apps.is_empty());
    assert_eq!(apps.len(), 0);
    apps.insert("B".to_string(), vec![]);
    apps.insert("A".to_string(), vec![dummy()]);
    apps.insert("B".to_string(), vec![dummy()]);
    assert!(!apps.is_empty());
    assert_eq!(apps.len(), 2);
    assert_eq!(apps.names(), vec!["B".to_string(), "A".to_string()]);
    let copy = apps.clone();
    assert_eq!(copy.len(), 2);
    assert_eq!(copy.get("A"), apps.get("A"));
    assert_eq!(copy.get("B"), apps.get("B"));
}

#[test]
fn instance_and_datacenter_checks() {
    assert!(dummy().is_well_formed());
    assert!(!Instance { app: String::new(), ..dummy() }.is_well_formed());
    assert!(!Instance { host_name: String::new(), ..dummy() }.is_well_formed());
    assert!(DataCenterInfo::default().is_consistent());
    let mut hosted = DataCenterInfo::default();
    hosted.name = discovery::DcNameType::Amazon;
    assert!(!hosted.is_consistent());
}
