use discovery::{Applications, DecodeError, Instance, Json, StatusType};

const REG: &str = r#"{
        "applications": {
          "versions__delta": "1",
          "apps__hashcode": "UP_2_",
          "application": [
            {
              "name": "A-BOOTIFUL-CLIENT",
              "instance": [
                {
                  "instanceId": "172.16.200.36:a-bootiful-client:8082",
                  "hostName": "172.16.200.36",
                  "app": "A-BOOTIFUL-CLIENT",
                  "ipAddr": "172.16.200.36",
                  "status": "UP",
                  "overriddenStatus": "UNKNOWN",
                  "port": {
                    "$": 8082,
                    "@enabled": "true"
                  },
                  "securePort": {
                    "$": 443,
                    "@enabled": "false"
                  },
                  "countryId": 1,
                  "dataCenterInfo": {
                    "@class": "com.netflix.appinfo.InstanceInfo$DefaultDataCenterInfo",
                    "name": "MyOwn"
                  },
                  "leaseInfo": {
                    "renewalIntervalInSecs": 30,
                    "durationInSecs": 90,
                    "registrationTimestamp": 1623337208578,
                    "lastRenewalTimestamp": 1623337208578,
                    "evictionTimestamp": 0,
                    "serviceUpTimestamp": 1623337208067
                  },
                  "metadata": {
                    "management.port": "8082"
                  },
                  "homePageUrl": "http://172.16.200.36:8082/",
                  "statusPageUrl": "http://172.16.200.36:8082/actuator/info",
                  "healthCheckUrl": "http://172.16.200.36:8082/actuator/health",
                  "vipAddress": "a-bootiful-client",
                  "secureVipAddress": "a-bootiful-client",
                  "isCoordinatingDiscoveryServer": "false",
                  "lastUpdatedTimestamp": "1623337208578",
                  "lastDirtyTimestamp": "1623337208042",
                  "actionType": "ADDED"
                },
                {
                  "instanceId": "172.16.200.36:a-bootiful-client",
                  "hostName": "172.16.200.36",
                  "app": "A-BOOTIFUL-CLIENT",
                  "ipAddr": "172.16.200.36",
                  "status": "UP",
                  "overriddenStatus": "UNKNOWN",
                  "port": {
                    "$": 8080,
                    "@enabled": "true"
                  },
                  "securePort": {
                    "$": 443,
                    "@enabled": "false"
                  },
                  "countryId": 1,
                  "dataCenterInfo": {
                    "@class": "com.netflix.appinfo.InstanceInfo$DefaultDataCenterInfo",
                    "name": "MyOwn"
                  },
                  "leaseInfo": {
                    "renewalIntervalInSecs": 30,
                    "durationInSecs": 90,
                    "registrationTimestamp": 1623337120451,
                    "lastRenewalTimestamp": 1623337300467,
                    "evictionTimestamp": 0,
                    "serviceUpTimestamp": 1623337119939
                  },
                  "metadata": {
                    "management.port": "8080"
                  },
                  "homePageUrl": "http://172.16.200.36:8080/",
                  "statusPageUrl": "http://172.16.200.36:8080/actuator/info",
                  "healthCheckUrl": "http://172.16.200.36:8080/actuator/health",
                  "vipAddress": "a-bootiful-client",
                  "secureVipAddress": "a-bootiful-client",
                  "isCoordinatingDiscoveryServer": "false",
                  "lastUpdatedTimestamp": "1623337120451",
                  "lastDirtyTimestamp": "1623337119936",
                  "actionType": "ADDED"
                }
              ]
            }
          ]
        }
      }"#;

fn minimal_instance(host: &str) -> String {
    format!(
        r#"{{"hostName":"{}","app":"X","ipAddr":"10.0.0.1","vipAddress":"x","status":"DOWN",
            "securePort":{{"$":443,"@enabled":"false"}},"homePageUrl":"h","statusPageUrl":"s",
            "healthCheckUrl":"c","dataCenterInfo":{{"@class":"k","name":"MyOwn"}}}}"#,
        host
    )
}

fn snapshot_of(applications: &str) -> String {
    format!(r#"{{"applications":{{"application":[{}]}}}}"#, applications)
}

#[test]
fn test_de() {
    let r: Applications = Applications::from_json_text(&REG).unwrap();
    println!("{:#?}", r);
    assert!(r.applications.get("A-BOOTIFUL-CLIENT").unwrap().len() == 2);
}

#[test]
fn fixture_keeps_what_tells_the_instances_apart() {
    let r = Applications::from_json_text(REG).unwrap();
    let instances = r.applications.get("A-BOOTIFUL-CLIENT").unwrap();
    assert_eq!(instances.len(), 2);
    assert_eq!(instances[0].port.unwrap().value(), Some(8082));
    assert_eq!(instances[1].port.unwrap().value(), Some(8080));
    assert_eq!(instances[0].home_page_url, "http://172.16.200.36:8082/");
    assert_eq!(instances[1].home_page_url, "http://172.16.200.36:8080/");
    assert_eq!(
        instances[0].metadata,
        Some(vec![("management.port".to_string(), "8082".to_string())])
    );
    assert_eq!(
        instances[1].metadata,
        Some(vec![("management.port".to_string(), "8080".to_string())])
    );
}

#[test]
fn fixture_fields_are_read_in_full() {
    let r = Applications::from_json_text(REG).unwrap();
    let first = &r.applications.get("A-BOOTIFUL-CLIENT").unwrap()[0];
    assert_eq!(first.host_name, "172.16.200.36");
    assert_eq!(first.app, "A-BOOTIFUL-CLIENT");
    assert_eq!(first.ip_addr, "172.16.200.36");
    assert_eq!(first.vip_address, "a-bootiful-client");
    assert_eq!(first.secure_vip_address, Some("a-bootiful-client".to_string()));
    assert_eq!(first.status, StatusType::Up);
    assert_eq!(first.secure_port.value(), None);
    assert_eq!(first.status_page_url, "http://172.16.200.36:8082/actuator/info");
    assert_eq!(first.health_check_url, "http://172.16.200.36:8082/actuator/health");
    assert_eq!(first.data_center_info.name.to_string(), "MyOwn");
    assert!(first.data_center_info.metadata.is_none());
    // The registry's lease has no eviction duration: what else it reports is dropped.
    assert_eq!(first.lease_info.unwrap().eviction_duration_in_secs, None);
}

#[test]
fn fixture_has_one_application_only() {
    let r = Applications::from_json_text(REG).unwrap();
    assert!(r.applications.contains_key("A-BOOTIFUL-CLIENT"));
    assert!(!r.applications.contains_key("a-bootiful-client"));
    assert!(r.applications.get("OTHER").is_none());
}

#[test]
fn application_without_instances_is_present_and_empty() {
    let text = snapshot_of(r#"{"name":"IDLE","instance":[]}"#);
    let r = Applications::from_json_text(&text).unwrap();
    let instances = r.applications.get("IDLE");
    assert!(instances.is_some());
    assert!(instances.unwrap().is_empty());
}

#[test]
fn snapshot_without_applications_is_empty() {
    let r = Applications::from_json_text(&snapshot_of("")).unwrap();
    assert!(!r.applications.contains_key("IDLE"));
}

#[test]
fn later_application_of_a_name_replaces_the_earlier() {
    let text = snapshot_of(&format!(
        r#"{{"name":"TWICE","instance":[{},{}]}},{{"name":"ONCE","instance":[]}},
           {{"name":"TWICE","instance":[{}]}}"#,
        minimal_instance("a"),
        minimal_instance("b"),
        minimal_instance("c")
    ));
    let r = Applications::from_json_text(&text).unwrap();
    let twice = r.applications.get("TWICE").unwrap();
    assert_eq!(twice.len(), 1);
    assert_eq!(twice[0].host_name, "c");
    assert!(r.applications.get("ONCE").unwrap().is_empty());
}

#[test]
fn text_that_is_no_json_is_a_syntax_fault() {
    let r = Applications::from_json_text("{\"applications\": ");
    match r {
        Err(DecodeError::Syntax(message)) => assert!(!message.is_empty()),
        other => panic!("expected a syntax fault, got {:?}", other),
    }
    assert!(matches!(Applications::from_json_text(""), Err(DecodeError::Syntax(_))));
    assert!(matches!(Applications::from_json_text("{} x"), Err(DecodeError::Syntax(_))));
}

#[test]
fn snapshot_of_another_shape_is_refused() {
    assert_eq!(
        Applications::from_json_text("[]").unwrap_err(),
        DecodeError::InvalidType { field: "Applications".into(), expected: "an object".into() }
    );
    assert_eq!(
        Applications::from_json_text("{}").unwrap_err(),
        DecodeError::MissingField("applications".into())
    );
    assert_eq!(
        Applications::from_json_text(r#"{"applications":[]}"#).unwrap_err(),
        DecodeError::InvalidType { field: "applications".into(), expected: "an object".into() }
    );
    assert_eq!(
        Applications::from_json_text(r#"{"applications":{}}"#).unwrap_err(),
        DecodeError::MissingField("application".into())
    );
    assert_eq!(
        Applications::from_json_text(r#"{"applications":{"application":{}}}"#).unwrap_err(),
        DecodeError::InvalidType { field: "application".into(), expected: "an array".into() }
    );
    assert_eq!(
        Applications::from_json_text(&snapshot_of("7")).unwrap_err(),
        DecodeError::InvalidType { field: "application".into(), expected: "an object".into() }
    );
    assert_eq!(
        Applications::from_json_text(&snapshot_of(r#"{"instance":[]}"#)).unwrap_err(),
        DecodeError::MissingField("name".into())
    );
    assert_eq!(
        Applications::from_json_text(&snapshot_of(r#"{"name":"A"}"#)).unwrap_err(),
        DecodeError::MissingField("instance".into())
    );
    assert_eq!(
        Applications::from_json_text(&snapshot_of(r#"{"name":"A","instance":{}}"#)).unwrap_err(),
        DecodeError::InvalidType { field: "instance".into(), expected: "an array".into() }
    );
}

#[test]
fn one_bad_instance_spoils_the_snapshot() {
    let text = snapshot_of(&format!(
        r#"{{"name":"A","instance":[{},{{"hostName":"x"}}]}}"#,
        minimal_instance("a")
    ));
    assert_eq!(
        Applications::from_json_text(&text).unwrap_err(),
        DecodeError::MissingField("app".into())
    );
}

#[test]
fn first_fault_in_the_list_is_reported() {
    let text = snapshot_of(r#"{"name":"A","instance":[3]},{"name":5,"instance":[]}"#);
    assert_eq!(
        Applications::from_json_text(&text).unwrap_err(),
        DecodeError::InvalidType { field: "Instance".into(), expected: "an object".into() }
    );
}

#[test]
fn snapshot_from_a_document_equals_snapshot_from_its_text() {
    let document = Json::parse(REG).unwrap();
    let r = Applications::from_json(&document).unwrap();
    let again = Applications::from_json_text(REG).unwrap();
    assert_eq!(
        r.applications.get("A-BOOTIFUL-CLIENT"),
        again.applications.get("A-BOOTIFUL-CLIENT")
    );
}

#[test]
fn minimal_instance_decodes() {
    let document = Json::parse(&minimal_instance("h")).unwrap();
    let instance = Instance::from_json(&document).unwrap();
    assert_eq!(instance.host_name, "h");
    assert_eq!(instance.status, StatusType::Down);
    assert_eq!(instance.secure_vip_address, None);
    assert!(instance.port.is_none());
    assert!(instance.lease_info.is_none());
    assert!(instance.metadata.is_none());
}
