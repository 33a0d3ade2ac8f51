use discovery::{
    bool_from_string, AmazonMetadataType, DataCenterInfo, DcNameType, DecodeError, Instance, Json,
    LeaseInfo, PortData, RegisterRequest, StatusType,
};

fn text(s: &str) -> Json {
    Json::Str(s.to_string())
}

fn object(members: Vec<(&str, Json)>) -> Json {
    Json::Object(members.into_iter().map(|(name, value)| (name.to_string(), value)).collect())
}

fn member<'a>(document: &'a Json, name: &str) -> Option<&'a Json> {
    match document {
        Json::Object(members) => members.iter().find(|m| m.0 == name).map(|m| &m.1),
        _ => None,
    }
}

fn amazon() -> AmazonMetadataType {
    AmazonMetadataType {
        ami_launch_index: Some("0".into()),
        local_hostname: "ip-10-0-0-1.internal".into(),
        availability_zone: "us-east-1a".into(),
        instance_id: "i-0123".into(),
        public_ipv4: None,
        public_hostname: Some("ec2.example.com".into()),
        ami_manifest_path: None,
        local_ipv4: "10.0.0.1".into(),
        hostname: None,
        ami_id: "ami-77".into(),
        instance_type: "t3.micro".into(),
    }
}

fn sample() -> Instance {
    Instance {
        host_name: "127.0.0.1".into(),
        app: "myapp".into(),
        ip_addr: "127.0.0.1".into(),
        vip_address: "myapp.example.com".into(),
        secure_vip_address: Some("myapp.example.com".into()),
        status: StatusType::Up,
        port: Some(PortData::new(8787, true)),
        secure_port: PortData::new(8443, false),
        home_page_url: "http://127.0.0.1:8787/".into(),
        status_page_url: "http://127.0.0.1:8787/status".into(),
        health_check_url: "http://127.0.0.1:8787/helth".into(),
        data_center_info: DataCenterInfo::default(),
        lease_info: Some(LeaseInfo { eviction_duration_in_secs: Some(30) }),
        metadata: Some(vec![
            ("zone".to_string(), "b".to_string()),
            ("rack".to_string(), "12".to_string()),
        ]),
    }
}

fn bare() -> Instance {
    Instance {
        secure_vip_address: None,
        status: StatusType::OutOfService,
        port: None,
        lease_info: None,
        metadata: None,
        ..sample()
    }
}

#[test]
fn port_value_is_there_only_when_enabled() {
    assert_eq!(PortData::new(8082, true).value(), Some(8082));
    assert_eq!(PortData::new(8082, false).value(), None);
    assert_eq!(PortData::new(0, true).value(), Some(0));
    assert_eq!(PortData::new(65535, true).value(), Some(65535));
}

#[test]
fn status_renders_as_its_wire_token() {
    assert_eq!(StatusType::Up.to_string(), "UP");
    assert_eq!(StatusType::Down.to_string(), "DOWN");
    assert_eq!(StatusType::Starting.to_string(), "STARTING");
    assert_eq!(StatusType::OutOfService.to_string(), "OUT_OF_SERVICE");
    assert_eq!(StatusType::Unknown.to_string(), "UNKNOWN");
}

#[test]
fn datacenter_kind_renders_as_its_name() {
    assert_eq!(DcNameType::MyOwn.to_string(), "MyOwn");
    assert_eq!(DcNameType::Amazon.to_string(), "Amazon");
}

#[test]
fn flag_is_read_from_exactly_two_texts() {
    assert_eq!(bool_from_string("@enabled", &text("true")), Ok(true));
    assert_eq!(bool_from_string("@enabled", &text("false")), Ok(false));
}

#[test]
fn any_other_text_is_no_flag_and_is_named() {
    for other in ["TRUE", "False", "yes", "1", "", " true", "true ", "truefalse"] {
        assert_eq!(
            bool_from_string("@enabled", &text(other)),
            Err(DecodeError::InvalidValue {
                field: "@enabled".into(),
                value: other.into(),
                expected: "true or false".into(),
            })
        );
    }
}

#[test]
fn value_that_is_no_text_is_no_flag() {
    for other in [Json::Bool(true), Json::Null, Json::Number(Some(1)), Json::Array(vec![])] {
        assert_eq!(
            bool_from_string("f", &other),
            Err(DecodeError::InvalidType { field: "f".into(), expected: "a string".into() })
        );
    }
}

#[test]
fn port_is_written_with_dollar_and_text_flag() {
    assert_eq!(
        PortData::new(8082, true).to_json(),
        object(vec![("$", Json::Number(Some(8082))), ("@enabled", text("true"))])
    );
    assert_eq!(
        PortData::new(443, false).to_json(),
        object(vec![("$", Json::Number(Some(443))), ("@enabled", text("false"))])
    );
    assert_eq!(
        PortData::new(8082, true).to_json(),
        Json::parse(r#"{"$": 8082, "@enabled": "true"}"#).unwrap()
    );
}

#[test]
fn port_is_read_strictly() {
    let read = |s: &str| PortData::from_json(&Json::parse(s).unwrap());
    assert_eq!(read(r#"{"$":8082,"@enabled":"true"}"#), Ok(PortData::new(8082, true)));
    assert_eq!(read(r#"{"@enabled":"false","$":65535}"#), Ok(PortData::new(65535, false)));
    assert_eq!(read(r#"{"@enabled":"true"}"#), Err(DecodeError::MissingField("$".into())));
    assert_eq!(read(r#"{"$":1}"#), Err(DecodeError::MissingField("@enabled".into())));
    let range = DecodeError::InvalidType {
        field: "$".into(),
        expected: "an integer from 0 to 65535".into(),
    };
    assert_eq!(read(r#"{"$":65536,"@enabled":"true"}"#), Err(range.clone()));
    assert_eq!(read(r#"{"$":-1,"@enabled":"true"}"#), Err(range.clone()));
    assert_eq!(read(r#"{"$":80.5,"@enabled":"true"}"#), Err(range.clone()));
    assert_eq!(read(r#"{"$":"80","@enabled":"true"}"#), Err(range));
    assert_eq!(
        read(r#"{"$":80,"@enabled":true}"#),
        Err(DecodeError::InvalidType { field: "@enabled".into(), expected: "a string".into() })
    );
    assert_eq!(
        read(r#"{"$":80,"@enabled":"on"}"#),
        Err(DecodeError::InvalidValue {
            field: "@enabled".into(),
            value: "on".into(),
            expected: "true or false".into(),
        })
    );
    assert_eq!(
        read("8082"),
        Err(DecodeError::InvalidType { field: "PortData".into(), expected: "an object".into() })
    );
}

#[test]
fn lease_is_written_with_number_or_null() {
    assert_eq!(
        LeaseInfo { eviction_duration_in_secs: Some(90) }.to_json(),
        object(vec![("evictionDurationInSecs", Json::Number(Some(90)))])
    );
    assert_eq!(
        LeaseInfo { eviction_duration_in_secs: None }.to_json(),
        object(vec![("evictionDurationInSecs", Json::Null)])
    );
}

#[test]
fn lease_keeps_the_eviction_duration_only() {
    let read = |s: &str| LeaseInfo::from_json(&Json::parse(s).unwrap());
    assert_eq!(
        read(r#"{"evictionDurationInSecs":45,"durationInSecs":90}"#),
        Ok(LeaseInfo { eviction_duration_in_secs: Some(45) })
    );
    assert_eq!(
        read(r#"{"evictionDurationInSecs":4294967295}"#),
        Ok(LeaseInfo { eviction_duration_in_secs: Some(4294967295) })
    );
    assert_eq!(
        read(r#"{"evictionDurationInSecs":null}"#),
        Ok(LeaseInfo { eviction_duration_in_secs: None })
    );
    assert_eq!(read(r#"{"renewalIntervalInSecs":30}"#), Ok(LeaseInfo { eviction_duration_in_secs: None }));
    let fault = DecodeError::InvalidType {
        field: "evictionDurationInSecs".into(),
        expected: "an integer from 0 to 4294967295 or null".into(),
    };
    assert_eq!(read(r#"{"evictionDurationInSecs":4294967296}"#), Err(fault.clone()));
    assert_eq!(read(r#"{"evictionDurationInSecs":"90"}"#), Err(fault));
    assert_eq!(
        read("[]"),
        Err(DecodeError::InvalidType { field: "LeaseInfo".into(), expected: "an object".into() })
    );
}

#[test]
fn default_datacenter_is_my_own() {
    let d = DataCenterInfo::default();
    assert_eq!(d.name, DcNameType::MyOwn);
    assert!(d.metadata.is_none());
    assert_eq!(
        d.to_json(),
        object(vec![
            ("@class", text("com.netflix.appinfo.InstanceInfo$DefaultDataCenterInfo")),
            ("name", text("MyOwn")),
        ])
    );
}

#[test]
fn amazon_block_is_written_in_kebab_case() {
    let mut d = DataCenterInfo::default();
    d.name = DcNameType::Amazon;
    d.metadata = Some(amazon());
    let document = d.to_json();
    assert_eq!(member(&document, "name"), Some(&text("Amazon")));
    let block = member(&document, "metadata").unwrap();
    assert_eq!(
        block,
        &object(vec![
            ("ami-launch-index", text("0")),
            ("local-hostname", text("ip-10-0-0-1.internal")),
            ("availability-zone", text("us-east-1a")),
            ("instance-id", text("i-0123")),
            ("public-ipv4", Json::Null),
            ("public-hostname", text("ec2.example.com")),
            ("ami-manifest-path", Json::Null),
            ("local-ipv4", text("10.0.0.1")),
            ("hostname", Json::Null),
            ("ami-id", text("ami-77")),
            ("instance-type", text("t3.micro")),
        ])
    );
    assert_eq!(block, &amazon().to_json());
}

#[test]
fn amazon_block_round_trip() {
    let m = amazon();
    assert_eq!(AmazonMetadataType::from_json(&m.to_json()), Ok(m));
}

#[test]
fn amazon_block_may_lack_what_old_agents_omit() {
    let document = Json::parse(
        r#"{"local-hostname":"l","availability-zone":"z","instance-id":"i","local-ipv4":"4",
            "ami-id":"a","instance-type":"t"}"#,
    )
    .unwrap();
    let m = AmazonMetadataType::from_json(&document).unwrap();
    assert_eq!(m.ami_launch_index, None);
    assert_eq!(m.public_ipv4, None);
    assert_eq!(m.public_hostname, None);
    assert_eq!(m.ami_manifest_path, None);
    assert_eq!(m.hostname, None);
    assert_eq!(m.instance_type, "t");
}

#[test]
fn amazon_block_needs_its_required_fields() {
    let document = Json::parse(r#"{"local-hostname":"l","availability-zone":"z"}"#).unwrap();
    assert_eq!(
        AmazonMetadataType::from_json(&document),
        Err(DecodeError::MissingField("instance-id".into()))
    );
    let document = Json::parse(r#"{"ami-launch-index":3}"#).unwrap();
    assert_eq!(
        AmazonMetadataType::from_json(&document),
        Err(DecodeError::InvalidType {
            field: "ami-launch-index".into(),
            expected: "a string or null".into(),
        })
    );
}

#[test]
fn datacenter_round_trip() {
    let plain = DataCenterInfo::default();
    assert_eq!(DataCenterInfo::from_json(&plain.to_json()), Ok(plain));
    let mut hosted = DataCenterInfo::default();
    hosted.name = DcNameType::Amazon;
    hosted.metadata = Some(amazon());
    assert_eq!(DataCenterInfo::from_json(&hosted.to_json()), Ok(hosted));
}

#[test]
fn amazon_datacenter_is_taken_without_its_block() {
    let document = Json::parse(r#"{"@class":"c","name":"Amazon"}"#).unwrap();
    let d = DataCenterInfo::from_json(&document).unwrap();
    assert_eq!(d.name, DcNameType::Amazon);
    assert!(d.metadata.is_none());
}

#[test]
fn datacenter_kind_outside_its_tokens_is_refused() {
    let document = Json::parse(r#"{"@class":"c","name":"Azure"}"#).unwrap();
    assert_eq!(
        DataCenterInfo::from_json(&document),
        Err(DecodeError::InvalidValue {
            field: "name".into(),
            value: "Azure".into(),
            expected: "MyOwn or Amazon".into(),
        })
    );
    let document = Json::parse(r#"{"name":"MyOwn"}"#).unwrap();
    assert_eq!(
        DataCenterInfo::from_json(&document),
        Err(DecodeError::MissingField("@class".into()))
    );
}

#[test]
fn instance_is_written_in_camel_case() {
    let document = sample().to_json();
    let names: Vec<&str> = match &document {
        Json::Object(members) => members.iter().map(|m| m.0.as_str()).collect(),
        _ => panic!("an instance is an object"),
    };
    assert_eq!(
        names,
        vec![
            "hostName",
            "app",
            "ipAddr",
            "vipAddress",
            "secureVipAddress",
            "status",
            "port",
            "securePort",
            "homePageUrl",
            "statusPageUrl",
            "healthCheckUrl",
            "dataCenterInfo",
            "leaseInfo",
            "metadata",
        ]
    );
    assert_eq!(member(&document, "hostName"), Some(&text("127.0.0.1")));
    assert_eq!(member(&document, "app"), Some(&text("myapp")));
    assert_eq!(member(&document, "status"), Some(&text("UP")));
    assert_eq!(member(&document, "port"), Some(&PortData::new(8787, true).to_json()));
    assert_eq!(member(&document, "securePort"), Some(&PortData::new(8443, false).to_json()));
    assert_eq!(
        member(&document, "leaseInfo"),
        Some(&object(vec![("evictionDurationInSecs", Json::Number(Some(30)))]))
    );
    assert_eq!(
        member(&document, "metadata"),
        Some(&object(vec![("zone", text("b")), ("rack", text("12"))]))
    );
}

#[test]
fn absent_options_are_written_as_null() {
    let document = bare().to_json();
    assert_eq!(member(&document, "secureVipAddress"), Some(&Json::Null));
    assert_eq!(member(&document, "port"), Some(&Json::Null));
    assert_eq!(member(&document, "leaseInfo"), Some(&Json::Null));
    assert_eq!(member(&document, "metadata"), Some(&Json::Null));
    assert_eq!(member(&document, "status"), Some(&text("OUT_OF_SERVICE")));
}

#[test]
fn instance_round_trip() {
    let full = sample();
    assert_eq!(Instance::from_json(&full.to_json()), Ok(full));
    let thin = bare();
    assert_eq!(Instance::from_json(&thin.to_json()), Ok(thin));
}

#[test]
fn instance_round_trip_for_every_status() {
    for status in [
        StatusType::Up,
        StatusType::Down,
        StatusType::Starting,
        StatusType::OutOfService,
        StatusType::Unknown,
    ] {
        let instance = Instance { status, ..sample() };
        assert_eq!(Instance::from_json(&instance.to_json()).unwrap().status, status);
    }
}

#[test]
fn register_request_wraps_the_instance() {
    let instance = sample();
    let document = RegisterRequest { instance: &instance }.to_json();
    assert_eq!(document, Json::Object(vec![("instance".to_string(), instance.to_json())]));
}

#[test]
fn instance_faults_name_field_and_expectation() {
    let mut document = sample().to_json();
    if let Json::Object(members) = &mut document {
        members[5].1 = text("RUNNING");
    }
    assert_eq!(
        Instance::from_json(&document),
        Err(DecodeError::InvalidValue {
            field: "status".into(),
            value: "RUNNING".into(),
            expected: "UP, DOWN, STARTING, OUT_OF_SERVICE or UNKNOWN".into(),
        })
    );
    let mut document = sample().to_json();
    if let Json::Object(members) = &mut document {
        members[0].1 = Json::Number(Some(7));
    }
    assert_eq!(
        Instance::from_json(&document),
        Err(DecodeError::InvalidType { field: "hostName".into(), expected: "a string".into() })
    );
    let mut document = sample().to_json();
    if let Json::Object(members) = &mut document {
        members.remove(7);
    }
    assert_eq!(
        Instance::from_json(&document),
        Err(DecodeError::MissingField("securePort".into()))
    );
    let mut document = sample().to_json();
    if let Json::Object(members) = &mut document {
        members[13].1 = object(vec![("zone", Json::Number(Some(1)))]);
    }
    assert_eq!(
        Instance::from_json(&document),
        Err(DecodeError::InvalidType {
            field: "metadata".into(),
            expected: "an object of strings or null".into(),
        })
    );
    assert_eq!(
        Instance::from_json(&Json::Null),
        Err(DecodeError::InvalidType { field: "Instance".into(), expected: "an object".into() })
    );
}

#[test]
fn faults_come_in_the_order_of_the_wire_format() {
    let document = object(vec![("app", Json::Null)]);
    assert_eq!(
        Instance::from_json(&document),
        Err(DecodeError::MissingField("hostName".into()))
    );
    let document = object(vec![("hostName", text("h")), ("app", Json::Null)]);
    assert_eq!(
        Instance::from_json(&document),
        Err(DecodeError::InvalidType { field: "app".into(), expected: "a string".into() })
    );
}

#[test]
fn first_member_of_a_name_is_the_one_read() {
    let document = object(vec![
        ("$", Json::Number(Some(1))),
        ("$", Json::Number(Some(2))),
        ("@enabled", text("true")),
    ]);
    assert_eq!(PortData::from_json(&document), Ok(PortData::new(1, true)));
}

#[test]
fn decode_error_reads_as_one_line() {
    assert_eq!(DecodeError::Syntax("EOF".into()).message(), "malformed JSON: EOF");
    assert_eq!(DecodeError::MissingField("app".into()).message(), "missing field app");
    assert_eq!(
        DecodeError::InvalidType { field: "$".into(), expected: "a number".into() }.message(),
        "invalid type for $: expected a number"
    );
    assert_eq!(
        DecodeError::InvalidValue {
            field: "@enabled".into(),
            value: "yes".into(),
            expected: "true or false".into(),
        }
        .message(),
        "invalid value yes for @enabled: expected true or false"
    );
}

#[test]
fn json_text_is_read_node_by_node() {
    let document = Json::parse(
        r#"{"b": [1, -2, 3.5, 18446744073709551615, "x", null, true, {"k": []}], "a": "é"}"#,
    )
    .unwrap();
    assert_eq!(
        document,
        object(vec![
            ("a", text("\u{e9}")),
            (
                "b",
                Json::Array(vec![
                    Json::Number(Some(1)),
                    Json::Number(None),
                    Json::Number(None),
                    Json::Number(Some(u64::MAX)),
                    text("x"),
                    Json::Null,
                    Json::Bool(true),
                    object(vec![("k", Json::Array(vec![]))]),
                ])
            ),
        ])
    );
}

#[test]
fn json_text_with_a_fault_gives_the_parser_message() {
    let message = Json::parse("{\"a\": }").unwrap_err();
    assert!(message.contains("line 1"), "{}", message);
    assert!(Json::parse("").is_err());
    assert!(Json::parse("nul").is_err());
}
