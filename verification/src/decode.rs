//! The entities read back from the registry's wire format.
//!
//! Each entity has a spec function that says what a JSON document decodes to,
//! a value or the first fault, and a function `from_json` that computes it.
//! Members that the wire format does not list are passed over.

use crate::codec::{find_member, member, same_text, DecodeError, DecodeErrorModel};
use crate::json::{lemma_members_model, members_model, Json, JsonModel};
use crate::models::{
    pairs_text, AmazonMetadataModel, AmazonMetadataType, DataCenterInfo, DataCenterModel,
    DcNameType, Instance, InstanceModel, LeaseInfo, PortData, PortModel, StatusType,
};
use vstd::prelude::*;

verus! {

/// The members of a JSON object.
pub type Members = Seq<(Seq<char>, JsonModel)>;

/// Whether a computed result is the one that a spec function names.
pub open spec fn agrees<T: View>(
    r: Result<T, DecodeError>,
    expected: Result<T::V, DecodeErrorModel>,
) -> bool {
    match r {
        Ok(v) => expected == Ok::<T::V, DecodeErrorModel>(v@),
        Err(e) => expected == Err::<T::V, DecodeErrorModel>(e@),
    }
}

/// As [`agrees`], for a result that is its own view.
pub open spec fn agrees_plain<T>(
    r: Result<T, DecodeError>,
    expected: Result<T, DecodeErrorModel>,
) -> bool {
    match r {
        Ok(v) => expected == Ok::<T, DecodeErrorModel>(v),
        Err(e) => expected == Err::<T, DecodeErrorModel>(e@),
    }
}

/// As [`agrees`], for an optional text.
pub open spec fn agrees_optional_text(
    r: Result<Option<String>, DecodeError>,
    expected: Result<Option<Seq<char>>, DecodeErrorModel>,
) -> bool {
    match r {
        Ok(v) => expected == Ok::<Option<Seq<char>>, DecodeErrorModel>(crate::models::opt_text(v)),
        Err(e) => expected == Err::<Option<Seq<char>>, DecodeErrorModel>(e@),
    }
}

/// The view of an optional value.
pub open spec fn opt_view<T: View>(o: Option<T>) -> Option<T::V> {
    match o {
        Some(v) => Some(v@),
        None => None,
    }
}

/// As [`agrees`], for an optional value.
pub open spec fn agrees_optional<T: View>(
    r: Result<Option<T>, DecodeError>,
    expected: Result<Option<T::V>, DecodeErrorModel>,
) -> bool {
    match r {
        Ok(v) => expected == Ok::<Option<T::V>, DecodeErrorModel>(opt_view(v)),
        Err(e) => expected == Err::<Option<T::V>, DecodeErrorModel>(e@),
    }
}

/// The fault of a value that has another JSON type than `field` takes.
pub open spec fn wrong_type(field: Seq<char>, expected: Seq<char>) -> DecodeErrorModel {
    DecodeErrorModel::InvalidType { field, expected }
}

/// A member that must be there and hold a text.
pub open spec fn text_member(obj: Members, name: Seq<char>) -> Result<Seq<char>, DecodeErrorModel> {
    match member(obj, name) {
        None => Err(DecodeErrorModel::MissingField(name)),
        Some(JsonModel::Str(s)) => Ok(s),
        Some(_) => Err(wrong_type(name, "a string"@)),
    }
}

/// A member that holds a text where it is there and not `null`.
pub open spec fn optional_text_member(obj: Members, name: Seq<char>) -> Result<
    Option<Seq<char>>,
    DecodeErrorModel,
> {
    match member(obj, name) {
        None => Ok(None),
        Some(JsonModel::Null) => Ok(None),
        Some(JsonModel::Str(s)) => Ok(Some(s)),
        Some(_) => Err(wrong_type(name, "a string or null"@)),
    }
}

/// A flag written as a text: exactly `true` or `false`, and nothing else.
pub open spec fn decoded_flag(field: Seq<char>, value: JsonModel) -> Result<bool, DecodeErrorModel> {
    match value {
        JsonModel::Str(s) => if s == "true"@ {
            Ok(true)
        } else if s == "false"@ {
            Ok(false)
        } else {
            Err(DecodeErrorModel::InvalidValue { field, value: s, expected: "true or false"@ })
        },
        _ => Err(wrong_type(field, "a string"@)),
    }
}

/// The state that a wire token stands for.
pub open spec fn status_of_token(token: Seq<char>) -> Option<StatusType> {
    if token == "UP"@ {
        Some(StatusType::Up)
    } else if token == "DOWN"@ {
        Some(StatusType::Down)
    } else if token == "STARTING"@ {
        Some(StatusType::Starting)
    } else if token == "OUT_OF_SERVICE"@ {
        Some(StatusType::OutOfService)
    } else if token == "UNKNOWN"@ {
        Some(StatusType::Unknown)
    } else {
        None
    }
}

/// The member `status` of an instance.
pub open spec fn status_member(obj: Members) -> Result<StatusType, DecodeErrorModel> {
    match text_member(obj, "status"@) {
        Err(e) => Err(e),
        Ok(token) => match status_of_token(token) {
            Some(s) => Ok(s),
            None => Err(
                DecodeErrorModel::InvalidValue {
                    field: "status"@,
                    value: token,
                    expected: "UP, DOWN, STARTING, OUT_OF_SERVICE or UNKNOWN"@,
                },
            ),
        },
    }
}

/// The kind of datacenter that a wire token stands for.
pub open spec fn dc_name_of_token(token: Seq<char>) -> Option<DcNameType> {
    if token == "MyOwn"@ {
        Some(DcNameType::MyOwn)
    } else if token == "Amazon"@ {
        Some(DcNameType::Amazon)
    } else {
        None
    }
}

/// The member `name` of a datacenter.
pub open spec fn dc_name_member(obj: Members) -> Result<DcNameType, DecodeErrorModel> {
    match text_member(obj, "name"@) {
        Err(e) => Err(e),
        Ok(token) => match dc_name_of_token(token) {
            Some(n) => Ok(n),
            None => Err(
                DecodeErrorModel::InvalidValue {
                    field: "name"@,
                    value: token,
                    expected: "MyOwn or Amazon"@,
                },
            ),
        },
    }
}

/// What a port's wire form decodes to. The number must fit sixteen bits.
pub open spec fn decoded_port(value: JsonModel) -> Result<PortModel, DecodeErrorModel> {
    match value {
        JsonModel::Object(obj) => match member(obj, "$"@) {
            None => Err(DecodeErrorModel::MissingField("$"@)),
            Some(JsonModel::Number(Some(n))) => if n <= 0xffff {
                match member(obj, "@enabled"@) {
                    None => Err(DecodeErrorModel::MissingField("@enabled"@)),
                    Some(flag) => match decoded_flag("@enabled"@, flag) {
                        Err(e) => Err(e),
                        Ok(enabled) => Ok(PortModel { value: n as u16, enabled }),
                    },
                }
            } else {
                Err(wrong_type("$"@, "an integer from 0 to 65535"@))
            },
            Some(_) => Err(wrong_type("$"@, "an integer from 0 to 65535"@)),
        },
        _ => Err(wrong_type("PortData"@, "an object"@)),
    }
}

/// A port where the member is there and not `null`.
pub open spec fn optional_port_member(obj: Members, name: Seq<char>) -> Result<
    Option<PortModel>,
    DecodeErrorModel,
> {
    match member(obj, name) {
        None => Ok(None),
        Some(JsonModel::Null) => Ok(None),
        Some(value) => match decoded_port(value) {
            Err(e) => Err(e),
            Ok(p) => Ok(Some(p)),
        },
    }
}

/// A port that must be there.
pub open spec fn port_member(obj: Members, name: Seq<char>) -> Result<PortModel, DecodeErrorModel> {
    match member(obj, name) {
        None => Err(DecodeErrorModel::MissingField(name)),
        Some(value) => decoded_port(value),
    }
}

/// Only the eviction duration is read; what else the registry reports of a
/// lease is passed over.
pub open spec fn decoded_lease(value: JsonModel) -> Result<LeaseInfo, DecodeErrorModel> {
    match value {
        JsonModel::Object(obj) => match member(obj, "evictionDurationInSecs"@) {
            None => Ok(LeaseInfo { eviction_duration_in_secs: None }),
            Some(JsonModel::Null) => Ok(LeaseInfo { eviction_duration_in_secs: None }),
            Some(JsonModel::Number(Some(n))) => if n <= 0xffff_ffff {
                Ok(LeaseInfo { eviction_duration_in_secs: Some(n as u32) })
            } else {
                Err(
                    wrong_type(
                        "evictionDurationInSecs"@,
                        "an integer from 0 to 4294967295 or null"@,
                    ),
                )
            },
            Some(_) => Err(
                wrong_type("evictionDurationInSecs"@, "an integer from 0 to 4294967295 or null"@),
            ),
        },
        _ => Err(wrong_type("LeaseInfo"@, "an object"@)),
    }
}

/// A lease where the member is there and not `null`.
pub open spec fn optional_lease_member(obj: Members, name: Seq<char>) -> Result<
    Option<LeaseInfo>,
    DecodeErrorModel,
> {
    match member(obj, name) {
        None => Ok(None),
        Some(JsonModel::Null) => Ok(None),
        Some(value) => match decoded_lease(value) {
            Err(e) => Err(e),
            Ok(l) => Ok(Some(l)),
        },
    }
}

pub(crate) fn type_fault(field: &str, expected: &str) -> (r: DecodeError)
    ensures
        r@ == wrong_type(field@, expected@),
{
    DecodeError::InvalidType { field: field.to_owned(), expected: expected.to_owned() }
}

pub(crate) fn read_text(members: &Vec<(String, Json)>, name: &str) -> (r: Result<
    String,
    DecodeError,
>)
    ensures
        agrees(r, text_member(members_model(members@), name@)),
{
    match find_member(members, name) {
        None => Err(DecodeError::MissingField(name.to_owned())),
        Some(Json::Str(s)) => Ok(s.clone()),
        Some(_) => Err(type_fault(name, "a string")),
    }
}

pub(crate) fn read_optional_text(members: &Vec<(String, Json)>, name: &str) -> (r: Result<
    Option<String>,
    DecodeError,
>)
    ensures
        agrees_optional_text(r, optional_text_member(members_model(members@), name@)),
{
    match find_member(members, name) {
        None => Ok(None),
        Some(Json::Null) => Ok(None),
        Some(Json::Str(s)) => Ok(Some(s.clone())),
        Some(_) => Err(type_fault(name, "a string or null")),
    }
}

/// Reads a flag that the wire format writes as a text. Only the texts `true`
/// and `false` are flags: any other text is a fault that names it, and a value
/// that is no text is a fault too.
pub fn bool_from_string(field: &str, value: &Json) -> (r: Result<bool, DecodeError>)
    ensures
        agrees_plain(r, decoded_flag(field@, value@)),
{
    match value {
        Json::Str(s) => {
            if same_text(s, "true") {
                Ok(true)
            } else if same_text(s, "false") {
                Ok(false)
            } else {
                Err(
                    DecodeError::InvalidValue {
                        field: field.to_owned(),
                        value: s.clone(),
                        expected: "true or false".to_owned(),
                    },
                )
            }
        },
        _ => Err(type_fault(field, "a string")),
    }
}

pub(crate) fn read_status(members: &Vec<(String, Json)>) -> (r: Result<StatusType, DecodeError>)
    ensures
        agrees_plain(r, status_member(members_model(members@))),
{
    let token = match read_text(members, "status") {
        Ok(t) => t,
        Err(e) => {
            return Err(e);
        },
    };
    if same_text(&token, "UP") {
        Ok(StatusType::Up)
    } else if same_text(&token, "DOWN") {
        Ok(StatusType::Down)
    } else if same_text(&token, "STARTING") {
        Ok(StatusType::Starting)
    } else if same_text(&token, "OUT_OF_SERVICE") {
        Ok(StatusType::OutOfService)
    } else if same_text(&token, "UNKNOWN") {
        Ok(StatusType::Unknown)
    } else {
        Err(
            DecodeError::InvalidValue {
                field: "status".to_owned(),
                value: token,
                expected: "UP, DOWN, STARTING, OUT_OF_SERVICE or UNKNOWN".to_owned(),
            },
        )
    }
}

pub(crate) fn read_dc_name(members: &Vec<(String, Json)>) -> (r: Result<DcNameType, DecodeError>)
    ensures
        agrees_plain(r, dc_name_member(members_model(members@))),
{
    let token = match read_text(members, "name") {
        Ok(t) => t,
        Err(e) => {
            return Err(e);
        },
    };
    if same_text(&token, "MyOwn") {
        Ok(DcNameType::MyOwn)
    } else if same_text(&token, "Amazon") {
        Ok(DcNameType::Amazon)
    } else {
        Err(
            DecodeError::InvalidValue {
                field: "name".to_owned(),
                value: token,
                expected: "MyOwn or Amazon".to_owned(),
            },
        )
    }
}

impl PortData {
    /// Reads a port from its wire form, an object with the number under `$`
    /// and the flag, as a text, under `@enabled`.
    pub fn from_json(value: &Json) -> (r: Result<PortData, DecodeError>)
        ensures
            agrees(r, decoded_port(value@)),
    {
        match value {
            Json::Object(members) => {
                let number = match find_member(members, "$") {
                    None => {
                        return Err(DecodeError::MissingField("$".to_owned()));
                    },
                    Some(Json::Number(Some(n))) => {
                        if *n <= 0xffff {
                            *n as u16
                        } else {
                            return Err(type_fault("$", "an integer from 0 to 65535"));
                        }
                    },
                    Some(_) => {
                        return Err(type_fault("$", "an integer from 0 to 65535"));
                    },
                };
                let enabled = match find_member(members, "@enabled") {
                    None => {
                        return Err(DecodeError::MissingField("@enabled".to_owned()));
                    },
                    Some(flag) => match bool_from_string("@enabled", flag) {
                        Ok(b) => b,
                        Err(e) => {
                            return Err(e);
                        },
                    },
                };
                Ok(PortData { value: number, enabled })
            },
            _ => Err(type_fault("PortData", "an object")),
        }
    }
}

pub(crate) fn read_optional_port(members: &Vec<(String, Json)>, name: &str) -> (r: Result<
    Option<PortData>,
    DecodeError,
>)
    ensures
        agrees_optional(r, optional_port_member(members_model(members@), name@)),
{
    match find_member(members, name) {
        None => Ok(None),
        Some(Json::Null) => Ok(None),
        Some(value) => match PortData::from_json(value) {
            Ok(p) => Ok(Some(p)),
            Err(e) => Err(e),
        },
    }
}

pub(crate) fn read_port(members: &Vec<(String, Json)>, name: &str) -> (r: Result<
    PortData,
    DecodeError,
>)
    ensures
        agrees(r, port_member(members_model(members@), name@)),
{
    match find_member(members, name) {
        None => Err(DecodeError::MissingField(name.to_owned())),
        Some(value) => PortData::from_json(value),
    }
}

impl LeaseInfo {
    /// Reads a lease from its wire form.
    pub fn from_json(value: &Json) -> (r: Result<LeaseInfo, DecodeError>)
        ensures
            agrees_plain(r, decoded_lease(value@)),
    {
        match value {
            Json::Object(members) => match find_member(members, "evictionDurationInSecs") {
                None => Ok(LeaseInfo { eviction_duration_in_secs: None }),
                Some(Json::Null) => Ok(LeaseInfo { eviction_duration_in_secs: None }),
                Some(Json::Number(Some(n))) => {
                    if *n <= 0xffff_ffff {
                        Ok(LeaseInfo { eviction_duration_in_secs: Some(*n as u32) })
                    } else {
                        Err(
                            type_fault(
                                "evictionDurationInSecs",
                                "an integer from 0 to 4294967295 or null",
                            ),
                        )
                    }
                },
                Some(_) => Err(
                    type_fault("evictionDurationInSecs", "an integer from 0 to 4294967295 or null"),
                ),
            },
            _ => Err(type_fault("LeaseInfo", "an object")),
        }
    }
}

pub(crate) fn read_optional_lease(members: &Vec<(String, Json)>, name: &str) -> (r: Result<
    Option<LeaseInfo>,
    DecodeError,
>)
    ensures
        agrees_plain(r, optional_lease_member(members_model(members@), name@)),
{
    match find_member(members, name) {
        None => Ok(None),
        Some(Json::Null) => Ok(None),
        Some(value) => match LeaseInfo::from_json(value) {
            Ok(l) => Ok(Some(l)),
            Err(e) => Err(e),
        },
    }
}

/// What an Amazon block's wire form decodes to.
pub open spec fn decoded_amazon(value: JsonModel) -> Result<AmazonMetadataModel, DecodeErrorModel> {
    match value {
        JsonModel::Object(obj) => {
            let ami_launch_index = optional_text_member(obj, "ami-launch-index"@);
            let local_hostname = text_member(obj, "local-hostname"@);
            let availability_zone = text_member(obj, "availability-zone"@);
            let instance_id = text_member(obj, "instance-id"@);
            let public_ipv4 = optional_text_member(obj, "public-ipv4"@);
            let public_hostname = optional_text_member(obj, "public-hostname"@);
            let ami_manifest_path = optional_text_member(obj, "ami-manifest-path"@);
            let local_ipv4 = text_member(obj, "local-ipv4"@);
            let hostname = optional_text_member(obj, "hostname"@);
            let ami_id = text_member(obj, "ami-id"@);
            let instance_type = text_member(obj, "instance-type"@);
            if ami_launch_index is Err {
                Err(ami_launch_index->Err_0)
            } else if local_hostname is Err {
                Err(local_hostname->Err_0)
            } else if availability_zone is Err {
                Err(availability_zone->Err_0)
            } else if instance_id is Err {
                Err(instance_id->Err_0)
            } else if public_ipv4 is Err {
                Err(public_ipv4->Err_0)
            } else if public_hostname is Err {
                Err(public_hostname->Err_0)
            } else if ami_manifest_path is Err {
                Err(ami_manifest_path->Err_0)
            } else if local_ipv4 is Err {
                Err(local_ipv4->Err_0)
            } else if hostname is Err {
                Err(hostname->Err_0)
            } else if ami_id is Err {
                Err(ami_id->Err_0)
            } else if instance_type is Err {
                Err(instance_type->Err_0)
            } else {
                Ok(
                    AmazonMetadataModel {
                        ami_launch_index: ami_launch_index->Ok_0,
                        local_hostname: local_hostname->Ok_0,
                        availability_zone: availability_zone->Ok_0,
                        instance_id: instance_id->Ok_0,
                        public_ipv4: public_ipv4->Ok_0,
                        public_hostname: public_hostname->Ok_0,
                        ami_manifest_path: ami_manifest_path->Ok_0,
                        local_ipv4: local_ipv4->Ok_0,
                        hostname: hostname->Ok_0,
                        ami_id: ami_id->Ok_0,
                        instance_type: instance_type->Ok_0,
                    },
                )
            }
        },
        _ => Err(wrong_type("AmazonMetadataType"@, "an object"@)),
    }
}

/// An Amazon block where the member is there and not `null`.
pub open spec fn optional_amazon_member(obj: Members, name: Seq<char>) -> Result<
    Option<AmazonMetadataModel>,
    DecodeErrorModel,
> {
    match member(obj, name) {
        None => Ok(None),
        Some(JsonModel::Null) => Ok(None),
        Some(value) => match decoded_amazon(value) {
            Err(e) => Err(e),
            Ok(m) => Ok(Some(m)),
        },
    }
}

/// A datacenter of kind `Amazon` is taken without its Amazon block too.
pub open spec fn decoded_datacenter(value: JsonModel) -> Result<DataCenterModel, DecodeErrorModel> {
    match value {
        JsonModel::Object(obj) => {
            let class = text_member(obj, "@class"@);
            let name = dc_name_member(obj);
            let metadata = optional_amazon_member(obj, "metadata"@);
            if class is Err {
                Err(class->Err_0)
            } else if name is Err {
                Err(name->Err_0)
            } else if metadata is Err {
                Err(metadata->Err_0)
            } else {
                Ok(
                    DataCenterModel {
                        class: class->Ok_0,
                        name: name->Ok_0,
                        metadata: metadata->Ok_0,
                    },
                )
            }
        },
        _ => Err(wrong_type("DataCenterInfo"@, "an object"@)),
    }
}

/// A datacenter that must be there.
pub open spec fn datacenter_member(obj: Members, name: Seq<char>) -> Result<
    DataCenterModel,
    DecodeErrorModel,
> {
    match member(obj, name) {
        None => Err(DecodeErrorModel::MissingField(name)),
        Some(value) => decoded_datacenter(value),
    }
}

/// Whether every member of an object holds a text.
pub open spec fn all_texts(obj: Members) -> bool {
    forall|i: int| 0 <= i < obj.len() ==> (#[trigger] obj[i]).1 is Str
}

/// The members of an object of texts as pairs, in their order.
pub open spec fn decoded_pairs(obj: Members) -> Seq<(Seq<char>, Seq<char>)> {
    Seq::new(obj.len(), |i: int| (obj[i].0, obj[i].1->Str_0))
}

/// Free pairs where the member is there and not `null`.
pub open spec fn optional_pairs_member(obj: Members, name: Seq<char>) -> Result<
    Option<Seq<(Seq<char>, Seq<char>)>>,
    DecodeErrorModel,
> {
    match member(obj, name) {
        None => Ok(None),
        Some(JsonModel::Null) => Ok(None),
        Some(JsonModel::Object(inner)) => if all_texts(inner) {
            Ok(Some(decoded_pairs(inner)))
        } else {
            Err(wrong_type(name, "an object of strings or null"@))
        },
        Some(_) => Err(wrong_type(name, "an object of strings or null"@)),
    }
}

/// What an instance's wire form decodes to.
pub open spec fn decoded_instance(value: JsonModel) -> Result<InstanceModel, DecodeErrorModel> {
    match value {
        JsonModel::Object(obj) => {
            let host_name = text_member(obj, "hostName"@);
            let app = text_member(obj, "app"@);
            let ip_addr = text_member(obj, "ipAddr"@);
            let vip_address = text_member(obj, "vipAddress"@);
            let secure_vip_address = optional_text_member(obj, "secureVipAddress"@);
            let status = status_member(obj);
            let port = optional_port_member(obj, "port"@);
            let secure_port = port_member(obj, "securePort"@);
            let home_page_url = text_member(obj, "homePageUrl"@);
            let status_page_url = text_member(obj, "statusPageUrl"@);
            let health_check_url = text_member(obj, "healthCheckUrl"@);
            let data_center_info = datacenter_member(obj, "dataCenterInfo"@);
            let lease_info = optional_lease_member(obj, "leaseInfo"@);
            let metadata = optional_pairs_member(obj, "metadata"@);
            if host_name is Err {
                Err(host_name->Err_0)
            } else if app is Err {
                Err(app->Err_0)
            } else if ip_addr is Err {
                Err(ip_addr->Err_0)
            } else if vip_address is Err {
                Err(vip_address->Err_0)
            } else if secure_vip_address is Err {
                Err(secure_vip_address->Err_0)
            } else if status is Err {
                Err(status->Err_0)
            } else if port is Err {
                Err(port->Err_0)
            } else if secure_port is Err {
                Err(secure_port->Err_0)
            } else if home_page_url is Err {
                Err(home_page_url->Err_0)
            } else if status_page_url is Err {
                Err(status_page_url->Err_0)
            } else if health_check_url is Err {
                Err(health_check_url->Err_0)
            } else if data_center_info is Err {
                Err(data_center_info->Err_0)
            } else if lease_info is Err {
                Err(lease_info->Err_0)
            } else if metadata is Err {
                Err(metadata->Err_0)
            } else {
                Ok(
                    InstanceModel {
                        host_name: host_name->Ok_0,
                        app: app->Ok_0,
                        ip_addr: ip_addr->Ok_0,
                        vip_address: vip_address->Ok_0,
                        secure_vip_address: secure_vip_address->Ok_0,
                        status: status->Ok_0,
                        port: port->Ok_0,
                        secure_port: secure_port->Ok_0,
                        home_page_url: home_page_url->Ok_0,
                        status_page_url: status_page_url->Ok_0,
                        health_check_url: health_check_url->Ok_0,
                        data_center_info: data_center_info->Ok_0,
                        lease_info: lease_info->Ok_0,
                        metadata: metadata->Ok_0,
                    },
                )
            }
        },
        _ => Err(wrong_type("Instance"@, "an object"@)),
    }
}

impl AmazonMetadataType {
    /// Reads an Amazon block from its wire form.
    pub fn from_json(value: &Json) -> (r: Result<AmazonMetadataType, DecodeError>)
        ensures
            agrees(r, decoded_amazon(value@)),
    {
        match value {
            Json::Object(members) => {
                let ami_launch_index = read_optional_text(members, "ami-launch-index")?;
                let local_hostname = read_text(members, "local-hostname")?;
                let availability_zone = read_text(members, "availability-zone")?;
                let instance_id = read_text(members, "instance-id")?;
                let public_ipv4 = read_optional_text(members, "public-ipv4")?;
                let public_hostname = read_optional_text(members, "public-hostname")?;
                let ami_manifest_path = read_optional_text(members, "ami-manifest-path")?;
                let local_ipv4 = read_text(members, "local-ipv4")?;
                let hostname = read_optional_text(members, "hostname")?;
                let ami_id = read_text(members, "ami-id")?;
                let instance_type = read_text(members, "instance-type")?;
                Ok(
                    AmazonMetadataType {
                        ami_launch_index,
                        local_hostname,
                        availability_zone,
                        instance_id,
                        public_ipv4,
                        public_hostname,
                        ami_manifest_path,
                        local_ipv4,
                        hostname,
                        ami_id,
                        instance_type,
                    },
                )
            },
            _ => Err(type_fault("AmazonMetadataType", "an object")),
        }
    }
}

pub(crate) fn read_optional_amazon(members: &Vec<(String, Json)>, name: &str) -> (r: Result<
    Option<AmazonMetadataType>,
    DecodeError,
>)
    ensures
        agrees_optional(r, optional_amazon_member(members_model(members@), name@)),
{
    match find_member(members, name) {
        None => Ok(None),
        Some(Json::Null) => Ok(None),
        Some(value) => match AmazonMetadataType::from_json(value) {
            Ok(m) => Ok(Some(m)),
            Err(e) => Err(e),
        },
    }
}

impl DataCenterInfo {
    /// Reads a datacenter from its wire form.
    pub fn from_json(value: &Json) -> (r: Result<DataCenterInfo, DecodeError>)
        ensures
            agrees(r, decoded_datacenter(value@)),
    {
        match value {
            Json::Object(members) => {
                let class = read_text(members, "@class")?;
                let name = read_dc_name(members)?;
                let metadata = read_optional_amazon(members, "metadata")?;
                Ok(DataCenterInfo { class, name, metadata })
            },
            _ => Err(type_fault("DataCenterInfo", "an object")),
        }
    }
}

pub(crate) fn read_datacenter(members: &Vec<(String, Json)>, name: &str) -> (r: Result<
    DataCenterInfo,
    DecodeError,
>)
    ensures
        agrees(r, datacenter_member(members_model(members@), name@)),
{
    match find_member(members, name) {
        None => Err(DecodeError::MissingField(name.to_owned())),
        Some(value) => DataCenterInfo::from_json(value),
    }
}

pub(crate) fn read_optional_pairs(members: &Vec<(String, Json)>, name: &str) -> (r: Result<
    Option<Vec<(String, String)>>,
    DecodeError,
>)
    ensures
        match r {
            Ok(Some(pairs)) => optional_pairs_member(members_model(members@), name@) == Ok::<
                Option<Seq<(Seq<char>, Seq<char>)>>,
                DecodeErrorModel,
            >(Some(pairs_text(pairs@))),
            Ok(None) => optional_pairs_member(members_model(members@), name@) == Ok::<
                Option<Seq<(Seq<char>, Seq<char>)>>,
                DecodeErrorModel,
            >(None),
            Err(e) => optional_pairs_member(members_model(members@), name@) == Err::<
                Option<Seq<(Seq<char>, Seq<char>)>>,
                DecodeErrorModel,
            >(e@),
        },
{
    match find_member(members, name) {
        None => Ok(None),
        Some(Json::Null) => Ok(None),
        Some(Json::Object(inner)) => {
            let ghost obj = members_model(inner@);
            proof {
                lemma_members_model(inner@);
            }
            let mut pairs: Vec<(String, String)> = Vec::new();
            let mut i: usize = 0;
            while i < inner.len()
                invariant
                    i <= inner.len(),
                    pairs@.len() == i,
                    obj == members_model(inner@),
                    member(members_model(members@), name@) == Some(JsonModel::Object(obj)),
                    obj.len() == inner@.len(),
                    forall|k: int|
                        0 <= k < inner@.len() ==> (#[trigger] obj[k]) == (
                            inner@[k].0@,
                            inner@[k].1@,
                        ),
                    forall|k: int| 0 <= k < i ==> (#[trigger] obj[k]).1 is Str,
                    forall|k: int|
                        0 <= k < i ==> (#[trigger] pairs@[k]).0@ == obj[k].0 && pairs@[k].1@
                            == obj[k].1->Str_0,
                decreases inner.len() - i,
            {
                match &inner[i].1 {
                    Json::Str(text) => {
                        pairs.push((inner[i].0.clone(), text.clone()));
                    },
                    _ => {
                        assert(!(obj[i as int].1 is Str));
                        assert(!all_texts(obj));
                        return Err(type_fault(name, "an object of strings or null"));
                    },
                }
                i += 1;
            }
            proof {
                assert(all_texts(obj));
                assert(pairs_text(pairs@) =~= decoded_pairs(obj));
            }
            Ok(Some(pairs))
        },
        Some(_) => Err(type_fault(name, "an object of strings or null")),
    }
}

impl Instance {
    /// Reads an instance from its wire form.
    pub fn from_json(value: &Json) -> (r: Result<Instance, DecodeError>)
        ensures
            agrees(r, decoded_instance(value@)),
    {
        match value {
            Json::Object(members) => {
                let host_name = read_text(members, "hostName")?;
                let app = read_text(members, "app")?;
                let ip_addr = read_text(members, "ipAddr")?;
                let vip_address = read_text(members, "vipAddress")?;
                let secure_vip_address = read_optional_text(members, "secureVipAddress")?;
                let status = read_status(members)?;
                let port = read_optional_port(members, "port")?;
                let secure_port = read_port(members, "securePort")?;
                let home_page_url = read_text(members, "homePageUrl")?;
                let status_page_url = read_text(members, "statusPageUrl")?;
                let health_check_url = read_text(members, "healthCheckUrl")?;
                let data_center_info = read_datacenter(members, "dataCenterInfo")?;
                let lease_info = read_optional_lease(members, "leaseInfo")?;
                let metadata = read_optional_pairs(members, "metadata")?;
                Ok(
                    Instance {
                        host_name,
                        app,
                        ip_addr,
                        vip_address,
                        secure_vip_address,
                        status,
                        port,
                        secure_port,
                        home_page_url,
                        status_page_url,
                        health_check_url,
                        data_center_info,
                        lease_info,
                        metadata,
                    },
                )
            },
            _ => Err(type_fault("Instance", "an object")),
        }
    }
}

} // verus!
