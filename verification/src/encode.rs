//! The entities in the registry's wire format.
//!
//! Each entity has a spec function that gives its JSON document, and a method
//! `to_json` that builds it. Members stand in the order in which the wire
//! format lists them.

use crate::json::{lemma_members_model, members_model, Json, JsonModel};
use crate::models::{
    AmazonMetadataModel, AmazonMetadataType, DataCenterInfo, DataCenterModel, Instance,
    InstanceModel, LeaseInfo, PortData, PortModel, RegisterRequest,
};
use vstd::prelude::*;

verus! {

/// A text, or `null` where there is none.
pub open spec fn text_or_null(o: Option<Seq<char>>) -> JsonModel {
    match o {
        Some(s) => JsonModel::Str(s),
        None => JsonModel::Null,
    }
}

/// The wire format writes a flag as a text, not as a JSON boolean.
pub open spec fn flag_token(flag: bool) -> Seq<char> {
    if flag {
        "true"@
    } else {
        "false"@
    }
}

/// A port on the wire: the number under `$`, the flag as a text under
/// `@enabled`.
pub open spec fn encoded_port(p: PortModel) -> JsonModel {
    JsonModel::Object(
        seq![
            ("$"@, JsonModel::Number(Some(p.value as u64))),
            ("@enabled"@, JsonModel::Str(flag_token(p.enabled))),
        ],
    )
}

/// A lease on the wire: the eviction duration, or `null` for none.
pub open spec fn encoded_lease(l: LeaseInfo) -> JsonModel {
    JsonModel::Object(
        seq![
            (
                "evictionDurationInSecs"@,
                match l.eviction_duration_in_secs {
                    Some(n) => JsonModel::Number(Some(n as u64)),
                    None => JsonModel::Null,
                },
            ),
        ],
    )
}

/// An Amazon block on the wire, its members in kebab case.
pub open spec fn encoded_amazon(m: AmazonMetadataModel) -> JsonModel {
    JsonModel::Object(
        seq![
            ("ami-launch-index"@, text_or_null(m.ami_launch_index)),
            ("local-hostname"@, JsonModel::Str(m.local_hostname)),
            ("availability-zone"@, JsonModel::Str(m.availability_zone)),
            ("instance-id"@, JsonModel::Str(m.instance_id)),
            ("public-ipv4"@, text_or_null(m.public_ipv4)),
            ("public-hostname"@, text_or_null(m.public_hostname)),
            ("ami-manifest-path"@, text_or_null(m.ami_manifest_path)),
            ("local-ipv4"@, JsonModel::Str(m.local_ipv4)),
            ("hostname"@, text_or_null(m.hostname)),
            ("ami-id"@, JsonModel::Str(m.ami_id)),
            ("instance-type"@, JsonModel::Str(m.instance_type)),
        ],
    )
}

/// The member `metadata` is left out where there is no Amazon block.
pub open spec fn encoded_datacenter(d: DataCenterModel) -> JsonModel {
    let fixed = seq![
        ("@class"@, JsonModel::Str(d.class)),
        ("name"@, JsonModel::Str(d.name.token())),
    ];
    JsonModel::Object(
        match d.metadata {
            Some(m) => fixed.push(("metadata"@, encoded_amazon(m))),
            None => fixed,
        },
    )
}

/// The free pairs of an instance as the members of an object.
pub open spec fn encoded_pairs(pairs: Seq<(Seq<char>, Seq<char>)>) -> Seq<(Seq<char>, JsonModel)> {
    Seq::new(pairs.len(), |i: int| (pairs[i].0, JsonModel::Str(pairs[i].1)))
}

/// An instance on the wire, its members in camel case; what an instance
/// lacks is written as `null`.
pub open spec fn encoded_instance(i: InstanceModel) -> JsonModel {
    JsonModel::Object(
        seq![
            ("hostName"@, JsonModel::Str(i.host_name)),
            ("app"@, JsonModel::Str(i.app)),
            ("ipAddr"@, JsonModel::Str(i.ip_addr)),
            ("vipAddress"@, JsonModel::Str(i.vip_address)),
            ("secureVipAddress"@, text_or_null(i.secure_vip_address)),
            ("status"@, JsonModel::Str(i.status.token())),
            (
                "port"@,
                match i.port {
                    Some(p) => encoded_port(p),
                    None => JsonModel::Null,
                },
            ),
            ("securePort"@, encoded_port(i.secure_port)),
            ("homePageUrl"@, JsonModel::Str(i.home_page_url)),
            ("statusPageUrl"@, JsonModel::Str(i.status_page_url)),
            ("healthCheckUrl"@, JsonModel::Str(i.health_check_url)),
            ("dataCenterInfo"@, encoded_datacenter(i.data_center_info)),
            (
                "leaseInfo"@,
                match i.lease_info {
                    Some(l) => encoded_lease(l),
                    None => JsonModel::Null,
                },
            ),
            (
                "metadata"@,
                match i.metadata {
                    Some(pairs) => JsonModel::Object(encoded_pairs(pairs)),
                    None => JsonModel::Null,
                },
            ),
        ],
    )
}

/// The body of a registration: the instance under the key `instance`.
pub open spec fn encoded_request(i: InstanceModel) -> JsonModel {
    JsonModel::Object(seq![("instance"@, encoded_instance(i))])
}

fn text_json(s: &String) -> (r: Json)
    ensures
        r@ == JsonModel::Str(s@),
{
    Json::Str(s.clone())
}

fn optional_text_json(o: &Option<String>) -> (r: Json)
    ensures
        r@ == text_or_null(crate::models::opt_text(*o)),
{
    match o {
        Some(s) => Json::Str(s.clone()),
        None => Json::Null,
    }
}

fn entry(name: &str, value: Json) -> (r: (String, Json))
    ensures
        r.0@ == name@,
        r.1 == value,
{
    (name.to_owned(), value)
}

impl PortData {
    /// The port in its wire form.
    pub fn to_json(&self) -> (r: Json)
        ensures
            r@ == encoded_port(self@),
    {
        let flag = if self.enabled {
            "true"
        } else {
            "false"
        };
        let mut members: Vec<(String, Json)> = Vec::new();
        members.push(entry("$", Json::Number(Some(self.value as u64))));
        members.push(entry("@enabled", Json::Str(flag.to_owned())));
        proof {
            lemma_members_model(members@);
            assert(members_model(members@) =~= encoded_port(self@)->Object_0);
        }
        Json::Object(members)
    }
}

impl LeaseInfo {
    /// The lease in its wire form.
    pub fn to_json(&self) -> (r: Json)
        ensures
            r@ == encoded_lease(*self),
    {
        let duration = match self.eviction_duration_in_secs {
            Some(n) => Json::Number(Some(n as u64)),
            None => Json::Null,
        };
        let mut members: Vec<(String, Json)> = Vec::new();
        members.push(entry("evictionDurationInSecs", duration));
        proof {
            lemma_members_model(members@);
            assert(members_model(members@) =~= encoded_lease(*self)->Object_0);
        }
        Json::Object(members)
    }
}

impl AmazonMetadataType {
    /// The Amazon block in its wire form.
    pub fn to_json(&self) -> (r: Json)
        ensures
            r@ == encoded_amazon(self@),
    {
        let mut members: Vec<(String, Json)> = Vec::new();
        members.push(entry("ami-launch-index", optional_text_json(&self.ami_launch_index)));
        members.push(entry("local-hostname", text_json(&self.local_hostname)));
        members.push(entry("availability-zone", text_json(&self.availability_zone)));
        members.push(entry("instance-id", text_json(&self.instance_id)));
        members.push(entry("public-ipv4", optional_text_json(&self.public_ipv4)));
        members.push(entry("public-hostname", optional_text_json(&self.public_hostname)));
        members.push(entry("ami-manifest-path", optional_text_json(&self.ami_manifest_path)));
        members.push(entry("local-ipv4", text_json(&self.local_ipv4)));
        members.push(entry("hostname", optional_text_json(&self.hostname)));
        members.push(entry("ami-id", text_json(&self.ami_id)));
        members.push(entry("instance-type", text_json(&self.instance_type)));
        proof {
            lemma_members_model(members@);
            assert(members_model(members@) =~= encoded_amazon(self@)->Object_0);
        }
        Json::Object(members)
    }
}

impl DataCenterInfo {
    /// The datacenter in its wire form.
    pub fn to_json(&self) -> (r: Json)
        ensures
            r@ == encoded_datacenter(self@),
    {
        let mut members: Vec<(String, Json)> = Vec::new();
        members.push(entry("@class", text_json(&self.class)));
        members.push(entry("name", Json::Str(self.name.to_string())));
        match &self.metadata {
            Some(m) => {
                members.push(entry("metadata", m.to_json()));
            },
            None => {},
        }
        proof {
            lemma_members_model(members@);
            assert(members_model(members@) =~= encoded_datacenter(self@)->Object_0);
        }
        Json::Object(members)
    }
}

/// The free pairs of an instance as a JSON object.
fn pairs_json(pairs: &Vec<(String, String)>) -> (r: Json)
    ensures
        r@ == JsonModel::Object(encoded_pairs(crate::models::pairs_text(pairs@))),
{
    let mut members: Vec<(String, Json)> = Vec::new();
    let mut i: usize = 0;
    while i < pairs.len()
        invariant
            i <= pairs.len(),
            members@.len() == i,
            forall|k: int|
                0 <= k < i ==> (#[trigger] members@[k]).0@ == pairs@[k].0@ && members@[k].1@
                    == JsonModel::Str(pairs@[k].1@),
        decreases pairs.len() - i,
    {
        members.push((pairs[i].0.clone(), Json::Str(pairs[i].1.clone())));
        i += 1;
    }
    proof {
        lemma_members_model(members@);
        assert(members_model(members@) =~= encoded_pairs(crate::models::pairs_text(pairs@)));
    }
    Json::Object(members)
}

impl Instance {
    /// The instance in its wire form.
    pub fn to_json(&self) -> (r: Json)
        ensures
            r@ == encoded_instance(self@),
    {
        let port = match &self.port {
            Some(p) => p.to_json(),
            None => Json::Null,
        };
        let lease = match &self.lease_info {
            Some(l) => l.to_json(),
            None => Json::Null,
        };
        let metadata = match &self.metadata {
            Some(pairs) => pairs_json(pairs),
            None => Json::Null,
        };
        let mut members: Vec<(String, Json)> = Vec::new();
        members.push(entry("hostName", text_json(&self.host_name)));
        members.push(entry("app", text_json(&self.app)));
        members.push(entry("ipAddr", text_json(&self.ip_addr)));
        members.push(entry("vipAddress", text_json(&self.vip_address)));
        members.push(entry("secureVipAddress", optional_text_json(&self.secure_vip_address)));
        members.push(entry("status", Json::Str(self.status.to_string())));
        members.push(entry("port", port));
        members.push(entry("securePort", self.secure_port.to_json()));
        members.push(entry("homePageUrl", text_json(&self.home_page_url)));
        members.push(entry("statusPageUrl", text_json(&self.status_page_url)));
        members.push(entry("healthCheckUrl", text_json(&self.health_check_url)));
        members.push(entry("dataCenterInfo", self.data_center_info.to_json()));
        members.push(entry("leaseInfo", lease));
        members.push(entry("metadata", metadata));
        proof {
            lemma_members_model(members@);
            assert(members_model(members@) =~= encoded_instance(self@)->Object_0);
        }
        Json::Object(members)
    }
}

impl<'reg> RegisterRequest<'reg> {
    /// The body of the registration in its wire form.
    pub fn to_json(&self) -> (r: Json)
        ensures
            r@ == encoded_request(self.instance@),
    {
        let mut members: Vec<(String, Json)> = Vec::new();
        members.push(entry("instance", self.instance.to_json()));
        proof {
            lemma_members_model(members@);
            assert(members_model(members@) =~= encoded_request(self.instance@)->Object_0);
        }
        Json::Object(members)
    }
}

} // verus!
