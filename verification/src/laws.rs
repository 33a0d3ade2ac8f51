//! What holds of the codecs, of the snapshot and of the client as a whole.

use crate::client::{
    lookup_verdict, register_verdict, snapshot_verdict, EurekaErrorModel, OutcomeModel, NO_CONTENT,
};
use crate::codec::{member, member_from, DecodeErrorModel};
use crate::decode::{
    decoded_amazon, decoded_datacenter, decoded_flag, decoded_instance, decoded_lease,
    decoded_pairs, decoded_port, dc_name_of_token, status_of_token, Members,
};
use crate::encode::{
    encoded_amazon, encoded_datacenter, encoded_instance, encoded_lease, encoded_pairs,
    encoded_port, flag_token,
};
use crate::json::{parsed_text, JsonModel};
use crate::registry::{decoded_application, flattened, Application};
use crate::url::{encoded_byte, encoded_bytes, encoded_segment, hex_digit, is_reserved};
use crate::models::{
    AmazonMetadataModel, DataCenterModel, DcNameType, InstanceModel, LeaseInfo, PortModel,
    StatusType,
};
use vstd::prelude::*;

verus! {

/// The member at place `k` is the one that a lookup of its name finds, where
/// no member before it has the name.
pub proof fn lemma_member_at(obj: Members, name: Seq<char>, k: int)
    requires
        0 <= k < obj.len(),
        obj[k].0 == name,
        forall|j: int| 0 <= j < k ==> (#[trigger] obj[j]).0 != name,
    ensures
        member(obj, name) == Some(obj[k].1),
{
    lemma_member_from(obj, name, k, 0);
}

proof fn lemma_member_from(obj: Members, name: Seq<char>, k: int, from: int)
    requires
        0 <= from <= k < obj.len(),
        obj[k].0 == name,
        forall|j: int| 0 <= j < k ==> (#[trigger] obj[j]).0 != name,
    ensures
        member_from(obj, name, from) == Some(obj[k].1),
    decreases k - from,
{
    if from < k {
        assert(obj[from].0 != name);
        lemma_member_from(obj, name, k, from + 1);
    }
}

/// A lookup finds nothing where no member has the name.
pub proof fn lemma_member_none(obj: Members, name: Seq<char>)
    requires
        forall|j: int| 0 <= j < obj.len() ==> (#[trigger] obj[j]).0 != name,
    ensures
        member(obj, name) is None,
{
    lemma_member_none_from(obj, name, 0);
}

proof fn lemma_member_none_from(obj: Members, name: Seq<char>, from: int)
    requires
        0 <= from,
        forall|j: int| 0 <= j < obj.len() ==> (#[trigger] obj[j]).0 != name,
    ensures
        member_from(obj, name, from) is None,
    decreases obj.len() - from,
{
    if from < obj.len() {
        assert(obj[from].0 != name);
        lemma_member_none_from(obj, name, from + 1);
    }
}

/// The text of a flag is a flag only where it is exactly `true` or `false`:
/// any other text is a fault that names it.
pub proof fn lemma_flag_is_strict(field: Seq<char>, text: Seq<char>)
    ensures
        decoded_flag(field, JsonModel::Str("true"@)) == Ok::<bool, DecodeErrorModel>(true),
        decoded_flag(field, JsonModel::Str("false"@)) == Ok::<bool, DecodeErrorModel>(false),
        text != "true"@ && text != "false"@ ==> decoded_flag(field, JsonModel::Str(text)) == Err::<
            bool,
            DecodeErrorModel,
        >(DecodeErrorModel::InvalidValue { field, value: text, expected: "true or false"@ }),
{
    lemma_flag_tokens();
}

proof fn lemma_flag_tokens()
    ensures
        "true"@ != "false"@,
{
    reveal_strlit("true");
    reveal_strlit("false");
    assert("true"@.len() == 4);
    assert("false"@.len() == 5);
}

/// A flag that is written and read back is the same flag.
pub proof fn lemma_flag_round_trip(field: Seq<char>, flag: bool)
    ensures
        decoded_flag(field, JsonModel::Str(flag_token(flag))) == Ok::<bool, DecodeErrorModel>(
            flag,
        ),
{
    lemma_flag_tokens();
}

/// A port that is written and read back is the same port.
pub proof fn lemma_port_round_trip(p: PortModel)
    ensures
        decoded_port(encoded_port(p)) == Ok::<PortModel, DecodeErrorModel>(p),
{
    let obj = encoded_port(p)->Object_0;
    reveal_strlit("$");
    reveal_strlit("@enabled");
    assert("$"@.len() == 1);
    assert("@enabled"@.len() == 8);
    lemma_member_at(obj, "$"@, 0);
    lemma_member_at(obj, "@enabled"@, 1);
    lemma_flag_round_trip("@enabled"@, p.enabled);
}

/// A lease that is written and read back is the same lease.
pub proof fn lemma_lease_round_trip(l: LeaseInfo)
    ensures
        decoded_lease(encoded_lease(l)) == Ok::<LeaseInfo, DecodeErrorModel>(l),
{
    let obj = encoded_lease(l)->Object_0;
    lemma_member_at(obj, "evictionDurationInSecs"@, 0);
}

/// Every state is the state that its token stands for.
pub proof fn lemma_status_round_trip(s: StatusType)
    ensures
        status_of_token(s.token()) == Some(s),
{
    reveal_strlit("UP");
    reveal_strlit("DOWN");
    reveal_strlit("STARTING");
    reveal_strlit("OUT_OF_SERVICE");
    reveal_strlit("UNKNOWN");
    assert("UP"@.len() == 2);
    assert("DOWN"@.len() == 4);
    assert("STARTING"@.len() == 8);
    assert("OUT_OF_SERVICE"@.len() == 14);
    assert("UNKNOWN"@.len() == 7);
}

/// Every kind of datacenter is the kind that its token stands for.
pub proof fn lemma_dc_name_round_trip(n: DcNameType)
    ensures
        dc_name_of_token(n.token()) == Some(n),
{
    reveal_strlit("MyOwn");
    reveal_strlit("Amazon");
    assert("MyOwn"@.len() == 5);
    assert("Amazon"@.len() == 6);
}

proof fn lemma_amazon_members(m: AmazonMetadataModel)
    ensures
        ({
            let obj = encoded_amazon(m)->Object_0;
            &&& member(obj, "ami-launch-index"@) == Some(obj[0].1)
            &&& member(obj, "local-hostname"@) == Some(obj[1].1)
            &&& member(obj, "availability-zone"@) == Some(obj[2].1)
            &&& member(obj, "instance-id"@) == Some(obj[3].1)
            &&& member(obj, "public-ipv4"@) == Some(obj[4].1)
            &&& member(obj, "public-hostname"@) == Some(obj[5].1)
            &&& member(obj, "ami-manifest-path"@) == Some(obj[6].1)
            &&& member(obj, "local-ipv4"@) == Some(obj[7].1)
            &&& member(obj, "hostname"@) == Some(obj[8].1)
            &&& member(obj, "ami-id"@) == Some(obj[9].1)
            &&& member(obj, "instance-type"@) == Some(obj[10].1)
        }),
{
    let obj = encoded_amazon(m)->Object_0;
    reveal_strlit("ami-launch-index");
    reveal_strlit("local-hostname");
    reveal_strlit("availability-zone");
    reveal_strlit("instance-id");
    reveal_strlit("public-ipv4");
    reveal_strlit("public-hostname");
    reveal_strlit("ami-manifest-path");
    reveal_strlit("local-ipv4");
    reveal_strlit("hostname");
    reveal_strlit("ami-id");
    reveal_strlit("instance-type");
    assert("ami-launch-index"@.len() == 16);
    assert("local-hostname"@.len() == 14);
    assert("availability-zone"@.len() == 17 && "availability-zone"@[1] == 'v');
    assert("instance-id"@.len() == 11 && "instance-id"@[0] == 'i');
    assert("public-ipv4"@.len() == 11 && "public-ipv4"@[0] == 'p');
    assert("public-hostname"@.len() == 15);
    assert("ami-manifest-path"@.len() == 17 && "ami-manifest-path"@[1] == 'm');
    assert("local-ipv4"@.len() == 10);
    assert("hostname"@.len() == 8);
    assert("ami-id"@.len() == 6);
    assert("instance-type"@.len() == 13);
    lemma_member_at(obj, "ami-launch-index"@, 0);
    lemma_member_at(obj, "local-hostname"@, 1);
    lemma_member_at(obj, "availability-zone"@, 2);
    lemma_member_at(obj, "instance-id"@, 3);
    lemma_member_at(obj, "public-ipv4"@, 4);
    lemma_member_at(obj, "public-hostname"@, 5);
    lemma_member_at(obj, "ami-manifest-path"@, 6);
    lemma_member_at(obj, "local-ipv4"@, 7);
    lemma_member_at(obj, "hostname"@, 8);
    lemma_member_at(obj, "ami-id"@, 9);
    lemma_member_at(obj, "instance-type"@, 10);
}

/// An Amazon block that is written and read back is the same block.
pub proof fn lemma_amazon_round_trip(m: AmazonMetadataModel)
    ensures
        decoded_amazon(encoded_amazon(m)) == Ok::<AmazonMetadataModel, DecodeErrorModel>(m),
{
    lemma_amazon_members(m);
}

/// A datacenter that is written and read back is the same datacenter.
pub proof fn lemma_datacenter_round_trip(d: DataCenterModel)
    ensures
        decoded_datacenter(encoded_datacenter(d)) == Ok::<DataCenterModel, DecodeErrorModel>(d),
{
    let obj = encoded_datacenter(d)->Object_0;
    reveal_strlit("@class");
    reveal_strlit("name");
    reveal_strlit("metadata");
    assert("@class"@.len() == 6);
    assert("name"@.len() == 4);
    assert("metadata"@.len() == 8);
    lemma_member_at(obj, "@class"@, 0);
    lemma_member_at(obj, "name"@, 1);
    lemma_dc_name_round_trip(d.name);
    match d.metadata {
        Some(m) => {
            lemma_member_at(obj, "metadata"@, 2);
            lemma_amazon_round_trip(m);
        },
        None => {
            lemma_member_none(obj, "metadata"@);
        },
    }
}

/// Free pairs that are written and read back are the same pairs.
pub proof fn lemma_pairs_round_trip(pairs: Seq<(Seq<char>, Seq<char>)>)
    ensures
        crate::decode::all_texts(encoded_pairs(pairs)),
        decoded_pairs(encoded_pairs(pairs)) == pairs,
{
    assert(decoded_pairs(encoded_pairs(pairs)) =~= pairs);
}

proof fn lemma_instance_members(i: InstanceModel)
    ensures
        ({
            let obj = encoded_instance(i)->Object_0;
            &&& member(obj, "hostName"@) == Some(obj[0].1)
            &&& member(obj, "app"@) == Some(obj[1].1)
            &&& member(obj, "ipAddr"@) == Some(obj[2].1)
            &&& member(obj, "vipAddress"@) == Some(obj[3].1)
            &&& member(obj, "secureVipAddress"@) == Some(obj[4].1)
            &&& member(obj, "status"@) == Some(obj[5].1)
            &&& member(obj, "port"@) == Some(obj[6].1)
            &&& member(obj, "securePort"@) == Some(obj[7].1)
            &&& member(obj, "homePageUrl"@) == Some(obj[8].1)
            &&& member(obj, "statusPageUrl"@) == Some(obj[9].1)
            &&& member(obj, "healthCheckUrl"@) == Some(obj[10].1)
            &&& member(obj, "dataCenterInfo"@) == Some(obj[11].1)
            &&& member(obj, "leaseInfo"@) == Some(obj[12].1)
            &&& member(obj, "metadata"@) == Some(obj[13].1)
        }),
{
    let obj = encoded_instance(i)->Object_0;
    reveal_strlit("hostName");
    reveal_strlit("app");
    reveal_strlit("ipAddr");
    reveal_strlit("vipAddress");
    reveal_strlit("secureVipAddress");
    reveal_strlit("status");
    reveal_strlit("port");
    reveal_strlit("securePort");
    reveal_strlit("homePageUrl");
    reveal_strlit("statusPageUrl");
    reveal_strlit("healthCheckUrl");
    reveal_strlit("dataCenterInfo");
    reveal_strlit("leaseInfo");
    reveal_strlit("metadata");
    assert("hostName"@.len() == 8 && "hostName"@[0] == 'h');
    assert("app"@.len() == 3);
    assert("ipAddr"@.len() == 6 && "ipAddr"@[0] == 'i');
    assert("vipAddress"@.len() == 10 && "vipAddress"@[0] == 'v');
    assert("secureVipAddress"@.len() == 16);
    assert("status"@.len() == 6 && "status"@[0] == 's');
    assert("port"@.len() == 4);
    assert("securePort"@.len() == 10 && "securePort"@[0] == 's');
    assert("homePageUrl"@.len() == 11);
    assert("statusPageUrl"@.len() == 13);
    assert("healthCheckUrl"@.len() == 14 && "healthCheckUrl"@[0] == 'h');
    assert("dataCenterInfo"@.len() == 14 && "dataCenterInfo"@[0] == 'd');
    assert("leaseInfo"@.len() == 9);
    assert("metadata"@.len() == 8 && "metadata"@[0] == 'm');
    lemma_member_at(obj, "hostName"@, 0);
    lemma_member_at(obj, "app"@, 1);
    lemma_member_at(obj, "ipAddr"@, 2);
    lemma_member_at(obj, "vipAddress"@, 3);
    lemma_member_at(obj, "secureVipAddress"@, 4);
    lemma_member_at(obj, "status"@, 5);
    lemma_member_at(obj, "port"@, 6);
    lemma_member_at(obj, "securePort"@, 7);
    lemma_member_at(obj, "homePageUrl"@, 8);
    lemma_member_at(obj, "statusPageUrl"@, 9);
    lemma_member_at(obj, "healthCheckUrl"@, 10);
    lemma_member_at(obj, "dataCenterInfo"@, 11);
    lemma_member_at(obj, "leaseInfo"@, 12);
    lemma_member_at(obj, "metadata"@, 13);
}

/// An instance that is written in the wire format and read back is the same
/// instance, in every field.
pub proof fn lemma_instance_round_trip(i: InstanceModel)
    ensures
        decoded_instance(encoded_instance(i)) == Ok::<InstanceModel, DecodeErrorModel>(i),
{
    lemma_instance_members(i);
    lemma_status_round_trip(i.status);
    lemma_port_round_trip(i.secure_port);
    if i.port is Some {
        lemma_port_round_trip(i.port->Some_0);
    }
    lemma_datacenter_round_trip(i.data_center_info);
    if i.lease_info is Some {
        lemma_lease_round_trip(i.lease_info->Some_0);
    }
    if i.metadata is Some {
        lemma_pairs_round_trip(i.metadata->Some_0);
    }
}

/// An application whose array of instances is empty decodes to its name
/// with no instance: it is there, with nothing under it.
pub proof fn lemma_application_without_instances(obj: Members, name: Seq<char>)
    requires
        member(obj, "name"@) == Some(JsonModel::Str(name)),
        member(obj, "instance"@) == Some(JsonModel::Array(Seq::<JsonModel>::empty())),
    ensures
        decoded_application(JsonModel::Object(obj)) == Ok::<Application, DecodeErrorModel>(
            (name, Seq::<InstanceModel>::empty()),
        ),
{
}

/// The names of a flattened list are the names of its applications.
pub proof fn lemma_flattened_names(apps: Seq<Application>, name: Seq<char>)
    ensures
        flattened(apps).contains_key(name) <==> exists|k: int|
            0 <= k < apps.len() && (#[trigger] apps[k]).0 == name,
    decreases apps.len(),
{
    if apps.len() > 0 {
        let before = apps.drop_last();
        lemma_flattened_names(before, name);
        if flattened(apps).contains_key(name) {
            if apps.last().0 == name {
                assert(apps[apps.len() - 1].0 == name);
            } else {
                let k = choose|k: int| 0 <= k < before.len() && (#[trigger] before[k]).0 == name;
                assert(apps[k].0 == name);
            }
        }
        if exists|k: int| 0 <= k < apps.len() && (#[trigger] apps[k]).0 == name {
            let k = choose|k: int| 0 <= k < apps.len() && (#[trigger] apps[k]).0 == name;
            if k < before.len() {
                assert(before[k].0 == name);
            }
        }
    }
}

/// Under each name a flattened list holds the instances of the last
/// application of that name, whether it has instances or none.
pub proof fn lemma_flattened_last_wins(apps: Seq<Application>, k: int)
    requires
        0 <= k < apps.len(),
        forall|j: int| k < j < apps.len() ==> (#[trigger] apps[j]).0 != apps[k].0,
    ensures
        flattened(apps).contains_key(apps[k].0),
        flattened(apps)[apps[k].0] == apps[k].1,
    decreases apps.len(),
{
    if k < apps.len() - 1 {
        let before = apps.drop_last();
        assert(apps.last() == apps[apps.len() - 1]);
        assert(before[k] == apps[k]);
        assert forall|j: int| k < j < before.len() implies (#[trigger] before[j]).0
            != before[k].0 by {
            assert(before[j] == apps[j]);
        }
        lemma_flattened_last_wins(before, k);
    }
}

/// A registration succeeds where the registry answers 204, and nowhere else:
/// with another status of the 200s it fails as with any other status.
pub proof fn lemma_register_needs_204(outcome: OutcomeModel)
    ensures
        register_verdict(outcome) is Ok <==> (outcome is Response && outcome->status
            == NO_CONTENT),
        outcome is Response && outcome->status != NO_CONTENT ==> register_verdict(outcome)
            == Err::<(), EurekaErrorModel>(
            EurekaErrorModel::Http(outcome->status, outcome->body),
        ),
{
}

/// A lookup of a name that the snapshot lacks fails with that very name.
pub proof fn lemma_lookup_of_absent_name(name: Seq<char>, outcome: OutcomeModel)
    requires
        snapshot_verdict(outcome) is Ok,
        !snapshot_verdict(outcome)->Ok_0.contains_key(name),
    ensures
        lookup_verdict(name, outcome) == Err::<Seq<InstanceModel>, EurekaErrorModel>(
            EurekaErrorModel::NotFound(name),
        ),
{
}

/// A lookup never succeeds with a name that the snapshot lacks.
pub proof fn lemma_lookup_success(name: Seq<char>, outcome: OutcomeModel)
    requires
        lookup_verdict(name, outcome) is Ok,
    ensures
        snapshot_verdict(outcome) is Ok,
        snapshot_verdict(outcome)->Ok_0.contains_key(name),
        lookup_verdict(name, outcome)->Ok_0 == snapshot_verdict(outcome)->Ok_0[name],
{
}

/// A body that is no JSON, under a status of the 200s, is a parse error: no
/// snapshot comes of it, not even an empty one.
pub proof fn lemma_malformed_body(status: u16, body: Seq<char>)
    requires
        200 <= status <= 299,
        parsed_text(body) is Err,
    ensures
        snapshot_verdict(OutcomeModel::Response { status, body }) == Err::<
            Map<Seq<char>, Seq<InstanceModel>>,
            EurekaErrorModel,
        >(
            EurekaErrorModel::ParseError(
                DecodeErrorModel::Syntax(parsed_text(body)->Err_0).message(),
            ),
        ),
{
}

/// A body is not decoded under a status outside the 200s.
pub proof fn lemma_status_outside_200s(status: u16, body: Seq<char>)
    requires
        !(200 <= status <= 299),
    ensures
        snapshot_verdict(OutcomeModel::Response { status, body }) == Err::<
            Map<Seq<char>, Seq<InstanceModel>>,
            EurekaErrorModel,
        >(EurekaErrorModel::Http(status, body)),
{
}

/// Whether a character may stand in an encoded segment as it is.
pub open spec fn plain(c: char) -> bool {
    (c as u32) < 0x80 && !is_reserved(c as u8)
}

proof fn lemma_hex_digit_plain(n: int)
    requires
        0 <= n < 16,
    ensures
        plain(hex_digit(n)),
{
}

proof fn lemma_encoded_byte_plain(b: u8)
    ensures
        forall|i: int| 0 <= i < encoded_byte(b).len() ==> plain(#[trigger] encoded_byte(b)[i]),
{
    lemma_hex_digit_plain(b as int / 16);
    lemma_hex_digit_plain(b as int % 16);
}

proof fn lemma_encoded_bytes_plain(bytes: Seq<u8>)
    ensures
        forall|i: int| 0 <= i < encoded_bytes(bytes).len() ==> plain(
            #[trigger] encoded_bytes(bytes)[i],
        ),
    decreases bytes.len(),
{
    if bytes.len() > 0 {
        let before = encoded_bytes(bytes.drop_last());
        let after = encoded_byte(bytes.last());
        lemma_encoded_bytes_plain(bytes.drop_last());
        lemma_encoded_byte_plain(bytes.last());
        assert forall|i: int| 0 <= i < encoded_bytes(bytes).len() implies plain(
            #[trigger] encoded_bytes(bytes)[i],
        ) by {
            if i < before.len() {
                assert(encoded_bytes(bytes)[i] == before[i]);
            } else {
                assert(encoded_bytes(bytes)[i] == after[i - before.len()]);
            }
        }
    }
}

/// No character of an encoded segment is reserved or outside ASCII: of a
/// space, a `#` and the like only their escapes are left.
pub proof fn lemma_encoded_segment_is_plain(segment: Seq<char>)
    ensures
        forall|i: int|
            0 <= i < encoded_segment(segment).len() ==> plain(
                #[trigger] encoded_segment(segment)[i],
            ),
{
    lemma_encoded_bytes_plain(vstd::utf8::encode_utf8(segment));
}

} // verus!
