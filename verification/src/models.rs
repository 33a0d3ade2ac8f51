//! The entities of the registry: instances and what describes them.
//!
//! Every entity is a plain value. Each has a view, the same value with its
//! texts as sequences of characters, over which the contracts are stated.

use vstd::prelude::*;

verus! {

/// The view of an optional text.
pub open spec fn opt_text(o: Option<String>) -> Option<Seq<char>> {
    match o {
        Some(s) => Some(s@),
        None => None,
    }
}

/// The view of a list of pairs of texts.
pub open spec fn pairs_text(pairs: Seq<(String, String)>) -> Seq<(Seq<char>, Seq<char>)> {
    Seq::new(pairs.len(), |i: int| (pairs[i].0@, pairs[i].1@))
}

/// The state that an instance reports.
#[derive(Debug, Clone, Copy, PartialEq, Eq)]
pub enum StatusType {
    Up,
    Down,
    Starting,
    OutOfService,
    Unknown,
}

impl StatusType {
    /// The token that stands for the state on the wire.
    pub open spec fn token(self) -> Seq<char> {
        match self {
            StatusType::Up => "UP"@,
            StatusType::Down => "DOWN"@,
            StatusType::Starting => "STARTING"@,
            StatusType::OutOfService => "OUT_OF_SERVICE"@,
            StatusType::Unknown => "UNKNOWN"@,
        }
    }

    /// The state as text: its wire token.
    pub fn to_string(&self) -> (r: String)
        ensures
            r@ == self.token(),
    {
        match self {
            StatusType::Up => "UP".to_owned(),
            StatusType::Down => "DOWN".to_owned(),
            StatusType::Starting => "STARTING".to_owned(),
            StatusType::OutOfService => "OUT_OF_SERVICE".to_owned(),
            StatusType::Unknown => "UNKNOWN".to_owned(),
        }
    }
}

/// The kind of datacenter that hosts an instance.
#[derive(Debug, Clone, Copy, PartialEq, Eq)]
pub enum DcNameType {
    MyOwn,
    Amazon,
}

impl DcNameType {
    /// The name of the kind, which is also its wire token.
    pub open spec fn token(self) -> Seq<char> {
        match self {
            DcNameType::MyOwn => "MyOwn"@,
            DcNameType::Amazon => "Amazon"@,
        }
    }

    /// The kind as text.
    pub fn to_string(&self) -> (r: String)
        ensures
            r@ == self.token(),
    {
        match self {
            DcNameType::MyOwn => "MyOwn".to_owned(),
            DcNameType::Amazon => "Amazon".to_owned(),
        }
    }
}

/// The view of a [`PortData`].
pub struct PortModel {
    pub value: u16,
    pub enabled: bool,
}

/// A port number and the flag that says whether the port is in use.
#[derive(Debug, Clone, Copy, PartialEq, Eq)]
pub struct PortData {
    pub(crate) value: u16,
    pub(crate) enabled: bool,
}

impl View for PortData {
    type V = PortModel;

    open(crate) spec fn view(&self) -> PortModel {
        PortModel { value: self.value, enabled: self.enabled }
    }
}

impl PortData {
    /// A port with its number and its flag.
    pub fn new(port: u16, enabled: bool) -> (r: Self)
        ensures
            r@ == (PortModel { value: port, enabled }),
    {
        PortData { value: port, enabled }
    }

    /// The port in effect: the number where the port is enabled, nothing where
    /// it is not.
    pub fn value(&self) -> (r: Option<u16>)
        ensures
            r == if self@.enabled {
                Some(self@.value)
            } else {
                None::<u16>
            },
    {
        if self.enabled {
            Some(self.value)
        } else {
            None
        }
    }
}

/// The lease that a caller asks for.
#[derive(Debug, Clone, Copy, PartialEq, Eq)]
pub struct LeaseInfo {
    /// After how many seconds without renewal the registry evicts the
    /// instance; the registry takes 90 where none is given.
    pub eviction_duration_in_secs: Option<u32>,
}

/// The view of an [`AmazonMetadataType`].
pub struct AmazonMetadataModel {
    pub ami_launch_index: Option<Seq<char>>,
    pub local_hostname: Seq<char>,
    pub availability_zone: Seq<char>,
    pub instance_id: Seq<char>,
    pub public_ipv4: Option<Seq<char>>,
    pub public_hostname: Option<Seq<char>>,
    pub ami_manifest_path: Option<Seq<char>>,
    pub local_ipv4: Seq<char>,
    pub hostname: Option<Seq<char>>,
    pub ami_id: Seq<char>,
    pub instance_type: Seq<char>,
}

/// What Amazon reports of an instance that it hosts. Older agents leave out
/// the optional fields.
#[derive(Debug, Clone, PartialEq, Eq)]
pub struct AmazonMetadataType {
    pub ami_launch_index: Option<String>,
    pub local_hostname: String,
    pub availability_zone: String,
    pub instance_id: String,
    pub public_ipv4: Option<String>,
    pub public_hostname: Option<String>,
    pub ami_manifest_path: Option<String>,
    pub local_ipv4: String,
    pub hostname: Option<String>,
    pub ami_id: String,
    pub instance_type: String,
}

impl View for AmazonMetadataType {
    type V = AmazonMetadataModel;

    open spec fn view(&self) -> AmazonMetadataModel {
        AmazonMetadataModel {
            ami_launch_index: opt_text(self.ami_launch_index),
            local_hostname: self.local_hostname@,
            availability_zone: self.availability_zone@,
            instance_id: self.instance_id@,
            public_ipv4: opt_text(self.public_ipv4),
            public_hostname: opt_text(self.public_hostname),
            ami_manifest_path: opt_text(self.ami_manifest_path),
            local_ipv4: self.local_ipv4@,
            hostname: opt_text(self.hostname),
            ami_id: self.ami_id@,
            instance_type: self.instance_type@,
        }
    }
}

/// The view of a [`DataCenterInfo`].
pub struct DataCenterModel {
    pub class: Seq<char>,
    pub name: DcNameType,
    pub metadata: Option<AmazonMetadataModel>,
}

impl DataCenterModel {
    /// Whether the Amazon block is there exactly where the kind is `Amazon`,
    /// as the registry expects. Nothing enforces it: a datacenter is decoded
    /// and encoded as it is.
    pub open spec fn consistent(self) -> bool {
        (self.name == DcNameType::Amazon) <==> (self.metadata is Some)
    }
}

/// The datacenter that hosts an instance.
#[derive(Debug, Clone, PartialEq, Eq)]
pub struct DataCenterInfo {
    pub(crate) class: String,
    pub name: DcNameType,
    /// Expected exactly where `name` is `Amazon`.
    pub metadata: Option<AmazonMetadataType>,
}

/// The class identifier of a datacenter that is not Amazon's.
pub open spec fn default_class() -> Seq<char> {
    "com.netflix.appinfo.InstanceInfo$DefaultDataCenterInfo"@
}

impl View for DataCenterInfo {
    type V = DataCenterModel;

    open(crate) spec fn view(&self) -> DataCenterModel {
        DataCenterModel {
            class: self.class@,
            name: self.name,
            metadata: match self.metadata {
                Some(m) => Some(m@),
                None => None,
            },
        }
    }
}

impl DataCenterInfo {
    /// Whether the Amazon block is there exactly where the kind is `Amazon`.
    pub fn is_consistent(&self) -> (r: bool)
        ensures
            r == self@.consistent(),
    {
        match self.name {
            DcNameType::Amazon => self.metadata.is_some(),
            DcNameType::MyOwn => self.metadata.is_none(),
        }
    }
}

impl Default for DataCenterInfo {
    fn default() -> (r: Self)
        ensures
            r@ == (DataCenterModel {
                class: default_class(),
                name: DcNameType::MyOwn,
                metadata: None,
            }),
    {
        DataCenterInfo {
            class: "com.netflix.appinfo.InstanceInfo$DefaultDataCenterInfo".to_owned(),
            name: DcNameType::MyOwn,
            metadata: None,
        }
    }
}

/// The view of an [`Instance`].
pub struct InstanceModel {
    pub host_name: Seq<char>,
    pub app: Seq<char>,
    pub ip_addr: Seq<char>,
    pub vip_address: Seq<char>,
    pub secure_vip_address: Option<Seq<char>>,
    pub status: StatusType,
    pub port: Option<PortModel>,
    pub secure_port: PortModel,
    pub home_page_url: Seq<char>,
    pub status_page_url: Seq<char>,
    pub health_check_url: Seq<char>,
    pub data_center_info: DataCenterModel,
    pub lease_info: Option<LeaseInfo>,
    pub metadata: Option<Seq<(Seq<char>, Seq<char>)>>,
}

impl InstanceModel {
    /// Whether the instance names its host and its application, as the
    /// registry expects of an instance that registers.
    pub open spec fn well_formed(self) -> bool {
        self.host_name.len() > 0 && self.app.len() > 0
    }
}

/// One running copy of a service, as the registry knows it.
#[derive(Debug, Clone, PartialEq, Eq)]
pub struct Instance {
    pub host_name: String,
    pub app: String,
    pub ip_addr: String,
    pub vip_address: String,
    pub secure_vip_address: Option<String>,
    pub status: StatusType,
    pub port: Option<PortData>,
    pub secure_port: PortData,
    pub home_page_url: String,
    pub status_page_url: String,
    pub health_check_url: String,
    pub data_center_info: DataCenterInfo,
    pub lease_info: Option<LeaseInfo>,
    /// Free pairs of key and value, in the order in which they were given.
    pub metadata: Option<Vec<(String, String)>>,
}

impl View for Instance {
    type V = InstanceModel;

    open spec fn view(&self) -> InstanceModel {
        InstanceModel {
            host_name: self.host_name@,
            app: self.app@,
            ip_addr: self.ip_addr@,
            vip_address: self.vip_address@,
            secure_vip_address: opt_text(self.secure_vip_address),
            status: self.status,
            port: match self.port {
                Some(p) => Some(p@),
                None => None,
            },
            secure_port: self.secure_port@,
            home_page_url: self.home_page_url@,
            status_page_url: self.status_page_url@,
            health_check_url: self.health_check_url@,
            data_center_info: self.data_center_info@,
            lease_info: self.lease_info,
            metadata: match self.metadata {
                Some(pairs) => Some(pairs_text(pairs@)),
                None => None,
            },
        }
    }
}

impl Instance {
    /// Whether the instance names its host and its application.
    pub fn is_well_formed(&self) -> (r: bool)
        ensures
            r == self@.well_formed(),
    {
        !self.host_name.as_str().is_empty() && !self.app.as_str().is_empty()
    }
}

/// The body of a registration: one instance, which the wire format puts under
/// the key `instance`.
#[derive(Debug, Clone)]
pub struct RegisterRequest<'reg> {
    pub instance: &'reg Instance,
}

} // verus!
