//! Cluster wide types: membership, node index, resources and metrics.
use vstd::prelude::*;
use vstd::std_specs::cmp::PartialEqSpecImpl;
use vstd::string::*;

use std::collections::HashMap;

use crate::text::str_eq;

verus! {

/// A JSON value of `serde_json`; the crate only carries such values, it
/// does not look into them.
#[verifier::external_type_specification]
#[verifier::external_body]
pub struct ExJsonValue(serde_json::Value);

/// Object.
#[derive(Debug)]
pub struct ClusterJoinInfoNodelist {
    /// The cluster node name.
    pub name: String,

    /// Node id for this node.
    pub nodeid: Option<u64>,

    pub pve_addr: String,

    /// Certificate SHA 256 fingerprint.
    pub pve_fp: String,

    pub quorum_votes: u64,

    /// Address and priority information of a single corosync link. (up to 8
    /// links supported; link0..link7)
    pub ring0_addr: Option<String>,

    pub additional_properties: HashMap<String, serde_json::Value>,
}

/// Object.
#[derive(Debug)]
pub struct ClusterJoinInfoNodelistRing0Addr {
    /// Hostname (or IP) of this corosync link address.
    pub address: String,

    /// The priority for the link when knet is used in 'passive' mode (default).
    /// Lower value means higher priority. Only valid for cluster create,
    /// ignored on node add.
    pub priority: Option<u8>,
}

/// Type of the metric.
#[derive(Clone, Debug)]
pub enum ClusterMetricsDataType {
    /// gauge.
    Gauge,
    /// counter.
    Counter,
    /// derive.
    Derive,
    /// Unknown variants for forward compatibility.
    UnknownEnumValue(String),
}

impl PartialEq for ClusterMetricsDataType {
    fn eq(&self, other: &Self) -> (r: bool) {
        match (self, other) {
            (ClusterMetricsDataType::Gauge, ClusterMetricsDataType::Gauge) => true,
            (ClusterMetricsDataType::Counter, ClusterMetricsDataType::Counter) => true,
            (ClusterMetricsDataType::Derive, ClusterMetricsDataType::Derive) => true,
            (ClusterMetricsDataType::UnknownEnumValue(a), ClusterMetricsDataType::UnknownEnumValue(b)) => *a == *b,
            _ => false,
        }
    }
}

impl PartialEqSpecImpl for ClusterMetricsDataType {
    open spec fn obeys_eq_spec() -> bool {
        true
    }

    open spec fn eq_spec(&self, other: &Self) -> bool {
        match (self, other) {
            (ClusterMetricsDataType::UnknownEnumValue(a), ClusterMetricsDataType::UnknownEnumValue(b)) => a@ == b@,
            _ => *self == *other,
        }
    }
}

impl std::str::FromStr for ClusterMetricsDataType {
    type Err = core::convert::Infallible;

    fn from_str(s: &str) -> (r: Result<Self, Self::Err>)
        ensures
            r matches Ok(v) && Self::parses_to(s@, v),
    {
        Ok(ClusterMetricsDataType::from_name(s))
    }
}

impl ClusterMetricsDataType {
    /// The name under which the API writes this value.
    pub open spec fn name(self) -> Seq<char> {
        match self {
            ClusterMetricsDataType::Gauge => "gauge"@,
            ClusterMetricsDataType::Counter => "counter"@,
            ClusterMetricsDataType::Derive => "derive"@,
            ClusterMetricsDataType::UnknownEnumValue(s) => s@,
        }
    }

    /// The known value that the API name `s` stands for, if any.
    pub open spec fn known(s: Seq<char>) -> Option<Self> {
        if s == "gauge"@ {
            Some(ClusterMetricsDataType::Gauge)
        }         else if s == "counter"@ {
            Some(ClusterMetricsDataType::Counter)
        }         else if s == "derive"@ {
            Some(ClusterMetricsDataType::Derive)
        } else {
            None
        }
    }

    /// `v` is the value that reading the API name `s` gives.
    pub open spec fn parses_to(s: Seq<char>, v: Self) -> bool {
        match Self::known(s) {
            Some(k) => v == k,
            None => v matches ClusterMetricsDataType::UnknownEnumValue(t) && t@ == s,
        }
    }

    /// The API name of this value.
    pub fn to_string(&self) -> (r: String)
        ensures
            r@ == self.name(),
    {
        match self {
            ClusterMetricsDataType::Gauge => String::from_str("gauge"),
            ClusterMetricsDataType::Counter => String::from_str("counter"),
            ClusterMetricsDataType::Derive => String::from_str("derive"),
            ClusterMetricsDataType::UnknownEnumValue(s) => s.clone(),
        }
    }

    /// Reads an API name; a name that is not known is kept as an unknown value.
    pub fn from_name(s: &str) -> (r: Self)
        ensures
            Self::parses_to(s@, r),
    {
        if str_eq(s, "gauge") {
            ClusterMetricsDataType::Gauge
        }         else if str_eq(s, "counter") {
            ClusterMetricsDataType::Counter
        }         else if str_eq(s, "derive") {
            ClusterMetricsDataType::Derive
        } else {
            ClusterMetricsDataType::UnknownEnumValue(String::from_str(s))
        }
    }

    /// Each known value goes with the name the API uses for it: `gauge` for `Gauge`, `counter` for `Counter`, `derive` for `Derive`.
    /// `to_string` writes that name and `from_name` reads it as that value.
    pub proof fn lemma_api_names()
        ensures
            ClusterMetricsDataType::Gauge.name() == "gauge"@,
            Self::parses_to("gauge"@, ClusterMetricsDataType::Gauge),
            ClusterMetricsDataType::Counter.name() == "counter"@,
            Self::parses_to("counter"@, ClusterMetricsDataType::Counter),
            ClusterMetricsDataType::Derive.name() == "derive"@,
            Self::parses_to("derive"@, ClusterMetricsDataType::Derive),
    {
        Self::lemma_to_string_from_name(ClusterMetricsDataType::Gauge);
        Self::lemma_to_string_from_name(ClusterMetricsDataType::Counter);
        Self::lemma_to_string_from_name(ClusterMetricsDataType::Derive);
    }

    /// Writing out a value that was read gives back the name that was read.
    pub proof fn lemma_from_name_to_string(s: Seq<char>, v: Self)
        requires
            Self::parses_to(s, v),
        ensures
            v.name() == s,
    {
    }

    /// Reading the name of a value gives back the value, unless the value is an
    /// unknown one that carries the name of a known one.
    pub proof fn lemma_to_string_from_name(v: Self)
        requires
            v is UnknownEnumValue ==> Self::known(v.name()) is None,
        ensures
            Self::parses_to(v.name(), v),
    {
        if !(v is UnknownEnumValue) {
            Self::lemma_known_names(v);
        }
    }

    /// The spelling of known names, character by character.
    proof fn lemma_name_spelling()
        ensures
            "gauge"@.len() == 5 && "gauge"@[0] == 'g' && "gauge"@[1] == 'a' && "gauge"@[2] == 'u' && "gauge"@[3] == 'g' && "gauge"@[4] == 'e',
            "counter"@.len() == 7 && "counter"@[0] == 'c' && "counter"@[1] == 'o' && "counter"@[2] == 'u' && "counter"@[3] == 'n' && "counter"@[4] == 't' && "counter"@[5] == 'e' && "counter"@[6] == 'r',
            "derive"@.len() == 6 && "derive"@[0] == 'd' && "derive"@[1] == 'e' && "derive"@[2] == 'r' && "derive"@[3] == 'i' && "derive"@[4] == 'v' && "derive"@[5] == 'e',
    {
        broadcast use vstd::string::group_string_axioms;

        reveal_strlit("gauge");
        reveal_strlit("counter");
        reveal_strlit("derive");
    }

    proof fn lemma_known_names(v: Self)
        requires
            !(v is UnknownEnumValue),
        ensures
            Self::known(v.name()) == Some(v),
    {
        Self::lemma_name_spelling();
    }

}

/// Node status.
#[derive(Clone, Debug)]
pub enum ClusterNodeIndexResponseStatus {
    /// unknown.
    Unknown,
    /// online.
    Online,
    /// offline.
    Offline,
    /// Unknown variants for forward compatibility.
    UnknownEnumValue(String),
}

impl PartialEq for ClusterNodeIndexResponseStatus {
    fn eq(&self, other: &Self) -> (r: bool) {
        match (self, other) {
            (ClusterNodeIndexResponseStatus::Unknown, ClusterNodeIndexResponseStatus::Unknown) => true,
            (ClusterNodeIndexResponseStatus::Online, ClusterNodeIndexResponseStatus::Online) => true,
            (ClusterNodeIndexResponseStatus::Offline, ClusterNodeIndexResponseStatus::Offline) => true,
            (ClusterNodeIndexResponseStatus::UnknownEnumValue(a), ClusterNodeIndexResponseStatus::UnknownEnumValue(b)) => *a == *b,
            _ => false,
        }
    }
}

impl PartialEqSpecImpl for ClusterNodeIndexResponseStatus {
    open spec fn obeys_eq_spec() -> bool {
        true
    }

    open spec fn eq_spec(&self, other: &Self) -> bool {
        match (self, other) {
            (ClusterNodeIndexResponseStatus::UnknownEnumValue(a), ClusterNodeIndexResponseStatus::UnknownEnumValue(b)) => a@ == b@,
            _ => *self == *other,
        }
    }
}

impl std::str::FromStr for ClusterNodeIndexResponseStatus {
    type Err = core::convert::Infallible;

    fn from_str(s: &str) -> (r: Result<Self, Self::Err>)
        ensures
            r matches Ok(v) && Self::parses_to(s@, v),
    {
        Ok(ClusterNodeIndexResponseStatus::from_name(s))
    }
}

impl ClusterNodeIndexResponseStatus {
    /// The name under which the API writes this value.
    pub open spec fn name(self) -> Seq<char> {
        match self {
            ClusterNodeIndexResponseStatus::Unknown => "unknown"@,
            ClusterNodeIndexResponseStatus::Online => "online"@,
            ClusterNodeIndexResponseStatus::Offline => "offline"@,
            ClusterNodeIndexResponseStatus::UnknownEnumValue(s) => s@,
        }
    }

    /// The known value that the API name `s` stands for, if any.
    pub open spec fn known(s: Seq<char>) -> Option<Self> {
        if s == "unknown"@ {
            Some(ClusterNodeIndexResponseStatus::Unknown)
        }         else if s == "online"@ {
            Some(ClusterNodeIndexResponseStatus::Online)
        }         else if s == "offline"@ {
            Some(ClusterNodeIndexResponseStatus::Offline)
        } else {
            None
        }
    }

    /// `v` is the value that reading the API name `s` gives.
    pub open spec fn parses_to(s: Seq<char>, v: Self) -> bool {
        match Self::known(s) {
            Some(k) => v == k,
            None => v matches ClusterNodeIndexResponseStatus::UnknownEnumValue(t) && t@ == s,
        }
    }

    /// The API name of this value.
    pub fn to_string(&self) -> (r: String)
        ensures
            r@ == self.name(),
    {
        match self {
            ClusterNodeIndexResponseStatus::Unknown => String::from_str("unknown"),
            ClusterNodeIndexResponseStatus::Online => String::from_str("online"),
            ClusterNodeIndexResponseStatus::Offline => String::from_str("offline"),
            ClusterNodeIndexResponseStatus::UnknownEnumValue(s) => s.clone(),
        }
    }

    /// Reads an API name; a name that is not known is kept as an unknown value.
    pub fn from_name(s: &str) -> (r: Self)
        ensures
            Self::parses_to(s@, r),
    {
        if str_eq(s, "unknown") {
            ClusterNodeIndexResponseStatus::Unknown
        }         else if str_eq(s, "online") {
            ClusterNodeIndexResponseStatus::Online
        }         else if str_eq(s, "offline") {
            ClusterNodeIndexResponseStatus::Offline
        } else {
            ClusterNodeIndexResponseStatus::UnknownEnumValue(String::from_str(s))
        }
    }

    /// Each known value goes with the name the API uses for it: `unknown` for `Unknown`, `online` for `Online`, `offline` for `Offline`.
    /// `to_string` writes that name and `from_name` reads it as that value.
    pub proof fn lemma_api_names()
        ensures
            ClusterNodeIndexResponseStatus::Unknown.name() == "unknown"@,
            Self::parses_to("unknown"@, ClusterNodeIndexResponseStatus::Unknown),
            ClusterNodeIndexResponseStatus::Online.name() == "online"@,
            Self::parses_to("online"@, ClusterNodeIndexResponseStatus::Online),
            ClusterNodeIndexResponseStatus::Offline.name() == "offline"@,
            Self::parses_to("offline"@, ClusterNodeIndexResponseStatus::Offline),
    {
        Self::lemma_to_string_from_name(ClusterNodeIndexResponseStatus::Unknown);
        Self::lemma_to_string_from_name(ClusterNodeIndexResponseStatus::Online);
        Self::lemma_to_string_from_name(ClusterNodeIndexResponseStatus::Offline);
    }

    /// Writing out a value that was read gives back the name that was read.
    pub proof fn lemma_from_name_to_string(s: Seq<char>, v: Self)
        requires
            Self::parses_to(s, v),
        ensures
            v.name() == s,
    {
    }

    /// Reading the name of a value gives back the value, unless the value is an
    /// unknown one that carries the name of a known one.
    pub proof fn lemma_to_string_from_name(v: Self)
        requires
            v is UnknownEnumValue ==> Self::known(v.name()) is None,
        ensures
            Self::parses_to(v.name(), v),
    {
        if !(v is UnknownEnumValue) {
            Self::lemma_known_names(v);
        }
    }

    /// The spelling of known names, character by character.
    proof fn lemma_name_spelling()
        ensures
            "unknown"@.len() == 7 && "unknown"@[0] == 'u' && "unknown"@[1] == 'n' && "unknown"@[2] == 'k' && "unknown"@[3] == 'n' && "unknown"@[4] == 'o' && "unknown"@[5] == 'w' && "unknown"@[6] == 'n',
            "online"@.len() == 6 && "online"@[0] == 'o' && "online"@[1] == 'n' && "online"@[2] == 'l' && "online"@[3] == 'i' && "online"@[4] == 'n' && "online"@[5] == 'e',
            "offline"@.len() == 7 && "offline"@[0] == 'o' && "offline"@[1] == 'f' && "offline"@[2] == 'f' && "offline"@[3] == 'l' && "offline"@[4] == 'i' && "offline"@[5] == 'n' && "offline"@[6] == 'e',
    {
        broadcast use vstd::string::group_string_axioms;

        reveal_strlit("unknown");
        reveal_strlit("online");
        reveal_strlit("offline");
    }

    proof fn lemma_known_names(v: Self)
        requires
            !(v is UnknownEnumValue),
        ensures
            Self::known(v.name()) == Some(v),
    {
        Self::lemma_name_spelling();
    }

}

/// Object.
#[derive(Debug)]
pub struct ClusterNodeStatus {
    pub id: String,

    /// [node] IP of the resolved nodename.
    pub ip: Option<String>,

    /// [node] Proxmox VE Subscription level, indicates if eligible for
    /// enterprise support as well as access to the stable Proxmox VE Enterprise
    /// Repository.
    pub level: Option<String>,

    /// [node] Indicates if this is the responding node.
    pub local: Option<bool>,

    pub name: String,

    /// [node] ID of the node from the corosync configuration.
    pub nodeid: Option<i64>,

    /// [cluster] Nodes count, including offline nodes.
    pub nodes: Option<i64>,

    /// [node] Indicates if the node is online or offline.
    pub online: Option<bool>,

    /// [cluster] Indicates if there is a majority of nodes online to make
    /// decisions
    pub quorate: Option<bool>,

    pub ty: ClusterNodeStatusType,

    /// [cluster] Current version of the corosync configuration file.
    pub version: Option<i64>,
}

/// Indicates the type, either cluster or node. The type defines the object
/// properties e.g. quorate available for type cluster.
#[derive(Clone, Debug)]
pub enum ClusterNodeStatusType {
    /// cluster.
    Cluster,
    /// node.
    Node,
    /// Unknown variants for forward compatibility.
    UnknownEnumValue(String),
}

impl PartialEq for ClusterNodeStatusType {
    fn eq(&self, other: &Self) -> (r: bool) {
        match (self, other) {
            (ClusterNodeStatusType::Cluster, ClusterNodeStatusType::Cluster) => true,
            (ClusterNodeStatusType::Node, ClusterNodeStatusType::Node) => true,
            (ClusterNodeStatusType::UnknownEnumValue(a), ClusterNodeStatusType::UnknownEnumValue(b)) => *a == *b,
            _ => false,
        }
    }
}

impl PartialEqSpecImpl for ClusterNodeStatusType {
    open spec fn obeys_eq_spec() -> bool {
        true
    }

    open spec fn eq_spec(&self, other: &Self) -> bool {
        match (self, other) {
            (ClusterNodeStatusType::UnknownEnumValue(a), ClusterNodeStatusType::UnknownEnumValue(b)) => a@ == b@,
            _ => *self == *other,
        }
    }
}

impl std::str::FromStr for ClusterNodeStatusType {
    type Err = core::convert::Infallible;

    fn from_str(s: &str) -> (r: Result<Self, Self::Err>)
        ensures
            r matches Ok(v) && Self::parses_to(s@, v),
    {
        Ok(ClusterNodeStatusType::from_name(s))
    }
}

impl ClusterNodeStatusType {
    /// The name under which the API writes this value.
    pub open spec fn name(self) -> Seq<char> {
        match self {
            ClusterNodeStatusType::Cluster => "cluster"@,
            ClusterNodeStatusType::Node => "node"@,
            ClusterNodeStatusType::UnknownEnumValue(s) => s@,
        }
    }

    /// The known value that the API name `s` stands for, if any.
    pub open spec fn known(s: Seq<char>) -> Option<Self> {
        if s == "cluster"@ {
            Some(ClusterNodeStatusType::Cluster)
        }         else if s == "node"@ {
            Some(ClusterNodeStatusType::Node)
        } else {
            None
        }
    }

    /// `v` is the value that reading the API name `s` gives.
    pub open spec fn parses_to(s: Seq<char>, v: Self) -> bool {
        match Self::known(s) {
            Some(k) => v == k,
            None => v matches ClusterNodeStatusType::UnknownEnumValue(t) && t@ == s,
        }
    }

    /// The API name of this value.
    pub fn to_string(&self) -> (r: String)
        ensures
            r@ == self.name(),
    {
        match self {
            ClusterNodeStatusType::Cluster => String::from_str("cluster"),
            ClusterNodeStatusType::Node => String::from_str("node"),
            ClusterNodeStatusType::UnknownEnumValue(s) => s.clone(),
        }
    }

    /// Reads an API name; a name that is not known is kept as an unknown value.
    pub fn from_name(s: &str) -> (r: Self)
        ensures
            Self::parses_to(s@, r),
    {
        if str_eq(s, "cluster") {
            ClusterNodeStatusType::Cluster
        }         else if str_eq(s, "node") {
            ClusterNodeStatusType::Node
        } else {
            ClusterNodeStatusType::UnknownEnumValue(String::from_str(s))
        }
    }

    /// Each known value goes with the name the API uses for it: `cluster` for `Cluster`, `node` for `Node`.
    /// `to_string` writes that name and `from_name` reads it as that value.
    pub proof fn lemma_api_names()
        ensures
            ClusterNodeStatusType::Cluster.name() == "cluster"@,
            Self::parses_to("cluster"@, ClusterNodeStatusType::Cluster),
            ClusterNodeStatusType::Node.name() == "node"@,
            Self::parses_to("node"@, ClusterNodeStatusType::Node),
    {
        Self::lemma_to_string_from_name(ClusterNodeStatusType::Cluster);
        Self::lemma_to_string_from_name(ClusterNodeStatusType::Node);
    }

    /// Writing out a value that was read gives back the name that was read.
    pub proof fn lemma_from_name_to_string(s: Seq<char>, v: Self)
        requires
            Self::parses_to(s, v),
        ensures
            v.name() == s,
    {
    }

    /// Reading the name of a value gives back the value, unless the value is an
    /// unknown one that carries the name of a known one.
    pub proof fn lemma_to_string_from_name(v: Self)
        requires
            v is UnknownEnumValue ==> Self::known(v.name()) is None,
        ensures
            Self::parses_to(v.name(), v),
    {
        if !(v is UnknownEnumValue) {
            Self::lemma_known_names(v);
        }
    }

    /// The spelling of known names, character by character.
    proof fn lemma_name_spelling()
        ensures
            "cluster"@.len() == 7 && "cluster"@[0] == 'c' && "cluster"@[1] == 'l' && "cluster"@[2] == 'u' && "cluster"@[3] == 's' && "cluster"@[4] == 't' && "cluster"@[5] == 'e' && "cluster"@[6] == 'r',
            "node"@.len() == 4 && "node"@[0] == 'n' && "node"@[1] == 'o' && "node"@[2] == 'd' && "node"@[3] == 'e',
    {
        broadcast use vstd::string::group_string_axioms;

        reveal_strlit("cluster");
        reveal_strlit("node");
    }

    proof fn lemma_known_names(v: Self)
        requires
            !(v is UnknownEnumValue),
        ensures
            Self::known(v.name()) == Some(v),
    {
        Self::lemma_name_spelling();
    }

}

/// Resource type.
#[derive(Clone, Debug)]
pub enum ClusterResourceKind {
    /// vm.
    Vm,
    /// storage.
    Storage,
    /// node.
    Node,
    /// sdn.
    Sdn,
    /// Unknown variants for forward compatibility.
    UnknownEnumValue(String),
}

impl PartialEq for ClusterResourceKind {
    fn eq(&self, other: &Self) -> (r: bool) {
        match (self, other) {
            (ClusterResourceKind::Vm, ClusterResourceKind::Vm) => true,
            (ClusterResourceKind::Storage, ClusterResourceKind::Storage) => true,
            (ClusterResourceKind::Node, ClusterResourceKind::Node) => true,
            (ClusterResourceKind::Sdn, ClusterResourceKind::Sdn) => true,
            (ClusterResourceKind::UnknownEnumValue(a), ClusterResourceKind::UnknownEnumValue(b)) => *a == *b,
            _ => false,
        }
    }
}

impl PartialEqSpecImpl for ClusterResourceKind {
    open spec fn obeys_eq_spec() -> bool {
        true
    }

    open spec fn eq_spec(&self, other: &Self) -> bool {
        match (self, other) {
            (ClusterResourceKind::UnknownEnumValue(a), ClusterResourceKind::UnknownEnumValue(b)) => a@ == b@,
            _ => *self == *other,
        }
    }
}

impl std::str::FromStr for ClusterResourceKind {
    type Err = core::convert::Infallible;

    fn from_str(s: &str) -> (r: Result<Self, Self::Err>)
        ensures
            r matches Ok(v) && Self::parses_to(s@, v),
    {
        Ok(ClusterResourceKind::from_name(s))
    }
}

impl ClusterResourceKind {
    /// The name under which the API writes this value.
    pub open spec fn name(self) -> Seq<char> {
        match self {
            ClusterResourceKind::Vm => "vm"@,
            ClusterResourceKind::Storage => "storage"@,
            ClusterResourceKind::Node => "node"@,
            ClusterResourceKind::Sdn => "sdn"@,
            ClusterResourceKind::UnknownEnumValue(s) => s@,
        }
    }

    /// The known value that the API name `s` stands for, if any.
    pub open spec fn known(s: Seq<char>) -> Option<Self> {
        if s == "vm"@ {
            Some(ClusterResourceKind::Vm)
        }         else if s == "storage"@ {
            Some(ClusterResourceKind::Storage)
        }         else if s == "node"@ {
            Some(ClusterResourceKind::Node)
        }         else if s == "sdn"@ {
            Some(ClusterResourceKind::Sdn)
        } else {
            None
        }
    }

    /// `v` is the value that reading the API name `s` gives.
    pub open spec fn parses_to(s: Seq<char>, v: Self) -> bool {
        match Self::known(s) {
            Some(k) => v == k,
            None => v matches ClusterResourceKind::UnknownEnumValue(t) && t@ == s,
        }
    }

    /// The API name of this value.
    pub fn to_string(&self) -> (r: String)
        ensures
            r@ == self.name(),
    {
        match self {
            ClusterResourceKind::Vm => String::from_str("vm"),
            ClusterResourceKind::Storage => String::from_str("storage"),
            ClusterResourceKind::Node => String::from_str("node"),
            ClusterResourceKind::Sdn => String::from_str("sdn"),
            ClusterResourceKind::UnknownEnumValue(s) => s.clone(),
        }
    }

    /// Reads an API name; a name that is not known is kept as an unknown value.
    pub fn from_name(s: &str) -> (r: Self)
        ensures
            Self::parses_to(s@, r),
    {
        if str_eq(s, "vm") {
            ClusterResourceKind::Vm
        }         else if str_eq(s, "storage") {
            ClusterResourceKind::Storage
        }         else if str_eq(s, "node") {
            ClusterResourceKind::Node
        }         else if str_eq(s, "sdn") {
            ClusterResourceKind::Sdn
        } else {
            ClusterResourceKind::UnknownEnumValue(String::from_str(s))
        }
    }

    /// Each known value goes with the name the API uses for it: `vm` for `Vm`, `storage` for `Storage`, `node` for `Node`, and so on for every known value.
    /// `to_string` writes that name and `from_name` reads it as that value.
    pub proof fn lemma_api_names()
        ensures
            ClusterResourceKind::Vm.name() == "vm"@,
            Self::parses_to("vm"@, ClusterResourceKind::Vm),
            ClusterResourceKind::Storage.name() == "storage"@,
            Self::parses_to("storage"@, ClusterResourceKind::Storage),
            ClusterResourceKind::Node.name() == "node"@,
            Self::parses_to("node"@, ClusterResourceKind::Node),
            ClusterResourceKind::Sdn.name() == "sdn"@,
            Self::parses_to("sdn"@, ClusterResourceKind::Sdn),
    {
        Self::lemma_to_string_from_name(ClusterResourceKind::Vm);
        Self::lemma_to_string_from_name(ClusterResourceKind::Storage);
        Self::lemma_to_string_from_name(ClusterResourceKind::Node);
        Self::lemma_to_string_from_name(ClusterResourceKind::Sdn);
    }

    /// Writing out a value that was read gives back the name that was read.
    pub proof fn lemma_from_name_to_string(s: Seq<char>, v: Self)
        requires
            Self::parses_to(s, v),
        ensures
            v.name() == s,
    {
    }

    /// Reading the name of a value gives back the value, unless the value is an
    /// unknown one that carries the name of a known one.
    pub proof fn lemma_to_string_from_name(v: Self)
        requires
            v is UnknownEnumValue ==> Self::known(v.name()) is None,
        ensures
            Self::parses_to(v.name(), v),
    {
        if !(v is UnknownEnumValue) {
            Self::lemma_known_names(v);
        }
    }

    /// The spelling of known names, character by character.
    proof fn lemma_name_spelling()
        ensures
            "vm"@.len() == 2 && "vm"@[0] == 'v' && "vm"@[1] == 'm',
            "storage"@.len() == 7 && "storage"@[0] == 's' && "storage"@[1] == 't' && "storage"@[2] == 'o' && "storage"@[3] == 'r' && "storage"@[4] == 'a' && "storage"@[5] == 'g' && "storage"@[6] == 'e',
            "node"@.len() == 4 && "node"@[0] == 'n' && "node"@[1] == 'o' && "node"@[2] == 'd' && "node"@[3] == 'e',
            "sdn"@.len() == 3 && "sdn"@[0] == 's' && "sdn"@[1] == 'd' && "sdn"@[2] == 'n',
    {
        broadcast use vstd::string::group_string_axioms;

        reveal_strlit("vm");
        reveal_strlit("storage");
        reveal_strlit("node");
        reveal_strlit("sdn");
    }

    proof fn lemma_known_names(v: Self)
        requires
            !(v is UnknownEnumValue),
        ensures
            Self::known(v.name()) == Some(v),
    {
        Self::lemma_name_spelling();
    }

}

/// The type of network resource (for type 'network').
#[derive(Clone, Debug)]
pub enum ClusterResourceNetworkType {
    /// fabric.
    Fabric,
    /// zone.
    Zone,
    /// Unknown variants for forward compatibility.
    UnknownEnumValue(String),
}

impl PartialEq for ClusterResourceNetworkType {
    fn eq(&self, other: &Self) -> (r: bool) {
        match (self, other) {
            (ClusterResourceNetworkType::Fabric, ClusterResourceNetworkType::Fabric) => true,
            (ClusterResourceNetworkType::Zone, ClusterResourceNetworkType::Zone) => true,
            (ClusterResourceNetworkType::UnknownEnumValue(a), ClusterResourceNetworkType::UnknownEnumValue(b)) => *a == *b,
            _ => false,
        }
    }
}

impl PartialEqSpecImpl for ClusterResourceNetworkType {
    open spec fn obeys_eq_spec() -> bool {
        true
    }

    open spec fn eq_spec(&self, other: &Self) -> bool {
        match (self, other) {
            (ClusterResourceNetworkType::UnknownEnumValue(a), ClusterResourceNetworkType::UnknownEnumValue(b)) => a@ == b@,
            _ => *self == *other,
        }
    }
}

impl std::str::FromStr for ClusterResourceNetworkType {
    type Err = core::convert::Infallible;

    fn from_str(s: &str) -> (r: Result<Self, Self::Err>)
        ensures
            r matches Ok(v) && Self::parses_to(s@, v),
    {
        Ok(ClusterResourceNetworkType::from_name(s))
    }
}

impl ClusterResourceNetworkType {
    /// The name under which the API writes this value.
    pub open spec fn name(self) -> Seq<char> {
        match self {
            ClusterResourceNetworkType::Fabric => "fabric"@,
            ClusterResourceNetworkType::Zone => "zone"@,
            ClusterResourceNetworkType::UnknownEnumValue(s) => s@,
        }
    }

    /// The known value that the API name `s` stands for, if any.
    pub open spec fn known(s: Seq<char>) -> Option<Self> {
        if s == "fabric"@ {
            Some(ClusterResourceNetworkType::Fabric)
        }         else if s == "zone"@ {
            Some(ClusterResourceNetworkType::Zone)
        } else {
            None
        }
    }

    /// `v` is the value that reading the API name `s` gives.
    pub open spec fn parses_to(s: Seq<char>, v: Self) -> bool {
        match Self::known(s) {
            Some(k) => v == k,
            None => v matches ClusterResourceNetworkType::UnknownEnumValue(t) && t@ == s,
        }
    }

    /// The API name of this value.
    pub fn to_string(&self) -> (r: String)
        ensures
            r@ == self.name(),
    {
        match self {
            ClusterResourceNetworkType::Fabric => String::from_str("fabric"),
            ClusterResourceNetworkType::Zone => String::from_str("zone"),
            ClusterResourceNetworkType::UnknownEnumValue(s) => s.clone(),
        }
    }

    /// Reads an API name; a name that is not known is kept as an unknown value.
    pub fn from_name(s: &str) -> (r: Self)
        ensures
            Self::parses_to(s@, r),
    {
        if str_eq(s, "fabric") {
            ClusterResourceNetworkType::Fabric
        }         else if str_eq(s, "zone") {
            ClusterResourceNetworkType::Zone
        } else {
            ClusterResourceNetworkType::UnknownEnumValue(String::from_str(s))
        }
    }

    /// Each known value goes with the name the API uses for it: `fabric` for `Fabric`, `zone` for `Zone`.
    /// `to_string` writes that name and `from_name` reads it as that value.
    pub proof fn lemma_api_names()
        ensures
            ClusterResourceNetworkType::Fabric.name() == "fabric"@,
            Self::parses_to("fabric"@, ClusterResourceNetworkType::Fabric),
            ClusterResourceNetworkType::Zone.name() == "zone"@,
            Self::parses_to("zone"@, ClusterResourceNetworkType::Zone),
    {
        Self::lemma_to_string_from_name(ClusterResourceNetworkType::Fabric);
        Self::lemma_to_string_from_name(ClusterResourceNetworkType::Zone);
    }

    /// Writing out a value that was read gives back the name that was read.
    pub proof fn lemma_from_name_to_string(s: Seq<char>, v: Self)
        requires
            Self::parses_to(s, v),
        ensures
            v.name() == s,
    {
    }

    /// Reading the name of a value gives back the value, unless the value is an
    /// unknown one that carries the name of a known one.
    pub proof fn lemma_to_string_from_name(v: Self)
        requires
            v is UnknownEnumValue ==> Self::known(v.name()) is None,
        ensures
            Self::parses_to(v.name(), v),
    {
        if !(v is UnknownEnumValue) {
            Self::lemma_known_names(v);
        }
    }

    /// The spelling of known names, character by character.
    proof fn lemma_name_spelling()
        ensures
            "fabric"@.len() == 6 && "fabric"@[0] == 'f' && "fabric"@[1] == 'a' && "fabric"@[2] == 'b' && "fabric"@[3] == 'r' && "fabric"@[4] == 'i' && "fabric"@[5] == 'c',
            "zone"@.len() == 4 && "zone"@[0] == 'z' && "zone"@[1] == 'o' && "zone"@[2] == 'n' && "zone"@[3] == 'e',
    {
        broadcast use vstd::string::group_string_axioms;

        reveal_strlit("fabric");
        reveal_strlit("zone");
    }

    proof fn lemma_known_names(v: Self)
        requires
            !(v is UnknownEnumValue),
        ensures
            Self::known(v.name()) == Some(v),
    {
        Self::lemma_name_spelling();
    }

}

/// Resource type.
#[derive(Clone, Debug)]
pub enum ClusterResourceType {
    /// node.
    Node,
    /// storage.
    Storage,
    /// pool.
    Pool,
    /// qemu.
    Qemu,
    /// lxc.
    Lxc,
    /// openvz.
    Openvz,
    /// sdn.
    Sdn,
    /// network.
    Network,
    /// Unknown variants for forward compatibility.
    UnknownEnumValue(String),
}

impl PartialEq for ClusterResourceType {
    fn eq(&self, other: &Self) -> (r: bool) {
        match (self, other) {
            (ClusterResourceType::Node, ClusterResourceType::Node) => true,
            (ClusterResourceType::Storage, ClusterResourceType::Storage) => true,
            (ClusterResourceType::Pool, ClusterResourceType::Pool) => true,
            (ClusterResourceType::Qemu, ClusterResourceType::Qemu) => true,
            (ClusterResourceType::Lxc, ClusterResourceType::Lxc) => true,
            (ClusterResourceType::Openvz, ClusterResourceType::Openvz) => true,
            (ClusterResourceType::Sdn, ClusterResourceType::Sdn) => true,
            (ClusterResourceType::Network, ClusterResourceType::Network) => true,
            (ClusterResourceType::UnknownEnumValue(a), ClusterResourceType::UnknownEnumValue(b)) => *a == *b,
            _ => false,
        }
    }
}

impl PartialEqSpecImpl for ClusterResourceType {
    open spec fn obeys_eq_spec() -> bool {
        true
    }

    open spec fn eq_spec(&self, other: &Self) -> bool {
        match (self, other) {
            (ClusterResourceType::UnknownEnumValue(a), ClusterResourceType::UnknownEnumValue(b)) => a@ == b@,
            _ => *self == *other,
        }
    }
}

impl std::str::FromStr for ClusterResourceType {
    type Err = core::convert::Infallible;

    fn from_str(s: &str) -> (r: Result<Self, Self::Err>)
        ensures
            r matches Ok(v) && Self::parses_to(s@, v),
    {
        Ok(ClusterResourceType::from_name(s))
    }
}

impl ClusterResourceType {
    /// The name under which the API writes this value.
    pub open spec fn name(self) -> Seq<char> {
        match self {
            ClusterResourceType::Node => "node"@,
            ClusterResourceType::Storage => "storage"@,
            ClusterResourceType::Pool => "pool"@,
            ClusterResourceType::Qemu => "qemu"@,
            ClusterResourceType::Lxc => "lxc"@,
            ClusterResourceType::Openvz => "openvz"@,
            ClusterResourceType::Sdn => "sdn"@,
            ClusterResourceType::Network => "network"@,
            ClusterResourceType::UnknownEnumValue(s) => s@,
        }
    }

    /// The known value that the API name `s` stands for, if any.
    pub open spec fn known(s: Seq<char>) -> Option<Self> {
        if s == "node"@ {
            Some(ClusterResourceType::Node)
        }         else if s == "storage"@ {
            Some(ClusterResourceType::Storage)
        }         else if s == "pool"@ {
            Some(ClusterResourceType::Pool)
        }         else if s == "qemu"@ {
            Some(ClusterResourceType::Qemu)
        }         else if s == "lxc"@ {
            Some(ClusterResourceType::Lxc)
        }         else if s == "openvz"@ {
            Some(ClusterResourceType::Openvz)
        }         else if s == "sdn"@ {
            Some(ClusterResourceType::Sdn)
        }         else if s == "network"@ {
            Some(ClusterResourceType::Network)
        } else {
            None
        }
    }

    /// `v` is the value that reading the API name `s` gives.
    pub open spec fn parses_to(s: Seq<char>, v: Self) -> bool {
        match Self::known(s) {
            Some(k) => v == k,
            None => v matches ClusterResourceType::UnknownEnumValue(t) && t@ == s,
        }
    }

    /// The API name of this value.
    pub fn to_string(&self) -> (r: String)
        ensures
            r@ == self.name(),
    {
        match self {
            ClusterResourceType::Node => String::from_str("node"),
            ClusterResourceType::Storage => String::from_str("storage"),
            ClusterResourceType::Pool => String::from_str("pool"),
            ClusterResourceType::Qemu => String::from_str("qemu"),
            ClusterResourceType::Lxc => String::from_str("lxc"),
            ClusterResourceType::Openvz => String::from_str("openvz"),
            ClusterResourceType::Sdn => String::from_str("sdn"),
            ClusterResourceType::Network => String::from_str("network"),
            ClusterResourceType::UnknownEnumValue(s) => s.clone(),
        }
    }

    /// Reads an API name; a name that is not known is kept as an unknown value.
    pub fn from_name(s: &str) -> (r: Self)
        ensures
            Self::parses_to(s@, r),
    {
        if str_eq(s, "node") {
            ClusterResourceType::Node
        }         else if str_eq(s, "storage") {
            ClusterResourceType::Storage
        }         else if str_eq(s, "pool") {
            ClusterResourceType::Pool
        }         else if str_eq(s, "qemu") {
            ClusterResourceType::Qemu
        }         else if str_eq(s, "lxc") {
            ClusterResourceType::Lxc
        }         else if str_eq(s, "openvz") {
            ClusterResourceType::Openvz
        }         else if str_eq(s, "sdn") {
            ClusterResourceType::Sdn
        }         else if str_eq(s, "network") {
            ClusterResourceType::Network
        } else {
            ClusterResourceType::UnknownEnumValue(String::from_str(s))
        }
    }

    /// Each known value goes with the name the API uses for it: `node` for `Node`, `storage` for `Storage`, `pool` for `Pool`, and so on for every known value.
    /// `to_string` writes that name and `from_name` reads it as that value.
    pub proof fn lemma_api_names()
        ensures
            ClusterResourceType::Node.name() == "node"@,
            Self::parses_to("node"@, ClusterResourceType::Node),
            ClusterResourceType::Storage.name() == "storage"@,
            Self::parses_to("storage"@, ClusterResourceType::Storage),
            ClusterResourceType::Pool.name() == "pool"@,
            Self::parses_to("pool"@, ClusterResourceType::Pool),
            ClusterResourceType::Qemu.name() == "qemu"@,
            Self::parses_to("qemu"@, ClusterResourceType::Qemu),
            ClusterResourceType::Lxc.name() == "lxc"@,
            Self::parses_to("lxc"@, ClusterResourceType::Lxc),
            ClusterResourceType::Openvz.name() == "openvz"@,
            Self::parses_to("openvz"@, ClusterResourceType::Openvz),
            ClusterResourceType::Sdn.name() == "sdn"@,
            Self::parses_to("sdn"@, ClusterResourceType::Sdn),
            ClusterResourceType::Network.name() == "network"@,
            Self::parses_to("network"@, ClusterResourceType::Network),
    {
        Self::lemma_to_string_from_name(ClusterResourceType::Node);
        Self::lemma_to_string_from_name(ClusterResourceType::Storage);
        Self::lemma_to_string_from_name(ClusterResourceType::Pool);
        Self::lemma_to_string_from_name(ClusterResourceType::Qemu);
        Self::lemma_to_string_from_name(ClusterResourceType::Lxc);
        Self::lemma_to_string_from_name(ClusterResourceType::Openvz);
        Self::lemma_to_string_from_name(ClusterResourceType::Sdn);
        Self::lemma_to_string_from_name(ClusterResourceType::Network);
    }

    /// Writing out a value that was read gives back the name that was read.
    pub proof fn lemma_from_name_to_string(s: Seq<char>, v: Self)
        requires
            Self::parses_to(s, v),
        ensures
            v.name() == s,
    {
    }

    /// Reading the name of a value gives back the value, unless the value is an
    /// unknown one that carries the name of a known one.
    pub proof fn lemma_to_string_from_name(v: Self)
        requires
            v is UnknownEnumValue ==> Self::known(v.name()) is None,
        ensures
            Self::parses_to(v.name(), v),
    {
        if !(v is UnknownEnumValue) {
            Self::lemma_known_names(v);
        }
    }

    /// The spelling of known names, character by character.
    proof fn lemma_name_spelling()
        ensures
            "node"@.len() == 4 && "node"@[0] == 'n' && "node"@[1] == 'o' && "node"@[2] == 'd' && "node"@[3] == 'e',
            "storage"@.len() == 7 && "storage"@[0] == 's' && "storage"@[1] == 't' && "storage"@[2] == 'o' && "storage"@[3] == 'r' && "storage"@[4] == 'a' && "storage"@[5] == 'g' && "storage"@[6] == 'e',
            "pool"@.len() == 4 && "pool"@[0] == 'p' && "pool"@[1] == 'o' && "pool"@[2] == 'o' && "pool"@[3] == 'l',
            "qemu"@.len() == 4 && "qemu"@[0] == 'q' && "qemu"@[1] == 'e' && "qemu"@[2] == 'm' && "qemu"@[3] == 'u',
            "lxc"@.len() == 3 && "lxc"@[0] == 'l' && "lxc"@[1] == 'x' && "lxc"@[2] == 'c',
            "openvz"@.len() == 6 && "openvz"@[0] == 'o' && "openvz"@[1] == 'p' && "openvz"@[2] == 'e' && "openvz"@[3] == 'n' && "openvz"@[4] == 'v' && "openvz"@[5] == 'z',
            "sdn"@.len() == 3 && "sdn"@[0] == 's' && "sdn"@[1] == 'd' && "sdn"@[2] == 'n',
            "network"@.len() == 7 && "network"@[0] == 'n' && "network"@[1] == 'e' && "network"@[2] == 't' && "network"@[3] == 'w' && "network"@[4] == 'o' && "network"@[5] == 'r' && "network"@[6] == 'k',
    {
        broadcast use vstd::string::group_string_axioms;

        reveal_strlit("node");
        reveal_strlit("storage");
        reveal_strlit("pool");
        reveal_strlit("qemu");
        reveal_strlit("lxc");
        reveal_strlit("openvz");
        reveal_strlit("sdn");
        reveal_strlit("network");
    }

    proof fn lemma_known_names(v: Self)
        requires
            !(v is UnknownEnumValue),
        ensures
            Self::known(v.name()) == Some(v),
    {
        Self::lemma_name_spelling();
    }

}

} // verus!
