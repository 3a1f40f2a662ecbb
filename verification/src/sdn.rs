//! Software defined networking: controllers, vnets and zones.
use vstd::prelude::*;
use vstd::std_specs::cmp::PartialEqSpecImpl;
use vstd::string::*;

use crate::text::str_eq;
use crate::network::NetworkInterfaceVlanProtocol;

verus! {

/// Object.
#[derive(Clone, Debug, PartialEq)]
pub struct CreateController {
    /// autonomous system number
    pub asn: Option<u32>,

    /// Consider different AS paths of equal length for multipath computation.
    pub bgp_multipath_as_path_relax: Option<bool>,

    /// The SDN controller object identifier.
    pub controller: String,

    /// Enable eBGP (remote-as external).
    pub ebgp: Option<bool>,

    /// Set maximum amount of hops for eBGP peers.
    pub ebgp_multihop: Option<i64>,

    /// SDN fabric to use as underlay for this EVPN controller.
    pub fabric: Option<String>,

    /// Name of the IS-IS domain.
    pub isis_domain: Option<String>,

    /// Comma-separated list of interfaces where IS-IS should be active.
    pub isis_ifaces: Option<Vec<String>>,

    /// Network Entity title for this node in the IS-IS network.
    pub isis_net: Option<String>,

    /// the token for unlocking the global SDN configuration
    pub lock_token: Option<String>,

    /// Name of the loopback/dummy interface that provides the Router-IP.
    pub loopback: Option<String>,

    /// The cluster node name.
    pub node: Option<String>,

    /// peers address list.
    pub peers: Option<Vec<String>>,

    pub ty: ListControllersType,
}

/// Object.
#[derive(Debug)]
pub struct CreateSdnLock {
    /// if true, allow acquiring lock even though there are pending changes
    pub allow_pending: Option<bool>,
}

/// Object.
#[derive(Clone, Debug, PartialEq)]
pub struct CreateVnet {
    /// Alias name of the VNet.
    pub alias: Option<String>,

    /// If true, sets the isolated property for all interfaces on the bridge of
    /// this VNet.
    pub isolate_ports: Option<bool>,

    /// the token for unlocking the global SDN configuration
    pub lock_token: Option<String>,

    /// VLAN Tag (for VLAN or QinQ zones) or VXLAN VNI (for VXLAN or EVPN
    /// zones).
    pub tag: Option<u32>,

    pub ty: Option<SdnVnetType>,

    /// Allow VLANs to pass through this vnet.
    pub vlanaware: Option<bool>,

    /// The SDN vnet object identifier.
    pub vnet: String,

    /// Name of the zone this VNet belongs to.
    pub zone: String,
}

/// Object.
#[derive(Clone, Debug, PartialEq)]
pub struct CreateZone {
    /// Advertise IP prefixes (Type-5 routes) instead of MAC/IP pairs (Type-2
    /// routes).
    pub advertise_subnets: Option<bool>,

    /// The bridge for which VLANs should be managed.
    pub bridge: Option<String>,

    /// Disable auto mac learning.
    pub bridge_disable_mac_learning: Option<bool>,

    /// Controller for this zone.
    pub controller: Option<String>,

    pub dhcp: Option<SdnZoneDhcp>,

    /// Suppress IPv4 ARP && IPv6 Neighbour Discovery messages.
    pub disable_arp_nd_suppression: Option<bool>,

    /// dns api server
    pub dns: Option<String>,

    /// dns domain zone  ex: mydomain.com
    pub dnszone: Option<String>,

    /// Faucet dataplane id
    pub dp_id: Option<i64>,

    /// List of cluster node names.
    pub exitnodes: Option<Vec<String>>,

    /// Allow exitnodes to connect to EVPN guests.
    pub exitnodes_local_routing: Option<bool>,

    /// Force traffic through this exitnode first.
    pub exitnodes_primary: Option<String>,

    /// SDN fabric to use as underlay for this VXLAN zone.
    pub fabric: Option<String>,

    /// use a specific ipam
    pub ipam: Option<String>,

    /// the token for unlocking the global SDN configuration
    pub lock_token: Option<String>,

    /// Anycast logical router mac address.
    pub mac: Option<String>,

    /// MTU of the zone, will be used for the created VNet bridges.
    pub mtu: Option<i64>,

    /// List of cluster node names.
    pub nodes: Option<Vec<String>>,

    /// Comma-separated list of peers, that are part of the VXLAN zone. Usually
    /// the IPs of the nodes.
    pub peers: Option<Vec<String>>,

    /// reverse dns api server
    pub reversedns: Option<String>,

    /// List of Route Targets that should be imported into the VRF of the zone.
    pub rt_import: Option<Vec<String>>,

    /// Service-VLAN Tag (outer VLAN)
    pub tag: Option<u64>,

    pub ty: ListZonesType,

    pub vlan_protocol: Option<NetworkInterfaceVlanProtocol>,

    /// VNI for the zone VRF.
    pub vrf_vxlan: Option<u32>,

    /// UDP port that should be used for the VXLAN tunnel (default 4789).
    pub vxlan_port: Option<u32>,

    /// The SDN zone object identifier.
    pub zone: String,
}

/// Only list sdn controllers of specific type
#[derive(Clone, Debug)]
pub enum ListControllersType {
    /// bgp.
    Bgp,
    /// evpn.
    Evpn,
    /// faucet.
    Faucet,
    /// isis.
    Isis,
    /// Unknown variants for forward compatibility.
    UnknownEnumValue(String),
}

impl PartialEq for ListControllersType {
    fn eq(&self, other: &Self) -> (r: bool) {
        match (self, other) {
            (ListControllersType::Bgp, ListControllersType::Bgp) => true,
            (ListControllersType::Evpn, ListControllersType::Evpn) => true,
            (ListControllersType::Faucet, ListControllersType::Faucet) => true,
            (ListControllersType::Isis, ListControllersType::Isis) => true,
            (ListControllersType::UnknownEnumValue(a), ListControllersType::UnknownEnumValue(b)) => *a == *b,
            _ => false,
        }
    }
}

impl PartialEqSpecImpl for ListControllersType {
    open spec fn obeys_eq_spec() -> bool {
        true
    }

    open spec fn eq_spec(&self, other: &Self) -> bool {
        match (self, other) {
            (ListControllersType::UnknownEnumValue(a), ListControllersType::UnknownEnumValue(b)) => a@ == b@,
            _ => *self == *other,
        }
    }
}

impl std::str::FromStr for ListControllersType {
    type Err = core::convert::Infallible;

    fn from_str(s: &str) -> (r: Result<Self, Self::Err>)
        ensures
            r matches Ok(v) && Self::parses_to(s@, v),
    {
        Ok(ListControllersType::from_name(s))
    }
}

impl ListControllersType {
    /// The name under which the API writes this value.
    pub open spec fn name(self) -> Seq<char> {
        match self {
            ListControllersType::Bgp => "bgp"@,
            ListControllersType::Evpn => "evpn"@,
            ListControllersType::Faucet => "faucet"@,
            ListControllersType::Isis => "isis"@,
            ListControllersType::UnknownEnumValue(s) => s@,
        }
    }

    /// The known value that the API name `s` stands for, if any.
    pub open spec fn known(s: Seq<char>) -> Option<Self> {
        if s == "bgp"@ {
            Some(ListControllersType::Bgp)
        }         else if s == "evpn"@ {
            Some(ListControllersType::Evpn)
        }         else if s == "faucet"@ {
            Some(ListControllersType::Faucet)
        }         else if s == "isis"@ {
            Some(ListControllersType::Isis)
        } else {
            None
        }
    }

    /// `v` is the value that reading the API name `s` gives.
    pub open spec fn parses_to(s: Seq<char>, v: Self) -> bool {
        match Self::known(s) {
            Some(k) => v == k,
            None => v matches ListControllersType::UnknownEnumValue(t) && t@ == s,
        }
    }

    /// The API name of this value.
    pub fn to_string(&self) -> (r: String)
        ensures
            r@ == self.name(),
    {
        match self {
            ListControllersType::Bgp => String::from_str("bgp"),
            ListControllersType::Evpn => String::from_str("evpn"),
            ListControllersType::Faucet => String::from_str("faucet"),
            ListControllersType::Isis => String::from_str("isis"),
            ListControllersType::UnknownEnumValue(s) => s.clone(),
        }
    }

    /// Reads an API name; a name that is not known is kept as an unknown value.
    pub fn from_name(s: &str) -> (r: Self)
        ensures
            Self::parses_to(s@, r),
    {
        if str_eq(s, "bgp") {
            ListControllersType::Bgp
        }         else if str_eq(s, "evpn") {
            ListControllersType::Evpn
        }         else if str_eq(s, "faucet") {
            ListControllersType::Faucet
        }         else if str_eq(s, "isis") {
            ListControllersType::Isis
        } else {
            ListControllersType::UnknownEnumValue(String::from_str(s))
        }
    }

    /// Each known value goes with the name the API uses for it: `bgp` for `Bgp`, `evpn` for `Evpn`, `faucet` for `Faucet`, and so on for every known value.
    /// `to_string` writes that name and `from_name` reads it as that value.
    pub proof fn lemma_api_names()
        ensures
            ListControllersType::Bgp.name() == "bgp"@,
            Self::parses_to("bgp"@, ListControllersType::Bgp),
            ListControllersType::Evpn.name() == "evpn"@,
            Self::parses_to("evpn"@, ListControllersType::Evpn),
            ListControllersType::Faucet.name() == "faucet"@,
            Self::parses_to("faucet"@, ListControllersType::Faucet),
            ListControllersType::Isis.name() == "isis"@,
            Self::parses_to("isis"@, ListControllersType::Isis),
    {
        Self::lemma_to_string_from_name(ListControllersType::Bgp);
        Self::lemma_to_string_from_name(ListControllersType::Evpn);
        Self::lemma_to_string_from_name(ListControllersType::Faucet);
        Self::lemma_to_string_from_name(ListControllersType::Isis);
    }

    /// Writing out a value that was read gives back the name that was read.
    pub proof fn lemma_from_name_to_string(s: Seq<char>, v: Self)
        requires
            Self::parses_to(s, v),
        ensures
            v.name() == s,
    {
    }

    /// Reading the name of a value gives back the value, unless the value is an
    /// unknown one that carries the name of a known one.
    pub proof fn lemma_to_string_from_name(v: Self)
        requires
            v is UnknownEnumValue ==> Self::known(v.name()) is None,
        ensures
            Self::parses_to(v.name(), v),
    {
        if !(v is UnknownEnumValue) {
            Self::lemma_known_names(v);
        }
    }

    /// The spelling of known names, character by character.
    proof fn lemma_name_spelling()
        ensures
            "bgp"@.len() == 3 && "bgp"@[0] == 'b' && "bgp"@[1] == 'g' && "bgp"@[2] == 'p',
            "evpn"@.len() == 4 && "evpn"@[0] == 'e' && "evpn"@[1] == 'v' && "evpn"@[2] == 'p' && "evpn"@[3] == 'n',
            "faucet"@.len() == 6 && "faucet"@[0] == 'f' && "faucet"@[1] == 'a' && "faucet"@[2] == 'u' && "faucet"@[3] == 'c' && "faucet"@[4] == 'e' && "faucet"@[5] == 't',
            "isis"@.len() == 4 && "isis"@[0] == 'i' && "isis"@[1] == 's' && "isis"@[2] == 'i' && "isis"@[3] == 's',
    {
        broadcast use vstd::string::group_string_axioms;

        reveal_strlit("bgp");
        reveal_strlit("evpn");
        reveal_strlit("faucet");
        reveal_strlit("isis");
    }

    proof fn lemma_known_names(v: Self)
        requires
            !(v is UnknownEnumValue),
        ensures
            Self::known(v.name()) == Some(v),
    {
        Self::lemma_name_spelling();
    }

}

/// Only list SDN zones of specific type
#[derive(Clone, Debug)]
pub enum ListZonesType {
    /// evpn.
    Evpn,
    /// faucet.
    Faucet,
    /// qinq.
    Qinq,
    /// simple.
    Simple,
    /// vlan.
    Vlan,
    /// vxlan.
    Vxlan,
    /// Unknown variants for forward compatibility.
    UnknownEnumValue(String),
}

impl PartialEq for ListZonesType {
    fn eq(&self, other: &Self) -> (r: bool) {
        match (self, other) {
            (ListZonesType::Evpn, ListZonesType::Evpn) => true,
            (ListZonesType::Faucet, ListZonesType::Faucet) => true,
            (ListZonesType::Qinq, ListZonesType::Qinq) => true,
            (ListZonesType::Simple, ListZonesType::Simple) => true,
            (ListZonesType::Vlan, ListZonesType::Vlan) => true,
            (ListZonesType::Vxlan, ListZonesType::Vxlan) => true,
            (ListZonesType::UnknownEnumValue(a), ListZonesType::UnknownEnumValue(b)) => *a == *b,
            _ => false,
        }
    }
}

impl PartialEqSpecImpl for ListZonesType {
    open spec fn obeys_eq_spec() -> bool {
        true
    }

    open spec fn eq_spec(&self, other: &Self) -> bool {
        match (self, other) {
            (ListZonesType::UnknownEnumValue(a), ListZonesType::UnknownEnumValue(b)) => a@ == b@,
            _ => *self == *other,
        }
    }
}

impl std::str::FromStr for ListZonesType {
    type Err = core::convert::Infallible;

    fn from_str(s: &str) -> (r: Result<Self, Self::Err>)
        ensures
            r matches Ok(v) && Self::parses_to(s@, v),
    {
        Ok(ListZonesType::from_name(s))
    }
}

impl ListZonesType {
    /// The name under which the API writes this value.
    pub open spec fn name(self) -> Seq<char> {
        match self {
            ListZonesType::Evpn => "evpn"@,
            ListZonesType::Faucet => "faucet"@,
            ListZonesType::Qinq => "qinq"@,
            ListZonesType::Simple => "simple"@,
            ListZonesType::Vlan => "vlan"@,
            ListZonesType::Vxlan => "vxlan"@,
            ListZonesType::UnknownEnumValue(s) => s@,
        }
    }

    /// The known value that the API name `s` stands for, if any.
    pub open spec fn known(s: Seq<char>) -> Option<Self> {
        if s == "evpn"@ {
            Some(ListZonesType::Evpn)
        }         else if s == "faucet"@ {
            Some(ListZonesType::Faucet)
        }         else if s == "qinq"@ {
            Some(ListZonesType::Qinq)
        }         else if s == "simple"@ {
            Some(ListZonesType::Simple)
        }         else if s == "vlan"@ {
            Some(ListZonesType::Vlan)
        }         else if s == "vxlan"@ {
            Some(ListZonesType::Vxlan)
        } else {
            None
        }
    }

    /// `v` is the value that reading the API name `s` gives.
    pub open spec fn parses_to(s: Seq<char>, v: Self) -> bool {
        match Self::known(s) {
            Some(k) => v == k,
            None => v matches ListZonesType::UnknownEnumValue(t) && t@ == s,
        }
    }

    /// The API name of this value.
    pub fn to_string(&self) -> (r: String)
        ensures
            r@ == self.name(),
    {
        match self {
            ListZonesType::Evpn => String::from_str("evpn"),
            ListZonesType::Faucet => String::from_str("faucet"),
            ListZonesType::Qinq => String::from_str("qinq"),
            ListZonesType::Simple => String::from_str("simple"),
            ListZonesType::Vlan => String::from_str("vlan"),
            ListZonesType::Vxlan => String::from_str("vxlan"),
            ListZonesType::UnknownEnumValue(s) => s.clone(),
        }
    }

    /// Reads an API name; a name that is not known is kept as an unknown value.
    pub fn from_name(s: &str) -> (r: Self)
        ensures
            Self::parses_to(s@, r),
    {
        if str_eq(s, "evpn") {
            ListZonesType::Evpn
        }         else if str_eq(s, "faucet") {
            ListZonesType::Faucet
        }         else if str_eq(s, "qinq") {
            ListZonesType::Qinq
        }         else if str_eq(s, "simple") {
            ListZonesType::Simple
        }         else if str_eq(s, "vlan") {
            ListZonesType::Vlan
        }         else if str_eq(s, "vxlan") {
            ListZonesType::Vxlan
        } else {
            ListZonesType::UnknownEnumValue(String::from_str(s))
        }
    }

    /// Each known value goes with the name the API uses for it: `evpn` for `Evpn`, `faucet` for `Faucet`, `qinq` for `Qinq`, and so on for every known value.
    /// `to_string` writes that name and `from_name` reads it as that value.
    pub proof fn lemma_api_names()
        ensures
            ListZonesType::Evpn.name() == "evpn"@,
            Self::parses_to("evpn"@, ListZonesType::Evpn),
            ListZonesType::Faucet.name() == "faucet"@,
            Self::parses_to("faucet"@, ListZonesType::Faucet),
            ListZonesType::Qinq.name() == "qinq"@,
            Self::parses_to("qinq"@, ListZonesType::Qinq),
            ListZonesType::Simple.name() == "simple"@,
            Self::parses_to("simple"@, ListZonesType::Simple),
            ListZonesType::Vlan.name() == "vlan"@,
            Self::parses_to("vlan"@, ListZonesType::Vlan),
            ListZonesType::Vxlan.name() == "vxlan"@,
            Self::parses_to("vxlan"@, ListZonesType::Vxlan),
    {
        Self::lemma_to_string_from_name(ListZonesType::Evpn);
        Self::lemma_to_string_from_name(ListZonesType::Faucet);
        Self::lemma_to_string_from_name(ListZonesType::Qinq);
        Self::lemma_to_string_from_name(ListZonesType::Simple);
        Self::lemma_to_string_from_name(ListZonesType::Vlan);
        Self::lemma_to_string_from_name(ListZonesType::Vxlan);
    }

    /// Writing out a value that was read gives back the name that was read.
    pub proof fn lemma_from_name_to_string(s: Seq<char>, v: Self)
        requires
            Self::parses_to(s, v),
        ensures
            v.name() == s,
    {
    }

    /// Reading the name of a value gives back the value, unless the value is an
    /// unknown one that carries the name of a known one.
    pub proof fn lemma_to_string_from_name(v: Self)
        requires
            v is UnknownEnumValue ==> Self::known(v.name()) is None,
        ensures
            Self::parses_to(v.name(), v),
    {
        if !(v is UnknownEnumValue) {
            Self::lemma_known_names(v);
        }
    }

    /// The spelling of known names, character by character.
    proof fn lemma_name_spelling()
        ensures
            "evpn"@.len() == 4 && "evpn"@[0] == 'e' && "evpn"@[1] == 'v' && "evpn"@[2] == 'p' && "evpn"@[3] == 'n',
            "faucet"@.len() == 6 && "faucet"@[0] == 'f' && "faucet"@[1] == 'a' && "faucet"@[2] == 'u' && "faucet"@[3] == 'c' && "faucet"@[4] == 'e' && "faucet"@[5] == 't',
            "qinq"@.len() == 4 && "qinq"@[0] == 'q' && "qinq"@[1] == 'i' && "qinq"@[2] == 'n' && "qinq"@[3] == 'q',
            "simple"@.len() == 6 && "simple"@[0] == 's' && "simple"@[1] == 'i' && "simple"@[2] == 'm' && "simple"@[3] == 'p' && "simple"@[4] == 'l' && "simple"@[5] == 'e',
            "vlan"@.len() == 4 && "vlan"@[0] == 'v' && "vlan"@[1] == 'l' && "vlan"@[2] == 'a' && "vlan"@[3] == 'n',
            "vxlan"@.len() == 5 && "vxlan"@[0] == 'v' && "vxlan"@[1] == 'x' && "vxlan"@[2] == 'l' && "vxlan"@[3] == 'a' && "vxlan"@[4] == 'n',
    {
        broadcast use vstd::string::group_string_axioms;

        reveal_strlit("evpn");
        reveal_strlit("faucet");
        reveal_strlit("qinq");
        reveal_strlit("simple");
        reveal_strlit("vlan");
        reveal_strlit("vxlan");
    }

    proof fn lemma_known_names(v: Self)
        requires
            !(v is UnknownEnumValue),
        ensures
            Self::known(v.name()) == Some(v),
    {
        Self::lemma_name_spelling();
    }

}

/// Object.
#[derive(Debug)]
pub struct ReleaseSdnLock {
    /// if true, allow releasing lock without providing the token
    pub force: Option<bool>,

    /// the token for unlocking the global SDN configuration
    pub lock_token: Option<String>,
}

/// Object.
#[derive(Debug)]
pub struct ReloadSdn {
    /// the token for unlocking the global SDN configuration
    pub lock_token: Option<String>,

    /// When lock-token has been provided and configuration successfully
    /// commited, release the lock automatically afterwards
    pub release_lock: Option<bool>,
}

/// Object.
#[derive(Debug)]
pub struct RollbackSdn {
    /// the token for unlocking the global SDN configuration
    pub lock_token: Option<String>,

    /// When lock-token has been provided and configuration successfully
    /// rollbacked, release the lock automatically afterwards
    pub release_lock: Option<bool>,
}

/// Object.
#[derive(Clone, Debug, PartialEq)]
pub struct SdnController {
    /// The local ASN of the controller. BGP & EVPN only.
    pub asn: Option<u32>,

    /// Consider different AS paths of equal length for multipath computation.
    /// BGP only.
    pub bgp_multipath_as_relax: Option<bool>,

    /// Name of the controller.
    pub controller: String,

    /// Digest of the controller section.
    pub digest: Option<String>,

    /// Enable eBGP (remote-as external). BGP only.
    pub ebgp: Option<bool>,

    /// Set maximum amount of hops for eBGP peers. Needs ebgp set to 1. BGP
    /// only.
    pub ebgp_multihop: Option<i64>,

    /// Name of the IS-IS domain. IS-IS only.
    pub isis_domain: Option<String>,

    /// Comma-separated list of interfaces where IS-IS should be active. IS-IS
    /// only.
    pub isis_ifaces: Option<String>,

    /// Network Entity title for this node in the IS-IS network. IS-IS only.
    pub isis_net: Option<String>,

    /// Name of the loopback/dummy interface that provides the Router-IP. BGP
    /// only.
    pub loopback: Option<String>,

    /// Node(s) where this controller is active.
    pub node: Option<String>,

    /// Comma-separated list of the peers IP addresses.
    pub peers: Option<String>,

    /// Changes that have not yet been applied to the running configuration.
    pub pending: Option<SdnControllerPending>,

    pub state: Option<SdnObjectState>,

    pub ty: ListControllersType,
}

/// Changes that have not yet been applied to the running configuration.
#[derive(Clone, Debug, PartialEq)]
pub struct SdnControllerPending {
    /// The local ASN of the controller. BGP & EVPN only.
    pub asn: Option<u32>,

    /// Consider different AS paths of equal length for multipath computation.
    /// BGP only.
    pub bgp_multipath_as_relax: Option<bool>,

    /// Enable eBGP (remote-as external). BGP only.
    pub ebgp: Option<bool>,

    /// Set maximum amount of hops for eBGP peers. Needs ebgp set to 1. BGP
    /// only.
    pub ebgp_multihop: Option<i64>,

    /// Name of the IS-IS domain. IS-IS only.
    pub isis_domain: Option<String>,

    /// Comma-separated list of interfaces where IS-IS should be active. IS-IS
    /// only.
    pub isis_ifaces: Option<String>,

    /// Network Entity title for this node in the IS-IS network. IS-IS only.
    pub isis_net: Option<String>,

    /// Name of the loopback/dummy interface that provides the Router-IP. BGP
    /// only.
    pub loopback: Option<String>,

    /// Node(s) where this controller is active.
    pub node: Option<String>,

    /// Comma-separated list of the peers IP addresses.
    pub peers: Option<String>,
}

/// The state of an SDN object.
#[derive(Clone, Debug)]
pub enum SdnObjectState {
    /// new.
    New,
    /// deleted.
    Deleted,
    /// changed.
    Changed,
    /// Unknown variants for forward compatibility.
    UnknownEnumValue(String),
}

impl PartialEq for SdnObjectState {
    fn eq(&self, other: &Self) -> (r: bool) {
        match (self, other) {
            (SdnObjectState::New, SdnObjectState::New) => true,
            (SdnObjectState::Deleted, SdnObjectState::Deleted) => true,
            (SdnObjectState::Changed, SdnObjectState::Changed) => true,
            (SdnObjectState::UnknownEnumValue(a), SdnObjectState::UnknownEnumValue(b)) => *a == *b,
            _ => false,
        }
    }
}

impl PartialEqSpecImpl for SdnObjectState {
    open spec fn obeys_eq_spec() -> bool {
        true
    }

    open spec fn eq_spec(&self, other: &Self) -> bool {
        match (self, other) {
            (SdnObjectState::UnknownEnumValue(a), SdnObjectState::UnknownEnumValue(b)) => a@ == b@,
            _ => *self == *other,
        }
    }
}

impl std::str::FromStr for SdnObjectState {
    type Err = core::convert::Infallible;

    fn from_str(s: &str) -> (r: Result<Self, Self::Err>)
        ensures
            r matches Ok(v) && Self::parses_to(s@, v),
    {
        Ok(SdnObjectState::from_name(s))
    }
}

impl SdnObjectState {
    /// The name under which the API writes this value.
    pub open spec fn name(self) -> Seq<char> {
        match self {
            SdnObjectState::New => "new"@,
            SdnObjectState::Deleted => "deleted"@,
            SdnObjectState::Changed => "changed"@,
            SdnObjectState::UnknownEnumValue(s) => s@,
        }
    }

    /// The known value that the API name `s` stands for, if any.
    pub open spec fn known(s: Seq<char>) -> Option<Self> {
        if s == "new"@ {
            Some(SdnObjectState::New)
        }         else if s == "deleted"@ {
            Some(SdnObjectState::Deleted)
        }         else if s == "changed"@ {
            Some(SdnObjectState::Changed)
        } else {
            None
        }
    }

    /// `v` is the value that reading the API name `s` gives.
    pub open spec fn parses_to(s: Seq<char>, v: Self) -> bool {
        match Self::known(s) {
            Some(k) => v == k,
            None => v matches SdnObjectState::UnknownEnumValue(t) && t@ == s,
        }
    }

    /// The API name of this value.
    pub fn to_string(&self) -> (r: String)
        ensures
            r@ == self.name(),
    {
        match self {
            SdnObjectState::New => String::from_str("new"),
            SdnObjectState::Deleted => String::from_str("deleted"),
            SdnObjectState::Changed => String::from_str("changed"),
            SdnObjectState::UnknownEnumValue(s) => s.clone(),
        }
    }

    /// Reads an API name; a name that is not known is kept as an unknown value.
    pub fn from_name(s: &str) -> (r: Self)
        ensures
            Self::parses_to(s@, r),
    {
        if str_eq(s, "new") {
            SdnObjectState::New
        }         else if str_eq(s, "deleted") {
            SdnObjectState::Deleted
        }         else if str_eq(s, "changed") {
            SdnObjectState::Changed
        } else {
            SdnObjectState::UnknownEnumValue(String::from_str(s))
        }
    }

    /// Each known value goes with the name the API uses for it: `new` for `New`, `deleted` for `Deleted`, `changed` for `Changed`.
    /// `to_string` writes that name and `from_name` reads it as that value.
    pub proof fn lemma_api_names()
        ensures
            SdnObjectState::New.name() == "new"@,
            Self::parses_to("new"@, SdnObjectState::New),
            SdnObjectState::Deleted.name() == "deleted"@,
            Self::parses_to("deleted"@, SdnObjectState::Deleted),
            SdnObjectState::Changed.name() == "changed"@,
            Self::parses_to("changed"@, SdnObjectState::Changed),
    {
        Self::lemma_to_string_from_name(SdnObjectState::New);
        Self::lemma_to_string_from_name(SdnObjectState::Deleted);
        Self::lemma_to_string_from_name(SdnObjectState::Changed);
    }

    /// Writing out a value that was read gives back the name that was read.
    pub proof fn lemma_from_name_to_string(s: Seq<char>, v: Self)
        requires
            Self::parses_to(s, v),
        ensures
            v.name() == s,
    {
    }

    /// Reading the name of a value gives back the value, unless the value is an
    /// unknown one that carries the name of a known one.
    pub proof fn lemma_to_string_from_name(v: Self)
        requires
            v is UnknownEnumValue ==> Self::known(v.name()) is None,
        ensures
            Self::parses_to(v.name(), v),
    {
        if !(v is UnknownEnumValue) {
            Self::lemma_known_names(v);
        }
    }

    /// The spelling of known names, character by character.
    proof fn lemma_name_spelling()
        ensures
            "new"@.len() == 3 && "new"@[0] == 'n' && "new"@[1] == 'e' && "new"@[2] == 'w',
            "deleted"@.len() == 7 && "deleted"@[0] == 'd' && "deleted"@[1] == 'e' && "deleted"@[2] == 'l' && "deleted"@[3] == 'e' && "deleted"@[4] == 't' && "deleted"@[5] == 'e' && "deleted"@[6] == 'd',
            "changed"@.len() == 7 && "changed"@[0] == 'c' && "changed"@[1] == 'h' && "changed"@[2] == 'a' && "changed"@[3] == 'n' && "changed"@[4] == 'g' && "changed"@[5] == 'e' && "changed"@[6] == 'd',
    {
        broadcast use vstd::string::group_string_axioms;

        reveal_strlit("new");
        reveal_strlit("deleted");
        reveal_strlit("changed");
    }

    proof fn lemma_known_names(v: Self)
        requires
            !(v is UnknownEnumValue),
        ensures
            Self::known(v.name()) == Some(v),
    {
        Self::lemma_name_spelling();
    }

}

/// Object.
#[derive(Clone, Debug, PartialEq)]
pub struct SdnVnet {
    /// Alias name of the VNet.
    pub alias: Option<String>,

    /// Digest of the VNet section.
    pub digest: Option<String>,

    /// If true, sets the isolated property for all interfaces on the bridge of
    /// this VNet.
    pub isolate_ports: Option<bool>,

    /// Changes that have not yet been applied to the running configuration.
    pub pending: Option<SdnVnetPending>,

    pub state: Option<SdnObjectState>,

    /// VLAN Tag (for VLAN or QinQ zones) or VXLAN VNI (for VXLAN or EVPN
    /// zones).
    pub tag: Option<u32>,

    pub ty: SdnVnetType,

    /// Allow VLANs to pass through this VNet.
    pub vlanaware: Option<bool>,

    /// Name of the VNet.
    pub vnet: String,

    /// Name of the zone this VNet belongs to.
    pub zone: Option<String>,
}

/// Changes that have not yet been applied to the running configuration.
#[derive(Clone, Debug, PartialEq)]
pub struct SdnVnetPending {
    /// Alias name of the VNet.
    pub alias: Option<String>,

    /// If true, sets the isolated property for all interfaces on the bridge of
    /// this VNet.
    pub isolate_ports: Option<bool>,

    /// VLAN Tag (for VLAN or QinQ zones) or VXLAN VNI (for VXLAN or EVPN
    /// zones).
    pub tag: Option<u32>,

    /// Allow VLANs to pass through this VNet.
    pub vlanaware: Option<bool>,

    /// Name of the zone this VNet belongs to.
    pub zone: Option<String>,
}

/// Type of the VNet.
#[derive(Clone, Debug)]
pub enum SdnVnetType {
    /// vnet.
    Vnet,
    /// Unknown variants for forward compatibility.
    UnknownEnumValue(String),
}

impl PartialEq for SdnVnetType {
    fn eq(&self, other: &Self) -> (r: bool) {
        match (self, other) {
            (SdnVnetType::Vnet, SdnVnetType::Vnet) => true,
            (SdnVnetType::UnknownEnumValue(a), SdnVnetType::UnknownEnumValue(b)) => *a == *b,
            _ => false,
        }
    }
}

impl PartialEqSpecImpl for SdnVnetType {
    open spec fn obeys_eq_spec() -> bool {
        true
    }

    open spec fn eq_spec(&self, other: &Self) -> bool {
        match (self, other) {
            (SdnVnetType::UnknownEnumValue(a), SdnVnetType::UnknownEnumValue(b)) => a@ == b@,
            _ => *self == *other,
        }
    }
}

impl std::str::FromStr for SdnVnetType {
    type Err = core::convert::Infallible;

    fn from_str(s: &str) -> (r: Result<Self, Self::Err>)
        ensures
            r matches Ok(v) && Self::parses_to(s@, v),
    {
        Ok(SdnVnetType::from_name(s))
    }
}

impl SdnVnetType {
    /// The name under which the API writes this value.
    pub open spec fn name(self) -> Seq<char> {
        match self {
            SdnVnetType::Vnet => "vnet"@,
            SdnVnetType::UnknownEnumValue(s) => s@,
        }
    }

    /// The known value that the API name `s` stands for, if any.
    pub open spec fn known(s: Seq<char>) -> Option<Self> {
        if s == "vnet"@ {
            Some(SdnVnetType::Vnet)
        } else {
            None
        }
    }

    /// `v` is the value that reading the API name `s` gives.
    pub open spec fn parses_to(s: Seq<char>, v: Self) -> bool {
        match Self::known(s) {
            Some(k) => v == k,
            None => v matches SdnVnetType::UnknownEnumValue(t) && t@ == s,
        }
    }

    /// The API name of this value.
    pub fn to_string(&self) -> (r: String)
        ensures
            r@ == self.name(),
    {
        match self {
            SdnVnetType::Vnet => String::from_str("vnet"),
            SdnVnetType::UnknownEnumValue(s) => s.clone(),
        }
    }

    /// Reads an API name; a name that is not known is kept as an unknown value.
    pub fn from_name(s: &str) -> (r: Self)
        ensures
            Self::parses_to(s@, r),
    {
        if str_eq(s, "vnet") {
            SdnVnetType::Vnet
        } else {
            SdnVnetType::UnknownEnumValue(String::from_str(s))
        }
    }

    /// Each known value goes with the name the API uses for it: `vnet` for `Vnet`.
    /// `to_string` writes that name and `from_name` reads it as that value.
    pub proof fn lemma_api_names()
        ensures
            SdnVnetType::Vnet.name() == "vnet"@,
            Self::parses_to("vnet"@, SdnVnetType::Vnet),
    {
        Self::lemma_to_string_from_name(SdnVnetType::Vnet);
    }

    /// Writing out a value that was read gives back the name that was read.
    pub proof fn lemma_from_name_to_string(s: Seq<char>, v: Self)
        requires
            Self::parses_to(s, v),
        ensures
            v.name() == s,
    {
    }

    /// Reading the name of a value gives back the value, unless the value is an
    /// unknown one that carries the name of a known one.
    pub proof fn lemma_to_string_from_name(v: Self)
        requires
            v is UnknownEnumValue ==> Self::known(v.name()) is None,
        ensures
            Self::parses_to(v.name(), v),
    {
        if !(v is UnknownEnumValue) {
            Self::lemma_known_names(v);
        }
    }

    /// The spelling of known names, character by character.
    proof fn lemma_name_spelling()
        ensures
            "vnet"@.len() == 4 && "vnet"@[0] == 'v' && "vnet"@[1] == 'n' && "vnet"@[2] == 'e' && "vnet"@[3] == 't',
    {
        broadcast use vstd::string::group_string_axioms;

        reveal_strlit("vnet");
    }

    proof fn lemma_known_names(v: Self)
        requires
            !(v is UnknownEnumValue),
        ensures
            Self::known(v.name()) == Some(v),
    {
        Self::lemma_name_spelling();
    }

}

/// Object.
#[derive(Clone, Debug, PartialEq)]
pub struct SdnZone {
    /// Advertise IP prefixes (Type-5 routes) instead of MAC/IP pairs (Type-2
    /// routes). EVPN zone only.
    pub advertise_subnets: Option<bool>,

    /// the bridge for which VLANs should be managed. VLAN & QinQ zone only.
    pub bridge: Option<String>,

    /// Disable auto mac learning. VLAN zone only.
    pub bridge_disable_mac_learning: Option<bool>,

    /// ID of the controller for this zone. EVPN zone only.
    pub controller: Option<String>,

    pub dhcp: Option<SdnZoneDhcp>,

    /// Digest of the controller section.
    pub digest: Option<String>,

    /// Suppress IPv4 ARP && IPv6 Neighbour Discovery messages. EVPN zone only.
    pub disable_arp_nd_suppression: Option<bool>,

    /// ID of the DNS server for this zone.
    pub dns: Option<String>,

    /// Domain name for this zone.
    pub dnszone: Option<String>,

    /// List of PVE Nodes that should act as exit node for this zone. EVPN zone
    /// only.
    pub exitnodes: Option<String>,

    /// Create routes on the exit nodes, so they can connect to EVPN guests.
    /// EVPN zone only.
    pub exitnodes_local_routing: Option<bool>,

    /// Force traffic through this exitnode first. EVPN zone only.
    pub exitnodes_primary: Option<String>,

    /// ID of the IPAM for this zone.
    pub ipam: Option<String>,

    /// MAC address of the anycast router for this zone.
    pub mac: Option<String>,

    /// MTU of the zone, will be used for the created VNet bridges.
    pub mtu: Option<i64>,

    /// Nodes where this zone should be created.
    pub nodes: Option<String>,

    /// Comma-separated list of peers, that are part of the VXLAN zone. Usually
    /// the IPs of the nodes. VXLAN zone only.
    pub peers: Option<String>,

    /// Changes that have not yet been applied to the running configuration.
    pub pending: Option<SdnZonePending>,

    /// ID of the reverse DNS server for this zone.
    pub reversedns: Option<String>,

    /// Route-Targets that should be imported into the VRF of this zone via BGP.
    /// EVPN zone only.
    pub rt_import: Option<String>,

    pub state: Option<SdnObjectState>,

    /// Service-VLAN Tag (outer VLAN). QinQ zone only
    pub tag: Option<u64>,

    pub ty: ListZonesType,

    pub vlan_protocol: Option<NetworkInterfaceVlanProtocol>,

    /// VNI for the zone VRF. EVPN zone only.
    pub vrf_vxlan: Option<u32>,

    /// UDP port that should be used for the VXLAN tunnel (default 4789). VXLAN
    /// zone only.
    pub vxlan_port: Option<u32>,

    /// Name of the zone.
    pub zone: String,
}

/// Name of DHCP server backend for this zone.
#[derive(Clone, Debug)]
pub enum SdnZoneDhcp {
    /// dnsmasq.
    Dnsmasq,
    /// Unknown variants for forward compatibility.
    UnknownEnumValue(String),
}

impl PartialEq for SdnZoneDhcp {
    fn eq(&self, other: &Self) -> (r: bool) {
        match (self, other) {
            (SdnZoneDhcp::Dnsmasq, SdnZoneDhcp::Dnsmasq) => true,
            (SdnZoneDhcp::UnknownEnumValue(a), SdnZoneDhcp::UnknownEnumValue(b)) => *a == *b,
            _ => false,
        }
    }
}

impl PartialEqSpecImpl for SdnZoneDhcp {
    open spec fn obeys_eq_spec() -> bool {
        true
    }

    open spec fn eq_spec(&self, other: &Self) -> bool {
        match (self, other) {
            (SdnZoneDhcp::UnknownEnumValue(a), SdnZoneDhcp::UnknownEnumValue(b)) => a@ == b@,
            _ => *self == *other,
        }
    }
}

impl std::str::FromStr for SdnZoneDhcp {
    type Err = core::convert::Infallible;

    fn from_str(s: &str) -> (r: Result<Self, Self::Err>)
        ensures
            r matches Ok(v) && Self::parses_to(s@, v),
    {
        Ok(SdnZoneDhcp::from_name(s))
    }
}

impl SdnZoneDhcp {
    /// The name under which the API writes this value.
    pub open spec fn name(self) -> Seq<char> {
        match self {
            SdnZoneDhcp::Dnsmasq => "dnsmasq"@,
            SdnZoneDhcp::UnknownEnumValue(s) => s@,
        }
    }

    /// The known value that the API name `s` stands for, if any.
    pub open spec fn known(s: Seq<char>) -> Option<Self> {
        if s == "dnsmasq"@ {
            Some(SdnZoneDhcp::Dnsmasq)
        } else {
            None
        }
    }

    /// `v` is the value that reading the API name `s` gives.
    pub open spec fn parses_to(s: Seq<char>, v: Self) -> bool {
        match Self::known(s) {
            Some(k) => v == k,
            None => v matches SdnZoneDhcp::UnknownEnumValue(t) && t@ == s,
        }
    }

    /// The API name of this value.
    pub fn to_string(&self) -> (r: String)
        ensures
            r@ == self.name(),
    {
        match self {
            SdnZoneDhcp::Dnsmasq => String::from_str("dnsmasq"),
            SdnZoneDhcp::UnknownEnumValue(s) => s.clone(),
        }
    }

    /// Reads an API name; a name that is not known is kept as an unknown value.
    pub fn from_name(s: &str) -> (r: Self)
        ensures
            Self::parses_to(s@, r),
    {
        if str_eq(s, "dnsmasq") {
            SdnZoneDhcp::Dnsmasq
        } else {
            SdnZoneDhcp::UnknownEnumValue(String::from_str(s))
        }
    }

    /// Each known value goes with the name the API uses for it: `dnsmasq` for `Dnsmasq`.
    /// `to_string` writes that name and `from_name` reads it as that value.
    pub proof fn lemma_api_names()
        ensures
            SdnZoneDhcp::Dnsmasq.name() == "dnsmasq"@,
            Self::parses_to("dnsmasq"@, SdnZoneDhcp::Dnsmasq),
    {
        Self::lemma_to_string_from_name(SdnZoneDhcp::Dnsmasq);
    }

    /// Writing out a value that was read gives back the name that was read.
    pub proof fn lemma_from_name_to_string(s: Seq<char>, v: Self)
        requires
            Self::parses_to(s, v),
        ensures
            v.name() == s,
    {
    }

    /// Reading the name of a value gives back the value, unless the value is an
    /// unknown one that carries the name of a known one.
    pub proof fn lemma_to_string_from_name(v: Self)
        requires
            v is UnknownEnumValue ==> Self::known(v.name()) is None,
        ensures
            Self::parses_to(v.name(), v),
    {
        if !(v is UnknownEnumValue) {
            Self::lemma_known_names(v);
        }
    }

    /// The spelling of known names, character by character.
    proof fn lemma_name_spelling()
        ensures
            "dnsmasq"@.len() == 7 && "dnsmasq"@[0] == 'd' && "dnsmasq"@[1] == 'n' && "dnsmasq"@[2] == 's' && "dnsmasq"@[3] == 'm' && "dnsmasq"@[4] == 'a' && "dnsmasq"@[5] == 's' && "dnsmasq"@[6] == 'q',
    {
        broadcast use vstd::string::group_string_axioms;

        reveal_strlit("dnsmasq");
    }

    proof fn lemma_known_names(v: Self)
        requires
            !(v is UnknownEnumValue),
        ensures
            Self::known(v.name()) == Some(v),
    {
        Self::lemma_name_spelling();
    }

}

/// Changes that have not yet been applied to the running configuration.
#[derive(Clone, Debug, PartialEq)]
pub struct SdnZonePending {
    /// Advertise IP prefixes (Type-5 routes) instead of MAC/IP pairs (Type-2
    /// routes). EVPN zone only.
    pub advertise_subnets: Option<bool>,

    /// the bridge for which VLANs should be managed. VLAN & QinQ zone only.
    pub bridge: Option<String>,

    /// Disable auto mac learning. VLAN zone only.
    pub bridge_disable_mac_learning: Option<bool>,

    /// ID of the controller for this zone. EVPN zone only.
    pub controller: Option<String>,

    pub dhcp: Option<SdnZoneDhcp>,

    /// Suppress IPv4 ARP && IPv6 Neighbour Discovery messages. EVPN zone only.
    pub disable_arp_nd_suppression: Option<bool>,

    /// ID of the DNS server for this zone.
    pub dns: Option<String>,

    /// Domain name for this zone.
    pub dnszone: Option<String>,

    /// List of PVE Nodes that should act as exit node for this zone. EVPN zone
    /// only.
    pub exitnodes: Option<String>,

    /// Create routes on the exit nodes, so they can connect to EVPN guests.
    /// EVPN zone only.
    pub exitnodes_local_routing: Option<bool>,

    /// Force traffic through this exitnode first. EVPN zone only.
    pub exitnodes_primary: Option<String>,

    /// ID of the IPAM for this zone.
    pub ipam: Option<String>,

    /// MAC address of the anycast router for this zone.
    pub mac: Option<String>,

    /// MTU of the zone, will be used for the created VNet bridges.
    pub mtu: Option<i64>,

    /// Nodes where this zone should be created.
    pub nodes: Option<String>,

    /// Comma-separated list of peers, that are part of the VXLAN zone. Usually
    /// the IPs of the nodes. VXLAN zone only.
    pub peers: Option<String>,

    /// ID of the reverse DNS server for this zone.
    pub reversedns: Option<String>,

    /// Route-Targets that should be imported into the VRF of this zone via BGP.
    /// EVPN zone only.
    pub rt_import: Option<String>,

    /// Service-VLAN Tag (outer VLAN). QinQ zone only
    pub tag: Option<u64>,

    pub vlan_protocol: Option<NetworkInterfaceVlanProtocol>,

    /// VNI for the zone VRF. EVPN zone only.
    pub vrf_vxlan: Option<u32>,

    /// UDP port that should be used for the VXLAN tunnel (default 4789). VXLAN
    /// zone only.
    pub vxlan_port: Option<u32>,
}

} // verus!
