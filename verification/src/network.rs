//! Host network interfaces.
use vstd::prelude::*;
use vstd::std_specs::cmp::PartialEqSpecImpl;
use vstd::string::*;

use crate::text::str_eq;

verus! {

/// Only list specific interface types.
#[derive(Clone, Debug)]
pub enum ListNetworksType {
    /// bridge.
    Bridge,
    /// bond.
    Bond,
    /// eth.
    Eth,
    /// alias.
    Alias,
    /// vlan.
    Vlan,
    /// fabric.
    Fabric,
    /// OVSBridge.
    OvsBridge,
    /// OVSBond.
    OvsBond,
    /// OVSPort.
    OvsPort,
    /// OVSIntPort.
    OvsIntPort,
    /// vnet.
    Vnet,
    /// any_bridge.
    AnyBridge,
    /// any_local_bridge.
    AnyLocalBridge,
    /// include_sdn.
    IncludeSdn,
    /// Unknown variants for forward compatibility.
    UnknownEnumValue(String),
}

impl PartialEq for ListNetworksType {
    fn eq(&self, other: &Self) -> (r: bool) {
        match (self, other) {
            (ListNetworksType::Bridge, ListNetworksType::Bridge) => true,
            (ListNetworksType::Bond, ListNetworksType::Bond) => true,
            (ListNetworksType::Eth, ListNetworksType::Eth) => true,
            (ListNetworksType::Alias, ListNetworksType::Alias) => true,
            (ListNetworksType::Vlan, ListNetworksType::Vlan) => true,
            (ListNetworksType::Fabric, ListNetworksType::Fabric) => true,
            (ListNetworksType::OvsBridge, ListNetworksType::OvsBridge) => true,
            (ListNetworksType::OvsBond, ListNetworksType::OvsBond) => true,
            (ListNetworksType::OvsPort, ListNetworksType::OvsPort) => true,
            (ListNetworksType::OvsIntPort, ListNetworksType::OvsIntPort) => true,
            (ListNetworksType::Vnet, ListNetworksType::Vnet) => true,
            (ListNetworksType::AnyBridge, ListNetworksType::AnyBridge) => true,
            (ListNetworksType::AnyLocalBridge, ListNetworksType::AnyLocalBridge) => true,
            (ListNetworksType::IncludeSdn, ListNetworksType::IncludeSdn) => true,
            (ListNetworksType::UnknownEnumValue(a), ListNetworksType::UnknownEnumValue(b)) => *a == *b,
            _ => false,
        }
    }
}

impl PartialEqSpecImpl for ListNetworksType {
    open spec fn obeys_eq_spec() -> bool {
        true
    }

    open spec fn eq_spec(&self, other: &Self) -> bool {
        match (self, other) {
            (ListNetworksType::UnknownEnumValue(a), ListNetworksType::UnknownEnumValue(b)) => a@ == b@,
            _ => *self == *other,
        }
    }
}

impl std::str::FromStr for ListNetworksType {
    type Err = core::convert::Infallible;

    fn from_str(s: &str) -> (r: Result<Self, Self::Err>)
        ensures
            r matches Ok(v) && Self::parses_to(s@, v),
    {
        Ok(ListNetworksType::from_name(s))
    }
}

impl ListNetworksType {
    /// The name under which the API writes this value.
    pub open spec fn name(self) -> Seq<char> {
        match self {
            ListNetworksType::Bridge => "bridge"@,
            ListNetworksType::Bond => "bond"@,
            ListNetworksType::Eth => "eth"@,
            ListNetworksType::Alias => "alias"@,
            ListNetworksType::Vlan => "vlan"@,
            ListNetworksType::Fabric => "fabric"@,
            ListNetworksType::OvsBridge => "OVSBridge"@,
            ListNetworksType::OvsBond => "OVSBond"@,
            ListNetworksType::OvsPort => "OVSPort"@,
            ListNetworksType::OvsIntPort => "OVSIntPort"@,
            ListNetworksType::Vnet => "vnet"@,
            ListNetworksType::AnyBridge => "any_bridge"@,
            ListNetworksType::AnyLocalBridge => "any_local_bridge"@,
            ListNetworksType::IncludeSdn => "include_sdn"@,
            ListNetworksType::UnknownEnumValue(s) => s@,
        }
    }

    /// The known value that the API name `s` stands for, if any.
    pub open spec fn known(s: Seq<char>) -> Option<Self> {
        if s == "bridge"@ {
            Some(ListNetworksType::Bridge)
        }         else if s == "bond"@ {
            Some(ListNetworksType::Bond)
        }         else if s == "eth"@ {
            Some(ListNetworksType::Eth)
        }         else if s == "alias"@ {
            Some(ListNetworksType::Alias)
        }         else if s == "vlan"@ {
            Some(ListNetworksType::Vlan)
        }         else if s == "fabric"@ {
            Some(ListNetworksType::Fabric)
        }         else if s == "OVSBridge"@ {
            Some(ListNetworksType::OvsBridge)
        }         else if s == "OVSBond"@ {
            Some(ListNetworksType::OvsBond)
        }         else if s == "OVSPort"@ {
            Some(ListNetworksType::OvsPort)
        }         else if s == "OVSIntPort"@ {
            Some(ListNetworksType::OvsIntPort)
        }         else if s == "vnet"@ {
            Some(ListNetworksType::Vnet)
        }         else if s == "any_bridge"@ {
            Some(ListNetworksType::AnyBridge)
        }         else if s == "any_local_bridge"@ {
            Some(ListNetworksType::AnyLocalBridge)
        }         else if s == "include_sdn"@ {
            Some(ListNetworksType::IncludeSdn)
        } else {
            None
        }
    }

    /// `v` is the value that reading the API name `s` gives.
    pub open spec fn parses_to(s: Seq<char>, v: Self) -> bool {
        match Self::known(s) {
            Some(k) => v == k,
            None => v matches ListNetworksType::UnknownEnumValue(t) && t@ == s,
        }
    }

    /// The API name of this value.
    pub fn to_string(&self) -> (r: String)
        ensures
            r@ == self.name(),
    {
        match self {
            ListNetworksType::Bridge => String::from_str("bridge"),
            ListNetworksType::Bond => String::from_str("bond"),
            ListNetworksType::Eth => String::from_str("eth"),
            ListNetworksType::Alias => String::from_str("alias"),
            ListNetworksType::Vlan => String::from_str("vlan"),
            ListNetworksType::Fabric => String::from_str("fabric"),
            ListNetworksType::OvsBridge => String::from_str("OVSBridge"),
            ListNetworksType::OvsBond => String::from_str("OVSBond"),
            ListNetworksType::OvsPort => String::from_str("OVSPort"),
            ListNetworksType::OvsIntPort => String::from_str("OVSIntPort"),
            ListNetworksType::Vnet => String::from_str("vnet"),
            ListNetworksType::AnyBridge => String::from_str("any_bridge"),
            ListNetworksType::AnyLocalBridge => String::from_str("any_local_bridge"),
            ListNetworksType::IncludeSdn => String::from_str("include_sdn"),
            ListNetworksType::UnknownEnumValue(s) => s.clone(),
        }
    }

    /// Reads an API name; a name that is not known is kept as an unknown value.
    pub fn from_name(s: &str) -> (r: Self)
        ensures
            Self::parses_to(s@, r),
    {
        if str_eq(s, "bridge") {
            ListNetworksType::Bridge
        }         else if str_eq(s, "bond") {
            ListNetworksType::Bond
        }         else if str_eq(s, "eth") {
            ListNetworksType::Eth
        }         else if str_eq(s, "alias") {
            ListNetworksType::Alias
        }         else if str_eq(s, "vlan") {
            ListNetworksType::Vlan
        }         else if str_eq(s, "fabric") {
            ListNetworksType::Fabric
        }         else if str_eq(s, "OVSBridge") {
            ListNetworksType::OvsBridge
        }         else if str_eq(s, "OVSBond") {
            ListNetworksType::OvsBond
        }         else if str_eq(s, "OVSPort") {
            ListNetworksType::OvsPort
        }         else if str_eq(s, "OVSIntPort") {
            ListNetworksType::OvsIntPort
        }         else if str_eq(s, "vnet") {
            ListNetworksType::Vnet
        }         else if str_eq(s, "any_bridge") {
            ListNetworksType::AnyBridge
        }         else if str_eq(s, "any_local_bridge") {
            ListNetworksType::AnyLocalBridge
        }         else if str_eq(s, "include_sdn") {
            ListNetworksType::IncludeSdn
        } else {
            ListNetworksType::UnknownEnumValue(String::from_str(s))
        }
    }

    /// Each known value goes with the name the API uses for it: `bridge` for `Bridge`, `bond` for `Bond`, `eth` for `Eth`, and so on for every known value.
    /// `to_string` writes that name and `from_name` reads it as that value.
    pub proof fn lemma_api_names()
        ensures
            ListNetworksType::Bridge.name() == "bridge"@,
            Self::parses_to("bridge"@, ListNetworksType::Bridge),
            ListNetworksType::Bond.name() == "bond"@,
            Self::parses_to("bond"@, ListNetworksType::Bond),
            ListNetworksType::Eth.name() == "eth"@,
            Self::parses_to("eth"@, ListNetworksType::Eth),
            ListNetworksType::Alias.name() == "alias"@,
            Self::parses_to("alias"@, ListNetworksType::Alias),
            ListNetworksType::Vlan.name() == "vlan"@,
            Self::parses_to("vlan"@, ListNetworksType::Vlan),
            ListNetworksType::Fabric.name() == "fabric"@,
            Self::parses_to("fabric"@, ListNetworksType::Fabric),
            ListNetworksType::OvsBridge.name() == "OVSBridge"@,
            Self::parses_to("OVSBridge"@, ListNetworksType::OvsBridge),
            ListNetworksType::OvsBond.name() == "OVSBond"@,
            Self::parses_to("OVSBond"@, ListNetworksType::OvsBond),
            ListNetworksType::OvsPort.name() == "OVSPort"@,
            Self::parses_to("OVSPort"@, ListNetworksType::OvsPort),
            ListNetworksType::OvsIntPort.name() == "OVSIntPort"@,
            Self::parses_to("OVSIntPort"@, ListNetworksType::OvsIntPort),
            ListNetworksType::Vnet.name() == "vnet"@,
            Self::parses_to("vnet"@, ListNetworksType::Vnet),
            ListNetworksType::AnyBridge.name() == "any_bridge"@,
            Self::parses_to("any_bridge"@, ListNetworksType::AnyBridge),
            ListNetworksType::AnyLocalBridge.name() == "any_local_bridge"@,
            Self::parses_to("any_local_bridge"@, ListNetworksType::AnyLocalBridge),
            ListNetworksType::IncludeSdn.name() == "include_sdn"@,
            Self::parses_to("include_sdn"@, ListNetworksType::IncludeSdn),
    {
        Self::lemma_to_string_from_name(ListNetworksType::Bridge);
        Self::lemma_to_string_from_name(ListNetworksType::Bond);
        Self::lemma_to_string_from_name(ListNetworksType::Eth);
        Self::lemma_to_string_from_name(ListNetworksType::Alias);
        Self::lemma_to_string_from_name(ListNetworksType::Vlan);
        Self::lemma_to_string_from_name(ListNetworksType::Fabric);
        Self::lemma_to_string_from_name(ListNetworksType::OvsBridge);
        Self::lemma_to_string_from_name(ListNetworksType::OvsBond);
        Self::lemma_to_string_from_name(ListNetworksType::OvsPort);
        Self::lemma_to_string_from_name(ListNetworksType::OvsIntPort);
        Self::lemma_to_string_from_name(ListNetworksType::Vnet);
        Self::lemma_to_string_from_name(ListNetworksType::AnyBridge);
        Self::lemma_to_string_from_name(ListNetworksType::AnyLocalBridge);
        Self::lemma_to_string_from_name(ListNetworksType::IncludeSdn);
    }

    /// Writing out a value that was read gives back the name that was read.
    pub proof fn lemma_from_name_to_string(s: Seq<char>, v: Self)
        requires
            Self::parses_to(s, v),
        ensures
            v.name() == s,
    {
    }

    /// Reading the name of a value gives back the value, unless the value is an
    /// unknown one that carries the name of a known one.
    pub proof fn lemma_to_string_from_name(v: Self)
        requires
            v is UnknownEnumValue ==> Self::known(v.name()) is None,
        ensures
            Self::parses_to(v.name(), v),
    {
        if !(v is UnknownEnumValue) {
            Self::lemma_known_names(v);
        }
    }

    /// The spelling of known names, character by character.
    proof fn lemma_name_spelling()
        ensures
            "bridge"@.len() == 6 && "bridge"@[0] == 'b' && "bridge"@[1] == 'r' && "bridge"@[2] == 'i' && "bridge"@[3] == 'd' && "bridge"@[4] == 'g' && "bridge"@[5] == 'e',
            "bond"@.len() == 4 && "bond"@[0] == 'b' && "bond"@[1] == 'o' && "bond"@[2] == 'n' && "bond"@[3] == 'd',
            "eth"@.len() == 3 && "eth"@[0] == 'e' && "eth"@[1] == 't' && "eth"@[2] == 'h',
            "alias"@.len() == 5 && "alias"@[0] == 'a' && "alias"@[1] == 'l' && "alias"@[2] == 'i' && "alias"@[3] == 'a' && "alias"@[4] == 's',
            "vlan"@.len() == 4 && "vlan"@[0] == 'v' && "vlan"@[1] == 'l' && "vlan"@[2] == 'a' && "vlan"@[3] == 'n',
            "fabric"@.len() == 6 && "fabric"@[0] == 'f' && "fabric"@[1] == 'a' && "fabric"@[2] == 'b' && "fabric"@[3] == 'r' && "fabric"@[4] == 'i' && "fabric"@[5] == 'c',
            "OVSBridge"@.len() == 9 && "OVSBridge"@[0] == 'O' && "OVSBridge"@[1] == 'V' && "OVSBridge"@[2] == 'S' && "OVSBridge"@[3] == 'B' && "OVSBridge"@[4] == 'r' && "OVSBridge"@[5] == 'i' && "OVSBridge"@[6] == 'd' && "OVSBridge"@[7] == 'g' && "OVSBridge"@[8] == 'e',
            "OVSBond"@.len() == 7 && "OVSBond"@[0] == 'O' && "OVSBond"@[1] == 'V' && "OVSBond"@[2] == 'S' && "OVSBond"@[3] == 'B' && "OVSBond"@[4] == 'o' && "OVSBond"@[5] == 'n' && "OVSBond"@[6] == 'd',
            "OVSPort"@.len() == 7 && "OVSPort"@[0] == 'O' && "OVSPort"@[1] == 'V' && "OVSPort"@[2] == 'S' && "OVSPort"@[3] == 'P' && "OVSPort"@[4] == 'o' && "OVSPort"@[5] == 'r' && "OVSPort"@[6] == 't',
            "OVSIntPort"@.len() == 10 && "OVSIntPort"@[0] == 'O' && "OVSIntPort"@[1] == 'V' && "OVSIntPort"@[2] == 'S' && "OVSIntPort"@[3] == 'I' && "OVSIntPort"@[4] == 'n' && "OVSIntPort"@[5] == 't' && "OVSIntPort"@[6] == 'P' && "OVSIntPort"@[7] == 'o' && "OVSIntPort"@[8] == 'r' && "OVSIntPort"@[9] == 't',
            "vnet"@.len() == 4 && "vnet"@[0] == 'v' && "vnet"@[1] == 'n' && "vnet"@[2] == 'e' && "vnet"@[3] == 't',
            "any_bridge"@.len() == 10 && "any_bridge"@[0] == 'a' && "any_bridge"@[1] == 'n' && "any_bridge"@[2] == 'y' && "any_bridge"@[3] == '_' && "any_bridge"@[4] == 'b' && "any_bridge"@[5] == 'r' && "any_bridge"@[6] == 'i' && "any_bridge"@[7] == 'd' && "any_bridge"@[8] == 'g' && "any_bridge"@[9] == 'e',
            "any_local_bridge"@.len() == 16 && "any_local_bridge"@[0] == 'a' && "any_local_bridge"@[1] == 'n' && "any_local_bridge"@[2] == 'y' && "any_local_bridge"@[3] == '_' && "any_local_bridge"@[4] == 'l' && "any_local_bridge"@[5] == 'o' && "any_local_bridge"@[6] == 'c' && "any_local_bridge"@[7] == 'a' && "any_local_bridge"@[8] == 'l' && "any_local_bridge"@[9] == '_' && "any_local_bridge"@[10] == 'b' && "any_local_bridge"@[11] == 'r' && "any_local_bridge"@[12] == 'i' && "any_local_bridge"@[13] == 'd' && "any_local_bridge"@[14] == 'g' && "any_local_bridge"@[15] == 'e',
            "include_sdn"@.len() == 11 && "include_sdn"@[0] == 'i' && "include_sdn"@[1] == 'n' && "include_sdn"@[2] == 'c' && "include_sdn"@[3] == 'l' && "include_sdn"@[4] == 'u' && "include_sdn"@[5] == 'd' && "include_sdn"@[6] == 'e' && "include_sdn"@[7] == '_' && "include_sdn"@[8] == 's' && "include_sdn"@[9] == 'd' && "include_sdn"@[10] == 'n',
    {
        broadcast use vstd::string::group_string_axioms;

        reveal_strlit("bridge");
        reveal_strlit("bond");
        reveal_strlit("eth");
        reveal_strlit("alias");
        reveal_strlit("vlan");
        reveal_strlit("fabric");
        reveal_strlit("OVSBridge");
        reveal_strlit("OVSBond");
        reveal_strlit("OVSPort");
        reveal_strlit("OVSIntPort");
        reveal_strlit("vnet");
        reveal_strlit("any_bridge");
        reveal_strlit("any_local_bridge");
        reveal_strlit("include_sdn");
    }

    proof fn lemma_known_names(v: Self)
        requires
            !(v is UnknownEnumValue),
        ensures
            Self::known(v.name()) == Some(v),
    {
        Self::lemma_name_spelling();
    }

}

/// Object.
#[derive(Clone, Debug, PartialEq)]
pub struct NetworkInterface {
    /// Set to true if the interface is active.
    pub active: Option<bool>,

    /// IP address.
    pub address: Option<String>,

    /// IP address.
    pub address6: Option<String>,

    /// Automatically start interface on boot.
    pub autostart: Option<bool>,

    /// Specify the primary interface for active-backup bond.
    pub bond_primary: Option<String>,

    pub bond_mode: Option<NetworkInterfaceBondMode>,

    pub bond_xmit_hash_policy: Option<NetworkInterfaceBondXmitHashPolicy>,

    /// The bridge port access VLAN.
    pub bridge_access: Option<i64>,

    /// Bridge port ARP/ND suppress flag.
    pub bridge_arp_nd_suppress: Option<bool>,

    /// Bridge port learning flag.
    pub bridge_learning: Option<bool>,

    /// Bridge port multicast flood flag.
    pub bridge_multicast_flood: Option<bool>,

    /// Bridge port unicast flood flag.
    pub bridge_unicast_flood: Option<bool>,

    /// Specify the interfaces you want to add to your bridge.
    pub bridge_ports: Option<String>,

    /// Specify the allowed VLANs. For example: '2 4 100-200'. Only used if the
    /// bridge is VLAN aware.
    pub bridge_vids: Option<String>,

    /// Enable bridge vlan support.
    pub bridge_vlan_aware: Option<bool>,

    /// IPv4 CIDR.
    pub cidr: Option<String>,

    /// IPv6 CIDR.
    pub cidr6: Option<String>,

    /// Comments
    pub comments: Option<String>,

    /// Comments
    pub comments6: Option<String>,

    /// Set to true if the interface physically exists.
    pub exists: Option<bool>,

    /// The network families.
    pub families: Option<Vec<NetworkInterfaceFamilies>>,

    /// Default gateway address.
    pub gateway: Option<String>,

    /// Default ipv6 gateway address.
    pub gateway6: Option<String>,

    /// Network interface name.
    pub iface: String,

    /// The link type.
    pub link_type: Option<String>,

    pub method: Option<NetworkInterfaceMethod>,

    pub method6: Option<NetworkInterfaceMethod>,

    /// MTU.
    pub mtu: Option<u16>,

    /// Network mask.
    pub netmask: Option<String>,

    /// Network mask.
    pub netmask6: Option<u8>,

    /// A list of additional interface options for IPv4.
    pub options: Option<Vec<String>>,

    /// A list of additional interface options for IPv6.
    pub options6: Option<Vec<String>>,

    /// Specify the interfaces used by the bonding device.
    pub ovs_bonds: Option<String>,

    /// The OVS bridge associated with a OVS port. This is required when you
    /// create an OVS port.
    pub ovs_bridge: Option<String>,

    /// OVS interface options.
    pub ovs_options: Option<String>,

    /// Specify the interfaces you want to add to your bridge.
    pub ovs_ports: Option<String>,

    /// Specify a VLan tag (used by OVSPort, OVSIntPort, OVSBond)
    pub ovs_tag: Option<u16>,

    /// The order of the interface.
    pub priority: Option<i64>,

    /// Specify the interfaces used by the bonding device.
    pub slaves: Option<String>,

    pub ty: NetworkInterfaceType,

    /// The uplink ID.
    pub uplink_id: Option<String>,

    /// vlan-id for a custom named vlan interface (ifupdown2 only).
    pub vlan_id: Option<u16>,

    pub vlan_protocol: Option<NetworkInterfaceVlanProtocol>,

    /// Specify the raw interface for the vlan interface.
    pub vlan_raw_device: Option<String>,

    /// The VXLAN ID.
    pub vxlan_id: Option<i64>,

    /// The VXLAN local tunnel IP.
    pub vxlan_local_tunnelip: Option<String>,

    /// The physical device for the VXLAN tunnel.
    pub vxlan_physdev: Option<String>,

    /// The VXLAN SVC node IP.
    pub vxlan_svcnodeip: Option<String>,
}

/// Bonding mode.
#[derive(Clone, Debug)]
pub enum NetworkInterfaceBondMode {
    /// balance-rr.
    BalanceRr,
    /// active-backup.
    ActiveBackup,
    /// balance-xor.
    BalanceXor,
    /// broadcast.
    Broadcast,
    /// 802.3ad.
    Ieee802_3ad,
    /// balance-tlb.
    BalanceTlb,
    /// balance-alb.
    BalanceAlb,
    /// balance-slb.
    BalanceSlb,
    /// lacp-balance-slb.
    LacpBalanceSlb,
    /// lacp-balance-tcp.
    LacpBalanceTcp,
    /// Unknown variants for forward compatibility.
    UnknownEnumValue(String),
}

impl PartialEq for NetworkInterfaceBondMode {
    fn eq(&self, other: &Self) -> (r: bool) {
        match (self, other) {
            (NetworkInterfaceBondMode::BalanceRr, NetworkInterfaceBondMode::BalanceRr) => true,
            (NetworkInterfaceBondMode::ActiveBackup, NetworkInterfaceBondMode::ActiveBackup) => true,
            (NetworkInterfaceBondMode::BalanceXor, NetworkInterfaceBondMode::BalanceXor) => true,
            (NetworkInterfaceBondMode::Broadcast, NetworkInterfaceBondMode::Broadcast) => true,
            (NetworkInterfaceBondMode::Ieee802_3ad, NetworkInterfaceBondMode::Ieee802_3ad) => true,
            (NetworkInterfaceBondMode::BalanceTlb, NetworkInterfaceBondMode::BalanceTlb) => true,
            (NetworkInterfaceBondMode::BalanceAlb, NetworkInterfaceBondMode::BalanceAlb) => true,
            (NetworkInterfaceBondMode::BalanceSlb, NetworkInterfaceBondMode::BalanceSlb) => true,
            (NetworkInterfaceBondMode::LacpBalanceSlb, NetworkInterfaceBondMode::LacpBalanceSlb) => true,
            (NetworkInterfaceBondMode::LacpBalanceTcp, NetworkInterfaceBondMode::LacpBalanceTcp) => true,
            (NetworkInterfaceBondMode::UnknownEnumValue(a), NetworkInterfaceBondMode::UnknownEnumValue(b)) => *a == *b,
            _ => false,
        }
    }
}

impl PartialEqSpecImpl for NetworkInterfaceBondMode {
    open spec fn obeys_eq_spec() -> bool {
        true
    }

    open spec fn eq_spec(&self, other: &Self) -> bool {
        match (self, other) {
            (NetworkInterfaceBondMode::UnknownEnumValue(a), NetworkInterfaceBondMode::UnknownEnumValue(b)) => a@ == b@,
            _ => *self == *other,
        }
    }
}

impl std::str::FromStr for NetworkInterfaceBondMode {
    type Err = core::convert::Infallible;

    fn from_str(s: &str) -> (r: Result<Self, Self::Err>)
        ensures
            r matches Ok(v) && Self::parses_to(s@, v),
    {
        Ok(NetworkInterfaceBondMode::from_name(s))
    }
}

impl NetworkInterfaceBondMode {
    /// The name under which the API writes this value.
    pub open spec fn name(self) -> Seq<char> {
        match self {
            NetworkInterfaceBondMode::BalanceRr => "balance-rr"@,
            NetworkInterfaceBondMode::ActiveBackup => "active-backup"@,
            NetworkInterfaceBondMode::BalanceXor => "balance-xor"@,
            NetworkInterfaceBondMode::Broadcast => "broadcast"@,
            NetworkInterfaceBondMode::Ieee802_3ad => "802.3ad"@,
            NetworkInterfaceBondMode::BalanceTlb => "balance-tlb"@,
            NetworkInterfaceBondMode::BalanceAlb => "balance-alb"@,
            NetworkInterfaceBondMode::BalanceSlb => "balance-slb"@,
            NetworkInterfaceBondMode::LacpBalanceSlb => "lacp-balance-slb"@,
            NetworkInterfaceBondMode::LacpBalanceTcp => "lacp-balance-tcp"@,
            NetworkInterfaceBondMode::UnknownEnumValue(s) => s@,
        }
    }

    /// The known value that the API name `s` stands for, if any.
    pub open spec fn known(s: Seq<char>) -> Option<Self> {
        if s == "balance-rr"@ {
            Some(NetworkInterfaceBondMode::BalanceRr)
        }         else if s == "active-backup"@ {
            Some(NetworkInterfaceBondMode::ActiveBackup)
        }         else if s == "balance-xor"@ {
            Some(NetworkInterfaceBondMode::BalanceXor)
        }         else if s == "broadcast"@ {
            Some(NetworkInterfaceBondMode::Broadcast)
        }         else if s == "802.3ad"@ {
            Some(NetworkInterfaceBondMode::Ieee802_3ad)
        }         else if s == "balance-tlb"@ {
            Some(NetworkInterfaceBondMode::BalanceTlb)
        }         else if s == "balance-alb"@ {
            Some(NetworkInterfaceBondMode::BalanceAlb)
        }         else if s == "balance-slb"@ {
            Some(NetworkInterfaceBondMode::BalanceSlb)
        }         else if s == "lacp-balance-slb"@ {
            Some(NetworkInterfaceBondMode::LacpBalanceSlb)
        }         else if s == "lacp-balance-tcp"@ {
            Some(NetworkInterfaceBondMode::LacpBalanceTcp)
        } else {
            None
        }
    }

    /// `v` is the value that reading the API name `s` gives.
    pub open spec fn parses_to(s: Seq<char>, v: Self) -> bool {
        match Self::known(s) {
            Some(k) => v == k,
            None => v matches NetworkInterfaceBondMode::UnknownEnumValue(t) && t@ == s,
        }
    }

    /// The API name of this value.
    pub fn to_string(&self) -> (r: String)
        ensures
            r@ == self.name(),
    {
        match self {
            NetworkInterfaceBondMode::BalanceRr => String::from_str("balance-rr"),
            NetworkInterfaceBondMode::ActiveBackup => String::from_str("active-backup"),
            NetworkInterfaceBondMode::BalanceXor => String::from_str("balance-xor"),
            NetworkInterfaceBondMode::Broadcast => String::from_str("broadcast"),
            NetworkInterfaceBondMode::Ieee802_3ad => String::from_str("802.3ad"),
            NetworkInterfaceBondMode::BalanceTlb => String::from_str("balance-tlb"),
            NetworkInterfaceBondMode::BalanceAlb => String::from_str("balance-alb"),
            NetworkInterfaceBondMode::BalanceSlb => String::from_str("balance-slb"),
            NetworkInterfaceBondMode::LacpBalanceSlb => String::from_str("lacp-balance-slb"),
            NetworkInterfaceBondMode::LacpBalanceTcp => String::from_str("lacp-balance-tcp"),
            NetworkInterfaceBondMode::UnknownEnumValue(s) => s.clone(),
        }
    }

    /// Reads an API name; a name that is not known is kept as an unknown value.
    pub fn from_name(s: &str) -> (r: Self)
        ensures
            Self::parses_to(s@, r),
    {
        if str_eq(s, "balance-rr") {
            NetworkInterfaceBondMode::BalanceRr
        }         else if str_eq(s, "active-backup") {
            NetworkInterfaceBondMode::ActiveBackup
        }         else if str_eq(s, "balance-xor") {
            NetworkInterfaceBondMode::BalanceXor
        }         else if str_eq(s, "broadcast") {
            NetworkInterfaceBondMode::Broadcast
        }         else if str_eq(s, "802.3ad") {
            NetworkInterfaceBondMode::Ieee802_3ad
        }         else if str_eq(s, "balance-tlb") {
            NetworkInterfaceBondMode::BalanceTlb
        }         else if str_eq(s, "balance-alb") {
            NetworkInterfaceBondMode::BalanceAlb
        }         else if str_eq(s, "balance-slb") {
            NetworkInterfaceBondMode::BalanceSlb
        }         else if str_eq(s, "lacp-balance-slb") {
            NetworkInterfaceBondMode::LacpBalanceSlb
        }         else if str_eq(s, "lacp-balance-tcp") {
            NetworkInterfaceBondMode::LacpBalanceTcp
        } else {
            NetworkInterfaceBondMode::UnknownEnumValue(String::from_str(s))
        }
    }

    /// Each known value goes with the name the API uses for it: `balance-rr` for `BalanceRr`, `active-backup` for `ActiveBackup`, `balance-xor` for `BalanceXor`, and so on for every known value.
    /// `to_string` writes that name and `from_name` reads it as that value.
    pub proof fn lemma_api_names()
        ensures
            NetworkInterfaceBondMode::BalanceRr.name() == "balance-rr"@,
            Self::parses_to("balance-rr"@, NetworkInterfaceBondMode::BalanceRr),
            NetworkInterfaceBondMode::ActiveBackup.name() == "active-backup"@,
            Self::parses_to("active-backup"@, NetworkInterfaceBondMode::ActiveBackup),
            NetworkInterfaceBondMode::BalanceXor.name() == "balance-xor"@,
            Self::parses_to("balance-xor"@, NetworkInterfaceBondMode::BalanceXor),
            NetworkInterfaceBondMode::Broadcast.name() == "broadcast"@,
            Self::parses_to("broadcast"@, NetworkInterfaceBondMode::Broadcast),
            NetworkInterfaceBondMode::Ieee802_3ad.name() == "802.3ad"@,
            Self::parses_to("802.3ad"@, NetworkInterfaceBondMode::Ieee802_3ad),
            NetworkInterfaceBondMode::BalanceTlb.name() == "balance-tlb"@,
            Self::parses_to("balance-tlb"@, NetworkInterfaceBondMode::BalanceTlb),
            NetworkInterfaceBondMode::BalanceAlb.name() == "balance-alb"@,
            Self::parses_to("balance-alb"@, NetworkInterfaceBondMode::BalanceAlb),
            NetworkInterfaceBondMode::BalanceSlb.name() == "balance-slb"@,
            Self::parses_to("balance-slb"@, NetworkInterfaceBondMode::BalanceSlb),
            NetworkInterfaceBondMode::LacpBalanceSlb.name() == "lacp-balance-slb"@,
            Self::parses_to("lacp-balance-slb"@, NetworkInterfaceBondMode::LacpBalanceSlb),
            NetworkInterfaceBondMode::LacpBalanceTcp.name() == "lacp-balance-tcp"@,
            Self::parses_to("lacp-balance-tcp"@, NetworkInterfaceBondMode::LacpBalanceTcp),
    {
        Self::lemma_to_string_from_name(NetworkInterfaceBondMode::BalanceRr);
        Self::lemma_to_string_from_name(NetworkInterfaceBondMode::ActiveBackup);
        Self::lemma_to_string_from_name(NetworkInterfaceBondMode::BalanceXor);
        Self::lemma_to_string_from_name(NetworkInterfaceBondMode::Broadcast);
        Self::lemma_to_string_from_name(NetworkInterfaceBondMode::Ieee802_3ad);
        Self::lemma_to_string_from_name(NetworkInterfaceBondMode::BalanceTlb);
        Self::lemma_to_string_from_name(NetworkInterfaceBondMode::BalanceAlb);
        Self::lemma_to_string_from_name(NetworkInterfaceBondMode::BalanceSlb);
        Self::lemma_to_string_from_name(NetworkInterfaceBondMode::LacpBalanceSlb);
        Self::lemma_to_string_from_name(NetworkInterfaceBondMode::LacpBalanceTcp);
    }

    /// Writing out a value that was read gives back the name that was read.
    pub proof fn lemma_from_name_to_string(s: Seq<char>, v: Self)
        requires
            Self::parses_to(s, v),
        ensures
            v.name() == s,
    {
    }

    /// Reading the name of a value gives back the value, unless the value is an
    /// unknown one that carries the name of a known one.
    pub proof fn lemma_to_string_from_name(v: Self)
        requires
            v is UnknownEnumValue ==> Self::known(v.name()) is None,
        ensures
            Self::parses_to(v.name(), v),
    {
        if !(v is UnknownEnumValue) {
            Self::lemma_known_names(v);
        }
    }

    /// The spelling of known names, character by character.
    proof fn lemma_name_spelling()
        ensures
            "balance-rr"@.len() == 10 && "balance-rr"@[0] == 'b' && "balance-rr"@[1] == 'a' && "balance-rr"@[2] == 'l' && "balance-rr"@[3] == 'a' && "balance-rr"@[4] == 'n' && "balance-rr"@[5] == 'c' && "balance-rr"@[6] == 'e' && "balance-rr"@[7] == '-' && "balance-rr"@[8] == 'r' && "balance-rr"@[9] == 'r',
            "active-backup"@.len() == 13 && "active-backup"@[0] == 'a' && "active-backup"@[1] == 'c' && "active-backup"@[2] == 't' && "active-backup"@[3] == 'i' && "active-backup"@[4] == 'v' && "active-backup"@[5] == 'e' && "active-backup"@[6] == '-' && "active-backup"@[7] == 'b' && "active-backup"@[8] == 'a' && "active-backup"@[9] == 'c' && "active-backup"@[10] == 'k' && "active-backup"@[11] == 'u' && "active-backup"@[12] == 'p',
            "balance-xor"@.len() == 11 && "balance-xor"@[0] == 'b' && "balance-xor"@[1] == 'a' && "balance-xor"@[2] == 'l' && "balance-xor"@[3] == 'a' && "balance-xor"@[4] == 'n' && "balance-xor"@[5] == 'c' && "balance-xor"@[6] == 'e' && "balance-xor"@[7] == '-' && "balance-xor"@[8] == 'x' && "balance-xor"@[9] == 'o' && "balance-xor"@[10] == 'r',
            "broadcast"@.len() == 9 && "broadcast"@[0] == 'b' && "broadcast"@[1] == 'r' && "broadcast"@[2] == 'o' && "broadcast"@[3] == 'a' && "broadcast"@[4] == 'd' && "broadcast"@[5] == 'c' && "broadcast"@[6] == 'a' && "broadcast"@[7] == 's' && "broadcast"@[8] == 't',
            "802.3ad"@.len() == 7 && "802.3ad"@[0] == '8' && "802.3ad"@[1] == '0' && "802.3ad"@[2] == '2' && "802.3ad"@[3] == '.' && "802.3ad"@[4] == '3' && "802.3ad"@[5] == 'a' && "802.3ad"@[6] == 'd',
            "balance-tlb"@.len() == 11 && "balance-tlb"@[0] == 'b' && "balance-tlb"@[1] == 'a' && "balance-tlb"@[2] == 'l' && "balance-tlb"@[3] == 'a' && "balance-tlb"@[4] == 'n' && "balance-tlb"@[5] == 'c' && "balance-tlb"@[6] == 'e' && "balance-tlb"@[7] == '-' && "balance-tlb"@[8] == 't' && "balance-tlb"@[9] == 'l' && "balance-tlb"@[10] == 'b',
            "balance-alb"@.len() == 11 && "balance-alb"@[0] == 'b' && "balance-alb"@[1] == 'a' && "balance-alb"@[2] == 'l' && "balance-alb"@[3] == 'a' && "balance-alb"@[4] == 'n' && "balance-alb"@[5] == 'c' && "balance-alb"@[6] == 'e' && "balance-alb"@[7] == '-' && "balance-alb"@[8] == 'a' && "balance-alb"@[9] == 'l' && "balance-alb"@[10] == 'b',
            "balance-slb"@.len() == 11 && "balance-slb"@[0] == 'b' && "balance-slb"@[1] == 'a' && "balance-slb"@[2] == 'l' && "balance-slb"@[3] == 'a' && "balance-slb"@[4] == 'n' && "balance-slb"@[5] == 'c' && "balance-slb"@[6] == 'e' && "balance-slb"@[7] == '-' && "balance-slb"@[8] == 's' && "balance-slb"@[9] == 'l' && "balance-slb"@[10] == 'b',
            "lacp-balance-slb"@.len() == 16 && "lacp-balance-slb"@[0] == 'l' && "lacp-balance-slb"@[1] == 'a' && "lacp-balance-slb"@[2] == 'c' && "lacp-balance-slb"@[3] == 'p' && "lacp-balance-slb"@[4] == '-' && "lacp-balance-slb"@[5] == 'b' && "lacp-balance-slb"@[6] == 'a' && "lacp-balance-slb"@[7] == 'l' && "lacp-balance-slb"@[8] == 'a' && "lacp-balance-slb"@[9] == 'n' && "lacp-balance-slb"@[10] == 'c' && "lacp-balance-slb"@[11] == 'e' && "lacp-balance-slb"@[12] == '-' && "lacp-balance-slb"@[13] == 's' && "lacp-balance-slb"@[14] == 'l' && "lacp-balance-slb"@[15] == 'b',
            "lacp-balance-tcp"@.len() == 16 && "lacp-balance-tcp"@[0] == 'l' && "lacp-balance-tcp"@[1] == 'a' && "lacp-balance-tcp"@[2] == 'c' && "lacp-balance-tcp"@[3] == 'p' && "lacp-balance-tcp"@[4] == '-' && "lacp-balance-tcp"@[5] == 'b' && "lacp-balance-tcp"@[6] == 'a' && "lacp-balance-tcp"@[7] == 'l' && "lacp-balance-tcp"@[8] == 'a' && "lacp-balance-tcp"@[9] == 'n' && "lacp-balance-tcp"@[10] == 'c' && "lacp-balance-tcp"@[11] == 'e' && "lacp-balance-tcp"@[12] == '-' && "lacp-balance-tcp"@[13] == 't' && "lacp-balance-tcp"@[14] == 'c' && "lacp-balance-tcp"@[15] == 'p',
    {
        broadcast use vstd::string::group_string_axioms;

        reveal_strlit("balance-rr");
        reveal_strlit("active-backup");
        reveal_strlit("balance-xor");
        reveal_strlit("broadcast");
        reveal_strlit("802.3ad");
        reveal_strlit("balance-tlb");
        reveal_strlit("balance-alb");
        reveal_strlit("balance-slb");
        reveal_strlit("lacp-balance-slb");
        reveal_strlit("lacp-balance-tcp");
    }

    proof fn lemma_known_names(v: Self)
        requires
            !(v is UnknownEnumValue),
        ensures
            Self::known(v.name()) == Some(v),
    {
        Self::lemma_name_spelling();
    }

}

/// Selects the transmit hash policy to use for slave selection in balance-xor
/// and 802.3ad modes.
#[derive(Clone, Debug)]
pub enum NetworkInterfaceBondXmitHashPolicy {
    /// layer2.
    Layer2,
    /// layer2+3.
    Layer2_3,
    /// layer3+4.
    Layer3_4,
    /// Unknown variants for forward compatibility.
    UnknownEnumValue(String),
}

impl PartialEq for NetworkInterfaceBondXmitHashPolicy {
    fn eq(&self, other: &Self) -> (r: bool) {
        match (self, other) {
            (NetworkInterfaceBondXmitHashPolicy::Layer2, NetworkInterfaceBondXmitHashPolicy::Layer2) => true,
            (NetworkInterfaceBondXmitHashPolicy::Layer2_3, NetworkInterfaceBondXmitHashPolicy::Layer2_3) => true,
            (NetworkInterfaceBondXmitHashPolicy::Layer3_4, NetworkInterfaceBondXmitHashPolicy::Layer3_4) => true,
            (NetworkInterfaceBondXmitHashPolicy::UnknownEnumValue(a), NetworkInterfaceBondXmitHashPolicy::UnknownEnumValue(b)) => *a == *b,
            _ => false,
        }
    }
}

impl PartialEqSpecImpl for NetworkInterfaceBondXmitHashPolicy {
    open spec fn obeys_eq_spec() -> bool {
        true
    }

    open spec fn eq_spec(&self, other: &Self) -> bool {
        match (self, other) {
            (NetworkInterfaceBondXmitHashPolicy::UnknownEnumValue(a), NetworkInterfaceBondXmitHashPolicy::UnknownEnumValue(b)) => a@ == b@,
            _ => *self == *other,
        }
    }
}

impl std::str::FromStr for NetworkInterfaceBondXmitHashPolicy {
    type Err = core::convert::Infallible;

    fn from_str(s: &str) -> (r: Result<Self, Self::Err>)
        ensures
            r matches Ok(v) && Self::parses_to(s@, v),
    {
        Ok(NetworkInterfaceBondXmitHashPolicy::from_name(s))
    }
}

impl NetworkInterfaceBondXmitHashPolicy {
    /// The name under which the API writes this value.
    pub open spec fn name(self) -> Seq<char> {
        match self {
            NetworkInterfaceBondXmitHashPolicy::Layer2 => "layer2"@,
            NetworkInterfaceBondXmitHashPolicy::Layer2_3 => "layer2+3"@,
            NetworkInterfaceBondXmitHashPolicy::Layer3_4 => "layer3+4"@,
            NetworkInterfaceBondXmitHashPolicy::UnknownEnumValue(s) => s@,
        }
    }

    /// The known value that the API name `s` stands for, if any.
    pub open spec fn known(s: Seq<char>) -> Option<Self> {
        if s == "layer2"@ {
            Some(NetworkInterfaceBondXmitHashPolicy::Layer2)
        }         else if s == "layer2+3"@ {
            Some(NetworkInterfaceBondXmitHashPolicy::Layer2_3)
        }         else if s == "layer3+4"@ {
            Some(NetworkInterfaceBondXmitHashPolicy::Layer3_4)
        } else {
            None
        }
    }

    /// `v` is the value that reading the API name `s` gives.
    pub open spec fn parses_to(s: Seq<char>, v: Self) -> bool {
        match Self::known(s) {
            Some(k) => v == k,
            None => v matches NetworkInterfaceBondXmitHashPolicy::UnknownEnumValue(t) && t@ == s,
        }
    }

    /// The API name of this value.
    pub fn to_string(&self) -> (r: String)
        ensures
            r@ == self.name(),
    {
        match self {
            NetworkInterfaceBondXmitHashPolicy::Layer2 => String::from_str("layer2"),
            NetworkInterfaceBondXmitHashPolicy::Layer2_3 => String::from_str("layer2+3"),
            NetworkInterfaceBondXmitHashPolicy::Layer3_4 => String::from_str("layer3+4"),
            NetworkInterfaceBondXmitHashPolicy::UnknownEnumValue(s) => s.clone(),
        }
    }

    /// Reads an API name; a name that is not known is kept as an unknown value.
    pub fn from_name(s: &str) -> (r: Self)
        ensures
            Self::parses_to(s@, r),
    {
        if str_eq(s, "layer2") {
            NetworkInterfaceBondXmitHashPolicy::Layer2
        }         else if str_eq(s, "layer2+3") {
            NetworkInterfaceBondXmitHashPolicy::Layer2_3
        }         else if str_eq(s, "layer3+4") {
            NetworkInterfaceBondXmitHashPolicy::Layer3_4
        } else {
            NetworkInterfaceBondXmitHashPolicy::UnknownEnumValue(String::from_str(s))
        }
    }

    /// Each known value goes with the name the API uses for it: `layer2` for `Layer2`, `layer2+3` for `Layer2_3`, `layer3+4` for `Layer3_4`.
    /// `to_string` writes that name and `from_name` reads it as that value.
    pub proof fn lemma_api_names()
        ensures
            NetworkInterfaceBondXmitHashPolicy::Layer2.name() == "layer2"@,
            Self::parses_to("layer2"@, NetworkInterfaceBondXmitHashPolicy::Layer2),
            NetworkInterfaceBondXmitHashPolicy::Layer2_3.name() == "layer2+3"@,
            Self::parses_to("layer2+3"@, NetworkInterfaceBondXmitHashPolicy::Layer2_3),
            NetworkInterfaceBondXmitHashPolicy::Layer3_4.name() == "layer3+4"@,
            Self::parses_to("layer3+4"@, NetworkInterfaceBondXmitHashPolicy::Layer3_4),
    {
        Self::lemma_to_string_from_name(NetworkInterfaceBondXmitHashPolicy::Layer2);
        Self::lemma_to_string_from_name(NetworkInterfaceBondXmitHashPolicy::Layer2_3);
        Self::lemma_to_string_from_name(NetworkInterfaceBondXmitHashPolicy::Layer3_4);
    }

    /// Writing out a value that was read gives back the name that was read.
    pub proof fn lemma_from_name_to_string(s: Seq<char>, v: Self)
        requires
            Self::parses_to(s, v),
        ensures
            v.name() == s,
    {
    }

    /// Reading the name of a value gives back the value, unless the value is an
    /// unknown one that carries the name of a known one.
    pub proof fn lemma_to_string_from_name(v: Self)
        requires
            v is UnknownEnumValue ==> Self::known(v.name()) is None,
        ensures
            Self::parses_to(v.name(), v),
    {
        if !(v is UnknownEnumValue) {
            Self::lemma_known_names(v);
        }
    }

    /// The spelling of known names, character by character.
    proof fn lemma_name_spelling()
        ensures
            "layer2"@.len() == 6 && "layer2"@[0] == 'l' && "layer2"@[1] == 'a' && "layer2"@[2] == 'y' && "layer2"@[3] == 'e' && "layer2"@[4] == 'r' && "layer2"@[5] == '2',
            "layer2+3"@.len() == 8 && "layer2+3"@[0] == 'l' && "layer2+3"@[1] == 'a' && "layer2+3"@[2] == 'y' && "layer2+3"@[3] == 'e' && "layer2+3"@[4] == 'r' && "layer2+3"@[5] == '2' && "layer2+3"@[6] == '+' && "layer2+3"@[7] == '3',
            "layer3+4"@.len() == 8 && "layer3+4"@[0] == 'l' && "layer3+4"@[1] == 'a' && "layer3+4"@[2] == 'y' && "layer3+4"@[3] == 'e' && "layer3+4"@[4] == 'r' && "layer3+4"@[5] == '3' && "layer3+4"@[6] == '+' && "layer3+4"@[7] == '4',
    {
        broadcast use vstd::string::group_string_axioms;

        reveal_strlit("layer2");
        reveal_strlit("layer2+3");
        reveal_strlit("layer3+4");
    }

    proof fn lemma_known_names(v: Self)
        requires
            !(v is UnknownEnumValue),
        ensures
            Self::known(v.name()) == Some(v),
    {
        Self::lemma_name_spelling();
    }

}

/// A network family.
#[derive(Clone, Debug)]
pub enum NetworkInterfaceFamilies {
    /// inet.
    Inet,
    /// inet6.
    Inet6,
    /// Unknown variants for forward compatibility.
    UnknownEnumValue(String),
}

impl PartialEq for NetworkInterfaceFamilies {
    fn eq(&self, other: &Self) -> (r: bool) {
        match (self, other) {
            (NetworkInterfaceFamilies::Inet, NetworkInterfaceFamilies::Inet) => true,
            (NetworkInterfaceFamilies::Inet6, NetworkInterfaceFamilies::Inet6) => true,
            (NetworkInterfaceFamilies::UnknownEnumValue(a), NetworkInterfaceFamilies::UnknownEnumValue(b)) => *a == *b,
            _ => false,
        }
    }
}

impl PartialEqSpecImpl for NetworkInterfaceFamilies {
    open spec fn obeys_eq_spec() -> bool {
        true
    }

    open spec fn eq_spec(&self, other: &Self) -> bool {
        match (self, other) {
            (NetworkInterfaceFamilies::UnknownEnumValue(a), NetworkInterfaceFamilies::UnknownEnumValue(b)) => a@ == b@,
            _ => *self == *other,
        }
    }
}

impl std::str::FromStr for NetworkInterfaceFamilies {
    type Err = core::convert::Infallible;

    fn from_str(s: &str) -> (r: Result<Self, Self::Err>)
        ensures
            r matches Ok(v) && Self::parses_to(s@, v),
    {
        Ok(NetworkInterfaceFamilies::from_name(s))
    }
}

impl NetworkInterfaceFamilies {
    /// The name under which the API writes this value.
    pub open spec fn name(self) -> Seq<char> {
        match self {
            NetworkInterfaceFamilies::Inet => "inet"@,
            NetworkInterfaceFamilies::Inet6 => "inet6"@,
            NetworkInterfaceFamilies::UnknownEnumValue(s) => s@,
        }
    }

    /// The known value that the API name `s` stands for, if any.
    pub open spec fn known(s: Seq<char>) -> Option<Self> {
        if s == "inet"@ {
            Some(NetworkInterfaceFamilies::Inet)
        }         else if s == "inet6"@ {
            Some(NetworkInterfaceFamilies::Inet6)
        } else {
            None
        }
    }

    /// `v` is the value that reading the API name `s` gives.
    pub open spec fn parses_to(s: Seq<char>, v: Self) -> bool {
        match Self::known(s) {
            Some(k) => v == k,
            None => v matches NetworkInterfaceFamilies::UnknownEnumValue(t) && t@ == s,
        }
    }

    /// The API name of this value.
    pub fn to_string(&self) -> (r: String)
        ensures
            r@ == self.name(),
    {
        match self {
            NetworkInterfaceFamilies::Inet => String::from_str("inet"),
            NetworkInterfaceFamilies::Inet6 => String::from_str("inet6"),
            NetworkInterfaceFamilies::UnknownEnumValue(s) => s.clone(),
        }
    }

    /// Reads an API name; a name that is not known is kept as an unknown value.
    pub fn from_name(s: &str) -> (r: Self)
        ensures
            Self::parses_to(s@, r),
    {
        if str_eq(s, "inet") {
            NetworkInterfaceFamilies::Inet
        }         else if str_eq(s, "inet6") {
            NetworkInterfaceFamilies::Inet6
        } else {
            NetworkInterfaceFamilies::UnknownEnumValue(String::from_str(s))
        }
    }

    /// Each known value goes with the name the API uses for it: `inet` for `Inet`, `inet6` for `Inet6`.
    /// `to_string` writes that name and `from_name` reads it as that value.
    pub proof fn lemma_api_names()
        ensures
            NetworkInterfaceFamilies::Inet.name() == "inet"@,
            Self::parses_to("inet"@, NetworkInterfaceFamilies::Inet),
            NetworkInterfaceFamilies::Inet6.name() == "inet6"@,
            Self::parses_to("inet6"@, NetworkInterfaceFamilies::Inet6),
    {
        Self::lemma_to_string_from_name(NetworkInterfaceFamilies::Inet);
        Self::lemma_to_string_from_name(NetworkInterfaceFamilies::Inet6);
    }

    /// Writing out a value that was read gives back the name that was read.
    pub proof fn lemma_from_name_to_string(s: Seq<char>, v: Self)
        requires
            Self::parses_to(s, v),
        ensures
            v.name() == s,
    {
    }

    /// Reading the name of a value gives back the value, unless the value is an
    /// unknown one that carries the name of a known one.
    pub proof fn lemma_to_string_from_name(v: Self)
        requires
            v is UnknownEnumValue ==> Self::known(v.name()) is None,
        ensures
            Self::parses_to(v.name(), v),
    {
        if !(v is UnknownEnumValue) {
            Self::lemma_known_names(v);
        }
    }

    /// The spelling of known names, character by character.
    proof fn lemma_name_spelling()
        ensures
            "inet"@.len() == 4 && "inet"@[0] == 'i' && "inet"@[1] == 'n' && "inet"@[2] == 'e' && "inet"@[3] == 't',
            "inet6"@.len() == 5 && "inet6"@[0] == 'i' && "inet6"@[1] == 'n' && "inet6"@[2] == 'e' && "inet6"@[3] == 't' && "inet6"@[4] == '6',
    {
        broadcast use vstd::string::group_string_axioms;

        reveal_strlit("inet");
        reveal_strlit("inet6");
    }

    proof fn lemma_known_names(v: Self)
        requires
            !(v is UnknownEnumValue),
        ensures
            Self::known(v.name()) == Some(v),
    {
        Self::lemma_name_spelling();
    }

}

/// The network configuration method for IPv4.
#[derive(Clone, Debug)]
pub enum NetworkInterfaceMethod {
    /// loopback.
    Loopback,
    /// dhcp.
    Dhcp,
    /// manual.
    Manual,
    /// static.
    Static,
    /// auto.
    Auto,
    /// Unknown variants for forward compatibility.
    UnknownEnumValue(String),
}

impl PartialEq for NetworkInterfaceMethod {
    fn eq(&self, other: &Self) -> (r: bool) {
        match (self, other) {
            (NetworkInterfaceMethod::Loopback, NetworkInterfaceMethod::Loopback) => true,
            (NetworkInterfaceMethod::Dhcp, NetworkInterfaceMethod::Dhcp) => true,
            (NetworkInterfaceMethod::Manual, NetworkInterfaceMethod::Manual) => true,
            (NetworkInterfaceMethod::Static, NetworkInterfaceMethod::Static) => true,
            (NetworkInterfaceMethod::Auto, NetworkInterfaceMethod::Auto) => true,
            (NetworkInterfaceMethod::UnknownEnumValue(a), NetworkInterfaceMethod::UnknownEnumValue(b)) => *a == *b,
            _ => false,
        }
    }
}

impl PartialEqSpecImpl for NetworkInterfaceMethod {
    open spec fn obeys_eq_spec() -> bool {
        true
    }

    open spec fn eq_spec(&self, other: &Self) -> bool {
        match (self, other) {
            (NetworkInterfaceMethod::UnknownEnumValue(a), NetworkInterfaceMethod::UnknownEnumValue(b)) => a@ == b@,
            _ => *self == *other,
        }
    }
}

impl std::str::FromStr for NetworkInterfaceMethod {
    type Err = core::convert::Infallible;

    fn from_str(s: &str) -> (r: Result<Self, Self::Err>)
        ensures
            r matches Ok(v) && Self::parses_to(s@, v),
    {
        Ok(NetworkInterfaceMethod::from_name(s))
    }
}

impl NetworkInterfaceMethod {
    /// The name under which the API writes this value.
    pub open spec fn name(self) -> Seq<char> {
        match self {
            NetworkInterfaceMethod::Loopback => "loopback"@,
            NetworkInterfaceMethod::Dhcp => "dhcp"@,
            NetworkInterfaceMethod::Manual => "manual"@,
            NetworkInterfaceMethod::Static => "static"@,
            NetworkInterfaceMethod::Auto => "auto"@,
            NetworkInterfaceMethod::UnknownEnumValue(s) => s@,
        }
    }

    /// The known value that the API name `s` stands for, if any.
    pub open spec fn known(s: Seq<char>) -> Option<Self> {
        if s == "loopback"@ {
            Some(NetworkInterfaceMethod::Loopback)
        }         else if s == "dhcp"@ {
            Some(NetworkInterfaceMethod::Dhcp)
        }         else if s == "manual"@ {
            Some(NetworkInterfaceMethod::Manual)
        }         else if s == "static"@ {
            Some(NetworkInterfaceMethod::Static)
        }         else if s == "auto"@ {
            Some(NetworkInterfaceMethod::Auto)
        } else {
            None
        }
    }

    /// `v` is the value that reading the API name `s` gives.
    pub open spec fn parses_to(s: Seq<char>, v: Self) -> bool {
        match Self::known(s) {
            Some(k) => v == k,
            None => v matches NetworkInterfaceMethod::UnknownEnumValue(t) && t@ == s,
        }
    }

    /// The API name of this value.
    pub fn to_string(&self) -> (r: String)
        ensures
            r@ == self.name(),
    {
        match self {
            NetworkInterfaceMethod::Loopback => String::from_str("loopback"),
            NetworkInterfaceMethod::Dhcp => String::from_str("dhcp"),
            NetworkInterfaceMethod::Manual => String::from_str("manual"),
            NetworkInterfaceMethod::Static => String::from_str("static"),
            NetworkInterfaceMethod::Auto => String::from_str("auto"),
            NetworkInterfaceMethod::UnknownEnumValue(s) => s.clone(),
        }
    }

    /// Reads an API name; a name that is not known is kept as an unknown value.
    pub fn from_name(s: &str) -> (r: Self)
        ensures
            Self::parses_to(s@, r),
    {
        if str_eq(s, "loopback") {
            NetworkInterfaceMethod::Loopback
        }         else if str_eq(s, "dhcp") {
            NetworkInterfaceMethod::Dhcp
        }         else if str_eq(s, "manual") {
            NetworkInterfaceMethod::Manual
        }         else if str_eq(s, "static") {
            NetworkInterfaceMethod::Static
        }         else if str_eq(s, "auto") {
            NetworkInterfaceMethod::Auto
        } else {
            NetworkInterfaceMethod::UnknownEnumValue(String::from_str(s))
        }
    }

    /// Each known value goes with the name the API uses for it: `loopback` for `Loopback`, `dhcp` for `Dhcp`, `manual` for `Manual`, and so on for every known value.
    /// `to_string` writes that name and `from_name` reads it as that value.
    pub proof fn lemma_api_names()
        ensures
            NetworkInterfaceMethod::Loopback.name() == "loopback"@,
            Self::parses_to("loopback"@, NetworkInterfaceMethod::Loopback),
            NetworkInterfaceMethod::Dhcp.name() == "dhcp"@,
            Self::parses_to("dhcp"@, NetworkInterfaceMethod::Dhcp),
            NetworkInterfaceMethod::Manual.name() == "manual"@,
            Self::parses_to("manual"@, NetworkInterfaceMethod::Manual),
            NetworkInterfaceMethod::Static.name() == "static"@,
            Self::parses_to("static"@, NetworkInterfaceMethod::Static),
            NetworkInterfaceMethod::Auto.name() == "auto"@,
            Self::parses_to("auto"@, NetworkInterfaceMethod::Auto),
    {
        Self::lemma_to_string_from_name(NetworkInterfaceMethod::Loopback);
        Self::lemma_to_string_from_name(NetworkInterfaceMethod::Dhcp);
        Self::lemma_to_string_from_name(NetworkInterfaceMethod::Manual);
        Self::lemma_to_string_from_name(NetworkInterfaceMethod::Static);
        Self::lemma_to_string_from_name(NetworkInterfaceMethod::Auto);
    }

    /// Writing out a value that was read gives back the name that was read.
    pub proof fn lemma_from_name_to_string(s: Seq<char>, v: Self)
        requires
            Self::parses_to(s, v),
        ensures
            v.name() == s,
    {
    }

    /// Reading the name of a value gives back the value, unless the value is an
    /// unknown one that carries the name of a known one.
    pub proof fn lemma_to_string_from_name(v: Self)
        requires
            v is UnknownEnumValue ==> Self::known(v.name()) is None,
        ensures
            Self::parses_to(v.name(), v),
    {
        if !(v is UnknownEnumValue) {
            Self::lemma_known_names(v);
        }
    }

    /// The spelling of known names, character by character.
    proof fn lemma_name_spelling()
        ensures
            "loopback"@.len() == 8 && "loopback"@[0] == 'l' && "loopback"@[1] == 'o' && "loopback"@[2] == 'o' && "loopback"@[3] == 'p' && "loopback"@[4] == 'b' && "loopback"@[5] == 'a' && "loopback"@[6] == 'c' && "loopback"@[7] == 'k',
            "dhcp"@.len() == 4 && "dhcp"@[0] == 'd' && "dhcp"@[1] == 'h' && "dhcp"@[2] == 'c' && "dhcp"@[3] == 'p',
            "manual"@.len() == 6 && "manual"@[0] == 'm' && "manual"@[1] == 'a' && "manual"@[2] == 'n' && "manual"@[3] == 'u' && "manual"@[4] == 'a' && "manual"@[5] == 'l',
            "static"@.len() == 6 && "static"@[0] == 's' && "static"@[1] == 't' && "static"@[2] == 'a' && "static"@[3] == 't' && "static"@[4] == 'i' && "static"@[5] == 'c',
            "auto"@.len() == 4 && "auto"@[0] == 'a' && "auto"@[1] == 'u' && "auto"@[2] == 't' && "auto"@[3] == 'o',
    {
        broadcast use vstd::string::group_string_axioms;

        reveal_strlit("loopback");
        reveal_strlit("dhcp");
        reveal_strlit("manual");
        reveal_strlit("static");
        reveal_strlit("auto");
    }

    proof fn lemma_known_names(v: Self)
        requires
            !(v is UnknownEnumValue),
        ensures
            Self::known(v.name()) == Some(v),
    {
        Self::lemma_name_spelling();
    }

}

/// Network interface type
#[derive(Clone, Debug)]
pub enum NetworkInterfaceType {
    /// bridge.
    Bridge,
    /// bond.
    Bond,
    /// eth.
    Eth,
    /// alias.
    Alias,
    /// vlan.
    Vlan,
    /// fabric.
    Fabric,
    /// OVSBridge.
    Ovsbridge,
    /// OVSBond.
    Ovsbond,
    /// OVSPort.
    Ovsport,
    /// OVSIntPort.
    OvsintPort,
    /// vnet.
    Vnet,
    /// unknown.
    Unknown,
    /// Unknown variants for forward compatibility.
    UnknownEnumValue(String),
}

impl PartialEq for NetworkInterfaceType {
    fn eq(&self, other: &Self) -> (r: bool) {
        match (self, other) {
            (NetworkInterfaceType::Bridge, NetworkInterfaceType::Bridge) => true,
            (NetworkInterfaceType::Bond, NetworkInterfaceType::Bond) => true,
            (NetworkInterfaceType::Eth, NetworkInterfaceType::Eth) => true,
            (NetworkInterfaceType::Alias, NetworkInterfaceType::Alias) => true,
            (NetworkInterfaceType::Vlan, NetworkInterfaceType::Vlan) => true,
            (NetworkInterfaceType::Fabric, NetworkInterfaceType::Fabric) => true,
            (NetworkInterfaceType::Ovsbridge, NetworkInterfaceType::Ovsbridge) => true,
            (NetworkInterfaceType::Ovsbond, NetworkInterfaceType::Ovsbond) => true,
            (NetworkInterfaceType::Ovsport, NetworkInterfaceType::Ovsport) => true,
            (NetworkInterfaceType::OvsintPort, NetworkInterfaceType::OvsintPort) => true,
            (NetworkInterfaceType::Vnet, NetworkInterfaceType::Vnet) => true,
            (NetworkInterfaceType::Unknown, NetworkInterfaceType::Unknown) => true,
            (NetworkInterfaceType::UnknownEnumValue(a), NetworkInterfaceType::UnknownEnumValue(b)) => *a == *b,
            _ => false,
        }
    }
}

impl PartialEqSpecImpl for NetworkInterfaceType {
    open spec fn obeys_eq_spec() -> bool {
        true
    }

    open spec fn eq_spec(&self, other: &Self) -> bool {
        match (self, other) {
            (NetworkInterfaceType::UnknownEnumValue(a), NetworkInterfaceType::UnknownEnumValue(b)) => a@ == b@,
            _ => *self == *other,
        }
    }
}

impl std::str::FromStr for NetworkInterfaceType {
    type Err = core::convert::Infallible;

    fn from_str(s: &str) -> (r: Result<Self, Self::Err>)
        ensures
            r matches Ok(v) && Self::parses_to(s@, v),
    {
        Ok(NetworkInterfaceType::from_name(s))
    }
}

impl NetworkInterfaceType {
    /// The name under which the API writes this value.
    pub open spec fn name(self) -> Seq<char> {
        match self {
            NetworkInterfaceType::Bridge => "bridge"@,
            NetworkInterfaceType::Bond => "bond"@,
            NetworkInterfaceType::Eth => "eth"@,
            NetworkInterfaceType::Alias => "alias"@,
            NetworkInterfaceType::Vlan => "vlan"@,
            NetworkInterfaceType::Fabric => "fabric"@,
            NetworkInterfaceType::Ovsbridge => "OVSBridge"@,
            NetworkInterfaceType::Ovsbond => "OVSBond"@,
            NetworkInterfaceType::Ovsport => "OVSPort"@,
            NetworkInterfaceType::OvsintPort => "OVSIntPort"@,
            NetworkInterfaceType::Vnet => "vnet"@,
            NetworkInterfaceType::Unknown => "unknown"@,
            NetworkInterfaceType::UnknownEnumValue(s) => s@,
        }
    }

    /// The known value that the API name `s` stands for, if any.
    pub open spec fn known(s: Seq<char>) -> Option<Self> {
        if s == "bridge"@ {
            Some(NetworkInterfaceType::Bridge)
        }         else if s == "bond"@ {
            Some(NetworkInterfaceType::Bond)
        }         else if s == "eth"@ {
            Some(NetworkInterfaceType::Eth)
        }         else if s == "alias"@ {
            Some(NetworkInterfaceType::Alias)
        }         else if s == "vlan"@ {
            Some(NetworkInterfaceType::Vlan)
        }         else if s == "fabric"@ {
            Some(NetworkInterfaceType::Fabric)
        }         else if s == "OVSBridge"@ {
            Some(NetworkInterfaceType::Ovsbridge)
        }         else if s == "OVSBond"@ {
            Some(NetworkInterfaceType::Ovsbond)
        }         else if s == "OVSPort"@ {
            Some(NetworkInterfaceType::Ovsport)
        }         else if s == "OVSIntPort"@ {
            Some(NetworkInterfaceType::OvsintPort)
        }         else if s == "vnet"@ {
            Some(NetworkInterfaceType::Vnet)
        }         else if s == "unknown"@ {
            Some(NetworkInterfaceType::Unknown)
        } else {
            None
        }
    }

    /// `v` is the value that reading the API name `s` gives.
    pub open spec fn parses_to(s: Seq<char>, v: Self) -> bool {
        match Self::known(s) {
            Some(k) => v == k,
            None => v matches NetworkInterfaceType::UnknownEnumValue(t) && t@ == s,
        }
    }

    /// The API name of this value.
    pub fn to_string(&self) -> (r: String)
        ensures
            r@ == self.name(),
    {
        match self {
            NetworkInterfaceType::Bridge => String::from_str("bridge"),
            NetworkInterfaceType::Bond => String::from_str("bond"),
            NetworkInterfaceType::Eth => String::from_str("eth"),
            NetworkInterfaceType::Alias => String::from_str("alias"),
            NetworkInterfaceType::Vlan => String::from_str("vlan"),
            NetworkInterfaceType::Fabric => String::from_str("fabric"),
            NetworkInterfaceType::Ovsbridge => String::from_str("OVSBridge"),
            NetworkInterfaceType::Ovsbond => String::from_str("OVSBond"),
            NetworkInterfaceType::Ovsport => String::from_str("OVSPort"),
            NetworkInterfaceType::OvsintPort => String::from_str("OVSIntPort"),
            NetworkInterfaceType::Vnet => String::from_str("vnet"),
            NetworkInterfaceType::Unknown => String::from_str("unknown"),
            NetworkInterfaceType::UnknownEnumValue(s) => s.clone(),
        }
    }

    /// Reads an API name; a name that is not known is kept as an unknown value.
    pub fn from_name(s: &str) -> (r: Self)
        ensures
            Self::parses_to(s@, r),
    {
        if str_eq(s, "bridge") {
            NetworkInterfaceType::Bridge
        }         else if str_eq(s, "bond") {
            NetworkInterfaceType::Bond
        }         else if str_eq(s, "eth") {
            NetworkInterfaceType::Eth
        }         else if str_eq(s, "alias") {
            NetworkInterfaceType::Alias
        }         else if str_eq(s, "vlan") {
            NetworkInterfaceType::Vlan
        }         else if str_eq(s, "fabric") {
            NetworkInterfaceType::Fabric
        }         else if str_eq(s, "OVSBridge") {
            NetworkInterfaceType::Ovsbridge
        }         else if str_eq(s, "OVSBond") {
            NetworkInterfaceType::Ovsbond
        }         else if str_eq(s, "OVSPort") {
            NetworkInterfaceType::Ovsport
        }         else if str_eq(s, "OVSIntPort") {
            NetworkInterfaceType::OvsintPort
        }         else if str_eq(s, "vnet") {
            NetworkInterfaceType::Vnet
        }         else if str_eq(s, "unknown") {
            NetworkInterfaceType::Unknown
        } else {
            NetworkInterfaceType::UnknownEnumValue(String::from_str(s))
        }
    }

    /// Each known value goes with the name the API uses for it: `bridge` for `Bridge`, `bond` for `Bond`, `eth` for `Eth`, and so on for every known value.
    /// `to_string` writes that name and `from_name` reads it as that value.
    pub proof fn lemma_api_names()
        ensures
            NetworkInterfaceType::Bridge.name() == "bridge"@,
            Self::parses_to("bridge"@, NetworkInterfaceType::Bridge),
            NetworkInterfaceType::Bond.name() == "bond"@,
            Self::parses_to("bond"@, NetworkInterfaceType::Bond),
            NetworkInterfaceType::Eth.name() == "eth"@,
            Self::parses_to("eth"@, NetworkInterfaceType::Eth),
            NetworkInterfaceType::Alias.name() == "alias"@,
            Self::parses_to("alias"@, NetworkInterfaceType::Alias),
            NetworkInterfaceType::Vlan.name() == "vlan"@,
            Self::parses_to("vlan"@, NetworkInterfaceType::Vlan),
            NetworkInterfaceType::Fabric.name() == "fabric"@,
            Self::parses_to("fabric"@, NetworkInterfaceType::Fabric),
            NetworkInterfaceType::Ovsbridge.name() == "OVSBridge"@,
            Self::parses_to("OVSBridge"@, NetworkInterfaceType::Ovsbridge),
            NetworkInterfaceType::Ovsbond.name() == "OVSBond"@,
            Self::parses_to("OVSBond"@, NetworkInterfaceType::Ovsbond),
            NetworkInterfaceType::Ovsport.name() == "OVSPort"@,
            Self::parses_to("OVSPort"@, NetworkInterfaceType::Ovsport),
            NetworkInterfaceType::OvsintPort.name() == "OVSIntPort"@,
            Self::parses_to("OVSIntPort"@, NetworkInterfaceType::OvsintPort),
            NetworkInterfaceType::Vnet.name() == "vnet"@,
            Self::parses_to("vnet"@, NetworkInterfaceType::Vnet),
            NetworkInterfaceType::Unknown.name() == "unknown"@,
            Self::parses_to("unknown"@, NetworkInterfaceType::Unknown),
    {
        Self::lemma_to_string_from_name(NetworkInterfaceType::Bridge);
        Self::lemma_to_string_from_name(NetworkInterfaceType::Bond);
        Self::lemma_to_string_from_name(NetworkInterfaceType::Eth);
        Self::lemma_to_string_from_name(NetworkInterfaceType::Alias);
        Self::lemma_to_string_from_name(NetworkInterfaceType::Vlan);
        Self::lemma_to_string_from_name(NetworkInterfaceType::Fabric);
        Self::lemma_to_string_from_name(NetworkInterfaceType::Ovsbridge);
        Self::lemma_to_string_from_name(NetworkInterfaceType::Ovsbond);
        Self::lemma_to_string_from_name(NetworkInterfaceType::Ovsport);
        Self::lemma_to_string_from_name(NetworkInterfaceType::OvsintPort);
        Self::lemma_to_string_from_name(NetworkInterfaceType::Vnet);
        Self::lemma_to_string_from_name(NetworkInterfaceType::Unknown);
    }

    /// Writing out a value that was read gives back the name that was read.
    pub proof fn lemma_from_name_to_string(s: Seq<char>, v: Self)
        requires
            Self::parses_to(s, v),
        ensures
            v.name() == s,
    {
    }

    /// Reading the name of a value gives back the value, unless the value is an
    /// unknown one that carries the name of a known one.
    pub proof fn lemma_to_string_from_name(v: Self)
        requires
            v is UnknownEnumValue ==> Self::known(v.name()) is None,
        ensures
            Self::parses_to(v.name(), v),
    {
        if !(v is UnknownEnumValue) {
            Self::lemma_known_names(v);
        }
    }

    /// The spelling of known names, character by character.
    proof fn lemma_name_spelling()
        ensures
            "bridge"@.len() == 6 && "bridge"@[0] == 'b' && "bridge"@[1] == 'r' && "bridge"@[2] == 'i' && "bridge"@[3] == 'd' && "bridge"@[4] == 'g' && "bridge"@[5] == 'e',
            "bond"@.len() == 4 && "bond"@[0] == 'b' && "bond"@[1] == 'o' && "bond"@[2] == 'n' && "bond"@[3] == 'd',
            "eth"@.len() == 3 && "eth"@[0] == 'e' && "eth"@[1] == 't' && "eth"@[2] == 'h',
            "alias"@.len() == 5 && "alias"@[0] == 'a' && "alias"@[1] == 'l' && "alias"@[2] == 'i' && "alias"@[3] == 'a' && "alias"@[4] == 's',
            "vlan"@.len() == 4 && "vlan"@[0] == 'v' && "vlan"@[1] == 'l' && "vlan"@[2] == 'a' && "vlan"@[3] == 'n',
            "fabric"@.len() == 6 && "fabric"@[0] == 'f' && "fabric"@[1] == 'a' && "fabric"@[2] == 'b' && "fabric"@[3] == 'r' && "fabric"@[4] == 'i' && "fabric"@[5] == 'c',
            "OVSBridge"@.len() == 9 && "OVSBridge"@[0] == 'O' && "OVSBridge"@[1] == 'V' && "OVSBridge"@[2] == 'S' && "OVSBridge"@[3] == 'B' && "OVSBridge"@[4] == 'r' && "OVSBridge"@[5] == 'i' && "OVSBridge"@[6] == 'd' && "OVSBridge"@[7] == 'g' && "OVSBridge"@[8] == 'e',
            "OVSBond"@.len() == 7 && "OVSBond"@[0] == 'O' && "OVSBond"@[1] == 'V' && "OVSBond"@[2] == 'S' && "OVSBond"@[3] == 'B' && "OVSBond"@[4] == 'o' && "OVSBond"@[5] == 'n' && "OVSBond"@[6] == 'd',
            "OVSPort"@.len() == 7 && "OVSPort"@[0] == 'O' && "OVSPort"@[1] == 'V' && "OVSPort"@[2] == 'S' && "OVSPort"@[3] == 'P' && "OVSPort"@[4] == 'o' && "OVSPort"@[5] == 'r' && "OVSPort"@[6] == 't',
            "OVSIntPort"@.len() == 10 && "OVSIntPort"@[0] == 'O' && "OVSIntPort"@[1] == 'V' && "OVSIntPort"@[2] == 'S' && "OVSIntPort"@[3] == 'I' && "OVSIntPort"@[4] == 'n' && "OVSIntPort"@[5] == 't' && "OVSIntPort"@[6] == 'P' && "OVSIntPort"@[7] == 'o' && "OVSIntPort"@[8] == 'r' && "OVSIntPort"@[9] == 't',
            "vnet"@.len() == 4 && "vnet"@[0] == 'v' && "vnet"@[1] == 'n' && "vnet"@[2] == 'e' && "vnet"@[3] == 't',
            "unknown"@.len() == 7 && "unknown"@[0] == 'u' && "unknown"@[1] == 'n' && "unknown"@[2] == 'k' && "unknown"@[3] == 'n' && "unknown"@[4] == 'o' && "unknown"@[5] == 'w' && "unknown"@[6] == 'n',
    {
        broadcast use vstd::string::group_string_axioms;

        reveal_strlit("bridge");
        reveal_strlit("bond");
        reveal_strlit("eth");
        reveal_strlit("alias");
        reveal_strlit("vlan");
        reveal_strlit("fabric");
        reveal_strlit("OVSBridge");
        reveal_strlit("OVSBond");
        reveal_strlit("OVSPort");
        reveal_strlit("OVSIntPort");
        reveal_strlit("vnet");
        reveal_strlit("unknown");
    }

    proof fn lemma_known_names(v: Self)
        requires
            !(v is UnknownEnumValue),
        ensures
            Self::known(v.name()) == Some(v),
    {
        Self::lemma_name_spelling();
    }

}

/// The VLAN protocol.
#[derive(Clone, Debug)]
pub enum NetworkInterfaceVlanProtocol {
    /// 802.1ad.
    Ieee802_1ad,
    /// 802.1q.
    Ieee802_1q,
    /// Unknown variants for forward compatibility.
    UnknownEnumValue(String),
}

impl PartialEq for NetworkInterfaceVlanProtocol {
    fn eq(&self, other: &Self) -> (r: bool) {
        match (self, other) {
            (NetworkInterfaceVlanProtocol::Ieee802_1ad, NetworkInterfaceVlanProtocol::Ieee802_1ad) => true,
            (NetworkInterfaceVlanProtocol::Ieee802_1q, NetworkInterfaceVlanProtocol::Ieee802_1q) => true,
            (NetworkInterfaceVlanProtocol::UnknownEnumValue(a), NetworkInterfaceVlanProtocol::UnknownEnumValue(b)) => *a == *b,
            _ => false,
        }
    }
}

impl PartialEqSpecImpl for NetworkInterfaceVlanProtocol {
    open spec fn obeys_eq_spec() -> bool {
        true
    }

    open spec fn eq_spec(&self, other: &Self) -> bool {
        match (self, other) {
            (NetworkInterfaceVlanProtocol::UnknownEnumValue(a), NetworkInterfaceVlanProtocol::UnknownEnumValue(b)) => a@ == b@,
            _ => *self == *other,
        }
    }
}

impl std::str::FromStr for NetworkInterfaceVlanProtocol {
    type Err = core::convert::Infallible;

    fn from_str(s: &str) -> (r: Result<Self, Self::Err>)
        ensures
            r matches Ok(v) && Self::parses_to(s@, v),
    {
        Ok(NetworkInterfaceVlanProtocol::from_name(s))
    }
}

impl NetworkInterfaceVlanProtocol {
    /// The name under which the API writes this value.
    pub open spec fn name(self) -> Seq<char> {
        match self {
            NetworkInterfaceVlanProtocol::Ieee802_1ad => "802.1ad"@,
            NetworkInterfaceVlanProtocol::Ieee802_1q => "802.1q"@,
            NetworkInterfaceVlanProtocol::UnknownEnumValue(s) => s@,
        }
    }

    /// The known value that the API name `s` stands for, if any.
    pub open spec fn known(s: Seq<char>) -> Option<Self> {
        if s == "802.1ad"@ {
            Some(NetworkInterfaceVlanProtocol::Ieee802_1ad)
        }         else if s == "802.1q"@ {
            Some(NetworkInterfaceVlanProtocol::Ieee802_1q)
        } else {
            None
        }
    }

    /// `v` is the value that reading the API name `s` gives.
    pub open spec fn parses_to(s: Seq<char>, v: Self) -> bool {
        match Self::known(s) {
            Some(k) => v == k,
            None => v matches NetworkInterfaceVlanProtocol::UnknownEnumValue(t) && t@ == s,
        }
    }

    /// The API name of this value.
    pub fn to_string(&self) -> (r: String)
        ensures
            r@ == self.name(),
    {
        match self {
            NetworkInterfaceVlanProtocol::Ieee802_1ad => String::from_str("802.1ad"),
            NetworkInterfaceVlanProtocol::Ieee802_1q => String::from_str("802.1q"),
            NetworkInterfaceVlanProtocol::UnknownEnumValue(s) => s.clone(),
        }
    }

    /// Reads an API name; a name that is not known is kept as an unknown value.
    pub fn from_name(s: &str) -> (r: Self)
        ensures
            Self::parses_to(s@, r),
    {
        if str_eq(s, "802.1ad") {
            NetworkInterfaceVlanProtocol::Ieee802_1ad
        }         else if str_eq(s, "802.1q") {
            NetworkInterfaceVlanProtocol::Ieee802_1q
        } else {
            NetworkInterfaceVlanProtocol::UnknownEnumValue(String::from_str(s))
        }
    }

    /// Each known value goes with the name the API uses for it: `802.1ad` for `Ieee802_1ad`, `802.1q` for `Ieee802_1q`.
    /// `to_string` writes that name and `from_name` reads it as that value.
    pub proof fn lemma_api_names()
        ensures
            NetworkInterfaceVlanProtocol::Ieee802_1ad.name() == "802.1ad"@,
            Self::parses_to("802.1ad"@, NetworkInterfaceVlanProtocol::Ieee802_1ad),
            NetworkInterfaceVlanProtocol::Ieee802_1q.name() == "802.1q"@,
            Self::parses_to("802.1q"@, NetworkInterfaceVlanProtocol::Ieee802_1q),
    {
        Self::lemma_to_string_from_name(NetworkInterfaceVlanProtocol::Ieee802_1ad);
        Self::lemma_to_string_from_name(NetworkInterfaceVlanProtocol::Ieee802_1q);
    }

    /// Writing out a value that was read gives back the name that was read.
    pub proof fn lemma_from_name_to_string(s: Seq<char>, v: Self)
        requires
            Self::parses_to(s, v),
        ensures
            v.name() == s,
    {
    }

    /// Reading the name of a value gives back the value, unless the value is an
    /// unknown one that carries the name of a known one.
    pub proof fn lemma_to_string_from_name(v: Self)
        requires
            v is UnknownEnumValue ==> Self::known(v.name()) is None,
        ensures
            Self::parses_to(v.name(), v),
    {
        if !(v is UnknownEnumValue) {
            Self::lemma_known_names(v);
        }
    }

    /// The spelling of known names, character by character.
    proof fn lemma_name_spelling()
        ensures
            "802.1ad"@.len() == 7 && "802.1ad"@[0] == '8' && "802.1ad"@[1] == '0' && "802.1ad"@[2] == '2' && "802.1ad"@[3] == '.' && "802.1ad"@[4] == '1' && "802.1ad"@[5] == 'a' && "802.1ad"@[6] == 'd',
            "802.1q"@.len() == 6 && "802.1q"@[0] == '8' && "802.1q"@[1] == '0' && "802.1q"@[2] == '2' && "802.1q"@[3] == '.' && "802.1q"@[4] == '1' && "802.1q"@[5] == 'q',
    {
        broadcast use vstd::string::group_string_axioms;

        reveal_strlit("802.1ad");
        reveal_strlit("802.1q");
    }

    proof fn lemma_known_names(v: Self)
        requires
            !(v is UnknownEnumValue),
        ensures
            Self::known(v.name()) == Some(v),
    {
        Self::lemma_name_spelling();
    }

}

} // verus!
