use pve_api_types::sdn::{
    ListControllersType, SdnController, SdnControllerPending, SdnVnet, SdnVnetPending, SdnVnetType,
};

fn vnet(tag: Option<u32>, zone: Option<&str>, pending: Option<SdnVnetPending>) -> SdnVnet {
    SdnVnet {
        alias: None,
        digest: None,
        isolate_ports: None,
        pending,
        state: None,
        tag,
        ty: SdnVnetType::Vnet,
        vlanaware: None,
        vnet: "vnet0".to_string(),
        zone: zone.map(|z| z.to_string()),
    }
}

fn vnet_pending(tag: Option<u32>, zone: Option<&str>) -> SdnVnetPending {
    SdnVnetPending {
        alias: None,
        isolate_ports: None,
        tag,
        vlanaware: None,
        zone: zone.map(|z| z.to_string()),
    }
}

fn controller(asn: Option<u32>, pending_asn: Option<Option<u32>>) -> SdnController {
    SdnController {
        asn,
        bgp_multipath_as_relax: None,
        controller: "evpn1".to_string(),
        digest: None,
        ebgp: None,
        ebgp_multihop: None,
        isis_domain: None,
        isis_ifaces: None,
        isis_net: None,
        loopback: None,
        node: None,
        peers: None,
        pending: pending_asn.map(|asn| SdnControllerPending {
            asn,
            bgp_multipath_as_relax: None,
            ebgp: None,
            ebgp_multihop: None,
            isis_domain: None,
            isis_ifaces: None,
            isis_net: None,
            loopback: None,
            node: None,
            peers: None,
        }),
        state: None,
        ty: ListControllersType::Evpn,
    }
}

#[test]
fn tag_pending_prefers_pending_value() {
    let v = vnet(Some(10), Some("z1"), Some(vnet_pending(Some(20), None)));
    assert_eq!(v.tag_pending(), Some(20));
}

#[test]
fn tag_pending_falls_back_to_current_value() {
    let v = vnet(Some(10), Some("z1"), Some(vnet_pending(None, None)));
    assert_eq!(v.tag_pending(), Some(10));
    let v = vnet(Some(11), Some("z1"), None);
    assert_eq!(v.tag_pending(), Some(11));
    let v = vnet(None, Some("z1"), None);
    assert_eq!(v.tag_pending(), None);
}

#[test]
fn zone_pending_prefers_pending_value() {
    let v = vnet(None, Some("current"), Some(vnet_pending(None, Some("next"))));
    assert_eq!(v.zone_pending(), "next");
}

#[test]
fn zone_pending_falls_back_to_current_value() {
    let v = vnet(None, Some("current"), Some(vnet_pending(Some(3), None)));
    assert_eq!(v.zone_pending(), "current");
    let v = vnet(None, None, Some(vnet_pending(None, Some("only-pending"))));
    assert_eq!(v.zone_pending(), "only-pending");
}

#[test]
fn asn_pending_prefers_pending_value() {
    assert_eq!(controller(Some(65000), Some(Some(65001))).asn_pending(), Some(65001));
    assert_eq!(controller(Some(65000), Some(None)).asn_pending(), Some(65000));
    assert_eq!(controller(Some(65000), None).asn_pending(), Some(65000));
    assert_eq!(controller(None, None).asn_pending(), None);
}
