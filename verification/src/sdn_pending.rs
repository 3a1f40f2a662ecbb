//! Reading SDN objects together with their pending changes: a value in the
//! pending part wins over the value that is in effect.
use vstd::prelude::*;

use crate::sdn::{SdnController, SdnVnet};

verus! {

impl SdnVnet {
    /// The tag once pending changes are applied.
    pub open spec fn spec_tag_pending(self) -> Option<u32> {
        match self.pending {
            Some(p) if p.tag is Some => p.tag,
            _ => self.tag,
        }
    }

    /// The zone once pending changes are applied.
    pub open spec fn spec_zone_pending(self) -> Option<Seq<char>> {
        match self.pending {
            Some(p) if p.zone is Some => Some(p.zone.unwrap()@),
            _ => match self.zone {
                Some(z) => Some(z@),
                None => None,
            },
        }
    }

    /// Returns the tag from the pending property if it has a value, otherwise
    /// it returns `self.tag`.
    pub fn tag_pending(&self) -> (r: Option<u32>)
        ensures
            r == self.spec_tag_pending(),
            (self.pending is Some && self.pending.unwrap().tag is Some) ==> r
                == self.pending.unwrap().tag,
            !(self.pending is Some && self.pending.unwrap().tag is Some) ==> r == self.tag,
    {
        match &self.pending {
            Some(pending) if pending.tag.is_some() => pending.tag,
            _ => self.tag,
        }
    }

    /// Returns the zone from the pending property if it has a value, otherwise
    /// it returns `self.zone`; one of the two must be set.
    pub fn zone_pending(&self) -> (r: String)
        requires
            self.spec_zone_pending() is Some,
        ensures
            Some(r@) == self.spec_zone_pending(),
            (self.pending is Some && self.pending.unwrap().zone is Some) ==> r@
                == self.pending.unwrap().zone.unwrap()@,
            !(self.pending is Some && self.pending.unwrap().zone is Some) ==> self.zone is Some
                && r@ == self.zone.unwrap()@,
    {
        match &self.pending {
            Some(pending) if pending.zone.is_some() => {
                let z = pending.zone.as_ref().unwrap();
                z.clone()
            },
            _ => {
                let z = self.zone.as_ref().unwrap();
                z.clone()
            },
        }
    }
}

impl SdnController {
    /// The ASN once pending changes are applied.
    pub open spec fn spec_asn_pending(self) -> Option<u32> {
        match self.pending {
            Some(p) if p.asn is Some => p.asn,
            _ => self.asn,
        }
    }

    /// Returns the ASN from the pending property if it has a value, otherwise
    /// it returns `self.asn`.
    pub fn asn_pending(&self) -> (r: Option<u32>)
        ensures
            r == self.spec_asn_pending(),
            (self.pending is Some && self.pending.unwrap().asn is Some) ==> r
                == self.pending.unwrap().asn,
            !(self.pending is Some && self.pending.unwrap().asn is Some) ==> r == self.asn,
    {
        match &self.pending {
            Some(pending) if pending.asn.is_some() => pending.asn,
            _ => self.asn,
        }
    }
}

/// A pending tag wins: when the pending part holds a tag, that tag is the
/// result whatever the tag in effect is; without one the tag in effect is the
/// result, set or not.
pub proof fn lemma_vnet_pending_tag_wins(v: SdnVnet)
    ensures
        forall|t: u32| (v.pending is Some && v.pending.unwrap().tag == Some(t)) ==> v.spec_tag_pending()
            == Some(t),
        (v.pending is None || v.pending.unwrap().tag is None) ==> v.spec_tag_pending() == v.tag,
        v.spec_tag_pending() is None <==> v.tag is None && (v.pending is None
            || v.pending.unwrap().tag is None),
{
}

/// A pending zone wins: when the pending part holds a zone, that zone is the
/// result whatever the zone in effect is; without one the zone in effect is
/// the result.
pub proof fn lemma_vnet_pending_zone_wins(v: SdnVnet)
    ensures
        (v.pending is Some && v.pending.unwrap().zone is Some) ==> v.spec_zone_pending() == Some(
            v.pending.unwrap().zone.unwrap()@,
        ),
        (v.pending is None || v.pending.unwrap().zone is None) ==> v.spec_zone_pending()
            == match v.zone {
            Some(z) => Some(z@),
            None => None,
        },
{
}

/// A pending ASN wins: when the pending part holds an ASN, that ASN is the
/// result whatever the ASN in effect is; without one the ASN in effect is the
/// result, set or not.
pub proof fn lemma_controller_pending_asn_wins(c: SdnController)
    ensures
        forall|a: u32| (c.pending is Some && c.pending.unwrap().asn == Some(a)) ==> c.spec_asn_pending()
            == Some(a),
        (c.pending is None || c.pending.unwrap().asn is None) ==> c.spec_asn_pending() == c.asn,
        c.spec_asn_pending() is None <==> c.asn is None && (c.pending is None
            || c.pending.unwrap().asn is None),
{
}

} // verus!
