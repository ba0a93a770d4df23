use bong::net::{CId, CidSpec, NetComp, NetCompMsg, NetDirection, NetEntity};
use bong::MultiplayerType;

#[test]
fn all_matches_every_peer() {
    let ids: [CId; 5] = [0, 1, 2, u32::MAX, 77];
    for cid in ids {
        assert!(CidSpec::All.matches(cid));
    }
}

#[test]
fn only_matches_exactly_one_peer() {
    assert!(CidSpec::Only(4).matches(4));
    assert!(!CidSpec::Only(4).matches(5));
    assert!(!CidSpec::Only(4).matches(0));
    assert!(CidSpec::Only(0).matches(0));
}

#[test]
fn except_matches_everyone_but_one_peer() {
    assert!(!CidSpec::Except(4).matches(4));
    assert!(CidSpec::Except(4).matches(5));
    assert!(CidSpec::Except(4).matches(0));
    assert!(CidSpec::Except(0).matches(u32::MAX));
}

#[test]
fn overlaps_is_shared_peer_existence() {
    assert!(CidSpec::All.overlaps(&CidSpec::All));
    assert!(CidSpec::All.overlaps(&CidSpec::Only(3)));
    assert!(CidSpec::All.overlaps(&CidSpec::Except(3)));
    assert!(CidSpec::Only(3).overlaps(&CidSpec::Only(3)));
    assert!(!CidSpec::Only(3).overlaps(&CidSpec::Only(4)));
    assert!(CidSpec::Only(3).overlaps(&CidSpec::Except(4)));
    assert!(!CidSpec::Only(3).overlaps(&CidSpec::Except(3)));
    assert!(!CidSpec::Except(3).overlaps(&CidSpec::Only(3)));
    assert!(CidSpec::Except(0).overlaps(&CidSpec::Except(1)));
}

#[test]
fn tofrom_valid_only_on_server_capable_peers() {
    let d = NetDirection::ToFrom(CidSpec::Except(2), CidSpec::Only(2));
    assert!(d.valid_on(&MultiplayerType::Server));
    assert!(d.valid_on(&MultiplayerType::Host));
    assert!(!d.valid_on(&MultiplayerType::Client));
}

#[test]
fn tofrom_with_overlapping_specs_is_invalid_everywhere() {
    let d = NetDirection::ToFrom(CidSpec::All, CidSpec::Only(2));
    assert!(!d.valid_on(&MultiplayerType::Server));
    assert!(!d.valid_on(&MultiplayerType::Host));
    assert!(!d.valid_on(&MultiplayerType::Client));
}

#[test]
fn to_and_from_are_valid_everywhere() {
    let to = NetDirection::To(CidSpec::All);
    let from = NetDirection::From(CidSpec::Only(1));
    for mpt in [MultiplayerType::Server, MultiplayerType::Host, MultiplayerType::Client] {
        assert!(to.valid_on(&mpt));
        assert!(from.valid_on(&mpt));
    }
}

#[test]
fn roles() {
    assert!(MultiplayerType::Server.is_server());
    assert!(!MultiplayerType::Server.is_client());
    assert!(MultiplayerType::Host.is_server());
    assert!(MultiplayerType::Host.is_client());
    assert!(!MultiplayerType::Client.is_server());
    assert!(MultiplayerType::Client.is_client());
}

#[test]
fn net_entity_and_envelope_carry_their_fields() {
    let e = NetEntity::new(5768696975200910899);
    assert_eq!(e.id, 5768696975200910899);
    let m = NetCompMsg::new(42, 7u32);
    assert_eq!(m.id, 42);
    assert_eq!(m.msg, 7);
}

#[test]
fn default_directive_follows_everyone() {
    let c: NetComp = Default::default();
    assert_eq!(c.dir, NetDirection::From(CidSpec::All));
    let c2 = NetComp::new(NetDirection::To(CidSpec::Except(9)));
    assert_eq!(c2.dir, NetDirection::To(CidSpec::Except(9)));
}
