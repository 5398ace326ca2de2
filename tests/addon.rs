use nexus::addon::{AddonFlags, AddonVersion, UpdateProvider};

#[test]
fn provider_raw_values() {
    assert_eq!(UpdateProvider::NoUpdate.to_raw(), 0);
    assert_eq!(UpdateProvider::Raidcore.to_raw(), 1);
    assert_eq!(UpdateProvider::GitHub.to_raw(), 2);
    assert_eq!(UpdateProvider::Direct.to_raw(), 3);
    assert_eq!(UpdateProvider::Manual.to_raw(), 4);
}

#[test]
fn provider_from_raw_round_trip() {
    for p in [
        UpdateProvider::NoUpdate,
        UpdateProvider::Raidcore,
        UpdateProvider::GitHub,
        UpdateProvider::Direct,
        UpdateProvider::Manual,
    ] {
        assert_eq!(UpdateProvider::from_raw(p.to_raw()), Some(p));
    }
}

#[test]
fn provider_from_raw_rejects_unknown() {
    assert_eq!(UpdateProvider::from_raw(5), None);
    assert_eq!(UpdateProvider::from_raw(-1), None);
    assert_eq!(UpdateProvider::from_raw(i32::MAX), None);
}

#[test]
fn version_orders_by_components() {
    let a = AddonVersion { major: 1, minor: 2, build: 3, revision: 4 };
    let b = AddonVersion { major: 1, minor: 3, build: 0, revision: 0 };
    let c = AddonVersion { major: 0, minor: 9, build: 9, revision: 9 };
    assert!(a < b);
    assert!(c < a);
    assert_eq!(a, AddonVersion { major: 1, minor: 2, build: 3, revision: 4 });
}

#[test]
fn flags_named_bits() {
    assert_eq!(AddonFlags::empty().bits(), 0);
    assert_eq!(AddonFlags::all().bits(), 7);
    assert_eq!(AddonFlags::IS_VOLATILE, 1);
    assert_eq!(AddonFlags::DISABLE_HOTLOADING, 2);
    assert_eq!(AddonFlags::ONLY_LOAD_DURING_GAME_LAUNCH_SEQUENCE, 4);
    assert!(AddonFlags::empty().is_empty());
    assert!(AddonFlags::all().is_all());
    assert!(!AddonFlags::from_bits_retain(3).is_all());
    assert!(AddonFlags::from_bits_retain(0xff).is_all());
}

#[test]
fn flags_from_bits() {
    assert_eq!(AddonFlags::from_bits(5).map(|f| f.bits()), Some(5));
    assert_eq!(AddonFlags::from_bits(0).map(|f| f.bits()), Some(0));
    assert!(AddonFlags::from_bits(8).is_none());
    assert!(AddonFlags::from_bits(u32::MAX).is_none());
    assert_eq!(AddonFlags::from_bits_truncate(0xf9).bits(), 1);
    assert_eq!(AddonFlags::from_bits_retain(0xf9).bits(), 0xf9);
}

#[test]
fn flags_set_operations() {
    let volatile = AddonFlags::from_bits_retain(AddonFlags::IS_VOLATILE);
    let hot = AddonFlags::from_bits_retain(AddonFlags::DISABLE_HOTLOADING);
    let both = volatile.union(hot);
    assert_eq!(both.bits(), 3);
    assert!(both.contains(volatile));
    assert!(!volatile.contains(both));
    assert!(both.intersects(hot));
    assert!(!volatile.intersects(hot));
    assert_eq!(both.intersection(hot).bits(), 2);
    assert_eq!(both.difference(hot).bits(), 1);
    assert_eq!(both.symmetric_difference(AddonFlags::all()).bits(), 4);
    assert_eq!(volatile.complement().bits(), 6);
}

#[test]
fn flags_in_place_updates() {
    let mut f = AddonFlags::empty();
    f.insert(AddonFlags::from_bits_retain(AddonFlags::DISABLE_HOTLOADING));
    assert_eq!(f.bits(), 2);
    f.set(AddonFlags::from_bits_retain(AddonFlags::IS_VOLATILE), true);
    assert_eq!(f.bits(), 3);
    f.remove(AddonFlags::from_bits_retain(AddonFlags::DISABLE_HOTLOADING));
    assert_eq!(f.bits(), 1);
    f.toggle(AddonFlags::all());
    assert_eq!(f.bits(), 6);
    f.set(AddonFlags::from_bits_retain(AddonFlags::ONLY_LOAD_DURING_GAME_LAUNCH_SEQUENCE), false);
    assert_eq!(f.bits(), 2);
}
