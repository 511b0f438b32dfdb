use attestation_server::features::{
    enabled_features, feature_names, features_from_list, features_from_names,
    format_guest_features, GuestFeature, GuestFeatureSet, KNOWN_FEATURE_MASK,
};

#[test]
fn empty_mask_renders_none() {
    assert_eq!(format_guest_features(&GuestFeatureSet { bits: 0 }), "None");
}

#[test]
fn reserved_bits_only_render_none() {
    let set = GuestFeatureSet { bits: (1u64 << 11) | (1u64 << 13) | (1u64 << 40) };
    assert_eq!(format_guest_features(&set), "None");
    assert!(enabled_features(&set).is_empty());
}

#[test]
fn single_feature_has_no_separator() {
    assert_eq!(format_guest_features(&GuestFeatureSet { bits: 1 }), "SNPActive");
}

#[test]
fn features_are_joined_in_bit_order() {
    let set = GuestFeatureSet { bits: (1u64 << 15) | (1u64 << 1) | 1 };
    assert_eq!(format_guest_features(&set), "SNPActive, vTOM, SmtProtection");
}

#[test]
fn all_named_features() {
    let set = GuestFeatureSet { bits: KNOWN_FEATURE_MASK };
    assert_eq!(
        format_guest_features(&set),
        "SNPActive, vTOM, ReflectVC, RestrictedInjection, AlternateInjection, DebugSwap, \
         PreventHostIBS, BTBIsolation, VmplSSS, SecureTSC, VmgexitParameter, \
         IbsVirtualization, VmsaRegProt, SmtProtection"
    );
    assert_eq!(enabled_features(&set).len(), 14);
}

#[test]
fn feature_list_round_trip() {
    for bits in [0u64, 1, 0x5, 0x1000, 0x4000, 0x8001, KNOWN_FEATURE_MASK] {
        let set = GuestFeatureSet { bits };
        let back = features_from_list(&enabled_features(&set));
        assert_eq!(back.bits, bits);
    }
}

#[test]
fn feature_list_round_trip_drops_reserved_bits() {
    let set = GuestFeatureSet { bits: 0xFFFF_0000_0000_2803 };
    let back = features_from_list(&enabled_features(&set));
    assert_eq!(back.bits, 0x0003);
}

#[test]
fn list_of_features_builds_mask() {
    let list = vec![GuestFeature::DebugSwap, GuestFeature::VmsaRegProt];
    assert_eq!(features_from_list(&list).bits, (1u64 << 5) | (1u64 << 14));
    assert!(GuestFeatureSet { bits: 1u64 << 12 }.contains(GuestFeature::IbsVirtualization));
    assert!(!GuestFeatureSet { bits: 1u64 << 11 }.contains(GuestFeature::IbsVirtualization));
}

#[test]
fn feature_names_round_trip() {
    for bits in [0u64, 1, 0x2A, 0x1000, 0x8001, KNOWN_FEATURE_MASK] {
        let set = GuestFeatureSet { bits };
        let names = feature_names(&set);
        assert_eq!(features_from_names(&names), Some(set));
    }
}

#[test]
fn feature_names_are_listed() {
    let names = feature_names(&GuestFeatureSet { bits: (1u64 << 9) | (1u64 << 2) });
    assert_eq!(names, vec!["ReflectVC".to_string(), "SecureTSC".to_string()]);
    assert!(feature_names(&GuestFeatureSet { bits: 0 }).is_empty());
}

#[test]
fn unknown_feature_name_is_refused() {
    let names = vec!["SNPActive".to_string(), "SnpActive".to_string()];
    assert_eq!(features_from_names(&names), None);
    assert_eq!(features_from_names(&Vec::new()), Some(GuestFeatureSet { bits: 0 }));
}

#[test]
fn feature_lookup_by_name() {
    assert_eq!(GuestFeature::from_name("vTOM"), Some(GuestFeature::VTom));
    assert_eq!(GuestFeature::from_name("VmgexitParameter"), Some(GuestFeature::VmgExitParameter));
    assert_eq!(GuestFeature::from_name("vtom"), None);
    assert_eq!(GuestFeature::from_name(""), None);
    assert_eq!(GuestFeature::SecureTsc.name(), "SecureTSC");
    assert_eq!(GuestFeature::at(11), GuestFeature::IbsVirtualization);
    assert_eq!(GuestFeature::SmtProtection.position(), 15);
}
