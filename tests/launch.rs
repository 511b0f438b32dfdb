use attestation_server::features::GuestFeatureSet;
use attestation_server::launch::{
    check_request, digest_from_serialized, launch_digest, DigestError, FirmwareDigest, MeasurementRequest,
    ProductName, TcbVersion, VMDescription, VcpuType, VmmType,
};

fn descriptor(vcpus: u32, cmdline: &str) -> VMDescription {
    VMDescription {
        host_cpu_family: ProductName::Genoa,
        vcpu_count: vcpus,
        ovmf_file: "/nonexistent/OVMF.fd".to_string(),
        guest_features: GuestFeatureSet { bits: 0 },
        kernel_file: "/nonexistent/vmlinuz".to_string(),
        initrd_file: "/nonexistent/initrd".to_string(),
        kernel_cmdline: cmdline.to_string(),
        platform_info: 0,
        min_commited_tcb: TcbVersion { fmc: None, bootloader: 0, tee: 0, snp: 0, microcode: 0 },
        guest_policy: 0x3_0000,
        family_id: [0u8; 16],
        image_id: [0u8; 16],
    }
}

#[test]
fn zero_vcpus_are_refused() {
    let d = descriptor(0, "console=ttyS0");
    let digest: Vec<u8> = (0..48u8).collect();
    assert_eq!(d.compute_expected_hash(&digest), Err(DigestError::ZeroVcpus));
    assert_eq!(d.checked_request(&FirmwareDigest::FromFile).err(), Some(DigestError::ZeroVcpus));
}

#[test]
fn measured_digest_is_returned() {
    let d = descriptor(2, "");
    let digest: Vec<u8> = (100..148u8).collect();
    let a = d.compute_expected_hash(&digest).unwrap();
    assert_eq!(a.to_vec(), digest);
    let short = vec![0u8; 40];
    assert_eq!(d.compute_expected_hash(&short), Err(DigestError::UnexpectedLength(40)));
}

#[test]
fn checked_request_hands_on_the_descriptor() {
    let d = descriptor(3, "quiet");
    let req = d.checked_request(&FirmwareDigest::FromFile).unwrap();
    assert_eq!(req.vcpus, 3);
    assert_eq!(req.append.as_deref(), Some("quiet"));
    assert_eq!(check_request(&req), Ok(()));
}

#[test]
fn empty_cmdline_is_not_measured() {
    let req = descriptor(2, "").measurement_request(&FirmwareDigest::FromFile);
    assert_eq!(req.append, None);
    assert_eq!(req.vcpus, 2);
    assert_eq!(req.vcpu_type, VcpuType::EpycV4);
    assert_eq!(req.vmm_type, VmmType::Qemu);
    assert_eq!(req.kernel_file.as_deref(), Some("/nonexistent/vmlinuz"));
    assert_eq!(req.ovmf_hash, None);
}

#[test]
fn cmdline_and_precomputed_hash_are_handed_on() {
    let firmware = FirmwareDigest::Precomputed("ab".repeat(48));
    let req = descriptor(4, "console=ttyS0").measurement_request(&firmware);
    assert_eq!(req.append.as_deref(), Some("console=ttyS0"));
    assert_eq!(req.ovmf_hash, Some("ab".repeat(48)));
    assert_eq!(req.vcpus, 4);
}

#[test]
fn request_without_vcpus_is_refused() {
    let mut req = descriptor(1, "").measurement_request(&FirmwareDigest::FromFile);
    let digest = vec![7u8; 48];
    assert_eq!(launch_digest(&req, &digest), Ok([7u8; 48]));
    req.vcpus = 0;
    assert_eq!(check_request(&req), Err(DigestError::ZeroVcpus));
    assert_eq!(launch_digest(&req, &digest), Err(DigestError::ZeroVcpus));
    let other = MeasurementRequest { vcpus: 0, ..req };
    assert_eq!(launch_digest(&other, &vec![0u8; 3]), Err(DigestError::ZeroVcpus));
}

#[test]
fn serialized_digest_of_48_bytes() {
    let bytes: Vec<u8> = (0..48u8).collect();
    let a = digest_from_serialized(&bytes).unwrap();
    assert_eq!(a.to_vec(), bytes);
}

#[test]
fn serialized_digest_of_other_length() {
    let r = digest_from_serialized(&vec![0u8; 47]);
    assert_eq!(r, Err(DigestError::UnexpectedLength(47)));
    let r = digest_from_serialized(&vec![0u8; 56]);
    assert_eq!(r, Err(DigestError::UnexpectedLength(56)));
}

#[test]
fn default_descriptor() {
    let d = VMDescription::default();
    assert_eq!(d.vcpu_count, 1);
    assert_eq!(d.guest_features, GuestFeatureSet { bits: 1 });
    assert_eq!(d.host_cpu_family, ProductName::Milan);
    assert!(d.kernel_cmdline.is_empty());
    assert_eq!(d.family_id, [0u8; 16]);
    let req = d.measurement_request(&FirmwareDigest::FromFile);
    assert_eq!(req.append, None);
    assert_eq!(req.ovmf_file, "");
}
