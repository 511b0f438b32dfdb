//! The launch descriptor of a guest and the computation of its expected
//! SEV-SNP launch digest.
//!
//! The digest chain itself (firmware pages, kernel hashes, VMSA pages) is
//! computed from the image files by the `sev` crate, at the program's edge.
//! This module decides what is handed to that computation, refuses what
//! cannot be launched before any file is read, and turns the serialized
//! result into a 48-byte value.
use crate::features::GuestFeatureSet;
use vstd::prelude::*;

verus! {

/// Length of the family ID and of the image ID, in bytes.
pub const IDBLOCK_ID_BYTES: usize = 16;

/// Length of a launch digest (SHA-384), in bytes.
pub const LAUNCH_DIGEST_BYTES: usize = 48;

/// Processor generation of the host.
#[derive(Clone, Copy, Debug, PartialEq, Eq, Structural)]
pub enum ProductName {
    Milan,
    Genoa,
    Turin,
}

/// A TCB version: the security patch levels of the firmware components.
#[derive(Clone, Copy, Debug, PartialEq, Eq, Structural)]
pub struct TcbVersion {
    /// Present on Turin and later only.
    pub fmc: Option<u8>,
    pub bootloader: u8,
    pub tee: u8,
    pub snp: u8,
    pub microcode: u8,
}

/// The vCPU model whose initial register state is measured.
#[derive(Clone, Copy, Debug, PartialEq, Eq, Structural)]
pub enum VcpuType {
    EpycV4,
    EpycMilan,
    EpycGenoa,
}

/// The virtual machine monitor whose VMSA layout is measured.
#[derive(Clone, Copy, Debug, PartialEq, Eq, Structural)]
pub enum VmmType {
    Qemu,
    Ec2,
    Krun,
}

/// Where the firmware part of the digest comes from.
#[derive(Clone, Debug)]
pub enum FirmwareDigest {
    /// Hash the firmware image file.
    FromFile,
    /// A firmware digest computed beforehand, as hex.
    Precomputed(String),
}

/// Everything that determines the expected launch measurement of a guest.
#[derive(Clone, Debug)]
pub struct VMDescription {
    pub host_cpu_family: ProductName,
    pub vcpu_count: u32,
    pub ovmf_file: String,
    /// Features of the VMSA (`SEV_FEATURES`) of every vCPU.
    pub guest_features: GuestFeatureSet,
    pub kernel_file: String,
    pub initrd_file: String,
    /// An empty command line is not measured.
    pub kernel_cmdline: String,
    pub platform_info: u64,
    /// Minimum committed TCB: the platform cannot roll back below it.
    pub min_commited_tcb: TcbVersion,
    /// Policy given to the hypervisor and reflected in the attestation report.
    pub guest_policy: u64,
    pub family_id: [u8; IDBLOCK_ID_BYTES],
    pub image_id: [u8; IDBLOCK_ID_BYTES],
}

/// The inputs of one launch digest computation.
#[derive(Clone, Debug)]
pub struct MeasurementRequest {
    pub vcpus: u32,
    pub vcpu_type: VcpuType,
    pub ovmf_file: String,
    pub guest_features: GuestFeatureSet,
    pub kernel_file: Option<String>,
    pub initrd_file: Option<String>,
    /// Kernel command line; `None` when nothing is measured for it.
    pub append: Option<String>,
    /// Hex digest of the firmware, used instead of hashing its file.
    pub ovmf_hash: Option<String>,
    pub vmm_type: VmmType,
}

/// Why no launch digest was produced.
#[derive(Clone, Copy, Debug, PartialEq, Eq, Structural)]
pub enum DigestError {
    /// A guest without vCPUs cannot be launched.
    ZeroVcpus,
    /// The serialized digest has this length instead of 48 bytes.
    UnexpectedLength(usize),
}

/// The request for a descriptor: the vCPU model and monitor are fixed to
/// EPYC-v4 under QEMU, kernel and initrd are always measured, and the command
/// line is measured only when it is not empty.
pub open spec fn request_of(d: VMDescription, firmware: FirmwareDigest) -> MeasurementRequest {
    MeasurementRequest {
        vcpus: d.vcpu_count,
        vcpu_type: VcpuType::EpycV4,
        ovmf_file: d.ovmf_file,
        guest_features: d.guest_features,
        kernel_file: Some(d.kernel_file),
        initrd_file: Some(d.initrd_file),
        append: if d.kernel_cmdline@.len() == 0 {
            None
        } else {
            Some(d.kernel_cmdline)
        },
        ovmf_hash: match firmware {
            FirmwareDigest::FromFile => None,
            FirmwareDigest::Precomputed(h) => Some(h),
        },
        vmm_type: VmmType::Qemu,
    }
}

/// The serialized digest as a fixed-size array: the bytes themselves when
/// there are exactly 48 of them, else an error that gives their number.
pub fn digest_from_serialized(bytes: &Vec<u8>) -> (r: Result<[u8; LAUNCH_DIGEST_BYTES], DigestError>)
    ensures
        bytes@.len() == LAUNCH_DIGEST_BYTES ==> (r matches Ok(a) && a@ == bytes@),
        bytes@.len() != LAUNCH_DIGEST_BYTES ==> r == Err::<[u8; LAUNCH_DIGEST_BYTES], DigestError>(
            DigestError::UnexpectedLength(bytes@.len() as usize),
        ),
{
    if bytes.len() != LAUNCH_DIGEST_BYTES {
        return Err(DigestError::UnexpectedLength(bytes.len()));
    }
    let mut a: [u8; LAUNCH_DIGEST_BYTES] = [0u8; LAUNCH_DIGEST_BYTES];
    let mut i: usize = 0;
    while i < LAUNCH_DIGEST_BYTES
        invariant
            i <= LAUNCH_DIGEST_BYTES,
            bytes@.len() == LAUNCH_DIGEST_BYTES,
            a@.len() == LAUNCH_DIGEST_BYTES,
            forall|j: int| 0 <= j < i ==> a@[j] == bytes@[j],
        decreases LAUNCH_DIGEST_BYTES - i,
    {
        a.set(i, bytes[i]);
        i = i + 1;
    }
    assert(a@ =~= bytes@);
    Ok(a)
}

/// Refuses a request that cannot be launched: one without vCPUs. Nothing
/// else is checked before the images are read.
pub fn check_request(req: &MeasurementRequest) -> (r: Result<(), DigestError>)
    ensures
        req.vcpus == 0 ==> r == Err::<(), DigestError>(DigestError::ZeroVcpus),
        req.vcpus > 0 ==> r is Ok,
{
    if req.vcpus == 0 {
        Err(DigestError::ZeroVcpus)
    } else {
        Ok(())
    }
}

/// The launch digest of a request, from the serialized digest that the
/// measurement of its images produced: refused without vCPUs, else the
/// 48 bytes themselves.
pub fn launch_digest(req: &MeasurementRequest, serialized: &Vec<u8>) -> (r: Result<
    [u8; LAUNCH_DIGEST_BYTES],
    DigestError,
>)
    ensures
        req.vcpus == 0 ==> r == Err::<[u8; LAUNCH_DIGEST_BYTES], DigestError>(
            DigestError::ZeroVcpus,
        ),
        req.vcpus > 0 && serialized@.len() == LAUNCH_DIGEST_BYTES ==> (r matches Ok(a) && a@
            == serialized@),
        req.vcpus > 0 && serialized@.len() != LAUNCH_DIGEST_BYTES ==> r == Err::<
            [u8; LAUNCH_DIGEST_BYTES],
            DigestError,
        >(DigestError::UnexpectedLength(serialized@.len() as usize)),
{
    check_request(req)?;
    digest_from_serialized(serialized)
}

impl Default for VMDescription {
    /// One vCPU, no files, an empty command line, only `SNPActive` among the
    /// guest features, and every other number and identifier zero.
    fn default() -> (d: VMDescription)
        ensures
            d.host_cpu_family == ProductName::Milan,
            d.vcpu_count == 1,
            d.ovmf_file@.len() == 0,
            d.guest_features.bits == 1,
            d.kernel_file@.len() == 0,
            d.initrd_file@.len() == 0,
            d.kernel_cmdline@.len() == 0,
            d.platform_info == 0,
            d.min_commited_tcb == (TcbVersion { fmc: None, bootloader: 0, tee: 0, snp: 0, microcode: 0 }),
            d.guest_policy == 0,
            d.family_id@ == Seq::new(16, |i: int| 0u8),
            d.image_id@ == Seq::new(16, |i: int| 0u8),
    {
        let d = VMDescription {
            host_cpu_family: ProductName::Milan,
            vcpu_count: 1,
            ovmf_file: String::new(),
            guest_features: GuestFeatureSet { bits: 1 },
            kernel_file: String::new(),
            initrd_file: String::new(),
            kernel_cmdline: String::new(),
            platform_info: 0,
            min_commited_tcb: TcbVersion { fmc: None, bootloader: 0, tee: 0, snp: 0, microcode: 0 },
            guest_policy: 0,
            family_id: [0u8; IDBLOCK_ID_BYTES],
            image_id: [0u8; IDBLOCK_ID_BYTES],
        };
        assert(d.family_id@ =~= Seq::new(16, |i: int| 0u8));
        assert(d.image_id@ =~= Seq::new(16, |i: int| 0u8));
        d
    }
}

impl VMDescription {
    /// What is measured for this descriptor.
    pub fn measurement_request(&self, firmware: &FirmwareDigest) -> (r: MeasurementRequest)
        ensures
            r == request_of(*self, *firmware),
    {
        let append = if self.kernel_cmdline.as_str().is_empty() {
            None
        } else {
            Some(self.kernel_cmdline.clone())
        };
        let ovmf_hash = match firmware {
            FirmwareDigest::FromFile => None,
            FirmwareDigest::Precomputed(h) => Some(h.clone()),
        };
        MeasurementRequest {
            vcpus: self.vcpu_count,
            vcpu_type: VcpuType::EpycV4,
            ovmf_file: self.ovmf_file.clone(),
            guest_features: self.guest_features,
            kernel_file: Some(self.kernel_file.clone()),
            initrd_file: Some(self.initrd_file.clone()),
            append,
            ovmf_hash,
            vmm_type: VmmType::Qemu,
        }
    }

    /// The request for this descriptor, refused when it has no vCPUs. This
    /// is the check to make before the images are read.
    pub fn checked_request(&self, firmware: &FirmwareDigest) -> (r: Result<
        MeasurementRequest,
        DigestError,
    >)
        ensures
            self.vcpu_count == 0 ==> r == Err::<MeasurementRequest, DigestError>(
                DigestError::ZeroVcpus,
            ),
            self.vcpu_count > 0 ==> r == Ok::<MeasurementRequest, DigestError>(
                request_of(*self, *firmware),
            ),
    {
        if self.vcpu_count == 0 {
            return Err(DigestError::ZeroVcpus);
        }
        Ok(self.measurement_request(firmware))
    }

    /// The expected launch digest, from the serialized digest that the
    /// measurement of this descriptor's images produced: refused without
    /// vCPUs, else the 48 bytes themselves.
    pub fn compute_expected_hash(&self, serialized: &Vec<u8>) -> (r: Result<
        [u8; LAUNCH_DIGEST_BYTES],
        DigestError,
    >)
        ensures
            self.vcpu_count == 0 ==> r == Err::<[u8; LAUNCH_DIGEST_BYTES], DigestError>(
                DigestError::ZeroVcpus,
            ),
            self.vcpu_count > 0 && serialized@.len() == LAUNCH_DIGEST_BYTES ==> (r matches Ok(a)
                && a@ == serialized@),
            self.vcpu_count > 0 && serialized@.len() != LAUNCH_DIGEST_BYTES ==> r == Err::<
                [u8; LAUNCH_DIGEST_BYTES],
                DigestError,
            >(DigestError::UnexpectedLength(serialized@.len() as usize)),
    {
        if self.vcpu_count == 0 {
            return Err(DigestError::ZeroVcpus);
        }
        digest_from_serialized(serialized)
    }
}

/// The kernel command line is measured exactly when it is not empty: an
/// empty one adds no command-line page to the digest chain, and a non-empty
/// one is handed on unchanged. Nothing else about the request depends on it.
pub proof fn lemma_cmdline_measured_iff_nonempty(d: VMDescription, firmware: FirmwareDigest)
    ensures
        d.kernel_cmdline@.len() == 0 <==> request_of(d, firmware).append is None,
        d.kernel_cmdline@.len() > 0 ==> request_of(d, firmware).append == Some(d.kernel_cmdline),
        forall|e: VMDescription|
            #![trigger request_of(e, firmware)]
            e == (VMDescription { kernel_cmdline: e.kernel_cmdline, ..d }) ==> (request_of(
                e,
                firmware,
            ) == (MeasurementRequest { append: request_of(e, firmware).append, ..request_of(d, firmware) })),
{
}

} // verus!
