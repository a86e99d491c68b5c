use vstd::prelude::*;

use crate::error::CcError;

verus! {

// TPM algorithm identifiers (TPM_ALG_ID).
pub const TPM_ALG_ERROR: u16 = 0x0;
pub const TPM_ALG_RSA: u16 = 0x1;
pub const TPM_ALG_SHA1: u16 = 0x4;
pub const TPM_ALG_SHA256: u16 = 0xB;
pub const TPM_ALG_SHA384: u16 = 0xC;
pub const TPM_ALG_SHA512: u16 = 0xD;
pub const TPM_ALG_ECDSA: u16 = 0x18;

/// Name of a registered algorithm identifier.
pub open spec fn algorithm_name_spec(algo_id: u16) -> Option<Seq<char>> {
    if algo_id == TPM_ALG_ERROR {
        Some("TPM_ALG_ERROR"@)
    } else if algo_id == TPM_ALG_RSA {
        Some("TPM_ALG_RSA"@)
    } else if algo_id == TPM_ALG_SHA1 {
        Some("TPM_ALG_SHA1"@)
    } else if algo_id == TPM_ALG_SHA256 {
        Some("TPM_ALG_SHA256"@)
    } else if algo_id == TPM_ALG_SHA384 {
        Some("TPM_ALG_SHA384"@)
    } else if algo_id == TPM_ALG_SHA512 {
        Some("TPM_ALG_SHA512"@)
    } else if algo_id == TPM_ALG_ECDSA {
        Some("TPM_ALG_ECDSA"@)
    } else {
        None
    }
}

/// Digest length in bytes of a registered hash algorithm.
pub open spec fn algorithm_digest_size_spec(algo_id: u16) -> Option<nat> {
    if algo_id == TPM_ALG_SHA1 {
        Some(20)
    } else if algo_id == TPM_ALG_SHA256 {
        Some(32)
    } else if algo_id == TPM_ALG_SHA384 {
        Some(48)
    } else if algo_id == TPM_ALG_SHA512 {
        Some(64)
    } else {
        None
    }
}

/// Whether `algo_id` is in the algorithm registry.
pub open spec fn is_registered_algorithm(algo_id: u16) -> bool {
    algorithm_name_spec(algo_id) is Some
}

/// Looks up whether `algo_id` is in the algorithm registry.
pub fn is_valid_algorithm(algo_id: u16) -> (r: bool)
    ensures
        r == is_registered_algorithm(algo_id),
{
    algo_id == TPM_ALG_ERROR || algo_id == TPM_ALG_RSA || algo_id == TPM_ALG_SHA1 || algo_id
        == TPM_ALG_SHA256 || algo_id == TPM_ALG_SHA384 || algo_id == TPM_ALG_SHA512 || algo_id
        == TPM_ALG_ECDSA
}

/// The registered name of `algo_id`, or `UnknownAlgorithm`.
pub fn get_algorithm_string(algo_id: u16) -> (r: Result<String, CcError>)
    ensures
        match algorithm_name_spec(algo_id) {
            Some(name) => r matches Ok(s) && s@ == name,
            None => r == Err::<String, CcError>(CcError::UnknownAlgorithm),
        },
{
    if algo_id == TPM_ALG_ERROR {
        Ok("TPM_ALG_ERROR".to_owned())
    } else if algo_id == TPM_ALG_RSA {
        Ok("TPM_ALG_RSA".to_owned())
    } else if algo_id == TPM_ALG_SHA1 {
        Ok("TPM_ALG_SHA1".to_owned())
    } else if algo_id == TPM_ALG_SHA256 {
        Ok("TPM_ALG_SHA256".to_owned())
    } else if algo_id == TPM_ALG_SHA384 {
        Ok("TPM_ALG_SHA384".to_owned())
    } else if algo_id == TPM_ALG_SHA512 {
        Ok("TPM_ALG_SHA512".to_owned())
    } else if algo_id == TPM_ALG_ECDSA {
        Ok("TPM_ALG_ECDSA".to_owned())
    } else {
        Err(CcError::UnknownAlgorithm)
    }
}

/// The digest length of the hash algorithm `algo_id`, or `UnknownAlgorithm` when it
/// is no registered hash algorithm.
pub fn get_algorithm_digest_size(algo_id: u16) -> (r: Result<usize, CcError>)
    ensures
        match algorithm_digest_size_spec(algo_id) {
            Some(n) => r == Ok::<usize, CcError>(n as usize),
            None => r == Err::<usize, CcError>(CcError::UnknownAlgorithm),
        },
{
    if algo_id == TPM_ALG_SHA1 {
        Ok(20)
    } else if algo_id == TPM_ALG_SHA256 {
        Ok(32)
    } else if algo_id == TPM_ALG_SHA384 {
        Ok(48)
    } else if algo_id == TPM_ALG_SHA512 {
        Ok(64)
    } else {
        Err(CcError::UnknownAlgorithm)
    }
}

/// Reports the digest algorithm a measurement environment uses by default.
pub trait TcgAlgorithmRegistry {
    /// The default algorithm identifier.
    spec fn algorithm_id_view(&self) -> u16;

    /// The default algorithm identifier.
    fn get_algorithm_id(&self) -> (r: u16)
        ensures
            r == self.algorithm_id_view(),
    ;
}

// TCG event types.
pub const EV_PREBOOT_CERT: u32 = 0x0;
pub const EV_POST_CODE: u32 = 0x1;
pub const EV_UNUSED: u32 = 0x2;
pub const EV_NO_ACTION: u32 = 0x3;
pub const EV_SEPARATOR: u32 = 0x4;
pub const EV_ACTION: u32 = 0x5;
pub const EV_EVENT_TAG: u32 = 0x6;
pub const EV_S_CRTM_CONTENTS: u32 = 0x7;
pub const EV_S_CRTM_VERSION: u32 = 0x8;
pub const EV_CPU_MICROCODE: u32 = 0x9;
pub const EV_PLATFORM_CONFIG_FLAGS: u32 = 0xa;
pub const EV_TABLE_OF_DEVICES: u32 = 0xb;
pub const EV_COMPACT_HASH: u32 = 0xc;
pub const EV_IPL: u32 = 0xd;
pub const EV_IPL_PARTITION_DATA: u32 = 0xe;
pub const EV_NONHOST_CODE: u32 = 0xf;
pub const EV_NONHOST_CONFIG: u32 = 0x10;
pub const EV_NONHOST_INFO: u32 = 0x11;
pub const EV_OMIT_BOOT_DEVICE_EVENTS: u32 = 0x12;
pub const EV_EFI_EVENT_BASE: u32 = 0x80000000;
pub const EV_EFI_VARIABLE_DRIVER_CONFIG: u32 = 0x80000001;
pub const EV_EFI_VARIABLE_BOOT: u32 = 0x80000002;
pub const EV_EFI_BOOT_SERVICES_APPLICATION: u32 = 0x80000003;
pub const EV_EFI_BOOT_SERVICES_DRIVER: u32 = 0x80000004;
pub const EV_EFI_RUNTIME_SERVICES_DRIVER: u32 = 0x80000005;
pub const EV_EFI_GPT_EVENT: u32 = 0x80000006;
pub const EV_EFI_ACTION: u32 = 0x80000007;
pub const EV_EFI_PLATFORM_FIRMWARE_BLOB: u32 = 0x80000008;
pub const EV_EFI_HANDOFF_TABLES: u32 = 0x80000009;
pub const EV_EFI_VARIABLE_AUTHORITY: u32 = 0x80000010;

/// Name of a known TCG event type.
pub open spec fn event_type_name(event_type: u32) -> Option<Seq<char>> {
    if event_type == EV_PREBOOT_CERT {
        Some("EV_PREBOOT_CERT"@)
    } else if event_type == EV_POST_CODE {
        Some("EV_POST_CODE"@)
    } else if event_type == EV_UNUSED {
        Some("EV_UNUSED"@)
    } else if event_type == EV_NO_ACTION {
        Some("EV_NO_ACTION"@)
    } else if event_type == EV_SEPARATOR {
        Some("EV_SEPARATOR"@)
    } else if event_type == EV_ACTION {
        Some("EV_ACTION"@)
    } else if event_type == EV_EVENT_TAG {
        Some("EV_EVENT_TAG"@)
    } else if event_type == EV_S_CRTM_CONTENTS {
        Some("EV_S_CRTM_CONTENTS"@)
    } else if event_type == EV_S_CRTM_VERSION {
        Some("EV_S_CRTM_VERSION"@)
    } else if event_type == EV_CPU_MICROCODE {
        Some("EV_CPU_MICROCODE"@)
    } else if event_type == EV_PLATFORM_CONFIG_FLAGS {
        Some("EV_PLATFORM_CONFIG_FLAGS"@)
    } else if event_type == EV_TABLE_OF_DEVICES {
        Some("EV_TABLE_OF_DEVICES"@)
    } else if event_type == EV_COMPACT_HASH {
        Some("EV_COMPACT_HASH"@)
    } else if event_type == EV_IPL {
        Some("EV_IPL"@)
    } else if event_type == EV_IPL_PARTITION_DATA {
        Some("EV_IPL_PARTITION_DATA"@)
    } else if event_type == EV_NONHOST_CODE {
        Some("EV_NONHOST_CODE"@)
    } else if event_type == EV_NONHOST_CONFIG {
        Some("EV_NONHOST_CONFIG"@)
    } else if event_type == EV_NONHOST_INFO {
        Some("EV_NONHOST_INFO"@)
    } else if event_type == EV_OMIT_BOOT_DEVICE_EVENTS {
        Some("EV_OMIT_BOOT_DEVICE_EVENTS"@)
    } else if event_type == EV_EFI_EVENT_BASE {
        Some("EV_EFI_EVENT_BASE"@)
    } else if event_type == EV_EFI_VARIABLE_DRIVER_CONFIG {
        Some("EV_EFI_VARIABLE_DRIVER_CONFIG"@)
    } else if event_type == EV_EFI_VARIABLE_BOOT {
        Some("EV_EFI_VARIABLE_BOOT"@)
    } else if event_type == EV_EFI_BOOT_SERVICES_APPLICATION {
        Some("EV_EFI_BOOT_SERVICES_APPLICATION"@)
    } else if event_type == EV_EFI_BOOT_SERVICES_DRIVER {
        Some("EV_EFI_BOOT_SERVICES_DRIVER"@)
    } else if event_type == EV_EFI_RUNTIME_SERVICES_DRIVER {
        Some("EV_EFI_RUNTIME_SERVICES_DRIVER"@)
    } else if event_type == EV_EFI_GPT_EVENT {
        Some("EV_EFI_GPT_EVENT"@)
    } else if event_type == EV_EFI_ACTION {
        Some("EV_EFI_ACTION"@)
    } else if event_type == EV_EFI_PLATFORM_FIRMWARE_BLOB {
        Some("EV_EFI_PLATFORM_FIRMWARE_BLOB"@)
    } else if event_type == EV_EFI_HANDOFF_TABLES {
        Some("EV_EFI_HANDOFF_TABLES"@)
    } else if event_type == EV_EFI_VARIABLE_AUTHORITY {
        Some("EV_EFI_VARIABLE_AUTHORITY"@)
    } else {
        None
    }
}

/// Namespace of the TCG event-type lookups.
pub struct TcgEventType {}

impl TcgEventType {
    /// The name of `event_type`, or `UnknownEventType`.
    pub fn get_event_type_string(event_type: u32) -> (r: Result<String, CcError>)
        ensures
            match event_type_name(event_type) {
                Some(name) => r matches Ok(s) && s@ == name,
                None => r == Err::<String, CcError>(CcError::UnknownEventType),
            },
    {
        if event_type == EV_PREBOOT_CERT {
            Ok("EV_PREBOOT_CERT".to_owned())
        } else if event_type == EV_POST_CODE {
            Ok("EV_POST_CODE".to_owned())
        } else if event_type == EV_UNUSED {
            Ok("EV_UNUSED".to_owned())
        } else if event_type == EV_NO_ACTION {
            Ok("EV_NO_ACTION".to_owned())
        } else if event_type == EV_SEPARATOR {
            Ok("EV_SEPARATOR".to_owned())
        } else if event_type == EV_ACTION {
            Ok("EV_ACTION".to_owned())
        } else if event_type == EV_EVENT_TAG {
            Ok("EV_EVENT_TAG".to_owned())
        } else if event_type == EV_S_CRTM_CONTENTS {
            Ok("EV_S_CRTM_CONTENTS".to_owned())
        } else if event_type == EV_S_CRTM_VERSION {
            Ok("EV_S_CRTM_VERSION".to_owned())
        } else if event_type == EV_CPU_MICROCODE {
            Ok("EV_CPU_MICROCODE".to_owned())
        } else if event_type == EV_PLATFORM_CONFIG_FLAGS {
            Ok("EV_PLATFORM_CONFIG_FLAGS".to_owned())
        } else if event_type == EV_TABLE_OF_DEVICES {
            Ok("EV_TABLE_OF_DEVICES".to_owned())
        } else if event_type == EV_COMPACT_HASH {
            Ok("EV_COMPACT_HASH".to_owned())
        } else if event_type == EV_IPL {
            Ok("EV_IPL".to_owned())
        } else if event_type == EV_IPL_PARTITION_DATA {
            Ok("EV_IPL_PARTITION_DATA".to_owned())
        } else if event_type == EV_NONHOST_CODE {
            Ok("EV_NONHOST_CODE".to_owned())
        } else if event_type == EV_NONHOST_CONFIG {
            Ok("EV_NONHOST_CONFIG".to_owned())
        } else if event_type == EV_NONHOST_INFO {
            Ok("EV_NONHOST_INFO".to_owned())
        } else if event_type == EV_OMIT_BOOT_DEVICE_EVENTS {
            Ok("EV_OMIT_BOOT_DEVICE_EVENTS".to_owned())
        } else if event_type == EV_EFI_EVENT_BASE {
            Ok("EV_EFI_EVENT_BASE".to_owned())
        } else if event_type == EV_EFI_VARIABLE_DRIVER_CONFIG {
            Ok("EV_EFI_VARIABLE_DRIVER_CONFIG".to_owned())
        } else if event_type == EV_EFI_VARIABLE_BOOT {
            Ok("EV_EFI_VARIABLE_BOOT".to_owned())
        } else if event_type == EV_EFI_BOOT_SERVICES_APPLICATION {
            Ok("EV_EFI_BOOT_SERVICES_APPLICATION".to_owned())
        } else if event_type == EV_EFI_BOOT_SERVICES_DRIVER {
            Ok("EV_EFI_BOOT_SERVICES_DRIVER".to_owned())
        } else if event_type == EV_EFI_RUNTIME_SERVICES_DRIVER {
            Ok("EV_EFI_RUNTIME_SERVICES_DRIVER".to_owned())
        } else if event_type == EV_EFI_GPT_EVENT {
            Ok("EV_EFI_GPT_EVENT".to_owned())
        } else if event_type == EV_EFI_ACTION {
            Ok("EV_EFI_ACTION".to_owned())
        } else if event_type == EV_EFI_PLATFORM_FIRMWARE_BLOB {
            Ok("EV_EFI_PLATFORM_FIRMWARE_BLOB".to_owned())
        } else if event_type == EV_EFI_HANDOFF_TABLES {
            Ok("EV_EFI_HANDOFF_TABLES".to_owned())
        } else if event_type == EV_EFI_VARIABLE_AUTHORITY {
            Ok("EV_EFI_VARIABLE_AUTHORITY".to_owned())
        } else {
            Err(CcError::UnknownEventType)
        }
    }
}

/// A digest tagged with its algorithm.
#[derive(Debug)]
pub struct TcgDigest {
    pub algo_id: u16,
    pub hash: Vec<u8>,
}

/// Mathematical value of a [`TcgDigest`].
pub struct TcgDigestView {
    pub algo_id: u16,
    pub hash: Seq<u8>,
}

impl View for TcgDigest {
    type V = TcgDigestView;

    open spec fn view(&self) -> TcgDigestView {
        TcgDigestView { algo_id: self.algo_id, hash: self.hash@ }
    }
}

/// The views of a sequence of digests.
pub open spec fn digests_view(ds: Seq<TcgDigest>) -> Seq<TcgDigestView> {
    ds.map_values(|d: TcgDigest| d@)
}

impl TcgDigest {
    /// An independent copy with the same value.
    pub fn duplicate(&self) -> (r: TcgDigest)
        ensures
            r@ == self@,
    {
        TcgDigest { algo_id: self.algo_id, hash: self.hash.clone() }
    }
}

/// One measurement event of a crypto-agile TCG log (`TCG_PCR_EVENT2`).
#[derive(Debug)]
pub struct TcgImrEvent {
    pub imr_index: u32,
    pub event_type: u32,
    pub digests: Vec<TcgDigest>,
    pub event_size: u32,
    pub event: Vec<u8>,
}

/// Mathematical value of a [`TcgImrEvent`].
pub struct TcgImrEventView {
    pub imr_index: u32,
    pub event_type: u32,
    pub digests: Seq<TcgDigestView>,
    pub event_size: u32,
    pub event: Seq<u8>,
}

impl View for TcgImrEvent {
    type V = TcgImrEventView;

    open spec fn view(&self) -> TcgImrEventView {
        TcgImrEventView {
            imr_index: self.imr_index,
            event_type: self.event_type,
            digests: digests_view(self.digests@),
            event_size: self.event_size,
            event: self.event@,
        }
    }
}

/// The views of a sequence of events.
pub open spec fn events_view(es: Seq<TcgImrEvent>) -> Seq<TcgImrEventView> {
    es.map_values(|e: TcgImrEvent| e@)
}

impl TcgImrEvent {
    /// The hex dump of the event payload, for display.
    pub fn show(&self) -> (r: Vec<Vec<u8>>)
        ensures
            crate::dump::dump_lines(r@) == crate::dump::dump_spec(self.event@),
    {
        crate::dump::dump_data(self.event.as_slice())
    }

    /// An independent copy with the same value.
    pub fn duplicate(&self) -> (r: TcgImrEvent)
        ensures
            r@ == self@,
    {
        let mut digests: Vec<TcgDigest> = Vec::new();
        let mut i: usize = 0;
        while i < self.digests.len()
            invariant
                i <= self.digests@.len(),
                digests@.len() == i,
                forall|j: int| 0 <= j < i ==> #[trigger] digests@[j]@ == self.digests@[j]@,
            decreases self.digests@.len() - i,
        {
            digests.push(self.digests[i].duplicate());
            i += 1;
        }
        assert(digests_view(digests@) =~= digests_view(self.digests@));
        TcgImrEvent {
            imr_index: self.imr_index,
            event_type: self.event_type,
            digests,
            event_size: self.event_size,
            event: self.event.clone(),
        }
    }
}

/// The first record of a TCG log, in the SHA-1 layout (`TCG_PCClientPCREvent`).
#[derive(Debug)]
pub struct TcgPcClientImrEvent {
    pub imr_index: u32,
    pub event_type: u32,
    pub digest: Vec<u8>,
    pub event_size: u32,
    pub event: Vec<u8>,
}

/// Mathematical value of a [`TcgPcClientImrEvent`].
pub struct TcgPcClientImrEventView {
    pub imr_index: u32,
    pub event_type: u32,
    pub digest: Seq<u8>,
    pub event_size: u32,
    pub event: Seq<u8>,
}

impl TcgPcClientImrEvent {
    /// The hex dump of the record's event bytes, for display.
    pub fn show(&self) -> (r: Vec<Vec<u8>>)
        ensures
            crate::dump::dump_lines(r@) == crate::dump::dump_spec(self.event@),
    {
        crate::dump::dump_data(self.event.as_slice())
    }
}

impl View for TcgPcClientImrEvent {
    type V = TcgPcClientImrEventView;

    open spec fn view(&self) -> TcgPcClientImrEventView {
        TcgPcClientImrEventView {
            imr_index: self.imr_index,
            event_type: self.event_type,
            digest: self.digest@,
            event_size: self.event_size,
            event: self.event@,
        }
    }
}

/// One (algorithm, digest size) pair declared by a Spec-ID record.
#[derive(Clone, Copy, Debug, PartialEq, Eq, Structural)]
pub struct TcgEfiSpecIdEventAlgorithmSize {
    pub algo_id: u16,
    pub digest_size: u16,
}

/// The Spec-ID structure (`TCG_EfiSpecIDEventStruct`) that opens a crypto-agile log.
#[derive(Debug)]
pub struct TcgEfiSpecIdEvent {
    pub signature: Vec<u8>,
    pub platform_class: u32,
    pub spec_version_minor: u8,
    pub spec_version_major: u8,
    pub spec_errata: u8,
    pub uintn_size: u8,
    pub number_of_algorithms: u32,
    pub digest_sizes: Vec<TcgEfiSpecIdEventAlgorithmSize>,
    pub vendor_info_size: u8,
    pub vendor_info: Vec<u8>,
}

/// Mathematical value of a [`TcgEfiSpecIdEvent`].
pub struct TcgEfiSpecIdEventView {
    pub signature: Seq<u8>,
    pub platform_class: u32,
    pub spec_version_minor: u8,
    pub spec_version_major: u8,
    pub spec_errata: u8,
    pub uintn_size: u8,
    pub number_of_algorithms: u32,
    pub digest_sizes: Seq<TcgEfiSpecIdEventAlgorithmSize>,
    pub vendor_info_size: u8,
    pub vendor_info: Seq<u8>,
}

impl View for TcgEfiSpecIdEvent {
    type V = TcgEfiSpecIdEventView;

    open spec fn view(&self) -> TcgEfiSpecIdEventView {
        TcgEfiSpecIdEventView {
            signature: self.signature@,
            platform_class: self.platform_class,
            spec_version_minor: self.spec_version_minor,
            spec_version_major: self.spec_version_major,
            spec_errata: self.spec_errata,
            uintn_size: self.uintn_size,
            number_of_algorithms: self.number_of_algorithms,
            digest_sizes: self.digest_sizes@,
            vendor_info_size: self.vendor_info_size,
            vendor_info: self.vendor_info@,
        }
    }
}

/// Any record of a TCG log.
#[derive(Debug)]
pub enum EventLogEntry {
    TcgImrEvent(TcgImrEvent),
    TcgPcClientImrEvent(TcgPcClientImrEvent),
}

} // verus!
