use vstd::prelude::*;

verus! {

/// Namespace of the TDX report and quote operations.
pub struct Tdx {}

/// TDX module generation.
#[allow(non_camel_case_types)]
#[derive(Clone, Copy, Debug, PartialEq, Eq, Structural)]
pub enum TdxVersion {
    TDX_1_0,
    TDX_1_5,
}

/// Length of the report input data bound into a TD report.
pub const REPORT_DATA_LEN: usize = 64;

/// Length of a raw TD report.
pub const TDX_REPORT_LEN: usize = 1024;

/// Size of the data buffer of the quote request envelope.
pub const TDX_QUOTE_LEN: usize = 16384;

/// Quote format version 4.
pub const TDX_QUOTE_VERSION_4: u16 = 4;

/// Quote format version 5.
pub const TDX_QUOTE_VERSION_5: u16 = 5;

/// ioctl magic byte of the TDX guest driver (`'T'`).
pub const TDX_IOCTL_MAGIC: u8 = 0x54;

/// ioctl number that asks for a TD report.
pub const TDX_GET_TD_REPORT_NR: u8 = 1;

/// ioctl number that asks a TDX 1.0 driver for a quote.
pub const TDX_1_0_GET_QUOTE_NR: u8 = 2;

/// ioctl number that asks a TDX 1.5 driver for a quote.
pub const TDX_1_5_GET_QUOTE_NR: u8 = 4;

/// ioctl numbers of the TDX guest driver (magic byte `'T'`).
#[allow(non_camel_case_types)]
#[derive(Clone, Copy, Debug, PartialEq, Eq, Structural)]
pub enum TdxOperation {
    TDX_GET_TD_REPORT,
    TDX_1_0_GET_QUOTE,
    TDX_1_5_GET_QUOTE,
}

impl TdxOperation {
    /// The ioctl command number.
    pub fn number(&self) -> (r: u8)
        ensures
            r == match self {
                TdxOperation::TDX_GET_TD_REPORT => TDX_GET_TD_REPORT_NR,
                TdxOperation::TDX_1_0_GET_QUOTE => TDX_1_0_GET_QUOTE_NR,
                TdxOperation::TDX_1_5_GET_QUOTE => TDX_1_5_GET_QUOTE_NR,
            },
    {
        match self {
            TdxOperation::TDX_GET_TD_REPORT => TDX_GET_TD_REPORT_NR,
            TdxOperation::TDX_1_0_GET_QUOTE => TDX_1_0_GET_QUOTE_NR,
            TdxOperation::TDX_1_5_GET_QUOTE => TDX_1_5_GET_QUOTE_NR,
        }
    }
}

/// The quote ioctl of a TDX generation.
pub fn get_quote_operation(version: TdxVersion) -> (r: TdxOperation)
    ensures
        r == match version {
            TdxVersion::TDX_1_0 => TdxOperation::TDX_1_0_GET_QUOTE,
            TdxVersion::TDX_1_5 => TdxOperation::TDX_1_5_GET_QUOTE,
        },
{
    match version {
        TdxVersion::TDX_1_0 => TdxOperation::TDX_1_0_GET_QUOTE,
        TdxVersion::TDX_1_5 => TdxOperation::TDX_1_5_GET_QUOTE,
    }
}

/// Attestation key type of a quote header.
#[allow(non_camel_case_types)]
#[derive(Clone, Copy, Debug, PartialEq, Eq, Structural)]
pub enum AttestationKeyType {
    ECDSA_P256,
    ECDSA_P384,
}

impl AttestationKeyType {
    /// Decodes the attestation key type field of a quote header.
    pub fn from_value(v: u16) -> (r: Option<AttestationKeyType>)
        ensures
            r == (if v == 2 {
                Some(AttestationKeyType::ECDSA_P256)
            } else if v == 3 {
                Some(AttestationKeyType::ECDSA_P384)
            } else {
                None
            }),
    {
        if v == 2 {
            Some(AttestationKeyType::ECDSA_P256)
        } else if v == 3 {
            Some(AttestationKeyType::ECDSA_P384)
        } else {
            None
        }
    }
}

/// TEE type of a quote header.
#[allow(non_camel_case_types)]
#[derive(Clone, Copy, Debug, PartialEq, Eq, Structural)]
pub enum IntelTeeType {
    TEE_SGX,
    TEE_TDX,
}

impl IntelTeeType {
    /// Decodes the TEE type field of a quote header.
    pub fn from_value(v: u32) -> (r: Option<IntelTeeType>)
        ensures
            r == (if v == 0 {
                Some(IntelTeeType::TEE_SGX)
            } else if v == 0x81 {
                Some(IntelTeeType::TEE_TDX)
            } else {
                None
            }),
    {
        if v == 0 {
            Some(IntelTeeType::TEE_SGX)
        } else if v == 0x81 {
            Some(IntelTeeType::TEE_TDX)
        } else {
            None
        }
    }
}

/// QE certification data type of a quote signature.
#[allow(non_camel_case_types)]
#[derive(Clone, Copy, Debug, PartialEq, Eq, Structural)]
pub enum QeCertDataType {
    PCK_ID_PLAIN,
    PCK_ID_RSA_2048_OAEP,
    PCK_ID_RSA_3072_OAEP,
    PCK_LEAF_CERT_PLAIN,
    PCK_CERT_CHAIN,
    QE_REPORT_CERT,
    PLATFORM_MANIFEST,
}

/// The certification data type that `tag` encodes.
pub open spec fn qe_cert_data_type_spec(tag: u16) -> Option<QeCertDataType> {
    if tag == 1 {
        Some(QeCertDataType::PCK_ID_PLAIN)
    } else if tag == 2 {
        Some(QeCertDataType::PCK_ID_RSA_2048_OAEP)
    } else if tag == 3 {
        Some(QeCertDataType::PCK_ID_RSA_3072_OAEP)
    } else if tag == 4 {
        Some(QeCertDataType::PCK_LEAF_CERT_PLAIN)
    } else if tag == 5 {
        Some(QeCertDataType::PCK_CERT_CHAIN)
    } else if tag == 6 {
        Some(QeCertDataType::QE_REPORT_CERT)
    } else if tag == 7 {
        Some(QeCertDataType::PLATFORM_MANIFEST)
    } else {
        None
    }
}

impl QeCertDataType {
    /// Decodes a certification data type tag.
    pub fn from_tag(tag: u16) -> (r: Option<QeCertDataType>)
        ensures
            r == qe_cert_data_type_spec(tag),
    {
        if tag == 1 {
            Some(QeCertDataType::PCK_ID_PLAIN)
        } else if tag == 2 {
            Some(QeCertDataType::PCK_ID_RSA_2048_OAEP)
        } else if tag == 3 {
            Some(QeCertDataType::PCK_ID_RSA_3072_OAEP)
        } else if tag == 4 {
            Some(QeCertDataType::PCK_LEAF_CERT_PLAIN)
        } else if tag == 5 {
            Some(QeCertDataType::PCK_CERT_CHAIN)
        } else if tag == 6 {
            Some(QeCertDataType::QE_REPORT_CERT)
        } else if tag == 7 {
            Some(QeCertDataType::PLATFORM_MANIFEST)
        } else {
            None
        }
    }
}

} // verus!
