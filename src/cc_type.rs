use vstd::prelude::*;

use crate::cvm::{get_tdx_version, TdxVM};
use crate::error::CcError;

verus! {

/// Kind of trusted execution environment.
#[derive(Clone, Copy, Debug, PartialEq, Eq, Structural, Hash)]
pub enum TeeType {
    PLAIN,
    TDX,
    SEV,
    CCA,
    TPM,
}

/// Device node of a TPM.
pub const TEE_TPM_PATH: &'static str = "/dev/tpm0";

/// Device node of a TDX 1.0 guest.
pub const TEE_TDX_1_0_PATH: &'static str = "/dev/tdx-guest";

/// Device node of a TDX 1.5 guest.
pub const TEE_TDX_1_5_PATH: &'static str = "/dev/tdx_guest";

/// Device node of an SEV guest.
pub const TEE_SEV_PATH: &'static str = "/dev/sev-guest";

/// Device node of a CCA realm (none is assigned).
pub const TEE_CCA_PATH: &'static str = "";

/// Display name of a TEE type.
pub open spec fn tee_type_name(t: TeeType) -> Seq<char> {
    match t {
        TeeType::PLAIN => "PLAIN"@,
        TeeType::TDX => "TDX"@,
        TeeType::SEV => "SEV"@,
        TeeType::CCA => "CCA"@,
        TeeType::TPM => "TPM"@,
    }
}

/// The display name of `t`.
pub fn tee_name(t: TeeType) -> (r: String)
    ensures
        r@ == tee_type_name(t),
{
    match t {
        TeeType::PLAIN => "PLAIN".to_owned(),
        TeeType::TDX => "TDX".to_owned(),
        TeeType::SEV => "SEV".to_owned(),
        TeeType::CCA => "CCA".to_owned(),
        TeeType::TPM => "TPM".to_owned(),
    }
}

/// Which well-known device nodes exist on this machine.
#[derive(Clone, Copy, Debug, PartialEq, Eq, Structural)]
pub struct DevicePresence {
    pub tpm: bool,
    pub tdx_1_0: bool,
    pub tdx_1_5: bool,
    pub sev: bool,
}

/// The TEE that the present device nodes reveal, probed in the order TPM, TDX, SEV.
pub open spec fn detect_tee_type(p: DevicePresence) -> TeeType {
    if p.tpm {
        TeeType::TPM
    } else if p.tdx_1_0 || p.tdx_1_5 {
        TeeType::TDX
    } else if p.sev {
        TeeType::SEV
    } else {
        TeeType::PLAIN
    }
}

/// A detected TEE type and its display name.
#[derive(Debug)]
pub struct CcType {
    pub tee_type: TeeType,
    pub tee_type_str: String,
}

impl CcType {
    /// Detects the TEE type from the present device nodes.
    pub fn new(presence: &DevicePresence) -> (r: CcType)
        ensures
            r.tee_type == detect_tee_type(*presence),
            r.tee_type_str@ == tee_type_name(r.tee_type),
    {
        let tee_type = if presence.tpm {
            TeeType::TPM
        } else if presence.tdx_1_0 || presence.tdx_1_5 {
            TeeType::TDX
        } else if presence.sev {
            TeeType::SEV
        } else {
            TeeType::PLAIN
        };
        CcType { tee_type, tee_type_str: tee_name(tee_type) }
    }

    /// An independent copy.
    pub fn duplicate(&self) -> (r: CcType)
        ensures
            r.tee_type == self.tee_type,
            r.tee_type_str@ == self.tee_type_str@,
    {
        CcType { tee_type: self.tee_type, tee_type_str: self.tee_type_str.clone() }
    }

    /// Builds the measurement environment of the detected TEE; fails with
    /// `UnsupportedTee` for anything but TDX.
    pub fn build_cvm(presence: &DevicePresence) -> (r: Result<TdxVM, CcError>)
        ensures
            detect_tee_type(*presence) == TeeType::TDX ==> (r matches Ok(vm) && vm.wf()
                && vm.version == get_tdx_version_spec(*presence)),
            detect_tee_type(*presence) != TeeType::TDX ==> (r matches Err(e) && e
                == CcError::UnsupportedTee),
    {
        match CcType::new(presence).tee_type {
            TeeType::TDX => Ok(TdxVM::new(get_tdx_version(presence))),
            _ => Err(CcError::UnsupportedTee),
        }
    }
}

/// The TDX generation that the present device nodes reveal; TDX 1.0 when its
/// node exists or when neither does.
pub open spec fn get_tdx_version_spec(p: DevicePresence) -> crate::tdx::TdxVersion {
    if p.tdx_1_0 {
        crate::tdx::TdxVersion::TDX_1_0
    } else if p.tdx_1_5 {
        crate::tdx::TdxVersion::TDX_1_5
    } else {
        crate::tdx::TdxVersion::TDX_1_0
    }
}

/// Only TDX yields a measurement environment, and it does so exactly when a TDX
/// node exists and no TPM node does.
pub proof fn lemma_tdx_detection(p: DevicePresence)
    ensures
        detect_tee_type(p) == TeeType::TDX <==> (!p.tpm && (p.tdx_1_0 || p.tdx_1_5)),
        !p.tpm && !p.tdx_1_0 && !p.tdx_1_5 && !p.sev ==> detect_tee_type(p) == TeeType::PLAIN,
{
}

} // verus!
