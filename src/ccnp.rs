use vstd::prelude::*;

use crate::cc_type::TeeType;

verus! {

/// Socket of the CCNP report service.
pub const UDS_PATH: &'static str = "/run/ccnp/uds/ccnp-server.sock";

/// The TEE type that a CCNP service reports by number.
pub open spec fn tee_type_of_value(tee_id: u8) -> TeeType {
    if tee_id == 1 {
        TeeType::TPM
    } else if tee_id == 2 {
        TeeType::TDX
    } else if tee_id == 3 {
        TeeType::SEV
    } else if tee_id == 4 {
        TeeType::CCA
    } else {
        TeeType::PLAIN
    }
}

/// Client of the CCNP report service on a local socket.
pub struct CcnpServiceClient {
    pub ccnp_uds_path: String,
}

impl CcnpServiceClient {
    /// The TEE type that the service's number `tee_id` stands for; `PLAIN` for an
    /// unknown number.
    pub fn get_tee_type_by_value(&self, tee_id: u8) -> (r: TeeType)
        ensures
            r == tee_type_of_value(tee_id),
    {
        if tee_id == 1 {
            TeeType::TPM
        } else if tee_id == 2 {
            TeeType::TDX
        } else if tee_id == 3 {
            TeeType::SEV
        } else if tee_id == 4 {
            TeeType::CCA
        } else {
            TeeType::PLAIN
        }
    }
}

} // verus!
