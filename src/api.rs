use vstd::prelude::*;

use crate::cc_type::{detect_tee_type, get_tdx_version_spec, CcType, DevicePresence, TeeType};
use crate::cvm::{
    eventlog_result, measurement_error, read_eventlog, report_rtmr, TdxVM,
};
use crate::error::{CcError, ParseError};
use crate::quote::{quote_parse_result, quote_response_spec, TdxQuote};
use crate::tcg::{
    algorithm_name_spec, get_algorithm_string, EventLogEntry, TcgDigest,
    TPM_ALG_SHA384,
};
use crate::rtmr::TDX_RTMR_MAX_INDEX;
use crate::tdx::TDX_REPORT_LEN;

verus! {

/// Extra arguments of a report request (used by TEEs other than TDX).
pub struct ExtraArgs {}

/// A signed report and the TEE that produced it.
#[derive(Debug)]
pub struct CcReport {
    pub cc_report: Vec<u8>,
    pub cc_type: TeeType,
}

/// A named TDX report summary.
pub struct CcTdxReport {
    pub name: String,
    pub var: u8,
}

/// A TPM report (no fields yet).
pub struct CcTpmReport {}

/// A digest algorithm and its registered name.
#[derive(Debug)]
pub struct Algorithm {
    pub algo_id: u16,
    pub algo_id_str: String,
}

/// Another name of [`Algorithm`].
pub type Algo = Algorithm;

/// Decoding of a raw report into a typed form `T`.
pub trait ParseCcReport<T> {
    /// Whether `r` is what decoding the raw report `report` gives.
    spec fn parsed(report: Seq<u8>, r: Result<T, CcError>) -> bool;

    /// Decodes a raw report.
    fn parse_cc_report(report: Vec<u8>) -> (r: Result<T, CcError>)
        ensures
            Self::parsed(report@, r),
    ;
}

impl ParseCcReport<TdxQuote> for CcReport {
    open spec fn parsed(report: Seq<u8>, r: Result<TdxQuote, CcError>) -> bool {
        quote_parse_result(report, r)
    }

    fn parse_cc_report(report: Vec<u8>) -> Result<TdxQuote, CcError> {
        TdxQuote::parse_tdx_quote(report.as_slice())
    }
}

/// Builds the measurement environment of the TEE that the device nodes reveal;
/// fails with `UnsupportedTee` for anything but TDX.
pub fn build_cvm(presence: &DevicePresence) -> (r: Result<TdxVM, CcError>)
    ensures
        detect_tee_type(*presence) == TeeType::TDX ==> (r matches Ok(vm) && vm.wf() && vm.version
            == get_tdx_version_spec(*presence)),
        detect_tee_type(*presence) != TeeType::TDX ==> (r matches Err(e) && e
            == CcError::UnsupportedTee),
{
    CcType::build_cvm(presence)
}

/// What `get_cc_report` returns for a TD report and a filled quote envelope.
pub open spec fn cc_report_result(
    td_report: Seq<u8>,
    envelope: Seq<u8>,
    r: Result<CcReport, CcError>,
) -> bool {
    if td_report.len() != TDX_REPORT_LEN {
        r matches Err(e) && e == CcError::Parse(ParseError::WrongLength)
    } else {
        match quote_response_spec(envelope) {
            Err(e) => r matches Err(x) && x == e,
            Ok(q) => r matches Ok(c) && c.cc_report@ == q && c.cc_type == TeeType::TDX,
        }
    }
}

/// Finishes a report request once the device has answered: `td_report` is what the
/// report ioctl returned and `envelope` what the quote ioctl left. Returns the
/// quote, tagged TDX, and records the report in `cvm`.
pub fn get_cc_report(cvm: &mut TdxVM, td_report: Vec<u8>, envelope: &[u8], _extra_args: ExtraArgs) -> (r:
    Result<CcReport, CcError>)
    requires
        old(cvm).wf(),
    ensures
        final(cvm).wf(),
        cc_report_result(td_report@, envelope@, r),
{
    match cvm.process_cc_report(td_report, envelope) {
        Ok(q) => Ok(CcReport { cc_report: q, cc_type: cvm.cc_type.tee_type }),
        Err(e) => Err(e),
    }
}

/// The digest of RTMR `index` of the last report recorded in `cvm`.
pub fn get_cc_measurement(cvm: &TdxVM, index: u8, algo_id: u16) -> (r: Result<TcgDigest, CcError>)
    requires
        cvm.wf(),
    ensures
        match measurement_error(index, algo_id, cvm.rtrms@.len() > 0) {
            Some(e) => r matches Err(x) && x == e,
            None => r matches Ok(d) && d@ == report_rtmr(cvm.td_report_raw@, index as int),
        },
{
    let r = cvm.get_measurement(index, algo_id);
    assert(cvm.rtrms@.len() > 0 ==> cvm.rtrms@.len() > index || index > TDX_RTMR_MAX_INDEX);
    r
}

/// Decodes the raw event log `data` and returns the events `[start, start + count)`.
pub fn get_cc_eventlog(data: Vec<u8>, start: Option<u32>, count: Option<u32>) -> (r: Result<
    Vec<EventLogEntry>,
    CcError,
>)
    ensures
        eventlog_result(data@, start, count, r),
{
    read_eventlog(data, start, count)
}

/// The default digest algorithm of the TEE that the device nodes reveal: SHA-384
/// for TDX; `UnsupportedTee` otherwise.
pub fn get_default_algorithm(presence: &DevicePresence) -> (r: Result<Algorithm, CcError>)
    ensures
        detect_tee_type(*presence) == TeeType::TDX ==> (r matches Ok(a) && a.algo_id
            == TPM_ALG_SHA384 && algorithm_name_spec(TPM_ALG_SHA384) == Some(a.algo_id_str@)),
        detect_tee_type(*presence) != TeeType::TDX ==> (r matches Err(e) && e
            == CcError::UnsupportedTee),
{
    let cvm = match build_cvm(presence) {
        Ok(c) => c,
        Err(e) => {
            return Err(e);
        },
    };
    let algo_id = cvm.algo_id;
    match get_algorithm_string(algo_id) {
        Ok(algo_id_str) => Ok(Algorithm { algo_id, algo_id_str }),
        Err(e) => Err(e),
    }
}

/// The attestation API as one namespace.
pub struct API {}

impl API {
    /// See [`get_cc_report`].
    pub fn get_cc_report(cvm: &mut TdxVM, td_report: Vec<u8>, envelope: &[u8], extra_args: ExtraArgs) -> (r:
        Result<CcReport, CcError>)
        requires
            old(cvm).wf(),
        ensures
            final(cvm).wf(),
            cc_report_result(td_report@, envelope@, r),
    {
        get_cc_report(cvm, td_report, envelope, extra_args)
    }

    /// The lines of a hex dump of `report`; see [`crate::dump::dump_data`].
    pub fn dump_cc_report(report: &Vec<u8>) -> (r: Vec<Vec<u8>>)
        ensures
            crate::dump::dump_lines(r@) == crate::dump::dump_spec(report@),
    {
        crate::dump::dump_data(report)
    }

    /// See [`get_cc_measurement`].
    pub fn get_cc_measurement(cvm: &TdxVM, index: u8, algo_id: u16) -> (r: Result<TcgDigest, CcError>)
        requires
            cvm.wf(),
        ensures
            match measurement_error(index, algo_id, cvm.rtrms@.len() > 0) {
                Some(e) => r matches Err(x) && x == e,
                None => r matches Ok(d) && d@ == report_rtmr(cvm.td_report_raw@, index as int),
            },
    {
        get_cc_measurement(cvm, index, algo_id)
    }

    /// See [`get_cc_eventlog`].
    pub fn get_cc_eventlog(data: Vec<u8>, start: Option<u32>, count: Option<u32>) -> (r: Result<
        Vec<EventLogEntry>,
        CcError,
    >)
        ensures
            eventlog_result(data@, start, count, r),
    {
        get_cc_eventlog(data, start, count)
    }

    /// See [`get_default_algorithm`].
    pub fn get_default_algorithm(presence: &DevicePresence) -> (r: Result<Algorithm, CcError>)
        ensures
            detect_tee_type(*presence) == TeeType::TDX ==> (r matches Ok(a) && a.algo_id
                == TPM_ALG_SHA384 && algorithm_name_spec(TPM_ALG_SHA384) == Some(a.algo_id_str@)),
            detect_tee_type(*presence) != TeeType::TDX ==> (r matches Err(e) && e
                == CcError::UnsupportedTee),
    {
        get_default_algorithm(presence)
    }
}

} // verus!
