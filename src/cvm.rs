use vstd::prelude::*;

use crate::cc_type::{
    get_tdx_version_spec, tee_name, tee_type_name, CcType, DevicePresence, TeeType,
    TEE_TDX_1_0_PATH, TEE_TDX_1_5_PATH,
};
use crate::error::{CcError, ParseError};
use crate::eventlog::{parse_log, select_range, TcgEventLog};
use crate::quote::{quote_envelope_bytes, quote_response_spec};
use crate::report_data::{derive_report_data, report_data_spec};
use crate::rtmr::{TdxRTMR, TDX_RTMR_MAX_INDEX};
use crate::tcg::{
    is_registered_algorithm, is_valid_algorithm, EventLogEntry, TcgAlgorithmRegistry, TcgDigest,
    TcgDigestView, TcgImrEventView, TPM_ALG_SHA384,
};
use crate::tdx::{get_quote_operation, Tdx, TdxOperation, TdxVersion, TDX_REPORT_LEN};

verus! {

/// Path of a device node.
#[derive(Debug)]
pub struct DeviceNode {
    pub device_path: String,
}

/// Event logs of a measurement environment (kept as raw bytes).
#[derive(Debug)]
pub struct CcEventlogs {
    pub data: Vec<u8>,
}

/// The TDX generation that the present device nodes reveal.
pub fn get_tdx_version(presence: &DevicePresence) -> (r: TdxVersion)
    ensures
        r == get_tdx_version_spec(*presence),
{
    if presence.tdx_1_0 {
        TdxVersion::TDX_1_0
    } else if presence.tdx_1_5 {
        TdxVersion::TDX_1_5
    } else {
        TdxVersion::TDX_1_0
    }
}

/// Device node of a TDX generation.
pub open spec fn tdx_device_path(v: TdxVersion) -> Seq<char> {
    match v {
        TdxVersion::TDX_1_0 => TEE_TDX_1_0_PATH@,
        TdxVersion::TDX_1_5 => TEE_TDX_1_5_PATH@,
    }
}

/// Display name of a TDX generation.
pub open spec fn tdx_version_name(v: TdxVersion) -> Seq<char> {
    match v {
        TdxVersion::TDX_1_0 => "1.0"@,
        TdxVersion::TDX_1_5 => "1.5"@,
    }
}

/// The digest that register `i` of a TDX report holds.
pub open spec fn report_rtmr(td_report: Seq<u8>, i: int) -> TcgDigestView {
    TcgDigestView {
        algo_id: TPM_ALG_SHA384,
        hash: td_report.subrange(720 + 48 * i, 768 + 48 * i),
    }
}

/// Why `process_cc_measurement(index, algo_id)` fails, if it does.
pub open spec fn measurement_error(index: u8, algo_id: u16, recorded: bool) -> Option<CcError> {
    if index > TDX_RTMR_MAX_INDEX {
        Some(CcError::IndexOutOfRange)
    } else if !is_registered_algorithm(algo_id) || algo_id != TPM_ALG_SHA384 {
        Some(CcError::UnknownAlgorithm)
    } else if !recorded {
        Some(CcError::NoReport)
    } else {
        None
    }
}

/// What a measurement environment offers its callers.
pub trait CVM {
    /// The TEE type and its display name.
    spec fn cc_type_view(&self) -> (TeeType, Seq<char>);

    /// The TEE type name and the generation name shown by `dump`.
    spec fn dump_view(&self) -> (Seq<char>, Seq<char>);

    /// The digest of register `index` under `algo_id`, or why there is none.
    spec fn measurement_view(&self, index: u8, algo_id: u16) -> Result<TcgDigestView, CcError>;

    /// The TEE type.
    fn get_cc_type(&self) -> (r: CcType)
        ensures
            (r.tee_type, r.tee_type_str@) == self.cc_type_view(),
    ;

    /// The TEE type name and the generation name, for display.
    fn dump(&self) -> (r: (String, String))
        ensures
            (r.0@, r.1@) == self.dump_view(),
    ;

    /// The digest of measurement register `index` under `algo_id`.
    fn process_cc_measurement(&self, index: u8, algo_id: u16) -> (r: Result<TcgDigest, CcError>)
        ensures
            match self.measurement_view(index, algo_id) {
                Ok(d) => r matches Ok(x) && x@ == d,
                Err(e) => r matches Err(x) && x == e,
            },
    ;

    /// The events `[start, start + count)` of the raw event log `data`.
    fn process_cc_eventlog(&self, data: Vec<u8>, start: Option<u32>, count: Option<u32>) -> (r:
        Result<Vec<EventLogEntry>, CcError>)
        ensures
            eventlog_result(data@, start, count, r),
    ;
}

/// A measurement environment that also names its default digest algorithm.
pub trait BuildCVM: CVM + TcgAlgorithmRegistry {

}

/// A TDX guest: its generation, device node, default algorithm, and the last
/// report and quote obtained through it with the registers read from that report.
#[derive(Debug)]
pub struct TdxVM {
    pub cc_type: CcType,
    pub version: TdxVersion,
    pub device_node: DeviceNode,
    pub algo_id: u16,
    pub cc_report_raw: Vec<u8>,
    pub td_report_raw: Vec<u8>,
    pub rtrms: Vec<TdxRTMR>,
}

impl TdxVM {
    /// The guest is TDX, uses SHA-384, and holds either no registers or the four
    /// registers of its recorded report.
    pub open spec fn wf(&self) -> bool {
        &&& self.cc_type.tee_type == TeeType::TDX
        &&& self.cc_type.tee_type_str@ == tee_type_name(TeeType::TDX)
        &&& self.device_node.device_path@ == tdx_device_path(self.version)
        &&& self.algo_id == TPM_ALG_SHA384
        &&& self.rtrms@.len() == 0 || (self.rtrms@.len() == 4 && self.td_report_raw@.len()
            == TDX_REPORT_LEN && forall|i: int|
            0 <= i < 4 ==> #[trigger] self.rtrms@[i].index == i && self.rtrms@[i].digest@
                == report_rtmr(self.td_report_raw@, i))
    }

    /// A TDX guest of generation `version` with nothing recorded yet.
    pub fn new(version: TdxVersion) -> (r: TdxVM)
        ensures
            r.wf(),
            r.version == version,
            r.rtrms@.len() == 0,
            r.cc_report_raw@.len() == 0,
            r.td_report_raw@.len() == 0,
    {
        let device_path = match version {
            TdxVersion::TDX_1_0 => TEE_TDX_1_0_PATH.to_owned(),
            TdxVersion::TDX_1_5 => TEE_TDX_1_5_PATH.to_owned(),
        };
        TdxVM {
            cc_type: CcType { tee_type: TeeType::TDX, tee_type_str: tee_name(TeeType::TDX) },
            version,
            device_node: DeviceNode { device_path },
            algo_id: TPM_ALG_SHA384,
            cc_report_raw: Vec::new(),
            td_report_raw: Vec::new(),
            rtrms: Vec::new(),
        }
    }

    /// Display name of the guest's TDX generation.
    pub fn version_name(&self) -> (r: String)
        ensures
            r@ == tdx_version_name(self.version),
    {
        match self.version {
            TdxVersion::TDX_1_0 => "1.0".to_owned(),
            TdxVersion::TDX_1_5 => "1.5".to_owned(),
        }
    }

    /// The report input data to bind into the TD report for `nonce` and `data`.
    pub fn get_td_report_data(&self, nonce: &str, data: &str) -> (r: Result<Vec<u8>, CcError>)
        ensures
            match report_data_spec(nonce@, Some(data@)) {
                Ok(v) => r matches Ok(x) && x@ == v && x@.len() == 64,
                Err(e) => r matches Err(x) && x == e,
            },
    {
        derive_report_data(nonce, Some(data))
    }

    /// The ioctl that asks this guest's driver for a quote.
    pub fn quote_operation(&self) -> (r: TdxOperation)
        ensures
            r == match self.version {
                TdxVersion::TDX_1_0 => TdxOperation::TDX_1_0_GET_QUOTE,
                TdxVersion::TDX_1_5 => TdxOperation::TDX_1_5_GET_QUOTE,
            },
    {
        get_quote_operation(self.version)
    }

    /// The envelope bytes of the quote ioctl for `td_report`; fails with
    /// `Parse(WrongLength)` unless the report is 1024 bytes long.
    pub fn get_quote_request(&self, td_report: &Vec<u8>) -> (r: Result<Vec<u8>, CcError>)
        ensures
            td_report@.len() == TDX_REPORT_LEN ==> (r matches Ok(v) && v@ == quote_envelope_bytes(
                td_report@,
            )),
            td_report@.len() != TDX_REPORT_LEN ==> (r matches Err(e) && e == CcError::Parse(
                ParseError::WrongLength,
            )),
    {
        if td_report.len() != TDX_REPORT_LEN {
            return Err(CcError::Parse(ParseError::WrongLength));
        }
        Ok(Tdx::generate_quote_request(td_report.as_slice()))
    }

    /// Takes the TD report and the envelope that the quote ioctl filled: checks the
    /// envelope, then records the quote, the report and the report's four RTMRs and
    /// returns the quote. Nothing changes on failure.
    pub fn process_cc_report(&mut self, td_report: Vec<u8>, envelope: &[u8]) -> (r: Result<
        Vec<u8>,
        CcError,
    >)
        requires
            old(self).wf(),
        ensures
            final(self).wf(),
            final(self).version == old(self).version,
            td_report@.len() != TDX_REPORT_LEN ==> (r matches Err(e) && e == CcError::Parse(
                ParseError::WrongLength,
            ) && *final(self) == *old(self)),
            td_report@.len() == TDX_REPORT_LEN ==> match quote_response_spec(envelope@) {
                Err(e) => r matches Err(x) && x == e && *final(self) == *old(self),
                Ok(q) => {
                    &&& r matches Ok(v) && v@ == q
                    &&& final(self).cc_report_raw@ == q
                    &&& final(self).td_report_raw@ == td_report@
                    &&& final(self).rtrms@.len() == 4
                },
            },
    {
        if td_report.len() != TDX_REPORT_LEN {
            return Err(CcError::Parse(ParseError::WrongLength));
        }
        let quote = match Tdx::parse_quote_response(envelope) {
            Ok(q) => q,
            Err(e) => {
                return Err(e);
            },
        };
        let mut rtrms: Vec<TdxRTMR> = Vec::new();
        let mut i: u8 = 0;
        while i < 4
            invariant
                td_report@.len() == TDX_REPORT_LEN,
                i <= 4,
                rtrms@.len() == i,
                forall|j: int|
                    0 <= j < i ==> #[trigger] rtrms@[j].index == j && rtrms@[j].digest@
                        == report_rtmr(td_report@, j),
            decreases 4 - i,
        {
            let at: usize = 720 + 48 * i as usize;
            let slice = crate::bytes::copy_range(td_report.as_slice(), at, 48);
            let m = match TdxRTMR::new(i, TPM_ALG_SHA384, slice.as_slice()) {
                Ok(m) => m,
                Err(e) => {
                    return Err(e);
                },
            };
            rtrms.push(m);
            i += 1;
        }
        self.cc_report_raw = quote.clone();
        self.td_report_raw = td_report;
        self.rtrms = rtrms;
        Ok(quote)
    }

    /// The digest of RTMR `index`: fails with `IndexOutOfRange` above 3, with
    /// `UnknownAlgorithm` for any algorithm but SHA-384, and with `NoReport` when no
    /// report has been recorded.
    pub fn get_measurement(&self, index: u8, algo_id: u16) -> (r: Result<TcgDigest, CcError>)
        ensures
            match measurement_error(index, algo_id, self.rtrms@.len() > index) {
                Some(e) => r matches Err(x) && x == e,
                None => r matches Ok(d) && d@ == self.rtrms@[index as int].digest@ && (self.wf()
                    ==> d@ == report_rtmr(self.td_report_raw@, index as int)),
            },
    {
        if index > TDX_RTMR_MAX_INDEX {
            return Err(CcError::IndexOutOfRange);
        }
        if !is_valid_algorithm(algo_id) || algo_id != TPM_ALG_SHA384 {
            return Err(CcError::UnknownAlgorithm);
        }
        if self.rtrms.len() <= index as usize {
            return Err(CcError::NoReport);
        }
        assert(self.wf() ==> self.rtrms@[index as int].index == index);
        Ok(self.rtrms[index as usize].digest.duplicate())
    }
}

/// The events of a selection, each wrapped as a log entry, match `evs`.
pub open spec fn entries_match(v: Seq<EventLogEntry>, evs: Seq<TcgImrEventView>) -> bool {
    &&& v.len() == evs.len()
    &&& forall|i: int|
        0 <= i < v.len() ==> (#[trigger] v[i] matches EventLogEntry::TcgImrEvent(e) && e@
            == evs[i])
}

/// What reading `[start, start + count)` from the raw log `data` gives: the parse
/// error, `Range`, or the selected events.
pub open spec fn eventlog_result(
    data: Seq<u8>,
    start: Option<u32>,
    count: Option<u32>,
    r: Result<Vec<EventLogEntry>, CcError>,
) -> bool {
    match parse_log(data) {
        Err(e) => r matches Err(x) && x == CcError::Parse(e),
        Ok((_, evs)) => match select_range(evs.len(), start, count) {
            None => r matches Err(x) && x == CcError::Range,
            Some((b, e)) => r matches Ok(v) && entries_match(v@, evs.subrange(b, e)),
        },
    }
}

/// Decodes the raw log `data` and returns the events `[start, start + count)`.
pub fn read_eventlog(data: Vec<u8>, start: Option<u32>, count: Option<u32>) -> (r: Result<
    Vec<EventLogEntry>,
    CcError,
>)
    ensures
        eventlog_result(data@, start, count, r),
{
    let mut log = TcgEventLog::new(data);
    if let Err(e) = log.parse() {
        return Err(e);
    }
    let selected = match log.select(start, count) {
        Ok(v) => v,
        Err(e) => {
            return Err(e);
        },
    };
    let ghost sv = crate::tcg::events_view(selected@);
    let mut result: Vec<EventLogEntry> = Vec::new();
    let mut i: usize = 0;
    while i < selected.len()
        invariant
            sv == crate::tcg::events_view(selected@),
            i <= selected@.len(),
            result@.len() == i,
            forall|j: int|
                0 <= j < i ==> (#[trigger] result@[j] matches EventLogEntry::TcgImrEvent(e) && e@
                    == sv[j]),
        decreases selected@.len() - i,
    {
        result.push(EventLogEntry::TcgImrEvent(selected[i].duplicate()));
        i += 1;
    }
    Ok(result)
}

impl CVM for TdxVM {
    open spec fn cc_type_view(&self) -> (TeeType, Seq<char>) {
        (self.cc_type.tee_type, self.cc_type.tee_type_str@)
    }

    open spec fn dump_view(&self) -> (Seq<char>, Seq<char>) {
        (self.cc_type.tee_type_str@, tdx_version_name(self.version))
    }

    open spec fn measurement_view(&self, index: u8, algo_id: u16) -> Result<TcgDigestView, CcError> {
        match measurement_error(index, algo_id, self.rtrms@.len() > index) {
            Some(e) => Err(e),
            None => Ok(self.rtrms@[index as int].digest@),
        }
    }

    fn get_cc_type(&self) -> CcType {
        self.cc_type.duplicate()
    }

    fn dump(&self) -> (String, String) {
        (self.cc_type.tee_type_str.clone(), self.version_name())
    }

    fn process_cc_measurement(&self, index: u8, algo_id: u16) -> Result<TcgDigest, CcError> {
        self.get_measurement(index, algo_id)
    }

    fn process_cc_eventlog(&self, data: Vec<u8>, start: Option<u32>, count: Option<u32>) -> Result<
        Vec<EventLogEntry>,
        CcError,
    > {
        read_eventlog(data, start, count)
    }
}

impl TcgAlgorithmRegistry for TdxVM {
    open spec fn algorithm_id_view(&self) -> u16 {
        self.algo_id
    }

    fn get_algorithm_id(&self) -> u16 {
        self.algo_id
    }
}

impl BuildCVM for TdxVM {

}

} // verus!
