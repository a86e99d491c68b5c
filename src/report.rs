use vstd::prelude::*;

use crate::bytes::{copy_range, fits, push_all};
use crate::error::{CcError, ParseError};
use crate::tdx::{Tdx, TdxVersion, REPORT_DATA_LEN, TDX_REPORT_LEN};

verus! {

/// Length of `REPORTMACSTRUCT`.
pub const REPORT_MAC_STRUCT_LEN: usize = 256;

/// Length of `TEE_TCB_INFO` as it stands in a TD report.
pub const TEE_TCB_INFO_LEN: usize = 239;

/// Length of the reserved gap between `TEE_TCB_INFO` and `TDINFO_STRUCT`.
pub const TD_REPORT_RESERVED_LEN: usize = 17;

/// Length of `TDINFO_STRUCT`.
pub const TD_INFO_LEN: usize = 512;

/// Offset of `TEE_TCB_INFO` in a TD report.
pub const TEE_TCB_INFO_OFFSET: usize = 256;

/// Offset of `TDINFO_STRUCT` in a TD report.
pub const TD_INFO_OFFSET: usize = 512;

/// Offset, within `TEE_TCB_INFO`, of the reserved tail for each TDX generation:
/// TDX 1.5 puts the 16-byte `tee_tcb_svn2` in front of it.
pub open spec fn tee_tcb_reserved_offset(v: TdxVersion) -> int {
    match v {
        TdxVersion::TDX_1_0 => 128,
        TdxVersion::TDX_1_5 => 144,
    }
}

/// Offset, within `TDINFO_STRUCT`, of the reserved tail for each TDX generation:
/// TDX 1.5 puts the 48-byte `servtd_hash` in front of it.
pub open spec fn td_info_reserved_offset(v: TdxVersion) -> int {
    match v {
        TdxVersion::TDX_1_0 => 400,
        TdxVersion::TDX_1_5 => 448,
    }
}

/// The executable form of [`tee_tcb_reserved_offset`].
pub fn tee_tcb_reserved_start(v: TdxVersion) -> (r: usize)
    ensures
        r as int == tee_tcb_reserved_offset(v),
{
    match v {
        TdxVersion::TDX_1_0 => 128,
        TdxVersion::TDX_1_5 => 144,
    }
}

/// The executable form of [`td_info_reserved_offset`].
pub fn td_info_reserved_start(v: TdxVersion) -> (r: usize)
    ensures
        r as int == td_info_reserved_offset(v),
{
    match v {
        TdxVersion::TDX_1_0 => 400,
        TdxVersion::TDX_1_5 => 448,
    }
}

/// The view of an optional byte vector.
pub open spec fn opt_bytes(v: Option<Vec<u8>>) -> Option<Seq<u8>> {
    match v {
        Some(b) => Some(b@),
        None => None,
    }
}

/// `REPORTMACSTRUCT`, the first 256 bytes of a TD report.
#[derive(Debug)]
pub struct ReportMacStruct {
    pub report_type: Vec<u8>,
    pub reserverd1: Vec<u8>,
    pub cpusvn: Vec<u8>,
    pub tee_tcb_info_hash: Vec<u8>,
    pub tee_info_hash: Vec<u8>,
    pub report_data: Vec<u8>,
    pub reserverd2: Vec<u8>,
    pub mac: Vec<u8>,
}

impl ReportMacStruct {
    /// Whether the fields are those of the `REPORTMACSTRUCT` stored in `d` from `at`.
    pub open spec fn decodes(&self, d: Seq<u8>, at: int) -> bool {
        &&& self.report_type@ == d.subrange(at, at + 8)
        &&& self.reserverd1@ == d.subrange(at + 8, at + 16)
        &&& self.cpusvn@ == d.subrange(at + 16, at + 32)
        &&& self.tee_tcb_info_hash@ == d.subrange(at + 32, at + 80)
        &&& self.tee_info_hash@ == d.subrange(at + 80, at + 128)
        &&& self.report_data@ == d.subrange(at + 128, at + 192)
        &&& self.reserverd2@ == d.subrange(at + 192, at + 224)
        &&& self.mac@ == d.subrange(at + 224, at + 256)
    }

    /// Decodes the `REPORTMACSTRUCT` stored in `d` from `at`.
    pub fn from_bytes(d: &[u8], at: usize) -> (r: ReportMacStruct)
        requires
            fits(d@, at as int, REPORT_MAC_STRUCT_LEN as int),
        ensures
            r.decodes(d@, at as int),
    {
        let _n = d.len();
        ReportMacStruct {
            report_type: copy_range(d, at, 8),
            reserverd1: copy_range(d, at + 8, 8),
            cpusvn: copy_range(d, at + 16, 16),
            tee_tcb_info_hash: copy_range(d, at + 32, 48),
            tee_info_hash: copy_range(d, at + 80, 48),
            report_data: copy_range(d, at + 128, 64),
            reserverd2: copy_range(d, at + 192, 32),
            mac: copy_range(d, at + 224, 32),
        }
    }

    /// Splits the 256 bytes of a `REPORTMACSTRUCT` into its fields.
    pub fn new(data: &[u8]) -> (r: ReportMacStruct)
        requires
            data@.len() == REPORT_MAC_STRUCT_LEN,
        ensures
            r.decodes(data@, 0),
    {
        ReportMacStruct::from_bytes(data, 0)
    }
}

/// `TEE_TCB_INFO`; `tee_tcb_svn2` exists from TDX 1.5 on.
#[derive(Debug)]
pub struct TeeTcbInfo {
    pub valid: Vec<u8>,
    pub tee_tcb_svn: Vec<u8>,
    pub mrseam: Vec<u8>,
    pub mrsignerseam: Vec<u8>,
    pub attributes: Vec<u8>,
    pub tee_tcb_svn2: Option<Vec<u8>>,
    pub reserved: Vec<u8>,
}

impl TeeTcbInfo {
    /// Whether the fields are those of the `TEE_TCB_INFO` stored in `d` from `at`,
    /// with the layout of `v`.
    pub open spec fn decodes(&self, d: Seq<u8>, at: int, v: TdxVersion) -> bool {
        &&& self.valid@ == d.subrange(at, at + 8)
        &&& self.tee_tcb_svn@ == d.subrange(at + 8, at + 24)
        &&& self.mrseam@ == d.subrange(at + 24, at + 72)
        &&& self.mrsignerseam@ == d.subrange(at + 72, at + 120)
        &&& self.attributes@ == d.subrange(at + 120, at + 128)
        &&& opt_bytes(self.tee_tcb_svn2) == match v {
            TdxVersion::TDX_1_0 => None,
            TdxVersion::TDX_1_5 => Some(d.subrange(at + 128, at + 144)),
        }
        &&& self.reserved@ == d.subrange(
            at + tee_tcb_reserved_offset(v),
            at + TEE_TCB_INFO_LEN as int,
        )
    }

    /// Decodes the `TEE_TCB_INFO` stored in `d` from `at` with the layout of
    /// `tdx_version`.
    pub fn from_bytes(d: &[u8], at: usize, tdx_version: TdxVersion) -> (r: TeeTcbInfo)
        requires
            fits(d@, at as int, TEE_TCB_INFO_LEN as int),
        ensures
            r.decodes(d@, at as int, tdx_version),
    {
        let _n = d.len();
        let rs = tee_tcb_reserved_start(tdx_version);
        let tee_tcb_svn2 = match tdx_version {
            TdxVersion::TDX_1_0 => None,
            TdxVersion::TDX_1_5 => Some(copy_range(d, at + 128, 16)),
        };
        TeeTcbInfo {
            valid: copy_range(d, at, 8),
            tee_tcb_svn: copy_range(d, at + 8, 16),
            mrseam: copy_range(d, at + 24, 48),
            mrsignerseam: copy_range(d, at + 72, 48),
            attributes: copy_range(d, at + 120, 8),
            tee_tcb_svn2,
            reserved: copy_range(d, at + rs, TEE_TCB_INFO_LEN - rs),
        }
    }

    /// Splits the 239 bytes of a `TEE_TCB_INFO` with the layout of `tdx_version`.
    pub fn new(data: Vec<u8>, tdx_version: TdxVersion) -> (r: TeeTcbInfo)
        requires
            data@.len() == TEE_TCB_INFO_LEN,
        ensures
            r.decodes(data@, 0, tdx_version),
    {
        TeeTcbInfo::from_bytes(data.as_slice(), 0, tdx_version)
    }
}

/// `TDINFO_STRUCT`; `servtd_hash` exists from TDX 1.5 on.
#[derive(Debug)]
pub struct TdInfo {
    pub attributes: Vec<u8>,
    pub xfam: Vec<u8>,
    pub mrtd: Vec<u8>,
    pub mrconfigid: Vec<u8>,
    pub mrowner: Vec<u8>,
    pub mrownerconfig: Vec<u8>,
    pub rtmr0: Vec<u8>,
    pub rtmr1: Vec<u8>,
    pub rtmr2: Vec<u8>,
    pub rtmr3: Vec<u8>,
    pub servtd_hash: Option<Vec<u8>>,
    pub reserved: Vec<u8>,
}

impl TdInfo {
    /// Whether the fields are those of the `TDINFO_STRUCT` stored in `d` from `at`,
    /// with the layout of `v`.
    pub open spec fn decodes(&self, d: Seq<u8>, at: int, v: TdxVersion) -> bool {
        &&& self.attributes@ == d.subrange(at, at + 8)
        &&& self.xfam@ == d.subrange(at + 8, at + 16)
        &&& self.mrtd@ == d.subrange(at + 16, at + 64)
        &&& self.mrconfigid@ == d.subrange(at + 64, at + 112)
        &&& self.mrowner@ == d.subrange(at + 112, at + 160)
        &&& self.mrownerconfig@ == d.subrange(at + 160, at + 208)
        &&& self.rtmr0@ == d.subrange(at + 208, at + 256)
        &&& self.rtmr1@ == d.subrange(at + 256, at + 304)
        &&& self.rtmr2@ == d.subrange(at + 304, at + 352)
        &&& self.rtmr3@ == d.subrange(at + 352, at + 400)
        &&& opt_bytes(self.servtd_hash) == match v {
            TdxVersion::TDX_1_0 => None,
            TdxVersion::TDX_1_5 => Some(d.subrange(at + 400, at + 448)),
        }
        &&& self.reserved@ == d.subrange(at + td_info_reserved_offset(v), at + TD_INFO_LEN as int)
    }

    /// Decodes the `TDINFO_STRUCT` stored in `d` from `at` with the layout of
    /// `tdx_version`.
    pub fn from_bytes(d: &[u8], at: usize, tdx_version: TdxVersion) -> (r: TdInfo)
        requires
            fits(d@, at as int, TD_INFO_LEN as int),
        ensures
            r.decodes(d@, at as int, tdx_version),
    {
        let _n = d.len();
        let rs = td_info_reserved_start(tdx_version);
        let servtd_hash = match tdx_version {
            TdxVersion::TDX_1_0 => None,
            TdxVersion::TDX_1_5 => Some(copy_range(d, at + 400, 48)),
        };
        TdInfo {
            attributes: copy_range(d, at, 8),
            xfam: copy_range(d, at + 8, 8),
            mrtd: copy_range(d, at + 16, 48),
            mrconfigid: copy_range(d, at + 64, 48),
            mrowner: copy_range(d, at + 112, 48),
            mrownerconfig: copy_range(d, at + 160, 48),
            rtmr0: copy_range(d, at + 208, 48),
            rtmr1: copy_range(d, at + 256, 48),
            rtmr2: copy_range(d, at + 304, 48),
            rtmr3: copy_range(d, at + 352, 48),
            servtd_hash,
            reserved: copy_range(d, at + rs, TD_INFO_LEN - rs),
        }
    }

    /// Splits the 512 bytes of a `TDINFO_STRUCT` with the layout of `tdx_version`.
    pub fn new(data: Vec<u8>, tdx_version: TdxVersion) -> (r: TdInfo)
        requires
            data@.len() == TD_INFO_LEN,
        ensures
            r.decodes(data@, 0, tdx_version),
    {
        TdInfo::from_bytes(data.as_slice(), 0, tdx_version)
    }
}

/// A decoded TD report.
#[derive(Debug)]
pub struct TDReport {
    pub report_mac_struct: ReportMacStruct,
    pub tee_tcb_info: TeeTcbInfo,
    pub reserved: Vec<u8>,
    pub td_info: TdInfo,
}

/// The bytes `[off, off + len)` of the TD report block that starts at `base`.
pub open spec fn report_field(report: Seq<u8>, base: int, off: int, len: int) -> Seq<u8> {
    report.subrange(base + off, base + off + len)
}

impl Tdx {
    /// Decodes a raw TD report with the layout of `tdx_version`; fails with
    /// `Parse(Truncated)` when fewer than 1024 bytes are given.
    pub fn parse_td_report(report: &Vec<u8>, tdx_version: TdxVersion) -> (r: Result<
        TDReport,
        CcError,
    >)
        ensures
            report@.len() < TDX_REPORT_LEN ==> (r matches Err(e) && e == CcError::Parse(
                ParseError::Truncated,
            )),
            report@.len() >= TDX_REPORT_LEN ==> (r matches Ok(t) && {
                &&& t.report_mac_struct.decodes(report@, 0)
                &&& t.tee_tcb_info.decodes(report@, TEE_TCB_INFO_OFFSET as int, tdx_version)
                &&& t.reserved@ == report@.subrange(495, 512)
                &&& t.td_info.decodes(report@, TD_INFO_OFFSET as int, tdx_version)
            }),
    {
        if report.len() < TDX_REPORT_LEN {
            return Err(CcError::Parse(ParseError::Truncated));
        }
        let d = report.as_slice();
        let report_mac_struct = ReportMacStruct::from_bytes(d, 0);
        let tee_tcb_info = TeeTcbInfo::from_bytes(d, TEE_TCB_INFO_OFFSET, tdx_version);
        let reserved = copy_range(d, TEE_TCB_INFO_OFFSET + TEE_TCB_INFO_LEN, TD_REPORT_RESERVED_LEN);
        let td_info = TdInfo::from_bytes(d, TD_INFO_OFFSET, tdx_version);
        Ok(TDReport { report_mac_struct, tee_tcb_info, reserved, td_info })
    }
}

/// The TDX 1.5 report request: 64 bytes of report input data followed by a
/// 1024-byte buffer that the driver fills with the TD report.
#[allow(non_camel_case_types)]
pub struct tdx_1_5_report_req {
    pub reportdata: Vec<u8>,
    pub tdreport: Vec<u8>,
}

impl tdx_1_5_report_req {
    /// A request for `report_data`, with a zeroed report buffer.
    pub fn new(report_data: &[u8]) -> (r: tdx_1_5_report_req)
        requires
            report_data@.len() == REPORT_DATA_LEN,
        ensures
            r.reportdata@ == report_data@,
            r.tdreport@ == Seq::new(TDX_REPORT_LEN as nat, |i: int| 0u8),
    {
        let mut reportdata: Vec<u8> = Vec::new();
        push_all(&mut reportdata, report_data);
        let mut tdreport: Vec<u8> = Vec::new();
        let mut i: usize = 0;
        while i < TDX_REPORT_LEN
            invariant
                i <= TDX_REPORT_LEN,
                tdreport@ == Seq::new(i as nat, |j: int| 0u8),
            decreases TDX_REPORT_LEN - i,
        {
            tdreport.push(0);
            i += 1;
            assert(tdreport@ =~= Seq::new(i as nat, |j: int| 0u8));
        }
        tdx_1_5_report_req { reportdata, tdreport }
    }
}

/// The TDX 1.0 report request: sub-type, addresses and lengths of the report
/// input data and of the report buffer.
#[allow(non_camel_case_types)]
pub struct tdx_1_0_report_req {
    pub subtype: u8,
    pub reportdata: u64,
    pub rpd_len: u32,
    pub tdreport: u64,
    pub tdr_len: u32,
}

impl tdx_1_0_report_req {
    /// A request whose input data and report buffer lie at the given addresses.
    pub fn new(reportdata: u64, tdreport: u64) -> (r: tdx_1_0_report_req)
        ensures
            r.subtype == 0,
            r.reportdata == reportdata,
            r.rpd_len == REPORT_DATA_LEN,
            r.tdreport == tdreport,
            r.tdr_len == TDX_REPORT_LEN,
    {
        tdx_1_0_report_req {
            subtype: 0,
            reportdata,
            rpd_len: REPORT_DATA_LEN as u32,
            tdreport,
            tdr_len: TDX_REPORT_LEN as u32,
        }
    }
}

/// The measurement registers and the report data sit at the same bytes of a TD
/// report whichever TDX generation decodes it; only the trailing fields of
/// `TEE_TCB_INFO` and `TDINFO_STRUCT` move.
pub proof fn lemma_version_offsets(report: Seq<u8>)
    requires
        report.len() == TDX_REPORT_LEN,
    ensures
        tee_tcb_reserved_offset(TdxVersion::TDX_1_5) == tee_tcb_reserved_offset(
            TdxVersion::TDX_1_0,
        ) + 16,
        td_info_reserved_offset(TdxVersion::TDX_1_5) == td_info_reserved_offset(
            TdxVersion::TDX_1_0,
        ) + 48,
        report_field(report, TD_INFO_OFFSET as int, 208, 48) == report.subrange(720, 768),
{
}

} // verus!
