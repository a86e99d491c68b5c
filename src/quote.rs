use vstd::prelude::*;

use crate::bytes::{
    be32, copy_range, fits, get_u16, get_u32, get_u32_be, le16, le32, push_all, push_u16, push_u32,
    push_u32_be, push_u64, push_zeros, u16_le, u32_be, u32_le, u64_le, zeros,
};
use crate::error::{CcError, ParseError};
use crate::tdx::{
    qe_cert_data_type_spec, QeCertDataType, Tdx, TDX_QUOTE_LEN, TDX_QUOTE_VERSION_4,
    TDX_REPORT_LEN,
};

verus! {

/// QGS message type of a quote request.
pub const GET_QUOTE_REQ: u32 = 0;

/// QGS message type of a quote response.
pub const GET_QUOTE_RESP: u32 = 1;

/// Length of a QGS message header.
pub const QGS_MSG_HEADER_LEN: usize = 16;

/// Length of a serialized QGS quote request: header, two sizes and the report.
pub const QGS_QUOTE_REQ_LEN: usize = 1048;

/// Offset of the data buffer in the quote request envelope.
pub const QUOTE_ENVELOPE_DATA_OFFSET: usize = 28;

/// Length of the quote header.
pub const QUOTE_HEADER_LEN: usize = 48;

/// Length of the version 4 quote body.
pub const QUOTE_BODY_LEN: usize = 584;

/// Offset of the signature length in a version 4 quote.
pub const QUOTE_SIG_LEN_OFFSET: usize = 632;

/// Header of a message to or from the Quote Generation Service.
#[allow(non_camel_case_types)]
#[derive(Clone, Copy, Debug, PartialEq, Eq, Structural)]
pub struct qgs_msg_header {
    pub major_version: u16,
    pub minor_version: u16,
    pub msg_type: u32,
    pub size: u32,
    pub error_code: u32,
}

/// Bytes of a QGS message header.
pub open spec fn qgs_header_bytes(h: qgs_msg_header) -> Seq<u8> {
    u16_le(h.major_version) + u16_le(h.minor_version) + u32_le(h.msg_type) + u32_le(h.size)
        + u32_le(h.error_code)
}

/// The header of a quote request for one TD report.
pub open spec fn quote_req_header() -> qgs_msg_header {
    qgs_msg_header {
        major_version: 1,
        minor_version: 0,
        msg_type: GET_QUOTE_REQ,
        size: QGS_QUOTE_REQ_LEN as u32,
        error_code: 0,
    }
}

/// Bytes of the QGS quote request for `report`.
pub open spec fn qgs_request_bytes(report: Seq<u8>) -> Seq<u8> {
    qgs_header_bytes(quote_req_header()) + u32_le(TDX_REPORT_LEN as u32) + u32_le(0) + report
}

/// Bytes of the envelope that carries the QGS request for `report` to the driver:
/// version 1, status 0, input length, output length 0, the big-endian message
/// length, then a 16 KiB buffer holding the message.
pub open spec fn quote_envelope_bytes(report: Seq<u8>) -> Seq<u8> {
    u64_le(1) + u64_le(0) + u32_le((QGS_QUOTE_REQ_LEN + 4) as u32) + u32_le(0) + u32_be(
        QGS_QUOTE_REQ_LEN as u32,
    ) + qgs_request_bytes(report) + zeros((TDX_QUOTE_LEN - QGS_QUOTE_REQ_LEN) as nat)
}

impl qgs_msg_header {
    /// Whether the fields are those of the header stored in `d` from `at`.
    pub open spec fn decodes(&self, d: Seq<u8>, at: int) -> bool {
        &&& self.major_version as int == le16(d, at)
        &&& self.minor_version as int == le16(d, at + 2)
        &&& self.msg_type as int == le32(d, at + 4)
        &&& self.size as int == le32(d, at + 8)
        &&& self.error_code as int == le32(d, at + 12)
    }

    /// Decodes the header stored in `d` from `at`.
    pub fn from_bytes(d: &[u8], at: usize) -> (r: qgs_msg_header)
        requires
            fits(d@, at as int, QGS_MSG_HEADER_LEN as int),
        ensures
            r.decodes(d@, at as int),
    {
        let _n = d.len();
        qgs_msg_header {
            major_version: get_u16(d, at),
            minor_version: get_u16(d, at + 2),
            msg_type: get_u32(d, at + 4),
            size: get_u32(d, at + 8),
            error_code: get_u32(d, at + 12),
        }
    }

    /// Appends the header's bytes.
    pub fn write(&self, out: &mut Vec<u8>)
        ensures
            final(out)@ == old(out)@ + qgs_header_bytes(*self),
    {
        let ghost start = out@;
        push_u16(out, self.major_version);
        push_u16(out, self.minor_version);
        push_u32(out, self.msg_type);
        push_u32(out, self.size);
        push_u32(out, self.error_code);
        assert(out@ =~= start + qgs_header_bytes(*self));
    }
}

/// A QGS quote request: header, report size, id-list size, then the report.
#[allow(non_camel_case_types)]
pub struct qgs_msg_get_quote_req {
    pub header: qgs_msg_header,
    pub report_size: u32,
    pub id_list_size: u32,
    pub report_id_list: Vec<u8>,
}

impl qgs_msg_get_quote_req {
    /// The message's bytes.
    pub fn to_bytes(&self) -> (r: Vec<u8>)
        ensures
            r@ == qgs_header_bytes(self.header) + u32_le(self.report_size) + u32_le(
                self.id_list_size,
            ) + self.report_id_list@,
    {
        let mut out: Vec<u8> = Vec::new();
        self.header.write(&mut out);
        push_u32(&mut out, self.report_size);
        push_u32(&mut out, self.id_list_size);
        push_all(&mut out, self.report_id_list.as_slice());
        assert(out@ =~= qgs_header_bytes(self.header) + u32_le(self.report_size) + u32_le(
            self.id_list_size,
        ) + self.report_id_list@);
        out
    }
}

/// A QGS quote response: header, size of the selected id, size of the quote, then
/// the selected id followed by the quote.
#[allow(non_camel_case_types)]
pub struct qgs_msg_get_quote_resp {
    pub header: qgs_msg_header,
    pub selected_id_size: u32,
    pub quote_size: u32,
    pub id_quote: Vec<u8>,
}

impl qgs_msg_get_quote_resp {
    /// Decodes the response stored in `d` from `at`; `id_quote` holds the rest of
    /// `d`. Fails with `Protocol` when fewer than 24 bytes remain.
    pub fn from_bytes(d: &[u8], at: usize) -> (r: Result<qgs_msg_get_quote_resp, CcError>)
        requires
            at <= d@.len(),
        ensures
            !fits(d@, at as int, 24) ==> (r matches Err(e) && e == CcError::Protocol),
            fits(d@, at as int, 24) ==> (r matches Ok(m) && m.header.decodes(d@, at as int)
                && m.selected_id_size as int == le32(d@, at + 16) && m.quote_size as int == le32(
                d@,
                at + 20,
            ) && m.id_quote@ == d@.subrange(at + 24, d@.len() as int)),
    {
        let len = d.len();
        if len - at < 24 {
            return Err(CcError::Protocol);
        }
        Ok(
            qgs_msg_get_quote_resp {
                header: qgs_msg_header::from_bytes(d, at),
                selected_id_size: get_u32(d, at + 16),
                quote_size: get_u32(d, at + 20),
                id_quote: copy_range(d, at + 24, len - at - 24),
            },
        )
    }

    /// Whether the header is that of a successful version 1.0 quote response.
    pub open spec fn is_success(&self) -> bool {
        self.header.major_version == 1 && self.header.minor_version == 0 && self.header.msg_type
            == GET_QUOTE_RESP && self.header.error_code == 0
    }

    /// The quote, which follows the selected id; `Protocol` when it does not fit.
    pub fn quote(&self) -> (r: Result<Vec<u8>, CcError>)
        ensures
            fits(self.id_quote@, self.selected_id_size as int, self.quote_size as int) ==> (r matches Ok(
                q,
            ) && q@ == self.id_quote@.subrange(
                self.selected_id_size as int,
                self.selected_id_size + self.quote_size,
            )),
            !fits(self.id_quote@, self.selected_id_size as int, self.quote_size as int) ==> (r matches Err(
                e,
            ) && e == CcError::Protocol),
    {
        let len = self.id_quote.len();
        let id = self.selected_id_size as usize;
        let size = self.quote_size as usize;
        if id > len || size > len - id {
            return Err(CcError::Protocol);
        }
        Ok(copy_range(self.id_quote.as_slice(), id, size))
    }
}

/// The envelope the driver's quote ioctl consumes and fills in place.
#[allow(non_camel_case_types)]
pub struct tdx_quote_hdr {
    pub version: u64,
    pub status: u64,
    pub in_len: u32,
    pub out_len: u32,
    pub data_len: u32,
    pub data: Vec<u8>,
}

impl tdx_quote_hdr {
    /// The envelope's bytes; `data_len` is written big-endian.
    pub fn to_bytes(&self) -> (r: Vec<u8>)
        ensures
            r@ == u64_le(self.version) + u64_le(self.status) + u32_le(self.in_len) + u32_le(
                self.out_len,
            ) + u32_be(self.data_len) + self.data@,
    {
        let mut out: Vec<u8> = Vec::new();
        push_u64(&mut out, self.version);
        push_u64(&mut out, self.status);
        push_u32(&mut out, self.in_len);
        push_u32(&mut out, self.out_len);
        push_u32_be(&mut out, self.data_len);
        push_all(&mut out, self.data.as_slice());
        assert(out@ =~= u64_le(self.version) + u64_le(self.status) + u32_le(self.in_len)
            + u32_le(self.out_len) + u32_be(self.data_len) + self.data@);
        out
    }
}

/// Address and length of the envelope, as the quote ioctl takes them.
#[allow(non_camel_case_types)]
pub struct tdx_quote_req {
    pub buf: u64,
    pub len: u64,
}

impl tdx_quote_req {
    /// A request for the envelope at `buf`.
    pub fn new(buf: u64) -> (r: tdx_quote_req)
        ensures
            r.buf == buf,
            r.len == TDX_QUOTE_LEN,
    {
        tdx_quote_req { buf, len: TDX_QUOTE_LEN as u64 }
    }
}

/// What the quote ioctl leaves in the envelope `buf`: the quote, or `Protocol`
/// when the sizes disagree, the buffer is too short, or the response header is
/// not a successful version 1.0 quote response.
pub open spec fn quote_response_spec(buf: Seq<u8>) -> Result<Seq<u8>, CcError> {
    if buf.len() < QUOTE_ENVELOPE_DATA_OFFSET + 24 {
        Err(CcError::Protocol)
    } else if le32(buf, 20) - be32(buf, 24) != 4 {
        Err(CcError::Protocol)
    } else if le16(buf, 28) != 1 || le16(buf, 30) != 0 || le32(buf, 32) != GET_QUOTE_RESP as int
        || le32(buf, 40) != 0 {
        Err(CcError::Protocol)
    } else {
        let start = 52 + le32(buf, 44);
        let size = le32(buf, 48);
        if !fits(buf, start, size) {
            Err(CcError::Protocol)
        } else {
            Ok(buf.subrange(start, start + size))
        }
    }
}

impl Tdx {
    /// The QGS quote request for a 1024-byte TD report.
    pub fn generate_qgs_quote_msg(report: &[u8]) -> (r: qgs_msg_get_quote_req)
        requires
            report@.len() == TDX_REPORT_LEN,
        ensures
            r.header == quote_req_header(),
            r.report_size == TDX_REPORT_LEN,
            r.id_list_size == 0,
            r.report_id_list@ == report@,
    {
        let header = qgs_msg_header {
            major_version: 1,
            minor_version: 0,
            msg_type: GET_QUOTE_REQ,
            size: (QGS_MSG_HEADER_LEN + 8 + TDX_REPORT_LEN) as u32,
            error_code: 0,
        };
        let mut report_id_list: Vec<u8> = Vec::new();
        push_all(&mut report_id_list, report);
        qgs_msg_get_quote_req {
            header,
            report_size: TDX_REPORT_LEN as u32,
            id_list_size: 0,
            report_id_list,
        }
    }

    /// The envelope that asks the driver for a quote over a 1024-byte TD report.
    pub fn generate_quote_envelope(report: &[u8]) -> (r: tdx_quote_hdr)
        requires
            report@.len() == TDX_REPORT_LEN,
        ensures
            r.version == 1,
            r.status == 0,
            r.in_len == QGS_QUOTE_REQ_LEN + 4,
            r.out_len == 0,
            r.data_len == QGS_QUOTE_REQ_LEN,
            r.data@ == qgs_request_bytes(report@) + zeros((TDX_QUOTE_LEN - QGS_QUOTE_REQ_LEN) as nat),
    {
        let msg = Tdx::generate_qgs_quote_msg(report);
        let mut data = msg.to_bytes();
        push_zeros(&mut data, TDX_QUOTE_LEN - QGS_QUOTE_REQ_LEN);
        tdx_quote_hdr {
            version: 1,
            status: 0,
            in_len: (QGS_QUOTE_REQ_LEN + 4) as u32,
            out_len: 0,
            data_len: QGS_QUOTE_REQ_LEN as u32,
            data,
        }
    }

    /// The envelope's bytes, ready for the quote ioctl.
    pub fn generate_quote_request(report: &[u8]) -> (r: Vec<u8>)
        requires
            report@.len() == TDX_REPORT_LEN,
        ensures
            r@ == quote_envelope_bytes(report@),
    {
        let env = Tdx::generate_quote_envelope(report);
        env.to_bytes()
    }

    /// Checks the envelope that the quote ioctl filled and returns the quote in it.
    pub fn parse_quote_response(buf: &[u8]) -> (r: Result<Vec<u8>, CcError>)
        ensures
            match quote_response_spec(buf@) {
                Ok(q) => r matches Ok(v) && v@ == q,
                Err(e) => r matches Err(x) && x == e,
            },
    {
        let len = buf.len();
        if len < QUOTE_ENVELOPE_DATA_OFFSET + 24 {
            return Err(CcError::Protocol);
        }
        let out_len = get_u32(buf, 20);
        let resp_size = get_u32_be(buf, 24);
        if out_len < resp_size || out_len - resp_size != 4 {
            return Err(CcError::Protocol);
        }
        let resp = match qgs_msg_get_quote_resp::from_bytes(buf, QUOTE_ENVELOPE_DATA_OFFSET) {
            Ok(m) => m,
            Err(e) => {
                return Err(e);
            },
        };
        if resp.header.major_version != 1 || resp.header.minor_version != 0
            || resp.header.msg_type != GET_QUOTE_RESP || resp.header.error_code != 0 {
            return Err(CcError::Protocol);
        }
        let r = resp.quote();
        proof {
            let id = le32(buf@, 44);
            let size = le32(buf@, 48);
            if fits(resp.id_quote@, id, size) {
                assert(resp.id_quote@.subrange(id, id + size) =~= buf@.subrange(52 + id, 52 + id + size));
            }
        }
        r
    }
}

/// The quote header.
#[derive(Debug)]
pub struct TdxQuoteHeader {
    pub version: u16,
    pub ak_type: u16,
    pub tee_type: u32,
    pub reserved_1: Vec<u8>,
    pub reserved_2: Vec<u8>,
    pub qe_vendor: Vec<u8>,
    pub user_data: Vec<u8>,
}

impl TdxQuoteHeader {
    /// Whether the header's fields are those stored in the 48 bytes `d`.
    pub open spec fn decodes(&self, d: Seq<u8>) -> bool {
        &&& self.version as int == le16(d, 0)
        &&& self.ak_type as int == le16(d, 2)
        &&& self.tee_type as int == le32(d, 4)
        &&& self.reserved_1@ == d.subrange(8, 10)
        &&& self.reserved_2@ == d.subrange(10, 12)
        &&& self.qe_vendor@ == d.subrange(12, 28)
        &&& self.user_data@ == d.subrange(28, 48)
    }

    /// Decodes the first 48 bytes of `q`.
    pub fn new(q: &[u8]) -> (r: TdxQuoteHeader)
        requires
            q@.len() >= QUOTE_HEADER_LEN,
        ensures
            r.decodes(q@),
    {
        TdxQuoteHeader {
            version: get_u16(q, 0),
            ak_type: get_u16(q, 2),
            tee_type: get_u32(q, 4),
            reserved_1: copy_range(q, 8, 2),
            reserved_2: copy_range(q, 10, 2),
            qe_vendor: copy_range(q, 12, 16),
            user_data: copy_range(q, 28, 20),
        }
    }
}

/// The TD quote body of a version 4 quote.
#[derive(Debug)]
pub struct TdxQuoteBody {
    pub tee_tcb_svn: Vec<u8>,
    pub mrseam: Vec<u8>,
    pub mrseam_signer: Vec<u8>,
    pub seam_attributes: Vec<u8>,
    pub td_attributes: Vec<u8>,
    pub xfam: Vec<u8>,
    pub mrtd: Vec<u8>,
    pub mrconfigid: Vec<u8>,
    pub mrowner: Vec<u8>,
    pub mrownerconfig: Vec<u8>,
    pub rtmr0: Vec<u8>,
    pub rtmr1: Vec<u8>,
    pub rtmr2: Vec<u8>,
    pub rtmr3: Vec<u8>,
    pub report_data: Vec<u8>,
}

impl TdxQuoteBody {
    /// Whether the body's fields are those stored in `d` from offset `at`.
    pub open spec fn decodes(&self, d: Seq<u8>, at: int) -> bool {
        &&& self.tee_tcb_svn@ == d.subrange(at, at + 16)
        &&& self.mrseam@ == d.subrange(at + 16, at + 64)
        &&& self.mrseam_signer@ == d.subrange(at + 64, at + 112)
        &&& self.seam_attributes@ == d.subrange(at + 112, at + 120)
        &&& self.td_attributes@ == d.subrange(at + 120, at + 128)
        &&& self.xfam@ == d.subrange(at + 128, at + 136)
        &&& self.mrtd@ == d.subrange(at + 136, at + 184)
        &&& self.mrconfigid@ == d.subrange(at + 184, at + 232)
        &&& self.mrowner@ == d.subrange(at + 232, at + 280)
        &&& self.mrownerconfig@ == d.subrange(at + 280, at + 328)
        &&& self.rtmr0@ == d.subrange(at + 328, at + 376)
        &&& self.rtmr1@ == d.subrange(at + 376, at + 424)
        &&& self.rtmr2@ == d.subrange(at + 424, at + 472)
        &&& self.rtmr3@ == d.subrange(at + 472, at + 520)
        &&& self.report_data@ == d.subrange(at + 520, at + 584)
    }

    /// Decodes the 584 body bytes of `q` that start at `at`.
    pub fn new(q: &[u8], at: usize) -> (r: TdxQuoteBody)
        requires
            fits(q@, at as int, QUOTE_BODY_LEN as int),
        ensures
            r.decodes(q@, at as int),
    {
        let _n = q.len();
        TdxQuoteBody {
            tee_tcb_svn: copy_range(q, at, 16),
            mrseam: copy_range(q, at + 16, 48),
            mrseam_signer: copy_range(q, at + 64, 48),
            seam_attributes: copy_range(q, at + 112, 8),
            td_attributes: copy_range(q, at + 120, 8),
            xfam: copy_range(q, at + 128, 8),
            mrtd: copy_range(q, at + 136, 48),
            mrconfigid: copy_range(q, at + 184, 48),
            mrowner: copy_range(q, at + 232, 48),
            mrownerconfig: copy_range(q, at + 280, 48),
            rtmr0: copy_range(q, at + 328, 48),
            rtmr1: copy_range(q, at + 376, 48),
            rtmr2: copy_range(q, at + 424, 48),
            rtmr3: copy_range(q, at + 472, 48),
            report_data: copy_range(q, at + 520, 64),
        }
    }
}

/// The raw quote signature data.
#[derive(Debug)]
pub struct TdxQuoteSignature {
    pub data: Vec<u8>,
}

/// QE report certification data.
#[derive(Debug)]
pub struct TdxQuoteQeReportCert {
    pub qe_report: Vec<u8>,
    pub qe_report_sig: Vec<u8>,
    pub qe_auth_cert: Vec<u8>,
}

impl TdxQuoteQeReportCert {
    /// Decodes QE report certification data: a 384-byte QE report, its 64-byte
    /// signature, then the authentication and certification data.
    pub fn new(d: &[u8]) -> (r: Result<TdxQuoteQeReportCert, CcError>)
        ensures
            d@.len() < 448 ==> r == Err::<TdxQuoteQeReportCert, CcError>(
                CcError::Parse(ParseError::Truncated),
            ),
            d@.len() >= 448 ==> (r matches Ok(c) && c.qe_report@ == d@.subrange(0, 384)
                && c.qe_report_sig@ == d@.subrange(384, 448) && c.qe_auth_cert@ == d@.subrange(
                448,
                d@.len() as int,
            )),
    {
        let len = d.len();
        if len < 448 {
            return Err(CcError::Parse(ParseError::Truncated));
        }
        Ok(
            TdxQuoteQeReportCert {
                qe_report: copy_range(d, 0, 384),
                qe_report_sig: copy_range(d, 384, 64),
                qe_auth_cert: copy_range(d, 448, len - 448),
            },
        )
    }
}

/// QE certification data: its type and payload.
#[derive(Debug)]
pub struct TdxQuoteQeCert {
    pub cert_type: QeCertDataType,
    pub cert_data: Vec<u8>,
}

/// An ECDSA-256 quote signature: signature, attestation key, QE certification data.
#[derive(Debug)]
pub struct TdxQuoteEcdsa256Sigature {
    pub sig: Vec<u8>,
    pub ak: Vec<u8>,
    pub qe_cert: TdxQuoteQeCert,
}

impl TdxQuoteSignature {
    /// Decodes the data as an ECDSA-256 signature: 64 signature bytes, 64 key
    /// bytes, then the certification type (`u16`), size (`u32`) and payload.
    pub fn ecdsa256(&self) -> (r: Result<TdxQuoteEcdsa256Sigature, CcError>)
        ensures
            ({
                let d = self.data@;
                if d.len() < 134 {
                    r == Err::<TdxQuoteEcdsa256Sigature, CcError>(
                        CcError::Parse(ParseError::Truncated),
                    )
                } else if qe_cert_data_type_spec(le16(d, 128) as u16) is None {
                    r == Err::<TdxQuoteEcdsa256Sigature, CcError>(
                        CcError::Parse(ParseError::UnsupportedCertType),
                    )
                } else if !fits(d, 134, le32(d, 130)) {
                    r == Err::<TdxQuoteEcdsa256Sigature, CcError>(
                        CcError::Parse(ParseError::Truncated),
                    )
                } else {
                    r matches Ok(s) && s.sig@ == d.subrange(0, 64) && s.ak@ == d.subrange(64, 128)
                        && Some(s.qe_cert.cert_type) == qe_cert_data_type_spec(le16(d, 128) as u16)
                        && s.qe_cert.cert_data@ == d.subrange(134, 134 + le32(d, 130))
                }
            }),
    {
        let d = self.data.as_slice();
        let len = d.len();
        if len < 134 {
            return Err(CcError::Parse(ParseError::Truncated));
        }
        let tag = get_u16(d, 128);
        let cert_type = match QeCertDataType::from_tag(tag) {
            Some(t) => t,
            None => {
                return Err(CcError::Parse(ParseError::UnsupportedCertType));
            },
        };
        let size = get_u32(d, 130) as usize;
        if size > len - 134 {
            return Err(CcError::Parse(ParseError::Truncated));
        }
        Ok(
            TdxQuoteEcdsa256Sigature {
                sig: copy_range(d, 0, 64),
                ak: copy_range(d, 64, 64),
                qe_cert: TdxQuoteQeCert { cert_type, cert_data: copy_range(d, 134, size) },
            },
        )
    }
}

/// What decoding the raw quote `q` gives: `Truncated` for short input,
/// `UnsupportedQuoteVersion` for any version but 4, else the header, the body and
/// the signature data stored in `q`.
pub open spec fn quote_parse_result(q: Seq<u8>, r: Result<TdxQuote, CcError>) -> bool {
    if q.len() < QUOTE_HEADER_LEN {
        r == Err::<TdxQuote, CcError>(CcError::Parse(ParseError::Truncated))
    } else if le16(q, 0) != TDX_QUOTE_VERSION_4 as int {
        r == Err::<TdxQuote, CcError>(CcError::Parse(ParseError::UnsupportedQuoteVersion))
    } else if q.len() < QUOTE_SIG_LEN_OFFSET + 4 || !fits(
        q,
        QUOTE_SIG_LEN_OFFSET + 4,
        le32(q, QUOTE_SIG_LEN_OFFSET as int),
    ) {
        r == Err::<TdxQuote, CcError>(CcError::Parse(ParseError::Truncated))
    } else {
        r matches Ok(t) && t.header.decodes(q) && t.body.decodes(q, QUOTE_HEADER_LEN as int)
            && t.sig_len as int == le32(q, QUOTE_SIG_LEN_OFFSET as int) && t.sig.data@
            == q.subrange(636, 636 + t.sig_len)
    }
}

/// A decoded version 4 quote.
#[derive(Debug)]
pub struct TdxQuote {
    pub header: TdxQuoteHeader,
    pub body: TdxQuoteBody,
    pub sig_len: u32,
    pub sig: TdxQuoteSignature,
}

impl TdxQuote {
    /// Decodes a raw quote: a 48-byte header; for version 4 a 584-byte body, the
    /// signature length (`u32`) and the signature data. Other versions fail with
    /// `UnsupportedQuoteVersion`, short input with `Truncated`.
    pub fn parse_tdx_quote(quote: &[u8]) -> (r: Result<TdxQuote, CcError>)
        ensures
            quote_parse_result(quote@, r),
    {
        let len = quote.len();
        if len < QUOTE_HEADER_LEN {
            return Err(CcError::Parse(ParseError::Truncated));
        }
        let header = TdxQuoteHeader::new(quote);
        if header.version != TDX_QUOTE_VERSION_4 {
            return Err(CcError::Parse(ParseError::UnsupportedQuoteVersion));
        }
        if len < QUOTE_SIG_LEN_OFFSET + 4 {
            return Err(CcError::Parse(ParseError::Truncated));
        }
        let body = TdxQuoteBody::new(quote, QUOTE_HEADER_LEN);
        let sig_len = get_u32(quote, QUOTE_SIG_LEN_OFFSET);
        if sig_len as usize > len - QUOTE_SIG_LEN_OFFSET - 4 {
            return Err(CcError::Parse(ParseError::Truncated));
        }
        let sig = TdxQuoteSignature { data: copy_range(quote, QUOTE_SIG_LEN_OFFSET + 4, sig_len as usize) };
        Ok(TdxQuote { header, body, sig_len, sig })
    }
}

/// The envelope handed to the driver carries the TD report unchanged, right after
/// the envelope header, the QGS header and the two size fields.
pub proof fn lemma_envelope_carries_report(report: Seq<u8>)
    requires
        report.len() == TDX_REPORT_LEN,
    ensures
        quote_envelope_bytes(report).len() == QUOTE_ENVELOPE_DATA_OFFSET + TDX_QUOTE_LEN,
        quote_envelope_bytes(report).subrange(52, 1076) == report,
{
    let e = quote_envelope_bytes(report);
    let prefix = u64_le(1) + u64_le(0) + u32_le((QGS_QUOTE_REQ_LEN + 4) as u32) + u32_le(0)
        + u32_be(QGS_QUOTE_REQ_LEN as u32) + qgs_header_bytes(quote_req_header()) + u32_le(
        TDX_REPORT_LEN as u32,
    ) + u32_le(0);
    assert(prefix.len() == 52);
    assert(e =~= prefix + report + zeros((TDX_QUOTE_LEN - QGS_QUOTE_REQ_LEN) as nat));
    assert(e.subrange(52, 1076) =~= report);
}

} // verus!
