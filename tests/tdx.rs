use base64::Engine;
use cctrusted::error::{CcError, ParseError};
use cctrusted::quote::TdxQuote;
use cctrusted::report_data::derive_report_data;
use cctrusted::rtmr::TdxRTMR;
use cctrusted::tcg::TPM_ALG_SHA384;
use cctrusted::tdx::{AttestationKeyType, IntelTeeType, Tdx, TdxVersion};
use sha2::Digest;

fn b64(bytes: &[u8]) -> String {
    base64::engine::general_purpose::STANDARD.encode(bytes)
}

#[test]
fn report_data_is_deterministic() {
    let nonce = b64(&[1u8; 32]);
    let data = b64(&[2u8; 32]);
    let a = Tdx::generate_tdx_report_data(nonce.clone(), Some(data.clone())).unwrap();
    let b = Tdx::generate_tdx_report_data(nonce.clone(), Some(data.clone())).unwrap();
    assert_eq!(a, b);
    let mut flipped = [1u8; 32];
    flipped[0] ^= 1;
    let c = Tdx::generate_tdx_report_data(b64(&flipped), Some(data)).unwrap();
    assert_ne!(a, c);
}

#[test]
fn report_data_is_sha512_of_nonce_and_data() {
    let nonce = [3u8, 4, 5];
    let data = [6u8, 7];
    let raw = derive_report_data(&b64(&nonce), Some(&b64(&data))).unwrap();
    let mut h = sha2::Sha512::new();
    h.update(nonce);
    h.update(data);
    assert_eq!(raw, h.finalize().to_vec());
    let encoded = Tdx::generate_tdx_report_data(b64(&nonce), Some(b64(&data))).unwrap();
    assert_eq!(encoded, b64(&raw));
    assert_eq!(encoded.len(), 88);
}

#[test]
fn report_data_without_user_data() {
    let nonce = [9u8; 16];
    let expected = sha2::Sha512::digest(nonce).to_vec();
    assert_eq!(derive_report_data(&b64(&nonce), None).unwrap(), expected);
    assert_eq!(derive_report_data(&b64(&nonce), Some("")).unwrap(), expected);
    let empty = derive_report_data("", None).unwrap();
    assert_eq!(empty[..4], [0xcf, 0x83, 0xe1, 0x35]);
    assert_eq!(empty.len(), 64);
}

#[test]
fn report_data_rejects_invalid_base64() {
    assert_eq!(
        Tdx::generate_tdx_report_data("not-base64!!".to_string(), Some(b64(b"x"))),
        Err(CcError::Encoding)
    );
    assert_eq!(derive_report_data(&b64(b"n"), Some("%%%")), Err(CcError::Encoding));
}

#[test]
fn measurement_register_validation() {
    let digest = [0x5Au8; 48];
    assert_eq!(TdxRTMR::new(4, TPM_ALG_SHA384, &digest).unwrap_err(), CcError::IndexOutOfRange);
    assert_eq!(TdxRTMR::new(0, 0xFF, &digest).unwrap_err(), CcError::UnknownAlgorithm);
    let m = TdxRTMR::new(3, TPM_ALG_SHA384, &digest).unwrap();
    assert_eq!(m.index, 3);
    assert_eq!(m.digest.algo_id, TPM_ALG_SHA384);
    assert_eq!(m.digest.hash, digest.to_vec());
}

fn patterned_report() -> Vec<u8> {
    (0..1024u32).map(|i| (i % 251) as u8).collect()
}

#[test]
fn td_report_version_offsets() {
    let raw = patterned_report();
    let v10 = Tdx::parse_td_report(&raw, TdxVersion::TDX_1_0).unwrap();
    let v15 = Tdx::parse_td_report(&raw, TdxVersion::TDX_1_5).unwrap();
    assert_eq!(v10.td_info.rtmr0, raw[720..768].to_vec());
    assert_eq!(v15.td_info.rtmr0, raw[720..768].to_vec());
    assert_eq!(v10.td_info.rtmr3, raw[864..912].to_vec());
    assert_eq!(v10.td_info.servtd_hash, None);
    assert_eq!(v15.td_info.servtd_hash, Some(raw[912..960].to_vec()));
    assert_eq!(v10.td_info.reserved, raw[912..1024].to_vec());
    assert_eq!(v15.td_info.reserved, raw[960..1024].to_vec());
    assert_eq!(v10.tee_tcb_info.tee_tcb_svn2, None);
    assert_eq!(v15.tee_tcb_info.tee_tcb_svn2, Some(raw[384..400].to_vec()));
    assert_eq!(v10.tee_tcb_info.reserved, raw[384..495].to_vec());
    assert_eq!(v15.tee_tcb_info.reserved, raw[400..495].to_vec());
    assert_eq!(v10.report_mac_struct.report_data, raw[128..192].to_vec());
    assert_eq!(v10.reserved, raw[495..512].to_vec());
    assert_eq!(
        Tdx::parse_td_report(&raw[..1000].to_vec(), TdxVersion::TDX_1_0).unwrap_err(),
        CcError::Parse(ParseError::Truncated)
    );
}

fn quote_with_report_data(version: u16, report_data: &[u8], sig: &[u8]) -> Vec<u8> {
    let mut q = vec![0u8; 48];
    q[0..2].copy_from_slice(&version.to_le_bytes());
    q[2..4].copy_from_slice(&2u16.to_le_bytes());
    q[4..8].copy_from_slice(&0x81u32.to_le_bytes());
    let mut body = vec![0x11u8; 584];
    body[520..584].copy_from_slice(report_data);
    q.extend(body);
    q.extend((sig.len() as u32).to_le_bytes());
    q.extend_from_slice(sig);
    q
}

#[test]
fn quote_report_data_round_trip() {
    let nonce = b64(&[7u8; 32]);
    let data = b64(&[8u8; 32]);
    let expected = Tdx::generate_tdx_report_data(nonce.clone(), Some(data.clone())).unwrap();
    let raw = derive_report_data(&nonce, Some(&data)).unwrap();
    let quote = quote_with_report_data(4, &raw, &[0xEE; 10]);
    let parsed = TdxQuote::parse_tdx_quote(&quote).unwrap();
    assert_eq!(b64(&parsed.body.report_data), expected);
    assert_eq!(parsed.header.version, 4);
    assert_eq!(parsed.header.tee_type, 0x81);
    assert_eq!(parsed.sig_len, 10);
    assert_eq!(parsed.sig.data, vec![0xEE; 10]);
    assert_eq!(parsed.body.mrtd, vec![0x11; 48]);
}

#[test]
fn quote_versions_and_truncation() {
    let v5 = quote_with_report_data(5, &[0u8; 64], &[]);
    assert_eq!(
        TdxQuote::parse_tdx_quote(&v5).unwrap_err(),
        CcError::Parse(ParseError::UnsupportedQuoteVersion)
    );
    assert_eq!(
        TdxQuote::parse_tdx_quote(&[4u8, 0, 2]).unwrap_err(),
        CcError::Parse(ParseError::Truncated)
    );
    let mut long_sig = quote_with_report_data(4, &[0u8; 64], &[1, 2, 3]);
    long_sig.truncate(long_sig.len() - 1);
    assert_eq!(
        TdxQuote::parse_tdx_quote(&long_sig).unwrap_err(),
        CcError::Parse(ParseError::Truncated)
    );
}

#[test]
fn quote_ecdsa_signature_decoding() {
    let mut sig = vec![0xA1u8; 64];
    sig.extend(vec![0xB2u8; 64]);
    sig.extend(6u16.to_le_bytes());
    sig.extend(3u32.to_le_bytes());
    sig.extend([1u8, 2, 3]);
    let quote = quote_with_report_data(4, &[0u8; 64], &sig);
    let parsed = TdxQuote::parse_tdx_quote(&quote).unwrap();
    let ecdsa = parsed.sig.ecdsa256().unwrap();
    assert_eq!(ecdsa.sig, vec![0xA1; 64]);
    assert_eq!(ecdsa.ak, vec![0xB2; 64]);
    assert_eq!(ecdsa.qe_cert.cert_type, cctrusted::tdx::QeCertDataType::QE_REPORT_CERT);
    assert_eq!(ecdsa.qe_cert.cert_data, vec![1, 2, 3]);
}

#[test]
fn quote_header_type_fields() {
    let quote = quote_with_report_data(4, &[0u8; 64], &[]);
    let parsed = TdxQuote::parse_tdx_quote(&quote).unwrap();
    assert_eq!(
        AttestationKeyType::from_value(parsed.header.ak_type),
        Some(AttestationKeyType::ECDSA_P256)
    );
    assert_eq!(IntelTeeType::from_value(parsed.header.tee_type), Some(IntelTeeType::TEE_TDX));
    assert_eq!(IntelTeeType::from_value(0), Some(IntelTeeType::TEE_SGX));
    assert_eq!(AttestationKeyType::from_value(7), None);
}
