use cctrusted::cc_type::{CcType, DevicePresence, TeeType};
use cctrusted::ccnp::CcnpServiceClient;
use cctrusted::cvm::TdxVM;
use cctrusted::error::{CcError, ParseError};
use cctrusted::api::{
    build_cvm, get_cc_measurement, get_cc_report, get_default_algorithm, CcReport, ExtraArgs,
    ParseCcReport, API,
};
use cctrusted::cvm::CVM;
use cctrusted::quote::TdxQuote;
use cctrusted::rtmr::{TcgIMR, TdxRTMR};
use cctrusted::tcg::TcgAlgorithmRegistry;
use rand::Rng;
use cctrusted::tcg::{get_algorithm_digest_size, get_algorithm_string, TcgEventType, TPM_ALG_SHA384};
use cctrusted::tdx::{Tdx, TdxVersion};

fn report() -> Vec<u8> {
    (0..1024u32).map(|i| (i % 253) as u8).collect()
}

#[test]
fn qgs_request_layout() {
    let r = report();
    let msg = Tdx::generate_qgs_quote_msg(&r);
    assert_eq!(msg.header.major_version, 1);
    assert_eq!(msg.header.minor_version, 0);
    assert_eq!(msg.header.msg_type, 0);
    assert_eq!(msg.header.size, 1048);
    assert_eq!(msg.report_size, 1024);
    assert_eq!(msg.id_list_size, 0);
    let env = Tdx::generate_quote_request(&r);
    assert_eq!(env.len(), 28 + 16384);
    assert_eq!(env[0..8], 1u64.to_le_bytes());
    assert_eq!(env[8..16], [0u8; 8]);
    assert_eq!(env[16..20], 1052u32.to_le_bytes());
    assert_eq!(env[20..24], [0u8; 4]);
    assert_eq!(env[24..28], 1048u32.to_be_bytes());
    assert_eq!(env[28..30], [1, 0]);
    assert_eq!(env[36..40], 1048u32.to_le_bytes());
    assert_eq!(env[44..48], 1024u32.to_le_bytes());
    assert_eq!(env[52..1076], r[..]);
    assert!(env[1076..].iter().all(|b| *b == 0));
}

fn response(quote: &[u8], id: &[u8], out_len_delta: u32, error_code: u32) -> Vec<u8> {
    let mut msg = Vec::new();
    msg.extend(1u16.to_le_bytes());
    msg.extend(0u16.to_le_bytes());
    msg.extend(1u32.to_le_bytes());
    let size = 24 + id.len() + quote.len();
    msg.extend((size as u32).to_le_bytes());
    msg.extend(error_code.to_le_bytes());
    msg.extend((id.len() as u32).to_le_bytes());
    msg.extend((quote.len() as u32).to_le_bytes());
    msg.extend_from_slice(id);
    msg.extend_from_slice(quote);
    let mut env = Vec::new();
    env.extend(1u64.to_le_bytes());
    env.extend(0u64.to_le_bytes());
    env.extend(1052u32.to_le_bytes());
    env.extend((size as u32 + out_len_delta).to_le_bytes());
    env.extend((size as u32).to_be_bytes());
    env.extend(msg);
    env.resize(28 + 16384, 0);
    env
}

#[test]
fn quote_response_validation() {
    let q = vec![0x42u8; 100];
    assert_eq!(Tdx::parse_quote_response(&response(&q, &[], 4, 0)).unwrap(), q);
    assert_eq!(Tdx::parse_quote_response(&response(&q, &[9, 9], 4, 0)).unwrap(), q);
    assert_eq!(Tdx::parse_quote_response(&response(&q, &[], 5, 0)), Err(CcError::Protocol));
    assert_eq!(Tdx::parse_quote_response(&response(&q, &[], 4, 1)), Err(CcError::Protocol));
    assert_eq!(Tdx::parse_quote_response(&[0u8; 10]), Err(CcError::Protocol));
}

#[test]
fn vm_records_report_and_measurements() {
    let presence = DevicePresence { tpm: false, tdx_1_0: false, tdx_1_5: true, sev: false };
    let mut vm: TdxVM = CcType::build_cvm(&presence).unwrap();
    assert_eq!(vm.version, TdxVersion::TDX_1_5);
    assert_eq!(vm.device_node.device_path, "/dev/tdx_guest");
    assert_eq!(get_cc_measurement(&vm, 0, TPM_ALG_SHA384).unwrap_err(), CcError::NoReport);
    let q = vec![0x42u8; 64];
    let r = report();
    let rep = get_cc_report(&mut vm, r.clone(), &response(&q, &[], 4, 0), ExtraArgs {}).unwrap();
    assert_eq!(rep.cc_report, q);
    assert_eq!(rep.cc_type, TeeType::TDX);
    let d = get_cc_measurement(&vm, 2, TPM_ALG_SHA384).unwrap();
    assert_eq!(d.hash, r[816..864].to_vec());
    assert_eq!(get_cc_measurement(&vm, 4, TPM_ALG_SHA384).unwrap_err(), CcError::IndexOutOfRange);
    assert_eq!(get_cc_measurement(&vm, 1, 0x4).unwrap_err(), CcError::UnknownAlgorithm);
    assert_eq!(
        get_cc_report(&mut vm, vec![0u8; 10], &response(&q, &[], 4, 0), ExtraArgs {}).unwrap_err(),
        CcError::Parse(ParseError::WrongLength)
    );
}

#[test]
fn tee_detection_and_default_algorithm() {
    let none = DevicePresence { tpm: false, tdx_1_0: false, tdx_1_5: false, sev: false };
    let tdx = DevicePresence { tpm: false, tdx_1_0: true, tdx_1_5: false, sev: false };
    let tpm = DevicePresence { tpm: true, tdx_1_0: true, tdx_1_5: false, sev: false };
    assert_eq!(CcType::new(&none).tee_type, TeeType::PLAIN);
    assert_eq!(CcType::new(&none).tee_type_str, "PLAIN");
    assert_eq!(CcType::new(&tdx).tee_type_str, "TDX");
    assert_eq!(CcType::new(&tpm).tee_type, TeeType::TPM);
    assert_eq!(CcType::build_cvm(&none).unwrap_err(), CcError::UnsupportedTee);
    assert_eq!(CcType::build_cvm(&tpm).unwrap_err(), CcError::UnsupportedTee);
    let algo = get_default_algorithm(&tdx).unwrap();
    assert_eq!(algo.algo_id, TPM_ALG_SHA384);
    assert_eq!(algo.algo_id_str, "TPM_ALG_SHA384");
    assert_eq!(get_default_algorithm(&none).unwrap_err(), CcError::UnsupportedTee);
}

#[test]
fn registry_lookups() {
    assert_eq!(get_algorithm_string(0xB).unwrap(), "TPM_ALG_SHA256");
    assert_eq!(get_algorithm_string(0x18).unwrap(), "TPM_ALG_ECDSA");
    assert_eq!(get_algorithm_string(0xFF), Err(CcError::UnknownAlgorithm));
    assert_eq!(get_algorithm_digest_size(TPM_ALG_SHA384), Ok(48));
    assert_eq!(get_algorithm_digest_size(0x4), Ok(20));
    assert_eq!(get_algorithm_digest_size(0x1), Err(CcError::UnknownAlgorithm));
    assert_eq!(TcgEventType::get_event_type_string(0x3).unwrap(), "EV_NO_ACTION");
    assert_eq!(
        TcgEventType::get_event_type_string(0x8000_0010).unwrap(),
        "EV_EFI_VARIABLE_AUTHORITY"
    );
    assert_eq!(TcgEventType::get_event_type_string(0x99), Err(CcError::UnknownEventType));
}

#[test]
fn ccnp_tee_type_values() {
    let client = CcnpServiceClient { ccnp_uds_path: "/run/ccnp/uds/ccnp-server.sock".to_string() };
    assert_eq!(client.get_tee_type_by_value(2), TeeType::TDX);
    assert_eq!(client.get_tee_type_by_value(1), TeeType::TPM);
    assert_eq!(client.get_tee_type_by_value(4), TeeType::CCA);
    assert_eq!(client.get_tee_type_by_value(0), TeeType::PLAIN);
}

#[test]
fn hex_dump_lines() {
    let data: Vec<u8> = (0x40u8..0x54).collect();
    let lines = cctrusted::dump::dump_data(&data);
    assert_eq!(lines.len(), 2);
    assert_eq!(
        String::from_utf8(lines[0].clone()).unwrap(),
        "00000000 40 41 42 43 44 45 46 47 48 49 4A 4B 4C 4D 4E 4F  @ABCDEFGHIJKLMNO"
    );
    assert_eq!(
        String::from_utf8(lines[1].clone()).unwrap(),
        format!("00000010 50 51 52 53 {} PQRS", " ".repeat(36))
    );
    let ctl = cctrusted::dump::dump_data(&[0x0A, 0x7F]);
    assert!(String::from_utf8(ctl[0].clone()).unwrap().ends_with(" .."));
    assert!(cctrusted::dump::dump_data(&[]).is_empty());
}

/// A version 4 quote whose body carries `report_data`.
fn quote_bytes(report_data: &[u8]) -> Vec<u8> {
    let mut q = vec![0u8; 48];
    q[0..2].copy_from_slice(&4u16.to_le_bytes());
    q[2..4].copy_from_slice(&2u16.to_le_bytes());
    q[4..8].copy_from_slice(&0x81u32.to_le_bytes());
    let mut body = vec![0u8; 584];
    body[520..584].copy_from_slice(report_data);
    q.extend(body);
    q.extend(0u32.to_le_bytes());
    q
}

#[test]
#[allow(deprecated)]
fn test_get_cc_report() {
    let nonce = base64::encode(rand::thread_rng().gen::<[u8; 32]>());
    let data = base64::encode(rand::thread_rng().gen::<[u8; 32]>());

    let expected_report_data = match Tdx::generate_tdx_report_data(nonce.clone(), Some(data.clone())) {
        Ok(r) => r,
        Err(e) => panic!("[test_get_cc_report] error generating TDX report data: {:?}", e),
    };

    // What the device answers: a TD report over the report data, then a quote.
    let presence = DevicePresence { tpm: false, tdx_1_0: false, tdx_1_5: true, sev: false };
    let mut vm = build_cvm(&presence).unwrap();
    let report_data = vm.get_td_report_data(&nonce, &data).unwrap();
    let mut td_report = vec![0u8; 1024];
    td_report[128..192].copy_from_slice(&report_data);
    let envelope = response(&quote_bytes(&report_data), &[], 4, 0);

    let report = match API::get_cc_report(&mut vm, td_report, &envelope, ExtraArgs {}) {
        Ok(q) => q,
        Err(e) => panic!("[test_get_cc_report] error getting TDX report: {:?}", e),
    };

    if report.cc_type == TeeType::TDX {
        let tdx_quote: TdxQuote = match CcReport::parse_cc_report(report.cc_report) {
            Ok(q) => q,
            Err(e) => panic!("[test_get_cc_report] error parse tdx quote: {:?}", e),
        };

        assert_eq!(base64::encode(&tdx_quote.body.report_data), expected_report_data);
    }
}

#[test]
fn cvm_trait_methods() {
    let presence = DevicePresence { tpm: false, tdx_1_0: true, tdx_1_5: false, sev: false };
    let mut vm = build_cvm(&presence).unwrap();
    assert_eq!(vm.get_cc_type().tee_type, TeeType::TDX);
    assert_eq!(vm.dump(), ("TDX".to_string(), "1.0".to_string()));
    assert_eq!(vm.get_algorithm_id(), TPM_ALG_SHA384);
    assert_eq!(vm.process_cc_measurement(0, TPM_ALG_SHA384).unwrap_err(), CcError::NoReport);
    let r = report();
    get_cc_report(&mut vm, r.clone(), &response(&[1, 2, 3], &[], 4, 0), ExtraArgs {}).unwrap();
    assert_eq!(vm.process_cc_measurement(3, TPM_ALG_SHA384).unwrap().hash, r[864..912].to_vec());
    assert_eq!(vm.process_cc_measurement(9, TPM_ALG_SHA384).unwrap_err(), CcError::IndexOutOfRange);
    assert_eq!(
        vm.process_cc_eventlog(Vec::new(), None, None).unwrap_err(),
        CcError::Parse(ParseError::EmptyLog)
    );
    assert_eq!(<TdxRTMR as TcgIMR>::max_index(), 3);
    let m = TdxRTMR::new(1, TPM_ALG_SHA384, &[7u8; 48]).unwrap();
    assert_eq!(m.get_index(), 1);
    assert_eq!(m.get_tcg_digest().hash, vec![7u8; 48]);
}

#[test]
fn quote_response_message_decoding() {
    let env = response(&[5u8; 7], &[9, 9], 4, 0);
    let resp = cctrusted::quote::qgs_msg_get_quote_resp::from_bytes(&env, 28).unwrap();
    assert_eq!(resp.header.major_version, 1);
    assert_eq!(resp.header.msg_type, 1);
    assert_eq!(resp.selected_id_size, 2);
    assert_eq!(resp.quote_size, 7);
    assert_eq!(resp.quote().unwrap(), vec![5u8; 7]);
    assert!(cctrusted::quote::qgs_msg_get_quote_resp::from_bytes(&[0u8; 30], 28).is_err());
}

#[test]
fn hex_dump_offset_label_keeps_every_digit() {
    assert_eq!(cctrusted::dump::offset_label(0x10), b"00000010".to_vec());
    assert_eq!(cctrusted::dump::offset_label(0x1_0000_0000), b"100000000".to_vec());
    assert_eq!(cctrusted::dump::offset_label(0xFFFF_FFF0), b"FFFFFFF0".to_vec());
}
