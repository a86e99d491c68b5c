use cctrusted::api::API;
use cctrusted::error::{CcError, ParseError};
use cctrusted::eventlog::TcgEventLog;
use cctrusted::tcg::{EventLogEntry, TPM_ALG_SHA256, TPM_ALG_SHA384};

fn push_u16(out: &mut Vec<u8>, v: u16) {
    out.extend_from_slice(&v.to_le_bytes());
}

fn push_u32(out: &mut Vec<u8>, v: u32) {
    out.extend_from_slice(&v.to_le_bytes());
}

/// A Spec-ID record declaring the given (algorithm, size) pairs.
fn spec_id_record(algs: &[(u16, u16)]) -> Vec<u8> {
    let mut body = Vec::new();
    body.extend_from_slice(b"Spec ID Event03\0");
    push_u32(&mut body, 0);
    body.extend_from_slice(&[0, 2, 0, 2]);
    push_u32(&mut body, algs.len() as u32);
    for (id, size) in algs {
        push_u16(&mut body, *id);
        push_u16(&mut body, *size);
    }
    body.push(0);
    let mut rec = Vec::new();
    push_u32(&mut rec, 0);
    push_u32(&mut rec, 3);
    rec.extend_from_slice(&[0u8; 20]);
    push_u32(&mut rec, body.len() as u32);
    rec.extend_from_slice(&body);
    rec
}

/// A measurement event with one digest of `size` bytes.
fn event_record(imr: u32, algo: u16, size: usize, fill: u8, payload: &[u8]) -> Vec<u8> {
    let mut rec = Vec::new();
    push_u32(&mut rec, imr);
    push_u32(&mut rec, 0x8000_0001);
    push_u32(&mut rec, 1);
    push_u16(&mut rec, algo);
    rec.extend(std::iter::repeat(fill).take(size));
    push_u32(&mut rec, payload.len() as u32);
    rec.extend_from_slice(payload);
    rec
}

/// A SHA-384 log with `n` events; event `i` has digest bytes `i` and payload `[i]`.
fn sha384_log(n: usize) -> Vec<u8> {
    let mut log = spec_id_record(&[(TPM_ALG_SHA384, 48)]);
    for i in 0..n {
        log.extend(event_record(i as u32 % 4, TPM_ALG_SHA384, 48, i as u8, &[i as u8]));
    }
    log
}

#[test]
fn test_get_cc_eventlog() {
    let event_logs = match API::get_cc_eventlog(sha384_log(12), Some(1), Some(10)) {
        Ok(q) => q,
        Err(e) => {
            assert_eq!(true, format!("{:?}", e).is_empty());
            return;
        }
    };

    assert_eq!(event_logs.len(), 10);
}

#[test]
fn test_get_cc_eventlog_none() {
    let event_logs = match API::get_cc_eventlog(sha384_log(12), None, None) {
        Ok(q) => q,
        Err(e) => {
            assert_eq!(false, format!("{:?}", e).is_empty());
            return;
        }
    };

    assert_ne!(event_logs.len(), 0);
}

#[test]
fn test_get_cc_eventlog_invalid_start() {
    match API::get_cc_eventlog(sha384_log(12), Some(0), None) {
        Ok(q) => q,
        Err(e) => {
            assert_eq!(false, format!("{:?}", e).is_empty());
            return;
        }
    };
}

#[test]
fn test_get_cc_eventlog_invalid_count() {
    match API::get_cc_eventlog(sha384_log(12), Some(1), Some(0)) {
        Ok(q) => q,
        Err(e) => {
            assert_eq!(false, format!("{:?}", e).is_empty());
            return;
        }
    };
}

#[test]
fn test_get_cc_eventlog_check_return_type() {
    let event_logs = match API::get_cc_eventlog(sha384_log(12), Some(1), Some(5)) {
        Ok(q) => q,
        Err(e) => {
            assert_eq!(true, format!("{:?}", e).is_empty());
            return;
        }
    };

    for event_log in event_logs {
        match event_log {
            EventLogEntry::TcgImrEvent(_tcg_imr_event) => (),
            EventLogEntry::TcgPcClientImrEvent(_tcg_pc_client_imr_event) => (),
        }
    }
}

#[test]
fn eventlog_three_sha384_events() {
    let mut log = TcgEventLog::new(sha384_log(3));
    assert_eq!(log.parse(), Ok(()));
    assert_eq!(log.count, 3);
    for (i, ev) in log.event_logs.iter().enumerate() {
        assert_eq!(ev.digests.len(), 1);
        assert_eq!(ev.digests[0].algo_id, TPM_ALG_SHA384);
        assert_eq!(ev.digests[0].hash.len(), 48);
        assert_eq!(ev.digests[0].hash, vec![i as u8; 48]);
        assert_eq!(ev.event, vec![i as u8]);
        assert_eq!(ev.event_size, 1);
    }
    let spec_id = log.spec_id_header_event.as_ref().unwrap();
    assert_eq!(spec_id.number_of_algorithms, 1);
    assert_eq!(spec_id.digest_sizes[0].algo_id, TPM_ALG_SHA384);
    assert_eq!(spec_id.digest_sizes[0].digest_size, 48);
    assert_eq!(spec_id.spec_version_major, 2);
    assert_eq!(&spec_id.signature[..], b"Spec ID Event03\0");
}

#[test]
fn eventlog_unknown_algorithm_is_parse_error() {
    let mut raw = spec_id_record(&[(TPM_ALG_SHA384, 48)]);
    raw.extend(event_record(0, TPM_ALG_SHA256, 32, 7, b"x"));
    let mut log = TcgEventLog::new(raw);
    assert_eq!(log.parse(), Err(CcError::Parse(ParseError::UnknownAlgorithmInLog)));
    assert_eq!(log.count, 0);
}

#[test]
fn eventlog_select_boundaries() {
    let mut log = TcgEventLog::new(sha384_log(3));
    log.parse().unwrap();
    let all = log.select(None, None).unwrap();
    assert_eq!(all.len(), 3);
    for (i, ev) in all.iter().enumerate() {
        assert_eq!(ev.event, vec![i as u8]);
    }
    // A count equal to the event count is rejected.
    assert_eq!(log.select(Some(0), Some(3)).unwrap_err(), CcError::Range);
    assert_eq!(log.select(Some(3), None).unwrap_err(), CcError::Range);
    assert_eq!(log.select(Some(5), Some(1)).unwrap_err(), CcError::Range);
    assert_eq!(log.select(Some(2), Some(2)).unwrap_err(), CcError::Range);
    let two = log.select(Some(1), Some(2)).unwrap();
    assert_eq!(two.len(), 2);
    assert_eq!(two[0].event, vec![1]);
    assert_eq!(two[1].event, vec![2]);
}

#[test]
fn eventlog_empty_and_truncated() {
    let mut empty = TcgEventLog::new(Vec::new());
    assert_eq!(empty.parse(), Err(CcError::Parse(ParseError::EmptyLog)));

    let mut raw = sha384_log(2);
    raw.truncate(raw.len() - 3);
    let mut cut = TcgEventLog::new(raw);
    assert_eq!(cut.parse(), Err(CcError::Parse(ParseError::Truncated)));

    let mut first = Vec::new();
    push_u32(&mut first, 0);
    push_u32(&mut first, 4);
    first.extend_from_slice(&[0u8; 32]);
    let mut no_spec_id = TcgEventLog::new(first);
    assert_eq!(no_spec_id.parse(), Err(CcError::Parse(ParseError::MissingSpecId)));
}

#[test]
fn eventlog_stops_at_end_marker() {
    let mut raw = sha384_log(2);
    push_u32(&mut raw, 0xFFFF_FFFF);
    push_u32(&mut raw, 0);
    raw.extend_from_slice(&[0xAB; 40]);
    let mut log = TcgEventLog::new(raw);
    assert_eq!(log.parse(), Ok(()));
    assert_eq!(log.count, 2);

    let mut marker_only = Vec::new();
    push_u32(&mut marker_only, 0xFFFF_FFFF);
    push_u32(&mut marker_only, 0);
    let mut empty = TcgEventLog::new(marker_only);
    assert_eq!(empty.parse(), Ok(()));
    assert_eq!(empty.count, 0);
    assert!(empty.spec_id_header.is_none());
}
