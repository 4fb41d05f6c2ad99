//! Tests of status translation, the callback protocol, argument
//! derivation, and the cumulative-offset accounting.

use scanbridge::dispatch::{block_scan_len, scan_context, vectored_scan_lens};
use scanbridge::event::{code_decision, decision_code, MatchDecision, MatchEvent};
use scanbridge::status::{
    scan_result, ScanError, STATUS_INVALID, STATUS_NOMEM, STATUS_SCAN_TERMINATED, STATUS_SUCCESS,
};
use scanbridge::stream::StreamSession;

#[test]
fn test_status_success() {
    assert_eq!(scan_result(STATUS_SUCCESS), Ok(()));
}

#[test]
fn test_status_terminated() {
    assert_eq!(scan_result(STATUS_SCAN_TERMINATED), Err(ScanError::Terminated));
}

#[test]
fn test_status_invalid_argument() {
    assert_eq!(scan_result(STATUS_INVALID), Err(ScanError::InvalidArgument));
}

#[test]
fn test_status_resource_exhausted() {
    assert_eq!(scan_result(STATUS_NOMEM), Err(ScanError::ResourceExhausted));
}

#[test]
fn test_status_passthrough() {
    assert_eq!(scan_result(7), Err(ScanError::Engine(7)));
    assert_eq!(scan_result(-17), Err(ScanError::Engine(-17)));
}

#[test]
fn test_decision_codes() {
    assert_eq!(decision_code(MatchDecision::Continue), 0);
    assert_eq!(decision_code(MatchDecision::Stop), 1);
    assert_eq!(code_decision(0), MatchDecision::Continue);
    assert_eq!(code_decision(1), MatchDecision::Stop);
    assert_eq!(code_decision(42), MatchDecision::Stop);
}

#[test]
fn test_termination_reported_as_terminated_kind() {
    // A callback answering Stop hands the engine a non-zero code, and the
    // engine then returns the dedicated termination status; the scan call
    // reports the Terminated kind, not success.
    let code = decision_code(MatchDecision::Stop);
    assert_ne!(code, 0);
    assert_eq!(scan_result(STATUS_SCAN_TERMINATED), Err(ScanError::Terminated));
}

#[test]
fn test_block_scan_len() {
    let data: &[u8] = b"foo test bar";
    assert_eq!(block_scan_len(&data), 12);

    // The engine reports offsets within this single buffer: the literal
    // "test" occupies bytes 4..8 of "foo test bar".
    let text = "foo test bar";
    let start = text.find("test").unwrap();
    assert_eq!(start, 4);
    assert_eq!(start + "test".len(), 8);
}

#[test]
fn test_match_event_fields() {
    let ev = MatchEvent { id: 0, from: 4, to: 8, flags: 0 };
    assert_eq!(ev, MatchEvent { id: 0, from: 4, to: 8, flags: 0 });
    assert_ne!(ev.from, ev.to);
}

#[test]
fn test_vectored_scan_lens_order() {
    let data: Vec<&[u8]> = vec![b"foo", b"test", b"bar"];
    let lens = vectored_scan_lens(&data);
    assert_eq!(lens, vec![3, 4, 3]);

    // Offsets are cumulative across buffer boundaries: "test" begins at
    // the total length of the buffers before it and ends 4 bytes later,
    // as if the buffers were concatenated.
    assert_eq!(lens[0], 3);
    assert_eq!(lens[0] + lens[1], 7);
    let joined = "footestbar";
    assert_eq!(joined.find("test").unwrap(), 3);
}

#[test]
fn test_vectored_empty_sequence() {
    let data: Vec<&[u8]> = vec![];
    let lens = vectored_scan_lens(&data);
    assert_eq!(lens.len(), 0);
    let total: u64 = lens.iter().map(|l| *l as u64).sum();
    assert_eq!(total, 0);
}

#[test]
fn test_streaming_cumulative_offsets() {
    let mut session = StreamSession::open_session();
    assert_eq!(session.bytes_scanned(), 0);

    let chunks: Vec<&[u8]> = vec![b"foo", b"test", b"bar"];
    let mut totals: Vec<u64> = Vec::new();
    for chunk in &chunks {
        session.scan_chunk(chunk);
        totals.push(session.bytes_scanned());
    }
    assert_eq!(totals, vec![3, 7, 10]);

    // The match for "test" ends with the second chunk, so the cumulative
    // end offset the engine reports is the byte count at that point.
    let joined = "footestbar";
    let start = joined.find("test").unwrap();
    assert_eq!(start + "test".len(), 7);
    assert_eq!(totals[1], 7);
}

#[test]
fn test_context_requires_callback() {
    let value: u32 = 99;
    assert_eq!(scan_context(false, Some(&value)), None);
    assert_eq!(scan_context(true, Some(&value)), Some(&value));
    assert_eq!(scan_context::<u32>(true, None), None);
    assert_eq!(scan_context::<u32>(false, None), None);
}
