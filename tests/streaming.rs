use receipt_verifier::assembler::{assemble, AssemblyState, ChunkEvent, PayloadAssembler, StreamStep};
use receipt_verifier::request::RequestError;
use receipt_verifier::service::{MyGrpcReceiptVerifier, StreamDecision};

fn data(b: &[u8]) -> ChunkEvent {
    ChunkEvent::Data(b.to_vec())
}

#[test]
fn chunks_concatenate_in_order() {
    let r = assemble(vec![data(b"{\"a\":"), data(b"1}")]);
    assert_eq!(r.unwrap(), b"{\"a\":1}".to_vec());
}

#[test]
fn swapped_chunks_give_a_different_payload() {
    let forward = assemble(vec![data(b"ab"), data(b"cd")]).unwrap();
    let backward = assemble(vec![data(b"cd"), data(b"ab")]).unwrap();
    assert_eq!(forward, b"abcd".to_vec());
    assert_eq!(backward, b"cdab".to_vec());
    assert_ne!(forward, backward);
}

#[test]
fn chunked_and_whole_payloads_agree() {
    let whole = assemble(vec![data(b"hello world"), ChunkEvent::End]).unwrap();
    let chunked = assemble(vec![data(b"hel"), data(b""), data(b"lo wo"), data(b"rld")]).unwrap();
    assert_eq!(whole, chunked);
}

#[test]
fn empty_stream_is_empty_payload() {
    assert_eq!(assemble(vec![]).unwrap(), Vec::<u8>::new());
}

#[test]
fn failure_mid_stream_is_transport_error() {
    let r = assemble(vec![data(b"abc"), ChunkEvent::Failed("reset".to_string()), data(b"def")]);
    match r {
        Err(e) => assert_eq!(e.detail, "reset"),
        Ok(p) => panic!("unexpected payload: {:?}", p),
    }
}

#[test]
fn events_after_end_are_ignored() {
    let r = assemble(vec![data(b"ab"), ChunkEvent::End, data(b"zz")]);
    assert_eq!(r.unwrap(), b"ab".to_vec());
}

#[test]
fn stopped_assembly_refuses_further_events() {
    let mut a = PayloadAssembler::new();
    assert!(matches!(a.on_event(data(b"xy")), StreamStep::Continue));
    assert_eq!(a.buffered_len(), 2);
    assert!(matches!(a.on_event(ChunkEvent::Failed("gone".to_string())), StreamStep::Abort(_)));
    assert_eq!(a.current_state(), AssemblyState::Failed);
    assert_eq!(a.buffered_len(), 0);
    assert!(matches!(a.on_event(ChunkEvent::End), StreamStep::Abort(_)));
}

#[test]
fn service_hands_out_payload_only_at_end() {
    let svc = MyGrpcReceiptVerifier::new(16);
    let mut a = PayloadAssembler::new();
    assert!(matches!(svc.on_event(&mut a, data(b"12345")), StreamDecision::Continue));
    assert!(matches!(svc.on_event(&mut a, data(b"678")), StreamDecision::Continue));
    match svc.on_event(&mut a, ChunkEvent::End) {
        StreamDecision::Decode(p) => assert_eq!(p, b"12345678".to_vec()),
        other => panic!("unexpected decision: {:?}", other),
    }
    assert_eq!(a.current_state(), AssemblyState::Accumulated);
}

#[test]
fn service_disconnect_never_decodes() {
    let svc = MyGrpcReceiptVerifier::default();
    let mut a = PayloadAssembler::new();
    assert!(matches!(svc.on_event(&mut a, data(b"partial")), StreamDecision::Continue));
    match svc.on_event(&mut a, ChunkEvent::Failed("disconnect".to_string())) {
        StreamDecision::Stop(RequestError::Transport { detail }) => assert_eq!(detail, "disconnect"),
        other => panic!("unexpected decision: {:?}", other),
    }
    assert!(matches!(svc.on_event(&mut a, ChunkEvent::End), StreamDecision::Stop(_)));
    assert_eq!(a.buffered_len(), 0);
}

#[test]
fn service_stops_over_ceiling() {
    let svc = MyGrpcReceiptVerifier::new(4);
    let mut a = PayloadAssembler::new();
    assert!(matches!(svc.on_event(&mut a, data(b"abc")), StreamDecision::Continue));
    match svc.on_event(&mut a, data(b"de")) {
        StreamDecision::Stop(RequestError::TooLarge { size, limit }) => {
            assert_eq!(size, 5);
            assert_eq!(limit, 4);
        }
        other => panic!("unexpected decision: {:?}", other),
    }
    assert_eq!(a.current_state(), AssemblyState::Failed);
}

#[test]
fn service_default_ceiling() {
    assert_eq!(MyGrpcReceiptVerifier::default().max_stream_bytes, 5 * 1024 * 1024);
}
