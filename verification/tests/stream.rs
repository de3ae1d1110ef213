use geonb::errors::PipelineError;
use geonb::stream::{ChunkEvent, ReadStep, StreamBridge};

#[test]
fn stream_delivers_every_chunk_in_order() {
    let chunks: Vec<Vec<u8>> = vec![b"abc".to_vec(), b"de".to_vec(), vec![], b"fgh".to_vec()];
    let expected_total: usize = chunks.iter().map(|c| c.len()).sum();

    let mut bridge = StreamBridge::new();
    let mut drained: Vec<u8> = Vec::new();
    for chunk in &chunks {
        match bridge.accept(ChunkEvent::Data(chunk.clone())) {
            ReadStep::Bytes(b) => drained.extend_from_slice(&b),
            other => panic!("expected bytes, got {:?}", other),
        }
    }
    assert_eq!(bridge.accept(ChunkEvent::End), ReadStep::Finished);

    assert_eq!(drained, b"abcdefgh".to_vec());
    assert_eq!(drained.len(), expected_total);

    // A pull after the clean end still reports end of stream.
    assert_eq!(bridge.accept(ChunkEvent::End), ReadStep::Finished);
}

#[test]
fn stream_fault_is_surfaced_and_sticky() {
    let mut bridge = StreamBridge::new();
    match bridge.accept(ChunkEvent::Data(b"abc".to_vec())) {
        ReadStep::Bytes(b) => assert_eq!(b, b"abc".to_vec()),
        other => panic!("expected bytes, got {:?}", other),
    }

    // The connection aborts mid-stream: the reader must see a fault, not a
    // clean end.
    assert_eq!(
        bridge.accept(ChunkEvent::Abort),
        ReadStep::Failed(PipelineError::StreamFault)
    );

    // Whatever arrives afterwards, the bridge keeps reporting the fault.
    assert_eq!(
        bridge.accept(ChunkEvent::Data(b"de".to_vec())),
        ReadStep::Failed(PipelineError::StreamFault)
    );
    assert_eq!(bridge.accept(ChunkEvent::End), ReadStep::Failed(PipelineError::StreamFault));
}

#[test]
fn empty_stream_finishes_with_no_bytes() {
    let mut bridge = StreamBridge::new();
    assert_eq!(bridge.accept(ChunkEvent::End), ReadStep::Finished);
    assert_eq!(bridge.accept(ChunkEvent::End), ReadStep::Finished);
}
