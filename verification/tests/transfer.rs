use cvmodtool::transfer::{transfer, ChunkSink, ChunkSource, TransferOutcome};
use cvmodtool::{Progress, UpdateError};

struct ListSource {
    chunks: Vec<Vec<u8>>,
    next: usize,
}

impl ChunkSource for ListSource {
    fn next_chunk(&mut self) -> Result<Vec<u8>, UpdateError> {
        if self.next < self.chunks.len() {
            let chunk = self.chunks[self.next].clone();
            self.next += 1;
            Ok(chunk)
        } else {
            Ok(Vec::new())
        }
    }
}

struct ListSink {
    written: Vec<u8>,
}

impl ChunkSink for ListSink {
    fn write_chunk(&mut self, chunk: &Vec<u8>) -> Result<(), UpdateError> {
        self.written.extend_from_slice(chunk);
        Ok(())
    }
}

#[test]
fn transfer_copies_the_whole_stream() {
    let mut source = ListSource {
        chunks: vec![vec![1, 2, 3], vec![4], vec![5, 6]],
        next: 0,
    };
    let mut sink = ListSink { written: Vec::new() };
    let mut progress = Progress::default();
    let (result, _log) = transfer(&mut source, &mut sink, 6, 16, &mut progress);
    assert!(matches!(result, Ok(TransferOutcome::Complete)));
    assert_eq!(sink.written, vec![1, 2, 3, 4, 5, 6]);
    assert_eq!(progress.current(), 6);
    assert_eq!(progress.maximum(), 6);
    assert!(!progress.indeterminate());
}

#[test]
fn transfer_stops_at_a_cancellation_request() {
    let mut source = ListSource {
        chunks: vec![vec![1], vec![2]],
        next: 0,
    };
    let mut sink = ListSink { written: Vec::new() };
    let mut progress = Progress::default();
    progress.set_cancelled(true);
    let (result, _log) = transfer(&mut source, &mut sink, 2, 16, &mut progress);
    assert!(matches!(result, Ok(TransferOutcome::Cancelled)));
    assert!(sink.written.is_empty());
    // Nothing was copied, so the counter never moved.
    assert_eq!(progress.current(), 0);
}

#[test]
fn transfer_fails_past_its_budget() {
    let mut source = ListSource {
        chunks: vec![vec![1], vec![2], vec![3], vec![4]],
        next: 0,
    };
    let mut sink = ListSink { written: Vec::new() };
    let mut progress = Progress::default();
    let (result, _log) = transfer(&mut source, &mut sink, 4, 2, &mut progress);
    assert!(matches!(result, Err(UpdateError::Transport(_))));
}

struct FailingSource;

impl ChunkSource for FailingSource {
    fn next_chunk(&mut self) -> Result<Vec<u8>, UpdateError> {
        Err(UpdateError::Transport("connection reset".to_string()))
    }
}

#[test]
fn transfer_surfaces_a_source_error() {
    let mut source = FailingSource;
    let mut sink = ListSink { written: Vec::new() };
    let mut progress = Progress::default();
    let (result, _log) = transfer(&mut source, &mut sink, 1, 4, &mut progress);
    match result {
        Err(UpdateError::Transport(message)) => assert_eq!(message, "connection reset"),
        _ => panic!("expected the transport error"),
    }
}
