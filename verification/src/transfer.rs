use vstd::prelude::*;

use crate::error::UpdateError;
use crate::progress::Progress;

verus! {

/// The reading half of a transfer: hands out the stream chunk by chunk.
/// The network reader a downloader brings implements this outside the
/// library.
pub trait ChunkSource {
    /// The next chunk of the stream; an empty chunk marks its end.
    fn next_chunk(&mut self) -> Result<Vec<u8>, UpdateError>;
}

/// The writing half of a transfer: takes the chunks as they arrive.
/// The temporary file a downloader writes implements this outside the
/// library.
pub trait ChunkSink {
    /// Appends one chunk to the sink.
    fn write_chunk(&mut self, chunk: &Vec<u8>) -> Result<(), UpdateError>;
}

/// How a transfer ended short of an error.
pub enum TransferOutcome {
    /// The stream was copied to its end.
    Complete,
    /// A cancellation request was observed before some chunk.
    Cancelled,
}

/// What ended a transfer.
pub enum TransferEnd {
    /// The cancellation flag was found set before a chunk.
    Cancelled,
    /// The source reported the end of its stream.
    SourceEnded,
    /// The source failed to produce a chunk.
    SourceFailed,
    /// The sink refused a chunk.
    SinkFailed,
    /// The stream ran past the chunk budget.
    BudgetExhausted,
}

/// The ghost record of a transfer: the chunks handed to the sink, in
/// order and in full, and what ended the run.
pub struct TransferLog {
    pub chunks: Seq<Seq<u8>>,
    pub end: TransferEnd,
}

/// The counter's addition: it wraps on overflow as the hardware
/// fetch-add of the display counter would.
pub open spec fn wrap_add(a: u64, b: u64) -> u64 {
    if a + b <= u64::MAX {
        (a + b) as u64
    } else {
        (a + b - (u64::MAX + 1)) as u64
    }
}

/// The current counter after advancing from `start` by each chunk's
/// length in turn.
pub open spec fn advanced(start: u64, chunks: Seq<Seq<u8>>) -> u64
    decreases chunks.len(),
{
    if chunks.len() == 0 {
        start
    } else {
        wrap_add(advanced(start, chunks.drop_last()), chunks.last().len() as u64)
    }
}

/// Copies a stream into a sink chunk by chunk: the system's only
/// cooperative-cancellation point during a download. Before starting it
/// publishes the expected `size` through `progress`; before each chunk —
/// including the first — it polls the cancellation flag and stops at
/// once when the flag is set; after each chunk it advances the current
/// counter by the chunk's length. The ghost log records every chunk the
/// sink received, byte for byte and in order — each one exactly as the
/// source produced it — and what ended the run: completion means the
/// source reported its end, cancellation means the flag was found set
/// (writing nothing at all when it was set at entry), and an error comes
/// only from the source, the sink, or the chunk budget. A stream still
/// running after `budget` chunks fails as a transport error; callers
/// size the budget from the declared asset size.
pub fn transfer<R: ChunkSource, W: ChunkSink>(
    source: &mut R,
    sink: &mut W,
    size: u64,
    budget: u64,
    progress: &mut Progress,
) -> (res: (Result<TransferOutcome, UpdateError>, Ghost<TransferLog>))
    ensures
        final(progress).maximum == size,
        final(progress).indeterminate == false,
        final(progress).cancelled == old(progress).cancelled,
        final(progress).complete == old(progress).complete,
        final(progress).current == advanced(old(progress).current, res.1@.chunks),
        forall|i: int| 0 <= i < res.1@.chunks.len() ==> res.1@.chunks[i].len() > 0,
        old(progress).cancelled ==> res.0 == Ok::<TransferOutcome, UpdateError>(
            TransferOutcome::Cancelled,
        ) && res.1@.chunks == Seq::<Seq<u8>>::empty(),
        res.0 == Ok::<TransferOutcome, UpdateError>(TransferOutcome::Cancelled) <==> res.1@.end
            is Cancelled,
        res.0 == Ok::<TransferOutcome, UpdateError>(TransferOutcome::Complete) <==> res.1@.end
            is SourceEnded,
        res.0 is Err <==> (res.1@.end is SourceFailed || res.1@.end is SinkFailed || res.1@.end
            is BudgetExhausted),
        res.0 == Ok::<TransferOutcome, UpdateError>(TransferOutcome::Cancelled)
            ==> final(progress).cancelled,
        res.0 == Ok::<TransferOutcome, UpdateError>(TransferOutcome::Complete)
            ==> !final(progress).cancelled,
{
    progress.set_maximum(size);
    progress.set_indeterminate(false);
    let ghost mut chunks = Seq::<Seq<u8>>::empty();
    let mut fuel: u64 = budget;
    loop
        invariant
            progress.maximum == size,
            progress.indeterminate == false,
            progress.cancelled == old(progress).cancelled,
            progress.complete == old(progress).complete,
            progress.current == advanced(old(progress).current, chunks),
            forall|i: int| 0 <= i < chunks.len() ==> chunks[i].len() > 0,
            old(progress).cancelled ==> chunks == Seq::<Seq<u8>>::empty(),
        decreases fuel,
    {
        if progress.cancelled() {
            let ghost log = TransferLog { chunks, end: TransferEnd::Cancelled };
            return (Ok(TransferOutcome::Cancelled), Ghost(log));
        }
        let chunk = match source.next_chunk() {
            Ok(c) => c,
            Err(e) => {
                let ghost log = TransferLog { chunks, end: TransferEnd::SourceFailed };
                return (Err(e), Ghost(log));
            },
        };
        if chunk.len() == 0 {
            let ghost log = TransferLog { chunks, end: TransferEnd::SourceEnded };
            return (Ok(TransferOutcome::Complete), Ghost(log));
        }
        match sink.write_chunk(&chunk) {
            Ok(u) => u,
            Err(e) => {
                let ghost log = TransferLog { chunks, end: TransferEnd::SinkFailed };
                return (Err(e), Ghost(log));
            },
        };
        let len = chunk.len() as u64;
        proof {
            let extended = chunks.push(chunk@);
            assert(extended.drop_last() =~= chunks);
            assert(extended.last() == chunk@);
            chunks = extended;
        }
        progress.add_current(len);
        if fuel == 0 {
            let ghost log = TransferLog { chunks, end: TransferEnd::BudgetExhausted };
            return (
                Err(UpdateError::Transport(String::from_str("stream ran past its chunk budget"))),
                Ghost(log),
            );
        }
        fuel = fuel - 1;
    }
}

} // verus!
