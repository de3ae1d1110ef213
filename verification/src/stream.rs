//! The tile stream bridge: adapts a chunked network body into a pull-based
//! byte reader.
//!
//! The bridge holds at most one chunk at a time, so memory use is bounded
//! by the transport's chunk size whatever the tile's size. The unverified
//! driver polls the network for the next chunk and hands the outcome to
//! [`StreamBridge::accept`], which decides what the reader observes: the
//! chunk's bytes, a clean end of stream, or a stream fault. A transport
//! error after the initial response is never folded into a clean end: it
//! is reported on that pull and on every later one.

use vstd::prelude::*;
use crate::errors::PipelineError;

verus! {

/// One outcome of polling the underlying chunked transfer.
#[derive(Debug, Clone, PartialEq, Eq)]
pub enum ChunkEvent {
    /// The transfer yielded the next chunk of payload bytes.
    Data(Vec<u8>),
    /// The transfer ended cleanly.
    End,
    /// The connection failed mid-transfer.
    Abort,
}

/// What one pull on the bridged reader yields.
#[derive(Debug, Clone, PartialEq, Eq)]
pub enum ReadStep {
    /// The next bytes of the payload, in order.
    Bytes(Vec<u8>),
    /// End of stream: the payload was delivered in full.
    Finished,
    /// The stream was cut short; the payload must not be taken as
    /// complete.
    Failed(PipelineError),
}

/// The bridge's phase: still streaming, drained cleanly, or faulted.
#[derive(Clone, Copy, Debug, PartialEq, Eq, Structural)]
pub enum BridgePhase {
    Streaming,
    Drained,
    Faulted,
}

/// The bridge's abstract state: its phase and the chunks delivered so far,
/// each as the byte sequence the reader was handed.
pub struct BridgeModel {
    pub phase: BridgePhase,
    pub chunks: Seq<Seq<u8>>,
}

impl BridgeModel {
    /// Every byte the reader has been handed, in order.
    pub open spec fn delivered(self) -> Seq<u8> {
        self.chunks.flatten()
    }
}

/// How the bridge reacts to one poll outcome: the successor state and
/// what the reader observes on that pull.
pub open spec fn spec_bridge_step(m: BridgeModel, ev: ChunkEvent) -> (BridgeModel, ReadStep) {
    match m.phase {
        BridgePhase::Streaming => match ev {
            ChunkEvent::Data(b) => (
                BridgeModel { phase: BridgePhase::Streaming, chunks: m.chunks.push(b@) },
                ReadStep::Bytes(b),
            ),
            ChunkEvent::End => (
                BridgeModel { phase: BridgePhase::Drained, ..m },
                ReadStep::Finished,
            ),
            ChunkEvent::Abort => (
                BridgeModel { phase: BridgePhase::Faulted, ..m },
                ReadStep::Failed(PipelineError::StreamFault),
            ),
        },
        BridgePhase::Drained => (m, ReadStep::Finished),
        BridgePhase::Faulted => (m, ReadStep::Failed(PipelineError::StreamFault)),
    }
}

/// Bridges one chunked transfer into a pull-based reader. Owns no buffer
/// beyond the chunk passing through it.
pub struct StreamBridge {
    phase: BridgePhase,
    chunks: Ghost<Seq<Seq<u8>>>,
}

impl StreamBridge {
    /// The bridge's abstract state.
    pub closed spec fn model(self) -> BridgeModel {
        BridgeModel { phase: self.phase, chunks: self.chunks@ }
    }

    /// Every byte the reader has been handed, in order.
    pub open spec fn delivered(self) -> Seq<u8> {
        self.model().delivered()
    }

    /// A fresh bridge for one transfer: streaming, nothing delivered.
    pub fn new() -> (b: StreamBridge)
        ensures
            b.model().phase == BridgePhase::Streaming,
            b.model().chunks == Seq::<Seq<u8>>::empty(),
            b.delivered() == Seq::<u8>::empty(),
    {
        let b = StreamBridge { phase: BridgePhase::Streaming, chunks: Ghost(Seq::empty()) };
        proof {
            assert(b.delivered() =~= Seq::<u8>::empty());
        }
        b
    }

    /// Accepts one poll outcome and returns what the reader observes on
    /// this pull. While streaming, a chunk's bytes pass through unchanged
    /// and in order; a clean end drains the bridge; an abort faults it.
    /// A drained bridge keeps reporting end of stream, and a faulted one
    /// keeps reporting the fault — it never reports a clean end.
    pub fn accept(&mut self, ev: ChunkEvent) -> (step: ReadStep)
        ensures
            (final(self).model(), step) == spec_bridge_step(old(self).model(), ev),
            final(self).delivered() == match ev {
                ChunkEvent::Data(b) => if old(self).model().phase == BridgePhase::Streaming {
                    old(self).delivered() + b@
                } else {
                    old(self).delivered()
                },
                _ => old(self).delivered(),
            },
    {
        match self.phase {
            BridgePhase::Streaming => match ev {
                ChunkEvent::Data(b) => {
                    self.chunks = Ghost(self.chunks@.push(b@));
                    proof {
                        old(self).chunks@.lemma_flatten_push(b@);
                    }
                    ReadStep::Bytes(b)
                },
                ChunkEvent::End => {
                    self.phase = BridgePhase::Drained;
                    ReadStep::Finished
                },
                ChunkEvent::Abort => {
                    self.phase = BridgePhase::Faulted;
                    ReadStep::Failed(PipelineError::StreamFault)
                },
            },
            BridgePhase::Drained => ReadStep::Finished,
            BridgePhase::Faulted => ReadStep::Failed(PipelineError::StreamFault),
        }
    }
}

/// The total byte count of a sequence of chunks.
pub open spec fn total_len(chunks: Seq<Seq<u8>>) -> nat
    decreases chunks.len(),
{
    if chunks.len() == 0 {
        0
    } else {
        chunks.first().len() + total_len(chunks.drop_first())
    }
}

/// Streaming fidelity: whatever chunks a bridge has passed through, the
/// bytes the reader was handed are exactly those chunks' bytes, in order —
/// no loss, duplication or reordering — and their count is exactly the
/// chunks' total size.
pub proof fn lemma_streaming_fidelity(b: StreamBridge)
    ensures
        b.delivered() == b.model().chunks.flatten(),
        b.delivered().len() == total_len(b.model().chunks),
{
    lemma_flatten_total_len(b.model().chunks);
}

proof fn lemma_flatten_total_len(chunks: Seq<Seq<u8>>)
    ensures
        chunks.flatten().len() == total_len(chunks),
    decreases chunks.len(),
{
    if chunks.len() > 0 {
        lemma_flatten_total_len(chunks.drop_first());
    }
}

/// Fault visibility: a faulted bridge reports the stream fault on this
/// and every later pull, and never a clean end — a cut-short download is
/// never mistaken for a complete one.
pub proof fn lemma_fault_is_sticky(m: BridgeModel, ev: ChunkEvent)
    requires
        m.phase == BridgePhase::Faulted,
    ensures
        spec_bridge_step(m, ev).0 == m,
        spec_bridge_step(m, ev).1 == ReadStep::Failed(PipelineError::StreamFault),
        spec_bridge_step(m, ev).1 != ReadStep::Finished,
{
}

} // verus!
