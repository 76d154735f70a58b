//! The orchestration state machine for one decoding run.
//!
//! A run is a dialogue with the outside world.  The caller reads the input
//! file in chunks, offers the bytes to an external bitstream parser, submits
//! each packet the parser completes to an external decoder, pulls decoded
//! frames out of it, and writes every frame to a numbered file.  All the
//! *decisions* of that dialogue live here, verified: the caller only performs
//! each returned [`Action`] against the codec library (or the file system)
//! and feeds the outcome back to [`Machine::step`] as the next [`Event`].
//!
//! The machine guarantees the feed protocol: bytes are offered to the parser
//! in input order with no gap and no duplication, the zero-length flush call
//! is made exactly once at end of input and nothing is read or parsed after
//! it, and frame numbers count 1, 2, 3, ... with one number per frame.

use vstd::prelude::*;

verus! {

/// Bytes read from the input per read call.
pub const CHUNK_SIZE: usize = 4096;

/// Zeroed bytes the caller must keep after the chunk in its read buffer, so
/// that the external parser may safely over-read at the end of the data.
pub const CHUNK_PADDING: usize = 64;

/// The ways a run can fail once it is underway.  (Failures while acquiring
/// the codec, the parser, or the input file happen before any run starts.)
#[derive(Clone, Copy, Debug, PartialEq, Eq, Structural)]
pub enum RunError {
    /// The parser reported a negative consumption count: the bitstream is
    /// malformed or unparseable.
    Parse,
    /// The decoder rejected a packet submission.
    DecodeSubmit,
    /// The decoder reported a hard error when asked for a frame.
    DecodeRetrieve,
    /// A decoded frame could not be written to its file.
    FrameWrite,
}

/// What the decoder answered when asked for a frame.
#[derive(Clone, Copy, Debug, PartialEq, Eq, Structural)]
pub enum RecvStatus {
    /// A fully decoded frame is available.
    FrameReady,
    /// No frame is ready yet; the decoder needs more input.  Not an error.
    TryAgain,
    /// End of stream: no frames will ever come.  Not an error.
    EndOfStream,
    /// A hard decoding error.
    Failed,
}

/// The outcome of the action the caller just performed.
#[derive(Clone, Copy, Debug, PartialEq, Eq, Structural)]
pub enum Event {
    /// A read put `len` bytes in the chunk buffer; `len == 0` means end of
    /// input.
    ChunkRead { len: usize },
    /// A parser call consumed `consumed` bytes (negative on error) and has a
    /// completed packet of `packet_len` bytes ready (`0` when none).
    Parsed { consumed: i32, packet_len: i32 },
    /// The decoder accepted or rejected the submitted packet.
    Submitted { accepted: bool },
    /// The decoder answered a request for a frame.
    Received { status: RecvStatus },
    /// The pending frame was written to its file, or could not be.
    FrameWritten { ok: bool },
}

/// What the caller must do next.
#[derive(Clone, Copy, Debug, PartialEq, Eq, Structural)]
pub enum Action {
    /// Read up to [`CHUNK_SIZE`] bytes into the chunk buffer.
    ReadChunk,
    /// Offer `len` bytes of the chunk buffer, starting at `offset`, to the
    /// parser.  `len == 0` is the end-of-stream flush call.
    OfferParser { offset: usize, len: usize },
    /// Submit the packet the parser just completed to the decoder.
    SubmitPacket,
    /// Ask the decoder for a decoded frame.
    ReceiveFrame,
    /// Write the frame just received to the file numbered `index`.
    WriteFrame { index: u64 },
    /// The run is complete; release the resources.
    Finish,
    /// The run failed; release the resources and report `error`.
    Fail { error: RunError },
}

/// Where the feed loop resumes once the current packet is drained.
#[derive(Clone, Copy, Debug, PartialEq, Eq, Structural)]
pub enum Resume {
    /// Back to the current chunk: `offset` of its `chunk_len` bytes are
    /// already consumed.
    Feed { chunk_len: usize, offset: usize },
    /// The drained packet came from the flush call: the run is over.
    Flush,
}

/// Which event the machine is waiting for.
#[derive(Clone, Copy, Debug, PartialEq, Eq, Structural)]
pub enum Phase {
    /// A read of the next chunk is in flight.
    AwaitChunk,
    /// A parser call on the current chunk is in flight: `offset` of its
    /// `chunk_len` bytes were consumed before the call, and the call offered
    /// the rest.  `flush` marks the final zero-length call.
    AwaitParse { chunk_len: usize, offset: usize, flush: bool },
    /// A packet submission is in flight.
    AwaitSubmit { resume: Resume },
    /// A request for a decoded frame is in flight.
    AwaitReceive { resume: Resume },
    /// A frame write is in flight.
    AwaitWrite { resume: Resume },
    /// The run completed.
    Done,
    /// The run failed.
    Failed { error: RunError },
}

/// The state of one decoding run.
#[derive(Clone, Copy, Debug, PartialEq, Eq, Structural)]
pub struct Machine {
    /// Which event the machine is waiting for.
    pub phase: Phase,
    /// Frames emitted so far; the last frame written got this number.
    pub frames_written: u64,
    /// Input bytes delivered by reads so far.
    pub bytes_read: u64,
    /// Input bytes the parser has consumed so far.
    pub bytes_consumed: u64,
    /// Whether the zero-length flush call has been issued.
    pub flush_offered: bool,
}

impl Machine {
    /// The state at the start of a run.  The caller's first action is
    /// [`Action::ReadChunk`].
    pub open spec fn init() -> Machine {
        Machine {
            phase: Phase::AwaitChunk,
            frames_written: 0,
            bytes_read: 0,
            bytes_consumed: 0,
            flush_offered: false,
        }
    }

    /// What the machine's byte accounting means in a drain phase.
    pub open spec fn resume_inv(self, r: Resume) -> bool {
        match r {
            Resume::Feed { chunk_len, offset } => {
                &&& !self.flush_offered
                &&& 0 < chunk_len <= CHUNK_SIZE
                &&& offset <= chunk_len
                &&& self.bytes_consumed + chunk_len == self.bytes_read + offset
            },
            Resume::Flush => self.flush_offered && self.bytes_consumed == self.bytes_read,
        }
    }

    /// The machine's invariant.  In every waiting phase the not-yet-consumed
    /// bytes of the current chunk are exactly the input bytes between
    /// `bytes_consumed` and `bytes_read`; outside a chunk the two counters
    /// agree, so nothing read is ever dropped and nothing is consumed twice.
    pub open spec fn inv(self) -> bool {
        &&& self.bytes_consumed <= self.bytes_read
        &&& match self.phase {
            Phase::AwaitChunk => !self.flush_offered && self.bytes_consumed == self.bytes_read,
            Phase::AwaitParse { chunk_len, offset, flush } => {
                if flush {
                    &&& self.flush_offered
                    &&& chunk_len == 0
                    &&& offset == 0
                    &&& self.bytes_consumed == self.bytes_read
                } else {
                    &&& !self.flush_offered
                    &&& 0 < chunk_len <= CHUNK_SIZE
                    &&& offset < chunk_len
                    &&& self.bytes_consumed + chunk_len == self.bytes_read + offset
                }
            },
            Phase::AwaitSubmit { resume } => self.resume_inv(resume),
            Phase::AwaitReceive { resume } => self.resume_inv(resume),
            Phase::AwaitWrite { resume } => self.resume_inv(resume),
            Phase::Done => self.flush_offered && self.bytes_consumed == self.bytes_read,
            Phase::Failed { .. } => true,
        }
    }

    /// Which events can answer the machine's pending action.  The caller
    /// checks these before stepping: a read fits the chunk buffer, a parser
    /// consumes at most what it was offered, and the counters fit their
    /// words.
    pub open spec fn event_wf(self, e: Event) -> bool {
        match self.phase {
            Phase::AwaitChunk => {
                &&& e matches Event::ChunkRead { len }
                &&& len <= CHUNK_SIZE
                &&& self.bytes_read + len <= u64::MAX
            },
            Phase::AwaitParse { chunk_len, offset, flush } => {
                &&& e matches Event::Parsed { consumed, packet_len }
                &&& (0 <= consumed ==> offset + consumed <= chunk_len)
            },
            Phase::AwaitSubmit { .. } => e matches Event::Submitted { .. },
            Phase::AwaitReceive { .. } => {
                &&& e matches Event::Received { status }
                &&& (status is FrameReady ==> self.frames_written < u64::MAX)
            },
            Phase::AwaitWrite { .. } => e matches Event::FrameWritten { .. },
            Phase::Done => false,
            Phase::Failed { .. } => false,
        }
    }

    /// The state and action after the current packet is drained: continue
    /// the chunk, read the next one, or — after the flush call — finish.
    pub open spec fn spec_advance(self, r: Resume) -> (Machine, Action) {
        match r {
            Resume::Feed { chunk_len, offset } => {
                if offset == chunk_len {
                    (Machine { phase: Phase::AwaitChunk, ..self }, Action::ReadChunk)
                } else {
                    (
                        Machine { phase: Phase::AwaitParse { chunk_len, offset, flush: false }, ..self },
                        Action::OfferParser { offset, len: (chunk_len - offset) as usize },
                    )
                }
            },
            Resume::Flush => (Machine { phase: Phase::Done, ..self }, Action::Finish),
        }
    }

    /// The transition relation: the state after event `e`, and the action
    /// the caller must perform next.
    pub open spec fn next(self, e: Event) -> (Machine, Action) {
        match (self.phase, e) {
            (Phase::AwaitChunk, Event::ChunkRead { len }) => {
                if len == 0 {
                    (
                        Machine {
                            phase: Phase::AwaitParse { chunk_len: 0, offset: 0, flush: true },
                            flush_offered: true,
                            ..self
                        },
                        Action::OfferParser { offset: 0, len: 0 },
                    )
                } else {
                    (
                        Machine {
                            phase: Phase::AwaitParse { chunk_len: len, offset: 0, flush: false },
                            bytes_read: (self.bytes_read + len) as u64,
                            ..self
                        },
                        Action::OfferParser { offset: 0, len },
                    )
                }
            },
            (Phase::AwaitParse { chunk_len, offset, flush }, Event::Parsed { consumed, packet_len }) => {
                if flush {
                    if packet_len > 0 {
                        (
                            Machine { phase: Phase::AwaitSubmit { resume: Resume::Flush }, ..self },
                            Action::SubmitPacket,
                        )
                    } else {
                        (Machine { phase: Phase::Done, ..self }, Action::Finish)
                    }
                } else if consumed < 0 {
                    (
                        Machine { phase: Phase::Failed { error: RunError::Parse }, ..self },
                        Action::Fail { error: RunError::Parse },
                    )
                } else {
                    let m2 = Machine {
                        bytes_consumed: (self.bytes_consumed + consumed) as u64,
                        ..self
                    };
                    let resume = Resume::Feed { chunk_len, offset: (offset + consumed) as usize };
                    if packet_len > 0 {
                        (Machine { phase: Phase::AwaitSubmit { resume }, ..m2 }, Action::SubmitPacket)
                    } else {
                        m2.spec_advance(resume)
                    }
                }
            },
            (Phase::AwaitSubmit { resume }, Event::Submitted { accepted }) => {
                if accepted {
                    (Machine { phase: Phase::AwaitReceive { resume }, ..self }, Action::ReceiveFrame)
                } else {
                    (
                        Machine { phase: Phase::Failed { error: RunError::DecodeSubmit }, ..self },
                        Action::Fail { error: RunError::DecodeSubmit },
                    )
                }
            },
            (Phase::AwaitReceive { resume }, Event::Received { status }) => {
                match status {
                    RecvStatus::FrameReady => {
                        (
                            Machine {
                                phase: Phase::AwaitWrite { resume },
                                frames_written: (self.frames_written + 1) as u64,
                                ..self
                            },
                            Action::WriteFrame { index: (self.frames_written + 1) as u64 },
                        )
                    },
                    RecvStatus::TryAgain => self.spec_advance(resume),
                    RecvStatus::EndOfStream => self.spec_advance(resume),
                    RecvStatus::Failed => {
                        (
                            Machine { phase: Phase::Failed { error: RunError::DecodeRetrieve }, ..self },
                            Action::Fail { error: RunError::DecodeRetrieve },
                        )
                    },
                }
            },
            (Phase::AwaitWrite { resume }, Event::FrameWritten { ok }) => {
                if ok {
                    (Machine { phase: Phase::AwaitReceive { resume }, ..self }, Action::ReceiveFrame)
                } else {
                    (
                        Machine { phase: Phase::Failed { error: RunError::FrameWrite }, ..self },
                        Action::Fail { error: RunError::FrameWrite },
                    )
                }
            },
            _ => (self, Action::Finish),
        }
    }

    /// Starts a run.  The caller's first action is [`Action::ReadChunk`].
    pub fn new() -> (m: Machine)
        ensures
            m == Machine::init(),
            m.inv(),
    {
        Machine {
            phase: Phase::AwaitChunk,
            frames_written: 0,
            bytes_read: 0,
            bytes_consumed: 0,
            flush_offered: false,
        }
    }

    /// Continues after a drained packet, mirroring [`Machine::spec_advance`].
    fn advance(&mut self, r: Resume) -> (a: Action)
        requires
            r matches Resume::Feed { chunk_len, offset } ==> offset <= chunk_len,
        ensures
            (*final(self), a) == old(self).spec_advance(r),
    {
        match r {
            Resume::Feed { chunk_len, offset } => {
                if offset == chunk_len {
                    self.phase = Phase::AwaitChunk;
                    Action::ReadChunk
                } else {
                    self.phase = Phase::AwaitParse { chunk_len, offset, flush: false };
                    Action::OfferParser { offset, len: chunk_len - offset }
                }
            },
            Resume::Flush => {
                self.phase = Phase::Done;
                Action::Finish
            },
        }
    }

    /// Feeds the machine the outcome of the last action; returns the next
    /// action.  The step taken is exactly [`Machine::next`], and it keeps
    /// the invariant.
    pub fn step(&mut self, e: Event) -> (a: Action)
        requires
            old(self).inv(),
            old(self).event_wf(e),
        ensures
            (*final(self), a) == old(self).next(e),
            final(self).inv(),
    {
        let m = *self;
        match (m.phase, e) {
            (Phase::AwaitChunk, Event::ChunkRead { len }) => {
                if len == 0 {
                    self.phase = Phase::AwaitParse { chunk_len: 0, offset: 0, flush: true };
                    self.flush_offered = true;
                    Action::OfferParser { offset: 0, len: 0 }
                } else {
                    self.phase = Phase::AwaitParse { chunk_len: len, offset: 0, flush: false };
                    self.bytes_read = self.bytes_read + (len as u64);
                    Action::OfferParser { offset: 0, len }
                }
            },
            (Phase::AwaitParse { chunk_len, offset, flush }, Event::Parsed { consumed, packet_len }) => {
                if flush {
                    if packet_len > 0 {
                        self.phase = Phase::AwaitSubmit { resume: Resume::Flush };
                        Action::SubmitPacket
                    } else {
                        self.phase = Phase::Done;
                        Action::Finish
                    }
                } else if consumed < 0 {
                    self.phase = Phase::Failed { error: RunError::Parse };
                    Action::Fail { error: RunError::Parse }
                } else {
                    self.bytes_consumed = self.bytes_consumed + (consumed as u64);
                    let resume = Resume::Feed { chunk_len, offset: offset + (consumed as usize) };
                    if packet_len > 0 {
                        self.phase = Phase::AwaitSubmit { resume };
                        Action::SubmitPacket
                    } else {
                        self.advance(resume)
                    }
                }
            },
            (Phase::AwaitSubmit { resume }, Event::Submitted { accepted }) => {
                if accepted {
                    self.phase = Phase::AwaitReceive { resume };
                    Action::ReceiveFrame
                } else {
                    self.phase = Phase::Failed { error: RunError::DecodeSubmit };
                    Action::Fail { error: RunError::DecodeSubmit }
                }
            },
            (Phase::AwaitReceive { resume }, Event::Received { status }) => {
                match status {
                    RecvStatus::FrameReady => {
                        self.phase = Phase::AwaitWrite { resume };
                        self.frames_written = self.frames_written + 1;
                        Action::WriteFrame { index: self.frames_written }
                    },
                    RecvStatus::TryAgain => self.advance(resume),
                    RecvStatus::EndOfStream => self.advance(resume),
                    RecvStatus::Failed => {
                        self.phase = Phase::Failed { error: RunError::DecodeRetrieve };
                        Action::Fail { error: RunError::DecodeRetrieve }
                    },
                }
            },
            (Phase::AwaitWrite { resume }, Event::FrameWritten { ok }) => {
                if ok {
                    self.phase = Phase::AwaitReceive { resume };
                    Action::ReceiveFrame
                } else {
                    self.phase = Phase::Failed { error: RunError::FrameWrite };
                    Action::Fail { error: RunError::FrameWrite }
                }
            },
            _ => Action::Finish,
        }
    }
}

/// The state after the machine, started in `m`, took the steps of `events`
/// in order.
pub open spec fn run_from(m: Machine, events: Seq<Event>) -> Machine
    decreases events.len(),
{
    if events.len() == 0 {
        m
    } else {
        run_from(m, events.drop_last()).next(events.last()).0
    }
}

/// The state after a run over `events` from the initial state.
pub open spec fn run(events: Seq<Event>) -> Machine {
    run_from(Machine::init(), events)
}

/// Every event of the run, in turn, answers the action the machine was
/// waiting for.
pub open spec fn run_wf_from(m: Machine, events: Seq<Event>) -> bool
    decreases events.len(),
{
    if events.len() == 0 {
        true
    } else {
        run_wf_from(m, events.drop_last()) && run_from(m, events.drop_last()).event_wf(
            events.last(),
        )
    }
}

/// A well-formed run from the initial state.
pub open spec fn run_wf(events: Seq<Event>) -> bool {
    run_wf_from(Machine::init(), events)
}

/// Whether `a` is the end-of-stream flush call: the zero-length parser
/// offer.
pub open spec fn is_flush_call(a: Action) -> bool {
    a matches Action::OfferParser { len, .. } && len == 0
}

/// How many flush calls the run over `events` has issued.
pub open spec fn flush_calls(events: Seq<Event>) -> int
    decreases events.len(),
{
    if events.len() == 0 {
        0
    } else {
        flush_calls(events.drop_last()) + if is_flush_call(
            run(events.drop_last()).next(events.last()).1,
        ) {
            1int
        } else {
            0int
        }
    }
}

/// How many frame writes the run over `events` has issued.
pub open spec fn frame_writes(events: Seq<Event>) -> int
    decreases events.len(),
{
    if events.len() == 0 {
        0
    } else {
        frame_writes(events.drop_last()) + if run(events.drop_last()).next(
            events.last(),
        ).1 matches Action::WriteFrame { .. } {
            1int
        } else {
            0int
        }
    }
}

/// A step from any state that satisfies the invariant keeps it.
pub proof fn lemma_step_preserves_inv(m: Machine, e: Event)
    requires
        m.inv(),
        m.event_wf(e),
    ensures
        m.next(e).0.inv(),
{
}

/// The invariant holds after every well-formed run.
pub proof fn lemma_run_inv(events: Seq<Event>)
    requires
        run_wf(events),
    ensures
        run(events).inv(),
    decreases events.len(),
{
    if events.len() > 0 {
        lemma_run_inv(events.drop_last());
        lemma_step_preserves_inv(run(events.drop_last()), events.last());
    }
}

/// Every parser offer covers exactly the bytes read but not yet consumed:
/// it begins at the first unconsumed input byte and ends at the last byte
/// read, so the windows offered across a run walk the input in order with
/// no gap and no duplication, and a successful parse of `consumed` bytes
/// advances the consumed prefix by exactly that amount.
pub proof fn lemma_offer_is_unconsumed_window(m: Machine, e: Event)
    requires
        m.inv(),
        m.event_wf(e),
    ensures
        m.next(e).1 matches Action::OfferParser { offset, len } ==> m.next(e).0.bytes_consumed
            + len == m.next(e).0.bytes_read,
        e matches Event::Parsed { consumed, .. } ==> ((0 <= consumed && !(m.next(e).0.phase
            is Failed)) ==> m.next(e).0.bytes_consumed == m.bytes_consumed + consumed),
{
}

/// A completed run has consumed every byte it read: the bytes offered to
/// the parser, concatenated in call order, are exactly the input bytes.
pub proof fn lemma_run_feeds_whole_input(events: Seq<Event>)
    requires
        run_wf(events),
        run(events).phase is Done,
    ensures
        run(events).bytes_consumed == run(events).bytes_read,
{
    lemma_run_inv(events);
}

/// One step's worth of the flush discipline: a step issues the flush call
/// exactly when it is the transition out of reading at end of input, the
/// flush flag never goes back down, and once it is up the machine never
/// reads nor calls the parser again.
pub proof fn lemma_flush_step(m: Machine, e: Event)
    requires
        m.inv(),
        m.event_wf(e),
    ensures
        is_flush_call(m.next(e).1) <==> (!m.flush_offered && m.next(e).0.flush_offered),
        is_flush_call(m.next(e).1) <==> (m.phase is AwaitChunk && e matches Event::ChunkRead {
            len: 0,
        }),
        m.flush_offered ==> m.next(e).0.flush_offered,
        m.flush_offered ==> !(m.next(e).1 is ReadChunk) && !(m.next(
            e,
        ).1 matches Action::OfferParser { .. }),
{
}

/// A run issues the flush call at most once — exactly once iff its flush
/// flag is up.
pub proof fn lemma_flush_count(events: Seq<Event>)
    requires
        run_wf(events),
    ensures
        flush_calls(events) == if run(events).flush_offered {
            1int
        } else {
            0int
        },
    decreases events.len(),
{
    if events.len() > 0 {
        lemma_run_inv(events.drop_last());
        lemma_flush_count(events.drop_last());
        lemma_flush_step(run(events.drop_last()), events.last());
    }
}

/// A completed run issued the flush call exactly once.
pub proof fn lemma_completed_run_flushes_once(events: Seq<Event>)
    requires
        run_wf(events),
        run(events).phase is Done,
    ensures
        flush_calls(events) == 1,
{
    lemma_run_inv(events);
    lemma_flush_count(events);
}

/// After the flush call, the rest of the run reads nothing and never calls
/// the parser again: the flush call is the run's final parser call, made
/// after the last (empty) read.
pub proof fn lemma_flush_is_final_call(events: Seq<Event>, e: Event)
    requires
        run_wf(events),
        run(events).flush_offered,
        run(events).event_wf(e),
    ensures
        !(run(events).next(e).1 is ReadChunk),
        !(run(events).next(e).1 matches Action::OfferParser { .. }),
        run(events).next(e).0.flush_offered,
{
    lemma_run_inv(events);
    lemma_flush_step(run(events), e);
}

/// One step's worth of the numbering discipline: a frame write carries the
/// new value of the frame counter, which grows by one exactly then.
pub proof fn lemma_frame_counter_step(m: Machine, e: Event)
    requires
        m.inv(),
        m.event_wf(e),
    ensures
        m.next(e).1 matches Action::WriteFrame { index } ==> m.next(e).0.frames_written
            == m.frames_written + 1 && index == m.frames_written + 1,
        !(m.next(e).1 matches Action::WriteFrame { .. }) ==> m.next(e).0.frames_written
            == m.frames_written,
{
}

/// The frame counter counts the frames emitted: after any well-formed run
/// it equals the number of frame writes the run issued.
pub proof fn lemma_frame_count(events: Seq<Event>)
    requires
        run_wf(events),
    ensures
        frame_writes(events) == run(events).frames_written,
    decreases events.len(),
{
    if events.len() > 0 {
        lemma_run_inv(events.drop_last());
        lemma_frame_count(events.drop_last());
        lemma_frame_counter_step(run(events.drop_last()), events.last());
    }
}

/// Frame numbers are 1, 2, 3, ... in decode order: the k-th frame write of
/// any well-formed run (counting from 1) carries exactly the number k, so
/// numbers strictly increase by one per frame and are never reused.
pub proof fn lemma_frame_numbers_sequential(events: Seq<Event>, e: Event)
    requires
        run_wf(events),
        run(events).event_wf(e),
        run(events).next(e).1 matches Action::WriteFrame { .. },
    ensures
        run(events).next(e).1 == (Action::WriteFrame {
            index: (frame_writes(events) + 1) as u64,
        }),
{
    lemma_run_inv(events);
    lemma_frame_count(events);
    lemma_frame_counter_step(run(events), e);
}

} // verus!
