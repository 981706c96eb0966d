//! The write loop of a connection, which carries container output to a
//! client, as a state machine.
//!
//! The loop waits for either the next outbound buffer or cancellation and
//! hands each such event, and the outcome of each frame that it writes, to a
//! `WriteLoop`; the action that comes back says which frame to write next,
//! whether to wait, or whether to stop.
use vstd::prelude::*;
use crate::error::AttachError;
use crate::frame::PACKET_BUF_SIZE;
use crate::frame::{
    chunk_of, done_frame, done_packet, frame_at, frame_count, frame_of, packet_count, tag_of, Pipe,
};

verus! {

/// How writing one frame to the client went.
#[derive(Clone, Copy, Debug, PartialEq, Eq, Structural)]
pub enum WriteOutcome {
    /// The frame was written.
    Written,
    /// The socket would have blocked: the frame is dropped.
    WouldBlock,
    /// The client is gone.
    BrokenPipe,
    /// Any other failure.
    Failed,
}

/// Why receiving the next outbound buffer failed.
#[derive(Clone, Copy, Debug, PartialEq, Eq, Structural)]
pub enum RecvFailure {
    /// Every sender is gone.
    Closed,
    /// The loop fell behind by this many buffers.
    Lagged(u64),
}

/// The error that a failed receive ends a write loop with.
pub open spec fn recv_error_of(e: RecvFailure) -> AttachError {
    match e {
        RecvFailure::Closed => AttachError::ChannelClosed,
        RecvFailure::Lagged(n) => AttachError::Lagged(n),
    }
}

/// The states of a write loop.
pub enum WritePhase {
    /// Waiting for the next buffer or for cancellation.
    Idle,
    /// Writing the frames of `payload`; frame `sent` is being written.
    Draining { pipe: Pipe, payload: Seq<u8>, sent: nat },
    /// Writing the closing all-zero frame.
    Closing,
    /// Stopped.
    Finished,
}

/// The actions of a write loop, as sequences.
pub enum Step {
    /// Write this frame and report how it went.
    Send(Seq<u8>),
    /// Wait for the next buffer or for cancellation.
    Wait,
    /// Stop: the loop is done.
    Exit,
    /// Stop with this error.
    Fail(AttachError),
}

/// What a write loop does next.
#[derive(Debug)]
pub enum WriteAction {
    /// Write this frame and report how it went with `on_written`.
    Send(Vec<u8>),
    /// Wait for the next buffer or for cancellation.
    Wait,
    /// Stop: the loop is done.
    Exit,
    /// Stop with this error.
    Fail(AttachError),
}

impl View for WriteAction {
    type V = Step;

    open spec fn view(&self) -> Step {
        match self {
            WriteAction::Send(f) => Step::Send(f@),
            WriteAction::Wait => Step::Wait,
            WriteAction::Exit => Step::Exit,
            WriteAction::Fail(e) => Step::Fail(*e),
        }
    }
}

/// A new buffer `p` of `pipe` arrives in state `s`. A loop takes the next
/// buffer only when its last action was `Wait`, so a buffer arrives only in
/// `Idle`; one handed in any other state is ignored.
pub open spec fn on_message_spec(s: WritePhase, pipe: Pipe, p: Seq<u8>) -> (WritePhase, Step) {
    match s {
        WritePhase::Idle => (
            WritePhase::Draining { pipe, payload: p, sent: 0 },
            Step::Send(frame_of(pipe, chunk_of(p, 0))),
        ),
        _ => (s, Step::Wait),
    }
}

/// Shutdown is requested in state `s`. A loop watches for shutdown only when
/// its last action was `Wait`, that is between buffers, so the frames of a
/// buffer are all written first; shutdown handed in while draining would
/// abandon the rest of the buffer.
pub open spec fn on_cancel_spec(s: WritePhase) -> (WritePhase, Step) {
    match s {
        WritePhase::Closing => (s, Step::Wait),
        WritePhase::Finished => (s, Step::Wait),
        _ => (WritePhase::Closing, Step::Send(done_frame())),
    }
}

/// Receiving the next buffer failed with `e` in state `s`.
pub open spec fn on_recv_failed_spec(s: WritePhase, e: RecvFailure) -> (WritePhase, Step) {
    match s {
        WritePhase::Idle => (WritePhase::Finished, Step::Fail(recv_error_of(e))),
        _ => (s, Step::Wait),
    }
}

/// The frame being written in state `s` went as `o`.
pub open spec fn on_written_spec(s: WritePhase, o: WriteOutcome) -> (WritePhase, Step) {
    match s {
        WritePhase::Draining { pipe, payload, sent } => match o {
            WriteOutcome::Written | WriteOutcome::WouldBlock => if sent + 1 < frame_count(
                payload.len(),
            ) {
                (
                    WritePhase::Draining { pipe, payload, sent: sent + 1 },
                    Step::Send(frame_of(pipe, chunk_of(payload, sent + 1))),
                )
            } else {
                (WritePhase::Idle, Step::Wait)
            },
            WriteOutcome::BrokenPipe => (WritePhase::Idle, Step::Wait),
            WriteOutcome::Failed => (
                WritePhase::Finished,
                Step::Fail(
                    AttachError::WriteFailed {
                        index: sent as usize,
                        total: frame_count(payload.len()) as usize,
                    },
                ),
            ),
        },
        WritePhase::Closing => match o {
            WriteOutcome::Failed => (WritePhase::Finished, Step::Fail(AttachError::DoneWriteFailed)),
            _ => (WritePhase::Finished, Step::Exit),
        },
        _ => (s, Step::Wait),
    }
}

#[derive(Clone, Copy, Debug, PartialEq, Eq, Structural)]
enum Stage {
    Idle,
    Draining,
    Closing,
    Finished,
}

/// The state of one connection's write loop.
#[derive(Debug)]
pub struct WriteLoop {
    stage: Stage,
    pipe: Pipe,
    buf: Vec<u8>,
    sent: usize,
}

impl View for WriteLoop {
    type V = WritePhase;

    closed spec fn view(&self) -> WritePhase {
        match self.stage {
            Stage::Idle => WritePhase::Idle,
            Stage::Draining => WritePhase::Draining {
                pipe: self.pipe,
                payload: self.buf@,
                sent: self.sent as nat,
            },
            Stage::Closing => WritePhase::Closing,
            Stage::Finished => WritePhase::Finished,
        }
    }
}

impl WriteLoop {
    /// A loop waiting for its first buffer.
    pub fn new() -> (r: WriteLoop)
        ensures
            r@ == WritePhase::Idle,
    {
        WriteLoop { stage: Stage::Idle, pipe: Pipe::StdOut, buf: Vec::new(), sent: 0 }
    }

    /// Whether the loop has stopped.
    pub fn is_finished(&self) -> (r: bool)
        ensures
            r == (self@ is Finished),
    {
        self.stage == Stage::Finished
    }

    /// The buffer `buf` of `pipe` arrived: write its first frame (for an
    /// empty buffer, the tag byte and zero padding). The loop is meant to be
    /// handed a buffer after a `Wait`; in another state it ignores it.
    pub fn on_message(&mut self, pipe: Pipe, buf: Vec<u8>) -> (r: WriteAction)
        ensures
            (final(self)@, r@) == on_message_spec(old(self)@, pipe, buf@),
    {
        if self.stage != Stage::Idle {
            return WriteAction::Wait;
        }
        proof {
            crate::frame::lemma_frames_rejoin(pipe, buf@);
        }
        let frame = frame_at(pipe, &buf, 0);
        self.stage = Stage::Draining;
        self.pipe = pipe;
        self.buf = buf;
        self.sent = 0;
        WriteAction::Send(frame)
    }

    /// Shutdown was requested: write the all-zero frame once. The loop is
    /// meant to be told between buffers, after a `Wait`.
    pub fn on_cancel(&mut self) -> (r: WriteAction)
        ensures
            (final(self)@, r@) == on_cancel_spec(old(self)@),
    {
        if self.stage == Stage::Closing || self.stage == Stage::Finished {
            return WriteAction::Wait;
        }
        self.stage = Stage::Closing;
        self.buf = Vec::new();
        WriteAction::Send(done_packet())
    }

    /// Receiving the next buffer failed: the loop stops with an error.
    pub fn on_recv_failed(&mut self, e: RecvFailure) -> (r: WriteAction)
        ensures
            (final(self)@, r@) == on_recv_failed_spec(old(self)@, e),
    {
        if self.stage != Stage::Idle {
            return WriteAction::Wait;
        }
        self.stage = Stage::Finished;
        match e {
            RecvFailure::Closed => WriteAction::Fail(AttachError::ChannelClosed),
            RecvFailure::Lagged(n) => WriteAction::Fail(AttachError::Lagged(n)),
        }
    }

    /// The frame last handed out went as `o`. A dropped frame is passed over,
    /// a gone client ends the buffer, and any other failure stops the loop.
    pub fn on_written(&mut self, o: WriteOutcome) -> (r: WriteAction)
        ensures
            (final(self)@, r@) == on_written_spec(old(self)@, o),
    {
        match self.stage {
            Stage::Draining => {
                let count = packet_count(self.buf.len());
                match o {
                    WriteOutcome::Written | WriteOutcome::WouldBlock => {
                        if self.sent < count && count - self.sent > 1 {
                            let next = self.sent + 1;
                            let frame = frame_at(self.pipe, &self.buf, next);
                            self.sent = next;
                            WriteAction::Send(frame)
                        } else {
                            self.stage = Stage::Idle;
                            WriteAction::Wait
                        }
                    },
                    WriteOutcome::BrokenPipe => {
                        self.stage = Stage::Idle;
                        WriteAction::Wait
                    },
                    WriteOutcome::Failed => {
                        self.stage = Stage::Finished;
                        WriteAction::Fail(AttachError::WriteFailed { index: self.sent, total: count })
                    },
                }
            },
            Stage::Closing => {
                self.stage = Stage::Finished;
                match o {
                    WriteOutcome::Failed => WriteAction::Fail(AttachError::DoneWriteFailed),
                    _ => WriteAction::Exit,
                }
            },
            _ => WriteAction::Wait,
        }
    }
}

/// The state reached, and the frames written in order, when `k` frames in a
/// row are written from state `s`.
pub open spec fn drain_written(s: WritePhase, k: nat) -> (WritePhase, Seq<Seq<u8>>)
    decreases k,
{
    if k == 0 {
        (s, Seq::empty())
    } else {
        let (s1, a) = on_written_spec(s, WriteOutcome::Written);
        let (s2, rest) = drain_written(s1, (k - 1) as nat);
        (
            s2,
            match a {
                Step::Send(f) => seq![f] + rest,
                _ => rest,
            },
        )
    }
}

proof fn lemma_drain_from(pipe: Pipe, p: Seq<u8>, sent: nat)
    requires
        sent < frame_count(p.len()),
    ensures
        drain_written(WritePhase::Draining { pipe, payload: p, sent }, (frame_count(p.len()) - sent) as nat)
            == (WritePhase::Idle, Seq::new(
            (frame_count(p.len()) - sent - 1) as nat,
            |i: int| frame_of(pipe, chunk_of(p, (sent + 1 + i) as nat)),
        )),
    decreases frame_count(p.len()) - sent,
{
    let n = frame_count(p.len());
    let s = WritePhase::Draining { pipe, payload: p, sent };
    let k = (n - sent) as nat;
    let want = Seq::new(
        (n - sent - 1) as nat,
        |i: int| frame_of(pipe, chunk_of(p, (sent + 1 + i) as nat)),
    );
    if sent + 1 < n {
        let s1 = WritePhase::Draining { pipe, payload: p, sent: sent + 1 };
        lemma_drain_from(pipe, p, sent + 1);
        assert((k - 1) as nat == (n - (sent + 1)) as nat);
        let rest = drain_written(s1, (k - 1) as nat).1;
        assert(seq![frame_of(pipe, chunk_of(p, sent + 1))] + rest =~= want);
    } else {
        assert(k == 1);
        assert(drain_written(WritePhase::Idle, 0) == (WritePhase::Idle, Seq::<Seq<u8>>::empty()));
        assert(want =~= Seq::<Seq<u8>>::empty());
    }
}

/// A buffer that arrives at an idle loop, whose frames are then all written,
/// goes to the client as its frames in order, and the loop is idle again.
pub proof fn lemma_buffer_written_in_order(pipe: Pipe, p: Seq<u8>)
    ensures
        ({
            let (s1, a) = on_message_spec(WritePhase::Idle, pipe, p);
            let (s2, rest) = drain_written(s1, frame_count(p.len()));
            &&& a is Send
            &&& seq![a->Send_0] + rest == crate::frame::frames_of(pipe, p)
            &&& s2 is Idle
        }),
{
    let n = frame_count(p.len());
    crate::frame::lemma_frames_rejoin(pipe, p);
    lemma_drain_from(pipe, p, 0);
    let rest = drain_written(WritePhase::Draining { pipe, payload: p, sent: 0 }, n).1;
    assert(seq![frame_of(pipe, chunk_of(p, 0))] + rest =~= crate::frame::frames_of(pipe, p));
}

/// Shutdown of a loop that is neither closing nor finished writes the
/// all-zero frame. Whatever that write's outcome, the loop then stops without
/// an error unless the write failed outright, and a stopped loop writes
/// nothing more, whatever happens after.
pub proof fn lemma_cancel_sends_one_done_frame(
    s: WritePhase,
    o: WriteOutcome,
    pipe: Pipe,
    p: Seq<u8>,
    e: RecvFailure,
    later: WriteOutcome,
)
    requires
        !(s is Closing),
        !(s is Finished),
    ensures
        on_cancel_spec(s) == (WritePhase::Closing, Step::Send(done_frame())),
        done_frame().len() == crate::frame::PACKET_BUF_SIZE,
        forall|i: int| 0 <= i < done_frame().len() ==> done_frame()[i] == 0,
        on_written_spec(WritePhase::Closing, o) == (WritePhase::Finished, if o is Failed {
            Step::Fail(AttachError::DoneWriteFailed)
        } else {
            Step::Exit
        }),
        on_message_spec(WritePhase::Finished, pipe, p) == (WritePhase::Finished, Step::Wait),
        on_cancel_spec(WritePhase::Finished) == (WritePhase::Finished, Step::Wait),
        on_recv_failed_spec(WritePhase::Finished, e) == (WritePhase::Finished, Step::Wait),
        on_written_spec(WritePhase::Finished, later) == (WritePhase::Finished, Step::Wait),
{
}

/// An event that a write loop is handed.
pub enum WriteEvent {
    /// A buffer of a stream arrived.
    Message(Pipe, Seq<u8>),
    /// Shutdown was requested.
    Cancel,
    /// Receiving the next buffer failed.
    RecvFailed(RecvFailure),
    /// The frame last handed out went as given.
    Written(WriteOutcome),
}

/// The state and action that event `e` leads to in state `s`.
pub open spec fn step_spec(s: WritePhase, e: WriteEvent) -> (WritePhase, Step) {
    match e {
        WriteEvent::Message(pipe, p) => on_message_spec(s, pipe, p),
        WriteEvent::Cancel => on_cancel_spec(s),
        WriteEvent::RecvFailed(f) => on_recv_failed_spec(s, f),
        WriteEvent::Written(o) => on_written_spec(s, o),
    }
}

/// The state reached, and the frames written in order, when the events `evs`
/// are handed to a loop in state `s`.
pub open spec fn run_spec(s: WritePhase, evs: Seq<WriteEvent>) -> (WritePhase, Seq<Seq<u8>>)
    decreases evs.len(),
{
    if evs.len() == 0 {
        (s, Seq::empty())
    } else {
        let (s1, out) = run_spec(s, evs.drop_last());
        let (s2, a) = step_spec(s1, evs.last());
        (
            s2,
            match a {
                Step::Send(f) => out.push(f),
                _ => out,
            },
        )
    }
}

/// Over any run of a new loop, every frame written is `PACKET_BUF_SIZE`
/// bytes long and opens with a stream tag (2 or 3) or is the all-zero frame.
/// An all-zero frame is written at most once, only as the last frame, and
/// only once shutdown was requested; after that the loop writes nothing more.
/// A loop that is closing has written it as its last frame.
pub proof fn lemma_run_frames(evs: Seq<WriteEvent>)
    ensures
        ({
            let (s, out) = run_spec(WritePhase::Idle, evs);
            &&& forall|i: int| 0 <= i < out.len() ==> (#[trigger] out[i]).len() == PACKET_BUF_SIZE
            &&& forall|i: int|
                0 <= i < out.len() ==> #[trigger] out[i] == done_frame() || out[i][0] == 2
                    || out[i][0] == 3
            &&& forall|i: int|
                0 <= i < out.len() && (#[trigger] out[i])[0] == 0 ==> i == out.len() - 1 && (
                s is Closing || s is Finished)
            &&& s is Closing ==> out.len() > 0 && out.last() == done_frame()
            &&& s is Draining ==> s->Draining_sent < frame_count(s->Draining_payload.len())
        }),
    decreases evs.len(),
{
    if evs.len() > 0 {
        let (s1, out) = run_spec(WritePhase::Idle, evs.drop_last());
        lemma_run_frames(evs.drop_last());
        let e = evs.last();
        let (s2, a) = step_spec(s1, e);
        assert(done_frame()[0] == 0);
        match e {
            WriteEvent::Message(pipe, p) => {
                if s1 is Idle {
                    crate::frame::lemma_frames_rejoin(pipe, p);
                    crate::frame::lemma_frame_shape(pipe, p, 0);
                    assert(crate::frame::frames_of(pipe, p)[0] == frame_of(pipe, chunk_of(p, 0)));
                    assert(tag_of(pipe) == 2 || tag_of(pipe) == 3);
                }
            },
            WriteEvent::Written(o) => {
                if let WritePhase::Draining { pipe, payload, sent } = s1 {
                    if sent + 1 < frame_count(payload.len()) {
                        crate::frame::lemma_frame_shape(pipe, payload, sent + 1);
                        assert(tag_of(pipe) == 2 || tag_of(pipe) == 3);
                    }
                }
            },
            _ => {},
        }
        let out2 = run_spec(WritePhase::Idle, evs).1;
        if a is Send {
            assert(out2 == out.push(a->Send_0));
        } else {
            assert(out2 == out);
        }
    }
}

} // verus!
