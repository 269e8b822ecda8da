//! The decisions of the bridge that drains one PTY's output to the screen.
//!
//! The bridge reads at most one chunk at a time, forwards each non-empty
//! chunk as one bytes message followed by one render-due notification, retries
//! a read that would block, and at the end makes one last render-due attempt
//! whose failure is ignored. Whoever runs it performs each action and reports
//! back what happened; this module decides what comes next.
use vstd::prelude::*;

verus! {

#[verifier::external_type_specification]
pub struct ExErrorKind(std::io::ErrorKind);

pub assume_specification[ std::io::Error::kind ](e: &std::io::Error) -> std::io::ErrorKind;

/// The largest chunk one read asks for.
pub const READ_CHUNK: usize = 65536;

/// What one read of the PTY gave.
#[derive(Debug)]
pub enum ReadOutcome {
    /// Some bytes, in the order the child wrote them.
    Data(Vec<u8>),
    /// The stream ended.
    EndOfStream,
    /// Nothing yet; the same read should be tried again shortly.
    WouldBlock,
    /// The read failed for good.
    Failed(std::io::Error),
}

/// Sorts the bytes of a successful read: none mean end of stream.
pub fn classify_data(v: Vec<u8>) -> (r: ReadOutcome)
    ensures
        v@.len() == 0 ==> r is EndOfStream,
        v@.len() > 0 ==> (r matches ReadOutcome::Data(w) && w@ == v@),
{
    if v.len() == 0 {
        ReadOutcome::EndOfStream
    } else {
        ReadOutcome::Data(v)
    }
}

/// Sorts a failed read by its error's kind: would-block is to be retried,
/// every other kind is final.
pub fn classify_error(kind: std::io::ErrorKind, e: std::io::Error) -> (r: ReadOutcome)
    ensures
        (r is WouldBlock) == (kind == std::io::ErrorKind::WouldBlock),
        !(r is WouldBlock) ==> r is Failed,
{
    if matches!(kind, std::io::ErrorKind::WouldBlock) {
        ReadOutcome::WouldBlock
    } else {
        ReadOutcome::Failed(e)
    }
}

/// A message for the screen.
#[derive(Debug, PartialEq, Eq)]
pub enum ScreenMessage {
    /// Bytes received from a terminal, with the terminal's id.
    PtyBytes(u32, Vec<u8>),
    /// A render is due.
    Render,
}

/// Why the bridge stopped with an error.
#[derive(Debug)]
pub enum BridgeError {
    /// Reading the PTY failed.
    Read(std::io::Error),
    /// The screen did not take a message before shutdown.
    Sink,
}

/// What the bridge asks its runner to do next.
#[derive(Debug)]
pub enum BridgeAction {
    /// Read one chunk (at most `READ_CHUNK` bytes) and report it.
    Read,
    /// Wait briefly, then read again.
    Retry,
    /// Deliver this message and report whether it was taken.
    Send(ScreenMessage),
    /// Deliver a last render-due notification; whether it was taken does
    /// not matter.
    SendFinalRender,
    /// Stop, with this result.
    Finish(Result<(), BridgeError>),
}

/// Where the bridge stands.
#[derive(Debug, Clone, Copy, PartialEq, Eq, Structural)]
pub enum BridgePhase {
    /// A read is due or under way.
    Reading,
    /// A bytes message is being delivered.
    SendingBytes,
    /// The render-due notification after a bytes message is being delivered.
    SendingRender,
    /// The last render-due notification is being delivered.
    Closing,
    /// The bridge has stopped.
    Finished,
}

/// What a read gave, as the bridge's decisions see it.
pub enum ReadKind {
    Bytes(Seq<u8>),
    End,
    Blocked,
    Error,
}

pub open spec fn read_kind(outcome: ReadOutcome) -> ReadKind {
    match outcome {
        ReadOutcome::Data(v) => ReadKind::Bytes(v@),
        ReadOutcome::EndOfStream => ReadKind::End,
        ReadOutcome::WouldBlock => ReadKind::Blocked,
        ReadOutcome::Failed(_) => ReadKind::Error,
    }
}

/// A message as the screen receives it.
pub enum Sent {
    Bytes(u32, Seq<u8>),
    Render,
}

/// The message that an action delivers, if any.
pub open spec fn sent_by(action: BridgeAction) -> Option<Sent> {
    match action {
        BridgeAction::Send(ScreenMessage::PtyBytes(id, bytes)) => Some(Sent::Bytes(id, bytes@)),
        BridgeAction::Send(ScreenMessage::Render) => Some(Sent::Render),
        BridgeAction::SendFinalRender => Some(Sent::Render),
        _ => None,
    }
}

/// Where a read leaves the bridge.
pub open spec fn phase_after_read(k: ReadKind) -> BridgePhase {
    match k {
        ReadKind::Bytes(_) => BridgePhase::SendingBytes,
        ReadKind::Blocked => BridgePhase::Reading,
        _ => BridgePhase::Closing,
    }
}

/// What a read makes the bridge of terminal `id` send.
pub open spec fn sent_after_read(id: u32, k: ReadKind) -> Option<Sent> {
    match k {
        ReadKind::Bytes(v) => Some(Sent::Bytes(id, v)),
        ReadKind::Blocked => None,
        _ => Some(Sent::Render),
    }
}

/// Where a delivery attempt leaves the bridge.
pub open spec fn phase_after_delivery(p: BridgePhase, delivered: bool) -> BridgePhase {
    match p {
        BridgePhase::SendingBytes => if delivered {
            BridgePhase::SendingRender
        } else {
            BridgePhase::Finished
        },
        BridgePhase::SendingRender => if delivered {
            BridgePhase::Reading
        } else {
            BridgePhase::Finished
        },
        BridgePhase::Closing => BridgePhase::Finished,
        _ => p,
    }
}

/// What a delivery attempt makes the bridge send next.
pub open spec fn sent_after_delivery(p: BridgePhase, delivered: bool) -> Option<Sent> {
    if p == BridgePhase::SendingBytes && delivered {
        Some(Sent::Render)
    } else {
        None
    }
}

pub open spec fn sent_seq(m: Option<Sent>) -> Seq<Sent> {
    match m {
        Some(x) => seq![x],
        None => Seq::empty(),
    }
}

pub open spec fn phase_rank(p: BridgePhase) -> nat {
    match p {
        BridgePhase::SendingBytes => 3,
        BridgePhase::SendingRender => 2,
        BridgePhase::Reading => 1,
        BridgePhase::Closing => 1,
        BridgePhase::Finished => 0,
    }
}

/// What a bridge of terminal `id` in phase `p` sends when its reads give
/// `reads` in turn and the screen takes every message, step by step.
pub open spec fn run_from(id: u32, p: BridgePhase, reads: Seq<ReadKind>) -> Seq<Sent>
    decreases reads.len(), phase_rank(p),
{
    match p {
        BridgePhase::Reading => if reads.len() == 0 {
            Seq::empty()
        } else {
            sent_seq(sent_after_read(id, reads[0])) + run_from(
                id,
                phase_after_read(reads[0]),
                reads.drop_first(),
            )
        },
        BridgePhase::Finished => Seq::empty(),
        _ => sent_seq(sent_after_delivery(p, true)) + run_from(
            id,
            phase_after_delivery(p, true),
            reads,
        ),
    }
}

/// The messages the screen should see from reads `reads`: for each read in
/// turn, the bytes of a non-empty one followed by a render-due, nothing for
/// one that would block, and a last render-due at end of stream or on an
/// error, after which nothing more.
pub open spec fn expected_messages(id: u32, reads: Seq<ReadKind>) -> Seq<Sent>
    decreases reads.len(),
{
    if reads.len() == 0 {
        Seq::empty()
    } else {
        match reads[0] {
            ReadKind::Bytes(v) => seq![Sent::Bytes(id, v), Sent::Render] + expected_messages(
                id,
                reads.drop_first(),
            ),
            ReadKind::Blocked => expected_messages(id, reads.drop_first()),
            _ => seq![Sent::Render],
        }
    }
}

/// With every message taken, a bridge's steps send exactly the expected
/// messages: one bytes message per non-empty read, in read order, each
/// followed by one render-due, and one last render-due when reading ends.
pub proof fn lemma_bridge_sends_in_order(id: u32, reads: Seq<ReadKind>)
    ensures
        run_from(id, BridgePhase::Reading, reads) == expected_messages(id, reads),
    decreases reads.len(),
{
    if reads.len() > 0 {
        let rest = reads.drop_first();
        lemma_bridge_sends_in_order(id, rest);
        match reads[0] {
            ReadKind::Bytes(v) => {
                assert(run_from(id, BridgePhase::SendingRender, rest) == Seq::<Sent>::empty() + run_from(id, BridgePhase::Reading, rest));
                assert(Seq::<Sent>::empty() + run_from(id, BridgePhase::Reading, rest) =~= run_from(id, BridgePhase::Reading, rest));
                assert(run_from(id, BridgePhase::SendingBytes, rest) == seq![Sent::Render] + run_from(id, BridgePhase::SendingRender, rest));
                assert(run_from(id, BridgePhase::Reading, reads) =~= seq![Sent::Bytes(id, v), Sent::Render] + run_from(id, BridgePhase::Reading, rest));
            },
            ReadKind::Blocked => {
                assert(run_from(id, BridgePhase::Reading, reads) =~= run_from(id, BridgePhase::Reading, rest));
            },
            _ => {
                assert(run_from(id, BridgePhase::Finished, rest) == Seq::<Sent>::empty());
                assert(run_from(id, BridgePhase::Closing, rest) =~= Seq::<Sent>::empty());
                assert(run_from(id, BridgePhase::Reading, reads) =~= seq![Sent::Render]);
            },
        }
    }
}

/// The bridge of one terminal: its id and where it stands.
pub struct TerminalBytes {
    terminal_id: u32,
    phase: BridgePhase,
    failure: Option<std::io::Error>,
}

impl TerminalBytes {
    pub closed spec fn id(&self) -> u32 {
        self.terminal_id
    }

    pub closed spec fn phase(&self) -> BridgePhase {
        self.phase
    }

    /// While closing: the loop ended on a read error, to be reported.
    pub closed spec fn read_failed(&self) -> bool {
        self.failure.is_some()
    }

    /// A bridge for one terminal; its first action is a read.
    pub fn new(terminal_id: u32) -> (r: Self)
        ensures
            r.id() == terminal_id,
            r.phase() == BridgePhase::Reading,
    {
        TerminalBytes { terminal_id, phase: BridgePhase::Reading, failure: None }
    }

    /// The bridge's terminal id.
    pub fn terminal_id(&self) -> (r: u32)
        ensures
            r == self.id(),
    {
        self.terminal_id
    }

    /// Decides what follows a read. Bytes go out as one message for this
    /// terminal; would-block asks for a retry; end of stream and read errors
    /// close the loop with one last render-due attempt.
    pub fn on_read(&mut self, outcome: ReadOutcome) -> (r: BridgeAction)
        requires
            old(self).phase() == BridgePhase::Reading,
        ensures
            final(self).id() == old(self).id(),
            final(self).phase() == phase_after_read(read_kind(outcome)),
            sent_by(r) == sent_after_read(old(self).id(), read_kind(outcome)),
            read_kind(outcome) is Bytes ==> r is Send,
            read_kind(outcome) is Blocked ==> r is Retry,
            read_kind(outcome) is End ==> r is SendFinalRender && !final(self).read_failed(),
            read_kind(outcome) is Error ==> r is SendFinalRender && final(self).read_failed(),
    {
        match outcome {
            ReadOutcome::Data(bytes) => {
                self.phase = BridgePhase::SendingBytes;
                BridgeAction::Send(ScreenMessage::PtyBytes(self.terminal_id, bytes))
            },
            ReadOutcome::EndOfStream => {
                self.phase = BridgePhase::Closing;
                self.failure = None;
                BridgeAction::SendFinalRender
            },
            ReadOutcome::WouldBlock => BridgeAction::Retry,
            ReadOutcome::Failed(e) => {
                self.phase = BridgePhase::Closing;
                self.failure = Some(e);
                BridgeAction::SendFinalRender
            },
        }
    }

    /// Decides what follows a delivery attempt. A bytes message is followed
    /// by a render-due notification, and that by the next read; a refused
    /// delivery before shutdown stops the bridge with `Sink`. After the last
    /// render-due attempt the bridge stops, whatever became of it, with the
    /// read error if there was one.
    pub fn on_delivered(&mut self, delivered: bool) -> (r: BridgeAction)
        requires
            old(self).phase() == BridgePhase::SendingBytes
                || old(self).phase() == BridgePhase::SendingRender
                || old(self).phase() == BridgePhase::Closing,
        ensures
            final(self).id() == old(self).id(),
            final(self).phase() == phase_after_delivery(old(self).phase(), delivered),
            sent_by(r) == sent_after_delivery(old(self).phase(), delivered),
            old(self).phase() == BridgePhase::Closing ==> {
                &&& final(self).phase() == BridgePhase::Finished
                &&& if old(self).read_failed() {
                    r matches BridgeAction::Finish(Err(BridgeError::Read(_)))
                } else {
                    r matches BridgeAction::Finish(Ok(()))
                }
            },
            old(self).phase() != BridgePhase::Closing && !delivered ==> {
                &&& final(self).phase() == BridgePhase::Finished
                &&& r matches BridgeAction::Finish(Err(BridgeError::Sink))
            },
            old(self).phase() == BridgePhase::SendingBytes && delivered ==> {
                &&& final(self).phase() == BridgePhase::SendingRender
                &&& r matches BridgeAction::Send(ScreenMessage::Render)
            },
            old(self).phase() == BridgePhase::SendingRender && delivered ==> {
                &&& final(self).phase() == BridgePhase::Reading
                &&& r is Read
            },
    {
        match self.phase {
            BridgePhase::Closing => {
                self.phase = BridgePhase::Finished;
                match self.failure.take() {
                    Some(e) => BridgeAction::Finish(Err(BridgeError::Read(e))),
                    None => BridgeAction::Finish(Ok(())),
                }
            },
            BridgePhase::SendingBytes => if delivered {
                self.phase = BridgePhase::SendingRender;
                BridgeAction::Send(ScreenMessage::Render)
            } else {
                self.phase = BridgePhase::Finished;
                BridgeAction::Finish(Err(BridgeError::Sink))
            },
            _ => if delivered {
                self.phase = BridgePhase::Reading;
                BridgeAction::Read
            } else {
                self.phase = BridgePhase::Finished;
                BridgeAction::Finish(Err(BridgeError::Sink))
            },
        }
    }
}

} // verus!
