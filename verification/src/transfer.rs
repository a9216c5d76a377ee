//! The two sides of a file transfer.
//!
//! Receiving: a `HELLO` line announces a file; files over 10 GiB are
//! rejected with an `ERROR` line; otherwise the user is asked, and the
//! answer is sent back as `ACCEPT` or `REFUSE`. An accepted file is stored
//! under a safe, unused name; every chunk is written, counted and hashed,
//! and the file is reported complete only when the SHA-256 of the received
//! bytes matches the announced checksum.
//!
//! Sending: the file's checksum is computed in a first pass, the file is
//! announced under its transfer id, and it is streamed only once the
//! peer has accepted it.
//!
//! Each step is a function from the current state and what happened (a
//! message read, a decision, a write result) to the next state and what to
//! do (a reply to send, a notice for the user interface, a file to remove).

use vstd::prelude::*;
use crate::checksum::{Checksum, checksum_text};
use crate::filename::{sanitize_filename, sanitized};
use crate::protocol::{Message, MessageModel, message_option_model};
use crate::text::{owned, concat, same_text};

verus! {

/// The size of the chunks in which a file is read, sent and received.
pub const CHUNK_SIZE: usize = 65536;

/// The largest file that a receiver considers (10 GiB).
pub const MAX_FILE_SIZE: u64 = 10 * 1024 * 1024 * 1024;

/// A notice for the user interface about a transfer.
#[derive(Debug, Clone)]
pub enum TransferEvent {
    /// A peer announced a file; the user is asked to accept or refuse it.
    IncomingRequest { transfer_id: String, sender_name: String, file_name: String, file_size: u64 },
    /// More bytes were sent or received.
    Progress { transfer_id: String, bytes_done: u64, total: u64, direction: String },
    /// The transfer ended well.
    Complete { transfer_id: String, file_name: String, saved_path: String },
    /// The transfer ended in failure.
    Failed { transfer_id: String, reason: String },
}

/// The model of a notice: its texts as character sequences.
pub enum TransferEventModel {
    IncomingRequest {
        transfer_id: Seq<char>,
        sender_name: Seq<char>,
        file_name: Seq<char>,
        file_size: u64,
    },
    Progress { transfer_id: Seq<char>, bytes_done: u64, total: u64, direction: Seq<char> },
    Complete { transfer_id: Seq<char>, file_name: Seq<char>, saved_path: Seq<char> },
    Failed { transfer_id: Seq<char>, reason: Seq<char> },
}

impl View for TransferEvent {
    type V = TransferEventModel;

    open spec fn view(&self) -> TransferEventModel {
        match self {
            TransferEvent::IncomingRequest { transfer_id, sender_name, file_name, file_size } =>
                TransferEventModel::IncomingRequest {
                transfer_id: transfer_id@,
                sender_name: sender_name@,
                file_name: file_name@,
                file_size: *file_size,
            },
            TransferEvent::Progress { transfer_id, bytes_done, total, direction } =>
                TransferEventModel::Progress {
                transfer_id: transfer_id@,
                bytes_done: *bytes_done,
                total: *total,
                direction: direction@,
            },
            TransferEvent::Complete { transfer_id, file_name, saved_path } =>
                TransferEventModel::Complete {
                transfer_id: transfer_id@,
                file_name: file_name@,
                saved_path: saved_path@,
            },
            TransferEvent::Failed { transfer_id, reason } => TransferEventModel::Failed {
                transfer_id: transfer_id@,
                reason: reason@,
            },
        }
    }
}

/// The name of the user-interface event that carries a notice.
pub open spec fn event_channel(e: TransferEventModel) -> Seq<char> {
    match e {
        TransferEventModel::IncomingRequest { .. } => "incoming-transfer"@,
        TransferEventModel::Progress { .. } => "transfer-progress"@,
        TransferEventModel::Complete { .. } => "transfer-complete"@,
        TransferEventModel::Failed { .. } => "transfer-failed"@,
    }
}

impl TransferEvent {
    /// The name of the user-interface event that carries this notice.
    pub fn channel(&self) -> (name: &'static str)
        ensures
            name@ == event_channel(self@),
    {
        match self {
            TransferEvent::IncomingRequest { .. } => "incoming-transfer",
            TransferEvent::Progress { .. } => "transfer-progress",
            TransferEvent::Complete { .. } => "transfer-complete",
            TransferEvent::Failed { .. } => "transfer-failed",
        }
    }
}

/// The notice for a send that ended in an error before any transfer id was
/// known to the user interface.
pub fn send_failure(reason: String) -> (e: TransferEvent)
    ensures
        e@ == (TransferEventModel::Failed { transfer_id: Seq::empty(), reason: reason@ }),
{
    TransferEvent::Failed { transfer_id: String::new(), reason }
}

/// What a `HELLO` announces: the same on both sides of a transfer.
pub struct Announcement {
    pub transfer_id: Seq<char>,
    pub sender_name: Seq<char>,
    pub file_name: Seq<char>,
    pub file_size: u64,
    pub checksum: Seq<char>,
}

/// The `HELLO` message for an announcement.
pub open spec fn hello_message(a: Announcement) -> MessageModel {
    MessageModel::Hello {
        sender_name: a.sender_name,
        file_name: a.file_name,
        file_size: a.file_size,
        checksum: a.checksum,
        transfer_id: a.transfer_id,
    }
}

// ------------------------------------------------------------------------
// Receiving side
// ------------------------------------------------------------------------

/// A file announced by a peer, before the user's decision.
pub struct IncomingTransfer {
    transfer_id: String,
    sender_name: String,
    file_name: String,
    file_size: u64,
    checksum: String,
}

impl View for IncomingTransfer {
    type V = Announcement;

    closed spec fn view(&self) -> Announcement {
        Announcement {
            transfer_id: self.transfer_id@,
            sender_name: self.sender_name@,
            file_name: self.file_name@,
            file_size: self.file_size,
            checksum: self.checksum@,
        }
    }
}

impl IncomingTransfer {
    /// The id under which the decision for this transfer is awaited.
    pub fn transfer_id(&self) -> (id: &str)
        ensures
            id@ == self@.transfer_id,
    {
        self.transfer_id.as_str()
    }
}

/// What the first line of a connection leads to.
pub enum HelloOutcome {
    /// The line is not a `HELLO`: the connection is closed.
    Closed,
    /// The announced file is too large: this reply is sent, the user
    /// interface gets this failure notice, and the connection is closed,
    /// without asking the user.
    TooLarge { reply: Message, notice: TransferEvent },
    /// The user is asked with this notice, after the transfer is registered
    /// as waiting for a decision.
    Announced { transfer: IncomingTransfer, notice: TransferEvent },
}

/// The model of what the first line leads to.
pub enum HelloStep {
    Closed,
    TooLarge { reply: MessageModel, notice: TransferEventModel },
    Announced { transfer: Announcement, notice: TransferEventModel },
}

impl View for HelloOutcome {
    type V = HelloStep;

    open spec fn view(&self) -> HelloStep {
        match self {
            HelloOutcome::Closed => HelloStep::Closed,
            HelloOutcome::TooLarge { reply, notice } => HelloStep::TooLarge {
                reply: reply@,
                notice: notice@,
            },
            HelloOutcome::Announced { transfer, notice } => HelloStep::Announced {
                transfer: transfer@,
                notice: notice@,
            },
        }
    }
}

/// The reason sent to a peer whose file is over the size limit.
pub open spec fn too_large_reason() -> Seq<char> {
    "File too large"@
}

/// The reason shown to the receiving user when a file over the size limit
/// is rejected.
pub open spec fn too_large_notice_reason() -> Seq<char> {
    "file too large"@
}

/// What the first line of a connection leads to, given the message read
/// from it (`None` when no message could be read).
pub open spec fn hello_step(msg: Option<MessageModel>) -> HelloStep {
    match msg {
        Some(MessageModel::Hello { sender_name, file_name, file_size, checksum, transfer_id }) => {
            if file_size > MAX_FILE_SIZE {
                HelloStep::TooLarge {
                    reply: MessageModel::Error { reason: too_large_reason() },
                    notice: TransferEventModel::Failed {
                        transfer_id,
                        reason: too_large_notice_reason(),
                    },
                }
            } else {
                HelloStep::Announced {
                    transfer: Announcement {
                        transfer_id,
                        sender_name,
                        file_name,
                        file_size,
                        checksum,
                    },
                    notice: TransferEventModel::IncomingRequest {
                        transfer_id,
                        sender_name,
                        file_name,
                        file_size,
                    },
                }
            }
        },
        _ => HelloStep::Closed,
    }
}

/// Handles the first message of an incoming connection.
pub fn receive_hello(msg: Option<Message>) -> (out: HelloOutcome)
    ensures
        out@ == hello_step(message_option_model(msg)),
{
    match msg {
        Some(Message::Hello { sender_name, file_name, file_size, checksum, transfer_id }) => {
            if file_size > MAX_FILE_SIZE {
                HelloOutcome::TooLarge {
                    reply: Message::Error { reason: owned("File too large") },
                    notice: TransferEvent::Failed {
                        transfer_id,
                        reason: owned("file too large"),
                    },
                }
            } else {
                let notice = TransferEvent::IncomingRequest {
                    transfer_id: owned(transfer_id.as_str()),
                    sender_name: owned(sender_name.as_str()),
                    file_name: owned(file_name.as_str()),
                    file_size,
                };
                HelloOutcome::Announced {
                    transfer: IncomingTransfer {
                        transfer_id,
                        sender_name,
                        file_name,
                        file_size,
                        checksum,
                    },
                    notice,
                }
            }
        },
        _ => HelloOutcome::Closed,
    }
}

/// How the wait for the user's decision ended.
pub enum DecisionWait {
    /// The user answered.
    Answered(bool),
    /// The answer channel was dropped without an answer.
    Abandoned,
    /// No answer came in time (ten seconds).
    TimedOut,
}

/// Whether the transfer is accepted: only an explicit acceptance counts.
pub fn accepted(wait: DecisionWait) -> (yes: bool)
    ensures
        yes == (wait == DecisionWait::Answered(true)),
{
    match wait {
        DecisionWait::Answered(b) => b,
        _ => false,
    }
}

/// An announced file that the user accepted, before it is opened for
/// writing.
pub struct AcceptedTransfer {
    transfer: IncomingTransfer,
}

impl View for AcceptedTransfer {
    type V = Announcement;

    closed spec fn view(&self) -> Announcement {
        self.transfer@
    }
}

/// What the user's decision leads to.
pub enum Decision {
    /// This reply is sent and the connection is closed.
    Refused { reply: Message },
    /// This reply is sent and the file is received.
    Accepted { reply: Message, transfer: AcceptedTransfer },
}

/// The model of what the decision leads to.
pub enum DecisionStep {
    Refused { reply: MessageModel },
    Accepted { reply: MessageModel, transfer: Announcement },
}

impl View for Decision {
    type V = DecisionStep;

    open spec fn view(&self) -> DecisionStep {
        match self {
            Decision::Refused { reply } => DecisionStep::Refused { reply: reply@ },
            Decision::Accepted { reply, transfer } => DecisionStep::Accepted {
                reply: reply@,
                transfer: transfer@,
            },
        }
    }
}

/// What the user's decision on an announced file leads to.
pub open spec fn decision_step(a: Announcement, accepted: bool) -> DecisionStep {
    if accepted {
        DecisionStep::Accepted {
            reply: MessageModel::Accept { transfer_id: a.transfer_id },
            transfer: a,
        }
    } else {
        DecisionStep::Refused { reply: MessageModel::Refuse { transfer_id: a.transfer_id } }
    }
}

impl IncomingTransfer {
    /// Applies the user's decision.
    pub fn decide(self, accepted: bool) -> (d: Decision)
        ensures
            d@ == decision_step(self@, accepted),
    {
        let reply_id = owned(self.transfer_id.as_str());
        if accepted {
            Decision::Accepted {
                reply: Message::Accept { transfer_id: reply_id },
                transfer: AcceptedTransfer { transfer: self },
            }
        } else {
            Decision::Refused { reply: Message::Refuse { transfer_id: reply_id } }
        }
    }
}

/// A file being received into `dest_path`.
pub struct ReceivingFile {
    transfer: IncomingTransfer,
    dest_path: String,
    bytes_done: u64,
    hash: Checksum,
}

/// The model of a file being received.
pub struct ReceivingModel {
    pub announced: Announcement,
    pub dest_path: Seq<char>,
    pub received: Seq<u8>,
    pub bytes_done: u64,
}

impl View for ReceivingFile {
    type V = ReceivingModel;

    closed spec fn view(&self) -> ReceivingModel {
        ReceivingModel {
            announced: self.transfer@,
            dest_path: self.dest_path@,
            received: self.hash@,
            bytes_done: self.bytes_done,
        }
    }
}

/// What opening the destination file leads to.
pub enum OpenOutcome {
    /// The file could not be created: this notice ends the transfer.
    Failed { notice: TransferEvent },
    /// The data is received into the file.
    Receiving { file: ReceivingFile },
}

impl AcceptedTransfer {
    /// The name under which the file is stored: the announced name made safe.
    pub fn storage_name(&self) -> (name: String)
        ensures
            name@ == sanitized(self@.file_name),
    {
        sanitize_filename(self.transfer.file_name.as_str())
    }

    /// Continues with the result of creating the destination file: its path,
    /// or the text of the error.
    pub fn open(self, created: Result<String, String>) -> (out: OpenOutcome)
        requires
            self@.file_size <= MAX_FILE_SIZE,
        ensures
            created is Err ==> out is Failed && out->notice@ == (TransferEventModel::Failed {
                transfer_id: self@.transfer_id,
                reason: created->Err_0@,
            }),
            created is Ok ==> out is Receiving && out->file.wf() && out->file@ == (ReceivingModel {
                announced: self@,
                dest_path: created->Ok_0@,
                received: Seq::empty(),
                bytes_done: 0,
            }),
    {
        match created {
            Err(e) => OpenOutcome::Failed {
                notice: TransferEvent::Failed {
                    transfer_id: owned(self.transfer.transfer_id.as_str()),
                    reason: e,
                },
            },
            Ok(path) => OpenOutcome::Receiving {
                file: ReceivingFile {
                    transfer: self.transfer,
                    dest_path: path,
                    bytes_done: 0,
                    hash: Checksum::new(),
                },
            },
        }
    }
}

/// What a received chunk leads to.
pub enum ChunkOutcome {
    /// The chunk could not be written: this notice ends the transfer and the
    /// partial file at `remove` is deleted.
    WriteFailed { notice: TransferEvent, remove: String },
    /// The chunk was stored and counted; the data continues while `more`.
    Stored { notice: TransferEvent, more: bool },
}

/// The direction shown in the progress of a received file.
pub open spec fn receiving_direction() -> Seq<char> {
    "receiving"@
}

/// The prefix of the reason given when a chunk cannot be written.
pub open spec fn write_error_prefix() -> Seq<char> {
    "Write error: "@
}

/// The reason given when the received bytes do not match the checksum.
pub open spec fn corrupted_reason() -> Seq<char> {
    "Checksum mismatch — file corrupted"@
}

/// What a read from the connection gave: a number of bytes (zero at the
/// end of the stream), or an error.
pub enum ReadResult {
    Bytes(usize),
    Failed,
}

/// What to do after a read while a file is received.
pub enum ReadAction {
    /// Write and count this many bytes of the buffer.
    Store(usize),
    /// The data has ended: check it.
    Finish,
}

/// Decides what a read leads to: bytes are stored; the end of the stream
/// and a read error both end the data, which is then checked.
pub fn after_read(read: ReadResult) -> (action: ReadAction)
    ensures
        match read {
            ReadResult::Bytes(n) => if n > 0 {
                action == ReadAction::Store(n)
            } else {
                action == ReadAction::Finish
            },
            ReadResult::Failed => action == ReadAction::Finish,
        },
{
    match read {
        ReadResult::Bytes(n) => if n > 0 {
            ReadAction::Store(n)
        } else {
            ReadAction::Finish
        },
        ReadResult::Failed => ReadAction::Finish,
    }
}

/// What the end of the data leads to.
pub enum FinishOutcome {
    /// The received bytes do not match the announced checksum: this notice
    /// ends the transfer and the file at `remove` is deleted.
    Corrupted { notice: TransferEvent, remove: String },
    /// The file is complete.
    Complete { notice: TransferEvent },
}

/// The model of what the end of the data leads to.
pub enum FinishStep {
    Corrupted { notice: TransferEventModel, remove: Seq<char> },
    Complete { notice: TransferEventModel },
}

impl View for FinishOutcome {
    type V = FinishStep;

    open spec fn view(&self) -> FinishStep {
        match self {
            FinishOutcome::Corrupted { notice, remove } => FinishStep::Corrupted {
                notice: notice@,
                remove: remove@,
            },
            FinishOutcome::Complete { notice } => FinishStep::Complete { notice: notice@ },
        }
    }
}

/// What the end of the data leads to: the file is complete exactly when the
/// checksum of the received bytes is the announced one.
pub open spec fn finish_step(r: ReceivingModel) -> FinishStep {
    if checksum_text(r.received) == r.announced.checksum {
        FinishStep::Complete {
            notice: TransferEventModel::Complete {
                transfer_id: r.announced.transfer_id,
                file_name: r.announced.file_name,
                saved_path: r.dest_path,
            },
        }
    } else {
        FinishStep::Corrupted {
            notice: TransferEventModel::Failed {
                transfer_id: r.announced.transfer_id,
                reason: corrupted_reason(),
            },
            remove: r.dest_path,
        }
    }
}

impl ReceivingFile {
    /// The count of received bytes is the length of what was received, and
    /// the announced size is within the limit.
    pub closed spec fn wf(&self) -> bool {
        &&& self.bytes_done == self.hash@.len()
        &&& self.transfer.file_size <= MAX_FILE_SIZE
    }

    /// Whether the next read belongs to this file: the first read always
    /// does, later ones while fewer bytes than announced have arrived.
    pub open spec fn awaits_data(&self) -> bool {
        self@.bytes_done == 0 || self@.bytes_done < self@.announced.file_size
    }

    /// Continues with a chunk read from the connection and the result of
    /// writing it to the file (the text of the error, if any).
    pub fn on_chunk(&mut self, data: &[u8], written: Result<(), String>) -> (out: ChunkOutcome)
        requires
            old(self).wf(),
            old(self).awaits_data(),
            data@.len() <= CHUNK_SIZE,
        ensures
            final(self).wf(),
            final(self)@.announced == old(self)@.announced,
            final(self)@.dest_path == old(self)@.dest_path,
            final(self)@.received == old(self)@.received + data@,
            final(self)@.bytes_done == old(self)@.bytes_done + data@.len(),
            match (written, out) {
                (Err(e), ChunkOutcome::WriteFailed { notice, remove }) => {
                    &&& notice@ == (TransferEventModel::Failed {
                        transfer_id: old(self)@.announced.transfer_id,
                        reason: write_error_prefix() + e@,
                    })
                    &&& remove@ == old(self)@.dest_path
                },
                (Ok(_), ChunkOutcome::Stored { notice, more }) => {
                    &&& notice@ == (TransferEventModel::Progress {
                        transfer_id: old(self)@.announced.transfer_id,
                        bytes_done: final(self)@.bytes_done,
                        total: old(self)@.announced.file_size,
                        direction: receiving_direction(),
                    })
                    &&& more == (final(self)@.bytes_done < old(self)@.announced.file_size)
                },
                _ => false,
            },
    {
        self.hash.absorb(data);
        let n = data.len() as u64;
        self.bytes_done = self.bytes_done + n;
        match written {
            Err(e) => ChunkOutcome::WriteFailed {
                notice: TransferEvent::Failed {
                    transfer_id: owned(self.transfer.transfer_id.as_str()),
                    reason: concat("Write error: ", e.as_str()),
                },
                remove: owned(self.dest_path.as_str()),
            },
            Ok(()) => ChunkOutcome::Stored {
                notice: TransferEvent::Progress {
                    transfer_id: owned(self.transfer.transfer_id.as_str()),
                    bytes_done: self.bytes_done,
                    total: self.transfer.file_size,
                    direction: owned("receiving"),
                },
                more: self.bytes_done < self.transfer.file_size,
            },
        }
    }

    /// Ends the data: checks the received bytes against the announced
    /// checksum.
    pub fn finish(self) -> (out: FinishOutcome)
        ensures
            out@ == finish_step(self@),
    {
        let ReceivingFile { transfer, dest_path, bytes_done: _, hash } = self;
        let actual = hash.finish();
        if same_text(actual.as_str(), transfer.checksum.as_str()) {
            FinishOutcome::Complete {
                notice: TransferEvent::Complete {
                    transfer_id: transfer.transfer_id,
                    file_name: transfer.file_name,
                    saved_path: dest_path,
                },
            }
        } else {
            FinishOutcome::Corrupted {
                notice: TransferEvent::Failed {
                    transfer_id: transfer.transfer_id,
                    reason: owned("Checksum mismatch — file corrupted"),
                },
                remove: dest_path,
            }
        }
    }
}

// ------------------------------------------------------------------------
// Sending side
// ------------------------------------------------------------------------

/// A file about to be announced to a peer.
pub struct OutgoingTransfer {
    transfer_id: String,
    sender_name: String,
    file_name: String,
    file_size: u64,
    checksum: String,
}

impl View for OutgoingTransfer {
    type V = Announcement;

    closed spec fn view(&self) -> Announcement {
        Announcement {
            transfer_id: self.transfer_id@,
            sender_name: self.sender_name@,
            file_name: self.file_name@,
            file_size: self.file_size,
            checksum: self.checksum@,
        }
    }
}

/// A file being streamed to a peer that accepted it.
pub struct OutgoingStream {
    transfer: OutgoingTransfer,
    bytes_done: u64,
}

/// The model of a file being streamed.
pub struct StreamModel {
    pub announced: Announcement,
    pub bytes_done: u64,
}

impl View for OutgoingStream {
    type V = StreamModel;

    closed spec fn view(&self) -> StreamModel {
        StreamModel { announced: self.transfer@, bytes_done: self.bytes_done }
    }
}

/// What the peer's reply to a `HELLO` leads to.
pub enum ReplyOutcome {
    /// The peer refused: this notice is shown and the send ends with `error`.
    Refused { notice: TransferEvent, error: String },
    /// The peer answered something else: the send ends with `error`.
    Unexpected { error: String },
    /// The peer accepted: the file is streamed.
    Accepted { stream: OutgoingStream },
}

/// The model of what the reply leads to.
pub enum ReplyStep {
    Refused { notice: TransferEventModel, error: Seq<char> },
    Unexpected { error: Seq<char> },
    Accepted { stream: StreamModel },
}

impl View for ReplyOutcome {
    type V = ReplyStep;

    open spec fn view(&self) -> ReplyStep {
        match self {
            ReplyOutcome::Refused { notice, error } => ReplyStep::Refused {
                notice: notice@,
                error: error@,
            },
            ReplyOutcome::Unexpected { error } => ReplyStep::Unexpected { error: error@ },
            ReplyOutcome::Accepted { stream } => ReplyStep::Accepted { stream: stream@ },
        }
    }
}

/// The reason shown to the sender's user when the peer refuses.
pub open spec fn refused_notice_reason() -> Seq<char> {
    "Refusé par le destinataire"@
}

/// The error a send ends with when the peer refuses.
pub open spec fn refused_error() -> Seq<char> {
    "Refused"@
}

/// The error a send ends with when the peer answers neither way.
pub open spec fn unexpected_error() -> Seq<char> {
    "Unexpected response"@
}

/// What the peer's reply to the announcement `a` leads to. Only the kind of
/// the reply matters.
pub open spec fn reply_step(a: Announcement, reply: MessageModel) -> ReplyStep {
    match reply {
        MessageModel::Refuse { .. } => ReplyStep::Refused {
            notice: TransferEventModel::Failed {
                transfer_id: a.transfer_id,
                reason: refused_notice_reason(),
            },
            error: refused_error(),
        },
        MessageModel::Accept { .. } => ReplyStep::Accepted {
            stream: StreamModel { announced: a, bytes_done: 0 },
        },
        _ => ReplyStep::Unexpected { error: unexpected_error() },
    }
}

/// The direction shown in the progress of a sent file.
pub open spec fn sending_direction() -> Seq<char> {
    "sending"@
}

impl OutgoingTransfer {
    /// A transfer under the given id.
    pub fn with_id(
        transfer_id: String,
        sender_name: String,
        file_name: String,
        file_size: u64,
        checksum: String,
    ) -> (t: OutgoingTransfer)
        ensures
            t@ == (Announcement {
                transfer_id: transfer_id@,
                sender_name: sender_name@,
                file_name: file_name@,
                file_size,
                checksum: checksum@,
            }),
    {
        OutgoingTransfer { transfer_id, sender_name, file_name, file_size, checksum }
    }

    /// The id of this transfer.
    pub fn transfer_id(&self) -> (id: &str)
        ensures
            id@ == self@.transfer_id,
    {
        self.transfer_id.as_str()
    }

    /// The `HELLO` that announces this transfer.
    pub fn hello(&self) -> (m: Message)
        ensures
            m@ == hello_message(self@),
    {
        Message::Hello {
            sender_name: owned(self.sender_name.as_str()),
            file_name: owned(self.file_name.as_str()),
            file_size: self.file_size,
            checksum: owned(self.checksum.as_str()),
            transfer_id: owned(self.transfer_id.as_str()),
        }
    }

    /// Continues with the peer's reply.
    pub fn on_reply(self, reply: Message) -> (out: ReplyOutcome)
        ensures
            out@ == reply_step(self@, reply@),
    {
        match reply {
            Message::Refuse { .. } => ReplyOutcome::Refused {
                notice: TransferEvent::Failed {
                    transfer_id: owned(self.transfer_id.as_str()),
                    reason: owned("Refusé par le destinataire"),
                },
                error: owned("Refused"),
            },
            Message::Accept { .. } => ReplyOutcome::Accepted {
                stream: OutgoingStream { transfer: self, bytes_done: 0 },
            },
            _ => ReplyOutcome::Unexpected { error: owned("Unexpected response") },
        }
    }
}

impl OutgoingStream {
    /// The number of bytes written to the peer so far.
    pub fn bytes_done(&self) -> (n: u64)
        ensures
            n == self@.bytes_done,
    {
        self.bytes_done
    }

    /// Counts `n` more bytes written to the peer; the notice reports the
    /// total so far against the announced size.
    pub fn on_sent(&mut self, n: usize) -> (notice: TransferEvent)
        requires
            old(self)@.bytes_done + n <= u64::MAX,
        ensures
            final(self)@.announced == old(self)@.announced,
            final(self)@.bytes_done == old(self)@.bytes_done + n,
            notice@ == (TransferEventModel::Progress {
                transfer_id: old(self)@.announced.transfer_id,
                bytes_done: final(self)@.bytes_done,
                total: old(self)@.announced.file_size,
                direction: sending_direction(),
            }),
    {
        self.bytes_done = self.bytes_done + n as u64;
        TransferEvent::Progress {
            transfer_id: owned(self.transfer.transfer_id.as_str()),
            bytes_done: self.bytes_done,
            total: self.transfer.file_size,
            direction: owned("sending"),
        }
    }

    /// Ends the stream: the notice reports the file at `file_path` as sent.
    pub fn complete(self, file_path: String) -> (notice: TransferEvent)
        ensures
            notice@ == (TransferEventModel::Complete {
                transfer_id: self@.announced.transfer_id,
                file_name: self@.announced.file_name,
                saved_path: file_path@,
            }),
    {
        TransferEvent::Complete {
            transfer_id: self.transfer.transfer_id,
            file_name: self.transfer.file_name,
            saved_path: file_path,
        }
    }
}

// ------------------------------------------------------------------------
// Laws of the protocol
// ------------------------------------------------------------------------

/// A file within the size limit, announced by a sender, is put before the
/// receiving user exactly as announced; the reply to the user's decision
/// lets the sender stream the file exactly when the user accepted, and
/// otherwise ends the send as refused.
pub proof fn lemma_handshake(a: Announcement, accepted: bool)
    requires
        a.file_size <= MAX_FILE_SIZE,
    ensures
        hello_step(Some(hello_message(a))) == (HelloStep::Announced {
            transfer: a,
            notice: TransferEventModel::IncomingRequest {
                transfer_id: a.transfer_id,
                sender_name: a.sender_name,
                file_name: a.file_name,
                file_size: a.file_size,
            },
        }),
        match decision_step(a, accepted) {
            DecisionStep::Accepted { reply, transfer } => accepted && transfer == a && reply_step(
                a,
                reply,
            ) == (ReplyStep::Accepted { stream: StreamModel { announced: a, bytes_done: 0 } }),
            DecisionStep::Refused { reply } => !accepted && reply_step(a, reply) is Refused,
        },
{
}

/// A file over the size limit is rejected with an `ERROR` reply and a
/// failure notice for the user interface, and never put before the
/// receiving user.
pub proof fn lemma_oversized_rejected(a: Announcement)
    requires
        a.file_size > MAX_FILE_SIZE,
    ensures
        hello_step(Some(hello_message(a))) == (HelloStep::TooLarge {
            reply: MessageModel::Error { reason: too_large_reason() },
            notice: TransferEventModel::Failed {
                transfer_id: a.transfer_id,
                reason: too_large_notice_reason(),
            },
        }),
{
}

/// A file whose bytes arrive unchanged is reported complete, under its
/// announced name and at the path where it was stored.
pub proof fn lemma_intact_file_completes(a: Announcement, file: Seq<u8>, dest: Seq<char>)
    requires
        a.checksum == checksum_text(file),
    ensures
        finish_step(ReceivingModel { announced: a, dest_path: dest, received: file, bytes_done: file.len() as u64 })
            == (FinishStep::Complete {
            notice: TransferEventModel::Complete {
                transfer_id: a.transfer_id,
                file_name: a.file_name,
                saved_path: dest,
            },
        }),
{
}

/// A received file is reported complete only when the checksum of the
/// received bytes is the announced one; otherwise it is removed.
pub proof fn lemma_complete_only_when_checksum_matches(r: ReceivingModel)
    ensures
        finish_step(r) is Complete <==> checksum_text(r.received) == r.announced.checksum,
        finish_step(r) is Corrupted ==> finish_step(r)->remove == r.dest_path,
{
}

} // verus!
