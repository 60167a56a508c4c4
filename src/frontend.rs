//! Framed status messages for a parent process, and the queue that holds
//! them until they are written.
//!
//! A frame is the payload's length as 8 little-endian bytes, then the
//! payload. A payload is the format version, a tag for the kind of message,
//! then its fields: a level as one byte, a code as 4 little-endian bytes, a
//! text as its UTF-8 length (8 little-endian bytes) and its UTF-8 bytes.
use crate::lifecycle::Outcome;
use crate::options::{LogLevel, OptionModel};
use std::collections::VecDeque;
use vstd::prelude::*;
use vstd::utf8::encode_utf8;

verus! {

/// Version of the payload format.
pub const FORMAT_VERSION: u8 = 1;

/// Status code sent when the engine's run ends in an error.
pub const ENGINE_FAILED_STATUS: u32 = 1;

/// An event reported to the parent process.
#[derive(Clone, Debug, PartialEq, Eq)]
pub enum FrontendMessage {
    Log { level: LogLevel, text: String },
    Status { code: u32 },
    ClientConnected { name: String },
    ClientDisconnected,
    Shutdown,
}

pub open spec fn level_byte(level: LogLevel) -> u8 {
    match level {
        LogLevel::Trace => 0,
        LogLevel::Debug => 1,
        LogLevel::Info => 2,
        LogLevel::Warn => 3,
        LogLevel::Error => 4,
    }
}

pub open spec fn tag_byte(m: FrontendMessage) -> u8 {
    match m {
        FrontendMessage::Log { .. } => 1,
        FrontendMessage::Status { .. } => 2,
        FrontendMessage::ClientConnected { .. } => 3,
        FrontendMessage::ClientDisconnected => 4,
        FrontendMessage::Shutdown => 5,
    }
}

pub open spec fn le_bytes_u32(x: u32) -> Seq<u8> {
    seq![x as u8, (x >> 8u32) as u8, (x >> 16u32) as u8, (x >> 24u32) as u8]
}

pub open spec fn le_bytes_u64(x: u64) -> Seq<u8> {
    seq![
        x as u8,
        (x >> 8u64) as u8,
        (x >> 16u64) as u8,
        (x >> 24u64) as u8,
        (x >> 32u64) as u8,
        (x >> 40u64) as u8,
        (x >> 48u64) as u8,
        (x >> 56u64) as u8,
    ]
}

/// A text field: its UTF-8 length, then its UTF-8 bytes.
pub open spec fn text_field(s: Seq<char>) -> Seq<u8> {
    le_bytes_u64(encode_utf8(s).len() as u64) + encode_utf8(s)
}

/// The payload of `m`.
pub open spec fn payload_bytes(m: FrontendMessage) -> Seq<u8> {
    seq![FORMAT_VERSION, tag_byte(m)] + match m {
        FrontendMessage::Log { level, text } => seq![level_byte(level)] + text_field(text@),
        FrontendMessage::Status { code } => le_bytes_u32(code),
        FrontendMessage::ClientConnected { name } => text_field(name@),
        FrontendMessage::ClientDisconnected => Seq::empty(),
        FrontendMessage::Shutdown => Seq::empty(),
    }
}

/// The frame of `m`: the payload's length, then the payload.
pub open spec fn frame_bytes(m: FrontendMessage) -> Seq<u8> {
    le_bytes_u64(payload_bytes(m).len() as u64) + payload_bytes(m)
}

fn push_u32_le(out: &mut Vec<u8>, x: u32)
    ensures
        final(out)@ == old(out)@ + le_bytes_u32(x),
{
    out.push(x as u8);
    out.push((x >> 8u32) as u8);
    out.push((x >> 16u32) as u8);
    out.push((x >> 24u32) as u8);
    assert(final(out)@ =~= old(out)@ + le_bytes_u32(x));
}

fn push_u64_le(out: &mut Vec<u8>, x: u64)
    ensures
        final(out)@ == old(out)@ + le_bytes_u64(x),
{
    out.push(x as u8);
    out.push((x >> 8u64) as u8);
    out.push((x >> 16u64) as u8);
    out.push((x >> 24u64) as u8);
    out.push((x >> 32u64) as u8);
    out.push((x >> 40u64) as u8);
    out.push((x >> 48u64) as u8);
    out.push((x >> 56u64) as u8);
    assert(final(out)@ =~= old(out)@ + le_bytes_u64(x));
}

fn push_text(out: &mut Vec<u8>, s: &String)
    ensures
        final(out)@ == old(out)@ + text_field(s@),
{
    let bytes = s.as_str().as_bytes();
    push_u64_le(out, bytes.len() as u64);
    let ghost start = out@;
    let mut i: usize = 0;
    while i < bytes.len()
        invariant
            i <= bytes@.len(),
            bytes@ == encode_utf8(s@),
            out@ == start + bytes@.subrange(0, i as int),
        decreases bytes@.len() - i,
    {
        out.push(bytes[i]);
        i = i + 1;
        assert(out@ =~= start + bytes@.subrange(0, i as int));
    }
    assert(bytes@.subrange(0, i as int) =~= bytes@);
    assert(out@ =~= old(out)@ + text_field(s@));
}

fn level_code(level: LogLevel) -> (r: u8)
    ensures
        r == level_byte(level),
{
    match level {
        LogLevel::Trace => 0,
        LogLevel::Debug => 1,
        LogLevel::Info => 2,
        LogLevel::Warn => 3,
        LogLevel::Error => 4,
    }
}

/// Encodes the payload of a message.
pub fn encode_payload(m: &FrontendMessage) -> (r: Vec<u8>)
    ensures
        r@ == payload_bytes(*m),
{
    let mut out: Vec<u8> = Vec::new();
    out.push(FORMAT_VERSION);
    match m {
        FrontendMessage::Log { level, text } => {
            out.push(1);
            out.push(level_code(*level));
            push_text(&mut out, text);
        },
        FrontendMessage::Status { code } => {
            out.push(2);
            push_u32_le(&mut out, *code);
        },
        FrontendMessage::ClientConnected { name } => {
            out.push(3);
            push_text(&mut out, name);
        },
        FrontendMessage::ClientDisconnected => {
            out.push(4);
        },
        FrontendMessage::Shutdown => {
            out.push(5);
        },
    }
    assert(out@ =~= payload_bytes(*m));
    out
}

/// Encodes the frame of a message, as written to the parent process.
pub fn encode_frame(m: &FrontendMessage) -> (r: Vec<u8>)
    ensures
        r@ == frame_bytes(*m),
{
    let payload = encode_payload(m);
    let mut out: Vec<u8> = Vec::new();
    push_u64_le(&mut out, payload.len() as u64);
    let mut i: usize = 0;
    while i < payload.len()
        invariant
            i <= payload@.len(),
            payload@ == payload_bytes(*m),
            out@ == le_bytes_u64(payload@.len() as u64) + payload@.subrange(0, i as int),
        decreases payload@.len() - i,
    {
        out.push(payload[i]);
        i = i + 1;
        assert(out@ =~= le_bytes_u64(payload@.len() as u64) + payload@.subrange(0, i as int));
    }
    assert(payload@.subrange(0, i as int) =~= payload@);
    out
}

/// The state of a bridge: the messages accepted and not yet written, whether
/// it was cancelled, and whether writing failed.
pub struct BridgeState {
    pub pending: Seq<FrontendMessage>,
    pub cancelled: bool,
    pub broken: bool,
}

/// A bridge just opened.
pub open spec fn fresh_bridge() -> BridgeState {
    BridgeState { pending: Seq::empty(), cancelled: false, broken: false }
}

/// Sending queues the message, unless the bridge was cancelled or broke.
pub open spec fn sent(b: BridgeState, m: FrontendMessage) -> BridgeState {
    if b.cancelled || b.broken {
        b
    } else {
        BridgeState { pending: b.pending.push(m), ..b }
    }
}

/// Sends each message of `msgs` in turn.
pub open spec fn sent_all(b: BridgeState, msgs: Seq<FrontendMessage>) -> BridgeState
    decreases msgs.len(),
{
    if msgs.len() == 0 {
        b
    } else {
        sent(sent_all(b, msgs.drop_last()), msgs.last())
    }
}

pub open spec fn cancelled(b: BridgeState) -> BridgeState {
    BridgeState { cancelled: true, ..b }
}

/// After a failed write the bridge drops what it holds and accepts nothing.
pub open spec fn failed(b: BridgeState) -> BridgeState {
    BridgeState { pending: Seq::empty(), broken: true, ..b }
}

/// Takes the oldest pending message, as a frame, unless the bridge broke.
pub open spec fn frame_step(b: BridgeState) -> (Option<Seq<u8>>, BridgeState) {
    if b.broken || b.pending.len() == 0 {
        (None, b)
    } else {
        (Some(frame_bytes(b.pending[0])), BridgeState { pending: b.pending.drop_first(), ..b })
    }
}

/// The frames written by taking frames until none is left.
pub open spec fn drained(b: BridgeState) -> Seq<Seq<u8>>
    decreases b.pending.len(),
{
    if b.broken || b.pending.len() == 0 {
        Seq::empty()
    } else {
        seq![frame_bytes(b.pending[0])] + drained(frame_step(b).1)
    }
}

/// Whether the task that writes frames is done: the bridge broke, or it was
/// cancelled and everything accepted was written.
pub open spec fn is_done(b: BridgeState) -> bool {
    b.broken || (b.cancelled && b.pending.len() == 0)
}

pub open spec fn frame_view(f: Option<Vec<u8>>) -> Option<Seq<u8>> {
    match f {
        Some(v) => Some(v@),
        None => None,
    }
}

proof fn lemma_sent_all_open(b: BridgeState, msgs: Seq<FrontendMessage>)
    requires
        !b.cancelled,
        !b.broken,
    ensures
        sent_all(b, msgs) == (BridgeState { pending: b.pending + msgs, ..b }),
    decreases msgs.len(),
{
    if msgs.len() == 0 {
        assert(b.pending + msgs =~= b.pending);
    } else {
        lemma_sent_all_open(b, msgs.drop_last());
        assert((b.pending + msgs.drop_last()).push(msgs.last()) =~= b.pending + msgs);
    }
}

proof fn lemma_sent_all_closed(b: BridgeState, msgs: Seq<FrontendMessage>)
    requires
        b.cancelled,
    ensures
        sent_all(b, msgs) == b,
    decreases msgs.len(),
{
    if msgs.len() > 0 {
        lemma_sent_all_closed(b, msgs.drop_last());
    }
}

proof fn lemma_drained_pending(b: BridgeState)
    requires
        !b.broken,
    ensures
        drained(b) == b.pending.map_values(|m: FrontendMessage| frame_bytes(m)),
    decreases b.pending.len(),
{
    if b.pending.len() > 0 {
        let rest = frame_step(b).1;
        lemma_drained_pending(rest);
        assert(drained(b) =~= b.pending.map_values(|m: FrontendMessage| frame_bytes(m)));
    } else {
        assert(drained(b) =~= b.pending.map_values(|m: FrontendMessage| frame_bytes(m)));
    }
}

/// Cancelling loses nothing: each message sent to a fresh bridge before it
/// is cancelled comes out as exactly one frame, in the order sent, and each
/// message sent after the cancellation adds none.
pub proof fn lemma_cancel_flushes_in_order(
    before: Seq<FrontendMessage>,
    after: Seq<FrontendMessage>,
)
    ensures
        drained(sent_all(cancelled(sent_all(fresh_bridge(), before)), after))
            == before.map_values(|m: FrontendMessage| frame_bytes(m)),
{
    lemma_sent_all_open(fresh_bridge(), before);
    assert(Seq::<FrontendMessage>::empty() + before =~= before);
    let c = cancelled(sent_all(fresh_bridge(), before));
    lemma_sent_all_closed(c, after);
    lemma_drained_pending(c);
}

/// A queue of messages for the parent process, written in the order they
/// were sent.
pub struct FrontendBridge {
    queue: VecDeque<FrontendMessage>,
    cancelled: bool,
    broken: bool,
}

impl View for FrontendBridge {
    type V = BridgeState;

    closed spec fn view(&self) -> BridgeState {
        BridgeState { pending: self.queue@, cancelled: self.cancelled, broken: self.broken }
    }
}

impl FrontendBridge {
    pub fn new() -> (r: FrontendBridge)
        ensures
            r@ == fresh_bridge(),
    {
        FrontendBridge { queue: VecDeque::new(), cancelled: false, broken: false }
    }

    /// Queues a message; after cancellation or a failed write it is dropped.
    pub fn send(&mut self, m: FrontendMessage)
        ensures
            final(self)@ == sent(old(self)@, m),
    {
        if !self.cancelled && !self.broken {
            self.queue.push_back(m);
        }
    }

    /// Cancels the bridge: nothing more is accepted, what was accepted is
    /// still written. Cancelling again changes nothing.
    pub fn cancel(&mut self)
        ensures
            final(self)@ == cancelled(old(self)@),
    {
        self.cancelled = true;
    }

    /// Records that writing to the parent process failed.
    pub fn write_failed(&mut self)
        ensures
            final(self)@ == failed(old(self)@),
    {
        self.broken = true;
        self.queue = VecDeque::new();
    }

    /// Takes the frame of the oldest pending message.
    pub fn next_frame(&mut self) -> (r: Option<Vec<u8>>)
        ensures
            frame_step(old(self)@) == (frame_view(r), final(self)@),
    {
        if self.broken {
            return None;
        }
        match self.queue.pop_front() {
            Some(m) => {
                let f = encode_frame(&m);
                Some(f)
            },
            None => None,
        }
    }

    /// Whether the writing task can stop.
    pub fn is_done(&self) -> (r: bool)
        ensures
            r == is_done(self@),
    {
        self.broken || (self.cancelled && self.queue.len() == 0)
    }

    pub fn is_cancelled(&self) -> (r: bool)
        ensures
            r == self@.cancelled,
    {
        self.cancelled
    }

    /// The number of messages accepted and not yet written.
    pub fn pending_len(&self) -> (r: usize)
        ensures
            r == self@.pending.len(),
    {
        self.queue.len()
    }
}

/// A bridge for the parent process, when the configuration asks for one.
pub fn check_frontend_pipe(model: &OptionModel) -> (r: Option<FrontendBridge>)
    ensures
        match r {
            Some(b) => model.frontend_bridge_requested && b@ == fresh_bridge(),
            None => !model.frontend_bridge_requested,
        },
{
    if model.frontend_bridge_requested {
        Some(FrontendBridge::new())
    } else {
        None
    }
}

/// The messages that tell the parent process how a run ended: a failure
/// sends its cause as an error log and a failure status; every run ends with
/// a shutdown message.
pub fn report_messages(o: &Outcome) -> (r: Vec<FrontendMessage>)
    ensures
        r@ == match o {
            Outcome::Failed { cause } => seq![
                FrontendMessage::Log { level: LogLevel::Error, text: *cause },
                FrontendMessage::Status { code: ENGINE_FAILED_STATUS },
                FrontendMessage::Shutdown,
            ],
            _ => seq![FrontendMessage::Shutdown],
        },
{
    let mut r: Vec<FrontendMessage> = Vec::new();
    if let Outcome::Failed { cause } = o {
        r.push(FrontendMessage::Log { level: LogLevel::Error, text: cause.clone() });
        r.push(FrontendMessage::Status { code: ENGINE_FAILED_STATUS });
    }
    r.push(FrontendMessage::Shutdown);
    assert(r@ =~= match o {
        Outcome::Failed { cause } => seq![
            FrontendMessage::Log { level: LogLevel::Error, text: *cause },
            FrontendMessage::Status { code: ENGINE_FAILED_STATUS },
            FrontendMessage::Shutdown,
        ],
        _ => seq![FrontendMessage::Shutdown],
    });
    r
}

} // verus!
