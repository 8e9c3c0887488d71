//! Messages between paired nodes, and the frames that carry them: a
//! four-byte little-endian length, then the payload.
//!
//! A message travels as the payload of one frame. This file knows frames
//! as bytes; which bytes stand for which message is the caller's encoding.

use vstd::prelude::*;
use vstd::slice::{slice_subrange, slice_to_vec};

verus! {

/// What a message is about.
#[derive(Debug, PartialEq, Eq)]
pub enum MessageType {
    PairRequest { hostname: String },
    PairResponse { accepted: bool, hostname: String },
    TransferRequest { transfer_id: String, file_name: String, file_size: u64 },
    TransferAccept { transfer_id: String },
    TransferReject { transfer_id: String },
    TransferCancel { transfer_id: String },
    FileData { transfer_id: String, chunk_index: u32, data: Vec<u8> },
    TextMessage { transfer_id: String, content: String },
}

/// The model of a `MessageType`.
pub enum MessageTypeView {
    PairRequest { hostname: Seq<char> },
    PairResponse { accepted: bool, hostname: Seq<char> },
    TransferRequest { transfer_id: Seq<char>, file_name: Seq<char>, file_size: u64 },
    TransferAccept { transfer_id: Seq<char> },
    TransferReject { transfer_id: Seq<char> },
    TransferCancel { transfer_id: Seq<char> },
    FileData { transfer_id: Seq<char>, chunk_index: u32, data: Seq<u8> },
    TextMessage { transfer_id: Seq<char>, content: Seq<char> },
}

impl View for MessageType {
    type V = MessageTypeView;

    open spec fn view(&self) -> MessageTypeView {
        match self {
            MessageType::PairRequest { hostname } => MessageTypeView::PairRequest {
                hostname: hostname@,
            },
            MessageType::PairResponse { accepted, hostname } => MessageTypeView::PairResponse {
                accepted: *accepted,
                hostname: hostname@,
            },
            MessageType::TransferRequest {
                transfer_id,
                file_name,
                file_size,
            } => MessageTypeView::TransferRequest {
                transfer_id: transfer_id@,
                file_name: file_name@,
                file_size: *file_size,
            },
            MessageType::TransferAccept { transfer_id } => MessageTypeView::TransferAccept {
                transfer_id: transfer_id@,
            },
            MessageType::TransferReject { transfer_id } => MessageTypeView::TransferReject {
                transfer_id: transfer_id@,
            },
            MessageType::TransferCancel { transfer_id } => MessageTypeView::TransferCancel {
                transfer_id: transfer_id@,
            },
            MessageType::FileData { transfer_id, chunk_index, data } => MessageTypeView::FileData {
                transfer_id: transfer_id@,
                chunk_index: *chunk_index,
                data: data@,
            },
            MessageType::TextMessage { transfer_id, content } => MessageTypeView::TextMessage {
                transfer_id: transfer_id@,
                content: content@,
            },
        }
    }
}

impl Clone for MessageType {
    fn clone(&self) -> (copy: Self)
        ensures
            copy@ == self@,
    {
        match self {
            MessageType::PairRequest { hostname } => MessageType::PairRequest {
                hostname: hostname.clone(),
            },
            MessageType::PairResponse { accepted, hostname } => MessageType::PairResponse {
                accepted: *accepted,
                hostname: hostname.clone(),
            },
            MessageType::TransferRequest {
                transfer_id,
                file_name,
                file_size,
            } => MessageType::TransferRequest {
                transfer_id: transfer_id.clone(),
                file_name: file_name.clone(),
                file_size: *file_size,
            },
            MessageType::TransferAccept { transfer_id } => MessageType::TransferAccept {
                transfer_id: transfer_id.clone(),
            },
            MessageType::TransferReject { transfer_id } => MessageType::TransferReject {
                transfer_id: transfer_id.clone(),
            },
            MessageType::TransferCancel { transfer_id } => MessageType::TransferCancel {
                transfer_id: transfer_id.clone(),
            },
            MessageType::FileData { transfer_id, chunk_index, data } => MessageType::FileData {
                transfer_id: transfer_id.clone(),
                chunk_index: *chunk_index,
                data: data.clone(),
            },
            MessageType::TextMessage { transfer_id, content } => MessageType::TextMessage {
                transfer_id: transfer_id.clone(),
                content: content.clone(),
            },
        }
    }
}

/// One protocol message: who sends it, to whom, and what it is about.
#[derive(Debug, PartialEq, Eq)]
pub struct Message {
    pub id: String,
    pub source_id: String,
    pub target_id: String,
    pub message_type: MessageType,
}

/// The model of a `Message`.
pub struct MessageView {
    pub id: Seq<char>,
    pub source_id: Seq<char>,
    pub target_id: Seq<char>,
    pub message_type: MessageTypeView,
}

impl View for Message {
    type V = MessageView;

    open spec fn view(&self) -> MessageView {
        MessageView {
            id: self.id@,
            source_id: self.source_id@,
            target_id: self.target_id@,
            message_type: self.message_type@,
        }
    }
}

impl Clone for Message {
    fn clone(&self) -> (copy: Self)
        ensures
            copy@ == self@,
    {
        Message {
            id: self.id.clone(),
            source_id: self.source_id.clone(),
            target_id: self.target_id.clone(),
            message_type: self.message_type.clone(),
        }
    }
}

/// The four bytes of `n`, least significant first.
pub open spec fn le_bytes(n: u32) -> Seq<u8> {
    seq![
        (n % 256) as u8,
        ((n / 256) % 256) as u8,
        ((n / 65536) % 256) as u8,
        ((n / 16777216) % 256) as u8,
    ]
}

/// The number whose little-endian bytes are `b0 b1 b2 b3`.
pub open spec fn le_value(b0: u8, b1: u8, b2: u8, b3: u8) -> int {
    b0 + 256 * b1 + 65536 * b2 + 16777216 * b3
}

/// The payload length that the first four bytes of `bytes` announce.
pub open spec fn announced_len(bytes: Seq<u8>) -> int
    recommends
        bytes.len() >= 4,
{
    le_value(bytes[0], bytes[1], bytes[2], bytes[3])
}

/// The frame that carries `payload`: its length as a prefix, then the
/// payload itself. The prefix has four bytes, so it holds the length
/// modulo 2^32.
pub open spec fn frame_of(payload: Seq<u8>) -> Seq<u8> {
    le_bytes((payload.len() % 0x1_0000_0000) as u32) + payload
}

/// Whether `bytes` start with a whole frame.
pub open spec fn has_frame(bytes: Seq<u8>) -> bool {
    bytes.len() >= 4 && bytes.len() - 4 >= announced_len(bytes)
}

/// The payload of the frame that `bytes` start with.
pub open spec fn first_payload(bytes: Seq<u8>) -> Seq<u8>
    recommends
        has_frame(bytes),
{
    bytes.subrange(4, 4 + announced_len(bytes))
}

/// What follows the frame that `bytes` start with.
pub open spec fn after_frame(bytes: Seq<u8>) -> Seq<u8>
    recommends
        has_frame(bytes),
{
    bytes.subrange(4 + announced_len(bytes), bytes.len() as int)
}

/// Why the bytes of a closed stream hold no frame.
#[derive(Debug, Clone, Copy, PartialEq, Eq, Structural)]
pub enum FrameError {
    /// The stream ended inside the length prefix.
    TruncatedPrefix,
    /// The stream ended before the announced payload was complete.
    TruncatedPayload,
}

/// One frame read from the start of a buffer.
#[derive(Debug, PartialEq, Eq)]
pub struct Frame {
    /// The bytes that the frame carries.
    pub payload: Vec<u8>,
    /// How many bytes of the buffer the frame took, prefix included.
    pub consumed: usize,
}

/// What a closed stream that holds `bytes` yields next: nothing when it is
/// at its end, the payload of its first frame and the number of bytes the
/// frame took, or the reason why it is cut short.
pub open spec fn read_result(bytes: Seq<u8>) -> Result<Option<(Seq<u8>, int)>, FrameError> {
    if bytes.len() == 0 {
        Ok(None)
    } else if bytes.len() < 4 {
        Err(FrameError::TruncatedPrefix)
    } else if bytes.len() - 4 < announced_len(bytes) {
        Err(FrameError::TruncatedPayload)
    } else {
        Ok(Some((first_payload(bytes), 4 + announced_len(bytes))))
    }
}

/// Writes the length prefix for `len`.
pub fn encode_len(len: u32) -> (out: [u8; 4])
    ensures
        out@ == le_bytes(len),
{
    let out: [u8; 4] = [
        (len % 256) as u8,
        ((len / 256) % 256) as u8,
        ((len / 65536) % 256) as u8,
        ((len / 16777216) % 256) as u8,
    ];
    assert(out@ =~= le_bytes(len));
    out
}

/// Reads a length prefix.
pub fn decode_len(prefix: &[u8; 4]) -> (len: u32)
    ensures
        len == le_value(prefix[0], prefix[1], prefix[2], prefix[3]),
{
    let b0: u32 = prefix[0] as u32;
    let b1: u32 = prefix[1] as u32;
    let b2: u32 = prefix[2] as u32;
    let b3: u32 = prefix[3] as u32;
    b0 + 256 * b1 + 65536 * b2 + 16777216 * b3
}

/// Reading the prefix that was written for `n` gives `n` back.
pub proof fn lemma_len_round_trip(n: u32)
    ensures
        le_bytes(n).len() == 4,
        le_value(le_bytes(n)[0], le_bytes(n)[1], le_bytes(n)[2], le_bytes(n)[3]) == n,
{
}

/// A frame reads back as the payload it was made of, whatever follows it
/// in the stream, as long as the payload's length fits the prefix.
pub proof fn lemma_frame_round_trip(payload: Seq<u8>, rest: Seq<u8>)
    requires
        payload.len() < 0x1_0000_0000,
    ensures
        has_frame(frame_of(payload) + rest),
        first_payload(frame_of(payload) + rest) == payload,
        after_frame(frame_of(payload) + rest) == rest,
        read_result(frame_of(payload) + rest) == Ok::<_, FrameError>(
            Some((payload, 4 + payload.len() as int)),
        ),
{
    let n = payload.len() as u32;
    lemma_len_round_trip(n);
    let stream = frame_of(payload) + rest;
    assert(stream.len() == 4 + payload.len() + rest.len());
    assert(stream[0] == le_bytes(n)[0]);
    assert(stream[1] == le_bytes(n)[1]);
    assert(stream[2] == le_bytes(n)[2]);
    assert(stream[3] == le_bytes(n)[3]);
    assert(announced_len(stream) == payload.len());
    assert(first_payload(stream) =~= payload);
    assert(after_frame(stream) =~= rest);
}

impl Message {
    /// Appends to `writer` the frame that carries `payload`, the encoded
    /// message.
    pub fn write_to(payload: &[u8], writer: &mut Vec<u8>)
        ensures
            final(writer)@ == old(writer)@ + frame_of(payload@),
    {
        let len: u64 = payload.len() as u64;
        let prefix = encode_len((len % 0x1_0000_0000) as u32);
        let ghost before = writer@;
        writer.extend_from_slice(&prefix);
        writer.extend_from_slice(payload);
        assert(writer@ =~= before + frame_of(payload@));
    }

    /// Reads the next frame of a closed stream whose remaining bytes are
    /// `reader`. An empty stream is at its orderly end and holds no
    /// message; a stream that ends inside a frame is an error.
    pub fn read_from(reader: &[u8]) -> (result: Result<Option<Frame>, FrameError>)
        ensures
            match result {
                Ok(Some(frame)) => read_result(reader@) == Ok::<_, FrameError>(
                    Some((frame.payload@, frame.consumed as int)),
                ),
                Ok(None) => read_result(reader@) == Ok::<Option<(Seq<u8>, int)>, FrameError>(None),
                Err(e) => read_result(reader@) == Err::<Option<(Seq<u8>, int)>, _>(e),
            },
    {
        if reader.len() == 0 {
            return Ok(None);
        }
        if reader.len() < 4 {
            return Err(FrameError::TruncatedPrefix);
        }
        let prefix: [u8; 4] = [reader[0], reader[1], reader[2], reader[3]];
        let announced: u32 = decode_len(&prefix);
        let available: usize = reader.len() - 4;
        if (available as u64) < (announced as u64) {
            return Err(FrameError::TruncatedPayload);
        }
        let len: usize = announced as usize;
        let payload = slice_to_vec(slice_subrange(reader, 4, 4 + len));
        Ok(Some(Frame { payload, consumed: 4 + len }))
    }
}

/// Collects the bytes of a stream as they arrive and hands out the frames
/// that are complete.
pub struct FrameDecoder {
    buffer: Vec<u8>,
}

impl View for FrameDecoder {
    type V = Seq<u8>;

    /// The bytes that have arrived and belong to no frame handed out yet.
    closed spec fn view(&self) -> Seq<u8> {
        self.buffer@
    }
}

impl FrameDecoder {
    /// A decoder that has seen no bytes.
    pub fn new() -> (decoder: Self)
        ensures
            decoder@ == Seq::<u8>::empty(),
    {
        FrameDecoder { buffer: Vec::new() }
    }

    /// Takes in the bytes that a read returned.
    pub fn feed(&mut self, bytes: &[u8])
        ensures
            final(self)@ == old(self)@ + bytes@,
    {
        let ghost before = self.buffer@;
        self.buffer.extend_from_slice(bytes);
        assert(self.buffer@ =~= before + bytes@);
    }

    /// The number of bytes waiting for the rest of their frame.
    pub fn pending(&self) -> (n: usize)
        ensures
            n == self@.len(),
    {
        self.buffer.len()
    }

    /// Hands out the payload of the first frame once all of it has
    /// arrived, and keeps what follows it. Until then nothing changes.
    pub fn next_frame(&mut self) -> (payload: Option<Vec<u8>>)
        ensures
            has_frame(old(self)@) ==> payload is Some && payload.unwrap()@ == first_payload(
                old(self)@,
            ) && final(self)@ == after_frame(old(self)@),
            !has_frame(old(self)@) ==> payload is None && final(self)@ == old(self)@,
    {
        if self.buffer.len() < 4 {
            return None;
        }
        let prefix: [u8; 4] = [self.buffer[0], self.buffer[1], self.buffer[2], self.buffer[3]];
        let announced: u32 = decode_len(&prefix);
        let available: usize = self.buffer.len() - 4;
        if (available as u64) < (announced as u64) {
            return None;
        }
        let end: usize = 4 + announced as usize;
        let rest = self.buffer.split_off(end);
        let payload = self.buffer.split_off(4);
        self.buffer = rest;
        Some(payload)
    }

    /// Judges the end of the stream: orderly when no byte is waiting,
    /// else cut short inside a prefix or inside a payload.
    pub fn finish(&self) -> (result: Result<(), FrameError>)
        ensures
            match read_result(self@) {
                Ok(_) => result is Ok,
                Err(e) => result == Err::<(), _>(e),
            },
    {
        if self.buffer.len() == 0 {
            Ok(())
        } else if self.buffer.len() < 4 {
            Err(FrameError::TruncatedPrefix)
        } else {
            let prefix: [u8; 4] = [
                self.buffer[0],
                self.buffer[1],
                self.buffer[2],
                self.buffer[3],
            ];
            let announced: u32 = decode_len(&prefix);
            let available: usize = self.buffer.len() - 4;
            if (available as u64) < (announced as u64) {
                Err(FrameError::TruncatedPayload)
            } else {
                Ok(())
            }
        }
    }
}

} // verus!
