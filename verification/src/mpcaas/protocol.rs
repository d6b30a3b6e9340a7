//! Messages between MPC-as-a-service clients and servers, and their wire
//! frame: `[MAGIC:4][VERSION:1][LENGTH:4, big-endian][PAYLOAD:LENGTH]`, where
//! the payload is the serialised message.

use vstd::prelude::*;
use crate::error::{Error, ErrorView, NetworkError, rview};
use crate::text::{concat_str, decimal, owned, u64_to_decimal};

verus! {

/// Messages of the client-server protocol.
#[derive(Clone, Debug, PartialEq, Eq)]
pub enum MPCaaSMessage {
    /// Network parameters, sent by a server after a client connects.
    ServerInfo { n_parties: usize, threshold: usize, instance_id: u64, party_id: usize },
    /// A client is ready and will provide `num_inputs` inputs.
    ClientReady { client_id: usize, num_inputs: usize },
    /// Start of a computation.
    ComputationTrigger { session_id: u64 },
    /// A computation finished.
    ComputationComplete { session_id: u64 },
    /// A wrapped protocol message.
    HoneyBadger(Vec<u8>),
    /// A protocol error.
    Error { code: ErrorCode, message: String },
    /// Keep-alive request.
    Ping,
    /// Keep-alive response.
    Pong,
}

/// Categories of protocol errors.
#[derive(Clone, Copy, Debug, PartialEq, Eq, Structural)]
pub enum ErrorCode {
    /// Invalid message format or sequence.
    InvalidMessage,
    /// Configuration mismatch.
    ConfigurationMismatch,
    /// Too many clients.
    TooManyClients,
    /// Server not ready.
    NotReady,
    /// Computation timed out.
    Timeout,
    /// Internal server error.
    InternalError,
    /// Client disconnected.
    ClientDisconnected,
    /// Preprocessing material exhausted.
    PreprocessingExhausted,
}

/// The frame's magic bytes, "MPCS".
pub open spec fn magic() -> Seq<u8> {
    seq![0x4Du8, 0x50u8, 0x43u8, 0x53u8]
}

/// The protocol version written and accepted.
pub open spec fn protocol_version() -> u8 {
    1
}

/// The four big-endian bytes of `n`.
pub open spec fn be32(n: u32) -> Seq<u8> {
    seq![(n >> 24u32) as u8, (n >> 16u32) as u8, (n >> 8u32) as u8, n as u8]
}

/// The number whose big-endian bytes are `b0 b1 b2 b3`.
pub open spec fn from_be32(b0: u8, b1: u8, b2: u8, b3: u8) -> u32 {
    ((b0 as u32) << 24u32) | ((b1 as u32) << 16u32) | ((b2 as u32) << 8u32) | (b3 as u32)
}

/// The frame of a payload; its length field holds the payload length
/// truncated to 32 bits.
pub open spec fn frame(payload: Seq<u8>) -> Seq<u8> {
    magic() + seq![protocol_version()] + be32(payload.len() as u32) + payload
}

/// The length field of a frame header.
pub open spec fn header_length(data: Seq<u8>) -> nat {
    from_be32(data[5], data[6], data[7], data[8]) as nat
}

/// Why bytes are not a frame.
#[derive(Clone, Copy, Debug, PartialEq, Eq, Structural)]
pub enum FrameError {
    /// Fewer than the nine header bytes.
    TooShort,
    /// The first four bytes are not the magic bytes.
    BadMagic,
    /// The version byte is not the supported version.
    BadVersion(u8),
    /// The payload is cut short: the frame needs `expected` bytes.
    Incomplete { expected: u64, got: u64 },
}

/// What reading a frame gives: the payload and the number of bytes the frame
/// takes, or the first failure among a short header, wrong magic bytes, an
/// unsupported version and missing payload bytes.
pub open spec fn unframe(data: Seq<u8>) -> Result<(Seq<u8>, nat), FrameError> {
    if data.len() < 9 {
        Err(FrameError::TooShort)
    } else if data.subrange(0, 4) != magic() {
        Err(FrameError::BadMagic)
    } else if data[4] != protocol_version() {
        Err(FrameError::BadVersion(data[4]))
    } else if data.len() < 9 + header_length(data) {
        Err(FrameError::Incomplete { expected: (9 + header_length(data)) as u64, got: data.len() as u64 })
    } else {
        Ok((data.subrange(9, 9 + header_length(data) as int), 9 + header_length(data)))
    }
}

/// The message of a frame failure.
pub open spec fn frame_error_text(e: FrameError) -> Seq<char> {
    match e {
        FrameError::TooShort => "Message too short"@,
        FrameError::BadMagic => "Invalid MPCaaS magic bytes"@,
        FrameError::BadVersion(v) =>
            "Unsupported protocol version: "@ + decimal(v as nat) + " (expected 1)"@,
        FrameError::Incomplete { expected, got } =>
            "Incomplete message: expected "@ + decimal(expected as nat) + " bytes, got "@ + decimal(got as nat),
    }
}

proof fn lemma_be32_roundtrip(n: u32)
    ensures
        from_be32((n >> 24u32) as u8, (n >> 16u32) as u8, (n >> 8u32) as u8, n as u8) == n,
{
    assert(((((n >> 24u32) as u8) as u32) << 24u32) | ((((n >> 16u32) as u8) as u32) << 16u32)
        | ((((n >> 8u32) as u8) as u32) << 8u32) | ((n as u8) as u32) == n) by (bit_vector);
}


/// Reading a frame gives back the payload it was made from, and the frame's
/// length, whatever bytes follow it, for payloads shorter than 2^32 bytes.
pub proof fn lemma_frame_roundtrip(payload: Seq<u8>, rest: Seq<u8>)
    requires
        payload.len() < 0x1_0000_0000,
    ensures
        unframe(frame(payload) + rest) == Ok::<(Seq<u8>, nat), FrameError>((payload, 9 + payload.len())),
{
    let n = payload.len() as u32;
    let data = frame(payload) + rest;
    lemma_be32_roundtrip(n);
    assert(data.subrange(0, 4) =~= magic());
    assert(data[4] == protocol_version());
    assert(data[5] == (n >> 24u32) as u8);
    assert(data[6] == (n >> 16u32) as u8);
    assert(data[7] == (n >> 8u32) as u8);
    assert(data[8] == n as u8);
    assert(header_length(data) == payload.len());
    assert(data.subrange(9, 9 + payload.len() as int) =~= payload);
}

fn be32_exec(n: u32) -> (b: [u8; 4])
    ensures
        b@ == be32(n),
{
    let b = [(n >> 24) as u8, (n >> 16) as u8, (n >> 8) as u8, n as u8];
    assert(b@ =~= be32(n));
    b
}

/// The frame of a serialised message: magic bytes, version, the payload
/// length (truncated to 32 bits) in big-endian order, then the payload.
pub fn frame_payload(payload: &[u8]) -> (out: Vec<u8>)
    ensures
        out@ == frame(payload@),
{
    #[verifier::truncate]
    let length = payload.len() as u32;
    let mut out: Vec<u8> = Vec::new();
    out.push(0x4D);
    out.push(0x50);
    out.push(0x43);
    out.push(0x53);
    out.push(1);
    let l = be32_exec(length);
    out.push(l[0]);
    out.push(l[1]);
    out.push(l[2]);
    out.push(l[3]);
    let ghost head = out@;
    assert(head =~= magic() + seq![protocol_version()] + be32(payload@.len() as u32));
    let mut i: usize = 0;
    while i < payload.len()
        invariant
            i <= payload@.len(),
            out@ =~= head + payload@.take(i as int),
        decreases payload@.len() - i,
    {
        out.push(payload[i]);
        i = i + 1;
    }
    assert(payload@.take(payload@.len() as int) =~= payload@);
    out
}

fn frame_error(e: FrameError) -> (r: Error)
    ensures
        r matches Error::Network(NetworkError::Message(m)) && m@ == frame_error_text(e),
{
    let m = match e {
        FrameError::TooShort => owned("Message too short"),
        FrameError::BadMagic => owned("Invalid MPCaaS magic bytes"),
        FrameError::BadVersion(v) => {
            let m = concat_str(owned("Unsupported protocol version: "), u64_to_decimal(v as u64).as_str());
            concat_str(m, " (expected 1)")
        },
        FrameError::Incomplete { expected, got } => {
            let m = concat_str(owned("Incomplete message: expected "), u64_to_decimal(expected).as_str());
            let m = concat_str(concat_str(m, " bytes, got "), u64_to_decimal(got).as_str());
            m
        },
    };
    proof {
        assert(m@ =~= frame_error_text(e));
    }
    Error::Network(NetworkError::Message(m))
}

/// Reads one frame from the start of `data`, returning its payload and the
/// number of bytes it takes (see [`unframe`]); a failure is a network
/// error whose message is [`frame_error_text`].
pub fn unframe_payload(data: &[u8]) -> (r: Result<(Vec<u8>, usize), Error>)
    ensures
        match unframe(data@) {
            Ok((p, n)) => r matches Ok((v, k)) && v@ == p && k as nat == n,
            Err(e) => r matches Err(Error::Network(NetworkError::Message(m)))
                && m@ == frame_error_text(e),
        },
{
    if data.len() < 9 {
        return Err(frame_error(FrameError::TooShort));
    }
    if !(data[0] == 0x4D && data[1] == 0x50 && data[2] == 0x43 && data[3] == 0x53) {
        proof {
            if data@.subrange(0, 4) == magic() {
                assert(data@.subrange(0, 4)[0] == data@[0]);
                assert(data@.subrange(0, 4)[1] == data@[1]);
                assert(data@.subrange(0, 4)[2] == data@[2]);
                assert(data@.subrange(0, 4)[3] == data@[3]);
            }
        }
        return Err(frame_error(FrameError::BadMagic));
    }
    assert(data@.subrange(0, 4) =~= magic());
    let version = data[4];
    if version != 1 {
        return Err(frame_error(FrameError::BadVersion(version)));
    }
    let length: u32 = ((data[5] as u32) << 24) | ((data[6] as u32) << 16) | ((data[7] as u32) << 8)
        | (data[8] as u32);
    let total: u64 = 9 + length as u64;
    if (data.len() as u64) < total {
        return Err(frame_error(FrameError::Incomplete { expected: total, got: data.len() as u64 }));
    }
    let total_size = total as usize;
    let mut payload: Vec<u8> = Vec::new();
    let mut i: usize = 9;
    while i < total_size
        invariant
            9 <= i <= total_size,
            total_size <= data@.len(),
            payload@ =~= data@.subrange(9, i as int),
        decreases total_size - i,
    {
        payload.push(data[i]);
        i = i + 1;
    }
    Ok((payload, total_size))
}

} // verus!
