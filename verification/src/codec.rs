//! Framed message codec.
//!
//! Each frame on the wire is `[len: u32 BE][kind: u8][payload]`, where `len`
//! counts the kind byte and the payload. The payload of each message variant
//! is a fixed compact binary form; strings travel as UTF-8. Receiving is
//! modelled over the sequence of bytes that arrived before the peer closed:
//! a read past that end is a clean end of stream.

use crate::messages::{
    DownloadStatus, RecorderMessage, RecorderMessageKind, RecorderMessageV, RunnerMessage,
    RunnerMessageKind, RunnerMessageV,
};
use vstd::prelude::*;
use vstd::slice::{slice_subrange, slice_to_vec};
use vstd::string::{StrSliceExecFns, StringSliceAdditionalSpecFns};
use vstd::utf8::{decode_utf8, encode_utf8, valid_utf8};

verus! {

/// A protocol-level failure. Every variant is terminal for the session.
#[derive(Debug)]
pub enum ProtoError {
    /// Transport failure, carried as text.
    Io(String),
    /// The peer closed the stream before or inside a frame.
    EndOfStream,
    /// A payload that is not the encoding of the expected variant.
    Decode,
    /// A frame of a kind other than the expected one; both wire tags.
    UnexpectedKind { expected: u8, received: u8 },
    /// A logical error surfaced by the remote peer inside a reply payload.
    Foreign(String),
}

/// Spec-level twin of [`ProtoError`].
#[verifier::ext_equal]
pub enum ProtoErrorV {
    Io(Seq<char>),
    EndOfStream,
    Decode,
    UnexpectedKind { expected: u8, received: u8 },
    Foreign(Seq<char>),
}

impl View for ProtoError {
    type V = ProtoErrorV;

    open spec fn view(&self) -> ProtoErrorV {
        match self {
            ProtoError::Io(m) => ProtoErrorV::Io(m@),
            ProtoError::EndOfStream => ProtoErrorV::EndOfStream,
            ProtoError::Decode => ProtoErrorV::Decode,
            ProtoError::UnexpectedKind { expected, received } => ProtoErrorV::UnexpectedKind {
                expected: *expected,
                received: *received,
            },
            ProtoError::Foreign(m) => ProtoErrorV::Foreign(m@),
        }
    }
}

/// The four big-endian bytes of a 32-bit length.
pub open spec fn spec_u32_to_be(x: u32) -> Seq<u8> {
    seq![
        ((x >> 24) & 0xff) as u8,
        ((x >> 16) & 0xff) as u8,
        ((x >> 8) & 0xff) as u8,
        (x & 0xff) as u8,
    ]
}

/// The 32-bit value read big-endian from four bytes.
pub open spec fn spec_u32_from_be(b: Seq<u8>) -> u32
    recommends
        b.len() == 4,
{
    (((b[0] as u32) << 24) | ((b[1] as u32) << 16) | ((b[2] as u32) << 8) | (b[3] as u32)) as u32
}

pub proof fn lemma_u32_be_round_trip(x: u32)
    ensures
        spec_u32_from_be(spec_u32_to_be(x)) == x,
{
    let b = spec_u32_to_be(x);
    assert(b[0] == ((x >> 24) & 0xff) as u8);
    assert(b[1] == ((x >> 16) & 0xff) as u8);
    assert(b[2] == ((x >> 8) & 0xff) as u8);
    assert(b[3] == (x & 0xff) as u8);
    assert(((((((x >> 24) & 0xff) as u8) as u32) << 24) | (((((x >> 16) & 0xff) as u8) as u32)
        << 16) | (((((x >> 8) & 0xff) as u8) as u32) << 8) | (((x & 0xff) as u8) as u32)) as u32
        == x) by (bit_vector);
}

/// The eight big-endian bytes of a 64-bit profile size.
pub open spec fn spec_u64_to_be(x: u64) -> Seq<u8> {
    seq![
        ((x >> 56) & 0xff) as u8,
        ((x >> 48) & 0xff) as u8,
        ((x >> 40) & 0xff) as u8,
        ((x >> 32) & 0xff) as u8,
        ((x >> 24) & 0xff) as u8,
        ((x >> 16) & 0xff) as u8,
        ((x >> 8) & 0xff) as u8,
        (x & 0xff) as u8,
    ]
}

/// The 64-bit value read big-endian from eight bytes.
pub open spec fn spec_u64_from_be(b: Seq<u8>) -> u64
    recommends
        b.len() == 8,
{
    (((b[0] as u64) << 56) | ((b[1] as u64) << 48) | ((b[2] as u64) << 40) | ((b[3] as u64) << 32)
        | ((b[4] as u64) << 24) | ((b[5] as u64) << 16) | ((b[6] as u64) << 8) | (b[7]
        as u64)) as u64
}

pub proof fn lemma_u64_be_round_trip(x: u64)
    ensures
        spec_u64_from_be(spec_u64_to_be(x)) == x,
{
    let b = spec_u64_to_be(x);
    assert(b[0] == ((x >> 56) & 0xff) as u8);
    assert(b[1] == ((x >> 48) & 0xff) as u8);
    assert(b[2] == ((x >> 40) & 0xff) as u8);
    assert(b[3] == ((x >> 32) & 0xff) as u8);
    assert(b[4] == ((x >> 24) & 0xff) as u8);
    assert(b[5] == ((x >> 16) & 0xff) as u8);
    assert(b[6] == ((x >> 8) & 0xff) as u8);
    assert(b[7] == (x & 0xff) as u8);
    assert(((((((x >> 56) & 0xff) as u8) as u64) << 56) | (((((x >> 48) & 0xff) as u8) as u64)
        << 48) | (((((x >> 40) & 0xff) as u8) as u64) << 40) | (((((x >> 32) & 0xff) as u8) as u64)
        << 32) | (((((x >> 24) & 0xff) as u8) as u64) << 24) | (((((x >> 16) & 0xff) as u8) as u64)
        << 16) | (((((x >> 8) & 0xff) as u8) as u64) << 8) | (((x & 0xff) as u8) as u64)) as u64
        == x) by (bit_vector);
}

pub fn u32_to_be(x: u32) -> (r: Vec<u8>)
    ensures
        r@ == spec_u32_to_be(x),
{
    let mut v: Vec<u8> = Vec::new();
    v.push(((x >> 24) & 0xff) as u8);
    v.push(((x >> 16) & 0xff) as u8);
    v.push(((x >> 8) & 0xff) as u8);
    v.push((x & 0xff) as u8);
    proof {
        assert(v@ =~= spec_u32_to_be(x));
    }
    v
}

pub fn u32_from_be(b: &[u8]) -> (x: u32)
    requires
        b@.len() == 4,
    ensures
        x == spec_u32_from_be(b@),
{
    let b0 = *vstd::slice::slice_index_get(b, 0);
    let b1 = *vstd::slice::slice_index_get(b, 1);
    let b2 = *vstd::slice::slice_index_get(b, 2);
    let b3 = *vstd::slice::slice_index_get(b, 3);
    ((b0 as u32) << 24) | ((b1 as u32) << 16) | ((b2 as u32) << 8) | (b3 as u32)
}

pub fn u64_to_be(x: u64) -> (r: Vec<u8>)
    ensures
        r@ == spec_u64_to_be(x),
{
    let mut v: Vec<u8> = Vec::new();
    v.push(((x >> 56) & 0xff) as u8);
    v.push(((x >> 48) & 0xff) as u8);
    v.push(((x >> 40) & 0xff) as u8);
    v.push(((x >> 32) & 0xff) as u8);
    v.push(((x >> 24) & 0xff) as u8);
    v.push(((x >> 16) & 0xff) as u8);
    v.push(((x >> 8) & 0xff) as u8);
    v.push((x & 0xff) as u8);
    proof {
        assert(v@ =~= spec_u64_to_be(x));
    }
    v
}

pub fn u64_from_be(b: &[u8]) -> (x: u64)
    requires
        b@.len() == 8,
    ensures
        x == spec_u64_from_be(b@),
{
    let b0 = *vstd::slice::slice_index_get(b, 0);
    let b1 = *vstd::slice::slice_index_get(b, 1);
    let b2 = *vstd::slice::slice_index_get(b, 2);
    let b3 = *vstd::slice::slice_index_get(b, 3);
    let b4 = *vstd::slice::slice_index_get(b, 4);
    let b5 = *vstd::slice::slice_index_get(b, 5);
    let b6 = *vstd::slice::slice_index_get(b, 6);
    let b7 = *vstd::slice::slice_index_get(b, 7);
    ((b0 as u64) << 56) | ((b1 as u64) << 48) | ((b2 as u64) << 40) | ((b3 as u64) << 32) | ((b4
        as u64) << 24) | ((b5 as u64) << 16) | ((b6 as u64) << 8) | (b7 as u64)
}

/// One whole frame: length prefix, kind tag, payload.
pub open spec fn spec_frame(tag: u8, payload: Seq<u8>) -> Seq<u8>
    recommends
        payload.len() + 1 <= u32::MAX,
{
    spec_u32_to_be((payload.len() + 1) as u32) + seq![tag] + payload
}

/// Reading one frame body out of the bytes that arrived before the peer
/// closed. A close before the length prefix, or anywhere inside the frame,
/// is a clean end of stream.
pub open spec fn spec_take_frame(data: Seq<u8>, start: int) -> Result<(Seq<u8>, int), ProtoErrorV>
    recommends
        0 <= start <= data.len(),
{
    if data.len() - start < 4 {
        Err(ProtoErrorV::EndOfStream)
    } else {
        let len = spec_u32_from_be(data.subrange(start, start + 4)) as int;
        if data.len() - (start + 4) < len {
            Err(ProtoErrorV::EndOfStream)
        } else {
            Ok((data.subrange(start + 4, start + 4 + len), start + 4 + len))
        }
    }
}

/// What [`take_frame`] must return: exactly the spec-level read.
pub open spec fn take_frame_post(
    data: Seq<u8>,
    start: int,
    r: Result<(Vec<u8>, usize), ProtoError>,
) -> bool {
    match (spec_take_frame(data, start), r) {
        (Ok((b, n)), Ok((body, next))) => body@ == b && next as int == n,
        (Err(es), Err(e)) => e@ == es,
        _ => false,
    }
}

/// Read one frame body (`[kind][payload]`, without the length prefix) from
/// the received bytes, starting at `start`; also return the position just
/// after the frame.
pub fn take_frame(data: &Vec<u8>, start: usize) -> (r: Result<(Vec<u8>, usize), ProtoError>)
    requires
        start <= data@.len(),
    ensures
        take_frame_post(data@, start as int, r),
{
    let n = data.len();
    if n - start < 4 {
        return Err(ProtoError::EndOfStream);
    }
    let header = slice_subrange(data.as_slice(), start, start + 4);
    let len32 = u32_from_be(header);
    let len = len32 as usize;
    if n - (start + 4) < len {
        return Err(ProtoError::EndOfStream);
    }
    let body_slice = slice_subrange(data.as_slice(), start + 4, start + 4 + len);
    let body = slice_to_vec(body_slice);
    Ok((body, start + 4 + len))
}

/// Reading the raw-bytes phase: exactly `n` unframed bytes, flowing between
/// two control messages on the same stream.
pub open spec fn spec_take_raw(data: Seq<u8>, start: int, n: u64) -> Result<
    (Seq<u8>, int),
    ProtoErrorV,
>
    recommends
        0 <= start <= data.len(),
{
    if data.len() - start < n {
        Err(ProtoErrorV::EndOfStream)
    } else {
        Ok((data.subrange(start, start + n), start + n))
    }
}

/// Raw-phase length: a sender that advertises `n = |b|` and then streams
/// exactly `b` hands the other side exactly `b`, nothing more or less.
pub proof fn lemma_raw_phase_exact(b: Seq<u8>)
    requires
        b.len() <= u64::MAX,
    ensures
        spec_take_raw(b, 0, b.len() as u64) matches Ok(p) && p.0 == b && p.1 == b.len(),
{
    assert(b.subrange(0, b.len() as int) =~= b);
}

pub open spec fn take_raw_post(
    data: Seq<u8>,
    start: int,
    n: u64,
    r: Result<(Vec<u8>, usize), ProtoError>,
) -> bool {
    match (spec_take_raw(data, start, n), r) {
        (Ok((b, p)), Ok((bytes, next))) => bytes@ == b && next as int == p,
        (Err(ev), Err(e)) => e@ == ev,
        _ => false,
    }
}

/// Take the raw-bytes phase out of the received bytes: exactly `n` bytes
/// starting at `start`, or a clean end of stream when the peer closed
/// early.
pub fn take_raw(data: &Vec<u8>, start: usize, n: u64) -> (r: Result<(Vec<u8>, usize), ProtoError>)
    requires
        start <= data@.len(),
    ensures
        take_raw_post(data@, start as int, n, r),
{
    let avail = data.len() - start;
    if (avail as u64) < n {
        return Err(ProtoError::EndOfStream);
    }
    let len = n as usize;
    let bytes = slice_to_vec(slice_subrange(data.as_slice(), start, start + len));
    Ok((bytes, start + len))
}

/// Relies on `String::from_utf8`: it accepts exactly the valid UTF-8 byte
/// sequences, and returns the string whose encoding the input is.
#[verifier::external_body]
fn bytes_to_string(bytes: Vec<u8>) -> (r: Option<String>)
    ensures
        r matches Some(s) ==> valid_utf8(bytes@) && s@ == decode_utf8(bytes@),
        r is None <==> !valid_utf8(bytes@),
{
    match String::from_utf8(bytes) {
        Ok(s) => Some(s),
        Err(_) => None,
    }
}

/// The view of a unit-or-foreign-error reply payload.
pub open spec fn result_unit_view(r: Result<(), String>) -> Result<(), Seq<char>> {
    match r {
        Ok(()) => Ok(()),
        Err(e) => Err(e@),
    }
}

/// Payload of a reply that carries `Result<(), ForeignError>`.
pub open spec fn spec_result_unit_payload(r: Result<(), Seq<char>>) -> Seq<u8> {
    match r {
        Ok(()) => seq![0u8],
        Err(e) => seq![1u8] + encode_utf8(e),
    }
}

/// Payload bytes of each recorder-to-runner variant.
pub open spec fn spec_recorder_payload(m: RecorderMessageV) -> Seq<u8> {
    match m {
        RecorderMessageV::Handshake { restart } => seq![
            if restart {
                1u8
            } else {
                0u8
            },
        ],
        RecorderMessageV::DownloadBuild { task_id } => encode_utf8(task_id),
        RecorderMessageV::SendProfile { profile_size } => match profile_size {
            None => seq![0u8],
            Some(n) => seq![1u8] + spec_u64_to_be(n),
        },
    }
}

/// Payload bytes of each runner-to-recorder variant.
pub open spec fn spec_runner_payload(m: RunnerMessageV) -> Seq<u8> {
    match m {
        RunnerMessageV::HandshakeReply { result } => spec_result_unit_payload(result),
        RunnerMessageV::DownloadBuildReply { result } => spec_result_unit_payload(result),
        RunnerMessageV::SendProfileReply { result } => match result {
            Ok(None) => seq![0u8, 0u8],
            Ok(Some(st)) => seq![0u8, 1u8, st.spec_tag()],
            Err(e) => seq![1u8] + encode_utf8(e),
        },
    }
}

/// A message fits on the wire when its payload and kind byte fit the
/// 32-bit length prefix.
pub open spec fn recorder_msg_encodable(m: RecorderMessageV) -> bool {
    spec_recorder_payload(m).len() + 1 <= u32::MAX
}

pub open spec fn runner_msg_encodable(m: RunnerMessageV) -> bool {
    spec_runner_payload(m).len() + 1 <= u32::MAX
}

/// The whole frame a recorder message occupies on the wire.
pub open spec fn spec_recorder_frame(m: RecorderMessageV) -> Seq<u8>
    recommends
        recorder_msg_encodable(m),
{
    spec_frame(m.kind().spec_tag(), spec_recorder_payload(m))
}

/// The whole frame a runner message occupies on the wire.
pub open spec fn spec_runner_frame(m: RunnerMessageV) -> Seq<u8>
    recommends
        runner_msg_encodable(m),
{
    spec_frame(m.kind().spec_tag(), spec_runner_payload(m))
}

/// Meaning of a unit-reply payload: `Ok` is one zero byte, a foreign error
/// is a one byte followed by the error text in UTF-8.
pub open spec fn spec_decode_result_unit(p: Seq<u8>) -> Option<Result<(), Seq<char>>> {
    if p.len() == 1 && p[0] == 0u8 {
        Some(Ok(()))
    } else if p.len() >= 1 && p[0] == 1u8 && valid_utf8(p.subrange(1, p.len() as int)) {
        Some(Err(decode_utf8(p.subrange(1, p.len() as int))))
    } else {
        None
    }
}

/// Meaning of a recorder payload of the given kind; `None` when the bytes
/// are not the encoding of any value of that kind.
pub open spec fn spec_decode_recorder_payload(k: RecorderMessageKind, p: Seq<u8>) -> Option<
    RecorderMessageV,
> {
    match k {
        RecorderMessageKind::Handshake => {
            if p.len() == 1 && p[0] == 0u8 {
                Some(RecorderMessageV::Handshake { restart: false })
            } else if p.len() == 1 && p[0] == 1u8 {
                Some(RecorderMessageV::Handshake { restart: true })
            } else {
                None
            }
        },
        RecorderMessageKind::DownloadBuild => {
            if valid_utf8(p) {
                Some(RecorderMessageV::DownloadBuild { task_id: decode_utf8(p) })
            } else {
                None
            }
        },
        RecorderMessageKind::SendProfile => {
            if p.len() == 1 && p[0] == 0u8 {
                Some(RecorderMessageV::SendProfile { profile_size: None })
            } else if p.len() == 9 && p[0] == 1u8 {
                Some(
                    RecorderMessageV::SendProfile {
                        profile_size: Some(spec_u64_from_be(p.subrange(1, 9))),
                    },
                )
            } else {
                None
            }
        },
    }
}

/// Meaning of a runner payload of the given kind.
pub open spec fn spec_decode_runner_payload(k: RunnerMessageKind, p: Seq<u8>) -> Option<
    RunnerMessageV,
> {
    match k {
        RunnerMessageKind::HandshakeReply => {
            match spec_decode_result_unit(p) {
                Some(r) => Some(RunnerMessageV::HandshakeReply { result: r }),
                None => None,
            }
        },
        RunnerMessageKind::DownloadBuildReply => {
            match spec_decode_result_unit(p) {
                Some(r) => Some(RunnerMessageV::DownloadBuildReply { result: r }),
                None => None,
            }
        },
        RunnerMessageKind::SendProfileReply => {
            if p.len() == 2 && p[0] == 0u8 && p[1] == 0u8 {
                Some(RunnerMessageV::SendProfileReply { result: Ok(None) })
            } else if p.len() == 3 && p[0] == 0u8 && p[1] == 1u8 {
                match DownloadStatus::spec_from_tag(p[2]) {
                    Some(st) => Some(RunnerMessageV::SendProfileReply { result: Ok(Some(st)) }),
                    None => None,
                }
            } else if p.len() >= 1 && p[0] == 1u8 && valid_utf8(p.subrange(1, p.len() as int)) {
                Some(
                    RunnerMessageV::SendProfileReply {
                        result: Err(decode_utf8(p.subrange(1, p.len() as int))),
                    },
                )
            } else {
                None
            }
        },
    }
}

/// Receiving a recorder frame body while expecting a kind: an unknown tag or
/// a malformed payload is a decode failure, a known tag of another kind is
/// an unexpected-kind failure.
pub open spec fn spec_recv_recorder_body(body: Seq<u8>, expected: RecorderMessageKind) -> Result<
    RecorderMessageV,
    ProtoErrorV,
> {
    if body.len() < 1 {
        Err(ProtoErrorV::Decode)
    } else {
        match RecorderMessageKind::spec_from_tag(body[0]) {
            None => Err(ProtoErrorV::Decode),
            Some(k) => {
                if k != expected {
                    Err(
                        ProtoErrorV::UnexpectedKind {
                            expected: expected.spec_tag(),
                            received: body[0],
                        },
                    )
                } else {
                    match spec_decode_recorder_payload(k, body.subrange(1, body.len() as int)) {
                        Some(m) => Ok(m),
                        None => Err(ProtoErrorV::Decode),
                    }
                }
            },
        }
    }
}

pub open spec fn spec_recv_runner_body(body: Seq<u8>, expected: RunnerMessageKind) -> Result<
    RunnerMessageV,
    ProtoErrorV,
> {
    if body.len() < 1 {
        Err(ProtoErrorV::Decode)
    } else {
        match RunnerMessageKind::spec_from_tag(body[0]) {
            None => Err(ProtoErrorV::Decode),
            Some(k) => {
                if k != expected {
                    Err(
                        ProtoErrorV::UnexpectedKind {
                            expected: expected.spec_tag(),
                            received: body[0],
                        },
                    )
                } else {
                    match spec_decode_runner_payload(k, body.subrange(1, body.len() as int)) {
                        Some(m) => Ok(m),
                        None => Err(ProtoErrorV::Decode),
                    }
                }
            },
        }
    }
}

/// Receiving one expected recorder message from the received bytes.
pub open spec fn spec_recv_recorder(
    data: Seq<u8>,
    start: int,
    expected: RecorderMessageKind,
) -> Result<(RecorderMessageV, int), ProtoErrorV> {
    match spec_take_frame(data, start) {
        Err(e) => Err(e),
        Ok((body, next)) => match spec_recv_recorder_body(body, expected) {
            Ok(m) => Ok((m, next)),
            Err(e) => Err(e),
        },
    }
}

/// Receiving one expected runner message from the received bytes.
pub open spec fn spec_recv_runner(
    data: Seq<u8>,
    start: int,
    expected: RunnerMessageKind,
) -> Result<(RunnerMessageV, int), ProtoErrorV> {
    match spec_take_frame(data, start) {
        Err(e) => Err(e),
        Ok((body, next)) => match spec_recv_runner_body(body, expected) {
            Ok(m) => Ok((m, next)),
            Err(e) => Err(e),
        },
    }
}

fn encode_result_unit(r: &Result<(), String>) -> (out: Vec<u8>)
    ensures
        out@ == spec_result_unit_payload(result_unit_view(*r)),
{
    match r {
        Ok(()) => {
            let mut v: Vec<u8> = Vec::new();
            v.push(0);
            proof {
                assert(v@ =~= spec_result_unit_payload(result_unit_view(*r)));
            }
            v
        },
        Err(e) => {
            let mut v: Vec<u8> = Vec::new();
            v.push(1);
            let mut sb = e.as_str().as_bytes_vec();
            v.append(&mut sb);
            proof {
                assert(v@ =~= spec_result_unit_payload(result_unit_view(*r)));
            }
            v
        },
    }
}

/// Encode one recorder message's payload.
pub fn encode_recorder_payload(m: &RecorderMessage) -> (r: Vec<u8>)
    ensures
        r@ == spec_recorder_payload(m@),
{
    match m {
        RecorderMessage::Handshake { restart } => {
            let mut v: Vec<u8> = Vec::new();
            v.push(if *restart {
                1
            } else {
                0
            });
            proof {
                assert(v@ =~= spec_recorder_payload(m@));
            }
            v
        },
        RecorderMessage::DownloadBuild { task_id } => {
            let v = task_id.as_str().as_bytes_vec();
            proof {
                assert(v@ =~= spec_recorder_payload(m@));
            }
            v
        },
        RecorderMessage::SendProfile { profile_size } => {
            match profile_size {
                None => {
                    let mut v: Vec<u8> = Vec::new();
                    v.push(0);
                    proof {
                        assert(v@ =~= spec_recorder_payload(m@));
                    }
                    v
                },
                Some(n) => {
                    let mut v: Vec<u8> = Vec::new();
                    v.push(1);
                    let mut nb = u64_to_be(*n);
                    v.append(&mut nb);
                    proof {
                        assert(v@ =~= spec_recorder_payload(m@));
                    }
                    v
                },
            }
        },
    }
}

/// Encode one runner message's payload.
pub fn encode_runner_payload(m: &RunnerMessage) -> (r: Vec<u8>)
    ensures
        r@ == spec_runner_payload(m@),
{
    match m {
        RunnerMessage::HandshakeReply { result } => {
            let v = encode_result_unit(result);
            proof {
                assert(v@ =~= spec_runner_payload(m@));
            }
            v
        },
        RunnerMessage::DownloadBuildReply { result } => {
            let v = encode_result_unit(result);
            proof {
                assert(v@ =~= spec_runner_payload(m@));
            }
            v
        },
        RunnerMessage::SendProfileReply { result } => {
            match result {
                Ok(None) => {
                    let mut v: Vec<u8> = Vec::new();
                    v.push(0);
                    v.push(0);
                    proof {
                        assert(v@ =~= spec_runner_payload(m@));
                    }
                    v
                },
                Ok(Some(st)) => {
                    let mut v: Vec<u8> = Vec::new();
                    v.push(0);
                    v.push(1);
                    v.push(st.tag());
                    proof {
                        assert(v@ =~= spec_runner_payload(m@));
                    }
                    v
                },
                Err(e) => {
                    let mut v: Vec<u8> = Vec::new();
                    v.push(1);
                    let mut sb = e.as_str().as_bytes_vec();
                    v.append(&mut sb);
                    proof {
                        assert(v@ =~= spec_runner_payload(m@));
                    }
                    v
                },
            }
        },
    }
}

fn make_frame(tag: u8, payload: Vec<u8>) -> (r: Vec<u8>)
    requires
        payload@.len() + 1 <= u32::MAX,
    ensures
        r@ == spec_frame(tag, payload@),
{
    let ghost pv = payload@;
    let len = (payload.len() + 1) as u32;
    let mut r = u32_to_be(len);
    r.push(tag);
    let mut p = payload;
    r.append(&mut p);
    proof {
        assert(r@ =~= spec_frame(tag, pv));
    }
    r
}

/// Encode one whole recorder frame, length prefix included.
pub fn encode_recorder(m: &RecorderMessage) -> (r: Vec<u8>)
    requires
        recorder_msg_encodable(m@),
    ensures
        r@ == spec_recorder_frame(m@),
{
    let payload = encode_recorder_payload(m);
    let tag = m.kind().tag();
    make_frame(tag, payload)
}

/// Encode one whole runner frame, length prefix included.
pub fn encode_runner(m: &RunnerMessage) -> (r: Vec<u8>)
    requires
        runner_msg_encodable(m@),
    ensures
        r@ == spec_runner_frame(m@),
{
    let payload = encode_runner_payload(m);
    let tag = m.kind().tag();
    make_frame(tag, payload)
}

pub open spec fn decode_result_unit_post(
    p: Seq<u8>,
    r: Result<Result<(), String>, ProtoError>,
) -> bool {
    match (spec_decode_result_unit(p), r) {
        (Some(rv), Ok(res)) => result_unit_view(res) == rv,
        (None, Err(e)) => e@ == ProtoErrorV::Decode,
        _ => false,
    }
}

fn decode_result_unit(p: &[u8]) -> (r: Result<Result<(), String>, ProtoError>)
    ensures
        decode_result_unit_post(p@, r),
{
    if p.len() == 1 && *vstd::slice::slice_index_get(p, 0) == 0 {
        return Ok(Ok(()));
    }
    if p.len() >= 1 && *vstd::slice::slice_index_get(p, 0) == 1 {
        let rest = slice_to_vec(slice_subrange(p, 1, p.len()));
        return match bytes_to_string(rest) {
            Some(s) => Ok(Err(s)),
            None => Err(ProtoError::Decode),
        };
    }
    Err(ProtoError::Decode)
}

pub open spec fn decode_recorder_post(
    body: Seq<u8>,
    expected: RecorderMessageKind,
    r: Result<RecorderMessage, ProtoError>,
) -> bool {
    match (spec_recv_recorder_body(body, expected), r) {
        (Ok(mv), Ok(m)) => m@ == mv,
        (Err(ev), Err(e)) => e@ == ev,
        _ => false,
    }
}

/// Decode a recorder frame body (`[kind][payload]`), enforcing the expected
/// kind.
pub fn decode_recorder_body(body: &Vec<u8>, expected: RecorderMessageKind) -> (r: Result<
    RecorderMessage,
    ProtoError,
>)
    ensures
        decode_recorder_post(body@, expected, r),
{
    if body.len() < 1 {
        return Err(ProtoError::Decode);
    }
    let tag = body[0];
    let k = match RecorderMessageKind::from_tag(tag) {
        Some(k) => k,
        None => {
            return Err(ProtoError::Decode);
        },
    };
    if k != expected {
        return Err(ProtoError::UnexpectedKind { expected: expected.tag(), received: tag });
    }
    let p = slice_subrange(body.as_slice(), 1, body.len());
    match k {
        RecorderMessageKind::Handshake => {
            if p.len() == 1 {
                let b0 = *vstd::slice::slice_index_get(p, 0);
                if b0 == 0 {
                    return Ok(RecorderMessage::Handshake { restart: false });
                }
                if b0 == 1 {
                    return Ok(RecorderMessage::Handshake { restart: true });
                }
            }
            Err(ProtoError::Decode)
        },
        RecorderMessageKind::DownloadBuild => {
            match bytes_to_string(slice_to_vec(p)) {
                Some(s) => Ok(RecorderMessage::DownloadBuild { task_id: s }),
                None => Err(ProtoError::Decode),
            }
        },
        RecorderMessageKind::SendProfile => {
            if p.len() == 1 && *vstd::slice::slice_index_get(p, 0) == 0 {
                return Ok(RecorderMessage::SendProfile { profile_size: None });
            }
            if p.len() == 9 && *vstd::slice::slice_index_get(p, 0) == 1 {
                let n = u64_from_be(slice_subrange(p, 1, 9));
                return Ok(RecorderMessage::SendProfile { profile_size: Some(n) });
            }
            Err(ProtoError::Decode)
        },
    }
}

pub open spec fn decode_runner_post(
    body: Seq<u8>,
    expected: RunnerMessageKind,
    r: Result<RunnerMessage, ProtoError>,
) -> bool {
    match (spec_recv_runner_body(body, expected), r) {
        (Ok(mv), Ok(m)) => m@ == mv,
        (Err(ev), Err(e)) => e@ == ev,
        _ => false,
    }
}

/// Decode a runner frame body (`[kind][payload]`), enforcing the expected
/// kind.
pub fn decode_runner_body(body: &Vec<u8>, expected: RunnerMessageKind) -> (r: Result<
    RunnerMessage,
    ProtoError,
>)
    ensures
        decode_runner_post(body@, expected, r),
{
    if body.len() < 1 {
        return Err(ProtoError::Decode);
    }
    let tag = body[0];
    let k = match RunnerMessageKind::from_tag(tag) {
        Some(k) => k,
        None => {
            return Err(ProtoError::Decode);
        },
    };
    if k != expected {
        return Err(ProtoError::UnexpectedKind { expected: expected.tag(), received: tag });
    }
    let p = slice_subrange(body.as_slice(), 1, body.len());
    match k {
        RunnerMessageKind::HandshakeReply => {
            match decode_result_unit(p) {
                Ok(result) => Ok(RunnerMessage::HandshakeReply { result }),
                Err(e) => Err(e),
            }
        },
        RunnerMessageKind::DownloadBuildReply => {
            match decode_result_unit(p) {
                Ok(result) => Ok(RunnerMessage::DownloadBuildReply { result }),
                Err(e) => Err(e),
            }
        },
        RunnerMessageKind::SendProfileReply => {
            if p.len() == 2 && *vstd::slice::slice_index_get(p, 0) == 0 && *vstd::slice::slice_index_get(p, 1) == 0 {
                return Ok(RunnerMessage::SendProfileReply { result: Ok(None) });
            }
            if p.len() == 3 && *vstd::slice::slice_index_get(p, 0) == 0 && *vstd::slice::slice_index_get(p, 1) == 1 {
                return match DownloadStatus::from_tag(*vstd::slice::slice_index_get(p, 2)) {
                    Some(st) => Ok(RunnerMessage::SendProfileReply { result: Ok(Some(st)) }),
                    None => Err(ProtoError::Decode),
                };
            }
            if p.len() >= 1 && *vstd::slice::slice_index_get(p, 0) == 1 {
                let rest = slice_to_vec(slice_subrange(p, 1, p.len()));
                return match bytes_to_string(rest) {
                    Some(s) => Ok(RunnerMessage::SendProfileReply { result: Err(s) }),
                    None => Err(ProtoError::Decode),
                };
            }
            Err(ProtoError::Decode)
        },
    }
}

pub open spec fn recv_recorder_post(
    data: Seq<u8>,
    start: int,
    expected: RecorderMessageKind,
    r: Result<(RecorderMessage, usize), ProtoError>,
) -> bool {
    match (spec_recv_recorder(data, start, expected), r) {
        (Ok((mv, n)), Ok((m, next))) => m@ == mv && next as int == n,
        (Err(ev), Err(e)) => e@ == ev,
        _ => false,
    }
}

/// Receive one recorder message of the expected kind from the received
/// bytes, starting at `start`; also return the position just after its
/// frame.
pub fn recv_recorder_expecting(data: &Vec<u8>, start: usize, expected: RecorderMessageKind) -> (r:
    Result<(RecorderMessage, usize), ProtoError>)
    requires
        start <= data@.len(),
    ensures
        recv_recorder_post(data@, start as int, expected, r),
{
    let (body, next) = match take_frame(data, start) {
        Ok(x) => x,
        Err(e) => {
            return Err(e);
        },
    };
    match decode_recorder_body(&body, expected) {
        Ok(m) => Ok((m, next)),
        Err(e) => Err(e),
    }
}

pub open spec fn recv_runner_post(
    data: Seq<u8>,
    start: int,
    expected: RunnerMessageKind,
    r: Result<(RunnerMessage, usize), ProtoError>,
) -> bool {
    match (spec_recv_runner(data, start, expected), r) {
        (Ok((mv, n)), Ok((m, next))) => m@ == mv && next as int == n,
        (Err(ev), Err(e)) => e@ == ev,
        _ => false,
    }
}

/// Receive one runner message of the expected kind from the received bytes,
/// starting at `start`; also return the position just after its frame.
pub fn recv_runner_expecting(data: &Vec<u8>, start: usize, expected: RunnerMessageKind) -> (r:
    Result<(RunnerMessage, usize), ProtoError>)
    requires
        start <= data@.len(),
    ensures
        recv_runner_post(data@, start as int, expected, r),
{
    let (body, next) = match take_frame(data, start) {
        Ok(x) => x,
        Err(e) => {
            return Err(e);
        },
    };
    match decode_runner_body(&body, expected) {
        Ok(m) => Ok((m, next)),
        Err(e) => Err(e),
    }
}

proof fn lemma_take_frame_of_frame(tag: u8, payload: Seq<u8>)
    requires
        payload.len() + 1 <= u32::MAX,
    ensures
        spec_take_frame(spec_frame(tag, payload), 0) matches Ok(p) && p.0 == seq![tag] + payload
            && p.1 == spec_frame(tag, payload).len(),
{
    let f = spec_frame(tag, payload);
    let len32 = (payload.len() + 1) as u32;
    lemma_u32_be_round_trip(len32);
    assert(f.subrange(0, 4) =~= spec_u32_to_be(len32));
    assert(f.len() - 4 == len32 as int);
    assert(f.subrange(4, 4 + (len32 as int)) =~= seq![tag] + payload);
}

proof fn lemma_kind_tag_round_trip_rec(k: RecorderMessageKind)
    ensures
        RecorderMessageKind::spec_from_tag(k.spec_tag()) == Some(k),
{
    match k {
        RecorderMessageKind::Handshake => {},
        RecorderMessageKind::DownloadBuild => {},
        RecorderMessageKind::SendProfile => {},
    }
}

proof fn lemma_kind_tag_round_trip_run(k: RunnerMessageKind)
    ensures
        RunnerMessageKind::spec_from_tag(k.spec_tag()) == Some(k),
{
    match k {
        RunnerMessageKind::HandshakeReply => {},
        RunnerMessageKind::DownloadBuildReply => {},
        RunnerMessageKind::SendProfileReply => {},
    }
}

proof fn lemma_decode_result_unit_inverse(r: Result<(), Seq<char>>)
    ensures
        spec_decode_result_unit(spec_result_unit_payload(r)) == Some(r),
{
    broadcast use vstd::utf8::encode_utf8_valid_utf8, vstd::utf8::encode_utf8_decode_utf8;

    match r {
        Ok(u) => {
            assert(u == ());
            assert(r == Ok::<(), Seq<char>>(()));
            let p = spec_result_unit_payload(r);
            assert(p =~= seq![0u8]);
            assert(p.len() == 1 && p[0] == 0u8);
            assert(spec_decode_result_unit(p) == Some(Ok::<(), Seq<char>>(())));
        },
        Err(e) => {
            let p = seq![1u8] + encode_utf8(e);
            assert(p[0] == 1u8);
            assert(p.subrange(1, p.len() as int) =~= encode_utf8(e));
        },
    }
}

proof fn lemma_decode_recorder_payload_inverse(m: RecorderMessageV)
    ensures
        spec_decode_recorder_payload(m.kind(), spec_recorder_payload(m)) == Some(m),
{
    broadcast use vstd::utf8::encode_utf8_valid_utf8, vstd::utf8::encode_utf8_decode_utf8;

    match m {
        RecorderMessageV::Handshake { restart } => {},
        RecorderMessageV::DownloadBuild { task_id } => {},
        RecorderMessageV::SendProfile { profile_size } => {
            match profile_size {
                None => {},
                Some(n) => {
                    let p = seq![1u8] + spec_u64_to_be(n);
                    assert(p.len() == 9);
                    assert(p[0] == 1u8);
                    assert(p.subrange(1, 9) =~= spec_u64_to_be(n));
                    lemma_u64_be_round_trip(n);
                },
            }
        },
    }
}

proof fn lemma_decode_runner_payload_inverse(m: RunnerMessageV)
    ensures
        spec_decode_runner_payload(m.kind(), spec_runner_payload(m)) == Some(m),
{
    broadcast use vstd::utf8::encode_utf8_valid_utf8, vstd::utf8::encode_utf8_decode_utf8;

    match m {
        RunnerMessageV::HandshakeReply { result } => {
            lemma_decode_result_unit_inverse(result);
        },
        RunnerMessageV::DownloadBuildReply { result } => {
            lemma_decode_result_unit_inverse(result);
        },
        RunnerMessageV::SendProfileReply { result } => {
            match result {
                Ok(None) => {},
                Ok(Some(st)) => {
                    let p = seq![0u8, 1u8, st.spec_tag()];
                    assert(DownloadStatus::spec_from_tag(st.spec_tag()) == Some(st)) by {
                        match st {
                            DownloadStatus::Downloading => {},
                            DownloadStatus::Downloaded => {},
                            DownloadStatus::Extracted => {},
                        }
                    }
                },
                Err(e) => {
                    let p = seq![1u8] + encode_utf8(e);
                    assert(p[0] == 1u8);
                    assert(p.subrange(1, p.len() as int) =~= encode_utf8(e));
                },
            }
        },
    }
}

proof fn lemma_take_frame_of_frame_prefix(tag: u8, payload: Seq<u8>, rest: Seq<u8>)
    requires
        payload.len() + 1 <= u32::MAX,
    ensures
        spec_take_frame(spec_frame(tag, payload) + rest, 0) matches Ok(p) && p.0 == seq![tag]
            + payload && p.1 == spec_frame(tag, payload).len(),
{
    let f = spec_frame(tag, payload) + rest;
    let len32 = (payload.len() + 1) as u32;
    lemma_u32_be_round_trip(len32);
    assert(f.subrange(0, 4) =~= spec_u32_to_be(len32));
    assert(f.len() - 4 >= len32 as int);
    assert(f.subrange(4, 4 + (len32 as int)) =~= seq![tag] + payload);
}

/// Receiving from a stream that starts with a runner frame: whatever bytes
/// follow the frame, the frame alone decides the message, and the position
/// after it is exactly the frame's end.
pub proof fn lemma_runner_frame_round_trip_prefix(m: RunnerMessageV, rest: Seq<u8>)
    requires
        runner_msg_encodable(m),
    ensures
        spec_recv_runner(spec_runner_frame(m) + rest, 0, m.kind()) matches Ok(p) && p.0 == m && p.1
            == spec_runner_frame(m).len(),
{
    let payload = spec_runner_payload(m);
    let tag = m.kind().spec_tag();
    lemma_take_frame_of_frame_prefix(tag, payload, rest);
    let body = seq![tag] + payload;
    assert(body[0] == tag);
    lemma_kind_tag_round_trip_run(m.kind());
    assert(body.subrange(1, body.len() as int) =~= payload);
    lemma_decode_runner_payload_inverse(m);
}

/// Frame round-trip, matching kind: receiving with the sent message's own
/// kind yields that message back and consumes exactly its frame.
pub proof fn lemma_recorder_frame_round_trip(m: RecorderMessageV)
    requires
        recorder_msg_encodable(m),
    ensures
        spec_recv_recorder(spec_recorder_frame(m), 0, m.kind()) matches Ok(p) && p.0 == m && p.1
            == spec_recorder_frame(m).len(),
{
    let payload = spec_recorder_payload(m);
    let tag = m.kind().spec_tag();
    lemma_take_frame_of_frame(tag, payload);
    let body = seq![tag] + payload;
    assert(body[0] == tag);
    lemma_kind_tag_round_trip_rec(m.kind());
    assert(body.subrange(1, body.len() as int) =~= payload);
    lemma_decode_recorder_payload_inverse(m);
}

/// Frame round-trip, mismatched kind: receiving while expecting any other
/// kind fails with exactly the expected/received pair of wire tags.
pub proof fn lemma_recorder_frame_kind_mismatch(m: RecorderMessageV, expected: RecorderMessageKind)
    requires
        recorder_msg_encodable(m),
        expected != m.kind(),
    ensures
        spec_recv_recorder(spec_recorder_frame(m), 0, expected) matches Err(e) && e == (
        ProtoErrorV::UnexpectedKind {
            expected: expected.spec_tag(),
            received: m.kind().spec_tag(),
        }),
{
    let payload = spec_recorder_payload(m);
    let tag = m.kind().spec_tag();
    lemma_take_frame_of_frame(tag, payload);
    let body = seq![tag] + payload;
    assert(body[0] == tag);
    lemma_kind_tag_round_trip_rec(m.kind());
}

/// Frame round-trip, matching kind, for the runner-to-recorder direction.
pub proof fn lemma_runner_frame_round_trip(m: RunnerMessageV)
    requires
        runner_msg_encodable(m),
    ensures
        spec_recv_runner(spec_runner_frame(m), 0, m.kind()) matches Ok(p) && p.0 == m && p.1
            == spec_runner_frame(m).len(),
{
    let payload = spec_runner_payload(m);
    let tag = m.kind().spec_tag();
    lemma_take_frame_of_frame(tag, payload);
    let body = seq![tag] + payload;
    assert(body[0] == tag);
    lemma_kind_tag_round_trip_run(m.kind());
    assert(body.subrange(1, body.len() as int) =~= payload);
    lemma_decode_runner_payload_inverse(m);
}

/// Frame round-trip, mismatched kind, for the runner-to-recorder direction.
pub proof fn lemma_runner_frame_kind_mismatch(m: RunnerMessageV, expected: RunnerMessageKind)
    requires
        runner_msg_encodable(m),
        expected != m.kind(),
    ensures
        spec_recv_runner(spec_runner_frame(m), 0, expected) matches Err(e) && e == (
        ProtoErrorV::UnexpectedKind {
            expected: expected.spec_tag(),
            received: m.kind().spec_tag(),
        }),
{
    let payload = spec_runner_payload(m);
    let tag = m.kind().spec_tag();
    lemma_take_frame_of_frame(tag, payload);
    let body = seq![tag] + payload;
    assert(body[0] == tag);
    lemma_kind_tag_round_trip_run(m.kind());
}

} // verus!
