//! Recorder-side procedures: driving the handshake, the build download and
//! the profile upload, and judging every reply.
//!
//! The receive side of each procedure is a function over the bytes the
//! runner has sent on the connection, so the whole reply-checking logic is
//! plain byte-in, value-out. A foreign error in a reply payload fails the
//! procedure with the runner's own message; during the profile upload, any
//! status out of the required order fails with the exact expected/received
//! pair, and nothing after it is read.

use crate::codec::{
    spec_recv_runner, recv_runner_expecting, ProtoError, ProtoErrorV,
};
use crate::messages::{
    DownloadStatus, RecorderMessage, RecorderMessageV, RunnerMessage, RunnerMessageKind,
    RunnerMessageV,
};
use vstd::prelude::*;

verus! {

/// A failure of a recorder procedure.
#[derive(Debug)]
pub enum RecorderProtoError {
    /// The control link or the peer failed.
    Proto(ProtoError),
    /// The runner's status sequence diverged from the required order.
    SendProfileMismatch {
        expected: Option<DownloadStatus>,
        received: Option<DownloadStatus>,
    },
}

/// Spec-level twin of [`RecorderProtoError`].
#[verifier::ext_equal]
pub enum RecorderProtoErrorV {
    Proto(ProtoErrorV),
    SendProfileMismatch {
        expected: Option<DownloadStatus>,
        received: Option<DownloadStatus>,
    },
}

impl View for RecorderProtoError {
    type V = RecorderProtoErrorV;

    open spec fn view(&self) -> RecorderProtoErrorV {
        match self {
            RecorderProtoError::Proto(e) => RecorderProtoErrorV::Proto(e@),
            RecorderProtoError::SendProfileMismatch { expected, received } => (
            RecorderProtoErrorV::SendProfileMismatch {
                expected: *expected,
                received: *received,
            }),
        }
    }
}

/// The recorder's session states. A session moves through them in one
/// fixed order, each step completed by one procedure: the first handshake
/// (with restart), the reconnect across the runner's reboot, the second
/// handshake (without restart), the build download, and the profile
/// transfer. In particular no request goes out on the second connection
/// before the second handshake has completed.
#[derive(Clone, Copy, Debug, PartialEq, Eq, Structural)]
pub enum SessionState {
    Fresh,
    Handshook1,
    Reconnected,
    Handshook2,
    BuildDownloaded,
    ProfileSent,
    Done,
}

impl SessionState {
    /// The only state a completed step may lead to; `None` once done.
    pub open spec fn spec_successor(self) -> Option<SessionState> {
        match self {
            SessionState::Fresh => Some(SessionState::Handshook1),
            SessionState::Handshook1 => Some(SessionState::Reconnected),
            SessionState::Reconnected => Some(SessionState::Handshook2),
            SessionState::Handshook2 => Some(SessionState::BuildDownloaded),
            SessionState::BuildDownloaded => Some(SessionState::ProfileSent),
            SessionState::ProfileSent => Some(SessionState::Done),
            SessionState::Done => None,
        }
    }

    pub fn successor(self) -> (n: Option<SessionState>)
        ensures
            n == self.spec_successor(),
    {
        match self {
            SessionState::Fresh => Some(SessionState::Handshook1),
            SessionState::Handshook1 => Some(SessionState::Reconnected),
            SessionState::Reconnected => Some(SessionState::Handshook2),
            SessionState::Handshook2 => Some(SessionState::BuildDownloaded),
            SessionState::BuildDownloaded => Some(SessionState::ProfileSent),
            SessionState::ProfileSent => Some(SessionState::Done),
            SessionState::Done => None,
        }
    }
}

/// The handshake request. The recorder asks for a restart on its first
/// connection and for none after reconnecting.
pub fn handshake_request(restart: bool) -> (m: RecorderMessage)
    ensures
        m@ == (RecorderMessageV::Handshake { restart }),
{
    RecorderMessage::Handshake { restart }
}

/// The build-download request, carrying the task id verbatim.
pub fn download_build_request(task_id: String) -> (m: RecorderMessage)
    ensures
        m@ == (RecorderMessageV::DownloadBuild { task_id: task_id@ }),
{
    RecorderMessage::DownloadBuild { task_id }
}

/// The profile announcement: `None` for no profile, `Some(n)` when exactly
/// `n` raw bytes will follow.
pub fn send_profile_request(profile_size: Option<u64>) -> (m: RecorderMessage)
    ensures
        m@ == (RecorderMessageV::SendProfile { profile_size }),
{
    RecorderMessage::SendProfile { profile_size }
}

/// The view of a procedure outcome.
pub open spec fn unit_outcome_view(r: Result<(), RecorderProtoError>) -> Result<
    (),
    RecorderProtoErrorV,
> {
    match r {
        Ok(()) => Ok(()),
        Err(e) => Err(e@),
    }
}

/// Judging a reply that carries `Result<(), ForeignError>`: an `Err`
/// payload fails the procedure with the runner's message, verbatim.
pub open spec fn spec_unit_reply_outcome(result: Result<(), Seq<char>>) -> Result<
    (),
    RecorderProtoErrorV,
> {
    match result {
        Ok(()) => Ok(()),
        Err(m) => Err(RecorderProtoErrorV::Proto(ProtoErrorV::Foreign(m))),
    }
}

/// Judge a handshake reply.
pub fn handshake_outcome(reply: &RunnerMessage) -> (r: Result<(), RecorderProtoError>)
    requires
        reply@ is HandshakeReply,
    ensures
        reply@ matches RunnerMessageV::HandshakeReply { result } ==> unit_outcome_view(r)
            == spec_unit_reply_outcome(result),
{
    match reply {
        RunnerMessage::HandshakeReply { result } => match result {
            Ok(()) => Ok(()),
            Err(m) => Err(RecorderProtoError::Proto(ProtoError::Foreign(m.clone()))),
        },
        _ => Err(RecorderProtoError::Proto(ProtoError::Decode)),
    }
}

/// Judge a build-download reply.
pub fn download_build_outcome(reply: &RunnerMessage) -> (r: Result<(), RecorderProtoError>)
    requires
        reply@ is DownloadBuildReply,
    ensures
        reply@ matches RunnerMessageV::DownloadBuildReply { result } ==> unit_outcome_view(r)
            == spec_unit_reply_outcome(result),
{
    match reply {
        RunnerMessage::DownloadBuildReply { result } => match result {
            Ok(()) => Ok(()),
            Err(m) => Err(RecorderProtoError::Proto(ProtoError::Foreign(m.clone()))),
        },
        _ => Err(RecorderProtoError::Proto(ProtoError::Decode)),
    }
}

/// Judging one status reply of the profile procedure: a foreign error fails
/// with the runner's message; any status other than the expected one fails
/// with the exact expected/received pair; only the expected status lets the
/// procedure go on.
pub open spec fn spec_expect_status(
    expected: Option<DownloadStatus>,
    result: Result<Option<DownloadStatus>, Seq<char>>,
) -> Result<(), RecorderProtoErrorV> {
    match result {
        Err(m) => Err(RecorderProtoErrorV::Proto(ProtoErrorV::Foreign(m))),
        Ok(received) => {
            if received == expected {
                Ok(())
            } else {
                Err(RecorderProtoErrorV::SendProfileMismatch { expected, received })
            }
        },
    }
}

/// Status-sequence contract: whenever the runner reports a status other
/// than the one the required order expects next, the recorder fails with
/// exactly that expected/received pair; the expected status, and only it,
/// lets the procedure proceed.
pub proof fn lemma_status_sequence_contract(
    expected: Option<DownloadStatus>,
    received: Option<DownloadStatus>,
)
    ensures
        received != expected ==> (spec_expect_status(expected, Ok(received)) matches Err(e) && e
            == (RecorderProtoErrorV::SendProfileMismatch { expected, received })),
        received == expected ==> spec_expect_status(expected, Ok(received)) is Ok,
{
}

/// Enforce one status checkpoint of the profile procedure.
pub fn expect_profile_status(expected: Option<DownloadStatus>, reply: &RunnerMessage) -> (r: Result<
    (),
    RecorderProtoError,
>)
    requires
        reply@ is SendProfileReply,
    ensures
        reply@ matches RunnerMessageV::SendProfileReply { result } ==> unit_outcome_view(r)
            == spec_expect_status(expected, result),
{
    match reply {
        RunnerMessage::SendProfileReply { result } => match result {
            Err(m) => Err(RecorderProtoError::Proto(ProtoError::Foreign(m.clone()))),
            Ok(received) => {
                let same = match (received, &expected) {
                    (None, None) => true,
                    (Some(a), Some(b)) => *a == *b,
                    _ => false,
                };
                if same {
                    Ok(())
                } else {
                    Err(RecorderProtoError::SendProfileMismatch { expected, received: *received })
                }
            },
        },
        _ => Err(RecorderProtoError::Proto(ProtoError::Decode)),
    }
}

/// The receive side of the handshake: read the reply, which must be a
/// handshake reply, and surface a foreign error.
pub open spec fn spec_handshake_check(data: Seq<u8>, start: int) -> Result<
    int,
    RecorderProtoErrorV,
> {
    match spec_recv_runner(data, start, RunnerMessageKind::HandshakeReply) {
        Err(e) => Err(RecorderProtoErrorV::Proto(e)),
        Ok((m, next)) => match m {
            RunnerMessageV::HandshakeReply { result } => match spec_unit_reply_outcome(result) {
                Ok(()) => Ok(next),
                Err(e) => Err(e),
            },
            _ => Err(RecorderProtoErrorV::Proto(ProtoErrorV::Decode)),
        },
    }
}

pub open spec fn handshake_check_post(
    data: Seq<u8>,
    start: int,
    r: Result<usize, RecorderProtoError>,
) -> bool {
    match (spec_handshake_check(data, start), r) {
        (Ok(n), Ok(next)) => next as int == n && n <= data.len(),
        (Err(ev), Err(e)) => e@ == ev,
        _ => false,
    }
}

/// Read and judge the handshake reply from the received bytes.
pub fn handshake_check_reply(data: &Vec<u8>, start: usize) -> (r: Result<
    usize,
    RecorderProtoError,
>)
    requires
        start <= data@.len(),
    ensures
        handshake_check_post(data@, start as int, r),
{
    let (reply, next) = match recv_runner_expecting(data, start, RunnerMessageKind::HandshakeReply) {
        Ok(x) => x,
        Err(e) => {
            return Err(RecorderProtoError::Proto(e));
        },
    };
    match handshake_outcome(&reply) {
        Ok(()) => Ok(next),
        Err(e) => Err(e),
    }
}

/// The receive side of the build download: read the reply, which must be a
/// build-download reply, and surface a foreign error.
pub open spec fn spec_download_build_check(data: Seq<u8>, start: int) -> Result<
    int,
    RecorderProtoErrorV,
> {
    match spec_recv_runner(data, start, RunnerMessageKind::DownloadBuildReply) {
        Err(e) => Err(RecorderProtoErrorV::Proto(e)),
        Ok((m, next)) => match m {
            RunnerMessageV::DownloadBuildReply { result } => match spec_unit_reply_outcome(
                result,
            ) {
                Ok(()) => Ok(next),
                Err(e) => Err(e),
            },
            _ => Err(RecorderProtoErrorV::Proto(ProtoErrorV::Decode)),
        },
    }
}

pub open spec fn download_build_check_post(
    data: Seq<u8>,
    start: int,
    r: Result<usize, RecorderProtoError>,
) -> bool {
    match (spec_download_build_check(data, start), r) {
        (Ok(n), Ok(next)) => next as int == n && n <= data.len(),
        (Err(ev), Err(e)) => e@ == ev,
        _ => false,
    }
}

/// Read and judge the build-download reply from the received bytes.
pub fn download_build_check_reply(data: &Vec<u8>, start: usize) -> (r: Result<
    usize,
    RecorderProtoError,
>)
    requires
        start <= data@.len(),
    ensures
        download_build_check_post(data@, start as int, r),
{
    let (reply, next) = match recv_runner_expecting(
        data,
        start,
        RunnerMessageKind::DownloadBuildReply,
    ) {
        Ok(x) => x,
        Err(e) => {
            return Err(RecorderProtoError::Proto(e));
        },
    };
    match download_build_outcome(&reply) {
        Ok(()) => Ok(next),
        Err(e) => Err(e),
    }
}

/// One receive-and-judge step of the profile procedure: read the next
/// reply, which must be a profile status, and hold it to the expected one.
pub open spec fn spec_profile_reply_step(
    expected: Option<DownloadStatus>,
    data: Seq<u8>,
    start: int,
) -> Result<int, RecorderProtoErrorV> {
    match spec_recv_runner(data, start, RunnerMessageKind::SendProfileReply) {
        Err(e) => Err(RecorderProtoErrorV::Proto(e)),
        Ok((m, next)) => match m {
            RunnerMessageV::SendProfileReply { result } => match spec_expect_status(
                expected,
                result,
            ) {
                Ok(()) => Ok(next),
                Err(e) => Err(e),
            },
            _ => Err(RecorderProtoErrorV::Proto(ProtoErrorV::Decode)),
        },
    }
}

/// The receive side of the whole profile procedure: without a profile, one
/// reply that must be `Ok(None)`; with one, the three statuses in order.
/// The first divergence fails the procedure and nothing after it is read.
pub open spec fn spec_send_profile_replies(
    size: Option<u64>,
    data: Seq<u8>,
    start: int,
) -> Result<int, RecorderProtoErrorV> {
    match size {
        None => spec_profile_reply_step(None, data, start),
        Some(_) => match spec_profile_reply_step(
            Some(DownloadStatus::Downloading),
            data,
            start,
        ) {
            Err(e) => Err(e),
            Ok(p1) => match spec_profile_reply_step(Some(DownloadStatus::Downloaded), data, p1) {
                Err(e) => Err(e),
                Ok(p2) => spec_profile_reply_step(Some(DownloadStatus::Extracted), data, p2),
            },
        },
    }
}

pub open spec fn profile_step_post(
    expected: Option<DownloadStatus>,
    data: Seq<u8>,
    start: int,
    r: Result<usize, RecorderProtoError>,
) -> bool {
    match (spec_profile_reply_step(expected, data, start), r) {
        (Ok(n), Ok(next)) => next as int == n && n <= data.len(),
        (Err(ev), Err(e)) => e@ == ev,
        _ => false,
    }
}

/// Read one status reply from the received bytes and hold it to the
/// expected status.
pub fn profile_reply_step(
    expected: Option<DownloadStatus>,
    data: &Vec<u8>,
    start: usize,
) -> (r: Result<usize, RecorderProtoError>)
    requires
        start <= data@.len(),
    ensures
        profile_step_post(expected, data@, start as int, r),
{
    let (reply, next) = match recv_runner_expecting(
        data,
        start,
        RunnerMessageKind::SendProfileReply,
    ) {
        Ok(x) => x,
        Err(e) => {
            return Err(RecorderProtoError::Proto(e));
        },
    };
    match expect_profile_status(expected, &reply) {
        Ok(()) => Ok(next),
        Err(e) => Err(e),
    }
}

/// Status-sequence contract at the procedure level: when the runner's
/// first status reply diverges from the required order, the whole profile
/// procedure fails with exactly that expected/received pair — whatever
/// bytes follow the divergent reply, none of them are read.
pub proof fn lemma_divergent_status_stops_procedure(
    size: u64,
    st: Option<DownloadStatus>,
    rest: Seq<u8>,
)
    requires
        st != Some(DownloadStatus::Downloading),
    ensures
        ({
            let reply = RunnerMessageV::SendProfileReply { result: Ok(st) };
            spec_send_profile_replies(
                Some(size),
                crate::codec::spec_runner_frame(reply) + rest,
                0,
            ) matches Err(e) && e == (RecorderProtoErrorV::SendProfileMismatch {
                expected: Some(DownloadStatus::Downloading),
                received: st,
            })
        }),
{
    let reply = RunnerMessageV::SendProfileReply { result: Ok(st) };
    assert(crate::codec::spec_runner_payload(reply).len() <= 3);
    crate::codec::lemma_runner_frame_round_trip_prefix(reply, rest);
    lemma_status_sequence_contract(Some(DownloadStatus::Downloading), st);
}

pub open spec fn send_profile_replies_post(
    size: Option<u64>,
    data: Seq<u8>,
    start: int,
    r: Result<usize, RecorderProtoError>,
) -> bool {
    match (spec_send_profile_replies(size, data, start), r) {
        (Ok(n), Ok(next)) => next as int == n,
        (Err(ev), Err(e)) => e@ == ev,
        _ => false,
    }
}

/// The receive side of the recorder's profile procedure, over the bytes
/// received from the runner; returns the position just after the last
/// status reply. The raw bytes themselves flow in the other direction and
/// consume nothing here.
pub fn send_profile_check_replies(
    profile_size: Option<u64>,
    data: &Vec<u8>,
    start: usize,
) -> (r: Result<usize, RecorderProtoError>)
    requires
        start <= data@.len(),
    ensures
        send_profile_replies_post(profile_size, data@, start as int, r),
{
    match profile_size {
        None => profile_reply_step(None, data, start),
        Some(_) => {
            let p1 = match profile_reply_step(Some(DownloadStatus::Downloading), data, start) {
                Ok(p) => p,
                Err(e) => {
                    return Err(e);
                },
            };
            let p2 = match profile_reply_step(Some(DownloadStatus::Downloaded), data, p1) {
                Ok(p) => p,
                Err(e) => {
                    return Err(e);
                },
            };
            profile_reply_step(Some(DownloadStatus::Extracted), data, p2)
        },
    }
}

} // verus!
