//! Typed messages of the recorder/runner protocol.
//!
//! Two disjoint directional enums carry the control messages; each variant
//! has a kind, and each kind a stable one-byte tag used on the wire. A
//! message with a `String` field is modelled by a spec-level twin whose
//! fields are sequences of characters.

use vstd::prelude::*;

verus! {

/// Progress of a profile transfer, as reported by the runner.
///
/// When a profile is sent, the runner must report `Downloading`,
/// `Downloaded` and `Extracted`, in that order, one per reply.
#[derive(Clone, Copy, Debug, PartialEq, Eq, Structural)]
pub enum DownloadStatus {
    Downloading,
    Downloaded,
    Extracted,
}

impl DownloadStatus {
    /// The one-byte tag of this status inside a `SendProfileReply` payload.
    pub open spec fn spec_tag(self) -> u8 {
        match self {
            DownloadStatus::Downloading => 0u8,
            DownloadStatus::Downloaded => 1u8,
            DownloadStatus::Extracted => 2u8,
        }
    }

    pub open spec fn spec_from_tag(t: u8) -> Option<DownloadStatus> {
        if t == 0u8 {
            Some(DownloadStatus::Downloading)
        } else if t == 1u8 {
            Some(DownloadStatus::Downloaded)
        } else if t == 2u8 {
            Some(DownloadStatus::Extracted)
        } else {
            None
        }
    }

    pub fn tag(self) -> (t: u8)
        ensures
            t == self.spec_tag(),
    {
        match self {
            DownloadStatus::Downloading => 0,
            DownloadStatus::Downloaded => 1,
            DownloadStatus::Extracted => 2,
        }
    }

    pub fn from_tag(t: u8) -> (s: Option<DownloadStatus>)
        ensures
            s == DownloadStatus::spec_from_tag(t),
    {
        if t == 0 {
            Some(DownloadStatus::Downloading)
        } else if t == 1 {
            Some(DownloadStatus::Downloaded)
        } else if t == 2 {
            Some(DownloadStatus::Extracted)
        } else {
            None
        }
    }
}

/// Kinds of the recorder-to-runner messages.
#[derive(Clone, Copy, Debug, PartialEq, Eq, Structural)]
pub enum RecorderMessageKind {
    Handshake,
    DownloadBuild,
    SendProfile,
}

impl RecorderMessageKind {
    /// The wire tag of this kind; tags are assigned once and never reused.
    pub open spec fn spec_tag(self) -> u8 {
        match self {
            RecorderMessageKind::Handshake => 0u8,
            RecorderMessageKind::DownloadBuild => 1u8,
            RecorderMessageKind::SendProfile => 2u8,
        }
    }

    pub open spec fn spec_from_tag(t: u8) -> Option<RecorderMessageKind> {
        if t == 0u8 {
            Some(RecorderMessageKind::Handshake)
        } else if t == 1u8 {
            Some(RecorderMessageKind::DownloadBuild)
        } else if t == 2u8 {
            Some(RecorderMessageKind::SendProfile)
        } else {
            None
        }
    }

    pub fn tag(self) -> (t: u8)
        ensures
            t == self.spec_tag(),
    {
        match self {
            RecorderMessageKind::Handshake => 0,
            RecorderMessageKind::DownloadBuild => 1,
            RecorderMessageKind::SendProfile => 2,
        }
    }

    pub fn from_tag(t: u8) -> (k: Option<RecorderMessageKind>)
        ensures
            k == RecorderMessageKind::spec_from_tag(t),
    {
        if t == 0 {
            Some(RecorderMessageKind::Handshake)
        } else if t == 1 {
            Some(RecorderMessageKind::DownloadBuild)
        } else if t == 2 {
            Some(RecorderMessageKind::SendProfile)
        } else {
            None
        }
    }
}

/// Kinds of the runner-to-recorder messages.
#[derive(Clone, Copy, Debug, PartialEq, Eq, Structural)]
pub enum RunnerMessageKind {
    HandshakeReply,
    DownloadBuildReply,
    SendProfileReply,
}

impl RunnerMessageKind {
    /// The wire tag of this kind; tags are assigned once and never reused.
    pub open spec fn spec_tag(self) -> u8 {
        match self {
            RunnerMessageKind::HandshakeReply => 0u8,
            RunnerMessageKind::DownloadBuildReply => 1u8,
            RunnerMessageKind::SendProfileReply => 2u8,
        }
    }

    pub open spec fn spec_from_tag(t: u8) -> Option<RunnerMessageKind> {
        if t == 0u8 {
            Some(RunnerMessageKind::HandshakeReply)
        } else if t == 1u8 {
            Some(RunnerMessageKind::DownloadBuildReply)
        } else if t == 2u8 {
            Some(RunnerMessageKind::SendProfileReply)
        } else {
            None
        }
    }

    pub fn tag(self) -> (t: u8)
        ensures
            t == self.spec_tag(),
    {
        match self {
            RunnerMessageKind::HandshakeReply => 0,
            RunnerMessageKind::DownloadBuildReply => 1,
            RunnerMessageKind::SendProfileReply => 2,
        }
    }

    pub fn from_tag(t: u8) -> (k: Option<RunnerMessageKind>)
        ensures
            k == RunnerMessageKind::spec_from_tag(t),
    {
        if t == 0 {
            Some(RunnerMessageKind::HandshakeReply)
        } else if t == 1 {
            Some(RunnerMessageKind::DownloadBuildReply)
        } else if t == 2 {
            Some(RunnerMessageKind::SendProfileReply)
        } else {
            None
        }
    }
}

/// A control message sent by the recorder to the runner.
#[derive(Debug)]
pub enum RecorderMessage {
    /// Ask the runner to restart the host first (`restart == true`) or to
    /// reply immediately (`restart == false`).
    Handshake { restart: bool },
    /// Ask the runner to fetch the build of this artifact-service task.
    DownloadBuild { task_id: String },
    /// Announce a profile transfer: `None` means no profile this session,
    /// `Some(n)` means exactly `n` raw bytes follow this message.
    SendProfile { profile_size: Option<u64> },
}

/// Spec-level twin of [`RecorderMessage`].
#[verifier::ext_equal]
pub enum RecorderMessageV {
    Handshake { restart: bool },
    DownloadBuild { task_id: Seq<char> },
    SendProfile { profile_size: Option<u64> },
}

impl View for RecorderMessage {
    type V = RecorderMessageV;

    open spec fn view(&self) -> RecorderMessageV {
        match self {
            RecorderMessage::Handshake { restart } => RecorderMessageV::Handshake {
                restart: *restart,
            },
            RecorderMessage::DownloadBuild { task_id } => RecorderMessageV::DownloadBuild {
                task_id: task_id@,
            },
            RecorderMessage::SendProfile { profile_size } => RecorderMessageV::SendProfile {
                profile_size: *profile_size,
            },
        }
    }
}

impl RecorderMessageV {
    pub open spec fn kind(self) -> RecorderMessageKind {
        match self {
            RecorderMessageV::Handshake { .. } => RecorderMessageKind::Handshake,
            RecorderMessageV::DownloadBuild { .. } => RecorderMessageKind::DownloadBuild,
            RecorderMessageV::SendProfile { .. } => RecorderMessageKind::SendProfile,
        }
    }
}

impl RecorderMessage {
    pub fn kind(&self) -> (k: RecorderMessageKind)
        ensures
            k == self@.kind(),
    {
        match self {
            RecorderMessage::Handshake { .. } => RecorderMessageKind::Handshake,
            RecorderMessage::DownloadBuild { .. } => RecorderMessageKind::DownloadBuild,
            RecorderMessage::SendProfile { .. } => RecorderMessageKind::SendProfile,
        }
    }
}

/// A control message sent by the runner to the recorder.
///
/// An `Err` payload carries a foreign error: the remote peer's failure,
/// already turned into its message text.
#[derive(Debug)]
pub enum RunnerMessage {
    HandshakeReply { result: Result<(), String> },
    DownloadBuildReply { result: Result<(), String> },
    SendProfileReply { result: Result<Option<DownloadStatus>, String> },
}

/// Spec-level twin of [`RunnerMessage`].
#[verifier::ext_equal]
pub enum RunnerMessageV {
    HandshakeReply { result: Result<(), Seq<char>> },
    DownloadBuildReply { result: Result<(), Seq<char>> },
    SendProfileReply { result: Result<Option<DownloadStatus>, Seq<char>> },
}

impl View for RunnerMessage {
    type V = RunnerMessageV;

    open spec fn view(&self) -> RunnerMessageV {
        match self {
            RunnerMessage::HandshakeReply { result } => RunnerMessageV::HandshakeReply {
                result: match result {
                    Ok(()) => Ok(()),
                    Err(e) => Err(e@),
                },
            },
            RunnerMessage::DownloadBuildReply { result } => RunnerMessageV::DownloadBuildReply {
                result: match result {
                    Ok(()) => Ok(()),
                    Err(e) => Err(e@),
                },
            },
            RunnerMessage::SendProfileReply { result } => RunnerMessageV::SendProfileReply {
                result: match result {
                    Ok(s) => Ok(*s),
                    Err(e) => Err(e@),
                },
            },
        }
    }
}

impl RunnerMessageV {
    pub open spec fn kind(self) -> RunnerMessageKind {
        match self {
            RunnerMessageV::HandshakeReply { .. } => RunnerMessageKind::HandshakeReply,
            RunnerMessageV::DownloadBuildReply { .. } => RunnerMessageKind::DownloadBuildReply,
            RunnerMessageV::SendProfileReply { .. } => RunnerMessageKind::SendProfileReply,
        }
    }
}

impl RunnerMessage {
    pub fn kind(&self) -> (k: RunnerMessageKind)
        ensures
            k == self@.kind(),
    {
        match self {
            RunnerMessage::HandshakeReply { .. } => RunnerMessageKind::HandshakeReply,
            RunnerMessage::DownloadBuildReply { .. } => RunnerMessageKind::DownloadBuildReply,
            RunnerMessage::SendProfileReply { .. } => RunnerMessageKind::SendProfileReply,
        }
    }
}

} // verus!
