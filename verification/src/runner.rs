//! Runner-side procedures: serving the handshake (with the restart
//! capability), the build download (with the artifact-service capability),
//! and the profile transfer.
//!
//! The two capabilities are injected so that deployments can plug in the
//! real restart and HTTP client while tests inject deterministic stubs.
//! Every local failure is reported to the recorder as a foreign error
//! carrying the failure's message text, and returned locally in its
//! structured form.

use crate::codec::ProtoError;
use crate::messages::{DownloadStatus, RunnerMessage, RunnerMessageV};
use vstd::prelude::*;

verus! {

/// What the artifact service says about one artifact: its name, and its
/// expiry as seconds since the Unix epoch. An artifact whose expiry is not
/// in the future is unusable.
#[derive(Debug)]
pub struct Artifact {
    pub name: String,
    pub expires_epoch: i64,
}

/// The fixed name of the build artifact.
pub open spec fn spec_build_artifact_name() -> Seq<char> {
    "public/build/target.zip"@
}

pub fn build_artifact_name() -> (r: &'static str)
    ensures
        r@ == spec_build_artifact_name(),
{
    "public/build/target.zip"
}

/// A failure of the artifact service.
#[derive(Debug)]
pub enum TaskclusterError {
    /// The task has no artifact under the build artifact's name.
    NotFound,
    /// The build artifact expired at this time (seconds since the epoch).
    Expired(i64),
    /// The transport to the service failed; the message text.
    Http(String),
}

/// Spec-level twin of [`TaskclusterError`].
#[verifier::ext_equal]
pub enum TaskclusterErrorV {
    NotFound,
    Expired(i64),
    Http(Seq<char>),
}

impl View for TaskclusterError {
    type V = TaskclusterErrorV;

    open spec fn view(&self) -> TaskclusterErrorV {
        match self {
            TaskclusterError::NotFound => TaskclusterErrorV::NotFound,
            TaskclusterError::Expired(t) => TaskclusterErrorV::Expired(*t),
            TaskclusterError::Http(m) => TaskclusterErrorV::Http(m@),
        }
    }
}

/// A failure of a runner procedure, in the form returned to the runner's
/// own caller.
#[derive(Debug)]
pub enum RunnerProtoError {
    /// The control link failed.
    Proto(ProtoError),
    /// The restart capability failed; its message.
    Shutdown(String),
    /// The artifact service failed.
    Taskcluster(TaskclusterError),
    /// The downloaded build does not contain the browser executable.
    MissingFirefox,
}

/// Spec-level twin of [`RunnerProtoError`].
#[verifier::ext_equal]
pub enum RunnerProtoErrorV {
    Proto(crate::codec::ProtoErrorV),
    Shutdown(Seq<char>),
    Taskcluster(TaskclusterErrorV),
    MissingFirefox,
}

impl View for RunnerProtoError {
    type V = RunnerProtoErrorV;

    open spec fn view(&self) -> RunnerProtoErrorV {
        match self {
            RunnerProtoError::Proto(e) => RunnerProtoErrorV::Proto(e@),
            RunnerProtoError::Shutdown(m) => RunnerProtoErrorV::Shutdown(m@),
            RunnerProtoError::Taskcluster(e) => RunnerProtoErrorV::Taskcluster(e@),
            RunnerProtoError::MissingFirefox => RunnerProtoErrorV::MissingFirefox,
        }
    }
}

/// The message text under which an artifact-service failure travels to the
/// recorder.
pub open spec fn spec_taskcluster_message(e: TaskclusterErrorV) -> Seq<char> {
    match e {
        TaskclusterErrorV::NotFound => "no build artifact found for task"@,
        TaskclusterErrorV::Expired(_) => "the build artifact has expired"@,
        TaskclusterErrorV::Http(m) => m,
    }
}

/// The message text under which a runner failure travels to the recorder.
pub open spec fn spec_runner_error_message(e: RunnerProtoErrorV) -> Seq<char> {
    match e {
        RunnerProtoErrorV::Proto(_) => "protocol error on the control link"@,
        RunnerProtoErrorV::Shutdown(m) => m,
        RunnerProtoErrorV::Taskcluster(tc) => spec_taskcluster_message(tc),
        RunnerProtoErrorV::MissingFirefox => "the build does not contain the expected browser executable"@,
    }
}

impl TaskclusterError {
    /// The failure as message text.
    pub fn to_message(&self) -> (r: String)
        ensures
            r@ == spec_taskcluster_message(self@),
    {
        match self {
            TaskclusterError::NotFound => "no build artifact found for task".to_owned(),
            TaskclusterError::Expired(_) => "the build artifact has expired".to_owned(),
            TaskclusterError::Http(m) => m.clone(),
        }
    }
}

impl RunnerProtoError {
    /// The failure as message text, as it is sent to the recorder.
    pub fn to_message(&self) -> (r: String)
        ensures
            r@ == spec_runner_error_message(self@),
    {
        match self {
            RunnerProtoError::Proto(_) => "protocol error on the control link".to_owned(),
            RunnerProtoError::Shutdown(m) => m.clone(),
            RunnerProtoError::Taskcluster(tc) => tc.to_message(),
            RunnerProtoError::MissingFirefox => "the build does not contain the expected browser executable".to_owned(),
        }
    }
}

/// The restart capability: ask the host to reboot, synchronously; succeed,
/// or fail with a message. Deployments call into the operating system;
/// tests inject a stub.
pub trait Shutdown {
    fn initiate_restart(&self, reason: &str) -> Result<(), String>;
}

/// The artifact-service capability. Listing returns plain artifact
/// descriptors; fetching streams the named artifact of the task into the
/// service's download directory as the build archive.
pub trait ArtifactService {
    fn list_artifacts(&mut self, task_id: &str) -> Result<Vec<Artifact>, TaskclusterError>;

    fn fetch_artifact(&mut self, task_id: &str, name: &str) -> Result<(), TaskclusterError>;
}

/// Relies on `chrono::Utc::now`: the current time, as seconds since the
/// Unix epoch. Nothing is assumed about its value.
#[verifier::external_body]
fn now_epoch_seconds() -> i64 {
    chrono::Utc::now().timestamp()
}

/// The index of the first artifact bearing the build artifact's name.
pub open spec fn spec_first_build_index(arts: Seq<Artifact>) -> Option<int>
    decreases arts.len(),
{
    if arts.len() == 0 {
        None
    } else if arts[0].name@ == spec_build_artifact_name() {
        Some(0)
    } else {
        match spec_first_build_index(arts.drop_first()) {
            Some(i) => Some(i + 1),
            None => None,
        }
    }
}

/// The first build index is the least index with the build name, and
/// `None` exactly when no artifact has it.
pub proof fn lemma_first_build_index(arts: Seq<Artifact>)
    ensures
        match spec_first_build_index(arts) {
            Some(i) => 0 <= i < arts.len() && arts[i].name@ == spec_build_artifact_name() && (forall|
                j: int,
            |
                0 <= j < i ==> arts[j].name@ != spec_build_artifact_name()),
            None => forall|j: int|
                0 <= j < arts.len() ==> arts[j].name@ != spec_build_artifact_name(),
        },
    decreases arts.len(),
{
    if arts.len() == 0 {
    } else {
        lemma_first_build_index(arts.drop_first());
        assert(forall|j: int|
            1 <= j < arts.len() ==> arts[j] == arts.drop_first()[j - 1]);
    }
}

/// What checking a listing must yield: no artifact under the build name is
/// `NotFound`; a build artifact whose expiry is not after `now` is
/// `Expired` with that artifact's own expiry, and no download may follow;
/// otherwise the first build artifact's index.
pub open spec fn check_build_artifact_post(
    arts: Seq<Artifact>,
    now_epoch: i64,
    r: Result<usize, TaskclusterError>,
) -> bool {
    match spec_first_build_index(arts) {
        None => r matches Err(e) && e@ == TaskclusterErrorV::NotFound,
        Some(i) => {
            if arts[i].expires_epoch <= now_epoch {
                r matches Err(e) && e@ == TaskclusterErrorV::Expired(arts[i].expires_epoch)
            } else {
                r matches Ok(j) && j as int == i
            }
        },
    }
}

/// Pick the build artifact out of a listing and enforce its expiry at the
/// given time.
pub fn check_build_artifact(artifacts: &Vec<Artifact>, now_epoch: i64) -> (r: Result<
    usize,
    TaskclusterError,
>)
    ensures
        check_build_artifact_post(artifacts@, now_epoch, r),
{
    proof {
        lemma_first_build_index(artifacts@);
    }
    let expected: String = build_artifact_name().to_owned();
    let mut i: usize = 0;
    while i < artifacts.len()
        invariant
            i <= artifacts@.len(),
            expected@ == spec_build_artifact_name(),
            forall|j: int| 0 <= j < i ==> artifacts@[j].name@ != spec_build_artifact_name(),
        decreases artifacts@.len() - i,
    {
        if artifacts[i].name.eq(&expected) {
            proof {
                lemma_first_build_index(artifacts@);
            }
            if artifacts[i].expires_epoch <= now_epoch {
                return Err(TaskclusterError::Expired(artifacts[i].expires_epoch));
            }
            return Ok(i);
        }
        i = i + 1;
    }
    Err(TaskclusterError::NotFound)
}

/// Serve one received handshake request. If a restart is asked for, the
/// restart capability is invoked before anything is sent; its failure
/// travels to the recorder verbatim. The reply to send and the local
/// outcome always agree: the reply is `Ok` exactly when the outcome is,
/// and the local outcome tells whether a restart is under way.
pub fn handshake_reply_action<S: Shutdown>(shutdown: &S, restart: bool) -> (r: (
    RunnerMessage,
    Result<bool, RunnerProtoError>,
))
    ensures
        !restart ==> r.0@ == (RunnerMessageV::HandshakeReply { result: Ok(()) }) && (r.1 matches
            Ok(b) && b == false),
        restart ==> ((r.0@ == (RunnerMessageV::HandshakeReply { result: Ok(()) }) && (r.1 matches
            Ok(b) && b == true)) || (r.1 matches Err(e) && e@ matches RunnerProtoErrorV::Shutdown(m)
            && r.0@ == (RunnerMessageV::HandshakeReply { result: Err(m) }))),
{
    if !restart {
        return (RunnerMessage::HandshakeReply { result: Ok(()) }, Ok(false));
    }
    match shutdown.initiate_restart("recorder requested a restart") {
        Ok(()) => (RunnerMessage::HandshakeReply { result: Ok(()) }, Ok(true)),
        Err(m) => {
            let reply = RunnerMessage::HandshakeReply { result: Err(m.clone()) };
            (reply, Err(RunnerProtoError::Shutdown(m)))
        },
    }
}

/// Serve one received build request, up to the fetch: list the task's
/// artifacts, pick and check the build artifact at the current time, and
/// only then fetch it. Extraction and the browser check remain with the
/// caller, who reports the combined outcome with
/// [`download_build_reply_for`].
pub fn download_build_action<A: ArtifactService>(service: &mut A, task_id: &str) -> (r: Result<
    (),
    TaskclusterError,
>) {
    let artifacts = match service.list_artifacts(task_id) {
        Ok(a) => a,
        Err(e) => {
            return Err(e);
        },
    };
    let now = now_epoch_seconds();
    match check_build_artifact(&artifacts, now) {
        Ok(_i) => service.fetch_artifact(task_id, build_artifact_name()),
        Err(e) => Err(e),
    }
}

/// The reply reporting a build-download outcome: a failure travels as its
/// message text, verbatim, so the recorder's foreign error equals the
/// runner's own.
pub fn download_build_reply_for(outcome: &Result<(), RunnerProtoError>) -> (m: RunnerMessage)
    ensures
        outcome matches Ok(()) ==> m@ == (RunnerMessageV::DownloadBuildReply { result: Ok(()) }),
        outcome matches Err(e) ==> m@ == (RunnerMessageV::DownloadBuildReply {
            result: Err(spec_runner_error_message(e@)),
        }),
{
    match outcome {
        Ok(()) => RunnerMessage::DownloadBuildReply { result: Ok(()) },
        Err(e) => RunnerMessage::DownloadBuildReply { result: Err(e.to_message()) },
    }
}

/// The first reply of the profile procedure: `Ok(None)` closes the
/// procedure when no profile is coming; otherwise `Ok(Some(Downloading))`
/// announces that the runner is ready for the raw bytes.
pub fn send_profile_first_reply(profile_size: &Option<u64>) -> (m: RunnerMessage)
    ensures
        profile_size is None ==> m@ == (RunnerMessageV::SendProfileReply { result: Ok(None) }),
        profile_size is Some ==> m@ == (RunnerMessageV::SendProfileReply {
            result: Ok(Some(DownloadStatus::Downloading)),
        }),
{
    match profile_size {
        None => RunnerMessage::SendProfileReply { result: Ok(None) },
        Some(_) => RunnerMessage::SendProfileReply {
            result: Ok(Some(DownloadStatus::Downloading)),
        },
    }
}

/// A later status checkpoint of the profile procedure: `Downloaded` after
/// the raw bytes are stored, `Extracted` after the archive is unpacked.
pub fn send_profile_status_reply(status: DownloadStatus) -> (m: RunnerMessage)
    ensures
        m@ == (RunnerMessageV::SendProfileReply { result: Ok(Some(status)) }),
{
    RunnerMessage::SendProfileReply { result: Ok(Some(status)) }
}

/// One entry of the extraction directory, as the caller lists it.
#[derive(Debug)]
pub struct DirEntry {
    pub name: String,
    pub is_dir: bool,
}

/// Identify the profile root after extraction: the extraction directory
/// itself (`None`), unless it holds exactly one entry and that entry is a
/// directory, in which case the sole subdirectory (its index, `Some(0)`).
pub fn profile_root_choice(entries: &Vec<DirEntry>) -> (r: Option<usize>)
    ensures
        (entries@.len() == 1 && entries@[0].is_dir) ==> r == Some(0usize),
        !(entries@.len() == 1 && entries@[0].is_dir) ==> r is None,
{
    if entries.len() == 1 && entries[0].is_dir {
        Some(0)
    } else {
        None
    }
}

} // verus!
