//! End-to-end protocol scenarios: both peers driven over in-memory byte
//! buffers standing for the two directions of the control connection.

use fxrecord::codec::{
    decode_recorder_body, encode_recorder, encode_runner, recv_recorder_expecting,
    recv_runner_expecting, take_frame, take_raw, ProtoError,
};
use fxrecord::messages::{
    DownloadStatus, RecorderMessage, RecorderMessageKind, RunnerMessage, RunnerMessageKind,
};
use fxrecord::recorder::{
    download_build_check_reply, download_build_request, handshake_check_reply, handshake_outcome,
    handshake_request, send_profile_check_replies, send_profile_request, RecorderProtoError,
};
use fxrecord::runner::{
    check_build_artifact, download_build_action, download_build_reply_for, handshake_reply_action,
    profile_root_choice, send_profile_first_reply, send_profile_status_reply, Artifact,
    ArtifactService, DirEntry, RunnerProtoError, Shutdown, TaskclusterError,
};

/// A restart capability that either succeeds or fails with a fixed message.
#[derive(Default)]
pub struct TestShutdown {
    error: Option<String>,
}

impl TestShutdown {
    pub fn with_error(s: &str) -> Self {
        TestShutdown {
            error: Some(s.into()),
        }
    }
}

impl Shutdown for TestShutdown {
    fn initiate_restart(&self, _reason: &str) -> Result<(), String> {
        match self.error {
            Some(ref e) => Err(e.clone()),
            None => Ok(()),
        }
    }
}

/// An artifact service over a fixed listing; fetching records the request.
struct TestArtifacts {
    listing: Vec<Artifact>,
    fetched: Vec<(String, String)>,
}

impl TestArtifacts {
    fn new(listing: Vec<Artifact>) -> Self {
        TestArtifacts {
            listing,
            fetched: Vec::new(),
        }
    }
}

impl ArtifactService for TestArtifacts {
    fn list_artifacts(&mut self, _task_id: &str) -> Result<Vec<Artifact>, TaskclusterError> {
        let mut out = Vec::new();
        for a in &self.listing {
            out.push(Artifact {
                name: a.name.clone(),
                expires_epoch: a.expires_epoch,
            });
        }
        Ok(out)
    }

    fn fetch_artifact(&mut self, task_id: &str, name: &str) -> Result<(), TaskclusterError> {
        self.fetched.push((task_id.to_owned(), name.to_owned()));
        Ok(())
    }
}

fn now_epoch() -> i64 {
    chrono::Utc::now().timestamp()
}

#[test]
fn test_handshake() {
    // Runner drops the connection before replying: the recorder sees a
    // clean end of stream on its next read.
    {
        let from_runner: Vec<u8> = Vec::new();
        match handshake_check_reply(&from_runner, 0).unwrap_err() {
            RecorderProtoError::Proto(ProtoError::EndOfStream) => {}
            e => panic!("unexpected error: {:?}", e),
        }
    }

    // Recorder drops the connection before handshaking: the runner sees a
    // clean end of stream while expecting the request.
    {
        let from_recorder: Vec<u8> = Vec::new();
        match recv_recorder_expecting(&from_recorder, 0, RecorderMessageKind::Handshake)
            .unwrap_err()
        {
            ProtoError::EndOfStream => {}
            e => panic!("unexpected error: {:?}", e),
        }
    }

    // Runner reads the request but closes before replying.
    {
        let from_recorder = encode_recorder(&handshake_request(true));
        let (msg, _) =
            recv_recorder_expecting(&from_recorder, 0, RecorderMessageKind::Handshake).unwrap();
        assert!(matches!(msg, RecorderMessage::Handshake { restart: true }));

        let from_runner: Vec<u8> = Vec::new();
        match handshake_check_reply(&from_runner, 0).unwrap_err() {
            RecorderProtoError::Proto(ProtoError::EndOfStream) => {}
            e => panic!("unexpected error: {:?}", e),
        }
    }

    // Handshake with restart: the runner restarts and replies Ok.
    {
        let from_recorder = encode_recorder(&handshake_request(true));
        let (msg, _) =
            recv_recorder_expecting(&from_recorder, 0, RecorderMessageKind::Handshake).unwrap();
        let restart = match msg {
            RecorderMessage::Handshake { restart } => restart,
            m => panic!("unexpected message: {:?}", m),
        };
        let shutdown = TestShutdown::default();
        let (reply, outcome) = handshake_reply_action(&shutdown, restart);
        assert!(outcome.unwrap());

        let from_runner = encode_runner(&reply);
        let next = handshake_check_reply(&from_runner, 0).unwrap();
        assert_eq!(next, from_runner.len());
    }

    // Handshake without restart.
    {
        let from_recorder = encode_recorder(&handshake_request(false));
        let (msg, _) =
            recv_recorder_expecting(&from_recorder, 0, RecorderMessageKind::Handshake).unwrap();
        let restart = match msg {
            RecorderMessage::Handshake { restart } => restart,
            m => panic!("unexpected message: {:?}", m),
        };
        let shutdown = TestShutdown::default();
        let (reply, outcome) = handshake_reply_action(&shutdown, restart);
        assert!(!outcome.unwrap());

        let from_runner = encode_runner(&reply);
        handshake_check_reply(&from_runner, 0).unwrap();
    }

    // Handshake with a failing restart: the runner returns the shutdown
    // error, and the recorder sees a foreign error with the same message.
    {
        let shutdown = TestShutdown::with_error("could not shutdown");
        let (reply, outcome) = handshake_reply_action(&shutdown, true);
        match outcome.unwrap_err() {
            RunnerProtoError::Shutdown(e) => assert_eq!(e, "could not shutdown"),
            e => panic!("unexpected error: {:?}", e),
        }

        let from_runner = encode_runner(&reply);
        let (got, _) =
            recv_runner_expecting(&from_runner, 0, RunnerMessageKind::HandshakeReply).unwrap();
        match handshake_outcome(&got).unwrap_err() {
            RecorderProtoError::Proto(ProtoError::Foreign(e)) => {
                assert_eq!(e, "could not shutdown");
            }
            e => panic!("unexpected error: {:?}", e),
        }
    }
}

#[test]
fn test_download_build() {
    // Happy path: one build artifact, expiring an hour from now; the
    // runner fetches it and both peers succeed.
    {
        let mut service = TestArtifacts::new(vec![Artifact {
            name: "public/build/target.zip".to_owned(),
            expires_epoch: now_epoch() + 3600,
        }]);

        let from_recorder = encode_recorder(&download_build_request("foo".to_owned()));
        let (msg, _) =
            recv_recorder_expecting(&from_recorder, 0, RecorderMessageKind::DownloadBuild)
                .unwrap();
        let task_id = match msg {
            RecorderMessage::DownloadBuild { task_id } => task_id,
            m => panic!("unexpected message: {:?}", m),
        };
        assert_eq!(task_id, "foo");

        let outcome = download_build_action(&mut service, &task_id);
        assert!(outcome.is_ok());
        assert_eq!(
            service.fetched,
            vec![("foo".to_owned(), "public/build/target.zip".to_owned())]
        );

        let local: Result<(), RunnerProtoError> = Ok(());
        let from_runner = encode_runner(&download_build_reply_for(&local));
        download_build_check_reply(&from_runner, 0).unwrap();
    }

    // No artifact: the runner fails with NotFound and fetches nothing; the
    // recorder's foreign error carries the runner's own message.
    {
        let mut service = TestArtifacts::new(vec![]);
        let err = download_build_action(&mut service, "foo").unwrap_err();
        assert!(matches!(err, TaskclusterError::NotFound));
        assert!(service.fetched.is_empty());

        let runner_err = RunnerProtoError::Taskcluster(err);
        let expected_message = runner_err.to_message();
        let local: Result<(), RunnerProtoError> = Err(runner_err);
        let from_runner = encode_runner(&download_build_reply_for(&local));
        match download_build_check_reply(&from_runner, 0).unwrap_err() {
            RecorderProtoError::Proto(ProtoError::Foreign(e)) => {
                assert_eq!(e, expected_message);
            }
            e => panic!("unexpected error: {:?}", e),
        }
    }

    // Expired artifact: the runner fails with the artifact's own expiry
    // and no fetch occurs.
    {
        let expiry = now_epoch() - 86400;
        let mut service = TestArtifacts::new(vec![Artifact {
            name: "public/build/target.zip".to_owned(),
            expires_epoch: expiry,
        }]);
        let err = download_build_action(&mut service, "foo").unwrap_err();
        match err {
            TaskclusterError::Expired(t) => assert_eq!(t, expiry),
            e => panic!("unexpected error: {:?}", e),
        }
        assert!(service.fetched.is_empty());

        let runner_err = RunnerProtoError::Taskcluster(TaskclusterError::Expired(expiry));
        let expected_message = runner_err.to_message();
        let local: Result<(), RunnerProtoError> = Err(runner_err);
        let from_runner = encode_runner(&download_build_reply_for(&local));
        match download_build_check_reply(&from_runner, 0).unwrap_err() {
            RecorderProtoError::Proto(ProtoError::Foreign(e)) => {
                assert_eq!(e, expected_message);
            }
            e => panic!("unexpected error: {:?}", e),
        }
    }

    // A build that extracted without the browser executable: the runner
    // reports MissingFirefox and the recorder sees its message.
    {
        let runner_err = RunnerProtoError::MissingFirefox;
        let expected_message = runner_err.to_message();
        let local: Result<(), RunnerProtoError> = Err(runner_err);
        let from_runner = encode_runner(&download_build_reply_for(&local));
        match download_build_check_reply(&from_runner, 0).unwrap_err() {
            RecorderProtoError::Proto(ProtoError::Foreign(e)) => {
                assert_eq!(e, expected_message);
            }
            e => panic!("unexpected error: {:?}", e),
        }
    }
}

#[test]
fn test_send_profile() {
    // No profile: a single Ok(None) reply, and nothing else happens.
    {
        let from_recorder = encode_recorder(&send_profile_request(None));
        let (msg, _) =
            recv_recorder_expecting(&from_recorder, 0, RecorderMessageKind::SendProfile).unwrap();
        let size = match msg {
            RecorderMessage::SendProfile { profile_size } => profile_size,
            m => panic!("unexpected message: {:?}", m),
        };
        assert!(size.is_none());

        let from_runner = encode_runner(&send_profile_first_reply(&size));
        let next = send_profile_check_replies(None, &from_runner, 0).unwrap();
        assert_eq!(next, from_runner.len());
    }

    // A profile: the advertised bytes flow raw between Downloading and
    // Downloaded, and the runner stores exactly them.
    {
        let profile_bytes: Vec<u8> = (0u16..600).map(|b| (b % 251) as u8).collect();
        let n = profile_bytes.len() as u64;

        // Recorder to runner: the request frame, then the raw bytes.
        let mut from_recorder = encode_recorder(&send_profile_request(Some(n)));
        let request_end = from_recorder.len();
        from_recorder.extend_from_slice(&profile_bytes);

        let (msg, pos) =
            recv_recorder_expecting(&from_recorder, 0, RecorderMessageKind::SendProfile).unwrap();
        assert_eq!(pos, request_end);
        let size = match msg {
            RecorderMessage::SendProfile { profile_size } => profile_size,
            m => panic!("unexpected message: {:?}", m),
        };
        assert_eq!(size, Some(n));

        let mut from_runner = encode_runner(&send_profile_first_reply(&size));

        let (stored, after_raw) = take_raw(&from_recorder, pos, n).unwrap();
        assert_eq!(stored, profile_bytes);
        assert_eq!(after_raw, from_recorder.len());

        from_runner.extend_from_slice(&encode_runner(&send_profile_status_reply(
            DownloadStatus::Downloaded,
        )));

        // Extraction: the archive held a single top-level directory, so
        // the profile root is that sole subdirectory.
        let entries = vec![DirEntry {
            name: "profile".to_owned(),
            is_dir: true,
        }];
        assert_eq!(profile_root_choice(&entries), Some(0));

        from_runner.extend_from_slice(&encode_runner(&send_profile_status_reply(
            DownloadStatus::Extracted,
        )));

        let next = send_profile_check_replies(Some(n), &from_runner, 0).unwrap();
        assert_eq!(next, from_runner.len());
    }

    // Runner replies Downloading when no profile was announced.
    {
        let from_runner = encode_runner(&RunnerMessage::SendProfileReply {
            result: Ok(Some(DownloadStatus::Downloading)),
        });
        match send_profile_check_replies(None, &from_runner, 0).unwrap_err() {
            RecorderProtoError::SendProfileMismatch { expected, received } => {
                assert_eq!(expected, None);
                assert_eq!(received, Some(DownloadStatus::Downloading));
            }
            e => panic!("unexpected error: {:?}", e),
        }
    }

    // Runner replies Extracted when Downloading was expected; the rest of
    // its replies are never read.
    {
        let mut from_runner = encode_runner(&RunnerMessage::SendProfileReply {
            result: Ok(Some(DownloadStatus::Extracted)),
        });
        from_runner.extend_from_slice(&encode_runner(&send_profile_status_reply(
            DownloadStatus::Downloaded,
        )));
        match send_profile_check_replies(Some(4), &from_runner, 0).unwrap_err() {
            RecorderProtoError::SendProfileMismatch { expected, received } => {
                assert_eq!(expected, Some(DownloadStatus::Downloading));
                assert_eq!(received, Some(DownloadStatus::Extracted));
            }
            e => panic!("unexpected error: {:?}", e),
        }
    }

    // Runner replies Extracted when Downloaded was expected.
    {
        let mut from_runner = encode_runner(&send_profile_status_reply(
            DownloadStatus::Downloading,
        ));
        from_runner.extend_from_slice(&encode_runner(&send_profile_status_reply(
            DownloadStatus::Extracted,
        )));
        match send_profile_check_replies(Some(4), &from_runner, 0).unwrap_err() {
            RecorderProtoError::SendProfileMismatch { expected, received } => {
                assert_eq!(expected, Some(DownloadStatus::Downloaded));
                assert_eq!(received, Some(DownloadStatus::Extracted));
            }
            e => panic!("unexpected error: {:?}", e),
        }
    }

    // Runner repeats Downloaded when Extracted was expected.
    {
        let mut from_runner = encode_runner(&send_profile_status_reply(
            DownloadStatus::Downloading,
        ));
        from_runner.extend_from_slice(&encode_runner(&send_profile_status_reply(
            DownloadStatus::Downloaded,
        )));
        from_runner.extend_from_slice(&encode_runner(&send_profile_status_reply(
            DownloadStatus::Downloaded,
        )));
        match send_profile_check_replies(Some(4), &from_runner, 0).unwrap_err() {
            RecorderProtoError::SendProfileMismatch { expected, received } => {
                assert_eq!(expected, Some(DownloadStatus::Extracted));
                assert_eq!(received, Some(DownloadStatus::Downloaded));
            }
            e => panic!("unexpected error: {:?}", e),
        }
    }
}

#[test]
fn http_failure_message_travels_verbatim() {
    let runner_err =
        RunnerProtoError::Taskcluster(TaskclusterError::Http("connection refused".to_owned()));
    assert_eq!(runner_err.to_message(), "connection refused");
    let local: Result<(), RunnerProtoError> = Err(runner_err);
    let from_runner = encode_runner(&download_build_reply_for(&local));
    match download_build_check_reply(&from_runner, 0).unwrap_err() {
        RecorderProtoError::Proto(ProtoError::Foreign(e)) => {
            assert_eq!(e, "connection refused");
        }
        e => panic!("unexpected error: {:?}", e),
    }
}

#[test]
fn expiry_boundary_is_inclusive() {
    // An artifact expiring exactly now is already unusable.
    let now = 1_700_000_000i64;
    let artifacts = vec![Artifact {
        name: "public/build/target.zip".to_owned(),
        expires_epoch: now,
    }];
    match check_build_artifact(&artifacts, now).unwrap_err() {
        TaskclusterError::Expired(t) => assert_eq!(t, now),
        e => panic!("unexpected error: {:?}", e),
    }
}

#[test]
fn first_build_artifact_wins() {
    // Two artifacts under the build name: the first decides, even when the
    // second is still valid.
    let now = 1_700_000_000i64;
    let artifacts = vec![
        Artifact {
            name: "public/logs/live.log".to_owned(),
            expires_epoch: now - 10,
        },
        Artifact {
            name: "public/build/target.zip".to_owned(),
            expires_epoch: now - 5,
        },
        Artifact {
            name: "public/build/target.zip".to_owned(),
            expires_epoch: now + 1000,
        },
    ];
    match check_build_artifact(&artifacts, now).unwrap_err() {
        TaskclusterError::Expired(t) => assert_eq!(t, now - 5),
        e => panic!("unexpected error: {:?}", e),
    }
}

#[test]
fn profile_root_stays_flat_otherwise() {
    // A flat extraction, or one with several entries, keeps the
    // extraction directory itself as the profile root.
    let flat = vec![
        DirEntry {
            name: "places.sqlite".to_owned(),
            is_dir: false,
        },
        DirEntry {
            name: "prefs.js".to_owned(),
            is_dir: false,
        },
    ];
    assert_eq!(profile_root_choice(&flat), None);

    let single_file = vec![DirEntry {
        name: "prefs.js".to_owned(),
        is_dir: false,
    }];
    assert_eq!(profile_root_choice(&single_file), None);

    let empty: Vec<DirEntry> = Vec::new();
    assert_eq!(profile_root_choice(&empty), None);
}

#[test]
fn raw_phase_short_stream_is_end_of_stream() {
    let data: Vec<u8> = vec![1, 2, 3];
    match take_raw(&data, 0, 4).unwrap_err() {
        ProtoError::EndOfStream => {}
        e => panic!("unexpected error: {:?}", e),
    }
    let (bytes, next) = take_raw(&data, 1, 2).unwrap();
    assert_eq!(bytes, vec![2, 3]);
    assert_eq!(next, 3);
}

#[test]
fn handshake_decode_rejects_junk() {
    // A frame of the right kind whose payload is not a boolean.
    let body: Vec<u8> = vec![0, 7];
    match decode_recorder_body(&body, RecorderMessageKind::Handshake).unwrap_err() {
        ProtoError::Decode => {}
        e => panic!("unexpected error: {:?}", e),
    }

    // An unknown kind tag.
    let body: Vec<u8> = vec![9, 0];
    match decode_recorder_body(&body, RecorderMessageKind::Handshake).unwrap_err() {
        ProtoError::Decode => {}
        e => panic!("unexpected error: {:?}", e),
    }
}

#[test]
fn truncated_frame_is_end_of_stream() {
    let mut data = encode_recorder(&handshake_request(true));
    data.pop();
    match take_frame(&data, 0).unwrap_err() {
        ProtoError::EndOfStream => {}
        e => panic!("unexpected error: {:?}", e),
    }

    let header_only: Vec<u8> = vec![0, 0];
    match take_frame(&header_only, 0).unwrap_err() {
        ProtoError::EndOfStream => {}
        e => panic!("unexpected error: {:?}", e),
    }
}
