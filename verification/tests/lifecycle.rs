use koom::finalize::finalize_recording;
use koom::media::MergePlan;
use koom::session::{
    capture_plan, clamp_fps, is_valid_capture_file, new_session_names, output_file_name,
    CapturePlan, RecordingConfig, RecordingSession,
};
use koom::status::{Recorder, RecordingError, RecordingStatus};

fn config(mic: bool, webcam: bool, fps: u32) -> RecordingConfig {
    RecordingConfig {
        monitor_index: 0,
        mic_enabled: mic,
        webcam_enabled: webcam,
        webcam_index: 1,
        webcam_corner: "tr".to_string(),
        fps,
    }
}

fn session(mic: bool, webcam: bool) -> RecordingSession {
    RecordingSession::new(
        "id-1".to_string(),
        "/tmp/koom/id-1".to_string(),
        "/tmp/koom/id-1/screen.mp4".to_string(),
        "/tmp/koom/id-1/webcam.mp4".to_string(),
        "/tmp/koom/id-1/audio.wav".to_string(),
        "/videos/id-1.mp4".to_string(),
        config(mic, webcam, 500),
    )
}

#[test]
fn new_recorder_is_idle() {
    let r = Recorder::new();
    assert_eq!(r.status, RecordingStatus::Idle);
    assert!(r.session.is_none());
    assert_eq!(r.status_label(), "idle");
}

#[test]
fn status_labels() {
    let cases = [
        (RecordingStatus::Idle, "idle"),
        (RecordingStatus::Starting, "starting"),
        (RecordingStatus::Recording, "recording"),
        (RecordingStatus::Stopping, "stopping"),
        (RecordingStatus::Merging, "merging"),
        (RecordingStatus::Error("disk full".to_string()), "error: disk full"),
    ];
    for (s, label) in cases {
        assert_eq!(s.label(), label);
        assert_eq!(s.duplicate(), s);
    }
}

#[test]
fn error_messages() {
    assert_eq!(RecordingError::AlreadyRecording.message(), "Already recording");
    assert_eq!(RecordingError::NoActiveRecording.message(), "No active recording");
    assert_eq!(
        RecordingError::InvalidRecording("x".into()).message(),
        "Invalid recording file: x"
    );
    assert_eq!(RecordingError::TaskTimeout.message(), "Task timeout");
    assert_eq!(RecordingError::Merge("m".into()).message(), "Merge failed: m");
    assert_eq!(RecordingError::Io("i".into()).message(), "IO error: i");
    assert_eq!(RecordingError::Capture("c".into()).message(), "Capture error: c");
}

#[test]
fn full_recording_cycle_returns_to_idle() {
    let mut r = Recorder::new();
    assert_eq!(r.check_can_start(), Ok(()));
    r.mark_starting();
    assert_eq!(r.status_label(), "starting");
    assert_eq!(r.check_can_start(), Err(RecordingError::AlreadyRecording));
    r.session_started(session(true, true));
    r.mark_recording();
    assert_eq!(r.status, RecordingStatus::Recording);
    assert_eq!(r.check_can_start(), Err(RecordingError::AlreadyRecording));
    assert_eq!(r.begin_stop(), Ok(()));
    assert_eq!(r.status, RecordingStatus::Stopping);
    let s = r.mark_merging().unwrap();
    assert_eq!(s, session(true, true));
    assert_eq!(r.status, RecordingStatus::Merging);
    r.finish_stop(Ok(()));
    assert_eq!(r.status, RecordingStatus::Idle);
    assert!(r.session.is_none());
    assert_eq!(r.check_can_start(), Ok(()));
}

#[test]
fn stop_without_recording_is_refused_and_changes_nothing() {
    let mut r = Recorder::new();
    assert_eq!(r.begin_stop(), Err(RecordingError::NoActiveRecording));
    assert_eq!(r.status, RecordingStatus::Idle);
    r.mark_starting();
    assert_eq!(r.begin_stop(), Err(RecordingError::NoActiveRecording));
    assert_eq!(r.status, RecordingStatus::Starting);
    assert_eq!(
        RecordingError::NoActiveRecording.message(),
        "No active recording"
    );
}

#[test]
fn merging_without_session_reports_no_active_recording() {
    let mut r = Recorder::new();
    assert_eq!(r.mark_merging(), Err(RecordingError::NoActiveRecording));
    assert_eq!(r.status, RecordingStatus::Merging);
}

#[test]
fn failed_save_is_reported_and_blocks_new_recordings() {
    let mut r = Recorder::new();
    r.mark_starting();
    r.session_started(session(false, false));
    r.mark_recording();
    r.begin_stop().unwrap();
    r.mark_merging().unwrap();
    r.finish_stop(Err("Merge failed: boom".to_string()));
    assert_eq!(r.status, RecordingStatus::Error("Merge failed: boom".to_string()));
    assert_eq!(r.status_label(), "error: Merge failed: boom");
    assert!(r.session.is_some());
    assert_eq!(r.check_can_start(), Err(RecordingError::AlreadyRecording));
}

#[test]
fn frame_rate_is_clamped() {
    assert_eq!(clamp_fps(0), 1);
    assert_eq!(clamp_fps(1), 1);
    assert_eq!(clamp_fps(30), 30);
    assert_eq!(clamp_fps(60), 60);
    assert_eq!(clamp_fps(61), 60);
    assert_eq!(clamp_fps(u32::MAX), 60);
    let c = config(true, false, 0).normalized();
    assert_eq!(c.fps, 1);
    assert!(c.mic_enabled);
    assert_eq!(c.webcam_corner, "tr");
    assert_eq!(session(false, false).config.fps, 60);
}

#[test]
fn capture_tasks_follow_the_config() {
    assert_eq!(
        capture_plan(&config(true, false, 30)),
        CapturePlan { screen: true, webcam: false, audio: true }
    );
    assert_eq!(
        capture_plan(&config(false, true, 30)),
        CapturePlan { screen: true, webcam: true, audio: false }
    );
}

#[test]
fn session_ids_are_uuids_and_name_the_video() {
    let a = new_session_names();
    let b = new_session_names();
    for names in [&a, &b] {
        let id: Vec<char> = names.id.chars().collect();
        assert_eq!(id.len(), 36);
        for (i, c) in id.iter().enumerate() {
            if [8, 13, 18, 23].contains(&i) {
                assert_eq!(*c, '-');
            } else {
                assert!(c.is_ascii_hexdigit() && !c.is_ascii_uppercase());
            }
        }
        assert_eq!(id[14], '4');
        assert_eq!(names.output_file_name, format!("{}.mp4", names.id));
    }
    assert_ne!(a.id, b.id);
    assert_eq!(output_file_name("abc"), "abc.mp4");
}

#[test]
fn capture_file_validity() {
    assert!(!is_valid_capture_file(false, 5000));
    assert!(!is_valid_capture_file(true, 0));
    assert!(!is_valid_capture_file(true, 1024));
    assert!(is_valid_capture_file(true, 1025));
}

#[test]
fn finalize_needs_the_screen_capture() {
    let s = session(true, true);
    match finalize_recording(&s, false, true, true) {
        Err(e) => {
            assert_eq!(e, RecordingError::InvalidRecording("Screen recording missing".into()));
            assert_eq!(e.message(), "Invalid recording file: Screen recording missing");
        }
        Ok(_) => panic!("expected a refusal"),
    }
}

#[test]
fn finalize_uses_enabled_valid_captures() {
    let s = session(true, true);
    let plan = finalize_recording(&s, true, true, true).unwrap();
    match &plan.merge {
        MergePlan::Encode { args, failure } => {
            assert_eq!(args[4], "/tmp/koom/id-1/webcam.mp4");
            assert_eq!(args[6], "/tmp/koom/id-1/audio.wav");
            assert_eq!(failure, "FFmpeg merge (screen+webcam+audio) failed");
        }
        MergePlan::MoveScreen => panic!("expected an FFmpeg run"),
    }
    assert_eq!(plan.output, "/videos/id-1.mp4");
    assert_eq!(plan.thumbnail_path, "/videos/id-1_thumb.jpg");
    assert_eq!(plan.thumbnail_args[2], "/videos/id-1.mp4");
    assert_eq!(plan.thumbnail_args[9], "/videos/id-1_thumb.jpg");
    assert_eq!(plan.thumbnail_failure, "Thumbnail generation failed for /videos/id-1.mp4");

    // An invalid webcam file is left out.
    let plan = finalize_recording(&s, true, false, true).unwrap();
    match &plan.merge {
        MergePlan::Encode { failure, .. } => {
            assert_eq!(failure, "FFmpeg merge (screen+audio) failed")
        }
        MergePlan::MoveScreen => panic!("expected an FFmpeg run"),
    }

    // Disabled captures are left out even when their files look valid.
    let s = session(false, false);
    let plan = finalize_recording(&s, true, true, true).unwrap();
    assert_eq!(plan.merge, MergePlan::MoveScreen);
}

#[test]
fn labels_tell_statuses_apart() {
    let statuses = [
        RecordingStatus::Idle,
        RecordingStatus::Starting,
        RecordingStatus::Recording,
        RecordingStatus::Stopping,
        RecordingStatus::Merging,
        RecordingStatus::Error("idle".to_string()),
        RecordingStatus::Error("".to_string()),
    ];
    for (i, a) in statuses.iter().enumerate() {
        for (j, b) in statuses.iter().enumerate() {
            assert_eq!(a.label() == b.label(), i == j);
        }
    }
}
