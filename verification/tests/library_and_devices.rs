use koom::capture::{keeps_capturing, screen_capture_exit, FrameOutcome};
use koom::audio::u8_sample_to_i16;
use koom::devices::{check_monitor_index, describe_monitors, describe_webcams, MonitorReading};
use koom::ffmpeg::{
    candidate_paths, ensure_ffmpeg_available, executable_names, fallback_program_name,
    first_existing, Candidate,
};
use koom::platform::{file_manager_program, TargetOs};
use koom::recordings::{
    is_recording_extension, newest_first, newest_first_order, recording_id, recording_info,
    thumbnail_path, RecordingInfo,
};
use koom::session::new_session_names;

fn info(id: &str) -> RecordingInfo {
    recording_info(&format!("/v/{}.mp4", id), &format!("{}.mp4", id), false, "t".into(), 1)
}

#[test]
fn thumbnails_and_ids() {
    assert_eq!(thumbnail_path("/v/abc.mp4"), "/v/abc_thumb.jpg");
    assert_eq!(thumbnail_path("/v.mp4/abc.mp4"), "/v_thumb.jpg/abc_thumb.jpg");
    assert_eq!(thumbnail_path("/v/abc.mkv"), "/v/abc.mkv");
    assert_eq!(recording_id("abc.mp4"), "abc");
    assert_eq!(recording_id("a.mp4.mp4"), "a");
    assert_eq!(recording_id("plain"), "plain");
}

#[test]
fn listed_id_is_the_session_id() {
    let names = new_session_names();
    assert_eq!(recording_id(&names.output_file_name), names.id);
}

#[test]
fn only_mp4_files_are_listed() {
    assert!(is_recording_extension(Some("mp4")));
    assert!(!is_recording_extension(Some("MP4")));
    assert!(!is_recording_extension(Some("jpg")));
    assert!(!is_recording_extension(None));
}

#[test]
fn recording_entries() {
    let r = recording_info("/v/x.mp4", "x.mp4", true, "2024-01-02T03:04:05".into(), 2048);
    assert_eq!(
        r,
        RecordingInfo {
            id: "x".into(),
            filename: "x.mp4".into(),
            path: "/v/x.mp4".into(),
            thumbnail: Some("/v/x_thumb.jpg".into()),
            created_at: "2024-01-02T03:04:05".into(),
            size_bytes: 2048,
        }
    );
    let r = recording_info("/v/x.mp4", "x.mp4", false, "c".into(), 0);
    assert_eq!(r.thumbnail, None);
    assert_eq!(r.duplicate(), r);
}

#[test]
fn newest_first_with_ties_in_found_order() {
    assert_eq!(newest_first_order(&vec![]), Vec::<usize>::new());
    assert_eq!(newest_first_order(&vec![5, 9, 5, -3, 9]), vec![1, 4, 0, 2, 3]);
    let entries = vec![(10, info("a")), (30, info("b")), (20, info("c")), (30, info("d"))];
    let ids: Vec<String> = newest_first(&entries).into_iter().map(|r| r.id).collect();
    assert_eq!(ids, vec!["b", "d", "c", "a"]);
}

#[test]
fn newest_first_is_a_stable_descending_sort() {
    let keys: Vec<i128> = (0..40).map(|i| ((i * 7919) % 13) as i128 - 6).collect();
    let order = newest_first_order(&keys);
    let mut expected: Vec<usize> = (0..keys.len()).collect();
    expected.sort_by(|a, b| keys[*b].cmp(&keys[*a]));
    assert_eq!(order, expected);
}

#[test]
fn monitors_with_defaults() {
    let readings = vec![
        MonitorReading {
            name: Some("DP-1".into()),
            width: Some(2560),
            height: Some(1440),
            is_primary: Some(true),
        },
        MonitorReading { name: None, width: None, height: None, is_primary: None },
    ];
    let m = describe_monitors(&readings);
    assert_eq!(m.len(), 2);
    assert_eq!((m[0].index, m[0].name.as_str(), m[0].width, m[0].height, m[0].is_primary), (0, "DP-1", 2560, 1440, true));
    assert_eq!((m[1].index, m[1].name.as_str(), m[1].width, m[1].height, m[1].is_primary), (1, "Unknown", 1920, 1080, false));
}

#[test]
fn webcams_are_numbered() {
    let w = describe_webcams(&vec!["Cam A".to_string(), "Cam B".to_string()]);
    assert_eq!((w[0].index, w[0].name.as_str()), (0, "Cam A"));
    assert_eq!((w[1].index, w[1].name.as_str()), (1, "Cam B"));
}

#[test]
fn monitor_index_must_exist() {
    assert_eq!(check_monitor_index(0, 1), Ok(()));
    assert_eq!(check_monitor_index(3, 3), Err("Monitor index 3 was not found".to_string()));
    assert_eq!(check_monitor_index(0, 0), Err("Monitor index 0 was not found".to_string()));
}

#[test]
fn u8_samples_become_16_bit() {
    assert_eq!(u8_sample_to_i16(128), 0);
    assert_eq!(u8_sample_to_i16(0), -32768);
    assert_eq!(u8_sample_to_i16(255), 32512);
    assert_eq!(u8_sample_to_i16(129), 256);
}

#[test]
fn ffmpeg_names() {
    assert_eq!(executable_names(TargetOs::Windows), vec!["ffmpeg.exe", "ffmpeg"]);
    assert_eq!(executable_names(TargetOs::Linux), vec!["ffmpeg"]);
    assert_eq!(executable_names(TargetOs::MacOs), vec!["ffmpeg"]);
    assert_eq!(fallback_program_name(TargetOs::Windows), "ffmpeg.exe");
    assert_eq!(fallback_program_name(TargetOs::Other), "ffmpeg");
}

#[test]
fn fallback_program_is_never_empty() {
    for os in [TargetOs::Windows, TargetOs::MacOs, TargetOs::Linux, TargetOs::Other] {
        assert!(!fallback_program_name(os).is_empty());
    }
    assert_eq!(first_existing(&vec![]), None);
}

#[test]
fn ffmpeg_candidates_in_order() {
    assert_eq!(
        candidate_paths(true, true, 2, TargetOs::Windows),
        vec![
            Candidate::Override,
            Candidate::ExeDir("ffmpeg.exe"),
            Candidate::ExeDir("ffmpeg"),
            Candidate::PathDir(0, "ffmpeg.exe"),
            Candidate::PathDir(0, "ffmpeg"),
            Candidate::PathDir(1, "ffmpeg.exe"),
            Candidate::PathDir(1, "ffmpeg"),
        ]
    );
    assert_eq!(
        candidate_paths(false, true, 3, TargetOs::Linux),
        vec![
            Candidate::ExeDir("ffmpeg"),
            Candidate::PathDir(0, "ffmpeg"),
            Candidate::PathDir(1, "ffmpeg"),
            Candidate::PathDir(2, "ffmpeg"),
        ]
    );
    assert_eq!(candidate_paths(false, false, 0, TargetOs::Linux), vec![]);
}

#[test]
fn first_existing_candidate() {
    assert_eq!(first_existing(&vec![false, true, true]), Some(1));
    assert_eq!(first_existing(&vec![false, false]), None);
    assert_eq!(first_existing(&vec![true]), Some(0));
}

#[test]
fn ffmpeg_availability() {
    assert_eq!(ensure_ffmpeg_available(true), Ok(()));
    assert_eq!(
        ensure_ffmpeg_available(false),
        Err("FFmpeg is required to record video but was not found. Install FFmpeg and add it to PATH, or set KOOM_FFMPEG_PATH to the full path of ffmpeg.exe.".to_string())
    );
}

#[test]
fn file_managers() {
    assert_eq!(file_manager_program(TargetOs::Windows), Some("explorer"));
    assert_eq!(file_manager_program(TargetOs::MacOs), Some("open"));
    assert_eq!(file_manager_program(TargetOs::Linux), Some("xdg-open"));
    assert_eq!(file_manager_program(TargetOs::Other), None);
}

#[test]
fn listing_the_same_entries_twice_gives_the_same_list() {
    let entries = vec![(5, info("a")), (5, info("b")), (7, info("c")), (-1, info("d"))];
    let first = newest_first(&entries);
    let second = newest_first(&entries);
    assert_eq!(first, second);
    let ids: Vec<&str> = first.iter().map(|r| r.id.as_str()).collect();
    assert_eq!(ids, vec!["c", "a", "b", "d"]);
}

#[test]
fn webcam_loop_decisions() {
    assert!(keeps_capturing(FrameOutcome::Written));
    assert!(keeps_capturing(FrameOutcome::GrabFailed));
    assert!(keeps_capturing(FrameOutcome::DecodeFailed));
    assert!(!keeps_capturing(FrameOutcome::WriteFailed));
    assert_eq!(screen_capture_exit(true), Ok(()));
    assert_eq!(screen_capture_exit(false), Err("FFmpeg screen capture failed".to_string()));
}
