use koom::media::{
    desktop_capture_args, merge_plan, overlay_filter, overlay_position, screen_capture_args,
    thumbnail_args, thumbnail_failure, video_size, webcam_capture_args, MergePlan,
};
use koom::text::{i64_to_decimal, replace_str, str_equal, u64_to_decimal};

fn strs(v: &[&str]) -> Vec<String> {
    v.iter().map(|s| s.to_string()).collect()
}

const FILTER_BR: &str = "[1:v]scale=320:240,format=yuva420p,geq=lum='p(X,Y)':a='if(lte(hypot(X-160,Y-120),120),255,0)'[webcam];[0:v][webcam]overlay=W-w-20:H-h-20[out]";

#[test]
fn decimal_rendering_matches_to_string() {
    for n in [0u64, 7, 10, 99, 1234, 4_000_000_000, u64::MAX] {
        assert_eq!(u64_to_decimal(n), n.to_string());
    }
    for n in [0i64, -1, -45, 1920, i64::MIN, i64::MAX] {
        assert_eq!(i64_to_decimal(n), n.to_string());
    }
}

#[test]
fn replace_matches_str_replace() {
    let cases = [
        ("/videos/abc.mp4", ".mp4", "_thumb.jpg"),
        ("a.mp4.mp4", ".mp4", ""),
        ("no extension", ".mp4", "_thumb.jpg"),
        ("aaaa", "aa", "b"),
        ("", ".mp4", "x"),
        ("x.mp", ".mp4", "y"),
        ("é.mp4ü", ".mp4", "→"),
    ];
    for (s, pat, rep) in cases {
        assert_eq!(replace_str(s, pat, rep), s.replace(pat, rep));
    }
}

#[test]
fn string_equality() {
    assert!(str_equal("br", "br"));
    assert!(!str_equal("br", "bl"));
    assert!(!str_equal("br", "b"));
    assert!(str_equal("", ""));
}

#[test]
fn overlay_corners() {
    assert_eq!(overlay_position("br"), "W-w-20:H-h-20");
    assert_eq!(overlay_position("bl"), "20:H-h-20");
    assert_eq!(overlay_position("tr"), "W-w-20:20");
    assert_eq!(overlay_position("tl"), "20:20");
    assert_eq!(overlay_position("middle"), "W-w-20:H-h-20");
    assert_eq!(overlay_position(""), "W-w-20:H-h-20");
    assert_eq!(overlay_filter("xx"), FILTER_BR);
    assert_eq!(
        overlay_filter("tl"),
        FILTER_BR.replace("W-w-20:H-h-20", "20:20")
    );
}

#[test]
fn merge_with_webcam_and_audio() {
    let plan = merge_plan("s.mp4", Some("w.mp4"), Some("a.wav"), "out.mp4", "br");
    assert_eq!(
        plan,
        MergePlan::Encode {
            args: strs(&[
                "-y", "-i", "s.mp4", "-i", "w.mp4", "-i", "a.wav", "-filter_complex", FILTER_BR,
                "-map", "[out]", "-map", "2:a", "-c:v", "libx264", "-pix_fmt", "yuv420p",
                "-preset", "fast", "-crf", "22", "-c:a", "aac", "-b:a", "192k", "out.mp4",
            ]),
            failure: "FFmpeg merge (screen+webcam+audio) failed".to_string(),
        }
    );
}

#[test]
fn merge_with_audio_only() {
    let plan = merge_plan("s.mp4", None, Some("a.wav"), "out.mp4", "tl");
    assert_eq!(
        plan,
        MergePlan::Encode {
            args: strs(&[
                "-y", "-i", "s.mp4", "-i", "a.wav", "-c:v", "copy", "-c:a", "aac", "-b:a", "192k",
                "out.mp4",
            ]),
            failure: "FFmpeg merge (screen+audio) failed".to_string(),
        }
    );
}

#[test]
fn merge_with_webcam_only() {
    let plan = merge_plan("s.mp4", Some("w.mp4"), None, "out.mp4", "bl");
    let filter = FILTER_BR.replace("W-w-20:H-h-20", "20:H-h-20");
    assert_eq!(
        plan,
        MergePlan::Encode {
            args: strs(&[
                "-y", "-i", "s.mp4", "-i", "w.mp4", "-filter_complex", &filter, "-map", "[out]",
                "-c:v", "libx264", "-pix_fmt", "yuv420p", "-preset", "fast", "-crf", "22",
                "out.mp4",
            ]),
            failure: "FFmpeg merge (screen+webcam) failed".to_string(),
        }
    );
}

#[test]
fn merge_screen_only_moves_the_file() {
    assert_eq!(merge_plan("s.mp4", None, None, "out.mp4", "br"), MergePlan::MoveScreen);
}

#[test]
fn merge_always_reads_screen_and_writes_output() {
    for (w, a) in [(Some("w"), Some("a")), (None, Some("a")), (Some("w"), None)] {
        match merge_plan("screen", w, a, "final", "tr") {
            MergePlan::Encode { args, .. } => {
                assert_eq!(args[0], "-y");
                assert_eq!(args[1], "-i");
                assert_eq!(args[2], "screen");
                assert_eq!(args.last().unwrap(), "final");
            }
            MergePlan::MoveScreen => panic!("expected an FFmpeg run"),
        }
    }
}

#[test]
fn thumbnail_command() {
    assert_eq!(
        thumbnail_args("v.mp4", "v_thumb.jpg"),
        strs(&[
            "-y", "-i", "v.mp4", "-ss", "00:00:00.000", "-vframes", "1", "-vf", "scale=400:-1",
            "v_thumb.jpg",
        ])
    );
    assert_eq!(thumbnail_failure("v.mp4"), "Thumbnail generation failed for v.mp4");
}

#[test]
fn capture_commands() {
    assert_eq!(video_size(1920, 1080), "1920x1080");
    assert_eq!(
        screen_capture_args(2560, 1440, 30, "/tmp/s.mp4"),
        strs(&[
            "-y", "-f", "rawvideo", "-pixel_format", "rgba", "-video_size", "2560x1440",
            "-framerate", "30", "-i", "-", "-c:v", "libx264", "-pix_fmt", "yuv420p", "-preset",
            "ultrafast", "-tune", "zerolatency", "-crf", "23", "/tmp/s.mp4",
        ])
    );
    assert_eq!(
        webcam_capture_args(1280, 720, 60, "w.mp4"),
        strs(&[
            "-y", "-f", "rawvideo", "-pixel_format", "rgb24", "-video_size", "1280x720",
            "-framerate", "60", "-i", "-", "-c:v", "libx264", "-pix_fmt", "yuv420p", "-preset",
            "ultrafast", "-tune", "zerolatency", "-crf", "23", "w.mp4",
        ])
    );
    assert_eq!(
        desktop_capture_args(-1920, 0, 1920, 1080, 15, "d.mp4"),
        strs(&[
            "-y", "-f", "gdigrab", "-framerate", "15", "-offset_x", "-1920", "-offset_y", "0",
            "-video_size", "1920x1080", "-i", "desktop", "-c:v", "libx264", "-pix_fmt",
            "yuv420p", "-preset", "ultrafast", "-tune", "zerolatency", "-crf", "25", "d.mp4",
        ])
    );
}
