//! Turning a stopped session's capture files into the saved video and its
//! thumbnail.

use vstd::prelude::*;

use crate::media::{
    encodes, merge_all_args_of, merge_webcam_args_of, overlay_filter_of, overlay_position_of,
    merge_plan, merge_plan_matches, thumbnail_args, thumbnail_args_of, thumbnail_failure, views,
    MergePlan,
};
use crate::recordings::{thumbnail_path, thumbnail_path_of};
use crate::session::RecordingSession;
use crate::status::RecordingError;

verus! {

/// The work that saves a stopped session.
#[derive(Debug)]
pub struct FinalizePlan {
    /// How the capture files become the final video.
    pub merge: MergePlan,
    /// The final video.
    pub output: String,
    /// The thumbnail taken of the final video.
    pub thumbnail_path: String,
    /// The FFmpeg arguments that take the thumbnail.
    pub thumbnail_args: Vec<String>,
    /// What a failed thumbnail run reports (it does not fail the recording).
    pub thumbnail_failure: String,
}

/// The optional capture that goes into the final video: the file, when the
/// capture was enabled and its file is a valid recording.
pub open spec fn used_capture(enabled: bool, valid: bool, file: Seq<char>) -> Option<Seq<char>> {
    if enabled && valid {
        Some(file)
    } else {
        None
    }
}

/// Whether `plan` saves `session` given which capture files are valid.
pub open spec fn finalizes(
    plan: FinalizePlan,
    session: RecordingSession,
    webcam_valid: bool,
    audio_valid: bool,
) -> bool {
    &&& merge_plan_matches(
        plan.merge,
        session.screen_file@,
        used_capture(session.config.webcam_enabled, webcam_valid, session.webcam_file@),
        used_capture(session.config.mic_enabled, audio_valid, session.audio_file@),
        session.output_file@,
        session.config.webcam_corner@,
    )
    &&& plan.output@ == session.output_file@
    &&& plan.thumbnail_path@ == thumbnail_path_of(session.output_file@)
    &&& views(plan.thumbnail_args@) == thumbnail_args_of(
        session.output_file@,
        thumbnail_path_of(session.output_file@),
    )
    &&& plan.thumbnail_failure@ == "Thumbnail generation failed for "@ + session.output_file@
}

/// Decides how a stopped session is saved. Without a valid screen capture
/// there is nothing to save (`InvalidRecording`); the webcam and microphone
/// captures are used when they were enabled and their files are valid.
pub fn finalize_recording(
    session: &RecordingSession,
    screen_valid: bool,
    webcam_valid: bool,
    audio_valid: bool,
) -> (r: Result<FinalizePlan, RecordingError>)
    ensures
        r is Ok <==> screen_valid,
        match r {
            Ok(plan) => finalizes(plan, *session, webcam_valid, audio_valid),
            Err(e) => match e {
                RecordingError::InvalidRecording(m) => m@ == "Screen recording missing"@,
                _ => false,
            },
        },
{
    if !screen_valid {
        return Err(RecordingError::InvalidRecording(String::from_str("Screen recording missing")));
    }
    let webcam: Option<&str> = if session.config.webcam_enabled && webcam_valid {
        Some(session.webcam_file.as_str())
    } else {
        None
    };
    let audio: Option<&str> = if session.config.mic_enabled && audio_valid {
        Some(session.audio_file.as_str())
    } else {
        None
    };
    let output = session.output_file.as_str();
    let merge = merge_plan(
        session.screen_file.as_str(),
        webcam,
        audio,
        output,
        session.config.webcam_corner.as_str(),
    );
    let thumb = thumbnail_path(output);
    let args = thumbnail_args(output, thumb.as_str());
    let failure = thumbnail_failure(output);
    Ok(
        FinalizePlan {
            merge,
            output: String::from_str(output),
            thumbnail_path: thumb,
            thumbnail_args: args,
            thumbnail_failure: failure,
        },
    )
}

/// Saving a session with a valid webcam capture lays the webcam picture
/// over the screen in the corner the session was configured with: the
/// filter graph handed to FFmpeg ends in `overlay=20:20[out]` for `tl`,
/// `overlay=W-w-20:20[out]` for `tr`, `overlay=20:H-h-20[out]` for `bl`,
/// and `overlay=W-w-20:H-h-20[out]` (bottom-right) for any other name.
pub proof fn lemma_webcam_in_configured_corner(
    plan: FinalizePlan,
    session: RecordingSession,
    webcam_valid: bool,
    audio_valid: bool,
)
    requires
        finalizes(plan, session, webcam_valid, audio_valid),
        session.config.webcam_enabled,
        webcam_valid,
    ensures
        match plan.merge {
            MergePlan::Encode { args, failure: _ } => {
                let at: int = if session.config.mic_enabled && audio_valid {
                    8
                } else {
                    6
                };
                let a = views(args@);
                let corner = session.config.webcam_corner@;
                let head =
                    "[1:v]scale=320:240,format=yuva420p,geq=lum='p(X,Y)':a='if(lte(hypot(X-160,Y-120),120),255,0)'[webcam];[0:v][webcam]overlay="@;
                &&& a.len() > at
                &&& a[at - 1] == "-filter_complex"@
                &&& a[4] == session.webcam_file@
                &&& (corner == "tl"@ ==> a[at] == head + "20:20"@ + "[out]"@)
                &&& (corner == "tr"@ ==> a[at] == head + "W-w-20:20"@ + "[out]"@)
                &&& (corner == "bl"@ ==> a[at] == head + "20:H-h-20"@ + "[out]"@)
                &&& (corner != "tl"@ && corner != "tr"@ && corner != "bl"@ ==> a[at] == head
                    + "W-w-20:H-h-20"@ + "[out]"@)
            },
            MergePlan::MoveScreen => false,
        },
{
    reveal_strlit("tl");
    reveal_strlit("tr");
    reveal_strlit("bl");
    assert("tl"@[0] != "bl"@[0]);
    assert("tr"@[1] != "tl"@[1]);
    let corner = session.config.webcam_corner@;
    let filter = overlay_filter_of(overlay_position_of(corner));
    let w = session.webcam_file@;
    let screen = session.screen_file@;
    let out = session.output_file@;
    let head =
        "[1:v]scale=320:240,format=yuva420p,geq=lum='p(X,Y)':a='if(lte(hypot(X-160,Y-120),120),255,0)'[webcam];[0:v][webcam]overlay="@;
    assert(filter == head + overlay_position_of(corner) + "[out]"@);
    if corner == "tl"@ {
        assert(overlay_position_of(corner) == "20:20"@);
    } else if corner == "tr"@ {
        assert(overlay_position_of(corner) == "W-w-20:20"@);
    } else if corner == "bl"@ {
        assert(overlay_position_of(corner) == "20:H-h-20"@);
    } else {
        assert(overlay_position_of(corner) == "W-w-20:H-h-20"@);
    }
    if session.config.mic_enabled && audio_valid {
        let expected = merge_all_args_of(screen, w, session.audio_file@, out, filter);
        assert(encodes(plan.merge, expected, "FFmpeg merge (screen+webcam+audio) failed"@));
        assert(expected[8] == filter);
        assert(expected[7] == "-filter_complex"@);
        assert(expected[5] == "-i"@);
        assert(expected[4] == w);
    } else {
        let expected = merge_webcam_args_of(screen, w, out, filter);
        assert(encodes(plan.merge, expected, "FFmpeg merge (screen+webcam) failed"@));
        assert(expected[6] == filter);
        assert(expected[5] == "-filter_complex"@);
        assert(expected[3] == "-i"@);
        assert(expected[4] == w);
    }
    match plan.merge {
        MergePlan::Encode { args, failure: _ } => {
            let at: int = if session.config.mic_enabled && audio_valid {
                8
            } else {
                6
            };
            let a = views(args@);
            assert(a[at] == filter);
            assert(a[at - 1] == "-filter_complex"@);
            assert(a[4] == w);
        },
        MergePlan::MoveScreen => {},
    }
}

} // verus!
