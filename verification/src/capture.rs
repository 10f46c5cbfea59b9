//! Decisions the capture loops take on what the devices and FFmpeg report.

use vstd::prelude::*;

verus! {

/// What became of one webcam frame.
#[derive(Debug, PartialEq, Eq, Clone, Copy)]
pub enum FrameOutcome {
    /// The camera gave no frame.
    GrabFailed,
    /// The frame could not be decoded to RGB.
    DecodeFailed,
    /// The frame went to FFmpeg.
    Written,
    /// FFmpeg would not take the frame.
    WriteFailed,
}

/// Whether the webcam loop goes on after a frame: frames the camera fails
/// to give or decode are skipped, but once FFmpeg stops taking frames the
/// capture ends.
pub fn keeps_capturing(outcome: FrameOutcome) -> (r: bool)
    ensures
        r == !(outcome is WriteFailed),
{
    match outcome {
        FrameOutcome::WriteFailed => false,
        _ => true,
    }
}

/// The result of a screen capture once FFmpeg has exited: an unsuccessful
/// exit fails the capture.
pub fn screen_capture_exit(success: bool) -> (r: Result<(), String>)
    ensures
        r is Ok <==> success,
        match r {
            Ok(()) => true,
            Err(m) => m@ == "FFmpeg screen capture failed"@,
        },
{
    if success {
        Ok(())
    } else {
        Err(String::from_str("FFmpeg screen capture failed"))
    }
}

} // verus!
