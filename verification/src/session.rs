//! What a recording session is made of: its configuration, the session id,
//! the names of the files it writes, and which capture tasks it runs.

use vstd::prelude::*;

use crate::text::push_char;

verus! {

/// Lowest frame rate a session records at.
pub const MIN_FPS: u32 = 1;

/// Highest frame rate a session records at.
pub const MAX_FPS: u32 = 60;

/// A capture file below or at this size (in bytes) counts as missing.
pub const MIN_VALID_FILE_SIZE: u64 = 1024;

/// Seconds to wait for a capture task to finish once stopping.
pub const TASK_STOP_TIMEOUT_SECS: u64 = 10;

/// What the user asked for when starting a recording.
#[derive(Debug, PartialEq, Eq)]
pub struct RecordingConfig {
    pub monitor_index: usize,
    pub mic_enabled: bool,
    pub webcam_enabled: bool,
    pub webcam_index: usize,
    pub webcam_corner: String,
    pub fps: u32,
}

/// `fps` limited to the range `MIN_FPS..=MAX_FPS`.
pub open spec fn clamped_fps(fps: u32) -> u32 {
    if fps < MIN_FPS {
        MIN_FPS
    } else if fps > MAX_FPS {
        MAX_FPS
    } else {
        fps
    }
}

/// The frame rate a session records at for a requested `fps`.
pub fn clamp_fps(fps: u32) -> (r: u32)
    ensures
        r == clamped_fps(fps),
        MIN_FPS <= r <= MAX_FPS,
        MIN_FPS <= fps <= MAX_FPS ==> r == fps,
        fps < MIN_FPS ==> r == MIN_FPS,
        fps > MAX_FPS ==> r == MAX_FPS,
{
    if fps < MIN_FPS {
        MIN_FPS
    } else if fps > MAX_FPS {
        MAX_FPS
    } else {
        fps
    }
}

/// Limiting the frame rate keeps a rate inside `MIN_FPS..=MAX_FPS` as it
/// was, raises one below it to `MIN_FPS`, and lowers one above it to
/// `MAX_FPS`.
pub proof fn lemma_frame_rate_limits(fps: u32)
    ensures
        MIN_FPS <= clamped_fps(fps) <= MAX_FPS,
        MIN_FPS <= fps <= MAX_FPS ==> clamped_fps(fps) == fps,
        fps < MIN_FPS ==> clamped_fps(fps) == MIN_FPS,
        fps > MAX_FPS ==> clamped_fps(fps) == MAX_FPS,
        MIN_FPS == 1 && MAX_FPS == 60,
{
}

impl RecordingConfig {
    /// A field-by-field copy.
    pub fn duplicate(&self) -> (r: Self)
        ensures
            r == *self,
    {
        RecordingConfig {
            monitor_index: self.monitor_index,
            mic_enabled: self.mic_enabled,
            webcam_enabled: self.webcam_enabled,
            webcam_index: self.webcam_index,
            webcam_corner: self.webcam_corner.clone(),
            fps: self.fps,
        }
    }

    /// The configuration a session keeps: the same, with the frame rate
    /// clamped to `MIN_FPS..=MAX_FPS`.
    pub fn normalized(self) -> (r: Self)
        ensures
            r.fps == clamped_fps(self.fps),
            r.monitor_index == self.monitor_index,
            r.mic_enabled == self.mic_enabled,
            r.webcam_enabled == self.webcam_enabled,
            r.webcam_index == self.webcam_index,
            r.webcam_corner == self.webcam_corner,
    {
        let fps = clamp_fps(self.fps);
        RecordingConfig { fps, ..self }
    }
}

/// Which capture tasks a session runs: the screen always, the webcam and
/// the microphone when enabled.
#[derive(Debug, PartialEq, Eq, Clone, Copy)]
pub struct CapturePlan {
    pub screen: bool,
    pub webcam: bool,
    pub audio: bool,
}

/// The capture tasks that `config` asks for.
pub fn capture_plan(config: &RecordingConfig) -> (r: CapturePlan)
    ensures
        r.screen,
        r.webcam == config.webcam_enabled,
        r.audio == config.mic_enabled,
{
    CapturePlan { screen: true, webcam: config.webcam_enabled, audio: config.mic_enabled }
}

/// A recording in progress: its id, where its capture files go, and its
/// (normalized) configuration.
#[derive(Debug, PartialEq, Eq)]
pub struct RecordingSession {
    pub id: String,
    pub temp_dir: String,
    pub screen_file: String,
    pub webcam_file: String,
    pub audio_file: String,
    pub output_file: String,
    pub config: RecordingConfig,
}

impl RecordingSession {
    /// A session with the given id and files, keeping `config` normalized.
    pub fn new(
        id: String,
        temp_dir: String,
        screen_file: String,
        webcam_file: String,
        audio_file: String,
        output_file: String,
        config: RecordingConfig,
    ) -> (r: Self)
        ensures
            r.id == id,
            r.temp_dir == temp_dir,
            r.screen_file == screen_file,
            r.webcam_file == webcam_file,
            r.audio_file == audio_file,
            r.output_file == output_file,
            r.config.fps == clamped_fps(config.fps),
            r.config.monitor_index == config.monitor_index,
            r.config.mic_enabled == config.mic_enabled,
            r.config.webcam_enabled == config.webcam_enabled,
            r.config.webcam_index == config.webcam_index,
            r.config.webcam_corner == config.webcam_corner,
    {
        RecordingSession {
            id,
            temp_dir,
            screen_file,
            webcam_file,
            audio_file,
            output_file,
            config: config.normalized(),
        }
    }

    /// A field-by-field copy.
    pub fn duplicate(&self) -> (r: Self)
        ensures
            r == *self,
    {
        RecordingSession {
            id: self.id.clone(),
            temp_dir: self.temp_dir.clone(),
            screen_file: self.screen_file.clone(),
            webcam_file: self.webcam_file.clone(),
            audio_file: self.audio_file.clone(),
            output_file: self.output_file.clone(),
            config: self.config.duplicate(),
        }
    }
}

/// Name of the directory, under the user's videos directory (or the
/// temporary directory where there is none), that the saved videos go to.
pub const OUTPUT_DIR_NAME: &'static str = "Koom";

/// Name of the directory, under the system's temporary directory, that
/// holds the sessions' capture files.
pub const TEMP_ROOT_NAME: &'static str = "koom";

/// Name of the screen capture file inside a session's directory.
pub const SCREEN_FILE_NAME: &'static str = "screen.mp4";

/// Name of the webcam capture file inside a session's directory.
pub const WEBCAM_FILE_NAME: &'static str = "webcam.mp4";

/// Name of the microphone capture file inside a session's directory.
pub const AUDIO_FILE_NAME: &'static str = "audio.wav";

/// Whether `c` is a lower-case hexadecimal digit.
pub open spec fn is_lower_hex(c: char) -> bool {
    ('0' <= c && c <= '9') || ('a' <= c && c <= 'f')
}

/// The shape of a random (version 4) UUID in hyphenated lower-case form,
/// such as `67e55044-10b1-426f-9247-bb680e5fe0c8`.
pub open spec fn is_session_id(s: Seq<char>) -> bool {
    &&& s.len() == 36
    &&& forall|i: int|
        0 <= i < 36 ==> if i == 8 || i == 13 || i == 18 || i == 23 {
            s[i] == '-'
        } else {
            is_lower_hex(#[trigger] s[i])
        }
    &&& s[14] == '4'
}

/// `uuid::Uuid::new_v4` rendered by `to_string`. The crate masks a random
/// 128-bit number to version 4 and formats it hyphenated in lower case
/// (36 characters, hyphens at positions 8, 13, 18 and 23, hexadecimal digits
/// elsewhere, `4` at position 14). Which digits come back is chance; only the
/// shape is stated.
#[verifier::external_body]
fn random_uuid_string() -> (r: String)
    ensures
        is_session_id(r@),
{
    uuid::Uuid::new_v4().to_string()
}

/// `id` followed by `.mp4`.
pub open spec fn output_file_name_of(id: Seq<char>) -> Seq<char> {
    id + seq!['.', 'm', 'p', '4']
}

/// The name of the final video of session `id`: `<id>.mp4`.
pub fn output_file_name(id: &str) -> (r: String)
    ensures
        r@ == output_file_name_of(id@),
{
    let mut s = String::from_str(id);
    push_char(&mut s, '.');
    push_char(&mut s, 'm');
    push_char(&mut s, 'p');
    push_char(&mut s, '4');
    proof {
        assert(s@ =~= output_file_name_of(id@));
    }
    s
}

/// A fresh session id and the name of the video it will produce.
#[derive(Debug)]
pub struct SessionNames {
    pub id: String,
    pub output_file_name: String,
}

/// Draws a fresh random session id (a version 4 UUID) and names the final
/// video after it. Which id comes back is chance; its shape is stated.
pub fn new_session_names() -> (r: SessionNames)
    ensures
        is_session_id(r.id@),
        r.output_file_name@ == output_file_name_of(r.id@),
{
    let id = random_uuid_string();
    let output_file_name = output_file_name(id.as_str());
    SessionNames { id, output_file_name }
}

/// A capture file counts as recorded when it exists and holds more than
/// `MIN_VALID_FILE_SIZE` bytes.
pub fn is_valid_capture_file(exists: bool, size: u64) -> (r: bool)
    ensures
        r == (exists && size > MIN_VALID_FILE_SIZE),
{
    exists && size > MIN_VALID_FILE_SIZE
}

} // verus!
