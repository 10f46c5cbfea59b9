//! The recording lifecycle: the status a recorder reports, the errors it
//! answers refused or failed requests with, and the transitions between
//! statuses that starting and stopping a recording go through.

use vstd::prelude::*;

use crate::session::RecordingSession;

verus! {

/// Where the recorder stands.
#[derive(Debug, PartialEq, Eq)]
pub enum RecordingStatus {
    Idle,
    Starting,
    Recording,
    Stopping,
    Merging,
    Error(String),
}

/// Why a recording request was refused or failed.
#[derive(Debug, PartialEq, Eq)]
pub enum RecordingError {
    AlreadyRecording,
    NoActiveRecording,
    InvalidRecording(String),
    TaskTimeout,
    Merge(String),
    Io(String),
    Capture(String),
}

/// The text that describes an error to the user.
pub open spec fn error_message(e: RecordingError) -> Seq<char> {
    match e {
        RecordingError::AlreadyRecording => "Already recording"@,
        RecordingError::NoActiveRecording => "No active recording"@,
        RecordingError::InvalidRecording(s) => "Invalid recording file: "@ + s@,
        RecordingError::TaskTimeout => "Task timeout"@,
        RecordingError::Merge(s) => "Merge failed: "@ + s@,
        RecordingError::Io(s) => "IO error: "@ + s@,
        RecordingError::Capture(s) => "Capture error: "@ + s@,
    }
}

/// `prefix` followed by `detail`.
fn prefixed(prefix: &str, detail: &String) -> (r: String)
    ensures
        r@ == prefix@ + detail@,
{
    let mut s = String::from_str(prefix);
    s.append(detail.as_str());
    s
}

impl RecordingError {
    /// The text that describes this error to the user.
    pub fn message(&self) -> (r: String)
        ensures
            r@ == error_message(*self),
    {
        match self {
            RecordingError::AlreadyRecording => String::from_str("Already recording"),
            RecordingError::NoActiveRecording => String::from_str("No active recording"),
            RecordingError::InvalidRecording(s) => prefixed("Invalid recording file: ", s),
            RecordingError::TaskTimeout => String::from_str("Task timeout"),
            RecordingError::Merge(s) => prefixed("Merge failed: ", s),
            RecordingError::Io(s) => prefixed("IO error: ", s),
            RecordingError::Capture(s) => prefixed("Capture error: ", s),
        }
    }
}

/// The word a status is reported by; an error status reports `error: `
/// followed by its message.
pub open spec fn status_label_of(s: RecordingStatus) -> Seq<char> {
    match s {
        RecordingStatus::Idle => "idle"@,
        RecordingStatus::Starting => "starting"@,
        RecordingStatus::Recording => "recording"@,
        RecordingStatus::Stopping => "stopping"@,
        RecordingStatus::Merging => "merging"@,
        RecordingStatus::Error(e) => "error: "@ + e@,
    }
}

impl RecordingStatus {
    /// The word this status is reported by.
    pub fn label(&self) -> (r: String)
        ensures
            r@ == status_label_of(*self),
    {
        match self {
            RecordingStatus::Idle => String::from_str("idle"),
            RecordingStatus::Starting => String::from_str("starting"),
            RecordingStatus::Recording => String::from_str("recording"),
            RecordingStatus::Stopping => String::from_str("stopping"),
            RecordingStatus::Merging => String::from_str("merging"),
            RecordingStatus::Error(e) => prefixed("error: ", e),
        }
    }

    /// A copy of this status.
    pub fn duplicate(&self) -> (r: Self)
        ensures
            r == *self,
    {
        match self {
            RecordingStatus::Idle => RecordingStatus::Idle,
            RecordingStatus::Starting => RecordingStatus::Starting,
            RecordingStatus::Recording => RecordingStatus::Recording,
            RecordingStatus::Stopping => RecordingStatus::Stopping,
            RecordingStatus::Merging => RecordingStatus::Merging,
            RecordingStatus::Error(e) => RecordingStatus::Error(e.clone()),
        }
    }
}

/// The recorder: the status it reports and the session it is working on.
#[derive(Debug)]
pub struct Recorder {
    pub status: RecordingStatus,
    pub session: Option<RecordingSession>,
}

impl Recorder {
    /// The recorder after `mark_starting`.
    pub open spec fn starting(self) -> Self {
        Recorder { status: RecordingStatus::Starting, ..self }
    }

    /// The recorder after `session_started(session)`.
    pub open spec fn with_session(self, session: RecordingSession) -> Self {
        Recorder { session: Some(session), ..self }
    }

    /// The recorder after `mark_recording`.
    pub open spec fn recording(self) -> Self {
        Recorder { status: RecordingStatus::Recording, ..self }
    }

    /// The recorder after `begin_stop`.
    pub open spec fn stopping(self) -> Self {
        if self.status is Recording {
            Recorder { status: RecordingStatus::Stopping, ..self }
        } else {
            self
        }
    }

    /// The recorder after `mark_merging`.
    pub open spec fn merging(self) -> Self {
        Recorder { status: RecordingStatus::Merging, ..self }
    }

    /// The recorder after `finish_stop(outcome)`: idle and without a session
    /// when finalizing succeeded, reporting the failure otherwise.
    pub open spec fn finished(self, outcome: Result<(), String>) -> Self {
        match outcome {
            Ok(()) => Recorder { status: RecordingStatus::Idle, session: None },
            Err(msg) => Recorder { status: RecordingStatus::Error(msg), ..self },
        }
    }

    /// A recorder that has never recorded: idle, without a session.
    pub fn new() -> (r: Self)
        ensures
            r.status == RecordingStatus::Idle,
            r.session is None,
    {
        Recorder { status: RecordingStatus::Idle, session: None }
    }

    /// The word the current status is reported by.
    pub fn status_label(&self) -> (r: String)
        ensures
            r@ == status_label_of(self.status),
    {
        self.status.label()
    }

    /// Whether a recording may start: only an idle recorder starts one; any
    /// other status refuses with `AlreadyRecording`.
    pub fn check_can_start(&self) -> (r: Result<(), RecordingError>)
        ensures
            r is Ok <==> self.status is Idle,
            r is Err ==> r == Err::<(), RecordingError>(RecordingError::AlreadyRecording),
    {
        match self.status {
            RecordingStatus::Idle => Ok(()),
            _ => Err(RecordingError::AlreadyRecording),
        }
    }

    /// The recording is being set up.
    pub fn mark_starting(&mut self)
        ensures
            *final(self) == old(self).starting(),
    {
        self.status = RecordingStatus::Starting;
    }

    /// The session of the recording being set up is known.
    pub fn session_started(&mut self, session: RecordingSession)
        ensures
            *final(self) == old(self).with_session(session),
    {
        self.session = Some(session);
    }

    /// All capture tasks run.
    pub fn mark_recording(&mut self)
        ensures
            *final(self) == old(self).recording(),
    {
        self.status = RecordingStatus::Recording;
    }

    /// A stop request: only a recording recorder stops, and it moves to
    /// `Stopping`; any other status refuses with `NoActiveRecording` and is
    /// left as it was.
    pub fn begin_stop(&mut self) -> (r: Result<(), RecordingError>)
        ensures
            r is Ok <==> old(self).status is Recording,
            r is Err ==> r == Err::<(), RecordingError>(RecordingError::NoActiveRecording),
            *final(self) == old(self).stopping(),
    {
        match self.status {
            RecordingStatus::Recording => {
                self.status = RecordingStatus::Stopping;
                Ok(())
            },
            _ => Err(RecordingError::NoActiveRecording),
        }
    }

    /// The capture tasks have finished and the files are being merged:
    /// hands out a copy of the current session, or `NoActiveRecording` when
    /// there is none.
    pub fn mark_merging(&mut self) -> (r: Result<RecordingSession, RecordingError>)
        ensures
            *final(self) == old(self).merging(),
            match old(self).session {
                Some(s) => r == Ok::<RecordingSession, RecordingError>(s),
                None => r == Err::<RecordingSession, RecordingError>(
                    RecordingError::NoActiveRecording,
                ),
            },
    {
        self.status = RecordingStatus::Merging;
        match &self.session {
            Some(s) => Ok(s.duplicate()),
            None => Err(RecordingError::NoActiveRecording),
        }
    }

    /// Finalizing is over: on success the recorder is idle again and drops
    /// the session; on failure it reports the failure's message.
    pub fn finish_stop(&mut self, outcome: Result<(), String>)
        ensures
            *final(self) == old(self).finished(outcome),
    {
        match outcome {
            Ok(()) => {
                self.status = RecordingStatus::Idle;
                self.session = None;
            },
            Err(msg) => {
                self.status = RecordingStatus::Error(msg);
            },
        }
    }
}

/// The reported label tells the statuses apart: two statuses with the same
/// label are the same status, and two error statuses with the same label
/// carry the same message.
pub proof fn lemma_labels_tell_statuses_apart(a: RecordingStatus, b: RecordingStatus)
    requires
        status_label_of(a) == status_label_of(b),
    ensures
        a is Idle <==> b is Idle,
        a is Starting <==> b is Starting,
        a is Recording <==> b is Recording,
        a is Stopping <==> b is Stopping,
        a is Merging <==> b is Merging,
        a is Error <==> b is Error,
        (a is Error && b is Error) ==> a->Error_0@ == b->Error_0@,
{
    reveal_strlit("idle");
    reveal_strlit("starting");
    reveal_strlit("recording");
    reveal_strlit("stopping");
    reveal_strlit("merging");
    reveal_strlit("error: ");
    let la = status_label_of(a);
    let lb = status_label_of(b);
    assert(la[0] == lb[0]);
    if la.len() > 2 {
        assert(la[2] == lb[2]);
    }
    if a is Error && b is Error {
        assert(la.skip(7) =~= a->Error_0@);
        assert(lb.skip(7) =~= b->Error_0@);
    }
}

/// A recording that starts from an idle recorder and is saved brings the
/// recorder back to where a fresh one stands: idle, without a session,
/// ready to start the next recording. Along the way the recorder reports
/// `Recording` with the session, and merging hands out that same session.
pub proof fn lemma_recording_cycle(r: Recorder, session: RecordingSession)
    requires
        r.status is Idle,
    ensures
        ({
            let recording = r.starting().with_session(session).recording();
            &&& recording.status is Recording
            &&& recording.session == Some(session)
            &&& recording.stopping().status is Stopping
            &&& recording.stopping().merging().session == Some(session)
            &&& recording.stopping().merging().finished(Ok(())) == Recorder {
                status: RecordingStatus::Idle,
                session: None,
            }
        }),
{
}

/// A stop request that finds no recording in progress is refused and
/// changes nothing.
pub proof fn lemma_refused_stop_changes_nothing(r: Recorder)
    requires
        !(r.status is Recording),
    ensures
        r.stopping() == r,
{
}

/// When saving fails, the recorder reports the failure (`error: ` and its
/// message) and, no longer being idle, refuses to start a new recording.
pub proof fn lemma_failed_save_is_reported(r: Recorder, msg: String)
    ensures
        r.finished(Err(msg)).status == RecordingStatus::Error(msg),
        status_label_of(r.finished(Err(msg)).status) == "error: "@ + msg@,
        !(r.finished(Err(msg)).status is Idle),
{
}

} // verus!
