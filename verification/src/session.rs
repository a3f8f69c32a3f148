//! The state of one merging session: the user's choices, the probed streams
//! of the external file, the log, and whether a merge is running.

use vstd::prelude::*;
use vstd::string::*;
use crate::probe::{
    get_all_audio_tracks, probe_announcement, spec_output_text, spec_probe_announcement,
    spec_probe_streams, spec_stream_lines, spec_texts, stream_lines,
};
use crate::stream::{
    has_stream_index, select_preferred_track, spec_has_index, spec_select_preferred,
    spec_stream_views, AudioStream, StreamView,
};
use crate::text::{decimal_string, spec_decimal};

verus! {

/// Mathematical value of a session.
pub struct SessionView {
    pub video_path: Option<Seq<char>>,
    pub audio_path: Option<Seq<char>>,
    pub output_path: Option<Seq<char>>,
    pub audio_tracks: Seq<StreamView>,
    pub selected_track: Option<u32>,
    pub logs: Seq<Seq<char>>,
    pub is_merging: bool,
    pub show_logs: bool,
}

/// Why a merge was not started.
#[derive(Debug, Clone, Copy, PartialEq, Eq, Structural)]
pub enum StartError {
    /// No video file has been chosen.
    MissingVideo,
    /// No external audio file has been chosen.
    MissingAudio,
    /// No output file has been chosen.
    MissingOutput,
    /// No stream of the external file has been chosen.
    MissingTrack,
    /// A merge is already running.
    MergeInProgress,
}

/// Mathematical value of a merge request.
pub struct RequestView {
    pub video_path: Seq<char>,
    pub audio_path: Seq<char>,
    pub track: u32,
    pub output_path: Seq<char>,
}

/// What a started merge works on: copies of the user's choices, taken at the
/// moment the merge starts.
#[derive(Debug)]
pub struct MergeRequest {
    pub video_path: String,
    pub audio_path: String,
    pub track: u32,
    pub output_path: String,
}

impl View for MergeRequest {
    type V = RequestView;

    open spec fn view(&self) -> RequestView {
        RequestView {
            video_path: self.video_path@,
            audio_path: self.audio_path@,
            track: self.track,
            output_path: self.output_path@,
        }
    }
}

/// What a running merge reports to the session.
#[derive(Debug)]
pub enum WorkerEvent {
    /// A line for the log.
    Log(String),
    /// The merge has ended, in success or failure.
    Done,
}

/// The session.
pub struct AudioMergerApp {
    video_path: Option<String>,
    audio_path: Option<String>,
    output_path: Option<String>,
    audio_tracks: Vec<AudioStream>,
    selected_track: Option<u32>,
    logs: Vec<String>,
    is_merging: bool,
    show_logs: bool,
}

/// The value of an optional string.
pub open spec fn spec_optional_text(text: Option<String>) -> Option<Seq<char>> {
    match text {
        Some(s) => Some(s@),
        None => None,
    }
}

/// The language that is chosen by itself in the external file.
pub open spec fn spec_auto_language() -> Seq<char> {
    "por"@
}

/// The session before anything was chosen.
pub open spec fn spec_initial() -> SessionView {
    SessionView {
        video_path: None,
        audio_path: None,
        output_path: None,
        audio_tracks: Seq::empty(),
        selected_track: None,
        logs: Seq::empty(),
        is_merging: false,
        show_logs: false,
    }
}

/// The session with one more line in its log.
pub open spec fn spec_logged(session: SessionView, line: Seq<char>) -> SessionView {
    SessionView { logs: session.logs.push(line), ..session }
}

/// A chosen stream is always one of the probed streams of the external file.
pub open spec fn spec_well_formed(session: SessionView) -> bool {
    session.selected_track matches Some(index) ==> spec_has_index(session.audio_tracks, index)
}

/// The log line that reports the probing of the external file.
pub open spec fn spec_probe_report(tracks: Seq<StreamView>) -> Seq<char> {
    match spec_select_preferred(tracks, spec_auto_language()) {
        Some(index) => "Auto-selected Portuguese track "@ + spec_decimal(index as nat),
        None => if tracks.len() == 0 {
            "No audio streams found in external file."@
        } else {
            "Please select an audio stream from the dropdown."@
        },
    }
}

/// The session after the external file was probed with the given output:
/// unchanged where no external file is chosen; else the streams are
/// replaced, the first stream in the automatic language is chosen, and the
/// log grows by the announcement, one line for each stream, and the report.
pub open spec fn spec_probed(session: SessionView, probe_output: Option<Seq<char>>) -> SessionView {
    match session.audio_path {
        None => session,
        Some(path) => {
            let tracks = spec_probe_streams(probe_output);
            SessionView {
                audio_tracks: tracks,
                selected_track: spec_select_preferred(tracks, spec_auto_language()),
                logs: (session.logs.push(spec_probe_announcement(path)) + spec_stream_lines(
                    tracks,
                )).push(spec_probe_report(tracks)),
                ..session
            }
        },
    }
}

/// The answer to a request to start a merge: the first missing choice, in
/// the order video, audio, output, stream; then a merge that is already
/// running; else the request.
pub open spec fn spec_start_outcome(session: SessionView) -> Result<RequestView, StartError> {
    if session.video_path is None {
        Err(StartError::MissingVideo)
    } else if session.audio_path is None {
        Err(StartError::MissingAudio)
    } else if session.output_path is None {
        Err(StartError::MissingOutput)
    } else if session.selected_track is None {
        Err(StartError::MissingTrack)
    } else if session.is_merging {
        Err(StartError::MergeInProgress)
    } else {
        Ok(
            RequestView {
                video_path: session.video_path.unwrap(),
                audio_path: session.audio_path.unwrap(),
                track: session.selected_track.unwrap(),
                output_path: session.output_path.unwrap(),
            },
        )
    }
}

/// The log line for a refusal to start.
pub open spec fn spec_refusal_message(error: StartError) -> Seq<char> {
    match error {
        StartError::MissingVideo => "Error: select video file"@,
        StartError::MissingAudio => "Error: select audio file"@,
        StartError::MissingOutput => "Error: select output file"@,
        StartError::MissingTrack => "Error: pick audio stream"@,
        StartError::MergeInProgress => "Merge already in progress"@,
    }
}

/// The log line for a started merge.
pub open spec fn spec_start_message(request: RequestView) -> Seq<char> {
    "Merging: video='"@ + request.video_path + "', audio='"@ + request.audio_path + "', track="@
        + spec_decimal(request.track as nat) + ", output='"@ + request.output_path + "'"@
}

/// The session after a request to start a merge: one line is logged, and
/// the session is busy where it was busy or the merge was started.
pub open spec fn spec_after_start(session: SessionView) -> SessionView {
    match spec_start_outcome(session) {
        Ok(request) => SessionView {
            logs: session.logs.push(spec_start_message(request)),
            is_merging: true,
            ..session
        },
        Err(error) => spec_logged(session, spec_refusal_message(error)),
    }
}

/// The session after a report of the running merge: a line is logged as it
/// is; the end of the merge clears the busy state and is logged.
pub open spec fn spec_after_event(session: SessionView, event: WorkerEvent) -> SessionView {
    match event {
        WorkerEvent::Log(line) => spec_logged(session, line@),
        WorkerEvent::Done => SessionView {
            logs: session.logs.push("Merge thread finished"@),
            is_merging: false,
            ..session
        },
    }
}

impl View for AudioMergerApp {
    type V = SessionView;

    closed spec fn view(&self) -> SessionView {
        SessionView {
            video_path: spec_optional_text(self.video_path),
            audio_path: spec_optional_text(self.audio_path),
            output_path: spec_optional_text(self.output_path),
            audio_tracks: spec_stream_views(self.audio_tracks@),
            selected_track: self.selected_track,
            logs: spec_texts(self.logs@),
            is_merging: self.is_merging,
            show_logs: self.show_logs,
        }
    }
}

impl Default for AudioMergerApp {
    /// A session in which nothing is chosen, nothing is logged and no merge
    /// is running.
    fn default() -> (app: AudioMergerApp)
        ensures
            app@ == spec_initial(),
    {
        let app = AudioMergerApp {
            video_path: None,
            audio_path: None,
            output_path: None,
            audio_tracks: Vec::new(),
            selected_track: None,
            logs: Vec::new(),
            is_merging: false,
            show_logs: false,
        };
        assert(app@.audio_tracks =~= Seq::<StreamView>::empty());
        assert(app@.logs =~= Seq::<Seq<char>>::empty());
        app
    }
}

impl AudioMergerApp {
    #[verifier::type_invariant]
    closed spec fn selection_is_probed(self) -> bool {
        spec_well_formed(self@)
    }

    /// The chosen video file.
    pub fn video_path(&self) -> (path: &Option<String>)
        ensures
            spec_optional_text(*path) == self@.video_path,
    {
        &self.video_path
    }

    /// The chosen external audio file.
    pub fn audio_path(&self) -> (path: &Option<String>)
        ensures
            spec_optional_text(*path) == self@.audio_path,
    {
        &self.audio_path
    }

    /// The chosen output file.
    pub fn output_path(&self) -> (path: &Option<String>)
        ensures
            spec_optional_text(*path) == self@.output_path,
    {
        &self.output_path
    }

    /// The probed audio streams of the external file.
    pub fn audio_tracks(&self) -> (tracks: &Vec<AudioStream>)
        ensures
            spec_stream_views(tracks@) == self@.audio_tracks,
    {
        &self.audio_tracks
    }

    /// The chosen stream of the external file; it is one of the probed
    /// streams.
    pub fn selected_track(&self) -> (track: Option<u32>)
        ensures
            track == self@.selected_track,
            track matches Some(index) ==> spec_has_index(self@.audio_tracks, index),
    {
        proof {
            use_type_invariant(self);
        }
        self.selected_track
    }

    /// The log, oldest line first.
    pub fn logs(&self) -> (lines: &Vec<String>)
        ensures
            spec_texts(lines@) == self@.logs,
    {
        &self.logs
    }

    /// Whether a merge is running.
    pub fn is_merging(&self) -> (busy: bool)
        ensures
            busy == self@.is_merging,
    {
        self.is_merging
    }

    /// Whether the log is shown.
    pub fn show_logs(&self) -> (shown: bool)
        ensures
            shown == self@.show_logs,
    {
        self.show_logs
    }

    /// Whether the user has to choose a stream: streams are known and none
    /// is chosen.
    pub fn needs_track_choice(&self) -> (needed: bool)
        ensures
            needed == (self@.selected_track is None && self@.audio_tracks.len() > 0),
    {
        self.selected_track.is_none() && self.audio_tracks.len() > 0
    }

    /// Appends a line to the log.
    pub fn append_log(&mut self, msg: &str)
        ensures
            final(self)@ == spec_logged(old(self)@, msg@),
    {
        proof {
            use_type_invariant(&*self);
        }
        let mut lines: Vec<String> = Vec::new();
        std::mem::swap(&mut self.logs, &mut lines);
        lines.push(String::from_str(msg));
        self.logs = lines;
        assert(spec_texts(self.logs@) =~= spec_texts(old(self).logs@).push(msg@));
    }

    /// Shows the log where it was hidden, hides it where it was shown.
    pub fn toggle_logs(&mut self)
        ensures
            final(self)@ == (SessionView { show_logs: !old(self)@.show_logs, ..old(self)@ }),
    {
        proof {
            use_type_invariant(&*self);
        }
        self.show_logs = !self.show_logs;
    }

    /// Records the choice of the video file and logs it.
    pub fn set_video_path(&mut self, path: &str)
        ensures
            final(self)@ == (SessionView {
                video_path: Some(path@),
                logs: old(self)@.logs.push("Video: "@ + path@),
                ..old(self)@
            }),
    {
        proof {
            use_type_invariant(&*self);
        }
        self.video_path = Some(String::from_str(path));
        let line = String::from_str("Video: ").concat(path);
        self.append_log(line.as_str());
    }

    /// Records the choice of the external audio file and logs it. The
    /// streams known so far stay until the file is probed.
    pub fn set_audio_path(&mut self, path: &str)
        ensures
            final(self)@ == (SessionView {
                audio_path: Some(path@),
                logs: old(self)@.logs.push("Audio: "@ + path@),
                ..old(self)@
            }),
    {
        proof {
            use_type_invariant(&*self);
        }
        self.audio_path = Some(String::from_str(path));
        let line = String::from_str("Audio: ").concat(path);
        self.append_log(line.as_str());
    }

    /// Records the choice of the output file and logs it.
    pub fn set_output_path(&mut self, path: &str)
        ensures
            final(self)@ == (SessionView {
                output_path: Some(path@),
                logs: old(self)@.logs.push("Output: "@ + path@),
                ..old(self)@
            }),
    {
        proof {
            use_type_invariant(&*self);
        }
        self.output_path = Some(String::from_str(path));
        let line = String::from_str("Output: ").concat(path);
        self.append_log(line.as_str());
    }

    /// Chooses a stream of the external file by its container index. The
    /// choice is taken, and `true` returned, exactly where the probed
    /// streams hold a stream with that index; else nothing changes.
    pub fn select_track(&mut self, index: u32) -> (taken: bool)
        ensures
            taken == spec_has_index(old(self)@.audio_tracks, index),
            taken ==> final(self)@ == (SessionView { selected_track: Some(index), ..old(self)@ }),
            !taken ==> final(self)@ == old(self)@,
    {
        if has_stream_index(&self.audio_tracks, index) {
            self.selected_track = Some(index);
            true
        } else {
            false
        }
    }

    /// Takes in the probing tool's output for the external audio file.
    ///
    /// Without a chosen external file nothing happens. Else the attempt is
    /// logged, the probed streams replace the known ones and are logged one
    /// by one, the first stream tagged `por` (in any ASCII case) becomes the
    /// chosen stream, or none where no stream is so tagged, and the result
    /// is logged.
    pub fn probe_audio_tracks(&mut self, probe_output: Option<&str>)
        ensures
            final(self)@ == spec_probed(old(self)@, spec_output_text(probe_output)),
    {
        let announcement = match &self.audio_path {
            Some(path) => probe_announcement(path.as_str()),
            None => {
                return ;
            },
        };
        self.append_log(announcement.as_str());
        let tracks = get_all_audio_tracks(probe_output);
        let found = stream_lines(&tracks);
        self.append_lines(&found);
        let chosen = select_preferred_track(&tracks, "por");
        proof {
            crate::stream::lemma_select_names_a_stream(
                spec_stream_views(tracks@),
                spec_auto_language(),
            );
        }
        let report = match chosen {
            Some(index) => {
                let number = decimal_string(index as u64);
                String::from_str("Auto-selected Portuguese track ").concat(number.as_str())
            },
            None => if tracks.len() == 0 {
                String::from_str("No audio streams found in external file.")
            } else {
                String::from_str("Please select an audio stream from the dropdown.")
            },
        };
        self.selected_track = None;
        self.audio_tracks = tracks;
        self.selected_track = chosen;
        self.append_log(report.as_str());
    }

    fn append_lines(&mut self, lines: &Vec<String>)
        ensures
            final(self)@ == (SessionView {
                logs: old(self)@.logs + spec_texts(lines@),
                ..old(self)@
            }),
    {
        let mut i: usize = 0;
        assert(old(self)@.logs + spec_texts(lines@).take(0) =~= old(self)@.logs);
        while i < lines.len()
            invariant
                0 <= i <= lines.len(),
                self@ == (SessionView {
                    logs: old(self)@.logs + spec_texts(lines@).take(i as int),
                    ..old(self)@
                }),
            decreases lines.len() - i,
        {
            let ghost before = self@.logs;
            self.append_log(lines[i].as_str());
            assert(before.push(lines@[i as int]@) =~= old(self)@.logs + spec_texts(lines@).take(
                i + 1,
            ));
            i += 1;
        }
        assert(spec_texts(lines@).take(i as int) =~= spec_texts(lines@));
    }

    /// Asks to start a merge.
    ///
    /// A missing choice is refused, the video file first, then the external
    /// file, the output file and the stream; with every choice made, a merge
    /// that is already running is refused. Else the session becomes busy and
    /// the request is handed out. Either way one line is logged. The stream
    /// of a request is one of the probed streams of the external file.
    pub fn start_merge(&mut self) -> (started: Result<MergeRequest, StartError>)
        ensures
            final(self)@ == spec_after_start(old(self)@),
            match started {
                Ok(request) => spec_start_outcome(old(self)@) == Ok::<RequestView, StartError>(
                    request@,
                ) && spec_has_index(old(self)@.audio_tracks, request.track),
                Err(error) => spec_start_outcome(old(self)@) == Err::<RequestView, StartError>(
                    error,
                ),
            },
    {
        proof {
            use_type_invariant(&*self);
        }
        let video = match &self.video_path {
            Some(path) => path.clone(),
            None => {
                self.append_log("Error: select video file");
                return Err(StartError::MissingVideo);
            },
        };
        let audio = match &self.audio_path {
            Some(path) => path.clone(),
            None => {
                self.append_log("Error: select audio file");
                return Err(StartError::MissingAudio);
            },
        };
        let output = match &self.output_path {
            Some(path) => path.clone(),
            None => {
                self.append_log("Error: select output file");
                return Err(StartError::MissingOutput);
            },
        };
        let track = match self.selected_track {
            Some(index) => index,
            None => {
                self.append_log("Error: pick audio stream");
                return Err(StartError::MissingTrack);
            },
        };
        if self.is_merging {
            self.append_log("Merge already in progress");
            return Err(StartError::MergeInProgress);
        }
        self.is_merging = true;
        let number = decimal_string(track as u64);
        let mut line = String::from_str("Merging: video='");
        line.append(video.as_str());
        line.append("', audio='");
        line.append(audio.as_str());
        line.append("', track=");
        line.append(number.as_str());
        line.append(", output='");
        line.append(output.as_str());
        line.append("'");
        self.append_log(line.as_str());
        Ok(MergeRequest { video_path: video, audio_path: audio, track, output_path: output })
    }

    /// Takes in one report of the running merge: a log line is appended to
    /// the log; the end of the merge clears the busy state and is logged.
    pub fn handle_event(&mut self, event: WorkerEvent)
        ensures
            final(self)@ == spec_after_event(old(self)@, event),
    {
        proof {
            use_type_invariant(&*self);
        }
        match event {
            WorkerEvent::Log(line) => {
                self.append_log(line.as_str());
            },
            WorkerEvent::Done => {
                self.is_merging = false;
                self.append_log("Merge thread finished");
            },
        }
    }
}

/// At most one merge runs at a time: a busy session starts no merge; a
/// started merge leaves the session busy, so the next request is refused as
/// a merge in progress; log lines from the running merge keep the session
/// busy, and only the end of the merge makes it free again.
pub proof fn lemma_single_flight(session: SessionView, line: String)
    ensures
        session.is_merging ==> spec_start_outcome(session) is Err && spec_after_start(
            session,
        ).is_merging,
        spec_start_outcome(session) is Ok ==> {
            &&& !session.is_merging
            &&& spec_after_start(session).is_merging
            &&& spec_start_outcome(spec_after_start(session)) == Err::<RequestView, StartError>(
                StartError::MergeInProgress,
            )
            &&& spec_start_outcome(spec_after_event(spec_after_start(session), WorkerEvent::Log(line)))
                == Err::<RequestView, StartError>(StartError::MergeInProgress)
        },
        spec_after_event(session, WorkerEvent::Log(line)).is_merging == session.is_merging,
        !spec_after_event(session, WorkerEvent::Done).is_merging,
{
}

/// Every step of a session keeps a chosen stream among the probed streams.
pub proof fn lemma_steps_keep_well_formed(
    session: SessionView,
    probe_output: Option<Seq<char>>,
    event: WorkerEvent,
)
    requires
        spec_well_formed(session),
    ensures
        spec_well_formed(spec_initial()),
        spec_well_formed(spec_probed(session, probe_output)),
        spec_well_formed(spec_after_start(session)),
        spec_well_formed(spec_after_event(session, event)),
{
    crate::stream::lemma_select_names_a_stream(
        spec_probe_streams(probe_output),
        spec_auto_language(),
    );
}

} // verus!
