//! Planning a merge and talking to the muxing tool.
//!
//! A plan names two input files, one audio stream of each and the output
//! file. Stream numbers are absolute container indices throughout, as the
//! probing tool reports them; nothing is shifted or renumbered.

use vstd::prelude::*;
use vstd::string::*;
use crate::probe::{push_text, spec_texts};
use crate::stream::{
    select_preferred_track, spec_select_preferred, spec_speaks, spec_stream_views, AudioStream,
    StreamView,
};
use crate::text::{decimal_string, signed_decimal_string, spec_decimal, spec_signed_decimal};

verus! {

/// Container index of the picture stream of the video file.
pub const PICTURE_INDEX: u32 = 0;

/// Container index of the video file's audio stream that is taken where the
/// video file has no stream in the preferred language.
pub const FALLBACK_AUDIO_INDEX: u32 = 1;

/// Log line that announces the search for the preferred language.
pub const SEARCH_MESSAGE: &'static str = "ffprobe: searching for 'eng' in video...";

/// Log line that announces the run of the muxing tool.
pub const RUN_MESSAGE: &'static str = "Running ffmpeg...";

/// The language whose audio stream is kept from the video file.
pub open spec fn spec_preferred_language() -> Seq<char> {
    "eng"@
}

/// Mathematical value of a merge plan.
pub struct PlanView {
    pub video_path: Seq<char>,
    pub external_audio_path: Seq<char>,
    pub video_audio_index: u32,
    pub external_track_index: u32,
    pub output_path: Seq<char>,
}

/// What the muxing tool is to combine: the picture of `video_path`, the
/// audio stream `video_audio_index` of the same file, and the stream
/// `external_track_index` of `external_audio_path`, written to `output_path`.
#[derive(Debug)]
pub struct MergePlan {
    pub video_path: String,
    pub external_audio_path: String,
    pub video_audio_index: u32,
    pub external_track_index: u32,
    pub output_path: String,
}

impl View for MergePlan {
    type V = PlanView;

    open spec fn view(&self) -> PlanView {
        PlanView {
            video_path: self.video_path@,
            external_audio_path: self.external_audio_path@,
            video_audio_index: self.video_audio_index,
            external_track_index: self.external_track_index,
            output_path: self.output_path@,
        }
    }
}

/// The audio stream kept from the video file: the first stream tagged with
/// the preferred language, else the fixed fallback.
pub open spec fn spec_video_audio_index(video_streams: Seq<StreamView>) -> u32 {
    match spec_select_preferred(video_streams, spec_preferred_language()) {
        Some(index) => index,
        None => FALLBACK_AUDIO_INDEX,
    }
}

/// The plan for the given files, external stream and probed video streams.
pub open spec fn spec_plan(
    video_path: Seq<char>,
    external_audio_path: Seq<char>,
    external_track_index: u32,
    output_path: Seq<char>,
    video_streams: Seq<StreamView>,
) -> PlanView {
    PlanView {
        video_path,
        external_audio_path,
        video_audio_index: spec_video_audio_index(video_streams),
        external_track_index,
        output_path,
    }
}

/// One stream mapping as the muxing tool reads it: the number of the input
/// file, a colon, the container index of the stream.
pub open spec fn spec_mapping(input: u32, stream: u32) -> Seq<char> {
    spec_decimal(input as nat) + ":"@ + spec_decimal(stream as nat)
}

/// The arguments for the muxing tool: quiet operation, overwriting of an
/// existing output, the two inputs, the three stream mappings (picture and
/// chosen audio of the first input, chosen stream of the second), stream
/// copy, and the output file.
pub open spec fn spec_mux_arguments(plan: PlanView) -> Seq<Seq<char>> {
    seq![
        "-hide_banner"@,
        "-loglevel"@,
        "error"@,
        "-y"@,
        "-i"@,
        plan.video_path,
        "-i"@,
        plan.external_audio_path,
        "-map"@,
        spec_mapping(0, PICTURE_INDEX),
        "-map"@,
        spec_mapping(0, plan.video_audio_index),
        "-map"@,
        spec_mapping(1, plan.external_track_index),
        "-c"@,
        "copy"@,
        plan.output_path,
    ]
}

/// Plans a merge from the user's choices and the probed audio streams of the
/// video file.
///
/// The video file contributes its picture and one audio stream: the first
/// stream tagged `eng` (in any ASCII case) where there is one, else the
/// stream at container index 1. The external file contributes the stream
/// that the caller chose.
pub fn plan_merge(
    video_path: &str,
    external_audio_path: &str,
    external_track_index: u32,
    output_path: &str,
    video_streams: &Vec<AudioStream>,
) -> (plan: MergePlan)
    ensures
        plan@ == spec_plan(
            video_path@,
            external_audio_path@,
            external_track_index,
            output_path@,
            spec_stream_views(video_streams@),
        ),
{
    let video_audio_index = match select_preferred_track(video_streams, "eng") {
        Some(index) => index,
        None => FALLBACK_AUDIO_INDEX,
    };
    MergePlan {
        video_path: String::from_str(video_path),
        external_audio_path: String::from_str(external_audio_path),
        video_audio_index,
        external_track_index,
        output_path: String::from_str(output_path),
    }
}

/// Renders one stream mapping.
pub fn mapping(input: u32, stream: u32) -> (text: String)
    ensures
        text@ == spec_mapping(input, stream),
{
    let mut text = decimal_string(input as u64);
    let number = decimal_string(stream as u64);
    text.append(":");
    text.append(number.as_str());
    text
}

/// The argument list with which the muxing tool is to be run for a plan.
pub fn mux_arguments(plan: &MergePlan) -> (arguments: Vec<String>)
    ensures
        spec_texts(arguments@) == spec_mux_arguments(plan@),
{
    let mut arguments: Vec<String> = Vec::new();
    assert(spec_texts(arguments@) =~= Seq::<Seq<char>>::empty());
    let picture = mapping(0, PICTURE_INDEX);
    let kept = mapping(0, plan.video_audio_index);
    let added = mapping(1, plan.external_track_index);
    push_text(&mut arguments, "-hide_banner");
    push_text(&mut arguments, "-loglevel");
    push_text(&mut arguments, "error");
    push_text(&mut arguments, "-y");
    push_text(&mut arguments, "-i");
    push_text(&mut arguments, plan.video_path.as_str());
    push_text(&mut arguments, "-i");
    push_text(&mut arguments, plan.external_audio_path.as_str());
    push_text(&mut arguments, "-map");
    push_text(&mut arguments, picture.as_str());
    push_text(&mut arguments, "-map");
    push_text(&mut arguments, kept.as_str());
    push_text(&mut arguments, "-map");
    push_text(&mut arguments, added.as_str());
    push_text(&mut arguments, "-c");
    push_text(&mut arguments, "copy");
    push_text(&mut arguments, plan.output_path.as_str());
    assert(spec_texts(arguments@) =~= spec_mux_arguments(plan@));
    arguments
}

/// How one attempt to run the muxing tool ended.
#[derive(Debug)]
pub enum ToolRun {
    /// The tool could not be started; `reason` is the system's explanation.
    NotStarted { reason: String },
    /// The tool ran to its end. `code` is its exit code, `None` where the
    /// system reports none.
    Exited { code: Option<i32> },
}

/// Why a merge failed.
#[derive(Debug, Clone, Copy, PartialEq, Eq)]
pub enum MuxError {
    /// The muxing tool could not be started.
    SpawnFailed,
    /// The muxing tool ran and reported failure with this exit code.
    ToolError(Option<i32>),
}

/// The verdict on a run: success exactly for exit code zero.
pub open spec fn spec_classify(run: ToolRun) -> Result<(), MuxError> {
    match run {
        ToolRun::NotStarted { .. } => Err(MuxError::SpawnFailed),
        ToolRun::Exited { code: Some(0) } => Ok(()),
        ToolRun::Exited { code } => Err(MuxError::ToolError(code)),
    }
}

/// The rendering of an optional exit code: `None`, or `Some(` the decimal
/// numeral `)`.
pub open spec fn spec_code_text(code: Option<i32>) -> Seq<char> {
    match code {
        Some(n) => "Some("@ + spec_signed_decimal(n as int) + ")"@,
        None => "None"@,
    }
}

/// The log line that reports a run.
pub open spec fn spec_outcome_message(run: ToolRun) -> Seq<char> {
    match run {
        ToolRun::NotStarted { reason } => "Failed to run ffmpeg: "@ + reason@,
        ToolRun::Exited { code: Some(0) } => "Merge completed successfully"@,
        ToolRun::Exited { code } => "ffmpeg exit code "@ + spec_code_text(code),
    }
}

/// The log line that reports which audio stream of the video file is kept.
pub open spec fn spec_selection_message(found: Option<u32>) -> Seq<char> {
    match found {
        Some(index) => "Found video 'eng' stream "@ + spec_decimal(index as nat),
        None => "No 'eng' in video, using stream "@ + spec_decimal(FALLBACK_AUDIO_INDEX as nat),
    }
}

/// Classifies a run of the muxing tool: not started is a spawn failure, exit
/// code zero is success, any other end is a tool error with the code.
pub fn classify_run(run: &ToolRun) -> (verdict: Result<(), MuxError>)
    ensures
        verdict == spec_classify(*run),
{
    match run {
        ToolRun::NotStarted { .. } => Err(MuxError::SpawnFailed),
        ToolRun::Exited { code } => match code {
            Some(n) => if *n == 0 {
                Ok(())
            } else {
                Err(MuxError::ToolError(Some(*n)))
            },
            None => Err(MuxError::ToolError(None)),
        },
    }
}

/// The log line for a run of the muxing tool.
pub fn outcome_message(run: &ToolRun) -> (line: String)
    ensures
        line@ == spec_outcome_message(*run),
{
    match run {
        ToolRun::NotStarted { reason } => String::from_str("Failed to run ffmpeg: ").concat(
            reason.as_str(),
        ),
        ToolRun::Exited { code } => match code {
            Some(n) => if *n == 0 {
                String::from_str("Merge completed successfully")
            } else {
                let number = signed_decimal_string(*n);
                let mut line = String::from_str("ffmpeg exit code ");
                line.append("Some(");
                line.append(number.as_str());
                line.append(")");
                assert(line@ =~= "ffmpeg exit code "@ + spec_code_text(Some(*n)));
                line
            },
            None => String::from_str("ffmpeg exit code ").concat("None"),
        },
    }
}

/// The log line for the choice of the video file's audio stream; `found` is
/// the stream tagged with the preferred language, if any.
pub fn selection_message(found: Option<u32>) -> (line: String)
    ensures
        line@ == spec_selection_message(found),
{
    match found {
        Some(index) => {
            let number = decimal_string(index as u64);
            String::from_str("Found video 'eng' stream ").concat(number.as_str())
        },
        None => {
            let number = decimal_string(FALLBACK_AUDIO_INDEX as u64);
            String::from_str("No 'eng' in video, using stream ").concat(number.as_str())
        },
    }
}

/// Planning is a function of its inputs: two plans made from the same
/// files, external stream and probed video streams are the same plan.
pub proof fn lemma_plan_is_determined(
    first: MergePlan,
    second: MergePlan,
    video_path: Seq<char>,
    external_audio_path: Seq<char>,
    external_track_index: u32,
    output_path: Seq<char>,
    video_streams: Seq<StreamView>,
)
    requires
        first@ == spec_plan(video_path, external_audio_path, external_track_index, output_path, video_streams),
        second@ == spec_plan(video_path, external_audio_path, external_track_index, output_path, video_streams),
    ensures
        first@ == second@,
        spec_mux_arguments(first@) == spec_mux_arguments(second@),
{
}

/// The plan keeps the first stream of the video file that is tagged with the
/// preferred language, whatever its position; where no stream is so tagged
/// it keeps the stream at the fallback index.
pub proof fn lemma_plan_audio_choice(video_streams: Seq<StreamView>, k: int)
    ensures
        (0 <= k < video_streams.len() && spec_speaks(video_streams[k], spec_preferred_language())
            && forall|j: int|
            0 <= j < k ==> !spec_speaks(#[trigger] video_streams[j], spec_preferred_language()))
            ==> spec_video_audio_index(video_streams) == video_streams[k].index,
        (forall|j: int|
            0 <= j < video_streams.len() ==> !spec_speaks(
                #[trigger] video_streams[j],
                spec_preferred_language(),
            )) ==> spec_video_audio_index(video_streams) == FALLBACK_AUDIO_INDEX,
{
    crate::stream::lemma_select_is_first_match(video_streams, spec_preferred_language());
    if 0 <= k < video_streams.len() && spec_speaks(video_streams[k], spec_preferred_language())
        && forall|j: int|
        0 <= j < k ==> !spec_speaks(#[trigger] video_streams[j], spec_preferred_language()) {
        match spec_select_preferred(video_streams, spec_preferred_language()) {
            Some(index) => {
                let m = choose|m: int|
                    0 <= m < video_streams.len() && spec_speaks(
                        #[trigger] video_streams[m],
                        spec_preferred_language(),
                    ) && video_streams[m].index == index && forall|j: int|
                        0 <= j < m ==> !spec_speaks(
                            #[trigger] video_streams[j],
                            spec_preferred_language(),
                        );
                assert(m == k) by {
                    if m < k {
                        assert(!spec_speaks(video_streams[m], spec_preferred_language()));
                    }
                    if k < m {
                        assert(!spec_speaks(video_streams[k], spec_preferred_language()));
                    }
                }
            },
            None => {
                assert(!spec_speaks(video_streams[k], spec_preferred_language()));
            },
        }
    }
}

} // verus!
