//! The steps of one merge, as decisions around the two tool runs.
//!
//! A merge runs the probing tool on the video file, then the muxing tool.
//! The caller makes the two runs; what is planned and reported between and
//! after them is decided here.

use vstd::prelude::*;
use vstd::string::*;
use crate::plan::{
    classify_run, mux_arguments, outcome_message, plan_merge, selection_message, spec_classify,
    spec_mux_arguments, spec_outcome_message, spec_plan, spec_preferred_language,
    spec_selection_message, MergePlan, MuxError, ToolRun, RUN_MESSAGE, SEARCH_MESSAGE,
};
use crate::probe::{
    get_all_audio_tracks, spec_output_text, spec_probe_streams, spec_stream_lines, spec_texts,
    stream_lines,
};
use crate::session::{spec_after_event, MergeRequest, SessionView, WorkerEvent};
use crate::stream::{select_preferred_track, spec_select_preferred, StreamView};

verus! {

/// Mathematical value of a report of the running merge.
pub enum EventView {
    Log(Seq<char>),
    Done,
}

impl View for WorkerEvent {
    type V = EventView;

    open spec fn view(&self) -> EventView {
        match self {
            WorkerEvent::Log(line) => EventView::Log(line@),
            WorkerEvent::Done => EventView::Done,
        }
    }
}

/// The values of a list of reports, in list order.
pub open spec fn spec_event_views(events: Seq<WorkerEvent>) -> Seq<EventView> {
    Seq::new(events.len(), |i: int| events[i]@)
}

/// Log reports for a list of lines, in list order.
pub open spec fn spec_log_events(lines: Seq<Seq<char>>) -> Seq<EventView> {
    Seq::new(lines.len(), |i: int| EventView::Log(lines[i]))
}

/// What is reported before the muxing tool runs: the search for the
/// preferred language, one line for each audio stream of the video file, the
/// choice among them, and the start of the muxing tool.
pub open spec fn spec_prepare_events(video_streams: Seq<StreamView>) -> Seq<EventView> {
    (seq![EventView::Log(SEARCH_MESSAGE@)] + spec_log_events(spec_stream_lines(video_streams))).push(
        EventView::Log(
            spec_selection_message(
                spec_select_preferred(video_streams, spec_preferred_language()),
            ),
        ),
    ).push(EventView::Log(RUN_MESSAGE@))
}

/// What is reported after the muxing tool has run: the outcome, then the end
/// of the merge.
pub open spec fn spec_finish_events(run: ToolRun) -> Seq<EventView> {
    seq![EventView::Log(spec_outcome_message(run)), EventView::Done]
}

/// The session after a list of reports, taken in one by one.
pub open spec fn spec_after_events(session: SessionView, events: Seq<WorkerEvent>) -> SessionView
    decreases events.len(),
{
    if events.len() == 0 {
        session
    } else {
        spec_after_event(spec_after_events(session, events.drop_last()), events.last())
    }
}

/// What the muxing tool is to be run with, and what is to be reported first.
pub struct Preparation {
    /// The plan of the merge.
    pub plan: MergePlan,
    /// The arguments for the muxing tool.
    pub arguments: Vec<String>,
    /// The reports to send before the muxing tool is run.
    pub events: Vec<WorkerEvent>,
}

/// How a merge ended, and what is to be reported of it.
pub struct Conclusion {
    /// Success, or the reason of the failure.
    pub verdict: Result<(), MuxError>,
    /// The reports to send; the last one is the end of the merge.
    pub events: Vec<WorkerEvent>,
}

fn push_log(events: &mut Vec<WorkerEvent>, line: String)
    ensures
        spec_event_views(final(events)@) == spec_event_views(old(events)@).push(
            EventView::Log(line@),
        ),
{
    events.push(WorkerEvent::Log(line));
    assert(spec_event_views(events@) =~= spec_event_views(old(events)@).push(
        EventView::Log(line@),
    ));
}

/// Prepares a merge from the request and from what the probing tool printed
/// for the video file (`None` where it could not be run, failed, or printed
/// no text).
///
/// The plan keeps the first `eng` stream of the video file, or the stream at
/// container index 1 where the probe shows none. The reports are the search
/// line, one line for each probed stream, the choice, and the line that
/// announces the muxing tool.
pub fn prepare_merge(request: &MergeRequest, video_probe_output: Option<&str>) -> (prepared:
    Preparation)
    ensures
        prepared.plan@ == spec_plan(
            request@.video_path,
            request@.audio_path,
            request@.track,
            request@.output_path,
            spec_probe_streams(spec_output_text(video_probe_output)),
        ),
        spec_texts(prepared.arguments@) == spec_mux_arguments(prepared.plan@),
        spec_event_views(prepared.events@) == spec_prepare_events(
            spec_probe_streams(spec_output_text(video_probe_output)),
        ),
{
    let video_streams = get_all_audio_tracks(video_probe_output);
    let plan = plan_merge(
        request.video_path.as_str(),
        request.audio_path.as_str(),
        request.track,
        request.output_path.as_str(),
        &video_streams,
    );
    let arguments = mux_arguments(&plan);
    let mut events: Vec<WorkerEvent> = Vec::new();
    assert(spec_event_views(events@) =~= Seq::<EventView>::empty());
    push_log(&mut events, String::from_str(SEARCH_MESSAGE));
    let ghost head = spec_event_views(events@);
    assert(head =~= seq![EventView::Log(SEARCH_MESSAGE@)]);
    let lines = stream_lines(&video_streams);
    let mut i: usize = 0;
    while i < lines.len()
        invariant
            0 <= i <= lines.len(),
            spec_event_views(events@) == head + spec_log_events(spec_texts(lines@).take(i as int)),
        decreases lines.len() - i,
    {
        let ghost before = spec_event_views(events@);
        push_log(&mut events, lines[i].clone());
        assert(before.push(EventView::Log(lines@[i as int]@)) =~= head + spec_log_events(
            spec_texts(lines@).take(i + 1),
        ));
        i += 1;
    }
    assert(spec_texts(lines@).take(i as int) =~= spec_texts(lines@));
    push_log(&mut events, selection_message(select_preferred_track(&video_streams, "eng")));
    push_log(&mut events, String::from_str(RUN_MESSAGE));
    Preparation { plan, arguments, events }
}

/// Concludes a merge from the way the muxing tool's run ended: not started
/// is a spawn failure, exit code zero is success, any other end is a tool
/// error. The outcome is reported, then the end of the merge.
pub fn finish_merge(run: &ToolRun) -> (concluded: Conclusion)
    ensures
        concluded.verdict == spec_classify(*run),
        spec_event_views(concluded.events@) == spec_finish_events(*run),
{
    let verdict = classify_run(run);
    let mut events: Vec<WorkerEvent> = Vec::new();
    assert(spec_event_views(events@) =~= Seq::<EventView>::empty());
    push_log(&mut events, outcome_message(run));
    let ghost logged = spec_event_views(events@);
    events.push(WorkerEvent::Done);
    assert(spec_event_views(events@) =~= logged.push(EventView::Done));
    assert(spec_event_views(events@) =~= spec_finish_events(*run));
    Conclusion { verdict, events }
}

/// However the muxing tool's run ended, the reports of the conclusion leave
/// the session free for the next merge, and add two lines to its log.
pub proof fn lemma_conclusion_frees_session(session: SessionView, events: Seq<WorkerEvent>, run: ToolRun)
    requires
        spec_event_views(events) == spec_finish_events(run),
    ensures
        !spec_after_events(session, events).is_merging,
        spec_after_events(session, events).logs == session.logs.push(
            spec_outcome_message(run),
        ).push("Merge thread finished"@),
{
    assert(spec_event_views(events).len() == events.len());
    assert(spec_finish_events(run).len() == 2);
    assert(events[0]@ == spec_event_views(events)[0]);
    assert(events[1]@ == spec_event_views(events)[1]);
    let first = events.drop_last();
    assert(first.len() == 1);
    assert(first.last() == events[0]);
    assert(first.drop_last().len() == 0);
    assert(spec_after_events(session, first.drop_last()) == session);
    assert(spec_after_events(session, first) == spec_after_event(session, events[0]));
    assert(events.last() == events[1]);
}

/// Log lines never free the session.
pub proof fn lemma_log_lines_keep_busy(session: SessionView, events: Seq<WorkerEvent>)
    requires
        forall|i: int| 0 <= i < events.len() ==> (#[trigger] events[i]) is Log,
    ensures
        spec_after_events(session, events).is_merging == session.is_merging,
    decreases events.len(),
{
    if events.len() > 0 {
        let front = events.drop_last();
        assert(forall|i: int| 0 <= i < front.len() ==> front[i] == events[i]);
        lemma_log_lines_keep_busy(session, front);
        assert(events.last() is Log);
    }
}

/// The reports of the preparation never free the session: a merge stays the
/// only one until its conclusion is reported.
pub proof fn lemma_preparation_keeps_busy(
    session: SessionView,
    events: Seq<WorkerEvent>,
    video_streams: Seq<StreamView>,
)
    requires
        spec_event_views(events) == spec_prepare_events(video_streams),
    ensures
        spec_after_events(session, events).is_merging == session.is_merging,
{
    let views = spec_prepare_events(video_streams);
    assert(spec_event_views(events).len() == events.len());
    assert forall|i: int| 0 <= i < events.len() implies (#[trigger] events[i]) is Log by {
        assert(events[i]@ == spec_event_views(events)[i]);
        assert(views[i] is Log);
    }
    lemma_log_lines_keep_busy(session, events);
}

} // verus!
