use audio_merger::plan::{
    classify_run, mapping, mux_arguments, outcome_message, plan_merge, selection_message,
    MergePlan, MuxError, ToolRun, FALLBACK_AUDIO_INDEX, PICTURE_INDEX, RUN_MESSAGE,
    SEARCH_MESSAGE,
};
use audio_merger::probe::get_all_audio_tracks;
use audio_merger::stream::{has_stream_index, AudioStream};

fn streams(items: &[(u32, &str)]) -> Vec<AudioStream> {
    items.iter().map(|(index, language)| AudioStream::new(*index, language)).collect()
}

fn fields(plan: &MergePlan) -> (String, String, u32, u32, String) {
    (
        plan.video_path.clone(),
        plan.external_audio_path.clone(),
        plan.video_audio_index,
        plan.external_track_index,
        plan.output_path.clone(),
    )
}

#[test]
fn plan_keeps_english_stream_of_video() {
    let video = streams(&[(1, "spa"), (3, "eng")]);
    let plan = plan_merge("v.mkv", "a.mkv", 0, "out.mkv", &video);
    assert_eq!(plan.video_audio_index, 3);
    assert_eq!(plan.external_track_index, 0);
    assert_eq!(plan.video_path, "v.mkv");
    assert_eq!(plan.external_audio_path, "a.mkv");
    assert_eq!(plan.output_path, "out.mkv");
}

#[test]
fn plan_keeps_first_english_stream() {
    let video = streams(&[(1, "ENG"), (3, "eng")]);
    assert_eq!(plan_merge("v", "a", 2, "o", &video).video_audio_index, 1);
}

#[test]
fn plan_falls_back_to_stream_one() {
    let video = streams(&[(2, "spa"), (4, "por")]);
    assert_eq!(plan_merge("v", "a", 2, "o", &video).video_audio_index, 1);
    assert_eq!(plan_merge("v", "a", 2, "o", &Vec::new()).video_audio_index, 1);
    assert_eq!(FALLBACK_AUDIO_INDEX, 1);
    assert_eq!(PICTURE_INDEX, 0);
}

#[test]
fn planning_twice_gives_the_same_plan() {
    let video = streams(&[(1, "spa"), (3, "eng")]);
    let first = plan_merge("v.mkv", "a.mkv", 4, "out.mkv", &video);
    let second = plan_merge("v.mkv", "a.mkv", 4, "out.mkv", &video);
    assert_eq!(fields(&first), fields(&second));
    assert_eq!(mux_arguments(&first), mux_arguments(&second));
}

#[test]
fn stream_mapping_text() {
    assert_eq!(mapping(0, 0), "0:0");
    assert_eq!(mapping(1, 12), "1:12");
    assert_eq!(mapping(0, 4294967295), "0:4294967295");
}

#[test]
fn muxing_tool_arguments() {
    let plan = MergePlan {
        video_path: "in put.mkv".to_string(),
        external_audio_path: "dub.mp4".to_string(),
        video_audio_index: 3,
        external_track_index: 10,
        output_path: "out.mkv".to_string(),
    };
    assert_eq!(
        mux_arguments(&plan),
        vec![
            "-hide_banner",
            "-loglevel",
            "error",
            "-y",
            "-i",
            "in put.mkv",
            "-i",
            "dub.mp4",
            "-map",
            "0:0",
            "-map",
            "0:3",
            "-map",
            "1:10",
            "-c",
            "copy",
            "out.mkv",
        ]
    );
}

#[test]
fn end_to_end_from_probe_output_to_arguments() {
    let video_text = r#"{"streams": [
        {"index": 1, "tags": {"language": "spa"}},
        {"index": 3, "tags": {"language": "eng"}}
    ]}"#;
    let external_text = r#"{"streams": [{"index": 0, "tags": {"language": "por"}}]}"#;
    let video = get_all_audio_tracks(Some(video_text));
    let external = get_all_audio_tracks(Some(external_text));
    assert!(has_stream_index(&external, 0));
    let plan = plan_merge("video.mkv", "dub.mkv", 0, "merged.mkv", &video);
    assert_eq!(
        fields(&plan),
        ("video.mkv".to_string(), "dub.mkv".to_string(), 3, 0, "merged.mkv".to_string())
    );
    let arguments = mux_arguments(&plan);
    assert_eq!(arguments[8..14], ["-map", "0:0", "-map", "0:3", "-map", "1:0"]);
    assert_eq!(arguments[14..], ["-c", "copy", "merged.mkv"]);
}

#[test]
fn end_to_end_without_english_stream() {
    let video = get_all_audio_tracks(Some(r#"{"streams": [{"index": 2, "tags": {"language": "spa"}}]}"#));
    let plan = plan_merge("video.mkv", "dub.mkv", 5, "merged.mkv", &video);
    let arguments = mux_arguments(&plan);
    assert_eq!(arguments[8..14], ["-map", "0:0", "-map", "0:1", "-map", "1:5"]);
}

#[test]
fn run_classification() {
    assert_eq!(
        classify_run(&ToolRun::NotStarted { reason: "not found".to_string() }),
        Err(MuxError::SpawnFailed)
    );
    assert_eq!(classify_run(&ToolRun::Exited { code: Some(0) }), Ok(()));
    assert_eq!(
        classify_run(&ToolRun::Exited { code: Some(1) }),
        Err(MuxError::ToolError(Some(1)))
    );
    assert_eq!(
        classify_run(&ToolRun::Exited { code: Some(-22) }),
        Err(MuxError::ToolError(Some(-22)))
    );
    assert_eq!(classify_run(&ToolRun::Exited { code: None }), Err(MuxError::ToolError(None)));
}

#[test]
fn run_report_lines() {
    assert_eq!(
        outcome_message(&ToolRun::NotStarted { reason: "program not found".to_string() }),
        "Failed to run ffmpeg: program not found"
    );
    assert_eq!(outcome_message(&ToolRun::Exited { code: Some(0) }), "Merge completed successfully");
    assert_eq!(outcome_message(&ToolRun::Exited { code: Some(1) }), "ffmpeg exit code Some(1)");
    assert_eq!(
        outcome_message(&ToolRun::Exited { code: Some(-1094995529) }),
        "ffmpeg exit code Some(-1094995529)"
    );
    assert_eq!(outcome_message(&ToolRun::Exited { code: None }), "ffmpeg exit code None");
    assert_eq!(
        outcome_message(&ToolRun::Exited { code: Some(1) }),
        format!("ffmpeg exit code {:?}", Some(1))
    );
}

#[test]
fn selection_report_lines() {
    assert_eq!(selection_message(Some(3)), "Found video 'eng' stream 3");
    assert_eq!(selection_message(Some(0)), "Found video 'eng' stream 0");
    assert_eq!(selection_message(None), "No 'eng' in video, using stream 1");
    assert_eq!(SEARCH_MESSAGE, "ffprobe: searching for 'eng' in video...");
    assert_eq!(RUN_MESSAGE, "Running ffmpeg...");
}
