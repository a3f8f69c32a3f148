use audio_merger::plan::{MuxError, ToolRun};
use audio_merger::session::{AudioMergerApp, MergeRequest, WorkerEvent};
use audio_merger::worker::{finish_merge, prepare_merge};

fn lines(events: &[WorkerEvent]) -> Vec<String> {
    events
        .iter()
        .map(|event| match event {
            WorkerEvent::Log(line) => line.clone(),
            WorkerEvent::Done => "<done>".to_string(),
        })
        .collect()
}

fn request(track: u32) -> MergeRequest {
    MergeRequest {
        video_path: "video.mkv".to_string(),
        audio_path: "dub.mkv".to_string(),
        track,
        output_path: "merged.mkv".to_string(),
    }
}

#[test]
fn preparation_with_english_stream() {
    let video = r#"{"streams": [
        {"index": 1, "tags": {"language": "spa"}},
        {"index": 3, "tags": {"language": "eng"}}
    ]}"#;
    let prepared = prepare_merge(&request(0), Some(video));
    assert_eq!(prepared.plan.video_path, "video.mkv");
    assert_eq!(prepared.plan.external_audio_path, "dub.mkv");
    assert_eq!(prepared.plan.video_audio_index, 3);
    assert_eq!(prepared.plan.external_track_index, 0);
    assert_eq!(prepared.plan.output_path, "merged.mkv");
    assert_eq!(
        prepared.arguments,
        vec![
            "-hide_banner",
            "-loglevel",
            "error",
            "-y",
            "-i",
            "video.mkv",
            "-i",
            "dub.mkv",
            "-map",
            "0:0",
            "-map",
            "0:3",
            "-map",
            "1:0",
            "-c",
            "copy",
            "merged.mkv",
        ]
    );
    assert_eq!(
        lines(&prepared.events),
        vec![
            "ffprobe: searching for 'eng' in video...",
            "Audio stream: Index 1 (spa)",
            "Audio stream: Index 3 (eng)",
            "Found video 'eng' stream 3",
            "Running ffmpeg...",
        ]
    );
}

#[test]
fn preparation_without_probe_output_falls_back() {
    let prepared = prepare_merge(&request(7), None);
    assert_eq!(prepared.plan.video_audio_index, 1);
    assert_eq!(prepared.plan.external_track_index, 7);
    assert_eq!(prepared.arguments[8..14], ["-map", "0:0", "-map", "0:1", "-map", "1:7"]);
    assert_eq!(
        lines(&prepared.events),
        vec![
            "ffprobe: searching for 'eng' in video...",
            "No 'eng' in video, using stream 1",
            "Running ffmpeg...",
        ]
    );
}

#[test]
fn preparation_with_an_entry_without_index_falls_back() {
    let video = r#"{"streams":[{"index":3,"tags":{"language":"eng"}},{"tags":{"language":"spa"}}]}"#;
    let prepared = prepare_merge(&request(2), Some(video));
    assert_eq!(prepared.plan.video_audio_index, 1);
    assert_eq!(
        lines(&prepared.events),
        vec![
            "ffprobe: searching for 'eng' in video...",
            "No 'eng' in video, using stream 1",
            "Running ffmpeg...",
        ]
    );
}

#[test]
fn conclusion_of_each_kind_of_run() {
    let ok = finish_merge(&ToolRun::Exited { code: Some(0) });
    assert_eq!(ok.verdict, Ok(()));
    assert_eq!(lines(&ok.events), vec!["Merge completed successfully", "<done>"]);

    let failed = finish_merge(&ToolRun::Exited { code: Some(1) });
    assert_eq!(failed.verdict, Err(MuxError::ToolError(Some(1))));
    assert_eq!(lines(&failed.events), vec!["ffmpeg exit code Some(1)", "<done>"]);

    let killed = finish_merge(&ToolRun::Exited { code: None });
    assert_eq!(killed.verdict, Err(MuxError::ToolError(None)));
    assert_eq!(lines(&killed.events), vec!["ffmpeg exit code None", "<done>"]);

    let absent = finish_merge(&ToolRun::NotStarted { reason: "no such file".to_string() });
    assert_eq!(absent.verdict, Err(MuxError::SpawnFailed));
    assert_eq!(lines(&absent.events), vec!["Failed to run ffmpeg: no such file", "<done>"]);
}

#[test]
fn whole_merge_through_a_session() {
    let external = r#"{"streams": [{"index": 0, "tags": {"language": "por"}}]}"#;
    let video = r#"{"streams": [
        {"index": 1, "tags": {"language": "spa"}},
        {"index": 3, "tags": {"language": "eng"}}
    ]}"#;
    let mut app = AudioMergerApp::default();
    app.set_video_path("video.mkv");
    app.set_audio_path("dub.mkv");
    app.probe_audio_tracks(Some(external));
    app.set_output_path("merged.mkv");
    assert_eq!(app.selected_track(), Some(0));
    let request = app.start_merge().unwrap();
    let prepared = prepare_merge(&request, Some(video));
    assert_eq!(prepared.arguments[8..], ["-map", "0:0", "-map", "0:3", "-map", "1:0", "-c", "copy", "merged.mkv"]);
    for event in prepared.events {
        app.handle_event(event);
        assert!(app.is_merging());
    }
    let concluded = finish_merge(&ToolRun::Exited { code: Some(1) });
    for event in concluded.events {
        app.handle_event(event);
    }
    assert!(!app.is_merging());
    let log = app.logs();
    assert_eq!(log[log.len() - 2], "ffmpeg exit code Some(1)");
    assert_eq!(log[log.len() - 1], "Merge thread finished");
    assert!(app.start_merge().is_ok());
}
