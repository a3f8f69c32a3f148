use audio_merger::probe::{
    find_audio_track, get_all_audio_tracks, probe_announcement, probe_arguments, push_text,
    stream_lines, streams_of_document,
};
use audio_merger::stream::AudioStream;

fn pairs(list: &[AudioStream]) -> Vec<(u32, String)> {
    list.iter().map(|s| (s.index, s.language.clone())).collect()
}

fn expect(items: &[(u32, &str)]) -> Vec<(u32, String)> {
    items.iter().map(|(i, l)| (*i, l.to_string())).collect()
}

#[test]
fn well_formed_listing_is_read() {
    let text = r#"{"programs": [], "streams": [
        {"index": 1, "tags": {"language": "spa"}},
        {"index": 3, "tags": {"language": "eng"}}
    ]}"#;
    let list = get_all_audio_tracks(Some(text));
    assert_eq!(pairs(&list), expect(&[(1, "spa"), (3, "eng")]));
}

#[test]
fn missing_language_is_reported_as_unknown() {
    let text = r#"{"streams": [
        {"index": 1},
        {"index": 2, "tags": {}},
        {"index": 3, "tags": {"title": "x"}},
        {"index": 4, "tags": {"language": 7}},
        {"index": 5, "tags": "eng"},
        {"index": 6, "tags": {"language": null}},
        {"index": 7, "tags": {"language": ""}}
    ]}"#;
    let list = get_all_audio_tracks(Some(text));
    assert_eq!(
        pairs(&list),
        expect(&[
            (1, "unknown"),
            (2, "unknown"),
            (3, "unknown"),
            (4, "unknown"),
            (5, "unknown"),
            (6, "unknown"),
            (7, ""),
        ])
    );
}

fn listing_with(entry: &str) -> String {
    format!(
        "{{\"streams\": [{{\"index\": 1, \"tags\": {{\"language\": \"eng\"}}}}, {}, \
         {{\"index\": 4, \"tags\": {{\"language\": \"por\"}}}}]}}",
        entry
    )
}

#[test]
fn entry_without_index_empties_the_result() {
    let text = r#"{"streams":[{"index":1,"tags":{"language":"eng"}},{"tags":{"language":"por"}}]}"#;
    assert!(get_all_audio_tracks(Some(text)).is_empty());
    assert_eq!(find_audio_track(Some(text), "eng"), None);
    let first = r#"{"streams":[{"tags":{"language":"por"}},{"index":1,"tags":{"language":"eng"}}]}"#;
    assert!(get_all_audio_tracks(Some(first)).is_empty());
    let only = r#"{"streams":[{"tags":{"language":"por"}}]}"#;
    assert!(get_all_audio_tracks(Some(only)).is_empty());
}

#[test]
fn entry_without_unsigned_index_empties_the_result() {
    let usable = listing_with(r#"{"index": 2, "tags": {"language": "spa"}}"#);
    assert_eq!(
        pairs(&get_all_audio_tracks(Some(&usable))),
        expect(&[(1, "eng"), (2, "spa"), (4, "por")])
    );
    let unusable = [
        r#"{"tags": {"language": "eng"}}"#,
        r#"{"index": -1, "tags": {"language": "neg"}}"#,
        r#"{"index": 1.5, "tags": {"language": "frac"}}"#,
        r#"{"index": 2.0, "tags": {"language": "float"}}"#,
        r#"{"index": "3", "tags": {"language": "text"}}"#,
        r#"{"index": null, "tags": {"language": "null"}}"#,
        r#"{"Index": 3}"#,
        "{}",
        "7",
        r#""index""#,
        "[]",
        "null",
    ];
    for entry in unusable {
        let text = listing_with(entry);
        assert!(get_all_audio_tracks(Some(&text)).is_empty());
        assert_eq!(find_audio_track(Some(&text), "eng"), None);
    }
}

#[test]
fn malformed_or_empty_payload_gives_no_streams() {
    assert!(get_all_audio_tracks(None).is_empty());
    assert!(get_all_audio_tracks(Some("")).is_empty());
    assert!(get_all_audio_tracks(Some("   ")).is_empty());
    assert!(get_all_audio_tracks(Some("not json")).is_empty());
    assert!(get_all_audio_tracks(Some("{\"streams\": [")).is_empty());
    assert!(get_all_audio_tracks(Some("{\"streams\": [{\"index\": 1}]} trailing")).is_empty());
}

#[test]
fn document_without_stream_array_gives_no_streams() {
    assert!(get_all_audio_tracks(Some("{}")).is_empty());
    assert!(get_all_audio_tracks(Some("[]")).is_empty());
    assert!(get_all_audio_tracks(Some("null")).is_empty());
    assert!(get_all_audio_tracks(Some("{\"streams\": 5}")).is_empty());
    assert!(get_all_audio_tracks(Some("{\"streams\": {\"index\": 1}}")).is_empty());
    assert!(get_all_audio_tracks(Some("{\"streams\": []}")).is_empty());
    assert!(get_all_audio_tracks(Some("[{\"index\": 1}]")).is_empty());
    assert!(get_all_audio_tracks(Some("{\"Streams\": [{\"index\": 1}]}")).is_empty());
}

#[test]
fn streams_come_out_by_ascending_index() {
    let text = r#"{"streams": [
        {"index": 5, "tags": {"language": "eng"}},
        {"index": 2, "tags": {"language": "por"}},
        {"index": 0, "tags": {"language": "eng"}},
        {"index": 2, "tags": {"language": "spa"}}
    ]}"#;
    let list = get_all_audio_tracks(Some(text));
    assert_eq!(pairs(&list), expect(&[(0, "eng"), (2, "por"), (2, "spa"), (5, "eng")]));
    assert_eq!(find_audio_track(Some(text), "eng"), Some(0));
}

#[test]
fn index_beyond_32_bits_is_unusable() {
    let largest = r#"{"streams": [
        {"index": 4294967295, "tags": {"language": "a"}},
        {"index": 0, "tags": {"language": "b"}}
    ]}"#;
    assert_eq!(pairs(&get_all_audio_tracks(Some(largest))), expect(&[(0, "b"), (4294967295, "a")]));
    let beyond = [
        r#"{"index": 4294967296, "tags": {"language": "b"}}"#,
        r#"{"index": 4294967299, "tags": {"language": "c"}}"#,
        r#"{"index": 18446744073709551615, "tags": {"language": "d"}}"#,
        r#"{"index": 18446744073709551616, "tags": {"language": "e"}}"#,
    ];
    for entry in beyond {
        let text = listing_with(entry);
        assert!(get_all_audio_tracks(Some(&text)).is_empty());
    }
}

#[test]
fn parsed_document_is_read_like_its_text() {
    let text = r#"{"streams": [{"index": 9, "tags": {"language": "jpn"}}, {"index": 4}]}"#;
    let document: serde_json::Value = serde_json::from_str(text).unwrap();
    let list = streams_of_document(&document);
    assert_eq!(pairs(&list), expect(&[(4, "unknown"), (9, "jpn")]));
    let array = serde_json::Value::Array(vec![document]);
    assert!(streams_of_document(&array).is_empty());
    let partial: serde_json::Value =
        serde_json::from_str(r#"{"streams": [{"index": 9}, {"tags": {"language": "jpn"}}]}"#)
            .unwrap();
    assert!(streams_of_document(&partial).is_empty());
}

#[test]
fn track_is_found_by_language() {
    let text = r#"{"streams": [
        {"index": 0, "tags": {"language": "eng"}},
        {"index": 2, "tags": {"language": "por"}},
        {"index": 5, "tags": {"language": "eng"}}
    ]}"#;
    assert_eq!(find_audio_track(Some(text), "eng"), Some(0));
    assert_eq!(find_audio_track(Some(text), "POR"), Some(2));
    assert_eq!(find_audio_track(Some(text), "spa"), None);
    assert_eq!(find_audio_track(Some(text), "unknown"), None);
    assert_eq!(find_audio_track(None, "eng"), None);
    assert_eq!(find_audio_track(Some("garbage"), "eng"), None);
}

#[test]
fn untagged_stream_is_found_as_unknown() {
    let text = r#"{"streams": [{"index": 6}]}"#;
    assert_eq!(find_audio_track(Some(text), "unknown"), Some(6));
}

#[test]
fn probing_tool_arguments() {
    assert_eq!(
        probe_arguments("C:\\media\\film one.mkv"),
        vec![
            "-hide_banner",
            "-loglevel",
            "error",
            "-select_streams",
            "a",
            "-show_entries",
            "stream=index:stream_tags=language",
            "-of",
            "json",
            "C:\\media\\film one.mkv",
        ]
    );
}

#[test]
fn probe_log_lines() {
    assert_eq!(probe_announcement("a b.mkv"), "Probing audio streams in: a b.mkv");
    let list = vec![AudioStream::new(1, "spa"), AudioStream::new(3, "unknown")];
    assert_eq!(
        stream_lines(&list),
        vec!["Audio stream: Index 1 (spa)", "Audio stream: Index 3 (unknown)"]
    );
    assert!(stream_lines(&Vec::new()).is_empty());
}

#[test]
fn text_is_appended_to_a_list() {
    let mut list = vec!["a".to_string()];
    push_text(&mut list, "b");
    push_text(&mut list, "");
    assert_eq!(list, vec!["a", "b", ""]);
}
