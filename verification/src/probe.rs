//! Reading the probing tool's listing of audio streams.
//!
//! The probing tool is asked for the audio streams of a file, and of each
//! only its container index and its language tag, as one JSON document. The
//! caller runs the tool and hands over what it printed; everything from the
//! text onward is decided here.

use vstd::prelude::*;
use vstd::string::*;
use crate::json::{
    elements_of, json_parse, json_tree, member_of, parse_document, spec_elements, spec_member,
    spec_text, spec_unsigned, text_of, unsigned_of, JsonTree,
};
use crate::stream::{
    insert_ascending, lemma_insert_ascending, lemma_select_is_lowest_match,
    select_preferred_track, spec_ascending, spec_insert_ascending, spec_select_preferred,
    spec_label, spec_speaks, spec_stream_views, spec_unknown_language, AudioStream, StreamView,
};

verus! {

/// The views of a list of strings, in list order.
pub open spec fn spec_texts(items: Seq<String>) -> Seq<Seq<char>> {
    Seq::new(items.len(), |i: int| items[i]@)
}

/// The language of a listed stream: the text under `tags.language`, or
/// `unknown` where the entry has no such text.
pub open spec fn spec_entry_language(entry: JsonTree) -> Seq<char> {
    match spec_member(entry, "tags"@) {
        Some(tags) => match spec_member(tags, "language"@) {
            Some(tag) => match spec_text(tag) {
                Some(language) => language,
                None => spec_unknown_language(),
            },
            None => spec_unknown_language(),
        },
        None => spec_unknown_language(),
    }
}

/// The container index of a listed stream: the unsigned integer under
/// `index`; `None` where the entry has no such integer, or one that is no
/// 32-bit container index.
pub open spec fn spec_entry_index(entry: JsonTree) -> Option<u32> {
    match spec_member(entry, "index"@) {
        Some(number) => match spec_unsigned(number) {
            Some(n) => if n <= u32::MAX {
                Some(n as u32)
            } else {
                None
            },
            None => None,
        },
        None => None,
    }
}

/// Every entry of the list has a usable container index.
pub open spec fn spec_all_usable(entries: Seq<JsonTree>) -> bool {
    forall|k: int| 0 <= k < entries.len() ==> spec_entry_index(#[trigger] entries[k]) is Some
}

/// The descriptor that a listed stream gives; `None` for an entry without a
/// usable index.
pub open spec fn spec_entry_stream(entry: JsonTree) -> Option<StreamView> {
    match spec_entry_index(entry) {
        Some(index) => Some(StreamView { index, language: spec_entry_language(entry) }),
        None => None,
    }
}

/// The descriptors of a list of entries as they are listed: one for each
/// entry with a usable index, in the order of the entries.
pub open spec fn spec_listed_streams(entries: Seq<JsonTree>) -> Seq<StreamView>
    decreases entries.len(),
{
    if entries.len() == 0 {
        Seq::empty()
    } else {
        let before = spec_listed_streams(entries.drop_last());
        match spec_entry_stream(entries.last()) {
            Some(stream) => before.push(stream),
            None => before,
        }
    }
}

/// The descriptors of a list of entries by ascending container index: the
/// listed descriptors, each entered in turn behind those whose index is not
/// greater than its own.
pub open spec fn spec_entry_streams(entries: Seq<JsonTree>) -> Seq<StreamView>
    decreases entries.len(),
{
    if entries.len() == 0 {
        Seq::empty()
    } else {
        let before = spec_entry_streams(entries.drop_last());
        match spec_entry_stream(entries.last()) {
            Some(stream) => spec_insert_ascending(before, stream),
            None => before,
        }
    }
}

/// The descriptors that a document lists: those of the array under
/// `streams` where every entry of it has a usable index; none where the
/// document has no such array, or where any entry lacks a usable index.
pub open spec fn spec_document_streams(document: JsonTree) -> Seq<StreamView> {
    match spec_member(document, "streams"@) {
        Some(listing) => match spec_elements(listing) {
            Some(entries) => if spec_all_usable(entries) {
                spec_entry_streams(entries)
            } else {
                Seq::empty()
            },
            None => Seq::empty(),
        },
        None => Seq::empty(),
    }
}

/// The text that the probing tool printed, as a value: `None` where the tool
/// could not be run, failed, or printed no valid text.
pub open spec fn spec_output_text(probe_output: Option<&str>) -> Option<Seq<char>> {
    match probe_output {
        Some(printed) => Some(printed@),
        None => None,
    }
}

/// The descriptors that one run of the probing tool gives: those of the
/// printed document, and none where nothing was printed or the text is no
/// JSON document.
pub open spec fn spec_probe_streams(probe_output: Option<Seq<char>>) -> Seq<StreamView> {
    match probe_output {
        Some(printed) => match json_parse(printed) {
            Some(document) => spec_document_streams(document),
            None => Seq::empty(),
        },
        None => Seq::empty(),
    }
}

/// The log line that announces the probing of a file.
pub open spec fn spec_probe_announcement(file: Seq<char>) -> Seq<char> {
    "Probing audio streams in: "@ + file
}

/// The log line for one probed stream.
pub open spec fn spec_stream_line(stream: StreamView) -> Seq<char> {
    "Audio stream: "@ + spec_label(stream)
}

/// The log lines for the probed streams: one line for each, in list order.
pub open spec fn spec_stream_lines(streams: Seq<StreamView>) -> Seq<Seq<char>> {
    Seq::new(streams.len(), |i: int| spec_stream_line(streams[i]))
}

/// The arguments for the probing tool: quiet operation, audio streams only,
/// of each its index and language tag, JSON output, then the file.
pub open spec fn spec_probe_arguments(file: Seq<char>) -> Seq<Seq<char>> {
    seq![
        "-hide_banner"@,
        "-loglevel"@,
        "error"@,
        "-select_streams"@,
        "a"@,
        "-show_entries"@,
        "stream=index:stream_tags=language"@,
        "-of"@,
        "json"@,
        file,
    ]
}

/// Appends a copy of `item` to a list of strings.
pub fn push_text(list: &mut Vec<String>, item: &str)
    ensures
        spec_texts(final(list)@) == spec_texts(old(list)@).push(item@),
{
    list.push(String::from_str(item));
    assert(spec_texts(list@) =~= spec_texts(old(list)@).push(item@));
}

/// The argument list with which the probing tool is to be run on `file`.
pub fn probe_arguments(file: &str) -> (arguments: Vec<String>)
    ensures
        spec_texts(arguments@) == spec_probe_arguments(file@),
{
    let mut arguments: Vec<String> = Vec::new();
    assert(spec_texts(arguments@) =~= Seq::<Seq<char>>::empty());
    push_text(&mut arguments, "-hide_banner");
    push_text(&mut arguments, "-loglevel");
    push_text(&mut arguments, "error");
    push_text(&mut arguments, "-select_streams");
    push_text(&mut arguments, "a");
    push_text(&mut arguments, "-show_entries");
    push_text(&mut arguments, "stream=index:stream_tags=language");
    push_text(&mut arguments, "-of");
    push_text(&mut arguments, "json");
    push_text(&mut arguments, file);
    assert(spec_texts(arguments@) =~= spec_probe_arguments(file@));
    arguments
}

/// The log line that announces the probing of `file`.
pub fn probe_announcement(file: &str) -> (line: String)
    ensures
        line@ == spec_probe_announcement(file@),
{
    String::from_str("Probing audio streams in: ").concat(file)
}

/// The log lines that report the probed streams, one for each stream.
pub fn stream_lines(streams: &Vec<AudioStream>) -> (lines: Vec<String>)
    ensures
        spec_texts(lines@) == spec_stream_lines(spec_stream_views(streams@)),
{
    let mut lines: Vec<String> = Vec::new();
    let mut i: usize = 0;
    while i < streams.len()
        invariant
            0 <= i <= streams.len(),
            lines@.len() == i,
            forall|k: int|
                0 <= k < i ==> (#[trigger] lines@[k])@ == spec_stream_line(streams@[k]@),
        decreases streams.len() - i,
    {
        let label = streams[i].label();
        lines.push(String::from_str("Audio stream: ").concat(label.as_str()));
        i += 1;
    }
    assert(spec_texts(lines@) =~= spec_stream_lines(spec_stream_views(streams@)));
    lines
}

fn entry_language(entry: &serde_json::Value) -> (language: String)
    ensures
        language@ == spec_entry_language(json_tree(*entry)),
{
    match member_of(entry, "tags") {
        Some(tags) => match member_of(tags, "language") {
            Some(tag) => match text_of(tag) {
                Some(language) => String::from_str(language),
                None => String::from_str("unknown"),
            },
            None => String::from_str("unknown"),
        },
        None => String::from_str("unknown"),
    }
}

fn entry_stream(entry: &serde_json::Value) -> (stream: Option<AudioStream>)
    ensures
        match stream {
            Some(s) => spec_entry_stream(json_tree(*entry)) == Some(s@),
            None => spec_entry_stream(json_tree(*entry)) is None,
        },
{
    match member_of(entry, "index") {
        Some(number) => match unsigned_of(number) {
            Some(n) => if n <= 0xffff_ffff {
                Some(AudioStream { index: n as u32, language: entry_language(entry) })
            } else {
                None
            },
            None => None,
        },
        None => None,
    }
}

/// The audio streams that a parsed listing holds, by ascending container
/// index; streams of equal index stay in the order of the listing. A stream
/// without a language tag is reported with the language `unknown`. The
/// result is empty where the document has no array under `streams`, and
/// where any entry of that array lacks an unsigned 32-bit `index`: such a
/// listing is not trusted in part.
pub fn streams_of_document(document: &serde_json::Value) -> (streams: Vec<AudioStream>)
    ensures
        spec_stream_views(streams@) == spec_document_streams(json_tree(*document)),
{
    let mut streams: Vec<AudioStream> = Vec::new();
    assert(spec_stream_views(streams@) =~= Seq::<StreamView>::empty());
    match member_of(document, "streams") {
        Some(listing) => match elements_of(listing) {
            Some(entries) => {
                let ghost trees = spec_elements(json_tree(*listing)).unwrap();
                let mut i: usize = 0;
                while i < entries.len()
                    invariant
                        0 <= i <= entries.len(),
                        trees.len() == entries@.len(),
                        forall|k: int|
                            0 <= k < entries@.len() ==> trees[k] == json_tree(#[trigger] entries@[k]),
                        spec_member(json_tree(*document), "streams"@) == Some(json_tree(*listing)),
                        spec_elements(json_tree(*listing)) == Some(trees),
                        forall|k: int| 0 <= k < i ==> spec_entry_index(#[trigger] trees[k]) is Some,
                        spec_stream_views(streams@) == spec_entry_streams(trees.take(i as int)),
                    decreases entries.len() - i,
                {
                    assert(trees.take(i + 1).drop_last() =~= trees.take(i as int));
                    assert(trees.take(i + 1).last() == json_tree(entries@[i as int]));
                    match entry_stream(&entries[i]) {
                        Some(stream) => {
                            insert_ascending(&mut streams, stream);
                        },
                        None => {
                            assert(spec_entry_index(trees[i as int]) is None);
                            assert(!spec_all_usable(trees));
                            let nothing: Vec<AudioStream> = Vec::new();
                            assert(spec_stream_views(nothing@) =~= Seq::<StreamView>::empty());
                            return nothing;
                        },
                    }
                    i += 1;
                }
                assert(trees.take(i as int) =~= trees);
            },
            None => {},
        },
        None => {},
    }
    streams
}

/// The audio streams of a file, from what the probing tool printed for it.
///
/// `probe_output` is `None` where the tool could not be run, reported
/// failure, or printed bytes that are no text. In that case, whenever the
/// text is not a JSON document with an array under `streams`, and whenever
/// an entry of that array lacks a usable index, the result is empty: a file
/// without usable audio is an ordinary outcome.
pub fn get_all_audio_tracks(probe_output: Option<&str>) -> (streams: Vec<AudioStream>)
    ensures
        spec_stream_views(streams@) == spec_probe_streams(spec_output_text(probe_output)),
        spec_ascending(spec_stream_views(streams@)),
        probe_output is None ==> streams@.len() == 0,
        probe_output matches Some(printed) && printed@.len() == 0 ==> streams@.len() == 0,
{
    proof {
        lemma_probe_streams_ordered(spec_output_text(probe_output), Seq::empty());
    }
    let parsed = match probe_output {
        Some(printed) => parse_document(printed),
        None => None,
    };
    match parsed {
        Some(document) => streams_of_document(&document),
        None => {
            let streams: Vec<AudioStream> = Vec::new();
            assert(spec_stream_views(streams@) =~= Seq::<StreamView>::empty());
            streams
        },
    }
}

/// The container index of the first audio stream of a file whose language
/// tag equals `code` up to ASCII case, from what the probing tool printed for
/// the file; `None` where no listed stream matches.
pub fn find_audio_track(probe_output: Option<&str>, code: &str) -> (found: Option<u32>)
    ensures
        found == spec_select_preferred(spec_probe_streams(spec_output_text(probe_output)), code@),
        probe_output is None ==> found is None,
        forall|k: int|
            0 <= k < spec_probe_streams(spec_output_text(probe_output)).len() && spec_speaks(
                #[trigger] spec_probe_streams(spec_output_text(probe_output))[k],
                code@,
            ) ==> found is Some && found.unwrap() <= spec_probe_streams(
                spec_output_text(probe_output),
            )[k].index,
{
    proof {
        lemma_probe_streams_ordered(spec_output_text(probe_output), code@);
    }
    let streams = get_all_audio_tracks(probe_output);
    select_preferred_track(&streams, code)
}

/// No run, and a text that is no JSON document, both list no stream; nor
/// does a document without an array under `streams`, nor one in which an
/// entry of that array has no usable index.
pub proof fn lemma_unusable_output_lists_nothing(printed: Seq<char>)
    ensures
        spec_probe_streams(None).len() == 0,
        json_parse(printed) is None ==> spec_probe_streams(Some(printed)).len() == 0,
        json_parse(printed) matches Some(document) && (spec_member(document, "streams"@) is None
            || spec_elements(spec_member(document, "streams"@).unwrap()) is None)
            ==> spec_probe_streams(Some(printed)).len() == 0,
        json_parse(printed) matches Some(document) && spec_member(document, "streams"@) matches Some(
            listing,
        ) && spec_elements(listing) matches Some(entries) && !spec_all_usable(entries)
            ==> spec_probe_streams(Some(printed)).len() == 0,
{
}

/// A document lists either nothing or one descriptor for each entry of the
/// array under `streams`: no listing is taken in part.
pub proof fn lemma_document_streams_whole(document: JsonTree)
    ensures
        spec_document_streams(document).len() == 0 || (spec_member(document, "streams"@) matches Some(
            listing,
        ) && spec_elements(listing) matches Some(entries) && spec_all_usable(entries)
            && spec_document_streams(document).len() == entries.len()),
{
    match spec_member(document, "streams"@) {
        Some(listing) => match spec_elements(listing) {
            Some(entries) => {
                lemma_entry_streams_ordered(entries);
            },
            None => {},
        },
        None => {},
    }
}

/// The descriptors of a list of entries ascend by container index. They are
/// the listed descriptors, each as often as it is listed, and they stand in
/// the order of the listing where the listing itself ascends.
pub proof fn lemma_entry_streams_ordered(entries: Seq<JsonTree>)
    ensures
        spec_ascending(spec_entry_streams(entries)),
        spec_entry_streams(entries).to_multiset() == spec_listed_streams(entries).to_multiset(),
        spec_entry_streams(entries).len() == spec_listed_streams(entries).len(),
        spec_entry_streams(entries).len() <= entries.len(),
        spec_all_usable(entries) ==> spec_entry_streams(entries).len() == entries.len(),
        spec_ascending(spec_listed_streams(entries)) ==> spec_entry_streams(entries)
            == spec_listed_streams(entries),
    decreases entries.len(),
{
    if entries.len() > 0 {
        let front = entries.drop_last();
        assert(forall|k: int| 0 <= k < front.len() ==> front[k] == entries[k]);
        let sorted = spec_entry_streams(front);
        let listed = spec_listed_streams(front);
        lemma_entry_streams_ordered(front);
        match spec_entry_stream(entries.last()) {
            Some(stream) => {
                lemma_insert_ascending(sorted, stream);
                listed.to_multiset_ensures();
                if spec_ascending(listed.push(stream)) {
                    assert forall|i: int, j: int| 0 <= i <= j < listed.len() implies (
                    #[trigger] listed[i]).index <= (#[trigger] listed[j]).index by {
                        assert(listed.push(stream)[i] == listed[i]);
                        assert(listed.push(stream)[j] == listed[j]);
                    }
                    if listed.len() > 0 {
                        assert(listed.push(stream)[listed.len() - 1] == listed.last());
                        assert(listed.push(stream)[listed.len() as int] == stream);
                    }
                }
            },
            None => {},
        }
    }
}

/// What one run of the probing tool gives ascends by container index, so a
/// stream found in it by language is the matching stream of the lowest
/// container index.
pub proof fn lemma_probe_streams_ordered(probe_output: Option<Seq<char>>, code: Seq<char>)
    ensures
        spec_ascending(spec_probe_streams(probe_output)),
        forall|k: int|
            0 <= k < spec_probe_streams(probe_output).len() && spec_speaks(
                #[trigger] spec_probe_streams(probe_output)[k],
                code,
            ) ==> {
                &&& spec_select_preferred(spec_probe_streams(probe_output), code) is Some
                &&& spec_select_preferred(spec_probe_streams(probe_output), code).unwrap()
                    <= spec_probe_streams(probe_output)[k].index
            },
{
    match probe_output {
        Some(printed) => match json_parse(printed) {
            Some(document) => match spec_member(document, "streams"@) {
                Some(listing) => match spec_elements(listing) {
                    Some(entries) => {
                        lemma_entry_streams_ordered(entries);
                    },
                    None => {},
                },
                None => {},
            },
            None => {},
        },
        None => {},
    }
    lemma_select_is_lowest_match(spec_probe_streams(probe_output), code);
}

} // verus!
