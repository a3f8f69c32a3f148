//! Audio stream descriptors and the choice of a stream by language.

use vstd::prelude::*;
use vstd::string::*;
use crate::text::spec_eq_ignore_ascii_case;

verus! {

/// The language reported for a stream that carries no language tag.
pub open spec fn spec_unknown_language() -> Seq<char> {
    "unknown"@
}

/// Mathematical value of an audio stream descriptor.
pub struct StreamView {
    /// Position of the stream within its container, counted over all streams
    /// of the container (picture streams included).
    pub index: u32,
    /// Language tag of the stream.
    pub language: Seq<char>,
}

/// One audio stream of a media container.
///
/// `index` is the absolute container index: the number the probing tool
/// reports and the number the muxing tool expects in a stream mapping. No
/// other numbering is used anywhere in this library.
#[derive(Debug)]
pub struct AudioStream {
    pub index: u32,
    pub language: String,
}

impl View for AudioStream {
    type V = StreamView;

    open spec fn view(&self) -> StreamView {
        StreamView { index: self.index, language: self.language@ }
    }
}

/// The values of a list of descriptors, in list order.
pub open spec fn spec_stream_views(streams: Seq<AudioStream>) -> Seq<StreamView> {
    Seq::new(streams.len(), |i: int| streams[i]@)
}

/// The stream's language tag equals `code` up to ASCII case.
pub open spec fn spec_speaks(stream: StreamView, code: Seq<char>) -> bool {
    spec_eq_ignore_ascii_case(stream.language, code)
}

/// The container index of the first stream of the list, in list order, whose
/// language tag equals `code` up to ASCII case.
pub open spec fn spec_select_preferred(streams: Seq<StreamView>, code: Seq<char>) -> Option<u32>
    decreases streams.len(),
{
    if streams.len() == 0 {
        None
    } else if spec_speaks(streams[0], code) {
        Some(streams[0].index)
    } else {
        spec_select_preferred(streams.drop_first(), code)
    }
}

/// Some stream of the list has the container index `index`.
pub open spec fn spec_has_index(streams: Seq<StreamView>, index: u32) -> bool {
    exists|k: int| 0 <= k < streams.len() && (#[trigger] streams[k]).index == index
}

/// The container indices never decrease along the list.
pub open spec fn spec_ascending(streams: Seq<StreamView>) -> bool {
    forall|i: int, j: int|
        0 <= i <= j < streams.len() ==> (#[trigger] streams[i]).index <= (#[trigger] streams[j]).index
}

/// The place at which a stream with the container index `index` enters an
/// ascending list: behind every stream whose index is not greater.
pub open spec fn spec_insert_position(streams: Seq<StreamView>, index: u32) -> int
    decreases streams.len(),
{
    if streams.len() == 0 || streams.last().index <= index {
        streams.len() as int
    } else {
        spec_insert_position(streams.drop_last(), index)
    }
}

/// The list with one more stream, entered behind the streams whose container
/// index is not greater than its own.
pub open spec fn spec_insert_ascending(streams: Seq<StreamView>, stream: StreamView) -> Seq<
    StreamView,
> {
    streams.insert(spec_insert_position(streams, stream.index), stream)
}

impl AudioStream {
    /// A descriptor with the given container index and language tag.
    pub fn new(index: u32, language: &str) -> (stream: AudioStream)
        ensures
            stream@ == (StreamView { index, language: language@ }),
    {
        AudioStream { index, language: String::from_str(language) }
    }

    /// A copy of this descriptor.
    pub fn duplicate(&self) -> (copy: AudioStream)
        ensures
            copy@ == self@,
    {
        AudioStream { index: self.index, language: self.language.clone() }
    }

    /// The text shown for this stream in a list of choices: the word `Index`,
    /// the container index in decimal, and the language tag in parentheses.
    pub fn label(&self) -> (text: String)
        ensures
            text@ == spec_label(self@),
    {
        let number = crate::text::decimal_string(self.index as u64);
        let mut text = String::from_str("Index ");
        text.append(number.as_str());
        text.append(" (");
        text.append(self.language.as_str());
        text.append(")");
        text
    }
}

/// The label of a stream as a sequence of characters.
pub open spec fn spec_label(stream: StreamView) -> Seq<char> {
    "Index "@ + crate::text::spec_decimal(stream.index as nat) + " ("@ + stream.language + ")"@
}

/// Chooses the stream for a language: the first stream in list order whose
/// language tag equals `code` up to ASCII case, reported by its container
/// index; `None` when no tag matches.
pub fn select_preferred_track(streams: &Vec<AudioStream>, code: &str) -> (chosen: Option<u32>)
    ensures
        chosen == spec_select_preferred(spec_stream_views(streams@), code@),
{
    let ghost views = spec_stream_views(streams@);
    let mut i: usize = 0;
    assert(views.subrange(0, views.len() as int) =~= views);
    while i < streams.len()
        invariant
            0 <= i <= streams.len(),
            views == spec_stream_views(streams@),
            spec_select_preferred(views, code@) == spec_select_preferred(
                views.subrange(i as int, views.len() as int),
                code@,
            ),
        decreases streams.len() - i,
    {
        let ghost rest = views.subrange(i as int, views.len() as int);
        assert(rest[0] == streams@[i as int]@);
        if streams[i].language.as_str().eq_ignore_ascii_case(code) {
            return Some(streams[i].index);
        }
        assert(rest.drop_first() =~= views.subrange(i + 1, views.len() as int));
        i += 1;
    }
    assert(views.subrange(i as int, views.len() as int).len() == 0);
    None
}

/// Whether some stream of the list has the container index `index`.
pub fn has_stream_index(streams: &Vec<AudioStream>, index: u32) -> (found: bool)
    ensures
        found == spec_has_index(spec_stream_views(streams@), index),
{
    let ghost views = spec_stream_views(streams@);
    let mut i: usize = 0;
    while i < streams.len()
        invariant
            0 <= i <= streams.len(),
            views == spec_stream_views(streams@),
            forall|k: int| 0 <= k < i ==> (#[trigger] views[k]).index != index,
        decreases streams.len() - i,
    {
        if streams[i].index == index {
            assert(views[i as int].index == index);
            return true;
        }
        i += 1;
    }
    false
}

/// Enters a stream into a list behind the streams whose container index is
/// not greater than its own, so that an ascending list stays ascending and
/// streams of equal index keep the order in which they came.
pub fn insert_ascending(streams: &mut Vec<AudioStream>, stream: AudioStream)
    ensures
        spec_stream_views(final(streams)@) == spec_insert_ascending(
            spec_stream_views(old(streams)@),
            stream@,
        ),
{
    let ghost views = spec_stream_views(streams@);
    let mut place: usize = streams.len();
    assert(views.take(place as int) =~= views);
    while place > 0 && streams[place - 1].index > stream.index
        invariant
            0 <= place <= streams.len(),
            views == spec_stream_views(streams@),
            spec_insert_position(views, stream.index) == spec_insert_position(
                views.take(place as int),
                stream.index,
            ),
        decreases place,
    {
        assert(views.take(place as int).last() == views[place - 1]);
        assert(views.take(place as int).drop_last() =~= views.take(place - 1));
        place -= 1;
    }
    assert(spec_insert_position(views, stream.index) == place) by {
        if place > 0 {
            assert(views.take(place as int).last() == views[place - 1]);
        }
    }
    streams.insert(place, stream);
    assert(spec_stream_views(streams@) =~= views.insert(place as int, stream@));
}

/// The place of entry lies within the list; every stream from that place on
/// has a greater container index, and the stream just before it has not.
pub proof fn lemma_insert_position(streams: Seq<StreamView>, index: u32)
    ensures
        0 <= spec_insert_position(streams, index) <= streams.len(),
        forall|k: int|
            spec_insert_position(streams, index) <= k < streams.len() ==> (#[trigger] streams[k]).index
                > index,
        spec_insert_position(streams, index) > 0 ==> streams[spec_insert_position(streams, index)
            - 1].index <= index,
    decreases streams.len(),
{
    if streams.len() == 0 || streams.last().index <= index {
    } else {
        let front = streams.drop_last();
        lemma_insert_position(front, index);
        assert(forall|k: int| 0 <= k < front.len() ==> front[k] == streams[k]);
    }
}

/// Entering a stream keeps an ascending list ascending, adds that stream and
/// nothing else, and appends it where no stream of the list has a greater
/// container index.
pub proof fn lemma_insert_ascending(streams: Seq<StreamView>, stream: StreamView)
    ensures
        spec_ascending(streams) ==> spec_ascending(spec_insert_ascending(streams, stream)),
        spec_insert_ascending(streams, stream).to_multiset() == streams.to_multiset().insert(stream),
        spec_insert_ascending(streams, stream).len() == streams.len() + 1,
        (streams.len() == 0 || streams.last().index <= stream.index) ==> spec_insert_ascending(
            streams,
            stream,
        ) == streams.push(stream),
{
    let place = spec_insert_position(streams, stream.index);
    let grown = spec_insert_ascending(streams, stream);
    lemma_insert_position(streams, stream.index);
    streams.insert_ensures(place, stream);
    vstd::seq_lib::to_multiset_insert(streams, place, stream);
    if spec_ascending(streams) {
        assert forall|i: int, j: int| 0 <= i <= j < grown.len() implies (#[trigger] grown[i]).index
            <= (#[trigger] grown[j]).index by {
            if i < place {
                assert(grown[i] == streams[i]);
                assert(streams[i].index <= streams[place - 1].index);
            } else if i > place {
                assert(grown[i] == streams[i - 1]);
            }
            if j < place {
                assert(grown[j] == streams[j]);
            } else if j > place {
                assert(grown[j] == streams[j - 1]);
            }
        }
    }
    if streams.len() == 0 || streams.last().index <= stream.index {
        assert(grown =~= streams.push(stream));
    }
}

/// A selection is the index of a matching stream, and no stream before that
/// one in the list matches; without a selection no stream matches.
pub proof fn lemma_select_is_first_match(streams: Seq<StreamView>, code: Seq<char>)
    ensures
        match spec_select_preferred(streams, code) {
            Some(index) => exists|k: int|
                0 <= k < streams.len() && spec_speaks(#[trigger] streams[k], code) && streams[k].index
                    == index && forall|j: int| 0 <= j < k ==> !spec_speaks(#[trigger] streams[j], code),
            None => forall|k: int| 0 <= k < streams.len() ==> !spec_speaks(#[trigger] streams[k], code),
        },
    decreases streams.len(),
{
    if streams.len() == 0 {
    } else if spec_speaks(streams[0], code) {
        assert(forall|j: int| 0 <= j < 0 ==> !spec_speaks(#[trigger] streams[j], code));
    } else {
        let rest = streams.drop_first();
        lemma_select_is_first_match(rest, code);
        assert(forall|k: int| 0 <= k < rest.len() ==> rest[k] == streams[k + 1]);
        match spec_select_preferred(rest, code) {
            Some(index) => {
                let k = choose|k: int|
                    0 <= k < rest.len() && spec_speaks(#[trigger] rest[k], code) && rest[k].index
                        == index && forall|j: int| 0 <= j < k ==> !spec_speaks(#[trigger] rest[j], code);
                assert forall|j: int| 0 <= j < k + 1 implies !spec_speaks(#[trigger] streams[j], code) by {
                    if j > 0 {
                        assert(rest[j - 1] == streams[j]);
                    }
                }
                assert(spec_speaks(streams[k + 1], code) && streams[k + 1].index == index);
            },
            None => {
                assert forall|k: int| 0 <= k < streams.len() implies !spec_speaks(
                    #[trigger] streams[k],
                    code,
                ) by {
                    if k > 0 {
                        assert(rest[k - 1] == streams[k]);
                    }
                }
            },
        }
    }
}

/// Nothing is selected exactly where no stream of the list matches.
pub proof fn lemma_no_match_selects_nothing(streams: Seq<StreamView>, code: Seq<char>)
    ensures
        spec_select_preferred(streams, code) is None <==> forall|k: int|
            0 <= k < streams.len() ==> !spec_speaks(#[trigger] streams[k], code),
{
    lemma_select_is_first_match(streams, code);
}

/// In a list whose container indices ascend, the selection is the lowest
/// container index among the matching streams.
pub proof fn lemma_select_is_lowest_match(streams: Seq<StreamView>, code: Seq<char>)
    requires
        spec_ascending(streams),
    ensures
        forall|k: int|
            0 <= k < streams.len() && spec_speaks(#[trigger] streams[k], code) ==> {
                &&& spec_select_preferred(streams, code) is Some
                &&& spec_select_preferred(streams, code).unwrap() <= streams[k].index
            },
{
    lemma_select_is_first_match(streams, code);
}

/// A selection always names a stream of the list.
pub proof fn lemma_select_names_a_stream(streams: Seq<StreamView>, code: Seq<char>)
    ensures
        spec_select_preferred(streams, code) matches Some(index) ==> spec_has_index(streams, index),
{
    lemma_select_is_first_match(streams, code);
}

} // verus!
