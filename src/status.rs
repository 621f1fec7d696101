//! The two-line "now playing" text rendered from a player's track and state.

use vstd::prelude::*;
use crate::decimal::{clock, digit_char, push_clock, two_digits, lemma_decimal_last};

verus! {

/// Playback state as reported by the player.
#[derive(Clone, Copy, Debug, PartialEq, Eq, Structural)]
pub enum PlaybackState {
    Playing,
    Paused,
    Stopped,
}

/// What the formatter reads of one player: state, track metadata and timing.
#[derive(Clone, Debug)]
pub struct Track {
    pub status: PlaybackState,
    /// The artist names, when the player reports a list at all.
    pub artists: Option<Vec<String>>,
    pub title: Option<String>,
    /// Playback position, truncated to whole seconds.
    pub position_secs: u64,
    /// Track duration, truncated to whole seconds.
    pub length_secs: u64,
}

/// Mathematical model of a `Track`.
pub ghost struct TrackView {
    pub status: PlaybackState,
    pub artists: Option<Seq<Seq<char>>>,
    pub title: Option<Seq<char>>,
    pub position_secs: nat,
    pub length_secs: nat,
}

impl View for Track {
    type V = TrackView;

    open spec fn view(&self) -> TrackView {
        TrackView {
            status: self.status,
            artists: match self.artists {
                None => None,
                Some(v) => Some(v.deep_view()),
            },
            title: match self.title {
                None => None,
                Some(t) => Some(t@),
            },
            position_secs: self.position_secs as nat,
            length_secs: self.length_secs as nat,
        }
    }
}

/// `parts` joined with `sep` between neighbours.
pub open spec fn join(parts: Seq<Seq<char>>, sep: Seq<char>) -> Seq<char>
    decreases parts.len(),
{
    if parts.len() == 0 {
        seq![]
    } else if parts.len() == 1 {
        parts[0]
    } else {
        join(parts.drop_last(), sep) + sep + parts.last()
    }
}

/// The separator between artist names.
pub open spec fn artist_separator() -> Seq<char> {
    seq![',', ' ']
}

/// The separator between the artists and the title.
pub open spec fn title_separator() -> Seq<char> {
    seq![' ', '-', ' ']
}

/// The title shown for a track without one.
pub open spec fn untitled() -> Seq<char> {
    seq!['U', 'n', 't', 'i', 't', 'l', 'e', 'd']
}

/// The glyph, followed by a space, that marks a paused track.
pub open spec fn pause_glyph() -> Seq<char> {
    seq!['\u{23f8}', ' ']
}

/// The two-character marker that asks the receiver for its compact display.
pub open spec fn compact_marker() -> Seq<char> {
    seq!['\u{0003}', '\u{00f1}']
}

/// The text before the title: empty when there is no artist list or its first
/// name is empty, else all names joined with `", "`, then `" - "`.
pub open spec fn artist_prefix(artists: Option<Seq<Seq<char>>>) -> Seq<char> {
    match artists {
        None => seq![],
        Some(a) => if a.len() == 0 || a[0].len() == 0 {
            seq![]
        } else {
            join(a, artist_separator()) + title_separator()
        },
    }
}

/// The title, or the placeholder when there is none.
pub open spec fn title_text(title: Option<Seq<char>>) -> Seq<char> {
    match title {
        None => untitled(),
        Some(t) => t,
    }
}

/// The prefix of the time line for a state that is not stopped.
pub open spec fn playback_prefix(status: PlaybackState) -> Seq<char> {
    if status == PlaybackState::Paused {
        pause_glyph()
    } else {
        seq![]
    }
}

/// The first line: artists and title.
pub open spec fn title_line(t: TrackView) -> Seq<char> {
    artist_prefix(t.artists) + title_text(t.title)
}

/// The second line after its playback prefix: position, length and marker.
pub open spec fn timing(compact: bool, t: TrackView) -> Seq<char> {
    clock(t.position_secs) + seq!['/'] + clock(t.length_secs) + if compact {
        compact_marker()
    } else {
        seq![]
    }
}

/// The whole status text; empty for a stopped player.
pub open spec fn status_text(compact: bool, t: TrackView) -> Seq<char> {
    if t.status == PlaybackState::Stopped {
        seq![]
    } else {
        title_line(t) + seq!['\n'] + playback_prefix(t.status) + timing(compact, t)
    }
}

/// A stopped player renders as the empty text, whatever else it reports.
pub proof fn lemma_stopped_is_empty(compact: bool, t: TrackView)
    requires
        t.status == PlaybackState::Stopped,
    ensures
        status_text(compact, t) == Seq::<char>::empty(),
{
}

/// Without an artist list, or with one whose first name is empty, the text
/// starts directly with the title.
pub proof fn lemma_no_artist_prefix(compact: bool, t: TrackView)
    requires
        t.status != PlaybackState::Stopped,
        t.artists is None || t.artists->0.len() == 0 || t.artists->0[0].len() == 0,
    ensures
        status_text(compact, t) == title_text(t.title) + seq!['\n'] + playback_prefix(t.status)
            + timing(compact, t),
{
    assert(artist_prefix(t.artists) =~= Seq::<char>::empty());
    assert(title_line(t) =~= title_text(t.title));
}

/// A track without a title is shown under the placeholder title.
pub proof fn lemma_untitled(compact: bool, t: TrackView)
    requires
        t.status != PlaybackState::Stopped,
        t.title is None,
    ensures
        status_text(compact, t) == artist_prefix(t.artists) + untitled() + seq!['\n']
            + playback_prefix(t.status) + timing(compact, t),
{
}

/// The compact flag appends exactly the marker; without it the text ends with
/// a digit of the track length.
pub proof fn lemma_compact_marker(t: TrackView)
    requires
        t.status != PlaybackState::Stopped,
    ensures
        status_text(true, t) == status_text(false, t) + compact_marker(),
        status_text(true, t).len() >= 2,
        status_text(true, t).subrange(
            status_text(true, t).len() - 2,
            status_text(true, t).len() as int,
        ) == compact_marker(),
        status_text(false, t).last() == digit_char((t.length_secs % 60) % 10),
{
    let plain = status_text(false, t);
    assert(status_text(true, t) =~= plain + compact_marker());
    assert((plain + compact_marker()).subrange(plain.len() as int, plain.len() + 2int)
        =~= compact_marker());
    lemma_decimal_last(t.length_secs % 60);
    assert(two_digits(t.length_secs % 60).last() == digit_char((t.length_secs % 60) % 10));
    assert(clock(t.length_secs).last() == two_digits(t.length_secs % 60).last());
    assert(timing(false, t) =~= clock(t.position_secs) + seq!['/'] + clock(t.length_secs));
    assert(plain.last() == clock(t.length_secs).last());
}

/// A paused track's time line starts with the pause glyph; a playing one's
/// starts directly with the position.
pub proof fn lemma_pause_glyph(compact: bool, t: TrackView)
    ensures
        t.status == PlaybackState::Paused ==> status_text(compact, t) == title_line(t)
            + seq!['\n'] + pause_glyph() + timing(compact, t),
        t.status == PlaybackState::Playing ==> status_text(compact, t) == title_line(t)
            + seq!['\n'] + timing(compact, t),
{
    if t.status == PlaybackState::Playing {
        assert(title_line(t) + seq!['\n'] + playback_prefix(t.status) =~= title_line(t) + seq![
            '\n',
        ]);
    }
}

/// Joins `parts` with `sep`.
pub fn join_with(parts: &Vec<String>, sep: &str) -> (r: String)
    ensures
        r@ == join(parts.deep_view(), sep@),
{
    let mut r = String::new();
    let mut i: usize = 0;
    while i < parts.len()
        invariant
            i <= parts.len(),
            r@ == join(parts.deep_view().take(i as int), sep@),
        decreases parts.len() - i,
    {
        let ghost before = parts.deep_view().take(i as int);
        if i > 0 {
            r.append(sep);
        }
        r.append(parts[i].as_str());
        proof {
            let after = parts.deep_view().take(i + 1);
            assert(after.drop_last() =~= before);
            assert(after.last() == parts[i as int]@);
            if i == 0 {
                assert(before =~= Seq::<Seq<char>>::empty());
                assert(r@ =~= join(after, sep@));
            }
        }
        i = i + 1;
    }
    assert(parts.deep_view().take(parts.len() as int) =~= parts.deep_view());
    r
}

/// The artist prefix of a status text, see `artist_prefix`.
fn artist_text(artists: &Option<Vec<String>>) -> (r: String)
    ensures
        r@ == artist_prefix(match artists {
            None => None,
            Some(v) => Some(v.deep_view()),
        }),
{
    match artists {
        None => String::new(),
        Some(list) => {
            if list.len() == 0 || list[0].as_str().unicode_len() == 0 {
                String::new()
            } else {
                proof {
                    reveal_strlit(", ");
                    reveal_strlit(" - ");
                }
                let mut r = join_with(list, ", ");
                r.append(" - ");
                assert(", "@ =~= artist_separator());
                assert(" - "@ =~= title_separator());
                r
            }
        },
    }
}

/// Renders the status text of `track`: empty when it is stopped, else
/// `<artists - ><title>\n<pause glyph><MM:SS>/<MM:SS><compact marker>`.
pub fn format_music(small_bubble: bool, track: &Track) -> (r: String)
    ensures
        r@ == status_text(small_bubble, track@),
{
    let t = track;
    if t.status == PlaybackState::Stopped {
        return String::new();
    }
    proof {
        reveal_strlit("Untitled");
        reveal_strlit("\n");
        reveal_strlit("\u{23f8} ");
        reveal_strlit("/");
        reveal_strlit("\u{0003}\u{00f1}");
    }
    let mut r = artist_text(&t.artists);
    match &t.title {
        None => {
            r.append("Untitled");
        },
        Some(title) => {
            r.append(title.as_str());
        },
    }
    r.append("\n");
    if t.status == PlaybackState::Paused {
        r.append("\u{23f8} ");
    }
    push_clock(&mut r, t.position_secs);
    r.append("/");
    push_clock(&mut r, t.length_secs);
    if small_bubble {
        r.append("\u{0003}\u{00f1}");
    }
    assert(r@ =~= status_text(small_bubble, track@));
    r
}

} // verus!
