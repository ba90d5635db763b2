//! Shaping what a music player daemon reports into the record that is shown.
//!
//! The caller asks the daemon for the current song and for its status and
//! hands both answers over; this module picks the fields that are shown.

use crate::search::{first_index, lemma_first_index_absent, lemma_first_index_found};
use crate::text::text_eq;
use vstd::prelude::*;

verus! {

/// The media player module.
pub struct Mpd {}

/// Playback state of the player.
#[derive(Clone, Copy, Debug, PartialEq, Eq)]
pub enum MpdState {
    Play,
    Pause,
    Stop,
}

impl MpdState {
    /// The number the state is shown as: 0 for playing, 1 for paused, 2 for
    /// stopped.
    pub fn code(&self) -> (c: i8)
        ensures
            c == match *self {
                MpdState::Play => 0i8,
                MpdState::Pause => 1i8,
                MpdState::Stop => 2i8,
            },
    {
        match self {
            MpdState::Play => 0,
            MpdState::Pause => 1,
            MpdState::Stop => 2,
        }
    }
}

/// What the daemon reports of a song, as far as it is used here.
#[derive(Clone, Debug, PartialEq, Eq)]
pub struct Track {
    pub file: String,
    pub title: Option<String>,
    /// Further tags as `(key, value)` pairs, in the order reported.
    pub tags: Vec<(String, String)>,
}

/// The mathematical form of a [`Track`].
pub struct TrackView {
    pub file: Seq<char>,
    pub title: Option<Seq<char>>,
    pub tags: Seq<(Seq<char>, Seq<char>)>,
}

impl View for Track {
    type V = TrackView;

    open spec fn view(&self) -> TrackView {
        TrackView { file: self.file@, title: self.title.deep_view(), tags: self.tags.deep_view() }
    }
}

/// What the daemon reports of its status, as far as it is used here.
/// Durations are in whole seconds.
#[derive(Clone, Copy, Debug, PartialEq, Eq)]
pub struct PlayerStatus {
    pub volume: i8,
    pub repeat: bool,
    pub random: bool,
    pub state: MpdState,
    pub elapsed: Option<u64>,
    pub duration: Option<u64>,
    /// The elapsed share of the duration in percent, rounded to a whole
    /// number by the caller, who computes it from the operands that
    /// [`progress_operands`] gives.
    pub percent: Option<i64>,
}

/// The song as shown.
#[derive(Clone, Debug, PartialEq, Eq)]
pub struct Song {
    pub file_path: Option<String>,
    pub title: Option<String>,
    pub album: Option<String>,
    pub artist: Option<String>,
    pub date: Option<String>,
    pub genre: Option<String>,
}

/// The mathematical form of a [`Song`].
pub struct SongView {
    pub file_path: Option<Seq<char>>,
    pub title: Option<Seq<char>>,
    pub album: Option<Seq<char>>,
    pub artist: Option<Seq<char>>,
    pub date: Option<Seq<char>>,
    pub genre: Option<Seq<char>>,
}

impl View for Song {
    type V = SongView;

    open spec fn view(&self) -> SongView {
        SongView {
            file_path: self.file_path.deep_view(),
            title: self.title.deep_view(),
            album: self.album.deep_view(),
            artist: self.artist.deep_view(),
            date: self.date.deep_view(),
            genre: self.genre.deep_view(),
        }
    }
}

/// The playback position as shown.
#[derive(Clone, Copy, Debug, PartialEq, Eq)]
pub struct State {
    pub elapsed: Option<u64>,
    pub duration: Option<u64>,
    pub progress: Option<i8>,
    pub status: Option<MpdState>,
}

/// The player options as shown.
#[derive(Clone, Copy, Debug, PartialEq, Eq)]
pub struct Options {
    pub volume: i8,
    pub repeat: bool,
    pub random: bool,
}

/// Everything that is shown of the player.
#[derive(Clone, Debug, PartialEq, Eq)]
pub struct Data {
    pub song: Song,
    pub state: State,
    pub options: Options,
}

/// The mathematical form of a [`Data`].
pub struct DataView {
    pub song: SongView,
    pub state: State,
    pub options: Options,
}

impl View for Data {
    type V = DataView;

    open spec fn view(&self) -> DataView {
        DataView { song: self.song@, state: self.state, options: self.options }
    }
}

/// Selects the tags with the given key.
pub open spec fn keyed(key: Seq<char>) -> spec_fn((Seq<char>, Seq<char>)) -> bool {
    |tag: (Seq<char>, Seq<char>)| tag.0 == key
}

/// The value of the first tag with the given key.
pub open spec fn tag_value(tags: Seq<(Seq<char>, Seq<char>)>, key: Seq<char>) -> Option<
    Seq<char>,
> {
    match first_index(tags, keyed(key)) {
        Some(i) => Some(tags[i].1),
        None => None,
    }
}

/// A song with nothing known of it.
pub open spec fn empty_song() -> SongView {
    SongView { file_path: None, title: None, album: None, artist: None, date: None, genre: None }
}

/// The song shown for a track: its file, its title, and the first `Album`,
/// `Artist`, `Date` and `Genre` tag.
pub open spec fn song_of(track: TrackView) -> SongView {
    SongView {
        file_path: Some(track.file),
        title: track.title,
        album: tag_value(track.tags, "Album"@),
        artist: tag_value(track.tags, "Artist"@),
        date: tag_value(track.tags, "Date"@),
        genre: tag_value(track.tags, "Genre"@),
    }
}

/// The operands of the progress ratio: elapsed and total seconds, where
/// both are known and both fit in `i32`.
pub open spec fn operands(elapsed: Option<u64>, duration: Option<u64>) -> Option<(i32, i32)> {
    match (elapsed, duration) {
        (Some(e), Some(d)) => if e <= i32::MAX && d <= i32::MAX {
            Some((e as i32, d as i32))
        } else {
            None
        },
        _ => None,
    }
}

/// The percentage as shown: the number itself where it fits in `i8`.
pub open spec fn narrowed(percent: i64) -> Option<i8> {
    if i8::MIN <= percent && percent <= i8::MAX {
        Some(percent as i8)
    } else {
        None
    }
}

/// The playback position shown for a status. Progress is shown only where
/// the ratio has operands, was computed, and fits in `i8`.
pub open spec fn state_of(status: PlayerStatus) -> State {
    State {
        elapsed: status.elapsed,
        duration: status.duration,
        progress: match (operands(status.elapsed, status.duration), status.percent) {
            (Some(_), Some(p)) => narrowed(p),
            _ => None,
        },
        status: Some(status.state),
    }
}

/// The options shown for a status.
pub open spec fn options_of(status: PlayerStatus) -> Options {
    Options { volume: status.volume, repeat: status.repeat, random: status.random }
}

/// What is shown for a status and the answer to the current-song query: the
/// song's fields where the answer holds a song, an empty song where it holds
/// none or is an error.
pub open spec fn data_of<E>(
    current_song: Result<Option<Track>, E>,
    status: PlayerStatus,
) -> DataView {
    DataView {
        song: match current_song {
            Ok(Some(track)) => song_of(track@),
            _ => empty_song(),
        },
        state: state_of(status),
        options: options_of(status),
    }
}

/// The operands of the progress ratio, for the caller to divide.
pub fn progress_operands(elapsed: Option<u64>, duration: Option<u64>) -> (r: Option<(i32, i32)>)
    ensures
        r == operands(elapsed, duration),
{
    match (elapsed, duration) {
        (Some(e), Some(d)) => {
            if e <= 0x7fff_ffff && d <= 0x7fff_ffff {
                Some((e as i32, d as i32))
            } else {
                None
            }
        },
        _ => None,
    }
}

/// Narrows a percentage to `i8`, or gives `None` where it does not fit.
pub fn narrow_percent(percent: i64) -> (r: Option<i8>)
    ensures
        r == narrowed(percent),
{
    if -128 <= percent && percent <= 127 {
        Some(percent as i8)
    } else {
        None
    }
}

/// Looks up the value of the first tag with the given key.
pub fn find_tag(tags: &Vec<(String, String)>, key: &str) -> (value: Option<String>)
    ensures
        value.deep_view() == tag_value(tags.deep_view(), key@),
{
    let mut i: usize = 0;
    while i < tags.len()
        invariant
            i <= tags.len(),
            forall|j: int| 0 <= j < i ==> !keyed(key@)(#[trigger] tags.deep_view()[j]),
        decreases tags.len() - i,
    {
        if text_eq(tags[i].0.as_str(), key) {
            proof {
                lemma_first_index_found(tags.deep_view(), keyed(key@), i as int);
            }
            return Some(tags[i].1.clone());
        }
        i += 1;
    }
    proof {
        lemma_first_index_absent(tags.deep_view(), keyed(key@));
    }
    None
}

fn clone_text(text: &Option<String>) -> (copy: Option<String>)
    ensures
        copy.deep_view() == text.deep_view(),
{
    match text {
        Some(t) => Some(t.clone()),
        None => None,
    }
}

impl Song {
    /// The song shown when nothing is playing: every field unknown.
    pub fn empty() -> (song: Song)
        ensures
            song@ == empty_song(),
    {
        Song { file_path: None, title: None, album: None, artist: None, date: None, genre: None }
    }

    /// The song shown for the track the daemon reports.
    pub fn from(track: &Track) -> (song: Song)
        ensures
            song@ == song_of(track@),
    {
        Song {
            file_path: Some(track.file.clone()),
            title: clone_text(&track.title),
            album: find_tag(&track.tags, "Album"),
            artist: find_tag(&track.tags, "Artist"),
            date: find_tag(&track.tags, "Date"),
            genre: find_tag(&track.tags, "Genre"),
        }
    }
}

impl State {
    /// The playback position shown for the status the daemon reports.
    pub fn from(status: &PlayerStatus) -> (state: State)
        ensures
            state == state_of(*status),
    {
        let progress = match (progress_operands(status.elapsed, status.duration), status.percent) {
            (Some(_), Some(p)) => narrow_percent(p),
            _ => None,
        };
        State {
            elapsed: status.elapsed,
            duration: status.duration,
            progress,
            status: Some(status.state),
        }
    }
}

impl Options {
    /// The options shown for the status the daemon reports.
    pub fn from(status: &PlayerStatus) -> (options: Options)
        ensures
            options == options_of(*status),
    {
        Options { volume: status.volume, repeat: status.repeat, random: status.random }
    }
}

impl Data {
    /// Puts together what is shown from the two answers of the daemon. An
    /// error of the status query is handed back as it is; an error of the
    /// current-song query only empties the song.
    pub fn try_from<E>(
        current_song: Result<Option<Track>, E>,
        status: Result<PlayerStatus, E>,
    ) -> (r: Result<Data, E>)
        ensures
            match status {
                Ok(s) => r is Ok && r->Ok_0@ == data_of(current_song, s),
                Err(e) => r is Err && r->Err_0 == e,
            },
    {
        let status = match status {
            Ok(s) => s,
            Err(e) => {
                return Err(e);
            },
        };
        let song = match &current_song {
            Ok(Some(track)) => Song::from(track),
            _ => Song::empty(),
        };
        Ok(Data { song, state: State::from(&status), options: Options::from(&status) })
    }
}

/// What is shown of the player, from the daemon's answers to the
/// current-song query and the status query: `None` exactly when the status
/// query failed.
pub fn get_info<E>(
    current_song: Result<Option<Track>, E>,
    status: Result<PlayerStatus, E>,
) -> (info: Option<Data>)
    ensures
        match status {
            Ok(s) => info is Some && info->Some_0@ == data_of(current_song, s),
            Err(_) => info is None,
        },
{
    match Data::try_from(current_song, status) {
        Ok(data) => Some(data),
        Err(_) => None,
    }
}

} // verus!
