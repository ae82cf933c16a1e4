//! The state that every component reads or changes: the last known
//! playback, the user interface, and the cached user data.

use vstd::prelude::*;
use crate::config::Theme;
use crate::key::{Key, KeySequence};

verus! {

/// A playback device known to the remote service.
#[derive(Clone, Debug, PartialEq, Eq)]
pub struct Device {
    pub id: String,
    pub name: String,
    pub volume_percent: Option<u32>,
}

/// A track, with its duration in milliseconds.
#[derive(Clone, Debug, PartialEq, Eq)]
pub struct Track {
    pub id: String,
    pub name: String,
    pub duration_ms: u32,
}

impl Track {
    /// A copy of this track, equal to it field by field.
    pub fn duplicate(&self) -> (r: Track)
        ensures
            r == *self,
    {
        Track { id: self.id.clone(), name: self.name.clone(), duration_ms: self.duration_ms }
    }
}

#[derive(Clone, Debug, PartialEq, Eq)]
pub struct Album {
    pub id: String,
    pub name: String,
}

#[derive(Clone, Debug, PartialEq, Eq)]
pub struct Artist {
    pub id: String,
    pub name: String,
}

#[derive(Clone, Debug, PartialEq, Eq)]
pub struct Playlist {
    pub id: String,
    pub name: String,
}

impl Playlist {
    /// A copy of this playlist, equal to it field by field.
    pub fn duplicate(&self) -> (r: Playlist)
        ensures
            r == *self,
    {
        Playlist { id: self.id.clone(), name: self.name.clone() }
    }
}

#[derive(Clone, Debug, PartialEq, Eq)]
pub struct TrackId {
    pub id: String,
}

#[derive(Clone, Debug, PartialEq, Eq)]
pub struct PlaylistId {
    pub id: String,
}

/// The identity of something that can be browsed as a list of tracks.
#[derive(Clone, Debug, PartialEq, Eq)]
pub enum ContextId {
    Playlist(String),
    Album(String),
    Artist(String),
}

/// Anything that actions can be shown for.
#[derive(Clone, Debug, PartialEq, Eq)]
pub enum Item {
    Track(Track),
    Album(Album),
    Artist(Artist),
    Playlist(Playlist),
}

/// The seed of a recommendation list.
#[derive(Clone, Debug, PartialEq, Eq)]
pub enum SeedItem {
    Track(Track),
    Artist(Artist),
}

/// What a start-playback request plays.
#[derive(Clone, Debug, PartialEq, Eq)]
pub enum Playback {
    /// A context, optionally from the track at an offset in it.
    Context(ContextId, Option<usize>),
    /// A list of tracks, optionally from an offset in it.
    Tracks(Vec<TrackId>, Option<usize>),
}

/// The last playback snapshot that the remote service reported.
#[derive(Clone, Debug, PartialEq, Eq)]
pub struct CurrentPlayback {
    pub device: Device,
    pub is_playing: bool,
    pub shuffle: bool,
    pub repeat: bool,
    /// Progress into the current item in milliseconds, where known.
    pub progress_ms: Option<u32>,
    /// The track that is playing, where the current item is a track.
    pub track: Option<Track>,
}

/// Player state: the playback snapshot and the known devices.
#[derive(Clone, Debug, PartialEq, Eq)]
pub struct PlayerState {
    pub playback: Option<CurrentPlayback>,
    pub devices: Vec<Device>,
}

impl PlayerState {
    /// The track that is playing, where a playback is known and its
    /// current item is a track.
    pub open spec fn current_track(&self) -> Option<Track> {
        match self.playback {
            Some(playback) => playback.track,
            None => None,
        }
    }

    /// The known progress into the current item, in milliseconds.
    pub open spec fn progress(&self) -> Option<u32> {
        match self.playback {
            Some(playback) => playback.progress_ms,
            None => None,
        }
    }

    /// Whether a playback is known and marked as playing.
    pub open spec fn playing(&self) -> bool {
        match self.playback {
            Some(playback) => playback.is_playing,
            None => false,
        }
    }

    /// The volume of the playback's device in percent, where both are
    /// known.
    pub open spec fn volume(&self) -> Option<u32> {
        match self.playback {
            Some(playback) => playback.device.volume_percent,
            None => None,
        }
    }

    pub fn volume_percent(&self) -> (r: Option<u32>)
        ensures
            r == self.volume(),
    {
        match &self.playback {
            Some(playback) => playback.device.volume_percent,
            None => None,
        }
    }

    pub fn current_playing_track(&self) -> (r: Option<&Track>)
        ensures
            r.is_some() == self.current_track().is_some(),
            r.is_some() ==> *r.unwrap() == self.current_track().unwrap(),
    {
        match &self.playback {
            Some(playback) => match &playback.track {
                Some(track) => Some(track),
                None => None,
            },
            None => None,
        }
    }

    pub fn playback_progress(&self) -> (r: Option<u32>)
        ensures
            r == self.progress(),
    {
        match &self.playback {
            Some(playback) => playback.progress_ms,
            None => None,
        }
    }

    pub fn is_playing(&self) -> (r: bool)
        ensures
            r == self.playing(),
    {
        match &self.playback {
            Some(playback) => playback.is_playing,
            None => false,
        }
    }
}

/// Collections cached from the remote service.
#[derive(Clone, Debug, PartialEq, Eq)]
pub struct UserData {
    pub playlists: Vec<Playlist>,
    pub saved_albums: Vec<Album>,
    pub followed_artists: Vec<Artist>,
}

impl UserData {
    /// A copy of the cached playlists, in their order.
    pub fn playlists_snapshot(&self) -> (r: Vec<Playlist>)
        ensures
            r@ == self.playlists@,
    {
        let mut out: Vec<Playlist> = Vec::new();
        let mut i: usize = 0;
        while i < self.playlists.len()
            invariant
                i <= self.playlists.len(),
                out@ == self.playlists@.take(i as int),
            decreases self.playlists.len() - i,
        {
            out.push(self.playlists[i].duplicate());
            assert(self.playlists@.take(i as int).push(self.playlists@[i as int])
                == self.playlists@.take(i as int + 1));
            i += 1;
        }
        assert(self.playlists@.take(self.playlists.len() as int) == self.playlists@);
        out
    }
}

/// A rectangle of terminal cells.
#[derive(Clone, Copy, Debug, PartialEq, Eq, Structural)]
pub struct Rect {
    pub x: u16,
    pub y: u16,
    pub width: u16,
    pub height: u16,
}

/// The selection of a list on screen.
#[derive(Clone, Copy, Debug, PartialEq, Eq)]
pub struct ListState {
    pub selected: Option<usize>,
}

/// The state of a list that was just opened: its first row is selected.
pub open spec fn fresh_list_state() -> ListState {
    ListState { selected: Some(0usize) }
}

pub fn new_list_state() -> (r: ListState)
    ensures
        r == fresh_list_state(),
{
    ListState { selected: Some(0) }
}

/// What choosing a playlist in the playlist popup does.
#[derive(Clone, Debug, PartialEq, Eq)]
pub enum PlaylistPopupAction {
    Browse,
    AddTrack(TrackId),
}

/// The overlay that is shown above the current page.
#[derive(Clone, Debug, PartialEq, Eq)]
pub enum PopupState {
    CommandHelp { offset: usize },
    ContextSearch { query: String },
    ActionList(Item, ListState),
    UserPlaylistList(PlaylistPopupAction, Vec<Playlist>, ListState),
    UserFollowedArtistList(ListState),
    UserSavedAlbumList(ListState),
    DeviceList(ListState),
    ThemeList(Vec<Theme>, ListState),
}

/// A page of the history stack.
#[derive(Clone, Debug, PartialEq, Eq)]
pub enum PageState {
    CurrentPlaying,
    Browsing(ContextId),
    Recommendations(SeedItem),
    Searching { input: String, current_query: String },
}

/// What the window of the current page holds.
#[derive(Clone, Copy, Debug, PartialEq, Eq, Structural)]
pub enum WindowState {
    Unknown,
    Context,
    Recommendations,
    Search,
}

impl WindowState {
    pub fn new_search_state() -> (r: WindowState)
        ensures
            r == WindowState::Search,
    {
        WindowState::Search
    }
}

/// User-interface state.
#[derive(Clone, Debug, PartialEq, Eq)]
pub struct UIState {
    pub is_running: bool,
    pub theme: Theme,
    /// The keys typed so far that have not resolved to a command.
    pub input_key_sequence: KeySequence,
    /// The page stack; its last entry is the current page.
    pub history: Vec<PageState>,
    pub popup: Option<PopupState>,
    pub window: WindowState,
    /// Where the renderer last drew the progress bar.
    pub progress_bar_rect: Rect,
}

/// User-interface state as contracts see it.
pub struct UIView {
    pub is_running: bool,
    pub theme: Theme,
    pub input_key_sequence: Seq<Key>,
    pub history: Seq<PageState>,
    pub popup: Option<PopupState>,
    pub window: WindowState,
    pub progress_bar_rect: Rect,
}

impl View for UIState {
    type V = UIView;

    open spec fn view(&self) -> UIView {
        UIView {
            is_running: self.is_running,
            theme: self.theme,
            input_key_sequence: self.input_key_sequence@,
            history: self.history@,
            popup: self.popup,
            window: self.window,
            progress_bar_rect: self.progress_bar_rect,
        }
    }
}

impl UIState {
    /// A running interface that shows `page` alone, with no popup and no
    /// key typed.
    pub fn new(theme: Theme, page: PageState) -> (r: UIState)
        ensures
            r.wf(),
            r@ == (UIView {
                is_running: true,
                theme: theme,
                input_key_sequence: Seq::<Key>::empty(),
                history: seq![page],
                popup: None,
                window: WindowState::Unknown,
                progress_bar_rect: Rect { x: 0, y: 0, width: 0, height: 0 },
            }),
    {
        let mut history: Vec<PageState> = Vec::new();
        history.push(page);
        UIState {
            is_running: true,
            theme,
            input_key_sequence: KeySequence::new(),
            history,
            popup: None,
            window: WindowState::Unknown,
            progress_bar_rect: Rect { x: 0, y: 0, width: 0, height: 0 },
        }
    }

    /// The page history is never empty.
    pub open spec fn wf(&self) -> bool {
        self.history@.len() > 0
    }

    /// The page on top of the history.
    pub fn current_page(&self) -> (r: &PageState)
        requires
            self.wf(),
        ensures
            *r == self.history@.last(),
    {
        &self.history[self.history.len() - 1]
    }

    /// Pushes `page` onto the history and closes any popup.
    pub fn create_new_page(&mut self, page: PageState)
        ensures
            final(self)@ == (UIView {
                history: old(self)@.history.push(page),
                popup: None,
                ..old(self)@
            }),
            final(self).wf(),
    {
        self.history.push(page);
        self.popup = None;
    }
}

} // verus!
