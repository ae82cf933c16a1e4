//! The closed set of actions a user can invoke.

use vstd::prelude::*;

verus! {

/// A user-invokable action, produced by resolving a complete key sequence
/// against the keymap or supplied by a caller.
#[derive(Clone, Copy, Debug, PartialEq, Eq, Structural)]
pub enum Command {
    NextTrack,
    PreviousTrack,
    ResumePause,
    PlayContext,
    Repeat,
    Shuffle,
    VolumeUp,
    VolumeDown,
    Quit,
    OpenCommandHelp,
    ClosePopup,
    SelectNextOrScrollDown,
    SelectPreviousOrScrollUp,
    ChooseSelected,
    RefreshPlayback,
    ShowActionsOnSelectedItem,
    ShowActionsOnCurrentTrack,
    FocusNextWindow,
    FocusPreviousWindow,
    SwitchTheme,
    SwitchDevice,
    SearchContext,
    BrowseUserPlaylists,
    BrowseUserFollowedArtists,
    BrowseUserSavedAlbums,
    BrowsePlayingContext,
    SearchPage,
    PreviousPage,
    SortTrackByTitle,
    SortTrackByArtists,
    SortTrackByAlbum,
    SortTrackByDuration,
    SortTrackByAddedDate,
    ReverseTrackOrder,
}

} // verus!
