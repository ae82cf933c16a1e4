//! Requests to the remote service and the handlers of terminal events.

use vstd::prelude::*;
use crate::client::{after_submitting, RequestQueue, SubmitError};
use crate::command::Command;
use crate::config::{active_theme_first, KeymapConfig, ThemeConfig};
use crate::key::{Key, KeySequence};
use crate::state::{
    fresh_list_state, new_list_state, ContextId, Item, PageState, Playback, PlayerState,
    PlaylistId, PlaylistPopupAction, PopupState, SeedItem, Track, TrackId, UIState, UIView,
    UserData, WindowState,
};

verus! {

/// A request that modifies the player's playback.
#[derive(Clone, Debug, PartialEq, Eq)]
pub enum PlayerRequest {
    NextTrack,
    PreviousTrack,
    ResumePause,
    /// Seek to a position in milliseconds.
    SeekTrack(u32),
    Repeat,
    Shuffle,
    /// Set the volume, in percent.
    Volume(u8),
    /// Transfer the playback to a device; the flag forces it to play.
    TransferPlayback(String, bool),
    StartPlayback(Playback),
}

/// A request to the client of the remote service.
#[derive(Clone, Debug, PartialEq, Eq)]
pub enum ClientRequest {
    GetCurrentUser,
    GetDevices,
    GetUserPlaylists,
    GetUserSavedAlbums,
    GetUserFollowedArtists,
    GetContext(ContextId),
    GetCurrentPlayback,
    GetRecommendations(SeedItem),
    Search(String),
    AddTrackToPlaylist(PlaylistId, TrackId),
    SaveToLibrary(Item),
    Player(PlayerRequest),
}

/// A mouse button.
#[derive(Clone, Copy, Debug, PartialEq, Eq, Structural)]
pub enum MouseButton {
    Left,
    Right,
    Middle,
}

/// What the mouse did.
#[derive(Clone, Copy, Debug, PartialEq, Eq, Structural)]
pub enum MouseEventKind {
    Down(MouseButton),
    Up(MouseButton),
    Drag(MouseButton),
    Moved,
    ScrollDown,
    ScrollUp,
    ScrollLeft,
    ScrollRight,
}

/// A mouse event at a terminal cell.
#[derive(Clone, Copy, Debug, PartialEq, Eq, Structural)]
pub struct MouseEvent {
    pub kind: MouseEventKind,
    pub column: u16,
    pub row: u16,
}

/// The position in milliseconds that a click at `column` stands for on a
/// progress bar `width` cells wide under a track of `duration_ms`:
/// `duration_ms * column / width`, rounded down.
pub open spec fn seek_position(duration_ms: u32, column: u16, width: u16) -> int
    recommends
        width > 0,
{
    (duration_ms as int * column as int) / (width as int)
}

/// The seek position of a click, where the bar has a width and the
/// position fits the request; `None` otherwise.
pub fn seek_target(duration_ms: u32, column: u16, width: u16) -> (r: Option<u32>)
    ensures
        r.is_some() == (width > 0 && seek_position(duration_ms, column, width) <= u32::MAX),
        r.is_some() ==> r.unwrap() == seek_position(duration_ms, column, width),
{
    if width == 0 {
        return None;
    }
    assert(duration_ms as int * column as int <= 0xffff_ffff * 0xffff) by (nonlinear_arith)
        requires
            0 <= duration_ms as int <= 0xffff_ffff,
            0 <= column as int <= 0xffff,
    ;
    assert(0 <= duration_ms as int * column as int) by (nonlinear_arith)
        requires
            0 <= duration_ms as int,
            0 <= column as int,
    ;
    let product: u64 = (duration_ms as u64) * (column as u64);
    let position: u64 = product / (width as u64);
    if position > 0xffff_ffff {
        None
    } else {
        Some(position as u32)
    }
}

/// The track that a mouse event seeks in: the current track, where the
/// event is a press of the left button on the progress bar's row.
pub open spec fn clicked_track(event: MouseEvent, ui: UIView, player: &PlayerState) -> Option<
    Track,
> {
    if event.kind == MouseEventKind::Down(MouseButton::Left) && event.row
        == ui.progress_bar_rect.y {
        player.current_track()
    } else {
        None
    }
}

/// A click seeks on a bar that has a width, to a position that a request
/// can hold.
pub open spec fn seek_defined(event: MouseEvent, ui: UIView, player: &PlayerState) -> bool {
    clicked_track(event, ui, player) matches Some(track) ==> ui.progress_bar_rect.width > 0
        && seek_position(track.duration_ms, event.column, ui.progress_bar_rect.width)
        <= u32::MAX
}

/// Tests whether a mouse event can be handled: whether [`seek_defined`]
/// holds of it.
pub fn can_handle_mouse_event(event: MouseEvent, ui: &UIState, player: &PlayerState) -> (r: bool)
    ensures
        r == seek_defined(event, ui@, player),
{
    let left_down = match event.kind {
        MouseEventKind::Down(MouseButton::Left) => true,
        _ => false,
    };
    if left_down && event.row == ui.progress_bar_rect.y {
        match player.current_playing_track() {
            Some(track) => seek_target(
                track.duration_ms,
                event.column,
                ui.progress_bar_rect.width,
            ).is_some(),
            None => true,
        }
    } else {
        true
    }
}

/// What a mouse event submits: a seek to the clicked position, or
/// nothing.
pub open spec fn mouse_requests(event: MouseEvent, ui: UIView, player: &PlayerState) -> Seq<
    ClientRequest,
> {
    match clicked_track(event, ui, player) {
        Some(track) => seq![
            ClientRequest::Player(
                PlayerRequest::SeekTrack(
                    seek_position(
                        track.duration_ms,
                        event.column,
                        ui.progress_bar_rect.width,
                    ) as u32,
                ),
            ),
        ],
        None => Seq::<ClientRequest>::empty(),
    }
}

/// Handles a terminal mouse event. A press of the left button on the
/// progress bar's row, with a track playing, submits a seek to
/// `duration * column / bar width`; every other event submits nothing.
/// Fails, with the queue as it was, where it has a seek to submit and the
/// queue is closed.
pub fn handle_mouse_event(
    event: MouseEvent,
    send: &mut RequestQueue,
    ui: &UIState,
    player: &PlayerState,
) -> (r: Result<(), SubmitError>)
    requires
        seek_defined(event, ui@, player),
    ensures
        r.is_err() == (old(send).closed && mouse_requests(event, ui@, player).len() > 0),
        final(send).closed == old(send).closed,
        final(send)@ == after_submitting(
            old(send)@,
            old(send).closed,
            mouse_requests(event, ui@, player),
        ),
{
    let left_down = match event.kind {
        MouseEventKind::Down(MouseButton::Left) => true,
        _ => false,
    };
    if left_down && event.row == ui.progress_bar_rect.y {
        match player.current_playing_track() {
            Some(track) => {
                let target = seek_target(
                    track.duration_ms,
                    event.column,
                    ui.progress_bar_rect.width,
                );
                let position_ms: u32 = target.unwrap();
                let request = ClientRequest::Player(PlayerRequest::SeekTrack(position_ms));
                send.submit(request)?;
            },
            None => {},
        }
    }
    assert(send@ =~= after_submitting(
        old(send)@,
        old(send).closed,
        mouse_requests(event, ui@, player),
    ));
    Ok(())
}

/// The sequence that a key press leaves to be handled: the retained
/// sequence with the key appended where some keymap entry starts with
/// that, and the key alone where none does.
pub open spec fn next_key_sequence(retained: Seq<Key>, key: Key, keymap: &KeymapConfig) -> Seq<
    Key,
> {
    if keymap.has_prefix_match(retained.push(key)) {
        retained.push(key)
    } else {
        seq![key]
    }
}

/// Extends the retained key sequence by a new key press. Where no keymap
/// entry starts with the extended sequence, the retained keys are
/// discarded and the sequence restarts with the new key alone.
pub fn parse_key_sequence(ui: &UIState, key: Key, keymap: &KeymapConfig) -> (r: KeySequence)
    ensures
        r@ == next_key_sequence(ui.input_key_sequence@, key, keymap),
        !keymap.has_prefix_match(ui.input_key_sequence@.push(key)) ==> r@ == seq![key],
        keymap.has_prefix_match(ui.input_key_sequence@.push(key)) ==> r@
            == ui.input_key_sequence@.push(key),
        keymap.has_prefix_match(r@) || r@ == seq![key],
{
    let key_sequence = ui.input_key_sequence.pushed(key);
    if keymap.find_matched_prefix_keymaps(&key_sequence).is_empty() {
        KeySequence::single(key)
    } else {
        key_sequence
    }
}

/// The handler that gets a key sequence before the global commands do.
#[derive(Clone, Copy, Debug, PartialEq, Eq, Structural)]
pub enum KeyHandler {
    Popup,
    RecommendationWindow,
    ContextWindow,
    SearchWindow,
}

/// The one handler that the interface's state selects: the popup's where
/// a popup is open, else that of the current page's kind.
pub open spec fn selected_handler(ui: UIView) -> KeyHandler
    recommends
        ui.history.len() > 0,
{
    if ui.popup.is_some() {
        KeyHandler::Popup
    } else {
        match ui.history.last() {
            PageState::Recommendations(_) => KeyHandler::RecommendationWindow,
            PageState::Browsing(_) => KeyHandler::ContextWindow,
            PageState::CurrentPlaying => KeyHandler::ContextWindow,
            PageState::Searching { .. } => KeyHandler::SearchWindow,
        }
    }
}

/// Chooses the handler to which a key sequence goes first.
pub fn select_key_handler(ui: &UIState) -> (r: KeyHandler)
    requires
        ui.wf(),
    ensures
        r == selected_handler(ui@),
{
    match &ui.popup {
        None => match ui.current_page() {
            PageState::Recommendations(_) => KeyHandler::RecommendationWindow,
            PageState::Browsing(_) => KeyHandler::ContextWindow,
            PageState::CurrentPlaying => KeyHandler::ContextWindow,
            PageState::Searching { .. } => KeyHandler::SearchWindow,
        },
        Some(_) => KeyHandler::Popup,
    }
}

/// The volume that a volume-up command asks for: five more, at most 100.
pub open spec fn raised_volume(percent: u32) -> u8 {
    if percent >= 95 {
        100u8
    } else {
        (percent + 5) as u8
    }
}

/// The volume that a volume-down command asks for: five less, at least 0
/// and at most 100.
pub open spec fn lowered_volume(percent: u32) -> u8 {
    if percent <= 5 {
        0u8
    } else if percent >= 105 {
        100u8
    } else {
        (percent - 5) as u8
    }
}

pub fn volume_up(percent: u32) -> (r: u8)
    ensures
        r == raised_volume(percent),
        r <= 100,
{
    let raised: u32 = percent.saturating_add(5);
    if raised >= 100 {
        100
    } else {
        raised as u8
    }
}

pub fn volume_down(percent: u32) -> (r: u8)
    ensures
        r == lowered_volume(percent),
        r <= 100,
{
    let lowered: u32 = percent.saturating_sub(5);
    if lowered >= 100 {
        100
    } else {
        lowered as u8
    }
}

/// Whether the global handler knows the command.
pub open spec fn is_global_command(command: Command) -> bool {
    match command {
        Command::Quit
        | Command::NextTrack
        | Command::PreviousTrack
        | Command::ResumePause
        | Command::Repeat
        | Command::Shuffle
        | Command::VolumeUp
        | Command::VolumeDown
        | Command::OpenCommandHelp
        | Command::RefreshPlayback
        | Command::ShowActionsOnCurrentTrack
        | Command::BrowsePlayingContext
        | Command::BrowseUserPlaylists
        | Command::BrowseUserFollowedArtists
        | Command::BrowseUserSavedAlbums
        | Command::SearchPage
        | Command::PreviousPage
        | Command::SwitchDevice
        | Command::SwitchTheme => true,
        _ => false,
    }
}

/// What a global command submits, given the player state.
pub open spec fn global_requests(command: Command, player: &PlayerState) -> Seq<ClientRequest> {
    match command {
        Command::NextTrack => seq![ClientRequest::Player(PlayerRequest::NextTrack)],
        Command::PreviousTrack => seq![ClientRequest::Player(PlayerRequest::PreviousTrack)],
        Command::ResumePause => seq![ClientRequest::Player(PlayerRequest::ResumePause)],
        Command::Repeat => seq![ClientRequest::Player(PlayerRequest::Repeat)],
        Command::Shuffle => seq![ClientRequest::Player(PlayerRequest::Shuffle)],
        Command::VolumeUp => match player.volume() {
            Some(percent) => seq![
                ClientRequest::Player(PlayerRequest::Volume(raised_volume(percent))),
            ],
            None => Seq::<ClientRequest>::empty(),
        },
        Command::VolumeDown => match player.volume() {
            Some(percent) => seq![
                ClientRequest::Player(PlayerRequest::Volume(lowered_volume(percent))),
            ],
            None => Seq::<ClientRequest>::empty(),
        },
        Command::RefreshPlayback => seq![ClientRequest::GetCurrentPlayback],
        Command::BrowseUserPlaylists => seq![ClientRequest::GetUserPlaylists],
        Command::BrowseUserFollowedArtists => seq![ClientRequest::GetUserFollowedArtists],
        Command::BrowseUserSavedAlbums => seq![ClientRequest::GetUserSavedAlbums],
        Command::SwitchDevice => seq![ClientRequest::GetDevices],
        _ => Seq::<ClientRequest>::empty(),
    }
}

/// How a global command that ran to its end changes the interface.
pub open spec fn global_ui_change(
    command: Command,
    pre: UIView,
    post: UIView,
    player: &PlayerState,
    data: &UserData,
    themes: &ThemeConfig,
) -> bool {
    match command {
        Command::Quit => post == (UIView { is_running: false, ..pre }),
        Command::OpenCommandHelp => post == (UIView {
            popup: Some(PopupState::CommandHelp { offset: 0 }),
            ..pre
        }),
        Command::ShowActionsOnCurrentTrack => match player.current_track() {
            Some(track) => post == (UIView {
                popup: Some(PopupState::ActionList(Item::Track(track), fresh_list_state())),
                ..pre
            }),
            None => post == pre,
        },
        Command::BrowsePlayingContext => post == (UIView {
            history: pre.history.push(PageState::CurrentPlaying),
            popup: None,
            ..pre
        }),
        Command::BrowseUserPlaylists => {
            &&& post.popup matches Some(PopupState::UserPlaylistList(action, playlists, list))
            &&& action == PlaylistPopupAction::Browse
            &&& playlists@ == data.playlists@
            &&& list == fresh_list_state()
            &&& post == (UIView { popup: post.popup, ..pre })
        },
        Command::BrowseUserFollowedArtists => post == (UIView {
            popup: Some(PopupState::UserFollowedArtistList(fresh_list_state())),
            ..pre
        }),
        Command::BrowseUserSavedAlbums => post == (UIView {
            popup: Some(PopupState::UserSavedAlbumList(fresh_list_state())),
            ..pre
        }),
        Command::SearchPage => {
            &&& post.history.len() == pre.history.len() + 1
            &&& post.history.drop_last() == pre.history
            &&& post.history.last() matches PageState::Searching { input, current_query }
            &&& input@.len() == 0
            &&& current_query@.len() == 0
            &&& post == (UIView {
                history: post.history,
                popup: None,
                window: WindowState::Search,
                ..pre
            })
        },
        Command::PreviousPage => if pre.history.len() > 1 {
            post == (UIView {
                history: pre.history.drop_last(),
                popup: None,
                window: WindowState::Unknown,
                ..pre
            })
        } else {
            post == pre
        },
        Command::SwitchDevice => post == (UIView {
            popup: Some(PopupState::DeviceList(fresh_list_state())),
            ..pre
        }),
        Command::SwitchTheme => {
            &&& post.popup matches Some(PopupState::ThemeList(listed, list))
            &&& active_theme_first(themes.themes@, pre.theme.name@, listed@)
            &&& list == fresh_list_state()
            &&& post == (UIView { popup: post.popup, ..pre })
        },
        _ => post == pre,
    }
}

/// How a global command whose submission failed has changed the
/// interface: the device popup is opened before its request is submitted;
/// every other command submits first.
pub open spec fn failed_ui_change(command: Command, pre: UIView, post: UIView) -> bool {
    if command == Command::SwitchDevice {
        post == (UIView { popup: Some(PopupState::DeviceList(fresh_list_state())), ..pre })
    } else {
        post == pre
    }
}

/// A global command fails exactly where it has a request to submit and
/// the queue is closed.
pub open spec fn global_fails(command: Command, closed: bool, player: &PlayerState) -> bool {
    closed && global_requests(command, player).len() > 0
}

/// Applies a command to the interface and the request queue.
///
/// Returns whether the command is one of the global commands; any other
/// command changes nothing and yields `Ok(false)`. A known command
/// submits what [`global_requests`] lists and changes the interface as
/// [`global_ui_change`] says. Where the queue is closed and the command
/// has a request to submit, the result is the submission's error, the
/// queue stays as it was and the interface is as [`failed_ui_change`]
/// says.
pub fn handle_global_command(
    command: Command,
    send: &mut RequestQueue,
    ui: &mut UIState,
    player: &PlayerState,
    data: &UserData,
    themes: &ThemeConfig,
) -> (r: Result<bool, SubmitError>)
    ensures
        final(send).closed == old(send).closed,
        final(send)@ == after_submitting(
            old(send)@,
            old(send).closed,
            global_requests(command, player),
        ),
        r.is_err() == global_fails(command, old(send).closed, player),
        r.is_err() ==> failed_ui_change(command, old(ui)@, final(ui)@),
        r.is_ok() ==> r == Ok::<bool, SubmitError>(is_global_command(command))
            && global_ui_change(command, old(ui)@, final(ui)@, player, data, themes),
        final(ui)@.input_key_sequence == old(ui)@.input_key_sequence,
        old(ui).wf() ==> final(ui).wf(),
{
    let ghost pending = send@;
    match command {
        Command::Quit => {
            ui.is_running = false;
        },
        Command::NextTrack => {
            send.submit(ClientRequest::Player(PlayerRequest::NextTrack))?;
        },
        Command::PreviousTrack => {
            send.submit(ClientRequest::Player(PlayerRequest::PreviousTrack))?;
        },
        Command::ResumePause => {
            send.submit(ClientRequest::Player(PlayerRequest::ResumePause))?;
        },
        Command::Repeat => {
            send.submit(ClientRequest::Player(PlayerRequest::Repeat))?;
        },
        Command::Shuffle => {
            send.submit(ClientRequest::Player(PlayerRequest::Shuffle))?;
        },
        Command::VolumeUp => {
            match player.volume_percent() {
                Some(percent) => {
                    let volume = volume_up(percent);
                    send.submit(ClientRequest::Player(PlayerRequest::Volume(volume)))?;
                },
                None => {},
            }
        },
        Command::VolumeDown => {
            match player.volume_percent() {
                Some(percent) => {
                    let volume = volume_down(percent);
                    send.submit(ClientRequest::Player(PlayerRequest::Volume(volume)))?;
                },
                None => {},
            }
        },
        Command::OpenCommandHelp => {
            ui.popup = Some(PopupState::CommandHelp { offset: 0 });
        },
        Command::RefreshPlayback => {
            send.submit(ClientRequest::GetCurrentPlayback)?;
        },
        Command::ShowActionsOnCurrentTrack => {
            match player.current_playing_track() {
                Some(track) => {
                    ui.popup = Some(
                        PopupState::ActionList(Item::Track(track.duplicate()), new_list_state()),
                    );
                },
                None => {},
            }
        },
        Command::BrowsePlayingContext => {
            ui.create_new_page(PageState::CurrentPlaying);
        },
        Command::BrowseUserPlaylists => {
            send.submit(ClientRequest::GetUserPlaylists)?;
            ui.popup = Some(
                PopupState::UserPlaylistList(
                    PlaylistPopupAction::Browse,
                    data.playlists_snapshot(),
                    new_list_state(),
                ),
            );
        },
        Command::BrowseUserFollowedArtists => {
            send.submit(ClientRequest::GetUserFollowedArtists)?;
            ui.popup = Some(PopupState::UserFollowedArtistList(new_list_state()));
        },
        Command::BrowseUserSavedAlbums => {
            send.submit(ClientRequest::GetUserSavedAlbums)?;
            ui.popup = Some(PopupState::UserSavedAlbumList(new_list_state()));
        },
        Command::SearchPage => {
            ui.create_new_page(
                PageState::Searching { input: String::new(), current_query: String::new() },
            );
            ui.window = WindowState::new_search_state();
            assert(ui@.history.drop_last() =~= old(ui)@.history);
        },
        Command::PreviousPage => {
            if ui.history.len() > 1 {
                ui.history.pop();
                ui.popup = None;
                ui.window = WindowState::Unknown;
            }
        },
        Command::SwitchDevice => {
            ui.popup = Some(PopupState::DeviceList(new_list_state()));
            send.submit(ClientRequest::GetDevices)?;
        },
        Command::SwitchTheme => {
            let listed = themes.themes_with_active_first(&ui.theme);
            ui.popup = Some(PopupState::ThemeList(listed, new_list_state()));
        },
        _ => {
            assert(send@ =~= pending + Seq::<ClientRequest>::empty());
            return Ok(false);
        },
    }
    assert(send@ =~= after_submitting(pending, send.closed, global_requests(command, player)));
    Ok(true)
}

/// `PreviousPage` leaves a history of one page as it is; from a longer
/// history it removes exactly the last page and closes any popup.
pub proof fn lemma_previous_page_keeps_base_page(
    pre: UIView,
    post: UIView,
    player: &PlayerState,
    data: &UserData,
    themes: &ThemeConfig,
)
    requires
        pre.history.len() >= 1,
        global_ui_change(Command::PreviousPage, pre, post, player, data, themes),
    ensures
        pre.history.len() == 1 ==> post == pre,
        pre.history.len() >= 2 ==> post.history == pre.history.drop_last() && post.history.len()
            == pre.history.len() - 1 && post.popup.is_none(),
        post.history.len() >= 1,
{
}

/// No volume command asks for a volume above 100 percent.
pub proof fn lemma_volume_requests_stay_in_range(command: Command, player: &PlayerState, i: int)
    requires
        0 <= i < global_requests(command, player).len(),
    ensures
        global_requests(command, player)[i] matches ClientRequest::Player(
            PlayerRequest::Volume(volume),
        ) ==> volume <= 100,
{
}

/// Finishes a key press once the selected handler has had the key
/// sequence.
///
/// A sequence that the handler did not consume is resolved against the
/// keymap and, where it is some entry's whole sequence, its command goes
/// to [`handle_global_command`]. A sequence that was handled, by either,
/// empties the retained sequence; one that was not is retained as it is.
/// Where the global command fails, so does this, and the retained
/// sequence stays as it was.
pub fn handle_key_event(
    key_sequence: KeySequence,
    consumed: bool,
    send: &mut RequestQueue,
    ui: &mut UIState,
    player: &PlayerState,
    data: &UserData,
    keymap: &KeymapConfig,
    themes: &ThemeConfig,
) -> (r: Result<(), SubmitError>)
    ensures
        final(send).closed == old(send).closed,
        final(send)@ == after_submitting(
            old(send)@,
            old(send).closed,
            key_requests(key_sequence@, consumed, keymap, player),
        ),
        r.is_err() == (old(send).closed && key_requests(
            key_sequence@,
            consumed,
            keymap,
            player,
        ).len() > 0),
        final(ui)@.input_key_sequence == if r.is_err() {
            old(ui)@.input_key_sequence
        } else if key_handled(key_sequence@, consumed, keymap) {
            Seq::<Key>::empty()
        } else {
            key_sequence@
        },
        match keymap.resolve(key_sequence@) {
            Some(command) if !consumed => if r.is_err() {
                failed_ui_change(command, old(ui)@, restore_keys(final(ui)@, old(ui)@))
            } else {
                global_ui_change(
                    command,
                    old(ui)@,
                    restore_keys(final(ui)@, old(ui)@),
                    player,
                    data,
                    themes,
                )
            },
            _ => restore_keys(final(ui)@, old(ui)@) == old(ui)@,
        },
        old(ui).wf() ==> final(ui).wf(),
{
    let handled = if !consumed {
        match keymap.find_command_from_key_sequence(&key_sequence) {
            Some(command) => {
                match handle_global_command(command, send, ui, player, data, themes) {
                    Ok(handled) => handled,
                    Err(e) => {
                        assert(restore_keys(ui@, old(ui)@) == ui@);
                        return Err(e);
                    },
                }
            },
            None => {
                assert(send@ =~= old(send)@ + Seq::<ClientRequest>::empty());
                false
            },
        }
    } else {
        assert(send@ =~= old(send)@ + Seq::<ClientRequest>::empty());
        true
    };
    let ghost before = ui@;
    if handled {
        ui.input_key_sequence.keys = Vec::new();
    } else {
        ui.input_key_sequence = key_sequence;
    }
    assert(restore_keys(ui@, old(ui)@) == before);
    Ok(())
}

/// `ui` with the retained key sequence of `earlier`.
pub open spec fn restore_keys(ui: UIView, earlier: UIView) -> UIView {
    UIView { input_key_sequence: earlier.input_key_sequence, ..ui }
}

/// What the end of a key press submits: the requests of the command that
/// the sequence resolves to, where the selected handler did not consume
/// the sequence.
pub open spec fn key_requests(
    key_sequence: Seq<Key>,
    consumed: bool,
    keymap: &KeymapConfig,
    player: &PlayerState,
) -> Seq<ClientRequest> {
    match keymap.resolve(key_sequence) {
        Some(command) if !consumed => global_requests(command, player),
        _ => Seq::<ClientRequest>::empty(),
    }
}

/// Whether a key sequence counts as handled: the selected handler
/// consumed it, or it resolves to a global command.
pub open spec fn key_handled(key_sequence: Seq<Key>, consumed: bool, keymap: &KeymapConfig) -> bool {
    consumed || match keymap.resolve(key_sequence) {
        Some(command) => is_global_command(command),
        None => false,
    }
}

/// An event of the terminal.
#[derive(Clone, Copy, Debug, PartialEq, Eq, Structural)]
pub enum TerminalEvent {
    Key(Key),
    Mouse(MouseEvent),
    Resize(u16, u16),
    Other,
}

/// What is left to do for a terminal event once its first part is done.
#[derive(Clone, Debug, PartialEq, Eq)]
pub enum EventStep {
    /// Nothing: the event is dealt with.
    Done,
    /// Hand the key sequence to this handler, then finish with
    /// [`handle_key_event`] and what the handler answered.
    RunHandler(KeyHandler, KeySequence),
}

/// The first part of handling a terminal event. A mouse event is handled
/// whole, as [`handle_mouse_event`] does. A key press is turned into the
/// key sequence to handle and the handler that gets it first; nothing is
/// changed yet. Every other event is ignored.
pub fn handle_terminal_event(
    event: TerminalEvent,
    send: &mut RequestQueue,
    ui: &UIState,
    player: &PlayerState,
    keymap: &KeymapConfig,
) -> (r: Result<EventStep, SubmitError>)
    requires
        ui.wf(),
        event matches TerminalEvent::Mouse(mouse) ==> seek_defined(mouse, ui@, player),
    ensures
        final(send).closed == old(send).closed,
        match event {
            TerminalEvent::Mouse(mouse) => {
                &&& final(send)@ == after_submitting(
                    old(send)@,
                    old(send).closed,
                    mouse_requests(mouse, ui@, player),
                )
                &&& r.is_err() == (old(send).closed && mouse_requests(mouse, ui@, player).len()
                    > 0)
                &&& r.is_ok() ==> r.unwrap() == EventStep::Done
            },
            TerminalEvent::Key(key) => {
                &&& final(send)@ == old(send)@
                &&& r matches Ok(EventStep::RunHandler(handler, key_sequence))
                &&& handler == selected_handler(ui@)
                &&& key_sequence@ == next_key_sequence(ui.input_key_sequence@, key, keymap)
            },
            _ => final(send)@ == old(send)@ && r == Ok::<EventStep, SubmitError>(EventStep::Done),
        },
{
    match event {
        TerminalEvent::Mouse(mouse) => match handle_mouse_event(mouse, send, ui, player) {
            Ok(()) => Ok(EventStep::Done),
            Err(e) => Err(e),
        },
        TerminalEvent::Key(key) => {
            let key_sequence = parse_key_sequence(ui, key, keymap);
            Ok(EventStep::RunHandler(select_key_handler(ui), key_sequence))
        },
        _ => Ok(EventStep::Done),
    }
}

} // verus!
