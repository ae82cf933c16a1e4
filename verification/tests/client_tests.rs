use spotify_player::client::{
    refresh_playback, start_player_event_watchers, watch_player_events, RequestQueue, SubmitError,
    WatcherPlan, WATCH_INTERVAL_MS,
};
use spotify_player::config::AppConfig;
use spotify_player::event::{ClientRequest, PlayerRequest};
use spotify_player::state::{CurrentPlayback, Device, PlayerState, Track};

fn device(id: &str) -> Device {
    Device { id: id.to_string(), name: format!("device {}", id), volume_percent: Some(50) }
}

fn playback(is_playing: bool, progress_ms: Option<u32>, duration_ms: Option<u32>) -> CurrentPlayback {
    CurrentPlayback {
        device: device("d0"),
        is_playing,
        shuffle: false,
        repeat: false,
        progress_ms,
        track: duration_ms.map(|d| Track { id: "t".to_string(), name: "song".to_string(), duration_ms: d }),
    }
}

fn tick(player: &PlayerState) -> Vec<ClientRequest> {
    let mut queue = RequestQueue::new();
    assert_eq!(watch_player_events(player, &mut queue), Ok(()));
    queue.pending
}

#[test]
fn queue_is_first_in_first_out() {
    let mut queue = RequestQueue::new();
    assert_eq!(queue.next_request(), None);
    assert_eq!(queue.submit(ClientRequest::GetDevices), Ok(()));
    assert_eq!(queue.submit(ClientRequest::Search("abc".to_string())), Ok(()));
    assert_eq!(queue.submit(ClientRequest::Player(PlayerRequest::Volume(7))), Ok(()));
    assert_eq!(queue.next_request(), Some(ClientRequest::GetDevices));
    assert_eq!(queue.next_request(), Some(ClientRequest::Search("abc".to_string())));
    assert_eq!(queue.next_request(), Some(ClientRequest::Player(PlayerRequest::Volume(7))));
    assert_eq!(queue.next_request(), None);
}

#[test]
fn every_submitted_request_is_dispatched_once() {
    let mut queue = RequestQueue::new();
    let n: u32 = 50;
    for i in 0..n {
        assert_eq!(queue.submit(ClientRequest::Player(PlayerRequest::SeekTrack(i))), Ok(()));
    }
    let mut seen = Vec::new();
    while let Some(request) = queue.next_request() {
        seen.push(request);
    }
    let expected: Vec<ClientRequest> =
        (0..n).map(|i| ClientRequest::Player(PlayerRequest::SeekTrack(i))).collect();
    assert_eq!(seen, expected);
}

#[test]
fn closed_queue_refuses_and_keeps_its_contents() {
    let mut queue = RequestQueue::new();
    assert_eq!(queue.submit(ClientRequest::GetCurrentUser), Ok(()));
    queue.close();
    assert!(queue.closed);
    assert_eq!(queue.submit(ClientRequest::GetDevices), Err(SubmitError::Closed));
    assert_eq!(queue.pending, vec![ClientRequest::GetCurrentUser]);
    assert_eq!(queue.next_request(), Some(ClientRequest::GetCurrentUser));
    assert_eq!(queue.next_request(), None);
}

#[test]
fn no_playback_with_devices_transfers_to_the_first_device() {
    let player = PlayerState { playback: None, devices: vec![device("abc"), device("def")] };
    let expected =
        vec![ClientRequest::Player(PlayerRequest::TransferPlayback("abc".to_string(), false))];
    assert_eq!(tick(&player), expected);
    assert_eq!(tick(&player), expected);
}

#[test]
fn no_playback_and_no_device_submits_nothing() {
    let player = PlayerState { playback: None, devices: vec![] };
    assert_eq!(tick(&player), vec![]);
}

#[test]
fn known_playback_is_not_transferred() {
    let player = PlayerState {
        playback: Some(playback(false, Some(10), Some(100))),
        devices: vec![device("abc")],
    };
    assert_eq!(tick(&player), vec![]);
}

#[test]
fn track_end_fetches_the_playback_once() {
    let player = PlayerState { playback: Some(playback(true, Some(180_000), Some(180_000))), devices: vec![] };
    assert_eq!(tick(&player), vec![ClientRequest::GetCurrentPlayback]);
    let past = PlayerState { playback: Some(playback(true, Some(180_001), Some(180_000))), devices: vec![device("d")] };
    assert_eq!(tick(&past), vec![ClientRequest::GetCurrentPlayback]);
}

#[test]
fn track_in_progress_submits_nothing() {
    let player = PlayerState { playback: Some(playback(true, Some(179_999), Some(180_000))), devices: vec![] };
    assert_eq!(tick(&player), vec![]);
}

#[test]
fn paused_or_unknown_progress_submits_nothing() {
    let paused = PlayerState { playback: Some(playback(false, Some(200), Some(100))), devices: vec![] };
    assert_eq!(tick(&paused), vec![]);
    let no_progress = PlayerState { playback: Some(playback(true, None, Some(100))), devices: vec![] };
    assert_eq!(tick(&no_progress), vec![]);
    let no_track = PlayerState { playback: Some(playback(true, Some(100), None)), devices: vec![] };
    assert_eq!(tick(&no_track), vec![]);
}

#[test]
fn tick_on_a_closed_queue_fails_only_with_something_to_submit() {
    let mut queue = RequestQueue::new();
    queue.close();
    let idle = PlayerState { playback: None, devices: vec![] };
    assert_eq!(watch_player_events(&idle, &mut queue), Ok(()));
    let lost = PlayerState { playback: None, devices: vec![device("abc")] };
    assert_eq!(watch_player_events(&lost, &mut queue), Err(SubmitError::Closed));
    let ended = PlayerState { playback: Some(playback(true, Some(5), Some(5))), devices: vec![] };
    assert_eq!(watch_player_events(&ended, &mut queue), Err(SubmitError::Closed));
    assert_eq!(queue.pending, vec![]);
}

#[test]
fn tick_appends_behind_what_is_pending() {
    let mut queue = RequestQueue::new();
    assert_eq!(queue.submit(ClientRequest::GetDevices), Ok(()));
    let ended = PlayerState { playback: Some(playback(true, Some(5), Some(5))), devices: vec![] };
    assert_eq!(watch_player_events(&ended, &mut queue), Ok(()));
    assert_eq!(queue.pending, vec![ClientRequest::GetDevices, ClientRequest::GetCurrentPlayback]);
}

#[test]
fn refresh_tick_always_fetches_the_playback() {
    let mut queue = RequestQueue::new();
    assert_eq!(refresh_playback(&mut queue), Ok(()));
    assert_eq!(refresh_playback(&mut queue), Ok(()));
    assert_eq!(queue.pending, vec![ClientRequest::GetCurrentPlayback, ClientRequest::GetCurrentPlayback]);
    queue.close();
    assert_eq!(refresh_playback(&mut queue), Err(SubmitError::Closed));
}

#[test]
fn watcher_plan_follows_the_configuration() {
    assert_eq!(WATCH_INTERVAL_MS, 1000);
    assert_eq!(
        start_player_event_watchers(&AppConfig { playback_refresh_duration_in_ms: 0 }),
        WatcherPlan { refresh_period_ms: None, watch_period_ms: 1000 }
    );
    assert_eq!(
        start_player_event_watchers(&AppConfig { playback_refresh_duration_in_ms: 250 }),
        WatcherPlan { refresh_period_ms: Some(250), watch_period_ms: 1000 }
    );
}

#[test]
fn player_state_getters() {
    let none = PlayerState { playback: None, devices: vec![] };
    assert_eq!(none.current_playing_track(), None);
    assert_eq!(none.playback_progress(), None);
    assert_eq!(none.volume_percent(), None);
    assert!(!none.is_playing());
    let some = PlayerState { playback: Some(playback(true, Some(3), Some(9))), devices: vec![] };
    assert_eq!(some.current_playing_track().map(|t| t.duration_ms), Some(9));
    assert_eq!(some.playback_progress(), Some(3));
    assert_eq!(some.volume_percent(), Some(50));
    assert!(some.is_playing());
}
