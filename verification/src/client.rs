//! The request queue between producers and the dispatcher, and the
//! decisions of the player watcher.

use vstd::prelude::*;
use crate::config::AppConfig;
use crate::event::{ClientRequest, PlayerRequest};
use crate::state::PlayerState;

verus! {

/// Why a request could not be submitted.
#[derive(Clone, Copy, Debug, PartialEq, Eq, Structural)]
pub enum SubmitError {
    /// The consuming end of the queue has shut down.
    Closed,
}

/// The unbounded, ordered queue of requests that await dispatch.
///
/// Producers append with [`RequestQueue::submit`]; the dispatcher removes
/// from the front with [`RequestQueue::next_request`].
#[derive(Debug, PartialEq, Eq)]
pub struct RequestQueue {
    pub pending: Vec<ClientRequest>,
    pub closed: bool,
}

impl View for RequestQueue {
    type V = Seq<ClientRequest>;

    /// The requests that await dispatch, oldest first.
    open spec fn view(&self) -> Seq<ClientRequest> {
        self.pending@
    }
}

/// The queue's contents after `requests` were offered to a queue that
/// held `pending`: on an open queue they follow what was there, in their
/// order; a closed queue keeps what it held.
pub open spec fn after_submitting(
    pending: Seq<ClientRequest>,
    closed: bool,
    requests: Seq<ClientRequest>,
) -> Seq<ClientRequest> {
    if closed {
        pending
    } else {
        pending + requests
    }
}

/// The first `n` requests that the dispatcher takes from a queue that
/// holds `pending`.
pub open spec fn dispatched(pending: Seq<ClientRequest>, n: nat) -> Seq<ClientRequest>
    decreases n,
{
    if n == 0 || pending.len() == 0 {
        Seq::<ClientRequest>::empty()
    } else {
        seq![pending[0]] + dispatched(pending.remove(0), (n - 1) as nat)
    }
}

/// Taking as many requests from a queue as it holds hands each of them
/// out once, in the order in which they were submitted.
pub proof fn lemma_dispatch_takes_each_request_once(pending: Seq<ClientRequest>)
    ensures
        dispatched(pending, pending.len()) == pending,
    decreases pending.len(),
{
    if pending.len() > 0 {
        lemma_dispatch_takes_each_request_once(pending.remove(0));
        assert(seq![pending[0]] + pending.remove(0) =~= pending);
    } else {
        assert(pending =~= Seq::<ClientRequest>::empty());
    }
}

/// Requests submitted to an open, empty queue are dispatched in the order
/// of their submission, none twice and none lost.
pub proof fn lemma_submitted_requests_are_dispatched_in_order(requests: Seq<ClientRequest>)
    ensures
        dispatched(
            after_submitting(Seq::<ClientRequest>::empty(), false, requests),
            requests.len(),
        ) == requests,
{
    assert(Seq::<ClientRequest>::empty() + requests =~= requests);
    lemma_dispatch_takes_each_request_once(requests);
}

impl RequestQueue {
    /// An open queue that holds nothing.
    pub fn new() -> (r: RequestQueue)
        ensures
            r@ == Seq::<ClientRequest>::empty(),
            !r.closed,
    {
        RequestQueue { pending: Vec::new(), closed: false }
    }

    /// Appends `request` to an open queue; a closed queue refuses it and
    /// stays as it was.
    pub fn submit(&mut self, request: ClientRequest) -> (r: Result<(), SubmitError>)
        ensures
            r.is_ok() == !old(self).closed,
            r.is_err() ==> r == Err::<(), SubmitError>(SubmitError::Closed),
            final(self).closed == old(self).closed,
            final(self)@ == after_submitting(old(self)@, old(self).closed, seq![request]),
    {
        if self.closed {
            return Err(SubmitError::Closed);
        }
        self.pending.push(request);
        assert(self.pending@ =~= old(self).pending@ + seq![request]);
        Ok(())
    }

    /// Marks the consuming end as shut down: every later submission fails.
    /// What the queue holds stays in it.
    pub fn close(&mut self)
        ensures
            final(self).closed,
            final(self)@ == old(self)@,
    {
        self.closed = true;
    }

    /// Removes the oldest request, or returns `None` where the queue holds
    /// none.
    pub fn next_request(&mut self) -> (r: Option<ClientRequest>)
        ensures
            final(self).closed == old(self).closed,
            old(self)@.len() == 0 ==> r.is_none() && final(self)@ == old(self)@,
            old(self)@.len() > 0 ==> r == Some(old(self)@[0]) && final(self)@ == old(self)@.remove(
                0,
            ),
            r.is_some() ==> seq![r.unwrap()] == dispatched(old(self)@, 1),
    {
        if self.pending.len() == 0 {
            return None;
        }
        let request = self.pending.remove(0);
        proof {
            reveal_with_fuel(dispatched, 2);
            assert(seq![request] + Seq::<ClientRequest>::empty() =~= seq![request]);
        }
        Some(request)
    }
}

/// The period of the main watcher loop, in milliseconds.
pub const WATCH_INTERVAL_MS: u64 = 1000;

/// The request of the recovery check: with no playback known and a device
/// known, a transfer of the playback to the first device, without starting
/// it.
pub open spec fn recovery_requests(player: &PlayerState) -> Seq<ClientRequest> {
    if player.playback.is_none() && player.devices@.len() > 0 {
        seq![
            ClientRequest::Player(PlayerRequest::TransferPlayback(player.devices@[0].id, false)),
        ]
    } else {
        Seq::<ClientRequest>::empty()
    }
}

/// The request of the track-end check: with progress and duration known,
/// the playback marked as playing and the progress at or past the
/// duration, a fetch of the current playback.
pub open spec fn track_end_requests(player: &PlayerState) -> Seq<ClientRequest> {
    if player.progress().is_some() && player.current_track().is_some() && player.playing()
        && player.progress().unwrap() >= player.current_track().unwrap().duration_ms {
        seq![ClientRequest::GetCurrentPlayback]
    } else {
        Seq::<ClientRequest>::empty()
    }
}

/// What one tick of the main watcher loop submits, in order.
pub open spec fn watch_requests(player: &PlayerState) -> Seq<ClientRequest> {
    recovery_requests(player) + track_end_requests(player)
}

/// One tick of the main watcher loop: inspects the player state and
/// submits what the two checks ask for. The tick fails, with the queue as
/// it was, where it has something to submit and the queue is closed.
pub fn watch_player_events(player: &PlayerState, send: &mut RequestQueue) -> (r: Result<
    (),
    SubmitError,
>)
    ensures
        r.is_err() == (old(send).closed && watch_requests(player).len() > 0),
        final(send).closed == old(send).closed,
        final(send)@ == after_submitting(old(send)@, old(send).closed, watch_requests(player)),
{
    if player.playback.is_none() && player.devices.len() > 0 {
        let request = ClientRequest::Player(
            PlayerRequest::TransferPlayback(player.devices[0].id.clone(), false),
        );
        send.submit(request)?;
    }
    let progress_ms = player.playback_progress();
    let track = player.current_playing_track();
    let is_playing = player.is_playing();
    match (progress_ms, track) {
        (Some(progress_ms), Some(track)) => {
            if progress_ms >= track.duration_ms && is_playing {
                send.submit(ClientRequest::GetCurrentPlayback)?;
            }
        },
        _ => {},
    }
    assert(send@ =~= after_submitting(
        old(send)@,
        old(send).closed,
        watch_requests(player),
    ));
    Ok(())
}

/// With no playback known and at least one device known, a tick submits
/// exactly one request: the transfer to the first device, not forced to
/// play.
pub proof fn lemma_tick_without_playback_transfers_once(player: &PlayerState)
    requires
        player.playback.is_none(),
        player.devices@.len() > 0,
    ensures
        watch_requests(player) == seq![
            ClientRequest::Player(PlayerRequest::TransferPlayback(player.devices@[0].id, false)),
        ],
{
    assert(watch_requests(player) =~= recovery_requests(player));
}

/// With a playback that is playing a track whose progress is known, a tick
/// submits exactly one fetch of the current playback where the progress
/// has reached the duration, and nothing where it has not.
pub proof fn lemma_tick_fetches_playback_at_track_end(player: &PlayerState)
    requires
        player.playing(),
        player.progress().is_some(),
        player.current_track().is_some(),
    ensures
        player.progress().unwrap() >= player.current_track().unwrap().duration_ms
            ==> watch_requests(player) == seq![ClientRequest::GetCurrentPlayback],
        player.progress().unwrap() < player.current_track().unwrap().duration_ms
            ==> watch_requests(player) == Seq::<ClientRequest>::empty(),
{
    assert(watch_requests(player) =~= track_end_requests(player));
}

/// One tick of the refresh timer: submits a fetch of the current
/// playback, whatever the player state.
pub fn refresh_playback(send: &mut RequestQueue) -> (r: Result<(), SubmitError>)
    ensures
        r.is_ok() == !old(send).closed,
        final(send).closed == old(send).closed,
        final(send)@ == after_submitting(
            old(send)@,
            old(send).closed,
            seq![ClientRequest::GetCurrentPlayback],
        ),
{
    send.submit(ClientRequest::GetCurrentPlayback)
}

/// How the watcher is to run: the period of the refresh timer, where it is
/// enabled, and the period of the main loop.
#[derive(Clone, Copy, Debug, PartialEq, Eq)]
pub struct WatcherPlan {
    pub refresh_period_ms: Option<u64>,
    pub watch_period_ms: u64,
}

/// Plans the watcher loops from the configuration: the refresh timer runs
/// only with a positive period; the main loop always runs, at its fixed
/// period.
pub fn start_player_event_watchers(config: &AppConfig) -> (r: WatcherPlan)
    ensures
        r.watch_period_ms == 1000,
        r.refresh_period_ms == if config.playback_refresh_duration_in_ms > 0 {
            Some(config.playback_refresh_duration_in_ms)
        } else {
            None::<u64>
        },
{
    WatcherPlan {
        refresh_period_ms: config.refresh_timer_period(),
        watch_period_ms: WATCH_INTERVAL_MS,
    }
}

} // verus!
