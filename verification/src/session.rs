use vstd::math::min;
use vstd::prelude::*;

use crate::error::CommandError;
use crate::queue::PlaybackQueue;
use crate::track::TrackRecord;

verus! {

/// Where the session's playback stands. `Playing` and `Paused` both mean
/// a current track is loaded into the transport.
#[derive(Clone, Copy, Debug, PartialEq, Eq, Structural)]
pub enum PlaybackState {
    Stopped,
    Playing,
    Paused,
}

/// One instruction to the audio transport. The session decides; the
/// surrounding program performs the action on the live connection and
/// reports transport failures back to the caller as `TransportError`.
#[derive(Clone, Debug, PartialEq, Eq)]
pub enum TransportAction {
    /// Open the voice connection at the given channel.
    Connect { channel: u64 },
    /// Start streaming the track behind this locator.
    Play { stream_locator: String },
    /// Pause the current track.
    Pause,
    /// Resume the current track.
    Resume,
    /// Stop streaming.
    Stop,
    /// Release the voice connection.
    Disconnect,
}

/// The live pairing of one group's transport connection and its playback
/// queue. It is the only component that mutates either, so the two never
/// disagree about what is current; every operation on it runs under the
/// session's exclusive lock, which the surrounding program holds for the
/// whole operation.
pub struct VoiceSession {
    pub group_id: u64,
    /// The channel the transport is connected at; `None` when the
    /// transport connection has been released.
    pub channel: Option<u64>,
    pub queue: PlaybackQueue,
    pub state: PlaybackState,
}

impl VoiceSession {
    /// Internal consistency: the session is stopped exactly when its
    /// queue is empty, and a loaded track implies a live connection.
    pub open spec fn wf(self) -> bool {
        &&& self.state is Stopped <==> self.queue@.len() == 0
        &&& !(self.state is Stopped) ==> self.channel is Some
    }

    /// A fresh session for a group whose transport was just connected at
    /// `channel`: empty queue, nothing playing.
    pub fn new(group_id: u64, channel: u64) -> (s: VoiceSession)
        ensures
            s.wf(),
            s.group_id == group_id,
            s.channel == Some(channel),
            s.queue@ == Seq::<TrackRecord>::empty(),
            s.state is Stopped,
    {
        VoiceSession {
            group_id,
            channel: Some(channel),
            queue: PlaybackQueue::new(),
            state: PlaybackState::Stopped,
        }
    }

    /// Connects the transport if it is not connected yet. Joining an
    /// already connected session is a no-op, not an error; joining
    /// without a channel hint fails with `NoChannel`.
    pub fn join(&mut self, channel_hint: Option<u64>) -> (r: Result<
        Option<TransportAction>,
        CommandError,
    >)
        requires
            old(self).wf(),
        ensures
            final(self).wf(),
            final(self).group_id == old(self).group_id,
            final(self).queue == old(self).queue,
            final(self).state == old(self).state,
            old(self).channel is Some ==> r == Ok::<_, CommandError>(
                None::<TransportAction>,
            ) && *final(self) == *old(self),
            old(self).channel is None ==> (channel_hint matches Some(c) ==> r == Ok::<
                _,
                CommandError,
            >(Some(TransportAction::Connect { channel: c })) && final(self).channel
                == channel_hint),
            old(self).channel is None && channel_hint is None ==> r == Err::<Option<TransportAction>, _>(
                CommandError::NoChannel,
            ) && *final(self) == *old(self),
    {
        if self.channel.is_some() {
            Ok(None)
        } else {
            match channel_hint {
                Some(c) => {
                    self.channel = Some(c);
                    Ok(Some(TransportAction::Connect { channel: c }))
                },
                None => Err(CommandError::NoChannel),
            }
        }
    }

    /// Tears the session down: playback stops, the queue empties, the
    /// transport connection is released. Idempotent. The registry entry
    /// is dropped by the caller that owns the registry.
    pub fn leave(&mut self) -> (action: Option<TransportAction>)
        ensures
            final(self).wf(),
            final(self).group_id == old(self).group_id,
            final(self).queue@ == Seq::<TrackRecord>::empty(),
            final(self).state is Stopped,
            final(self).channel is None,
            action == if old(self).channel is Some {
                Some(TransportAction::Disconnect)
            } else {
                None::<TransportAction>
            },
    {
        let was_connected = self.channel.is_some();
        self.queue.clear();
        self.state = PlaybackState::Stopped;
        self.channel = None;
        if was_connected {
            Some(TransportAction::Disconnect)
        } else {
            None
        }
    }

    /// Appends the track; if nothing was playing (the queue was empty),
    /// the new entry becomes current and the transport is told to start
    /// streaming it. Returns the track's 1-based display position.
    pub fn enqueue_and_maybe_start(&mut self, track: TrackRecord) -> (r: (
        usize,
        Option<TransportAction>,
    ))
        requires
            old(self).wf(),
            old(self).channel is Some,
        ensures
            final(self).wf(),
            final(self).group_id == old(self).group_id,
            final(self).channel == old(self).channel,
            final(self).queue@ == old(self).queue@.push(track),
            r.0 == old(self).queue@.len() + 1,
            old(self).state is Stopped ==> final(self).state is Playing && r.1 == Some(
                TransportAction::Play { stream_locator: track.stream_locator },
            ),
            !(old(self).state is Stopped) ==> final(self).state == old(self).state && r.1 is None,
    {
        let locator = track.stream_locator.clone();
        let position = self.queue.enqueue(track);
        match self.state {
            PlaybackState::Stopped => {
                self.state = PlaybackState::Playing;
                (position, Some(TransportAction::Play { stream_locator: locator }))
            },
            _ => (position, None),
        }
    }

    /// Appends the tracks in order; if nothing was playing, the first of
    /// them becomes current and starts. Returns the transport action, if
    /// any.
    pub fn enqueue_all(&mut self, tracks: Vec<TrackRecord>) -> (action: Option<TransportAction>)
        requires
            old(self).wf(),
            old(self).channel is Some,
        ensures
            final(self).wf(),
            final(self).group_id == old(self).group_id,
            final(self).channel == old(self).channel,
            final(self).queue@ == old(self).queue@ + tracks@,
            old(self).state is Stopped && tracks@.len() > 0 ==> final(self).state is Playing
                && action == Some(
                TransportAction::Play { stream_locator: tracks@[0].stream_locator },
            ),
            old(self).state is Stopped && tracks@.len() == 0 ==> final(self).state is Stopped
                && action is None,
            !(old(self).state is Stopped) ==> final(self).state == old(self).state
                && action is None,
    {
        let mut action: Option<TransportAction> = None;
        let mut i: usize = 0;
        while i < tracks.len()
            invariant
                old(self).wf(),
                old(self).channel is Some,
                self.wf(),
                i <= tracks@.len(),
                self.group_id == old(self).group_id,
                self.channel == old(self).channel,
                self.queue@ == old(self).queue@ + tracks@.take(i as int),
                old(self).state is Stopped && i > 0 ==> self.state is Playing && action == Some(
                    TransportAction::Play { stream_locator: tracks@[0].stream_locator },
                ),
                old(self).state is Stopped && i == 0 ==> self.state is Stopped && action is None,
                !(old(self).state is Stopped) ==> self.state == old(self).state && action is None,
            decreases tracks@.len() - i,
        {
            let (_, act) = self.enqueue_and_maybe_start(tracks[i].clone());
            if i == 0 {
                action = act;
            }
            assert(self.queue@ =~= old(self).queue@ + tracks@.take(i + 1));
            i = i + 1;
        }
        assert(self.queue@ =~= old(self).queue@ + tracks@);
        action
    }

    /// Valid only while playing; otherwise fails with `InvalidState` and
    /// changes nothing.
    pub fn pause(&mut self) -> (r: Result<TransportAction, CommandError>)
        requires
            old(self).wf(),
        ensures
            final(self).wf(),
            old(self).state is Playing ==> {
                &&& r == Ok::<_, CommandError>(TransportAction::Pause)
                &&& final(self).state is Paused
                &&& final(self).queue == old(self).queue
                &&& final(self).group_id == old(self).group_id
                &&& final(self).channel == old(self).channel
            },
            !(old(self).state is Playing) ==> r == Err::<TransportAction, _>(
                CommandError::InvalidState,
            ) && *final(self) == *old(self),
    {
        match self.state {
            PlaybackState::Playing => {
                self.state = PlaybackState::Paused;
                Ok(TransportAction::Pause)
            },
            _ => Err(CommandError::InvalidState),
        }
    }

    /// Valid only while paused; otherwise fails with `InvalidState` and
    /// changes nothing. Resuming while already playing is an error.
    pub fn resume(&mut self) -> (r: Result<TransportAction, CommandError>)
        requires
            old(self).wf(),
        ensures
            final(self).wf(),
            old(self).state is Paused ==> {
                &&& r == Ok::<_, CommandError>(TransportAction::Resume)
                &&& final(self).state is Playing
                &&& final(self).queue == old(self).queue
                &&& final(self).group_id == old(self).group_id
                &&& final(self).channel == old(self).channel
            },
            !(old(self).state is Paused) ==> r == Err::<TransportAction, _>(
                CommandError::InvalidState,
            ) && *final(self) == *old(self),
    {
        match self.state {
            PlaybackState::Paused => {
                self.state = PlaybackState::Playing;
                Ok(TransportAction::Resume)
            },
            _ => Err(CommandError::InvalidState),
        }
    }

    /// Clears the queue and stops playback; the connection stays. Telling
    /// a stopped session to stop is a no-op.
    pub fn stop(&mut self) -> (action: Option<TransportAction>)
        requires
            old(self).wf(),
        ensures
            final(self).wf(),
            final(self).group_id == old(self).group_id,
            final(self).channel == old(self).channel,
            final(self).queue@ == Seq::<TrackRecord>::empty(),
            final(self).state is Stopped,
            action == if old(self).state is Stopped {
                None::<TransportAction>
            } else {
                Some(TransportAction::Stop)
            },
    {
        let was_active = match self.state {
            PlaybackState::Stopped => false,
            _ => true,
        };
        self.queue.clear();
        self.state = PlaybackState::Stopped;
        if was_active {
            Some(TransportAction::Stop)
        } else {
            None
        }
    }

    /// Drops `count` entries starting from the current one (the current
    /// entry counts as one of the `count`), then starts the new current
    /// if any, else stops. A count beyond the queue's length means "skip
    /// everything"; skipping never errors. Returns the new current track
    /// and the transport action.
    pub fn skip(&mut self, count: usize) -> (r: (
        Option<TrackRecord>,
        Option<TransportAction>,
    ))
        requires
            old(self).wf(),
            count >= 1,
        ensures
            final(self).wf(),
            final(self).group_id == old(self).group_id,
            final(self).channel == old(self).channel,
            final(self).queue@ == old(self).queue@.skip(
                min(count as int, old(self).queue@.len() as int),
            ),
            final(self).queue@.len() == if count as int >= old(self).queue@.len() {
                0int
            } else {
                old(self).queue@.len() - count
            },
            final(self).queue@.len() > 0 ==> {
                &&& final(self).state is Playing
                &&& r.0 == Some(old(self).queue@[count as int])
                &&& r.1 == Some(
                    TransportAction::Play {
                        stream_locator: old(self).queue@[count as int].stream_locator,
                    },
                )
            },
            final(self).queue@.len() == 0 ==> {
                &&& final(self).state is Stopped
                &&& r.0 is None
                &&& r.1 == if old(self).state is Stopped {
                    None::<TransportAction>
                } else {
                    Some(TransportAction::Stop)
                }
            },
    {
        let was_active = match self.state {
            PlaybackState::Stopped => false,
            _ => true,
        };
        self.queue.drop_front(count);
        let now = match self.queue.peek_current() {
            Some(t) => Some(t.clone()),
            None => None,
        };
        match now {
            Some(t) => {
                let locator = t.stream_locator.clone();
                self.state = PlaybackState::Playing;
                (Some(t), Some(TransportAction::Play { stream_locator: locator }))
            },
            None => {
                self.state = PlaybackState::Stopped;
                if was_active {
                    (None, Some(TransportAction::Stop))
                } else {
                    (None, None)
                }
            },
        }
    }

    /// The transport finished the current track: advance exactly as an
    /// explicit single skip would, so the two paths cannot diverge.
    pub fn on_track_finished(&mut self) -> (r: (
        Option<TrackRecord>,
        Option<TransportAction>,
    ))
        requires
            old(self).wf(),
        ensures
            final(self).wf(),
            final(self).group_id == old(self).group_id,
            final(self).channel == old(self).channel,
            final(self).queue@ == old(self).queue@.skip(
                min(1int, old(self).queue@.len() as int),
            ),
            final(self).queue@.len() > 0 ==> {
                &&& final(self).state is Playing
                &&& r.0 == Some(old(self).queue@[1])
                &&& r.1 == Some(
                    TransportAction::Play {
                        stream_locator: old(self).queue@[1].stream_locator,
                    },
                )
            },
            final(self).queue@.len() == 0 ==> {
                &&& final(self).state is Stopped
                &&& r.0 is None
                &&& r.1 == if old(self).state is Stopped {
                    None::<TransportAction>
                } else {
                    Some(TransportAction::Stop)
                }
            },
    {
        self.skip(1)
    }

    /// Removes the entry at `position` (0-based); every later entry moves
    /// down by one. Removing the current entry (position 0) also advances
    /// the transport exactly as a single skip would. Out-of-range
    /// positions fail with `NotFound` and change nothing.
    pub fn remove_at(&mut self, position: usize) -> (r: Result<
        (TrackRecord, Option<TransportAction>),
        CommandError,
    >)
        requires
            old(self).wf(),
        ensures
            final(self).wf(),
            final(self).group_id == old(self).group_id,
            final(self).channel == old(self).channel,
            position >= old(self).queue@.len() ==> r == Err::<
                (TrackRecord, Option<TransportAction>),
                _,
            >(CommandError::NotFound) && *final(self) == *old(self),
            position < old(self).queue@.len() ==> {
                &&& final(self).queue@ == old(self).queue@.remove(position as int)
                &&& r matches Ok((removed, action)) && removed == old(self).queue@[position as int]
                    && if position == 0 {
                    if final(self).queue@.len() > 0 {
                        final(self).state is Playing && action == Some(
                            TransportAction::Play {
                                stream_locator: old(self).queue@[1].stream_locator,
                            },
                        )
                    } else {
                        final(self).state is Stopped && action == Some(TransportAction::Stop)
                    }
                } else {
                    final(self).state == old(self).state && action is None
                }
            },
    {
        if position >= self.queue.len() {
            return Err(CommandError::NotFound);
        }
        let removed = match self.queue.remove_at(position) {
            Ok(t) => t,
            Err(e) => {
                return Err(e);
            },
        };
        if position == 0 {
            assert(self.queue@ =~= old(self).queue@.skip(1));
            let next_locator = match self.queue.peek_current() {
                Some(t) => Some(t.stream_locator.clone()),
                None => None,
            };
            match next_locator {
                Some(locator) => {
                    self.state = PlaybackState::Playing;
                    Ok((removed, Some(TransportAction::Play { stream_locator: locator })))
                },
                None => {
                    self.state = PlaybackState::Stopped;
                    Ok((removed, Some(TransportAction::Stop)))
                },
            }
        } else {
            Ok((removed, None))
        }
    }

    /// The current track and the pending ones behind it, as one
    /// consistent copy for rendering.
    pub fn current_queue_view(&self) -> (r: (Option<TrackRecord>, Vec<TrackRecord>))
        ensures
            self.queue@.len() == 0 ==> r.0 is None && r.1@ == Seq::<TrackRecord>::empty(),
            self.queue@.len() > 0 ==> r.0 == Some(self.queue@[0]) && r.1@ == self.queue@.skip(1),
    {
        let mut snap = self.queue.snapshot();
        if snap.len() == 0 {
            (None, snap)
        } else {
            let current = snap.remove(0);
            assert(snap@ =~= self.queue@.skip(1));
            (Some(current), snap)
        }
    }

    pub fn playback_state(&self) -> (s: PlaybackState)
        ensures
            s == self.state,
    {
        self.state
    }

    pub fn is_connected(&self) -> (b: bool)
        ensures
            b == (self.channel is Some),
    {
        self.channel.is_some()
    }

    pub fn queue_len(&self) -> (n: usize)
        ensures
            n == self.queue@.len(),
    {
        self.queue.len()
    }
}

} // verus!
