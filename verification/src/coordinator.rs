use vstd::math::min;
use vstd::prelude::*;

use crate::error::CommandError;
use crate::registry::lemma_unchanged_except_trans;
use crate::registry::lemma_update_keeps_registry_wf;
use crate::registry::SessionRegistry;
use crate::session::TransportAction;
use crate::session::VoiceSession;
use crate::track::TrackRecord;

verus! {

/// Maps one already-parsed user command onto one session operation: it
/// resolves or creates the group's voice session through the registry
/// (get-or-create only where the command may auto-join; plain lookup
/// where it must fail with `NotInSession`), applies the command, and
/// hands back a result for rendering together with the transport actions
/// to perform. The surrounding program holds the session's exclusive
/// lock across each whole call; the coordinator itself never touches
/// queue or transport state except through the session.
pub struct CommandCoordinator {
    pub registry: SessionRegistry,
}

impl CommandCoordinator {
    pub open spec fn wf(self) -> bool {
        self.registry.wf()
    }

    pub open spec fn has_session(self, g: u64) -> bool {
        self.registry.contains_group(g)
    }

    pub open spec fn session(self, g: u64) -> VoiceSession {
        self.registry.session_for(g)
    }

    /// Every group but `g` keeps exactly the session it had.
    pub open spec fn others_unchanged(
        pre: CommandCoordinator,
        post: CommandCoordinator,
        g: u64,
    ) -> bool {
        SessionRegistry::unchanged_except(pre.registry, post.registry, g)
    }

    pub fn new() -> (r: CommandCoordinator)
        ensures
            r.wf(),
            forall|g: u64| !r.has_session(g),
    {
        CommandCoordinator { registry: SessionRegistry::new() }
    }

    /// Join the caller's channel: resolves or creates the group's
    /// session. Joining a group that already has a live session is a
    /// no-op success; a previously unseen group with no channel hint
    /// fails with `NoChannel`.
    pub fn join(&mut self, group: u64, channel_hint: Option<u64>) -> (r: Result<
        Option<TransportAction>,
        CommandError,
    >)
        requires
            old(self).wf(),
        ensures
            final(self).wf(),
            Self::others_unchanged(*old(self), *final(self), group),
            old(self).has_session(group) ==> r == Ok::<_, CommandError>(None::<TransportAction>)
                && *final(self) == *old(self),
            !old(self).has_session(group) ==> (channel_hint matches Some(c) ==> {
                &&& r == Ok::<_, CommandError>(Some(TransportAction::Connect { channel: c }))
                &&& final(self).has_session(group)
                &&& final(self).session(group).group_id == group
                &&& final(self).session(group).channel == Some(c)
                &&& final(self).session(group).queue@ == Seq::<TrackRecord>::empty()
                &&& final(self).session(group).state is Stopped
            }),
            !old(self).has_session(group) && channel_hint is None ==> r == Err::<
                Option<TransportAction>,
                _,
            >(CommandError::NoChannel) && *final(self) == *old(self),
    {
        self.registry.get_or_create(group, channel_hint)
    }

    /// Tear the group's session down: stop playback, clear the queue,
    /// release the transport, drop the registry entry. Fails with
    /// `NotInSession` when the group has no session.
    pub fn leave(&mut self, group: u64) -> (r: Result<TransportAction, CommandError>)
        requires
            old(self).wf(),
        ensures
            final(self).wf(),
            Self::others_unchanged(*old(self), *final(self), group),
            !final(self).has_session(group),
            !old(self).has_session(group) ==> r == Err::<TransportAction, _>(
                CommandError::NotInSession,
            ) && *final(self) == *old(self),
            old(self).has_session(group) ==> r == Ok::<_, CommandError>(
                TransportAction::Disconnect,
            ),
    {
        proof {
            if old(self).registry.contains_group(group) {
                let k = old(self).registry.spec_index_of(group);
                assert(old(self).registry.sessions_seq()[k].channel is Some);
            }
        }
        match self.registry.remove(group) {
            Some(mut s) => {
                let action = s.leave();
                match action {
                    Some(a) => Ok(a),
                    None => unreached(),
                }
            },
            None => Err(CommandError::NotInSession),
        }
    }

    /// The transport reports its connection for this group gone (idle
    /// timeout, kick, network failure): the session is torn down
    /// unconditionally. Returns whether a session was live.
    pub fn on_disconnected(&mut self, group: u64) -> (had: bool)
        requires
            old(self).wf(),
        ensures
            final(self).wf(),
            Self::others_unchanged(*old(self), *final(self), group),
            !final(self).has_session(group),
            had == old(self).has_session(group),
    {
        match self.registry.remove(group) {
            Some(_) => true,
            None => false,
        }
    }

    /// Queue one resolved track, lazily joining the caller's channel
    /// first when the group has no session yet. Returns the track's
    /// 1-based display position and the transport actions to perform, in
    /// order.
    pub fn enqueue(&mut self, group: u64, channel_hint: Option<u64>, track: TrackRecord) -> (r:
        Result<(usize, Vec<TransportAction>), CommandError>)
        requires
            old(self).wf(),
        ensures
            final(self).wf(),
            Self::others_unchanged(*old(self), *final(self), group),
            !old(self).has_session(group) && channel_hint is None ==> r == Err::<
                (usize, Vec<TransportAction>),
                _,
            >(CommandError::NoChannel) && *final(self) == *old(self),
            old(self).has_session(group) ==> ({
                let pre = old(self).session(group);
                let post = final(self).session(group);
                &&& final(self).has_session(group)
                &&& post.queue@ == pre.queue@.push(track)
                &&& post.channel == pre.channel
                &&& r matches Ok((position, actions)) && position == pre.queue@.len() + 1 && (
                pre.state is Stopped ==> post.state is Playing && actions@.len() == 1 && actions@[0]
                    == TransportAction::Play { stream_locator: track.stream_locator }) && (!(
                pre.state is Stopped) ==> post.state == pre.state && actions@.len() == 0)
            }),
            !old(self).has_session(group) ==> (channel_hint matches Some(c) ==> ({
                let post = final(self).session(group);
                &&& final(self).has_session(group)
                &&& post.queue@ =~= seq![track]
                &&& post.state is Playing
                &&& post.channel == Some(c)
                &&& r matches Ok((position, actions)) && position == 1 && actions@.len() == 2
                    && actions@[0] == TransportAction::Connect { channel: c } && actions@[1]
                    == TransportAction::Play { stream_locator: track.stream_locator }
            })),
    {
        let connect = match self.registry.get_or_create(group, channel_hint) {
            Ok(a) => a,
            Err(e) => {
                return Err(e);
            },
        };
        let ghost mid_reg = self.registry;
        let s = self.registry.session_mut(group);
        let (position, play) = s.enqueue_and_maybe_start(track);
        proof {
            let idx = mid_reg.spec_index_of(group);
            let snew = self.registry.sessions_seq()[idx];
            lemma_update_keeps_registry_wf(mid_reg, self.registry, group, snew);
            lemma_unchanged_except_trans(old(self).registry, mid_reg, self.registry, group);
        }
        let mut actions: Vec<TransportAction> = Vec::new();
        match connect {
            Some(a) => actions.push(a),
            None => (),
        }
        match play {
            Some(a) => actions.push(a),
            None => (),
        }
        Ok((position, actions))
    }

    /// Queue several resolved tracks in order (one searched album),
    /// lazily joining first when needed. Returns the transport actions to
    /// perform, in order.
    pub fn enqueue_all(&mut self, group: u64, channel_hint: Option<u64>, tracks: Vec<
        TrackRecord,
    >) -> (r: Result<Vec<TransportAction>, CommandError>)
        requires
            old(self).wf(),
        ensures
            final(self).wf(),
            Self::others_unchanged(*old(self), *final(self), group),
            !old(self).has_session(group) && channel_hint is None ==> r == Err::<
                Vec<TransportAction>,
                _,
            >(CommandError::NoChannel) && *final(self) == *old(self),
            old(self).has_session(group) ==> ({
                let pre = old(self).session(group);
                let post = final(self).session(group);
                &&& final(self).has_session(group)
                &&& post.queue@ == pre.queue@ + tracks@
                &&& post.channel == pre.channel
                &&& r matches Ok(actions) && (pre.state is Stopped && tracks@.len() > 0
                    ==> post.state is Playing && actions@.len() == 1 && actions@[0]
                    == TransportAction::Play { stream_locator: tracks@[0].stream_locator }) && (
                pre.state is Stopped && tracks@.len() == 0 ==> post.state is Stopped
                    && actions@.len() == 0) && (!(pre.state is Stopped) ==> post.state == pre.state
                    && actions@.len() == 0)
            }),
            !old(self).has_session(group) ==> (channel_hint matches Some(c) ==> ({
                let post = final(self).session(group);
                &&& final(self).has_session(group)
                &&& post.queue@ =~= tracks@
                &&& post.channel == Some(c)
                &&& tracks@.len() > 0 ==> post.state is Playing
                &&& tracks@.len() == 0 ==> post.state is Stopped
                &&& r matches Ok(actions) && actions@.len() >= 1 && actions@[0]
                    == TransportAction::Connect { channel: c } && (tracks@.len() > 0
                    ==> actions@.len() == 2 && actions@[1] == TransportAction::Play {
                        stream_locator: tracks@[0].stream_locator,
                    }) && (tracks@.len() == 0 ==> actions@.len() == 1)
            })),
    {
        let connect = match self.registry.get_or_create(group, channel_hint) {
            Ok(a) => a,
            Err(e) => {
                return Err(e);
            },
        };
        let ghost mid_reg = self.registry;
        let s = self.registry.session_mut(group);
        let play = s.enqueue_all(tracks);
        proof {
            let idx = mid_reg.spec_index_of(group);
            let snew = self.registry.sessions_seq()[idx];
            lemma_update_keeps_registry_wf(mid_reg, self.registry, group, snew);
            lemma_unchanged_except_trans(old(self).registry, mid_reg, self.registry, group);
        }
        let mut actions: Vec<TransportAction> = Vec::new();
        match connect {
            Some(a) => actions.push(a),
            None => (),
        }
        match play {
            Some(a) => actions.push(a),
            None => (),
        }
        Ok(actions)
    }

    /// Pause the current track; valid only while playing.
    pub fn pause(&mut self, group: u64) -> (r: Result<TransportAction, CommandError>)
        requires
            old(self).wf(),
        ensures
            final(self).wf(),
            Self::others_unchanged(*old(self), *final(self), group),
            !old(self).has_session(group) ==> r == Err::<TransportAction, _>(
                CommandError::NotInSession,
            ) && *final(self) == *old(self),
            old(self).has_session(group) ==> ({
                let pre = old(self).session(group);
                let post = final(self).session(group);
                &&& final(self).has_session(group)
                &&& pre.state is Playing ==> r == Ok::<_, CommandError>(TransportAction::Pause)
                    && post.state is Paused && post.queue == pre.queue && post.channel
                    == pre.channel
                &&& !(pre.state is Playing) ==> r == Err::<TransportAction, _>(
                    CommandError::InvalidState,
                ) && post == pre
            }),
    {
        if !self.registry.contains(group) {
            return Err(CommandError::NotInSession);
        }
        let s = self.registry.session_mut(group);
        let r = s.pause();
        proof {
            let idx = old(self).registry.spec_index_of(group);
            let snew = self.registry.sessions_seq()[idx];
            lemma_update_keeps_registry_wf(old(self).registry, self.registry, group, snew);
        }
        r
    }

    /// Resume the current track; valid only while paused.
    pub fn resume(&mut self, group: u64) -> (r: Result<TransportAction, CommandError>)
        requires
            old(self).wf(),
        ensures
            final(self).wf(),
            Self::others_unchanged(*old(self), *final(self), group),
            !old(self).has_session(group) ==> r == Err::<TransportAction, _>(
                CommandError::NotInSession,
            ) && *final(self) == *old(self),
            old(self).has_session(group) ==> ({
                let pre = old(self).session(group);
                let post = final(self).session(group);
                &&& final(self).has_session(group)
                &&& pre.state is Paused ==> r == Ok::<_, CommandError>(TransportAction::Resume)
                    && post.state is Playing && post.queue == pre.queue && post.channel
                    == pre.channel
                &&& !(pre.state is Paused) ==> r == Err::<TransportAction, _>(
                    CommandError::InvalidState,
                ) && post == pre
            }),
    {
        if !self.registry.contains(group) {
            return Err(CommandError::NotInSession);
        }
        let s = self.registry.session_mut(group);
        let r = s.resume();
        proof {
            let idx = old(self).registry.spec_index_of(group);
            let snew = self.registry.sessions_seq()[idx];
            lemma_update_keeps_registry_wf(old(self).registry, self.registry, group, snew);
        }
        r
    }

    /// Drop `count >= 1` entries starting from the current one, then
    /// start the new current if any, else stop. Skipping more than the
    /// queue holds empties it; skipping never errors once a session
    /// exists.
    pub fn skip(&mut self, group: u64, count: usize) -> (r: Result<
        (Option<TrackRecord>, Option<TransportAction>),
        CommandError,
    >)
        requires
            old(self).wf(),
            count >= 1,
        ensures
            final(self).wf(),
            Self::others_unchanged(*old(self), *final(self), group),
            !old(self).has_session(group) ==> r == Err::<
                (Option<TrackRecord>, Option<TransportAction>),
                _,
            >(CommandError::NotInSession) && *final(self) == *old(self),
            old(self).has_session(group) ==> ({
                let pre = old(self).session(group);
                let post = final(self).session(group);
                &&& final(self).has_session(group)
                &&& post.queue@ == pre.queue@.skip(min(count as int, pre.queue@.len() as int))
                &&& post.channel == pre.channel
                &&& r matches Ok((now, action)) && (post.queue@.len() > 0 ==> post.state is Playing
                    && now == Some(pre.queue@[count as int]) && action == Some(
                    TransportAction::Play {
                        stream_locator: pre.queue@[count as int].stream_locator,
                    },
                )) && (post.queue@.len() == 0 ==> post.state is Stopped && now is None && action
                    == (if pre.state is Stopped {
                    None::<TransportAction>
                } else {
                    Some(TransportAction::Stop)
                }))
            }),
    {
        if !self.registry.contains(group) {
            return Err(CommandError::NotInSession);
        }
        let s = self.registry.session_mut(group);
        let r = s.skip(count);
        proof {
            let idx = old(self).registry.spec_index_of(group);
            let snew = self.registry.sessions_seq()[idx];
            lemma_update_keeps_registry_wf(old(self).registry, self.registry, group, snew);
        }
        Ok(r)
    }

    /// Clear the queue and stop playback; the session and its connection
    /// stay.
    pub fn stop(&mut self, group: u64) -> (r: Result<Option<TransportAction>, CommandError>)
        requires
            old(self).wf(),
        ensures
            final(self).wf(),
            Self::others_unchanged(*old(self), *final(self), group),
            !old(self).has_session(group) ==> r == Err::<Option<TransportAction>, _>(
                CommandError::NotInSession,
            ) && *final(self) == *old(self),
            old(self).has_session(group) ==> ({
                let pre = old(self).session(group);
                let post = final(self).session(group);
                &&& final(self).has_session(group)
                &&& post.queue@ == Seq::<TrackRecord>::empty()
                &&& post.state is Stopped
                &&& post.channel == pre.channel
                &&& r == Ok::<_, CommandError>(
                    if pre.state is Stopped {
                        None::<TransportAction>
                    } else {
                        Some(TransportAction::Stop)
                    },
                )
            }),
    {
        if !self.registry.contains(group) {
            return Err(CommandError::NotInSession);
        }
        let s = self.registry.session_mut(group);
        let action = s.stop();
        proof {
            let idx = old(self).registry.spec_index_of(group);
            let snew = self.registry.sessions_seq()[idx];
            lemma_update_keeps_registry_wf(old(self).registry, self.registry, group, snew);
        }
        Ok(action)
    }

    /// Remove the entry at `position` (0-based); removing the current
    /// entry advances playback exactly as a single skip would.
    pub fn remove(&mut self, group: u64, position: usize) -> (r: Result<
        (TrackRecord, Option<TransportAction>),
        CommandError,
    >)
        requires
            old(self).wf(),
        ensures
            final(self).wf(),
            Self::others_unchanged(*old(self), *final(self), group),
            !old(self).has_session(group) ==> r == Err::<
                (TrackRecord, Option<TransportAction>),
                _,
            >(CommandError::NotInSession) && *final(self) == *old(self),
            old(self).has_session(group) ==> ({
                let pre = old(self).session(group);
                let post = final(self).session(group);
                &&& final(self).has_session(group)
                &&& post.channel == pre.channel
                &&& position >= pre.queue@.len() ==> r == Err::<
                    (TrackRecord, Option<TransportAction>),
                    _,
                >(CommandError::NotFound) && post == pre
                &&& position < pre.queue@.len() ==> {
                    &&& post.queue@ == pre.queue@.remove(position as int)
                    &&& r matches Ok((removed, action)) && removed == pre.queue@[position as int]
                        && if position == 0 {
                        if post.queue@.len() > 0 {
                            post.state is Playing && action == Some(
                                TransportAction::Play {
                                    stream_locator: pre.queue@[1].stream_locator,
                                },
                            )
                        } else {
                            post.state is Stopped && action == Some(TransportAction::Stop)
                        }
                    } else {
                        post.state == pre.state && action is None
                    }
                }
            }),
    {
        if !self.registry.contains(group) {
            return Err(CommandError::NotInSession);
        }
        let s = self.registry.session_mut(group);
        let r = s.remove_at(position);
        proof {
            let idx = old(self).registry.spec_index_of(group);
            let snew = self.registry.sessions_seq()[idx];
            lemma_update_keeps_registry_wf(old(self).registry, self.registry, group, snew);
        }
        r
    }

    /// The transport finished the group's current track: advance exactly
    /// as a single skip. A notification for a group without a session
    /// (already torn down) is dropped.
    pub fn on_track_finished(&mut self, group: u64) -> (r: (
        Option<TrackRecord>,
        Option<TransportAction>,
    ))
        requires
            old(self).wf(),
        ensures
            final(self).wf(),
            Self::others_unchanged(*old(self), *final(self), group),
            !old(self).has_session(group) ==> r == (
                None::<TrackRecord>,
                None::<TransportAction>,
            ) && *final(self) == *old(self),
            old(self).has_session(group) ==> ({
                let pre = old(self).session(group);
                let post = final(self).session(group);
                &&& final(self).has_session(group)
                &&& post.queue@ == pre.queue@.skip(min(1int, pre.queue@.len() as int))
                &&& post.channel == pre.channel
                &&& post.queue@.len() > 0 ==> post.state is Playing && r.0 == Some(pre.queue@[1])
                    && r.1 == Some(
                    TransportAction::Play { stream_locator: pre.queue@[1].stream_locator },
                )
                &&& post.queue@.len() == 0 ==> post.state is Stopped && r.0 is None && r.1 == (
                if pre.state is Stopped {
                    None::<TransportAction>
                } else {
                    Some(TransportAction::Stop)
                })
            }),
    {
        if !self.registry.contains(group) {
            return (None, None);
        }
        let s = self.registry.session_mut(group);
        let r = s.on_track_finished();
        proof {
            let idx = old(self).registry.spec_index_of(group);
            let snew = self.registry.sessions_seq()[idx];
            lemma_update_keeps_registry_wf(old(self).registry, self.registry, group, snew);
        }
        r
    }

    /// The currently loaded track, for rendering. Fails with
    /// `NotInSession` without a session and with `NotFound` when nothing
    /// is loaded.
    pub fn now_playing(&self, group: u64) -> (r: Result<TrackRecord, CommandError>)
        requires
            self.wf(),
        ensures
            !self.has_session(group) ==> r == Err::<TrackRecord, _>(CommandError::NotInSession),
            self.has_session(group) && self.session(group).queue@.len() == 0 ==> r == Err::<
                TrackRecord,
                _,
            >(CommandError::NotFound),
            self.has_session(group) && self.session(group).queue@.len() > 0 ==> r == Ok::<
                _,
                CommandError,
            >(self.session(group).queue@[0]),
    {
        match self.registry.get(group) {
            Some(s) => match s.queue.peek_current() {
                Some(t) => Ok(t.clone()),
                None => Err(CommandError::NotFound),
            },
            None => Err(CommandError::NotInSession),
        }
    }

    /// One consistent copy of the group's queue: the current track and
    /// the pending ones behind it.
    pub fn queue_view(&self, group: u64) -> (r: Result<
        (Option<TrackRecord>, Vec<TrackRecord>),
        CommandError,
    >)
        requires
            self.wf(),
        ensures
            !self.has_session(group) ==> r == Err::<
                (Option<TrackRecord>, Vec<TrackRecord>),
                _,
            >(CommandError::NotInSession),
            self.has_session(group) ==> ({
                let q = self.session(group).queue@;
                &&& r matches Ok((current, pending))
                &&& q.len() == 0 ==> current is None && pending@ == Seq::<TrackRecord>::empty()
                &&& q.len() > 0 ==> current == Some(q[0]) && pending@ == q.skip(1)
            }),
    {
        match self.registry.get(group) {
            Some(s) => Ok(s.current_queue_view()),
            None => Err(CommandError::NotInSession),
        }
    }

    /// Whether the group has a live session.
    pub fn contains(&self, group: u64) -> (b: bool)
        ensures
            b == self.has_session(group),
    {
        self.registry.contains(group)
    }
}

} // verus!
