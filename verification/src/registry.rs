use vstd::prelude::*;

use crate::error::CommandError;
use crate::session::TransportAction;
use crate::session::VoiceSession;
use crate::track::TrackRecord;

verus! {

/// Process-wide map from group identifier to that group's voice session,
/// mutated only through get-or-create and remove. Its linchpin invariant:
/// at most one live session per group at any time. Lookups, inserts and
/// removes are short; the surrounding program holds the registry's own
/// lock only across one whole call and never across transport work.
pub struct SessionRegistry {
    sessions: Vec<VoiceSession>,
}

impl SessionRegistry {
    /// The live sessions, in creation order.
    pub closed spec fn sessions_seq(self) -> Seq<VoiceSession> {
        self.sessions@
    }

    /// At most one session per group, every session internally
    /// consistent, and every registered session holds a live transport
    /// connection.
    pub open spec fn wf(self) -> bool {
        &&& forall|i: int, j: int|
            0 <= i < self.sessions_seq().len() && 0 <= j < self.sessions_seq().len()
                && #[trigger] self.sessions_seq()[i].group_id == #[trigger] self.sessions_seq()[j].group_id
                ==> i == j
        &&& forall|i: int|
            0 <= i < self.sessions_seq().len() ==> (#[trigger] self.sessions_seq()[i]).wf()
        &&& forall|i: int|
            0 <= i < self.sessions_seq().len() ==> (#[trigger] self.sessions_seq()[i]).channel
                is Some
    }

    pub open spec fn contains_group(self, g: u64) -> bool {
        exists|i: int|
            0 <= i < self.sessions_seq().len() && #[trigger] self.sessions_seq()[i].group_id == g
    }

    /// The index of group `g`'s session; meaningful only when
    /// `contains_group(g)` holds (unique then, by `wf`).
    pub open spec fn spec_index_of(self, g: u64) -> int {
        choose|i: int|
            0 <= i < self.sessions_seq().len() && #[trigger] self.sessions_seq()[i].group_id == g
    }

    pub open spec fn session_for(self, g: u64) -> VoiceSession {
        self.sessions_seq()[self.spec_index_of(g)]
    }

    /// Both registries hold exactly the same sessions for every group
    /// other than `g`.
    pub open spec fn unchanged_except(pre: SessionRegistry, post: SessionRegistry, g: u64) -> bool {
        forall|h: u64|
            h != g ==> (#[trigger] post.contains_group(h) <==> pre.contains_group(h)) && (
            post.contains_group(h) ==> post.session_for(h) == pre.session_for(h))
    }

    pub fn new() -> (r: SessionRegistry)
        ensures
            r.wf(),
            r.sessions_seq() == Seq::<VoiceSession>::empty(),
            forall|g: u64| !r.contains_group(g),
    {
        SessionRegistry { sessions: Vec::new() }
    }

    fn index_of(&self, g: u64) -> (r: Option<usize>)
        ensures
            match r {
                Some(i) => i < self.sessions_seq().len() && self.sessions_seq()[i as int].group_id
                    == g,
                None => !self.contains_group(g),
            },
            r is Some <==> self.contains_group(g),
    {
        let mut i: usize = 0;
        while i < self.sessions.len()
            invariant
                i <= self.sessions@.len(),
                forall|k: int| 0 <= k < i ==> #[trigger] self.sessions@[k].group_id != g,
            decreases self.sessions@.len() - i,
        {
            if self.sessions[i].group_id == g {
                return Some(i);
            }
            i = i + 1;
        }
        None
    }

    /// Non-creating lookup, for commands that must fail with
    /// `NotInSession` rather than auto-join.
    pub fn get(&self, g: u64) -> (r: Option<&VoiceSession>)
        requires
            self.wf(),
        ensures
            match r {
                Some(s) => self.contains_group(g) && *s == self.session_for(g),
                None => !self.contains_group(g),
            },
    {
        match self.index_of(g) {
            Some(i) => {
                proof {
                    let k = self.spec_index_of(g);
                    assert(self.sessions_seq()[k].group_id == g);
                    assert(k == i as int);
                }
                Some(&self.sessions[i])
            },
            None => None,
        }
    }

    pub fn contains(&self, g: u64) -> (b: bool)
        ensures
            b == self.contains_group(g),
    {
        self.index_of(g).is_some()
    }

    /// Returns the existing session for `g`, or, when none is live,
    /// constructs exactly one fresh session connected at the channel
    /// hint. Under one registry lock two callers for the same absent
    /// group cannot both construct: the first to run inserts, the second
    /// observes the winner's entry and causes no second join attempt.
    /// Fails with `NoChannel` when the group is absent and the caller
    /// gave no channel to join.
    pub fn get_or_create(&mut self, g: u64, channel_hint: Option<u64>) -> (r: Result<
        Option<TransportAction>,
        CommandError,
    >)
        requires
            old(self).wf(),
        ensures
            final(self).wf(),
            old(self).contains_group(g) ==> r == Ok::<_, CommandError>(None::<TransportAction>)
                && *final(self) == *old(self),
            !old(self).contains_group(g) ==> match channel_hint {
                Some(c) => {
                    &&& r == Ok::<_, CommandError>(Some(TransportAction::Connect { channel: c }))
                    &&& final(self).contains_group(g)
                    &&& final(self).session_for(g).group_id == g
                    &&& final(self).session_for(g).channel == Some(c)
                    &&& final(self).session_for(g).queue@ == Seq::<TrackRecord>::empty()
                    &&& final(self).session_for(g).state is Stopped
                    &&& final(self).sessions_seq() == old(self).sessions_seq().push(
                        final(self).session_for(g),
                    )
                },
                None => r == Err::<Option<TransportAction>, _>(CommandError::NoChannel)
                    && *final(self) == *old(self),
            },
            Self::unchanged_except(*old(self), *final(self), g),
    {
        match self.index_of(g) {
            Some(_) => Ok(None),
            None => match channel_hint {
                Some(c) => {
                    let s = VoiceSession::new(g, c);
                    self.sessions.push(s);
                    proof {
                        let n = old(self).sessions_seq().len() as int;
                        assert(self.sessions_seq()[n].group_id == g);
                        assert(self.contains_group(g));
                        assert forall|i: int, j: int|
                            0 <= i < self.sessions_seq().len() && 0 <= j
                                < self.sessions_seq().len()
                                && #[trigger] self.sessions_seq()[i].group_id
                                == #[trigger] self.sessions_seq()[j].group_id implies i == j by {
                            if i < n && j == n {
                                assert(old(self).sessions_seq()[i].group_id == g);
                                assert(old(self).contains_group(g));
                            }
                            if j < n && i == n {
                                assert(old(self).sessions_seq()[j].group_id == g);
                                assert(old(self).contains_group(g));
                            }
                        }
                        let k = self.spec_index_of(g);
                        assert(0 <= k < self.sessions_seq().len()
                            && self.sessions_seq()[k].group_id == g);
                        assert(k == n);
                        assert forall|h: u64| h != g implies (#[trigger] self.contains_group(h)
                            <==> old(self).contains_group(h)) && (self.contains_group(h)
                            ==> self.session_for(h) == old(self).session_for(h)) by {
                            if old(self).contains_group(h) {
                                let i = old(self).spec_index_of(h);
                                assert(self.sessions_seq()[i].group_id == h);
                                assert(self.contains_group(h));
                            }
                            if self.contains_group(h) {
                                let i = self.spec_index_of(h);
                                assert(i != n);
                                assert(old(self).sessions_seq()[i].group_id == h);
                                assert(old(self).contains_group(h));
                                let iold = old(self).spec_index_of(h);
                                assert(old(self).sessions_seq()[iold].group_id == h);
                                assert(self.sessions_seq()[iold].group_id == h);
                                assert(iold == i);
                            }
                        }
                    }
                    Ok(Some(TransportAction::Connect { channel: c }))
                },
                None => Err(CommandError::NoChannel),
            },
        }
    }

    /// Mutable access to group `g`'s session, for one whole operation
    /// under the session's lock. The caller is left to re-establish the
    /// registry invariant, normally through
    /// `lemma_update_keeps_registry_wf`.
    pub fn session_mut(&mut self, g: u64) -> (s: &mut VoiceSession)
        requires
            old(self).wf(),
            old(self).contains_group(g),
        ensures
            *s == old(self).session_for(g),
            s.wf(),
            s.group_id == g,
            s.channel is Some,
            final(self).sessions_seq() == old(self).sessions_seq().update(
                old(self).spec_index_of(g),
                *final(s),
            ),
    {
        let i = match self.index_of(g) {
            Some(i) => i,
            None => unreached(),
        };
        proof {
            let k = self.spec_index_of(g);
            assert(self.sessions_seq()[k].group_id == g);
            assert(k == i as int);
            assert(self.sessions_seq()[k].wf());
        }
        &mut self.sessions[i]
    }

    /// Drops group `g`'s entry; a no-op if it is absent. Called by a
    /// session's own teardown or by a transport disconnect notification.
    pub fn remove(&mut self, g: u64) -> (removed: Option<VoiceSession>)
        requires
            old(self).wf(),
        ensures
            final(self).wf(),
            !final(self).contains_group(g),
            old(self).contains_group(g) ==> removed == Some(old(self).session_for(g))
                && final(self).sessions_seq() == old(self).sessions_seq().remove(
                old(self).spec_index_of(g),
            ),
            !old(self).contains_group(g) ==> removed is None && *final(self) == *old(self),
            Self::unchanged_except(*old(self), *final(self), g),
    {
        match self.index_of(g) {
            Some(i) => {
                let s = self.sessions.remove(i);
                proof {
                    let n = old(self).sessions_seq().len() as int;
                    let idx = i as int;
                    assert(idx == old(self).spec_index_of(g));
                    assert forall|k: int|
                        0 <= k < self.sessions_seq().len() implies #[trigger] self.sessions_seq()[k].group_id
                        != g by {
                        if k < idx {
                            assert(self.sessions_seq()[k] == old(self).sessions_seq()[k]);
                        } else {
                            assert(self.sessions_seq()[k] == old(self).sessions_seq()[k + 1]);
                        }
                    }
                    assert forall|h: u64| h != g implies (#[trigger] self.contains_group(h)
                        <==> old(self).contains_group(h)) && (self.contains_group(h)
                        ==> self.session_for(h) == old(self).session_for(h)) by {
                        if old(self).contains_group(h) {
                            let iold = old(self).spec_index_of(h);
                            if iold < idx {
                                assert(self.sessions_seq()[iold].group_id == h);
                            } else {
                                assert(iold != idx);
                                assert(self.sessions_seq()[iold - 1].group_id == h);
                            }
                            assert(self.contains_group(h));
                        }
                        if self.contains_group(h) {
                            let inew = self.spec_index_of(h);
                            if inew < idx {
                                assert(old(self).sessions_seq()[inew].group_id == h);
                            } else {
                                assert(old(self).sessions_seq()[inew + 1].group_id == h);
                            }
                            assert(old(self).contains_group(h));
                            let iold = old(self).spec_index_of(h);
                            if inew < idx {
                                assert(old(self).sessions_seq()[inew].group_id == h);
                                assert(iold == inew);
                                assert(self.session_for(h) == old(self).session_for(h));
                            } else {
                                assert(iold == inew + 1);
                                assert(self.session_for(h) == old(self).session_for(h));
                            }
                        }
                    }
                }
                Some(s)
            },
            None => None,
        }
    }

    /// How many sessions are live.
    pub fn len(&self) -> (n: usize)
        ensures
            n == self.sessions_seq().len(),
    {
        self.sessions.len()
    }
}

/// Replacing group `g`'s session with one still keyed by `g`, still
/// internally consistent and still connected keeps the registry well
/// formed and leaves every other group's session untouched.
pub proof fn lemma_update_keeps_registry_wf(
    pre: SessionRegistry,
    post: SessionRegistry,
    g: u64,
    s: VoiceSession,
)
    requires
        pre.wf(),
        pre.contains_group(g),
        s.group_id == g,
        s.wf(),
        s.channel is Some,
        post.sessions_seq() == pre.sessions_seq().update(pre.spec_index_of(g), s),
    ensures
        post.wf(),
        post.contains_group(g),
        post.session_for(g) == s,
        SessionRegistry::unchanged_except(pre, post, g),
{
    let idx = pre.spec_index_of(g);
    assert(pre.sessions_seq()[idx].group_id == g);
    assert forall|i: int, j: int|
        0 <= i < post.sessions_seq().len() && 0 <= j < post.sessions_seq().len()
            && #[trigger] post.sessions_seq()[i].group_id
            == #[trigger] post.sessions_seq()[j].group_id implies i == j by {
        assert(post.sessions_seq()[i].group_id == pre.sessions_seq()[i].group_id);
        assert(post.sessions_seq()[j].group_id == pre.sessions_seq()[j].group_id);
    }
    assert(post.sessions_seq()[idx].group_id == g);
    assert(post.contains_group(g));
    let k = post.spec_index_of(g);
    assert(post.sessions_seq()[k].group_id == g);
    assert(pre.sessions_seq()[k].group_id == g);
    assert(k == idx);
    assert forall|h: u64| h != g implies (#[trigger] post.contains_group(h)
        <==> pre.contains_group(h)) && (post.contains_group(h) ==> post.session_for(h)
        == pre.session_for(h)) by {
        if pre.contains_group(h) {
            let i = pre.spec_index_of(h);
            assert(pre.sessions_seq()[i].group_id == h);
            assert(i != idx);
            assert(post.sessions_seq()[i].group_id == h);
            assert(post.contains_group(h));
        }
        if post.contains_group(h) {
            let i = post.spec_index_of(h);
            assert(post.sessions_seq()[i].group_id == h);
            assert(i != idx);
            assert(pre.sessions_seq()[i].group_id == h);
            assert(pre.contains_group(h));
            let iold = pre.spec_index_of(h);
            assert(pre.sessions_seq()[iold].group_id == h);
            assert(iold == i);
            assert(post.session_for(h) == pre.session_for(h));
        }
    }
}

/// Leaving every group but `g` untouched is transitive across two
/// registry mutations.
pub proof fn lemma_unchanged_except_trans(
    a: SessionRegistry,
    b: SessionRegistry,
    c: SessionRegistry,
    g: u64,
)
    requires
        SessionRegistry::unchanged_except(a, b, g),
        SessionRegistry::unchanged_except(b, c, g),
    ensures
        SessionRegistry::unchanged_except(a, c, g),
{
    assert forall|h: u64| h != g implies (#[trigger] c.contains_group(h) <==> a.contains_group(h))
        && (c.contains_group(h) ==> c.session_for(h) == a.session_for(h)) by {
        assert(b.contains_group(h) <==> a.contains_group(h));
        assert(c.contains_group(h) <==> b.contains_group(h));
    }
}

/// Single-session invariant: a well-formed registry never holds two
/// sessions for one group, whatever sequence of get-or-create and remove
/// calls built it.
pub proof fn lemma_single_session(r: SessionRegistry, g: u64, i: int, j: int)
    requires
        r.wf(),
        0 <= i < r.sessions_seq().len(),
        0 <= j < r.sessions_seq().len(),
        r.sessions_seq()[i].group_id == g,
        r.sessions_seq()[j].group_id == g,
    ensures
        i == j,
{
}

} // verus!
