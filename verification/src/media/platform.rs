//! In-memory model of the platform media-session service.
//!
//! The real service lives outside the process: it knows which media session
//! is current, hands out registration tokens for change notifications, and
//! fires callbacks on threads of its own. This module keeps the part of
//! that service the watcher's correctness depends on — the current session
//! and the set of live registrations — so the subscription bookkeeping can
//! be verified against it and exercised in tests. A deployment performs the
//! same calls against the real service at the process boundary.

use vstd::prelude::*;

use crate::media::{MediaError, PlaybackStatus};

verus! {

/// One place a change callback can be registered.
#[derive(Debug, Clone, Copy, PartialEq, Eq)]
pub enum SubscriptionPoint {
    /// Service-wide: the current session was replaced.
    CurrentSessionChanged,
    /// Media properties of the given session changed.
    MediaPropertiesChanged(u64),
    /// Timeline properties of the given session changed.
    TimelinePropertiesChanged(u64),
    /// Playback information of the given session changed.
    PlaybackInfoChanged(u64),
}

/// The observable state of the media-session service: which session is
/// current, what it reports as playback status, and every live
/// registration, each under the opaque token its subscribe call returned.
#[derive(Debug)]
pub struct Platform {
    /// The current session, if any, by its identifier.
    pub current: Option<u64>,
    /// Playback status the current session reports when queried.
    pub current_status: PlaybackStatus,
    /// Source of fresh registration tokens.
    pub next_token: u64,
    /// Every live registration: token and the point it is registered at.
    pub registrations: Vec<(u64, SubscriptionPoint)>,
}

impl Platform {
    /// True when some live registration carries this token.
    pub open spec fn has_token(&self, token: u64) -> bool {
        exists|i: int|
            0 <= i < self.registrations@.len() && self.registrations@[i].0 == token
    }

    /// True when this token is registered at exactly this point.
    pub open spec fn registered_at(&self, token: u64, point: SubscriptionPoint) -> bool {
        exists|i: int|
            0 <= i < self.registrations@.len() && self.registrations@[i]
                == (token, point)
    }

    /// Tokens are never reused: every live one is pairwise distinct and
    /// below the source of fresh ones.
    pub open spec fn wf(&self) -> bool {
        &&& forall|i: int|
            0 <= i < self.registrations@.len() ==> self.registrations@[i].0
                < self.next_token
        &&& forall|i: int, j: int|
            0 <= i < j < self.registrations@.len()
                ==> self.registrations@[i].0 != self.registrations@[j].0
    }

    /// A service with no session, no registrations, and a closed status.
    pub fn new() -> (p: Platform)
        ensures
            p.current is None,
            p.current_status is Closed,
            p.next_token == 0,
            p.registrations@.len() == 0,
            p.wf(),
    {
        Platform {
            current: None,
            current_status: PlaybackStatus::Closed,
            next_token: 0,
            registrations: Vec::new(),
        }
    }

    /// The session now current, if any. Fails with `NoActiveSession` when
    /// none exists — and only then.
    pub fn get_current_session(&self) -> (r: Result<u64, MediaError>)
        ensures
            r is Ok <==> self.current is Some,
            r matches Ok(s) ==> self.current == Some(s),
            r matches Err(e) ==> e is NoActiveSession,
    {
        match self.current {
            Some(s) => Ok(s),
            None => Err(MediaError::NoActiveSession),
        }
    }

    /// The platform replaces (or drops) the current session. Registrations
    /// are untouched: tearing down and rebinding is the watcher's job.
    pub fn set_current_session(&mut self, session: Option<u64>)
        ensures
            final(self).current == session,
            final(self).current_status == old(self).current_status,
            final(self).next_token == old(self).next_token,
            final(self).registrations == old(self).registrations,
    {
        self.current = session;
    }

    /// The current session's playback status changes.
    pub fn set_playback_status(&mut self, status: PlaybackStatus)
        ensures
            final(self).current == old(self).current,
            final(self).current_status == status,
            final(self).next_token == old(self).next_token,
            final(self).registrations == old(self).registrations,
    {
        self.current_status = status;
    }

    /// The playback status the current session reports. Part of the
    /// read-only reporting queries; it never touches registrations.
    pub fn get_playback_status(&self) -> (st: PlaybackStatus)
        ensures
            st == self.current_status,
    {
        self.current_status
    }

    /// Registers a callback at the given point and returns the fresh token
    /// that the matching unsubscribe must present.
    pub fn subscribe(&mut self, point: SubscriptionPoint) -> (token: u64)
        requires
            old(self).wf(),
            old(self).next_token < u64::MAX,
        ensures
            final(self).wf(),
            token == old(self).next_token,
            !old(self).has_token(token),
            final(self).next_token == old(self).next_token + 1,
            final(self).registrations@ == old(self).registrations@.push((token, point)),
            final(self).current == old(self).current,
            final(self).current_status == old(self).current_status,
    {
        let token = self.next_token;
        self.registrations.push((token, point));
        self.next_token = self.next_token + 1;
        token
    }

    /// Deregisters the callback the token was returned for. Returns whether
    /// the token was live; presenting a dead token is harmless. Every other
    /// registration is kept, with its point.
    #[verifier::loop_isolation(false)]
    pub fn unsubscribe(&mut self, token: u64) -> (r: bool)
        requires
            old(self).wf(),
        ensures
            final(self).wf(),
            r == old(self).has_token(token),
            !final(self).has_token(token),
            forall|t: u64, pt: SubscriptionPoint|
                t != token ==> (final(self).registered_at(t, pt) <==> old(self).registered_at(
                    t,
                    pt,
                )),
            final(self).registrations@.len() == old(self).registrations@.len() - (
            if old(self).has_token(token) {
                1int
            } else {
                0int
            }),
            final(self).next_token == old(self).next_token,
            final(self).current == old(self).current,
            final(self).current_status == old(self).current_status,
    {
        let mut i: usize = 0;
        while i < self.registrations.len()
            invariant
                i <= self.registrations@.len(),
                forall|j: int| 0 <= j < i ==> self.registrations@[j].0 != token,
                self == old(self),
            decreases self.registrations@.len() - i,
        {
            if self.registrations[i].0 == token {
                let ghost before = self.registrations@;
                self.registrations.remove(i);
                proof {
                    let after = self.registrations@;
                    assert(after.len() == before.len() - 1);
                    assert forall|j: int| 0 <= j < after.len() implies after[j] == (
                    if j < i {
                        before[j]
                    } else {
                        before[j + 1]
                    }) by {
                        if j < i {
                            assert(after[j] == before.subrange(0, i as int)[j]);
                        } else {
                            assert(after[j] == before.subrange(
                                i as int + 1,
                                before.len() as int,
                            )[j - i]);
                        }
                    }
                    assert forall|j: int| 0 <= j < after.len() implies after[j].0 != token by {
                        if j < i {
                            assert(after[j] == before[j]);
                        } else {
                            assert(before[i as int].0 == token);
                            assert(after[j] == before[j + 1]);
                            assert(before[i as int].0 != before[j + 1].0);
                        }
                    }
                    assert forall|j: int| 0 <= j < after.len() implies after[j].0
                        < self.next_token by {
                        if j < i {
                            assert(after[j] == before[j]);
                        } else {
                            assert(after[j] == before[j + 1]);
                        }
                    }
                    assert forall|j1: int, j2: int| 0 <= j1 < j2 < after.len() implies after[j1].0
                        != after[j2].0 by {
                        let b1: int = if j1 < i { j1 } else { j1 + 1 };
                        let b2: int = if j2 < i { j2 } else { j2 + 1 };
                        assert(after[j1] == before[b1]);
                        assert(after[j2] == before[b2]);
                        assert(before[b1].0 != before[b2].0);
                    }
                    assert forall|t: u64, pt: SubscriptionPoint| t != token implies (
                    self.registered_at(t, pt) <==> old(self).registered_at(t, pt)) by {
                        if old(self).registered_at(t, pt) {
                            let k = choose|k: int|
                                0 <= k < before.len() && before[k] == (t, pt);
                            if k < i {
                                assert(after[k] == (t, pt));
                            } else {
                                assert(k != i);
                                assert(after[k - 1] == (t, pt));
                            }
                        }
                        if self.registered_at(t, pt) {
                            let k = choose|k: int|
                                0 <= k < after.len() && after[k] == (t, pt);
                            if k < i {
                                assert(before[k] == (t, pt));
                            } else {
                                assert(before[k + 1] == (t, pt));
                            }
                        }
                    }
                }
                return true;
            }
            i = i + 1;
        }
        false
    }
}

/// A token registered at some point is live.
pub proof fn lemma_registered_has_token(p: Platform, t: u64, pt: SubscriptionPoint)
    requires
        p.registered_at(t, pt),
    ensures
        p.has_token(t),
{
    let k = choose|k: int| 0 <= k < p.registrations@.len() && p.registrations@[k] == (t, pt);
    assert(p.registrations@[k].0 == t);
}

/// Every live token lies below the source of fresh ones, so a token
/// handed out later can never collide with it.
pub proof fn lemma_token_bound(p: Platform, t: u64)
    requires
        p.wf(),
        p.has_token(t),
    ensures
        t < p.next_token,
{
    let k = choose|k: int| 0 <= k < p.registrations@.len() && p.registrations@[k].0 == t;
}

/// Appending one registration keeps every existing one, adds exactly the
/// new pair, and makes exactly the new token live on top of the old ones.
pub proof fn lemma_push_registration(
    before: Platform,
    after: Platform,
    token: u64,
    point: SubscriptionPoint,
)
    requires
        after.registrations@ == before.registrations@.push((token, point)),
    ensures
        after.registered_at(token, point),
        forall|t: u64, pt: SubscriptionPoint| #[trigger]
            before.registered_at(t, pt) ==> after.registered_at(t, pt),
        forall|t: u64, pt: SubscriptionPoint| #[trigger]
            after.registered_at(t, pt) ==> ((t == token && pt == point) || before.registered_at(
                t,
                pt,
            )),
        forall|x: u64| #[trigger] after.has_token(x) ==> (x == token || before.has_token(x)),
        forall|x: u64| #[trigger] before.has_token(x) ==> after.has_token(x),
        after.has_token(token),
{
    let n = before.registrations@.len() as int;
    assert(after.registrations@[n] == (token, point));
    assert(after.registrations@[n].0 == token);
    assert forall|t: u64, pt: SubscriptionPoint| #[trigger]
        before.registered_at(t, pt) implies after.registered_at(t, pt) by {
        let k = choose|k: int|
            0 <= k < before.registrations@.len() && before.registrations@[k] == (t, pt);
        assert(after.registrations@[k] == (t, pt));
    }
    assert forall|t: u64, pt: SubscriptionPoint| #[trigger]
        after.registered_at(t, pt) implies ((t == token && pt == point)
        || before.registered_at(t, pt)) by {
        let k = choose|k: int|
            0 <= k < after.registrations@.len() && after.registrations@[k] == (t, pt);
        if k < n {
            assert(before.registrations@[k] == (t, pt));
        }
    }
    assert forall|x: u64| #[trigger] after.has_token(x) implies (x == token || before.has_token(
        x,
    )) by {
        let k = choose|k: int|
            0 <= k < after.registrations@.len() && after.registrations@[k].0 == x;
        if k < n {
            assert(before.registrations@[k].0 == x);
        }
    }
    assert forall|x: u64| #[trigger] before.has_token(x) implies after.has_token(x) by {
        let k = choose|k: int|
            0 <= k < before.registrations@.len() && before.registrations@[k].0 == x;
        assert(after.registrations@[k].0 == x);
    }
}

} // verus!
