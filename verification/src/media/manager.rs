//! The media-session watcher: a worker body that keeps exactly one live
//! set of change subscriptions bound to whichever session is currently
//! active.
//!
//! A [`Manager`] holds one service-wide registration (current session
//! changed) and, while a session exists, three session-level registrations
//! (media, timeline, playback information). [`Manager::wf`] states the
//! subscription invariant: the platform's registry holds exactly this
//! manager's tokens — four while bound, one while unbound — each at the
//! point it was issued for. Every operation preserves it, so no
//! registration ever leaks and none is ever torn down twice.

use vstd::prelude::*;

use crate::controller::{spec_contains_stop, ThreadMessage};
use crate::media::platform::{
    lemma_push_registration, lemma_registered_has_token, lemma_token_bound, Platform,
    SubscriptionPoint,
};
use crate::media::{MediaError, PlaybackStatus};

verus! {

/// Notifications the platform's callbacks turn into messages for the
/// watcher's channel.
#[derive(Debug, Clone, Copy, PartialEq, Eq)]
pub enum ManagerMessage {
    SessionChanged,
    TimelineChanged,
    PlaybackInfoChanged,
    MediaChanged,
}

/// The session the watcher is bound to, with the three session-level
/// registration tokens installed on it. Replaced wholesale on every rebind.
#[derive(Debug, Clone, Copy, PartialEq, Eq)]
pub struct SessionBinding {
    /// The bound session.
    pub session: u64,
    /// Token of the media-properties-changed registration.
    pub media_changed: u64,
    /// Token of the timeline-properties-changed registration.
    pub timeline_changed: u64,
    /// Token of the playback-info-changed registration.
    pub playbackinfo_changed: u64,
}

/// What one consumed property notification did: which kind it was and
/// which session was queried for it — always the session current at the
/// moment the notification was consumed.
#[derive(Debug, Clone, Copy, PartialEq, Eq)]
pub struct Report {
    /// The notification kind that triggered the query.
    pub kind: ManagerMessage,
    /// The session the query went to.
    pub session: u64,
}

/// The media-session watcher.
#[derive(Debug)]
pub struct Manager {
    /// Token of the service-wide current-session-changed registration. It
    /// outlives every rebind and is released only on shutdown.
    pub session_changed: u64,
    /// The current binding, or `None` while no session is available.
    pub binding: Option<SessionBinding>,
}

impl Manager {
    /// The subscription invariant: the platform's registry holds exactly
    /// this watcher's tokens — the service-wide one, plus the three
    /// session-level ones while a session is bound — each registered at
    /// the point it was issued for.
    pub open spec fn wf(&self, p: Platform) -> bool {
        &&& p.wf()
        &&& p.registered_at(self.session_changed, SubscriptionPoint::CurrentSessionChanged)
        &&& match self.binding {
            None => p.registrations@.len() == 1,
            Some(b) => {
                &&& p.registered_at(
                    b.media_changed,
                    SubscriptionPoint::MediaPropertiesChanged(b.session),
                )
                &&& p.registered_at(
                    b.timeline_changed,
                    SubscriptionPoint::TimelinePropertiesChanged(b.session),
                )
                &&& p.registered_at(
                    b.playbackinfo_changed,
                    SubscriptionPoint::PlaybackInfoChanged(b.session),
                )
                &&& p.registrations@.len() == 4
            },
        }
    }
}

/// Registrations at two different points never share a token.
pub proof fn lemma_distinct_points_distinct_tokens(
    p: Platform,
    t1: u64,
    pt1: SubscriptionPoint,
    t2: u64,
    pt2: SubscriptionPoint,
)
    requires
        p.wf(),
        p.registered_at(t1, pt1),
        p.registered_at(t2, pt2),
        pt1 != pt2,
    ensures
        t1 != t2,
{
    let i1 = choose|i: int|
        0 <= i < p.registrations@.len() && p.registrations@[i] == (t1, pt1);
    let i2 = choose|i: int|
        0 <= i < p.registrations@.len() && p.registrations@[i] == (t2, pt2);
    assert(i1 != i2);
}

/// However the watcher is driven, the registry holds exactly one live
/// subscription set: four registrations while a session is bound, the one
/// service-wide registration while none is.
pub proof fn lemma_single_live_subscription_set(m: Manager, p: Platform)
    requires
        m.wf(p),
    ensures
        p.registrations@.len() == (if m.binding is Some {
            4int
        } else {
            1int
        }),
{
}

impl Manager {
    /// Creates the watcher: binds to the current session and installs the
    /// full subscription set. When the platform reports no current
    /// session, fails with `NoActiveSession` and registers nothing at all.
    pub fn new(p: &mut Platform) -> (r: Result<Manager, MediaError>)
        requires
            old(p).wf(),
            old(p).registrations@.len() == 0,
            old(p).next_token + 4 <= u64::MAX,
        ensures
            r is Ok <==> old(p).current is Some,
            r matches Err(e) ==> e is NoActiveSession && *final(p) == *old(p),
            r matches Ok(m) ==> {
                &&& m.wf(*final(p))
                &&& m.binding matches Some(b) && Some(b.session) == old(p).current
                &&& final(p).current == old(p).current
                &&& final(p).current_status == old(p).current_status
                &&& final(p).next_token == old(p).next_token + 4
            },
    {
        let session = match p.get_current_session() {
            Ok(s) => s,
            Err(_) => {
                return Err(MediaError::NoActiveSession);
            },
        };
        let media_changed = p.subscribe(SubscriptionPoint::MediaPropertiesChanged(session));
        let timeline_changed = p.subscribe(SubscriptionPoint::TimelinePropertiesChanged(session));
        let playbackinfo_changed = p.subscribe(SubscriptionPoint::PlaybackInfoChanged(session));
        let session_changed = p.subscribe(SubscriptionPoint::CurrentSessionChanged);
        let m = Manager {
            session_changed,
            binding: Some(
                SessionBinding { session, media_changed, timeline_changed, playbackinfo_changed },
            ),
        };
        proof {
            assert(p.registrations@[0] == (
                media_changed,
                SubscriptionPoint::MediaPropertiesChanged(session),
            ));
            assert(p.registrations@[1] == (
                timeline_changed,
                SubscriptionPoint::TimelinePropertiesChanged(session),
            ));
            assert(p.registrations@[2] == (
                playbackinfo_changed,
                SubscriptionPoint::PlaybackInfoChanged(session),
            ));
            assert(p.registrations@[3] == (
                session_changed,
                SubscriptionPoint::CurrentSessionChanged,
            ));
        }
        Ok(m)
    }

    /// The rebind, run on every `SessionChanged` notification, in strict
    /// order: tear the three session-level registrations off the old
    /// session, ask the platform what is current now, install a fresh
    /// session-level set there, and replace the binding as one unit. When
    /// nothing is current any more the watcher falls back to unbound —
    /// keeping only the service-wide registration — and recovers on the
    /// next `SessionChanged`. The service-wide token survives every rebind.
    pub fn session_changed(&mut self, p: &mut Platform)
        requires
            old(self).wf(*old(p)),
            old(p).next_token + 3 <= u64::MAX,
        ensures
            final(self).wf(*final(p)),
            final(p).current == old(p).current,
            final(p).current_status == old(p).current_status,
            final(self).session_changed == old(self).session_changed,
            final(p).next_token <= old(p).next_token + 3,
            final(self).binding is Some <==> old(p).current is Some,
            old(p).current matches Some(s) ==> (final(self).binding matches Some(b)
                && b.session == s),
            old(self).binding matches Some(b) ==> {
                &&& !final(p).has_token(b.media_changed)
                &&& !final(p).has_token(b.timeline_changed)
                &&& !final(p).has_token(b.playbackinfo_changed)
            },
    {
        match self.binding {
            Some(b) => {
                proof {
                    let pt_m = SubscriptionPoint::MediaPropertiesChanged(b.session);
                    let pt_t = SubscriptionPoint::TimelinePropertiesChanged(b.session);
                    let pt_p = SubscriptionPoint::PlaybackInfoChanged(b.session);
                    let pt_s = SubscriptionPoint::CurrentSessionChanged;
                    lemma_distinct_points_distinct_tokens(*p, b.media_changed, pt_m, b.timeline_changed, pt_t);
                    lemma_distinct_points_distinct_tokens(*p, b.media_changed, pt_m, b.playbackinfo_changed, pt_p);
                    lemma_distinct_points_distinct_tokens(*p, b.timeline_changed, pt_t, b.playbackinfo_changed, pt_p);
                    lemma_distinct_points_distinct_tokens(*p, self.session_changed, pt_s, b.media_changed, pt_m);
                    lemma_distinct_points_distinct_tokens(*p, self.session_changed, pt_s, b.timeline_changed, pt_t);
                    lemma_distinct_points_distinct_tokens(*p, self.session_changed, pt_s, b.playbackinfo_changed, pt_p);
                    lemma_registered_has_token(*p, b.media_changed, pt_m);
                    lemma_token_bound(*p, b.media_changed);
                    lemma_registered_has_token(*p, b.timeline_changed, pt_t);
                    lemma_token_bound(*p, b.timeline_changed);
                    lemma_registered_has_token(*p, b.playbackinfo_changed, pt_p);
                    lemma_token_bound(*p, b.playbackinfo_changed);
                }
                let _ = p.unsubscribe(b.media_changed);
                proof {
                    lemma_registered_has_token(*p, b.timeline_changed,
                        SubscriptionPoint::TimelinePropertiesChanged(b.session));
                }
                let _ = p.unsubscribe(b.timeline_changed);
                proof {
                    lemma_registered_has_token(*p, b.playbackinfo_changed,
                        SubscriptionPoint::PlaybackInfoChanged(b.session));
                }
                let _ = p.unsubscribe(b.playbackinfo_changed);
                self.binding = None;
            },
            None => {},
        }
        let ghost unbound_p = *p;
        match p.get_current_session() {
            Err(_) => {},
            Ok(session) => {
                let ghost p0 = *p;
                let media_changed = p.subscribe(
                    SubscriptionPoint::MediaPropertiesChanged(session),
                );
                let ghost p1 = *p;
                let timeline_changed = p.subscribe(
                    SubscriptionPoint::TimelinePropertiesChanged(session),
                );
                let ghost p2 = *p;
                let playbackinfo_changed = p.subscribe(
                    SubscriptionPoint::PlaybackInfoChanged(session),
                );
                proof {
                    lemma_push_registration(p0, p1, media_changed,
                        SubscriptionPoint::MediaPropertiesChanged(session));
                    lemma_push_registration(p1, p2, timeline_changed,
                        SubscriptionPoint::TimelinePropertiesChanged(session));
                    lemma_push_registration(p2, *p, playbackinfo_changed,
                        SubscriptionPoint::PlaybackInfoChanged(session));
                }
                self.binding = Some(
                    SessionBinding { session, media_changed, timeline_changed, playbackinfo_changed },
                );
            },
        }
    }

    /// Releases everything the watcher holds: the three session-level
    /// registrations, if a session is bound, and the service-wide one.
    /// This runs on every exit path of the watch loop, so no registration
    /// outlives the watcher.
    pub fn dispose(self, p: &mut Platform)
        requires
            self.wf(*old(p)),
        ensures
            final(p).wf(),
            final(p).registrations@.len() == 0,
            final(p).current == old(p).current,
            final(p).current_status == old(p).current_status,
    {
        match self.binding {
            Some(b) => {
                proof {
                    let pt_m = SubscriptionPoint::MediaPropertiesChanged(b.session);
                    let pt_t = SubscriptionPoint::TimelinePropertiesChanged(b.session);
                    let pt_p = SubscriptionPoint::PlaybackInfoChanged(b.session);
                    let pt_s = SubscriptionPoint::CurrentSessionChanged;
                    lemma_distinct_points_distinct_tokens(*p, b.media_changed, pt_m, b.timeline_changed, pt_t);
                    lemma_distinct_points_distinct_tokens(*p, b.media_changed, pt_m, b.playbackinfo_changed, pt_p);
                    lemma_distinct_points_distinct_tokens(*p, b.timeline_changed, pt_t, b.playbackinfo_changed, pt_p);
                    lemma_distinct_points_distinct_tokens(*p, self.session_changed, pt_s, b.media_changed, pt_m);
                    lemma_distinct_points_distinct_tokens(*p, self.session_changed, pt_s, b.timeline_changed, pt_t);
                    lemma_distinct_points_distinct_tokens(*p, self.session_changed, pt_s, b.playbackinfo_changed, pt_p);
                    lemma_registered_has_token(*p, b.media_changed, pt_m);
                }
                let _ = p.unsubscribe(b.media_changed);
                proof {
                    lemma_registered_has_token(*p, b.timeline_changed,
                        SubscriptionPoint::TimelinePropertiesChanged(b.session));
                }
                let _ = p.unsubscribe(b.timeline_changed);
                proof {
                    lemma_registered_has_token(*p, b.playbackinfo_changed,
                        SubscriptionPoint::PlaybackInfoChanged(b.session));
                }
                let _ = p.unsubscribe(b.playbackinfo_changed);
            },
            None => {},
        }
        proof {
            lemma_registered_has_token(*p, self.session_changed,
                SubscriptionPoint::CurrentSessionChanged);
        }
        let _ = p.unsubscribe(self.session_changed);
    }

    /// A media-properties notification was consumed: query whichever
    /// session is current *now* — never one captured when the event fired
    /// — and report against it. With no current session the failure is
    /// local: the caller reports it and keeps watching.
    pub fn media_props_changed(p: &Platform) -> (r: Result<Report, MediaError>)
        ensures
            r is Ok <==> p.current is Some,
            r matches Ok(rep) ==> rep.kind is MediaChanged && Some(rep.session) == p.current,
            r matches Err(e) ==> e is NoActiveSession,
    {
        let session = match p.get_current_session() {
            Ok(s) => s,
            Err(e) => {
                return Err(e);
            },
        };
        Ok(Report { kind: ManagerMessage::MediaChanged, session })
    }

    /// A timeline notification was consumed: query the session current at
    /// delivery time, and report only while it is actually playing —
    /// timeline noise from a paused or closed session is dropped.
    pub fn timeline_changed(p: &Platform) -> (r: Result<Option<Report>, MediaError>)
        ensures
            r is Ok <==> p.current is Some,
            r matches Err(e) ==> e is NoActiveSession,
            r matches Ok(opt) ==> (opt is Some <==> p.current_status is Playing),
            r matches Ok(opt) ==> (opt matches Some(rep) ==> rep.kind is TimelineChanged
                && Some(rep.session) == p.current),
    {
        let session = match p.get_current_session() {
            Ok(s) => s,
            Err(e) => {
                return Err(e);
            },
        };
        let status = p.get_playback_status();
        if matches!(status, PlaybackStatus::Playing) {
            Ok(Some(Report { kind: ManagerMessage::TimelineChanged, session }))
        } else {
            Ok(None)
        }
    }

    /// A playback-information notification was consumed: query the session
    /// current at delivery time and report against it.
    pub fn playback_info_changed(p: &Platform) -> (r: Result<Report, MediaError>)
        ensures
            r is Ok <==> p.current is Some,
            r matches Ok(rep) ==> rep.kind is PlaybackInfoChanged && Some(rep.session)
                == p.current,
            r matches Err(e) ==> e is NoActiveSession,
    {
        let session = match p.get_current_session() {
            Ok(s) => s,
            Err(e) => {
                return Err(e);
            },
        };
        Ok(Report { kind: ManagerMessage::PlaybackInfoChanged, session })
    }
}

/// The reports the watch loop produces for a stream of messages, given
/// what the platform holds steady over the run: everything before the
/// first `Stop` is consumed in arrival order; each property notification
/// reports against the session current at delivery time, or nothing when
/// none is current; timeline notifications report only while playing;
/// rebinds and echoes report nothing.
pub open spec fn spec_watch_reports(
    current: Option<u64>,
    status: PlaybackStatus,
    msgs: Seq<ThreadMessage>,
) -> Seq<Report>
    decreases msgs.len(),
{
    if msgs.len() == 0 {
        Seq::empty()
    } else {
        let rest = spec_watch_reports(current, status, msgs.skip(1));
        match msgs[0] {
            ThreadMessage::Stop => Seq::empty(),
            ThreadMessage::Echo(_) => rest,
            ThreadMessage::Media(mm) => match mm {
                ManagerMessage::SessionChanged => rest,
                ManagerMessage::MediaChanged => match current {
                    Some(s) => seq![Report { kind: ManagerMessage::MediaChanged, session: s }]
                        + rest,
                    None => rest,
                },
                ManagerMessage::TimelineChanged => match current {
                    Some(s) => if status is Playing {
                        seq![Report { kind: ManagerMessage::TimelineChanged, session: s }] + rest
                    } else {
                        rest
                    },
                    None => rest,
                },
                ManagerMessage::PlaybackInfoChanged => match current {
                    Some(s) => seq![
                        Report { kind: ManagerMessage::PlaybackInfoChanged, session: s },
                    ] + rest,
                    None => rest,
                },
            },
        }
    }
}

impl Manager {
    /// The watch loop: consumes the stream the watcher's channel delivers,
    /// strictly in arrival order — no reordering, no coalescing. Property
    /// notifications produce the reports [`spec_watch_reports`] describes;
    /// `SessionChanged` rebinds; the first `Stop` ends the loop. A stream
    /// that ends without `Stop` means every producer is gone: the loop
    /// fails with `ChannelClosed`. On either exit every registration is
    /// released first, so nothing the watcher held outlives it.
    #[verifier::loop_isolation(false)]
    pub fn start_sync(self, p: &mut Platform, incoming: &Vec<ThreadMessage>) -> (r: (
        Vec<Report>,
        Result<(), MediaError>,
    ))
        requires
            self.wf(*old(p)),
            old(p).next_token + 3 * incoming@.len() <= u64::MAX,
        ensures
            final(p).wf(),
            final(p).registrations@.len() == 0,
            final(p).current == old(p).current,
            final(p).current_status == old(p).current_status,
            r.1 is Ok <==> spec_contains_stop(incoming@),
            r.1 matches Err(e) ==> e is ChannelClosed,
            r.0@ == spec_watch_reports(old(p).current, old(p).current_status, incoming@),
    {
        let mut mgr = self;
        let mut reports: Vec<Report> = Vec::new();
        let ghost full = spec_watch_reports(old(p).current, old(p).current_status, incoming@);
        proof {
            assert(incoming@.skip(0) =~= incoming@);
        }
        let mut j: usize = 0;
        while j < incoming.len()
            invariant
                j <= incoming@.len(),
                mgr.wf(*p),
                p.current == old(p).current,
                p.current_status == old(p).current_status,
                p.next_token + 3 * (incoming@.len() - j) <= u64::MAX,
                forall|k: int| 0 <= k < j ==> !(incoming@[k] is Stop),
                full == reports@ + spec_watch_reports(
                    p.current,
                    p.current_status,
                    incoming@.skip(j as int),
                ),
            decreases incoming@.len() - j,
        {
            let ghost rest = incoming@.skip(j as int);
            proof {
                assert(rest[0] == incoming@[j as int]);
                assert(rest.skip(1) =~= incoming@.skip(j as int + 1));
            }
            let message = incoming[j];
            match message {
                ThreadMessage::Stop => {
                    proof {
                        assert(incoming@[j as int] is Stop);
                        assert(spec_contains_stop(incoming@));
                        assert(full =~= reports@);
                    }
                    mgr.dispose(p);
                    return (reports, Ok(()));
                },
                ThreadMessage::Echo(_) => {},
                ThreadMessage::Media(mm) => match mm {
                    ManagerMessage::SessionChanged => {
                        mgr.session_changed(p);
                    },
                    ManagerMessage::MediaChanged => {
                        match Manager::media_props_changed(p) {
                            Ok(rep) => {
                                reports.push(rep);
                                proof {
                                    assert(full =~= reports@ + spec_watch_reports(
                                        p.current,
                                        p.current_status,
                                        incoming@.skip(j as int + 1),
                                    ));
                                }
                            },
                            Err(_) => {},
                        }
                    },
                    ManagerMessage::TimelineChanged => {
                        match Manager::timeline_changed(p) {
                            Ok(Some(rep)) => {
                                reports.push(rep);
                                proof {
                                    assert(full =~= reports@ + spec_watch_reports(
                                        p.current,
                                        p.current_status,
                                        incoming@.skip(j as int + 1),
                                    ));
                                }
                            },
                            Ok(None) => {},
                            Err(_) => {},
                        }
                    },
                    ManagerMessage::PlaybackInfoChanged => {
                        match Manager::playback_info_changed(p) {
                            Ok(rep) => {
                                reports.push(rep);
                                proof {
                                    assert(full =~= reports@ + spec_watch_reports(
                                        p.current,
                                        p.current_status,
                                        incoming@.skip(j as int + 1),
                                    ));
                                }
                            },
                            Err(_) => {},
                        }
                    },
                },
            }
            j = j + 1;
        }
        proof {
            assert(incoming@.skip(j as int) =~= Seq::<ThreadMessage>::empty());
            assert(full =~= reports@);
        }
        mgr.dispose(p);
        (reports, Err(MediaError::ChannelClosed))
    }
}

} // verus!
