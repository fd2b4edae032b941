use window::controller::ThreadMessage;
use window::media::platform::Platform;
use window::media::{Manager, ManagerMessage, MediaError, PlaybackStatus, Report};

fn bound_manager(session: u64) -> (Manager, Platform) {
    let mut p = Platform::new();
    p.set_current_session(Some(session));
    let mgr = Manager::new(&mut p).unwrap();
    (mgr, p)
}

#[test]
fn construction_without_session_fails_cleanly() {
    let mut p = Platform::new();
    let r = Manager::new(&mut p);
    assert!(matches!(r, Err(MediaError::NoActiveSession)));
    assert_eq!(p.registrations.len(), 0);
}

#[test]
fn construction_installs_one_full_subscription_set() {
    let (mgr, p) = bound_manager(1);
    assert_eq!(p.registrations.len(), 4);
    let b = mgr.binding.unwrap();
    assert_eq!(b.session, 1);
}

#[test]
fn rebind_reads_new_session_and_keeps_four_registrations() {
    let (mut mgr, mut p) = bound_manager(1);
    p.set_current_session(Some(2));
    mgr.session_changed(&mut p);
    assert_eq!(mgr.binding.unwrap().session, 2);
    assert_eq!(p.registrations.len(), 4);
    let rep = Manager::media_props_changed(&p).unwrap();
    assert_eq!(rep.session, 2);
    assert_eq!(rep.kind, ManagerMessage::MediaChanged);
}

#[test]
fn rebind_releases_the_old_session_tokens() {
    let (mut mgr, mut p) = bound_manager(1);
    let old = mgr.binding.unwrap();
    p.set_current_session(Some(2));
    mgr.session_changed(&mut p);
    let live: Vec<u64> = p.registrations.iter().map(|r| r.0).collect();
    assert!(!live.contains(&old.media_changed));
    assert!(!live.contains(&old.timeline_changed));
    assert!(!live.contains(&old.playbackinfo_changed));
    assert!(live.contains(&mgr.session_changed));
}

#[test]
fn repeated_rebinds_keep_exactly_one_subscription_set() {
    let (mut mgr, mut p) = bound_manager(1);
    for s in 2..7u64 {
        p.set_current_session(Some(s));
        mgr.session_changed(&mut p);
        assert_eq!(p.registrations.len(), 4);
        assert_eq!(mgr.binding.unwrap().session, s);
    }
}

#[test]
fn rebind_to_nothing_falls_back_to_unbound_and_recovers() {
    let (mut mgr, mut p) = bound_manager(1);
    p.set_current_session(None);
    mgr.session_changed(&mut p);
    assert!(mgr.binding.is_none());
    assert_eq!(p.registrations.len(), 1);
    p.set_current_session(Some(3));
    mgr.session_changed(&mut p);
    assert_eq!(mgr.binding.unwrap().session, 3);
    assert_eq!(p.registrations.len(), 4);
}

#[test]
fn stale_event_queries_current_session_and_mutates_nothing() {
    let (mgr, mut p) = bound_manager(1);
    let before = mgr.binding.unwrap();
    // The platform already switched to session 2, but the watcher has not
    // consumed the SessionChanged notification yet; a property event
    // raised against session 1 arrives first.
    p.set_current_session(Some(2));
    let rep = Manager::media_props_changed(&p).unwrap();
    assert_eq!(rep.session, 2);
    assert_eq!(mgr.binding.unwrap(), before);
    assert_eq!(p.registrations.len(), 4);
}

#[test]
fn property_event_without_session_is_local_failure() {
    let (_mgr, mut p) = bound_manager(1);
    p.set_current_session(None);
    assert!(matches!(
        Manager::media_props_changed(&p),
        Err(MediaError::NoActiveSession)
    ));
    assert!(matches!(
        Manager::playback_info_changed(&p),
        Err(MediaError::NoActiveSession)
    ));
    assert!(matches!(
        Manager::timeline_changed(&p),
        Err(MediaError::NoActiveSession)
    ));
}

#[test]
fn timeline_reports_only_while_playing() {
    let (_mgr, mut p) = bound_manager(1);
    p.set_playback_status(PlaybackStatus::Paused);
    assert_eq!(Manager::timeline_changed(&p).unwrap(), None);
    p.set_playback_status(PlaybackStatus::Playing);
    let rep = Manager::timeline_changed(&p).unwrap().unwrap();
    assert_eq!(rep.kind, ManagerMessage::TimelineChanged);
    assert_eq!(rep.session, 1);
}

#[test]
fn dispose_releases_every_registration() {
    let (mgr, mut p) = bound_manager(1);
    mgr.dispose(&mut p);
    assert_eq!(p.registrations.len(), 0);
}

#[test]
fn watch_loop_reports_in_arrival_order_and_stops() {
    let (mgr, mut p) = bound_manager(7);
    p.set_playback_status(PlaybackStatus::Playing);
    let incoming = vec![
        ThreadMessage::Media(ManagerMessage::MediaChanged),
        ThreadMessage::Echo("noise"),
        ThreadMessage::Media(ManagerMessage::TimelineChanged),
        ThreadMessage::Media(ManagerMessage::PlaybackInfoChanged),
        ThreadMessage::Stop,
        ThreadMessage::Media(ManagerMessage::MediaChanged),
    ];
    let (reports, outcome) = mgr.start_sync(&mut p, &incoming);
    assert!(outcome.is_ok());
    assert_eq!(
        reports,
        vec![
            Report { kind: ManagerMessage::MediaChanged, session: 7 },
            Report { kind: ManagerMessage::TimelineChanged, session: 7 },
            Report { kind: ManagerMessage::PlaybackInfoChanged, session: 7 },
        ]
    );
    assert_eq!(p.registrations.len(), 0);
}

#[test]
fn watch_loop_drops_timeline_noise_when_not_playing() {
    let (mgr, mut p) = bound_manager(7);
    p.set_playback_status(PlaybackStatus::Paused);
    let incoming = vec![
        ThreadMessage::Media(ManagerMessage::TimelineChanged),
        ThreadMessage::Stop,
    ];
    let (reports, outcome) = mgr.start_sync(&mut p, &incoming);
    assert!(outcome.is_ok());
    assert_eq!(reports, vec![]);
}

#[test]
fn watch_loop_rebinds_midstream() {
    let (mgr, mut p) = bound_manager(1);
    // A rebind notification is consumed after the platform moved on; the
    // later media report must read the new session.
    p.set_current_session(Some(9));
    let incoming = vec![
        ThreadMessage::Media(ManagerMessage::SessionChanged),
        ThreadMessage::Media(ManagerMessage::MediaChanged),
        ThreadMessage::Stop,
    ];
    let (reports, outcome) = mgr.start_sync(&mut p, &incoming);
    assert!(outcome.is_ok());
    assert_eq!(
        reports,
        vec![Report { kind: ManagerMessage::MediaChanged, session: 9 }]
    );
    assert_eq!(p.registrations.len(), 0);
}

#[test]
fn watch_loop_without_stop_fails_with_channel_closed_and_releases() {
    let (mgr, mut p) = bound_manager(1);
    let incoming = vec![ThreadMessage::Media(ManagerMessage::MediaChanged)];
    let (reports, outcome) = mgr.start_sync(&mut p, &incoming);
    assert_eq!(outcome, Err(MediaError::ChannelClosed));
    assert_eq!(reports.len(), 1);
    assert_eq!(p.registrations.len(), 0);
}
