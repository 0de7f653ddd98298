use video_player::events::{Action, BusMessage, EventPayload, NativeHandle};
use video_player::player::{PlayerPhase, VideoPlayer};
use video_player::registry::VideoPlayerCollection;

fn ready_payload() -> EventPayload {
    EventPayload {
        width: None,
        height: None,
        handle: Some(NativeHandle::Win32 { hwnd: 77 }),
        engine_ok: true,
        messages: Vec::new(),
    }
}

fn poll_payload(messages: Vec<BusMessage>) -> EventPayload {
    EventPayload { width: None, height: None, handle: None, engine_ok: false, messages }
}

#[test]
fn open_video_player_ignores_empty_url() {
    let mut c = VideoPlayerCollection::new();
    let (added, acts) = c.open_video_player(String::new());
    assert!(!added);
    assert!(acts.is_empty());
    assert_eq!(c.len(), 0);
}

#[test]
fn open_video_player_registers_and_opens() {
    let mut c = VideoPlayerCollection::new();
    let (added, acts) = c.open_video_player("My Movie".to_string());
    assert!(added);
    assert_eq!(acts, vec![Action::CreateWindow { width: 404, height: 324 }]);
    assert_eq!(c.len(), 1);
    let p = c.get_player("player-my_movie").expect("player registered");
    assert_eq!(p.url, "My Movie");
    assert!(p.window);
    assert_eq!(p.width, 404);
    assert_eq!(p.height, 324);
    assert_eq!(p.phase, PlayerPhase::WindowOpen);
    assert!(!p.pipeline);
}

#[test]
fn duplicate_open_is_rejected() {
    let mut c = VideoPlayerCollection::new();
    let (first, _) = c.open_video_player("clip".to_string());
    assert!(first);
    let (second, acts) = c.open_video_player("clip".to_string());
    assert!(!second);
    assert!(acts.is_empty());
    assert_eq!(c.len(), 1);
}

#[test]
fn colliding_urls_are_rejected() {
    // Two distinct URLs normalize to the same snake-case identifier.
    let mut c = VideoPlayerCollection::new();
    let (first, _) = c.open_video_player("FooBar".to_string());
    assert!(first);
    let (second, _) = c.open_video_player("foo_bar".to_string());
    assert!(!second);
    assert_eq!(c.len(), 1);
}

#[test]
fn add_player_rejects_existing_identifier() {
    let mut c = VideoPlayerCollection::new();
    let (added, _) = c.add_player(VideoPlayer::new("clip".to_string()));
    assert!(added);
    let (again, acts) = c.add_player(VideoPlayer::new("clip".to_string()));
    assert!(!again);
    assert!(acts.is_empty());
    assert_eq!(c.len(), 1);
}

#[test]
fn dispatch_to_unknown_player_is_noop() {
    let mut c = VideoPlayerCollection::new();
    c.open_video_player("clip".to_string());
    let out = c.player_event(
        "player-absent".to_string(),
        "play".to_string(),
        &EventPayload::empty(),
    );
    assert!(!out.handled);
    assert!(out.actions.is_empty());
    assert!(out.outward.is_empty());
    assert_eq!(c.len(), 1);
    assert!(c.contains_player("player-clip"));
}

#[test]
fn dispatch_closed_evicts_player() {
    let mut c = VideoPlayerCollection::new();
    c.open_video_player("clip".to_string());
    c.player_event("player-clip".to_string(), "ready".to_string(), &ready_payload());
    let out = c.player_event(
        "player-clip".to_string(),
        "closed".to_string(),
        &EventPayload::empty(),
    );
    assert!(out.handled);
    assert_eq!(out.actions, vec![Action::EngineNull, Action::CloseWindow]);
    assert!(!c.contains_player("player-clip"));
    assert_eq!(c.len(), 0);
}

#[test]
fn dispatch_ready_builds_and_plays() {
    let mut c = VideoPlayerCollection::new();
    c.open_video_player("clip".to_string());
    let out = c.player_event("player-clip".to_string(), "ready".to_string(), &ready_payload());
    assert!(out.handled);
    let p = c.get_player("player-clip").expect("still registered");
    assert!(p.pipeline);
    assert!(p.video_overlay);
    assert_eq!(p.phase, PlayerPhase::Playing);
    assert_eq!(out.actions[0], Action::BindOverlay { handle: 77 });
}

#[test]
fn dispatch_poll_error_emits_closed_and_keeps_entry() {
    let mut c = VideoPlayerCollection::new();
    c.open_video_player("clip".to_string());
    c.player_event("player-clip".to_string(), "ready".to_string(), &ready_payload());
    let out = c.player_event(
        "player-clip".to_string(),
        "poll".to_string(),
        &poll_payload(vec![BusMessage::Error]),
    );
    assert!(out.handled);
    assert_eq!(out.outward.len(), 1);
    assert_eq!(out.outward[0].channel, "player-clip");
    assert_eq!(out.outward[0].event, "closed");
    // The poll does not evict: only "closed" does.
    let p = c.get_player("player-clip").expect("still registered");
    assert!(!p.pipeline);
    assert!(!p.video_overlay);
    assert_eq!(p.phase, PlayerPhase::Stopped);
}

#[test]
fn remove_player_is_idempotent() {
    let mut c = VideoPlayerCollection::new();
    c.open_video_player("clip".to_string());
    c.remove_player("player-clip");
    assert_eq!(c.len(), 0);
    c.remove_player("player-clip");
    assert_eq!(c.len(), 0);
}

#[test]
fn close_all_notifies_each_player_once() {
    let mut c = VideoPlayerCollection::new();
    c.open_video_player("first clip".to_string());
    c.open_video_player("second clip".to_string());
    // Give the first player a pipeline; leave the second without one.
    c.player_event("player-first_clip".to_string(), "ready".to_string(), &ready_payload());

    let (acts, out) = c.close_all();
    assert_eq!(out.len(), 2);
    assert_eq!(out[0].channel, "player-first_clip");
    assert_eq!(out[0].event, "close");
    assert_eq!(out[1].channel, "player-second_clip");
    assert_eq!(out[1].event, "close");
    assert_eq!(
        acts,
        vec![Action::EngineNull, Action::CloseWindow, Action::CloseWindow]
    );

    // Entries stay registered, each torn down terminally.
    assert_eq!(c.len(), 2);
    for id in ["player-first_clip", "player-second_clip"] {
        let p = c.get_player(id).expect("entry kept");
        assert!(!p.pipeline);
        assert!(!p.video_overlay);
        assert!(!p.window);
        assert_eq!(p.phase, PlayerPhase::Closed);
    }
}

#[test]
fn close_all_on_empty_registry_is_noop() {
    let mut c = VideoPlayerCollection::new();
    let (acts, out) = c.close_all();
    assert!(acts.is_empty());
    assert!(out.is_empty());
    assert_eq!(c.len(), 0);
}
