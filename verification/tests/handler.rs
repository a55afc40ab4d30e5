use voice_bot::commands::{CommandOption, OptionValue, ParameterKind};
use voice_bot::config::Config;
use voice_bot::handler::{
    join, join_finished, play, play_finished, Dispatch, Handler, JoinReport, PlayReport,
};
use voice_bot::voice::event::{EventKind, VoiceEvent};
use voice_bot::voice::playback::SourceFault;
use voice_bot::voice::session::{ConnectionState, JoinError, LeaveStep, VoiceSessionManager};

const SERVER: u64 = 11;
const CHANNEL: u64 = 22;
const SOURCE: &str = "D\\mantikora_brain_dos\\mp3\\stream.mp3";
const JOINED: &str = "Присоединился к каналу";
const NOT_JOINED: &str = "Не присоединился к каналу";
const PLAYING: &str = "Я";
const NOT_PLAYING: &str = "Я русский ZZZ";

fn reply(text: &str) -> Dispatch {
    Dispatch::Reply(text.to_string())
}

fn user_option(id: u64, name: &str, discriminator: u16) -> CommandOption {
    CommandOption {
        name: "id".to_string(),
        resolved: Some(OptionValue::User { id, name: name.to_string(), discriminator }),
    }
}

fn started() -> Handler {
    let mut handler = Handler::new(SERVER, CHANNEL);
    let dispatch = handler.interaction_create("start", &[], 1);
    assert_eq!(
        dispatch,
        Dispatch::Connect { server_id: SERVER, channel_id: CHANNEL, release_first: false }
    );
    let report = handler.join_finished(Ok(()));
    assert_eq!(report, JoinReport { reply: JOINED.to_string(), subscribe: EventKind::all() });
    handler
}

#[test]
fn a_new_handler_follows_nobody_and_has_no_session() {
    let handler = Handler::new(SERVER, CHANNEL);
    assert_eq!(handler.get(), 0);
    assert_eq!(handler.server_id(), SERVER);
    assert_eq!(handler.channel_id(), CHANNEL);
    assert!(handler.session().is_none());
}

#[test]
fn a_handler_takes_server_and_channel_from_the_configuration() {
    let config = Config::resolve(
        Some("token".to_string()),
        Some("11".to_string()),
        Some("22".to_string()),
    )
    .unwrap();
    let handler = Handler::from_config(&config);
    assert_eq!(handler.server_id(), 11);
    assert_eq!(handler.channel_id(), 22);
    assert_eq!(handler.get(), 0);
}

#[test]
fn set_target_with_user_42_alice() {
    let mut handler = Handler::new(SERVER, CHANNEL);
    let dispatch = handler.interaction_create("set_target", &[user_option(42, "alice", 0)], 7);
    assert_eq!(handler.get(), 42);
    assert_eq!(dispatch, reply("Слежу за alice#0000"));
    match dispatch {
        Dispatch::Reply(text) => assert!(text.contains("alice")),
        other => panic!("{:?}", other),
    }
    assert!(handler.session().is_none());
}

#[test]
fn set_target_with_malformed_options_keeps_the_followed_user() {
    let mut handler = Handler::new(SERVER, CHANNEL);
    handler.interaction_create("set_target", &[user_option(42, "alice", 0)], 7);
    let absent: Vec<CommandOption> = Vec::new();
    let unresolved = vec![CommandOption { name: "id".to_string(), resolved: None }];
    let wrong = vec![CommandOption {
        name: "id".to_string(),
        resolved: Some(OptionValue::String("alice".to_string())),
    }];
    for options in [absent, unresolved, wrong] {
        let dispatch = handler.interaction_create("set_target", &options, 7);
        assert_eq!(dispatch, reply("Please provide a valid user"));
        assert_eq!(handler.get(), 42);
    }
}

#[test]
fn start_with_a_valid_channel_connects_and_subscribes_to_five() {
    let handler = started();
    let session = handler.session().unwrap();
    assert_eq!(session.state(), ConnectionState::Connected);
    assert_eq!(session.server_id(), SERVER);
    assert_eq!(session.channel_id(), CHANNEL);
    assert_eq!(session.subscription_count(), 5);
}

#[test]
fn start_passes_through_connecting() {
    let mut handler = Handler::new(SERVER, CHANNEL);
    handler.interaction_create("start", &[], 1);
    assert_eq!(handler.session().unwrap().state(), ConnectionState::Connecting);
    assert_eq!(handler.session().unwrap().subscription_count(), 0);
    handler.join_finished(Ok(()));
    assert_eq!(handler.session().unwrap().state(), ConnectionState::Connected);
}

#[test]
fn start_repeated_keeps_five_subscriptions() {
    let mut handler = started();
    let dispatch = handler.interaction_create("start", &[], 1);
    assert_eq!(dispatch, reply(JOINED));
    let session = handler.session().unwrap();
    assert_eq!(session.state(), ConnectionState::Connected);
    assert_eq!(session.subscription_count(), 5);
    let late = handler.join_finished(Ok(()));
    assert_eq!(late, JoinReport { reply: JOINED.to_string(), subscribe: Vec::new() });
    assert_eq!(handler.session().unwrap().subscription_count(), 5);
}

#[test]
fn start_to_an_unreachable_channel_fails_and_touches_nothing_else() {
    let mut handler = Handler::new(SERVER, CHANNEL);
    handler.interaction_create("set_target", &[user_option(42, "alice", 0)], 7);
    let dispatch = handler.interaction_create("start", &[], 1);
    assert_eq!(
        dispatch,
        Dispatch::Connect { server_id: SERVER, channel_id: CHANNEL, release_first: false }
    );
    let report = handler.join_finished(Err(JoinError::Unreachable));
    assert_eq!(report, JoinReport { reply: NOT_JOINED.to_string(), subscribe: Vec::new() });
    assert_eq!(handler.get(), 42);
    let session = handler.session().unwrap();
    assert_eq!(session.state(), ConnectionState::Failed);
    assert!(session.state().terminal());
    assert_eq!(session.subscription_count(), 0);
}

#[test]
fn stop_with_no_active_session_fails_without_change() {
    let mut handler = Handler::new(SERVER, CHANNEL);
    handler.interaction_create("set_target", &[user_option(42, "alice", 0)], 7);
    let dispatch = handler.interaction_create("stop", &[], 1);
    assert_eq!(dispatch, reply(NOT_PLAYING));
    assert!(handler.session().is_none());
    assert_eq!(handler.get(), 42);
    let report = handler.play_finished(Ok(()));
    assert_eq!(report, PlayReport { reply: NOT_PLAYING.to_string(), attach: false });
    assert!(handler.session().is_none());
}

#[test]
fn stop_with_a_connected_session_opens_the_fixed_source() {
    let mut handler = started();
    let dispatch = handler.interaction_create("stop", &[], 1);
    assert_eq!(dispatch, Dispatch::OpenSource { server_id: SERVER, locator: SOURCE.to_string() });
    let report = handler.play_finished(Ok(()));
    assert_eq!(report, PlayReport { reply: PLAYING.to_string(), attach: true });
    assert_eq!(handler.session().unwrap().state(), ConnectionState::Connected);
    assert_eq!(handler.session().unwrap().subscription_count(), 5);
}

#[test]
fn stop_with_an_unopenable_source_fails_and_keeps_the_session() {
    let mut handler = started();
    handler.interaction_create("stop", &[], 1);
    for fault in [SourceFault::Unreachable, SourceFault::Unsupported] {
        let report = handler.play_finished(Err(fault));
        assert_eq!(report, PlayReport { reply: NOT_PLAYING.to_string(), attach: false });
        assert_eq!(handler.session().unwrap().state(), ConnectionState::Connected);
        assert_eq!(handler.session().unwrap().subscription_count(), 5);
    }
}

#[test]
fn stop_after_leave_plays_nothing() {
    let mut handler = started();
    assert_eq!(handler.leave(), LeaveStep::Disconnect { release: true });
    assert_eq!(handler.interaction_create("stop", &[], 1), reply(NOT_PLAYING));
    let report = handler.play_finished(Ok(()));
    assert_eq!(report, PlayReport { reply: NOT_PLAYING.to_string(), attach: false });
    assert_eq!(handler.session().unwrap().state(), ConnectionState::Disconnected);
}

#[test]
fn unknown_command_foo_is_not_implemented() {
    let mut handler = started();
    handler.interaction_create("set_target", &[user_option(42, "alice", 0)], 7);
    let dispatch = handler.interaction_create("foo", &[user_option(1, "bob", 1)], 7);
    assert_eq!(dispatch, reply("not implemented :("));
    assert_eq!(handler.get(), 42);
    assert_eq!(handler.session().unwrap().state(), ConnectionState::Connected);
    assert_eq!(handler.session().unwrap().subscription_count(), 5);
}

#[test]
fn command_names_are_matched_exactly() {
    let mut handler = Handler::new(SERVER, CHANNEL);
    for name in ["", "ID", "Start", "start ", " stop", "set-target", "set_targets", "sto"] {
        let dispatch = handler.interaction_create(name, &[user_option(1, "bob", 1)], 7);
        assert_eq!(dispatch, reply("not implemented :("), "{:?}", name);
        assert_eq!(handler.get(), 0);
        assert!(handler.session().is_none());
    }
}

#[test]
fn id_replies_with_the_caller_and_changes_nothing() {
    let mut handler = Handler::new(SERVER, CHANNEL);
    let dispatch = handler.interaction_create("id", &[user_option(1, "bob", 1)], 701137077168898170);
    assert_eq!(dispatch, reply("701137077168898170"));
    assert_eq!(handler.get(), 0);
    assert!(handler.session().is_none());
}

#[test]
fn ready_advertises_the_four_commands_in_order() {
    let handler = Handler::new(SERVER, CHANNEL);
    let commands = handler.ready();
    let names: Vec<&str> = commands.iter().map(|command| command.name.as_str()).collect();
    assert_eq!(names, vec!["id", "start", "stop", "set_target"]);
    assert!(commands[0].parameters.is_empty());
    assert!(commands[1].parameters.is_empty());
    assert!(commands[2].parameters.is_empty());
    assert_eq!(commands[3].parameters.len(), 1);
    assert_eq!(commands[3].parameters[0].kind, ParameterKind::User);
    assert!(commands[3].parameters[0].required);
}

#[test]
fn every_advertised_command_is_routed() {
    let commands = Handler::new(SERVER, CHANNEL).ready();
    for command in commands {
        let mut handler = Handler::new(SERVER, CHANNEL);
        let dispatch = handler.interaction_create(&command.name, &[user_option(1, "bob", 1)], 7);
        assert_ne!(dispatch, reply("not implemented :("));
    }
}

#[test]
fn voice_events_are_logged_while_connected_only() {
    let event = VoiceEvent::ClientDisconnect { user_id: 5 };
    let mut handler = Handler::new(SERVER, CHANNEL);
    assert_eq!(handler.voice_event(&event), None);
    handler.interaction_create("start", &[], 1);
    assert_eq!(handler.voice_event(&event), None);
    handler.join_finished(Ok(()));
    assert_eq!(
        handler.voice_event(&event),
        Some(vec!["Client disconnected: user UserId(5)".to_string()])
    );
    assert!(handler.remote_disconnect());
    assert_eq!(handler.voice_event(&event), None);
    assert!(!handler.remote_disconnect());
}

#[test]
fn voice_events_do_not_touch_the_followed_user() {
    let mut handler = started();
    handler.interaction_create("set_target", &[user_option(42, "alice", 0)], 7);
    handler.voice_event(&VoiceEvent::ClientDisconnect { user_id: 42 });
    handler.voice_event(&VoiceEvent::SpeakingUpdate { ssrc: 1, speaking: true });
    assert_eq!(handler.get(), 42);
    assert_eq!(handler.session().unwrap().state(), ConnectionState::Connected);
}

#[test]
fn join_and_play_work_on_any_manager() {
    let mut sessions = VoiceSessionManager::new();
    assert_eq!(play(&sessions, 5), reply(NOT_PLAYING));
    assert_eq!(
        join(&mut sessions, 5, 6),
        Dispatch::Connect { server_id: 5, channel_id: 6, release_first: false }
    );
    assert_eq!(play(&sessions, 5), reply(NOT_PLAYING));
    assert_eq!(
        join_finished(&mut sessions, 5, 6, Ok(())),
        JoinReport { reply: JOINED.to_string(), subscribe: EventKind::all() }
    );
    assert_eq!(join(&mut sessions, 5, 6), reply(JOINED));
    assert_eq!(
        join(&mut sessions, 5, 7),
        Dispatch::Connect { server_id: 5, channel_id: 7, release_first: true }
    );
    assert_eq!(
        join_finished(&mut sessions, 5, 7, Err(JoinError::PermissionDenied)),
        JoinReport { reply: NOT_JOINED.to_string(), subscribe: Vec::new() }
    );
    assert_eq!(
        play_finished(&sessions, 5, Ok(())),
        PlayReport { reply: NOT_PLAYING.to_string(), attach: false }
    );
}

#[test]
fn a_superseded_join_reports_failure() {
    let mut sessions = VoiceSessionManager::new();
    assert_eq!(
        join_finished(&mut sessions, 5, 6, Ok(())),
        JoinReport { reply: NOT_JOINED.to_string(), subscribe: Vec::new() }
    );
    assert!(sessions.session(5).is_none());
}
