use voice_bot::voice::event::{EventKind, SpeakingFlags, VoiceEvent};
use voice_bot::voice::receiver::{audio_statistics, AudioStatistics, Receiver};

fn flags(microphone: bool, soundshare: bool, priority: bool) -> SpeakingFlags {
    SpeakingFlags { microphone, soundshare, priority }
}

fn audio(sequence: u16, ssrc: u32, payload_len: usize, samples: Option<Vec<i16>>) -> VoiceEvent {
    VoiceEvent::AudioPacket { sequence, ssrc, payload_len, audio: samples }
}

#[test]
fn speaking_state_update_names_user_source_and_flags() {
    let event = VoiceEvent::SpeakingStateUpdate {
        speaker: Some(42),
        ssrc: 1234,
        flags: flags(true, false, false),
    };
    assert_eq!(
        Receiver::new().act(&event),
        vec!["Speaking state update: user Some(UserId(42)) has SSRC 1234, using MICROPHONE".to_string()]
    );
}

#[test]
fn speaking_state_update_without_user() {
    let event =
        VoiceEvent::SpeakingStateUpdate { speaker: None, ssrc: 0, flags: flags(false, false, false) };
    assert_eq!(
        Receiver::new().act(&event),
        vec!["Speaking state update: user None has SSRC 0, using (empty)".to_string()]
    );
}

#[test]
fn flags_are_joined_by_bars_in_fixed_order() {
    let cases = vec![
        (flags(false, false, false), "(empty)"),
        (flags(true, false, false), "MICROPHONE"),
        (flags(false, true, false), "SOUNDSHARE"),
        (flags(false, false, true), "PRIORITY"),
        (flags(true, true, false), "MICROPHONE | SOUNDSHARE"),
        (flags(true, false, true), "MICROPHONE | PRIORITY"),
        (flags(false, true, true), "SOUNDSHARE | PRIORITY"),
        (flags(true, true, true), "MICROPHONE | SOUNDSHARE | PRIORITY"),
    ];
    for (set, text) in cases {
        let event = VoiceEvent::SpeakingStateUpdate { speaker: Some(1), ssrc: 2, flags: set };
        assert_eq!(
            Receiver::new().act(&event),
            vec![format!("Speaking state update: user Some(UserId(1)) has SSRC 2, using {}", text)]
        );
    }
}

#[test]
fn speaking_update_says_started_or_stopped() {
    let started = VoiceEvent::SpeakingUpdate { ssrc: 77, speaking: true };
    assert_eq!(Receiver::new().act(&started), vec!["Source 77 has started speaking.".to_string()]);
    let stopped = VoiceEvent::SpeakingUpdate { ssrc: u32::MAX, speaking: false };
    assert_eq!(
        Receiver::new().act(&stopped),
        vec!["Source 4294967295 has stopped speaking.".to_string()]
    );
}

#[test]
fn audio_packet_shows_first_five_samples_and_sizes() {
    let samples: Vec<i16> = vec![1, -2, 3, -4, 5, 6, 7];
    let lines = Receiver::new().act(&audio(9, 1234, 60, Some(samples)));
    assert_eq!(
        lines,
        vec![
            "Audio packet's first 5 samples: Some([1, -2, 3, -4, 5])".to_string(),
            "Audio packet sequence 00009 has 0014 bytes (decompressed from 60), SSRC 1234".to_string(),
        ]
    );
}

#[test]
fn audio_packet_with_fewer_than_five_samples_shows_all() {
    let lines = Receiver::new().act(&audio(65535, 1, 0, Some(vec![i16::MIN, i16::MAX])));
    assert_eq!(
        lines,
        vec![
            "Audio packet's first 5 samples: Some([-32768, 32767])".to_string(),
            "Audio packet sequence 65535 has 0004 bytes (decompressed from 0), SSRC 1".to_string(),
        ]
    );
    let lines = Receiver::new().act(&audio(0, 0, 3, Some(vec![0])));
    assert_eq!(
        lines,
        vec![
            "Audio packet's first 5 samples: Some([0])".to_string(),
            "Audio packet sequence 00000 has 0002 bytes (decompressed from 3), SSRC 0".to_string(),
        ]
    );
}

#[test]
fn audio_packet_with_exactly_five_samples() {
    let lines = Receiver::new().act(&audio(1, 2, 3, Some(vec![10, 20, 30, 40, 50])));
    assert_eq!(lines[0], "Audio packet's first 5 samples: Some([10, 20, 30, 40, 50])");
    assert_eq!(lines[1], "Audio packet sequence 00001 has 0010 bytes (decompressed from 3), SSRC 2");
}

#[test]
fn audio_packet_that_arrived_out_of_order_has_no_samples() {
    let lines = Receiver::new().act(&audio(12, 5, 40, Some(Vec::new())));
    assert_eq!(
        lines,
        vec![
            "Audio packet's first 5 samples: Some([])".to_string(),
            "Audio packet sequence 00012 has 0000 bytes (decompressed from 40), SSRC 5".to_string(),
        ]
    );
}

#[test]
fn audio_packet_of_a_full_frame() {
    let samples: Vec<i16> = (0..1920).map(|i| (i % 7) as i16 - 3).collect();
    let lines = Receiver::new().act(&audio(300, 99, 120, Some(samples.clone())));
    assert_eq!(
        lines[0],
        format!("Audio packet's first 5 samples: {:?}", samples.get(..5.min(samples.len())))
    );
    assert_eq!(
        lines[1],
        format!(
            "Audio packet sequence {:05} has {:04} bytes (decompressed from {}), SSRC {}",
            300,
            samples.len() * std::mem::size_of::<i16>(),
            120,
            99
        )
    );
    assert_eq!(lines[1], "Audio packet sequence 00300 has 3840 bytes (decompressed from 120), SSRC 99");
}

#[test]
fn audio_packet_without_decoded_audio() {
    assert_eq!(
        Receiver::new().act(&audio(1, 2, 3, None)),
        vec!["RTP packet, but no audio. Driver may not be configured to decode.".to_string()]
    );
}

#[test]
fn control_packet_shows_its_contents() {
    let event = VoiceEvent::ControlPacket { contents: "ReceiverReport(..)".to_string() };
    assert_eq!(
        Receiver::new().act(&event),
        vec!["RTCP packet received: ReceiverReport(..)".to_string()]
    );
    let event = VoiceEvent::ControlPacket { contents: String::new() };
    assert_eq!(Receiver::new().act(&event), vec!["RTCP packet received: ".to_string()]);
}

#[test]
fn client_disconnect_names_the_user() {
    let event = VoiceEvent::ClientDisconnect { user_id: 701137077168898170 };
    assert_eq!(
        Receiver::new().act(&event),
        vec!["Client disconnected: user UserId(701137077168898170)".to_string()]
    );
}

#[test]
fn each_event_has_its_kind() {
    let none = flags(false, false, false);
    assert_eq!(
        VoiceEvent::SpeakingStateUpdate { speaker: None, ssrc: 0, flags: none }.kind(),
        EventKind::SpeakingStateUpdate
    );
    assert_eq!(VoiceEvent::SpeakingUpdate { ssrc: 0, speaking: true }.kind(), EventKind::SpeakingUpdate);
    assert_eq!(audio(0, 0, 0, None).kind(), EventKind::AudioPacket);
    assert_eq!(
        VoiceEvent::ControlPacket { contents: String::new() }.kind(),
        EventKind::ControlPacket
    );
    assert_eq!(VoiceEvent::ClientDisconnect { user_id: 0 }.kind(), EventKind::ClientDisconnect);
}

#[test]
fn all_kinds_are_five_and_differ() {
    let kinds = EventKind::all();
    assert_eq!(
        kinds,
        vec![
            EventKind::SpeakingStateUpdate,
            EventKind::SpeakingUpdate,
            EventKind::AudioPacket,
            EventKind::ControlPacket,
            EventKind::ClientDisconnect,
        ]
    );
    for i in 0..kinds.len() {
        for j in 0..i {
            assert_ne!(kinds[i], kinds[j]);
        }
    }
}

#[test]
fn the_receiver_answers_the_same_each_time() {
    let receiver = Receiver::new();
    let event = VoiceEvent::SpeakingUpdate { ssrc: 5, speaking: true };
    assert_eq!(receiver.act(&event), receiver.act(&event));
}

#[test]
fn statistics_count_samples_and_bytes() {
    assert_eq!(audio_statistics(&Vec::new()), AudioStatistics { samples: 0, bytes: 0 });
    assert_eq!(audio_statistics(&vec![1, 2, 3]), AudioStatistics { samples: 3, bytes: 6 });
    let frame: Vec<i16> = vec![0; 1920];
    assert_eq!(audio_statistics(&frame), AudioStatistics { samples: 1920, bytes: 3840 });
}
