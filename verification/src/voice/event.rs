//! The events that a voice session delivers, held as plain values.

use vstd::prelude::*;

verus! {

/// The five kinds of voice event that a session subscribes to.
#[derive(Clone, Copy, Debug, PartialEq, Eq, Structural)]
pub enum EventKind {
    SpeakingStateUpdate,
    SpeakingUpdate,
    AudioPacket,
    ControlPacket,
    ClientDisconnect,
}

/// How a speaker is sending audio.
#[derive(Clone, Copy, Debug, PartialEq, Eq, Structural)]
pub struct SpeakingFlags {
    /// Ordinary voice transmission.
    pub microphone: bool,
    /// Audio that goes with shared video.
    pub soundshare: bool,
    /// Priority speaker.
    pub priority: bool,
}

/// One voice event with what it carries.
#[derive(Debug, PartialEq, Eq)]
pub enum VoiceEvent {
    /// A user announced how they transmit; this ties the user to a source.
    SpeakingStateUpdate { speaker: Option<u64>, ssrc: u32, flags: SpeakingFlags },
    /// A source started or stopped transmitting.
    SpeakingUpdate { ssrc: u32, speaking: bool },
    /// An audio packet. `audio` holds the decoded samples, if the session decodes;
    /// `payload_len` is the size of the packet's payload as it arrived.
    AudioPacket { sequence: u16, ssrc: u32, payload_len: usize, audio: Option<Vec<i16>> },
    /// A control packet, with its contents written out as text.
    ControlPacket { contents: String },
    /// A user left the voice channel.
    ClientDisconnect { user_id: u64 },
}

/// A voice event as a mathematical value.
pub ghost enum VoiceEventView {
    SpeakingStateUpdate { speaker: Option<u64>, ssrc: u32, flags: SpeakingFlags },
    SpeakingUpdate { ssrc: u32, speaking: bool },
    AudioPacket { sequence: u16, ssrc: u32, payload_len: usize, audio: Option<Seq<i16>> },
    ControlPacket { contents: Seq<char> },
    ClientDisconnect { user_id: u64 },
}

impl View for VoiceEvent {
    type V = VoiceEventView;

    open spec fn view(&self) -> VoiceEventView {
        match *self {
            VoiceEvent::SpeakingStateUpdate { speaker, ssrc, flags } => {
                VoiceEventView::SpeakingStateUpdate { speaker, ssrc, flags }
            },
            VoiceEvent::SpeakingUpdate { ssrc, speaking } => VoiceEventView::SpeakingUpdate {
                ssrc,
                speaking,
            },
            VoiceEvent::AudioPacket { sequence, ssrc, payload_len, audio } => {
                VoiceEventView::AudioPacket {
                    sequence,
                    ssrc,
                    payload_len,
                    audio: match audio {
                        Some(samples) => Some(samples@),
                        None => None,
                    },
                }
            },
            VoiceEvent::ControlPacket { contents } => VoiceEventView::ControlPacket {
                contents: contents@,
            },
            VoiceEvent::ClientDisconnect { user_id } => VoiceEventView::ClientDisconnect {
                user_id,
            },
        }
    }
}

/// The kind of an event.
pub open spec fn kind_of(event: VoiceEventView) -> EventKind {
    match event {
        VoiceEventView::SpeakingStateUpdate { .. } => EventKind::SpeakingStateUpdate,
        VoiceEventView::SpeakingUpdate { .. } => EventKind::SpeakingUpdate,
        VoiceEventView::AudioPacket { .. } => EventKind::AudioPacket,
        VoiceEventView::ControlPacket { .. } => EventKind::ControlPacket,
        VoiceEventView::ClientDisconnect { .. } => EventKind::ClientDisconnect,
    }
}

/// The five kinds, in the order in which a session subscribes to them.
pub open spec fn all_kinds() -> Seq<EventKind> {
    seq![
        EventKind::SpeakingStateUpdate,
        EventKind::SpeakingUpdate,
        EventKind::AudioPacket,
        EventKind::ControlPacket,
        EventKind::ClientDisconnect,
    ]
}

impl EventKind {
    /// The five kinds, in the order in which a session subscribes to them.
    pub fn all() -> (kinds: Vec<EventKind>)
        ensures
            kinds@ == all_kinds(),
    {
        let mut kinds: Vec<EventKind> = Vec::new();
        kinds.push(EventKind::SpeakingStateUpdate);
        kinds.push(EventKind::SpeakingUpdate);
        kinds.push(EventKind::AudioPacket);
        kinds.push(EventKind::ControlPacket);
        kinds.push(EventKind::ClientDisconnect);
        assert(kinds@ =~= all_kinds());
        kinds
    }
}

impl VoiceEvent {
    /// The kind of this event.
    pub fn kind(&self) -> (kind: EventKind)
        ensures
            kind == kind_of(self@),
    {
        match self {
            VoiceEvent::SpeakingStateUpdate { .. } => EventKind::SpeakingStateUpdate,
            VoiceEvent::SpeakingUpdate { .. } => EventKind::SpeakingUpdate,
            VoiceEvent::AudioPacket { .. } => EventKind::AudioPacket,
            VoiceEvent::ControlPacket { .. } => EventKind::ControlPacket,
            VoiceEvent::ClientDisconnect { .. } => EventKind::ClientDisconnect,
        }
    }
}

/// Every kind stands in the list of all kinds, and none stands there twice.
pub proof fn law_all_kinds_once_each()
    ensures
        all_kinds().len() == 5,
        all_kinds().no_duplicates(),
        forall|kind: EventKind| all_kinds().contains(kind),
{
    let kinds = all_kinds();
    assert forall|kind: EventKind| kinds.contains(kind) by {
        match kind {
            EventKind::SpeakingStateUpdate => assert(kinds[0] == kind),
            EventKind::SpeakingUpdate => assert(kinds[1] == kind),
            EventKind::AudioPacket => assert(kinds[2] == kind),
            EventKind::ControlPacket => assert(kinds[3] == kind),
            EventKind::ClientDisconnect => assert(kinds[4] == kind),
        }
    }
}

} // verus!
