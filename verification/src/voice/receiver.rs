//! What is logged for each voice event. The receiver looks at the event's kind
//! alone, changes nothing, and hands the lines back to whoever writes the log.

use crate::text::{
    decimal, join_texts, joined, render_decimal, render_padded, render_signed, signed_decimal, texts,
    zero_padded,
};
use crate::voice::event::{SpeakingFlags, VoiceEvent, VoiceEventView};
use vstd::prelude::*;
use vstd::string::*;

verus! {

/// How many samples of an audio packet are shown in the log.
pub const SHOWN_SAMPLES: usize = 5;

/// The size of one decoded sample in bytes.
pub const SAMPLE_BYTES: usize = 2;

/// A user identifier as the log shows it.
pub open spec fn user_text(user_id: u64) -> Seq<char> {
    "UserId("@ + decimal(user_id as nat) + ")"@
}

/// A user identifier that may be missing, as the log shows it.
pub open spec fn optional_user_text(user_id: Option<u64>) -> Seq<char> {
    match user_id {
        Some(id) => "Some("@ + user_text(id) + ")"@,
        None => "None"@,
    }
}

/// The names of the flags that are set, in their fixed order.
pub open spec fn flag_names(flags: SpeakingFlags) -> Seq<Seq<char>> {
    (if flags.microphone {
        seq!["MICROPHONE"@]
    } else {
        Seq::<Seq<char>>::empty()
    }) + (if flags.soundshare {
        seq!["SOUNDSHARE"@]
    } else {
        Seq::<Seq<char>>::empty()
    }) + (if flags.priority {
        seq!["PRIORITY"@]
    } else {
        Seq::<Seq<char>>::empty()
    })
}

/// The flags as the log shows them: the names of those that are set,
/// separated by bars, or a word of its own where none is set.
pub open spec fn flags_text(flags: SpeakingFlags) -> Seq<char> {
    if flag_names(flags).len() == 0 {
        "(empty)"@
    } else {
        joined(flag_names(flags), " | "@)
    }
}

/// Samples as the log shows them: in decimal, separated by a comma and a space.
pub open spec fn joined_samples(samples: Seq<i16>) -> Seq<char> {
    joined(samples.map_values(|sample: i16| signed_decimal(sample as int)), ", "@)
}

/// The samples that are shown of a packet: the first few, or all where there
/// are fewer.
pub open spec fn shown_samples(samples: Seq<i16>) -> Seq<i16> {
    if samples.len() <= SHOWN_SAMPLES {
        samples
    } else {
        samples.subrange(0, SHOWN_SAMPLES as int)
    }
}

/// The size in bytes of the decoded audio of a packet.
pub open spec fn decoded_bytes(samples: Seq<i16>) -> nat {
    samples.len() * SAMPLE_BYTES as nat
}

/// The line for a user who announced how they transmit.
pub open spec fn speaking_state_line(
    user_id: Option<u64>,
    ssrc: u32,
    speaking: SpeakingFlags,
) -> Seq<char> {
    "Speaking state update: user "@ + optional_user_text(user_id) + " has SSRC "@ + decimal(
        ssrc as nat,
    ) + ", using "@ + flags_text(speaking)
}

/// The line for a source that started or stopped transmitting.
pub open spec fn speaking_line(ssrc: u32, speaking: bool) -> Seq<char> {
    "Source "@ + decimal(ssrc as nat) + " has "@ + (if speaking {
        "started"@
    } else {
        "stopped"@
    }) + " speaking."@
}

/// The first line for a decoded audio packet: the samples that are shown.
pub open spec fn samples_line(samples: Seq<i16>) -> Seq<char> {
    "Audio packet's first 5 samples: Some(["@ + joined_samples(shown_samples(samples)) + "])"@
}

/// The second line for a decoded audio packet: its sequence number in five
/// digits, the size of the decoded audio in at least four, the size of the
/// payload as it arrived, and the source.
pub open spec fn audio_line(
    sequence: u16,
    ssrc: u32,
    payload_len: usize,
    samples: Seq<i16>,
) -> Seq<char> {
    "Audio packet sequence "@ + zero_padded(sequence as nat, 5) + " has "@ + zero_padded(
        decoded_bytes(samples),
        4,
    ) + " bytes (decompressed from "@ + decimal(payload_len as nat) + "), SSRC "@ + decimal(
        ssrc as nat,
    )
}

/// The line for an audio packet that was not decoded.
pub open spec fn undecoded_line() -> Seq<char> {
    "RTP packet, but no audio. Driver may not be configured to decode."@
}

/// The line for a control packet.
pub open spec fn control_line(contents: Seq<char>) -> Seq<char> {
    "RTCP packet received: "@ + contents
}

/// The line for a user who left the channel.
pub open spec fn disconnect_line(user_id: u64) -> Seq<char> {
    "Client disconnected: user "@ + user_text(user_id)
}

/// The lines that are logged for an event. Which lines they are depends on the
/// event's kind; what they hold, on what the event carries.
pub open spec fn report(event: VoiceEventView) -> Seq<Seq<char>> {
    match event {
        VoiceEventView::SpeakingStateUpdate { speaker, ssrc, flags } => seq![
            speaking_state_line(speaker, ssrc, flags),
        ],
        VoiceEventView::SpeakingUpdate { ssrc, speaking } => seq![speaking_line(ssrc, speaking)],
        VoiceEventView::AudioPacket { sequence, ssrc, payload_len, audio } => match audio {
            Some(samples) => seq![
                samples_line(samples),
                audio_line(sequence, ssrc, payload_len, samples),
            ],
            None => seq![undecoded_line()],
        },
        VoiceEventView::ControlPacket { contents } => seq![control_line(contents)],
        VoiceEventView::ClientDisconnect { user_id } => seq![disconnect_line(user_id)],
    }
}

fn write_user(text: &mut String, user_id: u64)
    ensures
        final(text)@ == old(text)@ + user_text(user_id),
{
    let number = render_decimal(user_id as u128);
    let ghost before = text@;
    text.append("UserId(");
    text.append(number.as_str());
    text.append(")");
    assert(text@ =~= before + user_text(user_id));
}

fn write_optional_user(text: &mut String, user_id: Option<u64>)
    ensures
        final(text)@ == old(text)@ + optional_user_text(user_id),
{
    let ghost before = text@;
    match user_id {
        Some(id) => {
            text.append("Some(");
            write_user(text, id);
            text.append(")");
        },
        None => {
            text.append("None");
        },
    }
    assert(text@ =~= before + optional_user_text(user_id));
}

fn write_flags(text: &mut String, flags: SpeakingFlags)
    ensures
        final(text)@ == old(text)@ + flags_text(flags),
{
    let mut names: Vec<String> = Vec::new();
    if flags.microphone {
        names.push(String::from_str("MICROPHONE"));
    }
    if flags.soundshare {
        names.push(String::from_str("SOUNDSHARE"));
    }
    if flags.priority {
        names.push(String::from_str("PRIORITY"));
    }
    assert(texts(names@) =~= flag_names(flags));
    if names.len() == 0 {
        text.append("(empty)");
    } else {
        text.append(join_texts(&names, " | ").as_str());
    }
}

fn write_samples(text: &mut String, samples: &Vec<i16>)
    ensures
        final(text)@ == old(text)@ + joined_samples(shown_samples(samples@)),
{
    let count: usize = if samples.len() <= SHOWN_SAMPLES {
        samples.len()
    } else {
        SHOWN_SAMPLES
    };
    let ghost shown = shown_samples(samples@);
    let mut numerals: Vec<String> = Vec::new();
    let mut at: usize = 0;
    while at < count
        invariant
            at <= count,
            count == shown.len(),
            count <= samples.len(),
            shown == shown_samples(samples@),
            numerals@.len() == at,
            forall|i: int| 0 <= i < at ==> (#[trigger] numerals@[i])@ == signed_decimal(shown[i] as int),
        decreases count - at,
    {
        numerals.push(render_signed(samples[at] as i64));
        at = at + 1;
    }
    assert(texts(numerals@) =~= shown.map_values(|sample: i16| signed_decimal(sample as int)));
    text.append(join_texts(&numerals, ", ").as_str());
}

/// How much decoded audio a packet holds.
#[derive(Clone, Copy, Debug, PartialEq, Eq, Structural)]
pub struct AudioStatistics {
    /// The number of samples.
    pub samples: usize,
    /// The size of the samples in bytes.
    pub bytes: u128,
}

/// Counts the decoded audio of a packet.
pub fn audio_statistics(samples: &Vec<i16>) -> (statistics: AudioStatistics)
    ensures
        statistics.samples == samples@.len(),
        statistics.bytes == decoded_bytes(samples@),
{
    let count: u128 = samples.len() as u128;
    let unit: u128 = SAMPLE_BYTES as u128;
    assert(count * unit <= u128::MAX) by (nonlinear_arith)
        requires
            count <= u64::MAX,
            unit == 2,
    ;
    AudioStatistics { samples: samples.len(), bytes: count * unit }
}

/// The one handler for all voice events.
#[derive(Clone, Copy, Debug)]
pub struct Receiver {}

impl Receiver {
    /// A receiver. It holds nothing: what it logs depends on the event alone.
    pub fn new() -> (receiver: Receiver)
        ensures
            receiver == (Receiver {  }),
    {
        Receiver {  }
    }

    /// The lines to log for `event`, in the order in which they are written.
    pub fn act(&self, event: &VoiceEvent) -> (lines: Vec<String>)
        ensures
            texts(lines@) == report(event@),
    {
        let mut lines: Vec<String> = Vec::new();
        match event {
            VoiceEvent::SpeakingStateUpdate { speaker, ssrc, flags } => {
                let mut line = String::from_str("Speaking state update: user ");
                write_optional_user(&mut line, *speaker);
                line.append(" has SSRC ");
                line.append(render_decimal(*ssrc as u128).as_str());
                line.append(", using ");
                write_flags(&mut line, *flags);
                lines.push(line);
            },
            VoiceEvent::SpeakingUpdate { ssrc, speaking } => {
                let mut line = String::from_str("Source ");
                line.append(render_decimal(*ssrc as u128).as_str());
                line.append(" has ");
                if *speaking {
                    line.append("started");
                } else {
                    line.append("stopped");
                }
                line.append(" speaking.");
                lines.push(line);
            },
            VoiceEvent::AudioPacket { sequence, ssrc, payload_len, audio } => {
                match audio {
                    Some(samples) => {
                        let mut first = String::from_str("Audio packet's first 5 samples: Some([");
                        write_samples(&mut first, samples);
                        first.append("])");
                        lines.push(first);
                        let statistics = audio_statistics(samples);
                        let mut second = String::from_str("Audio packet sequence ");
                        second.append(render_padded(*sequence as u128, 5).as_str());
                        second.append(" has ");
                        second.append(render_padded(statistics.bytes, 4).as_str());
                        second.append(" bytes (decompressed from ");
                        second.append(render_decimal(*payload_len as u128).as_str());
                        second.append("), SSRC ");
                        second.append(render_decimal(*ssrc as u128).as_str());
                        lines.push(second);
                    },
                    None => {
                        lines.push(
                            String::from_str(
                                "RTP packet, but no audio. Driver may not be configured to decode.",
                            ),
                        );
                    },
                }
            },
            VoiceEvent::ControlPacket { contents } => {
                let mut line = String::from_str("RTCP packet received: ");
                line.append(contents.as_str());
                lines.push(line);
            },
            VoiceEvent::ClientDisconnect { user_id } => {
                let mut line = String::from_str("Client disconnected: user ");
                write_user(&mut line, *user_id);
                lines.push(line);
            },
        }
        assert(texts(lines@) =~= report(event@));
        lines
    }
}

} // verus!
