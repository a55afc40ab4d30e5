//! Playback into a voice session. Opening an audio source happens elsewhere
//! and takes time, so playing is decided in two steps: `play` admits the
//! request and says what to open; `attach` takes the outcome of opening and
//! says whether the opened stream goes to the session.

use crate::voice::session::{connected, HandleView, VoiceSessionHandle, VoiceSessionManager};
use vstd::prelude::*;
use vstd::string::*;

verus! {

/// Why nothing is played.
#[derive(Clone, Copy, Debug, PartialEq, Eq, Structural)]
pub enum PlaybackError {
    /// The session is not connected, so nothing may be played into it.
    NotConnected,
    /// The source could not be reached or opened.
    SourceUnreachable,
    /// The source holds nothing that can be decoded.
    SourceUnsupported,
}

/// Why an audio source could not be opened.
#[derive(Clone, Copy, Debug, PartialEq, Eq, Structural)]
pub enum SourceFault {
    /// The source could not be reached or opened.
    Unreachable,
    /// The source holds nothing that can be decoded.
    Unsupported,
}

/// A source to open for a session.
#[derive(Debug, PartialEq, Eq)]
pub struct PlaybackRequest {
    /// The server whose session the stream is for.
    pub server_id: u64,
    /// Where the audio comes from: a file path or a stream's address.
    pub locator: String,
}

/// Whether audio may be played into a session: only while it is connected.
pub open spec fn playable(session: HandleView) -> bool {
    session.state is Connected
}

/// What becomes of a request once the outcome of opening its source is known.
pub open spec fn attach_result(
    session: HandleView,
    opened: Result<(), SourceFault>,
) -> Result<(), PlaybackError> {
    if !playable(session) {
        Err(PlaybackError::NotConnected)
    } else {
        match opened {
            Ok(_) => Ok(()),
            Err(SourceFault::Unreachable) => Err(PlaybackError::SourceUnreachable),
            Err(SourceFault::Unsupported) => Err(PlaybackError::SourceUnsupported),
        }
    }
}

/// The first step of playing `locator` into `session`. A connected session
/// gets a request to open the source. For any other session the request is
/// refused, and nothing is to be opened.
pub fn play(locator: &str, session: &VoiceSessionHandle) -> (result: Result<
    PlaybackRequest,
    PlaybackError,
>)
    ensures
        match result {
            Ok(request) => playable(session@) && request.server_id == session@.server_id
                && request.locator@ == locator@,
            Err(error) => !playable(session@) && error == PlaybackError::NotConnected,
        },
{
    if session.is_connected() {
        Ok(PlaybackRequest { server_id: session.server_id(), locator: String::from_str(locator) })
    } else {
        Err(PlaybackError::NotConnected)
    }
}

/// The second step of playing: takes the outcome of opening the source. The
/// stream is attached, and `Ok` returned, only where the source was opened
/// and the session is still connected. The session itself is never changed.
pub fn attach(session: &VoiceSessionHandle, opened: Result<(), SourceFault>) -> (result: Result<
    (),
    PlaybackError,
>)
    ensures
        result == attach_result(session@, opened),
{
    if !session.is_connected() {
        return Err(PlaybackError::NotConnected);
    }
    match opened {
        Ok(_) => Ok(()),
        Err(SourceFault::Unreachable) => Err(PlaybackError::SourceUnreachable),
        Err(SourceFault::Unsupported) => Err(PlaybackError::SourceUnsupported),
    }
}

/// What becomes of a request for a server once the outcome of opening its
/// source is known. A server without a session has no connected session.
pub open spec fn play_result(
    sessions: Map<u64, HandleView>,
    server_id: u64,
    opened: Result<(), SourceFault>,
) -> Result<(), PlaybackError> {
    if sessions.contains_key(server_id) {
        attach_result(sessions[server_id], opened)
    } else {
        Err(PlaybackError::NotConnected)
    }
}

/// The first step of playing `locator` into the session of a server: `play`
/// on that session. A server without a session is refused like one whose
/// session is not connected.
pub fn play_on(sessions: &VoiceSessionManager, server_id: u64, locator: &str) -> (result: Result<
    PlaybackRequest,
    PlaybackError,
>)
    ensures
        match result {
            Ok(request) => connected(sessions@, server_id) && request.server_id == server_id
                && request.locator@ == locator@,
            Err(error) => !connected(sessions@, server_id) && error == PlaybackError::NotConnected,
        },
{
    proof {
        use_type_invariant(sessions);
        sessions.lemma_valid();
    }
    match sessions.session(server_id) {
        Some(session) => play(locator, &session),
        None => Err(PlaybackError::NotConnected),
    }
}

/// The second step of playing into the session of a server: `attach` on that
/// session. No session is changed.
pub fn attach_on(
    sessions: &VoiceSessionManager,
    server_id: u64,
    opened: Result<(), SourceFault>,
) -> (result: Result<(), PlaybackError>)
    ensures
        result == play_result(sessions@, server_id, opened),
{
    match sessions.session(server_id) {
        Some(session) => attach(&session, opened),
        None => Err(PlaybackError::NotConnected),
    }
}

/// Nothing is played into a session that is not connected, whatever became
/// of the source; and nothing is played from a source that could not be
/// opened, whatever the session.
pub proof fn law_play_needs_session_and_source(session: HandleView, opened: Result<(), SourceFault>)
    ensures
        !playable(session) ==> attach_result(session, opened) == Err::<(), PlaybackError>(
            PlaybackError::NotConnected,
        ),
        opened is Err ==> attach_result(session, opened) is Err,
        attach_result(session, opened) is Ok <==> playable(session) && opened is Ok,
{
}

} // verus!
