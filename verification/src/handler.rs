//! The command router. It maps the name of an invoked command to its handler
//! and packages what the handler says into one reply.
//!
//! Two commands need work that is done elsewhere and takes time: `start`
//! connects to a voice channel, `stop` opens an audio source. For these the
//! router answers with the work to do, and gives the reply once it is told how
//! the work ended. Every invocation thus ends in exactly one reply.

use crate::commands::{
    descriptor_views, option_views, CommandDescriptor, CommandDescriptorView, CommandOption,
    CommandOptionView,
};
use crate::commands::id;
use crate::commands::set_target;
use crate::commands::set_target::{confirmation, refusal, requested_user};
use crate::commands::start;
use crate::commands::stop;
use crate::config::Config;
use crate::target::{TargetState, UNSET};
use crate::text::{decimal, same_text, texts};
use crate::voice::event::{kind_of, EventKind, VoiceEvent};
use crate::voice::playback;
use crate::voice::playback::{play_result, SourceFault};
use crate::voice::receiver::report;
use crate::voice::session::{
    after_begin_join, after_close, after_complete_join, connected, delivered, join_result,
    join_step, leave_step, reusable, HandleView, JoinError, JoinStep, LeaveStep,
    VoiceSessionHandle, VoiceSessionManager,
};
use vstd::prelude::*;
use vstd::string::*;

verus! {

/// The reply to `start` when the bot is in the channel.
pub open spec fn joined() -> Seq<char> {
    "Присоединился к каналу"@
}

/// The reply to `start` when the bot could not enter the channel.
pub open spec fn not_joined() -> Seq<char> {
    "Не присоединился к каналу"@
}

/// The reply to `stop` when the source is playing.
pub open spec fn playing() -> Seq<char> {
    "Я"@
}

/// The reply to `stop` when nothing is played.
pub open spec fn not_playing() -> Seq<char> {
    "Я русский ZZZ"@
}

/// The reply to a command that the bot does not know.
pub open spec fn not_implemented() -> Seq<char> {
    "not implemented :("@
}

/// The audio source that `stop` plays.
pub open spec fn fixed_source() -> Seq<char> {
    "D\\mantikora_brain_dos\\mp3\\stream.mp3"@
}

/// What the router answers to an invocation.
#[derive(Debug, PartialEq, Eq)]
pub enum Dispatch {
    /// The reply to send.
    Reply(String),
    /// Connect the server to the voice channel, then call `join_finished` with
    /// the outcome. Where `release_first` is set, release the subscriptions of
    /// the server's earlier connection before.
    Connect { server_id: u64, channel_id: u64, release_first: bool },
    /// Open the audio source for the server's session, then call
    /// `play_finished` with the outcome.
    OpenSource { server_id: u64, locator: String },
}

/// An answer of the router as a mathematical value.
pub ghost enum DispatchView {
    Reply(Seq<char>),
    Connect { server_id: u64, channel_id: u64, release_first: bool },
    OpenSource { server_id: u64, locator: Seq<char> },
}

impl View for Dispatch {
    type V = DispatchView;

    open spec fn view(&self) -> DispatchView {
        match *self {
            Dispatch::Reply(text) => DispatchView::Reply(text@),
            Dispatch::Connect { server_id, channel_id, release_first } => DispatchView::Connect {
                server_id,
                channel_id,
                release_first,
            },
            Dispatch::OpenSource { server_id, locator } => DispatchView::OpenSource {
                server_id,
                locator: locator@,
            },
        }
    }
}

/// How a join ended: the reply to send, and the kinds of voice event to
/// subscribe the new connection to.
#[derive(Debug, PartialEq, Eq)]
pub struct JoinReport {
    pub reply: String,
    pub subscribe: Vec<EventKind>,
}

/// How playing ended: the reply to send, and whether the opened stream is to
/// be attached to the session.
#[derive(Debug, PartialEq, Eq)]
pub struct PlayReport {
    pub reply: String,
    pub attach: bool,
}

/// What `start` answers: the reply at once where the session is there already,
/// else the connection to make.
pub open spec fn join_dispatch(
    sessions: Map<u64, HandleView>,
    server_id: u64,
    channel_id: u64,
) -> DispatchView {
    match join_step(sessions, server_id, channel_id) {
        JoinStep::Reuse => DispatchView::Reply(joined()),
        JoinStep::Connect { release_first } => DispatchView::Connect {
            server_id,
            channel_id,
            release_first,
        },
    }
}

/// What `stop` answers: the source to open where the server's session is
/// connected, else the reply that nothing is played.
pub open spec fn play_dispatch(sessions: Map<u64, HandleView>, server_id: u64) -> DispatchView {
    if connected(sessions, server_id) {
        DispatchView::OpenSource { server_id, locator: fixed_source() }
    } else {
        DispatchView::Reply(not_playing())
    }
}

/// Handles `start` for a server and its voice channel: the first step of the
/// manager's join, with its answer turned into the router's.
pub fn join(sessions: &mut VoiceSessionManager, server_id: u64, channel_id: u64) -> (dispatch:
    Dispatch)
    ensures
        dispatch@ == join_dispatch(old(sessions)@, server_id, channel_id),
        final(sessions)@ == after_begin_join(old(sessions)@, server_id, channel_id),
{
    match sessions.begin_join(server_id, channel_id) {
        JoinStep::Reuse => Dispatch::Reply(String::from_str("Присоединился к каналу")),
        JoinStep::Connect { release_first } => Dispatch::Connect {
            server_id,
            channel_id,
            release_first,
        },
    }
}

/// Ends `start` once the outcome of the connection attempt is known: the
/// second step of the manager's join, with its result turned into a reply.
/// The kinds to subscribe to are those that the manager returned; after a
/// failure there are none.
pub fn join_finished(
    sessions: &mut VoiceSessionManager,
    server_id: u64,
    channel_id: u64,
    outcome: Result<(), JoinError>,
) -> (report: JoinReport)
    ensures
        final(sessions)@ == after_complete_join(old(sessions)@, server_id, channel_id, outcome),
        match join_result(old(sessions)@, server_id, channel_id, outcome) {
            Ok(kinds) => report.reply@ == joined() && report.subscribe@ == kinds,
            Err(_) => report.reply@ == not_joined() && report.subscribe@.len() == 0,
        },
{
    match sessions.complete_join(server_id, channel_id, outcome) {
        Ok(subscribe) => JoinReport {
            reply: String::from_str("Присоединился к каналу"),
            subscribe,
        },
        Err(_) => JoinReport {
            reply: String::from_str("Не присоединился к каналу"),
            subscribe: Vec::new(),
        },
    }
}

/// Handles `stop` for a server: asks for the fixed source to be opened where
/// the server's session is connected. Without a connected session nothing is
/// to be opened, and the reply says that nothing is played.
pub fn play(sessions: &VoiceSessionManager, server_id: u64) -> (dispatch: Dispatch)
    ensures
        dispatch@ == play_dispatch(sessions@, server_id),
{
    match playback::play_on(sessions, server_id, "D\\mantikora_brain_dos\\mp3\\stream.mp3") {
        Ok(request) => Dispatch::OpenSource {
            server_id: request.server_id,
            locator: request.locator,
        },
        Err(_) => Dispatch::Reply(String::from_str("Я русский ZZZ")),
    }
}

/// Ends `stop` once the outcome of opening the source is known. The stream is
/// attached only where it was opened and the server's session is still
/// connected; the reply says which it was. No session is changed.
pub fn play_finished(
    sessions: &VoiceSessionManager,
    server_id: u64,
    opened: Result<(), SourceFault>,
) -> (report: PlayReport)
    ensures
        report.attach == (play_result(sessions@, server_id, opened) is Ok),
        report.reply@ == (if report.attach {
            playing()
        } else {
            not_playing()
        }),
{
    match playback::attach_on(sessions, server_id, opened) {
        Ok(_) => PlayReport { reply: String::from_str("Я"), attach: true },
        Err(_) => PlayReport { reply: String::from_str("Я русский ZZZ"), attach: false },
    }
}

/// The commands that the bot advertises, in the order of registration.
pub open spec fn registry() -> Seq<CommandDescriptorView> {
    seq![id::descriptor(), start::descriptor(), stop::descriptor(), set_target::descriptor()]
}

/// Whether the router has a handler for `name`.
pub open spec fn known(name: Seq<char>) -> bool {
    name == "id"@ || name == "set_target"@ || name == "stop"@ || name == "start"@
}

/// The state of the router as a mathematical value.
pub ghost struct HandlerView {
    pub server_id: u64,
    pub channel_id: u64,
    pub target: u64,
    pub sessions: Map<u64, HandleView>,
}

/// What the router does with an invocation: the state afterwards and the
/// answer. The handler is picked by the exact name; a name without a handler
/// gets the fixed reply and changes nothing.
pub open spec fn routed(
    handler: HandlerView,
    name: Seq<char>,
    options: Seq<CommandOptionView>,
    caller: u64,
) -> (HandlerView, DispatchView) {
    if name == "id"@ {
        (handler, DispatchView::Reply(decimal(caller as nat)))
    } else if name == "set_target"@ {
        match requested_user(options) {
            Ok((id, tag)) => (
                HandlerView { target: id, ..handler },
                DispatchView::Reply(confirmation(tag)),
            ),
            Err(_) => (handler, DispatchView::Reply(refusal())),
        }
    } else if name == "stop"@ {
        (handler, play_dispatch(handler.sessions, handler.server_id))
    } else if name == "start"@ {
        (
            HandlerView {
                sessions: after_begin_join(handler.sessions, handler.server_id, handler.channel_id),
                ..handler
            },
            join_dispatch(handler.sessions, handler.server_id, handler.channel_id),
        )
    } else {
        (handler, DispatchView::Reply(not_implemented()))
    }
}

/// The router with the state that its commands work on: the followed user
/// and the voice sessions, for one server and one voice channel.
#[derive(Debug)]
pub struct Handler {
    server_id: u64,
    channel_id: u64,
    user_id: TargetState,
    sessions: VoiceSessionManager,
}

impl View for Handler {
    type V = HandlerView;

    closed spec fn view(&self) -> HandlerView {
        HandlerView {
            server_id: self.server_id,
            channel_id: self.channel_id,
            target: self.user_id@,
            sessions: self.sessions@,
        }
    }
}

impl Handler {
    /// A router for the given server and voice channel. Nobody is followed yet
    /// and there is no voice session.
    pub fn new(server_id: u64, channel_id: u64) -> (handler: Handler)
        ensures
            handler@ == (HandlerView {
                server_id,
                channel_id,
                target: UNSET,
                sessions: Map::<u64, HandleView>::empty(),
            }),
    {
        Handler {
            server_id,
            channel_id,
            user_id: TargetState::new(),
            sessions: VoiceSessionManager::new(),
        }
    }

    /// A router for the server and the voice channel of a configuration.
    pub fn from_config(config: &Config) -> (handler: Handler)
        ensures
            handler@ == (HandlerView {
                server_id: config.server_id,
                channel_id: config.channel_id,
                target: UNSET,
                sessions: Map::<u64, HandleView>::empty(),
            }),
    {
        Handler::new(config.server_id, config.channel_id)
    }

    /// The server that the router works in.
    pub fn server_id(&self) -> (server_id: u64)
        ensures
            server_id == self@.server_id,
    {
        self.server_id
    }

    /// The voice channel that `start` joins.
    pub fn channel_id(&self) -> (channel_id: u64)
        ensures
            channel_id == self@.channel_id,
    {
        self.channel_id
    }

    /// The identifier of the followed user.
    pub fn get(&self) -> (value: u64)
        ensures
            value == self@.target,
    {
        self.user_id.get()
    }

    /// The voice session of the router's server as it stands now, if there is one.
    pub fn session(&self) -> (found: Option<VoiceSessionHandle>)
        ensures
            match found {
                Some(handle) => self@.sessions.contains_key(self@.server_id) && handle@
                    == self@.sessions[self@.server_id],
                None => !self@.sessions.contains_key(self@.server_id),
            },
    {
        self.sessions.session(self.server_id)
    }

    /// The commands to advertise once the bot is connected, in the order of
    /// registration.
    pub fn ready(&self) -> (commands: Vec<CommandDescriptor>)
        ensures
            descriptor_views(commands@) == registry(),
    {
        let mut commands: Vec<CommandDescriptor> = Vec::new();
        commands.push(id::register());
        commands.push(start::register());
        commands.push(stop::register());
        commands.push(set_target::register());
        assert(descriptor_views(commands@) =~= registry());
        commands
    }

    /// Routes one invocation: the command `name` with its `options`, invoked by
    /// the user `caller`. The answer is the reply, or the work to do before the
    /// reply can be given.
    pub fn interaction_create(&mut self, name: &str, options: &[CommandOption], caller: u64) -> (dispatch:
        Dispatch)
        ensures
            (final(self)@, dispatch@) == routed(old(self)@, name@, option_views(options@), caller),
    {
        if same_text(name, "id") {
            Dispatch::Reply(id::run(caller))
        } else if same_text(name, "set_target") {
            Dispatch::Reply(set_target::run(options, &mut self.user_id))
        } else if same_text(name, "stop") {
            play(&self.sessions, self.server_id)
        } else if same_text(name, "start") {
            join(&mut self.sessions, self.server_id, self.channel_id)
        } else {
            Dispatch::Reply(String::from_str("not implemented :("))
        }
    }

    /// Ends `start`: takes the outcome of the connection attempt that
    /// `interaction_create` asked for.
    pub fn join_finished(&mut self, outcome: Result<(), JoinError>) -> (report: JoinReport)
        ensures
            final(self)@ == (HandlerView {
                sessions: after_complete_join(
                    old(self)@.sessions,
                    old(self)@.server_id,
                    old(self)@.channel_id,
                    outcome,
                ),
                ..old(self)@
            }),
            match join_result(
                old(self)@.sessions,
                old(self)@.server_id,
                old(self)@.channel_id,
                outcome,
            ) {
                Ok(kinds) => report.reply@ == joined() && report.subscribe@ == kinds,
                Err(_) => report.reply@ == not_joined() && report.subscribe@.len() == 0,
            },
    {
        join_finished(&mut self.sessions, self.server_id, self.channel_id, outcome)
    }

    /// Ends `stop`: takes the outcome of opening the source that
    /// `interaction_create` asked for. Nothing in the router changes.
    pub fn play_finished(&self, opened: Result<(), SourceFault>) -> (report: PlayReport)
        ensures
            report.attach == (play_result(self@.sessions, self@.server_id, opened) is Ok),
            report.reply@ == (if report.attach {
                playing()
            } else {
                not_playing()
            }),
    {
        play_finished(&self.sessions, self.server_id, opened)
    }

    /// Leaves the voice channel of the router's server.
    pub fn leave(&mut self) -> (step: LeaveStep)
        ensures
            step == leave_step(old(self)@.sessions, old(self)@.server_id),
            final(self)@ == (HandlerView {
                sessions: after_close(old(self)@.sessions, old(self)@.server_id),
                ..old(self)@
            }),
    {
        self.sessions.leave(self.server_id)
    }

    /// Takes note that the other side closed the voice connection of the
    /// router's server. The result says whether subscriptions are left to
    /// release.
    pub fn remote_disconnect(&mut self) -> (release: bool)
        ensures
            release == connected(old(self)@.sessions, old(self)@.server_id),
            final(self)@ == (HandlerView {
                sessions: after_close(old(self)@.sessions, old(self)@.server_id),
                ..old(self)@
            }),
    {
        self.sessions.remote_disconnect(self.server_id)
    }

    /// Takes a voice event of the router's server and returns the lines to log
    /// for it. An event of a kind that the session is not subscribed to is
    /// dropped; so is every event once the session has ended.
    pub fn voice_event(&self, event: &VoiceEvent) -> (logged: Option<Vec<String>>)
        ensures
            match logged {
                Some(lines) => delivered(self@.sessions, self@.server_id, kind_of(event@))
                    && texts(lines@) == report(event@),
                None => !delivered(self@.sessions, self@.server_id, kind_of(event@)),
            },
    {
        self.sessions.on_event(self.server_id, event)
    }
}

/// The four command names differ from one another.
pub proof fn lemma_command_names_differ()
    ensures
        "id"@ != "set_target"@,
        "id"@ != "stop"@,
        "id"@ != "start"@,
        "set_target"@ != "stop"@,
        "set_target"@ != "start"@,
        "stop"@ != "start"@,
{
    reveal_strlit("id");
    reveal_strlit("start");
    reveal_strlit("stop");
    reveal_strlit("set_target");
    assert("id"@.len() == 2);
    assert("stop"@.len() == 4);
    assert("start"@.len() == 5);
    assert("set_target"@.len() == 10);
}

/// The router has a handler for exactly the commands that are advertised,
/// and no two of these share a name.
pub proof fn law_advertised_commands_are_routed(name: Seq<char>)
    ensures
        known(name) <==> exists|i: int| 0 <= i < registry().len() && #[trigger] registry()[i].name == name,
        forall|i: int, j: int|
            0 <= i < j < registry().len() ==> #[trigger] registry()[i].name != #[trigger] registry()[j].name,
{
    lemma_command_names_differ();
    let commands = registry();
    assert(commands[0].name == "id"@);
    assert(commands[1].name == "start"@);
    assert(commands[2].name == "stop"@);
    assert(commands[3].name == "set_target"@);
}

/// A command that the router does not know gets the fixed reply, and nothing
/// changes.
pub proof fn law_unknown_command_changes_nothing(
    handler: HandlerView,
    name: Seq<char>,
    options: Seq<CommandOptionView>,
    caller: u64,
)
    requires
        !known(name),
    ensures
        routed(handler, name, options, caller) == (handler, DispatchView::Reply(not_implemented())),
{
}

/// `set_target` with a resolved user as its first option makes that user the
/// followed one and confirms it by the display name, in which the reply ends.
/// With anything else the
/// followed user stays and the reply asks for a valid user. The voice sessions
/// are untouched either way.
pub proof fn law_set_target_follows_named_user(
    handler: HandlerView,
    options: Seq<CommandOptionView>,
    caller: u64,
)
    ensures
        ({
            let (after, answer) = routed(handler, "set_target"@, options, caller);
            &&& after.sessions == handler.sessions
            &&& match requested_user(options) {
                Ok((id, tag)) => after.target == id && answer == DispatchView::Reply(
                    confirmation(tag),
                ) && tag.is_suffix_of(confirmation(tag)),
                Err(_) => after == handler && answer == DispatchView::Reply(refusal()),
            }
        }),
{
    lemma_command_names_differ();
}

/// `stop` changes nothing in the router. Without a connected session it asks
/// for nothing to be opened and replies that nothing is played.
pub proof fn law_stop_without_session_plays_nothing(
    handler: HandlerView,
    options: Seq<CommandOptionView>,
    caller: u64,
)
    ensures
        routed(handler, "stop"@, options, caller).0 == handler,
        !connected(handler.sessions, handler.server_id) ==> routed(
            handler,
            "stop"@,
            options,
            caller,
        ).1 == DispatchView::Reply(not_playing()),
{
    lemma_command_names_differ();
}

/// `start` never touches the followed user; what it does to the sessions is
/// the first step of a join for the router's server and channel.
pub proof fn law_start_keeps_followed_user(
    handler: HandlerView,
    options: Seq<CommandOptionView>,
    caller: u64,
)
    ensures
        routed(handler, "start"@, options, caller).0.target == handler.target,
        routed(handler, "start"@, options, caller).0.sessions == after_begin_join(
            handler.sessions,
            handler.server_id,
            handler.channel_id,
        ),
{
    lemma_command_names_differ();
}

/// `start` for a server that is connected to the channel already replies at
/// once that the bot is in the channel: no connection is asked for, nothing is
/// subscribed to, and nothing changes.
pub proof fn law_repeated_start_changes_nothing(
    handler: HandlerView,
    options: Seq<CommandOptionView>,
    caller: u64,
)
    requires
        reusable(handler.sessions, handler.server_id, handler.channel_id),
    ensures
        routed(handler, "start"@, options, caller) == (handler, DispatchView::Reply(joined())),
{
    lemma_command_names_differ();
}

} // verus!
