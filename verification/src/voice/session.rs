//! Voice sessions and their manager. A server has at most one session. A
//! session is subscribed to the five kinds of voice event exactly while it is
//! connected: subscribing is what entering that state does, and releasing the
//! subscriptions is what leaving it does.
//!
//! Connecting takes time and happens elsewhere. The manager therefore decides
//! in two steps: before the attempt, whether one is needed at all; after it,
//! what its outcome means for the session.

use crate::voice::event::{all_kinds, kind_of, law_all_kinds_once_each, EventKind, VoiceEvent};
use crate::text::texts;
use crate::voice::receiver::{report, Receiver};
use vstd::prelude::*;

verus! {

/// Where a session stands in its life.
#[derive(Clone, Copy, Debug, PartialEq, Eq, Structural)]
pub enum ConnectionState {
    Connecting,
    Connected,
    Failed,
    Disconnected,
}

impl ConnectionState {
    /// A session that failed or was disconnected has ended.
    pub open spec fn is_terminal(self) -> bool {
        self is Failed || self is Disconnected
    }

    /// Whether a session in this state has ended.
    pub fn terminal(&self) -> (ended: bool)
        ensures
            ended == self.is_terminal(),
    {
        match self {
            ConnectionState::Failed => true,
            ConnectionState::Disconnected => true,
            _ => false,
        }
    }
}

/// Why a voice connection was not established.
#[derive(Clone, Copy, Debug, PartialEq, Eq, Structural)]
pub enum JoinError {
    /// The channel could not be reached.
    Unreachable,
    /// The bot may not enter the channel.
    PermissionDenied,
    /// The transport under the connection failed.
    Transport,
    /// The attempt was overtaken by a later request for the same server.
    Superseded,
}

/// What has to happen outside before a join can be completed.
#[derive(Clone, Copy, Debug, PartialEq, Eq, Structural)]
pub enum JoinStep {
    /// The server's session is already connected to the channel: nothing to do.
    Reuse,
    /// Connect to the channel, and report the outcome. Where `release_first` is
    /// set, the subscriptions of the session that is replaced are released before.
    Connect { release_first: bool },
}

/// What has to happen outside after a session was closed here.
#[derive(Clone, Copy, Debug, PartialEq, Eq, Structural)]
pub enum LeaveStep {
    /// The server has no session that has not ended: nothing to do.
    Idle,
    /// Close the connection. Where `release` is set, the session's subscriptions
    /// are released too.
    Disconnect { release: bool },
}

/// A session as a mathematical value.
pub ghost struct HandleView {
    pub server_id: u64,
    pub channel_id: u64,
    pub state: ConnectionState,
    pub subscriptions: Seq<EventKind>,
}

/// The subscriptions that a session in `state` has.
pub open spec fn subscriptions_in(state: ConnectionState) -> Seq<EventKind> {
    if state is Connected {
        all_kinds()
    } else {
        Seq::<EventKind>::empty()
    }
}

/// A session of `server_id` for `channel_id` in `state`, with the subscriptions
/// that go with the state.
pub open spec fn session_in(server_id: u64, channel_id: u64, state: ConnectionState) -> HandleView {
    HandleView { server_id, channel_id, state, subscriptions: subscriptions_in(state) }
}

/// A session is valid when it is subscribed as its state says.
pub open spec fn handle_valid(handle: HandleView) -> bool {
    handle.subscriptions == subscriptions_in(handle.state)
}

/// The sessions of a manager are valid when each is valid and is filed under
/// its own server.
pub open spec fn sessions_valid(sessions: Map<u64, HandleView>) -> bool {
    forall|server_id: u64| #[trigger]
        sessions.contains_key(server_id) ==> sessions[server_id].server_id == server_id
            && handle_valid(sessions[server_id])
}

/// The server's session is connected to this very channel.
pub open spec fn reusable(sessions: Map<u64, HandleView>, server_id: u64, channel_id: u64) -> bool {
    sessions.contains_key(server_id) && sessions[server_id].state is Connected
        && sessions[server_id].channel_id == channel_id
}

/// The server's session is waiting for the outcome of an attempt on this channel.
pub open spec fn pending(sessions: Map<u64, HandleView>, server_id: u64, channel_id: u64) -> bool {
    sessions.contains_key(server_id) && sessions[server_id].state is Connecting
        && sessions[server_id].channel_id == channel_id
}

/// The server has a session that has not ended.
pub open spec fn live(sessions: Map<u64, HandleView>, server_id: u64) -> bool {
    sessions.contains_key(server_id) && !sessions[server_id].state.is_terminal()
}

/// The server has a connected session.
pub open spec fn connected(sessions: Map<u64, HandleView>, server_id: u64) -> bool {
    sessions.contains_key(server_id) && sessions[server_id].state is Connected
}

/// What a request to join asks of the outside.
pub open spec fn join_step(sessions: Map<u64, HandleView>, server_id: u64, channel_id: u64) -> JoinStep {
    if reusable(sessions, server_id, channel_id) {
        JoinStep::Reuse
    } else {
        JoinStep::Connect { release_first: connected(sessions, server_id) }
    }
}

/// The sessions after a request to join. A session that is connected to the
/// channel stays. Otherwise a session that is connecting takes the server's
/// place, whatever stood there before.
pub open spec fn after_begin_join(
    sessions: Map<u64, HandleView>,
    server_id: u64,
    channel_id: u64,
) -> Map<u64, HandleView> {
    if reusable(sessions, server_id, channel_id) {
        sessions
    } else {
        sessions.insert(server_id, session_in(server_id, channel_id, ConnectionState::Connecting))
    }
}

/// The sessions after the outcome of an attempt is known. It counts only for
/// the session that waits for it: that one becomes connected or failed.
pub open spec fn after_complete_join(
    sessions: Map<u64, HandleView>,
    server_id: u64,
    channel_id: u64,
    outcome: Result<(), JoinError>,
) -> Map<u64, HandleView> {
    if pending(sessions, server_id, channel_id) {
        sessions.insert(
            server_id,
            session_in(
                server_id,
                channel_id,
                if outcome is Ok {
                    ConnectionState::Connected
                } else {
                    ConnectionState::Failed
                },
            ),
        )
    } else {
        sessions
    }
}

/// What the caller of a join is told once the outcome of the attempt is known:
/// the kinds to subscribe to now, or why there is no connection. A failed
/// attempt is reported as it is. A successful one that nothing waits for any
/// more subscribes to nothing: the session it finds connected is subscribed
/// already, and without such a session the attempt was overtaken.
pub open spec fn join_result(
    sessions: Map<u64, HandleView>,
    server_id: u64,
    channel_id: u64,
    outcome: Result<(), JoinError>,
) -> Result<Seq<EventKind>, JoinError> {
    match outcome {
        Err(error) => Err(error),
        Ok(_) => if pending(sessions, server_id, channel_id) {
            Ok(all_kinds())
        } else if reusable(sessions, server_id, channel_id) {
            Ok(Seq::<EventKind>::empty())
        } else {
            Err(JoinError::Superseded)
        },
    }
}

/// The sessions after the server's session was closed, from here or from the
/// other side. A session that has not ended becomes disconnected and loses its
/// subscriptions; anything else stays.
pub open spec fn after_close(sessions: Map<u64, HandleView>, server_id: u64) -> Map<u64, HandleView> {
    if live(sessions, server_id) {
        sessions.insert(
            server_id,
            session_in(server_id, sessions[server_id].channel_id, ConnectionState::Disconnected),
        )
    } else {
        sessions
    }
}

/// What leaving asks of the outside.
pub open spec fn leave_step(sessions: Map<u64, HandleView>, server_id: u64) -> LeaveStep {
    if live(sessions, server_id) {
        LeaveStep::Disconnect { release: connected(sessions, server_id) }
    } else {
        LeaveStep::Idle
    }
}

/// Whether an event that arrives for the server is handed on: only where the
/// server's session is subscribed to the event's kind.
pub open spec fn delivered(sessions: Map<u64, HandleView>, server_id: u64, kind: EventKind) -> bool {
    sessions.contains_key(server_id) && sessions[server_id].subscriptions.contains(kind)
}

/// One voice session: the connection of one server to one voice channel.
#[derive(Debug)]
pub struct VoiceSessionHandle {
    server_id: u64,
    channel_id: u64,
    state: ConnectionState,
    subscriptions: Vec<EventKind>,
}

impl View for VoiceSessionHandle {
    type V = HandleView;

    closed spec fn view(&self) -> HandleView {
        HandleView {
            server_id: self.server_id,
            channel_id: self.channel_id,
            state: self.state,
            subscriptions: self.subscriptions@,
        }
    }
}

impl VoiceSessionHandle {
    /// What holds of every session: it is subscribed as its state says.
    #[verifier::type_invariant]
    pub closed spec fn well_formed(self) -> bool {
        handle_valid(self@)
    }

    /// A session is valid.
    pub proof fn lemma_valid(self)
        requires
            self.well_formed(),
        ensures
            handle_valid(self@),
    {
    }

    fn new_in(server_id: u64, channel_id: u64, state: ConnectionState) -> (handle: Self)
        ensures
            handle@ == session_in(server_id, channel_id, state),
    {
        let subscriptions = match state {
            ConnectionState::Connected => EventKind::all(),
            _ => Vec::new(),
        };
        VoiceSessionHandle { server_id, channel_id, state, subscriptions }
    }

    /// The server that this session belongs to.
    pub fn server_id(&self) -> (server_id: u64)
        ensures
            server_id == self@.server_id,
    {
        self.server_id
    }

    /// The voice channel that this session is for.
    pub fn channel_id(&self) -> (channel_id: u64)
        ensures
            channel_id == self@.channel_id,
    {
        self.channel_id
    }

    /// Where the session stands.
    pub fn state(&self) -> (state: ConnectionState)
        ensures
            state == self@.state,
    {
        self.state
    }

    /// Whether the session is connected.
    pub fn is_connected(&self) -> (yes: bool)
        ensures
            yes == (self@.state is Connected),
    {
        match self.state {
            ConnectionState::Connected => true,
            _ => false,
        }
    }

    /// How many subscriptions the session has.
    pub fn subscription_count(&self) -> (count: usize)
        ensures
            count == self@.subscriptions.len(),
            count == (if self@.state is Connected {
                5nat
            } else {
                0nat
            }),
    {
        proof {
            use_type_invariant(self);
        }
        self.subscriptions.len()
    }

    /// Whether the session is subscribed to events of `kind`.
    pub fn is_subscribed(&self, kind: EventKind) -> (yes: bool)
        ensures
            yes == self@.subscriptions.contains(kind),
    {
        let mut at: usize = 0;
        while at < self.subscriptions.len()
            invariant
                at <= self.subscriptions.len(),
                forall|i: int| 0 <= i < at ==> self.subscriptions@[i] != kind,
            decreases self.subscriptions.len() - at,
        {
            if self.subscriptions[at] == kind {
                return true;
            }
            at = at + 1;
        }
        false
    }

    /// A copy of the session as it stands now.
    pub fn snapshot(&self) -> (copy: VoiceSessionHandle)
        ensures
            copy@ == self@,
    {
        proof {
            use_type_invariant(self);
        }
        VoiceSessionHandle::new_in(self.server_id, self.channel_id, self.state)
    }
}

/// The sessions of all servers.
#[derive(Debug)]
pub struct VoiceSessionManager {
    handles: Vec<VoiceSessionHandle>,
}

impl View for VoiceSessionManager {
    type V = Map<u64, HandleView>;

    closed spec fn view(&self) -> Map<u64, HandleView> {
        Map::new(|server_id: u64| self.holds(server_id), |server_id: u64| self.handles@[self.place(server_id)]@)
    }
}

impl VoiceSessionManager {
    spec fn holds(self, server_id: u64) -> bool {
        exists|i: int| 0 <= i < self.handles@.len() && (#[trigger] self.handles@[i]).server_id == server_id
    }

    spec fn place(self, server_id: u64) -> int {
        choose|i: int| 0 <= i < self.handles@.len() && (#[trigger] self.handles@[i]).server_id == server_id
    }

    /// What holds of every manager: each session is subscribed as its state
    /// says, and no two sessions belong to one server.
    #[verifier::type_invariant]
    pub closed spec fn well_formed(self) -> bool {
        &&& forall|i: int| 0 <= i < self.handles@.len() ==> (#[trigger] self.handles@[i]).well_formed()
        &&& forall|i: int, j: int|
            0 <= i < j < self.handles@.len() ==> (#[trigger] self.handles@[i]).server_id != (
            #[trigger] self.handles@[j]).server_id
    }

    proof fn lemma_filed(self, i: int)
        requires
            self.well_formed(),
            0 <= i < self.handles@.len(),
        ensures
            self@.contains_key(self.handles@[i].server_id),
            self@[self.handles@[i].server_id] == self.handles@[i]@,
    {
        let server_id = self.handles@[i].server_id;
        assert(self.holds(server_id));
        let at = self.place(server_id);
        assert(at == i);
    }

    /// The sessions of a manager are valid. A caller that holds a manager
    /// learns that it is well formed from its type.
    pub proof fn lemma_valid(self)
        requires
            self.well_formed(),
        ensures
            sessions_valid(self@),
    {
        assert forall|server_id: u64| #[trigger] self@.contains_key(server_id) implies self@[server_id].server_id
            == server_id && handle_valid(self@[server_id]) by {
            let at = self.place(server_id);
            assert(self.handles@[at].well_formed());
        }
    }

    /// A manager without sessions.
    pub fn new() -> (manager: VoiceSessionManager)
        ensures
            manager@ == Map::<u64, HandleView>::empty(),
    {
        let manager = VoiceSessionManager { handles: Vec::new() };
        assert(manager@ =~= Map::<u64, HandleView>::empty());
        manager
    }

    fn find(&self, server_id: u64) -> (at: Option<usize>)
        ensures
            self.well_formed(),
            sessions_valid(self@),
            match at {
                Some(i) => i < self.handles@.len() && self.handles@[i as int].server_id == server_id
                    && self@.contains_key(server_id) && self@[server_id] == self.handles@[i as int]@,
                None => !self@.contains_key(server_id),
            },
    {
        proof {
            use_type_invariant(self);
            self.lemma_valid();
        }
        let mut at: usize = 0;
        while at < self.handles.len()
            invariant
                self.well_formed(),
                at <= self.handles@.len(),
                forall|i: int| 0 <= i < at ==> (#[trigger] self.handles@[i]).server_id != server_id,
            decreases self.handles@.len() - at,
        {
            if self.handles[at].server_id == server_id {
                proof {
                    self.lemma_filed(at as int);
                }
                return Some(at);
            }
            at = at + 1;
        }
        None
    }

    /// Files `handle` under its server, in place of what stood there.
    fn put(&mut self, handle: VoiceSessionHandle)
        ensures
            final(self)@ == old(self)@.insert(handle@.server_id, handle@),
    {
        let ghost before = *self;
        let ghost filed = handle@;
        let server_id = handle.server_id;
        proof {
            use_type_invariant(&handle);
        }
        match self.find(server_id) {
            Some(at) => {
                // The list is taken out, changed and put back, so that the
                // manager is whole at every step.
                let mut handles: Vec<VoiceSessionHandle> = Vec::new();
                std::mem::swap(&mut self.handles, &mut handles);
                handles.set(at, handle);
                self.handles = handles;
                proof {
                    let after = *self;
                    assert forall|s: u64| after@.contains_key(s) == before@.insert(
                        server_id,
                        filed,
                    ).contains_key(s) by {
                        if before.holds(s) {
                            let i = before.place(s);
                            assert(after.handles@[i].server_id == s);
                        }
                        if after.holds(s) {
                            let i = after.place(s);
                            assert(before.handles@[i].server_id == s);
                        }
                        if s == server_id {
                            assert(after.handles@[at as int].server_id == s);
                        }
                    }
                    assert forall|s: u64| after@.contains_key(s) implies after@[s] == before@.insert(
                        server_id,
                        filed,
                    )[s] by {
                        let i = after.place(s);
                        after.lemma_filed(i);
                        if i != at {
                            before.lemma_filed(i);
                        }
                    }
                    assert(after@ =~= before@.insert(server_id, filed));
                }
            },
            None => {
                let mut handles: Vec<VoiceSessionHandle> = Vec::new();
                std::mem::swap(&mut self.handles, &mut handles);
                handles.push(handle);
                self.handles = handles;
                proof {
                    let after = *self;
                    let last = before.handles@.len() as int;
                    assert forall|s: u64| after@.contains_key(s) == before@.insert(
                        server_id,
                        filed,
                    ).contains_key(s) by {
                        if before.holds(s) {
                            let i = before.place(s);
                            assert(after.handles@[i].server_id == s);
                        }
                        if after.holds(s) {
                            let i = after.place(s);
                            if i < last {
                                assert(before.handles@[i].server_id == s);
                            }
                        }
                        if s == server_id {
                            assert(after.handles@[last].server_id == s);
                        }
                    }
                    assert forall|s: u64| after@.contains_key(s) implies after@[s] == before@.insert(
                        server_id,
                        filed,
                    )[s] by {
                        let i = after.place(s);
                        after.lemma_filed(i);
                        if i < last {
                            before.lemma_filed(i);
                        }
                    }
                    assert(after@ =~= before@.insert(server_id, filed));
                }
            },
        }
    }

    /// The server's session as it stands now, if the server has one.
    pub fn session(&self, server_id: u64) -> (found: Option<VoiceSessionHandle>)
        ensures
            match found {
                Some(handle) => self@.contains_key(server_id) && handle@ == self@[server_id],
                None => !self@.contains_key(server_id),
            },
    {
        match self.find(server_id) {
            Some(at) => Some(self.handles[at].snapshot()),
            None => None,
        }
    }

    /// The first step of a join: decides whether a connection attempt is needed.
    /// A session that is connected to `channel_id` already is kept as it is.
    /// Otherwise the server gets a session that is connecting, in place of any
    /// that it had, and the attempt is asked for.
    pub fn begin_join(&mut self, server_id: u64, channel_id: u64) -> (step: JoinStep)
        ensures
            step == join_step(old(self)@, server_id, channel_id),
            final(self)@ == after_begin_join(old(self)@, server_id, channel_id),
    {
        let release_first = match self.find(server_id) {
            Some(at) => {
                if self.handles[at].is_connected() {
                    if self.handles[at].channel_id == channel_id {
                        return JoinStep::Reuse;
                    }
                    true
                } else {
                    false
                }
            },
            None => false,
        };
        self.put(VoiceSessionHandle::new_in(server_id, channel_id, ConnectionState::Connecting));
        JoinStep::Connect { release_first }
    }

    /// The second step of a join: takes the outcome of the connection attempt.
    /// Where the server's session waits for it, the session becomes connected and
    /// the five kinds to subscribe to are returned, or it becomes failed and the
    /// error is returned. Otherwise no session changes.
    pub fn complete_join(
        &mut self,
        server_id: u64,
        channel_id: u64,
        outcome: Result<(), JoinError>,
    ) -> (result: Result<Vec<EventKind>, JoinError>)
        ensures
            final(self)@ == after_complete_join(old(self)@, server_id, channel_id, outcome),
            match join_result(old(self)@, server_id, channel_id, outcome) {
                Ok(kinds) => result matches Ok(list) && list@ == kinds,
                Err(error) => result == Err::<Vec<EventKind>, JoinError>(error),
            },
    {
        let found = self.find(server_id);
        let waiting = match found {
            Some(at) => match self.handles[at].state {
                ConnectionState::Connecting => self.handles[at].channel_id == channel_id,
                _ => false,
            },
            None => false,
        };
        let reuse = match found {
            Some(at) => self.handles[at].is_connected() && self.handles[at].channel_id
                == channel_id,
            None => false,
        };
        match outcome {
            Ok(_) => {
                if waiting {
                    self.put(
                        VoiceSessionHandle::new_in(server_id, channel_id, ConnectionState::Connected),
                    );
                    Ok(EventKind::all())
                } else if reuse {
                    Ok(Vec::new())
                } else {
                    Err(JoinError::Superseded)
                }
            },
            Err(error) => {
                if waiting {
                    self.put(
                        VoiceSessionHandle::new_in(server_id, channel_id, ConnectionState::Failed),
                    );
                }
                Err(error)
            },
        }
    }

    fn close(&mut self, server_id: u64) -> (step: LeaveStep)
        ensures
            step == leave_step(old(self)@, server_id),
            final(self)@ == after_close(old(self)@, server_id),
    {
        let found = self.find(server_id);
        match found {
            Some(at) => {
                if self.handles[at].state.terminal() {
                    LeaveStep::Idle
                } else {
                    let release = self.handles[at].is_connected();
                    let channel_id = self.handles[at].channel_id;
                    self.put(
                        VoiceSessionHandle::new_in(
                            server_id,
                            channel_id,
                            ConnectionState::Disconnected,
                        ),
                    );
                    LeaveStep::Disconnect { release }
                }
            },
            None => LeaveStep::Idle,
        }
    }

    /// Leaves the server's voice channel. A session that has not ended becomes
    /// disconnected and loses its subscriptions; the step says what to undo
    /// outside. Without such a session nothing changes.
    pub fn leave(&mut self, server_id: u64) -> (step: LeaveStep)
        ensures
            step == leave_step(old(self)@, server_id),
            final(self)@ == after_close(old(self)@, server_id),
    {
        self.close(server_id)
    }

    /// Takes note that the other side closed the server's connection. The
    /// session changes as in `leave`. The result says whether subscriptions are
    /// left to release outside.
    pub fn remote_disconnect(&mut self, server_id: u64) -> (release: bool)
        ensures
            release == connected(old(self)@, server_id),
            final(self)@ == after_close(old(self)@, server_id),
    {
        match self.close(server_id) {
            LeaveStep::Disconnect { release } => release,
            LeaveStep::Idle => false,
        }
    }

    /// Takes a voice event that arrived for the server. It is handed to the
    /// receiver, and the lines to log come back, only where the server's session
    /// is subscribed to the event's kind. Any other event is dropped.
    pub fn on_event(&self, server_id: u64, event: &VoiceEvent) -> (logged: Option<Vec<String>>)
        ensures
            match logged {
                Some(lines) => delivered(self@, server_id, kind_of(event@)) && texts(lines@)
                    == report(event@),
                None => !delivered(self@, server_id, kind_of(event@)),
            },
    {
        match self.find(server_id) {
            Some(at) => {
                if self.handles[at].is_subscribed(event.kind()) {
                    Some(Receiver::new().act(event))
                } else {
                    None
                }
            },
            None => None,
        }
    }
}

/// Every step of the manager leaves valid sessions valid.
pub proof fn law_steps_keep_sessions_valid(
    sessions: Map<u64, HandleView>,
    server_id: u64,
    channel_id: u64,
    outcome: Result<(), JoinError>,
)
    requires
        sessions_valid(sessions),
    ensures
        sessions_valid(after_begin_join(sessions, server_id, channel_id)),
        sessions_valid(after_complete_join(sessions, server_id, channel_id, outcome)),
        sessions_valid(after_close(sessions, server_id)),
{
    let begun = after_begin_join(sessions, server_id, channel_id);
    assert forall|s: u64| #[trigger] begun.contains_key(s) implies begun[s].server_id == s
        && handle_valid(begun[s]) by {
        if s != server_id {
            assert(sessions.contains_key(s));
        }
    }
    let completed = after_complete_join(sessions, server_id, channel_id, outcome);
    assert forall|s: u64| #[trigger] completed.contains_key(s) implies completed[s].server_id == s
        && handle_valid(completed[s]) by {
        if s != server_id {
            assert(sessions.contains_key(s));
        }
    }
    let closed = after_close(sessions, server_id);
    assert forall|s: u64| #[trigger] closed.contains_key(s) implies closed[s].server_id == s
        && handle_valid(closed[s]) by {
        if s != server_id {
            assert(sessions.contains_key(s));
        }
    }
}

/// Joining the same channel twice in a row gives the server one connected
/// session with the five subscriptions, each once. The second join asks for
/// no connection, changes nothing and subscribes to nothing, so that there
/// are five subscriptions after it and not ten. Other servers' sessions are as
/// they were.
pub proof fn law_second_join_reuses_session(
    sessions: Map<u64, HandleView>,
    server_id: u64,
    channel_id: u64,
)
    requires
        sessions_valid(sessions),
    ensures
        ({
            let begun = after_begin_join(sessions, server_id, channel_id);
            let first = after_complete_join(begun, server_id, channel_id, Ok(()));
            let again = after_begin_join(first, server_id, channel_id);
            let second = after_complete_join(again, server_id, channel_id, Ok(()));
            &&& reusable(first, server_id, channel_id)
            &&& live(second, server_id)
            &&& first[server_id].subscriptions == all_kinds()
            &&& first[server_id].subscriptions.len() == 5
            &&& first[server_id].subscriptions.no_duplicates()
            &&& join_step(first, server_id, channel_id) == JoinStep::Reuse
            &&& join_result(again, server_id, channel_id, Ok(())) == Ok::<
                Seq<EventKind>,
                JoinError,
            >(Seq::<EventKind>::empty())
            &&& again == first
            &&& second == first
            &&& forall|other: u64|
                other != server_id ==> second.contains_key(other) == sessions.contains_key(other)
                    && (sessions.contains_key(other) ==> second[other] == sessions[other])
        }),
{
    law_all_kinds_once_each();
}

/// A join whose connection attempt fails returns the error of the attempt and
/// leaves the server with a session that has failed: it has ended, and it has
/// no subscriptions. Other servers' sessions are as they were.
pub proof fn law_failed_join_ends_session(
    sessions: Map<u64, HandleView>,
    server_id: u64,
    channel_id: u64,
    error: JoinError,
)
    requires
        sessions_valid(sessions),
        join_step(sessions, server_id, channel_id) is Connect,
    ensures
        ({
            let begun = after_begin_join(sessions, server_id, channel_id);
            let failed = after_complete_join(begun, server_id, channel_id, Err(error));
            &&& join_result(begun, server_id, channel_id, Err(error)) == Err::<
                Seq<EventKind>,
                JoinError,
            >(error)
            &&& failed.contains_key(server_id)
            &&& failed[server_id].state is Failed
            &&& failed[server_id].state.is_terminal()
            &&& failed[server_id].subscriptions.len() == 0
            &&& !live(failed, server_id)
            &&& forall|other: u64|
                other != server_id ==> failed.contains_key(other) == sessions.contains_key(other)
                    && (sessions.contains_key(other) ==> failed[other] == sessions[other])
        }),
{
}

/// Once a session was closed, no event for its server is handed on any more,
/// whatever its kind.
pub proof fn law_closed_session_hears_nothing(
    sessions: Map<u64, HandleView>,
    server_id: u64,
    kind: EventKind,
)
    requires
        sessions_valid(sessions),
    ensures
        !delivered(after_close(sessions, server_id), server_id, kind),
        after_close(sessions, server_id).contains_key(server_id) ==> after_close(
            sessions,
            server_id,
        )[server_id].state.is_terminal(),
{
    let closed = after_close(sessions, server_id);
    if closed.contains_key(server_id) {
        assert(closed[server_id].subscriptions =~= Seq::<EventKind>::empty());
    }
}

/// A connected session hears events of all five kinds, and only a connected
/// session hears any.
pub proof fn law_connected_session_hears_all(
    sessions: Map<u64, HandleView>,
    server_id: u64,
    kind: EventKind,
)
    requires
        sessions_valid(sessions),
    ensures
        delivered(sessions, server_id, kind) <==> connected(sessions, server_id),
{
    law_all_kinds_once_each();
}

} // verus!
