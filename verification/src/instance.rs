//! One connection instance: a target server, a running flag, the queue of
//! messages waiting to be sent, and, while connected, the task that runs the
//! connection. Starting and stopping are explicit, and every way of stopping
//! says which layer found the instance not connected.

use crate::controller::AuthProtocol;
use crate::ident::{to_text, uuid_text, Uuid};
use crate::network::ConnectionHandle;
use crate::server::Server;
use crate::task::{abort_task, AbortedTask};
use crate::version::Version;
use std::collections::VecDeque;
use tokio::task::JoinHandle;
use vstd::prelude::*;
use vstd::string::StringExecFns;

verus! {

/// The layer that found an instance not connected.
#[derive(Debug, Clone, Copy, PartialEq, Eq, Structural)]
pub enum StateSource {
    /// The running flag.
    Client,
    /// The task slot.
    Thread,
    /// The connection handle.
    Handle,
}

impl StateSource {
    /// The name of this layer.
    pub open spec fn name(&self) -> Seq<char> {
        match self {
            StateSource::Client => "client"@,
            StateSource::Thread => "thread"@,
            StateSource::Handle => "handle"@,
        }
    }

    /// The name of this layer.
    pub fn to_string(&self) -> (text: String)
        ensures
            text@ == self.name(),
    {
        match self {
            StateSource::Client => String::from_str("client"),
            StateSource::Thread => String::from_str("thread"),
            StateSource::Handle => String::from_str("handle"),
        }
    }
}

/// Why an instance could not be stopped.
#[derive(Debug, Clone, Copy, PartialEq, Eq, Structural)]
pub enum InstanceEndError {
    NoHandle,
    /// The instance was not connected, as seen by the layer named.
    NoConnect(StateSource),
    /// The task outlived the grace period and the abort that followed it.
    Timeout,
}

impl InstanceEndError {
    /// The message of this error.
    pub open spec fn message(&self) -> Seq<char> {
        match self {
            InstanceEndError::NoHandle => "No thread handle present on client instance."@,
            InstanceEndError::NoConnect(source) => "Client is not connected ["@ + source.name()
                + "]"@,
            InstanceEndError::Timeout => "Thread cancellation has timed out."@,
        }
    }

    /// The message of this error.
    pub fn to_string(&self) -> (text: String)
        ensures
            text@ == self.message(),
    {
        match self {
            InstanceEndError::NoHandle => String::from_str(
                "No thread handle present on client instance.",
            ),
            InstanceEndError::NoConnect(source) => String::from_str(
                "Client is not connected [",
            ).concat(source.to_string().as_str()).concat("]"),
            InstanceEndError::Timeout => String::from_str("Thread cancellation has timed out."),
        }
    }
}

/// Why a message was not accepted.
#[derive(Debug, Clone, Copy, PartialEq, Eq, Structural)]
pub enum SendError {
    /// The instance is not running.
    Offline,
}

impl SendError {
    /// The message of this error.
    pub open spec fn message(&self) -> Seq<char> {
        "Cannot send chat messages while the instance is offline [state]"@
    }

    /// The message of this error.
    pub fn to_string(&self) -> (text: String)
        ensures
            text@ == self.message(),
    {
        String::from_str("Cannot send chat messages while the instance is offline [state]")
    }
}

/// Who an instance connects as.
#[derive(Debug)]
pub struct Info {
    pub username: String,
    pub uuid: String,
    pub auth: AuthProtocol,
}

/// The escape sequences that colour a line of the chat log.
#[derive(Debug)]
pub struct AnsiColors {
    pub green: String,
    pub red: String,
}

/// What the connection reports to its instance.
#[derive(Debug)]
pub enum ClientEvent {
    /// One game tick has passed.
    Tick,
    /// A chat message arrived; its text is ready to be shown.
    Chat(String),
    /// The connection is up.
    Init,
    /// The connection ended, with the server's reason if it gave one.
    Disconnect(Option<String>),
    /// The server sent a disconnect packet with this reason.
    DisconnectPacket(String),
    /// Anything else.
    Other,
}

/// What the connection is to do for its instance.
#[derive(Debug)]
pub enum ClientAction {
    /// Close the connection.
    Disconnect,
    /// Send this chat message.
    Chat(String),
}

/// The part of an instance that its connection reads and writes.
#[derive(Debug)]
pub struct ClientState {
    pub instance_key: Uuid,
    /// Lines for the chat log that nobody has collected yet, oldest first.
    pub chat_history: Vec<String>,
    /// Messages waiting to be sent, oldest first.
    pub chat_inputs: VecDeque<String>,
    pub run_state: bool,
}

/// The text of each string of a sequence.
pub open spec fn texts(lines: Seq<String>) -> Seq<Seq<char>> {
    lines.map_values(|line: String| line@)
}

/// One chat action for each message, in the same order.
pub open spec fn chat_actions(messages: Seq<String>) -> Seq<ClientAction> {
    messages.map_values(|message: String| ClientAction::Chat(message))
}

/// The line that an event adds to the chat log, if it adds one.
pub open spec fn log_line(event: ClientEvent, running: bool, colors: AnsiColors) -> Option<
    Seq<char>,
> {
    match event {
        ClientEvent::Tick => if running {
            None
        } else {
            Some(
                "Encountered non-running state notification on tick update, disconnecting..."@,
            )
        },
        ClientEvent::Chat(text) => Some(text@),
        ClientEvent::Init => Some(colors.green@ + "Successfully connected to server."@),
        ClientEvent::Disconnect(reason) => Some(
            colors.red@ + "Disconnected from server: "@ + match reason {
                Some(text) => text@,
                None => "No reason provided."@,
            },
        ),
        ClientEvent::DisconnectPacket(reason) => Some(
            colors.red@ + "Disconnected from server: "@ + reason@,
        ),
        ClientEvent::Other => None,
    }
}

/// Whether the instance counts as running after an event.
pub open spec fn runs_after(event: ClientEvent, running: bool) -> bool {
    match event {
        ClientEvent::Disconnect(_) => false,
        _ => running,
    }
}

/// Reacts to one event of the connection. A tick on a running instance sends
/// every message that was waiting, oldest first, and leaves the queue empty;
/// a tick on an instance that is no longer running closes the connection.
/// The other events add a line to the chat log, and a disconnect clears the
/// running flag; a chat message that arrives leaves it as it is.
pub fn handle(event: ClientEvent, state: &mut ClientState, colors: &AnsiColors) -> (actions: Vec<
    ClientAction,
>)
    ensures
        final(state).instance_key == old(state).instance_key,
        final(state).run_state == runs_after(event, old(state).run_state),
        texts(final(state).chat_history@) == match log_line(event, old(state).run_state, *colors) {
            Some(line) => texts(old(state).chat_history@).push(line),
            None => texts(old(state).chat_history@),
        },
        match event {
            ClientEvent::Tick => if old(state).run_state {
                &&& actions@ == chat_actions(old(state).chat_inputs@)
                &&& final(state).chat_inputs@ == Seq::<String>::empty()
            } else {
                &&& actions@ == seq![ClientAction::Disconnect]
                &&& final(state).chat_inputs@ == old(state).chat_inputs@
            },
            _ => {
                &&& actions@ == Seq::<ClientAction>::empty()
                &&& final(state).chat_inputs@ == old(state).chat_inputs@
            },
        },
{
    let mut actions: Vec<ClientAction> = Vec::new();
    let ghost history = state.chat_history@;
    match event {
        ClientEvent::Tick => {
            if !state.run_state {
                let line = String::from_str(
                    "Encountered non-running state notification on tick update, disconnecting...",
                );
                state.chat_history.push(line);
                actions.push(ClientAction::Disconnect);
                assert(texts(state.chat_history@) =~= texts(history).push(line@));
                return actions;
            }
            let ghost queued = state.chat_inputs@;
            while state.chat_inputs.len() > 0
                invariant
                    state.instance_key == old(state).instance_key,
                    state.run_state == old(state).run_state,
                    state.chat_history@ == history,
                    queued == old(state).chat_inputs@,
                    actions@.len() + state.chat_inputs@.len() == queued.len(),
                    actions@ == chat_actions(queued.subrange(0, actions@.len() as int)),
                    state.chat_inputs@ == queued.subrange(
                        actions@.len() as int,
                        queued.len() as int,
                    ),
                decreases state.chat_inputs@.len(),
            {
                let ghost sent = actions@.len() as int;
                match state.chat_inputs.pop_front() {
                    Some(message) => {
                        actions.push(ClientAction::Chat(message));
                        assert(actions@ =~= chat_actions(queued.subrange(0, sent + 1)));
                        assert(state.chat_inputs@ =~= queued.subrange(
                            sent + 1,
                            queued.len() as int,
                        ));
                    },
                    None => {},
                }
            }
            assert(queued.subrange(0, queued.len() as int) =~= queued);
            assert(state.chat_inputs@ =~= Seq::<String>::empty());
        },
        ClientEvent::Chat(text) => {
            state.chat_history.push(text);
            assert(texts(state.chat_history@) =~= texts(history).push(text@));
        },
        ClientEvent::Init => {
            let line = colors.green.clone().concat("Successfully connected to server.");
            state.chat_history.push(line);
            assert(texts(state.chat_history@) =~= texts(history).push(line@));
        },
        ClientEvent::Disconnect(reason) => {
            let prefix = colors.red.clone().concat("Disconnected from server: ");
            let line = match reason {
                Some(text) => prefix.concat(text.as_str()),
                None => prefix.concat("No reason provided."),
            };
            state.chat_history.push(line);
            state.run_state = false;
            assert(texts(state.chat_history@) =~= texts(history).push(line@));
        },
        ClientEvent::DisconnectPacket(reason) => {
            let line = colors.red.clone().concat("Disconnected from server: ").concat(
                reason.as_str(),
            );
            state.chat_history.push(line);
            assert(texts(state.chat_history@) =~= texts(history).push(line@));
        },
        ClientEvent::Other => {},
    }
    actions
}

/// What a connection task is started with.
#[derive(Debug)]
pub struct Launch {
    pub instance_key: Uuid,
    pub auth: AuthProtocol,
    pub target: Server,
    pub version: Version,
}

/// The longest that a task is waited for before it is aborted, in seconds.
pub const SOFT_KILL_GRACE_SECS: u64 = 8;

/// A task that is being waited for, and for how long at most.
#[derive(Debug)]
pub struct SoftKill {
    pub task: JoinHandle<()>,
    pub grace_secs: u64,
}

/// Where a soft kill stands after the grace period.
#[derive(Debug)]
pub enum SoftKillStep {
    /// The task ended by itself, and the soft kill with it, with this
    /// result.
    Ended(Result<(), InstanceEndError>),
    /// The task did not end and has been aborted; it is to be waited for
    /// once more, for `grace_secs` seconds at most.
    Aborted { task: AbortedTask, grace_secs: u64 },
}

/// Begins to stop a task softly: takes it out of its slot, to be waited for
/// for `SOFT_KILL_GRACE_SECS` seconds. An empty slot is an error of the task
/// layer.
pub fn soft_kill(_key: &Uuid, client_thread: &mut Option<JoinHandle<()>>) -> (begun: Result<
    SoftKill,
    InstanceEndError,
>)
    ensures
        *final(client_thread) is None,
        match begun {
            Ok(wait) => *old(client_thread) == Some(wait.task) && wait.grace_secs
                == SOFT_KILL_GRACE_SECS,
            Err(error) => *old(client_thread) is None && error == InstanceEndError::NoConnect(
                StateSource::Thread,
            ),
        },
{
    match client_thread.take() {
        Some(task) => Ok(SoftKill { task, grace_secs: SOFT_KILL_GRACE_SECS }),
        None => Err(InstanceEndError::NoConnect(StateSource::Thread)),
    }
}

impl SoftKill {
    /// Whether `step` is where this soft kill stands after the grace
    /// period: ended well where the task has finished; else with the task
    /// aborted, to be waited for as long again.
    pub open spec fn leads_to(self, finished: bool, step: SoftKillStep) -> bool {
        if finished {
            step == SoftKillStep::Ended(Ok(()))
        } else {
            &&& step matches SoftKillStep::Aborted { task, grace_secs }
            &&& task.task() == self.task
            &&& grace_secs == self.grace_secs
        }
    }

    /// Goes on after the grace period. A task that has finished is done with
    /// and the soft kill has succeeded; one that has not is aborted and
    /// handed back to be waited for again.
    pub fn waited(self, finished: bool) -> (step: SoftKillStep)
        ensures
            self.leads_to(finished, step),
    {
        if finished {
            SoftKillStep::Ended(Ok(()))
        } else {
            SoftKillStep::Aborted { task: abort_task(self.task), grace_secs: self.grace_secs }
        }
    }
}

/// How a soft kill ends after the abort.
pub open spec fn ended_after(reclaimed: bool) -> Result<(), InstanceEndError> {
    if reclaimed {
        Ok(())
    } else {
        Err(InstanceEndError::Timeout)
    }
}

/// Ends a soft kill after the abort: a task that the runtime has given back
/// counts as stopped, one that it has not is a timeout.
pub fn soft_kill_reclaimed(reclaimed: bool) -> (ended: Result<(), InstanceEndError>)
    ensures
        ended == ended_after(reclaimed),
{
    if reclaimed {
        Ok(())
    } else {
        Err(InstanceEndError::Timeout)
    }
}

/// A soft kill of a task that ends within the grace period succeeds without
/// an abort. One of a task that does not is aborted, and succeeds all the
/// same once the runtime has given the task back; it fails, with a timeout,
/// only where even the aborted task is not given back.
pub proof fn lemma_soft_kill_outcomes(wait: SoftKill, finished: bool, step: SoftKillStep)
    requires
        wait.leads_to(finished, step),
    ensures
        finished ==> step == SoftKillStep::Ended(Ok(())),
        !finished ==> step is Aborted && step->task.task() == wait.task,
        ended_after(true) is Ok,
        ended_after(false) == Err::<(), InstanceEndError>(InstanceEndError::Timeout),
{
}

/// One connection instance.
#[derive(Debug)]
pub struct ClientInstance {
    pub id: Uuid,
    pub info: Info,
    pub handle: Option<ConnectionHandle>,
    pub target: Server,
    pub version: Version,
    pub state: ClientState,
    pub client_thread: Option<JoinHandle<()>>,
}

impl ClientInstance {
    /// Whether the instance counts as active.
    pub open spec fn running(&self) -> bool {
        self.state.run_state
    }

    /// The messages waiting to be sent, oldest first.
    pub open spec fn pending(&self) -> Seq<String> {
        self.state.chat_inputs@
    }

    /// The lines of the chat log that nobody has collected yet, oldest first.
    pub open spec fn history(&self) -> Seq<String> {
        self.state.chat_history@
    }

    /// The key under which the connection knows this instance.
    pub open spec fn state_key(&self) -> Uuid {
        self.state.instance_key
    }

    /// Whether all but the running flag, the queue, the chat log and the task
    /// slot is as in `before`.
    pub open spec fn same_identity(&self, before: &Self) -> bool {
        &&& self.id == before.id
        &&& self.info == before.info
        &&& self.handle == before.handle
        &&& self.target == before.target
        &&& self.version == before.version
        &&& self.state_key() == before.state_key()
    }

    /// Whether this is a newly made instance of these values: not running,
    /// nothing queued, nothing logged, no task, no connection.
    pub open spec fn is_new(
        &self,
        id: Uuid,
        username: String,
        uuid: Uuid,
        auth: AuthProtocol,
        server: Server,
        version: Option<Version>,
    ) -> bool {
        &&& self.id == id
        &&& self.state_key() == id
        &&& self.info.username == username
        &&& self.info.uuid@ == uuid_text(uuid)
        &&& self.info.auth == auth
        &&& self.handle is None
        &&& self.target == server
        &&& self.version == match version {
            Some(v) => v,
            None => Version::V1_21,
        }
        &&& !self.running()
        &&& self.pending() == Seq::<String>::empty()
        &&& self.history() == Seq::<String>::empty()
        &&& self.client_thread is None
    }

    /// Whether this is what `before` becomes by connecting with the task
    /// `task`: the same instance, running, with the same queue and chat log,
    /// holding `task` and nothing else.
    pub open spec fn connected_from(&self, before: &Self, task: JoinHandle<()>) -> bool {
        &&& self.same_identity(before)
        &&& self.running()
        &&& self.pending() == before.pending()
        &&& self.history() == before.history()
        &&& self.client_thread == Some(task)
    }

    /// Whether `displaced` is what a connect makes of the task that `before`
    /// held: where it held one, that task, aborted; else nothing.
    pub open spec fn displaces(before: &Self, displaced: Option<AbortedTask>) -> bool {
        match before.client_thread {
            Some(task) => displaced matches Some(aborted) && aborted.task() == task,
            None => displaced is None,
        }
    }

    /// What a connection task of this instance is started with.
    pub open spec fn launch(&self) -> Launch {
        Launch {
            instance_key: self.id,
            auth: self.info.auth,
            target: self.target,
            version: self.version,
        }
    }

    /// A new instance. Where no version is given it speaks 1.21.
    pub fn new(
        id: Uuid,
        username: String,
        uuid: &Uuid,
        auth: AuthProtocol,
        server: Server,
        version: Option<Version>,
    ) -> (instance: Self)
        ensures
            instance.is_new(id, username, *uuid, auth, server, version),
    {
        ClientInstance {
            id,
            info: Info { username, uuid: to_text(*uuid), auth },
            version: match version {
                Some(v) => v,
                None => Version::V1_21,
            },
            handle: None,
            target: server,
            state: ClientState {
                instance_key: id,
                chat_history: Vec::new(),
                chat_inputs: VecDeque::new(),
                run_state: false,
            },
            client_thread: None,
        }
    }

    /// Whether the instance counts as active.
    pub fn is_running(&self) -> (running: bool)
        ensures
            running == self.running(),
    {
        self.state.run_state
    }

    /// Queues a message for the connection to send at its next tick. An
    /// instance that is not running takes no messages.
    pub fn send_message(&mut self, message: String) -> (sent: Result<(), SendError>)
        ensures
            final(self).same_identity(old(self)),
            final(self).running() == old(self).running(),
            final(self).history() == old(self).history(),
            final(self).client_thread == old(self).client_thread,
            sent is Ok <==> old(self).running(),
            final(self).pending() == if old(self).running() {
                old(self).pending().push(message)
            } else {
                old(self).pending()
            },
    {
        if !self.state.run_state {
            return Err(SendError::Offline);
        }
        self.state.chat_inputs.push_back(message);
        Ok(())
    }

    /// Connects to the target server. A task that is still held is aborted
    /// first, and handed back; then the instance is marked as running, and
    /// `spawn` is called once to start the new task, which takes the emptied
    /// slot.
    pub fn connect<F: FnOnce(Launch) -> JoinHandle<()>>(&mut self, spawn: F) -> (displaced: Option<
        AbortedTask,
    >)
        requires
            spawn.requires((old(self).launch(),)),
        ensures
            Self::displaces(old(self), displaced),
            final(self).client_thread is Some,
            spawn.ensures((old(self).launch(),), final(self).client_thread->0),
            final(self).connected_from(old(self), final(self).client_thread->0),
    {
        let displaced = match self.kill() {
            Ok(aborted) => Some(aborted),
            Err(_) => None,
        };
        self.state.run_state = true;
        let launch = Launch {
            instance_key: self.id,
            auth: self.info.auth.clone(),
            target: self.target.clone(),
            version: self.version,
        };
        let task = spawn(launch);
        self.client_thread = Some(task);
        displaced
    }

    /// Asks the connection to end at its next tick: clears the running flag
    /// and leaves the task alone. An instance that is not running is an
    /// error of the flag layer.
    pub fn disconnect_notify(&mut self) -> (asked: Result<(), InstanceEndError>)
        ensures
            final(self).same_identity(old(self)),
            !final(self).running(),
            final(self).pending() == old(self).pending(),
            final(self).history() == old(self).history(),
            final(self).client_thread == old(self).client_thread,
            asked == if old(self).running() {
                Ok::<(), InstanceEndError>(())
            } else {
                Err::<(), InstanceEndError>(InstanceEndError::NoConnect(StateSource::Client))
            },
    {
        if !self.state.run_state {
            return Err(InstanceEndError::NoConnect(StateSource::Client));
        }
        self.state.run_state = false;
        Ok(())
    }

    /// Gives up the connection handle, for the caller to close. An instance
    /// without one is an error of the handle layer.
    pub fn disconnect(&mut self) -> (given: Result<ConnectionHandle, InstanceEndError>)
        ensures
            final(self).id == old(self).id,
            final(self).info == old(self).info,
            final(self).target == old(self).target,
            final(self).version == old(self).version,
            final(self).state_key() == old(self).state_key(),
            final(self).running() == old(self).running(),
            final(self).pending() == old(self).pending(),
            final(self).history() == old(self).history(),
            final(self).client_thread == old(self).client_thread,
            final(self).handle is None,
            match given {
                Ok(handle) => old(self).handle == Some(handle),
                Err(error) => old(self).handle is None && error == InstanceEndError::NoConnect(
                    StateSource::Handle,
                ),
            },
    {
        match self.handle.take() {
            Some(handle) => Ok(handle),
            None => Err(InstanceEndError::NoConnect(StateSource::Handle)),
        }
    }

    /// Aborts the task at once, hands it back as aborted, and clears the
    /// running flag. An instance without a task is an error of the task
    /// layer, and stays as it is.
    pub fn kill(&mut self) -> (killed: Result<AbortedTask, InstanceEndError>)
        ensures
            final(self).same_identity(old(self)),
            final(self).pending() == old(self).pending(),
            final(self).history() == old(self).history(),
            final(self).client_thread is None,
            final(self).running() == (old(self).running() && old(self).client_thread is None),
            match killed {
                Ok(aborted) => old(self).client_thread == Some(aborted.task()),
                Err(error) => old(self).client_thread is None && error
                    == InstanceEndError::NoConnect(StateSource::Thread),
            },
    {
        match self.client_thread.take() {
            Some(task) => {
                let aborted = abort_task(task);
                self.state.run_state = false;
                Ok(aborted)
            },
            None => Err(InstanceEndError::NoConnect(StateSource::Thread)),
        }
    }

    /// Hands one event of the connection to this instance.
    pub fn handle_event(&mut self, event: ClientEvent, colors: &AnsiColors) -> (actions: Vec<
        ClientAction,
    >)
        ensures
            final(self).same_identity(old(self)),
            final(self).client_thread == old(self).client_thread,
            final(self).running() == runs_after(event, old(self).running()),
            texts(final(self).history()) == match log_line(event, old(self).running(), *colors) {
                Some(line) => texts(old(self).history()).push(line),
                None => texts(old(self).history()),
            },
            match event {
                ClientEvent::Tick => if old(self).running() {
                    &&& actions@ == chat_actions(old(self).pending())
                    &&& final(self).pending() == Seq::<String>::empty()
                } else {
                    &&& actions@ == seq![ClientAction::Disconnect]
                    &&& final(self).pending() == old(self).pending()
                },
                _ => {
                    &&& actions@ == Seq::<ClientAction>::empty()
                    &&& final(self).pending() == old(self).pending()
                },
            },
    {
        handle(event, &mut self.state, colors)
    }

    /// Collects the lines of the chat log, newest first, and empties it.
    pub fn take_history(&mut self) -> (lines: Vec<String>)
        ensures
            final(self).same_identity(old(self)),
            final(self).client_thread == old(self).client_thread,
            final(self).running() == old(self).running(),
            final(self).pending() == old(self).pending(),
            final(self).history() == Seq::<String>::empty(),
            lines@ == old(self).history().reverse(),
    {
        let mut lines: Vec<String> = Vec::new();
        let ghost logged = self.state.chat_history@;
        while self.state.chat_history.len() > 0
            invariant
                self.same_identity(old(self)),
                self.client_thread == old(self).client_thread,
                self.running() == old(self).running(),
                self.pending() == old(self).pending(),
                logged == old(self).history(),
                lines@.len() + self.state.chat_history@.len() == logged.len(),
                self.state.chat_history@ == logged.subrange(
                    0,
                    logged.len() - lines@.len() as int,
                ),
                forall|i: int|
                    0 <= i < lines@.len() ==> lines@[i] == logged[logged.len() - 1 - i],
            decreases self.state.chat_history@.len(),
        {
            match self.state.chat_history.pop() {
                Some(line) => {
                    lines.push(line);
                },
                None => {},
            }
        }
        assert(lines@ =~= logged.reverse());
        assert(self.state.chat_history@ =~= Seq::<String>::empty());
        lines
    }
}

impl Drop for ClientInstance {
    /// An instance that is let go of takes its task with it: a task that it
    /// still holds is aborted.
    fn drop(&mut self)
        opens_invariants none
        no_unwind
    {
        let mut slot: Option<JoinHandle<()>> = None;
        std::mem::swap(&mut self.client_thread, &mut slot);
        match slot {
            Some(task) => {
                let _ = abort_task(task);
            },
            None => {},
        }
    }
}

/// An instance that is connected twice in a row holds one task, that of the
/// second connect. The task of the first connect is what the second
/// displaces: it has been aborted. Nothing else about the instance has
/// changed but that it is running.
pub proof fn lemma_connect_twice(
    start: ClientInstance,
    middle: ClientInstance,
    end: ClientInstance,
    first: JoinHandle<()>,
    second: JoinHandle<()>,
    displaced: Option<AbortedTask>,
)
    requires
        middle.connected_from(&start, first),
        end.connected_from(&middle, second),
        ClientInstance::displaces(&middle, displaced),
    ensures
        end.connected_from(&start, second),
        end.client_thread == Some(second),
        displaced is Some && displaced->0.task() == first,
        end.launch() == start.launch(),
{
}

} // verus!
