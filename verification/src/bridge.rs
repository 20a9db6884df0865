//! What the server does with the messages of Vim instances, and how it runs a
//! command in one.
//!
//! A command runs in steps. Each step says what to do next (ask, send or sleep),
//! and what is to be remembered until that is done; the functions that resume a
//! command take what was remembered and what came of it.

use crate::commands::is_exit;
use crate::commands::is_exit_command;
use crate::commands::judged;
use crate::commands::verify_command_execution;
use crate::json::Json;
use crate::json::JsonView;
use crate::protocol::command_line;
use crate::protocol::execute_command_line;
use crate::protocol::framed;
use crate::protocol::option_text;
use crate::protocol::registered_line;
use crate::protocol::IncomingMessage;
use crate::protocol::IncomingMessageView;
use crate::protocol::Registered;
use crate::protocol::ResponseError;
use crate::registry::not_connected;
use crate::registry::not_connected_text;
use crate::registry::preference_file;
use crate::registry::reply_view;
use crate::registry::Ask;
use crate::registry::AskView;
use crate::registry::Connection;
use crate::registry::ConnectionView;
use crate::registry::FileWrite;
use crate::registry::FileWriteView;
use crate::registry::Outcome;
use crate::registry::OutcomeView;
use crate::registry::Registry;
use crate::registry::RegistryView;
use crate::text::eq;
use crate::text::trim;
use crate::text::trimmed;
use vstd::prelude::*;

verus! {

// ---------------------------------------------------------------------------
// Messages
// ---------------------------------------------------------------------------
/// A link, and the instance that last registered on it.
#[derive(Debug)]
pub struct Session {
    pub link: u64,
    pub instance_id: Option<String>,
}

/// What a [`Session`] is.
pub struct SessionView {
    pub link: u64,
    pub instance_id: Option<Seq<char>>,
}

impl View for Session {
    type V = SessionView;

    open spec fn view(&self) -> SessionView {
        SessionView { link: self.link, instance_id: option_text(self.instance_id) }
    }
}

/// What a message calls for.
#[derive(Debug)]
pub enum Reaction {
    Nothing,
    /// An instance registered: write the files, and send `ack` on its link.
    Registered {
        instance_id: String,
        registry_file: FileWrite,
        ack: String,
        preference_file: Option<FileWrite>,
    },
    /// A request is answered: hand `reply` to whoever waits for `id`.
    Deliver { id: i64, reply: Result<Json, ResponseError> },
}

/// What a [`Reaction`] says.
pub enum ReactionView {
    Nothing,
    Registered {
        instance_id: Seq<char>,
        registry_file: FileWriteView,
        ack: Seq<char>,
        preference_file: Option<FileWriteView>,
    },
    Deliver { id: i64, reply: Result<JsonView, Seq<char>> },
}

impl View for Reaction {
    type V = ReactionView;

    open spec fn view(&self) -> ReactionView {
        match *self {
            Reaction::Nothing => ReactionView::Nothing,
            Reaction::Registered { instance_id, registry_file, ack, preference_file } => {
                ReactionView::Registered {
                    instance_id: instance_id@,
                    registry_file: registry_file@,
                    ack: ack@,
                    preference_file: match preference_file {
                        Some(f) => Some(f@),
                        None => None,
                    },
                }
            },
            Reaction::Deliver { id, reply } => ReactionView::Deliver { id, reply: reply_view(reply) },
        }
    }
}

/// A registration: the instance is connected anew, and selected where it is the
/// only one.
pub open spec fn on_register(
    r: RegistryView,
    s: SessionView,
    id: Seq<char>,
    connection: ConnectionView,
) -> (RegistryView, SessionView, ReactionView) {
    let joined = r.put(id, connection);
    let only = joined.order.len() == 1;
    (
        if only {
            joined.select(id)
        } else {
            joined
        },
        SessionView { instance_id: Some(id), ..s },
        ReactionView::Registered {
            instance_id: id,
            registry_file: joined.registry_file(),
            ack: registered_line("registered"@, id),
            preference_file: if only {
                Some(preference_file(id))
            } else {
                None
            },
        },
    )
}

/// The answer that a message carries: an error counts before a result, and where
/// there is neither the result is null.
pub open spec fn carried_reply(m: IncomingMessageView) -> Result<JsonView, Seq<char>> {
    match m.error {
        Some(e) => Err(e),
        None => match m.result {
            Some(v) => Ok(v),
            None => Ok(JsonView::Null),
        },
    }
}

/// What a message does. `started` marks the moment at which it arrives.
pub open spec fn on_message(
    r: RegistryView,
    s: SessionView,
    m: IncomingMessageView,
    started: Seq<char>,
) -> (RegistryView, SessionView, ReactionView) {
    if m.msg_type == Some("register"@) {
        match (m.instance_id, m.info) {
            (Some(id), Some(info)) => on_register(
                r,
                s,
                id,
                ConnectionView { info, started, link: s.link, state: None },
            ),
            _ => (r, s, ReactionView::Nothing),
        }
    } else if m.msg_type == Some("state_update"@) {
        match (s.instance_id, m.state) {
            (Some(id), Some(state)) => (r.cache(id, state), s, ReactionView::Nothing),
            _ => (r, s, ReactionView::Nothing),
        }
    } else {
        match m.id {
            Some(id) => if r.pending.contains((s.link, id)) {
                (r.settle(s.link, id), s, ReactionView::Deliver { id, reply: carried_reply(m) })
            } else {
                (r, s, ReactionView::Nothing)
            },
            None => (r, s, ReactionView::Nothing),
        }
    }
}

/// What a line does. A blank line is passed over, and so is one that holds no
/// message.
pub open spec fn on_line(
    r: RegistryView,
    s: SessionView,
    line: Seq<char>,
    message: Option<IncomingMessageView>,
    started: Seq<char>,
) -> (RegistryView, SessionView, ReactionView) {
    match message {
        Some(m) => if trim(line).len() == 0 {
            (r, s, ReactionView::Nothing)
        } else {
            on_message(r, s, m, started)
        },
        None => (r, s, ReactionView::Nothing),
    }
}

/// Whether a line holds nothing but white space, and is passed over.
pub fn is_blank(line: &str) -> (r: bool)
    ensures
        r == (trim(line@).len() == 0),
{
    trimmed(line).is_empty()
}

fn type_is(msg: &IncomingMessage, name: &str) -> (r: bool)
    ensures
        r == (msg@.msg_type == Some(name@)),
{
    match &msg.msg_type {
        Some(t) => eq(t.as_str(), name),
        None => false,
    }
}

impl Session {
    /// A new link, on which nobody has registered.
    pub fn new(link: u64) -> (r: Session)
        ensures
            r@ == (SessionView { link, instance_id: None }),
    {
        Session { link, instance_id: None }
    }

    /// Takes a message in. `started` marks the moment at which it arrives.
    pub fn handle_message(
        &mut self,
        registry: &mut Registry,
        msg: IncomingMessage,
        started: String,
    ) -> (reaction: Reaction)
        requires
            old(registry).wf(),
        ensures
            final(registry).wf(),
            (final(registry)@, final(self)@, reaction@) == on_message(
                old(registry)@,
                old(self)@,
                msg@,
                started@,
            ),
            reaction matches Reaction::Registered { ack, .. } ==> framed(ack@),
    {
        if type_is(&msg, "register") {
            match msg.instance_id {
                Some(id) => match msg.info {
                    Some(info) => self.register(
                        registry,
                        id,
                        Connection { info, started, link: self.link, state: None },
                    ),
                    None => Reaction::Nothing,
                },
                None => Reaction::Nothing,
            }
        } else if type_is(&msg, "state_update") {
            match &self.instance_id {
                Some(id) => match msg.state {
                    Some(state) => {
                        registry.cache(id.as_str(), state);
                    },
                    None => {},
                },
                None => {},
            }
            Reaction::Nothing
        } else {
            match msg.id {
                Some(id) => if registry.settle(self.link, id) {
                    let reply = match msg.error {
                        Some(e) => Err(e),
                        None => match msg.result {
                            Some(v) => Ok(v),
                            None => Ok(Json::Null),
                        },
                    };
                    Reaction::Deliver { id, reply }
                } else {
                    assert(registry@ =~= old(registry)@);
                    Reaction::Nothing
                },
                None => Reaction::Nothing,
            }
        }
    }

    /// Takes a line in: `message` is what it holds, where it holds a message, and
    /// `started` marks the moment at which it arrives.
    pub fn handle_line(
        &mut self,
        registry: &mut Registry,
        line: &str,
        message: Option<IncomingMessage>,
        started: String,
    ) -> (reaction: Reaction)
        requires
            old(registry).wf(),
        ensures
            final(registry).wf(),
            (final(registry)@, final(self)@, reaction@) == on_line(
                old(registry)@,
                old(self)@,
                line@,
                match message {
                    Some(m) => Some(m@),
                    None => None,
                },
                started@,
            ),
            reaction matches Reaction::Registered { ack, .. } ==> framed(ack@),
    {
        match message {
            Some(m) => if is_blank(line) {
                Reaction::Nothing
            } else {
                self.handle_message(registry, m, started)
            },
            None => Reaction::Nothing,
        }
    }

    fn register(&mut self, registry: &mut Registry, id: String, connection: Connection) -> (reaction:
        Reaction)
        requires
            old(registry).wf(),
        ensures
            final(registry).wf(),
            (final(registry)@, final(self)@, reaction@) == on_register(
                old(registry)@,
                old(self)@,
                id@,
                connection@,
            ),
            reaction matches Reaction::Registered { ack, .. } ==> framed(ack@),
    {
        registry.put(id.as_str(), connection);
        self.instance_id = Some(id.clone());
        let registry_file = registry.save_registry();
        let ack = Registered::new(id.clone()).line();
        let preference_file = if registry.count() == 1 {
            registry.select(id.as_str());
            Some(registry.save_preference(id.as_str()))
        } else {
            None
        };
        Reaction::Registered { instance_id: id, registry_file, ack, preference_file }
    }
}

/// What the end of a link calls for.
#[derive(Debug)]
pub struct Departure {
    pub instance_id: String,
    /// Whether the instance had been told to exit.
    pub expected: bool,
    pub registry_file: FileWrite,
}

/// What a [`Departure`] says.
pub struct DepartureView {
    pub instance_id: Seq<char>,
    pub expected: bool,
    pub registry_file: FileWriteView,
}

impl View for Departure {
    type V = DepartureView;

    open spec fn view(&self) -> DepartureView {
        DepartureView {
            instance_id: self.instance_id@,
            expected: self.expected,
            registry_file: self.registry_file@,
        }
    }
}

/// The end of a link: the instance that last registered on it is gone.
pub open spec fn on_disconnect(r: RegistryView, s: SessionView) -> (
    RegistryView,
    Option<DepartureView>,
) {
    match s.instance_id {
        Some(id) => (
            r.without(id),
            Some(
                DepartureView {
                    instance_id: id,
                    expected: r.pending_exits.contains(id),
                    registry_file: r.without(id).registry_file(),
                },
            ),
        ),
        None => (r, None),
    }
}

impl Session {
    /// Ends the link.
    pub fn handle_disconnect(self, registry: &mut Registry) -> (departure: Option<Departure>)
        requires
            old(registry).wf(),
        ensures
            final(registry).wf(),
            (
                final(registry)@,
                match departure {
                    Some(d) => Some(d@),
                    None => None,
                },
            ) == on_disconnect(old(registry)@, self@),
    {
        match self.instance_id {
            Some(id) => {
                let expected = registry.take_out(id.as_str());
                let registry_file = registry.save_registry();
                Some(Departure { instance_id: id, expected, registry_file })
            },
            None => None,
        }
    }
}

// ---------------------------------------------------------------------------
// Commands
// ---------------------------------------------------------------------------
/// A line to be sent on a link.
#[derive(Debug)]
pub struct Outgoing {
    pub link: u64,
    pub line: String,
}

/// What an [`Outgoing`] says.
pub struct OutgoingView {
    pub link: u64,
    pub line: Seq<char>,
}

impl View for Outgoing {
    type V = OutgoingView;

    open spec fn view(&self) -> OutgoingView {
        OutgoingView { link: self.link, line: self.line@ }
    }
}

/// A command that awaits a state.
#[derive(Debug)]
pub enum CommandReply {
    /// The state before it.
    Before { instance_id: String, command: String, link: u64, id: i64 },
    /// The state after it.
    After { instance_id: String, command: String, before: Json, link: u64, id: i64 },
}

/// What a [`CommandReply`] is.
pub enum CommandReplyView {
    Before { instance_id: Seq<char>, command: Seq<char>, link: u64, id: i64 },
    After { instance_id: Seq<char>, command: Seq<char>, before: JsonView, link: u64, id: i64 },
}

impl View for CommandReply {
    type V = CommandReplyView;

    open spec fn view(&self) -> CommandReplyView {
        match *self {
            CommandReply::Before { instance_id, command, link, id } => CommandReplyView::Before {
                instance_id: instance_id@,
                command: command@,
                link,
                id,
            },
            CommandReply::After { instance_id, command, before, link, id } => {
                CommandReplyView::After {
                    instance_id: instance_id@,
                    command: command@,
                    before: before@,
                    link,
                    id,
                }
            },
        }
    }
}

/// A command that is being sent.
#[derive(Debug)]
pub enum CommandSend {
    /// It ends Vim.
    Exit { instance_id: String },
    /// It is judged by the states around it.
    Judged { instance_id: String, command: String, before: Json },
}

/// What a [`CommandSend`] is.
pub enum CommandSendView {
    Exit { instance_id: Seq<char> },
    Judged { instance_id: Seq<char>, command: Seq<char>, before: JsonView },
}

impl View for CommandSend {
    type V = CommandSendView;

    open spec fn view(&self) -> CommandSendView {
        match *self {
            CommandSend::Exit { instance_id } => CommandSendView::Exit {
                instance_id: instance_id@,
            },
            CommandSend::Judged { instance_id, command, before } => CommandSendView::Judged {
                instance_id: instance_id@,
                command: command@,
                before: before@,
            },
        }
    }
}

/// A command that sleeps.
#[derive(Debug)]
pub enum CommandSleep {
    /// Until Vim is gone; it was still there `polls` times.
    Exit { instance_id: String, polls: u64 },
    /// Until Vim has applied it.
    Judged { instance_id: String, command: String, before: Json },
}

/// What a [`CommandSleep`] is.
pub enum CommandSleepView {
    Exit { instance_id: Seq<char>, polls: u64 },
    Judged { instance_id: Seq<char>, command: Seq<char>, before: JsonView },
}

impl View for CommandSleep {
    type V = CommandSleepView;

    open spec fn view(&self) -> CommandSleepView {
        match *self {
            CommandSleep::Exit { instance_id, polls } => CommandSleepView::Exit {
                instance_id: instance_id@,
                polls,
            },
            CommandSleep::Judged { instance_id, command, before } => CommandSleepView::Judged {
                instance_id: instance_id@,
                command: command@,
                before: before@,
            },
        }
    }
}

/// The next step of a command.
#[derive(Debug)]
pub enum CommandStep {
    Done(Result<String, String>),
    /// Send the request, and await its outcome.
    Ask(CommandReply, Ask),
    /// Send the line.
    Send(CommandSend, Outgoing),
    /// Sleep for so many milliseconds.
    Sleep(CommandSleep, u64),
}

/// What a [`CommandStep`] is.
pub enum CommandStepView {
    Done(Result<Seq<char>, Seq<char>>),
    Ask(CommandReplyView, AskView),
    Send(CommandSendView, OutgoingView),
    Sleep(CommandSleepView, u64),
}

/// What a result of text holds.
pub open spec fn text_result(r: Result<String, String>) -> Result<Seq<char>, Seq<char>> {
    match r {
        Ok(s) => Ok(s@),
        Err(e) => Err(e@),
    }
}

impl View for CommandStep {
    type V = CommandStepView;

    open spec fn view(&self) -> CommandStepView {
        match *self {
            CommandStep::Done(r) => CommandStepView::Done(text_result(r)),
            CommandStep::Ask(wait, ask) => CommandStepView::Ask(wait@, ask@),
            CommandStep::Send(wait, out) => CommandStepView::Send(wait@, out@),
            CommandStep::Sleep(wait, ms) => CommandStepView::Sleep(wait@, ms),
        }
    }
}

impl CommandStep {
    /// Whether what the step sends is one line of the protocol.
    pub open spec fn sends_framed(self) -> bool {
        match self {
            CommandStep::Ask(_, ask) => framed(ask.line@),
            CommandStep::Send(_, out) => framed(out.line@),
            _ => true,
        }
    }
}

/// The times that an instance which was told to exit is looked for, and the
/// milliseconds before each look.
pub const EXIT_POLLS: u64 = 40;

pub const EXIT_POLL_MS: u64 = 50;

/// The milliseconds that Vim gets to apply a command.
pub const SETTLE_MS: u64 = 500;

/// The start of a command that ends Vim.
pub open spec fn start_exit(r: RegistryView, instance_id: Seq<char>, command: Seq<char>) -> (
    RegistryView,
    CommandStepView,
) {
    match r.lookup(instance_id) {
        Some(c) => (
            r.mark_exit(instance_id),
            CommandStepView::Send(
                CommandSendView::Exit { instance_id },
                OutgoingView { link: c.link, line: command_line(command) },
            ),
        ),
        None => (r, CommandStepView::Done(Err(not_connected(instance_id)))),
    }
}

/// The start of a command that is judged by the states around it.
pub open spec fn start_judged(r: RegistryView, instance_id: Seq<char>, command: Seq<char>) -> (
    RegistryView,
    CommandStepView,
) {
    let (next, asked) = r.request_state(instance_id);
    match asked {
        Ok(ask) => (
            next,
            CommandStepView::Ask(
                CommandReplyView::Before { instance_id, command, link: ask.link, id: ask.id },
                ask,
            ),
        ),
        Err(e) => (
            next,
            CommandStepView::Done(Err("Failed to get state before command: "@ + e)),
        ),
    }
}

/// The start of a command.
pub open spec fn start_command(r: RegistryView, instance_id: Seq<char>, command: Seq<char>) -> (
    RegistryView,
    CommandStepView,
) {
    if is_exit(command) {
        start_exit(r, instance_id, command)
    } else {
        start_judged(r, instance_id, command)
    }
}

/// The result of a judged command.
pub open spec fn judged_result(command: Seq<char>, before: JsonView, after: JsonView) -> Result<
    Seq<char>,
    Seq<char>,
> {
    let (ok, message) = judged(command, before, after);
    if ok {
        Ok(message)
    } else {
        Err("Command verification failed: "@ + message)
    }
}

/// What follows when the request that a command awaits has an outcome.
pub open spec fn on_reply(r: RegistryView, wait: CommandReplyView, outcome: OutcomeView) -> (
    RegistryView,
    CommandStepView,
) {
    match wait {
        CommandReplyView::Before { instance_id, command, link, id } => {
            let (next, result) = r.finish_state(instance_id, link, id, outcome);
            match result {
                Ok(before) => match next.lookup(instance_id) {
                    Some(c) => (
                        next,
                        CommandStepView::Send(
                            CommandSendView::Judged { instance_id, command, before },
                            OutgoingView { link: c.link, line: command_line(command) },
                        ),
                    ),
                    None => (next, CommandStepView::Done(Err(not_connected(instance_id)))),
                },
                Err(e) => (
                    next,
                    CommandStepView::Done(Err("Failed to get state before command: "@ + e)),
                ),
            }
        },
        CommandReplyView::After { instance_id, command, before, link, id } => {
            let (next, result) = r.finish_state(instance_id, link, id, outcome);
            match result {
                Ok(after) => (next, CommandStepView::Done(judged_result(command, before, after))),
                Err(e) => (
                    next,
                    CommandStepView::Done(Err("Failed to verify command execution: "@ + e)),
                ),
            }
        },
    }
}

/// What follows when a command's line was sent, or could not be.
pub open spec fn on_sent(wait: CommandSendView, sent: bool) -> CommandStepView {
    if !sent {
        CommandStepView::Done(Err("Instance disconnected"@))
    } else {
        match wait {
            CommandSendView::Exit { instance_id } => CommandStepView::Sleep(
                CommandSleepView::Exit { instance_id, polls: 0 },
                EXIT_POLL_MS,
            ),
            CommandSendView::Judged { instance_id, command, before } => CommandStepView::Sleep(
                CommandSleepView::Judged { instance_id, command, before },
                SETTLE_MS,
            ),
        }
    }
}

/// What follows when a command wakes.
pub open spec fn on_woke(r: RegistryView, wait: CommandSleepView) -> (
    RegistryView,
    CommandStepView,
) {
    match wait {
        CommandSleepView::Exit { instance_id, polls } => if !r.connections.contains_key(
            instance_id,
        ) {
            (r, CommandStepView::Done(Ok("Vim exited successfully"@)))
        } else if polls + 1 >= EXIT_POLLS {
            (
                r.unmark_exit(instance_id),
                CommandStepView::Done(Err("Timeout waiting for Vim to exit"@)),
            )
        } else {
            (
                r,
                CommandStepView::Sleep(
                    CommandSleepView::Exit { instance_id, polls: (polls + 1) as u64 },
                    EXIT_POLL_MS,
                ),
            )
        },
        CommandSleepView::Judged { instance_id, command, before } => {
            let (next, asked) = r.request_state(instance_id);
            match asked {
                Ok(ask) => (
                    next,
                    CommandStepView::Ask(
                        CommandReplyView::After {
                            instance_id,
                            command,
                            before,
                            link: ask.link,
                            id: ask.id,
                        },
                        ask,
                    ),
                ),
                Err(e) => (
                    next,
                    CommandStepView::Done(Err("Failed to verify command execution: "@ + e)),
                ),
            }
        },
    }
}

/// Run an exit command: send it, then wait for the socket to close (which the
/// registry sees as a disconnect). We mark the instance pending-exit so the
/// disconnect is treated as success.
pub fn execute_exit_command(registry: &mut Registry, instance_id: &str, command: &str) -> (step:
    CommandStep)
    requires
        old(registry).wf(),
    ensures
        final(registry).wf(),
        (final(registry)@, step@) == start_exit(old(registry)@, instance_id@, command@),
        step.sends_framed(),
{
    let link = match registry.get_connection(instance_id) {
        Some(c) => c.link,
        None => {
            return CommandStep::Done(Err(not_connected_text(instance_id)));
        },
    };
    registry.mark_exit(instance_id);
    CommandStep::Send(
        CommandSend::Exit { instance_id: instance_id.to_owned() },
        Outgoing { link, line: execute_command_line(command) },
    )
}

/// Execute a normal command with before/after state verification.
pub fn execute_command_verified(registry: &mut Registry, instance_id: &str, command: &str) -> (step:
    CommandStep)
    requires
        old(registry).wf(),
    ensures
        final(registry).wf(),
        (final(registry)@, step@) == start_judged(old(registry)@, instance_id@, command@),
        step.sends_framed(),
{
    match registry.request_state(instance_id) {
        Ok(ask) => CommandStep::Ask(
            CommandReply::Before {
                instance_id: instance_id.to_owned(),
                command: command.to_owned(),
                link: ask.link,
                id: ask.id,
            },
            ask,
        ),
        Err(e) => CommandStep::Done(
            Err("Failed to get state before command: ".to_owned().concat(e.as_str())),
        ),
    }
}

/// Top-level command dispatch: exit commands vs verified commands.
pub fn execute_vim_command(registry: &mut Registry, instance_id: &str, command: &str) -> (step:
    CommandStep)
    requires
        old(registry).wf(),
    ensures
        final(registry).wf(),
        (final(registry)@, step@) == start_command(old(registry)@, instance_id@, command@),
        step.sends_framed(),
{
    if is_exit_command(command) {
        execute_exit_command(registry, instance_id, command)
    } else {
        execute_command_verified(registry, instance_id, command)
    }
}

impl CommandReply {
    /// Resumes a command whose request has an outcome.
    pub fn resume(self, registry: &mut Registry, outcome: Outcome) -> (step: CommandStep)
        requires
            old(registry).wf(),
        ensures
            final(registry).wf(),
            (final(registry)@, step@) == on_reply(old(registry)@, self@, outcome@),
            step.sends_framed(),
    {
        match self {
            CommandReply::Before { instance_id, command, link, id } => {
                match registry.finish_state(instance_id.as_str(), link, id, outcome) {
                    Ok(before) => match registry.get_connection(instance_id.as_str()) {
                        Some(c) => {
                            let out = Outgoing {
                                link: c.link,
                                line: execute_command_line(command.as_str()),
                            };
                            CommandStep::Send(
                                CommandSend::Judged { instance_id, command, before },
                                out,
                            )
                        },
                        None => CommandStep::Done(Err(not_connected_text(instance_id.as_str()))),
                    },
                    Err(e) => CommandStep::Done(
                        Err("Failed to get state before command: ".to_owned().concat(e.as_str())),
                    ),
                }
            },
            CommandReply::After { instance_id, command, before, link, id } => {
                match registry.finish_state(instance_id.as_str(), link, id, outcome) {
                    Ok(after) => {
                        let (ok, message) = verify_command_execution(
                            command.as_str(),
                            &before,
                            &after,
                        );
                        if ok {
                            CommandStep::Done(Ok(message))
                        } else {
                            CommandStep::Done(
                                Err(
                                    "Command verification failed: ".to_owned().concat(
                                        message.as_str(),
                                    ),
                                ),
                            )
                        }
                    },
                    Err(e) => CommandStep::Done(
                        Err("Failed to verify command execution: ".to_owned().concat(e.as_str())),
                    ),
                }
            },
        }
    }
}

impl CommandSend {
    /// Resumes a command whose line was sent, or could not be.
    pub fn resume(self, sent: bool) -> (step: CommandStep)
        ensures
            step@ == on_sent(self@, sent),
            step.sends_framed(),
    {
        if !sent {
            return CommandStep::Done(Err("Instance disconnected".to_owned()));
        }
        match self {
            CommandSend::Exit { instance_id } => CommandStep::Sleep(
                CommandSleep::Exit { instance_id, polls: 0 },
                EXIT_POLL_MS,
            ),
            CommandSend::Judged { instance_id, command, before } => CommandStep::Sleep(
                CommandSleep::Judged { instance_id, command, before },
                SETTLE_MS,
            ),
        }
    }
}

impl CommandSleep {
    /// Resumes a command that wakes.
    pub fn resume(self, registry: &mut Registry) -> (step: CommandStep)
        requires
            old(registry).wf(),
        ensures
            final(registry).wf(),
            (final(registry)@, step@) == on_woke(old(registry)@, self@),
            step.sends_framed(),
    {
        match self {
            CommandSleep::Exit { instance_id, polls } => {
                if registry.get_connection(instance_id.as_str()).is_none() {
                    CommandStep::Done(Ok("Vim exited successfully".to_owned()))
                } else if polls >= EXIT_POLLS - 1 {
                    registry.unmark_exit(instance_id.as_str());
                    CommandStep::Done(Err("Timeout waiting for Vim to exit".to_owned()))
                } else {
                    CommandStep::Sleep(
                        CommandSleep::Exit { instance_id, polls: polls + 1 },
                        EXIT_POLL_MS,
                    )
                }
            },
            CommandSleep::Judged { instance_id, command, before } => {
                match registry.request_state(instance_id.as_str()) {
                    Ok(ask) => CommandStep::Ask(
                        CommandReply::After {
                            instance_id,
                            command,
                            before,
                            link: ask.link,
                            id: ask.id,
                        },
                        ask,
                    ),
                    Err(e) => CommandStep::Done(
                        Err("Failed to verify command execution: ".to_owned().concat(e.as_str())),
                    ),
                }
            },
        }
    }
}

} // verus!
