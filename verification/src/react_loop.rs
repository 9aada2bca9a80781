//! What is done with the messages that wait at the gateway.
//!
//! Each message is reasoned about in a loop of thoughts and acts; then,
//! whatever came of that, it is read as a direct command, and the command is
//! executed.
use crate::messages::{InboundMessage, InboundMessageView, SystemCommand, SystemCommandView};
use vstd::prelude::*;

verus! {

/// The agent that reasons about messages.
pub const AGENT_NAME: &'static str = "nexus";

/// How many steps the reasoning about a message may take.
pub const MAX_REACT_STEPS: usize = 8;

/// What happens while messages are processed. Where something can fail,
/// `failed` tells whether it did.
#[derive(Debug)]
pub enum ProcessEvent {
    /// The agent is ready.
    Started,
    /// The queue was asked for a message.
    Received { next: Option<InboundMessage> },
    /// The reasoning about a message is over.
    Reasoned { message: InboundMessage, failed: bool },
    /// A message was read as a command.
    Interpreted { command: Option<SystemCommand> },
    /// A command was executed.
    Executed { failed: bool },
}

/// What is to be done.
#[derive(Debug)]
pub enum ProcessAction {
    /// Ask the queue for a message, without waiting for one.
    Receive,
    /// Reason about a message.
    Reason { message: InboundMessage },
    /// Read a message as a command.
    Interpret { message: InboundMessage },
    /// Execute a command.
    Execute { command: SystemCommand },
    /// All is done.
    Finish,
}

/// A [`ProcessEvent`] as a mathematical value.
pub enum ProcessEventView {
    Started,
    Received { next: Option<InboundMessageView> },
    Reasoned { message: InboundMessageView, failed: bool },
    Interpreted { command: Option<SystemCommandView> },
    Executed { failed: bool },
}

/// A [`ProcessAction`] as a mathematical value.
pub enum ProcessActionView {
    Receive,
    Reason { message: InboundMessageView },
    Interpret { message: InboundMessageView },
    Execute { command: SystemCommandView },
    Finish,
}

impl View for ProcessEvent {
    type V = ProcessEventView;

    open spec fn view(&self) -> ProcessEventView {
        match *self {
            ProcessEvent::Started => ProcessEventView::Started,
            ProcessEvent::Received { next: Some(message) } => ProcessEventView::Received {
                next: Some(message@),
            },
            ProcessEvent::Received { next: None } => ProcessEventView::Received { next: None },
            ProcessEvent::Reasoned { message, failed } => ProcessEventView::Reasoned {
                message: message@,
                failed,
            },
            ProcessEvent::Interpreted { command: Some(command) } => ProcessEventView::Interpreted {
                command: Some(command@),
            },
            ProcessEvent::Interpreted { command: None } => ProcessEventView::Interpreted {
                command: None,
            },
            ProcessEvent::Executed { failed } => ProcessEventView::Executed { failed },
        }
    }
}

impl View for ProcessAction {
    type V = ProcessActionView;

    open spec fn view(&self) -> ProcessActionView {
        match *self {
            ProcessAction::Receive => ProcessActionView::Receive,
            ProcessAction::Reason { message } => ProcessActionView::Reason { message: message@ },
            ProcessAction::Interpret { message } => ProcessActionView::Interpret {
                message: message@,
            },
            ProcessAction::Execute { command } => ProcessActionView::Execute { command: command@ },
            ProcessAction::Finish => ProcessActionView::Finish,
        }
    }
}

/// What is to be done on an event.
pub open spec fn process_action(event: ProcessEventView) -> ProcessActionView {
    match event {
        ProcessEventView::Started => ProcessActionView::Receive,
        ProcessEventView::Received { next: Some(message) } => ProcessActionView::Reason {
            message,
        },
        ProcessEventView::Received { next: None } => ProcessActionView::Finish,
        ProcessEventView::Reasoned { message, .. } => ProcessActionView::Interpret { message },
        ProcessEventView::Interpreted { command: Some(command) } => ProcessActionView::Execute {
            command,
        },
        ProcessEventView::Interpreted { command: None } => ProcessActionView::Receive,
        ProcessEventView::Executed { .. } => ProcessActionView::Receive,
    }
}

/// Answers what is to be done on an event.
pub fn process_gateway_messages(event: ProcessEvent) -> (action: ProcessAction)
    ensures
        action@ == process_action(event@),
{
    match event {
        ProcessEvent::Started => ProcessAction::Receive,
        ProcessEvent::Received { next: Some(message) } => ProcessAction::Reason { message },
        ProcessEvent::Received { next: None } => ProcessAction::Finish,
        ProcessEvent::Reasoned { message, .. } => ProcessAction::Interpret { message },
        ProcessEvent::Interpreted { command: Some(command) } => ProcessAction::Execute { command },
        ProcessEvent::Interpreted { command: None } => ProcessAction::Receive,
        ProcessEvent::Executed { .. } => ProcessAction::Receive,
    }
}

/// Whether an event is what can come of an action.
pub open spec fn can_follow(action: ProcessActionView, event: ProcessEventView) -> bool {
    match (action, event) {
        (ProcessActionView::Receive, ProcessEventView::Received { .. }) => true,
        (
            ProcessActionView::Reason { message },
            ProcessEventView::Reasoned { message: about, .. },
        ) => message == about,
        (ProcessActionView::Interpret { .. }, ProcessEventView::Interpreted { .. }) => true,
        (ProcessActionView::Execute { .. }, ProcessEventView::Executed { .. }) => true,
        _ => false,
    }
}

/// A message that comes out of the queue is reasoned about and then read as a
/// command, whether or not the reasoning failed; the command that it is read
/// as is executed; and the queue is asked for the next message in any case.
pub proof fn every_message_is_interpreted(
    message: InboundMessageView,
    reasoned: ProcessEventView,
    interpreted: ProcessEventView,
    executed: ProcessEventView,
)
    requires
        can_follow(
            process_action(ProcessEventView::Received { next: Some(message) }),
            reasoned,
        ),
        can_follow(process_action(reasoned), interpreted),
        interpreted->command is Some ==> can_follow(process_action(interpreted), executed),
    ensures
        process_action(ProcessEventView::Received { next: Some(message) })
            == (ProcessActionView::Reason { message }),
        process_action(reasoned) == (ProcessActionView::Interpret { message }),
        interpreted->command matches Some(command) ==> process_action(interpreted) == (
        ProcessActionView::Execute { command }) && process_action(executed)
            == ProcessActionView::Receive,
        interpreted->command is None ==> process_action(interpreted) == ProcessActionView::Receive,
{
}

/// Whether events are a run, or the start of one: the agent gets ready, and
/// each later event comes of what was done on the one before it.
pub open spec fn is_run(events: Seq<ProcessEventView>) -> bool {
    &&& events.len() > 0
    &&& events[0] == ProcessEventView::Started
    &&& forall|i: int|
        0 < i < events.len() ==> can_follow(process_action(events[i - 1]), #[trigger] events[i])
}

/// The messages that come out of the queue in the course of events.
pub open spec fn received(events: Seq<ProcessEventView>) -> Seq<InboundMessageView>
    decreases events.len(),
{
    if events.len() == 0 {
        Seq::empty()
    } else {
        match events.last() {
            ProcessEventView::Received { next: Some(message) } => received(
                events.drop_last(),
            ).push(message),
            _ => received(events.drop_last()),
        }
    }
}

/// The commands that messages are read as in the course of events.
pub open spec fn commands_read(events: Seq<ProcessEventView>) -> Seq<SystemCommandView>
    decreases events.len(),
{
    if events.len() == 0 {
        Seq::empty()
    } else {
        match events.last() {
            ProcessEventView::Interpreted { command: Some(command) } => commands_read(
                events.drop_last(),
            ).push(command),
            _ => commands_read(events.drop_last()),
        }
    }
}

/// The messages that are to be reasoned about in the course of events.
pub open spec fn reasoned_about(events: Seq<ProcessEventView>) -> Seq<InboundMessageView>
    decreases events.len(),
{
    if events.len() == 0 {
        Seq::empty()
    } else {
        match process_action(events.last()) {
            ProcessActionView::Reason { message } => reasoned_about(events.drop_last()).push(
                message,
            ),
            _ => reasoned_about(events.drop_last()),
        }
    }
}

/// The messages that are to be read as commands in the course of events.
pub open spec fn interpreted(events: Seq<ProcessEventView>) -> Seq<InboundMessageView>
    decreases events.len(),
{
    if events.len() == 0 {
        Seq::empty()
    } else {
        match process_action(events.last()) {
            ProcessActionView::Interpret { message } => interpreted(events.drop_last()).push(
                message,
            ),
            _ => interpreted(events.drop_last()),
        }
    }
}

/// The commands that are to be executed in the course of events.
pub open spec fn executed(events: Seq<ProcessEventView>) -> Seq<SystemCommandView>
    decreases events.len(),
{
    if events.len() == 0 {
        Seq::empty()
    } else {
        match process_action(events.last()) {
            ProcessActionView::Execute { command } => executed(events.drop_last()).push(command),
            _ => executed(events.drop_last()),
        }
    }
}

/// In a run the messages that come out of the queue are reasoned about, all of
/// them, in their order and each once. The same messages are read as commands,
/// but for the last one while the reasoning about it goes on. The commands
/// that they are read as are executed, in their order and each once.
pub proof fn messages_are_handled_in_order(events: Seq<ProcessEventView>)
    requires
        is_run(events),
    ensures
        reasoned_about(events) == received(events),
        match events.last() {
            ProcessEventView::Received { next: Some(message) } => interpreted(events).push(message)
                == received(events),
            _ => interpreted(events) == received(events),
        },
        executed(events) == commands_read(events),
    decreases events.len(),
{
    let before = events.drop_last();
    if events.len() > 1 {
        assert forall|i: int| 0 < i < before.len() implies can_follow(
            process_action(before[i - 1]),
            #[trigger] before[i],
        ) by {
            assert(events[i] == before[i]);
        }
        messages_are_handled_in_order(before);
        assert(can_follow(process_action(before.last()), events[events.len() - 1]));
    } else {
        reveal_with_fuel(received, 2);
        reveal_with_fuel(commands_read, 2);
        reveal_with_fuel(reasoned_about, 2);
        reveal_with_fuel(interpreted, 2);
        reveal_with_fuel(executed, 2);
    }
}

/// A run ends when the queue is empty and at no other point: then every
/// message that came out of it has been reasoned about and read as a command.
pub proof fn run_ends_on_empty_queue(events: Seq<ProcessEventView>)
    requires
        is_run(events),
    ensures
        forall|i: int|
            0 <= i < events.len() ==> (process_action(#[trigger] events[i])
                == ProcessActionView::Finish <==> events[i] == (ProcessEventView::Received {
                next: None,
            })),
        forall|i: int|
            0 <= i < events.len() - 1 ==> process_action(#[trigger] events[i])
                != ProcessActionView::Finish,
        process_action(events.last()) == ProcessActionView::Finish ==> reasoned_about(events)
            == received(events) && interpreted(events) == received(events),
{
    messages_are_handled_in_order(events);
    assert forall|i: int| 0 <= i < events.len() - 1 implies process_action(#[trigger] events[i])
        != ProcessActionView::Finish by {
        assert(can_follow(process_action(events[i]), events[i + 1])) by {
            assert(events[i + 1 - 1] == events[i]);
        }
    }
}

/// The queue is asked when the agent is ready, when a message is no command and
/// when a command was executed, whether or not that failed, and at no other
/// point.
pub proof fn queue_is_asked_between_messages(event: ProcessEventView)
    ensures
        process_action(event) == ProcessActionView::Receive <==> event is Started
            || event is Executed || event == (ProcessEventView::Interpreted { command: None }),
{
}

/// Of an event nothing is left out of sight.
pub proof fn process_event_is_seen_whole(event: ProcessEvent)
    ensures
        event@ is Started <==> event is Started,
        event matches ProcessEvent::Received { next } ==> {
            &&& event@ matches ProcessEventView::Received { next: seen }
            &&& seen is Some <==> next is Some
            &&& next matches Some(message) ==> seen == Some(message@)
        },
        event matches ProcessEvent::Reasoned { message, failed } ==> event@ == (
        ProcessEventView::Reasoned { message: message@, failed }),
        event matches ProcessEvent::Interpreted { command } ==> {
            &&& event@ matches ProcessEventView::Interpreted { command: seen }
            &&& seen is Some <==> command is Some
            &&& command matches Some(known) ==> seen == Some(known@)
        },
        event matches ProcessEvent::Executed { failed } ==> event@ == (
        ProcessEventView::Executed { failed }),
{
}

/// Of an action nothing is left out of sight.
pub proof fn process_action_is_seen_whole(action: ProcessAction)
    ensures
        action@ is Receive <==> action is Receive,
        action@ is Finish <==> action is Finish,
        action matches ProcessAction::Reason { message } ==> action@ == (
        ProcessActionView::Reason { message: message@ }),
        action matches ProcessAction::Interpret { message } ==> action@ == (
        ProcessActionView::Interpret { message: message@ }),
        action matches ProcessAction::Execute { command } ==> action@ == (
        ProcessActionView::Execute { command: command@ }),
{
}

} // verus!
