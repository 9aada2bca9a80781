//! What passes between the channels, the agents and the humans.
use crate::json::{json_view, JsonView};
use crate::text::optional;
use vstd::prelude::*;

verus! {

/// A moment in time: seconds since the Unix epoch, and nanoseconds since the
/// start of that second.
#[derive(Debug, Clone, Copy, PartialEq, Eq, Structural)]
pub struct Timestamp {
    pub secs: i64,
    pub nanos: u32,
}

/// A message from a human.
#[derive(Debug, PartialEq, Eq)]
pub struct InboundMessage {
    pub message_id: String,
    pub channel_id: String,
    pub user_id: String,
    pub conversation_id: String,
    pub text: String,
    pub timestamp: Timestamp,
    pub metadata: serde_json::Value,
}

/// An [`InboundMessage`] as a mathematical value.
pub struct InboundMessageView {
    pub message_id: Seq<char>,
    pub channel_id: Seq<char>,
    pub user_id: Seq<char>,
    pub conversation_id: Seq<char>,
    pub text: Seq<char>,
    pub timestamp: Timestamp,
    pub metadata: JsonView,
}

impl View for InboundMessage {
    type V = InboundMessageView;

    open spec fn view(&self) -> InboundMessageView {
        InboundMessageView {
            message_id: self.message_id@,
            channel_id: self.channel_id@,
            user_id: self.user_id@,
            conversation_id: self.conversation_id@,
            text: self.text@,
            timestamp: self.timestamp,
            metadata: json_view(self.metadata),
        }
    }
}

/// What a message to a human is about.
#[derive(Debug, Clone, Copy, PartialEq, Eq, Structural)]
pub enum OutboundMessageType {
    WorkflowStarted,
    AgentAssigned,
    AgentCompleted,
    WorkflowError,
    QuestionToHuman,
    ApprovalRequest,
    StatusUpdate,
    /// Anything that is shown as it stands.
    Other,
}

/// A message to a human.
#[derive(Debug, PartialEq, Eq)]
pub struct OutboundMessage {
    pub message_type: OutboundMessageType,
    pub target_channel: Option<String>,
    pub target_conversation: Option<String>,
    pub content: String,
    pub ticket_id: Option<String>,
    pub worker_id: Option<String>,
    pub metadata: serde_json::Value,
}

/// An [`OutboundMessage`] as a mathematical value.
pub struct OutboundMessageView {
    pub message_type: OutboundMessageType,
    pub target_channel: Option<Seq<char>>,
    pub target_conversation: Option<Seq<char>>,
    pub content: Seq<char>,
    pub ticket_id: Option<Seq<char>>,
    pub worker_id: Option<Seq<char>>,
    pub metadata: JsonView,
}

impl View for OutboundMessage {
    type V = OutboundMessageView;

    open spec fn view(&self) -> OutboundMessageView {
        OutboundMessageView {
            message_type: self.message_type,
            target_channel: optional(self.target_channel),
            target_conversation: optional(self.target_conversation),
            content: self.content@,
            ticket_id: optional(self.ticket_id),
            worker_id: optional(self.worker_id),
            metadata: json_view(self.metadata),
        }
    }
}

/// What a human asks of the system.
#[derive(Debug, PartialEq, Eq)]
pub enum SystemCommand {
    PauseWorkflow { ticket_id: String },
    ResumeWorkflow { ticket_id: String },
    ApproveCommand { worker_id: String },
    BlockAgent { worker_id: String, reason: String },
    RerouteAgent { from_worker: String, to_worker: String },
    AnswerQuestion { ticket_id: String, answer: String },
    StatusQuery,
    GeneralMessage { text: String },
}

/// A [`SystemCommand`] as a mathematical value.
pub enum SystemCommandView {
    PauseWorkflow { ticket_id: Seq<char> },
    ResumeWorkflow { ticket_id: Seq<char> },
    ApproveCommand { worker_id: Seq<char> },
    BlockAgent { worker_id: Seq<char>, reason: Seq<char> },
    RerouteAgent { from_worker: Seq<char>, to_worker: Seq<char> },
    AnswerQuestion { ticket_id: Seq<char>, answer: Seq<char> },
    StatusQuery,
    GeneralMessage { text: Seq<char> },
}

impl View for SystemCommand {
    type V = SystemCommandView;

    open spec fn view(&self) -> SystemCommandView {
        match *self {
            SystemCommand::PauseWorkflow { ticket_id } => SystemCommandView::PauseWorkflow {
                ticket_id: ticket_id@,
            },
            SystemCommand::ResumeWorkflow { ticket_id } => SystemCommandView::ResumeWorkflow {
                ticket_id: ticket_id@,
            },
            SystemCommand::ApproveCommand { worker_id } => SystemCommandView::ApproveCommand {
                worker_id: worker_id@,
            },
            SystemCommand::BlockAgent { worker_id, reason } => SystemCommandView::BlockAgent {
                worker_id: worker_id@,
                reason: reason@,
            },
            SystemCommand::RerouteAgent {
                from_worker,
                to_worker,
            } => SystemCommandView::RerouteAgent {
                from_worker: from_worker@,
                to_worker: to_worker@,
            },
            SystemCommand::AnswerQuestion {
                ticket_id,
                answer,
            } => SystemCommandView::AnswerQuestion { ticket_id: ticket_id@, answer: answer@ },
            SystemCommand::StatusQuery => SystemCommandView::StatusQuery,
            SystemCommand::GeneralMessage { text } => SystemCommandView::GeneralMessage {
                text: text@,
            },
        }
    }
}

} // verus!
