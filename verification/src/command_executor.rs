//! What system commands do to the shared store.
//!
//! A command reads tickets and worker slots and answers with the actions that
//! are to be carried out on the store, in their order. What is absent from the
//! store, or cannot be read, counts as empty.
use crate::json::{json_view, text_value, JsonView};
use crate::messages::{SystemCommand, SystemCommandView};
use crate::state::{
    find_ticket, ticket_position, ticket_views, with_status, Ticket, TicketStatus,
    TicketStatusView, TicketView, WorkerSlotView, WorkerSlots, WorkerStatus, WorkerStatusView,
};
use crate::text::optional;
use vstd::prelude::*;

verus! {

/// An action on the store.
#[derive(Debug)]
pub enum StoreAction {
    /// Store these tickets in place of those that are there.
    SetTickets { tickets: Vec<Ticket> },
    /// Store these slots in place of those that are there.
    SetWorkerSlots { slots: WorkerSlots },
    /// Store a value under a key of its own.
    SetValue { key: String, value: serde_json::Value },
    /// Let the command that a worker waits to run go through.
    ApproveCommand { worker_id: String },
}

/// A [`StoreAction`] as a mathematical value.
pub enum StoreActionView {
    SetTickets { tickets: Seq<TicketView> },
    SetWorkerSlots { slots: Map<Seq<char>, WorkerSlotView> },
    SetValue { key: Seq<char>, value: JsonView },
    ApproveCommand { worker_id: Seq<char> },
}

impl View for StoreAction {
    type V = StoreActionView;

    open spec fn view(&self) -> StoreActionView {
        match *self {
            StoreAction::SetTickets { tickets } => StoreActionView::SetTickets {
                tickets: ticket_views(tickets@),
            },
            StoreAction::SetWorkerSlots { slots } => StoreActionView::SetWorkerSlots {
                slots: slots@,
            },
            StoreAction::SetValue { key, value } => StoreActionView::SetValue {
                key: key@,
                value: json_view(value),
            },
            StoreAction::ApproveCommand { worker_id } => StoreActionView::ApproveCommand {
                worker_id: worker_id@,
            },
        }
    }
}

/// Actions as mathematical values, in their order.
pub open spec fn action_views(actions: Seq<StoreAction>) -> Seq<StoreActionView> {
    Seq::new(actions.len(), |i: int| actions[i]@)
}

/// Which part of the store a command reads, and in which order.
#[derive(Debug, Clone, Copy, PartialEq, Eq, Structural)]
pub enum StoreReads {
    Nothing,
    /// The tickets, then the slots where they are needed.
    TicketsThenSlots,
    /// The slots, then the tickets where they are needed.
    SlotsThenTickets,
}

/// Which part of the store a command reads.
pub open spec fn reads(command: SystemCommandView) -> StoreReads {
    match command {
        SystemCommandView::PauseWorkflow { .. } => StoreReads::TicketsThenSlots,
        SystemCommandView::ResumeWorkflow { .. } => StoreReads::TicketsThenSlots,
        SystemCommandView::BlockAgent { .. } => StoreReads::SlotsThenTickets,
        SystemCommandView::RerouteAgent { .. } => StoreReads::SlotsThenTickets,
        _ => StoreReads::Nothing,
    }
}

/// The worker who has a ticket in hand.
pub open spec fn worker_on(status: TicketStatusView) -> Option<Seq<char>> {
    match status {
        TicketStatusView::InProgress { worker_id } => Some(worker_id),
        TicketStatusView::Assigned { worker_id } => Some(worker_id),
        _ => None,
    }
}

/// The ticket that a worker has in hand.
pub open spec fn ticket_in_hand(status: WorkerStatusView) -> Option<Seq<char>> {
    match status {
        WorkerStatusView::Assigned { ticket_id, .. } => Some(ticket_id),
        WorkerStatusView::Working { ticket_id, .. } => Some(ticket_id),
        _ => None,
    }
}

/// The ticket that the worker of an id has in hand.
pub open spec fn ticket_of(
    slots: Map<Seq<char>, WorkerSlotView>,
    worker_id: Seq<char>,
) -> Option<Seq<char>> {
    if slots.contains_key(worker_id) {
        ticket_in_hand(slots[worker_id].status)
    } else {
        None
    }
}

/// Whether a command that has read the tickets reads the slots as well: where
/// it changes the status of a worker.
pub open spec fn reads_slots_after(command: SystemCommandView, tickets: Seq<TicketView>) -> bool {
    match command {
        SystemCommandView::PauseWorkflow { ticket_id } => match ticket_position(
            tickets,
            ticket_id,
        ) {
            Some(index) => worker_on(tickets[index].status) is Some,
            None => false,
        },
        SystemCommandView::ResumeWorkflow { ticket_id } => match ticket_position(
            tickets,
            ticket_id,
        ) {
            Some(index) => tickets[index].status is AwaitingHuman,
            None => false,
        },
        _ => false,
    }
}

/// Whether a command that has read the slots reads the tickets as well: where
/// it looks for a ticket.
pub open spec fn reads_tickets_after(
    command: SystemCommandView,
    slots: Map<Seq<char>, WorkerSlotView>,
) -> bool {
    match command {
        SystemCommandView::BlockAgent { worker_id, .. } => ticket_of(slots, worker_id) is Some,
        SystemCommandView::RerouteAgent { from_worker, to_worker } => ticket_of(
            slots,
            from_worker,
        ) is Some && slots.contains_key(to_worker),
        _ => false,
    }
}

/// Tickets of which the one at `index` has another status.
pub open spec fn with_ticket_status(
    tickets: Seq<TicketView>,
    index: int,
    status: TicketStatusView,
) -> Seq<TicketView> {
    tickets.update(index, TicketView { status, ..tickets[index] })
}

/// Tickets of which the one at `index` is open, with no attempts counted.
pub open spec fn reopened(tickets: Seq<TicketView>, index: int) -> Seq<TicketView> {
    tickets.update(
        index,
        TicketView { status: TicketStatusView::Open, attempts: 0, ..tickets[index] },
    )
}

/// What pausing a ticket does: where a worker has it in hand, it waits for a
/// human and the worker is suspended.
pub open spec fn pause_actions(
    tickets: Seq<TicketView>,
    slots: Map<Seq<char>, WorkerSlotView>,
    ticket_id: Seq<char>,
) -> Seq<StoreActionView> {
    match ticket_position(tickets, ticket_id) {
        Some(index) => match worker_on(tickets[index].status) {
            Some(worker_id) => seq![
                StoreActionView::SetWorkerSlots {
                    slots: with_status(
                        slots,
                        worker_id,
                        WorkerStatusView::Suspended {
                            ticket_id,
                            reason: "paused_by_human"@,
                            issue_url: tickets[index].issue_url,
                        },
                    ),
                },
                StoreActionView::SetTickets {
                    tickets: with_ticket_status(
                        tickets,
                        index,
                        TicketStatusView::AwaitingHuman {
                            worker_id,
                            reason: "paused_by_human"@,
                            attempts: 0,
                        },
                    ),
                },
            ],
            None => Seq::empty(),
        },
        None => Seq::empty(),
    }
}

/// What resuming a ticket does: where it waits for a human, it is open again,
/// with no attempts counted, and its worker is idle. The tickets are stored in
/// any case.
pub open spec fn resume_actions(
    tickets: Seq<TicketView>,
    slots: Map<Seq<char>, WorkerSlotView>,
    ticket_id: Seq<char>,
) -> Seq<StoreActionView> {
    match ticket_position(tickets, ticket_id) {
        Some(index) => match tickets[index].status {
            TicketStatusView::AwaitingHuman { worker_id, .. } => seq![
                StoreActionView::SetWorkerSlots {
                    slots: with_status(slots, worker_id, WorkerStatusView::Idle),
                },
                StoreActionView::SetTickets { tickets: reopened(tickets, index) },
            ],
            _ => seq![StoreActionView::SetTickets { tickets }],
        },
        None => seq![StoreActionView::SetTickets { tickets }],
    }
}

/// The reason noted for a block.
pub open spec fn block_reason(reason: Seq<char>) -> Seq<char> {
    "blocked_by_human: "@ + reason
}

/// What blocking a worker does: where it has a ticket in hand, it is suspended
/// and the ticket, where there is one of that id, waits for a human. The slots
/// are stored in any case.
pub open spec fn block_actions(
    tickets: Seq<TicketView>,
    slots: Map<Seq<char>, WorkerSlotView>,
    worker_id: Seq<char>,
    reason: Seq<char>,
) -> Seq<StoreActionView> {
    match ticket_of(slots, worker_id) {
        Some(ticket_id) => {
            let suspend = StoreActionView::SetWorkerSlots {
                slots: with_status(
                    slots,
                    worker_id,
                    WorkerStatusView::Suspended {
                        ticket_id,
                        reason: block_reason(reason),
                        issue_url: None,
                    },
                ),
            };
            match ticket_position(tickets, ticket_id) {
                Some(index) => seq![
                    StoreActionView::SetTickets {
                        tickets: with_ticket_status(
                            tickets,
                            index,
                            TicketStatusView::AwaitingHuman {
                                worker_id,
                                reason: block_reason(reason),
                                attempts: 0,
                            },
                        ),
                    },
                    suspend,
                ],
                None => seq![suspend],
            }
        },
        None => seq![StoreActionView::SetWorkerSlots { slots }],
    }
}

/// What rerouting a worker's ticket does: the worker is idle; where the other
/// worker has a slot and there is a ticket of that id, the ticket is assigned
/// to the other worker. The slots are stored in any case.
pub open spec fn reroute_actions(
    tickets: Seq<TicketView>,
    slots: Map<Seq<char>, WorkerSlotView>,
    from_worker: Seq<char>,
    to_worker: Seq<char>,
) -> Seq<StoreActionView> {
    match ticket_of(slots, from_worker) {
        Some(ticket_id) => {
            let freed = with_status(slots, from_worker, WorkerStatusView::Idle);
            match ticket_position(tickets, ticket_id) {
                Some(index) if freed.contains_key(to_worker) => seq![
                    StoreActionView::SetTickets {
                        tickets: with_ticket_status(
                            tickets,
                            index,
                            TicketStatusView::Assigned { worker_id: to_worker },
                        ),
                    },
                    StoreActionView::SetWorkerSlots {
                        slots: with_status(
                            freed,
                            to_worker,
                            WorkerStatusView::Assigned {
                                ticket_id,
                                issue_url: tickets[index].issue_url,
                            },
                        ),
                    },
                ],
                _ => seq![StoreActionView::SetWorkerSlots { slots: freed }],
            }
        },
        None => seq![StoreActionView::SetWorkerSlots { slots }],
    }
}

/// The key under which the answer to a ticket's question is stored.
pub open spec fn answer_key(ticket_id: Seq<char>) -> Seq<char> {
    "human_response:"@ + ticket_id
}

/// What a command does.
pub open spec fn command_actions(
    command: SystemCommandView,
    tickets: Seq<TicketView>,
    slots: Map<Seq<char>, WorkerSlotView>,
) -> Seq<StoreActionView> {
    match command {
        SystemCommandView::PauseWorkflow { ticket_id } => pause_actions(tickets, slots, ticket_id),
        SystemCommandView::ResumeWorkflow { ticket_id } => resume_actions(
            tickets,
            slots,
            ticket_id,
        ),
        SystemCommandView::ApproveCommand { worker_id } => seq![
            StoreActionView::ApproveCommand { worker_id },
        ],
        SystemCommandView::BlockAgent { worker_id, reason } => block_actions(
            tickets,
            slots,
            worker_id,
            reason,
        ),
        SystemCommandView::RerouteAgent { from_worker, to_worker } => reroute_actions(
            tickets,
            slots,
            from_worker,
            to_worker,
        ),
        SystemCommandView::AnswerQuestion { ticket_id, answer } => seq![
            StoreActionView::SetValue { key: answer_key(ticket_id), value: JsonView::Text(answer) },
        ],
        SystemCommandView::StatusQuery => Seq::empty(),
        SystemCommandView::GeneralMessage { .. } => Seq::empty(),
    }
}

/// Which part of the store a command reads, and in which order.
pub fn store_reads(cmd: &SystemCommand) -> (answer: StoreReads)
    ensures
        answer == reads(cmd@),
{
    match cmd {
        SystemCommand::PauseWorkflow { .. }
        | SystemCommand::ResumeWorkflow { .. } => StoreReads::TicketsThenSlots,
        SystemCommand::BlockAgent { .. }
        | SystemCommand::RerouteAgent { .. } => StoreReads::SlotsThenTickets,
        SystemCommand::ApproveCommand { .. }
        | SystemCommand::AnswerQuestion { .. }
        | SystemCommand::StatusQuery
        | SystemCommand::GeneralMessage { .. } => StoreReads::Nothing,
    }
}

/// Whether a command that has read the tickets reads the slots as well.
pub fn needs_slots(cmd: &SystemCommand, tickets: &Vec<Ticket>) -> (answer: bool)
    ensures
        answer == reads_slots_after(cmd@, ticket_views(tickets@)),
{
    match cmd {
        SystemCommand::PauseWorkflow { ticket_id } => match find_ticket(
            tickets,
            ticket_id.as_str(),
        ) {
            Some(index) => match &tickets[index].status {
                TicketStatus::InProgress { .. } | TicketStatus::Assigned { .. } => true,
                _ => false,
            },
            None => false,
        },
        SystemCommand::ResumeWorkflow { ticket_id } => match find_ticket(
            tickets,
            ticket_id.as_str(),
        ) {
            Some(index) => match &tickets[index].status {
                TicketStatus::AwaitingHuman { .. } => true,
                _ => false,
            },
            None => false,
        },
        _ => false,
    }
}

/// Whether a command that has read the slots reads the tickets as well.
pub fn needs_tickets(cmd: &SystemCommand, slots: &WorkerSlots) -> (answer: bool)
    ensures
        answer == reads_tickets_after(cmd@, slots@),
{
    match cmd {
        SystemCommand::BlockAgent { worker_id, .. } => held_ticket(
            slots,
            worker_id.as_str(),
        ).is_some(),
        SystemCommand::RerouteAgent { from_worker, to_worker } => held_ticket(
            slots,
            from_worker.as_str(),
        ).is_some() && slots.get(to_worker.as_str()).is_some(),
        _ => false,
    }
}

/// What a command does, given the tickets and slots that are stored.
pub fn execute_system_command(
    cmd: &SystemCommand,
    tickets: Vec<Ticket>,
    slots: WorkerSlots,
) -> (actions: Vec<StoreAction>)
    ensures
        action_views(actions@) == command_actions(cmd@, ticket_views(tickets@), slots@),
{
    match cmd {
        SystemCommand::PauseWorkflow { ticket_id } => pause_ticket(
            tickets,
            slots,
            ticket_id.as_str(),
        ),
        SystemCommand::ResumeWorkflow { ticket_id } => resume_ticket(
            tickets,
            slots,
            ticket_id.as_str(),
        ),
        SystemCommand::ApproveCommand { worker_id } => {
            let mut actions: Vec<StoreAction> = Vec::new();
            actions.push(StoreAction::ApproveCommand { worker_id: worker_id.clone() });
            actions
        },
        SystemCommand::BlockAgent { worker_id, reason } => block_worker(
            tickets,
            slots,
            worker_id.as_str(),
            reason.as_str(),
        ),
        SystemCommand::RerouteAgent { from_worker, to_worker } => reroute_work(
            tickets,
            slots,
            from_worker.as_str(),
            to_worker.as_str(),
        ),
        SystemCommand::AnswerQuestion { ticket_id, answer } => {
            let mut actions: Vec<StoreAction> = Vec::new();
            actions.push(
                StoreAction::SetValue {
                    key: "human_response:".to_owned().concat(ticket_id.as_str()),
                    value: text_value(answer.clone()),
                },
            );
            actions
        },
        SystemCommand::StatusQuery | SystemCommand::GeneralMessage { .. } => Vec::new(),
    }
}

/// Copies a text that may be there.
fn copy_optional(text: &Option<String>) -> (copy: Option<String>)
    ensures
        optional(copy) == optional(*text),
{
    match text {
        Some(inner) => Some(inner.clone()),
        None => None,
    }
}

/// Gives a ticket another status.
fn set_ticket_status(tickets: &mut Vec<Ticket>, index: usize, status: TicketStatus)
    requires
        index < old(tickets)@.len(),
    ensures
        ticket_views(final(tickets)@) == with_ticket_status(
            ticket_views(old(tickets)@),
            index as int,
            status@,
        ),
{
    tickets[index].status = status;
}

/// Opens a ticket again, with no attempts counted.
fn reopen(tickets: &mut Vec<Ticket>, index: usize)
    requires
        index < old(tickets)@.len(),
    ensures
        ticket_views(final(tickets)@) == reopened(ticket_views(old(tickets)@), index as int),
{
    tickets[index].status = TicketStatus::Open;
    tickets[index].attempts = 0;
}

/// Pauses a ticket.
pub fn pause_ticket(mut tickets: Vec<Ticket>, mut slots: WorkerSlots, ticket_id: &str) -> (actions:
    Vec<StoreAction>)
    ensures
        action_views(actions@) == pause_actions(ticket_views(tickets@), slots@, ticket_id@),
{
    let mut actions: Vec<StoreAction> = Vec::new();
    if let Some(index) = find_ticket(&tickets, ticket_id) {
        let worker_id = match &tickets[index].status {
            TicketStatus::InProgress { worker_id } => worker_id.clone(),
            TicketStatus::Assigned { worker_id } => worker_id.clone(),
            _ => {
                return actions;
            },
        };
        slots.set_status(
            worker_id.as_str(),
            WorkerStatus::Suspended {
                ticket_id: ticket_id.to_owned(),
                reason: "paused_by_human".to_owned(),
                issue_url: copy_optional(&tickets[index].issue_url),
            },
        );
        set_ticket_status(
            &mut tickets,
            index,
            TicketStatus::AwaitingHuman {
                worker_id,
                reason: "paused_by_human".to_owned(),
                attempts: 0,
            },
        );
        actions.push(StoreAction::SetWorkerSlots { slots });
        actions.push(StoreAction::SetTickets { tickets });
    }
    actions
}

/// Resumes a ticket.
pub fn resume_ticket(mut tickets: Vec<Ticket>, mut slots: WorkerSlots, ticket_id: &str) -> (actions:
    Vec<StoreAction>)
    ensures
        action_views(actions@) == resume_actions(ticket_views(tickets@), slots@, ticket_id@),
{
    let mut actions: Vec<StoreAction> = Vec::new();
    if let Some(index) = find_ticket(&tickets, ticket_id) {
        let waiting = match &tickets[index].status {
            TicketStatus::AwaitingHuman { worker_id, .. } => Some(worker_id.clone()),
            _ => None,
        };
        if let Some(worker_id) = waiting {
            reopen(&mut tickets, index);
            slots.set_status(worker_id.as_str(), WorkerStatus::Idle);
            actions.push(StoreAction::SetWorkerSlots { slots });
        }
    }
    actions.push(StoreAction::SetTickets { tickets });
    actions
}

/// The ticket that a worker has in hand.
fn held_ticket(slots: &WorkerSlots, worker_id: &str) -> (ticket_id: Option<String>)
    ensures
        optional(ticket_id) == ticket_of(slots@, worker_id@),
{
    match slots.get(worker_id) {
        Some(slot) => match &slot.status {
            WorkerStatus::Assigned { ticket_id, .. } => Some(ticket_id.clone()),
            WorkerStatus::Working { ticket_id, .. } => Some(ticket_id.clone()),
            _ => None,
        },
        None => None,
    }
}

/// Blocks a worker.
pub fn block_worker(
    mut tickets: Vec<Ticket>,
    mut slots: WorkerSlots,
    worker_id: &str,
    reason: &str,
) -> (actions: Vec<StoreAction>)
    ensures
        action_views(actions@) == block_actions(
            ticket_views(tickets@),
            slots@,
            worker_id@,
            reason@,
        ),
{
    let mut actions: Vec<StoreAction> = Vec::new();
    if let Some(ticket_id) = held_ticket(&slots, worker_id) {
        if let Some(index) = find_ticket(&tickets, ticket_id.as_str()) {
            set_ticket_status(
                &mut tickets,
                index,
                TicketStatus::AwaitingHuman {
                    worker_id: worker_id.to_owned(),
                    reason: "blocked_by_human: ".to_owned().concat(reason),
                    attempts: 0,
                },
            );
            actions.push(StoreAction::SetTickets { tickets });
        }
        slots.set_status(
            worker_id,
            WorkerStatus::Suspended {
                ticket_id,
                reason: "blocked_by_human: ".to_owned().concat(reason),
                issue_url: None,
            },
        );
    }
    actions.push(StoreAction::SetWorkerSlots { slots });
    actions
}

/// Reroutes the ticket that a worker has in hand to another worker.
pub fn reroute_work(
    mut tickets: Vec<Ticket>,
    mut slots: WorkerSlots,
    from_worker: &str,
    to_worker: &str,
) -> (actions: Vec<StoreAction>)
    ensures
        action_views(actions@) == reroute_actions(
            ticket_views(tickets@),
            slots@,
            from_worker@,
            to_worker@,
        ),
{
    let mut actions: Vec<StoreAction> = Vec::new();
    if let Some(ticket_id) = held_ticket(&slots, from_worker) {
        slots.set_status(from_worker, WorkerStatus::Idle);
        if slots.get(to_worker).is_some() {
            if let Some(index) = find_ticket(&tickets, ticket_id.as_str()) {
                let issue_url = copy_optional(&tickets[index].issue_url);
                set_ticket_status(
                    &mut tickets,
                    index,
                    TicketStatus::Assigned { worker_id: to_worker.to_owned() },
                );
                slots.set_status(to_worker, WorkerStatus::Assigned { ticket_id, issue_url });
                actions.push(StoreAction::SetTickets { tickets });
            }
        }
    }
    actions.push(StoreAction::SetWorkerSlots { slots });
    actions
}

} // verus!
