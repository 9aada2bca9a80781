//! What holds of the commands, one by one and one after the other, once their
//! actions are carried out.
use crate::command_executor::{
    action_views, answer_key, block_actions, block_reason, command_actions, pause_actions, reads,
    reads_slots_after, reads_tickets_after, reopened, reroute_actions, resume_actions, ticket_of,
    worker_on, StoreAction, StoreActionView, StoreReads,
};
use crate::json::{json_view, JsonView};
use crate::messages::{SystemCommand, SystemCommandView};
use crate::state::{
    is_first_ticket, lemma_first_ticket, ticket_position, with_status, TicketStatusView,
    TicketView, WorkerSlotView, WorkerStatusView,
};
use vstd::prelude::*;

verus! {

/// The store: tickets, worker slots, values under keys of their own, and the
/// workers whose commands were approved.
pub struct StoreView {
    pub tickets: Seq<TicketView>,
    pub slots: Map<Seq<char>, WorkerSlotView>,
    pub values: Map<Seq<char>, JsonView>,
    pub approved: Seq<Seq<char>>,
}

/// The store after an action.
pub open spec fn after_action(store: StoreView, action: StoreActionView) -> StoreView {
    match action {
        StoreActionView::SetTickets { tickets } => StoreView { tickets, ..store },
        StoreActionView::SetWorkerSlots { slots } => StoreView { slots, ..store },
        StoreActionView::SetValue { key, value } => StoreView {
            values: store.values.insert(key, value),
            ..store
        },
        StoreActionView::ApproveCommand { worker_id } => StoreView {
            approved: store.approved.push(worker_id),
            ..store
        },
    }
}

/// The store after some actions, one after the other.
pub open spec fn after_actions(store: StoreView, actions: Seq<StoreActionView>) -> StoreView
    decreases actions.len(),
{
    if actions.len() == 0 {
        store
    } else {
        after_action(after_actions(store, actions.drop_last()), actions.last())
    }
}

/// The store after a command.
pub open spec fn after_command(store: StoreView, command: SystemCommandView) -> StoreView {
    after_actions(store, command_actions(command, store.tickets, store.slots))
}

/// No action, one action, or two actions one after the other.
proof fn lemma_few_actions(store: StoreView, actions: Seq<StoreActionView>)
    ensures
        actions.len() == 0 ==> after_actions(store, actions) == store,
        actions.len() == 1 ==> after_actions(store, actions) == after_action(store, actions[0]),
        actions.len() == 2 ==> after_actions(store, actions) == after_action(
            after_action(store, actions[0]),
            actions[1],
        ),
{
    reveal_with_fuel(after_actions, 3);
}

/// Giving a ticket another status leaves every ticket where it is found.
proof fn lemma_positions_stay(before: Seq<TicketView>, after: Seq<TicketView>, id: Seq<char>)
    requires
        before.len() == after.len(),
        forall|i: int| 0 <= i < before.len() ==> (#[trigger] after[i]).id == before[i].id,
    ensures
        ticket_position(after, id) == ticket_position(before, id),
{
    if exists|index: int| is_first_ticket(before, id, index) {
        let index = choose|index: int| is_first_ticket(before, id, index);
        lemma_first_ticket(before, id, index);
        lemma_first_ticket(after, id, index);
    } else if exists|index: int| is_first_ticket(after, id, index) {
        let index = choose|index: int| is_first_ticket(after, id, index);
        assert forall|earlier: int| 0 <= earlier < index implies before[earlier].id != id by {
            assert(after[earlier].id != id);
        }
        assert(is_first_ticket(before, id, index));
    }
}

/// A ticket that is found is in its place.
proof fn lemma_position(tickets: Seq<TicketView>, id: Seq<char>)
    ensures
        ticket_position(tickets, id) matches Some(index) ==> is_first_ticket(tickets, id, index),
{
}

/// What a command does not read makes no difference to what it does.
pub proof fn unread_part_makes_no_difference(
    command: SystemCommandView,
    tickets: Seq<TicketView>,
    other_tickets: Seq<TicketView>,
    slots: Map<Seq<char>, WorkerSlotView>,
    other_slots: Map<Seq<char>, WorkerSlotView>,
)
    ensures
        reads(command) == StoreReads::Nothing ==> command_actions(command, tickets, slots)
            == command_actions(command, other_tickets, other_slots),
        reads(command) == StoreReads::TicketsThenSlots && !reads_slots_after(command, tickets)
            ==> command_actions(command, tickets, slots) == command_actions(
            command,
            tickets,
            other_slots,
        ),
        reads(command) == StoreReads::SlotsThenTickets && !reads_tickets_after(command, slots)
            ==> command_actions(command, tickets, slots) == command_actions(
            command,
            other_tickets,
            slots,
        ),
{
}

/// No command adds, removes, reorders or renames a ticket, or changes what is
/// stored of it beside its status and its attempts. Only resuming changes the
/// attempts, to none.
pub proof fn commands_keep_tickets(store: StoreView, command: SystemCommandView)
    ensures
        after_command(store, command).tickets.len() == store.tickets.len(),
        forall|i: int|
            #![trigger after_command(store, command).tickets[i]]
            0 <= i < store.tickets.len() ==> {
                let before = store.tickets[i];
                let after = after_command(store, command).tickets[i];
                &&& after.id == before.id
                &&& after.issue_url == before.issue_url
                &&& after.details == before.details
                &&& after.attempts == before.attempts || command is ResumeWorkflow
                    && after.attempts == 0
            },
{
    let actions = command_actions(command, store.tickets, store.slots);
    lemma_few_actions(store, actions);
}

/// A command changes one ticket at most.
pub proof fn commands_change_one_ticket(
    store: StoreView,
    command: SystemCommandView,
    i: int,
    j: int,
)
    requires
        0 <= i < store.tickets.len(),
        0 <= j < store.tickets.len(),
        after_command(store, command).tickets[i] != store.tickets[i],
        after_command(store, command).tickets[j] != store.tickets[j],
    ensures
        i == j,
{
    let actions = command_actions(command, store.tickets, store.slots);
    lemma_few_actions(store, actions);
}

/// No command adds or removes a worker, or changes what is stored of it beside
/// its status.
pub proof fn commands_keep_workers(store: StoreView, command: SystemCommandView)
    ensures
        after_command(store, command).slots.dom() == store.slots.dom(),
        forall|id: Seq<char>| #[trigger]
            store.slots.contains_key(id) ==> after_command(store, command).slots[id].details
                == store.slots[id].details,
{
    let actions = command_actions(command, store.tickets, store.slots);
    lemma_few_actions(store, actions);
}

/// The worker that a command to a ticket reaches.
pub open spec fn worker_of_ticket(tickets: Seq<TicketView>, ticket_id: Seq<char>) -> Option<
    Seq<char>,
> {
    match ticket_position(tickets, ticket_id) {
        Some(index) => match tickets[index].status {
            TicketStatusView::AwaitingHuman { worker_id, .. } => Some(worker_id),
            status => worker_on(status),
        },
        None => None,
    }
}

/// Whether a command may reach a worker: the one that it names, or the one on
/// the ticket that it names.
pub open spec fn may_reach(
    store: StoreView,
    command: SystemCommandView,
    worker_id: Seq<char>,
) -> bool {
    match command {
        SystemCommandView::PauseWorkflow { ticket_id } => worker_of_ticket(
            store.tickets,
            ticket_id,
        ) == Some(worker_id),
        SystemCommandView::ResumeWorkflow { ticket_id } => worker_of_ticket(
            store.tickets,
            ticket_id,
        ) == Some(worker_id),
        SystemCommandView::BlockAgent { worker_id: named, .. } => worker_id == named,
        SystemCommandView::RerouteAgent { from_worker, to_worker } => worker_id == from_worker
            || worker_id == to_worker,
        _ => false,
    }
}

/// A command leaves every worker alone that it neither names nor reaches
/// through the ticket that it names.
pub proof fn commands_leave_others_alone(
    store: StoreView,
    command: SystemCommandView,
    worker_id: Seq<char>,
)
    requires
        store.slots.contains_key(worker_id),
        !may_reach(store, command, worker_id),
    ensures
        after_command(store, command).slots[worker_id] == store.slots[worker_id],
{
    let actions = command_actions(command, store.tickets, store.slots);
    lemma_few_actions(store, actions);
}

/// Pausing a ticket that a worker has in hand and resuming it frees both: the
/// ticket is open with no attempts counted, the worker, where it has a slot,
/// is idle, and all else is as it was.
pub proof fn resume_after_pause_frees(
    store: StoreView,
    ticket_id: Seq<char>,
    index: int,
    worker_id: Seq<char>,
)
    requires
        ticket_position(store.tickets, ticket_id) == Some(index),
        worker_on(store.tickets[index].status) == Some(worker_id),
    ensures
        ({
            let paused = after_command(store, SystemCommandView::PauseWorkflow { ticket_id });
            let resumed = after_command(paused, SystemCommandView::ResumeWorkflow { ticket_id });
            &&& resumed.tickets == reopened(store.tickets, index)
            &&& resumed.slots == with_status(store.slots, worker_id, WorkerStatusView::Idle)
            &&& resumed.values == store.values
            &&& resumed.approved == store.approved
        }),
{
    let pause = SystemCommandView::PauseWorkflow { ticket_id };
    let resume = SystemCommandView::ResumeWorkflow { ticket_id };
    let paused = after_command(store, pause);
    lemma_position(store.tickets, ticket_id);
    lemma_few_actions(store, command_actions(pause, store.tickets, store.slots));
    lemma_few_actions(paused, command_actions(resume, paused.tickets, paused.slots));
    commands_keep_tickets(store, pause);
    lemma_positions_stay(store.tickets, paused.tickets, ticket_id);
}

/// Pausing a paused ticket does nothing.
pub proof fn pause_is_done_once(store: StoreView, ticket_id: Seq<char>)
    ensures
        ({
            let pause = SystemCommandView::PauseWorkflow { ticket_id };
            let paused = after_command(store, pause);
            command_actions(pause, paused.tickets, paused.slots).len() == 0
        }),
{
    let pause = SystemCommandView::PauseWorkflow { ticket_id };
    let paused = after_command(store, pause);
    lemma_position(store.tickets, ticket_id);
    lemma_few_actions(store, command_actions(pause, store.tickets, store.slots));
    commands_keep_tickets(store, pause);
    lemma_positions_stay(store.tickets, paused.tickets, ticket_id);
}

/// Resuming a resumed ticket changes nothing.
pub proof fn resume_twice_is_resume(store: StoreView, ticket_id: Seq<char>)
    ensures
        ({
            let resume = SystemCommandView::ResumeWorkflow { ticket_id };
            after_command(after_command(store, resume), resume) == after_command(store, resume)
        }),
{
    let resume = SystemCommandView::ResumeWorkflow { ticket_id };
    let resumed = after_command(store, resume);
    lemma_position(store.tickets, ticket_id);
    lemma_few_actions(store, command_actions(resume, store.tickets, store.slots));
    lemma_few_actions(resumed, command_actions(resume, resumed.tickets, resumed.slots));
    commands_keep_tickets(store, resume);
    lemma_positions_stay(store.tickets, resumed.tickets, ticket_id);
}

/// Blocking a worker who has a ticket in hand suspends it with the reason; the
/// ticket, where there is one of that id, waits for a human with the same
/// reason. One who has none in hand is left as it is.
pub proof fn block_suspends(store: StoreView, worker_id: Seq<char>, reason: Seq<char>)
    ensures
        ({
            let blocked = after_command(store, SystemCommandView::BlockAgent { worker_id, reason });
            match ticket_of(store.slots, worker_id) {
                Some(ticket_id) => {
                    &&& blocked.slots[worker_id].status == (WorkerStatusView::Suspended {
                        ticket_id,
                        reason: block_reason(reason),
                        issue_url: None,
                    })
                    &&& ticket_position(store.tickets, ticket_id) matches Some(index)
                        ==> blocked.tickets[index].status == (TicketStatusView::AwaitingHuman {
                        worker_id,
                        reason: block_reason(reason),
                        attempts: 0,
                    })
                },
                None => blocked == store,
            }
        }),
{
    let block = SystemCommandView::BlockAgent { worker_id, reason };
    lemma_few_actions(store, command_actions(block, store.tickets, store.slots));
    if let Some(ticket_id) = ticket_of(store.slots, worker_id) {
        lemma_position(store.tickets, ticket_id);
    }
}

/// Resuming the ticket of a blocked worker frees both.
pub proof fn resume_after_block_frees(
    store: StoreView,
    worker_id: Seq<char>,
    reason: Seq<char>,
    ticket_id: Seq<char>,
    index: int,
)
    requires
        ticket_of(store.slots, worker_id) == Some(ticket_id),
        ticket_position(store.tickets, ticket_id) == Some(index),
    ensures
        ({
            let blocked = after_command(store, SystemCommandView::BlockAgent { worker_id, reason });
            let resumed = after_command(blocked, SystemCommandView::ResumeWorkflow { ticket_id });
            &&& resumed.tickets == reopened(store.tickets, index)
            &&& resumed.slots == with_status(store.slots, worker_id, WorkerStatusView::Idle)
            &&& resumed.values == store.values
            &&& resumed.approved == store.approved
        }),
{
    let block = SystemCommandView::BlockAgent { worker_id, reason };
    let resume = SystemCommandView::ResumeWorkflow { ticket_id };
    let blocked = after_command(store, block);
    lemma_position(store.tickets, ticket_id);
    lemma_few_actions(store, command_actions(block, store.tickets, store.slots));
    lemma_few_actions(blocked, command_actions(resume, blocked.tickets, blocked.slots));
    commands_keep_tickets(store, block);
    lemma_positions_stay(store.tickets, blocked.tickets, ticket_id);
}

/// Rerouting a ticket to a worker who has a slot moves it: the ticket is
/// assigned to that worker, the worker has the ticket in hand, and the worker
/// who had it is idle.
pub proof fn reroute_moves_ticket(
    store: StoreView,
    from_worker: Seq<char>,
    to_worker: Seq<char>,
    ticket_id: Seq<char>,
    index: int,
)
    requires
        ticket_of(store.slots, from_worker) == Some(ticket_id),
        ticket_position(store.tickets, ticket_id) == Some(index),
        store.slots.contains_key(to_worker),
    ensures
        ({
            let after = after_command(
                store,
                SystemCommandView::RerouteAgent { from_worker, to_worker },
            );
            &&& after.tickets[index].status == (TicketStatusView::Assigned { worker_id: to_worker })
            &&& after.slots[to_worker].status == (WorkerStatusView::Assigned {
                ticket_id,
                issue_url: store.tickets[index].issue_url,
            })
            &&& from_worker != to_worker ==> after.slots[from_worker].status
                == WorkerStatusView::Idle
        }),
{
    let reroute = SystemCommandView::RerouteAgent { from_worker, to_worker };
    lemma_position(store.tickets, ticket_id);
    lemma_few_actions(store, command_actions(reroute, store.tickets, store.slots));
}

/// Rerouting to a worker who has no slot leaves the tickets as they are and
/// the worker who had one idle.
pub proof fn reroute_to_nobody_frees_worker(
    store: StoreView,
    from_worker: Seq<char>,
    to_worker: Seq<char>,
)
    requires
        ticket_of(store.slots, from_worker) is Some,
        !store.slots.contains_key(to_worker),
    ensures
        ({
            let after = after_command(
                store,
                SystemCommandView::RerouteAgent { from_worker, to_worker },
            );
            &&& after.tickets == store.tickets
            &&& after.slots == with_status(store.slots, from_worker, WorkerStatusView::Idle)
        }),
{
    let reroute = SystemCommandView::RerouteAgent { from_worker, to_worker };
    lemma_few_actions(store, command_actions(reroute, store.tickets, store.slots));
}

/// Rerouting a ticket to an idle worker and back restores the store, where the
/// ticket was assigned to the first worker and that worker had it, with its
/// URL.
pub proof fn reroute_back_restores(
    store: StoreView,
    worker: Seq<char>,
    other: Seq<char>,
    ticket_id: Seq<char>,
    index: int,
)
    requires
        worker != other,
        ticket_position(store.tickets, ticket_id) == Some(index),
        store.tickets[index].status == (TicketStatusView::Assigned { worker_id: worker }),
        store.slots.contains_key(worker),
        store.slots[worker].status == (WorkerStatusView::Assigned {
            ticket_id,
            issue_url: store.tickets[index].issue_url,
        }),
        store.slots.contains_key(other),
        store.slots[other].status == WorkerStatusView::Idle,
    ensures
        ({
            let moved = after_command(
                store,
                SystemCommandView::RerouteAgent { from_worker: worker, to_worker: other },
            );
            after_command(
                moved,
                SystemCommandView::RerouteAgent { from_worker: other, to_worker: worker },
            ) == store
        }),
{
    let there = SystemCommandView::RerouteAgent { from_worker: worker, to_worker: other };
    let back = SystemCommandView::RerouteAgent { from_worker: other, to_worker: worker };
    let moved = after_command(store, there);
    lemma_position(store.tickets, ticket_id);
    lemma_few_actions(store, command_actions(there, store.tickets, store.slots));
    lemma_few_actions(moved, command_actions(back, moved.tickets, moved.slots));
    commands_keep_tickets(store, there);
    lemma_positions_stay(store.tickets, moved.tickets, ticket_id);
    let restored = after_command(moved, back);
    assert(restored.tickets =~= store.tickets);
    assert(restored.slots =~= store.slots);
}

/// Blocking a worker a second time, for whatever reason, leaves the store as
/// the first block left it.
pub proof fn block_is_done_once(
    store: StoreView,
    worker_id: Seq<char>,
    reason: Seq<char>,
    other_reason: Seq<char>,
)
    ensures
        ({
            let blocked = after_command(store, SystemCommandView::BlockAgent { worker_id, reason });
            after_command(
                blocked,
                SystemCommandView::BlockAgent { worker_id, reason: other_reason },
            ) == blocked
        }),
{
    let first = SystemCommandView::BlockAgent { worker_id, reason };
    let second = SystemCommandView::BlockAgent { worker_id, reason: other_reason };
    let blocked = after_command(store, first);
    lemma_few_actions(store, command_actions(first, store.tickets, store.slots));
    lemma_few_actions(blocked, command_actions(second, blocked.tickets, blocked.slots));
}

/// Answers are found under the key of their ticket, tickets do not share keys,
/// and answering changes nothing else.
pub proof fn answers_are_kept_apart(
    store: StoreView,
    ticket_id: Seq<char>,
    answer: Seq<char>,
    other: Seq<char>,
)
    ensures
        ({
            let after = after_command(
                store,
                SystemCommandView::AnswerQuestion { ticket_id, answer },
            );
            &&& after.values == store.values.insert(answer_key(ticket_id), JsonView::Text(answer))
            &&& after.tickets == store.tickets
            &&& after.slots == store.slots
            &&& after.approved == store.approved
        }),
        answer_key(other) == answer_key(ticket_id) ==> other == ticket_id,
{
    let command = SystemCommandView::AnswerQuestion { ticket_id, answer };
    lemma_few_actions(store, command_actions(command, store.tickets, store.slots));
    let prefix = "human_response:"@;
    if answer_key(other) == answer_key(ticket_id) {
        assert((prefix + ticket_id).skip(prefix.len() as int) =~= ticket_id);
    }
}

/// Asking for the status, or chatting, changes nothing; approving changes
/// nothing but what is approved.
pub proof fn queries_change_nothing(store: StoreView, command: SystemCommandView)
    ensures
        command is StatusQuery || command is GeneralMessage ==> after_command(store, command)
            == store,
        command matches SystemCommandView::ApproveCommand { worker_id } ==> after_command(
            store,
            command,
        ) == (StoreView { approved: store.approved.push(worker_id), ..store }),
{
    lemma_few_actions(store, command_actions(command, store.tickets, store.slots));
}

/// Whether a worker of some status has a ticket in hand: it is assigned to the
/// ticket or works on it.
pub open spec fn has_in_hand(status: WorkerStatusView, ticket_id: Seq<char>) -> bool {
    ||| status matches WorkerStatusView::Assigned { ticket_id: held, .. } && held == ticket_id
    ||| status matches WorkerStatusView::Working { ticket_id: held, .. } && held == ticket_id
}

/// Whether a ticket is the first of its id.
pub open spec fn leads(tickets: Seq<TicketView>, ticket_id: Seq<char>, index: int) -> bool {
    &&& 0 <= index < tickets.len()
    &&& tickets[index].id == ticket_id
    &&& forall|i: int| 0 <= i < index ==> (#[trigger] tickets[i]).id != ticket_id
}

/// Whether no ticket has an id.
pub open spec fn is_absent(tickets: Seq<TicketView>, ticket_id: Seq<char>) -> bool {
    forall|i: int| 0 <= i < tickets.len() ==> (#[trigger] tickets[i]).id != ticket_id
}

/// Pausing a ticket that is assigned to a worker or in progress with one makes
/// the ticket wait for a human and suspends the worker, where it has a slot,
/// whatever the slot's status was. Nothing else changes. The slots are stored
/// before the tickets.
pub proof fn pause_suspends(
    store: StoreView,
    ticket_id: Seq<char>,
    index: int,
    worker_id: Seq<char>,
)
    requires
        leads(store.tickets, ticket_id, index),
        store.tickets[index].status == (TicketStatusView::Assigned { worker_id })
            || store.tickets[index].status == (TicketStatusView::InProgress { worker_id }),
    ensures
        ({
            let pause = SystemCommandView::PauseWorkflow { ticket_id };
            let actions = command_actions(pause, store.tickets, store.slots);
            let after = after_command(store, pause);
            &&& after.tickets == store.tickets.update(
                index,
                TicketView {
                    status: TicketStatusView::AwaitingHuman {
                        worker_id,
                        reason: "paused_by_human"@,
                        attempts: 0,
                    },
                    ..store.tickets[index]
                },
            )
            &&& after.slots.dom() == store.slots.dom()
            &&& store.slots.contains_key(worker_id) ==> after.slots[worker_id] == (WorkerSlotView {
                status: WorkerStatusView::Suspended {
                    ticket_id,
                    reason: "paused_by_human"@,
                    issue_url: store.tickets[index].issue_url,
                },
                details: store.slots[worker_id].details,
            })
            &&& forall|other: Seq<char>|
                store.slots.contains_key(other) && other != worker_id
                    ==> #[trigger] after.slots[other] == store.slots[other]
            &&& after.values == store.values
            &&& after.approved == store.approved
            &&& actions.len() == 2
            &&& actions[0] is SetWorkerSlots
            &&& actions[1] is SetTickets
        }),
{
    let pause = SystemCommandView::PauseWorkflow { ticket_id };
    lemma_first_ticket(store.tickets, ticket_id, index);
    lemma_few_actions(store, command_actions(pause, store.tickets, store.slots));
}

/// Pausing a ticket that no worker has, or that is not there, does nothing.
pub proof fn pause_needs_worker(store: StoreView, ticket_id: Seq<char>, index: int)
    requires
        is_absent(store.tickets, ticket_id) || leads(store.tickets, ticket_id, index) && !(
        store.tickets[index].status is Assigned) && !(store.tickets[index].status is InProgress),
    ensures
        ({
            let pause = SystemCommandView::PauseWorkflow { ticket_id };
            &&& command_actions(pause, store.tickets, store.slots).len() == 0
            &&& after_command(store, pause) == store
        }),
{
    let pause = SystemCommandView::PauseWorkflow { ticket_id };
    if leads(store.tickets, ticket_id, index) {
        lemma_first_ticket(store.tickets, ticket_id, index);
    }
    lemma_few_actions(store, command_actions(pause, store.tickets, store.slots));
}

/// Resuming a ticket that waits for a human, for whatever reason and after
/// however many attempts, opens it with no attempts counted and makes its
/// worker, where it has a slot, idle. Nothing else changes. The slots are
/// stored before the tickets.
pub proof fn resume_frees(
    store: StoreView,
    ticket_id: Seq<char>,
    index: int,
    worker_id: Seq<char>,
    reason: Seq<char>,
    attempts: u32,
)
    requires
        leads(store.tickets, ticket_id, index),
        store.tickets[index].status == (TicketStatusView::AwaitingHuman {
            worker_id,
            reason,
            attempts,
        }),
    ensures
        ({
            let resume = SystemCommandView::ResumeWorkflow { ticket_id };
            let actions = command_actions(resume, store.tickets, store.slots);
            let after = after_command(store, resume);
            &&& after.tickets == store.tickets.update(
                index,
                TicketView {
                    status: TicketStatusView::Open,
                    attempts: 0,
                    ..store.tickets[index]
                },
            )
            &&& after.slots.dom() == store.slots.dom()
            &&& store.slots.contains_key(worker_id) ==> after.slots[worker_id] == (WorkerSlotView {
                status: WorkerStatusView::Idle,
                details: store.slots[worker_id].details,
            })
            &&& forall|other: Seq<char>|
                store.slots.contains_key(other) && other != worker_id
                    ==> #[trigger] after.slots[other] == store.slots[other]
            &&& after.values == store.values
            &&& after.approved == store.approved
            &&& actions.len() == 2
            &&& actions[0] is SetWorkerSlots
            &&& actions[1] is SetTickets
        }),
{
    let resume = SystemCommandView::ResumeWorkflow { ticket_id };
    lemma_first_ticket(store.tickets, ticket_id, index);
    lemma_few_actions(store, command_actions(resume, store.tickets, store.slots));
}

/// Resuming a ticket that does not wait for a human, or that is not there,
/// stores the tickets as they are and changes nothing.
pub proof fn resume_needs_waiting_ticket(store: StoreView, ticket_id: Seq<char>, index: int)
    requires
        is_absent(store.tickets, ticket_id) || leads(store.tickets, ticket_id, index) && !(
        store.tickets[index].status is AwaitingHuman),
    ensures
        ({
            let resume = SystemCommandView::ResumeWorkflow { ticket_id };
            let actions = command_actions(resume, store.tickets, store.slots);
            &&& actions.len() == 1
            &&& actions[0] == (StoreActionView::SetTickets { tickets: store.tickets })
            &&& after_command(store, resume) == store
        }),
{
    let resume = SystemCommandView::ResumeWorkflow { ticket_id };
    if leads(store.tickets, ticket_id, index) {
        lemma_first_ticket(store.tickets, ticket_id, index);
    }
    lemma_few_actions(store, command_actions(resume, store.tickets, store.slots));
}

/// Blocking a worker who has a ticket in hand suspends the worker, and the
/// ticket, where it is there, waits for a human, both with the reason given.
/// Nothing else changes. The slots are stored last.
pub proof fn block_stops_work(
    store: StoreView,
    worker_id: Seq<char>,
    reason: Seq<char>,
    ticket_id: Seq<char>,
    index: int,
)
    requires
        store.slots.contains_key(worker_id),
        has_in_hand(store.slots[worker_id].status, ticket_id),
        is_absent(store.tickets, ticket_id) || leads(store.tickets, ticket_id, index),
    ensures
        ({
            let block = SystemCommandView::BlockAgent { worker_id, reason };
            let actions = command_actions(block, store.tickets, store.slots);
            let after = after_command(store, block);
            let found = !is_absent(store.tickets, ticket_id);
            let noted = "blocked_by_human: "@ + reason;
            &&& found ==> after.tickets == store.tickets.update(
                index,
                TicketView {
                    status: TicketStatusView::AwaitingHuman {
                        worker_id,
                        reason: noted,
                        attempts: 0,
                    },
                    ..store.tickets[index]
                },
            )
            &&& !found ==> after.tickets == store.tickets
            &&& after.slots.dom() == store.slots.dom()
            &&& after.slots[worker_id] == (WorkerSlotView {
                status: WorkerStatusView::Suspended {
                    ticket_id,
                    reason: noted,
                    issue_url: None,
                },
                details: store.slots[worker_id].details,
            })
            &&& forall|other: Seq<char>|
                store.slots.contains_key(other) && other != worker_id
                    ==> #[trigger] after.slots[other] == store.slots[other]
            &&& after.values == store.values
            &&& after.approved == store.approved
            &&& actions.len() == if found {
                2nat
            } else {
                1nat
            }
            &&& found ==> actions[0] is SetTickets
            &&& actions.last() is SetWorkerSlots
        }),
{
    let block = SystemCommandView::BlockAgent { worker_id, reason };
    if !is_absent(store.tickets, ticket_id) {
        lemma_first_ticket(store.tickets, ticket_id, index);
    }
    lemma_few_actions(store, command_actions(block, store.tickets, store.slots));
}

/// Blocking a worker who has no slot, or no ticket in hand, stores the slots as
/// they are and changes nothing.
pub proof fn block_needs_work(store: StoreView, worker_id: Seq<char>, reason: Seq<char>)
    requires
        !store.slots.contains_key(worker_id) || !(store.slots[worker_id].status is Assigned) && !(
        store.slots[worker_id].status is Working),
    ensures
        ({
            let block = SystemCommandView::BlockAgent { worker_id, reason };
            let actions = command_actions(block, store.tickets, store.slots);
            &&& actions.len() == 1
            &&& actions[0] == (StoreActionView::SetWorkerSlots { slots: store.slots })
            &&& after_command(store, block) == store
        }),
{
    let block = SystemCommandView::BlockAgent { worker_id, reason };
    lemma_few_actions(store, command_actions(block, store.tickets, store.slots));
}

/// Rerouting the ticket that a worker has in hand makes the worker idle. Where
/// the other worker has a slot and the ticket is there, the ticket is assigned
/// to the other worker, and that worker to the ticket, with its URL; a worker
/// may be that other one itself. Nothing else changes. The slots are stored
/// last.
pub proof fn reroute_hands_over(
    store: StoreView,
    from_worker: Seq<char>,
    to_worker: Seq<char>,
    ticket_id: Seq<char>,
    index: int,
)
    requires
        store.slots.contains_key(from_worker),
        has_in_hand(store.slots[from_worker].status, ticket_id),
        is_absent(store.tickets, ticket_id) || leads(store.tickets, ticket_id, index),
    ensures
        ({
            let reroute = SystemCommandView::RerouteAgent { from_worker, to_worker };
            let actions = command_actions(reroute, store.tickets, store.slots);
            let after = after_command(store, reroute);
            let moved = !is_absent(store.tickets, ticket_id) && store.slots.contains_key(to_worker);
            &&& moved ==> after.tickets == store.tickets.update(
                index,
                TicketView {
                    status: TicketStatusView::Assigned { worker_id: to_worker },
                    ..store.tickets[index]
                },
            )
            &&& !moved ==> after.tickets == store.tickets
            &&& after.slots.dom() == store.slots.dom()
            &&& moved ==> after.slots[to_worker] == (WorkerSlotView {
                status: WorkerStatusView::Assigned {
                    ticket_id,
                    issue_url: store.tickets[index].issue_url,
                },
                details: store.slots[to_worker].details,
            })
            &&& !moved || from_worker != to_worker ==> after.slots[from_worker] == (
            WorkerSlotView {
                status: WorkerStatusView::Idle,
                details: store.slots[from_worker].details,
            })
            &&& forall|other: Seq<char>|
                store.slots.contains_key(other) && other != from_worker && (!moved || other
                    != to_worker) ==> #[trigger] after.slots[other] == store.slots[other]
            &&& after.values == store.values
            &&& after.approved == store.approved
            &&& actions.len() == if moved {
                2nat
            } else {
                1nat
            }
            &&& moved ==> actions[0] is SetTickets
            &&& actions.last() is SetWorkerSlots
        }),
{
    let reroute = SystemCommandView::RerouteAgent { from_worker, to_worker };
    if !is_absent(store.tickets, ticket_id) {
        lemma_first_ticket(store.tickets, ticket_id, index);
    }
    lemma_few_actions(store, command_actions(reroute, store.tickets, store.slots));
}

/// Rerouting from a worker who has no slot, or no ticket in hand, stores the
/// slots as they are and changes nothing.
pub proof fn reroute_needs_work(store: StoreView, from_worker: Seq<char>, to_worker: Seq<char>)
    requires
        !store.slots.contains_key(from_worker) || !(store.slots[from_worker].status is Assigned)
            && !(store.slots[from_worker].status is Working),
    ensures
        ({
            let reroute = SystemCommandView::RerouteAgent { from_worker, to_worker };
            let actions = command_actions(reroute, store.tickets, store.slots);
            &&& actions.len() == 1
            &&& actions[0] == (StoreActionView::SetWorkerSlots { slots: store.slots })
            &&& after_command(store, reroute) == store
        }),
{
    let reroute = SystemCommandView::RerouteAgent { from_worker, to_worker };
    lemma_few_actions(store, command_actions(reroute, store.tickets, store.slots));
}

/// An answer is read back as it was given, under a key that is made of the
/// ticket's id; answers to other tickets, and all other values, stay.
pub proof fn answer_is_read_back(
    store: StoreView,
    ticket_id: Seq<char>,
    answer: Seq<char>,
    key: Seq<char>,
)
    ensures
        ({
            let command = SystemCommandView::AnswerQuestion { ticket_id, answer };
            let actions = command_actions(command, store.tickets, store.slots);
            let after = after_command(store, command);
            let own = "human_response:"@ + ticket_id;
            &&& after.values.contains_key(own)
            &&& after.values[own] == JsonView::Text(answer)
            &&& key != own ==> after.values.contains_key(key) == store.values.contains_key(key)
            &&& key != own ==> after.values[key] == store.values[key]
            &&& after.tickets == store.tickets
            &&& after.slots == store.slots
            &&& after.approved == store.approved
            &&& actions.len() == 1
        }),
{
    let command = SystemCommandView::AnswerQuestion { ticket_id, answer };
    lemma_few_actions(store, command_actions(command, store.tickets, store.slots));
}

/// A command to ask for the status, or to chat, takes no action; one to approve
/// takes one, for the worker that it names.
pub proof fn approval_goes_to_named_worker(
    tickets: Seq<TicketView>,
    slots: Map<Seq<char>, WorkerSlotView>,
    worker_id: Seq<char>,
    text: Seq<char>,
)
    ensures
        command_actions(SystemCommandView::StatusQuery, tickets, slots).len() == 0,
        command_actions(SystemCommandView::GeneralMessage { text }, tickets, slots).len() == 0,
        ({
            let actions = command_actions(
                SystemCommandView::ApproveCommand { worker_id },
                tickets,
                slots,
            );
            actions.len() == 1 && actions[0] == (StoreActionView::ApproveCommand { worker_id })
        }),
{
}

/// Pausing, resuming, blocking and rerouting do what the commands for them do.
pub proof fn functions_do_as_commands(
    tickets: Seq<TicketView>,
    slots: Map<Seq<char>, WorkerSlotView>,
    name: Seq<char>,
    other: Seq<char>,
)
    ensures
        pause_actions(tickets, slots, name) == command_actions(
            SystemCommandView::PauseWorkflow { ticket_id: name },
            tickets,
            slots,
        ),
        resume_actions(tickets, slots, name) == command_actions(
            SystemCommandView::ResumeWorkflow { ticket_id: name },
            tickets,
            slots,
        ),
        block_actions(tickets, slots, name, other) == command_actions(
            SystemCommandView::BlockAgent { worker_id: name, reason: other },
            tickets,
            slots,
        ),
        reroute_actions(tickets, slots, name, other) == command_actions(
            SystemCommandView::RerouteAgent { from_worker: name, to_worker: other },
            tickets,
            slots,
        ),
{
}

/// A command to a ticket starts with the tickets, a command to a worker with
/// the slots, and no other command reads the store.
pub proof fn reads_start_with_what_is_named(command: SystemCommandView)
    ensures
        reads(command) == StoreReads::TicketsThenSlots <==> command is PauseWorkflow
            || command is ResumeWorkflow,
        reads(command) == StoreReads::SlotsThenTickets <==> command is BlockAgent
            || command is RerouteAgent,
{
}

/// The slots are read to pause a ticket that a worker has, or to resume one
/// that waits for a human, and for nothing else.
pub proof fn slots_are_read_for_a_worker(
    command: SystemCommandView,
    tickets: Seq<TicketView>,
    index: int,
)
    ensures
        command matches SystemCommandView::PauseWorkflow { ticket_id } ==> {
            &&& leads(tickets, ticket_id, index) ==> (reads_slots_after(command, tickets)
                <==> tickets[index].status is Assigned || tickets[index].status is InProgress)
            &&& is_absent(tickets, ticket_id) ==> !reads_slots_after(command, tickets)
        },
        command matches SystemCommandView::ResumeWorkflow { ticket_id } ==> {
            &&& leads(tickets, ticket_id, index) ==> (reads_slots_after(command, tickets)
                <==> tickets[index].status is AwaitingHuman)
            &&& is_absent(tickets, ticket_id) ==> !reads_slots_after(command, tickets)
        },
        !(command is PauseWorkflow) && !(command is ResumeWorkflow) ==> !reads_slots_after(
            command,
            tickets,
        ),
{
    if let SystemCommandView::PauseWorkflow { ticket_id } = command {
        if leads(tickets, ticket_id, index) {
            lemma_first_ticket(tickets, ticket_id, index);
        }
    }
    if let SystemCommandView::ResumeWorkflow { ticket_id } = command {
        if leads(tickets, ticket_id, index) {
            lemma_first_ticket(tickets, ticket_id, index);
        }
    }
}

/// The tickets are read to block a worker who has one in hand, or to hand that
/// one over to a worker who has a slot, and for nothing else.
pub proof fn tickets_are_read_for_work(
    command: SystemCommandView,
    slots: Map<Seq<char>, WorkerSlotView>,
)
    ensures
        command matches SystemCommandView::BlockAgent { worker_id, .. } ==> (reads_tickets_after(
            command,
            slots,
        ) <==> slots.contains_key(worker_id) && (slots[worker_id].status is Assigned
            || slots[worker_id].status is Working)),
        command matches SystemCommandView::RerouteAgent { from_worker, to_worker } ==> (
        reads_tickets_after(command, slots) <==> slots.contains_key(from_worker)
            && slots.contains_key(to_worker) && (slots[from_worker].status is Assigned
            || slots[from_worker].status is Working)),
        !(command is BlockAgent) && !(command is RerouteAgent) ==> !reads_tickets_after(
            command,
            slots,
        ),
{
}

/// Of several actions each is seen, in their order.
pub proof fn actions_are_seen_in_order(actions: Seq<StoreAction>)
    ensures
        action_views(actions).len() == actions.len(),
        forall|i: int|
            0 <= i < actions.len() ==> #[trigger] action_views(actions)[i] == actions[i]@,
{
}

/// Of an action nothing is left out of sight.
pub proof fn action_is_seen_whole(action: StoreAction)
    ensures
        action matches StoreAction::SetTickets { tickets } ==> {
            &&& action@ matches StoreActionView::SetTickets { tickets: seen }
            &&& seen.len() == tickets@.len()
            &&& forall|i: int| 0 <= i < seen.len() ==> #[trigger] seen[i] == tickets@[i]@
        },
        action matches StoreAction::SetWorkerSlots { slots } ==> action@ == (
        StoreActionView::SetWorkerSlots { slots: slots@ }),
        action matches StoreAction::SetValue { key, value } ==> action@ == (
        StoreActionView::SetValue { key: key@, value: json_view(value) }),
        action matches StoreAction::ApproveCommand { worker_id } ==> action@ == (
        StoreActionView::ApproveCommand { worker_id: worker_id@ }),
{
}

/// Of a command nothing is left out of sight.
pub proof fn command_is_seen_whole(command: SystemCommand)
    ensures
        command matches SystemCommand::PauseWorkflow { ticket_id } ==> command@ == (
        SystemCommandView::PauseWorkflow { ticket_id: ticket_id@ }),
        command matches SystemCommand::ResumeWorkflow { ticket_id } ==> command@ == (
        SystemCommandView::ResumeWorkflow { ticket_id: ticket_id@ }),
        command matches SystemCommand::ApproveCommand { worker_id } ==> command@ == (
        SystemCommandView::ApproveCommand { worker_id: worker_id@ }),
        command matches SystemCommand::BlockAgent { worker_id, reason } ==> command@ == (
        SystemCommandView::BlockAgent { worker_id: worker_id@, reason: reason@ }),
        command matches SystemCommand::RerouteAgent { from_worker, to_worker } ==> command@ == (
        SystemCommandView::RerouteAgent { from_worker: from_worker@, to_worker: to_worker@ }),
        command matches SystemCommand::AnswerQuestion { ticket_id, answer } ==> command@ == (
        SystemCommandView::AnswerQuestion { ticket_id: ticket_id@, answer: answer@ }),
        command is StatusQuery ==> command@ == SystemCommandView::StatusQuery,
        command matches SystemCommand::GeneralMessage { text } ==> command@ == (
        SystemCommandView::GeneralMessage { text: text@ }),
{
}

} // verus!
