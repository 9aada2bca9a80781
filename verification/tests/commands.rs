use nexus_gateway::command_executor::{
    block_worker, execute_system_command, needs_slots, needs_tickets, pause_ticket, reroute_work,
    resume_ticket, store_reads, StoreAction, StoreReads,
};
use nexus_gateway::messages::SystemCommand;
use nexus_gateway::state::{
    find_ticket, Ticket, TicketStatus, WorkerSlot, WorkerSlots, WorkerStatus,
};

fn text(s: &str) -> String {
    s.to_string()
}

fn ticket(id: &str, status: TicketStatus) -> Ticket {
    Ticket {
        id: text(id),
        status,
        attempts: 3,
        issue_url: Some(format!("https://issues/{}", id)),
        details: format!("details of {}", id),
    }
}

fn in_progress(worker: &str) -> TicketStatus {
    TicketStatus::InProgress { worker_id: text(worker) }
}

fn working(ticket: &str) -> WorkerStatus {
    WorkerStatus::Working { ticket_id: text(ticket), details: format!("work on {}", ticket) }
}

fn slots(entries: Vec<(&str, WorkerStatus)>) -> WorkerSlots {
    let mut made = WorkerSlots::new();
    for (id, status) in entries {
        made.insert(text(id), WorkerSlot { status, details: format!("slot {}", id) });
    }
    made
}

fn status<'a>(slots: &'a WorkerSlots, id: &str) -> &'a WorkerStatus {
    let slot = slots.get(id).unwrap();
    assert_eq!(slot.details, format!("slot {}", id));
    &slot.status
}

fn as_tickets(action: &StoreAction) -> &Vec<Ticket> {
    match action {
        StoreAction::SetTickets { tickets } => tickets,
        other => panic!("{:?}", other),
    }
}

fn as_slots(action: &StoreAction) -> &WorkerSlots {
    match action {
        StoreAction::SetWorkerSlots { slots } => slots,
        other => panic!("{:?}", other),
    }
}

fn take(actions: Vec<StoreAction>) -> (Option<Vec<Ticket>>, Option<WorkerSlots>) {
    let mut tickets = None;
    let mut slots = None;
    for action in actions {
        match action {
            StoreAction::SetTickets { tickets: t } => tickets = Some(t),
            StoreAction::SetWorkerSlots { slots: s } => slots = Some(s),
            other => panic!("{:?}", other),
        }
    }
    (tickets, slots)
}

#[test]
fn slots_hold_one_entry_per_worker() {
    let mut made = slots(vec![("a", WorkerStatus::Idle), ("b", WorkerStatus::Idle)]);
    made.insert(text("a"), WorkerSlot { status: working("T"), details: text("new") });
    assert_eq!(made.get("a").unwrap().details, "new");
    assert!(made.get("c").is_none());
    made.set_status("c", WorkerStatus::Idle);
    assert!(made.get("c").is_none());
    made.set_status("a", WorkerStatus::Idle);
    assert_eq!(made.get("a").unwrap().status, WorkerStatus::Idle);
    assert_eq!(made.get("a").unwrap().details, "new");
    let entries = made.into_entries();
    assert_eq!(entries.len(), 2);
}

#[test]
fn first_ticket_of_an_id_is_found() {
    let tickets = vec![
        ticket("T-1", TicketStatus::Open),
        ticket("T-2", TicketStatus::Open),
        ticket("T-2", in_progress("w")),
    ];
    assert_eq!(find_ticket(&tickets, "T-2"), Some(1));
    assert_eq!(find_ticket(&tickets, "T-3"), None);
}

#[test]
fn pause_suspends_worker_and_ticket() {
    for held in [in_progress("w"), TicketStatus::Assigned { worker_id: text("w") }] {
        let actions = pause_ticket(
            vec![ticket("T-0", in_progress("v")), ticket("T-1", held)],
            slots(vec![("w", working("T-1")), ("v", working("T-0"))]),
            "T-1",
        );
        assert_eq!(actions.len(), 2);
        let stored = as_slots(&actions[0]);
        assert_eq!(
            *status(stored, "w"),
            WorkerStatus::Suspended {
                ticket_id: text("T-1"),
                reason: text("paused_by_human"),
                issue_url: Some(text("https://issues/T-1")),
            }
        );
        assert_eq!(*status(stored, "v"), working("T-0"));
        let stored = as_tickets(&actions[1]);
        assert_eq!(stored[0], ticket("T-0", in_progress("v")));
        assert_eq!(
            stored[1],
            ticket(
                "T-1",
                TicketStatus::AwaitingHuman {
                    worker_id: text("w"),
                    reason: text("paused_by_human"),
                    attempts: 0,
                }
            )
        );
    }
}

#[test]
fn pause_without_worker_slot_stores_both() {
    let actions = pause_ticket(vec![ticket("T-1", in_progress("w"))], WorkerSlots::new(), "T-1");
    assert_eq!(actions.len(), 2);
    assert!(as_slots(&actions[0]).get("w").is_none());
}

#[test]
fn pause_of_idle_or_unknown_ticket_does_nothing() {
    for status in [
        TicketStatus::Open,
        TicketStatus::Other { notation: text("Merged") },
        TicketStatus::AwaitingHuman { worker_id: text("w"), reason: text("r"), attempts: 1 },
    ] {
        let actions =
            pause_ticket(vec![ticket("T-1", status)], slots(vec![("w", working("T-1"))]), "T-1");
        assert!(actions.is_empty());
    }
    assert!(pause_ticket(Vec::new(), WorkerSlots::new(), "T-1").is_empty());
}

#[test]
fn resume_after_pause_frees_both() {
    let (tickets, held) = take(pause_ticket(
        vec![ticket("T-1", in_progress("w")), ticket("T-2", TicketStatus::Open)],
        slots(vec![("w", working("T-1"))]),
        "T-1",
    ));
    let actions = resume_ticket(tickets.unwrap(), held.unwrap(), "T-1");
    assert_eq!(actions.len(), 2);
    assert_eq!(*status(as_slots(&actions[0]), "w"), WorkerStatus::Idle);
    let stored = as_tickets(&actions[1]);
    let mut expected = ticket("T-1", TicketStatus::Open);
    expected.attempts = 0;
    assert_eq!(stored[0], expected);
    assert_eq!(stored[1], ticket("T-2", TicketStatus::Open));
}

#[test]
fn second_pause_does_nothing() {
    let (tickets, held) = take(pause_ticket(
        vec![ticket("T-1", in_progress("w"))],
        slots(vec![("w", working("T-1"))]),
        "T-1",
    ));
    assert!(pause_ticket(tickets.unwrap(), held.unwrap(), "T-1").is_empty());
}

#[test]
fn resume_of_other_ticket_stores_tickets_unchanged() {
    for id in ["T-1", "T-9"] {
        let actions = resume_ticket(
            vec![ticket("T-1", in_progress("w"))],
            slots(vec![("w", working("T-1"))]),
            id,
        );
        assert_eq!(actions.len(), 1);
        assert_eq!(*as_tickets(&actions[0]), vec![ticket("T-1", in_progress("w"))]);
    }
}

#[test]
fn block_suspends_worker_and_its_ticket() {
    let actions = block_worker(
        vec![ticket("T-1", in_progress("w"))],
        slots(vec![("w", working("T-1"))]),
        "w",
        "loops",
    );
    assert_eq!(actions.len(), 2);
    assert_eq!(
        as_tickets(&actions[0])[0],
        ticket(
            "T-1",
            TicketStatus::AwaitingHuman {
                worker_id: text("w"),
                reason: text("blocked_by_human: loops"),
                attempts: 0,
            }
        )
    );
    assert_eq!(
        *status(as_slots(&actions[1]), "w"),
        WorkerStatus::Suspended {
            ticket_id: text("T-1"),
            reason: text("blocked_by_human: loops"),
            issue_url: None,
        }
    );
}

#[test]
fn block_without_ticket_suspends_worker_alone() {
    let actions = block_worker(Vec::new(), slots(vec![("w", working("T-1"))]), "w", "x");
    assert_eq!(actions.len(), 1);
    assert!(matches!(status(as_slots(&actions[0]), "w"), WorkerStatus::Suspended { .. }));
}

#[test]
fn block_of_idle_or_unknown_worker_stores_slots_unchanged() {
    for id in ["w", "nobody"] {
        let actions = block_worker(
            vec![ticket("T-1", TicketStatus::Open)],
            slots(vec![("w", WorkerStatus::Idle)]),
            id,
            "x",
        );
        assert_eq!(actions.len(), 1);
        assert_eq!(*status(as_slots(&actions[0]), "w"), WorkerStatus::Idle);
    }
}

#[test]
fn resume_after_block_frees_worker() {
    let (tickets, held) = take(block_worker(
        vec![ticket("T-1", in_progress("w"))],
        slots(vec![("w", working("T-1"))]),
        "w",
        "x",
    ));
    let (tickets, held) = take(resume_ticket(tickets.unwrap(), held.unwrap(), "T-1"));
    assert_eq!(tickets.unwrap()[0].status, TicketStatus::Open);
    assert_eq!(*status(&held.unwrap(), "w"), WorkerStatus::Idle);
}

#[test]
fn reroute_moves_the_ticket() {
    let actions = reroute_work(
        vec![ticket("T-1", in_progress("a"))],
        slots(vec![("a", working("T-1")), ("b", WorkerStatus::Idle), ("c", working("T-7"))]),
        "a",
        "b",
    );
    assert_eq!(actions.len(), 2);
    assert_eq!(
        as_tickets(&actions[0])[0],
        ticket("T-1", TicketStatus::Assigned { worker_id: text("b") })
    );
    let stored = as_slots(&actions[1]);
    assert_eq!(*status(stored, "a"), WorkerStatus::Idle);
    assert_eq!(
        *status(stored, "b"),
        WorkerStatus::Assigned {
            ticket_id: text("T-1"),
            issue_url: Some(text("https://issues/T-1")),
        }
    );
    assert_eq!(*status(stored, "c"), working("T-7"));
}

#[test]
fn reroute_to_itself_assigns_again() {
    let actions = reroute_work(
        vec![ticket("T-1", in_progress("a"))],
        slots(vec![("a", working("T-1"))]),
        "a",
        "a",
    );
    assert_eq!(actions.len(), 2);
    assert!(matches!(status(as_slots(&actions[1]), "a"), WorkerStatus::Assigned { .. }));
}

#[test]
fn reroute_to_nobody_frees_the_worker() {
    let actions = reroute_work(
        vec![ticket("T-1", in_progress("a"))],
        slots(vec![("a", working("T-1"))]),
        "a",
        "b",
    );
    assert_eq!(actions.len(), 1);
    assert_eq!(*status(as_slots(&actions[0]), "a"), WorkerStatus::Idle);
}

#[test]
fn reroute_of_missing_ticket_leaves_the_other_worker() {
    let actions = reroute_work(
        Vec::new(),
        slots(vec![("a", working("T-1")), ("b", working("T-2"))]),
        "a",
        "b",
    );
    assert_eq!(actions.len(), 1);
    let stored = as_slots(&actions[0]);
    assert_eq!(*status(stored, "a"), WorkerStatus::Idle);
    assert_eq!(*status(stored, "b"), working("T-2"));
}

#[test]
fn reroute_of_idle_worker_stores_slots_unchanged() {
    for from in ["a", "nobody"] {
        let actions = reroute_work(
            vec![ticket("T-1", TicketStatus::Open)],
            slots(vec![("a", WorkerStatus::Idle), ("b", working("T-2"))]),
            from,
            "b",
        );
        assert_eq!(actions.len(), 1);
        let stored = as_slots(&actions[0]);
        assert_eq!(*status(stored, "a"), WorkerStatus::Idle);
        assert_eq!(*status(stored, "b"), working("T-2"));
    }
}

#[test]
fn commands_reach_their_functions() {
    let tickets = || vec![ticket("T-1", in_progress("w"))];
    let held = || slots(vec![("w", working("T-1")), ("v", WorkerStatus::Idle)]);
    let run = |cmd: &SystemCommand| execute_system_command(cmd, tickets(), held());
    let pause = SystemCommand::PauseWorkflow { ticket_id: text("T-1") };
    assert_eq!(store_reads(&pause), StoreReads::TicketsThenSlots);
    assert_eq!(run(&pause).len(), 2);
    let resume = SystemCommand::ResumeWorkflow { ticket_id: text("T-1") };
    assert_eq!(store_reads(&resume), StoreReads::TicketsThenSlots);
    assert_eq!(run(&resume).len(), 1);
    let block = SystemCommand::BlockAgent { worker_id: text("w"), reason: text("x") };
    assert_eq!(store_reads(&block), StoreReads::SlotsThenTickets);
    assert_eq!(run(&block).len(), 2);
    let reroute = SystemCommand::RerouteAgent { from_worker: text("w"), to_worker: text("v") };
    assert_eq!(store_reads(&reroute), StoreReads::SlotsThenTickets);
    assert_eq!(run(&reroute).len(), 2);
    let approve = SystemCommand::ApproveCommand { worker_id: text("w") };
    assert_eq!(store_reads(&approve), StoreReads::Nothing);
    match &run(&approve)[0] {
        StoreAction::ApproveCommand { worker_id } => assert_eq!(worker_id, "w"),
        other => panic!("{:?}", other),
    }
    for quiet in [
        SystemCommand::StatusQuery,
        SystemCommand::GeneralMessage { text: text("hi") },
    ] {
        assert_eq!(store_reads(&quiet), StoreReads::Nothing);
        assert!(run(&quiet).is_empty());
    }
}

#[test]
fn answer_is_stored_under_its_ticket() {
    let answer = SystemCommand::AnswerQuestion { ticket_id: text("T-1"), answer: text("yes") };
    assert_eq!(store_reads(&answer), StoreReads::Nothing);
    let actions = execute_system_command(&answer, Vec::new(), WorkerSlots::new());
    assert_eq!(actions.len(), 1);
    match &actions[0] {
        StoreAction::SetValue { key, value } => {
            assert_eq!(key, "human_response:T-1");
            assert_eq!(*value, serde_json::Value::String(text("yes")));
        }
        other => panic!("{:?}", other),
    }
}

#[test]
fn second_resume_changes_nothing() {
    let waiting =
        TicketStatus::AwaitingHuman { worker_id: text("w"), reason: text("r"), attempts: 2 };
    let (tickets, held) = take(resume_ticket(
        vec![ticket("T-1", waiting)],
        slots(vec![("w", working("T-1"))]),
        "T-1",
    ));
    let mut expected = ticket("T-1", TicketStatus::Open);
    expected.attempts = 0;
    let (tickets, untouched) = take(resume_ticket(tickets.unwrap(), held.unwrap(), "T-1"));
    assert_eq!(tickets.unwrap(), vec![expected]);
    assert!(untouched.is_none());
}

#[test]
fn answers_of_two_tickets_have_two_keys() {
    let key = |id: &str| {
        let cmd = SystemCommand::AnswerQuestion { ticket_id: text(id), answer: text("a") };
        match execute_system_command(&cmd, Vec::new(), WorkerSlots::new()).remove(0) {
            StoreAction::SetValue { key, .. } => key,
            other => panic!("{:?}", other),
        }
    };
    assert_ne!(key("T-1"), key("T-2"));
    assert_eq!(key(""), "human_response:");
}

#[test]
fn second_part_is_read_only_where_needed() {
    let waiting =
        TicketStatus::AwaitingHuman { worker_id: text("w"), reason: text("r"), attempts: 0 };
    let tickets = vec![ticket("T-1", in_progress("w")), ticket("T-2", waiting)];
    let pause = |id: &str| SystemCommand::PauseWorkflow { ticket_id: text(id) };
    let resume = |id: &str| SystemCommand::ResumeWorkflow { ticket_id: text(id) };
    assert!(needs_slots(&pause("T-1"), &tickets));
    assert!(!needs_slots(&pause("T-2"), &tickets));
    assert!(!needs_slots(&pause("T-3"), &tickets));
    assert!(!needs_slots(&resume("T-1"), &tickets));
    assert!(needs_slots(&resume("T-2"), &tickets));
    assert!(!needs_slots(&SystemCommand::StatusQuery, &tickets));

    let held = slots(vec![("a", working("T-1")), ("b", WorkerStatus::Idle)]);
    let block = |id: &str| SystemCommand::BlockAgent { worker_id: text(id), reason: text("r") };
    let reroute = |from: &str, to: &str| SystemCommand::RerouteAgent {
        from_worker: text(from),
        to_worker: text(to),
    };
    assert!(needs_tickets(&block("a"), &held));
    assert!(!needs_tickets(&block("b"), &held));
    assert!(!needs_tickets(&block("c"), &held));
    assert!(needs_tickets(&reroute("a", "b"), &held));
    assert!(!needs_tickets(&reroute("a", "c"), &held));
    assert!(!needs_tickets(&reroute("b", "a"), &held));
    assert!(!needs_tickets(&SystemCommand::StatusQuery, &held));
}

#[test]
fn reroute_there_and_back_restores_the_store() {
    let assigned = || TicketStatus::Assigned { worker_id: text("a") };
    let (tickets, held) = take(reroute_work(
        vec![ticket("T-1", assigned())],
        slots(vec![
            (
                "a",
                WorkerStatus::Assigned {
                    ticket_id: text("T-1"),
                    issue_url: Some(text("https://issues/T-1")),
                },
            ),
            ("b", WorkerStatus::Idle),
        ]),
        "a",
        "b",
    ));
    let (tickets, held) = take(reroute_work(tickets.unwrap(), held.unwrap(), "b", "a"));
    assert_eq!(tickets.unwrap(), vec![ticket("T-1", assigned())]);
    let held = held.unwrap();
    assert_eq!(*status(&held, "b"), WorkerStatus::Idle);
    assert_eq!(
        *status(&held, "a"),
        WorkerStatus::Assigned {
            ticket_id: text("T-1"),
            issue_url: Some(text("https://issues/T-1")),
        }
    );
}

#[test]
fn second_block_keeps_the_first_reason() {
    let (tickets, held) = take(block_worker(
        vec![ticket("T-1", in_progress("w"))],
        slots(vec![("w", working("T-1"))]),
        "w",
        "first",
    ));
    let actions = block_worker(tickets.unwrap(), held.unwrap(), "w", "second");
    assert_eq!(actions.len(), 1);
    assert_eq!(
        *status(as_slots(&actions[0]), "w"),
        WorkerStatus::Suspended {
            ticket_id: text("T-1"),
            reason: text("blocked_by_human: first"),
            issue_url: None,
        }
    );
}
