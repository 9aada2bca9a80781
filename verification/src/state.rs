//! Tickets and worker slots, the shared state that system commands act on.
use crate::text::{optional, same_text};
use vstd::prelude::*;

verus! {

/// Where a ticket stands.
#[derive(Debug, PartialEq, Eq)]
pub enum TicketStatus {
    /// Nobody works on it.
    Open,
    /// It was handed to a worker.
    Assigned { worker_id: String },
    /// A worker works on it.
    InProgress { worker_id: String },
    /// It waits for a human.
    AwaitingHuman { worker_id: String, reason: String, attempts: u32 },
    /// Any status that no command looks into, in its stored notation.
    Other { notation: String },
}

/// A unit of work.
#[derive(Debug, PartialEq, Eq)]
pub struct Ticket {
    pub id: String,
    pub status: TicketStatus,
    pub attempts: u32,
    pub issue_url: Option<String>,
    /// What else is stored of the ticket; no command looks into it.
    pub details: String,
}

/// What a worker does.
#[derive(Debug, PartialEq, Eq)]
pub enum WorkerStatus {
    Idle,
    Assigned { ticket_id: String, issue_url: Option<String> },
    /// `details` is what else is stored; no command looks into it.
    Working { ticket_id: String, details: String },
    Suspended { ticket_id: String, reason: String, issue_url: Option<String> },
    /// Any status that no command looks into, in its stored notation.
    Other { notation: String },
}

/// A place for a worker.
#[derive(Debug, PartialEq, Eq)]
pub struct WorkerSlot {
    pub status: WorkerStatus,
    /// What else is stored of the slot; no command looks into it.
    pub details: String,
}

/// A [`TicketStatus`] as a mathematical value.
pub enum TicketStatusView {
    Open,
    Assigned { worker_id: Seq<char> },
    InProgress { worker_id: Seq<char> },
    AwaitingHuman { worker_id: Seq<char>, reason: Seq<char>, attempts: u32 },
    Other { notation: Seq<char> },
}

/// A [`Ticket`] as a mathematical value.
pub struct TicketView {
    pub id: Seq<char>,
    pub status: TicketStatusView,
    pub attempts: u32,
    pub issue_url: Option<Seq<char>>,
    pub details: Seq<char>,
}

/// A [`WorkerStatus`] as a mathematical value.
pub enum WorkerStatusView {
    Idle,
    Assigned { ticket_id: Seq<char>, issue_url: Option<Seq<char>> },
    Working { ticket_id: Seq<char>, details: Seq<char> },
    Suspended { ticket_id: Seq<char>, reason: Seq<char>, issue_url: Option<Seq<char>> },
    Other { notation: Seq<char> },
}

/// A [`WorkerSlot`] as a mathematical value.
pub struct WorkerSlotView {
    pub status: WorkerStatusView,
    pub details: Seq<char>,
}

impl View for TicketStatus {
    type V = TicketStatusView;

    open spec fn view(&self) -> TicketStatusView {
        match *self {
            TicketStatus::Open => TicketStatusView::Open,
            TicketStatus::Assigned { worker_id } => TicketStatusView::Assigned {
                worker_id: worker_id@,
            },
            TicketStatus::InProgress { worker_id } => TicketStatusView::InProgress {
                worker_id: worker_id@,
            },
            TicketStatus::AwaitingHuman {
                worker_id,
                reason,
                attempts,
            } => TicketStatusView::AwaitingHuman {
                worker_id: worker_id@,
                reason: reason@,
                attempts,
            },
            TicketStatus::Other { notation } => TicketStatusView::Other { notation: notation@ },
        }
    }
}

impl View for Ticket {
    type V = TicketView;

    open spec fn view(&self) -> TicketView {
        TicketView {
            id: self.id@,
            status: self.status@,
            attempts: self.attempts,
            issue_url: optional(self.issue_url),
            details: self.details@,
        }
    }
}

impl View for WorkerStatus {
    type V = WorkerStatusView;

    open spec fn view(&self) -> WorkerStatusView {
        match *self {
            WorkerStatus::Idle => WorkerStatusView::Idle,
            WorkerStatus::Assigned { ticket_id, issue_url } => WorkerStatusView::Assigned {
                ticket_id: ticket_id@,
                issue_url: optional(issue_url),
            },
            WorkerStatus::Working { ticket_id, details } => WorkerStatusView::Working {
                ticket_id: ticket_id@,
                details: details@,
            },
            WorkerStatus::Suspended {
                ticket_id,
                reason,
                issue_url,
            } => WorkerStatusView::Suspended {
                ticket_id: ticket_id@,
                reason: reason@,
                issue_url: optional(issue_url),
            },
            WorkerStatus::Other { notation } => WorkerStatusView::Other { notation: notation@ },
        }
    }
}

impl View for WorkerSlot {
    type V = WorkerSlotView;

    open spec fn view(&self) -> WorkerSlotView {
        WorkerSlotView { status: self.status@, details: self.details@ }
    }
}

/// Tickets as mathematical values, in their order.
pub open spec fn ticket_views(tickets: Seq<Ticket>) -> Seq<TicketView> {
    Seq::new(tickets.len(), |i: int| tickets[i]@)
}

/// Whether the ticket at `index` is the first with that id.
pub open spec fn is_first_ticket(tickets: Seq<TicketView>, id: Seq<char>, index: int) -> bool {
    &&& 0 <= index < tickets.len()
    &&& tickets[index].id == id
    &&& forall|earlier: int| 0 <= earlier < index ==> tickets[earlier].id != id
}

/// The position of the first ticket with that id.
pub open spec fn ticket_position(tickets: Seq<TicketView>, id: Seq<char>) -> Option<int> {
    if exists|index: int| is_first_ticket(tickets, id, index) {
        Some(choose|index: int| is_first_ticket(tickets, id, index))
    } else {
        None
    }
}

/// There is at most one first ticket with an id.
pub proof fn lemma_first_ticket(tickets: Seq<TicketView>, id: Seq<char>, index: int)
    requires
        is_first_ticket(tickets, id, index),
    ensures
        ticket_position(tickets, id) == Some(index),
{
}

/// The position of the first ticket with that id.
pub fn find_ticket(tickets: &Vec<Ticket>, id: &str) -> (position: Option<usize>)
    ensures
        position is Some <==> ticket_position(ticket_views(tickets@), id@) is Some,
        position matches Some(index) ==> index < tickets@.len() && ticket_position(
            ticket_views(tickets@),
            id@,
        ) == Some(index as int),
{
    let mut i: usize = 0;
    while i < tickets.len()
        invariant
            i <= tickets@.len(),
            forall|j: int| 0 <= j < i ==> (#[trigger] tickets@[j]).id@ != id@,
        decreases tickets@.len() - i,
    {
        if same_text(tickets[i].id.as_str(), id) {
            proof {
                lemma_first_ticket(ticket_views(tickets@), id@, i as int);
            }
            return Some(i);
        }
        i = i + 1;
    }
    None
}

/// Worker slots by the worker's id.
#[derive(Debug)]
pub struct WorkerSlots {
    entries: Vec<(String, WorkerSlot)>,
}

impl View for WorkerSlots {
    type V = Map<Seq<char>, WorkerSlotView>;

    closed spec fn view(&self) -> Map<Seq<char>, WorkerSlotView> {
        Map::new(
            |id: Seq<char>| self.holds(id),
            |id: Seq<char>| self.entries@[self.place(id)].1@,
        )
    }
}

impl WorkerSlots {
    /// No id occurs twice.
    #[verifier::type_invariant]
    spec fn distinct(self) -> bool {
        forall|i: int, j: int|
            0 <= i < j < self.entries@.len() ==> (#[trigger] self.entries@[i]).0@ != (
            #[trigger] self.entries@[j]).0@
    }

    spec fn is_at(self, id: Seq<char>, index: int) -> bool {
        0 <= index < self.entries@.len() && self.entries@[index].0@ == id
    }

    spec fn holds(self, id: Seq<char>) -> bool {
        exists|index: int| self.is_at(id, index)
    }

    spec fn place(self, id: Seq<char>) -> int {
        choose|index: int| self.is_at(id, index)
    }

    proof fn lemma_at(self, id: Seq<char>, index: int)
        requires
            self.distinct(),
            self.is_at(id, index),
        ensures
            self@.contains_key(id),
            self@[id] == self.entries@[index].1@,
    {
    }

    /// No slots.
    pub fn new() -> (slots: WorkerSlots)
        ensures
            slots@ == Map::<Seq<char>, WorkerSlotView>::empty(),
    {
        WorkerSlots { entries: Vec::new() }
    }

    fn position(&self, id: &str) -> (position: Option<usize>)
        ensures
            position is Some <==> self@.contains_key(id@),
            position matches Some(index) ==> self.is_at(id@, index as int),
    {
        proof {
            use_type_invariant(self);
        }
        let mut i: usize = 0;
        while i < self.entries.len()
            invariant
                self.distinct(),
                i <= self.entries@.len(),
                forall|j: int| 0 <= j < i ==> !self.is_at(id@, j),
            decreases self.entries@.len() - i,
        {
            if same_text(self.entries[i].0.as_str(), id) {
                proof {
                    self.lemma_at(id@, i as int);
                }
                return Some(i);
            }
            i = i + 1;
        }
        None
    }

    /// The slot of a worker.
    pub fn get(&self, id: &str) -> (found: Option<&WorkerSlot>)
        ensures
            found is Some <==> self@.contains_key(id@),
            found matches Some(slot) ==> slot@ == self@[id@],
    {
        match self.position(id) {
            Some(index) => {
                proof {
                    use_type_invariant(self);
                    self.lemma_at(id@, index as int);
                }
                Some(&self.entries[index].1)
            },
            None => None,
        }
    }

    /// Gives a worker a slot, in place of the one that it has.
    pub fn insert(&mut self, id: String, slot: WorkerSlot)
        ensures
            final(self)@ == old(self)@.insert(id@, slot@),
    {
        let position = self.position(id.as_str());
        proof {
            use_type_invariant(&*self);
        }
        let ghost before = *self;
        let ghost key = id@;
        let ghost value = slot@;
        let mut entries: Vec<(String, WorkerSlot)> = Vec::new();
        std::mem::swap(&mut entries, &mut self.entries);
        let ghost changed: int = match position {
            Some(index) => index as int,
            None => entries@.len() as int,
        };
        match position {
            Some(index) => {
                entries.set(index, (id, slot));
            },
            None => {
                entries.push((id, slot));
            },
        }
        proof {
            lemma_entry_written(before, WorkerSlots { entries }, key, value, changed);
        }
        self.entries = entries;
    }

    /// Gives a worker another status, where it has a slot.
    pub fn set_status(&mut self, id: &str, status: WorkerStatus)
        ensures
            final(self)@ == with_status(old(self)@, id@, status@),
    {
        match self.position(id) {
            Some(index) => {
                proof {
                    use_type_invariant(&*self);
                    self.lemma_at(id@, index as int);
                }
                let ghost before = *self;
                let ghost slot = WorkerSlotView { status: status@, ..self@[id@] };
                let mut entries: Vec<(String, WorkerSlot)> = Vec::new();
                std::mem::swap(&mut entries, &mut self.entries);
                entries[index].1.status = status;
                proof {
                    lemma_entry_written(before, WorkerSlots { entries }, id@, slot, index as int);
                }
                self.entries = entries;
            },
            None => {},
        }
    }

    /// The slots one by one, each with its worker's id, in no promised order.
    pub fn into_entries(self) -> (entries: Vec<(String, WorkerSlot)>)
        ensures
            forall|i: int, j: int|
                0 <= i < j < entries@.len() ==> (#[trigger] entries@[i]).0@ != (
                #[trigger] entries@[j]).0@,
            forall|i: int|
                0 <= i < entries@.len() ==> self@.contains_key((#[trigger] entries@[i]).0@)
                    && self@[entries@[i].0@] == entries@[i].1@,
            forall|id: Seq<char>| #[trigger]
                self@.contains_key(id) ==> exists|i: int|
                    0 <= i < entries@.len() && (#[trigger] entries@[i]).0@ == id,
    {
        proof {
            use_type_invariant(&self);
            assert forall|i: int| 0 <= i < self.entries@.len() implies self@.contains_key(
                (#[trigger] self.entries@[i]).0@,
            ) && self@[self.entries@[i].0@] == self.entries@[i].1@ by {
                self.lemma_at(self.entries@[i].0@, i);
            }
        }
        self.entries
    }
}

/// Slots in which a worker has another status, where it has a slot.
pub open spec fn with_status(
    slots: Map<Seq<char>, WorkerSlotView>,
    id: Seq<char>,
    status: WorkerStatusView,
) -> Map<Seq<char>, WorkerSlotView> {
    if slots.contains_key(id) {
        slots.insert(id, WorkerSlotView { status, ..slots[id] })
    } else {
        slots
    }
}

/// Writing one entry, at the place of its id or at the end, writes one key.
proof fn lemma_entry_written(
    before: WorkerSlots,
    after: WorkerSlots,
    id: Seq<char>,
    slot: WorkerSlotView,
    index: int,
)
    requires
        before.distinct(),
        before.is_at(id, index) || index == before.entries@.len() && !before.holds(id),
        0 <= index < after.entries@.len(),
        after.entries@.len() == before.entries@.len() || after.entries@.len() == index + 1
            == before.entries@.len() + 1,
        after.entries@[index].0@ == id,
        after.entries@[index].1@ == slot,
        forall|i: int|
            0 <= i < after.entries@.len() && i != index ==> #[trigger] after.entries@[i]
                == before.entries@[i],
    ensures
        after.distinct(),
        after@ == before@.insert(id, slot),
{
    assert forall|i: int, j: int| 0 <= i < j < after.entries@.len() implies (
    #[trigger] after.entries@[i]).0@ != (#[trigger] after.entries@[j]).0@ by {
        if j == index && !before.is_at(id, index) {
            assert(!before.is_at(id, i));
        }
    }
    assert forall|key: Seq<char>| #[trigger] after@.contains_key(key) == before@.insert(
        id,
        slot,
    ).contains_key(key) by {
        if after@.contains_key(key) {
            let place = after.place(key);
            if place != index {
                assert(before.is_at(key, place));
            }
        }
        if before@.contains_key(key) && key != id {
            let place = before.place(key);
            assert(after.is_at(key, place));
        }
        assert(after.is_at(id, index));
    }
    assert forall|key: Seq<char>| #[trigger] after@.contains_key(key) implies after@[key]
        == before@.insert(id, slot)[key] by {
        let place = after.place(key);
        after.lemma_at(key, place);
        if place != index {
            before.lemma_at(key, place);
        }
    }
}

/// A ticket is found at the place of the first that has its id: none before it
/// has. One that no ticket has the id of is not found.
pub proof fn first_of_an_id_is_found(tickets: Seq<TicketView>, id: Seq<char>)
    ensures
        forall|index: int|
            0 <= index < tickets.len() && (#[trigger] tickets[index]).id == id && (forall|i: int|
                0 <= i < index ==> (#[trigger] tickets[i]).id != id) ==> ticket_position(
                tickets,
                id,
            ) == Some(index),
        ticket_position(tickets, id) matches Some(index) ==> {
            &&& 0 <= index < tickets.len()
            &&& tickets[index].id == id
            &&& forall|i: int| 0 <= i < index ==> (#[trigger] tickets[i]).id != id
        },
        (forall|i: int| 0 <= i < tickets.len() ==> (#[trigger] tickets[i]).id != id)
            ==> ticket_position(tickets, id) is None,
{
    assert forall|index: int|
        0 <= index < tickets.len() && (#[trigger] tickets[index]).id == id && (forall|i: int|
            0 <= i < index ==> (#[trigger] tickets[i]).id != id) implies ticket_position(
        tickets,
        id,
    ) == Some(index) by {
        lemma_first_ticket(tickets, id, index);
    }
}

/// Giving a worker another status changes that worker's status and nothing
/// else; no worker gets a slot by it.
pub proof fn status_changes_alone(
    slots: Map<Seq<char>, WorkerSlotView>,
    id: Seq<char>,
    status: WorkerStatusView,
)
    ensures
        with_status(slots, id, status).dom() == slots.dom(),
        slots.contains_key(id) ==> with_status(slots, id, status)[id].status == status
            && with_status(slots, id, status)[id].details == slots[id].details,
        forall|other: Seq<char>|
            slots.contains_key(other) && other != id ==> #[trigger] with_status(
                slots,
                id,
                status,
            )[other] == slots[other],
{
    assert(with_status(slots, id, status).dom() =~= slots.dom());
}

/// Of a ticket nothing is left out of sight.
pub proof fn ticket_is_seen_whole(ticket: Ticket, worker_id: String, reason: String, attempts: u32)
    ensures
        ticket@.id == ticket.id@,
        ticket@.status == ticket.status@,
        ticket@.attempts == ticket.attempts,
        ticket@.details == ticket.details@,
        ticket.issue_url matches Some(url) ==> ticket@.issue_url == Some(url@),
        ticket.issue_url is None ==> ticket@.issue_url is None,
        TicketStatus::Open@ == TicketStatusView::Open,
        (TicketStatus::Assigned { worker_id })@ == (TicketStatusView::Assigned {
            worker_id: worker_id@,
        }),
        (TicketStatus::InProgress { worker_id })@ == (TicketStatusView::InProgress {
            worker_id: worker_id@,
        }),
        (TicketStatus::AwaitingHuman { worker_id, reason, attempts })@ == (
        TicketStatusView::AwaitingHuman { worker_id: worker_id@, reason: reason@, attempts }),
        (TicketStatus::Other { notation: reason })@ == (TicketStatusView::Other {
            notation: reason@,
        }),
{
}

/// Of a worker's slot nothing is left out of sight.
pub proof fn slot_is_seen_whole(slot: WorkerSlot, ticket_id: String, text: String, url: String)
    ensures
        slot@.status == slot.status@,
        slot@.details == slot.details@,
        WorkerStatus::Idle@ == WorkerStatusView::Idle,
        (WorkerStatus::Assigned { ticket_id, issue_url: Some(url) })@ == (
        WorkerStatusView::Assigned { ticket_id: ticket_id@, issue_url: Some(url@) }),
        (WorkerStatus::Assigned { ticket_id, issue_url: None })@ == (WorkerStatusView::Assigned {
            ticket_id: ticket_id@,
            issue_url: None,
        }),
        (WorkerStatus::Working { ticket_id, details: text })@ == (WorkerStatusView::Working {
            ticket_id: ticket_id@,
            details: text@,
        }),
        (WorkerStatus::Suspended { ticket_id, reason: text, issue_url: Some(url) })@ == (
        WorkerStatusView::Suspended {
            ticket_id: ticket_id@,
            reason: text@,
            issue_url: Some(url@),
        }),
        (WorkerStatus::Suspended { ticket_id, reason: text, issue_url: None })@ == (
        WorkerStatusView::Suspended { ticket_id: ticket_id@, reason: text@, issue_url: None }),
        (WorkerStatus::Other { notation: text })@ == (WorkerStatusView::Other { notation: text@ }),
{
}

} // verus!
