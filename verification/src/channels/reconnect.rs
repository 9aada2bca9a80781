//! When to connect to the gateway again after a connection is over.
use vstd::arithmetic::power2::{lemma2_to64, lemma_pow2_unfold, pow2};
use vstd::prelude::*;

verus! {

/// The wait before the first reconnection, in seconds.
pub const FIRST_BACKOFF_SECS: u64 = 1;

/// The longest wait before a reconnection, in seconds.
pub const BACKOFF_LIMIT_SECS: u64 = 60;

/// What happens between connections. `shutdown` tells whether the program is
/// to stop.
#[derive(Debug, Clone, Copy, PartialEq, Eq, Structural)]
pub enum ReconnectEvent {
    /// The channel starts to listen.
    Started { shutdown: bool },
    /// A connection is over or could not be made.
    SessionOver { shutdown: bool },
    /// The wait is over.
    WaitOver { shutdown: bool },
    /// The shutdown signal changed during the wait.
    WaitInterrupted,
}

/// What is to be done.
#[derive(Debug, Clone, Copy, PartialEq, Eq, Structural)]
pub enum ReconnectAction {
    Connect,
    Wait { secs: u64 },
    Stop,
}

/// How long the next wait is.
#[derive(Debug)]
pub struct Reconnector {
    backoff_secs: u64,
}

impl View for Reconnector {
    type V = u64;

    closed spec fn view(&self) -> u64 {
        self.backoff_secs
    }
}

/// The wait after a wait: twice as long, up to the limit.
pub open spec fn next_backoff(secs: u64) -> u64 {
    if 2 * secs < BACKOFF_LIMIT_SECS {
        (2 * secs) as u64
    } else {
        BACKOFF_LIMIT_SECS
    }
}

/// The wait after some waits are over.
pub open spec fn backoff_after(waits: nat) -> u64
    decreases waits,
{
    if waits == 0 {
        FIRST_BACKOFF_SECS
    } else {
        next_backoff(backoff_after((waits - 1) as nat))
    }
}

/// The next wait after an event.
pub open spec fn backoff_on(secs: u64, event: ReconnectEvent) -> u64 {
    match event {
        ReconnectEvent::WaitOver { .. } => next_backoff(secs),
        _ => secs,
    }
}

/// What is to be done on an event.
pub open spec fn reconnect_action(secs: u64, event: ReconnectEvent) -> ReconnectAction {
    match event {
        ReconnectEvent::Started { shutdown: false } => ReconnectAction::Connect,
        ReconnectEvent::SessionOver { shutdown: false } => ReconnectAction::Wait { secs },
        ReconnectEvent::WaitOver { shutdown: false } => ReconnectAction::Connect,
        _ => ReconnectAction::Stop,
    }
}

impl Reconnector {
    /// The limit is never passed.
    #[verifier::type_invariant]
    spec fn bounded(self) -> bool {
        self.backoff_secs <= BACKOFF_LIMIT_SECS
    }

    /// No wait so far.
    pub fn new() -> (reconnector: Reconnector)
        ensures
            reconnector@ == FIRST_BACKOFF_SECS,
            reconnector@ == 1,
    {
        Reconnector { backoff_secs: FIRST_BACKOFF_SECS }
    }

    /// Takes note of an event and answers what is to be done.
    pub fn step(&mut self, event: ReconnectEvent) -> (action: ReconnectAction)
        ensures
            final(self)@ == backoff_on(old(self)@, event),
            action == reconnect_action(old(self)@, event),
    {
        proof {
            use_type_invariant(&*self);
        }
        match event {
            ReconnectEvent::Started { shutdown } => if shutdown {
                ReconnectAction::Stop
            } else {
                ReconnectAction::Connect
            },
            ReconnectEvent::SessionOver { shutdown } => if shutdown {
                ReconnectAction::Stop
            } else {
                ReconnectAction::Wait { secs: self.backoff_secs }
            },
            ReconnectEvent::WaitOver { shutdown } => {
                let doubled: u64 = self.backoff_secs * 2;
                self.backoff_secs = if doubled < BACKOFF_LIMIT_SECS {
                    doubled
                } else {
                    BACKOFF_LIMIT_SECS
                };
                if shutdown {
                    ReconnectAction::Stop
                } else {
                    ReconnectAction::Connect
                }
            },
            ReconnectEvent::WaitInterrupted => ReconnectAction::Stop,
        }
    }
}

/// The waits are the powers of two in seconds, up to the limit.
pub proof fn backoff_is_exponential(waits: nat)
    ensures
        backoff_after(waits) == if pow2(waits) < BACKOFF_LIMIT_SECS {
            pow2(waits)
        } else {
            BACKOFF_LIMIT_SECS as nat
        },
    decreases waits,
{
    lemma2_to64();
    if waits > 0 {
        backoff_is_exponential((waits - 1) as nat);
        lemma_pow2_unfold(waits);
    }
}

/// No wait is shorter than the one before, none is shorter than the first and
/// none passes the limit.
pub proof fn backoff_grows_to_limit(waits: nat)
    ensures
        backoff_after(waits) <= backoff_after(waits + 1),
        FIRST_BACKOFF_SECS <= backoff_after(waits) <= BACKOFF_LIMIT_SECS,
    decreases waits,
{
    if waits > 0 {
        backoff_grows_to_limit((waits - 1) as nat);
    }
}

/// What is known after a run of events.
pub open spec fn backoff_over(secs: u64, events: Seq<ReconnectEvent>) -> u64
    decreases events.len(),
{
    if events.len() == 0 {
        secs
    } else {
        backoff_on(backoff_over(secs, events.drop_last()), events.last())
    }
}

/// How many waits came to their end in a run of events.
pub open spec fn waits_over(events: Seq<ReconnectEvent>) -> nat
    decreases events.len(),
{
    if events.len() == 0 {
        0
    } else {
        waits_over(events.drop_last()) + if events.last() is WaitOver {
            1nat
        } else {
            0nat
        }
    }
}

/// Whatever happens, the next wait depends only on how many waits are over: a
/// connection that held does not make it short again.
pub proof fn backoff_counts_waits(events: Seq<ReconnectEvent>)
    ensures
        backoff_over(FIRST_BACKOFF_SECS, events) == backoff_after(waits_over(events)),
    decreases events.len(),
{
    if events.len() > 0 {
        backoff_counts_waits(events.drop_last());
    }
}

/// The channel connects when it starts and when a wait is over, and waits when a
/// connection is over; once the program is to stop, it stops, whatever happened.
pub proof fn shutdown_stops(secs: u64, event: ReconnectEvent)
    ensures
        ({
            let stopping = match event {
                ReconnectEvent::Started { shutdown } => shutdown,
                ReconnectEvent::SessionOver { shutdown } => shutdown,
                ReconnectEvent::WaitOver { shutdown } => shutdown,
                ReconnectEvent::WaitInterrupted => true,
            };
            let action = reconnect_action(secs, event);
            &&& action == ReconnectAction::Stop <==> stopping
            &&& action == ReconnectAction::Connect <==> !stopping && (event is Started
                || event is WaitOver)
            &&& action matches ReconnectAction::Wait { secs: told } ==> event is SessionOver
                && told == secs
        }),
{
}

/// A wait that is over makes the next one twice as long, a minute at most;
/// nothing else changes it.
pub proof fn waits_double_to_a_minute(secs: u64, event: ReconnectEvent)
    ensures
        event is WaitOver && secs <= 30 ==> backoff_on(secs, event) == 2 * secs,
        event is WaitOver && secs > 30 ==> backoff_on(secs, event) == 60,
        !(event is WaitOver) ==> backoff_on(secs, event) == secs,
{
}

/// After any run of events, a connection that is over is followed by a wait of
/// as many seconds as two to the power of the number of waits so far, a minute
/// at most, unless the program is to stop.
pub proof fn run_waits_exponentially(events: Seq<ReconnectEvent>)
    ensures
        reconnect_action(backoff_over(1, events), ReconnectEvent::SessionOver { shutdown: false })
            matches ReconnectAction::Wait { secs } && secs == if pow2(waits_over(events)) < 60 {
            pow2(waits_over(events))
        } else {
            60
        },
{
    backoff_counts_waits(events);
    backoff_is_exponential(waits_over(events));
}

} // verus!
